use dlsite::circle::options::CircleQueryOptions;
use dlsite::common::{AgeCategory, FileType, WorkCategory, WorkType};
use dlsite::product::ajax::{ajax_multiple_path, ajax_path};
use dlsite::product::html_path;
use dlsite::product::review::{review_path, ReviewSortOrder};
use dlsite::product_api::product_api_path;
use dlsite::search::options::{
    AnaFlg, Language, OptionAndOr, Order, ProductSearchOptions, ReleaseTerm, SexCategory,
    WorkTypeCategory,
};

#[test]
fn circle_param() {
    assert_eq!(
        "/circle/profile/=/show_type/3/hd/1/without_order/1/maker_id/RG24350.html",
        CircleQueryOptions::default().to_path("RG24350")
    );
}

#[test]
fn circle_param_1() {
    assert_eq!(
        "/circle/profile/=/show_type/3/hd/1/without_order/1/page/2/maker_id/RG24350.html",
        CircleQueryOptions {
            page: Some(2),
            ..Default::default()
        }
        .to_path("RG24350")
    );
}

#[test]
fn circle_param_2() {
    assert_eq!(
        "/circle/profile/=/show_type/3/hd/1/without_order/1/page/2/maker_id/RG24350.html/order/price",
        CircleQueryOptions {
            page: Some(2),
            order: Some(Order::Price),
            ..Default::default()
        }
        .to_path("RG24350")
    );
}

#[test]
fn product_search_param_default() {
    assert_eq!(
        "/fsr/ajax/=/language/jp",
        ProductSearchOptions::default().to_path()
    );
}

#[test]
fn product_search_param_1() {
    assert_eq!(
        "/fsr/ajax/=/language/jp/sex_category[0]/male/price_low/801/file_type[0]/PNG/file_type[1]/EXE/soon/1",
        ProductSearchOptions {
            sex_category: Some(vec![SexCategory::Male]),
            price_low: Some(801),
            file_type: Some(vec![FileType::PNG, FileType::EXE]),
            soon: Some(true),
            is_free: Some(false),
            ..Default::default()
        }
        .to_path()
    );
}

#[test]
fn circle_path_writes_the_page_size_twice() {
    assert_eq!(
        "/circle/profile/=/options[0]/JPN/options[1]/NM/per_page/50/per_page/50/show_type/3/hd/1/without_order/1/maker_id/RG1.html/order/release_d",
        CircleQueryOptions {
            order: Some(Order::ReleaseD),
            options: Some(vec!["JPN".to_string(), "NM".to_string()]),
            per_page: Some(50),
            page: None,
        }
        .to_path("RG1")
    );
}

#[test]
fn product_search_path_with_every_option() {
    let options = ProductSearchOptions {
        language: Language::Jp,
        keyword_creator: Some("someone".to_string()),
        sex_category: Some(vec![SexCategory::Male, SexCategory::Female]),
        keyword: Some("asmr".to_string()),
        regist_date_end: Some("2022-08-25".to_string()),
        price_low: Some(801),
        price_high: Some(1000),
        ana_flg: Some(AnaFlg::Reserve),
        age_category: Some(vec![AgeCategory::General, AgeCategory::R15, AgeCategory::Adult]),
        work_category: Some(vec![WorkCategory::Doujin, WorkCategory::Unknown("x".to_string())]),
        order: Some(Order::DlD),
        work_type: Some(vec![WorkType::SOU, WorkType::Unknown("ZZZ".to_string())]),
        work_type_category: Some(vec![WorkTypeCategory::MovieAudio]),
        genre: Some(vec![497, 0, 4294967295]),
        options_and_or: Some(OptionAndOr::Or),
        options: Some(vec!["JPN".to_string()]),
        options_not: Some(vec!["AIG".to_string(), "AIP".to_string()]),
        file_type: Some(vec![FileType::MP4]),
        rate_average: Some(2),
        per_page: Some(30),
        page: Some(10),
        campagin: Some(true),
        soon: Some(true),
        is_pointup: Some(true),
        is_free: Some(true),
        release_term: Some(ReleaseTerm::NoTerm),
    };
    assert_eq!(
        "/fsr/ajax/=/language/jp/keyword_creator/someone/sex_category[0]/male/sex_category[1]/female\
/keyword/asmr/regist_date_end/2022-08-25/price_low/801/price_high/1000/ana_flg/reserve\
/age_category[0]/general/age_category[1]/r15/age_category[2]/adult\
/work_category[0]/doujin/work_category[1]/x/order/dl_d/work_type[0]/SOU/work_type[1]/ZZZ\
/work_type_category[0]/movie_audio/genre[0]/497/genre[1]/0/genre[2]/4294967295\
/options_and_or/or/options[0]/JPN/options_not[0]/AIG/options_not[1]/AIP/file_type[0]/MP4\
/rate_average/2/per_page/30/page/10/campagin/1/soon/1/is_pointup/1/is_free/1/release_term/None",
        options.to_path()
    );
}

#[test]
fn an_empty_list_adds_nothing_to_the_path() {
    assert_eq!(
        "/fsr/ajax/=/language/jp",
        ProductSearchOptions {
            options: Some(vec![]),
            campagin: Some(false),
            ..Default::default()
        }
        .to_path()
    );
}

#[test]
fn release_terms_are_written_capitalised() {
    assert_eq!("None", ReleaseTerm::NoTerm.to_string());
    assert_eq!("Week", ReleaseTerm::Week.to_string());
    assert_eq!("Month", ReleaseTerm::Month.to_string());
    assert_eq!("Year", ReleaseTerm::Year.to_string());
    assert_eq!("Old", ReleaseTerm::Old.to_string());
}

#[test]
fn orders_are_written_in_snake_case() {
    assert_eq!("trend", Order::Trend.to_string());
    assert_eq!("release", Order::Release.to_string());
    assert_eq!("release_d", Order::ReleaseD.to_string());
    assert_eq!("dl_d", Order::DlD.to_string());
    assert_eq!("dl", Order::Dl.to_string());
    assert_eq!("price", Order::Price.to_string());
    assert_eq!("price_d", Order::PriceD.to_string());
    assert_eq!("rate_d", Order::RateD.to_string());
    assert_eq!("review_d", Order::ReviewD.to_string());
}

#[test]
fn paths_of_a_product() {
    assert_eq!("/work/=/product_id/RJ403038", html_path("RJ403038"));
    assert_eq!("/product/info/ajax?product_id=RJ403038", ajax_path("RJ403038"));
    assert_eq!(
        "/product/info/ajax?product_id=RJ1,RJ2,RJ3",
        ajax_multiple_path(&vec!["RJ1".to_string(), "RJ2".to_string(), "RJ3".to_string()])
    );
    assert_eq!("/product/info/ajax?product_id=", ajax_multiple_path(&vec![]));
    assert_eq!("/api/=/product.json?workno=RJ01014447", product_api_path("RJ01014447"));
    assert_eq!(
        "/api/review?product_id=RJ403038&limit=6&mix_pickup=true&page=1&order=regist_d&locale=ja_JP",
        review_path("RJ403038", 6, 1, true, ReviewSortOrder::New)
    );
    assert_eq!(
        "/api/review?product_id=RJ1&limit=100&mix_pickup=false&page=12&order=top&locale=ja_JP",
        review_path("RJ1", 100, 12, false, ReviewSortOrder::Top)
    );
}
