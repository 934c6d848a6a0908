use dlsite::common::{AgeCategory, Genre, WorkType};
use dlsite::dates::Date;
use dlsite::error::DlsiteError;
use dlsite::product::ajax::{decode_ajax, ProductAjax};
use dlsite::product::html::{parse_product_html, ProductHtml};
use dlsite::product::review::{decode_review, ProductReview};
use dlsite::product::{aggregate, get_all, join3, merge, AggregationError, Source};

const PAGE: &str = "<html><body>\
<div id=\"work_maker\"><span class=\"maker_name\"><a href=\"/circle/RG62982.html\">Yostar</a></span></div>\
<div class=\"product-slider-data\"><div data-src=\"//img.dlsite.jp/a.jpg\"></div></div>\
<table id=\"work_outline\">\
<tr><th>販売日</th><td>2022年07月17日</td></tr>\
<tr><th>年齢指定</th><td><span>全年齢</span></td></tr>\
<tr><th>声優</th><td><a>Haruka</a></td></tr>\
<tr><th>ジャンル</th><td><a href=\"/fsr/=/genre/497/from/work.genre\">ASMR</a></td></tr>\
<tr><th>シリーズ名</th><td>Series</td></tr>\
<tr><th>ファイル形式</th><td><div class=\"work_genre\"><span>WAV</span></div></td></tr>\
</table></body></html>";

const REVIEW: &str = "{\"is_success\": true, \"error_msg\": \"\", \"review_list\": [], \
\"reviewer_genre_list\": [{\"genre\": \"497\", \"genre_count\": \"12\", \"name\": \"ASMR\"}]}";

const AJAX: &str = r#"{
 "RJ403038": {
  "is_downloadable_touch": null,
  "dl_count_total": null,
  "rate_average": null,
  "rate_average_star": null,
  "title_work_count": null,
  "discount_rate": null,
  "discount_campaign_id": null,
  "title_volumn": null,
  "discount_calc_type": null,
  "bulkbuy_key": null,
  "campaign_id": null,
  "official_price_str": null,
  "discount_end_date": null,
  "discount_to": null,
  "is_tartget": null,
  "share_title": null,
  "samples": null,
  "product_id": null,
  "maker_name": null,
  "title_id": null,
  "title_name": null,
  "title_name_masked": null,
  "site_id": "s",
  "site_id_touch": "s",
  "price_str": "s",
  "down_url": "s",
  "work_name_masked": "s",
  "work_image": "s",
  "regist_date": "s",
  "default_point_str": "s",
  "options": "s",
  "dlsiteplay_work": true,
  "is_discount": true,
  "is_pointup": true,
  "is_rental": true,
  "is_ana": true,
  "is_sale": true,
  "is_title_completed": true,
  "is_limit_work": true,
  "is_sold_out": true,
  "is_reserve_work": true,
  "is_reservable": true,
  "is_timesale": true,
  "is_free": true,
  "is_oly": true,
  "is_led": true,
  "is_noreduction": true,
  "is_wcc": true,
  "is_pack_work": true,
  "upgrade_min_price": 7,
  "limit_stock": 7,
  "timesale_stock": 7,
  "official_price": 7,
  "age_category": 7,
  "affiliate_deny": 7,
  "dl_format": 7,
  "wishlist_count": 7,
  "price_without_tax": 7,
  "default_point_rate": 7,
  "default_point": 7,
  "on_sale": 7,
  "currency_official_price": null,
  "locale_official_price": null,
  "book_type": null,
  "locale_official_price_str": null,
  "translators": null,
  "sales_end_info": null,
  "voice_pack": null,
  "dl_count_items": [
   {
    "edition_type": "s",
    "lang": "s",
    "workno": "s",
    "display_order": 7,
    "display_label": "s",
    "edition_id": 7,
    "label": "s",
    "dl_count": "12"
   }
  ],
  "locale_price": {
   "en_US": 9.07,
   "ja_JP": 1320
  },
  "currency_price": {},
  "custom_genres": [],
  "locale_price_str": {},
  "translation_info": {
   "lang": null,
   "original_workno": null,
   "parent_workno": null,
   "production_trade_price_rate": 7,
   "is_volunteer": true,
   "translation_bonus_langs": {
    "ENG": {
     "child_count": 7,
     "price": 7,
     "price_in_tax": 7,
     "price_tax": 7,
     "recipient_available_count": 7,
     "recipient_max": 7,
     "status": "s"
    }
   },
   "is_translation_bonus_child": true,
   "is_translation_agree": true,
   "is_original": true,
   "is_child": true,
   "is_parent": true,
   "child_worknos": []
  },
  "rank": [
   {
    "rank_date": "s",
    "rank": 7,
    "category": "s",
    "term": "s"
   }
  ],
  "rate_count_detail": [],
  "bonuses": [],
  "limited_free_terms": [],
  "maker_id": "RG62982",
  "dl_count": "62123",
  "review_count": 45,
  "rate_average_2dp": 4.67,
  "rate_count": 120,
  "work_name": "A work",
  "price": 1320,
  "work_type": "SOU",
  "product_point_rate": null,
  "discount_caption": null,
  "gift": [],
  "work_rentals": []
 },
 "RJ000002": {
  "is_downloadable_touch": null,
  "dl_count_total": null,
  "rate_average": null,
  "rate_average_star": null,
  "title_work_count": null,
  "discount_rate": null,
  "discount_campaign_id": null,
  "title_volumn": null,
  "discount_calc_type": null,
  "bulkbuy_key": null,
  "campaign_id": null,
  "official_price_str": null,
  "discount_end_date": null,
  "discount_to": null,
  "is_tartget": null,
  "share_title": null,
  "samples": null,
  "product_id": null,
  "maker_name": null,
  "title_id": null,
  "title_name": null,
  "title_name_masked": null,
  "site_id": "s",
  "site_id_touch": "s",
  "price_str": "s",
  "down_url": "s",
  "work_name_masked": "s",
  "work_image": "s",
  "regist_date": "s",
  "default_point_str": "s",
  "options": "s",
  "dlsiteplay_work": true,
  "is_discount": true,
  "is_pointup": true,
  "is_rental": true,
  "is_ana": true,
  "is_sale": true,
  "is_title_completed": true,
  "is_limit_work": true,
  "is_sold_out": true,
  "is_reserve_work": true,
  "is_reservable": true,
  "is_timesale": true,
  "is_free": true,
  "is_oly": true,
  "is_led": true,
  "is_noreduction": true,
  "is_wcc": true,
  "is_pack_work": true,
  "upgrade_min_price": 7,
  "limit_stock": 7,
  "timesale_stock": 7,
  "official_price": 7,
  "age_category": 7,
  "affiliate_deny": 7,
  "dl_format": 7,
  "wishlist_count": 7,
  "price_without_tax": 7,
  "default_point_rate": 7,
  "default_point": 7,
  "on_sale": 7,
  "currency_official_price": null,
  "locale_official_price": null,
  "book_type": null,
  "locale_official_price_str": null,
  "translators": null,
  "sales_end_info": null,
  "voice_pack": null,
  "dl_count_items": [
   {
    "edition_type": "s",
    "lang": "s",
    "workno": "s",
    "display_order": 7,
    "display_label": "s",
    "edition_id": 7,
    "label": "s",
    "dl_count": "12"
   }
  ],
  "locale_price": {
   "en_US": 9.07,
   "ja_JP": 1320
  },
  "currency_price": {},
  "custom_genres": [],
  "locale_price_str": {},
  "translation_info": {
   "lang": null,
   "original_workno": null,
   "parent_workno": null,
   "production_trade_price_rate": 7,
   "is_volunteer": true,
   "translation_bonus_langs": {
    "ENG": {
     "child_count": 7,
     "price": 7,
     "price_in_tax": 7,
     "price_tax": 7,
     "recipient_available_count": 7,
     "recipient_max": 7,
     "status": "s"
    }
   },
   "is_translation_bonus_child": true,
   "is_translation_agree": true,
   "is_original": true,
   "is_child": true,
   "is_parent": true,
   "child_worknos": []
  },
  "rank": [
   {
    "rank_date": "s",
    "rank": 7,
    "category": "s",
    "term": "s"
   }
  ],
  "rate_count_detail": [],
  "bonuses": [],
  "limited_free_terms": [],
  "maker_id": "RG62982",
  "dl_count": "62123",
  "review_count": 45,
  "rate_average_2dp": 4.67,
  "rate_count": 120,
  "work_name": "A work",
  "price": 1320,
  "work_type": "SOU",
  "product_point_rate": null,
  "discount_caption": null,
  "gift": [],
  "work_rentals": []
 }
}"#;

fn page() -> Result<ProductHtml, DlsiteError> {
    parse_product_html(PAGE)
}

fn summary() -> Result<ProductAjax, DlsiteError> {
    decode_ajax(AJAX, "RJ403038")
}

fn reviews() -> Result<ProductReview, DlsiteError> {
    decode_review(REVIEW)
}

fn failure(message: &str) -> DlsiteError {
    DlsiteError::Server(message.to_string())
}

#[test]
fn each_field_of_a_product_comes_from_its_source() {
    let product = get_all("RJ403038", PAGE, AJAX, REVIEW).unwrap();
    assert_eq!("RJ403038", product.id);
    assert_eq!("A work", product.title);
    assert_eq!(WorkType::SOU, product.work_type);
    assert_eq!(1320, product.price);
    assert_eq!("4.67", product.rating.unwrap().digits);
    assert_eq!(Some(120), product.rate_count);
    assert_eq!(Some(62123), product.sale_count);
    assert_eq!(Some(45), product.review_count);
    assert_eq!(Date { year: 2022, month: 7, day: 17 }, product.released_at);
    assert_eq!(Some(AgeCategory::General), product.age_rating);
    assert_eq!(vec![Genre { name: "ASMR".to_string(), id: "497".to_string() }], product.genre);
    assert_eq!(Some("Series".to_string()), product.series);
    assert_eq!("Yostar", product.circle_name);
    assert_eq!("RG62982", product.circle_id);
    assert_eq!(vec!["https://img.dlsite.jp/a.jpg".to_string()], product.images);
    assert_eq!(Some(vec!["Haruka".to_string()]), product.people.voice_actor);
    assert_eq!(None, product.people.author);
    assert_eq!(
        vec![(Genre { name: "ASMR".to_string(), id: "497".to_string() }, 12)],
        product.reviewer_genre
    );
    assert_eq!(vec!["WAV".to_string()], product.file_format);
    assert_eq!(None, product.file_size);
    assert!(product.product_format.is_empty());
}

#[test]
fn merging_takes_the_identifier_from_the_caller() {
    let product = merge("rj-as-asked", page().unwrap(), summary().unwrap(), reviews().unwrap());
    assert_eq!("rj-as-asked", product.id);
    let mut without = reviews().unwrap();
    without.reviewer_genre_list = None;
    let product = merge("RJ1", page().unwrap(), summary().unwrap(), without);
    assert!(product.reviewer_genre.is_empty());
}

fn failed<T: std::fmt::Debug>(r: Result<T, AggregationError<DlsiteError>>) -> (Source, String) {
    match r {
        Err(AggregationError { source, error }) => (source, error.message()),
        other => panic!("expected a failure, got {:?}", other),
    }
}

#[test]
fn one_failing_source_fails_the_product() {
    let r = aggregate("RJ1", Err(failure("page")), summary(), reviews());
    assert_eq!((Source::Page, "page".to_string()), failed(r));
    let r = aggregate("RJ1", page(), Err(failure("summary")), reviews());
    assert_eq!((Source::Summary, "summary".to_string()), failed(r));
    let r = aggregate("RJ1", page(), summary(), Err(failure("reviews")));
    assert_eq!((Source::Reviews, "reviews".to_string()), failed(r));
    assert!(aggregate("RJ1", page(), summary(), reviews()).is_ok());
}

#[test]
fn the_first_failure_is_the_one_that_is_reported() {
    let r = aggregate("RJ1", Err(failure("page")), Err(failure("summary")), Err(failure("reviews")));
    assert_eq!((Source::Page, "page".to_string()), failed(r));
    let r = aggregate("RJ1", page(), Err(failure("summary")), Err(failure("reviews")));
    assert_eq!((Source::Summary, "summary".to_string()), failed(r));
    assert_eq!(
        Err(AggregationError { source: Source::Summary, error: "b" }),
        join3::<i32, i32, i32, &str>(Ok(1), Err("b"), Err("c"))
    );
    assert_eq!(
        Err(AggregationError { source: Source::Reviews, error: "c" }),
        join3::<i32, i32, i32, &str>(Ok(1), Ok(2), Err("c"))
    );
    assert_eq!(Ok((1, "x", true)), join3::<i32, &str, bool, &str>(Ok(1), Ok("x"), Ok(true)));
}

#[test]
fn a_product_fails_with_the_failure_of_its_text_and_names_the_source() {
    assert_eq!(
        (Source::Page, "No circle found".to_string()),
        failed(get_all("RJ403038", "", AJAX, REVIEW))
    );
    assert_eq!(
        (Source::Summary, "Failed to parse ajax json".to_string()),
        failed(get_all("RJ999999", PAGE, AJAX, REVIEW))
    );
    assert_eq!(
        (Source::Reviews, "Failed to get review: down".to_string()),
        failed(get_all("RJ403038", PAGE, AJAX, "{\"is_success\": false, \"error_msg\": \"down\"}"))
    );
    assert!(matches!(
        get_all("RJ403038", PAGE, "{", REVIEW),
        Err(AggregationError { source: Source::Summary, error: DlsiteError::SerdeJson(_) })
    ));
}
