use dlsite::circle::{decode_circle_page, parse_circle_html, read_circle_page, RawCirclePage};
use dlsite::common::{AgeCategory, WorkType};
use dlsite::error::{DlsiteError, FailureKind};
use dlsite::search::{
    decode_search_item, decode_search_items, decode_search_response, parse_count_str,
    parse_num_str, parse_search_html, read_search_items, RawAuthor, RawLink, RawSearchItem,
    RawThumbnail,
};

fn parse_message<T: std::fmt::Debug>(r: Result<T, DlsiteError>) -> String {
    match r {
        Err(DlsiteError::Parse(_, m)) => m,
        other => panic!("expected a parse error, got {:?}", other),
    }
}

fn item_block(id: &str, title: &str, prices: &str) -> String {
    format!(
        "<li>\
<div data-product_id=\"{id}\" class=\"one\"></div>\
<div class=\"work_thumb_inner\"><img src=\"//img.dlsite.jp/{id}.jpg\"></div>\
<dl>\
<dd class=\"work_category type_SOU\"><a>voice</a></dd>\
<dd class=\"work_name\"><a href=\"/work/{id}.html\" title=\"{title}\">{title}</a></dd>\
<dd class=\"maker_name\"><a href=\"https://www.dlsite.com/maniax/circle/profile/=/maker_id/RG62982.html\">Yostar</a>\
<span class=\"author\"><a href=\"/fsr/x\">Haruka</a></span></dd>\
<dd class=\"work_price_wrap\">{prices}</dd>\
<dd class=\"work_genre\"><span title=\"全年齢\">all</span></dd>\
<dd class=\"work_dl\"><span class=\"_dl_count_{id}\">62,123</span></dd>\
<dd class=\"work_review\"><div><a href=\"#\">(1,234)</a></div></dd>\
<dd class=\"work_rating\"><div class=\"star_rating star_45\"></div></dd>\
</dl>\
</li>"
    )
}

fn listing(blocks: &[String]) -> String {
    format!("<ul id=\"search_result_img_box\">{}</ul>", blocks.concat())
}

const PLAIN_PRICE: &str =
    "<span class=\"work_price\"><span class=\"work_price_base\">1,320</span></span>";

const SALE_PRICE: &str = "<span class=\"work_price discount\"><span class=\"work_price_base\">880</span></span>\
<span class=\"strike\"><span class=\"work_price_base\">1,100</span></span>";

fn full_raw() -> RawSearchItem {
    RawSearchItem {
        product_id: Some(Some("RJ403038".to_string())),
        maker: Some(RawLink {
            text: Some("Yostar".to_string()),
            href: Some("https://www.dlsite.com/maniax/circle/profile/=/maker_id/RG62982.html".to_string()),
        }),
        author: Some(RawAuthor {
            class: Some("author omit".to_string()),
            name: Some(Some("Haruka".to_string())),
        }),
        price: Some(Some("1,320".to_string())),
        struck_price: None,
        title: Some(Some("A title".to_string())),
        age_title: Some(Some("R-15".to_string())),
        dl_count: Some(Some("62,123".to_string())),
        review_count: Some(Some("(56)".to_string())),
        category_class: Some(Some("work_category type_SOU".to_string())),
        thumbnail: Some(RawThumbnail {
            src: None,
            data_src: Some("//img.dlsite.jp/a.jpg".to_string()),
        }),
        rating_class: Some(Some("star_rating star_45 mini".to_string())),
    }
}

#[test]
fn an_item_reproduces_the_values_of_its_block() {
    let html = listing(&[item_block("RJ403038", "A title", PLAIN_PRICE)]);
    let items = parse_search_html(&html).unwrap();
    assert_eq!(1, items.len());
    let item = &items[0];
    assert_eq!("RJ403038", item.id);
    assert_eq!("A title", item.title);
    assert_eq!(Some("Haruka".to_string()), item.creator);
    assert_eq!(Some(false), item.creator_omitted);
    assert_eq!("Yostar", item.circle_name);
    assert_eq!("RG62982", item.circle_id);
    assert_eq!(Some(62123), item.dl_count);
    assert_eq!(Some(62123), item.rate_count);
    assert_eq!(Some(1234), item.review_count);
    assert_eq!(1320, item.price_original);
    assert_eq!(None, item.price_sale);
    assert_eq!(AgeCategory::General, item.age_category);
    assert_eq!(WorkType::SOU, item.work_type);
    assert_eq!("https://img.dlsite.jp/RJ403038.jpg", item.thumbnail_url);
    assert_eq!(vec!["rating".to_string(), "45".to_string()], item.rating_tokens);
}

#[test]
fn reading_a_listing_twice_gives_the_same_records() {
    let html = listing(&[
        item_block("RJ1", "One", PLAIN_PRICE),
        item_block("RJ2", "Two", SALE_PRICE),
    ]);
    let first = parse_search_html(&html).unwrap();
    let second = parse_search_html(&html).unwrap();
    assert_eq!(format!("{:?}", first), format!("{:?}", second));
}

#[test]
fn items_come_in_document_order() {
    let ids = ["RJ5", "RJ1", "RJ9", "RJ3", "RJ7", "RJ2"];
    let blocks: Vec<String> = ids.iter().map(|id| item_block(id, id, PLAIN_PRICE)).collect();
    let items = parse_search_html(&listing(&blocks)).unwrap();
    let read: Vec<&str> = items.iter().map(|i| i.id.as_str()).collect();
    assert_eq!(ids.to_vec(), read);
}

#[test]
fn an_empty_listing_has_no_items() {
    assert_eq!(0, parse_search_html("<ul id=\"search_result_img_box\"></ul>").unwrap().len());
    assert_eq!(0, parse_search_html("").unwrap().len());
    assert_eq!(0, parse_search_html("<ul><li>not a listing</li></ul>").unwrap().len());
}

#[test]
fn a_struck_price_is_the_original_and_the_other_the_sale_price() {
    let html = listing(&[item_block("RJ1", "One", SALE_PRICE)]);
    let items = parse_search_html(&html).unwrap();
    assert_eq!(1100, items[0].price_original);
    assert_eq!(Some(880), items[0].price_sale);
}

#[test]
fn a_single_price_is_the_original_and_there_is_no_sale_price() {
    let html = listing(&[item_block("RJ1", "One", PLAIN_PRICE)]);
    let items = parse_search_html(&html).unwrap();
    assert_eq!(1320, items[0].price_original);
    assert_eq!(None, items[0].price_sale);
}

#[test]
fn raw_prices_are_told_apart_by_the_struck_one() {
    let mut raw = full_raw();
    raw.price = Some(Some("880".to_string()));
    raw.struck_price = Some(Some("1,100".to_string()));
    let item = decode_search_item(&raw).unwrap();
    assert_eq!(1100, item.price_original);
    assert_eq!(Some(880), item.price_sale);

    let mut raw = full_raw();
    raw.price = Some(Some("990".to_string()));
    raw.struck_price = None;
    let item = decode_search_item(&raw).unwrap();
    assert_eq!(990, item.price_original);
    assert_eq!(None, item.price_sale);
}

#[test]
fn a_raw_item_decodes_field_by_field() {
    let item = decode_search_item(&full_raw()).unwrap();
    assert_eq!("RJ403038", item.id);
    assert_eq!("A title", item.title);
    assert_eq!(Some("Haruka".to_string()), item.creator);
    assert_eq!(Some(true), item.creator_omitted);
    assert_eq!("Yostar", item.circle_name);
    assert_eq!("RG62982", item.circle_id);
    assert_eq!(Some(62123), item.dl_count);
    assert_eq!(Some(62123), item.rate_count);
    assert_eq!(Some(56), item.review_count);
    assert_eq!(1320, item.price_original);
    assert_eq!(None, item.price_sale);
    assert_eq!(AgeCategory::R15, item.age_category);
    assert_eq!(WorkType::SOU, item.work_type);
    assert_eq!("https://img.dlsite.jp/a.jpg", item.thumbnail_url);
    assert_eq!(vec!["rating".to_string(), "45".to_string()], item.rating_tokens);
}

#[test]
fn optional_parts_may_be_missing() {
    let mut raw = full_raw();
    raw.author = None;
    raw.age_title = None;
    raw.dl_count = None;
    raw.review_count = None;
    raw.rating_class = None;
    raw.maker = Some(RawLink { text: None, href: Some("RG1".to_string()) });
    let item = decode_search_item(&raw).unwrap();
    assert_eq!(None, item.creator);
    assert_eq!(None, item.creator_omitted);
    assert_eq!(AgeCategory::Adult, item.age_category);
    assert_eq!(None, item.dl_count);
    assert_eq!(None, item.rate_count);
    assert_eq!(None, item.review_count);
    assert_eq!("", item.circle_name);
    assert_eq!("RG1", item.circle_id);
    assert!(item.rating_tokens.is_empty());
}

#[test]
fn a_missing_mandatory_part_fails_the_item() {
    let mut raw = full_raw();
    raw.product_id = None;
    assert_eq!("Failed to find data element", parse_message(decode_search_item(&raw)));
    let mut raw = full_raw();
    raw.maker = None;
    assert_eq!("Failed to find maker element", parse_message(decode_search_item(&raw)));
    let mut raw = full_raw();
    raw.price = None;
    assert_eq!("Failed to find price element", parse_message(decode_search_item(&raw)));
    let mut raw = full_raw();
    raw.product_id = Some(None);
    assert_eq!("Failed to get product id", parse_message(decode_search_item(&raw)));
    let mut raw = full_raw();
    raw.title = None;
    assert_eq!("Failed to get title", parse_message(decode_search_item(&raw)));
    let mut raw = full_raw();
    raw.maker = Some(RawLink { text: Some("x".to_string()), href: None });
    assert_eq!("Failed to get maker link", parse_message(decode_search_item(&raw)));
    let mut raw = full_raw();
    raw.category_class = None;
    assert_eq!("Failed to find work category", parse_message(decode_search_item(&raw)));
    let mut raw = full_raw();
    raw.category_class = Some(None);
    assert_eq!("Failed to find worktype", parse_message(decode_search_item(&raw)));
    let mut raw = full_raw();
    raw.thumbnail = None;
    assert_eq!("Failed to find thumbnail", parse_message(decode_search_item(&raw)));
    let mut raw = full_raw();
    raw.thumbnail = Some(RawThumbnail { src: None, data_src: None });
    assert_eq!("Failed to find thumbnail", parse_message(decode_search_item(&raw)));
}

#[test]
fn a_malformed_part_fails_the_item() {
    let mut raw = full_raw();
    raw.age_title = Some(None);
    assert_eq!("Age category parse error", parse_message(decode_search_item(&raw)));
    let mut raw = full_raw();
    raw.age_title = Some(Some("R18".to_string()));
    assert_eq!(
        "Age category parse error: invalid title",
        parse_message(decode_search_item(&raw))
    );
    let mut raw = full_raw();
    raw.author = Some(RawAuthor { class: Some("author".to_string()), name: None });
    assert_eq!("Failed to find creator", parse_message(decode_search_item(&raw)));
    let mut raw = full_raw();
    raw.author = Some(RawAuthor { class: None, name: Some(Some("x".to_string())) });
    assert_eq!("Failed to find creator", parse_message(decode_search_item(&raw)));
    let mut raw = full_raw();
    raw.dl_count = Some(None);
    assert_eq!("Failed to get dl count", parse_message(decode_search_item(&raw)));
    let mut raw = full_raw();
    raw.dl_count = Some(Some("(12)".to_string()));
    assert_eq!("Invalid dl count", parse_message(decode_search_item(&raw)));
    let mut raw = full_raw();
    raw.review_count = Some(None);
    assert_eq!("Failed to get review count", parse_message(decode_search_item(&raw)));
    let mut raw = full_raw();
    raw.review_count = Some(Some("many".to_string()));
    assert_eq!("Failed to parse string to count", parse_message(decode_search_item(&raw)));
    let mut raw = full_raw();
    raw.price = Some(None);
    assert_eq!("Failed to find price", parse_message(decode_search_item(&raw)));
    let mut raw = full_raw();
    raw.price = Some(Some("free".to_string()));
    assert_eq!("Failed to parse string to number", parse_message(decode_search_item(&raw)));
    let mut raw = full_raw();
    raw.struck_price = Some(Some("1,100".to_string()));
    raw.price = Some(Some("".to_string()));
    assert_eq!("Failed to parse string to number", parse_message(decode_search_item(&raw)));
}

#[test]
fn the_kind_of_work_is_the_first_known_type_token() {
    let mut raw = full_raw();
    raw.category_class = Some(Some("work_category type_exclusive type_ZZZ type_MNG type_SOU".to_string()));
    assert_eq!(WorkType::MNG, decode_search_item(&raw).unwrap().work_type);
    let mut raw = full_raw();
    raw.category_class = Some(Some("type_SOU".to_string()));
    assert_eq!(WorkType::SOU, decode_search_item(&raw).unwrap().work_type);
}

#[test]
fn an_unknown_kind_of_work_keeps_its_text() {
    let mut raw = full_raw();
    raw.category_class = Some(Some("work_category type_XYZ".to_string()));
    assert_eq!(WorkType::Unknown("XYZ".to_string()), decode_search_item(&raw).unwrap().work_type);
    let mut raw = full_raw();
    raw.category_class = Some(Some("work_category type_exclusive type_ZZZ".to_string()));
    assert_eq!(
        WorkType::Unknown("exclusive".to_string()),
        decode_search_item(&raw).unwrap().work_type
    );
    let mut raw = full_raw();
    raw.category_class = Some(Some("type_ work_category".to_string()));
    assert_eq!(WorkType::Unknown("".to_string()), decode_search_item(&raw).unwrap().work_type);
    let mut raw = full_raw();
    raw.category_class = Some(Some("work_category".to_string()));
    assert_eq!(WorkType::Unknown("".to_string()), decode_search_item(&raw).unwrap().work_type);
    let mut raw = full_raw();
    raw.category_class = Some(Some("".to_string()));
    assert_eq!(WorkType::Unknown("".to_string()), decode_search_item(&raw).unwrap().work_type);
}

#[test]
fn an_unknown_kind_of_work_in_markup_is_no_failure() {
    let html = "<ul id=search_result_img_box><li><div data-product_id=RJ1></div>\
<p class=maker_name><a href=/G1.html>C</a></p><p class=work_name><a title=T></a></p>\
<p class=work_price_wrap><i class=work_price><b class=work_price_base>550</b></i></p>\
<p class='work_category type_XYZ'></p><p class=work_thumb_inner><img src=//x></p></li></ul>";
    let items = parse_search_html(html).unwrap();
    assert_eq!(1, items.len());
    assert_eq!(WorkType::Unknown("XYZ".to_string()), items[0].work_type);
    assert_eq!("RJ1", items[0].id);
    assert_eq!(550, items[0].price_original);
}

#[test]
fn one_failing_block_fails_the_whole_listing() {
    let good = full_raw();
    let mut bad = full_raw();
    bad.product_id = None;
    let mut worse = full_raw();
    worse.maker = None;
    assert_eq!(
        "Failed to find data element",
        parse_message(decode_search_items(&vec![good.clone(), bad, worse, good.clone()]))
    );
    assert_eq!(2, decode_search_items(&vec![good.clone(), good]).unwrap().len());
    assert_eq!(0, decode_search_items(&vec![]).unwrap().len());
}

#[test]
fn a_block_without_its_identifier_fails_the_listing_read_from_markup() {
    let broken = "<li><dl><dd class=\"maker_name\"><a href=\"x\">m</a></dd></dl></li>".to_string();
    let html = listing(&[item_block("RJ1", "One", PLAIN_PRICE), broken]);
    assert_eq!("Failed to find data element", parse_message(parse_search_html(&html)));
}

#[test]
fn blocks_are_read_at_their_selectors() {
    let html = listing(&[item_block("RJ1", "One", SALE_PRICE)]);
    let raws = read_search_items(&html);
    assert_eq!(1, raws.len());
    let raw = &raws[0];
    assert_eq!(Some(Some("RJ1".to_string())), raw.product_id);
    assert_eq!(Some(Some("880".to_string())), raw.price);
    assert_eq!(Some(Some("1,100".to_string())), raw.struck_price);
    assert_eq!(Some(Some("One".to_string())), raw.title);
    assert_eq!(Some(Some("全年齢".to_string())), raw.age_title);
    assert_eq!(Some(Some("62,123".to_string())), raw.dl_count);
    assert_eq!(Some(Some("(1,234)".to_string())), raw.review_count);
    assert_eq!(Some(Some("work_category type_SOU".to_string())), raw.category_class);
    assert_eq!(Some(Some("star_rating star_45".to_string())), raw.rating_class);
    let maker = raw.maker.as_ref().unwrap();
    assert_eq!(Some("Yostar".to_string()), maker.text);
    let author = raw.author.as_ref().unwrap();
    assert_eq!(Some("author".to_string()), author.class);
    assert_eq!(Some(Some("Haruka".to_string())), author.name);
    let thumbnail = raw.thumbnail.as_ref().unwrap();
    assert_eq!(Some("//img.dlsite.jp/RJ1.jpg".to_string()), thumbnail.src);
    assert_eq!(None, thumbnail.data_src);
}

#[test]
fn counts_and_numbers() {
    assert_eq!(1234, parse_count_str("(1,234)").unwrap());
    assert_eq!(7, parse_count_str("7").unwrap());
    assert_eq!("Failed to parse string to count", parse_message(parse_count_str("")));
    assert_eq!("Failed to parse string to count", parse_message(parse_count_str("(1.5)")));
    assert_eq!(1320, parse_num_str("1,320").unwrap());
    assert_eq!(-5, parse_num_str("-5").unwrap());
    assert_eq!("Failed to parse string to number", parse_message(parse_num_str("(12)")));
    assert_eq!("Failed to parse string to number", parse_message(parse_num_str("3,000,000,000")));
}

#[test]
fn the_answer_to_a_search_is_a_listing_inside_json() {
    let html = listing(&[item_block("RJ1", "One", PLAIN_PRICE), item_block("RJ2", "Two", SALE_PRICE)]);
    let text = format!(
        "{{\"search_result\":{},\"page_info\":{{\"count\":321,\"first_indice\":1}}}}",
        serde_json::Value::String(html)
    );
    let found = decode_search_response(&text, "/fsr/ajax/=/language/jp".to_string()).unwrap();
    assert_eq!(321, found.count);
    assert_eq!("/fsr/ajax/=/language/jp", found.query_path);
    assert_eq!(2, found.products.len());
    assert_eq!("RJ2", found.products[1].id);

    assert!(matches!(
        decode_search_response("{", "p".to_string()),
        Err(DlsiteError::SerdeJson(_))
    ));
    assert_eq!(
        "missing field `search_result`",
        parse_message(decode_search_response("{\"page_info\":{\"count\":1}}", "p".to_string()))
    );
    assert_eq!(
        "page_info: count: expected an integer",
        parse_message(decode_search_response(
            "{\"search_result\":\"\",\"page_info\":{\"count\":\"1\"}}",
            "p".to_string()
        ))
    );
}

#[test]
fn the_page_of_a_circle_is_a_listing_with_a_total() {
    let html = format!(
        "<div class=\"page_total\"><strong>57</strong> works</div>\
<div id=\"search_result_list\">{}</div>",
        listing(&[item_block("RJ1", "One", PLAIN_PRICE)])
    );
    let raw = read_circle_page(&html);
    assert_eq!(Some(Some("57".to_string())), raw.total);
    assert!(raw.list_html.as_ref().unwrap().starts_with("<div id=\"search_result_list\">"));
    let found = parse_circle_html(&html, "/circle/x".to_string()).unwrap();
    assert_eq!(57, found.count);
    assert_eq!("/circle/x", found.query_path);
    assert_eq!(1, found.products.len());
    assert_eq!("RJ1", found.products[0].id);
}

#[test]
fn the_page_of_a_circle_fails_without_its_list_or_its_total() {
    assert_eq!(
        "Product list not found",
        parse_message(parse_circle_html("<p>nothing</p>", "p".to_string()))
    );
    let no_total = RawCirclePage { list_html: Some("".to_string()), total: None };
    assert_eq!(
        "No total item count found",
        parse_message(decode_circle_page(&no_total, "p".to_string()))
    );
    let empty_total = RawCirclePage { list_html: Some("".to_string()), total: Some(None) };
    assert_eq!(
        "No total item count found 2",
        parse_message(decode_circle_page(&empty_total, "p".to_string()))
    );
    let bad_total = RawCirclePage {
        list_html: Some("".to_string()),
        total: Some(Some("1,000".to_string())),
    };
    assert_eq!(
        "Failed to parse total item count",
        parse_message(decode_circle_page(&bad_total, "p".to_string()))
    );
}

#[test]
fn a_failure_says_of_which_kind_it_is() {
    let mut raw = full_raw();
    raw.product_id = None;
    assert!(matches!(
        decode_search_item(&raw),
        Err(DlsiteError::Parse(FailureKind::StructuralMismatch, _))
    ));
    let mut raw = full_raw();
    raw.age_title = Some(None);
    assert!(matches!(
        decode_search_item(&raw),
        Err(DlsiteError::Parse(FailureKind::StructuralMismatch, _))
    ));
    let mut raw = full_raw();
    raw.price = Some(Some("free".to_string()));
    assert!(matches!(
        decode_search_item(&raw),
        Err(DlsiteError::Parse(FailureKind::FieldFormat, _))
    ));
    let mut raw = full_raw();
    raw.age_title = Some(Some("R18".to_string()));
    assert_eq!(Some(FailureKind::FieldFormat), decode_search_item(&raw).unwrap_err().kind());
    assert_eq!(Some(FailureKind::FieldFormat), parse_count_str("x").unwrap_err().kind());
    assert_eq!(Some(FailureKind::FieldFormat), parse_num_str("x").unwrap_err().kind());
    assert_eq!(
        Some(FailureKind::ShapeMismatch),
        decode_search_response("{}", "p".to_string()).unwrap_err().kind()
    );
    assert_eq!(None, decode_search_response("{", "p".to_string()).unwrap_err().kind());
    assert_eq!(
        Some(FailureKind::StructuralMismatch),
        parse_circle_html("<p>nothing</p>", "p".to_string()).unwrap_err().kind()
    );
    let bad_total = RawCirclePage {
        list_html: Some("".to_string()),
        total: Some(Some("1,000".to_string())),
    };
    assert_eq!(
        Some(FailureKind::FieldFormat),
        decode_circle_page(&bad_total, "p".to_string()).unwrap_err().kind()
    );
}
