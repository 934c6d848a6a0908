use dlsite::common::{AgeCategory, FileType, Genre, WorkCategory, WorkType};
use dlsite::error::{DlsiteError, FailureKind};
use dlsite::json::{parse_json, Json, Member};
use dlsite::product::ajax::{decode_ajax, decode_ajax_multiple, TranslationBonusLangsTypes};
use dlsite::product::review::{decode_review, decode_review_json};
use dlsite::product_api::decode_product_api;
use dlsite::product_api::interface::StrOrBool;
use dlsite::shape::{
    default_on_error, field, one_or_many, present_field, seq_or_map, Either, FromJson, Keyed,
    KeyedOrSeq,
};

const AJAX: &str = r#"{
 "RJ403038": {
  "is_downloadable_touch": null,
  "dl_count_total": null,
  "rate_average": null,
  "rate_average_star": null,
  "title_work_count": null,
  "discount_rate": null,
  "discount_campaign_id": null,
  "title_volumn": null,
  "discount_calc_type": null,
  "bulkbuy_key": null,
  "campaign_id": null,
  "official_price_str": null,
  "discount_end_date": null,
  "discount_to": null,
  "is_tartget": null,
  "share_title": null,
  "samples": null,
  "product_id": null,
  "maker_name": null,
  "title_id": null,
  "title_name": null,
  "title_name_masked": null,
  "site_id": "s",
  "site_id_touch": "s",
  "price_str": "s",
  "down_url": "s",
  "work_name_masked": "s",
  "work_image": "s",
  "regist_date": "s",
  "default_point_str": "s",
  "options": "s",
  "dlsiteplay_work": true,
  "is_discount": true,
  "is_pointup": true,
  "is_rental": true,
  "is_ana": true,
  "is_sale": true,
  "is_title_completed": true,
  "is_limit_work": true,
  "is_sold_out": true,
  "is_reserve_work": true,
  "is_reservable": true,
  "is_timesale": true,
  "is_free": true,
  "is_oly": true,
  "is_led": true,
  "is_noreduction": true,
  "is_wcc": true,
  "is_pack_work": true,
  "upgrade_min_price": 7,
  "limit_stock": 7,
  "timesale_stock": 7,
  "official_price": 7,
  "age_category": 7,
  "affiliate_deny": 7,
  "dl_format": 7,
  "wishlist_count": 7,
  "price_without_tax": 7,
  "default_point_rate": 7,
  "default_point": 7,
  "on_sale": 7,
  "currency_official_price": null,
  "locale_official_price": null,
  "book_type": null,
  "locale_official_price_str": null,
  "translators": null,
  "sales_end_info": null,
  "voice_pack": null,
  "dl_count_items": [
   {
    "edition_type": "s",
    "lang": "s",
    "workno": "s",
    "display_order": 7,
    "display_label": "s",
    "edition_id": 7,
    "label": "s",
    "dl_count": "12"
   }
  ],
  "locale_price": {
   "en_US": 9.07,
   "ja_JP": 1320
  },
  "currency_price": {},
  "custom_genres": [],
  "locale_price_str": {},
  "translation_info": {
   "lang": null,
   "original_workno": null,
   "parent_workno": null,
   "production_trade_price_rate": 7,
   "is_volunteer": true,
   "translation_bonus_langs": {
    "ENG": {
     "child_count": 7,
     "price": 7,
     "price_in_tax": 7,
     "price_tax": 7,
     "recipient_available_count": 7,
     "recipient_max": 7,
     "status": "s"
    }
   },
   "is_translation_bonus_child": true,
   "is_translation_agree": true,
   "is_original": true,
   "is_child": true,
   "is_parent": true,
   "child_worknos": []
  },
  "rank": [
   {
    "rank_date": "s",
    "rank": 7,
    "category": "s",
    "term": "s"
   }
  ],
  "rate_count_detail": [],
  "bonuses": [],
  "limited_free_terms": [],
  "maker_id": "RG62982",
  "dl_count": "62123",
  "review_count": 45,
  "rate_average_2dp": 4.67,
  "rate_count": 120,
  "work_name": "A work",
  "price": 1320,
  "work_type": "SOU",
  "product_point_rate": null,
  "discount_caption": null,
  "gift": [],
  "work_rentals": []
 },
 "RJ000002": {
  "is_downloadable_touch": null,
  "dl_count_total": null,
  "rate_average": null,
  "rate_average_star": null,
  "title_work_count": null,
  "discount_rate": null,
  "discount_campaign_id": null,
  "title_volumn": null,
  "discount_calc_type": null,
  "bulkbuy_key": null,
  "campaign_id": null,
  "official_price_str": null,
  "discount_end_date": null,
  "discount_to": null,
  "is_tartget": null,
  "share_title": null,
  "samples": null,
  "product_id": null,
  "maker_name": null,
  "title_id": null,
  "title_name": null,
  "title_name_masked": null,
  "site_id": "s",
  "site_id_touch": "s",
  "price_str": "s",
  "down_url": "s",
  "work_name_masked": "s",
  "work_image": "s",
  "regist_date": "s",
  "default_point_str": "s",
  "options": "s",
  "dlsiteplay_work": true,
  "is_discount": true,
  "is_pointup": true,
  "is_rental": true,
  "is_ana": true,
  "is_sale": true,
  "is_title_completed": true,
  "is_limit_work": true,
  "is_sold_out": true,
  "is_reserve_work": true,
  "is_reservable": true,
  "is_timesale": true,
  "is_free": true,
  "is_oly": true,
  "is_led": true,
  "is_noreduction": true,
  "is_wcc": true,
  "is_pack_work": true,
  "upgrade_min_price": 7,
  "limit_stock": 7,
  "timesale_stock": 7,
  "official_price": 7,
  "age_category": 7,
  "affiliate_deny": 7,
  "dl_format": 7,
  "wishlist_count": 7,
  "price_without_tax": 7,
  "default_point_rate": 7,
  "default_point": 7,
  "on_sale": 7,
  "currency_official_price": null,
  "locale_official_price": null,
  "book_type": null,
  "locale_official_price_str": null,
  "translators": null,
  "sales_end_info": null,
  "voice_pack": null,
  "dl_count_items": [
   {
    "edition_type": "s",
    "lang": "s",
    "workno": "s",
    "display_order": 7,
    "display_label": "s",
    "edition_id": 7,
    "label": "s",
    "dl_count": "12"
   }
  ],
  "locale_price": {
   "en_US": 9.07,
   "ja_JP": 1320
  },
  "currency_price": {},
  "custom_genres": [],
  "locale_price_str": {},
  "translation_info": {
   "lang": null,
   "original_workno": null,
   "parent_workno": null,
   "production_trade_price_rate": 7,
   "is_volunteer": true,
   "translation_bonus_langs": {
    "ENG": {
     "child_count": 7,
     "price": 7,
     "price_in_tax": 7,
     "price_tax": 7,
     "recipient_available_count": 7,
     "recipient_max": 7,
     "status": "s"
    }
   },
   "is_translation_bonus_child": true,
   "is_translation_agree": true,
   "is_original": true,
   "is_child": true,
   "is_parent": true,
   "child_worknos": []
  },
  "rank": [
   {
    "rank_date": "s",
    "rank": 7,
    "category": "s",
    "term": "s"
   }
  ],
  "rate_count_detail": [],
  "bonuses": [],
  "limited_free_terms": [],
  "maker_id": "RG62982",
  "dl_count": "62123",
  "review_count": 45,
  "rate_average_2dp": 4.67,
  "rate_count": 120,
  "work_name": "A work",
  "price": 1320,
  "work_type": "SOU",
  "product_point_rate": null,
  "discount_caption": null,
  "gift": [],
  "work_rentals": []
 }
}"#;

const API: &str = r#"[
 {
  "age_category": 3,
  "age_category_string": "s",
  "anime": null,
  "auto_play": null,
  "bgm": null,
  "bgm_mode": null,
  "books_id": null,
  "brand_id": null,
  "circle_id": "RG62982",
  "coupling": [],
  "cpu": null,
  "default_point": 7,
  "directed_by": null,
  "directx": null,
  "discount": null,
  "dist_flag": 7,
  "dl_format": 7,
  "etc": null,
  "file_date": null,
  "file_size": null,
  "file_type": "ZIP",
  "file_type_string": null,
  "file_type_special": null,
  "gallery_mode": null,
  "hdd": null,
  "h_scene_mode": null,
  "intro": null,
  "intro_s": null,
  "label_id": null,
  "label_name": null,
  "machine": null,
  "machine_string_list": {
   "a": "x",
   "b": null
  },
  "memory": null,
  "message_skip": null,
  "mini_resolution": null,
  "modify_flg": null,
  "music_by": null,
  "on_sale": 7,
  "options": "s",
  "original_illust": null,
  "other": null,
  "others_by": null,
  "pages": null,
  "page_number": null,
  "product_point": null,
  "product_point_end_date": null,
  "point": 7,
  "price": 7,
  "price_without_tax": 7,
  "price_en": 1.5,
  "price_eur": 1.5,
  "production_workno": null,
  "publisher_workno": null,
  "regist_date": null,
  "regular_price": null,
  "scenario_by": null,
  "screen_mode": null,
  "series_id": null,
  "series_name": null,
  "sex_category": 7,
  "sofrin_app_no": null,
  "vocal_track": null,
  "voice": null,
  "voice_by": null,
  "vram": null,
  "workno": "RJ403038",
  "work_name": "A work",
  "work_name_kana": null,
  "work_type": "SOU",
  "work_type_string": "s",
  "work_type_special": null,
  "work_attributes": "s",
  "product_id": "s",
  "base_product_id": "s",
  "maker_id": "s",
  "maker_name": "Yostar",
  "maker_name_en": null,
  "alt_name": "s",
  "product_name": "s",
  "site_id": "s",
  "site_id_touch": "s",
  "is_ana": true,
  "work_category": "doujin",
  "platform": [],
  "is_pc_work": true,
  "is_smartphone_work": true,
  "is_android_only_work": true,
  "is_dlplaybox_only_work": true,
  "is_almight_work": true,
  "is_dlsiteplay_work": true,
  "is_dlsiteplay_only_work": true,
  "work_parts": [],
  "introductions": null,
  "sales_price": null,
  "image_main": {
   "workno": null,
   "type": null,
   "file_name": null,
   "file_size": null,
   "file_size_unit": null,
   "width": null,
   "height": null,
   "hash": null,
   "display_mode": null,
   "update_date": null,
   "id": null,
   "upper(work_files.type)": null,
   "extension": null,
   "relative_url": null,
   "path_short": null,
   "url": "s",
   "resize_url": null
  },
  "image_thum": {
   "workno": null,
   "type": null,
   "file_name": null,
   "file_size": null,
   "file_size_unit": null,
   "width": null,
   "height": null,
   "hash": null,
   "display_mode": null,
   "update_date": null,
   "id": null,
   "upper(work_files.type)": null,
   "extension": null,
   "relative_url": null,
   "path_short": null,
   "url": "s",
   "resize_url": null
  },
  "image_thum_mini": {
   "workno": null,
   "type": null,
   "file_name": null,
   "file_size": null,
   "file_size_unit": null,
   "width": null,
   "height": null,
   "hash": null,
   "display_mode": null,
   "update_date": null,
   "id": null,
   "upper(work_files.type)": null,
   "extension": null,
   "relative_url": null,
   "path_short": null,
   "url": "s",
   "resize_url": null
  },
  "image_thum_touch": {
   "workno": null,
   "type": null,
   "file_name": null,
   "file_size": null,
   "file_size_unit": null,
   "width": null,
   "height": null,
   "hash": null,
   "display_mode": null,
   "update_date": null,
   "id": null,
   "upper(work_files.type)": null,
   "extension": null,
   "relative_url": null,
   "path_short": null,
   "url": "s",
   "resize_url": null
  },
  "image_thum_mini_touch": [],
  "image_mini": {
   "id": null,
   "file_name": null,
   "height": null,
   "update_date": null,
   "file_size": null,
   "hash": null,
   "display_mode": null,
   "relative_url": null,
   "file_size_unit": null,
   "width": null,
   "path_short": null,
   "upper(work_files.type)": null,
   "type": null,
   "resize_url": null,
   "workno": null,
   "extension": null,
   "url": "s"
  },
  "image_samples": null,
  "image_thumb": "s",
  "image_thumb_touch": "s",
  "contents": [],
  "contents_touch": null,
  "is_split_content": true,
  "content_count": 7,
  "content_count_touch": 7,
  "contents_file_size": 7,
  "contents_file_size_touch": 7,
  "trials": false,
  "trials_touch": null,
  "movies": [
   {
    "workno": null,
    "type": null,
    "file_name": null,
    "file_size": null,
    "file_size_unit": null,
    "width": null,
    "height": null,
    "hash": null,
    "display_mode": null,
    "update_date": null,
    "id": null,
    "upper(work_files.type)": null,
    "extension": null,
    "relative_url": null,
    "path_short": null,
    "url": "s",
    "resize_url": null
   }
  ],
  "epub_sample": "broken",
  "sample_type": "s",
  "is_viewable_sample": true,
  "campaign_id": null,
  "official_price": 7,
  "official_price_without_tax": 7,
  "official_price_usd": 1.5,
  "official_price_eur": 1.5,
  "discount_rate": null,
  "is_discount_work": true,
  "discount_access_key": null,
  "discount_layout": null,
  "discount_trade_price_type": null,
  "campaign_start_date": null,
  "campaign_end_date": null,
  "is_show_campaign_end_date": true,
  "chobits": true,
  "work_options": {
   "C84": {
    "id": "s",
    "options_id": "s",
    "value": "s",
    "name": "s",
    "name_en": "s",
    "display_sentence": null,
    "display_sentence_en": null,
    "category_id": "s",
    "category": "s"
   }
  },
  "gift": [],
  "work_rentals": [],
  "is_rental_work": true,
  "translation_info": {
   "is_translation_agree": true,
   "is_volunteer": true,
   "is_original": true,
   "is_parent": true,
   "is_child": true,
   "original_workno": null,
   "parent_workno": null,
   "child_worknos": [],
   "lang": null,
   "translation_bonus_langs": {},
   "is_translation_bonus_child": true
  },
  "display_order": null,
  "is_oauth_work": null,
  "is_show_rate": true,
  "rate_average_star": 7,
  "rate_count_detail": {},
  "rank_total": null,
  "rank_total_date": null,
  "rank_year": null,
  "rank_year_date": null,
  "rank_month": null,
  "rank_month_date": null,
  "rank_week": null,
  "rank_week_date": null,
  "rank_day": null,
  "rank_day_date": null,
  "is_pack_child": true,
  "is_pack_parent": true,
  "work_pack_children": {
   "c1": {
    "inservice": 7,
    "product_id": "s",
    "product_name": "s",
    "work_name": "s",
    "workno": "s"
   }
  },
  "pack_type": null,
  "is_voice_pack": true,
  "voice_pack_parent": [],
  "voice_pack_child": [],
  "free": true,
  "free_only": true,
  "free_end_date": false,
  "has_free_download": true,
  "creaters": {
   "voice_by": [
    {
     "id": "1",
     "name": "Voice One",
     "classification": "voice_by",
     "sub_classification": null
    },
    {
     "id": "2",
     "name": "Voice Two",
     "classification": "voice_by"
    }
   ],
   "created_by": [
    {
     "id": "3",
     "name": "Maker",
     "classification": "created_by"
    }
   ]
  },
  "title_id": null,
  "title_name": null,
  "title_volumn": null,
  "title_work_labeling": null,
  "title_work_display_order": null,
  "title_work_count": null,
  "is_title_completed": true,
  "title_latest_workno": null,
  "title_price_low": null,
  "title_price_high": null,
  "is_title_pointup": null,
  "title_point_rate": null,
  "is_title_discount": null,
  "is_title_reserve": null,
  "reserve_work": null,
  "is_reserve_work": true,
  "is_reservable": true,
  "is_downloadable_reserve_work": true,
  "bonus_workno": "RJ1",
  "bonus_work": null,
  "is_bonus_work": true,
  "is_downloadable_bonus_work": true,
  "parent_reserve_workno": true,
  "book_type": null,
  "is_bl": true,
  "is_tl": true,
  "is_drama_work": true,
  "is_display_notice": true,
  "touch_style1": [],
  "is_bulkbuy": true,
  "bulkbuy_key": null,
  "bulkbuy_title": null,
  "bulkbuy_per_items": 7,
  "bulkbuy_start": null,
  "bulkbuy_end": null,
  "bulkbuy_price": 7,
  "bulkbuy_price_tax": 7,
  "bulkbuy_price_without_tax": 7,
  "bulkbuy_discount_rate": 7,
  "bulkbuy_point_rate": 7,
  "bulkbuy_point": 7,
  "genres": [
   {
    "name": "ASMR",
    "id": 497,
    "search_val": "497",
    "name_base": "ASMR"
   }
  ],
  "custom_genres": [],
  "editions": [
   {
    "display_order": 7,
    "edition_id": 7,
    "edition_type": "s",
    "label": "s",
    "lang": "s",
    "workno": "s"
   }
  ],
  "language_editions": {
   "0": {
    "display_order": 7,
    "edition_id": 7,
    "edition_type": "s",
    "label": "s",
    "lang": "s",
    "workno": "s"
   },
   "1": {
    "display_order": 7,
    "edition_id": 7,
    "edition_type": "s",
    "label": "s",
    "lang": "s",
    "workno": "s"
   }
  },
  "display_options": [],
  "is_limit_work": true,
  "is_limit_sales": true,
  "work_browse_setting": {},
  "is_limit_in_stock": true,
  "limit_start_date": null,
  "limit_end_date": null,
  "limit_dl_count": 7,
  "limit_display_type": null,
  "limit_note": null,
  "is_timesale_work": true,
  "timesale_dl_count": 7,
  "timesale_limit_dl_count": null,
  "timesale_stock": 7,
  "timesale_start_date": null,
  "timesale_end_date": null,
  "timesale_price": 7,
  "update_date": "s",
  "locale_price": {},
  "locale_official_price": {},
  "locale_price_str": {},
  "locale_official_price_str": {},
  "given_coupons_by_buying": [],
  "author": null,
  "authors": null,
  "product_dir": "s",
  "srcset": null,
  "alt_name_masked": "s",
  "work_pack_parent": [],
  "limited_free_terms": {
   "end_date": "s",
   "id": 7,
   "original_workno": null,
   "workno": "s",
   "start_date": "s"
  },
  "limited_free_work": [],
  "intro_masked": null,
  "limit_sale_id": null,
  "specified_volume_sets": [],
  "series_name_masked": null,
  "is_ios_only_work": true,
  "specified_volume_set_max_discount_rate": null,
  "has_specified_volume_set": true,
  "work_name_masked": "s",
  "introductions_masked": null,
  "intro_s_masked": null,
  "work_type_special_masked": null,
  "title_name_masked": null,
  "currency_price": {},
  "currency_official_price": {},
  "is_android_or_ios_only_work": true,
  "genres_replaced": [],
  "limit_sold_dl_count": 7
 }
]"#;

fn shape_message<T: std::fmt::Debug>(r: Result<T, DlsiteError>) -> String {
    match r {
        Err(DlsiteError::Parse(_, m)) => m,
        other => panic!("expected a parse error, got {:?}", other),
    }
}

fn json(text: &str) -> Json {
    parse_json(text).unwrap()
}

fn strings(list: &[&str]) -> Vec<String> {
    list.iter().map(|s| s.to_string()).collect()
}

#[test]
fn json_text_is_read_into_values() {
    assert!(matches!(json("null"), Json::Null));
    assert!(matches!(json("true"), Json::Bool(true)));
    assert!(matches!(json("\"a\\u3042\""), Json::Str(s) if s == "aあ"));
    assert!(matches!(json("12"), Json::Number(n) if n == "12"));
    assert!(matches!(json("-3"), Json::Number(n) if n == "-3"));
    assert!(matches!(json("1.50"), Json::Number(n) if n == "1.5"));
    assert!(matches!(json("1e2"), Json::Number(n) if n == "100.0"));
    assert!(matches!(json("18446744073709551615"), Json::Number(n) if n == "18446744073709551615"));
    match json("[1, [], {\"b\": null, \"a\": [true]}]") {
        Json::Array(items) => {
            assert_eq!(3, items.len());
            assert!(matches!(&items[1], Json::Array(inner) if inner.is_empty()));
            match &items[2] {
                Json::Object(members) => {
                    assert_eq!(2, members.len());
                    assert_eq!("b", members[0].name);
                    assert_eq!("a", members[1].name);
                    assert!(matches!(members[0].value, Json::Null));
                }
                other => panic!("{:?}", other),
            }
        }
        other => panic!("{:?}", other),
    }
    assert!(matches!(parse_json("{"), Err(DlsiteError::SerdeJson(_))));
    assert!(matches!(parse_json(""), Err(DlsiteError::SerdeJson(_))));
    assert!(matches!(parse_json("[1,]"), Err(DlsiteError::SerdeJson(_))));
}

#[test]
fn members_and_copies() {
    let value = json("{\"a\": 1, \"b\": {\"c\": \"x\"}, \"a\": 2}");
    assert_eq!(Some(2), value.get("a").unwrap().as_i32());
    assert_eq!(Some(2), value.get("a").unwrap().as_i64());
    assert!(value.get("c").is_none());
    assert!(json("[1]").get("a").is_none());
    assert_eq!(format!("{:?}", value), format!("{:?}", value.copy()));
    assert_eq!(None, json("2147483648").as_i32());
    assert_eq!(Some(2147483648), json("2147483648").as_i64());
    assert_eq!(None, json("1.0").as_i32());
    assert_eq!(None, json("\"1\"").as_i32());
    let built = Json::Object(vec![Member { name: "k".to_string(), value: Json::Bool(false) }]);
    assert!(matches!(built.get("k"), Some(Json::Bool(false))));
}

#[test]
fn an_array_and_a_keyed_map_normalise_to_the_same_sequence() {
    let from_array: Vec<String> = seq_or_map(&json("[\"a\",\"b\"]")).unwrap();
    let from_map: Vec<String> = seq_or_map(&json("{\"0\":\"a\",\"1\":\"b\"}")).unwrap();
    assert_eq!(strings(&["a", "b"]), from_array);
    assert_eq!(from_array, from_map);
    let empty: Vec<String> = seq_or_map(&json("{}")).unwrap();
    assert!(empty.is_empty());
    assert_eq!(
        "expected an array or an object",
        shape_message(seq_or_map::<String>(&json("\"a\"")))
    );
    assert_eq!("0: expected a string", shape_message(seq_or_map::<String>(&json("{\"0\":1}"))));
    assert_eq!("[1]: expected a string", shape_message(seq_or_map::<String>(&json("[\"a\",1]"))));
}

#[test]
fn a_single_value_stands_for_a_list_of_one() {
    assert_eq!(vec![5], one_or_many::<i32>(&json("5")).unwrap());
    assert_eq!(vec![5, 6], one_or_many::<i32>(&json("[5,6]")).unwrap());
    assert!(one_or_many::<i32>(&json("[]")).unwrap().is_empty());
    assert_eq!("expected an integer", shape_message(one_or_many::<i32>(&json("\"5\""))));
    assert_eq!("[1]: expected an integer", shape_message(one_or_many::<i32>(&json("[5,null]"))));
}

#[test]
fn a_string_or_a_boolean_stays_what_it_is() {
    match Either::<String, bool>::from_json(&json("\"2024-01-01\"")).unwrap() {
        Either::Left(s) => assert_eq!("2024-01-01", s),
        other => panic!("{:?}", other),
    }
    match Either::<String, bool>::from_json(&json("false")).unwrap() {
        Either::Right(b) => assert!(!b),
        other => panic!("{:?}", other),
    }
    assert_eq!(
        "data did not match any variant",
        shape_message(Either::<String, bool>::from_json(&json("1")))
    );
    match Either::<Vec<i32>, i32>::from_json(&json("[]")).unwrap() {
        Either::Left(list) => assert!(list.is_empty()),
        other => panic!("{:?}", other),
    }
}

#[test]
fn a_fragile_field_falls_back_to_nothing() {
    assert_eq!(Some(5), default_on_error::<i32>(&json("5")));
    assert_eq!(None, default_on_error::<i32>(&json("\"five\"")));
    assert_eq!(None, default_on_error::<i32>(&json("null")));
    assert_eq!(None, default_on_error::<Vec<String>>(&json("false")));
    assert_eq!(Some(strings(&["a"])), default_on_error::<Vec<String>>(&json("[\"a\"]")));
}

#[test]
fn a_member_that_is_missing_reads_as_null() {
    let value = json("{\"name\": \"x\", \"count\": 3, \"none\": null, \"list\": [\"a\"]}");
    assert_eq!("x", field::<String>(&value, "name").unwrap());
    assert_eq!(3, field::<i32>(&value, "count").unwrap());
    assert_eq!(3, field::<i64>(&value, "count").unwrap());
    assert_eq!(Some(3), field::<Option<i32>>(&value, "count").unwrap());
    assert_eq!(None, field::<Option<i32>>(&value, "none").unwrap());
    assert_eq!(None, field::<Option<i32>>(&value, "absent").unwrap());
    assert_eq!(strings(&["a"]), field::<Vec<String>>(&value, "list").unwrap());
    assert_eq!("missing field `absent`", shape_message(field::<String>(&value, "absent")));
    assert_eq!("none: expected a string", shape_message(field::<String>(&value, "none")));
    assert_eq!("name: expected an integer", shape_message(field::<i32>(&value, "name")));
    assert_eq!("list: expected a boolean", shape_message(field::<bool>(&value, "list")));
    assert_eq!("missing field `x`", shape_message(field::<String>(&json("[]"), "x")));
    assert_eq!(None, present_field::<Option<i32>>(&value, "none").unwrap());
    assert_eq!(
        "missing field `absent`",
        shape_message(present_field::<Option<i32>>(&value, "absent"))
    );
}

#[test]
fn a_keyed_map_keeps_its_keys_in_the_order_of_the_text() {
    let keyed = Keyed::<i32>::from_json(&json("{\"b\": 2, \"a\": 1, \"10\": 10, \"9\": 9}")).unwrap();
    let keys: Vec<&str> = keyed.entries.iter().map(|e| e.key.as_str()).collect();
    let values: Vec<i32> = keyed.entries.iter().map(|e| e.value).collect();
    assert_eq!(vec!["b", "a", "10", "9"], keys);
    assert_eq!(vec![2, 1, 10, 9], values);
    assert_eq!("expected an object", shape_message(Keyed::<i32>::from_json(&json("[]"))));
}

#[test]
fn classifications_in_json() {
    assert_eq!(WorkType::SOU, WorkType::from_json(&json("\"SOU\"")).unwrap());
    assert_eq!(
        WorkType::Unknown("NEW".to_string()),
        WorkType::from_json(&json("\"NEW\"")).unwrap()
    );
    assert_eq!(FileType::Unknown("".to_string()), FileType::from_json(&json("\"\"")).unwrap());
    assert_eq!(WorkCategory::Pc, WorkCategory::from_json(&json("\"pc\"")).unwrap());
    assert_eq!("expected a string", shape_message(WorkType::from_json(&json("1"))));
    assert_eq!(AgeCategory::R15, AgeCategory::from_json(&json("2")).unwrap());
    assert_eq!(
        "expected an age category from 1 to 3",
        shape_message(AgeCategory::from_json(&json("4")))
    );
    assert_eq!(
        "expected an age category from 1 to 3",
        shape_message(AgeCategory::from_json(&json("\"1\"")))
    );
}

const REVIEW: &str = r#"{
 "is_success": true,
 "error_msg": "",
 "review_list": [
  {"member_review_id": "1", "workno": "RJ403038", "reviewer_id": "r1", "status": "0",
   "recommend": "1", "spoiler": "0", "review_title": "Good", "review_text": "Text",
   "entry_date": "2022-07-18", "regist_date": "2022-07-18", "good_review": "3", "bad_review": "0",
   "circle_id": null, "nick_name": "nick", "rate": "5",
   "reviewer_status": "1", "is_purchased": "1", "rate_num": "50", "reviewer_rank": "10",
   "genre": {"497": "ASMR", "056": "Healing"}, "unknown_member": 1},
  {"member_review_id": "2", "workno": "RJ403038", "reviewer_id": "r2", "status": "0",
   "recommend": "1", "spoiler": "0", "review_title": "Fine", "review_text": "Text",
   "entry_date": "2022-07-19", "regist_date": "2022-07-19", "good_review": "0", "bad_review": "0",
   "reviewer_status": "1", "is_purchased": "0", "rate_num": "40", "reviewer_rank": "",
   "genre": null}
 ],
 "reviewer_genre_list": [
  {"genre": "497", "genre_count": "12", "name": "ASMR"},
  {"genre": "056", "genre_count": "many", "name": "Healing"}
 ]
}"#;

#[test]
fn a_review_payload_decodes() {
    let reviews = decode_review(REVIEW).unwrap();
    assert!(reviews.is_success);
    assert_eq!("", reviews.error_msg);
    assert_eq!(2, reviews.review_list.len());
    let first = &reviews.review_list[0];
    assert_eq!("Good", first.review_title);
    assert_eq!(None, first.circle_id);
    assert_eq!(Some("nick".to_string()), first.nick_name);
    assert_eq!(None, first.popularity);
    assert_eq!(
        vec![
            Genre { name: "ASMR".to_string(), id: "497".to_string() },
            Genre { name: "Healing".to_string(), id: "056".to_string() },
        ],
        first.genre
    );
    assert!(reviews.review_list[1].genre.is_empty());
    assert_eq!(
        Some(vec![
            (Genre { name: "ASMR".to_string(), id: "497".to_string() }, 12),
            (Genre { name: "Healing".to_string(), id: "056".to_string() }, 0),
        ]),
        reviews.reviewer_genre_list
    );
}

#[test]
fn a_review_payload_that_reports_failure_is_the_failure_of_the_service() {
    match decode_review("{\"is_success\": false, \"error_msg\": \"no such work\"}") {
        Err(DlsiteError::Server(m)) => assert_eq!("Failed to get review: no such work", m),
        other => panic!("{:?}", other),
    }
    match decode_review("{\"is_success\": false}") {
        Err(DlsiteError::Server(m)) => {
            assert_eq!("Failed to get review: Failed to get error message", m)
        }
        other => panic!("{:?}", other),
    }
    assert_eq!("Failed to parse revire json", shape_message(decode_review("{}")));
    assert_eq!("Failed to parse revire json", shape_message(decode_review("[]")));
    assert_eq!(
        "Failed to parse revire json",
        shape_message(decode_review("{\"is_success\": \"true\"}"))
    );
    assert!(matches!(decode_review("not json"), Err(DlsiteError::SerdeJson(_))));
}

#[test]
fn a_review_payload_of_the_wrong_shape_names_the_field() {
    assert_eq!(
        "missing field `error_msg`",
        shape_message(decode_review("{\"is_success\": true}"))
    );
    assert_eq!(
        "missing field `review_list`",
        shape_message(decode_review("{\"is_success\": true, \"error_msg\": \"\"}"))
    );
    assert_eq!(
        "missing field `reviewer_genre_list`",
        shape_message(decode_review("{\"is_success\": true, \"error_msg\": \"\", \"review_list\": []}"))
    );
    assert_eq!(
        "review_list: [0]: missing field `member_review_id`",
        shape_message(decode_review(
            "{\"is_success\": true, \"error_msg\": \"\", \"review_list\": [{}], \"reviewer_genre_list\": null}"
        ))
    );
    assert_eq!(
        "reviewer_genre_list: [0]: genre_count: expected a string",
        shape_message(decode_review_json(&json(
            "{\"is_success\": true, \"error_msg\": \"\", \"review_list\": [], \
\"reviewer_genre_list\": [{\"genre\": \"1\", \"genre_count\": 3, \"name\": \"n\"}]}"
        )))
    );
    let none = decode_review(
        "{\"is_success\": true, \"error_msg\": \"\", \"review_list\": [], \"reviewer_genre_list\": null}",
    )
    .unwrap();
    assert_eq!(None, none.reviewer_genre_list);
}

#[test]
fn the_summary_of_a_product_is_taken_out_of_the_payload() {
    let summary = decode_ajax(AJAX, "RJ403038").unwrap();
    assert_eq!("A work", summary.work_name);
    assert_eq!(1320, summary.price);
    assert_eq!(WorkType::SOU, summary.work_type);
    assert_eq!("4.67", summary.rate_average_2dp.as_ref().unwrap().digits);
    assert_eq!(Some(120), summary.rate_count);
    assert_eq!(Some(62123), summary.dl_count);
    assert_eq!(Some(45), summary.review_count);
    assert_eq!("RG62982", summary.maker_id);
    assert_eq!(1, summary.rank.len());
    assert_eq!(12, summary.dl_count_items.as_ref().unwrap()[0].dl_count);
    assert_eq!(2, summary.locale_price.entries.len());
    assert_eq!("en_US", summary.locale_price.entries[0].key);
    assert_eq!("9.07", summary.locale_price.entries[0].value.digits);
    assert_eq!("1320", summary.locale_price.entries[1].value.digits);
    match &summary.translation_info.translation_bonus_langs {
        TranslationBonusLangsTypes::ByLang(map) => assert_eq!("ENG", map.entries[0].key),
        other => panic!("{:?}", other),
    }
    assert_eq!("Failed to parse ajax json", shape_message(decode_ajax(AJAX, "RJ999999")));
    assert_eq!("Failed to parse ajax json", shape_message(decode_ajax("{}", "RJ1")));
    assert!(matches!(decode_ajax("", "RJ1"), Err(DlsiteError::SerdeJson(_))));
    assert_eq!("expected an object", shape_message(decode_ajax("[]", "RJ1")));
    assert_eq!(
        "RJ1: missing field `site_id`",
        shape_message(decode_ajax("{\"RJ1\": {}}", "RJ1"))
    );
    assert_eq!(
        "RJ1: missing field `site_id`",
        shape_message(decode_ajax("{\"RJ1\": {}}", "RJ2"))
    );
    let all = decode_ajax_multiple(AJAX).unwrap();
    assert_eq!(2, all.entries.len());
    assert_eq!("RJ000002", all.entries[1].key);
}

#[test]
fn a_number_may_come_as_a_string_of_its_digits() {
    let text = AJAX.replace("\"dl_count\": \"62123\"", "\"dl_count\": 99").replace("\"review_count\": 45", "\"review_count\": \"\"");
    let summary = decode_ajax(&text, "RJ403038").unwrap();
    assert_eq!(Some(99), summary.dl_count);
    assert_eq!(None, summary.review_count);
    let text = AJAX.replace("\"dl_count\": \"62123\"", "\"dl_count\": null");
    assert_eq!(None, decode_ajax(&text, "RJ403038").unwrap().dl_count);
    let text = AJAX.replace("\"dl_count\": \"62123\"", "\"dl_count\": \"6 2\"");
    assert_eq!(
        "RJ403038: dl_count: expected an integer or a string of digits",
        shape_message(decode_ajax(&text, "RJ403038"))
    );
}

#[test]
fn the_product_interface_answers_with_a_list_of_one() {
    let product = decode_product_api(API).unwrap();
    assert_eq!("RJ403038", product.workno);
    assert_eq!("A work", product.work_name);
    assert_eq!("Yostar", product.maker_name);
    assert_eq!(Some("RG62982".to_string()), product.circle_id);
    assert_eq!(WorkType::SOU, product.work_type);
    assert_eq!(AgeCategory::Adult, product.age_category);
    assert_eq!(FileType::Unknown("ZIP".to_string()), product.file_type);
    assert_eq!(WorkCategory::Doujin, product.work_category);
    assert_eq!(1, product.image_thum_touch.len());
    assert!(product.trials.is_none());
    assert!(product.epub_sample.is_none());
    let creators = product.creators.unwrap();
    let voices = creators.voice_by.unwrap();
    assert_eq!("Voice One", voices[0].name);
    assert_eq!("Voice Two", voices[1].name);
    assert_eq!("Maker", creators.created_by.unwrap()[0].name);
    assert!(creators.illust_by.is_none());
    assert_eq!(497, product.genres[0].id);
    assert!(matches!(product.movies, Either::Right(ref files) if files.len() == 1));
    assert!(matches!(product.free_end_date, Some(Either::Right(false))));
    assert!(matches!(product.bonus_workno, Either::Right(ref s) if s == "RJ1"));
    assert_eq!(2, product.machine_string_list.len());
    assert_eq!("a", product.machine_string_list[0].key);
    assert_eq!(Some("x".to_string()), product.machine_string_list[0].value);
    assert_eq!("b", product.machine_string_list[1].key);
    assert_eq!(None, product.machine_string_list[1].value);
    assert_eq!(2, product.language_editions.len());
    assert_eq!(1, product.editions.len());
    assert_eq!(1, product.limited_free_terms.len());
    assert!(product.limited_free_work.is_empty());
    assert_eq!(1, product.work_options.unwrap().entries.len());
}

#[test]
fn the_product_interface_fails_loudly() {
    assert_eq!("No product found", shape_message(decode_product_api("[]")));
    assert_eq!(
        "Failed to parse json: expected an array",
        shape_message(decode_product_api("{}"))
    );
    assert_eq!(
        "Failed to parse json: [0]: missing field `age_category`",
        shape_message(decode_product_api("[{}]"))
    );
    let text = API.replace("\"age_category\": 3", "\"age_category\": 9");
    assert_eq!(
        "Failed to parse json: [0]: age_category: expected an age category from 1 to 3",
        shape_message(decode_product_api(&text))
    );
    assert!(shape_message(decode_product_api("[")).starts_with("Failed to parse json: EOF"));
}

#[test]
fn a_keyed_sequence_keeps_its_keys_and_numbers_the_items_of_a_list() {
    let from_map = KeyedOrSeq::<String>::from_json(&json("{\"0\":\"a\",\"1\":\"b\"}")).unwrap();
    let from_list = KeyedOrSeq::<String>::from_json(&json("[\"a\",\"b\"]")).unwrap();
    let pairs = |k: &KeyedOrSeq<String>| -> Vec<(String, String)> {
        k.entries.iter().map(|e| (e.key.clone(), e.value.clone())).collect()
    };
    assert_eq!(
        vec![("0".to_string(), "a".to_string()), ("1".to_string(), "b".to_string())],
        pairs(&from_map)
    );
    assert_eq!(pairs(&from_map), pairs(&from_list));
    let named = KeyedOrSeq::<i32>::from_json(&json("{\"WIN\": 1, \"MAC\": 2}")).unwrap();
    assert_eq!("WIN", named.entries[0].key);
    assert_eq!(2, named.entries[1].value);
    let long = KeyedOrSeq::<i32>::from_json(&json("[0,1,2,3,4,5,6,7,8,9,10,11]")).unwrap();
    assert_eq!("11", long.entries[11].key);
    assert!(KeyedOrSeq::<i32>::from_json(&json("[]")).unwrap().entries.is_empty());
    assert_eq!(
        "expected an array or an object",
        shape_message(KeyedOrSeq::<i32>::from_json(&json("1")))
    );
    assert_eq!(
        "[1]: expected an integer",
        shape_message(KeyedOrSeq::<i32>::from_json(&json("[1, \"x\"]")))
    );
    assert_eq!(
        "MAC: expected an integer",
        shape_message(KeyedOrSeq::<i32>::from_json(&json("{\"WIN\": 1, \"MAC\": null}")))
    );
}

#[test]
fn a_string_or_a_boolean_alias() {
    assert!(matches!(StrOrBool::from_json(&json("true")).unwrap(), Either::Right(true)));
    assert!(matches!(StrOrBool::from_json(&json("\"x\"")).unwrap(), Either::Left(s) if s == "x"));
}

fn with_sequences(shape_as_map: bool) -> String {
    let mut payload: serde_json::Value = serde_json::from_str(API).unwrap();
    let product = payload.get_mut(0).unwrap().as_object_mut().unwrap();
    let edition = product.get("editions").unwrap().get(0).unwrap().clone();
    let setting: serde_json::Value = serde_json::from_str("{\"play_encode_type\": \"h264\"}").unwrap();
    let fields: Vec<(&str, Vec<serde_json::Value>)> = vec![
        ("editions", vec![edition.clone()]),
        ("language_editions", vec![edition.clone(), edition.clone()]),
        ("work_browse_setting", vec![setting]),
        (
            "machine_string_list",
            vec![serde_json::Value::String("Windows".to_string()), serde_json::Value::Null],
        ),
    ];
    for (name, values) in fields {
        let value = if shape_as_map {
            let mut map = serde_json::Map::new();
            for (i, v) in values.into_iter().enumerate() {
                map.insert(i.to_string(), v);
            }
            serde_json::Value::Object(map)
        } else {
            serde_json::Value::Array(values)
        };
        product.insert(name.to_string(), value);
    }
    payload.to_string()
}

#[test]
fn a_payload_decodes_alike_whichever_shape_its_sequences_have() {
    let as_lists = decode_product_api(&with_sequences(false)).unwrap();
    let as_maps = decode_product_api(&with_sequences(true)).unwrap();
    assert_eq!(1, as_lists.editions.len());
    assert_eq!(2, as_lists.language_editions.len());
    assert_eq!(Some("h264".to_string()), as_lists.work_browse_setting[0].play_encode_type);
    assert_eq!("0", as_lists.machine_string_list[0].key);
    assert_eq!(Some("Windows".to_string()), as_lists.machine_string_list[0].value);
    assert_eq!("1", as_maps.machine_string_list[1].key);
    assert_eq!(None, as_maps.machine_string_list[1].value);
    assert_eq!(format!("{:?}", as_lists), format!("{:?}", as_maps));
}

#[test]
fn a_failure_of_shape_says_so() {
    assert_eq!(Some(FailureKind::ShapeMismatch), decode_product_api("[]").unwrap_err().kind());
    assert_eq!(Some(FailureKind::ShapeMismatch), decode_product_api("[").unwrap_err().kind());
    assert_eq!(Some(FailureKind::ShapeMismatch), decode_review("{}").unwrap_err().kind());
    assert_eq!(None, decode_review("{\"is_success\": false}").unwrap_err().kind());
    assert_eq!(
        Some(FailureKind::ShapeMismatch),
        field::<String>(&json("{}"), "x").unwrap_err().kind()
    );
}

#[test]
fn translators_are_kept_as_they_came() {
    let text = AJAX.replace("\"translators\": null", "\"translators\": [{\"work_name\": \"x\"}, 3]");
    let summary = decode_ajax(&text, "RJ403038").unwrap();
    let translators = summary.translators.unwrap();
    assert_eq!(2, translators.len());
    assert!(matches!(translators[0].get("work_name"), Some(Json::Str(s)) if s == "x"));
    assert_eq!(Some(3), translators[1].as_i32());
    let text = AJAX.replace("\"translators\": null", "\"translators\": {}");
    assert_eq!(
        "RJ403038: translators: expected an array",
        shape_message(decode_ajax(&text, "RJ403038"))
    );
}
