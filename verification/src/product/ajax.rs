//! The summary payload of a product.

use crate::common::WorkType;
use crate::error::DlsiteError;
use crate::json::{json_of_text, parse_json, Json, JsonView};
use crate::shape::{
    field, field_failure, field_value, take_member, Decimal, Either, FromJson, Keyed,
    NumberOrText, OptionNumberOrText,
};
use vstd::prelude::*;

verus! {

/// The bonus that a translation into one language earns.
#[derive(Debug)]
pub struct TranslationBonusLangs {
    pub child_count: i32,
    pub price: i32,
    pub price_in_tax: i32,
    pub price_tax: i32,
    pub recipient_available_count: i32,
    pub recipient_max: i32,
    pub status: String,
}

impl FromJson for TranslationBonusLangs {
    /// The failure of the first member, in the order of the fields, that
    /// does not have the shape of its field.
    open spec fn failure(j: JsonView) -> Option<Seq<char>> {
        if field_failure::<i32>(j, "child_count"@) is Some {
            field_failure::<i32>(j, "child_count"@)
        } else if field_failure::<i32>(j, "price"@) is Some {
            field_failure::<i32>(j, "price"@)
        } else if field_failure::<i32>(j, "price_in_tax"@) is Some {
            field_failure::<i32>(j, "price_in_tax"@)
        } else if field_failure::<i32>(j, "price_tax"@) is Some {
            field_failure::<i32>(j, "price_tax"@)
        } else if field_failure::<i32>(j, "recipient_available_count"@) is Some {
            field_failure::<i32>(j, "recipient_available_count"@)
        } else if field_failure::<i32>(j, "recipient_max"@) is Some {
            field_failure::<i32>(j, "recipient_max"@)
        } else if field_failure::<String>(j, "status"@) is Some {
            field_failure::<String>(j, "status"@)
        } else {
            None
        }
    }

    open spec fn decoded_from(&self, j: JsonView) -> bool {
        &&& self.child_count.decoded_from(field_value(j, "child_count"@))
        &&& self.price.decoded_from(field_value(j, "price"@))
        &&& self.price_in_tax.decoded_from(field_value(j, "price_in_tax"@))
        &&& self.price_tax.decoded_from(field_value(j, "price_tax"@))
        &&& self.recipient_available_count.decoded_from(field_value(j, "recipient_available_count"@))
        &&& self.recipient_max.decoded_from(field_value(j, "recipient_max"@))
        &&& self.status.decoded_from(field_value(j, "status"@))
    }

    fn from_json(j: &Json) -> (r: Result<TranslationBonusLangs, DlsiteError>) {
        let child_count = match field::<i32>(j, "child_count") {
            Ok(v) => v,
            Err(e) => {
                return Err(e);
            },
        };
        let price = match field::<i32>(j, "price") {
            Ok(v) => v,
            Err(e) => {
                return Err(e);
            },
        };
        let price_in_tax = match field::<i32>(j, "price_in_tax") {
            Ok(v) => v,
            Err(e) => {
                return Err(e);
            },
        };
        let price_tax = match field::<i32>(j, "price_tax") {
            Ok(v) => v,
            Err(e) => {
                return Err(e);
            },
        };
        let recipient_available_count = match field::<i32>(j, "recipient_available_count") {
            Ok(v) => v,
            Err(e) => {
                return Err(e);
            },
        };
        let recipient_max = match field::<i32>(j, "recipient_max") {
            Ok(v) => v,
            Err(e) => {
                return Err(e);
            },
        };
        let status = match field::<String>(j, "status") {
            Ok(v) => v,
            Err(e) => {
                return Err(e);
            },
        };
        Ok(TranslationBonusLangs { child_count, price, price_in_tax, price_tax, recipient_available_count, recipient_max, status })
    }
}
/// The bonuses of the translations of a work: an empty list where there
/// are none, else the bonus for each language.
#[derive(Debug)]
pub enum TranslationBonusLangsTypes {
    Arr(Vec<()>),
    ByLang(Keyed<TranslationBonusLangs>),
}

impl FromJson for TranslationBonusLangsTypes {
    /// The list is tried first.
    open spec fn failure(j: JsonView) -> Option<Seq<char>> {
        Either::<Vec<()>, Keyed<TranslationBonusLangs>>::failure(j)
    }

    open spec fn decoded_from(&self, j: JsonView) -> bool {
        match self {
            TranslationBonusLangsTypes::Arr(list) => Vec::<()>::failure(j) is None
                && list.decoded_from(j),
            TranslationBonusLangsTypes::ByLang(map) => Vec::<()>::failure(j) is Some
                && map.decoded_from(j),
        }
    }

    fn from_json(j: &Json) -> (r: Result<TranslationBonusLangsTypes, DlsiteError>) {
        match Either::<Vec<()>, Keyed<TranslationBonusLangs>>::from_json(j) {
            Ok(Either::Left(list)) => Ok(TranslationBonusLangsTypes::Arr(list)),
            Ok(Either::Right(map)) => Ok(TranslationBonusLangsTypes::ByLang(map)),
            Err(e) => Err(e),
        }
    }
}

/// How a work stands to its translations.
#[derive(Debug)]
pub struct TranslationInfo {
    pub lang: Option<String>,
    pub original_workno: Option<String>,
    pub parent_workno: Option<String>,
    pub production_trade_price_rate: i32,
    pub is_volunteer: bool,
    pub translation_bonus_langs: TranslationBonusLangsTypes,
    pub is_translation_bonus_child: bool,
    pub is_translation_agree: bool,
    pub is_original: bool,
    pub is_child: bool,
    pub is_parent: bool,
    pub child_worknos: Vec<String>,
}

impl FromJson for TranslationInfo {
    /// The failure of the first member, in the order of the fields, that
    /// does not have the shape of its field.
    open spec fn failure(j: JsonView) -> Option<Seq<char>> {
        if field_failure::<Option<String>>(j, "lang"@) is Some {
            field_failure::<Option<String>>(j, "lang"@)
        } else if field_failure::<Option<String>>(j, "original_workno"@) is Some {
            field_failure::<Option<String>>(j, "original_workno"@)
        } else if field_failure::<Option<String>>(j, "parent_workno"@) is Some {
            field_failure::<Option<String>>(j, "parent_workno"@)
        } else if field_failure::<i32>(j, "production_trade_price_rate"@) is Some {
            field_failure::<i32>(j, "production_trade_price_rate"@)
        } else if field_failure::<bool>(j, "is_volunteer"@) is Some {
            field_failure::<bool>(j, "is_volunteer"@)
        } else if field_failure::<TranslationBonusLangsTypes>(j, "translation_bonus_langs"@) is Some {
            field_failure::<TranslationBonusLangsTypes>(j, "translation_bonus_langs"@)
        } else if field_failure::<bool>(j, "is_translation_bonus_child"@) is Some {
            field_failure::<bool>(j, "is_translation_bonus_child"@)
        } else if field_failure::<bool>(j, "is_translation_agree"@) is Some {
            field_failure::<bool>(j, "is_translation_agree"@)
        } else if field_failure::<bool>(j, "is_original"@) is Some {
            field_failure::<bool>(j, "is_original"@)
        } else if field_failure::<bool>(j, "is_child"@) is Some {
            field_failure::<bool>(j, "is_child"@)
        } else if field_failure::<bool>(j, "is_parent"@) is Some {
            field_failure::<bool>(j, "is_parent"@)
        } else if field_failure::<Vec<String>>(j, "child_worknos"@) is Some {
            field_failure::<Vec<String>>(j, "child_worknos"@)
        } else {
            None
        }
    }

    open spec fn decoded_from(&self, j: JsonView) -> bool {
        &&& self.lang.decoded_from(field_value(j, "lang"@))
        &&& self.original_workno.decoded_from(field_value(j, "original_workno"@))
        &&& self.parent_workno.decoded_from(field_value(j, "parent_workno"@))
        &&& self.production_trade_price_rate.decoded_from(field_value(j, "production_trade_price_rate"@))
        &&& self.is_volunteer.decoded_from(field_value(j, "is_volunteer"@))
        &&& self.translation_bonus_langs.decoded_from(field_value(j, "translation_bonus_langs"@))
        &&& self.is_translation_bonus_child.decoded_from(field_value(j, "is_translation_bonus_child"@))
        &&& self.is_translation_agree.decoded_from(field_value(j, "is_translation_agree"@))
        &&& self.is_original.decoded_from(field_value(j, "is_original"@))
        &&& self.is_child.decoded_from(field_value(j, "is_child"@))
        &&& self.is_parent.decoded_from(field_value(j, "is_parent"@))
        &&& self.child_worknos.decoded_from(field_value(j, "child_worknos"@))
    }

    fn from_json(j: &Json) -> (r: Result<TranslationInfo, DlsiteError>) {
        let lang = match field::<Option<String>>(j, "lang") {
            Ok(v) => v,
            Err(e) => {
                return Err(e);
            },
        };
        let original_workno = match field::<Option<String>>(j, "original_workno") {
            Ok(v) => v,
            Err(e) => {
                return Err(e);
            },
        };
        let parent_workno = match field::<Option<String>>(j, "parent_workno") {
            Ok(v) => v,
            Err(e) => {
                return Err(e);
            },
        };
        let production_trade_price_rate = match field::<i32>(j, "production_trade_price_rate") {
            Ok(v) => v,
            Err(e) => {
                return Err(e);
            },
        };
        let is_volunteer = match field::<bool>(j, "is_volunteer") {
            Ok(v) => v,
            Err(e) => {
                return Err(e);
            },
        };
        let translation_bonus_langs = match field::<TranslationBonusLangsTypes>(j, "translation_bonus_langs") {
            Ok(v) => v,
            Err(e) => {
                return Err(e);
            },
        };
        let is_translation_bonus_child = match field::<bool>(j, "is_translation_bonus_child") {
            Ok(v) => v,
            Err(e) => {
                return Err(e);
            },
        };
        let is_translation_agree = match field::<bool>(j, "is_translation_agree") {
            Ok(v) => v,
            Err(e) => {
                return Err(e);
            },
        };
        let is_original = match field::<bool>(j, "is_original") {
            Ok(v) => v,
            Err(e) => {
                return Err(e);
            },
        };
        let is_child = match field::<bool>(j, "is_child") {
            Ok(v) => v,
            Err(e) => {
                return Err(e);
            },
        };
        let is_parent = match field::<bool>(j, "is_parent") {
            Ok(v) => v,
            Err(e) => {
                return Err(e);
            },
        };
        let child_worknos = match field::<Vec<String>>(j, "child_worknos") {
            Ok(v) => v,
            Err(e) => {
                return Err(e);
            },
        };
        Ok(TranslationInfo { lang, original_workno, parent_workno, production_trade_price_rate, is_volunteer, translation_bonus_langs, is_translation_bonus_child, is_translation_agree, is_original, is_child, is_parent, child_worknos })
    }
}
/// A place in a ranking.
#[derive(Debug)]
pub struct Rank {
    pub rank_date: String,
    pub rank: i32,
    pub category: String,
    pub term: String,
}

impl FromJson for Rank {
    /// The failure of the first member, in the order of the fields, that
    /// does not have the shape of its field.
    open spec fn failure(j: JsonView) -> Option<Seq<char>> {
        if field_failure::<String>(j, "rank_date"@) is Some {
            field_failure::<String>(j, "rank_date"@)
        } else if field_failure::<i32>(j, "rank"@) is Some {
            field_failure::<i32>(j, "rank"@)
        } else if field_failure::<String>(j, "category"@) is Some {
            field_failure::<String>(j, "category"@)
        } else if field_failure::<String>(j, "term"@) is Some {
            field_failure::<String>(j, "term"@)
        } else {
            None
        }
    }

    open spec fn decoded_from(&self, j: JsonView) -> bool {
        &&& self.rank_date.decoded_from(field_value(j, "rank_date"@))
        &&& self.rank.decoded_from(field_value(j, "rank"@))
        &&& self.category.decoded_from(field_value(j, "category"@))
        &&& self.term.decoded_from(field_value(j, "term"@))
    }

    fn from_json(j: &Json) -> (r: Result<Rank, DlsiteError>) {
        let rank_date = match field::<String>(j, "rank_date") {
            Ok(v) => v,
            Err(e) => {
                return Err(e);
            },
        };
        let rank = match field::<i32>(j, "rank") {
            Ok(v) => v,
            Err(e) => {
                return Err(e);
            },
        };
        let category = match field::<String>(j, "category") {
            Ok(v) => v,
            Err(e) => {
                return Err(e);
            },
        };
        let term = match field::<String>(j, "term") {
            Ok(v) => v,
            Err(e) => {
                return Err(e);
            },
        };
        Ok(Rank { rank_date, rank, category, term })
    }
}
/// How many ratings gave a number of stars.
#[derive(Debug)]
pub struct CountDetail {
    pub count: i32,
    pub review_point: i32,
    pub ratio: i32,
}

impl FromJson for CountDetail {
    /// The failure of the first member, in the order of the fields, that
    /// does not have the shape of its field.
    open spec fn failure(j: JsonView) -> Option<Seq<char>> {
        if field_failure::<i32>(j, "count"@) is Some {
            field_failure::<i32>(j, "count"@)
        } else if field_failure::<i32>(j, "review_point"@) is Some {
            field_failure::<i32>(j, "review_point"@)
        } else if field_failure::<i32>(j, "ratio"@) is Some {
            field_failure::<i32>(j, "ratio"@)
        } else {
            None
        }
    }

    open spec fn decoded_from(&self, j: JsonView) -> bool {
        &&& self.count.decoded_from(field_value(j, "count"@))
        &&& self.review_point.decoded_from(field_value(j, "review_point"@))
        &&& self.ratio.decoded_from(field_value(j, "ratio"@))
    }

    fn from_json(j: &Json) -> (r: Result<CountDetail, DlsiteError>) {
        let count = match field::<i32>(j, "count") {
            Ok(v) => v,
            Err(e) => {
                return Err(e);
            },
        };
        let review_point = match field::<i32>(j, "review_point") {
            Ok(v) => v,
            Err(e) => {
                return Err(e);
            },
        };
        let ratio = match field::<i32>(j, "ratio") {
            Ok(v) => v,
            Err(e) => {
                return Err(e);
            },
        };
        Ok(CountDetail { count, review_point, ratio })
    }
}
/// The downloads of one edition of a work.
#[derive(Debug)]
pub struct DlCountItem {
    pub edition_type: String,
    pub lang: String,
    pub workno: String,
    pub display_order: i32,
    pub display_label: String,
    pub edition_id: i32,
    pub label: String,
    pub dl_count: i32,
}

impl FromJson for DlCountItem {
    /// The failure of the first member, in the order of the fields, that
    /// does not have the shape of its field.
    open spec fn failure(j: JsonView) -> Option<Seq<char>> {
        if field_failure::<String>(j, "edition_type"@) is Some {
            field_failure::<String>(j, "edition_type"@)
        } else if field_failure::<String>(j, "lang"@) is Some {
            field_failure::<String>(j, "lang"@)
        } else if field_failure::<String>(j, "workno"@) is Some {
            field_failure::<String>(j, "workno"@)
        } else if field_failure::<i32>(j, "display_order"@) is Some {
            field_failure::<i32>(j, "display_order"@)
        } else if field_failure::<String>(j, "display_label"@) is Some {
            field_failure::<String>(j, "display_label"@)
        } else if field_failure::<i32>(j, "edition_id"@) is Some {
            field_failure::<i32>(j, "edition_id"@)
        } else if field_failure::<String>(j, "label"@) is Some {
            field_failure::<String>(j, "label"@)
        } else if field_failure::<NumberOrText>(j, "dl_count"@) is Some {
            field_failure::<NumberOrText>(j, "dl_count"@)
        } else {
            None
        }
    }

    open spec fn decoded_from(&self, j: JsonView) -> bool {
        &&& self.edition_type.decoded_from(field_value(j, "edition_type"@))
        &&& self.lang.decoded_from(field_value(j, "lang"@))
        &&& self.workno.decoded_from(field_value(j, "workno"@))
        &&& self.display_order.decoded_from(field_value(j, "display_order"@))
        &&& self.display_label.decoded_from(field_value(j, "display_label"@))
        &&& self.edition_id.decoded_from(field_value(j, "edition_id"@))
        &&& self.label.decoded_from(field_value(j, "label"@))
        &&& (NumberOrText { value: self.dl_count }).decoded_from(field_value(j, "dl_count"@))
    }

    fn from_json(j: &Json) -> (r: Result<DlCountItem, DlsiteError>) {
        let edition_type = match field::<String>(j, "edition_type") {
            Ok(v) => v,
            Err(e) => {
                return Err(e);
            },
        };
        let lang = match field::<String>(j, "lang") {
            Ok(v) => v,
            Err(e) => {
                return Err(e);
            },
        };
        let workno = match field::<String>(j, "workno") {
            Ok(v) => v,
            Err(e) => {
                return Err(e);
            },
        };
        let display_order = match field::<i32>(j, "display_order") {
            Ok(v) => v,
            Err(e) => {
                return Err(e);
            },
        };
        let display_label = match field::<String>(j, "display_label") {
            Ok(v) => v,
            Err(e) => {
                return Err(e);
            },
        };
        let edition_id = match field::<i32>(j, "edition_id") {
            Ok(v) => v,
            Err(e) => {
                return Err(e);
            },
        };
        let label = match field::<String>(j, "label") {
            Ok(v) => v,
            Err(e) => {
                return Err(e);
            },
        };
        let dl_count = match field::<NumberOrText>(j, "dl_count") {
            Ok(v) => v.value,
            Err(e) => {
                return Err(e);
            },
        };
        Ok(DlCountItem { edition_type, lang, workno, display_order, display_label, edition_id, label, dl_count })
    }
}
/// The prices of a work sold together with its voice pack.
#[derive(Debug)]
pub struct VoicePack {
    pub parent_official_price: Option<i32>,
    pub child_price: i32,
    pub parent_price: i32,
    pub sum_point: i32,
    pub sum_price: i32,
    pub product_ids: Vec<String>,
    pub child_official_price: Option<()>,
}

impl FromJson for VoicePack {
    /// The failure of the first member, in the order of the fields, that
    /// does not have the shape of its field.
    open spec fn failure(j: JsonView) -> Option<Seq<char>> {
        if field_failure::<Option<i32>>(j, "parent_official_price"@) is Some {
            field_failure::<Option<i32>>(j, "parent_official_price"@)
        } else if field_failure::<i32>(j, "child_price"@) is Some {
            field_failure::<i32>(j, "child_price"@)
        } else if field_failure::<i32>(j, "parent_price"@) is Some {
            field_failure::<i32>(j, "parent_price"@)
        } else if field_failure::<i32>(j, "sum_point"@) is Some {
            field_failure::<i32>(j, "sum_point"@)
        } else if field_failure::<i32>(j, "sum_price"@) is Some {
            field_failure::<i32>(j, "sum_price"@)
        } else if field_failure::<Vec<String>>(j, "product_ids"@) is Some {
            field_failure::<Vec<String>>(j, "product_ids"@)
        } else if field_failure::<Option<()>>(j, "child_official_price"@) is Some {
            field_failure::<Option<()>>(j, "child_official_price"@)
        } else {
            None
        }
    }

    open spec fn decoded_from(&self, j: JsonView) -> bool {
        &&& self.parent_official_price.decoded_from(field_value(j, "parent_official_price"@))
        &&& self.child_price.decoded_from(field_value(j, "child_price"@))
        &&& self.parent_price.decoded_from(field_value(j, "parent_price"@))
        &&& self.sum_point.decoded_from(field_value(j, "sum_point"@))
        &&& self.sum_price.decoded_from(field_value(j, "sum_price"@))
        &&& self.product_ids.decoded_from(field_value(j, "product_ids"@))
        &&& self.child_official_price.decoded_from(field_value(j, "child_official_price"@))
    }

    fn from_json(j: &Json) -> (r: Result<VoicePack, DlsiteError>) {
        let parent_official_price = match field::<Option<i32>>(j, "parent_official_price") {
            Ok(v) => v,
            Err(e) => {
                return Err(e);
            },
        };
        let child_price = match field::<i32>(j, "child_price") {
            Ok(v) => v,
            Err(e) => {
                return Err(e);
            },
        };
        let parent_price = match field::<i32>(j, "parent_price") {
            Ok(v) => v,
            Err(e) => {
                return Err(e);
            },
        };
        let sum_point = match field::<i32>(j, "sum_point") {
            Ok(v) => v,
            Err(e) => {
                return Err(e);
            },
        };
        let sum_price = match field::<i32>(j, "sum_price") {
            Ok(v) => v,
            Err(e) => {
                return Err(e);
            },
        };
        let product_ids = match field::<Vec<String>>(j, "product_ids") {
            Ok(v) => v,
            Err(e) => {
                return Err(e);
            },
        };
        let child_official_price = match field::<Option<()>>(j, "child_official_price") {
            Ok(v) => v,
            Err(e) => {
                return Err(e);
            },
        };
        Ok(VoicePack { parent_official_price, child_price, parent_price, sum_point, sum_price, product_ids, child_official_price })
    }
}
/// When the sale of a work ends.
#[derive(Debug)]
pub struct SalesEndInfo {
    pub can_download: bool,
    pub not_download: bool,
    pub end_date: Keyed<String>,
    pub end_date_proto: String,
}

impl FromJson for SalesEndInfo {
    /// The failure of the first member, in the order of the fields, that
    /// does not have the shape of its field.
    open spec fn failure(j: JsonView) -> Option<Seq<char>> {
        if field_failure::<bool>(j, "can_download"@) is Some {
            field_failure::<bool>(j, "can_download"@)
        } else if field_failure::<bool>(j, "not_download"@) is Some {
            field_failure::<bool>(j, "not_download"@)
        } else if field_failure::<Keyed<String>>(j, "end_date"@) is Some {
            field_failure::<Keyed<String>>(j, "end_date"@)
        } else if field_failure::<String>(j, "end_date_proto"@) is Some {
            field_failure::<String>(j, "end_date_proto"@)
        } else {
            None
        }
    }

    open spec fn decoded_from(&self, j: JsonView) -> bool {
        &&& self.can_download.decoded_from(field_value(j, "can_download"@))
        &&& self.not_download.decoded_from(field_value(j, "not_download"@))
        &&& self.end_date.decoded_from(field_value(j, "end_date"@))
        &&& self.end_date_proto.decoded_from(field_value(j, "end_date_proto"@))
    }

    fn from_json(j: &Json) -> (r: Result<SalesEndInfo, DlsiteError>) {
        let can_download = match field::<bool>(j, "can_download") {
            Ok(v) => v,
            Err(e) => {
                return Err(e);
            },
        };
        let not_download = match field::<bool>(j, "not_download") {
            Ok(v) => v,
            Err(e) => {
                return Err(e);
            },
        };
        let end_date = match field::<Keyed<String>>(j, "end_date") {
            Ok(v) => v,
            Err(e) => {
                return Err(e);
            },
        };
        let end_date_proto = match field::<String>(j, "end_date_proto") {
            Ok(v) => v,
            Err(e) => {
                return Err(e);
            },
        };
        Ok(SalesEndInfo { can_download, not_download, end_date, end_date_proto })
    }
}
/// A bonus that comes with a work.
#[derive(Debug)]
pub struct Bonus {
    pub end_date_str: String,
    pub dist_flg: String,
    pub description: Option<String>,
    pub title: String,
    pub end_date: Option<String>,
}

impl FromJson for Bonus {
    /// The failure of the first member, in the order of the fields, that
    /// does not have the shape of its field.
    open spec fn failure(j: JsonView) -> Option<Seq<char>> {
        if field_failure::<String>(j, "end_date_str"@) is Some {
            field_failure::<String>(j, "end_date_str"@)
        } else if field_failure::<String>(j, "dist_flg"@) is Some {
            field_failure::<String>(j, "dist_flg"@)
        } else if field_failure::<Option<String>>(j, "description"@) is Some {
            field_failure::<Option<String>>(j, "description"@)
        } else if field_failure::<String>(j, "title"@) is Some {
            field_failure::<String>(j, "title"@)
        } else if field_failure::<Option<String>>(j, "end_date"@) is Some {
            field_failure::<Option<String>>(j, "end_date"@)
        } else {
            None
        }
    }

    open spec fn decoded_from(&self, j: JsonView) -> bool {
        &&& self.end_date_str.decoded_from(field_value(j, "end_date_str"@))
        &&& self.dist_flg.decoded_from(field_value(j, "dist_flg"@))
        &&& self.description.decoded_from(field_value(j, "description"@))
        &&& self.title.decoded_from(field_value(j, "title"@))
        &&& self.end_date.decoded_from(field_value(j, "end_date"@))
    }

    fn from_json(j: &Json) -> (r: Result<Bonus, DlsiteError>) {
        let end_date_str = match field::<String>(j, "end_date_str") {
            Ok(v) => v,
            Err(e) => {
                return Err(e);
            },
        };
        let dist_flg = match field::<String>(j, "dist_flg") {
            Ok(v) => v,
            Err(e) => {
                return Err(e);
            },
        };
        let description = match field::<Option<String>>(j, "description") {
            Ok(v) => v,
            Err(e) => {
                return Err(e);
            },
        };
        let title = match field::<String>(j, "title") {
            Ok(v) => v,
            Err(e) => {
                return Err(e);
            },
        };
        let end_date = match field::<Option<String>>(j, "end_date") {
            Ok(v) => v,
            Err(e) => {
                return Err(e);
            },
        };
        Ok(Bonus { end_date_str, dist_flg, description, title, end_date })
    }
}
/// A period in which a work is free.
#[derive(Debug)]
pub struct LimitedFreeTerms {
    pub workno: String,
    pub id: i32,
    pub start_date: String,
    pub original_workno: Option<String>,
    pub end_date: String,
}

impl FromJson for LimitedFreeTerms {
    /// The failure of the first member, in the order of the fields, that
    /// does not have the shape of its field.
    open spec fn failure(j: JsonView) -> Option<Seq<char>> {
        if field_failure::<String>(j, "workno"@) is Some {
            field_failure::<String>(j, "workno"@)
        } else if field_failure::<i32>(j, "id"@) is Some {
            field_failure::<i32>(j, "id"@)
        } else if field_failure::<String>(j, "start_date"@) is Some {
            field_failure::<String>(j, "start_date"@)
        } else if field_failure::<Option<String>>(j, "original_workno"@) is Some {
            field_failure::<Option<String>>(j, "original_workno"@)
        } else if field_failure::<String>(j, "end_date"@) is Some {
            field_failure::<String>(j, "end_date"@)
        } else {
            None
        }
    }

    open spec fn decoded_from(&self, j: JsonView) -> bool {
        &&& self.workno.decoded_from(field_value(j, "workno"@))
        &&& self.id.decoded_from(field_value(j, "id"@))
        &&& self.start_date.decoded_from(field_value(j, "start_date"@))
        &&& self.original_workno.decoded_from(field_value(j, "original_workno"@))
        &&& self.end_date.decoded_from(field_value(j, "end_date"@))
    }

    fn from_json(j: &Json) -> (r: Result<LimitedFreeTerms, DlsiteError>) {
        let workno = match field::<String>(j, "workno") {
            Ok(v) => v,
            Err(e) => {
                return Err(e);
            },
        };
        let id = match field::<i32>(j, "id") {
            Ok(v) => v,
            Err(e) => {
                return Err(e);
            },
        };
        let start_date = match field::<String>(j, "start_date") {
            Ok(v) => v,
            Err(e) => {
                return Err(e);
            },
        };
        let original_workno = match field::<Option<String>>(j, "original_workno") {
            Ok(v) => v,
            Err(e) => {
                return Err(e);
            },
        };
        let end_date = match field::<String>(j, "end_date") {
            Ok(v) => v,
            Err(e) => {
                return Err(e);
            },
        };
        Ok(LimitedFreeTerms { workno, id, start_date, original_workno, end_date })
    }
}
/// The summary of a product: what the listing service tells of a work.
/// The translators are summaries of their own, kept as they came.
#[derive(Debug)]
pub struct ProductAjax {
    pub is_downloadable_touch: Option<bool>,
    pub dl_count_total: Option<i32>,
    pub rate_average: Option<i32>,
    pub rate_average_star: Option<i32>,
    pub title_work_count: Option<i32>,
    pub discount_rate: Option<i32>,
    pub discount_campaign_id: Option<i32>,
    pub title_volumn: Option<i32>,
    pub discount_calc_type: Option<String>,
    pub bulkbuy_key: Option<String>,
    pub campaign_id: Option<String>,
    pub official_price_str: Option<String>,
    pub discount_end_date: Option<String>,
    pub discount_to: Option<String>,
    pub is_tartget: Option<String>,
    pub share_title: Option<String>,
    pub samples: Option<String>,
    pub product_id: Option<String>,
    pub maker_name: Option<String>,
    pub title_id: Option<String>,
    pub title_name: Option<String>,
    pub title_name_masked: Option<String>,
    pub site_id: String,
    pub site_id_touch: String,
    pub price_str: String,
    pub down_url: String,
    pub work_name_masked: String,
    pub work_image: String,
    pub regist_date: String,
    pub default_point_str: String,
    pub options: String,
    pub dlsiteplay_work: bool,
    pub is_discount: bool,
    pub is_pointup: bool,
    pub is_rental: bool,
    pub is_ana: bool,
    pub is_sale: bool,
    pub is_title_completed: bool,
    pub is_limit_work: bool,
    pub is_sold_out: bool,
    pub is_reserve_work: bool,
    pub is_reservable: bool,
    pub is_timesale: bool,
    pub is_free: bool,
    pub is_oly: bool,
    pub is_led: bool,
    pub is_noreduction: bool,
    pub is_wcc: bool,
    pub is_pack_work: bool,
    pub upgrade_min_price: i32,
    pub limit_stock: i32,
    pub timesale_stock: i32,
    pub official_price: i32,
    pub age_category: i32,
    pub affiliate_deny: i32,
    pub dl_format: i32,
    pub wishlist_count: i32,
    pub price_without_tax: i32,
    pub default_point_rate: i32,
    pub default_point: i32,
    pub on_sale: i32,
    pub currency_official_price: Option<Keyed<Decimal>>,
    pub locale_official_price: Option<Keyed<Decimal>>,
    pub book_type: Option<Keyed<Option<String>>>,
    pub locale_official_price_str: Option<Keyed<String>>,
    pub translators: Option<Vec<Json>>,
    pub sales_end_info: Option<SalesEndInfo>,
    pub voice_pack: Option<VoicePack>,
    pub dl_count_items: Option<Vec<DlCountItem>>,
    pub locale_price: Keyed<Decimal>,
    pub currency_price: Keyed<Decimal>,
    pub custom_genres: Vec<String>,
    pub locale_price_str: Keyed<String>,
    pub translation_info: TranslationInfo,
    pub rank: Vec<Rank>,
    pub rate_count_detail: Vec<CountDetail>,
    pub bonuses: Vec<Bonus>,
    pub limited_free_terms: Vec<LimitedFreeTerms>,
    pub maker_id: String,
    pub dl_count: Option<i32>,
    pub review_count: Option<i32>,
    pub rate_average_2dp: Option<Decimal>,
    pub rate_count: Option<i32>,
    pub work_name: String,
    pub price: i32,
    pub work_type: WorkType,
    pub product_point_rate: Option<Json>,
    pub discount_caption: Option<Json>,
    pub gift: Vec<Json>,
    pub work_rentals: Vec<Json>,
}

impl FromJson for ProductAjax {
    /// The failure of the first member, in the order of the fields, that
    /// does not have the shape of its field.
    open spec fn failure(j: JsonView) -> Option<Seq<char>> {
        if field_failure::<Option<bool>>(j, "is_downloadable_touch"@) is Some {
            field_failure::<Option<bool>>(j, "is_downloadable_touch"@)
        } else if field_failure::<Option<i32>>(j, "dl_count_total"@) is Some {
            field_failure::<Option<i32>>(j, "dl_count_total"@)
        } else if field_failure::<Option<i32>>(j, "rate_average"@) is Some {
            field_failure::<Option<i32>>(j, "rate_average"@)
        } else if field_failure::<Option<i32>>(j, "rate_average_star"@) is Some {
            field_failure::<Option<i32>>(j, "rate_average_star"@)
        } else if field_failure::<Option<i32>>(j, "title_work_count"@) is Some {
            field_failure::<Option<i32>>(j, "title_work_count"@)
        } else if field_failure::<Option<i32>>(j, "discount_rate"@) is Some {
            field_failure::<Option<i32>>(j, "discount_rate"@)
        } else if field_failure::<Option<i32>>(j, "discount_campaign_id"@) is Some {
            field_failure::<Option<i32>>(j, "discount_campaign_id"@)
        } else if field_failure::<Option<i32>>(j, "title_volumn"@) is Some {
            field_failure::<Option<i32>>(j, "title_volumn"@)
        } else if field_failure::<Option<String>>(j, "discount_calc_type"@) is Some {
            field_failure::<Option<String>>(j, "discount_calc_type"@)
        } else if field_failure::<Option<String>>(j, "bulkbuy_key"@) is Some {
            field_failure::<Option<String>>(j, "bulkbuy_key"@)
        } else if field_failure::<Option<String>>(j, "campaign_id"@) is Some {
            field_failure::<Option<String>>(j, "campaign_id"@)
        } else if field_failure::<Option<String>>(j, "official_price_str"@) is Some {
            field_failure::<Option<String>>(j, "official_price_str"@)
        } else if field_failure::<Option<String>>(j, "discount_end_date"@) is Some {
            field_failure::<Option<String>>(j, "discount_end_date"@)
        } else if field_failure::<Option<String>>(j, "discount_to"@) is Some {
            field_failure::<Option<String>>(j, "discount_to"@)
        } else if field_failure::<Option<String>>(j, "is_tartget"@) is Some {
            field_failure::<Option<String>>(j, "is_tartget"@)
        } else if field_failure::<Option<String>>(j, "share_title"@) is Some {
            field_failure::<Option<String>>(j, "share_title"@)
        } else if field_failure::<Option<String>>(j, "samples"@) is Some {
            field_failure::<Option<String>>(j, "samples"@)
        } else if field_failure::<Option<String>>(j, "product_id"@) is Some {
            field_failure::<Option<String>>(j, "product_id"@)
        } else if field_failure::<Option<String>>(j, "maker_name"@) is Some {
            field_failure::<Option<String>>(j, "maker_name"@)
        } else if field_failure::<Option<String>>(j, "title_id"@) is Some {
            field_failure::<Option<String>>(j, "title_id"@)
        } else if field_failure::<Option<String>>(j, "title_name"@) is Some {
            field_failure::<Option<String>>(j, "title_name"@)
        } else if field_failure::<Option<String>>(j, "title_name_masked"@) is Some {
            field_failure::<Option<String>>(j, "title_name_masked"@)
        } else if field_failure::<String>(j, "site_id"@) is Some {
            field_failure::<String>(j, "site_id"@)
        } else if field_failure::<String>(j, "site_id_touch"@) is Some {
            field_failure::<String>(j, "site_id_touch"@)
        } else if field_failure::<String>(j, "price_str"@) is Some {
            field_failure::<String>(j, "price_str"@)
        } else if field_failure::<String>(j, "down_url"@) is Some {
            field_failure::<String>(j, "down_url"@)
        } else if field_failure::<String>(j, "work_name_masked"@) is Some {
            field_failure::<String>(j, "work_name_masked"@)
        } else if field_failure::<String>(j, "work_image"@) is Some {
            field_failure::<String>(j, "work_image"@)
        } else if field_failure::<String>(j, "regist_date"@) is Some {
            field_failure::<String>(j, "regist_date"@)
        } else if field_failure::<String>(j, "default_point_str"@) is Some {
            field_failure::<String>(j, "default_point_str"@)
        } else if field_failure::<String>(j, "options"@) is Some {
            field_failure::<String>(j, "options"@)
        } else if field_failure::<bool>(j, "dlsiteplay_work"@) is Some {
            field_failure::<bool>(j, "dlsiteplay_work"@)
        } else if field_failure::<bool>(j, "is_discount"@) is Some {
            field_failure::<bool>(j, "is_discount"@)
        } else if field_failure::<bool>(j, "is_pointup"@) is Some {
            field_failure::<bool>(j, "is_pointup"@)
        } else if field_failure::<bool>(j, "is_rental"@) is Some {
            field_failure::<bool>(j, "is_rental"@)
        } else if field_failure::<bool>(j, "is_ana"@) is Some {
            field_failure::<bool>(j, "is_ana"@)
        } else if field_failure::<bool>(j, "is_sale"@) is Some {
            field_failure::<bool>(j, "is_sale"@)
        } else if field_failure::<bool>(j, "is_title_completed"@) is Some {
            field_failure::<bool>(j, "is_title_completed"@)
        } else if field_failure::<bool>(j, "is_limit_work"@) is Some {
            field_failure::<bool>(j, "is_limit_work"@)
        } else if field_failure::<bool>(j, "is_sold_out"@) is Some {
            field_failure::<bool>(j, "is_sold_out"@)
        } else if field_failure::<bool>(j, "is_reserve_work"@) is Some {
            field_failure::<bool>(j, "is_reserve_work"@)
        } else if field_failure::<bool>(j, "is_reservable"@) is Some {
            field_failure::<bool>(j, "is_reservable"@)
        } else if field_failure::<bool>(j, "is_timesale"@) is Some {
            field_failure::<bool>(j, "is_timesale"@)
        } else if field_failure::<bool>(j, "is_free"@) is Some {
            field_failure::<bool>(j, "is_free"@)
        } else if field_failure::<bool>(j, "is_oly"@) is Some {
            field_failure::<bool>(j, "is_oly"@)
        } else if field_failure::<bool>(j, "is_led"@) is Some {
            field_failure::<bool>(j, "is_led"@)
        } else if field_failure::<bool>(j, "is_noreduction"@) is Some {
            field_failure::<bool>(j, "is_noreduction"@)
        } else if field_failure::<bool>(j, "is_wcc"@) is Some {
            field_failure::<bool>(j, "is_wcc"@)
        } else if field_failure::<bool>(j, "is_pack_work"@) is Some {
            field_failure::<bool>(j, "is_pack_work"@)
        } else if field_failure::<i32>(j, "upgrade_min_price"@) is Some {
            field_failure::<i32>(j, "upgrade_min_price"@)
        } else if field_failure::<i32>(j, "limit_stock"@) is Some {
            field_failure::<i32>(j, "limit_stock"@)
        } else if field_failure::<i32>(j, "timesale_stock"@) is Some {
            field_failure::<i32>(j, "timesale_stock"@)
        } else if field_failure::<i32>(j, "official_price"@) is Some {
            field_failure::<i32>(j, "official_price"@)
        } else if field_failure::<i32>(j, "age_category"@) is Some {
            field_failure::<i32>(j, "age_category"@)
        } else if field_failure::<i32>(j, "affiliate_deny"@) is Some {
            field_failure::<i32>(j, "affiliate_deny"@)
        } else if field_failure::<i32>(j, "dl_format"@) is Some {
            field_failure::<i32>(j, "dl_format"@)
        } else if field_failure::<i32>(j, "wishlist_count"@) is Some {
            field_failure::<i32>(j, "wishlist_count"@)
        } else if field_failure::<i32>(j, "price_without_tax"@) is Some {
            field_failure::<i32>(j, "price_without_tax"@)
        } else if field_failure::<i32>(j, "default_point_rate"@) is Some {
            field_failure::<i32>(j, "default_point_rate"@)
        } else if field_failure::<i32>(j, "default_point"@) is Some {
            field_failure::<i32>(j, "default_point"@)
        } else if field_failure::<i32>(j, "on_sale"@) is Some {
            field_failure::<i32>(j, "on_sale"@)
        } else if field_failure::<Option<Keyed<Decimal>>>(j, "currency_official_price"@) is Some {
            field_failure::<Option<Keyed<Decimal>>>(j, "currency_official_price"@)
        } else if field_failure::<Option<Keyed<Decimal>>>(j, "locale_official_price"@) is Some {
            field_failure::<Option<Keyed<Decimal>>>(j, "locale_official_price"@)
        } else if field_failure::<Option<Keyed<Option<String>>>>(j, "book_type"@) is Some {
            field_failure::<Option<Keyed<Option<String>>>>(j, "book_type"@)
        } else if field_failure::<Option<Keyed<String>>>(j, "locale_official_price_str"@) is Some {
            field_failure::<Option<Keyed<String>>>(j, "locale_official_price_str"@)
        } else if field_failure::<Option<Vec<Json>>>(j, "translators"@) is Some {
            field_failure::<Option<Vec<Json>>>(j, "translators"@)
        } else if field_failure::<Option<SalesEndInfo>>(j, "sales_end_info"@) is Some {
            field_failure::<Option<SalesEndInfo>>(j, "sales_end_info"@)
        } else if field_failure::<Option<VoicePack>>(j, "voice_pack"@) is Some {
            field_failure::<Option<VoicePack>>(j, "voice_pack"@)
        } else if field_failure::<Option<Vec<DlCountItem>>>(j, "dl_count_items"@) is Some {
            field_failure::<Option<Vec<DlCountItem>>>(j, "dl_count_items"@)
        } else if field_failure::<Keyed<Decimal>>(j, "locale_price"@) is Some {
            field_failure::<Keyed<Decimal>>(j, "locale_price"@)
        } else if field_failure::<Keyed<Decimal>>(j, "currency_price"@) is Some {
            field_failure::<Keyed<Decimal>>(j, "currency_price"@)
        } else if field_failure::<Vec<String>>(j, "custom_genres"@) is Some {
            field_failure::<Vec<String>>(j, "custom_genres"@)
        } else if field_failure::<Keyed<String>>(j, "locale_price_str"@) is Some {
            field_failure::<Keyed<String>>(j, "locale_price_str"@)
        } else if field_failure::<TranslationInfo>(j, "translation_info"@) is Some {
            field_failure::<TranslationInfo>(j, "translation_info"@)
        } else if field_failure::<Vec<Rank>>(j, "rank"@) is Some {
            field_failure::<Vec<Rank>>(j, "rank"@)
        } else if field_failure::<Vec<CountDetail>>(j, "rate_count_detail"@) is Some {
            field_failure::<Vec<CountDetail>>(j, "rate_count_detail"@)
        } else if field_failure::<Vec<Bonus>>(j, "bonuses"@) is Some {
            field_failure::<Vec<Bonus>>(j, "bonuses"@)
        } else if field_failure::<Vec<LimitedFreeTerms>>(j, "limited_free_terms"@) is Some {
            field_failure::<Vec<LimitedFreeTerms>>(j, "limited_free_terms"@)
        } else if field_failure::<String>(j, "maker_id"@) is Some {
            field_failure::<String>(j, "maker_id"@)
        } else if field_failure::<OptionNumberOrText>(j, "dl_count"@) is Some {
            field_failure::<OptionNumberOrText>(j, "dl_count"@)
        } else if field_failure::<OptionNumberOrText>(j, "review_count"@) is Some {
            field_failure::<OptionNumberOrText>(j, "review_count"@)
        } else if field_failure::<Option<Decimal>>(j, "rate_average_2dp"@) is Some {
            field_failure::<Option<Decimal>>(j, "rate_average_2dp"@)
        } else if field_failure::<Option<i32>>(j, "rate_count"@) is Some {
            field_failure::<Option<i32>>(j, "rate_count"@)
        } else if field_failure::<String>(j, "work_name"@) is Some {
            field_failure::<String>(j, "work_name"@)
        } else if field_failure::<i32>(j, "price"@) is Some {
            field_failure::<i32>(j, "price"@)
        } else if field_failure::<WorkType>(j, "work_type"@) is Some {
            field_failure::<WorkType>(j, "work_type"@)
        } else if field_failure::<Option<Json>>(j, "product_point_rate"@) is Some {
            field_failure::<Option<Json>>(j, "product_point_rate"@)
        } else if field_failure::<Option<Json>>(j, "discount_caption"@) is Some {
            field_failure::<Option<Json>>(j, "discount_caption"@)
        } else if field_failure::<Vec<Json>>(j, "gift"@) is Some {
            field_failure::<Vec<Json>>(j, "gift"@)
        } else if field_failure::<Vec<Json>>(j, "work_rentals"@) is Some {
            field_failure::<Vec<Json>>(j, "work_rentals"@)
        } else {
            None
        }
    }

    open spec fn decoded_from(&self, j: JsonView) -> bool {
        &&& self.is_downloadable_touch.decoded_from(field_value(j, "is_downloadable_touch"@))
        &&& self.dl_count_total.decoded_from(field_value(j, "dl_count_total"@))
        &&& self.rate_average.decoded_from(field_value(j, "rate_average"@))
        &&& self.rate_average_star.decoded_from(field_value(j, "rate_average_star"@))
        &&& self.title_work_count.decoded_from(field_value(j, "title_work_count"@))
        &&& self.discount_rate.decoded_from(field_value(j, "discount_rate"@))
        &&& self.discount_campaign_id.decoded_from(field_value(j, "discount_campaign_id"@))
        &&& self.title_volumn.decoded_from(field_value(j, "title_volumn"@))
        &&& self.discount_calc_type.decoded_from(field_value(j, "discount_calc_type"@))
        &&& self.bulkbuy_key.decoded_from(field_value(j, "bulkbuy_key"@))
        &&& self.campaign_id.decoded_from(field_value(j, "campaign_id"@))
        &&& self.official_price_str.decoded_from(field_value(j, "official_price_str"@))
        &&& self.discount_end_date.decoded_from(field_value(j, "discount_end_date"@))
        &&& self.discount_to.decoded_from(field_value(j, "discount_to"@))
        &&& self.is_tartget.decoded_from(field_value(j, "is_tartget"@))
        &&& self.share_title.decoded_from(field_value(j, "share_title"@))
        &&& self.samples.decoded_from(field_value(j, "samples"@))
        &&& self.product_id.decoded_from(field_value(j, "product_id"@))
        &&& self.maker_name.decoded_from(field_value(j, "maker_name"@))
        &&& self.title_id.decoded_from(field_value(j, "title_id"@))
        &&& self.title_name.decoded_from(field_value(j, "title_name"@))
        &&& self.title_name_masked.decoded_from(field_value(j, "title_name_masked"@))
        &&& self.site_id.decoded_from(field_value(j, "site_id"@))
        &&& self.site_id_touch.decoded_from(field_value(j, "site_id_touch"@))
        &&& self.price_str.decoded_from(field_value(j, "price_str"@))
        &&& self.down_url.decoded_from(field_value(j, "down_url"@))
        &&& self.work_name_masked.decoded_from(field_value(j, "work_name_masked"@))
        &&& self.work_image.decoded_from(field_value(j, "work_image"@))
        &&& self.regist_date.decoded_from(field_value(j, "regist_date"@))
        &&& self.default_point_str.decoded_from(field_value(j, "default_point_str"@))
        &&& self.options.decoded_from(field_value(j, "options"@))
        &&& self.dlsiteplay_work.decoded_from(field_value(j, "dlsiteplay_work"@))
        &&& self.is_discount.decoded_from(field_value(j, "is_discount"@))
        &&& self.is_pointup.decoded_from(field_value(j, "is_pointup"@))
        &&& self.is_rental.decoded_from(field_value(j, "is_rental"@))
        &&& self.is_ana.decoded_from(field_value(j, "is_ana"@))
        &&& self.is_sale.decoded_from(field_value(j, "is_sale"@))
        &&& self.is_title_completed.decoded_from(field_value(j, "is_title_completed"@))
        &&& self.is_limit_work.decoded_from(field_value(j, "is_limit_work"@))
        &&& self.is_sold_out.decoded_from(field_value(j, "is_sold_out"@))
        &&& self.is_reserve_work.decoded_from(field_value(j, "is_reserve_work"@))
        &&& self.is_reservable.decoded_from(field_value(j, "is_reservable"@))
        &&& self.is_timesale.decoded_from(field_value(j, "is_timesale"@))
        &&& self.is_free.decoded_from(field_value(j, "is_free"@))
        &&& self.is_oly.decoded_from(field_value(j, "is_oly"@))
        &&& self.is_led.decoded_from(field_value(j, "is_led"@))
        &&& self.is_noreduction.decoded_from(field_value(j, "is_noreduction"@))
        &&& self.is_wcc.decoded_from(field_value(j, "is_wcc"@))
        &&& self.is_pack_work.decoded_from(field_value(j, "is_pack_work"@))
        &&& self.upgrade_min_price.decoded_from(field_value(j, "upgrade_min_price"@))
        &&& self.limit_stock.decoded_from(field_value(j, "limit_stock"@))
        &&& self.timesale_stock.decoded_from(field_value(j, "timesale_stock"@))
        &&& self.official_price.decoded_from(field_value(j, "official_price"@))
        &&& self.age_category.decoded_from(field_value(j, "age_category"@))
        &&& self.affiliate_deny.decoded_from(field_value(j, "affiliate_deny"@))
        &&& self.dl_format.decoded_from(field_value(j, "dl_format"@))
        &&& self.wishlist_count.decoded_from(field_value(j, "wishlist_count"@))
        &&& self.price_without_tax.decoded_from(field_value(j, "price_without_tax"@))
        &&& self.default_point_rate.decoded_from(field_value(j, "default_point_rate"@))
        &&& self.default_point.decoded_from(field_value(j, "default_point"@))
        &&& self.on_sale.decoded_from(field_value(j, "on_sale"@))
        &&& self.currency_official_price.decoded_from(field_value(j, "currency_official_price"@))
        &&& self.locale_official_price.decoded_from(field_value(j, "locale_official_price"@))
        &&& self.book_type.decoded_from(field_value(j, "book_type"@))
        &&& self.locale_official_price_str.decoded_from(field_value(j, "locale_official_price_str"@))
        &&& self.translators.decoded_from(field_value(j, "translators"@))
        &&& self.sales_end_info.decoded_from(field_value(j, "sales_end_info"@))
        &&& self.voice_pack.decoded_from(field_value(j, "voice_pack"@))
        &&& self.dl_count_items.decoded_from(field_value(j, "dl_count_items"@))
        &&& self.locale_price.decoded_from(field_value(j, "locale_price"@))
        &&& self.currency_price.decoded_from(field_value(j, "currency_price"@))
        &&& self.custom_genres.decoded_from(field_value(j, "custom_genres"@))
        &&& self.locale_price_str.decoded_from(field_value(j, "locale_price_str"@))
        &&& self.translation_info.decoded_from(field_value(j, "translation_info"@))
        &&& self.rank.decoded_from(field_value(j, "rank"@))
        &&& self.rate_count_detail.decoded_from(field_value(j, "rate_count_detail"@))
        &&& self.bonuses.decoded_from(field_value(j, "bonuses"@))
        &&& self.limited_free_terms.decoded_from(field_value(j, "limited_free_terms"@))
        &&& self.maker_id.decoded_from(field_value(j, "maker_id"@))
        &&& (OptionNumberOrText { value: self.dl_count }).decoded_from(field_value(j, "dl_count"@))
        &&& (OptionNumberOrText { value: self.review_count }).decoded_from(field_value(j, "review_count"@))
        &&& self.rate_average_2dp.decoded_from(field_value(j, "rate_average_2dp"@))
        &&& self.rate_count.decoded_from(field_value(j, "rate_count"@))
        &&& self.work_name.decoded_from(field_value(j, "work_name"@))
        &&& self.price.decoded_from(field_value(j, "price"@))
        &&& self.work_type.decoded_from(field_value(j, "work_type"@))
        &&& self.product_point_rate.decoded_from(field_value(j, "product_point_rate"@))
        &&& self.discount_caption.decoded_from(field_value(j, "discount_caption"@))
        &&& self.gift.decoded_from(field_value(j, "gift"@))
        &&& self.work_rentals.decoded_from(field_value(j, "work_rentals"@))
    }

    fn from_json(j: &Json) -> (r: Result<ProductAjax, DlsiteError>) {
        let is_downloadable_touch = match field::<Option<bool>>(j, "is_downloadable_touch") {
            Ok(v) => v,
            Err(e) => {
                return Err(e);
            },
        };
        let dl_count_total = match field::<Option<i32>>(j, "dl_count_total") {
            Ok(v) => v,
            Err(e) => {
                return Err(e);
            },
        };
        let rate_average = match field::<Option<i32>>(j, "rate_average") {
            Ok(v) => v,
            Err(e) => {
                return Err(e);
            },
        };
        let rate_average_star = match field::<Option<i32>>(j, "rate_average_star") {
            Ok(v) => v,
            Err(e) => {
                return Err(e);
            },
        };
        let title_work_count = match field::<Option<i32>>(j, "title_work_count") {
            Ok(v) => v,
            Err(e) => {
                return Err(e);
            },
        };
        let discount_rate = match field::<Option<i32>>(j, "discount_rate") {
            Ok(v) => v,
            Err(e) => {
                return Err(e);
            },
        };
        let discount_campaign_id = match field::<Option<i32>>(j, "discount_campaign_id") {
            Ok(v) => v,
            Err(e) => {
                return Err(e);
            },
        };
        let title_volumn = match field::<Option<i32>>(j, "title_volumn") {
            Ok(v) => v,
            Err(e) => {
                return Err(e);
            },
        };
        let discount_calc_type = match field::<Option<String>>(j, "discount_calc_type") {
            Ok(v) => v,
            Err(e) => {
                return Err(e);
            },
        };
        let bulkbuy_key = match field::<Option<String>>(j, "bulkbuy_key") {
            Ok(v) => v,
            Err(e) => {
                return Err(e);
            },
        };
        let campaign_id = match field::<Option<String>>(j, "campaign_id") {
            Ok(v) => v,
            Err(e) => {
                return Err(e);
            },
        };
        let official_price_str = match field::<Option<String>>(j, "official_price_str") {
            Ok(v) => v,
            Err(e) => {
                return Err(e);
            },
        };
        let discount_end_date = match field::<Option<String>>(j, "discount_end_date") {
            Ok(v) => v,
            Err(e) => {
                return Err(e);
            },
        };
        let discount_to = match field::<Option<String>>(j, "discount_to") {
            Ok(v) => v,
            Err(e) => {
                return Err(e);
            },
        };
        let is_tartget = match field::<Option<String>>(j, "is_tartget") {
            Ok(v) => v,
            Err(e) => {
                return Err(e);
            },
        };
        let share_title = match field::<Option<String>>(j, "share_title") {
            Ok(v) => v,
            Err(e) => {
                return Err(e);
            },
        };
        let samples = match field::<Option<String>>(j, "samples") {
            Ok(v) => v,
            Err(e) => {
                return Err(e);
            },
        };
        let product_id = match field::<Option<String>>(j, "product_id") {
            Ok(v) => v,
            Err(e) => {
                return Err(e);
            },
        };
        let maker_name = match field::<Option<String>>(j, "maker_name") {
            Ok(v) => v,
            Err(e) => {
                return Err(e);
            },
        };
        let title_id = match field::<Option<String>>(j, "title_id") {
            Ok(v) => v,
            Err(e) => {
                return Err(e);
            },
        };
        let title_name = match field::<Option<String>>(j, "title_name") {
            Ok(v) => v,
            Err(e) => {
                return Err(e);
            },
        };
        let title_name_masked = match field::<Option<String>>(j, "title_name_masked") {
            Ok(v) => v,
            Err(e) => {
                return Err(e);
            },
        };
        let site_id = match field::<String>(j, "site_id") {
            Ok(v) => v,
            Err(e) => {
                return Err(e);
            },
        };
        let site_id_touch = match field::<String>(j, "site_id_touch") {
            Ok(v) => v,
            Err(e) => {
                return Err(e);
            },
        };
        let price_str = match field::<String>(j, "price_str") {
            Ok(v) => v,
            Err(e) => {
                return Err(e);
            },
        };
        let down_url = match field::<String>(j, "down_url") {
            Ok(v) => v,
            Err(e) => {
                return Err(e);
            },
        };
        let work_name_masked = match field::<String>(j, "work_name_masked") {
            Ok(v) => v,
            Err(e) => {
                return Err(e);
            },
        };
        let work_image = match field::<String>(j, "work_image") {
            Ok(v) => v,
            Err(e) => {
                return Err(e);
            },
        };
        let regist_date = match field::<String>(j, "regist_date") {
            Ok(v) => v,
            Err(e) => {
                return Err(e);
            },
        };
        let default_point_str = match field::<String>(j, "default_point_str") {
            Ok(v) => v,
            Err(e) => {
                return Err(e);
            },
        };
        let options = match field::<String>(j, "options") {
            Ok(v) => v,
            Err(e) => {
                return Err(e);
            },
        };
        let dlsiteplay_work = match field::<bool>(j, "dlsiteplay_work") {
            Ok(v) => v,
            Err(e) => {
                return Err(e);
            },
        };
        let is_discount = match field::<bool>(j, "is_discount") {
            Ok(v) => v,
            Err(e) => {
                return Err(e);
            },
        };
        let is_pointup = match field::<bool>(j, "is_pointup") {
            Ok(v) => v,
            Err(e) => {
                return Err(e);
            },
        };
        let is_rental = match field::<bool>(j, "is_rental") {
            Ok(v) => v,
            Err(e) => {
                return Err(e);
            },
        };
        let is_ana = match field::<bool>(j, "is_ana") {
            Ok(v) => v,
            Err(e) => {
                return Err(e);
            },
        };
        let is_sale = match field::<bool>(j, "is_sale") {
            Ok(v) => v,
            Err(e) => {
                return Err(e);
            },
        };
        let is_title_completed = match field::<bool>(j, "is_title_completed") {
            Ok(v) => v,
            Err(e) => {
                return Err(e);
            },
        };
        let is_limit_work = match field::<bool>(j, "is_limit_work") {
            Ok(v) => v,
            Err(e) => {
                return Err(e);
            },
        };
        let is_sold_out = match field::<bool>(j, "is_sold_out") {
            Ok(v) => v,
            Err(e) => {
                return Err(e);
            },
        };
        let is_reserve_work = match field::<bool>(j, "is_reserve_work") {
            Ok(v) => v,
            Err(e) => {
                return Err(e);
            },
        };
        let is_reservable = match field::<bool>(j, "is_reservable") {
            Ok(v) => v,
            Err(e) => {
                return Err(e);
            },
        };
        let is_timesale = match field::<bool>(j, "is_timesale") {
            Ok(v) => v,
            Err(e) => {
                return Err(e);
            },
        };
        let is_free = match field::<bool>(j, "is_free") {
            Ok(v) => v,
            Err(e) => {
                return Err(e);
            },
        };
        let is_oly = match field::<bool>(j, "is_oly") {
            Ok(v) => v,
            Err(e) => {
                return Err(e);
            },
        };
        let is_led = match field::<bool>(j, "is_led") {
            Ok(v) => v,
            Err(e) => {
                return Err(e);
            },
        };
        let is_noreduction = match field::<bool>(j, "is_noreduction") {
            Ok(v) => v,
            Err(e) => {
                return Err(e);
            },
        };
        let is_wcc = match field::<bool>(j, "is_wcc") {
            Ok(v) => v,
            Err(e) => {
                return Err(e);
            },
        };
        let is_pack_work = match field::<bool>(j, "is_pack_work") {
            Ok(v) => v,
            Err(e) => {
                return Err(e);
            },
        };
        let upgrade_min_price = match field::<i32>(j, "upgrade_min_price") {
            Ok(v) => v,
            Err(e) => {
                return Err(e);
            },
        };
        let limit_stock = match field::<i32>(j, "limit_stock") {
            Ok(v) => v,
            Err(e) => {
                return Err(e);
            },
        };
        let timesale_stock = match field::<i32>(j, "timesale_stock") {
            Ok(v) => v,
            Err(e) => {
                return Err(e);
            },
        };
        let official_price = match field::<i32>(j, "official_price") {
            Ok(v) => v,
            Err(e) => {
                return Err(e);
            },
        };
        let age_category = match field::<i32>(j, "age_category") {
            Ok(v) => v,
            Err(e) => {
                return Err(e);
            },
        };
        let affiliate_deny = match field::<i32>(j, "affiliate_deny") {
            Ok(v) => v,
            Err(e) => {
                return Err(e);
            },
        };
        let dl_format = match field::<i32>(j, "dl_format") {
            Ok(v) => v,
            Err(e) => {
                return Err(e);
            },
        };
        let wishlist_count = match field::<i32>(j, "wishlist_count") {
            Ok(v) => v,
            Err(e) => {
                return Err(e);
            },
        };
        let price_without_tax = match field::<i32>(j, "price_without_tax") {
            Ok(v) => v,
            Err(e) => {
                return Err(e);
            },
        };
        let default_point_rate = match field::<i32>(j, "default_point_rate") {
            Ok(v) => v,
            Err(e) => {
                return Err(e);
            },
        };
        let default_point = match field::<i32>(j, "default_point") {
            Ok(v) => v,
            Err(e) => {
                return Err(e);
            },
        };
        let on_sale = match field::<i32>(j, "on_sale") {
            Ok(v) => v,
            Err(e) => {
                return Err(e);
            },
        };
        let currency_official_price = match field::<Option<Keyed<Decimal>>>(j, "currency_official_price") {
            Ok(v) => v,
            Err(e) => {
                return Err(e);
            },
        };
        let locale_official_price = match field::<Option<Keyed<Decimal>>>(j, "locale_official_price") {
            Ok(v) => v,
            Err(e) => {
                return Err(e);
            },
        };
        let book_type = match field::<Option<Keyed<Option<String>>>>(j, "book_type") {
            Ok(v) => v,
            Err(e) => {
                return Err(e);
            },
        };
        let locale_official_price_str = match field::<Option<Keyed<String>>>(j, "locale_official_price_str") {
            Ok(v) => v,
            Err(e) => {
                return Err(e);
            },
        };
        let translators = match field::<Option<Vec<Json>>>(j, "translators") {
            Ok(v) => v,
            Err(e) => {
                return Err(e);
            },
        };
        let sales_end_info = match field::<Option<SalesEndInfo>>(j, "sales_end_info") {
            Ok(v) => v,
            Err(e) => {
                return Err(e);
            },
        };
        let voice_pack = match field::<Option<VoicePack>>(j, "voice_pack") {
            Ok(v) => v,
            Err(e) => {
                return Err(e);
            },
        };
        let dl_count_items = match field::<Option<Vec<DlCountItem>>>(j, "dl_count_items") {
            Ok(v) => v,
            Err(e) => {
                return Err(e);
            },
        };
        let locale_price = match field::<Keyed<Decimal>>(j, "locale_price") {
            Ok(v) => v,
            Err(e) => {
                return Err(e);
            },
        };
        let currency_price = match field::<Keyed<Decimal>>(j, "currency_price") {
            Ok(v) => v,
            Err(e) => {
                return Err(e);
            },
        };
        let custom_genres = match field::<Vec<String>>(j, "custom_genres") {
            Ok(v) => v,
            Err(e) => {
                return Err(e);
            },
        };
        let locale_price_str = match field::<Keyed<String>>(j, "locale_price_str") {
            Ok(v) => v,
            Err(e) => {
                return Err(e);
            },
        };
        let translation_info = match field::<TranslationInfo>(j, "translation_info") {
            Ok(v) => v,
            Err(e) => {
                return Err(e);
            },
        };
        let rank = match field::<Vec<Rank>>(j, "rank") {
            Ok(v) => v,
            Err(e) => {
                return Err(e);
            },
        };
        let rate_count_detail = match field::<Vec<CountDetail>>(j, "rate_count_detail") {
            Ok(v) => v,
            Err(e) => {
                return Err(e);
            },
        };
        let bonuses = match field::<Vec<Bonus>>(j, "bonuses") {
            Ok(v) => v,
            Err(e) => {
                return Err(e);
            },
        };
        let limited_free_terms = match field::<Vec<LimitedFreeTerms>>(j, "limited_free_terms") {
            Ok(v) => v,
            Err(e) => {
                return Err(e);
            },
        };
        let maker_id = match field::<String>(j, "maker_id") {
            Ok(v) => v,
            Err(e) => {
                return Err(e);
            },
        };
        let dl_count = match field::<OptionNumberOrText>(j, "dl_count") {
            Ok(v) => v.value,
            Err(e) => {
                return Err(e);
            },
        };
        let review_count = match field::<OptionNumberOrText>(j, "review_count") {
            Ok(v) => v.value,
            Err(e) => {
                return Err(e);
            },
        };
        let rate_average_2dp = match field::<Option<Decimal>>(j, "rate_average_2dp") {
            Ok(v) => v,
            Err(e) => {
                return Err(e);
            },
        };
        let rate_count = match field::<Option<i32>>(j, "rate_count") {
            Ok(v) => v,
            Err(e) => {
                return Err(e);
            },
        };
        let work_name = match field::<String>(j, "work_name") {
            Ok(v) => v,
            Err(e) => {
                return Err(e);
            },
        };
        let price = match field::<i32>(j, "price") {
            Ok(v) => v,
            Err(e) => {
                return Err(e);
            },
        };
        let work_type = match field::<WorkType>(j, "work_type") {
            Ok(v) => v,
            Err(e) => {
                return Err(e);
            },
        };
        let product_point_rate = match field::<Option<Json>>(j, "product_point_rate") {
            Ok(v) => v,
            Err(e) => {
                return Err(e);
            },
        };
        let discount_caption = match field::<Option<Json>>(j, "discount_caption") {
            Ok(v) => v,
            Err(e) => {
                return Err(e);
            },
        };
        let gift = match field::<Vec<Json>>(j, "gift") {
            Ok(v) => v,
            Err(e) => {
                return Err(e);
            },
        };
        let work_rentals = match field::<Vec<Json>>(j, "work_rentals") {
            Ok(v) => v,
            Err(e) => {
                return Err(e);
            },
        };
        Ok(ProductAjax { is_downloadable_touch, dl_count_total, rate_average, rate_average_star, title_work_count, discount_rate, discount_campaign_id, title_volumn, discount_calc_type, bulkbuy_key, campaign_id, official_price_str, discount_end_date, discount_to, is_tartget, share_title, samples, product_id, maker_name, title_id, title_name, title_name_masked, site_id, site_id_touch, price_str, down_url, work_name_masked, work_image, regist_date, default_point_str, options, dlsiteplay_work, is_discount, is_pointup, is_rental, is_ana, is_sale, is_title_completed, is_limit_work, is_sold_out, is_reserve_work, is_reservable, is_timesale, is_free, is_oly, is_led, is_noreduction, is_wcc, is_pack_work, upgrade_min_price, limit_stock, timesale_stock, official_price, age_category, affiliate_deny, dl_format, wishlist_count, price_without_tax, default_point_rate, default_point, on_sale, currency_official_price, locale_official_price, book_type, locale_official_price_str, translators, sales_end_info, voice_pack, dl_count_items, locale_price, currency_price, custom_genres, locale_price_str, translation_info, rank, rate_count_detail, bonuses, limited_free_terms, maker_id, dl_count, review_count, rate_average_2dp, rate_count, work_name, price, work_type, product_point_rate, discount_caption, gift, work_rentals })
    }
}
/// The path that asks for the summary of `product_id`.
pub open spec fn ajax_path_of(product_id: Seq<char>) -> Seq<char> {
    "/product/info/ajax?product_id="@ + product_id
}

/// The identifiers, with a comma between each two.
pub open spec fn comma_joined(ids: Seq<Seq<char>>) -> Seq<char>
    decreases ids.len(),
{
    if ids.len() == 0 {
        Seq::empty()
    } else if ids.len() == 1 {
        ids[0]
    } else {
        comma_joined(ids.drop_last()) + ","@ + ids.last()
    }
}

/// The path that asks for the summary of `product_id`.
pub fn ajax_path(product_id: &str) -> (path: String)
    ensures
        path@ == ajax_path_of(product_id@),
{
    let mut path = "/product/info/ajax?product_id=".to_owned();
    path.append(product_id);
    path
}

/// The path that asks for the summaries of `product_ids` at once.
pub fn ajax_multiple_path(product_ids: &Vec<String>) -> (path: String)
    ensures
        path@ == ajax_path_of(comma_joined(product_ids.deep_view())),
{
    let mut joined = String::new();
    let mut i: usize = 0;
    proof {
        assert(product_ids.deep_view().take(0) =~= Seq::empty());
    }
    while i < product_ids.len()
        invariant
            i <= product_ids.len(),
            joined@ == comma_joined(product_ids.deep_view().take(i as int)),
        decreases product_ids.len() - i,
    {
        proof {
            assert(product_ids.deep_view().take(i as int + 1).drop_last()
                =~= product_ids.deep_view().take(i as int));
        }
        if i > 0 {
            joined.append(",");
        }
        joined.append(product_ids[i].as_str());
        proof {
            if i == 0 {
                assert(joined@ =~= product_ids.deep_view()[0]);
            }
        }
        i += 1;
    }
    proof {
        assert(product_ids.deep_view().take(product_ids.len() as int) =~= product_ids.deep_view());
    }
    ajax_path(joined.as_str())
}

/// Whether `r` is the outcome of reading the payload `j` as the summaries
/// of several products, by identifier.
pub open spec fn ajax_multiple_decoded(j: JsonView, r: Result<Keyed<ProductAjax>, DlsiteError>) -> bool {
    match r {
        Ok(v) => Keyed::<ProductAjax>::failure(j) is None && v.decoded_from(j),
        Err(e) => Keyed::<ProductAjax>::failure(j) is Some && e.is_shape(
            Keyed::<ProductAjax>::failure(j)->0,
        ),
    }
}

/// The summaries that the payload `text` holds, by identifier, in the order
/// of the text.
pub fn decode_ajax_multiple(text: &str) -> (r: Result<Keyed<ProductAjax>, DlsiteError>)
    ensures
        match json_of_text(text@) {
            Some(j) => ajax_multiple_decoded(j, r),
            None => r is Err && r->Err_0 is SerdeJson,
        },
{
    match parse_json(text) {
        Ok(j) => Keyed::<ProductAjax>::from_json(&j),
        Err(e) => Err(e),
    }
}

/// Whether `r` is the outcome of taking the summary of `product_id` out of
/// the payload `j`: every summary in the payload has to decode, and the one
/// asked for has to be among them.
pub open spec fn ajax_decoded(
    j: JsonView,
    product_id: Seq<char>,
    r: Result<ProductAjax, DlsiteError>,
) -> bool {
    match Keyed::<ProductAjax>::failure(j) {
        Some(message) => r is Err && r->Err_0.is_shape(message),
        None => match j.member(product_id) {
            Some(one) => r is Ok && r->Ok_0.decoded_from(one),
            None => r is Err && r->Err_0.is_shape("Failed to parse ajax json"@),
        },
    }
}

/// The summary of `product_id` in the payload `j`.
pub fn decode_ajax_json(j: &Json, product_id: &str) -> (r: Result<ProductAjax, DlsiteError>)
    ensures
        ajax_decoded(j.deep_view(), product_id@, r),
{
    match Keyed::<ProductAjax>::from_json(j) {
        Ok(keyed) => match take_member(keyed, j, product_id) {
            Some(one) => Ok(one),
            None => Err(DlsiteError::shape("Failed to parse ajax json")),
        },
        Err(e) => Err(e),
    }
}

/// Whether `r` is the outcome of taking the summary of `product_id` out of
/// the payload `text`.
pub open spec fn ajax_text_decoded(
    text: Seq<char>,
    product_id: Seq<char>,
    r: Result<ProductAjax, DlsiteError>,
) -> bool {
    match json_of_text(text) {
        Some(j) => ajax_decoded(j, product_id, r),
        None => r is Err && r->Err_0 is SerdeJson,
    }
}

/// The summary of `product_id` in the payload `text`.
pub fn decode_ajax(text: &str, product_id: &str) -> (r: Result<ProductAjax, DlsiteError>)
    ensures
        ajax_text_decoded(text@, product_id@, r),
{
    match parse_json(text) {
        Ok(j) => decode_ajax_json(&j, product_id),
        Err(e) => Err(e),
    }
}

} // verus!
