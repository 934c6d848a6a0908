//! The records of the product interface.

use crate::common::{AgeCategory, FileType, WorkCategory, WorkType};
use crate::error::DlsiteError;
use crate::json::{Json, JsonView};
use crate::shape::{
    field, field_failure, field_value, law_same_pairs_read_alike, law_same_sequence_reads_alike,
    same_pairs, same_sequence, Decimal, Either, Entry, FromJson, Keyed, KeyedOrSeq, Lenient,
    OneOrMany, SeqOrMap,
};
use vstd::prelude::*;

verus! {

/// A string, or a boolean in its place. Both are values in their own right.
pub type StrOrBool = Either<String, bool>;

/// A period in which a work is free.
#[derive(Debug)]
pub struct LimitedFree {
    pub end_date: String,
    pub id: i32,
    pub original_workno: Option<String>,
    pub workno: String,
    pub start_date: String,
}

impl FromJson for LimitedFree {
    /// The failure of the first member, in the order of the fields, that
    /// does not have the shape of its field.
    open spec fn failure(j: JsonView) -> Option<Seq<char>> {
        if field_failure::<String>(j, "end_date"@) is Some {
            field_failure::<String>(j, "end_date"@)
        } else if field_failure::<i32>(j, "id"@) is Some {
            field_failure::<i32>(j, "id"@)
        } else if field_failure::<Option<String>>(j, "original_workno"@) is Some {
            field_failure::<Option<String>>(j, "original_workno"@)
        } else if field_failure::<String>(j, "workno"@) is Some {
            field_failure::<String>(j, "workno"@)
        } else if field_failure::<String>(j, "start_date"@) is Some {
            field_failure::<String>(j, "start_date"@)
        } else {
            None
        }
    }

    open spec fn decoded_from(&self, j: JsonView) -> bool {
        &&& self.end_date.decoded_from(field_value(j, "end_date"@))
        &&& self.id.decoded_from(field_value(j, "id"@))
        &&& self.original_workno.decoded_from(field_value(j, "original_workno"@))
        &&& self.workno.decoded_from(field_value(j, "workno"@))
        &&& self.start_date.decoded_from(field_value(j, "start_date"@))
    }

    fn from_json(j: &Json) -> (r: Result<LimitedFree, DlsiteError>) {
        let end_date = match field::<String>(j, "end_date") {
            Ok(v) => v,
            Err(e) => {
                return Err(e);
            },
        };
        let id = match field::<i32>(j, "id") {
            Ok(v) => v,
            Err(e) => {
                return Err(e);
            },
        };
        let original_workno = match field::<Option<String>>(j, "original_workno") {
            Ok(v) => v,
            Err(e) => {
                return Err(e);
            },
        };
        let workno = match field::<String>(j, "workno") {
            Ok(v) => v,
            Err(e) => {
                return Err(e);
            },
        };
        let start_date = match field::<String>(j, "start_date") {
            Ok(v) => v,
            Err(e) => {
                return Err(e);
            },
        };
        Ok(LimitedFree { end_date, id, original_workno, workno, start_date })
    }
}
/// A work that is sold as part of a pack.
#[derive(Debug)]
pub struct WorkPackChild {
    pub inservice: i32,
    pub product_id: String,
    pub product_name: String,
    pub work_name: String,
    pub workno: String,
}

impl FromJson for WorkPackChild {
    /// The failure of the first member, in the order of the fields, that
    /// does not have the shape of its field.
    open spec fn failure(j: JsonView) -> Option<Seq<char>> {
        if field_failure::<i32>(j, "inservice"@) is Some {
            field_failure::<i32>(j, "inservice"@)
        } else if field_failure::<String>(j, "product_id"@) is Some {
            field_failure::<String>(j, "product_id"@)
        } else if field_failure::<String>(j, "product_name"@) is Some {
            field_failure::<String>(j, "product_name"@)
        } else if field_failure::<String>(j, "work_name"@) is Some {
            field_failure::<String>(j, "work_name"@)
        } else if field_failure::<String>(j, "workno"@) is Some {
            field_failure::<String>(j, "workno"@)
        } else {
            None
        }
    }

    open spec fn decoded_from(&self, j: JsonView) -> bool {
        &&& self.inservice.decoded_from(field_value(j, "inservice"@))
        &&& self.product_id.decoded_from(field_value(j, "product_id"@))
        &&& self.product_name.decoded_from(field_value(j, "product_name"@))
        &&& self.work_name.decoded_from(field_value(j, "work_name"@))
        &&& self.workno.decoded_from(field_value(j, "workno"@))
    }

    fn from_json(j: &Json) -> (r: Result<WorkPackChild, DlsiteError>) {
        let inservice = match field::<i32>(j, "inservice") {
            Ok(v) => v,
            Err(e) => {
                return Err(e);
            },
        };
        let product_id = match field::<String>(j, "product_id") {
            Ok(v) => v,
            Err(e) => {
                return Err(e);
            },
        };
        let product_name = match field::<String>(j, "product_name") {
            Ok(v) => v,
            Err(e) => {
                return Err(e);
            },
        };
        let work_name = match field::<String>(j, "work_name") {
            Ok(v) => v,
            Err(e) => {
                return Err(e);
            },
        };
        let workno = match field::<String>(j, "workno") {
            Ok(v) => v,
            Err(e) => {
                return Err(e);
            },
        };
        Ok(WorkPackChild { inservice, product_id, product_name, work_name, workno })
    }
}
/// An edition of a work in one language.
#[derive(Debug)]
pub struct LanguageEdition {
    pub display_order: i32,
    pub edition_id: i32,
    pub edition_type: String,
    pub label: String,
    pub lang: String,
    pub workno: String,
}

impl FromJson for LanguageEdition {
    /// The failure of the first member, in the order of the fields, that
    /// does not have the shape of its field.
    open spec fn failure(j: JsonView) -> Option<Seq<char>> {
        if field_failure::<i32>(j, "display_order"@) is Some {
            field_failure::<i32>(j, "display_order"@)
        } else if field_failure::<i32>(j, "edition_id"@) is Some {
            field_failure::<i32>(j, "edition_id"@)
        } else if field_failure::<String>(j, "edition_type"@) is Some {
            field_failure::<String>(j, "edition_type"@)
        } else if field_failure::<String>(j, "label"@) is Some {
            field_failure::<String>(j, "label"@)
        } else if field_failure::<String>(j, "lang"@) is Some {
            field_failure::<String>(j, "lang"@)
        } else if field_failure::<String>(j, "workno"@) is Some {
            field_failure::<String>(j, "workno"@)
        } else {
            None
        }
    }

    open spec fn decoded_from(&self, j: JsonView) -> bool {
        &&& self.display_order.decoded_from(field_value(j, "display_order"@))
        &&& self.edition_id.decoded_from(field_value(j, "edition_id"@))
        &&& self.edition_type.decoded_from(field_value(j, "edition_type"@))
        &&& self.label.decoded_from(field_value(j, "label"@))
        &&& self.lang.decoded_from(field_value(j, "lang"@))
        &&& self.workno.decoded_from(field_value(j, "workno"@))
    }

    fn from_json(j: &Json) -> (r: Result<LanguageEdition, DlsiteError>) {
        let display_order = match field::<i32>(j, "display_order") {
            Ok(v) => v,
            Err(e) => {
                return Err(e);
            },
        };
        let edition_id = match field::<i32>(j, "edition_id") {
            Ok(v) => v,
            Err(e) => {
                return Err(e);
            },
        };
        let edition_type = match field::<String>(j, "edition_type") {
            Ok(v) => v,
            Err(e) => {
                return Err(e);
            },
        };
        let label = match field::<String>(j, "label") {
            Ok(v) => v,
            Err(e) => {
                return Err(e);
            },
        };
        let lang = match field::<String>(j, "lang") {
            Ok(v) => v,
            Err(e) => {
                return Err(e);
            },
        };
        let workno = match field::<String>(j, "workno") {
            Ok(v) => v,
            Err(e) => {
                return Err(e);
            },
        };
        Ok(LanguageEdition { display_order, edition_id, edition_type, label, lang, workno })
    }
}
/// The options of a discount campaign.
#[derive(Debug)]
pub struct Options {
    pub end_date: Option<String>,
    pub start_date: Option<String>,
    pub frame_sort: FrameSort,
    pub pickups: Option<Vec<String>>,
    pub timesale_search: Option<bool>,
}

impl FromJson for Options {
    /// The failure of the first member, in the order of the fields, that
    /// does not have the shape of its field.
    open spec fn failure(j: JsonView) -> Option<Seq<char>> {
        if field_failure::<Option<String>>(j, "end_date"@) is Some {
            field_failure::<Option<String>>(j, "end_date"@)
        } else if field_failure::<Option<String>>(j, "start_date"@) is Some {
            field_failure::<Option<String>>(j, "start_date"@)
        } else if field_failure::<FrameSort>(j, "frame_sort"@) is Some {
            field_failure::<FrameSort>(j, "frame_sort"@)
        } else if field_failure::<Option<Vec<String>>>(j, "pickups"@) is Some {
            field_failure::<Option<Vec<String>>>(j, "pickups"@)
        } else if field_failure::<Option<bool>>(j, "timesale_search"@) is Some {
            field_failure::<Option<bool>>(j, "timesale_search"@)
        } else {
            None
        }
    }

    open spec fn decoded_from(&self, j: JsonView) -> bool {
        &&& self.end_date.decoded_from(field_value(j, "end_date"@))
        &&& self.start_date.decoded_from(field_value(j, "start_date"@))
        &&& self.frame_sort.decoded_from(field_value(j, "frame_sort"@))
        &&& self.pickups.decoded_from(field_value(j, "pickups"@))
        &&& self.timesale_search.decoded_from(field_value(j, "timesale_search"@))
    }

    fn from_json(j: &Json) -> (r: Result<Options, DlsiteError>) {
        let end_date = match field::<Option<String>>(j, "end_date") {
            Ok(v) => v,
            Err(e) => {
                return Err(e);
            },
        };
        let start_date = match field::<Option<String>>(j, "start_date") {
            Ok(v) => v,
            Err(e) => {
                return Err(e);
            },
        };
        let frame_sort = match field::<FrameSort>(j, "frame_sort") {
            Ok(v) => v,
            Err(e) => {
                return Err(e);
            },
        };
        let pickups = match field::<Option<Vec<String>>>(j, "pickups") {
            Ok(v) => v,
            Err(e) => {
                return Err(e);
            },
        };
        let timesale_search = match field::<Option<bool>>(j, "timesale_search") {
            Ok(v) => v,
            Err(e) => {
                return Err(e);
            },
        };
        Ok(Options { end_date, start_date, frame_sort, pickups, timesale_search })
    }
}
/// Where a discounted work is placed in the frames of a campaign.
#[derive(Debug)]
pub struct FrameSort {
    pub discount: String,
    pub pickup: String,
    pub pickup_free: String,
    pub related: String,
}

impl FromJson for FrameSort {
    /// The failure of the first member, in the order of the fields, that
    /// does not have the shape of its field.
    open spec fn failure(j: JsonView) -> Option<Seq<char>> {
        if field_failure::<String>(j, "discount"@) is Some {
            field_failure::<String>(j, "discount"@)
        } else if field_failure::<String>(j, "pickup"@) is Some {
            field_failure::<String>(j, "pickup"@)
        } else if field_failure::<String>(j, "pickup_free"@) is Some {
            field_failure::<String>(j, "pickup_free"@)
        } else if field_failure::<String>(j, "related"@) is Some {
            field_failure::<String>(j, "related"@)
        } else {
            None
        }
    }

    open spec fn decoded_from(&self, j: JsonView) -> bool {
        &&& self.discount.decoded_from(field_value(j, "discount"@))
        &&& self.pickup.decoded_from(field_value(j, "pickup"@))
        &&& self.pickup_free.decoded_from(field_value(j, "pickup_free"@))
        &&& self.related.decoded_from(field_value(j, "related"@))
    }

    fn from_json(j: &Json) -> (r: Result<FrameSort, DlsiteError>) {
        let discount = match field::<String>(j, "discount") {
            Ok(v) => v,
            Err(e) => {
                return Err(e);
            },
        };
        let pickup = match field::<String>(j, "pickup") {
            Ok(v) => v,
            Err(e) => {
                return Err(e);
            },
        };
        let pickup_free = match field::<String>(j, "pickup_free") {
            Ok(v) => v,
            Err(e) => {
                return Err(e);
            },
        };
        let related = match field::<String>(j, "related") {
            Ok(v) => v,
            Err(e) => {
                return Err(e);
            },
        };
        Ok(FrameSort { discount, pickup, pickup_free, related })
    }
}
/// A discount on a work.
#[derive(Debug)]
pub struct Discount {
    pub access_key: Option<String>,
    pub campaign_id: i32,
    pub campaign_price: i32,
    pub del_flg: String,
    pub discount_rate: i32,
    pub end_date: i32,
    pub id: String,
    pub insert_date: String,
    pub insert_id: Option<String>,
    pub limit_dl_count: Option<i32>,
    pub note: Option<Json>,
    pub options: Vec<Options>,
    pub restore_price: i32,
    pub restore_trade_price: i32,
    pub show_end_date_days: String,
    pub start_date: i32,
    pub status: String,
    pub title: String,
    pub trade_price_type: String,
    pub update_date: String,
    pub update_id: Option<String>,
    pub workno: String,
}

impl FromJson for Discount {
    /// The failure of the first member, in the order of the fields, that
    /// does not have the shape of its field.
    open spec fn failure(j: JsonView) -> Option<Seq<char>> {
        if field_failure::<Option<String>>(j, "access_key"@) is Some {
            field_failure::<Option<String>>(j, "access_key"@)
        } else if field_failure::<i32>(j, "campaign_id"@) is Some {
            field_failure::<i32>(j, "campaign_id"@)
        } else if field_failure::<i32>(j, "campaign_price"@) is Some {
            field_failure::<i32>(j, "campaign_price"@)
        } else if field_failure::<String>(j, "del_flg"@) is Some {
            field_failure::<String>(j, "del_flg"@)
        } else if field_failure::<i32>(j, "discount_rate"@) is Some {
            field_failure::<i32>(j, "discount_rate"@)
        } else if field_failure::<i32>(j, "end_date"@) is Some {
            field_failure::<i32>(j, "end_date"@)
        } else if field_failure::<String>(j, "id"@) is Some {
            field_failure::<String>(j, "id"@)
        } else if field_failure::<String>(j, "insert_date"@) is Some {
            field_failure::<String>(j, "insert_date"@)
        } else if field_failure::<Option<String>>(j, "insert_id"@) is Some {
            field_failure::<Option<String>>(j, "insert_id"@)
        } else if field_failure::<Option<i32>>(j, "limit_dl_count"@) is Some {
            field_failure::<Option<i32>>(j, "limit_dl_count"@)
        } else if field_failure::<Option<Json>>(j, "note"@) is Some {
            field_failure::<Option<Json>>(j, "note"@)
        } else if field_failure::<OneOrMany<Options>>(j, "options"@) is Some {
            field_failure::<OneOrMany<Options>>(j, "options"@)
        } else if field_failure::<i32>(j, "restore_price"@) is Some {
            field_failure::<i32>(j, "restore_price"@)
        } else if field_failure::<i32>(j, "restore_trade_price"@) is Some {
            field_failure::<i32>(j, "restore_trade_price"@)
        } else if field_failure::<String>(j, "show_end_date_days"@) is Some {
            field_failure::<String>(j, "show_end_date_days"@)
        } else if field_failure::<i32>(j, "start_date"@) is Some {
            field_failure::<i32>(j, "start_date"@)
        } else if field_failure::<String>(j, "status"@) is Some {
            field_failure::<String>(j, "status"@)
        } else if field_failure::<String>(j, "title"@) is Some {
            field_failure::<String>(j, "title"@)
        } else if field_failure::<String>(j, "trade_price_type"@) is Some {
            field_failure::<String>(j, "trade_price_type"@)
        } else if field_failure::<String>(j, "update_date"@) is Some {
            field_failure::<String>(j, "update_date"@)
        } else if field_failure::<Option<String>>(j, "update_id"@) is Some {
            field_failure::<Option<String>>(j, "update_id"@)
        } else if field_failure::<String>(j, "workno"@) is Some {
            field_failure::<String>(j, "workno"@)
        } else {
            None
        }
    }

    open spec fn decoded_from(&self, j: JsonView) -> bool {
        &&& self.access_key.decoded_from(field_value(j, "access_key"@))
        &&& self.campaign_id.decoded_from(field_value(j, "campaign_id"@))
        &&& self.campaign_price.decoded_from(field_value(j, "campaign_price"@))
        &&& self.del_flg.decoded_from(field_value(j, "del_flg"@))
        &&& self.discount_rate.decoded_from(field_value(j, "discount_rate"@))
        &&& self.end_date.decoded_from(field_value(j, "end_date"@))
        &&& self.id.decoded_from(field_value(j, "id"@))
        &&& self.insert_date.decoded_from(field_value(j, "insert_date"@))
        &&& self.insert_id.decoded_from(field_value(j, "insert_id"@))
        &&& self.limit_dl_count.decoded_from(field_value(j, "limit_dl_count"@))
        &&& self.note.decoded_from(field_value(j, "note"@))
        &&& (OneOrMany { items: self.options }).decoded_from(field_value(j, "options"@))
        &&& self.restore_price.decoded_from(field_value(j, "restore_price"@))
        &&& self.restore_trade_price.decoded_from(field_value(j, "restore_trade_price"@))
        &&& self.show_end_date_days.decoded_from(field_value(j, "show_end_date_days"@))
        &&& self.start_date.decoded_from(field_value(j, "start_date"@))
        &&& self.status.decoded_from(field_value(j, "status"@))
        &&& self.title.decoded_from(field_value(j, "title"@))
        &&& self.trade_price_type.decoded_from(field_value(j, "trade_price_type"@))
        &&& self.update_date.decoded_from(field_value(j, "update_date"@))
        &&& self.update_id.decoded_from(field_value(j, "update_id"@))
        &&& self.workno.decoded_from(field_value(j, "workno"@))
    }

    fn from_json(j: &Json) -> (r: Result<Discount, DlsiteError>) {
        let access_key = match field::<Option<String>>(j, "access_key") {
            Ok(v) => v,
            Err(e) => {
                return Err(e);
            },
        };
        let campaign_id = match field::<i32>(j, "campaign_id") {
            Ok(v) => v,
            Err(e) => {
                return Err(e);
            },
        };
        let campaign_price = match field::<i32>(j, "campaign_price") {
            Ok(v) => v,
            Err(e) => {
                return Err(e);
            },
        };
        let del_flg = match field::<String>(j, "del_flg") {
            Ok(v) => v,
            Err(e) => {
                return Err(e);
            },
        };
        let discount_rate = match field::<i32>(j, "discount_rate") {
            Ok(v) => v,
            Err(e) => {
                return Err(e);
            },
        };
        let end_date = match field::<i32>(j, "end_date") {
            Ok(v) => v,
            Err(e) => {
                return Err(e);
            },
        };
        let id = match field::<String>(j, "id") {
            Ok(v) => v,
            Err(e) => {
                return Err(e);
            },
        };
        let insert_date = match field::<String>(j, "insert_date") {
            Ok(v) => v,
            Err(e) => {
                return Err(e);
            },
        };
        let insert_id = match field::<Option<String>>(j, "insert_id") {
            Ok(v) => v,
            Err(e) => {
                return Err(e);
            },
        };
        let limit_dl_count = match field::<Option<i32>>(j, "limit_dl_count") {
            Ok(v) => v,
            Err(e) => {
                return Err(e);
            },
        };
        let note = match field::<Option<Json>>(j, "note") {
            Ok(v) => v,
            Err(e) => {
                return Err(e);
            },
        };
        let options = match field::<OneOrMany<Options>>(j, "options") {
            Ok(v) => v.items,
            Err(e) => {
                return Err(e);
            },
        };
        let restore_price = match field::<i32>(j, "restore_price") {
            Ok(v) => v,
            Err(e) => {
                return Err(e);
            },
        };
        let restore_trade_price = match field::<i32>(j, "restore_trade_price") {
            Ok(v) => v,
            Err(e) => {
                return Err(e);
            },
        };
        let show_end_date_days = match field::<String>(j, "show_end_date_days") {
            Ok(v) => v,
            Err(e) => {
                return Err(e);
            },
        };
        let start_date = match field::<i32>(j, "start_date") {
            Ok(v) => v,
            Err(e) => {
                return Err(e);
            },
        };
        let status = match field::<String>(j, "status") {
            Ok(v) => v,
            Err(e) => {
                return Err(e);
            },
        };
        let title = match field::<String>(j, "title") {
            Ok(v) => v,
            Err(e) => {
                return Err(e);
            },
        };
        let trade_price_type = match field::<String>(j, "trade_price_type") {
            Ok(v) => v,
            Err(e) => {
                return Err(e);
            },
        };
        let update_date = match field::<String>(j, "update_date") {
            Ok(v) => v,
            Err(e) => {
                return Err(e);
            },
        };
        let update_id = match field::<Option<String>>(j, "update_id") {
            Ok(v) => v,
            Err(e) => {
                return Err(e);
            },
        };
        let workno = match field::<String>(j, "workno") {
            Ok(v) => v,
            Err(e) => {
                return Err(e);
            },
        };
        Ok(Discount { access_key, campaign_id, campaign_price, del_flg, discount_rate, end_date, id, insert_date, insert_id, limit_dl_count, note, options, restore_price, restore_trade_price, show_end_date_days, start_date, status, title, trade_price_type, update_date, update_id, workno })
    }
}
/// A pairing of characters that a work is tagged with.
#[derive(Debug)]
pub struct Coupling {
    pub coupling: String,
    pub coupling_id: String,
    pub show_coupling: String,
}

impl FromJson for Coupling {
    /// The failure of the first member, in the order of the fields, that
    /// does not have the shape of its field.
    open spec fn failure(j: JsonView) -> Option<Seq<char>> {
        if field_failure::<String>(j, "coupling"@) is Some {
            field_failure::<String>(j, "coupling"@)
        } else if field_failure::<String>(j, "coupling_id"@) is Some {
            field_failure::<String>(j, "coupling_id"@)
        } else if field_failure::<String>(j, "show_coupling"@) is Some {
            field_failure::<String>(j, "show_coupling"@)
        } else {
            None
        }
    }

    open spec fn decoded_from(&self, j: JsonView) -> bool {
        &&& self.coupling.decoded_from(field_value(j, "coupling"@))
        &&& self.coupling_id.decoded_from(field_value(j, "coupling_id"@))
        &&& self.show_coupling.decoded_from(field_value(j, "show_coupling"@))
    }

    fn from_json(j: &Json) -> (r: Result<Coupling, DlsiteError>) {
        let coupling = match field::<String>(j, "coupling") {
            Ok(v) => v,
            Err(e) => {
                return Err(e);
            },
        };
        let coupling_id = match field::<String>(j, "coupling_id") {
            Ok(v) => v,
            Err(e) => {
                return Err(e);
            },
        };
        let show_coupling = match field::<String>(j, "show_coupling") {
            Ok(v) => v,
            Err(e) => {
                return Err(e);
            },
        };
        Ok(Coupling { coupling, coupling_id, show_coupling })
    }
}
/// What the product interface tells of a work. The fields are those of the
/// service. A sequence that the service writes now as a list and now as a
/// keyed map, or now as a list and now as a single value, is a list here
/// whichever way it came; where the keys of the map mean something, they are
/// kept, and the items of a list are keyed by their place.
#[derive(Debug)]
pub struct ProductApiContent {
    pub age_category: AgeCategory,
    pub age_category_string: String,
    pub anime: Option<String>,
    pub auto_play: Option<String>,
    pub bgm: Option<String>,
    pub bgm_mode: Option<String>,
    pub books_id: Option<String>,
    pub brand_id: Option<String>,
    pub circle_id: Option<String>,
    pub coupling: Vec<Coupling>,
    pub cpu: Option<String>,
    pub default_point: i64,
    pub directed_by: Option<String>,
    pub directx: Option<String>,
    pub discount: Option<Discount>,
    pub dist_flag: i64,
    pub dl_format: i64,
    pub etc: Option<String>,
    pub file_date: Option<String>,
    pub file_size: Option<String>,
    pub file_type: FileType,
    pub file_type_string: Option<String>,
    pub file_type_special: Option<String>,
    pub gallery_mode: Option<String>,
    pub hdd: Option<String>,
    pub h_scene_mode: Option<String>,
    pub intro: Option<String>,
    pub intro_s: Option<String>,
    pub label_id: Option<String>,
    pub label_name: Option<String>,
    pub machine: Option<String>,
    pub machine_string_list: Vec<Entry<Option<String>>>,
    pub memory: Option<String>,
    pub message_skip: Option<String>,
    pub mini_resolution: Option<String>,
    pub modify_flg: Option<i64>,
    pub music_by: Option<String>,
    pub on_sale: i64,
    pub options: String,
    pub original_illust: Option<String>,
    pub other: Option<String>,
    pub others_by: Option<String>,
    pub pages: Option<String>,
    pub page_number: Option<String>,
    pub product_point: Option<i64>,
    pub product_point_end_date: Option<i64>,
    pub point: i64,
    pub price: i64,
    pub price_without_tax: i64,
    pub price_en: Decimal,
    pub price_eur: Decimal,
    pub production_workno: Option<String>,
    pub publisher_workno: Option<String>,
    pub regist_date: Option<String>,
    pub regular_price: Option<i64>,
    pub scenario_by: Option<String>,
    pub screen_mode: Option<String>,
    pub series_id: Option<String>,
    pub series_name: Option<String>,
    pub sex_category: i64,
    pub sofrin_app_no: Option<String>,
    pub vocal_track: Option<String>,
    pub voice: Option<String>,
    pub voice_by: Option<String>,
    pub vram: Option<String>,
    pub workno: String,
    pub work_name: String,
    pub work_name_kana: Option<String>,
    pub work_type: WorkType,
    pub work_type_string: String,
    pub work_type_special: Option<String>,
    pub work_attributes: String,
    pub product_id: String,
    pub base_product_id: String,
    pub maker_id: String,
    pub maker_name: String,
    pub maker_name_en: Option<String>,
    pub alt_name: String,
    pub product_name: String,
    pub site_id: String,
    pub site_id_touch: String,
    pub is_ana: bool,
    pub work_category: WorkCategory,
    pub platform: Vec<String>,
    pub is_pc_work: bool,
    pub is_smartphone_work: bool,
    pub is_android_only_work: bool,
    pub is_dlplaybox_only_work: bool,
    pub is_almight_work: bool,
    pub is_dlsiteplay_work: bool,
    pub is_dlsiteplay_only_work: bool,
    pub work_parts: Vec<String>,
    pub introductions: Option<String>,
    pub sales_price: Option<i64>,
    pub image_main: File,
    pub image_thum: File,
    pub image_thum_mini: File,
    pub image_thum_touch: Vec<File>,
    pub image_thum_mini_touch: Vec<Image>,
    pub image_mini: Image,
    pub image_samples: Option<Vec<File>>,
    pub image_thumb: String,
    pub image_thumb_touch: String,
    /// Files contained
    pub contents: Vec<Content>,
    /// Files contained (for touch device)
    pub contents_touch: Option<Vec<Content>>,
    pub is_split_content: bool,
    pub content_count: i64,
    pub content_count_touch: i64,
    pub contents_file_size: i64,
    pub contents_file_size_touch: i64,
    pub trials: Option<Vec<File>>,
    pub trials_touch: Option<Vec<File>>,
    pub movies: Either<bool, Vec<File>>,
    pub epub_sample: Option<EpubSample>,
    pub sample_type: String,
    pub is_viewable_sample: bool,
    pub campaign_id: Option<i64>,
    pub official_price: i64,
    pub official_price_without_tax: i64,
    pub official_price_usd: Decimal,
    pub official_price_eur: Decimal,
    pub discount_rate: Option<i64>,
    pub is_discount_work: bool,
    pub discount_access_key: Option<String>,
    pub discount_layout: Option<String>,
    pub discount_trade_price_type: Option<String>,
    pub campaign_start_date: Option<String>,
    pub campaign_end_date: Option<String>,
    pub is_show_campaign_end_date: bool,
    pub chobits: bool,
    /// ex. {"C84": {name: "コミックマーケット84", ...}, ...}
    pub work_options: Option<Keyed<WorkOption>>,
    pub gift: Vec<String>,
    pub work_rentals: Vec<String>,
    pub is_rental_work: bool,
    pub translation_info: TranslationInfo,
    pub display_order: Option<i64>,
    pub is_oauth_work: Option<bool>,
    pub is_show_rate: bool,
    pub rate_average_star: i64,
    pub rate_count_detail: Keyed<i64>,
    pub rank_total: Option<i64>,
    pub rank_total_date: Option<String>,
    pub rank_year: Option<i64>,
    pub rank_year_date: Option<i64>,
    pub rank_month: Option<i64>,
    pub rank_month_date: Option<String>,
    pub rank_week: Option<i64>,
    pub rank_week_date: Option<String>,
    pub rank_day: Option<i64>,
    pub rank_day_date: Option<String>,
    pub is_pack_child: bool,
    pub is_pack_parent: bool,
    pub work_pack_children: Either<Vec<String>, Keyed<WorkPackChild>>,
    pub pack_type: Option<String>,
    pub is_voice_pack: bool,
    pub voice_pack_parent: Vec<String>,
    pub voice_pack_child: Vec<String>,
    pub free: bool,
    pub free_only: bool,
    pub free_end_date: Option<StrOrBool>,
    pub has_free_download: bool,
    pub creators: Option<Creators>,
    pub title_id: Option<String>,
    pub title_name: Option<String>,
    pub title_volumn: Option<i64>,
    pub title_work_labeling: Option<String>,
    pub title_work_display_order: Option<i64>,
    pub title_work_count: Option<i64>,
    pub is_title_completed: bool,
    pub title_latest_workno: Option<String>,
    pub title_price_low: Option<String>,
    pub title_price_high: Option<String>,
    pub is_title_pointup: Option<String>,
    pub title_point_rate: Option<String>,
    pub is_title_discount: Option<String>,
    pub is_title_reserve: Option<String>,
    pub reserve_work: Option<ReserveWork>,
    pub is_reserve_work: bool,
    pub is_reservable: bool,
    pub is_downloadable_reserve_work: bool,
    pub bonus_workno: Either<bool, String>,
    pub bonus_work: Option<String>,
    pub is_bonus_work: bool,
    pub is_downloadable_bonus_work: bool,
    pub parent_reserve_workno: bool,
    pub book_type: Option<BookType>,
    pub is_bl: bool,
    pub is_tl: bool,
    pub is_drama_work: bool,
    pub is_display_notice: bool,
    pub touch_style1: Vec<String>,
    pub is_bulkbuy: bool,
    pub bulkbuy_key: Option<String>,
    pub bulkbuy_title: Option<String>,
    pub bulkbuy_per_items: i64,
    pub bulkbuy_start: Option<String>,
    pub bulkbuy_end: Option<String>,
    pub bulkbuy_price: i64,
    pub bulkbuy_price_tax: i64,
    pub bulkbuy_price_without_tax: i64,
    pub bulkbuy_discount_rate: i64,
    pub bulkbuy_point_rate: i64,
    pub bulkbuy_point: i64,
    pub genres: Vec<Genre>,
    pub custom_genres: Vec<CustomGenre>,
    pub editions: Vec<LanguageEdition>,
    pub language_editions: Vec<LanguageEdition>,
    pub display_options: Vec<String>,
    pub is_limit_work: bool,
    pub is_limit_sales: bool,
    pub work_browse_setting: Vec<WorkBrowseSetting>,
    pub is_limit_in_stock: bool,
    pub limit_start_date: Option<String>,
    pub limit_end_date: Option<String>,
    pub limit_dl_count: i64,
    pub limit_display_type: Option<String>,
    pub limit_note: Option<String>,
    pub is_timesale_work: bool,
    pub timesale_dl_count: i64,
    pub timesale_limit_dl_count: Option<i32>,
    pub timesale_stock: i64,
    pub timesale_start_date: Option<String>,
    pub timesale_end_date: Option<String>,
    pub timesale_price: i64,
    pub update_date: String,
    pub locale_price: Keyed<Decimal>,
    pub locale_official_price: Keyed<Decimal>,
    pub locale_price_str: Keyed<String>,
    pub locale_official_price_str: Keyed<String>,
    pub given_coupons_by_buying: Vec<String>,
    pub author: Option<Vec<Author>>,
    pub authors: Option<Vec<Author>>,
    pub product_dir: String,
    pub srcset: Option<String>,
    pub alt_name_masked: String,
    pub work_pack_parent: Either<Vec<String>, Keyed<WorkPackChild>>,
    pub limited_free_terms: Vec<LimitedFree>,
    pub limited_free_work: Vec<LimitedFree>,
    pub intro_masked: Option<Json>,
    pub limit_sale_id: Option<Json>,
    pub specified_volume_sets: Vec<SpecifiedVolumeSet>,
    pub series_name_masked: Option<String>,
    pub is_ios_only_work: bool,
    pub specified_volume_set_max_discount_rate: Option<Json>,
    pub has_specified_volume_set: bool,
    pub work_name_masked: String,
    pub introductions_masked: Option<Json>,
    pub intro_s_masked: Option<String>,
    pub work_type_special_masked: Option<String>,
    pub title_name_masked: Option<String>,
    pub currency_price: Keyed<Decimal>,
    pub currency_official_price: Keyed<Decimal>,
    pub is_android_or_ios_only_work: bool,
    pub genres_replaced: Vec<Genre>,
    pub limit_sold_dl_count: i32,
}

impl FromJson for ProductApiContent {
    /// The failure of the first member, in the order of the fields, that
    /// does not have the shape of its field.
    open spec fn failure(j: JsonView) -> Option<Seq<char>> {
        if field_failure::<AgeCategory>(j, "age_category"@) is Some {
            field_failure::<AgeCategory>(j, "age_category"@)
        } else if field_failure::<String>(j, "age_category_string"@) is Some {
            field_failure::<String>(j, "age_category_string"@)
        } else if field_failure::<Option<String>>(j, "anime"@) is Some {
            field_failure::<Option<String>>(j, "anime"@)
        } else if field_failure::<Option<String>>(j, "auto_play"@) is Some {
            field_failure::<Option<String>>(j, "auto_play"@)
        } else if field_failure::<Option<String>>(j, "bgm"@) is Some {
            field_failure::<Option<String>>(j, "bgm"@)
        } else if field_failure::<Option<String>>(j, "bgm_mode"@) is Some {
            field_failure::<Option<String>>(j, "bgm_mode"@)
        } else if field_failure::<Option<String>>(j, "books_id"@) is Some {
            field_failure::<Option<String>>(j, "books_id"@)
        } else if field_failure::<Option<String>>(j, "brand_id"@) is Some {
            field_failure::<Option<String>>(j, "brand_id"@)
        } else if field_failure::<Option<String>>(j, "circle_id"@) is Some {
            field_failure::<Option<String>>(j, "circle_id"@)
        } else if field_failure::<Vec<Coupling>>(j, "coupling"@) is Some {
            field_failure::<Vec<Coupling>>(j, "coupling"@)
        } else if field_failure::<Option<String>>(j, "cpu"@) is Some {
            field_failure::<Option<String>>(j, "cpu"@)
        } else if field_failure::<i64>(j, "default_point"@) is Some {
            field_failure::<i64>(j, "default_point"@)
        } else if field_failure::<Option<String>>(j, "directed_by"@) is Some {
            field_failure::<Option<String>>(j, "directed_by"@)
        } else if field_failure::<Option<String>>(j, "directx"@) is Some {
            field_failure::<Option<String>>(j, "directx"@)
        } else if field_failure::<Option<Discount>>(j, "discount"@) is Some {
            field_failure::<Option<Discount>>(j, "discount"@)
        } else if field_failure::<i64>(j, "dist_flag"@) is Some {
            field_failure::<i64>(j, "dist_flag"@)
        } else if field_failure::<i64>(j, "dl_format"@) is Some {
            field_failure::<i64>(j, "dl_format"@)
        } else if field_failure::<Option<String>>(j, "etc"@) is Some {
            field_failure::<Option<String>>(j, "etc"@)
        } else if field_failure::<Option<String>>(j, "file_date"@) is Some {
            field_failure::<Option<String>>(j, "file_date"@)
        } else if field_failure::<Option<String>>(j, "file_size"@) is Some {
            field_failure::<Option<String>>(j, "file_size"@)
        } else if field_failure::<FileType>(j, "file_type"@) is Some {
            field_failure::<FileType>(j, "file_type"@)
        } else if field_failure::<Option<String>>(j, "file_type_string"@) is Some {
            field_failure::<Option<String>>(j, "file_type_string"@)
        } else if field_failure::<Option<String>>(j, "file_type_special"@) is Some {
            field_failure::<Option<String>>(j, "file_type_special"@)
        } else if field_failure::<Option<String>>(j, "gallery_mode"@) is Some {
            field_failure::<Option<String>>(j, "gallery_mode"@)
        } else if field_failure::<Option<String>>(j, "hdd"@) is Some {
            field_failure::<Option<String>>(j, "hdd"@)
        } else if field_failure::<Option<String>>(j, "h_scene_mode"@) is Some {
            field_failure::<Option<String>>(j, "h_scene_mode"@)
        } else if field_failure::<Option<String>>(j, "intro"@) is Some {
            field_failure::<Option<String>>(j, "intro"@)
        } else if field_failure::<Option<String>>(j, "intro_s"@) is Some {
            field_failure::<Option<String>>(j, "intro_s"@)
        } else if field_failure::<Option<String>>(j, "label_id"@) is Some {
            field_failure::<Option<String>>(j, "label_id"@)
        } else if field_failure::<Option<String>>(j, "label_name"@) is Some {
            field_failure::<Option<String>>(j, "label_name"@)
        } else if field_failure::<Option<String>>(j, "machine"@) is Some {
            field_failure::<Option<String>>(j, "machine"@)
        } else if field_failure::<KeyedOrSeq<Option<String>>>(j, "machine_string_list"@) is Some {
            field_failure::<KeyedOrSeq<Option<String>>>(j, "machine_string_list"@)
        } else if field_failure::<Option<String>>(j, "memory"@) is Some {
            field_failure::<Option<String>>(j, "memory"@)
        } else if field_failure::<Option<String>>(j, "message_skip"@) is Some {
            field_failure::<Option<String>>(j, "message_skip"@)
        } else if field_failure::<Option<String>>(j, "mini_resolution"@) is Some {
            field_failure::<Option<String>>(j, "mini_resolution"@)
        } else if field_failure::<Option<i64>>(j, "modify_flg"@) is Some {
            field_failure::<Option<i64>>(j, "modify_flg"@)
        } else if field_failure::<Option<String>>(j, "music_by"@) is Some {
            field_failure::<Option<String>>(j, "music_by"@)
        } else if field_failure::<i64>(j, "on_sale"@) is Some {
            field_failure::<i64>(j, "on_sale"@)
        } else if field_failure::<String>(j, "options"@) is Some {
            field_failure::<String>(j, "options"@)
        } else if field_failure::<Option<String>>(j, "original_illust"@) is Some {
            field_failure::<Option<String>>(j, "original_illust"@)
        } else if field_failure::<Option<String>>(j, "other"@) is Some {
            field_failure::<Option<String>>(j, "other"@)
        } else if field_failure::<Option<String>>(j, "others_by"@) is Some {
            field_failure::<Option<String>>(j, "others_by"@)
        } else if field_failure::<Option<String>>(j, "pages"@) is Some {
            field_failure::<Option<String>>(j, "pages"@)
        } else if field_failure::<Option<String>>(j, "page_number"@) is Some {
            field_failure::<Option<String>>(j, "page_number"@)
        } else if field_failure::<Option<i64>>(j, "product_point"@) is Some {
            field_failure::<Option<i64>>(j, "product_point"@)
        } else if field_failure::<Option<i64>>(j, "product_point_end_date"@) is Some {
            field_failure::<Option<i64>>(j, "product_point_end_date"@)
        } else if field_failure::<i64>(j, "point"@) is Some {
            field_failure::<i64>(j, "point"@)
        } else if field_failure::<i64>(j, "price"@) is Some {
            field_failure::<i64>(j, "price"@)
        } else if field_failure::<i64>(j, "price_without_tax"@) is Some {
            field_failure::<i64>(j, "price_without_tax"@)
        } else if field_failure::<Decimal>(j, "price_en"@) is Some {
            field_failure::<Decimal>(j, "price_en"@)
        } else if field_failure::<Decimal>(j, "price_eur"@) is Some {
            field_failure::<Decimal>(j, "price_eur"@)
        } else if field_failure::<Option<String>>(j, "production_workno"@) is Some {
            field_failure::<Option<String>>(j, "production_workno"@)
        } else if field_failure::<Option<String>>(j, "publisher_workno"@) is Some {
            field_failure::<Option<String>>(j, "publisher_workno"@)
        } else if field_failure::<Option<String>>(j, "regist_date"@) is Some {
            field_failure::<Option<String>>(j, "regist_date"@)
        } else if field_failure::<Option<i64>>(j, "regular_price"@) is Some {
            field_failure::<Option<i64>>(j, "regular_price"@)
        } else if field_failure::<Option<String>>(j, "scenario_by"@) is Some {
            field_failure::<Option<String>>(j, "scenario_by"@)
        } else if field_failure::<Option<String>>(j, "screen_mode"@) is Some {
            field_failure::<Option<String>>(j, "screen_mode"@)
        } else if field_failure::<Option<String>>(j, "series_id"@) is Some {
            field_failure::<Option<String>>(j, "series_id"@)
        } else if field_failure::<Option<String>>(j, "series_name"@) is Some {
            field_failure::<Option<String>>(j, "series_name"@)
        } else if field_failure::<i64>(j, "sex_category"@) is Some {
            field_failure::<i64>(j, "sex_category"@)
        } else if field_failure::<Option<String>>(j, "sofrin_app_no"@) is Some {
            field_failure::<Option<String>>(j, "sofrin_app_no"@)
        } else if field_failure::<Option<String>>(j, "vocal_track"@) is Some {
            field_failure::<Option<String>>(j, "vocal_track"@)
        } else if field_failure::<Option<String>>(j, "voice"@) is Some {
            field_failure::<Option<String>>(j, "voice"@)
        } else if field_failure::<Option<String>>(j, "voice_by"@) is Some {
            field_failure::<Option<String>>(j, "voice_by"@)
        } else if field_failure::<Option<String>>(j, "vram"@) is Some {
            field_failure::<Option<String>>(j, "vram"@)
        } else if field_failure::<String>(j, "workno"@) is Some {
            field_failure::<String>(j, "workno"@)
        } else if field_failure::<String>(j, "work_name"@) is Some {
            field_failure::<String>(j, "work_name"@)
        } else if field_failure::<Option<String>>(j, "work_name_kana"@) is Some {
            field_failure::<Option<String>>(j, "work_name_kana"@)
        } else if field_failure::<WorkType>(j, "work_type"@) is Some {
            field_failure::<WorkType>(j, "work_type"@)
        } else if field_failure::<String>(j, "work_type_string"@) is Some {
            field_failure::<String>(j, "work_type_string"@)
        } else if field_failure::<Option<String>>(j, "work_type_special"@) is Some {
            field_failure::<Option<String>>(j, "work_type_special"@)
        } else if field_failure::<String>(j, "work_attributes"@) is Some {
            field_failure::<String>(j, "work_attributes"@)
        } else if field_failure::<String>(j, "product_id"@) is Some {
            field_failure::<String>(j, "product_id"@)
        } else if field_failure::<String>(j, "base_product_id"@) is Some {
            field_failure::<String>(j, "base_product_id"@)
        } else if field_failure::<String>(j, "maker_id"@) is Some {
            field_failure::<String>(j, "maker_id"@)
        } else if field_failure::<String>(j, "maker_name"@) is Some {
            field_failure::<String>(j, "maker_name"@)
        } else if field_failure::<Option<String>>(j, "maker_name_en"@) is Some {
            field_failure::<Option<String>>(j, "maker_name_en"@)
        } else if field_failure::<String>(j, "alt_name"@) is Some {
            field_failure::<String>(j, "alt_name"@)
        } else if field_failure::<String>(j, "product_name"@) is Some {
            field_failure::<String>(j, "product_name"@)
        } else if field_failure::<String>(j, "site_id"@) is Some {
            field_failure::<String>(j, "site_id"@)
        } else if field_failure::<String>(j, "site_id_touch"@) is Some {
            field_failure::<String>(j, "site_id_touch"@)
        } else if field_failure::<bool>(j, "is_ana"@) is Some {
            field_failure::<bool>(j, "is_ana"@)
        } else if field_failure::<WorkCategory>(j, "work_category"@) is Some {
            field_failure::<WorkCategory>(j, "work_category"@)
        } else if field_failure::<Vec<String>>(j, "platform"@) is Some {
            field_failure::<Vec<String>>(j, "platform"@)
        } else if field_failure::<bool>(j, "is_pc_work"@) is Some {
            field_failure::<bool>(j, "is_pc_work"@)
        } else if field_failure::<bool>(j, "is_smartphone_work"@) is Some {
            field_failure::<bool>(j, "is_smartphone_work"@)
        } else if field_failure::<bool>(j, "is_android_only_work"@) is Some {
            field_failure::<bool>(j, "is_android_only_work"@)
        } else if field_failure::<bool>(j, "is_dlplaybox_only_work"@) is Some {
            field_failure::<bool>(j, "is_dlplaybox_only_work"@)
        } else if field_failure::<bool>(j, "is_almight_work"@) is Some {
            field_failure::<bool>(j, "is_almight_work"@)
        } else if field_failure::<bool>(j, "is_dlsiteplay_work"@) is Some {
            field_failure::<bool>(j, "is_dlsiteplay_work"@)
        } else if field_failure::<bool>(j, "is_dlsiteplay_only_work"@) is Some {
            field_failure::<bool>(j, "is_dlsiteplay_only_work"@)
        } else if field_failure::<Vec<String>>(j, "work_parts"@) is Some {
            field_failure::<Vec<String>>(j, "work_parts"@)
        } else if field_failure::<Option<String>>(j, "introductions"@) is Some {
            field_failure::<Option<String>>(j, "introductions"@)
        } else if field_failure::<Option<i64>>(j, "sales_price"@) is Some {
            field_failure::<Option<i64>>(j, "sales_price"@)
        } else if field_failure::<File>(j, "image_main"@) is Some {
            field_failure::<File>(j, "image_main"@)
        } else if field_failure::<File>(j, "image_thum"@) is Some {
            field_failure::<File>(j, "image_thum"@)
        } else if field_failure::<File>(j, "image_thum_mini"@) is Some {
            field_failure::<File>(j, "image_thum_mini"@)
        } else if field_failure::<OneOrMany<File>>(j, "image_thum_touch"@) is Some {
            field_failure::<OneOrMany<File>>(j, "image_thum_touch"@)
        } else if field_failure::<Vec<Image>>(j, "image_thum_mini_touch"@) is Some {
            field_failure::<Vec<Image>>(j, "image_thum_mini_touch"@)
        } else if field_failure::<Image>(j, "image_mini"@) is Some {
            field_failure::<Image>(j, "image_mini"@)
        } else if field_failure::<Option<Vec<File>>>(j, "image_samples"@) is Some {
            field_failure::<Option<Vec<File>>>(j, "image_samples"@)
        } else if field_failure::<String>(j, "image_thumb"@) is Some {
            field_failure::<String>(j, "image_thumb"@)
        } else if field_failure::<String>(j, "image_thumb_touch"@) is Some {
            field_failure::<String>(j, "image_thumb_touch"@)
        } else if field_failure::<Vec<Content>>(j, "contents"@) is Some {
            field_failure::<Vec<Content>>(j, "contents"@)
        } else if field_failure::<Option<Vec<Content>>>(j, "contents_touch"@) is Some {
            field_failure::<Option<Vec<Content>>>(j, "contents_touch"@)
        } else if field_failure::<bool>(j, "is_split_content"@) is Some {
            field_failure::<bool>(j, "is_split_content"@)
        } else if field_failure::<i64>(j, "content_count"@) is Some {
            field_failure::<i64>(j, "content_count"@)
        } else if field_failure::<i64>(j, "content_count_touch"@) is Some {
            field_failure::<i64>(j, "content_count_touch"@)
        } else if field_failure::<i64>(j, "contents_file_size"@) is Some {
            field_failure::<i64>(j, "contents_file_size"@)
        } else if field_failure::<i64>(j, "contents_file_size_touch"@) is Some {
            field_failure::<i64>(j, "contents_file_size_touch"@)
        } else if field_failure::<Lenient<Vec<File>>>(j, "trials"@) is Some {
            field_failure::<Lenient<Vec<File>>>(j, "trials"@)
        } else if field_failure::<Lenient<Vec<File>>>(j, "trials_touch"@) is Some {
            field_failure::<Lenient<Vec<File>>>(j, "trials_touch"@)
        } else if field_failure::<Either<bool, Vec<File>>>(j, "movies"@) is Some {
            field_failure::<Either<bool, Vec<File>>>(j, "movies"@)
        } else if field_failure::<Lenient<EpubSample>>(j, "epub_sample"@) is Some {
            field_failure::<Lenient<EpubSample>>(j, "epub_sample"@)
        } else if field_failure::<String>(j, "sample_type"@) is Some {
            field_failure::<String>(j, "sample_type"@)
        } else if field_failure::<bool>(j, "is_viewable_sample"@) is Some {
            field_failure::<bool>(j, "is_viewable_sample"@)
        } else if field_failure::<Option<i64>>(j, "campaign_id"@) is Some {
            field_failure::<Option<i64>>(j, "campaign_id"@)
        } else if field_failure::<i64>(j, "official_price"@) is Some {
            field_failure::<i64>(j, "official_price"@)
        } else if field_failure::<i64>(j, "official_price_without_tax"@) is Some {
            field_failure::<i64>(j, "official_price_without_tax"@)
        } else if field_failure::<Decimal>(j, "official_price_usd"@) is Some {
            field_failure::<Decimal>(j, "official_price_usd"@)
        } else if field_failure::<Decimal>(j, "official_price_eur"@) is Some {
            field_failure::<Decimal>(j, "official_price_eur"@)
        } else if field_failure::<Option<i64>>(j, "discount_rate"@) is Some {
            field_failure::<Option<i64>>(j, "discount_rate"@)
        } else if field_failure::<bool>(j, "is_discount_work"@) is Some {
            field_failure::<bool>(j, "is_discount_work"@)
        } else if field_failure::<Option<String>>(j, "discount_access_key"@) is Some {
            field_failure::<Option<String>>(j, "discount_access_key"@)
        } else if field_failure::<Option<String>>(j, "discount_layout"@) is Some {
            field_failure::<Option<String>>(j, "discount_layout"@)
        } else if field_failure::<Option<String>>(j, "discount_trade_price_type"@) is Some {
            field_failure::<Option<String>>(j, "discount_trade_price_type"@)
        } else if field_failure::<Option<String>>(j, "campaign_start_date"@) is Some {
            field_failure::<Option<String>>(j, "campaign_start_date"@)
        } else if field_failure::<Option<String>>(j, "campaign_end_date"@) is Some {
            field_failure::<Option<String>>(j, "campaign_end_date"@)
        } else if field_failure::<bool>(j, "is_show_campaign_end_date"@) is Some {
            field_failure::<bool>(j, "is_show_campaign_end_date"@)
        } else if field_failure::<bool>(j, "chobits"@) is Some {
            field_failure::<bool>(j, "chobits"@)
        } else if field_failure::<Lenient<Keyed<WorkOption>>>(j, "work_options"@) is Some {
            field_failure::<Lenient<Keyed<WorkOption>>>(j, "work_options"@)
        } else if field_failure::<Vec<String>>(j, "gift"@) is Some {
            field_failure::<Vec<String>>(j, "gift"@)
        } else if field_failure::<Vec<String>>(j, "work_rentals"@) is Some {
            field_failure::<Vec<String>>(j, "work_rentals"@)
        } else if field_failure::<bool>(j, "is_rental_work"@) is Some {
            field_failure::<bool>(j, "is_rental_work"@)
        } else if field_failure::<TranslationInfo>(j, "translation_info"@) is Some {
            field_failure::<TranslationInfo>(j, "translation_info"@)
        } else if field_failure::<Option<i64>>(j, "display_order"@) is Some {
            field_failure::<Option<i64>>(j, "display_order"@)
        } else if field_failure::<Option<bool>>(j, "is_oauth_work"@) is Some {
            field_failure::<Option<bool>>(j, "is_oauth_work"@)
        } else if field_failure::<bool>(j, "is_show_rate"@) is Some {
            field_failure::<bool>(j, "is_show_rate"@)
        } else if field_failure::<i64>(j, "rate_average_star"@) is Some {
            field_failure::<i64>(j, "rate_average_star"@)
        } else if field_failure::<Keyed<i64>>(j, "rate_count_detail"@) is Some {
            field_failure::<Keyed<i64>>(j, "rate_count_detail"@)
        } else if field_failure::<Option<i64>>(j, "rank_total"@) is Some {
            field_failure::<Option<i64>>(j, "rank_total"@)
        } else if field_failure::<Option<String>>(j, "rank_total_date"@) is Some {
            field_failure::<Option<String>>(j, "rank_total_date"@)
        } else if field_failure::<Option<i64>>(j, "rank_year"@) is Some {
            field_failure::<Option<i64>>(j, "rank_year"@)
        } else if field_failure::<Option<i64>>(j, "rank_year_date"@) is Some {
            field_failure::<Option<i64>>(j, "rank_year_date"@)
        } else if field_failure::<Option<i64>>(j, "rank_month"@) is Some {
            field_failure::<Option<i64>>(j, "rank_month"@)
        } else if field_failure::<Option<String>>(j, "rank_month_date"@) is Some {
            field_failure::<Option<String>>(j, "rank_month_date"@)
        } else if field_failure::<Option<i64>>(j, "rank_week"@) is Some {
            field_failure::<Option<i64>>(j, "rank_week"@)
        } else if field_failure::<Option<String>>(j, "rank_week_date"@) is Some {
            field_failure::<Option<String>>(j, "rank_week_date"@)
        } else if field_failure::<Option<i64>>(j, "rank_day"@) is Some {
            field_failure::<Option<i64>>(j, "rank_day"@)
        } else if field_failure::<Option<String>>(j, "rank_day_date"@) is Some {
            field_failure::<Option<String>>(j, "rank_day_date"@)
        } else if field_failure::<bool>(j, "is_pack_child"@) is Some {
            field_failure::<bool>(j, "is_pack_child"@)
        } else if field_failure::<bool>(j, "is_pack_parent"@) is Some {
            field_failure::<bool>(j, "is_pack_parent"@)
        } else if field_failure::<Either<Vec<String>, Keyed<WorkPackChild>>>(j, "work_pack_children"@) is Some {
            field_failure::<Either<Vec<String>, Keyed<WorkPackChild>>>(j, "work_pack_children"@)
        } else if field_failure::<Option<String>>(j, "pack_type"@) is Some {
            field_failure::<Option<String>>(j, "pack_type"@)
        } else if field_failure::<bool>(j, "is_voice_pack"@) is Some {
            field_failure::<bool>(j, "is_voice_pack"@)
        } else if field_failure::<Vec<String>>(j, "voice_pack_parent"@) is Some {
            field_failure::<Vec<String>>(j, "voice_pack_parent"@)
        } else if field_failure::<Vec<String>>(j, "voice_pack_child"@) is Some {
            field_failure::<Vec<String>>(j, "voice_pack_child"@)
        } else if field_failure::<bool>(j, "free"@) is Some {
            field_failure::<bool>(j, "free"@)
        } else if field_failure::<bool>(j, "free_only"@) is Some {
            field_failure::<bool>(j, "free_only"@)
        } else if field_failure::<Option<StrOrBool>>(j, "free_end_date"@) is Some {
            field_failure::<Option<StrOrBool>>(j, "free_end_date"@)
        } else if field_failure::<bool>(j, "has_free_download"@) is Some {
            field_failure::<bool>(j, "has_free_download"@)
        } else if field_failure::<Lenient<Creators>>(j, "creaters"@) is Some {
            field_failure::<Lenient<Creators>>(j, "creaters"@)
        } else if field_failure::<Option<String>>(j, "title_id"@) is Some {
            field_failure::<Option<String>>(j, "title_id"@)
        } else if field_failure::<Option<String>>(j, "title_name"@) is Some {
            field_failure::<Option<String>>(j, "title_name"@)
        } else if field_failure::<Option<i64>>(j, "title_volumn"@) is Some {
            field_failure::<Option<i64>>(j, "title_volumn"@)
        } else if field_failure::<Option<String>>(j, "title_work_labeling"@) is Some {
            field_failure::<Option<String>>(j, "title_work_labeling"@)
        } else if field_failure::<Option<i64>>(j, "title_work_display_order"@) is Some {
            field_failure::<Option<i64>>(j, "title_work_display_order"@)
        } else if field_failure::<Option<i64>>(j, "title_work_count"@) is Some {
            field_failure::<Option<i64>>(j, "title_work_count"@)
        } else if field_failure::<bool>(j, "is_title_completed"@) is Some {
            field_failure::<bool>(j, "is_title_completed"@)
        } else if field_failure::<Option<String>>(j, "title_latest_workno"@) is Some {
            field_failure::<Option<String>>(j, "title_latest_workno"@)
        } else if field_failure::<Option<String>>(j, "title_price_low"@) is Some {
            field_failure::<Option<String>>(j, "title_price_low"@)
        } else if field_failure::<Option<String>>(j, "title_price_high"@) is Some {
            field_failure::<Option<String>>(j, "title_price_high"@)
        } else if field_failure::<Option<String>>(j, "is_title_pointup"@) is Some {
            field_failure::<Option<String>>(j, "is_title_pointup"@)
        } else if field_failure::<Option<String>>(j, "title_point_rate"@) is Some {
            field_failure::<Option<String>>(j, "title_point_rate"@)
        } else if field_failure::<Option<String>>(j, "is_title_discount"@) is Some {
            field_failure::<Option<String>>(j, "is_title_discount"@)
        } else if field_failure::<Option<String>>(j, "is_title_reserve"@) is Some {
            field_failure::<Option<String>>(j, "is_title_reserve"@)
        } else if field_failure::<Option<ReserveWork>>(j, "reserve_work"@) is Some {
            field_failure::<Option<ReserveWork>>(j, "reserve_work"@)
        } else if field_failure::<bool>(j, "is_reserve_work"@) is Some {
            field_failure::<bool>(j, "is_reserve_work"@)
        } else if field_failure::<bool>(j, "is_reservable"@) is Some {
            field_failure::<bool>(j, "is_reservable"@)
        } else if field_failure::<bool>(j, "is_downloadable_reserve_work"@) is Some {
            field_failure::<bool>(j, "is_downloadable_reserve_work"@)
        } else if field_failure::<Either<bool, String>>(j, "bonus_workno"@) is Some {
            field_failure::<Either<bool, String>>(j, "bonus_workno"@)
        } else if field_failure::<Option<String>>(j, "bonus_work"@) is Some {
            field_failure::<Option<String>>(j, "bonus_work"@)
        } else if field_failure::<bool>(j, "is_bonus_work"@) is Some {
            field_failure::<bool>(j, "is_bonus_work"@)
        } else if field_failure::<bool>(j, "is_downloadable_bonus_work"@) is Some {
            field_failure::<bool>(j, "is_downloadable_bonus_work"@)
        } else if field_failure::<bool>(j, "parent_reserve_workno"@) is Some {
            field_failure::<bool>(j, "parent_reserve_workno"@)
        } else if field_failure::<Option<BookType>>(j, "book_type"@) is Some {
            field_failure::<Option<BookType>>(j, "book_type"@)
        } else if field_failure::<bool>(j, "is_bl"@) is Some {
            field_failure::<bool>(j, "is_bl"@)
        } else if field_failure::<bool>(j, "is_tl"@) is Some {
            field_failure::<bool>(j, "is_tl"@)
        } else if field_failure::<bool>(j, "is_drama_work"@) is Some {
            field_failure::<bool>(j, "is_drama_work"@)
        } else if field_failure::<bool>(j, "is_display_notice"@) is Some {
            field_failure::<bool>(j, "is_display_notice"@)
        } else if field_failure::<Vec<String>>(j, "touch_style1"@) is Some {
            field_failure::<Vec<String>>(j, "touch_style1"@)
        } else if field_failure::<bool>(j, "is_bulkbuy"@) is Some {
            field_failure::<bool>(j, "is_bulkbuy"@)
        } else if field_failure::<Option<String>>(j, "bulkbuy_key"@) is Some {
            field_failure::<Option<String>>(j, "bulkbuy_key"@)
        } else if field_failure::<Option<String>>(j, "bulkbuy_title"@) is Some {
            field_failure::<Option<String>>(j, "bulkbuy_title"@)
        } else if field_failure::<i64>(j, "bulkbuy_per_items"@) is Some {
            field_failure::<i64>(j, "bulkbuy_per_items"@)
        } else if field_failure::<Option<String>>(j, "bulkbuy_start"@) is Some {
            field_failure::<Option<String>>(j, "bulkbuy_start"@)
        } else if field_failure::<Option<String>>(j, "bulkbuy_end"@) is Some {
            field_failure::<Option<String>>(j, "bulkbuy_end"@)
        } else if field_failure::<i64>(j, "bulkbuy_price"@) is Some {
            field_failure::<i64>(j, "bulkbuy_price"@)
        } else if field_failure::<i64>(j, "bulkbuy_price_tax"@) is Some {
            field_failure::<i64>(j, "bulkbuy_price_tax"@)
        } else if field_failure::<i64>(j, "bulkbuy_price_without_tax"@) is Some {
            field_failure::<i64>(j, "bulkbuy_price_without_tax"@)
        } else if field_failure::<i64>(j, "bulkbuy_discount_rate"@) is Some {
            field_failure::<i64>(j, "bulkbuy_discount_rate"@)
        } else if field_failure::<i64>(j, "bulkbuy_point_rate"@) is Some {
            field_failure::<i64>(j, "bulkbuy_point_rate"@)
        } else if field_failure::<i64>(j, "bulkbuy_point"@) is Some {
            field_failure::<i64>(j, "bulkbuy_point"@)
        } else if field_failure::<Vec<Genre>>(j, "genres"@) is Some {
            field_failure::<Vec<Genre>>(j, "genres"@)
        } else if field_failure::<Vec<CustomGenre>>(j, "custom_genres"@) is Some {
            field_failure::<Vec<CustomGenre>>(j, "custom_genres"@)
        } else if field_failure::<SeqOrMap<LanguageEdition>>(j, "editions"@) is Some {
            field_failure::<SeqOrMap<LanguageEdition>>(j, "editions"@)
        } else if field_failure::<SeqOrMap<LanguageEdition>>(j, "language_editions"@) is Some {
            field_failure::<SeqOrMap<LanguageEdition>>(j, "language_editions"@)
        } else if field_failure::<Vec<String>>(j, "display_options"@) is Some {
            field_failure::<Vec<String>>(j, "display_options"@)
        } else if field_failure::<bool>(j, "is_limit_work"@) is Some {
            field_failure::<bool>(j, "is_limit_work"@)
        } else if field_failure::<bool>(j, "is_limit_sales"@) is Some {
            field_failure::<bool>(j, "is_limit_sales"@)
        } else if field_failure::<SeqOrMap<WorkBrowseSetting>>(j, "work_browse_setting"@) is Some {
            field_failure::<SeqOrMap<WorkBrowseSetting>>(j, "work_browse_setting"@)
        } else if field_failure::<bool>(j, "is_limit_in_stock"@) is Some {
            field_failure::<bool>(j, "is_limit_in_stock"@)
        } else if field_failure::<Option<String>>(j, "limit_start_date"@) is Some {
            field_failure::<Option<String>>(j, "limit_start_date"@)
        } else if field_failure::<Option<String>>(j, "limit_end_date"@) is Some {
            field_failure::<Option<String>>(j, "limit_end_date"@)
        } else if field_failure::<i64>(j, "limit_dl_count"@) is Some {
            field_failure::<i64>(j, "limit_dl_count"@)
        } else if field_failure::<Option<String>>(j, "limit_display_type"@) is Some {
            field_failure::<Option<String>>(j, "limit_display_type"@)
        } else if field_failure::<Option<String>>(j, "limit_note"@) is Some {
            field_failure::<Option<String>>(j, "limit_note"@)
        } else if field_failure::<bool>(j, "is_timesale_work"@) is Some {
            field_failure::<bool>(j, "is_timesale_work"@)
        } else if field_failure::<i64>(j, "timesale_dl_count"@) is Some {
            field_failure::<i64>(j, "timesale_dl_count"@)
        } else if field_failure::<Option<i32>>(j, "timesale_limit_dl_count"@) is Some {
            field_failure::<Option<i32>>(j, "timesale_limit_dl_count"@)
        } else if field_failure::<i64>(j, "timesale_stock"@) is Some {
            field_failure::<i64>(j, "timesale_stock"@)
        } else if field_failure::<Option<String>>(j, "timesale_start_date"@) is Some {
            field_failure::<Option<String>>(j, "timesale_start_date"@)
        } else if field_failure::<Option<String>>(j, "timesale_end_date"@) is Some {
            field_failure::<Option<String>>(j, "timesale_end_date"@)
        } else if field_failure::<i64>(j, "timesale_price"@) is Some {
            field_failure::<i64>(j, "timesale_price"@)
        } else if field_failure::<String>(j, "update_date"@) is Some {
            field_failure::<String>(j, "update_date"@)
        } else if field_failure::<Keyed<Decimal>>(j, "locale_price"@) is Some {
            field_failure::<Keyed<Decimal>>(j, "locale_price"@)
        } else if field_failure::<Keyed<Decimal>>(j, "locale_official_price"@) is Some {
            field_failure::<Keyed<Decimal>>(j, "locale_official_price"@)
        } else if field_failure::<Keyed<String>>(j, "locale_price_str"@) is Some {
            field_failure::<Keyed<String>>(j, "locale_price_str"@)
        } else if field_failure::<Keyed<String>>(j, "locale_official_price_str"@) is Some {
            field_failure::<Keyed<String>>(j, "locale_official_price_str"@)
        } else if field_failure::<Vec<String>>(j, "given_coupons_by_buying"@) is Some {
            field_failure::<Vec<String>>(j, "given_coupons_by_buying"@)
        } else if field_failure::<Option<Vec<Author>>>(j, "author"@) is Some {
            field_failure::<Option<Vec<Author>>>(j, "author"@)
        } else if field_failure::<Option<Vec<Author>>>(j, "authors"@) is Some {
            field_failure::<Option<Vec<Author>>>(j, "authors"@)
        } else if field_failure::<String>(j, "product_dir"@) is Some {
            field_failure::<String>(j, "product_dir"@)
        } else if field_failure::<Option<String>>(j, "srcset"@) is Some {
            field_failure::<Option<String>>(j, "srcset"@)
        } else if field_failure::<String>(j, "alt_name_masked"@) is Some {
            field_failure::<String>(j, "alt_name_masked"@)
        } else if field_failure::<Either<Vec<String>, Keyed<WorkPackChild>>>(j, "work_pack_parent"@) is Some {
            field_failure::<Either<Vec<String>, Keyed<WorkPackChild>>>(j, "work_pack_parent"@)
        } else if field_failure::<OneOrMany<LimitedFree>>(j, "limited_free_terms"@) is Some {
            field_failure::<OneOrMany<LimitedFree>>(j, "limited_free_terms"@)
        } else if field_failure::<OneOrMany<LimitedFree>>(j, "limited_free_work"@) is Some {
            field_failure::<OneOrMany<LimitedFree>>(j, "limited_free_work"@)
        } else if field_failure::<Option<Json>>(j, "intro_masked"@) is Some {
            field_failure::<Option<Json>>(j, "intro_masked"@)
        } else if field_failure::<Option<Json>>(j, "limit_sale_id"@) is Some {
            field_failure::<Option<Json>>(j, "limit_sale_id"@)
        } else if field_failure::<Vec<SpecifiedVolumeSet>>(j, "specified_volume_sets"@) is Some {
            field_failure::<Vec<SpecifiedVolumeSet>>(j, "specified_volume_sets"@)
        } else if field_failure::<Option<String>>(j, "series_name_masked"@) is Some {
            field_failure::<Option<String>>(j, "series_name_masked"@)
        } else if field_failure::<bool>(j, "is_ios_only_work"@) is Some {
            field_failure::<bool>(j, "is_ios_only_work"@)
        } else if field_failure::<Option<Json>>(j, "specified_volume_set_max_discount_rate"@) is Some {
            field_failure::<Option<Json>>(j, "specified_volume_set_max_discount_rate"@)
        } else if field_failure::<bool>(j, "has_specified_volume_set"@) is Some {
            field_failure::<bool>(j, "has_specified_volume_set"@)
        } else if field_failure::<String>(j, "work_name_masked"@) is Some {
            field_failure::<String>(j, "work_name_masked"@)
        } else if field_failure::<Option<Json>>(j, "introductions_masked"@) is Some {
            field_failure::<Option<Json>>(j, "introductions_masked"@)
        } else if field_failure::<Option<String>>(j, "intro_s_masked"@) is Some {
            field_failure::<Option<String>>(j, "intro_s_masked"@)
        } else if field_failure::<Option<String>>(j, "work_type_special_masked"@) is Some {
            field_failure::<Option<String>>(j, "work_type_special_masked"@)
        } else if field_failure::<Option<String>>(j, "title_name_masked"@) is Some {
            field_failure::<Option<String>>(j, "title_name_masked"@)
        } else if field_failure::<Keyed<Decimal>>(j, "currency_price"@) is Some {
            field_failure::<Keyed<Decimal>>(j, "currency_price"@)
        } else if field_failure::<Keyed<Decimal>>(j, "currency_official_price"@) is Some {
            field_failure::<Keyed<Decimal>>(j, "currency_official_price"@)
        } else if field_failure::<bool>(j, "is_android_or_ios_only_work"@) is Some {
            field_failure::<bool>(j, "is_android_or_ios_only_work"@)
        } else if field_failure::<Vec<Genre>>(j, "genres_replaced"@) is Some {
            field_failure::<Vec<Genre>>(j, "genres_replaced"@)
        } else if field_failure::<i32>(j, "limit_sold_dl_count"@) is Some {
            field_failure::<i32>(j, "limit_sold_dl_count"@)
        } else {
            None
        }
    }

    open spec fn decoded_from(&self, j: JsonView) -> bool {
        &&& self.age_category.decoded_from(field_value(j, "age_category"@))
        &&& self.age_category_string.decoded_from(field_value(j, "age_category_string"@))
        &&& self.anime.decoded_from(field_value(j, "anime"@))
        &&& self.auto_play.decoded_from(field_value(j, "auto_play"@))
        &&& self.bgm.decoded_from(field_value(j, "bgm"@))
        &&& self.bgm_mode.decoded_from(field_value(j, "bgm_mode"@))
        &&& self.books_id.decoded_from(field_value(j, "books_id"@))
        &&& self.brand_id.decoded_from(field_value(j, "brand_id"@))
        &&& self.circle_id.decoded_from(field_value(j, "circle_id"@))
        &&& self.coupling.decoded_from(field_value(j, "coupling"@))
        &&& self.cpu.decoded_from(field_value(j, "cpu"@))
        &&& self.default_point.decoded_from(field_value(j, "default_point"@))
        &&& self.directed_by.decoded_from(field_value(j, "directed_by"@))
        &&& self.directx.decoded_from(field_value(j, "directx"@))
        &&& self.discount.decoded_from(field_value(j, "discount"@))
        &&& self.dist_flag.decoded_from(field_value(j, "dist_flag"@))
        &&& self.dl_format.decoded_from(field_value(j, "dl_format"@))
        &&& self.etc.decoded_from(field_value(j, "etc"@))
        &&& self.file_date.decoded_from(field_value(j, "file_date"@))
        &&& self.file_size.decoded_from(field_value(j, "file_size"@))
        &&& self.file_type.decoded_from(field_value(j, "file_type"@))
        &&& self.file_type_string.decoded_from(field_value(j, "file_type_string"@))
        &&& self.file_type_special.decoded_from(field_value(j, "file_type_special"@))
        &&& self.gallery_mode.decoded_from(field_value(j, "gallery_mode"@))
        &&& self.hdd.decoded_from(field_value(j, "hdd"@))
        &&& self.h_scene_mode.decoded_from(field_value(j, "h_scene_mode"@))
        &&& self.intro.decoded_from(field_value(j, "intro"@))
        &&& self.intro_s.decoded_from(field_value(j, "intro_s"@))
        &&& self.label_id.decoded_from(field_value(j, "label_id"@))
        &&& self.label_name.decoded_from(field_value(j, "label_name"@))
        &&& self.machine.decoded_from(field_value(j, "machine"@))
        &&& (KeyedOrSeq { entries: self.machine_string_list }).decoded_from(field_value(j, "machine_string_list"@))
        &&& self.memory.decoded_from(field_value(j, "memory"@))
        &&& self.message_skip.decoded_from(field_value(j, "message_skip"@))
        &&& self.mini_resolution.decoded_from(field_value(j, "mini_resolution"@))
        &&& self.modify_flg.decoded_from(field_value(j, "modify_flg"@))
        &&& self.music_by.decoded_from(field_value(j, "music_by"@))
        &&& self.on_sale.decoded_from(field_value(j, "on_sale"@))
        &&& self.options.decoded_from(field_value(j, "options"@))
        &&& self.original_illust.decoded_from(field_value(j, "original_illust"@))
        &&& self.other.decoded_from(field_value(j, "other"@))
        &&& self.others_by.decoded_from(field_value(j, "others_by"@))
        &&& self.pages.decoded_from(field_value(j, "pages"@))
        &&& self.page_number.decoded_from(field_value(j, "page_number"@))
        &&& self.product_point.decoded_from(field_value(j, "product_point"@))
        &&& self.product_point_end_date.decoded_from(field_value(j, "product_point_end_date"@))
        &&& self.point.decoded_from(field_value(j, "point"@))
        &&& self.price.decoded_from(field_value(j, "price"@))
        &&& self.price_without_tax.decoded_from(field_value(j, "price_without_tax"@))
        &&& self.price_en.decoded_from(field_value(j, "price_en"@))
        &&& self.price_eur.decoded_from(field_value(j, "price_eur"@))
        &&& self.production_workno.decoded_from(field_value(j, "production_workno"@))
        &&& self.publisher_workno.decoded_from(field_value(j, "publisher_workno"@))
        &&& self.regist_date.decoded_from(field_value(j, "regist_date"@))
        &&& self.regular_price.decoded_from(field_value(j, "regular_price"@))
        &&& self.scenario_by.decoded_from(field_value(j, "scenario_by"@))
        &&& self.screen_mode.decoded_from(field_value(j, "screen_mode"@))
        &&& self.series_id.decoded_from(field_value(j, "series_id"@))
        &&& self.series_name.decoded_from(field_value(j, "series_name"@))
        &&& self.sex_category.decoded_from(field_value(j, "sex_category"@))
        &&& self.sofrin_app_no.decoded_from(field_value(j, "sofrin_app_no"@))
        &&& self.vocal_track.decoded_from(field_value(j, "vocal_track"@))
        &&& self.voice.decoded_from(field_value(j, "voice"@))
        &&& self.voice_by.decoded_from(field_value(j, "voice_by"@))
        &&& self.vram.decoded_from(field_value(j, "vram"@))
        &&& self.workno.decoded_from(field_value(j, "workno"@))
        &&& self.work_name.decoded_from(field_value(j, "work_name"@))
        &&& self.work_name_kana.decoded_from(field_value(j, "work_name_kana"@))
        &&& self.work_type.decoded_from(field_value(j, "work_type"@))
        &&& self.work_type_string.decoded_from(field_value(j, "work_type_string"@))
        &&& self.work_type_special.decoded_from(field_value(j, "work_type_special"@))
        &&& self.work_attributes.decoded_from(field_value(j, "work_attributes"@))
        &&& self.product_id.decoded_from(field_value(j, "product_id"@))
        &&& self.base_product_id.decoded_from(field_value(j, "base_product_id"@))
        &&& self.maker_id.decoded_from(field_value(j, "maker_id"@))
        &&& self.maker_name.decoded_from(field_value(j, "maker_name"@))
        &&& self.maker_name_en.decoded_from(field_value(j, "maker_name_en"@))
        &&& self.alt_name.decoded_from(field_value(j, "alt_name"@))
        &&& self.product_name.decoded_from(field_value(j, "product_name"@))
        &&& self.site_id.decoded_from(field_value(j, "site_id"@))
        &&& self.site_id_touch.decoded_from(field_value(j, "site_id_touch"@))
        &&& self.is_ana.decoded_from(field_value(j, "is_ana"@))
        &&& self.work_category.decoded_from(field_value(j, "work_category"@))
        &&& self.platform.decoded_from(field_value(j, "platform"@))
        &&& self.is_pc_work.decoded_from(field_value(j, "is_pc_work"@))
        &&& self.is_smartphone_work.decoded_from(field_value(j, "is_smartphone_work"@))
        &&& self.is_android_only_work.decoded_from(field_value(j, "is_android_only_work"@))
        &&& self.is_dlplaybox_only_work.decoded_from(field_value(j, "is_dlplaybox_only_work"@))
        &&& self.is_almight_work.decoded_from(field_value(j, "is_almight_work"@))
        &&& self.is_dlsiteplay_work.decoded_from(field_value(j, "is_dlsiteplay_work"@))
        &&& self.is_dlsiteplay_only_work.decoded_from(field_value(j, "is_dlsiteplay_only_work"@))
        &&& self.work_parts.decoded_from(field_value(j, "work_parts"@))
        &&& self.introductions.decoded_from(field_value(j, "introductions"@))
        &&& self.sales_price.decoded_from(field_value(j, "sales_price"@))
        &&& self.image_main.decoded_from(field_value(j, "image_main"@))
        &&& self.image_thum.decoded_from(field_value(j, "image_thum"@))
        &&& self.image_thum_mini.decoded_from(field_value(j, "image_thum_mini"@))
        &&& (OneOrMany { items: self.image_thum_touch }).decoded_from(field_value(j, "image_thum_touch"@))
        &&& self.image_thum_mini_touch.decoded_from(field_value(j, "image_thum_mini_touch"@))
        &&& self.image_mini.decoded_from(field_value(j, "image_mini"@))
        &&& self.image_samples.decoded_from(field_value(j, "image_samples"@))
        &&& self.image_thumb.decoded_from(field_value(j, "image_thumb"@))
        &&& self.image_thumb_touch.decoded_from(field_value(j, "image_thumb_touch"@))
        &&& self.contents.decoded_from(field_value(j, "contents"@))
        &&& self.contents_touch.decoded_from(field_value(j, "contents_touch"@))
        &&& self.is_split_content.decoded_from(field_value(j, "is_split_content"@))
        &&& self.content_count.decoded_from(field_value(j, "content_count"@))
        &&& self.content_count_touch.decoded_from(field_value(j, "content_count_touch"@))
        &&& self.contents_file_size.decoded_from(field_value(j, "contents_file_size"@))
        &&& self.contents_file_size_touch.decoded_from(field_value(j, "contents_file_size_touch"@))
        &&& (Lenient { value: self.trials }).decoded_from(field_value(j, "trials"@))
        &&& (Lenient { value: self.trials_touch }).decoded_from(field_value(j, "trials_touch"@))
        &&& self.movies.decoded_from(field_value(j, "movies"@))
        &&& (Lenient { value: self.epub_sample }).decoded_from(field_value(j, "epub_sample"@))
        &&& self.sample_type.decoded_from(field_value(j, "sample_type"@))
        &&& self.is_viewable_sample.decoded_from(field_value(j, "is_viewable_sample"@))
        &&& self.campaign_id.decoded_from(field_value(j, "campaign_id"@))
        &&& self.official_price.decoded_from(field_value(j, "official_price"@))
        &&& self.official_price_without_tax.decoded_from(field_value(j, "official_price_without_tax"@))
        &&& self.official_price_usd.decoded_from(field_value(j, "official_price_usd"@))
        &&& self.official_price_eur.decoded_from(field_value(j, "official_price_eur"@))
        &&& self.discount_rate.decoded_from(field_value(j, "discount_rate"@))
        &&& self.is_discount_work.decoded_from(field_value(j, "is_discount_work"@))
        &&& self.discount_access_key.decoded_from(field_value(j, "discount_access_key"@))
        &&& self.discount_layout.decoded_from(field_value(j, "discount_layout"@))
        &&& self.discount_trade_price_type.decoded_from(field_value(j, "discount_trade_price_type"@))
        &&& self.campaign_start_date.decoded_from(field_value(j, "campaign_start_date"@))
        &&& self.campaign_end_date.decoded_from(field_value(j, "campaign_end_date"@))
        &&& self.is_show_campaign_end_date.decoded_from(field_value(j, "is_show_campaign_end_date"@))
        &&& self.chobits.decoded_from(field_value(j, "chobits"@))
        &&& (Lenient { value: self.work_options }).decoded_from(field_value(j, "work_options"@))
        &&& self.gift.decoded_from(field_value(j, "gift"@))
        &&& self.work_rentals.decoded_from(field_value(j, "work_rentals"@))
        &&& self.is_rental_work.decoded_from(field_value(j, "is_rental_work"@))
        &&& self.translation_info.decoded_from(field_value(j, "translation_info"@))
        &&& self.display_order.decoded_from(field_value(j, "display_order"@))
        &&& self.is_oauth_work.decoded_from(field_value(j, "is_oauth_work"@))
        &&& self.is_show_rate.decoded_from(field_value(j, "is_show_rate"@))
        &&& self.rate_average_star.decoded_from(field_value(j, "rate_average_star"@))
        &&& self.rate_count_detail.decoded_from(field_value(j, "rate_count_detail"@))
        &&& self.rank_total.decoded_from(field_value(j, "rank_total"@))
        &&& self.rank_total_date.decoded_from(field_value(j, "rank_total_date"@))
        &&& self.rank_year.decoded_from(field_value(j, "rank_year"@))
        &&& self.rank_year_date.decoded_from(field_value(j, "rank_year_date"@))
        &&& self.rank_month.decoded_from(field_value(j, "rank_month"@))
        &&& self.rank_month_date.decoded_from(field_value(j, "rank_month_date"@))
        &&& self.rank_week.decoded_from(field_value(j, "rank_week"@))
        &&& self.rank_week_date.decoded_from(field_value(j, "rank_week_date"@))
        &&& self.rank_day.decoded_from(field_value(j, "rank_day"@))
        &&& self.rank_day_date.decoded_from(field_value(j, "rank_day_date"@))
        &&& self.is_pack_child.decoded_from(field_value(j, "is_pack_child"@))
        &&& self.is_pack_parent.decoded_from(field_value(j, "is_pack_parent"@))
        &&& self.work_pack_children.decoded_from(field_value(j, "work_pack_children"@))
        &&& self.pack_type.decoded_from(field_value(j, "pack_type"@))
        &&& self.is_voice_pack.decoded_from(field_value(j, "is_voice_pack"@))
        &&& self.voice_pack_parent.decoded_from(field_value(j, "voice_pack_parent"@))
        &&& self.voice_pack_child.decoded_from(field_value(j, "voice_pack_child"@))
        &&& self.free.decoded_from(field_value(j, "free"@))
        &&& self.free_only.decoded_from(field_value(j, "free_only"@))
        &&& self.free_end_date.decoded_from(field_value(j, "free_end_date"@))
        &&& self.has_free_download.decoded_from(field_value(j, "has_free_download"@))
        &&& (Lenient { value: self.creators }).decoded_from(field_value(j, "creaters"@))
        &&& self.title_id.decoded_from(field_value(j, "title_id"@))
        &&& self.title_name.decoded_from(field_value(j, "title_name"@))
        &&& self.title_volumn.decoded_from(field_value(j, "title_volumn"@))
        &&& self.title_work_labeling.decoded_from(field_value(j, "title_work_labeling"@))
        &&& self.title_work_display_order.decoded_from(field_value(j, "title_work_display_order"@))
        &&& self.title_work_count.decoded_from(field_value(j, "title_work_count"@))
        &&& self.is_title_completed.decoded_from(field_value(j, "is_title_completed"@))
        &&& self.title_latest_workno.decoded_from(field_value(j, "title_latest_workno"@))
        &&& self.title_price_low.decoded_from(field_value(j, "title_price_low"@))
        &&& self.title_price_high.decoded_from(field_value(j, "title_price_high"@))
        &&& self.is_title_pointup.decoded_from(field_value(j, "is_title_pointup"@))
        &&& self.title_point_rate.decoded_from(field_value(j, "title_point_rate"@))
        &&& self.is_title_discount.decoded_from(field_value(j, "is_title_discount"@))
        &&& self.is_title_reserve.decoded_from(field_value(j, "is_title_reserve"@))
        &&& self.reserve_work.decoded_from(field_value(j, "reserve_work"@))
        &&& self.is_reserve_work.decoded_from(field_value(j, "is_reserve_work"@))
        &&& self.is_reservable.decoded_from(field_value(j, "is_reservable"@))
        &&& self.is_downloadable_reserve_work.decoded_from(field_value(j, "is_downloadable_reserve_work"@))
        &&& self.bonus_workno.decoded_from(field_value(j, "bonus_workno"@))
        &&& self.bonus_work.decoded_from(field_value(j, "bonus_work"@))
        &&& self.is_bonus_work.decoded_from(field_value(j, "is_bonus_work"@))
        &&& self.is_downloadable_bonus_work.decoded_from(field_value(j, "is_downloadable_bonus_work"@))
        &&& self.parent_reserve_workno.decoded_from(field_value(j, "parent_reserve_workno"@))
        &&& self.book_type.decoded_from(field_value(j, "book_type"@))
        &&& self.is_bl.decoded_from(field_value(j, "is_bl"@))
        &&& self.is_tl.decoded_from(field_value(j, "is_tl"@))
        &&& self.is_drama_work.decoded_from(field_value(j, "is_drama_work"@))
        &&& self.is_display_notice.decoded_from(field_value(j, "is_display_notice"@))
        &&& self.touch_style1.decoded_from(field_value(j, "touch_style1"@))
        &&& self.is_bulkbuy.decoded_from(field_value(j, "is_bulkbuy"@))
        &&& self.bulkbuy_key.decoded_from(field_value(j, "bulkbuy_key"@))
        &&& self.bulkbuy_title.decoded_from(field_value(j, "bulkbuy_title"@))
        &&& self.bulkbuy_per_items.decoded_from(field_value(j, "bulkbuy_per_items"@))
        &&& self.bulkbuy_start.decoded_from(field_value(j, "bulkbuy_start"@))
        &&& self.bulkbuy_end.decoded_from(field_value(j, "bulkbuy_end"@))
        &&& self.bulkbuy_price.decoded_from(field_value(j, "bulkbuy_price"@))
        &&& self.bulkbuy_price_tax.decoded_from(field_value(j, "bulkbuy_price_tax"@))
        &&& self.bulkbuy_price_without_tax.decoded_from(field_value(j, "bulkbuy_price_without_tax"@))
        &&& self.bulkbuy_discount_rate.decoded_from(field_value(j, "bulkbuy_discount_rate"@))
        &&& self.bulkbuy_point_rate.decoded_from(field_value(j, "bulkbuy_point_rate"@))
        &&& self.bulkbuy_point.decoded_from(field_value(j, "bulkbuy_point"@))
        &&& self.genres.decoded_from(field_value(j, "genres"@))
        &&& self.custom_genres.decoded_from(field_value(j, "custom_genres"@))
        &&& (SeqOrMap { items: self.editions }).decoded_from(field_value(j, "editions"@))
        &&& (SeqOrMap { items: self.language_editions }).decoded_from(field_value(j, "language_editions"@))
        &&& self.display_options.decoded_from(field_value(j, "display_options"@))
        &&& self.is_limit_work.decoded_from(field_value(j, "is_limit_work"@))
        &&& self.is_limit_sales.decoded_from(field_value(j, "is_limit_sales"@))
        &&& (SeqOrMap { items: self.work_browse_setting }).decoded_from(field_value(j, "work_browse_setting"@))
        &&& self.is_limit_in_stock.decoded_from(field_value(j, "is_limit_in_stock"@))
        &&& self.limit_start_date.decoded_from(field_value(j, "limit_start_date"@))
        &&& self.limit_end_date.decoded_from(field_value(j, "limit_end_date"@))
        &&& self.limit_dl_count.decoded_from(field_value(j, "limit_dl_count"@))
        &&& self.limit_display_type.decoded_from(field_value(j, "limit_display_type"@))
        &&& self.limit_note.decoded_from(field_value(j, "limit_note"@))
        &&& self.is_timesale_work.decoded_from(field_value(j, "is_timesale_work"@))
        &&& self.timesale_dl_count.decoded_from(field_value(j, "timesale_dl_count"@))
        &&& self.timesale_limit_dl_count.decoded_from(field_value(j, "timesale_limit_dl_count"@))
        &&& self.timesale_stock.decoded_from(field_value(j, "timesale_stock"@))
        &&& self.timesale_start_date.decoded_from(field_value(j, "timesale_start_date"@))
        &&& self.timesale_end_date.decoded_from(field_value(j, "timesale_end_date"@))
        &&& self.timesale_price.decoded_from(field_value(j, "timesale_price"@))
        &&& self.update_date.decoded_from(field_value(j, "update_date"@))
        &&& self.locale_price.decoded_from(field_value(j, "locale_price"@))
        &&& self.locale_official_price.decoded_from(field_value(j, "locale_official_price"@))
        &&& self.locale_price_str.decoded_from(field_value(j, "locale_price_str"@))
        &&& self.locale_official_price_str.decoded_from(field_value(j, "locale_official_price_str"@))
        &&& self.given_coupons_by_buying.decoded_from(field_value(j, "given_coupons_by_buying"@))
        &&& self.author.decoded_from(field_value(j, "author"@))
        &&& self.authors.decoded_from(field_value(j, "authors"@))
        &&& self.product_dir.decoded_from(field_value(j, "product_dir"@))
        &&& self.srcset.decoded_from(field_value(j, "srcset"@))
        &&& self.alt_name_masked.decoded_from(field_value(j, "alt_name_masked"@))
        &&& self.work_pack_parent.decoded_from(field_value(j, "work_pack_parent"@))
        &&& (OneOrMany { items: self.limited_free_terms }).decoded_from(field_value(j, "limited_free_terms"@))
        &&& (OneOrMany { items: self.limited_free_work }).decoded_from(field_value(j, "limited_free_work"@))
        &&& self.intro_masked.decoded_from(field_value(j, "intro_masked"@))
        &&& self.limit_sale_id.decoded_from(field_value(j, "limit_sale_id"@))
        &&& self.specified_volume_sets.decoded_from(field_value(j, "specified_volume_sets"@))
        &&& self.series_name_masked.decoded_from(field_value(j, "series_name_masked"@))
        &&& self.is_ios_only_work.decoded_from(field_value(j, "is_ios_only_work"@))
        &&& self.specified_volume_set_max_discount_rate.decoded_from(field_value(j, "specified_volume_set_max_discount_rate"@))
        &&& self.has_specified_volume_set.decoded_from(field_value(j, "has_specified_volume_set"@))
        &&& self.work_name_masked.decoded_from(field_value(j, "work_name_masked"@))
        &&& self.introductions_masked.decoded_from(field_value(j, "introductions_masked"@))
        &&& self.intro_s_masked.decoded_from(field_value(j, "intro_s_masked"@))
        &&& self.work_type_special_masked.decoded_from(field_value(j, "work_type_special_masked"@))
        &&& self.title_name_masked.decoded_from(field_value(j, "title_name_masked"@))
        &&& self.currency_price.decoded_from(field_value(j, "currency_price"@))
        &&& self.currency_official_price.decoded_from(field_value(j, "currency_official_price"@))
        &&& self.is_android_or_ios_only_work.decoded_from(field_value(j, "is_android_or_ios_only_work"@))
        &&& self.genres_replaced.decoded_from(field_value(j, "genres_replaced"@))
        &&& self.limit_sold_dl_count.decoded_from(field_value(j, "limit_sold_dl_count"@))
    }

    #[verifier::rlimit(100)]
    fn from_json(j: &Json) -> (r: Result<ProductApiContent, DlsiteError>) {
        let age_category = match field::<AgeCategory>(j, "age_category") {
            Ok(v) => v,
            Err(e) => {
                return Err(e);
            },
        };
        let age_category_string = match field::<String>(j, "age_category_string") {
            Ok(v) => v,
            Err(e) => {
                return Err(e);
            },
        };
        let anime = match field::<Option<String>>(j, "anime") {
            Ok(v) => v,
            Err(e) => {
                return Err(e);
            },
        };
        let auto_play = match field::<Option<String>>(j, "auto_play") {
            Ok(v) => v,
            Err(e) => {
                return Err(e);
            },
        };
        let bgm = match field::<Option<String>>(j, "bgm") {
            Ok(v) => v,
            Err(e) => {
                return Err(e);
            },
        };
        let bgm_mode = match field::<Option<String>>(j, "bgm_mode") {
            Ok(v) => v,
            Err(e) => {
                return Err(e);
            },
        };
        let books_id = match field::<Option<String>>(j, "books_id") {
            Ok(v) => v,
            Err(e) => {
                return Err(e);
            },
        };
        let brand_id = match field::<Option<String>>(j, "brand_id") {
            Ok(v) => v,
            Err(e) => {
                return Err(e);
            },
        };
        let circle_id = match field::<Option<String>>(j, "circle_id") {
            Ok(v) => v,
            Err(e) => {
                return Err(e);
            },
        };
        let coupling = match field::<Vec<Coupling>>(j, "coupling") {
            Ok(v) => v,
            Err(e) => {
                return Err(e);
            },
        };
        let cpu = match field::<Option<String>>(j, "cpu") {
            Ok(v) => v,
            Err(e) => {
                return Err(e);
            },
        };
        let default_point = match field::<i64>(j, "default_point") {
            Ok(v) => v,
            Err(e) => {
                return Err(e);
            },
        };
        let directed_by = match field::<Option<String>>(j, "directed_by") {
            Ok(v) => v,
            Err(e) => {
                return Err(e);
            },
        };
        let directx = match field::<Option<String>>(j, "directx") {
            Ok(v) => v,
            Err(e) => {
                return Err(e);
            },
        };
        let discount = match field::<Option<Discount>>(j, "discount") {
            Ok(v) => v,
            Err(e) => {
                return Err(e);
            },
        };
        let dist_flag = match field::<i64>(j, "dist_flag") {
            Ok(v) => v,
            Err(e) => {
                return Err(e);
            },
        };
        let dl_format = match field::<i64>(j, "dl_format") {
            Ok(v) => v,
            Err(e) => {
                return Err(e);
            },
        };
        let etc = match field::<Option<String>>(j, "etc") {
            Ok(v) => v,
            Err(e) => {
                return Err(e);
            },
        };
        let file_date = match field::<Option<String>>(j, "file_date") {
            Ok(v) => v,
            Err(e) => {
                return Err(e);
            },
        };
        let file_size = match field::<Option<String>>(j, "file_size") {
            Ok(v) => v,
            Err(e) => {
                return Err(e);
            },
        };
        let file_type = match field::<FileType>(j, "file_type") {
            Ok(v) => v,
            Err(e) => {
                return Err(e);
            },
        };
        let file_type_string = match field::<Option<String>>(j, "file_type_string") {
            Ok(v) => v,
            Err(e) => {
                return Err(e);
            },
        };
        let file_type_special = match field::<Option<String>>(j, "file_type_special") {
            Ok(v) => v,
            Err(e) => {
                return Err(e);
            },
        };
        let gallery_mode = match field::<Option<String>>(j, "gallery_mode") {
            Ok(v) => v,
            Err(e) => {
                return Err(e);
            },
        };
        let hdd = match field::<Option<String>>(j, "hdd") {
            Ok(v) => v,
            Err(e) => {
                return Err(e);
            },
        };
        let h_scene_mode = match field::<Option<String>>(j, "h_scene_mode") {
            Ok(v) => v,
            Err(e) => {
                return Err(e);
            },
        };
        let intro = match field::<Option<String>>(j, "intro") {
            Ok(v) => v,
            Err(e) => {
                return Err(e);
            },
        };
        let intro_s = match field::<Option<String>>(j, "intro_s") {
            Ok(v) => v,
            Err(e) => {
                return Err(e);
            },
        };
        let label_id = match field::<Option<String>>(j, "label_id") {
            Ok(v) => v,
            Err(e) => {
                return Err(e);
            },
        };
        let label_name = match field::<Option<String>>(j, "label_name") {
            Ok(v) => v,
            Err(e) => {
                return Err(e);
            },
        };
        let machine = match field::<Option<String>>(j, "machine") {
            Ok(v) => v,
            Err(e) => {
                return Err(e);
            },
        };
        let machine_string_list = match field::<KeyedOrSeq<Option<String>>>(j, "machine_string_list") {
            Ok(v) => v.entries,
            Err(e) => {
                return Err(e);
            },
        };
        let memory = match field::<Option<String>>(j, "memory") {
            Ok(v) => v,
            Err(e) => {
                return Err(e);
            },
        };
        let message_skip = match field::<Option<String>>(j, "message_skip") {
            Ok(v) => v,
            Err(e) => {
                return Err(e);
            },
        };
        let mini_resolution = match field::<Option<String>>(j, "mini_resolution") {
            Ok(v) => v,
            Err(e) => {
                return Err(e);
            },
        };
        let modify_flg = match field::<Option<i64>>(j, "modify_flg") {
            Ok(v) => v,
            Err(e) => {
                return Err(e);
            },
        };
        let music_by = match field::<Option<String>>(j, "music_by") {
            Ok(v) => v,
            Err(e) => {
                return Err(e);
            },
        };
        let on_sale = match field::<i64>(j, "on_sale") {
            Ok(v) => v,
            Err(e) => {
                return Err(e);
            },
        };
        let options = match field::<String>(j, "options") {
            Ok(v) => v,
            Err(e) => {
                return Err(e);
            },
        };
        let original_illust = match field::<Option<String>>(j, "original_illust") {
            Ok(v) => v,
            Err(e) => {
                return Err(e);
            },
        };
        let other = match field::<Option<String>>(j, "other") {
            Ok(v) => v,
            Err(e) => {
                return Err(e);
            },
        };
        let others_by = match field::<Option<String>>(j, "others_by") {
            Ok(v) => v,
            Err(e) => {
                return Err(e);
            },
        };
        let pages = match field::<Option<String>>(j, "pages") {
            Ok(v) => v,
            Err(e) => {
                return Err(e);
            },
        };
        let page_number = match field::<Option<String>>(j, "page_number") {
            Ok(v) => v,
            Err(e) => {
                return Err(e);
            },
        };
        let product_point = match field::<Option<i64>>(j, "product_point") {
            Ok(v) => v,
            Err(e) => {
                return Err(e);
            },
        };
        let product_point_end_date = match field::<Option<i64>>(j, "product_point_end_date") {
            Ok(v) => v,
            Err(e) => {
                return Err(e);
            },
        };
        let point = match field::<i64>(j, "point") {
            Ok(v) => v,
            Err(e) => {
                return Err(e);
            },
        };
        let price = match field::<i64>(j, "price") {
            Ok(v) => v,
            Err(e) => {
                return Err(e);
            },
        };
        let price_without_tax = match field::<i64>(j, "price_without_tax") {
            Ok(v) => v,
            Err(e) => {
                return Err(e);
            },
        };
        let price_en = match field::<Decimal>(j, "price_en") {
            Ok(v) => v,
            Err(e) => {
                return Err(e);
            },
        };
        let price_eur = match field::<Decimal>(j, "price_eur") {
            Ok(v) => v,
            Err(e) => {
                return Err(e);
            },
        };
        let production_workno = match field::<Option<String>>(j, "production_workno") {
            Ok(v) => v,
            Err(e) => {
                return Err(e);
            },
        };
        let publisher_workno = match field::<Option<String>>(j, "publisher_workno") {
            Ok(v) => v,
            Err(e) => {
                return Err(e);
            },
        };
        let regist_date = match field::<Option<String>>(j, "regist_date") {
            Ok(v) => v,
            Err(e) => {
                return Err(e);
            },
        };
        let regular_price = match field::<Option<i64>>(j, "regular_price") {
            Ok(v) => v,
            Err(e) => {
                return Err(e);
            },
        };
        let scenario_by = match field::<Option<String>>(j, "scenario_by") {
            Ok(v) => v,
            Err(e) => {
                return Err(e);
            },
        };
        let screen_mode = match field::<Option<String>>(j, "screen_mode") {
            Ok(v) => v,
            Err(e) => {
                return Err(e);
            },
        };
        let series_id = match field::<Option<String>>(j, "series_id") {
            Ok(v) => v,
            Err(e) => {
                return Err(e);
            },
        };
        let series_name = match field::<Option<String>>(j, "series_name") {
            Ok(v) => v,
            Err(e) => {
                return Err(e);
            },
        };
        let sex_category = match field::<i64>(j, "sex_category") {
            Ok(v) => v,
            Err(e) => {
                return Err(e);
            },
        };
        let sofrin_app_no = match field::<Option<String>>(j, "sofrin_app_no") {
            Ok(v) => v,
            Err(e) => {
                return Err(e);
            },
        };
        let vocal_track = match field::<Option<String>>(j, "vocal_track") {
            Ok(v) => v,
            Err(e) => {
                return Err(e);
            },
        };
        let voice = match field::<Option<String>>(j, "voice") {
            Ok(v) => v,
            Err(e) => {
                return Err(e);
            },
        };
        let voice_by = match field::<Option<String>>(j, "voice_by") {
            Ok(v) => v,
            Err(e) => {
                return Err(e);
            },
        };
        let vram = match field::<Option<String>>(j, "vram") {
            Ok(v) => v,
            Err(e) => {
                return Err(e);
            },
        };
        let workno = match field::<String>(j, "workno") {
            Ok(v) => v,
            Err(e) => {
                return Err(e);
            },
        };
        let work_name = match field::<String>(j, "work_name") {
            Ok(v) => v,
            Err(e) => {
                return Err(e);
            },
        };
        let work_name_kana = match field::<Option<String>>(j, "work_name_kana") {
            Ok(v) => v,
            Err(e) => {
                return Err(e);
            },
        };
        let work_type = match field::<WorkType>(j, "work_type") {
            Ok(v) => v,
            Err(e) => {
                return Err(e);
            },
        };
        let work_type_string = match field::<String>(j, "work_type_string") {
            Ok(v) => v,
            Err(e) => {
                return Err(e);
            },
        };
        let work_type_special = match field::<Option<String>>(j, "work_type_special") {
            Ok(v) => v,
            Err(e) => {
                return Err(e);
            },
        };
        let work_attributes = match field::<String>(j, "work_attributes") {
            Ok(v) => v,
            Err(e) => {
                return Err(e);
            },
        };
        let product_id = match field::<String>(j, "product_id") {
            Ok(v) => v,
            Err(e) => {
                return Err(e);
            },
        };
        let base_product_id = match field::<String>(j, "base_product_id") {
            Ok(v) => v,
            Err(e) => {
                return Err(e);
            },
        };
        let maker_id = match field::<String>(j, "maker_id") {
            Ok(v) => v,
            Err(e) => {
                return Err(e);
            },
        };
        let maker_name = match field::<String>(j, "maker_name") {
            Ok(v) => v,
            Err(e) => {
                return Err(e);
            },
        };
        let maker_name_en = match field::<Option<String>>(j, "maker_name_en") {
            Ok(v) => v,
            Err(e) => {
                return Err(e);
            },
        };
        let alt_name = match field::<String>(j, "alt_name") {
            Ok(v) => v,
            Err(e) => {
                return Err(e);
            },
        };
        let product_name = match field::<String>(j, "product_name") {
            Ok(v) => v,
            Err(e) => {
                return Err(e);
            },
        };
        let site_id = match field::<String>(j, "site_id") {
            Ok(v) => v,
            Err(e) => {
                return Err(e);
            },
        };
        let site_id_touch = match field::<String>(j, "site_id_touch") {
            Ok(v) => v,
            Err(e) => {
                return Err(e);
            },
        };
        let is_ana = match field::<bool>(j, "is_ana") {
            Ok(v) => v,
            Err(e) => {
                return Err(e);
            },
        };
        let work_category = match field::<WorkCategory>(j, "work_category") {
            Ok(v) => v,
            Err(e) => {
                return Err(e);
            },
        };
        let platform = match field::<Vec<String>>(j, "platform") {
            Ok(v) => v,
            Err(e) => {
                return Err(e);
            },
        };
        let is_pc_work = match field::<bool>(j, "is_pc_work") {
            Ok(v) => v,
            Err(e) => {
                return Err(e);
            },
        };
        let is_smartphone_work = match field::<bool>(j, "is_smartphone_work") {
            Ok(v) => v,
            Err(e) => {
                return Err(e);
            },
        };
        let is_android_only_work = match field::<bool>(j, "is_android_only_work") {
            Ok(v) => v,
            Err(e) => {
                return Err(e);
            },
        };
        let is_dlplaybox_only_work = match field::<bool>(j, "is_dlplaybox_only_work") {
            Ok(v) => v,
            Err(e) => {
                return Err(e);
            },
        };
        let is_almight_work = match field::<bool>(j, "is_almight_work") {
            Ok(v) => v,
            Err(e) => {
                return Err(e);
            },
        };
        let is_dlsiteplay_work = match field::<bool>(j, "is_dlsiteplay_work") {
            Ok(v) => v,
            Err(e) => {
                return Err(e);
            },
        };
        let is_dlsiteplay_only_work = match field::<bool>(j, "is_dlsiteplay_only_work") {
            Ok(v) => v,
            Err(e) => {
                return Err(e);
            },
        };
        let work_parts = match field::<Vec<String>>(j, "work_parts") {
            Ok(v) => v,
            Err(e) => {
                return Err(e);
            },
        };
        let introductions = match field::<Option<String>>(j, "introductions") {
            Ok(v) => v,
            Err(e) => {
                return Err(e);
            },
        };
        let sales_price = match field::<Option<i64>>(j, "sales_price") {
            Ok(v) => v,
            Err(e) => {
                return Err(e);
            },
        };
        let image_main = match field::<File>(j, "image_main") {
            Ok(v) => v,
            Err(e) => {
                return Err(e);
            },
        };
        let image_thum = match field::<File>(j, "image_thum") {
            Ok(v) => v,
            Err(e) => {
                return Err(e);
            },
        };
        let image_thum_mini = match field::<File>(j, "image_thum_mini") {
            Ok(v) => v,
            Err(e) => {
                return Err(e);
            },
        };
        let image_thum_touch = match field::<OneOrMany<File>>(j, "image_thum_touch") {
            Ok(v) => v.items,
            Err(e) => {
                return Err(e);
            },
        };
        let image_thum_mini_touch = match field::<Vec<Image>>(j, "image_thum_mini_touch") {
            Ok(v) => v,
            Err(e) => {
                return Err(e);
            },
        };
        let image_mini = match field::<Image>(j, "image_mini") {
            Ok(v) => v,
            Err(e) => {
                return Err(e);
            },
        };
        let image_samples = match field::<Option<Vec<File>>>(j, "image_samples") {
            Ok(v) => v,
            Err(e) => {
                return Err(e);
            },
        };
        let image_thumb = match field::<String>(j, "image_thumb") {
            Ok(v) => v,
            Err(e) => {
                return Err(e);
            },
        };
        let image_thumb_touch = match field::<String>(j, "image_thumb_touch") {
            Ok(v) => v,
            Err(e) => {
                return Err(e);
            },
        };
        let contents = match field::<Vec<Content>>(j, "contents") {
            Ok(v) => v,
            Err(e) => {
                return Err(e);
            },
        };
        let contents_touch = match field::<Option<Vec<Content>>>(j, "contents_touch") {
            Ok(v) => v,
            Err(e) => {
                return Err(e);
            },
        };
        let is_split_content = match field::<bool>(j, "is_split_content") {
            Ok(v) => v,
            Err(e) => {
                return Err(e);
            },
        };
        let content_count = match field::<i64>(j, "content_count") {
            Ok(v) => v,
            Err(e) => {
                return Err(e);
            },
        };
        let content_count_touch = match field::<i64>(j, "content_count_touch") {
            Ok(v) => v,
            Err(e) => {
                return Err(e);
            },
        };
        let contents_file_size = match field::<i64>(j, "contents_file_size") {
            Ok(v) => v,
            Err(e) => {
                return Err(e);
            },
        };
        let contents_file_size_touch = match field::<i64>(j, "contents_file_size_touch") {
            Ok(v) => v,
            Err(e) => {
                return Err(e);
            },
        };
        let trials = match field::<Lenient<Vec<File>>>(j, "trials") {
            Ok(v) => v.value,
            Err(e) => {
                return Err(e);
            },
        };
        let trials_touch = match field::<Lenient<Vec<File>>>(j, "trials_touch") {
            Ok(v) => v.value,
            Err(e) => {
                return Err(e);
            },
        };
        let movies = match field::<Either<bool, Vec<File>>>(j, "movies") {
            Ok(v) => v,
            Err(e) => {
                return Err(e);
            },
        };
        let epub_sample = match field::<Lenient<EpubSample>>(j, "epub_sample") {
            Ok(v) => v.value,
            Err(e) => {
                return Err(e);
            },
        };
        let sample_type = match field::<String>(j, "sample_type") {
            Ok(v) => v,
            Err(e) => {
                return Err(e);
            },
        };
        let is_viewable_sample = match field::<bool>(j, "is_viewable_sample") {
            Ok(v) => v,
            Err(e) => {
                return Err(e);
            },
        };
        let campaign_id = match field::<Option<i64>>(j, "campaign_id") {
            Ok(v) => v,
            Err(e) => {
                return Err(e);
            },
        };
        let official_price = match field::<i64>(j, "official_price") {
            Ok(v) => v,
            Err(e) => {
                return Err(e);
            },
        };
        let official_price_without_tax = match field::<i64>(j, "official_price_without_tax") {
            Ok(v) => v,
            Err(e) => {
                return Err(e);
            },
        };
        let official_price_usd = match field::<Decimal>(j, "official_price_usd") {
            Ok(v) => v,
            Err(e) => {
                return Err(e);
            },
        };
        let official_price_eur = match field::<Decimal>(j, "official_price_eur") {
            Ok(v) => v,
            Err(e) => {
                return Err(e);
            },
        };
        let discount_rate = match field::<Option<i64>>(j, "discount_rate") {
            Ok(v) => v,
            Err(e) => {
                return Err(e);
            },
        };
        let is_discount_work = match field::<bool>(j, "is_discount_work") {
            Ok(v) => v,
            Err(e) => {
                return Err(e);
            },
        };
        let discount_access_key = match field::<Option<String>>(j, "discount_access_key") {
            Ok(v) => v,
            Err(e) => {
                return Err(e);
            },
        };
        let discount_layout = match field::<Option<String>>(j, "discount_layout") {
            Ok(v) => v,
            Err(e) => {
                return Err(e);
            },
        };
        let discount_trade_price_type = match field::<Option<String>>(j, "discount_trade_price_type") {
            Ok(v) => v,
            Err(e) => {
                return Err(e);
            },
        };
        let campaign_start_date = match field::<Option<String>>(j, "campaign_start_date") {
            Ok(v) => v,
            Err(e) => {
                return Err(e);
            },
        };
        let campaign_end_date = match field::<Option<String>>(j, "campaign_end_date") {
            Ok(v) => v,
            Err(e) => {
                return Err(e);
            },
        };
        let is_show_campaign_end_date = match field::<bool>(j, "is_show_campaign_end_date") {
            Ok(v) => v,
            Err(e) => {
                return Err(e);
            },
        };
        let chobits = match field::<bool>(j, "chobits") {
            Ok(v) => v,
            Err(e) => {
                return Err(e);
            },
        };
        let work_options = match field::<Lenient<Keyed<WorkOption>>>(j, "work_options") {
            Ok(v) => v.value,
            Err(e) => {
                return Err(e);
            },
        };
        let gift = match field::<Vec<String>>(j, "gift") {
            Ok(v) => v,
            Err(e) => {
                return Err(e);
            },
        };
        let work_rentals = match field::<Vec<String>>(j, "work_rentals") {
            Ok(v) => v,
            Err(e) => {
                return Err(e);
            },
        };
        let is_rental_work = match field::<bool>(j, "is_rental_work") {
            Ok(v) => v,
            Err(e) => {
                return Err(e);
            },
        };
        let translation_info = match field::<TranslationInfo>(j, "translation_info") {
            Ok(v) => v,
            Err(e) => {
                return Err(e);
            },
        };
        let display_order = match field::<Option<i64>>(j, "display_order") {
            Ok(v) => v,
            Err(e) => {
                return Err(e);
            },
        };
        let is_oauth_work = match field::<Option<bool>>(j, "is_oauth_work") {
            Ok(v) => v,
            Err(e) => {
                return Err(e);
            },
        };
        let is_show_rate = match field::<bool>(j, "is_show_rate") {
            Ok(v) => v,
            Err(e) => {
                return Err(e);
            },
        };
        let rate_average_star = match field::<i64>(j, "rate_average_star") {
            Ok(v) => v,
            Err(e) => {
                return Err(e);
            },
        };
        let rate_count_detail = match field::<Keyed<i64>>(j, "rate_count_detail") {
            Ok(v) => v,
            Err(e) => {
                return Err(e);
            },
        };
        let rank_total = match field::<Option<i64>>(j, "rank_total") {
            Ok(v) => v,
            Err(e) => {
                return Err(e);
            },
        };
        let rank_total_date = match field::<Option<String>>(j, "rank_total_date") {
            Ok(v) => v,
            Err(e) => {
                return Err(e);
            },
        };
        let rank_year = match field::<Option<i64>>(j, "rank_year") {
            Ok(v) => v,
            Err(e) => {
                return Err(e);
            },
        };
        let rank_year_date = match field::<Option<i64>>(j, "rank_year_date") {
            Ok(v) => v,
            Err(e) => {
                return Err(e);
            },
        };
        let rank_month = match field::<Option<i64>>(j, "rank_month") {
            Ok(v) => v,
            Err(e) => {
                return Err(e);
            },
        };
        let rank_month_date = match field::<Option<String>>(j, "rank_month_date") {
            Ok(v) => v,
            Err(e) => {
                return Err(e);
            },
        };
        let rank_week = match field::<Option<i64>>(j, "rank_week") {
            Ok(v) => v,
            Err(e) => {
                return Err(e);
            },
        };
        let rank_week_date = match field::<Option<String>>(j, "rank_week_date") {
            Ok(v) => v,
            Err(e) => {
                return Err(e);
            },
        };
        let rank_day = match field::<Option<i64>>(j, "rank_day") {
            Ok(v) => v,
            Err(e) => {
                return Err(e);
            },
        };
        let rank_day_date = match field::<Option<String>>(j, "rank_day_date") {
            Ok(v) => v,
            Err(e) => {
                return Err(e);
            },
        };
        let is_pack_child = match field::<bool>(j, "is_pack_child") {
            Ok(v) => v,
            Err(e) => {
                return Err(e);
            },
        };
        let is_pack_parent = match field::<bool>(j, "is_pack_parent") {
            Ok(v) => v,
            Err(e) => {
                return Err(e);
            },
        };
        let work_pack_children = match field::<Either<Vec<String>, Keyed<WorkPackChild>>>(j, "work_pack_children") {
            Ok(v) => v,
            Err(e) => {
                return Err(e);
            },
        };
        let pack_type = match field::<Option<String>>(j, "pack_type") {
            Ok(v) => v,
            Err(e) => {
                return Err(e);
            },
        };
        let is_voice_pack = match field::<bool>(j, "is_voice_pack") {
            Ok(v) => v,
            Err(e) => {
                return Err(e);
            },
        };
        let voice_pack_parent = match field::<Vec<String>>(j, "voice_pack_parent") {
            Ok(v) => v,
            Err(e) => {
                return Err(e);
            },
        };
        let voice_pack_child = match field::<Vec<String>>(j, "voice_pack_child") {
            Ok(v) => v,
            Err(e) => {
                return Err(e);
            },
        };
        let free = match field::<bool>(j, "free") {
            Ok(v) => v,
            Err(e) => {
                return Err(e);
            },
        };
        let free_only = match field::<bool>(j, "free_only") {
            Ok(v) => v,
            Err(e) => {
                return Err(e);
            },
        };
        let free_end_date = match field::<Option<StrOrBool>>(j, "free_end_date") {
            Ok(v) => v,
            Err(e) => {
                return Err(e);
            },
        };
        let has_free_download = match field::<bool>(j, "has_free_download") {
            Ok(v) => v,
            Err(e) => {
                return Err(e);
            },
        };
        let creators = match field::<Lenient<Creators>>(j, "creaters") {
            Ok(v) => v.value,
            Err(e) => {
                return Err(e);
            },
        };
        let title_id = match field::<Option<String>>(j, "title_id") {
            Ok(v) => v,
            Err(e) => {
                return Err(e);
            },
        };
        let title_name = match field::<Option<String>>(j, "title_name") {
            Ok(v) => v,
            Err(e) => {
                return Err(e);
            },
        };
        let title_volumn = match field::<Option<i64>>(j, "title_volumn") {
            Ok(v) => v,
            Err(e) => {
                return Err(e);
            },
        };
        let title_work_labeling = match field::<Option<String>>(j, "title_work_labeling") {
            Ok(v) => v,
            Err(e) => {
                return Err(e);
            },
        };
        let title_work_display_order = match field::<Option<i64>>(j, "title_work_display_order") {
            Ok(v) => v,
            Err(e) => {
                return Err(e);
            },
        };
        let title_work_count = match field::<Option<i64>>(j, "title_work_count") {
            Ok(v) => v,
            Err(e) => {
                return Err(e);
            },
        };
        let is_title_completed = match field::<bool>(j, "is_title_completed") {
            Ok(v) => v,
            Err(e) => {
                return Err(e);
            },
        };
        let title_latest_workno = match field::<Option<String>>(j, "title_latest_workno") {
            Ok(v) => v,
            Err(e) => {
                return Err(e);
            },
        };
        let title_price_low = match field::<Option<String>>(j, "title_price_low") {
            Ok(v) => v,
            Err(e) => {
                return Err(e);
            },
        };
        let title_price_high = match field::<Option<String>>(j, "title_price_high") {
            Ok(v) => v,
            Err(e) => {
                return Err(e);
            },
        };
        let is_title_pointup = match field::<Option<String>>(j, "is_title_pointup") {
            Ok(v) => v,
            Err(e) => {
                return Err(e);
            },
        };
        let title_point_rate = match field::<Option<String>>(j, "title_point_rate") {
            Ok(v) => v,
            Err(e) => {
                return Err(e);
            },
        };
        let is_title_discount = match field::<Option<String>>(j, "is_title_discount") {
            Ok(v) => v,
            Err(e) => {
                return Err(e);
            },
        };
        let is_title_reserve = match field::<Option<String>>(j, "is_title_reserve") {
            Ok(v) => v,
            Err(e) => {
                return Err(e);
            },
        };
        let reserve_work = match field::<Option<ReserveWork>>(j, "reserve_work") {
            Ok(v) => v,
            Err(e) => {
                return Err(e);
            },
        };
        let is_reserve_work = match field::<bool>(j, "is_reserve_work") {
            Ok(v) => v,
            Err(e) => {
                return Err(e);
            },
        };
        let is_reservable = match field::<bool>(j, "is_reservable") {
            Ok(v) => v,
            Err(e) => {
                return Err(e);
            },
        };
        let is_downloadable_reserve_work = match field::<bool>(j, "is_downloadable_reserve_work") {
            Ok(v) => v,
            Err(e) => {
                return Err(e);
            },
        };
        let bonus_workno = match field::<Either<bool, String>>(j, "bonus_workno") {
            Ok(v) => v,
            Err(e) => {
                return Err(e);
            },
        };
        let bonus_work = match field::<Option<String>>(j, "bonus_work") {
            Ok(v) => v,
            Err(e) => {
                return Err(e);
            },
        };
        let is_bonus_work = match field::<bool>(j, "is_bonus_work") {
            Ok(v) => v,
            Err(e) => {
                return Err(e);
            },
        };
        let is_downloadable_bonus_work = match field::<bool>(j, "is_downloadable_bonus_work") {
            Ok(v) => v,
            Err(e) => {
                return Err(e);
            },
        };
        let parent_reserve_workno = match field::<bool>(j, "parent_reserve_workno") {
            Ok(v) => v,
            Err(e) => {
                return Err(e);
            },
        };
        let book_type = match field::<Option<BookType>>(j, "book_type") {
            Ok(v) => v,
            Err(e) => {
                return Err(e);
            },
        };
        let is_bl = match field::<bool>(j, "is_bl") {
            Ok(v) => v,
            Err(e) => {
                return Err(e);
            },
        };
        let is_tl = match field::<bool>(j, "is_tl") {
            Ok(v) => v,
            Err(e) => {
                return Err(e);
            },
        };
        let is_drama_work = match field::<bool>(j, "is_drama_work") {
            Ok(v) => v,
            Err(e) => {
                return Err(e);
            },
        };
        let is_display_notice = match field::<bool>(j, "is_display_notice") {
            Ok(v) => v,
            Err(e) => {
                return Err(e);
            },
        };
        let touch_style1 = match field::<Vec<String>>(j, "touch_style1") {
            Ok(v) => v,
            Err(e) => {
                return Err(e);
            },
        };
        let is_bulkbuy = match field::<bool>(j, "is_bulkbuy") {
            Ok(v) => v,
            Err(e) => {
                return Err(e);
            },
        };
        let bulkbuy_key = match field::<Option<String>>(j, "bulkbuy_key") {
            Ok(v) => v,
            Err(e) => {
                return Err(e);
            },
        };
        let bulkbuy_title = match field::<Option<String>>(j, "bulkbuy_title") {
            Ok(v) => v,
            Err(e) => {
                return Err(e);
            },
        };
        let bulkbuy_per_items = match field::<i64>(j, "bulkbuy_per_items") {
            Ok(v) => v,
            Err(e) => {
                return Err(e);
            },
        };
        let bulkbuy_start = match field::<Option<String>>(j, "bulkbuy_start") {
            Ok(v) => v,
            Err(e) => {
                return Err(e);
            },
        };
        let bulkbuy_end = match field::<Option<String>>(j, "bulkbuy_end") {
            Ok(v) => v,
            Err(e) => {
                return Err(e);
            },
        };
        let bulkbuy_price = match field::<i64>(j, "bulkbuy_price") {
            Ok(v) => v,
            Err(e) => {
                return Err(e);
            },
        };
        let bulkbuy_price_tax = match field::<i64>(j, "bulkbuy_price_tax") {
            Ok(v) => v,
            Err(e) => {
                return Err(e);
            },
        };
        let bulkbuy_price_without_tax = match field::<i64>(j, "bulkbuy_price_without_tax") {
            Ok(v) => v,
            Err(e) => {
                return Err(e);
            },
        };
        let bulkbuy_discount_rate = match field::<i64>(j, "bulkbuy_discount_rate") {
            Ok(v) => v,
            Err(e) => {
                return Err(e);
            },
        };
        let bulkbuy_point_rate = match field::<i64>(j, "bulkbuy_point_rate") {
            Ok(v) => v,
            Err(e) => {
                return Err(e);
            },
        };
        let bulkbuy_point = match field::<i64>(j, "bulkbuy_point") {
            Ok(v) => v,
            Err(e) => {
                return Err(e);
            },
        };
        let genres = match field::<Vec<Genre>>(j, "genres") {
            Ok(v) => v,
            Err(e) => {
                return Err(e);
            },
        };
        let custom_genres = match field::<Vec<CustomGenre>>(j, "custom_genres") {
            Ok(v) => v,
            Err(e) => {
                return Err(e);
            },
        };
        let editions = match field::<SeqOrMap<LanguageEdition>>(j, "editions") {
            Ok(v) => v.items,
            Err(e) => {
                return Err(e);
            },
        };
        let language_editions = match field::<SeqOrMap<LanguageEdition>>(j, "language_editions") {
            Ok(v) => v.items,
            Err(e) => {
                return Err(e);
            },
        };
        let display_options = match field::<Vec<String>>(j, "display_options") {
            Ok(v) => v,
            Err(e) => {
                return Err(e);
            },
        };
        let is_limit_work = match field::<bool>(j, "is_limit_work") {
            Ok(v) => v,
            Err(e) => {
                return Err(e);
            },
        };
        let is_limit_sales = match field::<bool>(j, "is_limit_sales") {
            Ok(v) => v,
            Err(e) => {
                return Err(e);
            },
        };
        let work_browse_setting = match field::<SeqOrMap<WorkBrowseSetting>>(j, "work_browse_setting") {
            Ok(v) => v.items,
            Err(e) => {
                return Err(e);
            },
        };
        let is_limit_in_stock = match field::<bool>(j, "is_limit_in_stock") {
            Ok(v) => v,
            Err(e) => {
                return Err(e);
            },
        };
        let limit_start_date = match field::<Option<String>>(j, "limit_start_date") {
            Ok(v) => v,
            Err(e) => {
                return Err(e);
            },
        };
        let limit_end_date = match field::<Option<String>>(j, "limit_end_date") {
            Ok(v) => v,
            Err(e) => {
                return Err(e);
            },
        };
        let limit_dl_count = match field::<i64>(j, "limit_dl_count") {
            Ok(v) => v,
            Err(e) => {
                return Err(e);
            },
        };
        let limit_display_type = match field::<Option<String>>(j, "limit_display_type") {
            Ok(v) => v,
            Err(e) => {
                return Err(e);
            },
        };
        let limit_note = match field::<Option<String>>(j, "limit_note") {
            Ok(v) => v,
            Err(e) => {
                return Err(e);
            },
        };
        let is_timesale_work = match field::<bool>(j, "is_timesale_work") {
            Ok(v) => v,
            Err(e) => {
                return Err(e);
            },
        };
        let timesale_dl_count = match field::<i64>(j, "timesale_dl_count") {
            Ok(v) => v,
            Err(e) => {
                return Err(e);
            },
        };
        let timesale_limit_dl_count = match field::<Option<i32>>(j, "timesale_limit_dl_count") {
            Ok(v) => v,
            Err(e) => {
                return Err(e);
            },
        };
        let timesale_stock = match field::<i64>(j, "timesale_stock") {
            Ok(v) => v,
            Err(e) => {
                return Err(e);
            },
        };
        let timesale_start_date = match field::<Option<String>>(j, "timesale_start_date") {
            Ok(v) => v,
            Err(e) => {
                return Err(e);
            },
        };
        let timesale_end_date = match field::<Option<String>>(j, "timesale_end_date") {
            Ok(v) => v,
            Err(e) => {
                return Err(e);
            },
        };
        let timesale_price = match field::<i64>(j, "timesale_price") {
            Ok(v) => v,
            Err(e) => {
                return Err(e);
            },
        };
        let update_date = match field::<String>(j, "update_date") {
            Ok(v) => v,
            Err(e) => {
                return Err(e);
            },
        };
        let locale_price = match field::<Keyed<Decimal>>(j, "locale_price") {
            Ok(v) => v,
            Err(e) => {
                return Err(e);
            },
        };
        let locale_official_price = match field::<Keyed<Decimal>>(j, "locale_official_price") {
            Ok(v) => v,
            Err(e) => {
                return Err(e);
            },
        };
        let locale_price_str = match field::<Keyed<String>>(j, "locale_price_str") {
            Ok(v) => v,
            Err(e) => {
                return Err(e);
            },
        };
        let locale_official_price_str = match field::<Keyed<String>>(j, "locale_official_price_str") {
            Ok(v) => v,
            Err(e) => {
                return Err(e);
            },
        };
        let given_coupons_by_buying = match field::<Vec<String>>(j, "given_coupons_by_buying") {
            Ok(v) => v,
            Err(e) => {
                return Err(e);
            },
        };
        let author = match field::<Option<Vec<Author>>>(j, "author") {
            Ok(v) => v,
            Err(e) => {
                return Err(e);
            },
        };
        let authors = match field::<Option<Vec<Author>>>(j, "authors") {
            Ok(v) => v,
            Err(e) => {
                return Err(e);
            },
        };
        let product_dir = match field::<String>(j, "product_dir") {
            Ok(v) => v,
            Err(e) => {
                return Err(e);
            },
        };
        let srcset = match field::<Option<String>>(j, "srcset") {
            Ok(v) => v,
            Err(e) => {
                return Err(e);
            },
        };
        let alt_name_masked = match field::<String>(j, "alt_name_masked") {
            Ok(v) => v,
            Err(e) => {
                return Err(e);
            },
        };
        let work_pack_parent = match field::<Either<Vec<String>, Keyed<WorkPackChild>>>(j, "work_pack_parent") {
            Ok(v) => v,
            Err(e) => {
                return Err(e);
            },
        };
        let limited_free_terms = match field::<OneOrMany<LimitedFree>>(j, "limited_free_terms") {
            Ok(v) => v.items,
            Err(e) => {
                return Err(e);
            },
        };
        let limited_free_work = match field::<OneOrMany<LimitedFree>>(j, "limited_free_work") {
            Ok(v) => v.items,
            Err(e) => {
                return Err(e);
            },
        };
        let intro_masked = match field::<Option<Json>>(j, "intro_masked") {
            Ok(v) => v,
            Err(e) => {
                return Err(e);
            },
        };
        let limit_sale_id = match field::<Option<Json>>(j, "limit_sale_id") {
            Ok(v) => v,
            Err(e) => {
                return Err(e);
            },
        };
        let specified_volume_sets = match field::<Vec<SpecifiedVolumeSet>>(j, "specified_volume_sets") {
            Ok(v) => v,
            Err(e) => {
                return Err(e);
            },
        };
        let series_name_masked = match field::<Option<String>>(j, "series_name_masked") {
            Ok(v) => v,
            Err(e) => {
                return Err(e);
            },
        };
        let is_ios_only_work = match field::<bool>(j, "is_ios_only_work") {
            Ok(v) => v,
            Err(e) => {
                return Err(e);
            },
        };
        let specified_volume_set_max_discount_rate = match field::<Option<Json>>(j, "specified_volume_set_max_discount_rate") {
            Ok(v) => v,
            Err(e) => {
                return Err(e);
            },
        };
        let has_specified_volume_set = match field::<bool>(j, "has_specified_volume_set") {
            Ok(v) => v,
            Err(e) => {
                return Err(e);
            },
        };
        let work_name_masked = match field::<String>(j, "work_name_masked") {
            Ok(v) => v,
            Err(e) => {
                return Err(e);
            },
        };
        let introductions_masked = match field::<Option<Json>>(j, "introductions_masked") {
            Ok(v) => v,
            Err(e) => {
                return Err(e);
            },
        };
        let intro_s_masked = match field::<Option<String>>(j, "intro_s_masked") {
            Ok(v) => v,
            Err(e) => {
                return Err(e);
            },
        };
        let work_type_special_masked = match field::<Option<String>>(j, "work_type_special_masked") {
            Ok(v) => v,
            Err(e) => {
                return Err(e);
            },
        };
        let title_name_masked = match field::<Option<String>>(j, "title_name_masked") {
            Ok(v) => v,
            Err(e) => {
                return Err(e);
            },
        };
        let currency_price = match field::<Keyed<Decimal>>(j, "currency_price") {
            Ok(v) => v,
            Err(e) => {
                return Err(e);
            },
        };
        let currency_official_price = match field::<Keyed<Decimal>>(j, "currency_official_price") {
            Ok(v) => v,
            Err(e) => {
                return Err(e);
            },
        };
        let is_android_or_ios_only_work = match field::<bool>(j, "is_android_or_ios_only_work") {
            Ok(v) => v,
            Err(e) => {
                return Err(e);
            },
        };
        let genres_replaced = match field::<Vec<Genre>>(j, "genres_replaced") {
            Ok(v) => v,
            Err(e) => {
                return Err(e);
            },
        };
        let limit_sold_dl_count = match field::<i32>(j, "limit_sold_dl_count") {
            Ok(v) => v,
            Err(e) => {
                return Err(e);
            },
        };
        Ok(ProductApiContent { age_category, age_category_string, anime, auto_play, bgm, bgm_mode, books_id, brand_id, circle_id, coupling, cpu, default_point, directed_by, directx, discount, dist_flag, dl_format, etc, file_date, file_size, file_type, file_type_string, file_type_special, gallery_mode, hdd, h_scene_mode, intro, intro_s, label_id, label_name, machine, machine_string_list, memory, message_skip, mini_resolution, modify_flg, music_by, on_sale, options, original_illust, other, others_by, pages, page_number, product_point, product_point_end_date, point, price, price_without_tax, price_en, price_eur, production_workno, publisher_workno, regist_date, regular_price, scenario_by, screen_mode, series_id, series_name, sex_category, sofrin_app_no, vocal_track, voice, voice_by, vram, workno, work_name, work_name_kana, work_type, work_type_string, work_type_special, work_attributes, product_id, base_product_id, maker_id, maker_name, maker_name_en, alt_name, product_name, site_id, site_id_touch, is_ana, work_category, platform, is_pc_work, is_smartphone_work, is_android_only_work, is_dlplaybox_only_work, is_almight_work, is_dlsiteplay_work, is_dlsiteplay_only_work, work_parts, introductions, sales_price, image_main, image_thum, image_thum_mini, image_thum_touch, image_thum_mini_touch, image_mini, image_samples, image_thumb, image_thumb_touch, contents, contents_touch, is_split_content, content_count, content_count_touch, contents_file_size, contents_file_size_touch, trials, trials_touch, movies, epub_sample, sample_type, is_viewable_sample, campaign_id, official_price, official_price_without_tax, official_price_usd, official_price_eur, discount_rate, is_discount_work, discount_access_key, discount_layout, discount_trade_price_type, campaign_start_date, campaign_end_date, is_show_campaign_end_date, chobits, work_options, gift, work_rentals, is_rental_work, translation_info, display_order, is_oauth_work, is_show_rate, rate_average_star, rate_count_detail, rank_total, rank_total_date, rank_year, rank_year_date, rank_month, rank_month_date, rank_week, rank_week_date, rank_day, rank_day_date, is_pack_child, is_pack_parent, work_pack_children, pack_type, is_voice_pack, voice_pack_parent, voice_pack_child, free, free_only, free_end_date, has_free_download, creators, title_id, title_name, title_volumn, title_work_labeling, title_work_display_order, title_work_count, is_title_completed, title_latest_workno, title_price_low, title_price_high, is_title_pointup, title_point_rate, is_title_discount, is_title_reserve, reserve_work, is_reserve_work, is_reservable, is_downloadable_reserve_work, bonus_workno, bonus_work, is_bonus_work, is_downloadable_bonus_work, parent_reserve_workno, book_type, is_bl, is_tl, is_drama_work, is_display_notice, touch_style1, is_bulkbuy, bulkbuy_key, bulkbuy_title, bulkbuy_per_items, bulkbuy_start, bulkbuy_end, bulkbuy_price, bulkbuy_price_tax, bulkbuy_price_without_tax, bulkbuy_discount_rate, bulkbuy_point_rate, bulkbuy_point, genres, custom_genres, editions, language_editions, display_options, is_limit_work, is_limit_sales, work_browse_setting, is_limit_in_stock, limit_start_date, limit_end_date, limit_dl_count, limit_display_type, limit_note, is_timesale_work, timesale_dl_count, timesale_limit_dl_count, timesale_stock, timesale_start_date, timesale_end_date, timesale_price, update_date, locale_price, locale_official_price, locale_price_str, locale_official_price_str, given_coupons_by_buying, author, authors, product_dir, srcset, alt_name_masked, work_pack_parent, limited_free_terms, limited_free_work, intro_masked, limit_sale_id, specified_volume_sets, series_name_masked, is_ios_only_work, specified_volume_set_max_discount_rate, has_specified_volume_set, work_name_masked, introductions_masked, intro_s_masked, work_type_special_masked, title_name_masked, currency_price, currency_official_price, is_android_or_ios_only_work, genres_replaced, limit_sold_dl_count })
    }
}
/// Whether `a` and `b` are the same payload of a product but for the shape
/// of its sequences: each member is the same in both, except that a member
/// that holds a sequence may be a list in one and a keyed map in the other,
/// as long as it holds the same sequence.
pub open spec fn same_but_for_shape(a: JsonView, b: JsonView) -> bool {
    &&& a.member("age_category"@) == b.member("age_category"@)
    &&& a.member("age_category_string"@) == b.member("age_category_string"@)
    &&& a.member("anime"@) == b.member("anime"@)
    &&& a.member("auto_play"@) == b.member("auto_play"@)
    &&& a.member("bgm"@) == b.member("bgm"@)
    &&& a.member("bgm_mode"@) == b.member("bgm_mode"@)
    &&& a.member("books_id"@) == b.member("books_id"@)
    &&& a.member("brand_id"@) == b.member("brand_id"@)
    &&& a.member("circle_id"@) == b.member("circle_id"@)
    &&& a.member("coupling"@) == b.member("coupling"@)
    &&& a.member("cpu"@) == b.member("cpu"@)
    &&& a.member("default_point"@) == b.member("default_point"@)
    &&& a.member("directed_by"@) == b.member("directed_by"@)
    &&& a.member("directx"@) == b.member("directx"@)
    &&& a.member("discount"@) == b.member("discount"@)
    &&& a.member("dist_flag"@) == b.member("dist_flag"@)
    &&& a.member("dl_format"@) == b.member("dl_format"@)
    &&& a.member("etc"@) == b.member("etc"@)
    &&& a.member("file_date"@) == b.member("file_date"@)
    &&& a.member("file_size"@) == b.member("file_size"@)
    &&& a.member("file_type"@) == b.member("file_type"@)
    &&& a.member("file_type_string"@) == b.member("file_type_string"@)
    &&& a.member("file_type_special"@) == b.member("file_type_special"@)
    &&& a.member("gallery_mode"@) == b.member("gallery_mode"@)
    &&& a.member("hdd"@) == b.member("hdd"@)
    &&& a.member("h_scene_mode"@) == b.member("h_scene_mode"@)
    &&& a.member("intro"@) == b.member("intro"@)
    &&& a.member("intro_s"@) == b.member("intro_s"@)
    &&& a.member("label_id"@) == b.member("label_id"@)
    &&& a.member("label_name"@) == b.member("label_name"@)
    &&& a.member("machine"@) == b.member("machine"@)
    &&& same_pairs(a.member("machine_string_list"@), b.member("machine_string_list"@))
    &&& a.member("memory"@) == b.member("memory"@)
    &&& a.member("message_skip"@) == b.member("message_skip"@)
    &&& a.member("mini_resolution"@) == b.member("mini_resolution"@)
    &&& a.member("modify_flg"@) == b.member("modify_flg"@)
    &&& a.member("music_by"@) == b.member("music_by"@)
    &&& a.member("on_sale"@) == b.member("on_sale"@)
    &&& a.member("options"@) == b.member("options"@)
    &&& a.member("original_illust"@) == b.member("original_illust"@)
    &&& a.member("other"@) == b.member("other"@)
    &&& a.member("others_by"@) == b.member("others_by"@)
    &&& a.member("pages"@) == b.member("pages"@)
    &&& a.member("page_number"@) == b.member("page_number"@)
    &&& a.member("product_point"@) == b.member("product_point"@)
    &&& a.member("product_point_end_date"@) == b.member("product_point_end_date"@)
    &&& a.member("point"@) == b.member("point"@)
    &&& a.member("price"@) == b.member("price"@)
    &&& a.member("price_without_tax"@) == b.member("price_without_tax"@)
    &&& a.member("price_en"@) == b.member("price_en"@)
    &&& a.member("price_eur"@) == b.member("price_eur"@)
    &&& a.member("production_workno"@) == b.member("production_workno"@)
    &&& a.member("publisher_workno"@) == b.member("publisher_workno"@)
    &&& a.member("regist_date"@) == b.member("regist_date"@)
    &&& a.member("regular_price"@) == b.member("regular_price"@)
    &&& a.member("scenario_by"@) == b.member("scenario_by"@)
    &&& a.member("screen_mode"@) == b.member("screen_mode"@)
    &&& a.member("series_id"@) == b.member("series_id"@)
    &&& a.member("series_name"@) == b.member("series_name"@)
    &&& a.member("sex_category"@) == b.member("sex_category"@)
    &&& a.member("sofrin_app_no"@) == b.member("sofrin_app_no"@)
    &&& a.member("vocal_track"@) == b.member("vocal_track"@)
    &&& a.member("voice"@) == b.member("voice"@)
    &&& a.member("voice_by"@) == b.member("voice_by"@)
    &&& a.member("vram"@) == b.member("vram"@)
    &&& a.member("workno"@) == b.member("workno"@)
    &&& a.member("work_name"@) == b.member("work_name"@)
    &&& a.member("work_name_kana"@) == b.member("work_name_kana"@)
    &&& a.member("work_type"@) == b.member("work_type"@)
    &&& a.member("work_type_string"@) == b.member("work_type_string"@)
    &&& a.member("work_type_special"@) == b.member("work_type_special"@)
    &&& a.member("work_attributes"@) == b.member("work_attributes"@)
    &&& a.member("product_id"@) == b.member("product_id"@)
    &&& a.member("base_product_id"@) == b.member("base_product_id"@)
    &&& a.member("maker_id"@) == b.member("maker_id"@)
    &&& a.member("maker_name"@) == b.member("maker_name"@)
    &&& a.member("maker_name_en"@) == b.member("maker_name_en"@)
    &&& a.member("alt_name"@) == b.member("alt_name"@)
    &&& a.member("product_name"@) == b.member("product_name"@)
    &&& a.member("site_id"@) == b.member("site_id"@)
    &&& a.member("site_id_touch"@) == b.member("site_id_touch"@)
    &&& a.member("is_ana"@) == b.member("is_ana"@)
    &&& a.member("work_category"@) == b.member("work_category"@)
    &&& a.member("platform"@) == b.member("platform"@)
    &&& a.member("is_pc_work"@) == b.member("is_pc_work"@)
    &&& a.member("is_smartphone_work"@) == b.member("is_smartphone_work"@)
    &&& a.member("is_android_only_work"@) == b.member("is_android_only_work"@)
    &&& a.member("is_dlplaybox_only_work"@) == b.member("is_dlplaybox_only_work"@)
    &&& a.member("is_almight_work"@) == b.member("is_almight_work"@)
    &&& a.member("is_dlsiteplay_work"@) == b.member("is_dlsiteplay_work"@)
    &&& a.member("is_dlsiteplay_only_work"@) == b.member("is_dlsiteplay_only_work"@)
    &&& a.member("work_parts"@) == b.member("work_parts"@)
    &&& a.member("introductions"@) == b.member("introductions"@)
    &&& a.member("sales_price"@) == b.member("sales_price"@)
    &&& a.member("image_main"@) == b.member("image_main"@)
    &&& a.member("image_thum"@) == b.member("image_thum"@)
    &&& a.member("image_thum_mini"@) == b.member("image_thum_mini"@)
    &&& a.member("image_thum_touch"@) == b.member("image_thum_touch"@)
    &&& a.member("image_thum_mini_touch"@) == b.member("image_thum_mini_touch"@)
    &&& a.member("image_mini"@) == b.member("image_mini"@)
    &&& a.member("image_samples"@) == b.member("image_samples"@)
    &&& a.member("image_thumb"@) == b.member("image_thumb"@)
    &&& a.member("image_thumb_touch"@) == b.member("image_thumb_touch"@)
    &&& a.member("contents"@) == b.member("contents"@)
    &&& a.member("contents_touch"@) == b.member("contents_touch"@)
    &&& a.member("is_split_content"@) == b.member("is_split_content"@)
    &&& a.member("content_count"@) == b.member("content_count"@)
    &&& a.member("content_count_touch"@) == b.member("content_count_touch"@)
    &&& a.member("contents_file_size"@) == b.member("contents_file_size"@)
    &&& a.member("contents_file_size_touch"@) == b.member("contents_file_size_touch"@)
    &&& a.member("trials"@) == b.member("trials"@)
    &&& a.member("trials_touch"@) == b.member("trials_touch"@)
    &&& a.member("movies"@) == b.member("movies"@)
    &&& a.member("epub_sample"@) == b.member("epub_sample"@)
    &&& a.member("sample_type"@) == b.member("sample_type"@)
    &&& a.member("is_viewable_sample"@) == b.member("is_viewable_sample"@)
    &&& a.member("campaign_id"@) == b.member("campaign_id"@)
    &&& a.member("official_price"@) == b.member("official_price"@)
    &&& a.member("official_price_without_tax"@) == b.member("official_price_without_tax"@)
    &&& a.member("official_price_usd"@) == b.member("official_price_usd"@)
    &&& a.member("official_price_eur"@) == b.member("official_price_eur"@)
    &&& a.member("discount_rate"@) == b.member("discount_rate"@)
    &&& a.member("is_discount_work"@) == b.member("is_discount_work"@)
    &&& a.member("discount_access_key"@) == b.member("discount_access_key"@)
    &&& a.member("discount_layout"@) == b.member("discount_layout"@)
    &&& a.member("discount_trade_price_type"@) == b.member("discount_trade_price_type"@)
    &&& a.member("campaign_start_date"@) == b.member("campaign_start_date"@)
    &&& a.member("campaign_end_date"@) == b.member("campaign_end_date"@)
    &&& a.member("is_show_campaign_end_date"@) == b.member("is_show_campaign_end_date"@)
    &&& a.member("chobits"@) == b.member("chobits"@)
    &&& a.member("work_options"@) == b.member("work_options"@)
    &&& a.member("gift"@) == b.member("gift"@)
    &&& a.member("work_rentals"@) == b.member("work_rentals"@)
    &&& a.member("is_rental_work"@) == b.member("is_rental_work"@)
    &&& a.member("translation_info"@) == b.member("translation_info"@)
    &&& a.member("display_order"@) == b.member("display_order"@)
    &&& a.member("is_oauth_work"@) == b.member("is_oauth_work"@)
    &&& a.member("is_show_rate"@) == b.member("is_show_rate"@)
    &&& a.member("rate_average_star"@) == b.member("rate_average_star"@)
    &&& a.member("rate_count_detail"@) == b.member("rate_count_detail"@)
    &&& a.member("rank_total"@) == b.member("rank_total"@)
    &&& a.member("rank_total_date"@) == b.member("rank_total_date"@)
    &&& a.member("rank_year"@) == b.member("rank_year"@)
    &&& a.member("rank_year_date"@) == b.member("rank_year_date"@)
    &&& a.member("rank_month"@) == b.member("rank_month"@)
    &&& a.member("rank_month_date"@) == b.member("rank_month_date"@)
    &&& a.member("rank_week"@) == b.member("rank_week"@)
    &&& a.member("rank_week_date"@) == b.member("rank_week_date"@)
    &&& a.member("rank_day"@) == b.member("rank_day"@)
    &&& a.member("rank_day_date"@) == b.member("rank_day_date"@)
    &&& a.member("is_pack_child"@) == b.member("is_pack_child"@)
    &&& a.member("is_pack_parent"@) == b.member("is_pack_parent"@)
    &&& a.member("work_pack_children"@) == b.member("work_pack_children"@)
    &&& a.member("pack_type"@) == b.member("pack_type"@)
    &&& a.member("is_voice_pack"@) == b.member("is_voice_pack"@)
    &&& a.member("voice_pack_parent"@) == b.member("voice_pack_parent"@)
    &&& a.member("voice_pack_child"@) == b.member("voice_pack_child"@)
    &&& a.member("free"@) == b.member("free"@)
    &&& a.member("free_only"@) == b.member("free_only"@)
    &&& a.member("free_end_date"@) == b.member("free_end_date"@)
    &&& a.member("has_free_download"@) == b.member("has_free_download"@)
    &&& a.member("creaters"@) == b.member("creaters"@)
    &&& a.member("title_id"@) == b.member("title_id"@)
    &&& a.member("title_name"@) == b.member("title_name"@)
    &&& a.member("title_volumn"@) == b.member("title_volumn"@)
    &&& a.member("title_work_labeling"@) == b.member("title_work_labeling"@)
    &&& a.member("title_work_display_order"@) == b.member("title_work_display_order"@)
    &&& a.member("title_work_count"@) == b.member("title_work_count"@)
    &&& a.member("is_title_completed"@) == b.member("is_title_completed"@)
    &&& a.member("title_latest_workno"@) == b.member("title_latest_workno"@)
    &&& a.member("title_price_low"@) == b.member("title_price_low"@)
    &&& a.member("title_price_high"@) == b.member("title_price_high"@)
    &&& a.member("is_title_pointup"@) == b.member("is_title_pointup"@)
    &&& a.member("title_point_rate"@) == b.member("title_point_rate"@)
    &&& a.member("is_title_discount"@) == b.member("is_title_discount"@)
    &&& a.member("is_title_reserve"@) == b.member("is_title_reserve"@)
    &&& a.member("reserve_work"@) == b.member("reserve_work"@)
    &&& a.member("is_reserve_work"@) == b.member("is_reserve_work"@)
    &&& a.member("is_reservable"@) == b.member("is_reservable"@)
    &&& a.member("is_downloadable_reserve_work"@) == b.member("is_downloadable_reserve_work"@)
    &&& a.member("bonus_workno"@) == b.member("bonus_workno"@)
    &&& a.member("bonus_work"@) == b.member("bonus_work"@)
    &&& a.member("is_bonus_work"@) == b.member("is_bonus_work"@)
    &&& a.member("is_downloadable_bonus_work"@) == b.member("is_downloadable_bonus_work"@)
    &&& a.member("parent_reserve_workno"@) == b.member("parent_reserve_workno"@)
    &&& a.member("book_type"@) == b.member("book_type"@)
    &&& a.member("is_bl"@) == b.member("is_bl"@)
    &&& a.member("is_tl"@) == b.member("is_tl"@)
    &&& a.member("is_drama_work"@) == b.member("is_drama_work"@)
    &&& a.member("is_display_notice"@) == b.member("is_display_notice"@)
    &&& a.member("touch_style1"@) == b.member("touch_style1"@)
    &&& a.member("is_bulkbuy"@) == b.member("is_bulkbuy"@)
    &&& a.member("bulkbuy_key"@) == b.member("bulkbuy_key"@)
    &&& a.member("bulkbuy_title"@) == b.member("bulkbuy_title"@)
    &&& a.member("bulkbuy_per_items"@) == b.member("bulkbuy_per_items"@)
    &&& a.member("bulkbuy_start"@) == b.member("bulkbuy_start"@)
    &&& a.member("bulkbuy_end"@) == b.member("bulkbuy_end"@)
    &&& a.member("bulkbuy_price"@) == b.member("bulkbuy_price"@)
    &&& a.member("bulkbuy_price_tax"@) == b.member("bulkbuy_price_tax"@)
    &&& a.member("bulkbuy_price_without_tax"@) == b.member("bulkbuy_price_without_tax"@)
    &&& a.member("bulkbuy_discount_rate"@) == b.member("bulkbuy_discount_rate"@)
    &&& a.member("bulkbuy_point_rate"@) == b.member("bulkbuy_point_rate"@)
    &&& a.member("bulkbuy_point"@) == b.member("bulkbuy_point"@)
    &&& a.member("genres"@) == b.member("genres"@)
    &&& a.member("custom_genres"@) == b.member("custom_genres"@)
    &&& same_sequence(a.member("editions"@), b.member("editions"@))
    &&& same_sequence(a.member("language_editions"@), b.member("language_editions"@))
    &&& a.member("display_options"@) == b.member("display_options"@)
    &&& a.member("is_limit_work"@) == b.member("is_limit_work"@)
    &&& a.member("is_limit_sales"@) == b.member("is_limit_sales"@)
    &&& same_sequence(a.member("work_browse_setting"@), b.member("work_browse_setting"@))
    &&& a.member("is_limit_in_stock"@) == b.member("is_limit_in_stock"@)
    &&& a.member("limit_start_date"@) == b.member("limit_start_date"@)
    &&& a.member("limit_end_date"@) == b.member("limit_end_date"@)
    &&& a.member("limit_dl_count"@) == b.member("limit_dl_count"@)
    &&& a.member("limit_display_type"@) == b.member("limit_display_type"@)
    &&& a.member("limit_note"@) == b.member("limit_note"@)
    &&& a.member("is_timesale_work"@) == b.member("is_timesale_work"@)
    &&& a.member("timesale_dl_count"@) == b.member("timesale_dl_count"@)
    &&& a.member("timesale_limit_dl_count"@) == b.member("timesale_limit_dl_count"@)
    &&& a.member("timesale_stock"@) == b.member("timesale_stock"@)
    &&& a.member("timesale_start_date"@) == b.member("timesale_start_date"@)
    &&& a.member("timesale_end_date"@) == b.member("timesale_end_date"@)
    &&& a.member("timesale_price"@) == b.member("timesale_price"@)
    &&& a.member("update_date"@) == b.member("update_date"@)
    &&& a.member("locale_price"@) == b.member("locale_price"@)
    &&& a.member("locale_official_price"@) == b.member("locale_official_price"@)
    &&& a.member("locale_price_str"@) == b.member("locale_price_str"@)
    &&& a.member("locale_official_price_str"@) == b.member("locale_official_price_str"@)
    &&& a.member("given_coupons_by_buying"@) == b.member("given_coupons_by_buying"@)
    &&& a.member("author"@) == b.member("author"@)
    &&& a.member("authors"@) == b.member("authors"@)
    &&& a.member("product_dir"@) == b.member("product_dir"@)
    &&& a.member("srcset"@) == b.member("srcset"@)
    &&& a.member("alt_name_masked"@) == b.member("alt_name_masked"@)
    &&& a.member("work_pack_parent"@) == b.member("work_pack_parent"@)
    &&& a.member("limited_free_terms"@) == b.member("limited_free_terms"@)
    &&& a.member("limited_free_work"@) == b.member("limited_free_work"@)
    &&& a.member("intro_masked"@) == b.member("intro_masked"@)
    &&& a.member("limit_sale_id"@) == b.member("limit_sale_id"@)
    &&& a.member("specified_volume_sets"@) == b.member("specified_volume_sets"@)
    &&& a.member("series_name_masked"@) == b.member("series_name_masked"@)
    &&& a.member("is_ios_only_work"@) == b.member("is_ios_only_work"@)
    &&& a.member("specified_volume_set_max_discount_rate"@) == b.member("specified_volume_set_max_discount_rate"@)
    &&& a.member("has_specified_volume_set"@) == b.member("has_specified_volume_set"@)
    &&& a.member("work_name_masked"@) == b.member("work_name_masked"@)
    &&& a.member("introductions_masked"@) == b.member("introductions_masked"@)
    &&& a.member("intro_s_masked"@) == b.member("intro_s_masked"@)
    &&& a.member("work_type_special_masked"@) == b.member("work_type_special_masked"@)
    &&& a.member("title_name_masked"@) == b.member("title_name_masked"@)
    &&& a.member("currency_price"@) == b.member("currency_price"@)
    &&& a.member("currency_official_price"@) == b.member("currency_official_price"@)
    &&& a.member("is_android_or_ios_only_work"@) == b.member("is_android_or_ios_only_work"@)
    &&& a.member("genres_replaced"@) == b.member("genres_replaced"@)
    &&& a.member("limit_sold_dl_count"@) == b.member("limit_sold_dl_count"@)
}

/// The shape of a sequence is no failure: of two payloads that are the same
/// but for the shape of their sequences, one is accepted exactly where the
/// other is.
#[verifier::rlimit(100)]
pub proof fn law_both_shapes_are_accepted(a: JsonView, b: JsonView)
    requires
        same_but_for_shape(a, b),
    ensures
        ProductApiContent::failure(a) is None <==> ProductApiContent::failure(b) is None,
{
    law_same_pairs_read_alike::<Option<String>>(a, b, "machine_string_list"@);
    law_same_sequence_reads_alike::<LanguageEdition>(a, b, "editions"@);
    law_same_sequence_reads_alike::<LanguageEdition>(a, b, "language_editions"@);
    law_same_sequence_reads_alike::<WorkBrowseSetting>(a, b, "work_browse_setting"@);
}

/// The shape of a sequence does not show in the record: two payloads that
/// are the same but for the shape of their sequences decode to the same
/// record, field by field.
#[verifier::rlimit(100)]
pub proof fn law_both_shapes_decode_alike(a: JsonView, b: JsonView, record: ProductApiContent)
    requires
        same_but_for_shape(a, b),
    ensures
        record.decoded_from(a) <==> record.decoded_from(b),
{
    law_same_pairs_read_alike::<Option<String>>(a, b, "machine_string_list"@);
    law_same_sequence_reads_alike::<LanguageEdition>(a, b, "editions"@);
    law_same_sequence_reads_alike::<LanguageEdition>(a, b, "language_editions"@);
    law_same_sequence_reads_alike::<WorkBrowseSetting>(a, b, "work_browse_setting"@);
}

/// A discount on a set of volumes.
#[derive(Debug)]
pub struct SpecifiedVolumeSet {
    pub discount_price: i32,
    pub start_date: String,
    pub id: i32,
    pub end_date: String,
}

impl FromJson for SpecifiedVolumeSet {
    /// The failure of the first member, in the order of the fields, that
    /// does not have the shape of its field.
    open spec fn failure(j: JsonView) -> Option<Seq<char>> {
        if field_failure::<i32>(j, "discount_price"@) is Some {
            field_failure::<i32>(j, "discount_price"@)
        } else if field_failure::<String>(j, "start_date"@) is Some {
            field_failure::<String>(j, "start_date"@)
        } else if field_failure::<i32>(j, "id"@) is Some {
            field_failure::<i32>(j, "id"@)
        } else if field_failure::<String>(j, "end_date"@) is Some {
            field_failure::<String>(j, "end_date"@)
        } else {
            None
        }
    }

    open spec fn decoded_from(&self, j: JsonView) -> bool {
        &&& self.discount_price.decoded_from(field_value(j, "discount_price"@))
        &&& self.start_date.decoded_from(field_value(j, "start_date"@))
        &&& self.id.decoded_from(field_value(j, "id"@))
        &&& self.end_date.decoded_from(field_value(j, "end_date"@))
    }

    fn from_json(j: &Json) -> (r: Result<SpecifiedVolumeSet, DlsiteError>) {
        let discount_price = match field::<i32>(j, "discount_price") {
            Ok(v) => v,
            Err(e) => {
                return Err(e);
            },
        };
        let start_date = match field::<String>(j, "start_date") {
            Ok(v) => v,
            Err(e) => {
                return Err(e);
            },
        };
        let id = match field::<i32>(j, "id") {
            Ok(v) => v,
            Err(e) => {
                return Err(e);
            },
        };
        let end_date = match field::<String>(j, "end_date") {
            Ok(v) => v,
            Err(e) => {
                return Err(e);
            },
        };
        Ok(SpecifiedVolumeSet { discount_price, start_date, id, end_date })
    }
}
/// A file of a work.
#[derive(Debug)]
pub struct Content {
    pub workno: String,
    pub type_: String,
    pub file_name: String,
    pub file_size: String,
    pub file_size_unit: Option<String>,
    pub width: Option<String>,
    pub height: Option<String>,
    pub hash: Option<String>,
    pub display_mode: Option<String>,
    pub update_date: String,
    pub id: String,
    pub upper_work_files_type: String,
    pub extension: String,
    pub name_url: Option<String>,
    pub title: Option<String>,
    pub filesize: Option<String>,
    pub name: Option<String>,
    pub filepath: Option<String>,
    pub size: Option<String>,
}

impl FromJson for Content {
    /// The failure of the first member, in the order of the fields, that
    /// does not have the shape of its field.
    open spec fn failure(j: JsonView) -> Option<Seq<char>> {
        if field_failure::<String>(j, "workno"@) is Some {
            field_failure::<String>(j, "workno"@)
        } else if field_failure::<String>(j, "type"@) is Some {
            field_failure::<String>(j, "type"@)
        } else if field_failure::<String>(j, "file_name"@) is Some {
            field_failure::<String>(j, "file_name"@)
        } else if field_failure::<String>(j, "file_size"@) is Some {
            field_failure::<String>(j, "file_size"@)
        } else if field_failure::<Option<String>>(j, "file_size_unit"@) is Some {
            field_failure::<Option<String>>(j, "file_size_unit"@)
        } else if field_failure::<Option<String>>(j, "width"@) is Some {
            field_failure::<Option<String>>(j, "width"@)
        } else if field_failure::<Option<String>>(j, "height"@) is Some {
            field_failure::<Option<String>>(j, "height"@)
        } else if field_failure::<Option<String>>(j, "hash"@) is Some {
            field_failure::<Option<String>>(j, "hash"@)
        } else if field_failure::<Option<String>>(j, "display_mode"@) is Some {
            field_failure::<Option<String>>(j, "display_mode"@)
        } else if field_failure::<String>(j, "update_date"@) is Some {
            field_failure::<String>(j, "update_date"@)
        } else if field_failure::<String>(j, "id"@) is Some {
            field_failure::<String>(j, "id"@)
        } else if field_failure::<String>(j, "upper(work_files.type)"@) is Some {
            field_failure::<String>(j, "upper(work_files.type)"@)
        } else if field_failure::<String>(j, "extension"@) is Some {
            field_failure::<String>(j, "extension"@)
        } else if field_failure::<Option<String>>(j, "name_url"@) is Some {
            field_failure::<Option<String>>(j, "name_url"@)
        } else if field_failure::<Option<String>>(j, "title"@) is Some {
            field_failure::<Option<String>>(j, "title"@)
        } else if field_failure::<Option<String>>(j, "filesize"@) is Some {
            field_failure::<Option<String>>(j, "filesize"@)
        } else if field_failure::<Option<String>>(j, "name"@) is Some {
            field_failure::<Option<String>>(j, "name"@)
        } else if field_failure::<Option<String>>(j, "filepath"@) is Some {
            field_failure::<Option<String>>(j, "filepath"@)
        } else if field_failure::<Option<String>>(j, "size"@) is Some {
            field_failure::<Option<String>>(j, "size"@)
        } else {
            None
        }
    }

    open spec fn decoded_from(&self, j: JsonView) -> bool {
        &&& self.workno.decoded_from(field_value(j, "workno"@))
        &&& self.type_.decoded_from(field_value(j, "type"@))
        &&& self.file_name.decoded_from(field_value(j, "file_name"@))
        &&& self.file_size.decoded_from(field_value(j, "file_size"@))
        &&& self.file_size_unit.decoded_from(field_value(j, "file_size_unit"@))
        &&& self.width.decoded_from(field_value(j, "width"@))
        &&& self.height.decoded_from(field_value(j, "height"@))
        &&& self.hash.decoded_from(field_value(j, "hash"@))
        &&& self.display_mode.decoded_from(field_value(j, "display_mode"@))
        &&& self.update_date.decoded_from(field_value(j, "update_date"@))
        &&& self.id.decoded_from(field_value(j, "id"@))
        &&& self.upper_work_files_type.decoded_from(field_value(j, "upper(work_files.type)"@))
        &&& self.extension.decoded_from(field_value(j, "extension"@))
        &&& self.name_url.decoded_from(field_value(j, "name_url"@))
        &&& self.title.decoded_from(field_value(j, "title"@))
        &&& self.filesize.decoded_from(field_value(j, "filesize"@))
        &&& self.name.decoded_from(field_value(j, "name"@))
        &&& self.filepath.decoded_from(field_value(j, "filepath"@))
        &&& self.size.decoded_from(field_value(j, "size"@))
    }

    fn from_json(j: &Json) -> (r: Result<Content, DlsiteError>) {
        let workno = match field::<String>(j, "workno") {
            Ok(v) => v,
            Err(e) => {
                return Err(e);
            },
        };
        let type_ = match field::<String>(j, "type") {
            Ok(v) => v,
            Err(e) => {
                return Err(e);
            },
        };
        let file_name = match field::<String>(j, "file_name") {
            Ok(v) => v,
            Err(e) => {
                return Err(e);
            },
        };
        let file_size = match field::<String>(j, "file_size") {
            Ok(v) => v,
            Err(e) => {
                return Err(e);
            },
        };
        let file_size_unit = match field::<Option<String>>(j, "file_size_unit") {
            Ok(v) => v,
            Err(e) => {
                return Err(e);
            },
        };
        let width = match field::<Option<String>>(j, "width") {
            Ok(v) => v,
            Err(e) => {
                return Err(e);
            },
        };
        let height = match field::<Option<String>>(j, "height") {
            Ok(v) => v,
            Err(e) => {
                return Err(e);
            },
        };
        let hash = match field::<Option<String>>(j, "hash") {
            Ok(v) => v,
            Err(e) => {
                return Err(e);
            },
        };
        let display_mode = match field::<Option<String>>(j, "display_mode") {
            Ok(v) => v,
            Err(e) => {
                return Err(e);
            },
        };
        let update_date = match field::<String>(j, "update_date") {
            Ok(v) => v,
            Err(e) => {
                return Err(e);
            },
        };
        let id = match field::<String>(j, "id") {
            Ok(v) => v,
            Err(e) => {
                return Err(e);
            },
        };
        let upper_work_files_type = match field::<String>(j, "upper(work_files.type)") {
            Ok(v) => v,
            Err(e) => {
                return Err(e);
            },
        };
        let extension = match field::<String>(j, "extension") {
            Ok(v) => v,
            Err(e) => {
                return Err(e);
            },
        };
        let name_url = match field::<Option<String>>(j, "name_url") {
            Ok(v) => v,
            Err(e) => {
                return Err(e);
            },
        };
        let title = match field::<Option<String>>(j, "title") {
            Ok(v) => v,
            Err(e) => {
                return Err(e);
            },
        };
        let filesize = match field::<Option<String>>(j, "filesize") {
            Ok(v) => v,
            Err(e) => {
                return Err(e);
            },
        };
        let name = match field::<Option<String>>(j, "name") {
            Ok(v) => v,
            Err(e) => {
                return Err(e);
            },
        };
        let filepath = match field::<Option<String>>(j, "filepath") {
            Ok(v) => v,
            Err(e) => {
                return Err(e);
            },
        };
        let size = match field::<Option<String>>(j, "size") {
            Ok(v) => v,
            Err(e) => {
                return Err(e);
            },
        };
        Ok(Content { workno, type_, file_name, file_size, file_size_unit, width, height, hash, display_mode, update_date, id, upper_work_files_type, extension, name_url, title, filesize, name, filepath, size })
    }
}
/// A file that belongs to the presentation of a work, such as an image.
#[derive(Debug)]
pub struct File {
    pub workno: Option<String>,
    pub type_: Option<String>,
    pub file_name: Option<String>,
    pub file_size: Option<String>,
    pub file_size_unit: Option<String>,
    pub width: Option<String>,
    pub height: Option<String>,
    pub hash: Option<String>,
    pub display_mode: Option<String>,
    pub update_date: Option<String>,
    pub id: Option<String>,
    pub upper_work_files_type: Option<String>,
    pub extension: Option<String>,
    pub relative_url: Option<String>,
    pub path_short: Option<String>,
    pub url: String,
    pub resize_url: Option<String>,
}

impl FromJson for File {
    /// The failure of the first member, in the order of the fields, that
    /// does not have the shape of its field.
    open spec fn failure(j: JsonView) -> Option<Seq<char>> {
        if field_failure::<Option<String>>(j, "workno"@) is Some {
            field_failure::<Option<String>>(j, "workno"@)
        } else if field_failure::<Option<String>>(j, "type"@) is Some {
            field_failure::<Option<String>>(j, "type"@)
        } else if field_failure::<Option<String>>(j, "file_name"@) is Some {
            field_failure::<Option<String>>(j, "file_name"@)
        } else if field_failure::<Option<String>>(j, "file_size"@) is Some {
            field_failure::<Option<String>>(j, "file_size"@)
        } else if field_failure::<Option<String>>(j, "file_size_unit"@) is Some {
            field_failure::<Option<String>>(j, "file_size_unit"@)
        } else if field_failure::<Option<String>>(j, "width"@) is Some {
            field_failure::<Option<String>>(j, "width"@)
        } else if field_failure::<Option<String>>(j, "height"@) is Some {
            field_failure::<Option<String>>(j, "height"@)
        } else if field_failure::<Option<String>>(j, "hash"@) is Some {
            field_failure::<Option<String>>(j, "hash"@)
        } else if field_failure::<Option<String>>(j, "display_mode"@) is Some {
            field_failure::<Option<String>>(j, "display_mode"@)
        } else if field_failure::<Option<String>>(j, "update_date"@) is Some {
            field_failure::<Option<String>>(j, "update_date"@)
        } else if field_failure::<Option<String>>(j, "id"@) is Some {
            field_failure::<Option<String>>(j, "id"@)
        } else if field_failure::<Option<String>>(j, "upper(work_files.type)"@) is Some {
            field_failure::<Option<String>>(j, "upper(work_files.type)"@)
        } else if field_failure::<Option<String>>(j, "extension"@) is Some {
            field_failure::<Option<String>>(j, "extension"@)
        } else if field_failure::<Option<String>>(j, "relative_url"@) is Some {
            field_failure::<Option<String>>(j, "relative_url"@)
        } else if field_failure::<Option<String>>(j, "path_short"@) is Some {
            field_failure::<Option<String>>(j, "path_short"@)
        } else if field_failure::<String>(j, "url"@) is Some {
            field_failure::<String>(j, "url"@)
        } else if field_failure::<Option<String>>(j, "resize_url"@) is Some {
            field_failure::<Option<String>>(j, "resize_url"@)
        } else {
            None
        }
    }

    open spec fn decoded_from(&self, j: JsonView) -> bool {
        &&& self.workno.decoded_from(field_value(j, "workno"@))
        &&& self.type_.decoded_from(field_value(j, "type"@))
        &&& self.file_name.decoded_from(field_value(j, "file_name"@))
        &&& self.file_size.decoded_from(field_value(j, "file_size"@))
        &&& self.file_size_unit.decoded_from(field_value(j, "file_size_unit"@))
        &&& self.width.decoded_from(field_value(j, "width"@))
        &&& self.height.decoded_from(field_value(j, "height"@))
        &&& self.hash.decoded_from(field_value(j, "hash"@))
        &&& self.display_mode.decoded_from(field_value(j, "display_mode"@))
        &&& self.update_date.decoded_from(field_value(j, "update_date"@))
        &&& self.id.decoded_from(field_value(j, "id"@))
        &&& self.upper_work_files_type.decoded_from(field_value(j, "upper(work_files.type)"@))
        &&& self.extension.decoded_from(field_value(j, "extension"@))
        &&& self.relative_url.decoded_from(field_value(j, "relative_url"@))
        &&& self.path_short.decoded_from(field_value(j, "path_short"@))
        &&& self.url.decoded_from(field_value(j, "url"@))
        &&& self.resize_url.decoded_from(field_value(j, "resize_url"@))
    }

    fn from_json(j: &Json) -> (r: Result<File, DlsiteError>) {
        let workno = match field::<Option<String>>(j, "workno") {
            Ok(v) => v,
            Err(e) => {
                return Err(e);
            },
        };
        let type_ = match field::<Option<String>>(j, "type") {
            Ok(v) => v,
            Err(e) => {
                return Err(e);
            },
        };
        let file_name = match field::<Option<String>>(j, "file_name") {
            Ok(v) => v,
            Err(e) => {
                return Err(e);
            },
        };
        let file_size = match field::<Option<String>>(j, "file_size") {
            Ok(v) => v,
            Err(e) => {
                return Err(e);
            },
        };
        let file_size_unit = match field::<Option<String>>(j, "file_size_unit") {
            Ok(v) => v,
            Err(e) => {
                return Err(e);
            },
        };
        let width = match field::<Option<String>>(j, "width") {
            Ok(v) => v,
            Err(e) => {
                return Err(e);
            },
        };
        let height = match field::<Option<String>>(j, "height") {
            Ok(v) => v,
            Err(e) => {
                return Err(e);
            },
        };
        let hash = match field::<Option<String>>(j, "hash") {
            Ok(v) => v,
            Err(e) => {
                return Err(e);
            },
        };
        let display_mode = match field::<Option<String>>(j, "display_mode") {
            Ok(v) => v,
            Err(e) => {
                return Err(e);
            },
        };
        let update_date = match field::<Option<String>>(j, "update_date") {
            Ok(v) => v,
            Err(e) => {
                return Err(e);
            },
        };
        let id = match field::<Option<String>>(j, "id") {
            Ok(v) => v,
            Err(e) => {
                return Err(e);
            },
        };
        let upper_work_files_type = match field::<Option<String>>(j, "upper(work_files.type)") {
            Ok(v) => v,
            Err(e) => {
                return Err(e);
            },
        };
        let extension = match field::<Option<String>>(j, "extension") {
            Ok(v) => v,
            Err(e) => {
                return Err(e);
            },
        };
        let relative_url = match field::<Option<String>>(j, "relative_url") {
            Ok(v) => v,
            Err(e) => {
                return Err(e);
            },
        };
        let path_short = match field::<Option<String>>(j, "path_short") {
            Ok(v) => v,
            Err(e) => {
                return Err(e);
            },
        };
        let url = match field::<String>(j, "url") {
            Ok(v) => v,
            Err(e) => {
                return Err(e);
            },
        };
        let resize_url = match field::<Option<String>>(j, "resize_url") {
            Ok(v) => v,
            Err(e) => {
                return Err(e);
            },
        };
        Ok(File { workno, type_, file_name, file_size, file_size_unit, width, height, hash, display_mode, update_date, id, upper_work_files_type, extension, relative_url, path_short, url, resize_url })
    }
}
/// An image of a work.
#[derive(Debug)]
pub struct Image {
    pub id: Option<String>,
    pub file_name: Option<String>,
    pub height: Option<String>,
    pub update_date: Option<String>,
    pub file_size: Option<String>,
    pub hash: Option<String>,
    pub display_mode: Option<String>,
    pub relative_url: Option<String>,
    pub file_size_unit: Option<String>,
    pub width: Option<String>,
    pub path_short: Option<String>,
    pub upper_work_files_type: Option<String>,
    pub type_: Option<String>,
    pub resize_url: Option<String>,
    pub workno: Option<String>,
    pub extension: Option<String>,
    pub url: String,
}

impl FromJson for Image {
    /// The failure of the first member, in the order of the fields, that
    /// does not have the shape of its field.
    open spec fn failure(j: JsonView) -> Option<Seq<char>> {
        if field_failure::<Option<String>>(j, "id"@) is Some {
            field_failure::<Option<String>>(j, "id"@)
        } else if field_failure::<Option<String>>(j, "file_name"@) is Some {
            field_failure::<Option<String>>(j, "file_name"@)
        } else if field_failure::<Option<String>>(j, "height"@) is Some {
            field_failure::<Option<String>>(j, "height"@)
        } else if field_failure::<Option<String>>(j, "update_date"@) is Some {
            field_failure::<Option<String>>(j, "update_date"@)
        } else if field_failure::<Option<String>>(j, "file_size"@) is Some {
            field_failure::<Option<String>>(j, "file_size"@)
        } else if field_failure::<Option<String>>(j, "hash"@) is Some {
            field_failure::<Option<String>>(j, "hash"@)
        } else if field_failure::<Option<String>>(j, "display_mode"@) is Some {
            field_failure::<Option<String>>(j, "display_mode"@)
        } else if field_failure::<Option<String>>(j, "relative_url"@) is Some {
            field_failure::<Option<String>>(j, "relative_url"@)
        } else if field_failure::<Option<String>>(j, "file_size_unit"@) is Some {
            field_failure::<Option<String>>(j, "file_size_unit"@)
        } else if field_failure::<Option<String>>(j, "width"@) is Some {
            field_failure::<Option<String>>(j, "width"@)
        } else if field_failure::<Option<String>>(j, "path_short"@) is Some {
            field_failure::<Option<String>>(j, "path_short"@)
        } else if field_failure::<Option<String>>(j, "upper(work_files.type)"@) is Some {
            field_failure::<Option<String>>(j, "upper(work_files.type)"@)
        } else if field_failure::<Option<String>>(j, "type"@) is Some {
            field_failure::<Option<String>>(j, "type"@)
        } else if field_failure::<Option<String>>(j, "resize_url"@) is Some {
            field_failure::<Option<String>>(j, "resize_url"@)
        } else if field_failure::<Option<String>>(j, "workno"@) is Some {
            field_failure::<Option<String>>(j, "workno"@)
        } else if field_failure::<Option<String>>(j, "extension"@) is Some {
            field_failure::<Option<String>>(j, "extension"@)
        } else if field_failure::<String>(j, "url"@) is Some {
            field_failure::<String>(j, "url"@)
        } else {
            None
        }
    }

    open spec fn decoded_from(&self, j: JsonView) -> bool {
        &&& self.id.decoded_from(field_value(j, "id"@))
        &&& self.file_name.decoded_from(field_value(j, "file_name"@))
        &&& self.height.decoded_from(field_value(j, "height"@))
        &&& self.update_date.decoded_from(field_value(j, "update_date"@))
        &&& self.file_size.decoded_from(field_value(j, "file_size"@))
        &&& self.hash.decoded_from(field_value(j, "hash"@))
        &&& self.display_mode.decoded_from(field_value(j, "display_mode"@))
        &&& self.relative_url.decoded_from(field_value(j, "relative_url"@))
        &&& self.file_size_unit.decoded_from(field_value(j, "file_size_unit"@))
        &&& self.width.decoded_from(field_value(j, "width"@))
        &&& self.path_short.decoded_from(field_value(j, "path_short"@))
        &&& self.upper_work_files_type.decoded_from(field_value(j, "upper(work_files.type)"@))
        &&& self.type_.decoded_from(field_value(j, "type"@))
        &&& self.resize_url.decoded_from(field_value(j, "resize_url"@))
        &&& self.workno.decoded_from(field_value(j, "workno"@))
        &&& self.extension.decoded_from(field_value(j, "extension"@))
        &&& self.url.decoded_from(field_value(j, "url"@))
    }

    fn from_json(j: &Json) -> (r: Result<Image, DlsiteError>) {
        let id = match field::<Option<String>>(j, "id") {
            Ok(v) => v,
            Err(e) => {
                return Err(e);
            },
        };
        let file_name = match field::<Option<String>>(j, "file_name") {
            Ok(v) => v,
            Err(e) => {
                return Err(e);
            },
        };
        let height = match field::<Option<String>>(j, "height") {
            Ok(v) => v,
            Err(e) => {
                return Err(e);
            },
        };
        let update_date = match field::<Option<String>>(j, "update_date") {
            Ok(v) => v,
            Err(e) => {
                return Err(e);
            },
        };
        let file_size = match field::<Option<String>>(j, "file_size") {
            Ok(v) => v,
            Err(e) => {
                return Err(e);
            },
        };
        let hash = match field::<Option<String>>(j, "hash") {
            Ok(v) => v,
            Err(e) => {
                return Err(e);
            },
        };
        let display_mode = match field::<Option<String>>(j, "display_mode") {
            Ok(v) => v,
            Err(e) => {
                return Err(e);
            },
        };
        let relative_url = match field::<Option<String>>(j, "relative_url") {
            Ok(v) => v,
            Err(e) => {
                return Err(e);
            },
        };
        let file_size_unit = match field::<Option<String>>(j, "file_size_unit") {
            Ok(v) => v,
            Err(e) => {
                return Err(e);
            },
        };
        let width = match field::<Option<String>>(j, "width") {
            Ok(v) => v,
            Err(e) => {
                return Err(e);
            },
        };
        let path_short = match field::<Option<String>>(j, "path_short") {
            Ok(v) => v,
            Err(e) => {
                return Err(e);
            },
        };
        let upper_work_files_type = match field::<Option<String>>(j, "upper(work_files.type)") {
            Ok(v) => v,
            Err(e) => {
                return Err(e);
            },
        };
        let type_ = match field::<Option<String>>(j, "type") {
            Ok(v) => v,
            Err(e) => {
                return Err(e);
            },
        };
        let resize_url = match field::<Option<String>>(j, "resize_url") {
            Ok(v) => v,
            Err(e) => {
                return Err(e);
            },
        };
        let workno = match field::<Option<String>>(j, "workno") {
            Ok(v) => v,
            Err(e) => {
                return Err(e);
            },
        };
        let extension = match field::<Option<String>>(j, "extension") {
            Ok(v) => v,
            Err(e) => {
                return Err(e);
            },
        };
        let url = match field::<String>(j, "url") {
            Ok(v) => v,
            Err(e) => {
                return Err(e);
            },
        };
        Ok(Image { id, file_name, height, update_date, file_size, hash, display_mode, relative_url, file_size_unit, width, path_short, upper_work_files_type, type_, resize_url, workno, extension, url })
    }
}
/// The sample of an electronic book.
#[derive(Debug)]
pub struct EpubSample {
    pub volume_type: String,
    pub volume: Option<i64>,
}

impl FromJson for EpubSample {
    /// The failure of the first member, in the order of the fields, that
    /// does not have the shape of its field.
    open spec fn failure(j: JsonView) -> Option<Seq<char>> {
        if field_failure::<String>(j, "volume_type"@) is Some {
            field_failure::<String>(j, "volume_type"@)
        } else if field_failure::<Option<i64>>(j, "volume"@) is Some {
            field_failure::<Option<i64>>(j, "volume"@)
        } else {
            None
        }
    }

    open spec fn decoded_from(&self, j: JsonView) -> bool {
        &&& self.volume_type.decoded_from(field_value(j, "volume_type"@))
        &&& self.volume.decoded_from(field_value(j, "volume"@))
    }

    fn from_json(j: &Json) -> (r: Result<EpubSample, DlsiteError>) {
        let volume_type = match field::<String>(j, "volume_type") {
            Ok(v) => v,
            Err(e) => {
                return Err(e);
            },
        };
        let volume = match field::<Option<i64>>(j, "volume") {
            Ok(v) => v,
            Err(e) => {
                return Err(e);
            },
        };
        Ok(EpubSample { volume_type, volume })
    }
}
/// An option that a work is tagged with.
#[derive(Debug)]
pub struct WorkOption {
    pub id: String,
    pub options_id: String,
    pub value: String,
    pub name: String,
    pub name_en: String,
    pub display_sentence: Option<String>,
    pub display_sentence_en: Option<String>,
    pub category_id: String,
    pub category: String,
}

impl FromJson for WorkOption {
    /// The failure of the first member, in the order of the fields, that
    /// does not have the shape of its field.
    open spec fn failure(j: JsonView) -> Option<Seq<char>> {
        if field_failure::<String>(j, "id"@) is Some {
            field_failure::<String>(j, "id"@)
        } else if field_failure::<String>(j, "options_id"@) is Some {
            field_failure::<String>(j, "options_id"@)
        } else if field_failure::<String>(j, "value"@) is Some {
            field_failure::<String>(j, "value"@)
        } else if field_failure::<String>(j, "name"@) is Some {
            field_failure::<String>(j, "name"@)
        } else if field_failure::<String>(j, "name_en"@) is Some {
            field_failure::<String>(j, "name_en"@)
        } else if field_failure::<Option<String>>(j, "display_sentence"@) is Some {
            field_failure::<Option<String>>(j, "display_sentence"@)
        } else if field_failure::<Option<String>>(j, "display_sentence_en"@) is Some {
            field_failure::<Option<String>>(j, "display_sentence_en"@)
        } else if field_failure::<String>(j, "category_id"@) is Some {
            field_failure::<String>(j, "category_id"@)
        } else if field_failure::<String>(j, "category"@) is Some {
            field_failure::<String>(j, "category"@)
        } else {
            None
        }
    }

    open spec fn decoded_from(&self, j: JsonView) -> bool {
        &&& self.id.decoded_from(field_value(j, "id"@))
        &&& self.options_id.decoded_from(field_value(j, "options_id"@))
        &&& self.value.decoded_from(field_value(j, "value"@))
        &&& self.name.decoded_from(field_value(j, "name"@))
        &&& self.name_en.decoded_from(field_value(j, "name_en"@))
        &&& self.display_sentence.decoded_from(field_value(j, "display_sentence"@))
        &&& self.display_sentence_en.decoded_from(field_value(j, "display_sentence_en"@))
        &&& self.category_id.decoded_from(field_value(j, "category_id"@))
        &&& self.category.decoded_from(field_value(j, "category"@))
    }

    fn from_json(j: &Json) -> (r: Result<WorkOption, DlsiteError>) {
        let id = match field::<String>(j, "id") {
            Ok(v) => v,
            Err(e) => {
                return Err(e);
            },
        };
        let options_id = match field::<String>(j, "options_id") {
            Ok(v) => v,
            Err(e) => {
                return Err(e);
            },
        };
        let value = match field::<String>(j, "value") {
            Ok(v) => v,
            Err(e) => {
                return Err(e);
            },
        };
        let name = match field::<String>(j, "name") {
            Ok(v) => v,
            Err(e) => {
                return Err(e);
            },
        };
        let name_en = match field::<String>(j, "name_en") {
            Ok(v) => v,
            Err(e) => {
                return Err(e);
            },
        };
        let display_sentence = match field::<Option<String>>(j, "display_sentence") {
            Ok(v) => v,
            Err(e) => {
                return Err(e);
            },
        };
        let display_sentence_en = match field::<Option<String>>(j, "display_sentence_en") {
            Ok(v) => v,
            Err(e) => {
                return Err(e);
            },
        };
        let category_id = match field::<String>(j, "category_id") {
            Ok(v) => v,
            Err(e) => {
                return Err(e);
            },
        };
        let category = match field::<String>(j, "category") {
            Ok(v) => v,
            Err(e) => {
                return Err(e);
            },
        };
        Ok(WorkOption { id, options_id, value, name, name_en, display_sentence, display_sentence_en, category_id, category })
    }
}
/// A genre that a campaign defines.
#[derive(Debug)]
pub struct CustomGenre {
    pub genre_key: String,
    pub lang: String,
    pub name: String,
    pub layout: Json,
    pub status: String,
    pub is_active: i64,
    pub start_date: String,
    pub end_date: String,
}

impl FromJson for CustomGenre {
    /// The failure of the first member, in the order of the fields, that
    /// does not have the shape of its field.
    open spec fn failure(j: JsonView) -> Option<Seq<char>> {
        if field_failure::<String>(j, "genre_key"@) is Some {
            field_failure::<String>(j, "genre_key"@)
        } else if field_failure::<String>(j, "lang"@) is Some {
            field_failure::<String>(j, "lang"@)
        } else if field_failure::<String>(j, "name"@) is Some {
            field_failure::<String>(j, "name"@)
        } else if field_failure::<Json>(j, "layout"@) is Some {
            field_failure::<Json>(j, "layout"@)
        } else if field_failure::<String>(j, "status"@) is Some {
            field_failure::<String>(j, "status"@)
        } else if field_failure::<i64>(j, "is_active"@) is Some {
            field_failure::<i64>(j, "is_active"@)
        } else if field_failure::<String>(j, "start_date"@) is Some {
            field_failure::<String>(j, "start_date"@)
        } else if field_failure::<String>(j, "end_date"@) is Some {
            field_failure::<String>(j, "end_date"@)
        } else {
            None
        }
    }

    open spec fn decoded_from(&self, j: JsonView) -> bool {
        &&& self.genre_key.decoded_from(field_value(j, "genre_key"@))
        &&& self.lang.decoded_from(field_value(j, "lang"@))
        &&& self.name.decoded_from(field_value(j, "name"@))
        &&& self.layout.decoded_from(field_value(j, "layout"@))
        &&& self.status.decoded_from(field_value(j, "status"@))
        &&& self.is_active.decoded_from(field_value(j, "is_active"@))
        &&& self.start_date.decoded_from(field_value(j, "start_date"@))
        &&& self.end_date.decoded_from(field_value(j, "end_date"@))
    }

    fn from_json(j: &Json) -> (r: Result<CustomGenre, DlsiteError>) {
        let genre_key = match field::<String>(j, "genre_key") {
            Ok(v) => v,
            Err(e) => {
                return Err(e);
            },
        };
        let lang = match field::<String>(j, "lang") {
            Ok(v) => v,
            Err(e) => {
                return Err(e);
            },
        };
        let name = match field::<String>(j, "name") {
            Ok(v) => v,
            Err(e) => {
                return Err(e);
            },
        };
        let layout = match field::<Json>(j, "layout") {
            Ok(v) => v,
            Err(e) => {
                return Err(e);
            },
        };
        let status = match field::<String>(j, "status") {
            Ok(v) => v,
            Err(e) => {
                return Err(e);
            },
        };
        let is_active = match field::<i64>(j, "is_active") {
            Ok(v) => v,
            Err(e) => {
                return Err(e);
            },
        };
        let start_date = match field::<String>(j, "start_date") {
            Ok(v) => v,
            Err(e) => {
                return Err(e);
            },
        };
        let end_date = match field::<String>(j, "end_date") {
            Ok(v) => v,
            Err(e) => {
                return Err(e);
            },
        };
        Ok(CustomGenre { genre_key, lang, name, layout, status, is_active, start_date, end_date })
    }
}
/// How a work stands to its translations.
#[derive(Debug)]
pub struct TranslationInfo {
    pub is_translation_agree: bool,
    pub is_volunteer: bool,
    pub is_original: bool,
    pub is_parent: bool,
    pub is_child: bool,
    pub original_workno: Option<String>,
    pub parent_workno: Option<String>,
    pub child_worknos: Vec<String>,
    pub lang: Option<String>,
    pub translation_bonus_langs: Vec<Entry<TranslationBonus>>,
    pub is_translation_bonus_child: bool,
}

impl FromJson for TranslationInfo {
    /// The failure of the first member, in the order of the fields, that
    /// does not have the shape of its field.
    open spec fn failure(j: JsonView) -> Option<Seq<char>> {
        if field_failure::<bool>(j, "is_translation_agree"@) is Some {
            field_failure::<bool>(j, "is_translation_agree"@)
        } else if field_failure::<bool>(j, "is_volunteer"@) is Some {
            field_failure::<bool>(j, "is_volunteer"@)
        } else if field_failure::<bool>(j, "is_original"@) is Some {
            field_failure::<bool>(j, "is_original"@)
        } else if field_failure::<bool>(j, "is_parent"@) is Some {
            field_failure::<bool>(j, "is_parent"@)
        } else if field_failure::<bool>(j, "is_child"@) is Some {
            field_failure::<bool>(j, "is_child"@)
        } else if field_failure::<Option<String>>(j, "original_workno"@) is Some {
            field_failure::<Option<String>>(j, "original_workno"@)
        } else if field_failure::<Option<String>>(j, "parent_workno"@) is Some {
            field_failure::<Option<String>>(j, "parent_workno"@)
        } else if field_failure::<Vec<String>>(j, "child_worknos"@) is Some {
            field_failure::<Vec<String>>(j, "child_worknos"@)
        } else if field_failure::<Option<String>>(j, "lang"@) is Some {
            field_failure::<Option<String>>(j, "lang"@)
        } else if field_failure::<KeyedOrSeq<TranslationBonus>>(j, "translation_bonus_langs"@) is Some {
            field_failure::<KeyedOrSeq<TranslationBonus>>(j, "translation_bonus_langs"@)
        } else if field_failure::<bool>(j, "is_translation_bonus_child"@) is Some {
            field_failure::<bool>(j, "is_translation_bonus_child"@)
        } else {
            None
        }
    }

    open spec fn decoded_from(&self, j: JsonView) -> bool {
        &&& self.is_translation_agree.decoded_from(field_value(j, "is_translation_agree"@))
        &&& self.is_volunteer.decoded_from(field_value(j, "is_volunteer"@))
        &&& self.is_original.decoded_from(field_value(j, "is_original"@))
        &&& self.is_parent.decoded_from(field_value(j, "is_parent"@))
        &&& self.is_child.decoded_from(field_value(j, "is_child"@))
        &&& self.original_workno.decoded_from(field_value(j, "original_workno"@))
        &&& self.parent_workno.decoded_from(field_value(j, "parent_workno"@))
        &&& self.child_worknos.decoded_from(field_value(j, "child_worknos"@))
        &&& self.lang.decoded_from(field_value(j, "lang"@))
        &&& (KeyedOrSeq { entries: self.translation_bonus_langs }).decoded_from(field_value(j, "translation_bonus_langs"@))
        &&& self.is_translation_bonus_child.decoded_from(field_value(j, "is_translation_bonus_child"@))
    }

    fn from_json(j: &Json) -> (r: Result<TranslationInfo, DlsiteError>) {
        let is_translation_agree = match field::<bool>(j, "is_translation_agree") {
            Ok(v) => v,
            Err(e) => {
                return Err(e);
            },
        };
        let is_volunteer = match field::<bool>(j, "is_volunteer") {
            Ok(v) => v,
            Err(e) => {
                return Err(e);
            },
        };
        let is_original = match field::<bool>(j, "is_original") {
            Ok(v) => v,
            Err(e) => {
                return Err(e);
            },
        };
        let is_parent = match field::<bool>(j, "is_parent") {
            Ok(v) => v,
            Err(e) => {
                return Err(e);
            },
        };
        let is_child = match field::<bool>(j, "is_child") {
            Ok(v) => v,
            Err(e) => {
                return Err(e);
            },
        };
        let original_workno = match field::<Option<String>>(j, "original_workno") {
            Ok(v) => v,
            Err(e) => {
                return Err(e);
            },
        };
        let parent_workno = match field::<Option<String>>(j, "parent_workno") {
            Ok(v) => v,
            Err(e) => {
                return Err(e);
            },
        };
        let child_worknos = match field::<Vec<String>>(j, "child_worknos") {
            Ok(v) => v,
            Err(e) => {
                return Err(e);
            },
        };
        let lang = match field::<Option<String>>(j, "lang") {
            Ok(v) => v,
            Err(e) => {
                return Err(e);
            },
        };
        let translation_bonus_langs = match field::<KeyedOrSeq<TranslationBonus>>(j, "translation_bonus_langs") {
            Ok(v) => v.entries,
            Err(e) => {
                return Err(e);
            },
        };
        let is_translation_bonus_child = match field::<bool>(j, "is_translation_bonus_child") {
            Ok(v) => v,
            Err(e) => {
                return Err(e);
            },
        };
        Ok(TranslationInfo { is_translation_agree, is_volunteer, is_original, is_parent, is_child, original_workno, parent_workno, child_worknos, lang, translation_bonus_langs, is_translation_bonus_child })
    }
}
/// The bonus that a translation into one language earns.
#[derive(Debug)]
pub struct TranslationBonus {
    pub child_count: i32,
    pub price: i32,
    pub price_in_tax: i32,
    pub price_tax: i32,
    pub recipient_available_count: i32,
    pub recipient_max: i32,
    pub status: String,
}

impl FromJson for TranslationBonus {
    /// The failure of the first member, in the order of the fields, that
    /// does not have the shape of its field.
    open spec fn failure(j: JsonView) -> Option<Seq<char>> {
        if field_failure::<i32>(j, "child_count"@) is Some {
            field_failure::<i32>(j, "child_count"@)
        } else if field_failure::<i32>(j, "price"@) is Some {
            field_failure::<i32>(j, "price"@)
        } else if field_failure::<i32>(j, "price_in_tax"@) is Some {
            field_failure::<i32>(j, "price_in_tax"@)
        } else if field_failure::<i32>(j, "price_tax"@) is Some {
            field_failure::<i32>(j, "price_tax"@)
        } else if field_failure::<i32>(j, "recipient_available_count"@) is Some {
            field_failure::<i32>(j, "recipient_available_count"@)
        } else if field_failure::<i32>(j, "recipient_max"@) is Some {
            field_failure::<i32>(j, "recipient_max"@)
        } else if field_failure::<String>(j, "status"@) is Some {
            field_failure::<String>(j, "status"@)
        } else {
            None
        }
    }

    open spec fn decoded_from(&self, j: JsonView) -> bool {
        &&& self.child_count.decoded_from(field_value(j, "child_count"@))
        &&& self.price.decoded_from(field_value(j, "price"@))
        &&& self.price_in_tax.decoded_from(field_value(j, "price_in_tax"@))
        &&& self.price_tax.decoded_from(field_value(j, "price_tax"@))
        &&& self.recipient_available_count.decoded_from(field_value(j, "recipient_available_count"@))
        &&& self.recipient_max.decoded_from(field_value(j, "recipient_max"@))
        &&& self.status.decoded_from(field_value(j, "status"@))
    }

    fn from_json(j: &Json) -> (r: Result<TranslationBonus, DlsiteError>) {
        let child_count = match field::<i32>(j, "child_count") {
            Ok(v) => v,
            Err(e) => {
                return Err(e);
            },
        };
        let price = match field::<i32>(j, "price") {
            Ok(v) => v,
            Err(e) => {
                return Err(e);
            },
        };
        let price_in_tax = match field::<i32>(j, "price_in_tax") {
            Ok(v) => v,
            Err(e) => {
                return Err(e);
            },
        };
        let price_tax = match field::<i32>(j, "price_tax") {
            Ok(v) => v,
            Err(e) => {
                return Err(e);
            },
        };
        let recipient_available_count = match field::<i32>(j, "recipient_available_count") {
            Ok(v) => v,
            Err(e) => {
                return Err(e);
            },
        };
        let recipient_max = match field::<i32>(j, "recipient_max") {
            Ok(v) => v,
            Err(e) => {
                return Err(e);
            },
        };
        let status = match field::<String>(j, "status") {
            Ok(v) => v,
            Err(e) => {
                return Err(e);
            },
        };
        Ok(TranslationBonus { child_count, price, price_in_tax, price_tax, recipient_available_count, recipient_max, status })
    }
}
/// The reservation of a work that is not yet on sale.
#[derive(Debug)]
pub struct ReserveWork {
    pub workno: String,
    pub status: String,
    pub start_date: String,
    pub end_date: Option<String>,
    pub bonus_workno: Option<String>,
    pub bonus_end_date: Option<String>,
    pub tag: Option<String>,
    pub display_order: String,
    pub note: Option<String>,
    pub del_flg: String,
    pub update_date: String,
    pub insert_date: Option<String>,
}

impl FromJson for ReserveWork {
    /// The failure of the first member, in the order of the fields, that
    /// does not have the shape of its field.
    open spec fn failure(j: JsonView) -> Option<Seq<char>> {
        if field_failure::<String>(j, "workno"@) is Some {
            field_failure::<String>(j, "workno"@)
        } else if field_failure::<String>(j, "status"@) is Some {
            field_failure::<String>(j, "status"@)
        } else if field_failure::<String>(j, "start_date"@) is Some {
            field_failure::<String>(j, "start_date"@)
        } else if field_failure::<Option<String>>(j, "end_date"@) is Some {
            field_failure::<Option<String>>(j, "end_date"@)
        } else if field_failure::<Option<String>>(j, "bonus_workno"@) is Some {
            field_failure::<Option<String>>(j, "bonus_workno"@)
        } else if field_failure::<Option<String>>(j, "bonus_end_date"@) is Some {
            field_failure::<Option<String>>(j, "bonus_end_date"@)
        } else if field_failure::<Option<String>>(j, "tag"@) is Some {
            field_failure::<Option<String>>(j, "tag"@)
        } else if field_failure::<String>(j, "display_order"@) is Some {
            field_failure::<String>(j, "display_order"@)
        } else if field_failure::<Option<String>>(j, "note"@) is Some {
            field_failure::<Option<String>>(j, "note"@)
        } else if field_failure::<String>(j, "del_flg"@) is Some {
            field_failure::<String>(j, "del_flg"@)
        } else if field_failure::<String>(j, "update_date"@) is Some {
            field_failure::<String>(j, "update_date"@)
        } else if field_failure::<Option<String>>(j, "insert_date"@) is Some {
            field_failure::<Option<String>>(j, "insert_date"@)
        } else {
            None
        }
    }

    open spec fn decoded_from(&self, j: JsonView) -> bool {
        &&& self.workno.decoded_from(field_value(j, "workno"@))
        &&& self.status.decoded_from(field_value(j, "status"@))
        &&& self.start_date.decoded_from(field_value(j, "start_date"@))
        &&& self.end_date.decoded_from(field_value(j, "end_date"@))
        &&& self.bonus_workno.decoded_from(field_value(j, "bonus_workno"@))
        &&& self.bonus_end_date.decoded_from(field_value(j, "bonus_end_date"@))
        &&& self.tag.decoded_from(field_value(j, "tag"@))
        &&& self.display_order.decoded_from(field_value(j, "display_order"@))
        &&& self.note.decoded_from(field_value(j, "note"@))
        &&& self.del_flg.decoded_from(field_value(j, "del_flg"@))
        &&& self.update_date.decoded_from(field_value(j, "update_date"@))
        &&& self.insert_date.decoded_from(field_value(j, "insert_date"@))
    }

    fn from_json(j: &Json) -> (r: Result<ReserveWork, DlsiteError>) {
        let workno = match field::<String>(j, "workno") {
            Ok(v) => v,
            Err(e) => {
                return Err(e);
            },
        };
        let status = match field::<String>(j, "status") {
            Ok(v) => v,
            Err(e) => {
                return Err(e);
            },
        };
        let start_date = match field::<String>(j, "start_date") {
            Ok(v) => v,
            Err(e) => {
                return Err(e);
            },
        };
        let end_date = match field::<Option<String>>(j, "end_date") {
            Ok(v) => v,
            Err(e) => {
                return Err(e);
            },
        };
        let bonus_workno = match field::<Option<String>>(j, "bonus_workno") {
            Ok(v) => v,
            Err(e) => {
                return Err(e);
            },
        };
        let bonus_end_date = match field::<Option<String>>(j, "bonus_end_date") {
            Ok(v) => v,
            Err(e) => {
                return Err(e);
            },
        };
        let tag = match field::<Option<String>>(j, "tag") {
            Ok(v) => v,
            Err(e) => {
                return Err(e);
            },
        };
        let display_order = match field::<String>(j, "display_order") {
            Ok(v) => v,
            Err(e) => {
                return Err(e);
            },
        };
        let note = match field::<Option<String>>(j, "note") {
            Ok(v) => v,
            Err(e) => {
                return Err(e);
            },
        };
        let del_flg = match field::<String>(j, "del_flg") {
            Ok(v) => v,
            Err(e) => {
                return Err(e);
            },
        };
        let update_date = match field::<String>(j, "update_date") {
            Ok(v) => v,
            Err(e) => {
                return Err(e);
            },
        };
        let insert_date = match field::<Option<String>>(j, "insert_date") {
            Ok(v) => v,
            Err(e) => {
                return Err(e);
            },
        };
        Ok(ReserveWork { workno, status, start_date, end_date, bonus_workno, bonus_end_date, tag, display_order, note, del_flg, update_date, insert_date })
    }
}
/// The kind of book that a work is.
#[derive(Debug)]
pub struct BookType {
    pub id: String,
    pub options_id: String,
    pub value: String,
    pub name: String,
    pub name_en: String,
    pub display_sentence: Option<String>,
    pub display_sentence_en: Option<String>,
    pub category_id: String,
    pub category: String,
}

impl FromJson for BookType {
    /// The failure of the first member, in the order of the fields, that
    /// does not have the shape of its field.
    open spec fn failure(j: JsonView) -> Option<Seq<char>> {
        if field_failure::<String>(j, "id"@) is Some {
            field_failure::<String>(j, "id"@)
        } else if field_failure::<String>(j, "options_id"@) is Some {
            field_failure::<String>(j, "options_id"@)
        } else if field_failure::<String>(j, "value"@) is Some {
            field_failure::<String>(j, "value"@)
        } else if field_failure::<String>(j, "name"@) is Some {
            field_failure::<String>(j, "name"@)
        } else if field_failure::<String>(j, "name_en"@) is Some {
            field_failure::<String>(j, "name_en"@)
        } else if field_failure::<Option<String>>(j, "display_sentence"@) is Some {
            field_failure::<Option<String>>(j, "display_sentence"@)
        } else if field_failure::<Option<String>>(j, "display_sentence_en"@) is Some {
            field_failure::<Option<String>>(j, "display_sentence_en"@)
        } else if field_failure::<String>(j, "category_id"@) is Some {
            field_failure::<String>(j, "category_id"@)
        } else if field_failure::<String>(j, "category"@) is Some {
            field_failure::<String>(j, "category"@)
        } else {
            None
        }
    }

    open spec fn decoded_from(&self, j: JsonView) -> bool {
        &&& self.id.decoded_from(field_value(j, "id"@))
        &&& self.options_id.decoded_from(field_value(j, "options_id"@))
        &&& self.value.decoded_from(field_value(j, "value"@))
        &&& self.name.decoded_from(field_value(j, "name"@))
        &&& self.name_en.decoded_from(field_value(j, "name_en"@))
        &&& self.display_sentence.decoded_from(field_value(j, "display_sentence"@))
        &&& self.display_sentence_en.decoded_from(field_value(j, "display_sentence_en"@))
        &&& self.category_id.decoded_from(field_value(j, "category_id"@))
        &&& self.category.decoded_from(field_value(j, "category"@))
    }

    fn from_json(j: &Json) -> (r: Result<BookType, DlsiteError>) {
        let id = match field::<String>(j, "id") {
            Ok(v) => v,
            Err(e) => {
                return Err(e);
            },
        };
        let options_id = match field::<String>(j, "options_id") {
            Ok(v) => v,
            Err(e) => {
                return Err(e);
            },
        };
        let value = match field::<String>(j, "value") {
            Ok(v) => v,
            Err(e) => {
                return Err(e);
            },
        };
        let name = match field::<String>(j, "name") {
            Ok(v) => v,
            Err(e) => {
                return Err(e);
            },
        };
        let name_en = match field::<String>(j, "name_en") {
            Ok(v) => v,
            Err(e) => {
                return Err(e);
            },
        };
        let display_sentence = match field::<Option<String>>(j, "display_sentence") {
            Ok(v) => v,
            Err(e) => {
                return Err(e);
            },
        };
        let display_sentence_en = match field::<Option<String>>(j, "display_sentence_en") {
            Ok(v) => v,
            Err(e) => {
                return Err(e);
            },
        };
        let category_id = match field::<String>(j, "category_id") {
            Ok(v) => v,
            Err(e) => {
                return Err(e);
            },
        };
        let category = match field::<String>(j, "category") {
            Ok(v) => v,
            Err(e) => {
                return Err(e);
            },
        };
        Ok(BookType { id, options_id, value, name, name_en, display_sentence, display_sentence_en, category_id, category })
    }
}
/// A genre as the product interface writes it.
#[derive(Debug)]
pub struct Genre {
    pub name: String,
    pub id: i64,
    pub search_val: String,
    pub name_base: String,
}

impl FromJson for Genre {
    /// The failure of the first member, in the order of the fields, that
    /// does not have the shape of its field.
    open spec fn failure(j: JsonView) -> Option<Seq<char>> {
        if field_failure::<String>(j, "name"@) is Some {
            field_failure::<String>(j, "name"@)
        } else if field_failure::<i64>(j, "id"@) is Some {
            field_failure::<i64>(j, "id"@)
        } else if field_failure::<String>(j, "search_val"@) is Some {
            field_failure::<String>(j, "search_val"@)
        } else if field_failure::<String>(j, "name_base"@) is Some {
            field_failure::<String>(j, "name_base"@)
        } else {
            None
        }
    }

    open spec fn decoded_from(&self, j: JsonView) -> bool {
        &&& self.name.decoded_from(field_value(j, "name"@))
        &&& self.id.decoded_from(field_value(j, "id"@))
        &&& self.search_val.decoded_from(field_value(j, "search_val"@))
        &&& self.name_base.decoded_from(field_value(j, "name_base"@))
    }

    fn from_json(j: &Json) -> (r: Result<Genre, DlsiteError>) {
        let name = match field::<String>(j, "name") {
            Ok(v) => v,
            Err(e) => {
                return Err(e);
            },
        };
        let id = match field::<i64>(j, "id") {
            Ok(v) => v,
            Err(e) => {
                return Err(e);
            },
        };
        let search_val = match field::<String>(j, "search_val") {
            Ok(v) => v,
            Err(e) => {
                return Err(e);
            },
        };
        let name_base = match field::<String>(j, "name_base") {
            Ok(v) => v,
            Err(e) => {
                return Err(e);
            },
        };
        Ok(Genre { name, id, search_val, name_base })
    }
}
/// How a work is played in the browser.
#[derive(Debug)]
pub struct WorkBrowseSetting {
    pub play_encode_type: Option<String>,
}

impl FromJson for WorkBrowseSetting {
    /// The failure of the first member, in the order of the fields, that
    /// does not have the shape of its field.
    open spec fn failure(j: JsonView) -> Option<Seq<char>> {
        if field_failure::<Option<String>>(j, "play_encode_type"@) is Some {
            field_failure::<Option<String>>(j, "play_encode_type"@)
        } else {
            None
        }
    }

    open spec fn decoded_from(&self, j: JsonView) -> bool {
        &&& self.play_encode_type.decoded_from(field_value(j, "play_encode_type"@))
    }

    fn from_json(j: &Json) -> (r: Result<WorkBrowseSetting, DlsiteError>) {
        let play_encode_type = match field::<Option<String>>(j, "play_encode_type") {
            Ok(v) => v,
            Err(e) => {
                return Err(e);
            },
        };
        Ok(WorkBrowseSetting { play_encode_type })
    }
}
/// An author of a book.
#[derive(Debug)]
pub struct Author {
    pub author_id: String,
    pub sort_id: String,
    pub author_role_id: String,
    pub author_name_kana: String,
    pub other: Option<String>,
    pub url: String,
    pub author_name: String,
    pub author_role_name: String,
    pub author_role_omission_name: String,
    pub upper_books_work_author_author_id: Option<String>,
}

impl FromJson for Author {
    /// The failure of the first member, in the order of the fields, that
    /// does not have the shape of its field.
    open spec fn failure(j: JsonView) -> Option<Seq<char>> {
        if field_failure::<String>(j, "author_id"@) is Some {
            field_failure::<String>(j, "author_id"@)
        } else if field_failure::<String>(j, "sort_id"@) is Some {
            field_failure::<String>(j, "sort_id"@)
        } else if field_failure::<String>(j, "author_role_id"@) is Some {
            field_failure::<String>(j, "author_role_id"@)
        } else if field_failure::<String>(j, "author_name_kana"@) is Some {
            field_failure::<String>(j, "author_name_kana"@)
        } else if field_failure::<Option<String>>(j, "other"@) is Some {
            field_failure::<Option<String>>(j, "other"@)
        } else if field_failure::<String>(j, "url"@) is Some {
            field_failure::<String>(j, "url"@)
        } else if field_failure::<String>(j, "author_name"@) is Some {
            field_failure::<String>(j, "author_name"@)
        } else if field_failure::<String>(j, "author_role_name"@) is Some {
            field_failure::<String>(j, "author_role_name"@)
        } else if field_failure::<String>(j, "author_role_omission_name"@) is Some {
            field_failure::<String>(j, "author_role_omission_name"@)
        } else if field_failure::<Option<String>>(j, "upper(books_work_author.author_id)"@) is Some {
            field_failure::<Option<String>>(j, "upper(books_work_author.author_id)"@)
        } else {
            None
        }
    }

    open spec fn decoded_from(&self, j: JsonView) -> bool {
        &&& self.author_id.decoded_from(field_value(j, "author_id"@))
        &&& self.sort_id.decoded_from(field_value(j, "sort_id"@))
        &&& self.author_role_id.decoded_from(field_value(j, "author_role_id"@))
        &&& self.author_name_kana.decoded_from(field_value(j, "author_name_kana"@))
        &&& self.other.decoded_from(field_value(j, "other"@))
        &&& self.url.decoded_from(field_value(j, "url"@))
        &&& self.author_name.decoded_from(field_value(j, "author_name"@))
        &&& self.author_role_name.decoded_from(field_value(j, "author_role_name"@))
        &&& self.author_role_omission_name.decoded_from(field_value(j, "author_role_omission_name"@))
        &&& self.upper_books_work_author_author_id.decoded_from(field_value(j, "upper(books_work_author.author_id)"@))
    }

    fn from_json(j: &Json) -> (r: Result<Author, DlsiteError>) {
        let author_id = match field::<String>(j, "author_id") {
            Ok(v) => v,
            Err(e) => {
                return Err(e);
            },
        };
        let sort_id = match field::<String>(j, "sort_id") {
            Ok(v) => v,
            Err(e) => {
                return Err(e);
            },
        };
        let author_role_id = match field::<String>(j, "author_role_id") {
            Ok(v) => v,
            Err(e) => {
                return Err(e);
            },
        };
        let author_name_kana = match field::<String>(j, "author_name_kana") {
            Ok(v) => v,
            Err(e) => {
                return Err(e);
            },
        };
        let other = match field::<Option<String>>(j, "other") {
            Ok(v) => v,
            Err(e) => {
                return Err(e);
            },
        };
        let url = match field::<String>(j, "url") {
            Ok(v) => v,
            Err(e) => {
                return Err(e);
            },
        };
        let author_name = match field::<String>(j, "author_name") {
            Ok(v) => v,
            Err(e) => {
                return Err(e);
            },
        };
        let author_role_name = match field::<String>(j, "author_role_name") {
            Ok(v) => v,
            Err(e) => {
                return Err(e);
            },
        };
        let author_role_omission_name = match field::<String>(j, "author_role_omission_name") {
            Ok(v) => v,
            Err(e) => {
                return Err(e);
            },
        };
        let upper_books_work_author_author_id = match field::<Option<String>>(j, "upper(books_work_author.author_id)") {
            Ok(v) => v,
            Err(e) => {
                return Err(e);
            },
        };
        Ok(Author { author_id, sort_id, author_role_id, author_name_kana, other, url, author_name, author_role_name, author_role_omission_name, upper_books_work_author_author_id })
    }
}
/// The people who made a work, by their part in it.
#[derive(Debug)]
pub struct Creators {
    pub created_by: Option<Vec<Creator>>,
    pub voice_by: Option<Vec<Creator>>,
    pub illust_by: Option<Vec<Creator>>,
    pub scenario_by: Option<Vec<Creator>>,
}

impl FromJson for Creators {
    /// The failure of the first member, in the order of the fields, that
    /// does not have the shape of its field.
    open spec fn failure(j: JsonView) -> Option<Seq<char>> {
        if field_failure::<Option<Vec<Creator>>>(j, "created_by"@) is Some {
            field_failure::<Option<Vec<Creator>>>(j, "created_by"@)
        } else if field_failure::<Option<Vec<Creator>>>(j, "voice_by"@) is Some {
            field_failure::<Option<Vec<Creator>>>(j, "voice_by"@)
        } else if field_failure::<Option<Vec<Creator>>>(j, "illust_by"@) is Some {
            field_failure::<Option<Vec<Creator>>>(j, "illust_by"@)
        } else if field_failure::<Option<Vec<Creator>>>(j, "scenario_by"@) is Some {
            field_failure::<Option<Vec<Creator>>>(j, "scenario_by"@)
        } else {
            None
        }
    }

    open spec fn decoded_from(&self, j: JsonView) -> bool {
        &&& self.created_by.decoded_from(field_value(j, "created_by"@))
        &&& self.voice_by.decoded_from(field_value(j, "voice_by"@))
        &&& self.illust_by.decoded_from(field_value(j, "illust_by"@))
        &&& self.scenario_by.decoded_from(field_value(j, "scenario_by"@))
    }

    fn from_json(j: &Json) -> (r: Result<Creators, DlsiteError>) {
        let created_by = match field::<Option<Vec<Creator>>>(j, "created_by") {
            Ok(v) => v,
            Err(e) => {
                return Err(e);
            },
        };
        let voice_by = match field::<Option<Vec<Creator>>>(j, "voice_by") {
            Ok(v) => v,
            Err(e) => {
                return Err(e);
            },
        };
        let illust_by = match field::<Option<Vec<Creator>>>(j, "illust_by") {
            Ok(v) => v,
            Err(e) => {
                return Err(e);
            },
        };
        let scenario_by = match field::<Option<Vec<Creator>>>(j, "scenario_by") {
            Ok(v) => v,
            Err(e) => {
                return Err(e);
            },
        };
        Ok(Creators { created_by, voice_by, illust_by, scenario_by })
    }
}
/// One of the people who made a work.
#[derive(Debug)]
pub struct Creator {
    pub id: String,
    pub name: String,
    pub classification: String,
    pub sub_classification: Option<String>,
}

impl FromJson for Creator {
    /// The failure of the first member, in the order of the fields, that
    /// does not have the shape of its field.
    open spec fn failure(j: JsonView) -> Option<Seq<char>> {
        if field_failure::<String>(j, "id"@) is Some {
            field_failure::<String>(j, "id"@)
        } else if field_failure::<String>(j, "name"@) is Some {
            field_failure::<String>(j, "name"@)
        } else if field_failure::<String>(j, "classification"@) is Some {
            field_failure::<String>(j, "classification"@)
        } else if field_failure::<Option<String>>(j, "sub_classification"@) is Some {
            field_failure::<Option<String>>(j, "sub_classification"@)
        } else {
            None
        }
    }

    open spec fn decoded_from(&self, j: JsonView) -> bool {
        &&& self.id.decoded_from(field_value(j, "id"@))
        &&& self.name.decoded_from(field_value(j, "name"@))
        &&& self.classification.decoded_from(field_value(j, "classification"@))
        &&& self.sub_classification.decoded_from(field_value(j, "sub_classification"@))
    }

    fn from_json(j: &Json) -> (r: Result<Creator, DlsiteError>) {
        let id = match field::<String>(j, "id") {
            Ok(v) => v,
            Err(e) => {
                return Err(e);
            },
        };
        let name = match field::<String>(j, "name") {
            Ok(v) => v,
            Err(e) => {
                return Err(e);
            },
        };
        let classification = match field::<String>(j, "classification") {
            Ok(v) => v,
            Err(e) => {
                return Err(e);
            },
        };
        let sub_classification = match field::<Option<String>>(j, "sub_classification") {
            Ok(v) => v,
            Err(e) => {
                return Err(e);
            },
        };
        Ok(Creator { id, name, classification, sub_classification })
    }
}
} // verus!
