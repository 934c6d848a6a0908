//! The options of a listing of a circle's works, and the path that asks
//! for them.

use crate::search::options::{
    option_indexed, option_pair, push_option, push_option_array, Order,
};
use vstd::prelude::*;

verus! {

/// What a listing of a circle's works asks for.
#[derive(Debug)]
pub struct CircleQueryOptions {
    pub order: Option<Order>,
    pub options: Option<Vec<String>>,
    /// 30, 50 or 100.
    pub per_page: Option<u32>,
    pub page: Option<u32>,
}

impl Default for CircleQueryOptions {
    fn default() -> (r: CircleQueryOptions)
        ensures
            r.order is None,
            r.options is None,
            r.per_page is None,
            r.page is None,
    {
        CircleQueryOptions { order: None, options: None, per_page: None, page: None }
    }
}

impl CircleQueryOptions {
    /// The path of the listing for the circle `circle_id`. The page size is
    /// written twice.
    pub open spec fn path(&self, circle_id: Seq<char>) -> Seq<char> {
        "/circle/profile/="@ + option_indexed("options"@, self.options) + option_pair(
            "per_page"@,
            self.per_page,
        ) + option_pair("per_page"@, self.per_page) + "/show_type/3/hd/1/without_order/1"@
            + option_pair("page"@, self.page) + "/maker_id/"@ + circle_id + ".html"@ + option_pair(
            "order"@,
            self.order,
        )
    }

    /// The path that asks for this listing.
    pub fn to_path(&self, circle_id: &str) -> (path: String)
        ensures
            path@ == self.path(circle_id@),
    {
        let mut path = "/circle/profile/=".to_owned();
        push_option_array(&mut path, "options", &self.options);
        push_option(&mut path, "per_page", &self.per_page);
        push_option(&mut path, "per_page", &self.per_page);
        path.append("/show_type/3/hd/1/without_order/1");
        push_option(&mut path, "page", &self.page);
        path.append("/maker_id/");
        path.append(circle_id);
        path.append(".html");
        push_option(&mut path, "order", &self.order);
        path
    }
}

} // verus!
