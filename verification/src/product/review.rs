//! The review payload of a product.

use crate::common::Genre;
use crate::error::DlsiteError;
use crate::json::{json_of_text, parse_json, Json, JsonView};
use crate::shape::{
    field, field_failure, field_value, present_failure, present_field, FromJson, Keyed,
};
use crate::text::{decimal_digits, decimal_string, parse_i32, parsed_i32};
use vstd::prelude::*;

verus! {

/// The order in which reviews are asked for.
#[derive(Debug, Clone, Copy, PartialEq, Eq, Structural)]
pub enum ReviewSortOrder {
    /// Newest first.
    New,
    /// Most helpful first.
    Top,
}

impl ReviewSortOrder {
    /// What a path writes for this order.
    pub open spec fn code(&self) -> Seq<char> {
        match self {
            ReviewSortOrder::New => "regist_d"@,
            ReviewSortOrder::Top => "top"@,
        }
    }

    pub fn to_string(&self) -> (r: String)
        ensures
            r@ == self.code(),
    {
        match self {
            ReviewSortOrder::New => "regist_d".to_owned(),
            ReviewSortOrder::Top => "top".to_owned(),
        }
    }
}

/// The genres that a buyer chose, as the payload writes them: a map from
/// identifier to name, which may be null or missing.
#[derive(Debug)]
pub struct GenreMap {
    pub genres: Vec<Genre>,
}

impl FromJson for GenreMap {
    open spec fn failure(j: JsonView) -> Option<Seq<char>> {
        Option::<Keyed<String>>::failure(j)
    }

    /// Each member is a genre: its key the identifier, its value the name.
    /// Null is no genre at all.
    open spec fn decoded_from(&self, j: JsonView) -> bool {
        match j {
            JsonView::Object(members) => {
                &&& self.genres.len() == members.len()
                &&& forall|i: int|
                    0 <= i < members.len() ==> (#[trigger] self.genres[i]).id@ == members[i].name
                        && JsonView::Str(self.genres[i].name@) == members[i].value
            },
            _ => self.genres.len() == 0,
        }
    }

    fn from_json(j: &Json) -> (r: Result<GenreMap, DlsiteError>) {
        match Option::<Keyed<String>>::from_json(j) {
            Ok(Some(keyed)) => {
                let mut entries = keyed.entries;
                let ghost all = entries@;
                let ghost members = j.deep_view()->Object_0;
                let mut genres: Vec<Genre> = Vec::new();
                while entries.len() > 0
                    invariant
                        all.len() == members.len(),
                        forall|k: int|
                            0 <= k < all.len() ==> (#[trigger] all[k]).key@ == members[k].name
                                && JsonView::Str(all[k].value@) == members[k].value,
                        genres.len() + entries.len() == all.len(),
                        forall|k: int|
                            0 <= k < entries.len() ==> (#[trigger] entries[k]) == all[genres.len()
                                + k],
                        forall|k: int|
                            0 <= k < genres.len() ==> (#[trigger] genres[k]).id@ == members[k].name
                                && JsonView::Str(genres[k].name@) == members[k].value,
                    decreases entries.len(),
                {
                    let entry = entries.remove(0);
                    genres.push(Genre { name: entry.value, id: entry.key });
                }
                Ok(GenreMap { genres })
            },
            Ok(None) => Ok(GenreMap { genres: Vec::new() }),
            Err(e) => Err(e),
        }
    }
}

/// A genre and how many buyers chose it, as the payload writes them: all
/// three as strings.
#[derive(Debug)]
pub struct ReviewerGenre {
    pub genre: String,
    pub genre_count: String,
    pub name: String,
}

impl FromJson for ReviewerGenre {
    /// The failure of the first member, in the order of the fields, that
    /// does not have the shape of its field.
    open spec fn failure(j: JsonView) -> Option<Seq<char>> {
        if field_failure::<String>(j, "genre"@) is Some {
            field_failure::<String>(j, "genre"@)
        } else if field_failure::<String>(j, "genre_count"@) is Some {
            field_failure::<String>(j, "genre_count"@)
        } else if field_failure::<String>(j, "name"@) is Some {
            field_failure::<String>(j, "name"@)
        } else {
            None
        }
    }

    open spec fn decoded_from(&self, j: JsonView) -> bool {
        &&& self.genre.decoded_from(field_value(j, "genre"@))
        &&& self.genre_count.decoded_from(field_value(j, "genre_count"@))
        &&& self.name.decoded_from(field_value(j, "name"@))
    }

    fn from_json(j: &Json) -> (r: Result<ReviewerGenre, DlsiteError>) {
        let genre = match field::<String>(j, "genre") {
            Ok(v) => v,
            Err(e) => {
                return Err(e);
            },
        };
        let genre_count = match field::<String>(j, "genre_count") {
            Ok(v) => v,
            Err(e) => {
                return Err(e);
            },
        };
        let name = match field::<String>(j, "name") {
            Ok(v) => v,
            Err(e) => {
                return Err(e);
            },
        };
        Ok(ReviewerGenre { genre, genre_count, name })
    }
}
/// The string that `j` writes; the empty one where it writes none.
pub open spec fn text_of(j: JsonView) -> Seq<char> {
    match j {
        JsonView::Str(s) => s,
        _ => Seq::empty(),
    }
}

/// The count that `text` writes; 0 where it writes none. The count is one
/// of the few values that fall back to a default: a count that cannot be
/// read fails nothing.
pub open spec fn count_or_zero(text: Seq<char>) -> i32 {
    match parsed_i32(text) {
        Some(n) => n,
        None => 0,
    }
}

/// The genres that the buyers chose, with their counts. The list may be
/// null, but not missing. A count that does not read as a number is taken
/// as 0, and is no failure: it is a value that is known to be unstable.
#[derive(Debug)]
pub struct ReviewerGenres {
    pub list: Option<Vec<(Genre, i32)>>,
}

impl FromJson for ReviewerGenres {
    open spec fn failure(j: JsonView) -> Option<Seq<char>> {
        Option::<Vec<ReviewerGenre>>::failure(j)
    }

    open spec fn decoded_from(&self, j: JsonView) -> bool {
        match j {
            JsonView::Array(items) => {
                &&& self.list is Some
                &&& self.list->0.len() == items.len()
                &&& forall|i: int|
                    0 <= i < items.len() ==> {
                        let pair = #[trigger] self.list->0[i];
                        &&& JsonView::Str(pair.0.id@) == field_value(items[i], "genre"@)
                        &&& JsonView::Str(pair.0.name@) == field_value(items[i], "name"@)
                        &&& pair.1 == count_or_zero(text_of(field_value(items[i], "genre_count"@)))
                    }
            },
            _ => self.list is None,
        }
    }

    fn from_json(j: &Json) -> (r: Result<ReviewerGenres, DlsiteError>) {
        match Option::<Vec<ReviewerGenre>>::from_json(j) {
            Ok(Some(read)) => {
                let mut read = read;
                let ghost all = read@;
                let ghost items = j.deep_view()->Array_0;
                let mut list: Vec<(Genre, i32)> = Vec::new();
                while read.len() > 0
                    invariant
                        all.len() == items.len(),
                        forall|k: int|
                            0 <= k < all.len() ==> (#[trigger] all[k]).decoded_from(items[k]),
                        list.len() + read.len() == all.len(),
                        forall|k: int|
                            0 <= k < read.len() ==> (#[trigger] read[k]) == all[list.len() + k],
                        forall|k: int|
                            0 <= k < list.len() ==> {
                                let pair = #[trigger] list[k];
                                &&& JsonView::Str(pair.0.id@) == field_value(items[k], "genre"@)
                                &&& JsonView::Str(pair.0.name@) == field_value(items[k], "name"@)
                                &&& pair.1 == count_or_zero(
                                    text_of(field_value(items[k], "genre_count"@)),
                                )
                            },
                    decreases read.len(),
                {
                    let one = read.remove(0);
                    let count = match parse_i32(one.genre_count.as_str()) {
                        Some(n) => n,
                        None => 0,
                    };
                    proof {
                        assert(JsonView::Str(one.genre_count@) == field_value(
                            items[list.len() as int],
                            "genre_count"@,
                        ));
                    }
                    list.push((Genre { name: one.name, id: one.genre }, count));
                }
                Ok(ReviewerGenres { list: Some(list) })
            },
            Ok(None) => Ok(ReviewerGenres { list: None }),
            Err(e) => Err(e),
        }
    }
}

/// A review of a work.
#[derive(Debug)]
pub struct Review {
    pub member_review_id: String,
    pub workno: String,
    pub reviewer_id: String,
    pub status: String,
    pub recommend: String,
    pub spoiler: String,
    pub review_title: String,
    pub review_text: String,
    pub entry_date: String,
    pub regist_date: String,
    pub good_review: String,
    pub bad_review: String,
    pub circle_id: Option<String>,
    pub nick_name: Option<String>,
    pub popularity: Option<String>,
    pub rate: Option<String>,
    pub circle_name: Option<String>,
    pub top_sort_key: Option<String>,
    pub reviewer_status: String,
    pub is_purchased: String,
    pub rate_num: String,
    pub reviewer_rank: String,
    pub genre: Vec<Genre>,
}

impl FromJson for Review {
    /// The failure of the first member, in the order of the fields, that
    /// does not have the shape of its field.
    open spec fn failure(j: JsonView) -> Option<Seq<char>> {
        if field_failure::<String>(j, "member_review_id"@) is Some {
            field_failure::<String>(j, "member_review_id"@)
        } else if field_failure::<String>(j, "workno"@) is Some {
            field_failure::<String>(j, "workno"@)
        } else if field_failure::<String>(j, "reviewer_id"@) is Some {
            field_failure::<String>(j, "reviewer_id"@)
        } else if field_failure::<String>(j, "status"@) is Some {
            field_failure::<String>(j, "status"@)
        } else if field_failure::<String>(j, "recommend"@) is Some {
            field_failure::<String>(j, "recommend"@)
        } else if field_failure::<String>(j, "spoiler"@) is Some {
            field_failure::<String>(j, "spoiler"@)
        } else if field_failure::<String>(j, "review_title"@) is Some {
            field_failure::<String>(j, "review_title"@)
        } else if field_failure::<String>(j, "review_text"@) is Some {
            field_failure::<String>(j, "review_text"@)
        } else if field_failure::<String>(j, "entry_date"@) is Some {
            field_failure::<String>(j, "entry_date"@)
        } else if field_failure::<String>(j, "regist_date"@) is Some {
            field_failure::<String>(j, "regist_date"@)
        } else if field_failure::<String>(j, "good_review"@) is Some {
            field_failure::<String>(j, "good_review"@)
        } else if field_failure::<String>(j, "bad_review"@) is Some {
            field_failure::<String>(j, "bad_review"@)
        } else if field_failure::<Option<String>>(j, "circle_id"@) is Some {
            field_failure::<Option<String>>(j, "circle_id"@)
        } else if field_failure::<Option<String>>(j, "nick_name"@) is Some {
            field_failure::<Option<String>>(j, "nick_name"@)
        } else if field_failure::<Option<String>>(j, "popularity"@) is Some {
            field_failure::<Option<String>>(j, "popularity"@)
        } else if field_failure::<Option<String>>(j, "rate"@) is Some {
            field_failure::<Option<String>>(j, "rate"@)
        } else if field_failure::<Option<String>>(j, "circle_name"@) is Some {
            field_failure::<Option<String>>(j, "circle_name"@)
        } else if field_failure::<Option<String>>(j, "top_sort_key"@) is Some {
            field_failure::<Option<String>>(j, "top_sort_key"@)
        } else if field_failure::<String>(j, "reviewer_status"@) is Some {
            field_failure::<String>(j, "reviewer_status"@)
        } else if field_failure::<String>(j, "is_purchased"@) is Some {
            field_failure::<String>(j, "is_purchased"@)
        } else if field_failure::<String>(j, "rate_num"@) is Some {
            field_failure::<String>(j, "rate_num"@)
        } else if field_failure::<String>(j, "reviewer_rank"@) is Some {
            field_failure::<String>(j, "reviewer_rank"@)
        } else if field_failure::<GenreMap>(j, "genre"@) is Some {
            field_failure::<GenreMap>(j, "genre"@)
        } else {
            None
        }
    }

    open spec fn decoded_from(&self, j: JsonView) -> bool {
        &&& self.member_review_id.decoded_from(field_value(j, "member_review_id"@))
        &&& self.workno.decoded_from(field_value(j, "workno"@))
        &&& self.reviewer_id.decoded_from(field_value(j, "reviewer_id"@))
        &&& self.status.decoded_from(field_value(j, "status"@))
        &&& self.recommend.decoded_from(field_value(j, "recommend"@))
        &&& self.spoiler.decoded_from(field_value(j, "spoiler"@))
        &&& self.review_title.decoded_from(field_value(j, "review_title"@))
        &&& self.review_text.decoded_from(field_value(j, "review_text"@))
        &&& self.entry_date.decoded_from(field_value(j, "entry_date"@))
        &&& self.regist_date.decoded_from(field_value(j, "regist_date"@))
        &&& self.good_review.decoded_from(field_value(j, "good_review"@))
        &&& self.bad_review.decoded_from(field_value(j, "bad_review"@))
        &&& self.circle_id.decoded_from(field_value(j, "circle_id"@))
        &&& self.nick_name.decoded_from(field_value(j, "nick_name"@))
        &&& self.popularity.decoded_from(field_value(j, "popularity"@))
        &&& self.rate.decoded_from(field_value(j, "rate"@))
        &&& self.circle_name.decoded_from(field_value(j, "circle_name"@))
        &&& self.top_sort_key.decoded_from(field_value(j, "top_sort_key"@))
        &&& self.reviewer_status.decoded_from(field_value(j, "reviewer_status"@))
        &&& self.is_purchased.decoded_from(field_value(j, "is_purchased"@))
        &&& self.rate_num.decoded_from(field_value(j, "rate_num"@))
        &&& self.reviewer_rank.decoded_from(field_value(j, "reviewer_rank"@))
        &&& (GenreMap { genres: self.genre }).decoded_from(field_value(j, "genre"@))
    }

    fn from_json(j: &Json) -> (r: Result<Review, DlsiteError>) {
        let member_review_id = match field::<String>(j, "member_review_id") {
            Ok(v) => v,
            Err(e) => {
                return Err(e);
            },
        };
        let workno = match field::<String>(j, "workno") {
            Ok(v) => v,
            Err(e) => {
                return Err(e);
            },
        };
        let reviewer_id = match field::<String>(j, "reviewer_id") {
            Ok(v) => v,
            Err(e) => {
                return Err(e);
            },
        };
        let status = match field::<String>(j, "status") {
            Ok(v) => v,
            Err(e) => {
                return Err(e);
            },
        };
        let recommend = match field::<String>(j, "recommend") {
            Ok(v) => v,
            Err(e) => {
                return Err(e);
            },
        };
        let spoiler = match field::<String>(j, "spoiler") {
            Ok(v) => v,
            Err(e) => {
                return Err(e);
            },
        };
        let review_title = match field::<String>(j, "review_title") {
            Ok(v) => v,
            Err(e) => {
                return Err(e);
            },
        };
        let review_text = match field::<String>(j, "review_text") {
            Ok(v) => v,
            Err(e) => {
                return Err(e);
            },
        };
        let entry_date = match field::<String>(j, "entry_date") {
            Ok(v) => v,
            Err(e) => {
                return Err(e);
            },
        };
        let regist_date = match field::<String>(j, "regist_date") {
            Ok(v) => v,
            Err(e) => {
                return Err(e);
            },
        };
        let good_review = match field::<String>(j, "good_review") {
            Ok(v) => v,
            Err(e) => {
                return Err(e);
            },
        };
        let bad_review = match field::<String>(j, "bad_review") {
            Ok(v) => v,
            Err(e) => {
                return Err(e);
            },
        };
        let circle_id = match field::<Option<String>>(j, "circle_id") {
            Ok(v) => v,
            Err(e) => {
                return Err(e);
            },
        };
        let nick_name = match field::<Option<String>>(j, "nick_name") {
            Ok(v) => v,
            Err(e) => {
                return Err(e);
            },
        };
        let popularity = match field::<Option<String>>(j, "popularity") {
            Ok(v) => v,
            Err(e) => {
                return Err(e);
            },
        };
        let rate = match field::<Option<String>>(j, "rate") {
            Ok(v) => v,
            Err(e) => {
                return Err(e);
            },
        };
        let circle_name = match field::<Option<String>>(j, "circle_name") {
            Ok(v) => v,
            Err(e) => {
                return Err(e);
            },
        };
        let top_sort_key = match field::<Option<String>>(j, "top_sort_key") {
            Ok(v) => v,
            Err(e) => {
                return Err(e);
            },
        };
        let reviewer_status = match field::<String>(j, "reviewer_status") {
            Ok(v) => v,
            Err(e) => {
                return Err(e);
            },
        };
        let is_purchased = match field::<String>(j, "is_purchased") {
            Ok(v) => v,
            Err(e) => {
                return Err(e);
            },
        };
        let rate_num = match field::<String>(j, "rate_num") {
            Ok(v) => v,
            Err(e) => {
                return Err(e);
            },
        };
        let reviewer_rank = match field::<String>(j, "reviewer_rank") {
            Ok(v) => v,
            Err(e) => {
                return Err(e);
            },
        };
        let genre = match field::<GenreMap>(j, "genre") {
            Ok(v) => v.genres,
            Err(e) => {
                return Err(e);
            },
        };
        Ok(Review { member_review_id, workno, reviewer_id, status, recommend, spoiler, review_title, review_text, entry_date, regist_date, good_review, bad_review, circle_id, nick_name, popularity, rate, circle_name, top_sort_key, reviewer_status, is_purchased, rate_num, reviewer_rank, genre })
    }
}
/// The reviews of a work, and what the buyers chose as its genres.
#[derive(Debug)]
pub struct ProductReview {
    pub is_success: bool,
    pub error_msg: String,
    pub review_list: Vec<Review>,
    pub reviewer_genre_list: Option<Vec<(Genre, i32)>>,
}

impl FromJson for ProductReview {
    /// The failure of the first member, in the order of the fields, that
    /// does not have the shape of its field.
    open spec fn failure(j: JsonView) -> Option<Seq<char>> {
        if field_failure::<bool>(j, "is_success"@) is Some {
            field_failure::<bool>(j, "is_success"@)
        } else if field_failure::<String>(j, "error_msg"@) is Some {
            field_failure::<String>(j, "error_msg"@)
        } else if field_failure::<Vec<Review>>(j, "review_list"@) is Some {
            field_failure::<Vec<Review>>(j, "review_list"@)
        } else if present_failure::<ReviewerGenres>(j, "reviewer_genre_list"@) is Some {
            present_failure::<ReviewerGenres>(j, "reviewer_genre_list"@)
        } else {
            None
        }
    }

    open spec fn decoded_from(&self, j: JsonView) -> bool {
        &&& self.is_success.decoded_from(field_value(j, "is_success"@))
        &&& self.error_msg.decoded_from(field_value(j, "error_msg"@))
        &&& self.review_list.decoded_from(field_value(j, "review_list"@))
        &&& (ReviewerGenres { list: self.reviewer_genre_list }).decoded_from(field_value(j, "reviewer_genre_list"@))
    }

    fn from_json(j: &Json) -> (r: Result<ProductReview, DlsiteError>) {
        let is_success = match field::<bool>(j, "is_success") {
            Ok(v) => v,
            Err(e) => {
                return Err(e);
            },
        };
        let error_msg = match field::<String>(j, "error_msg") {
            Ok(v) => v,
            Err(e) => {
                return Err(e);
            },
        };
        let review_list = match field::<Vec<Review>>(j, "review_list") {
            Ok(v) => v,
            Err(e) => {
                return Err(e);
            },
        };
        let reviewer_genre_list = match present_field::<ReviewerGenres>(j, "reviewer_genre_list") {
            Ok(v) => v.list,
            Err(e) => {
                return Err(e);
            },
        };
        Ok(ProductReview { is_success, error_msg, review_list, reviewer_genre_list })
    }
}
/// The path that asks for the reviews of `product_id`.
pub open spec fn review_path_of(
    product_id: Seq<char>,
    limit: u32,
    page: u32,
    mix_pickup: bool,
    order: ReviewSortOrder,
) -> Seq<char> {
    "/api/review?product_id="@ + product_id + "&limit="@ + decimal_digits(limit as nat)
        + "&mix_pickup="@ + (if mix_pickup {
        "true"@
    } else {
        "false"@
    }) + "&page="@ + decimal_digits(page as nat) + "&order="@ + order.code() + "&locale=ja_JP"@
}

/// The path that asks for `limit` reviews of `product_id`, from page `page`
/// on. The genres that the buyers chose come only where `mix_pickup` is set.
pub fn review_path(
    product_id: &str,
    limit: u32,
    page: u32,
    mix_pickup: bool,
    order: ReviewSortOrder,
) -> (path: String)
    ensures
        path@ == review_path_of(product_id@, limit, page, mix_pickup, order),
{
    let mut path = "/api/review?product_id=".to_owned();
    path.append(product_id);
    path.append("&limit=");
    path.append(decimal_string(limit as u64).as_str());
    path.append("&mix_pickup=");
    if mix_pickup {
        path.append("true");
    } else {
        path.append("false");
    }
    path.append("&page=");
    path.append(decimal_string(page as u64).as_str());
    path.append("&order=");
    path.append(order.to_string().as_str());
    path.append("&locale=ja_JP");
    proof {
        assert(path@ =~= review_path_of(product_id@, limit, page, mix_pickup, order));
    }
    path
}

/// What the service says went wrong, where the payload reports a failure.
pub open spec fn server_message(j: JsonView) -> Seq<char> {
    "Failed to get review: "@ + (match j.member("error_msg"@) {
        Some(JsonView::Str(s)) => s,
        _ => "Failed to get error message"@,
    })
}

/// Whether `r` is the outcome of reading the payload `j`: a payload without
/// a boolean `is_success` is malformed, one whose `is_success` is false is
/// the service's own failure, any other is read as the reviews.
pub open spec fn review_decoded(j: JsonView, r: Result<ProductReview, DlsiteError>) -> bool {
    match j.member("is_success"@) {
        Some(JsonView::Bool(true)) => match r {
            Ok(v) => ProductReview::failure(j) is None && v.decoded_from(j),
            Err(e) => ProductReview::failure(j) is Some && e.is_shape(ProductReview::failure(j)->0),
        },
        Some(JsonView::Bool(false)) => r is Err && r->Err_0.is_server(server_message(j)),
        _ => r is Err && r->Err_0.is_shape("Failed to parse revire json"@),
    }
}

/// The reviews that the payload `j` holds.
pub fn decode_review_json(j: &Json) -> (r: Result<ProductReview, DlsiteError>)
    ensures
        review_decoded(j.deep_view(), r),
{
    let success = match j.get("is_success") {
        Some(Json::Bool(b)) => *b,
        _ => {
            return Err(DlsiteError::shape("Failed to parse revire json"));
        },
    };
    if !success {
        let mut message = "Failed to get review: ".to_owned();
        match j.get("error_msg") {
            Some(Json::Str(s)) => {
                message.append(s.as_str());
            },
            _ => {
                message.append("Failed to get error message");
            },
        }
        return Err(DlsiteError::Server(message));
    }
    ProductReview::from_json(j)
}

/// Whether `r` is the outcome of reading the payload `text`.
pub open spec fn review_text_decoded(text: Seq<char>, r: Result<ProductReview, DlsiteError>) -> bool {
    match json_of_text(text) {
        Some(j) => review_decoded(j, r),
        None => r is Err && r->Err_0 is SerdeJson,
    }
}

/// The reviews that the payload `text` holds.
pub fn decode_review(text: &str) -> (r: Result<ProductReview, DlsiteError>)
    ensures
        review_text_decoded(text@, r),
{
    match parse_json(text) {
        Ok(j) => decode_review_json(&j),
        Err(e) => Err(e),
    }
}

} // verus!
