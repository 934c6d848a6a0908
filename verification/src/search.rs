//! Listing pages: one record for each item block, in the order in which the
//! blocks are selected.
//!
//! A listing is read in two steps. The first reads, for each item block, the
//! texts and attributes at fixed selectors into a [`RawSearchItem`]. The
//! second, [`decode_search_item`], turns those into a [`SearchProductItem`]
//! or the first failure, and is a function of the raw values alone.

pub mod options;

use crate::common::{AgeCategory, WorkType};
use crate::dom::{attr, attr_of, fragment_of, matches_in, parse_fragment, select_in, texts_of};
use crate::error::{
    malformed, structural, to_parse_error, DlsiteError, Failure, FailureKind,
};
use crate::json::{json_of_text, parse_json, Json, JsonView};
use crate::select::{
    first_attr, first_match, first_of, first_text, select_first, select_first_attr,
    select_first_text, text_first,
};
use crate::shape::{field, field_failure, field_value, FromJson};
use crate::text::{
    after_prefix, parse_i32, parsed_i32, remove_chars, split, split_on, str_eq, strip_prefix,
    without_chars,
};
use vstd::prelude::*;

verus! {

/// One item of a listing.
#[derive(Debug)]
pub struct SearchProductItem {
    pub id: String,
    pub title: String,
    pub creator: Option<String>,
    pub creator_omitted: Option<bool>,
    pub circle_name: String,
    pub circle_id: String,
    pub dl_count: Option<i32>,
    pub rate_count: Option<i32>,
    pub review_count: Option<i32>,
    pub price_original: i32,
    pub price_sale: Option<i32>,
    pub age_category: AgeCategory,
    /// The kind that the class of the category names: the first token
    /// `type_` and a known code. Where none is known, the unknown kind with
    /// what the first `type_` token writes after the prefix.
    pub work_type: WorkType,
    pub thumbnail_url: String,
    /// The class tokens of the star rating that begin with `star_`, without
    /// that prefix and in order. The rating is the first of them that reads
    /// as a number, in tenths of a star.
    pub rating_tokens: Vec<String>,
}

/// A listing: its items, the number of items that the query matches in all,
/// and the path that was asked for.
#[derive(Debug)]
pub struct SearchResult {
    pub products: Vec<SearchProductItem>,
    pub count: i32,
    pub query_path: String,
}

/// A link as it was read: its first text node and its target.
#[derive(Debug, Clone, PartialEq, Eq)]
pub struct RawLink {
    pub text: Option<String>,
    pub href: Option<String>,
}

pub struct RawLinkView {
    pub text: Option<Seq<char>>,
    pub href: Option<Seq<char>>,
}

impl DeepView for RawLink {
    type V = RawLinkView;

    open spec fn deep_view(&self) -> RawLinkView {
        RawLinkView { text: self.text.deep_view(), href: self.href.deep_view() }
    }
}

/// The author block as it was read: its class attribute, and the first text
/// node of its first link (nothing where it holds no link).
#[derive(Debug, Clone, PartialEq, Eq)]
pub struct RawAuthor {
    pub class: Option<String>,
    pub name: Option<Option<String>>,
}

pub struct RawAuthorView {
    pub class: Option<Seq<char>>,
    pub name: Option<Option<Seq<char>>>,
}

impl DeepView for RawAuthor {
    type V = RawAuthorView;

    open spec fn deep_view(&self) -> RawAuthorView {
        RawAuthorView { class: self.class.deep_view(), name: self.name.deep_view() }
    }
}

/// The thumbnail as it was read: its two source attributes.
#[derive(Debug, Clone, PartialEq, Eq)]
pub struct RawThumbnail {
    pub src: Option<String>,
    pub data_src: Option<String>,
}

pub struct RawThumbnailView {
    pub src: Option<Seq<char>>,
    pub data_src: Option<Seq<char>>,
}

impl DeepView for RawThumbnail {
    type V = RawThumbnailView;

    open spec fn deep_view(&self) -> RawThumbnailView {
        RawThumbnailView { src: self.src.deep_view(), data_src: self.data_src.deep_view() }
    }
}

/// What one item block holds at the selectors that the decoder looks at.
///
/// A field is `None` where no element matches its selector. A field of two
/// levels is `Some(None)` where the element is there and the text or the
/// attribute that is read from it is not.
#[derive(Debug, Clone, PartialEq, Eq)]
pub struct RawSearchItem {
    /// `div[data-product_id]`: the attribute `data-product_id`.
    pub product_id: Option<Option<String>>,
    /// `.maker_name a`.
    pub maker: Option<RawLink>,
    /// `.author`.
    pub author: Option<RawAuthor>,
    /// `.work_price .work_price_base`: the first text node.
    pub price: Option<Option<String>>,
    /// `.work_price_wrap .strike .work_price_base`: the first text node.
    pub struck_price: Option<Option<String>>,
    /// `.work_name a[title]`: the attribute `title`.
    pub title: Option<Option<String>>,
    /// `.work_genre span`: the attribute `title`.
    pub age_title: Option<Option<String>>,
    /// `.work_dl span[class*="dl_count"]`: the first text node.
    pub dl_count: Option<Option<String>>,
    /// `.work_review div a`: the first text node.
    pub review_count: Option<Option<String>>,
    /// `.work_category`: the attribute `class`.
    pub category_class: Option<Option<String>>,
    /// `.work_thumb_inner > img`.
    pub thumbnail: Option<RawThumbnail>,
    /// `.work_rating .star_rating`: the attribute `class`.
    pub rating_class: Option<Option<String>>,
}

pub struct RawSearchItemView {
    pub product_id: Option<Option<Seq<char>>>,
    pub maker: Option<RawLinkView>,
    pub author: Option<RawAuthorView>,
    pub price: Option<Option<Seq<char>>>,
    pub struck_price: Option<Option<Seq<char>>>,
    pub title: Option<Option<Seq<char>>>,
    pub age_title: Option<Option<Seq<char>>>,
    pub dl_count: Option<Option<Seq<char>>>,
    pub review_count: Option<Option<Seq<char>>>,
    pub category_class: Option<Option<Seq<char>>>,
    pub thumbnail: Option<RawThumbnailView>,
    pub rating_class: Option<Option<Seq<char>>>,
}

impl DeepView for RawSearchItem {
    type V = RawSearchItemView;

    open spec fn deep_view(&self) -> RawSearchItemView {
        RawSearchItemView {
            product_id: self.product_id.deep_view(),
            maker: self.maker.deep_view(),
            author: self.author.deep_view(),
            price: self.price.deep_view(),
            struck_price: self.struck_price.deep_view(),
            title: self.title.deep_view(),
            age_title: self.age_title.deep_view(),
            dl_count: self.dl_count.deep_view(),
            review_count: self.review_count.deep_view(),
            category_class: self.category_class.deep_view(),
            thumbnail: self.thumbnail.deep_view(),
            rating_class: self.rating_class.deep_view(),
        }
    }
}

/// The number that a count such as `(1,234)` writes: brackets and commas are
/// dropped, the rest is read as an `i32`.
pub open spec fn count_of(text: Seq<char>) -> Option<i32> {
    parsed_i32(without_chars(text, "(),"@))
}

/// The number that a price such as `1,320` writes: commas are dropped, the
/// rest is read as an `i32`.
pub open spec fn number_of(text: Seq<char>) -> Option<i32> {
    parsed_i32(without_chars(text, ","@))
}

/// The rating that the title of the age mark stands for.
pub open spec fn age_of_title(title: Seq<char>) -> Option<AgeCategory> {
    if title == "全年齢"@ {
        Some(AgeCategory::General)
    } else if title == "R-15"@ {
        Some(AgeCategory::R15)
    } else {
        None
    }
}

/// The identifier in a link to a circle: the last segment of the path,
/// up to its first dot.
pub open spec fn id_from_href(href: Seq<char>) -> Seq<char> {
    split_on(split_on(href, '/').last(), '.')[0]
}

/// The tokens that begin with `prefix`, without it and in order.
pub open spec fn prefixed(tokens: Seq<Seq<char>>, prefix: Seq<char>) -> Seq<Seq<char>>
    decreases tokens.len(),
{
    if tokens.len() == 0 {
        Seq::empty()
    } else {
        let before = prefixed(tokens.drop_last(), prefix);
        match after_prefix(tokens.last(), prefix) {
            Some(rest) => before.push(rest),
            None => before,
        }
    }
}

/// The first of `codes` that is the code of a known kind of work.
pub open spec fn first_known_code(codes: Seq<Seq<char>>) -> Option<Seq<char>>
    decreases codes.len(),
{
    if codes.len() == 0 {
        None
    } else if WorkType::is_known(codes[0]) {
        Some(codes[0])
    } else {
        first_known_code(codes.drop_first())
    }
}

/// What the tokens of a class attribute write after `type_`, in order.
pub open spec fn type_codes(class: Seq<char>) -> Seq<Seq<char>> {
    prefixed(split_on(class, ' '), "type_"@)
}

/// The code of the known kind of work that a class attribute names: the
/// first token that is `type_` and a known code.
pub open spec fn work_type_code(class: Seq<char>) -> Option<Seq<char>> {
    first_known_code(type_codes(class))
}

/// The text that a class attribute without a known kind leaves for the
/// unknown kind: what its first token with the prefix `type_` writes after
/// it, and nothing only where no token has the prefix.
pub open spec fn unknown_type_text(codes: Seq<Seq<char>>) -> Seq<char> {
    match first_of(codes) {
        Some(rest) => rest,
        None => Seq::empty(),
    }
}

/// The text of the price that is the regular one: the struck-through price
/// where there is one, else the only price.
pub open spec fn original_price_text(raw: RawSearchItemView) -> Option<Seq<char>> {
    match raw.struck_price {
        Some(struck) => struck,
        None => match raw.price {
            Some(price) => price,
            None => None,
        },
    }
}

/// The text of the sale price: the price that is not struck through, where
/// another one is.
pub open spec fn sale_price_text(raw: RawSearchItemView) -> Option<Seq<char>> {
    match (raw.struck_price, raw.price) {
        (Some(_), Some(price)) => price,
        _ => None,
    }
}

/// The source of the thumbnail: `src`, or `data-src` where there is no `src`.
pub open spec fn thumbnail_source(raw: RawSearchItemView) -> Option<Seq<char>> {
    match raw.thumbnail {
        Some(t) => if t.src is Some {
            t.src
        } else {
            t.data_src
        },
        None => None,
    }
}

/// Why `raw` is no item: the failure of the first check that fails, in the
/// order in which the checks are made. `None` where `raw` decodes.
pub open spec fn item_failure(raw: RawSearchItemView) -> Option<Failure> {
    if raw.product_id is None {
        Some(structural("Failed to find data element"@))
    } else if raw.maker is None {
        Some(structural("Failed to find maker element"@))
    } else if raw.price is None {
        Some(structural("Failed to find price element"@))
    } else if raw.product_id->0 is None {
        Some(structural("Failed to get product id"@))
    } else if raw.title is None || raw.title->0 is None {
        Some(structural("Failed to get title"@))
    } else if raw.age_title is Some && raw.age_title->0 is None {
        Some(structural("Age category parse error"@))
    } else if raw.age_title is Some && age_of_title(raw.age_title->0->0) is None {
        Some(malformed("Age category parse error: invalid title"@))
    } else if raw.maker->0.href is None {
        Some(structural("Failed to get maker link"@))
    } else if raw.author is Some && (raw.author->0.name is None || raw.author->0.name->0 is None
        || raw.author->0.class is None) {
        Some(structural("Failed to find creator"@))
    } else if raw.dl_count is Some && raw.dl_count->0 is None {
        Some(structural("Failed to get dl count"@))
    } else if raw.dl_count is Some && number_of(raw.dl_count->0->0) is None {
        Some(malformed("Invalid dl count"@))
    } else if raw.dl_count is Some && count_of(raw.dl_count->0->0) is None {
        Some(malformed("Failed to parse string to count"@))
    } else if raw.review_count is Some && raw.review_count->0 is None {
        Some(structural("Failed to get review count"@))
    } else if raw.review_count is Some && count_of(raw.review_count->0->0) is None {
        Some(malformed("Failed to parse string to count"@))
    } else if original_price_text(raw) is None {
        Some(structural("Failed to find price"@))
    } else if number_of(original_price_text(raw)->0) is None {
        Some(malformed("Failed to parse string to number"@))
    } else if raw.struck_price is Some && sale_price_text(raw) is None {
        Some(structural("Failed to find price"@))
    } else if raw.struck_price is Some && number_of(sale_price_text(raw)->0) is None {
        Some(malformed("Failed to parse string to number"@))
    } else if raw.category_class is None {
        Some(structural("Failed to find work category"@))
    } else if raw.category_class->0 is None {
        Some(structural("Failed to find worktype"@))
    } else if thumbnail_source(raw) is None {
        Some(structural("Failed to find thumbnail"@))
    } else {
        None
    }
}

/// Whether `item` is the record that `raw` decodes to. It is meant for a
/// `raw` without failure.
pub open spec fn item_decoded(raw: RawSearchItemView, item: SearchProductItem) -> bool {
    &&& item.id@ == raw.product_id->0->0
    &&& item.title@ == raw.title->0->0
    &&& item.creator.deep_view() == (match raw.author {
        Some(a) => Some(a.name->0->0),
        None => None,
    })
    &&& item.creator_omitted == (match raw.author {
        Some(a) => Some(split_on(a.class->0, ' ').contains("omit"@)),
        None => None,
    })
    &&& item.circle_name@ == (match raw.maker->0.text {
        Some(t) => t,
        None => Seq::empty(),
    })
    &&& item.circle_id@ == id_from_href(raw.maker->0.href->0)
    &&& item.dl_count == (match raw.dl_count {
        Some(t) => number_of(t->0),
        None => None,
    })
    &&& item.rate_count == (match raw.dl_count {
        Some(t) => count_of(t->0),
        None => None,
    })
    &&& item.review_count == (match raw.review_count {
        Some(t) => count_of(t->0),
        None => None,
    })
    &&& Some(item.price_original) == number_of(original_price_text(raw)->0)
    &&& item.price_sale == (match raw.struck_price {
        Some(_) => number_of(sale_price_text(raw)->0),
        None => None,
    })
    &&& item.age_category == (match raw.age_title {
        Some(t) => age_of_title(t->0)->0,
        None => AgeCategory::Adult,
    })
    &&& match work_type_code(raw.category_class->0->0) {
        Some(code) => !(item.work_type is Unknown) && item.work_type.code() == code,
        None => item.work_type is Unknown && item.work_type.code() == unknown_type_text(
            type_codes(raw.category_class->0->0),
        ),
    }
    &&& item.thumbnail_url@ == "https:"@ + thumbnail_source(raw)->0
    &&& item.rating_tokens.deep_view() == (match raw.rating_class {
        Some(Some(class)) => prefixed(split_on(class, ' '), "star_"@),
        _ => Seq::empty(),
    })
}

/// A block without one of its mandatory parts is no item, whatever else it
/// holds: the identifier, the maker, the price, the title, the class of the
/// category, the thumbnail.
pub proof fn law_item_without_anchor_fails(raw: RawSearchItemView)
    requires
        raw.product_id is None || raw.product_id->0 is None || raw.maker is None
            || raw.maker->0.href is None || raw.price is None || raw.title is None
            || raw.category_class is None || thumbnail_source(raw) is None,
    ensures
        item_failure(raw) is Some,
{
}

/// One block that fails makes the listing fail: there is no listing of the
/// blocks that did decode.
pub proof fn law_failing_block_fails_the_listing(raws: Seq<RawSearchItemView>, i: int)
    requires
        0 <= i < raws.len(),
        item_failure(raws[i]) is Some,
    ensures
        list_failure(raws) is Some,
        forall|r: Result<Vec<SearchProductItem>, DlsiteError>| list_decoded(raws, r) ==> r is Err,
    decreases raws.len(),
{
    if i > 0 && item_failure(raws[0]) is None {
        assert(raws.drop_first()[i - 1] == raws[i]);
        law_failing_block_fails_the_listing(raws.drop_first(), i - 1);
    }
}

/// The records follow the blocks: in a listing that decodes, there are as
/// many records as blocks, and the record at each place is the one of the
/// block at that place.
pub proof fn law_records_follow_the_blocks(
    raws: Seq<RawSearchItemView>,
    items: Vec<SearchProductItem>,
    i: int,
)
    requires
        list_decoded(raws, Ok(items)),
        0 <= i < raws.len(),
    ensures
        items.len() == raws.len(),
        item_failure(raws[i]) is None,
        item_decoded(raws[i], items[i]),
{
    lemma_no_failure_in_a_listing_that_decodes(raws, i);
}

proof fn lemma_no_failure_in_a_listing_that_decodes(raws: Seq<RawSearchItemView>, i: int)
    requires
        list_failure(raws) is None,
        0 <= i < raws.len(),
    ensures
        item_failure(raws[i]) is None,
    decreases raws.len(),
{
    if i > 0 {
        assert(raws.drop_first()[i - 1] == raws[i]);
        lemma_no_failure_in_a_listing_that_decodes(raws.drop_first(), i - 1);
    }
}

/// The prices are told apart by the struck-through one. Where a block holds
/// a struck-through price `x` and another price `y`, the record has `x` as
/// its original price and `y` as its sale price; where it holds one price
/// `z` only, the record has `z` as its original price and no sale price.
pub proof fn law_prices_are_told_apart(raw: RawSearchItemView, item: SearchProductItem)
    requires
        item_failure(raw) is None,
        item_decoded(raw, item),
    ensures
        raw.price is Some,
        raw.price->0 is Some,
        raw.struck_price is Some ==> raw.struck_price->0 is Some && number_of(
            raw.struck_price->0->0,
        ) == Some(item.price_original) && item.price_sale is Some && item.price_sale == number_of(
            raw.price->0->0,
        ),
        raw.struck_price is None ==> number_of(raw.price->0->0) == Some(item.price_original)
            && item.price_sale is None,
{
}

/// Decoding is a function of what was read: two records of the same block
/// agree in every field.
pub proof fn law_same_block_same_record(
    raw: RawSearchItemView,
    a: SearchProductItem,
    b: SearchProductItem,
)
    requires
        item_decoded(raw, a),
        item_decoded(raw, b),
    ensures
        a.id@ == b.id@,
        a.title@ == b.title@,
        a.creator.deep_view() == b.creator.deep_view(),
        a.creator_omitted == b.creator_omitted,
        a.circle_name@ == b.circle_name@,
        a.circle_id@ == b.circle_id@,
        a.dl_count == b.dl_count,
        a.rate_count == b.rate_count,
        a.review_count == b.review_count,
        a.price_original == b.price_original,
        a.price_sale == b.price_sale,
        a.age_category == b.age_category,
        a.work_type.code() == b.work_type.code(),
        a.work_type is Unknown <==> b.work_type is Unknown,
        a.thumbnail_url@ == b.thumbnail_url@,
        a.rating_tokens.deep_view() == b.rating_tokens.deep_view(),
{
}

/// A kind of work that is not known is no failure, and its text is kept.
/// Whatever the class attribute holds, the block fails or decodes as it
/// would with any other; and where no token names a known kind, the record
/// has the unknown kind with what the first `type_` token writes after the
/// prefix, empty only where no token has the prefix.
pub proof fn law_unknown_kind_is_no_failure(
    raw: RawSearchItemView,
    class: Seq<char>,
    item: SearchProductItem,
)
    requires
        raw.category_class == Some(Some(class)),
    ensures
        item_failure(raw) == item_failure(
            RawSearchItemView { category_class: Some(Some(Seq::<char>::empty())), ..raw },
        ),
        item_decoded(raw, item) && work_type_code(class) is None ==> item.work_type is Unknown
            && item.work_type->Unknown_0@ == unknown_type_text(type_codes(class)),
        item_decoded(raw, item) && work_type_code(class) is None && type_codes(class).len() > 0
            ==> item.work_type->Unknown_0@ == type_codes(class)[0],
{
}

/// Reads a count such as `(1,234)`.
pub fn parse_count_str(text: &str) -> (r: Result<i32, DlsiteError>)
    ensures
        match r {
            Ok(n) => count_of(text@) == Some(n),
            Err(e) => count_of(text@) is None && e.is_failure(malformed("Failed to parse string to count"@)),
        },
{
    let digits = remove_chars(text, "(),");
    to_parse_error(parse_i32(digits.as_str()), FailureKind::FieldFormat, "Failed to parse string to count")
}

/// Reads a number such as `1,320`.
pub fn parse_num_str(text: &str) -> (r: Result<i32, DlsiteError>)
    ensures
        match r {
            Ok(n) => number_of(text@) == Some(n),
            Err(e) => number_of(text@) is None && e.is_failure(malformed("Failed to parse string to number"@)),
        },
{
    let digits = remove_chars(text, ",");
    to_parse_error(parse_i32(digits.as_str()), FailureKind::FieldFormat, "Failed to parse string to number")
}

fn tokens_contain(tokens: &Vec<String>, token: &str) -> (r: bool)
    ensures
        r == tokens.deep_view().contains(token@),
{
    let mut i: usize = 0;
    while i < tokens.len()
        invariant
            i <= tokens.len(),
            forall|j: int| 0 <= j < i ==> tokens.deep_view()[j] != token@,
        decreases tokens.len() - i,
    {
        if str_eq(tokens[i].as_str(), token) {
            proof {
                assert(tokens.deep_view()[i as int] == token@);
            }
            return true;
        }
        i += 1;
    }
    false
}

fn strip_each(tokens: &Vec<String>, prefix: &str) -> (r: Vec<String>)
    ensures
        r.deep_view() == prefixed(tokens.deep_view(), prefix@),
{
    let mut out: Vec<String> = Vec::new();
    let mut i: usize = 0;
    proof {
        assert(out.deep_view() =~= Seq::empty());
    }
    while i < tokens.len()
        invariant
            i <= tokens.len(),
            out.deep_view() == prefixed(tokens.deep_view().take(i as int), prefix@),
        decreases tokens.len() - i,
    {
        let ghost before = out.deep_view();
        proof {
            assert(tokens.deep_view().take(i as int + 1).drop_last() =~= tokens.deep_view().take(
                i as int,
            ));
        }
        match strip_prefix(tokens[i].as_str(), prefix) {
            Some(rest) => {
                out.push(rest);
                proof {
                    assert(out.deep_view() =~= before.push(rest@));
                }
            },
            None => {},
        }
        i += 1;
    }
    proof {
        assert(tokens.deep_view().take(tokens.len() as int) =~= tokens.deep_view());
    }
    out
}

fn first_known_work_type(codes: &Vec<String>) -> (r: WorkType)
    ensures
        match first_known_code(codes.deep_view()) {
            Some(code) => !(r is Unknown) && r.code() == code,
            None => r is Unknown && r.code() == unknown_type_text(codes.deep_view()),
        },
{
    let mut i: usize = 0;
    proof {
        assert(codes.deep_view().skip(0) =~= codes.deep_view());
    }
    while i < codes.len()
        invariant
            i <= codes.len(),
            first_known_code(codes.deep_view()) == first_known_code(
                codes.deep_view().skip(i as int),
            ),
        decreases codes.len() - i,
    {
        proof {
            assert(codes.deep_view().skip(i as int).drop_first() =~= codes.deep_view().skip(
                i as int + 1,
            ));
        }
        match WorkType::from_code(codes[i].as_str()) {
            WorkType::Unknown(_) => {},
            known => {
                return known;
            },
        }
        i += 1;
    }
    if codes.len() > 0 {
        WorkType::Unknown(codes[0].clone())
    } else {
        WorkType::Unknown(String::new())
    }
}

fn circle_id_of(href: &str) -> (r: String)
    ensures
        r@ == id_from_href(href@),
{
    let segments = split(href, '/');
    let parts = split(segments[segments.len() - 1].as_str(), '.');
    parts[0].clone()
}

/// The record that `raw` holds, or the first failure.
///
/// A block without its identifier, its maker or its price is no item. Where
/// a struck-through price is there, it is the regular price and the other
/// one the sale price; else the only price is the regular one.
pub fn decode_search_item(raw: &RawSearchItem) -> (r: Result<SearchProductItem, DlsiteError>)
    ensures
        match r {
            Ok(item) => item_failure(raw.deep_view()) is None && item_decoded(
                raw.deep_view(),
                item,
            ),
            Err(e) => item_failure(raw.deep_view()) is Some && e.is_failure(
                item_failure(raw.deep_view())->0,
            ),
        },
{
    let id_attr = match &raw.product_id {
        Some(a) => a,
        None => {
            return Err(DlsiteError::structural("Failed to find data element"));
        },
    };
    let maker = match &raw.maker {
        Some(m) => m,
        None => {
            return Err(DlsiteError::structural("Failed to find maker element"));
        },
    };
    let price = match &raw.price {
        Some(p) => p,
        None => {
            return Err(DlsiteError::structural("Failed to find price element"));
        },
    };
    let id = match id_attr {
        Some(s) => s.clone(),
        None => {
            return Err(DlsiteError::structural("Failed to get product id"));
        },
    };
    let title = match &raw.title {
        Some(Some(t)) => t.clone(),
        _ => {
            return Err(DlsiteError::structural("Failed to get title"));
        },
    };
    let age_category = match &raw.age_title {
        None => AgeCategory::Adult,
        Some(None) => {
            return Err(DlsiteError::structural("Age category parse error"));
        },
        Some(Some(t)) => {
            if str_eq(t.as_str(), "全年齢") {
                AgeCategory::General
            } else if str_eq(t.as_str(), "R-15") {
                AgeCategory::R15
            } else {
                return Err(DlsiteError::malformed("Age category parse error: invalid title"));
            }
        },
    };
    let circle_name = match &maker.text {
        Some(t) => t.clone(),
        None => String::new(),
    };
    let circle_id = match &maker.href {
        Some(h) => circle_id_of(h.as_str()),
        None => {
            return Err(DlsiteError::structural("Failed to get maker link"));
        },
    };
    let mut creator: Option<String> = None;
    let mut creator_omitted: Option<bool> = None;
    match &raw.author {
        Some(author) => {
            let name = match &author.name {
                Some(Some(n)) => n.clone(),
                _ => {
                    return Err(DlsiteError::structural("Failed to find creator"));
                },
            };
            let class = match &author.class {
                Some(c) => c,
                None => {
                    return Err(DlsiteError::structural("Failed to find creator"));
                },
            };
            let tokens = split(class.as_str(), ' ');
            creator = Some(name);
            creator_omitted = Some(tokens_contain(&tokens, "omit"));
        },
        None => {},
    }
    let mut dl_count: Option<i32> = None;
    let mut rate_count: Option<i32> = None;
    match &raw.dl_count {
        Some(Some(t)) => {
            match to_parse_error(
                parse_i32(remove_chars(t.as_str(), ",").as_str()),
                FailureKind::FieldFormat,
                "Invalid dl count",
            ) {
                Ok(n) => {
                    dl_count = Some(n);
                },
                Err(e) => {
                    return Err(e);
                },
            }
            match parse_count_str(t.as_str()) {
                Ok(n) => {
                    rate_count = Some(n);
                },
                Err(e) => {
                    return Err(e);
                },
            }
        },
        Some(None) => {
            return Err(DlsiteError::structural("Failed to get dl count"));
        },
        None => {},
    }
    let mut review_count: Option<i32> = None;
    match &raw.review_count {
        Some(Some(t)) => {
            match parse_count_str(t.as_str()) {
                Ok(n) => {
                    review_count = Some(n);
                },
                Err(e) => {
                    return Err(e);
                },
            }
        },
        Some(None) => {
            return Err(DlsiteError::structural("Failed to get review count"));
        },
        None => {},
    }
    let (sale_text, original_text) = match &raw.struck_price {
        Some(struck) => (Some(price), struck),
        None => (None, price),
    };
    let price_original = match original_text {
        Some(t) => match parse_num_str(t.as_str()) {
            Ok(n) => n,
            Err(e) => {
                return Err(e);
            },
        },
        None => {
            return Err(DlsiteError::structural("Failed to find price"));
        },
    };
    let price_sale = match sale_text {
        Some(text) => match text {
            Some(t) => match parse_num_str(t.as_str()) {
                Ok(n) => Some(n),
                Err(e) => {
                    return Err(e);
                },
            },
            None => {
                return Err(DlsiteError::structural("Failed to find price"));
            },
        },
        None => None,
    };
    let work_type = match &raw.category_class {
        Some(Some(class)) => {
            let tokens = split(class.as_str(), ' ');
            let codes = strip_each(&tokens, "type_");
            first_known_work_type(&codes)
        },
        Some(None) => {
            return Err(DlsiteError::structural("Failed to find worktype"));
        },
        None => {
            return Err(DlsiteError::structural("Failed to find work category"));
        },
    };
    let source = match &raw.thumbnail {
        Some(t) => match (&t.src, &t.data_src) {
            (Some(src), _) => src,
            (None, Some(data_src)) => data_src,
            (None, None) => {
                return Err(DlsiteError::structural("Failed to find thumbnail"));
            },
        },
        None => {
            return Err(DlsiteError::structural("Failed to find thumbnail"));
        },
    };
    let mut thumbnail_url = "https:".to_owned();
    thumbnail_url.append(source.as_str());
    let rating_tokens = match &raw.rating_class {
        Some(Some(class)) => {
            let tokens = split(class.as_str(), ' ');
            strip_each(&tokens, "star_")
        },
        _ => {
            let none: Vec<String> = Vec::new();
            proof {
                assert(none.deep_view() =~= Seq::empty());
            }
            none
        },
    };
    Ok(
        SearchProductItem {
            id,
            title,
            creator,
            creator_omitted,
            circle_name,
            circle_id,
            dl_count,
            rate_count,
            review_count,
            price_original,
            price_sale,
            age_category,
            work_type,
            thumbnail_url,
            rating_tokens,
        },
    )
}

/// What the item block `el` holds at the selectors of the decoder.
pub open spec fn item_read(el: scraper::ElementRef) -> RawSearchItemView {
    RawSearchItemView {
        product_id: first_attr(el, "div[data-product_id]"@, "data-product_id"@),
        maker: match first_match(el, ".maker_name a"@) {
            Some(a) => Some(RawLinkView { text: first_of(texts_of(a)), href: attr_of(a, "href"@) }),
            None => None,
        },
        author: match first_match(el, ".author"@) {
            Some(a) => Some(
                RawAuthorView { class: attr_of(a, "class"@), name: first_text(a, "a"@) },
            ),
            None => None,
        },
        price: first_text(el, ".work_price .work_price_base"@),
        struck_price: first_text(el, ".work_price_wrap .strike .work_price_base"@),
        title: first_attr(el, ".work_name a[title]"@, "title"@),
        age_title: first_attr(el, ".work_genre span"@, "title"@),
        dl_count: first_text(el, ".work_dl span[class*=\"dl_count\"]"@),
        review_count: first_text(el, ".work_review div a"@),
        category_class: first_attr(el, ".work_category"@, "class"@),
        thumbnail: match first_match(el, ".work_thumb_inner > img"@) {
            Some(img) => Some(
                RawThumbnailView { src: attr_of(img, "src"@), data_src: attr_of(img, "data-src"@) },
            ),
            None => None,
        },
        rating_class: first_attr(el, ".work_rating .star_rating"@, "class"@),
    }
}

/// The item blocks of the listing `html`, each as the decoder reads it, in
/// the order in which `scraper::Html::select` yields them.
pub open spec fn items_read(html: Seq<char>) -> Seq<RawSearchItemView> {
    matches_in(&fragment_of(html), "#search_result_img_box > li"@).map_values(
        |el: scraper::ElementRef| item_read(el),
    )
}

/// The first failure among `raws`, in order. `None` where all decode.
pub open spec fn list_failure(raws: Seq<RawSearchItemView>) -> Option<Failure>
    decreases raws.len(),
{
    if raws.len() == 0 {
        None
    } else if item_failure(raws[0]) is Some {
        item_failure(raws[0])
    } else {
        list_failure(raws.drop_first())
    }
}

/// Whether `r` is what a listing whose blocks hold `raws` decodes to: one
/// record for each block, in the order of the blocks, or the first failure
/// and no record at all.
pub open spec fn list_decoded(
    raws: Seq<RawSearchItemView>,
    r: Result<Vec<SearchProductItem>, DlsiteError>,
) -> bool {
    match r {
        Ok(items) => {
            &&& list_failure(raws) is None
            &&& items.len() == raws.len()
            &&& forall|i: int| 0 <= i < raws.len() ==> item_decoded(raws[i], #[trigger] items[i])
        },
        Err(e) => list_failure(raws) is Some && e.is_failure(list_failure(raws)->0),
    }
}

/// Reads one item block.
pub fn read_search_item(el: scraper::ElementRef) -> (raw: RawSearchItem)
    ensures
        raw.deep_view() == item_read(el),
{
    let maker = match select_first(el, ".maker_name a") {
        Some(a) => Some(RawLink { text: text_first(a), href: attr(a, "href") }),
        None => None,
    };
    let author = match select_first(el, ".author") {
        Some(a) => Some(RawAuthor { class: attr(a, "class"), name: select_first_text(a, "a") }),
        None => None,
    };
    let thumbnail = match select_first(el, ".work_thumb_inner > img") {
        Some(img) => Some(RawThumbnail { src: attr(img, "src"), data_src: attr(img, "data-src") }),
        None => None,
    };
    RawSearchItem {
        product_id: select_first_attr(el, "div[data-product_id]", "data-product_id"),
        maker,
        author,
        price: select_first_text(el, ".work_price .work_price_base"),
        struck_price: select_first_text(el, ".work_price_wrap .strike .work_price_base"),
        title: select_first_attr(el, ".work_name a[title]", "title"),
        age_title: select_first_attr(el, ".work_genre span", "title"),
        dl_count: select_first_text(el, ".work_dl span[class*=\"dl_count\"]"),
        review_count: select_first_text(el, ".work_review div a"),
        category_class: select_first_attr(el, ".work_category", "class"),
        thumbnail,
        rating_class: select_first_attr(el, ".work_rating .star_rating", "class"),
    }
}

/// Reads the item blocks of the listing `html`, in the order in which they
/// are selected.
pub fn read_search_items(html: &str) -> (raws: Vec<RawSearchItem>)
    ensures
        raws.deep_view() == items_read(html@),
{
    let doc = parse_fragment(html);
    let blocks = select_in(&doc, "#search_result_img_box > li");
    let mut raws: Vec<RawSearchItem> = Vec::new();
    let mut i: usize = 0;
    while i < blocks.len()
        invariant
            i <= blocks.len(),
            raws.len() == i,
            forall|j: int| 0 <= j < i ==> (#[trigger] raws[j]).deep_view() == item_read(blocks[j]),
        decreases blocks.len() - i,
    {
        let raw = read_search_item(blocks[i]);
        raws.push(raw);
        i += 1;
    }
    proof {
        assert(raws.deep_view() =~= blocks@.map_values(|el: scraper::ElementRef| item_read(el)));
    }
    raws
}

/// Decodes the blocks of a listing: one record for each, in their order. The
/// first block that fails makes the whole listing fail.
pub fn decode_search_items(raws: &Vec<RawSearchItem>) -> (r: Result<
    Vec<SearchProductItem>,
    DlsiteError,
>)
    ensures
        list_decoded(raws.deep_view(), r),
{
    let ghost all = raws.deep_view();
    let mut items: Vec<SearchProductItem> = Vec::new();
    let mut i: usize = 0;
    proof {
        assert(all.skip(0) =~= all);
    }
    while i < raws.len()
        invariant
            i <= raws.len(),
            all == raws.deep_view(),
            items.len() == i,
            list_failure(all) == list_failure(all.skip(i as int)),
            forall|j: int| 0 <= j < i ==> item_decoded(all[j], #[trigger] items[j]),
        decreases raws.len() - i,
    {
        proof {
            assert(all.skip(i as int).drop_first() =~= all.skip(i as int + 1));
            assert(all.skip(i as int)[0] == raws[i as int].deep_view());
        }
        match decode_search_item(&raws[i]) {
            Ok(item) => {
                items.push(item);
            },
            Err(e) => {
                return Err(e);
            },
        }
        i += 1;
    }
    Ok(items)
}

/// The records of the listing `html`: one for each item block, in the order
/// in which the blocks are selected. A block that lacks a mandatory part
/// makes the whole listing fail.
pub fn parse_search_html(html: &str) -> (r: Result<Vec<SearchProductItem>, DlsiteError>)
    ensures
        list_decoded(items_read(html@), r),
{
    let raws = read_search_items(html);
    decode_search_items(&raws)
}

/// What a search tells of its pages: the number of works that it matches.
#[derive(Debug)]
pub struct SearchPageInfo {
    pub count: i32,
}

impl FromJson for SearchPageInfo {
    /// The failure of the first member, in the order of the fields, that
    /// does not have the shape of its field.
    open spec fn failure(j: JsonView) -> Option<Seq<char>> {
        if field_failure::<i32>(j, "count"@) is Some {
            field_failure::<i32>(j, "count"@)
        } else {
            None
        }
    }

    open spec fn decoded_from(&self, j: JsonView) -> bool {
        &&& self.count.decoded_from(field_value(j, "count"@))
    }

    fn from_json(j: &Json) -> (r: Result<SearchPageInfo, DlsiteError>) {
        let count = match field::<i32>(j, "count") {
            Ok(v) => v,
            Err(e) => {
                return Err(e);
            },
        };
        Ok(SearchPageInfo { count })
    }
}
/// The answer to a search: a listing as markup, inside a JSON payload.
#[derive(Debug)]
pub struct SearchAjaxResult {
    /// The markup of the listing.
    pub search_result: String,
    pub page_info: SearchPageInfo,
}

impl FromJson for SearchAjaxResult {
    /// The failure of the first member, in the order of the fields, that
    /// does not have the shape of its field.
    open spec fn failure(j: JsonView) -> Option<Seq<char>> {
        if field_failure::<String>(j, "search_result"@) is Some {
            field_failure::<String>(j, "search_result"@)
        } else if field_failure::<SearchPageInfo>(j, "page_info"@) is Some {
            field_failure::<SearchPageInfo>(j, "page_info"@)
        } else {
            None
        }
    }

    open spec fn decoded_from(&self, j: JsonView) -> bool {
        &&& self.search_result.decoded_from(field_value(j, "search_result"@))
        &&& self.page_info.decoded_from(field_value(j, "page_info"@))
    }

    fn from_json(j: &Json) -> (r: Result<SearchAjaxResult, DlsiteError>) {
        let search_result = match field::<String>(j, "search_result") {
            Ok(v) => v,
            Err(e) => {
                return Err(e);
            },
        };
        let page_info = match field::<SearchPageInfo>(j, "page_info") {
            Ok(v) => v,
            Err(e) => {
                return Err(e);
            },
        };
        Ok(SearchAjaxResult { search_result, page_info })
    }
}
/// Whether `r` is the outcome of reading the answer `j` to the search that
/// was asked for under `query_path`: the payload has to have its shape, and
/// the listing in it has to decode.
pub open spec fn search_response_decoded(
    j: JsonView,
    query_path: Seq<char>,
    r: Result<SearchResult, DlsiteError>,
) -> bool {
    match SearchAjaxResult::failure(j) {
        Some(message) => r is Err && r->Err_0.is_shape(message),
        None => {
            let raws = items_read(field_value(j, "search_result"@)->Str_0);
            match r {
                Ok(found) => {
                    &&& list_decoded(raws, Ok(found.products))
                    &&& field_value(field_value(j, "page_info"@), "count"@).as_i32() == Some(
                        found.count,
                    )
                    &&& found.query_path@ == query_path
                },
                Err(e) => list_failure(raws) is Some && e.is_failure(list_failure(raws)->0),
            }
        },
    }
}

/// The listing that the answer `j` to a search holds.
pub fn decode_search_response_json(j: &Json, query_path: String) -> (r: Result<
    SearchResult,
    DlsiteError,
>)
    ensures
        search_response_decoded(j.deep_view(), query_path@, r),
{
    match SearchAjaxResult::from_json(j) {
        Ok(answer) => match parse_search_html(answer.search_result.as_str()) {
            Ok(products) => Ok(SearchResult { products, count: answer.page_info.count, query_path }),
            Err(e) => Err(e),
        },
        Err(e) => Err(e),
    }
}

/// The listing that the answer `text` to a search holds.
pub fn decode_search_response(text: &str, query_path: String) -> (r: Result<
    SearchResult,
    DlsiteError,
>)
    ensures
        match json_of_text(text@) {
            Some(j) => search_response_decoded(j, query_path@, r),
            None => r is Err && r->Err_0 is SerdeJson,
        },
{
    match parse_json(text) {
        Ok(j) => decode_search_response_json(&j, query_path),
        Err(e) => Err(e),
    }
}

} // verus!
