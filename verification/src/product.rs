//! A product: the record of its page, of its summary payload and of its
//! review payload, and the record that joins the three.

pub mod ajax;
pub mod html;
pub mod review;

use crate::common::{AgeCategory, Genre, WorkType};
use crate::dates::Date;
use crate::error::DlsiteError;
use crate::product::ajax::{ajax_text_decoded, decode_ajax, ProductAjax};
use crate::product::html::{parse_product_html, product_html_parsed, ProductHtml};
use crate::product::review::{decode_review, review_text_decoded, ProductReview};
use crate::shape::Decimal;
use vstd::prelude::*;

verus! {

/// The people who made a work. A list is absent where the page names
/// nobody under its label.
#[derive(Debug)]
pub struct ProductPeople {
    pub author: Option<Vec<String>>,
    pub scenario: Option<Vec<String>>,
    pub illustrator: Option<Vec<String>>,
    pub voice_actor: Option<Vec<String>>,
}

/// A product, joined from its three sources. Each field comes from one
/// source and no other.
#[derive(Debug)]
pub struct Product {
    pub id: String,
    pub title: String,
    pub work_type: WorkType,
    pub released_at: Date,
    pub age_rating: Option<AgeCategory>,
    pub genre: Vec<Genre>,
    pub circle_id: String,
    pub circle_name: String,
    pub price: i32,
    pub series: Option<String>,
    pub sale_count: Option<i32>,
    pub review_count: Option<i32>,
    /// The average rating, to two decimal places.
    pub rating: Option<Decimal>,
    pub rate_count: Option<i32>,
    pub images: Vec<String>,
    pub people: ProductPeople,
    pub reviewer_genre: Vec<(Genre, i32)>,
    pub file_format: Vec<String>,
    pub file_size: Option<String>,
    pub product_format: Vec<String>,
}

/// The path of the page of `product_id`.
pub open spec fn html_path_of(product_id: Seq<char>) -> Seq<char> {
    "/work/=/product_id/"@ + product_id
}

/// The path of the page of `product_id`.
pub fn html_path(product_id: &str) -> (path: String)
    ensures
        path@ == html_path_of(product_id@),
{
    let mut path = "/work/=/product_id/".to_owned();
    path.append(product_id);
    path
}

/// Whether `product` is the product `product_id` as its three sources tell
/// of it: the identifier is the caller's; title, kind, price, rating and
/// the counts are the summary's; date, age rating, genres, circle, series,
/// images, people and formats are the page's; the genres that the buyers chose
/// are the review payload's, and none where it has none.
pub open spec fn merged(
    product: Product,
    product_id: Seq<char>,
    html: ProductHtml,
    ajax: ProductAjax,
    review: ProductReview,
) -> bool {
    &&& product.id@ == product_id
    &&& product.title == ajax.work_name
    &&& product.work_type == ajax.work_type
    &&& product.price == ajax.price
    &&& product.rating == ajax.rate_average_2dp
    &&& product.rate_count == ajax.rate_count
    &&& product.sale_count == ajax.dl_count
    &&& product.review_count == ajax.review_count
    &&& product.released_at == html.released_at
    &&& product.age_rating == html.age_rating
    &&& product.genre == html.genre
    &&& product.series == html.series
    &&& product.circle_name == html.circle_name
    &&& product.circle_id == html.circle_id
    &&& product.images == html.images
    &&& product.people == html.people
    &&& product.file_format == html.file_format
    &&& product.file_size == html.file_size
    &&& product.product_format == html.product_format
    &&& match review.reviewer_genre_list {
        Some(list) => product.reviewer_genre == list,
        None => product.reviewer_genre@.len() == 0,
    }
}

/// Joins the three records of the product `product_id` into one.
pub fn merge(product_id: &str, html: ProductHtml, ajax: ProductAjax, review: ProductReview) -> (product:
    Product)
    ensures
        merged(product, product_id@, html, ajax, review),
{
    let reviewer_genre = match review.reviewer_genre_list {
        Some(list) => list,
        None => Vec::new(),
    };
    Product {
        id: product_id.to_owned(),
        title: ajax.work_name,
        work_type: ajax.work_type,
        released_at: html.released_at,
        age_rating: html.age_rating,
        genre: html.genre,
        series: html.series,
        circle_name: html.circle_name,
        circle_id: html.circle_id,
        price: ajax.price,
        rating: ajax.rate_average_2dp,
        rate_count: ajax.rate_count,
        sale_count: ajax.dl_count,
        review_count: ajax.review_count,
        images: html.images,
        people: html.people,
        reviewer_genre,
        file_format: html.file_format,
        file_size: html.file_size,
        product_format: html.product_format,
    }
}

/// One of the three sources of a product.
#[derive(Debug, Clone, Copy, PartialEq, Eq, Structural)]
pub enum Source {
    /// The product page.
    Page,
    /// The summary payload.
    Summary,
    /// The review payload.
    Reviews,
}

/// Why a product could not be joined: the source that failed, and its
/// failure as it came.
#[derive(Debug, PartialEq, Eq)]
pub struct AggregationError<E> {
    pub source: Source,
    pub error: E,
}

/// The first failure among the three outcomes, in the order page, summary,
/// reviews, with the source that it comes from; `None` where none failed.
pub open spec fn first_error<A, B, C, E>(a: Result<A, E>, b: Result<B, E>, c: Result<C, E>)
    -> Option<AggregationError<E>> {
    match (a, b, c) {
        (Err(e), _, _) => Some(AggregationError { source: Source::Page, error: e }),
        (Ok(_), Err(e), _) => Some(AggregationError { source: Source::Summary, error: e }),
        (Ok(_), Ok(_), Err(e)) => Some(AggregationError { source: Source::Reviews, error: e }),
        (Ok(_), Ok(_), Ok(_)) => None,
    }
}

/// One failure is enough, and it is the one that is reported: where just one
/// of the three outcomes is a failure, that failure is the first, and it is
/// reported with its source.
pub proof fn law_one_failure_fails_all<A, B, C, E>(
    a: Result<A, E>,
    b: Result<B, E>,
    c: Result<C, E>,
)
    ensures
        first_error(a, b, c) is None <==> a is Ok && b is Ok && c is Ok,
        a is Err && b is Ok && c is Ok ==> first_error(a, b, c) == Some(
            AggregationError { source: Source::Page, error: a->Err_0 },
        ),
        a is Ok && b is Err && c is Ok ==> first_error(a, b, c) == Some(
            AggregationError { source: Source::Summary, error: b->Err_0 },
        ),
        a is Ok && b is Ok && c is Err ==> first_error(a, b, c) == Some(
            AggregationError { source: Source::Reviews, error: c->Err_0 },
        ),
{
}

/// Joins the outcomes of the three sources: all three values where none
/// failed, else the first failure, unchanged, with its source, and nothing
/// of the others.
pub fn join3<A, B, C, E>(a: Result<A, E>, b: Result<B, E>, c: Result<C, E>) -> (r: Result<
    (A, B, C),
    AggregationError<E>,
>)
    ensures
        match r {
            Ok(all) => a == Ok::<A, E>(all.0) && b == Ok::<B, E>(all.1) && c == Ok::<C, E>(all.2),
            Err(e) => first_error(a, b, c) == Some(e),
        },
{
    match a {
        Ok(x) => match b {
            Ok(y) => match c {
                Ok(z) => Ok((x, y, z)),
                Err(e) => Err(AggregationError { source: Source::Reviews, error: e }),
            },
            Err(e) => Err(AggregationError { source: Source::Summary, error: e }),
        },
        Err(e) => Err(AggregationError { source: Source::Page, error: e }),
    }
}

/// The product `product_id` out of the outcomes of its three sources. It
/// is there only where all three are: one failure makes the whole fail,
/// with that failure and the source that it comes from.
pub fn aggregate<E>(
    product_id: &str,
    html: Result<ProductHtml, E>,
    ajax: Result<ProductAjax, E>,
    review: Result<ProductReview, E>,
) -> (r: Result<Product, AggregationError<E>>)
    ensures
        match r {
            Ok(product) => html is Ok && ajax is Ok && review is Ok && merged(
                product,
                product_id@,
                html->Ok_0,
                ajax->Ok_0,
                review->Ok_0,
            ),
            Err(e) => first_error(html, ajax, review) == Some(e),
        },
{
    match join3(html, ajax, review) {
        Ok(all) => Ok(merge(product_id, all.0, all.1, all.2)),
        Err(e) => Err(e),
    }
}

/// The product `product_id` out of the texts of its three sources: the
/// page, the summary payload and the review payload.
pub fn get_all(product_id: &str, html: &str, ajax: &str, review: &str) -> (r: Result<
    Product,
    AggregationError<DlsiteError>,
>)
    ensures
        exists|
            page: Result<ProductHtml, DlsiteError>,
            summary: Result<ProductAjax, DlsiteError>,
            reviews: Result<ProductReview, DlsiteError>,
        |
            {
                &&& product_html_parsed(html@, page)
                &&& ajax_text_decoded(ajax@, product_id@, summary)
                &&& review_text_decoded(review@, reviews)
                &&& match r {
                    Ok(product) => page is Ok && summary is Ok && reviews is Ok && merged(
                        product,
                        product_id@,
                        page->Ok_0,
                        summary->Ok_0,
                        reviews->Ok_0,
                    ),
                    Err(e) => first_error(page, summary, reviews) == Some(e),
                }
            },
{
    let page = parse_product_html(html);
    let summary = decode_ajax(ajax, product_id);
    let reviews = decode_review(review);
    let ghost outcomes = (page, summary, reviews);
    let r = aggregate(product_id, page, summary, reviews);
    proof {
        assert(product_html_parsed(html@, outcomes.0) && ajax_text_decoded(
            ajax@,
            product_id@,
            outcomes.1,
        ) && review_text_decoded(review@, outcomes.2));
    }
    r
}

} // verus!
