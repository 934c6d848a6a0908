//! The product interface: a JSON payload that tells of a work in full.

pub mod interface;

use crate::error::{json_error_text, DlsiteError, FailureKind};
use crate::json::{json_of_text, parse_json, Json, JsonView};
use crate::product_api::interface::ProductApiContent;
use crate::shape::FromJson;
use vstd::prelude::*;

verus! {

/// The path that asks for the product `id`.
pub open spec fn product_api_path_of(id: Seq<char>) -> Seq<char> {
    "/api/=/product.json?workno="@ + id
}

/// The path that asks for the product `id`.
pub fn product_api_path(id: &str) -> (path: String)
    ensures
        path@ == product_api_path_of(id@),
{
    let mut path = "/api/=/product.json?workno=".to_owned();
    path.append(id);
    path
}

/// Whether `r` is the outcome of reading the payload `j`: a list of
/// products, each of which has to decode, and of which the first is the
/// answer.
pub open spec fn product_api_decoded(j: JsonView, r: Result<ProductApiContent, DlsiteError>) -> bool {
    match Vec::<ProductApiContent>::failure(j) {
        Some(message) => r is Err && r->Err_0.is_shape("Failed to parse json: "@ + message),
        None => if j->Array_0.len() == 0 {
            r is Err && r->Err_0.is_shape("No product found"@)
        } else {
            r is Ok && r->Ok_0.decoded_from(j->Array_0[0])
        },
    }
}

/// The product that the payload `j` holds.
pub fn decode_product_api_json(j: &Json) -> (r: Result<ProductApiContent, DlsiteError>)
    ensures
        product_api_decoded(j.deep_view(), r),
{
    match Vec::<ProductApiContent>::from_json(j) {
        Ok(list) => {
            let mut list = list;
            if list.len() == 0 {
                Err(DlsiteError::shape("No product found"))
            } else {
                Ok(list.swap_remove(0))
            }
        },
        Err(e) => {
            let mut message = "Failed to parse json: ".to_owned();
            message.append(e.message().as_str());
            Err(DlsiteError::Parse(FailureKind::ShapeMismatch, message))
        },
    }
}

/// Whether `r` is the outcome of reading the payload `text`.
pub open spec fn product_api_text_decoded(
    text: Seq<char>,
    r: Result<ProductApiContent, DlsiteError>,
) -> bool {
    match json_of_text(text) {
        Some(j) => product_api_decoded(j, r),
        None => r is Err && exists|e: serde_json::Error|
            r->Err_0.is_shape("Failed to parse json: "@ + json_error_text(e)),
    }
}

/// The product that the payload `text` holds. A text that is no JSON is
/// reported as a mismatch of shape too, with the words of the JSON reader.
pub fn decode_product_api(text: &str) -> (r: Result<ProductApiContent, DlsiteError>)
    ensures
        product_api_text_decoded(text@, r),
{
    match parse_json(text) {
        Ok(j) => decode_product_api_json(&j),
        Err(e) => {
            let mut message = "Failed to parse json: ".to_owned();
            message.append(e.message().as_str());
            proof {
                assert(e is SerdeJson);
                assert(message@ == "Failed to parse json: "@ + json_error_text(e->SerdeJson_0));
            }
            Err(DlsiteError::Parse(FailureKind::ShapeMismatch, message))
        },
    }
}

} // verus!
