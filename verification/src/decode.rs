//! Decoding of the JSON-bearing endpoints' bodies.
//!
//! Parsing JSON text is supplied by serde_json; the library walks the
//! parsed value itself and enforces the shape of the metadata records:
//! every field present, dimensions within range. serde_json computes
//! deterministically from its input alone, so its results are given
//! names (`parsed_json`, `json_field`, ...) that the contracts here
//! speak of exactly.

use crate::entities::ImageDetails;
use crate::error::RequestError;
use vstd::prelude::*;

verus! {

#[verifier::external_type_specification]
#[verifier::external_body]
pub struct ExJsonValue(serde_json::Value);

/// What serde_json::from_slice yields on these bytes: the parsed
/// document, or nothing when the bytes are not one well-formed JSON
/// document.
pub uninterp spec fn parsed_json(bytes: Seq<u8>) -> Option<serde_json::Value>;

/// What serde_json::Value::get yields for a string key: the named
/// field, or nothing when the value is not an object or has no such
/// field.
pub uninterp spec fn json_field(v: serde_json::Value, key: Seq<char>) -> Option<
    serde_json::Value,
>;

/// What serde_json::Value::as_str yields: the characters of a JSON
/// string, nothing for a value of any other kind.
pub uninterp spec fn json_str(v: serde_json::Value) -> Option<Seq<char>>;

/// What serde_json::Value::as_u64 yields: the value of a JSON integer
/// representable as u64, nothing for a value of any other kind.
pub uninterp spec fn json_u64(v: serde_json::Value) -> Option<u64>;

/// What serde_json::Value::as_array yields: the elements of a JSON
/// array, nothing for a value of any other kind.
pub uninterp spec fn json_array(v: serde_json::Value) -> Option<Seq<serde_json::Value>>;

/// Relies on serde_json::from_slice: parses the bytes as one JSON
/// document, reporting a parse failure as its error text. The outcome
/// is a function of the bytes alone.
#[verifier::external_body]
pub(crate) fn json_parse(bytes: &[u8]) -> (r: Result<serde_json::Value, String>)
    ensures
        match r {
            Ok(v) => parsed_json(bytes@) == Some(v),
            Err(_) => parsed_json(bytes@) is None,
        },
{
    serde_json::from_slice(bytes).map_err(|e| e.to_string())
}

/// Relies on serde_json::Value::get: looks a key up in a JSON object;
/// nothing is found in a value of any other kind.
#[verifier::external_body]
fn json_get<'a>(v: &'a serde_json::Value, key: &str) -> (r: Option<&'a serde_json::Value>)
    ensures
        match r {
            Some(f) => json_field(*v, key@) == Some(*f),
            None => json_field(*v, key@) is None,
        },
{
    v.get(key)
}

/// Relies on serde_json::Value::as_str: the content of a JSON string,
/// nothing for a value of any other kind.
#[verifier::external_body]
fn json_as_str(v: &serde_json::Value) -> (r: Option<String>)
    ensures
        match r {
            Some(s) => json_str(*v) == Some(s@),
            None => json_str(*v) is None,
        },
{
    v.as_str().map(str::to_owned)
}

/// Relies on serde_json::Value::as_u64: the value of a JSON integer
/// representable as u64, nothing for a value of any other kind.
#[verifier::external_body]
fn json_as_u64(v: &serde_json::Value) -> (r: Option<u64>)
    ensures
        r == json_u64(*v),
{
    v.as_u64()
}

/// Relies on serde_json::Value::as_array: the elements of a JSON array,
/// nothing for a value of any other kind.
#[verifier::external_body]
fn json_as_array(v: &serde_json::Value) -> (r: Option<Vec<serde_json::Value>>)
    ensures
        match r {
            Some(a) => json_array(*v) == Some(a@),
            None => json_array(*v) is None,
        },
{
    v.as_array().cloned()
}

/// The string content of the named field of a parsed value.
pub open spec fn field_str(v: serde_json::Value, key: Seq<char>) -> Option<Seq<char>> {
    match json_field(v, key) {
        Some(f) => json_str(f),
        None => None,
    }
}

/// The integer content of the named field of a parsed value.
pub open spec fn field_u64(v: serde_json::Value, key: Seq<char>) -> Option<u64> {
    match json_field(v, key) {
        Some(f) => json_u64(f),
        None => None,
    }
}

fn json_field_str(v: &serde_json::Value, key: &str) -> (r: Option<String>)
    ensures
        match r {
            Some(s) => field_str(*v, key@) == Some(s@),
            None => field_str(*v, key@) is None,
        },
{
    match json_get(v, key) {
        Some(f) => json_as_str(f),
        None => None,
    }
}

fn json_field_u64(v: &serde_json::Value, key: &str) -> (r: Option<u64>)
    ensures
        r == field_u64(*v, key@),
{
    match json_get(v, key) {
        Some(f) => json_as_u64(f),
        None => None,
    }
}

/// Whether a parsed JSON value holds one well-formed metadata record:
/// all six fields present with the right kinds, and both dimensions
/// within u16 range.
pub open spec fn details_ok_of(v: serde_json::Value) -> bool {
    &&& field_str(v, "id"@) is Some
    &&& field_str(v, "author"@) is Some
    &&& field_u64(v, "width"@) matches Some(w) && w <= u16::MAX
    &&& field_u64(v, "height"@) matches Some(h) && h <= u16::MAX
    &&& field_str(v, "url"@) is Some
    &&& field_str(v, "download_url"@) is Some
}

/// Whether `d` is exactly the record that the parsed value `v` decodes
/// to: `v` is well-formed and every field of `d` is the named content
/// of the corresponding JSON field.
pub open spec fn details_matches(v: serde_json::Value, d: ImageDetails) -> bool {
    &&& details_ok_of(v)
    &&& Some(d.id@) == field_str(v, "id"@)
    &&& Some(d.author@) == field_str(v, "author"@)
    &&& Some(d.width as u64) == field_u64(v, "width"@)
    &&& Some(d.height as u64) == field_u64(v, "height"@)
    &&& Some(d.url@) == field_str(v, "url"@)
    &&& Some(d.download_url@) == field_str(v, "download_url"@)
}

/// Whether one metadata record can be assembled from the raw decoded
/// fields: every field present, and both dimensions within u16 range.
pub open spec fn details_fields_ok(
    id: Option<String>,
    author: Option<String>,
    width: Option<u64>,
    height: Option<u64>,
    url: Option<String>,
    download_url: Option<String>,
) -> bool {
    &&& id is Some
    &&& author is Some
    &&& width matches Some(w) && w <= u16::MAX
    &&& height matches Some(h) && h <= u16::MAX
    &&& url is Some
    &&& download_url is Some
}

/// Assembles one metadata record from raw decoded fields. Succeeds, with
/// every field carried over verbatim, if and only if all fields are
/// present and the dimensions fit; any shortfall is an `InvalidResponse`
/// naming the first offending field.
pub fn details_from_fields(
    id: Option<String>,
    author: Option<String>,
    width: Option<u64>,
    height: Option<u64>,
    url: Option<String>,
    download_url: Option<String>,
) -> (r: Result<ImageDetails, RequestError>)
    ensures
        details_fields_ok(id, author, width, height, url, download_url) ==> (match r {
            Ok(d) => {
                &&& d.id == id.unwrap()
                &&& d.author == author.unwrap()
                &&& d.width == width.unwrap() as u16
                &&& d.height == height.unwrap() as u16
                &&& d.url == url.unwrap()
                &&& d.download_url == download_url.unwrap()
            },
            Err(_) => false,
        }),
        !details_fields_ok(id, author, width, height, url, download_url) ==> (r matches Err(
            RequestError::InvalidResponse(_),
        )),
{
    let id = match id {
        Some(v) => v,
        None => {
            return Err(RequestError::InvalidResponse("missing or invalid field `id`".to_owned()));
        },
    };
    let author = match author {
        Some(v) => v,
        None => {
            return Err(
                RequestError::InvalidResponse("missing or invalid field `author`".to_owned()),
            );
        },
    };
    let width = match width {
        Some(v) => v,
        None => {
            return Err(
                RequestError::InvalidResponse("missing or invalid field `width`".to_owned()),
            );
        },
    };
    if width > 65535 {
        return Err(RequestError::InvalidResponse("field `width` out of range".to_owned()));
    }
    let height = match height {
        Some(v) => v,
        None => {
            return Err(
                RequestError::InvalidResponse("missing or invalid field `height`".to_owned()),
            );
        },
    };
    if height > 65535 {
        return Err(RequestError::InvalidResponse("field `height` out of range".to_owned()));
    }
    let url = match url {
        Some(v) => v,
        None => {
            return Err(RequestError::InvalidResponse("missing or invalid field `url`".to_owned()));
        },
    };
    let download_url = match download_url {
        Some(v) => v,
        None => {
            return Err(
                RequestError::InvalidResponse("missing or invalid field `download_url`".to_owned()),
            );
        },
    };
    Ok(
        ImageDetails {
            id,
            author,
            width: width as u16,
            height: height as u16,
            url,
            download_url,
        },
    )
}

/// Decodes one metadata record from a parsed JSON value: the record
/// whose fields are the named field contents if and only if the value
/// is well-formed, and an `InvalidResponse` otherwise.
pub fn details_from_json(v: &serde_json::Value) -> (r: Result<ImageDetails, RequestError>)
    ensures
        details_ok_of(*v) ==> (r matches Ok(d) && details_matches(*v, d)),
        !details_ok_of(*v) ==> r matches Err(RequestError::InvalidResponse(_)),
{
    let id = json_field_str(v, "id");
    let author = json_field_str(v, "author");
    let width = json_field_u64(v, "width");
    let height = json_field_u64(v, "height");
    let url = json_field_str(v, "url");
    let download_url = json_field_str(v, "download_url");
    details_from_fields(id, author, width, height, url, download_url)
}

/// Decodes each element of a JSON array into a metadata record: one
/// record per element, in order, each the named decode of its element,
/// if and only if every element is well-formed; any failing element
/// makes the whole list an `InvalidResponse`.
pub fn details_vec_from_values(vals: &Vec<serde_json::Value>) -> (r: Result<
    Vec<ImageDetails>,
    RequestError,
>)
    ensures
        r is Ok <==> (forall|i: int| 0 <= i < vals@.len() ==> details_ok_of(#[trigger] vals@[i])),
        r matches Ok(l) ==> l@.len() == vals@.len() && (forall|i: int|
            0 <= i < vals@.len() ==> details_matches(vals@[i], #[trigger] l@[i])),
        r matches Err(e) ==> e matches RequestError::InvalidResponse(_),
{
    let mut out: Vec<ImageDetails> = Vec::new();
    let mut i: usize = 0;
    while i < vals.len()
        invariant
            i <= vals@.len(),
            out@.len() == i,
            forall|j: int| 0 <= j < i ==> details_ok_of(#[trigger] vals@[j]),
            forall|j: int| 0 <= j < i ==> details_matches(vals@[j], #[trigger] out@[j]),
        decreases vals@.len() - i,
    {
        match details_from_json(&vals[i]) {
            Ok(d) => out.push(d),
            Err(e) => {
                return Err(e);
            },
        }
        i += 1;
    }
    Ok(out)
}

/// How a list decode relates to the parsed JSON value: a value that is
/// not an array is an `InvalidResponse`; an array decodes element for
/// element as [`details_vec_from_values`] prescribes.
pub open spec fn list_decode_matches(
    v: serde_json::Value,
    r: Result<Vec<ImageDetails>, RequestError>,
) -> bool {
    match json_array(v) {
        None => r matches Err(RequestError::InvalidResponse(_)),
        Some(arr) => {
            &&& (r is Ok <==> (forall|i: int|
                0 <= i < arr.len() ==> details_ok_of(#[trigger] arr[i])))
            &&& (r matches Ok(l) ==> l@.len() == arr.len() && (forall|i: int|
                0 <= i < arr.len() ==> details_matches(arr[i], #[trigger] l@[i])))
            &&& (r matches Err(e) ==> e matches RequestError::InvalidResponse(_))
        },
    }
}

/// Decodes a parsed JSON value as an array of metadata records, exactly
/// as [`list_decode_matches`] prescribes.
pub fn details_list_from_json(v: &serde_json::Value) -> (r: Result<Vec<ImageDetails>, RequestError>)
    ensures
        list_decode_matches(*v, r),
{
    match json_as_array(v) {
        None => Err(RequestError::InvalidResponse("expected a JSON array".to_owned())),
        Some(vals) => {
            let r = details_vec_from_values(&vals);
            proof {
                assert(json_array(*v).unwrap() == vals@);
            }
            r
        },
    }
}

} // verus!
