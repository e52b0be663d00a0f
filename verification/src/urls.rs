//! Request URL construction for the four service operations.

use crate::digits::{dec_digits, u16_to_string};
use crate::query::{encode_query, encode_query_chars};
use crate::settings::{extension, query_params, ImageSettings};
use vstd::prelude::*;

verus! {

/// What is appended after the path for an image request: nothing when no
/// parameter is emitted, else `?` and the encoded parameters.
pub open spec fn query_suffix_chars(s: ImageSettings) -> Seq<char> {
    if query_params(s).len() == 0 {
        Seq::<char>::empty()
    } else {
        "?"@ + encode_query_chars(query_params(s))
    }
}

/// URL of a fetch of the image with a given id:
/// `{base}/id/{id}/{width}/{height}.{ext}` and the query suffix.
pub open spec fn image_url_chars(base: Seq<char>, id: Seq<char>, s: ImageSettings) -> Seq<char> {
    base + "/id/"@ + id + "/"@ + dec_digits(s.width as nat) + "/"@ + dec_digits(s.height as nat)
        + "."@ + extension(s.file_type) + query_suffix_chars(s)
}

/// URL of a random-image fetch: `{base}/{width}/{height}.{ext}` and the
/// query suffix.
pub open spec fn random_image_url_chars(base: Seq<char>, s: ImageSettings) -> Seq<char> {
    base + "/"@ + dec_digits(s.width as nat) + "/"@ + dec_digits(s.height as nat) + "."@
        + extension(s.file_type) + query_suffix_chars(s)
}

/// URL of a details lookup: `{base}/id/{id}/info`, never any query.
pub open spec fn details_url_chars(base: Seq<char>, id: Seq<char>) -> Seq<char> {
    base + "/id/"@ + id + "/info"@
}

/// URL of a list request: `{base}/v2/list?page={page}&limit={limit}`,
/// both parameters always present.
pub open spec fn list_url_chars(base: Seq<char>, page: u16, limit: u8) -> Seq<char> {
    base + "/v2/list?page="@ + dec_digits(page as nat) + "&limit="@ + dec_digits(limit as nat)
}

fn append_query_suffix(url: &mut String, settings: &ImageSettings)
    ensures
        final(url)@ == old(url)@ + query_suffix_chars(*settings),
{
    let params = settings.generate_query_params();
    proof {
        assert(params@.len() == params.deep_view().len());
    }
    if params.len() > 0 {
        url.append("?");
        let q = encode_query(&params);
        url.append(q.as_str());
    }
    proof {
        assert(final(url)@ =~= old(url)@ + query_suffix_chars(*settings));
    }
}

/// Builds the URL of a fetch by id, exactly as [`image_url_chars`]
/// lays it out.
pub fn image_url(base_url: &str, id: &str, settings: &ImageSettings) -> (r: String)
    ensures
        r@ == image_url_chars(base_url@, id@, *settings),
{
    let mut url = base_url.to_owned();
    url.append("/id/");
    url.append(id);
    url.append("/");
    url.append(u16_to_string(settings.width).as_str());
    url.append("/");
    url.append(u16_to_string(settings.height).as_str());
    url.append(".");
    url.append(settings.file_type.as_string());
    append_query_suffix(&mut url, settings);
    proof {
        assert(url@ =~= image_url_chars(base_url@, id@, *settings));
    }
    url
}

/// Builds the URL of a random-image fetch, exactly as
/// [`random_image_url_chars`] lays it out.
pub fn random_image_url(base_url: &str, settings: &ImageSettings) -> (r: String)
    ensures
        r@ == random_image_url_chars(base_url@, *settings),
{
    let mut url = base_url.to_owned();
    url.append("/");
    url.append(u16_to_string(settings.width).as_str());
    url.append("/");
    url.append(u16_to_string(settings.height).as_str());
    url.append(".");
    url.append(settings.file_type.as_string());
    append_query_suffix(&mut url, settings);
    proof {
        assert(url@ =~= random_image_url_chars(base_url@, *settings));
    }
    url
}

/// Builds the URL of a details lookup, exactly as [`details_url_chars`]
/// lays it out.
pub fn details_url(base_url: &str, id: &str) -> (r: String)
    ensures
        r@ == details_url_chars(base_url@, id@),
{
    let mut url = base_url.to_owned();
    url.append("/id/");
    url.append(id);
    url.append("/info");
    proof {
        assert(url@ =~= details_url_chars(base_url@, id@));
    }
    url
}

/// Builds the URL of a list request, exactly as [`list_url_chars`]
/// lays it out.
pub fn list_url(base_url: &str, page: u16, limit: u8) -> (r: String)
    ensures
        r@ == list_url_chars(base_url@, page, limit),
{
    let mut url = base_url.to_owned();
    url.append("/v2/list?page=");
    url.append(u16_to_string(page).as_str());
    url.append("&limit=");
    url.append(u16_to_string(limit as u16).as_str());
    proof {
        assert(url@ =~= list_url_chars(base_url@, page, limit));
    }
    url
}

} // verus!
