//! Image request settings and the query parameters derived from them.

use crate::digits::{dec_digits, u16_to_string};
use vstd::prelude::*;

verus! {

/// Output format of a requested image.
#[derive(Debug, Ord, PartialOrd, Eq, PartialEq, Hash, Copy, Clone)]
pub enum FileType {
    Jpeg,
    Webp,
}

/// The canonical lowercase file extension of a format, as it appears in
/// request paths.
pub open spec fn extension(t: FileType) -> Seq<char> {
    match t {
        FileType::Jpeg => "jpg"@,
        FileType::Webp => "webp"@,
    }
}

impl FileType {
    /// The canonical extension string for this format.
    pub fn as_string(&self) -> (r: &'static str)
        ensures
            r@ == extension(*self),
    {
        match self {
            FileType::Jpeg => "jpg",
            FileType::Webp => "webp",
        }
    }
}

/// Immutable configuration for an image fetch.
///
/// `width` and `height` are required and passed through unchecked; the
/// service validates ranges on its side. `grayscale` defaults to false,
/// `blur` to 0 (none) and `file_type` to JPEG. A stored blur above 10 is
/// not rejected: it is clamped to 10 at the point of use.
#[derive(Debug, Copy, Clone, PartialEq, Eq, Hash)]
pub struct ImageSettings {
    pub width: u16,
    pub height: u16,
    pub grayscale: bool,
    pub blur: u8,
    pub file_type: FileType,
}

/// The blur level actually sent on the wire: the stored level, clamped
/// to 10.
pub open spec fn effective_blur(s: ImageSettings) -> u8 {
    if s.blur > 10 {
        10
    } else {
        s.blur
    }
}

/// The query parameters derived from the settings: `grayscale=true` only
/// when the flag is set (never `grayscale=false`), then
/// `blur=<effective blur>` only when a nonzero blur is stored; nothing
/// else, always in that order.
pub open spec fn query_params(s: ImageSettings) -> Seq<(Seq<char>, Seq<char>)> {
    let g: Seq<(Seq<char>, Seq<char>)> = if s.grayscale {
        seq![("grayscale"@, "true"@)]
    } else {
        Seq::empty()
    };
    let b: Seq<(Seq<char>, Seq<char>)> = if s.blur > 0 {
        seq![("blur"@, dec_digits(effective_blur(s) as nat))]
    } else {
        Seq::empty()
    };
    g + b
}

impl ImageSettings {
    /// Settings for a `width` x `height` image with all optional fields
    /// at their defaults: no grayscale, no blur, JPEG output.
    pub fn new(width: u16, height: u16) -> (r: Self)
        ensures
            r == (ImageSettings {
                width,
                height,
                grayscale: false,
                blur: 0,
                file_type: FileType::Jpeg,
            }),
    {
        ImageSettings { width, height, grayscale: false, blur: 0, file_type: FileType::Jpeg }
    }

    /// The same settings with the grayscale flag replaced.
    pub fn with_grayscale(self, grayscale: bool) -> (r: Self)
        ensures
            r == (ImageSettings { grayscale, ..self }),
    {
        ImageSettings { grayscale, ..self }
    }

    /// The same settings with the stored blur level replaced. Levels
    /// above 10 are kept as stored and clamped at use time.
    pub fn with_blur(self, blur: u8) -> (r: Self)
        ensures
            r == (ImageSettings { blur, ..self }),
    {
        ImageSettings { blur, ..self }
    }

    /// The same settings with the output format replaced.
    pub fn with_file_type(self, file_type: FileType) -> (r: Self)
        ensures
            r == (ImageSettings { file_type, ..self }),
    {
        ImageSettings { file_type, ..self }
    }

    /// The blur level used in requests: the stored level, clamped to 10.
    pub fn get_blur_value(&self) -> (r: u8)
        ensures
            r == effective_blur(*self),
    {
        if self.blur > 10 {
            10
        } else {
            self.blur
        }
    }

    /// Whether a blur parameter is emitted at all; decided on the stored
    /// level, before clamping.
    pub fn has_blur(&self) -> (r: bool)
        ensures
            r == (self.blur > 0),
    {
        self.blur > 0
    }

    /// Whether the grayscale parameter is emitted.
    pub fn is_grayscale(&self) -> (r: bool)
        ensures
            r == self.grayscale,
    {
        self.grayscale
    }

    /// The query parameters for these settings, exactly as
    /// [`query_params`] lists them.
    pub fn generate_query_params(&self) -> (r: Vec<(String, String)>)
        ensures
            r.deep_view() == query_params(*self),
    {
        let mut params: Vec<(String, String)> = Vec::new();
        if self.is_grayscale() {
            params.push(("grayscale".to_owned(), "true".to_owned()));
        }
        if self.has_blur() {
            params.push(("blur".to_owned(), u16_to_string(self.get_blur_value() as u16)));
        }
        proof {
            assert(params.deep_view() =~~= query_params(*self));
        }
        params
    }
}

impl Default for ImageSettings {
    /// A 400 x 400 image with no grayscale, no blur and JPEG output.
    fn default() -> (r: Self)
        ensures
            r == (ImageSettings {
                width: 400,
                height: 400,
                grayscale: false,
                blur: 0,
                file_type: FileType::Jpeg,
            }),
    {
        ImageSettings {
            width: 400,
            height: 400,
            grayscale: false,
            blur: 0,
            file_type: FileType::Jpeg,
        }
    }
}

/// Clamping law: whenever the stored blur level is above 10, the emitted
/// parameter is exactly `blur=10`.
pub proof fn lemma_blur_clamped(s: ImageSettings)
    requires
        s.blur > 10,
    ensures
        query_params(s).last() == ("blur"@, "10"@),
{
    reveal_strlit("10");
    assert(dec_digits(1) =~= seq!['1']);
    assert(dec_digits(10) =~= seq!['1', '0']);
    assert(dec_digits(10) =~= "10"@);
}

/// No `blur` parameter is emitted for a stored level of 0; for levels 1
/// to 10 the parameter is `blur=<level>`, unclamped.
pub proof fn lemma_blur_in_range(s: ImageSettings)
    ensures
        s.blur == 0 ==> forall|i: int|
            0 <= i < query_params(s).len() ==> (#[trigger] query_params(s)[i]).0 != "blur"@,
        1 <= s.blur <= 10 ==> query_params(s).last() == ("blur"@, dec_digits(s.blur as nat)),
{
    reveal_strlit("blur");
    reveal_strlit("grayscale");
    assert("grayscale"@.len() == 9);
    assert("blur"@.len() == 4);
}

/// No `grayscale` parameter is emitted when the flag is false; when it
/// is true, exactly one is emitted, and it is `grayscale=true`.
pub proof fn lemma_grayscale_param(s: ImageSettings)
    ensures
        !s.grayscale ==> forall|i: int|
            0 <= i < query_params(s).len() ==> (#[trigger] query_params(s)[i]).0 != "grayscale"@,
        s.grayscale ==> query_params(s)[0] == ("grayscale"@, "true"@) && forall|i: int|
            1 <= i < query_params(s).len() ==> (#[trigger] query_params(s)[i]).0 != "grayscale"@,
{
    reveal_strlit("blur");
    reveal_strlit("grayscale");
    assert("grayscale"@.len() == 9);
    assert("blur"@.len() == 4);
}

} // verus!
