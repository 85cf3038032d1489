//! Admission of an upload: the size limit and the two checks that the
//! content is an image, one on what the sender declared and one on what
//! the bytes themselves look like.

use vstd::prelude::*;
use vstd::string::*;

verus! {

/// The largest upload accepted, in bytes: 25 MiB.
pub const MAX_UPLOAD_BYTES: usize = 25 * 1024 * 1024;

/// Why an upload did not end with a stored image.
#[derive(Clone, Copy, PartialEq, Eq, Debug, Structural)]
pub enum UploadError {
    /// The content is larger than [`MAX_UPLOAD_BYTES`].
    PayloadTooLarge,
    /// No usable content type was declared.
    BadRequest,
    /// The declared type or the content itself is not an image.
    UnsupportedMediaType,
    /// The metadata record could not be written; no blob was written.
    MetadataWriteFailed,
    /// The blob could not be written; the record was taken back if possible.
    BlobWriteFailed,
}

/// The top-level type that `mime` reads out of a content type, in lower
/// case, or `None` where `mime` rejects the text.
pub uninterp spec fn media_top_level(content_type: Seq<char>) -> Option<Seq<char>>;

/// The text held by an optional string slice.
pub open spec fn text_of(s: Option<&str>) -> Option<Seq<char>> {
    match s {
        Some(s) => Some(s@),
        None => None,
    }
}

/// The text held by an optional string.
pub open spec fn text_in(s: Option<String>) -> Option<Seq<char>> {
    match s {
        Some(s) => Some(s@),
        None => None,
    }
}

/// Parsing with `mime::Mime::from_str`, then `mime::Mime::type_`.
///
/// Trusted: the result is a function of the text alone. Nothing more is
/// claimed; in particular not which texts `mime` accepts.
#[verifier::external_body]
fn parse_top_level(content_type: &str) -> (top: Option<String>)
    ensures
        text_in(top) == media_top_level(content_type@),
{
    match content_type.parse::<mime::Mime>() {
        Ok(parsed) => Some(parsed.type_().as_str().to_owned()),
        Err(_) => None,
    }
}

/// `tree_magic_mini::from_u8`: the media type that the bytes look like.
///
/// Trusted, with nothing claimed of the result: the outside function
/// matches the bytes against the shared MIME database that it finds on the
/// machine, so the answer is not a function of the bytes alone. With a
/// well-formed database, or with none, it returns for every input.
#[verifier::external_body]
fn sniff(data: &Vec<u8>) -> (media_type: String) {
    tree_magic_mini::from_u8(data.as_slice()).to_owned()
}

/// Whether a declared top-level type is the image category.
pub open spec fn is_image_category(top: Seq<char>) -> bool {
    top == "image"@
}

/// Whether a sniffed media type lies in the image category.
pub open spec fn is_image_type(media_type: Seq<char>) -> bool {
    "image"@.is_prefix_of(media_type)
}

/// Why an upload is turned away, if it is. The checks run in this order
/// and the first that fails decides: size, presence of a declared type,
/// category of the declared type, category of the sniffed type.
pub open spec fn refusal(
    size: nat,
    declared_top: Option<Seq<char>>,
    sniffed: Seq<char>,
) -> Option<UploadError> {
    if size > MAX_UPLOAD_BYTES {
        Some(UploadError::PayloadTooLarge)
    } else if declared_top is None {
        Some(UploadError::BadRequest)
    } else if !is_image_category(declared_top->0) {
        Some(UploadError::UnsupportedMediaType)
    } else if !is_image_type(sniffed) {
        Some(UploadError::UnsupportedMediaType)
    } else {
        None
    }
}

/// Whether `verdict` is what the checks give for an upload of `size`
/// bytes with the given declared top-level type and sniffed type.
pub open spec fn is_verdict(
    verdict: Result<(), UploadError>,
    size: nat,
    declared_top: Option<Seq<char>>,
    sniffed: Seq<char>,
) -> bool {
    match refusal(size, declared_top, sniffed) {
        Some(error) => verdict == Err::<(), UploadError>(error),
        None => verdict is Ok,
    }
}

/// Whether `text` begins with `prefix`.
pub fn starts_with(text: &str, prefix: &str) -> (yes: bool)
    ensures
        yes == prefix@.is_prefix_of(text@),
{
    let n: usize = prefix.unicode_len();
    if text.unicode_len() < n {
        return false;
    }
    let mut i: usize = 0;
    while i < n
        invariant
            n == prefix@.len(),
            n <= text@.len(),
            i <= n,
            forall|j: int| 0 <= j < i ==> text@[j] == prefix@[j],
        decreases n - i,
    {
        if text.get_char(i) != prefix.get_char(i) {
            return false;
        }
        i += 1;
    }
    true
}

/// Whether a declared top-level type is the image category.
pub fn declares_image(top: &str) -> (yes: bool)
    ensures
        yes == is_image_category(top@),
{
    proof {
        reveal_strlit("image");
    }
    let yes = top.unicode_len() == 5 && starts_with(top, "image");
    proof {
        if yes {
            assert(top@ =~= top@.subrange(0, 5));
        }
    }
    yes
}

/// Whether a sniffed media type lies in the image category.
pub fn looks_like_image(media_type: &str) -> (yes: bool)
    ensures
        yes == is_image_type(media_type@),
{
    starts_with(media_type, "image")
}

/// Screens an upload of `size` bytes whose declared content type has the
/// top-level type `declared_top` and whose bytes were sniffed as `sniffed`.
pub fn screen(size: usize, declared_top: Option<&str>, sniffed: &str) -> (verdict: Result<
    (),
    UploadError,
>)
    ensures
        is_verdict(verdict, size as nat, text_of(declared_top), sniffed@),
{
    if size > MAX_UPLOAD_BYTES {
        return Err(UploadError::PayloadTooLarge);
    }
    match declared_top {
        None => Err(UploadError::BadRequest),
        Some(top) => {
            if !declares_image(top) {
                Err(UploadError::UnsupportedMediaType)
            } else if !looks_like_image(sniffed) {
                Err(UploadError::UnsupportedMediaType)
            } else {
                Ok(())
            }
        },
    }
}

/// The top-level type of a declared content type as `mime` reads it; a
/// content type that is absent or that `mime` rejects has none.
pub open spec fn declared_top_level(declared: Option<&str>) -> Option<Seq<char>> {
    match declared {
        Some(content_type) => media_top_level(content_type@),
        None => None,
    }
}

/// Reads the top-level type out of a declared content type.
pub fn read_declared(declared: Option<&str>) -> (top: Option<String>)
    ensures
        text_in(top) == declared_top_level(declared),
{
    match declared {
        Some(content_type) => parse_top_level(content_type),
        None => None,
    }
}

/// Screens an upload from what arrived: the bytes and the content type as
/// the sender declared it. The declared type is read with `mime`; the bytes
/// are sniffed only when size and declared type have passed.
///
/// Whatever the sniffer answers, the verdict is the one that [`screen`]
/// gives for some sniffed type, with the declared type read by `mime`. So
/// the first three checks are decided here, and only the last is left to
/// the sniffer.
pub fn inspect(data: &Vec<u8>, declared: Option<&str>) -> (verdict: Result<(), UploadError>)
    ensures
        exists|sniffed: Seq<char>| #[trigger]
            is_verdict(verdict, data@.len(), declared_top_level(declared), sniffed),
{
    let ghost nothing = Seq::<char>::empty();
    let size: usize = data.len();
    if size > MAX_UPLOAD_BYTES {
        let verdict = Err(UploadError::PayloadTooLarge);
        assert(is_verdict(verdict, data@.len(), declared_top_level(declared), nothing));
        return verdict;
    }
    match read_declared(declared) {
        None => {
            let verdict = Err(UploadError::BadRequest);
            assert(is_verdict(verdict, data@.len(), declared_top_level(declared), nothing));
            verdict
        },
        Some(top) => {
            if !declares_image(top.as_str()) {
                let verdict = Err(UploadError::UnsupportedMediaType);
                assert(is_verdict(verdict, data@.len(), declared_top_level(declared), nothing));
                verdict
            } else {
                let sniffed = sniff(data);
                screen(size, Some(top.as_str()), sniffed.as_str())
            }
        },
    }
}

} // verus!
