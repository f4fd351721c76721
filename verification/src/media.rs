//! Which files count as images, and what content type a file name implies.

use vstd::prelude::*;
use crate::{same_text, text_model};

verus! {

/// The file extensions of the images that the server accepts.
pub const ALLOWED_IMAGE_EXTENSIONS: [&'static str; 5] = ["jpg", "jpeg", "png", "webp", "gif"];

/// The content type that stands in where none can be guessed.
pub open spec fn octet_stream() -> Seq<char> {
    "application/octet-stream"@
}

/// Whether `extension` is one of [`ALLOWED_IMAGE_EXTENSIONS`].
pub open spec fn allowed_extension(extension: Seq<char>) -> bool {
    exists|i: int| 0 <= i < 5 && (#[trigger] ALLOWED_IMAGE_EXTENSIONS[i])@ == extension
}

/// The allow-list, spelled out.
pub proof fn lemma_allowed_extensions(extension: Seq<char>)
    ensures
        allowed_extension(extension) <==> {
            ||| extension == "jpg"@
            ||| extension == "jpeg"@
            ||| extension == "png"@
            ||| extension == "webp"@
            ||| extension == "gif"@
        },
{
    assert(ALLOWED_IMAGE_EXTENSIONS[0]@ == "jpg"@);
    assert(ALLOWED_IMAGE_EXTENSIONS[1]@ == "jpeg"@);
    assert(ALLOWED_IMAGE_EXTENSIONS[2]@ == "png"@);
    assert(ALLOWED_IMAGE_EXTENSIONS[3]@ == "webp"@);
    assert(ALLOWED_IMAGE_EXTENSIONS[4]@ == "gif"@);
}

/// Whether `extension` is one of [`ALLOWED_IMAGE_EXTENSIONS`]. The
/// comparison is exact: `JPG` is not `jpg`.
pub fn is_allowed_extension(extension: &str) -> (allowed: bool)
    ensures
        allowed == allowed_extension(extension@),
{
    let mut i: usize = 0;
    while i < 5
        invariant
            i <= 5,
            forall|j: int| 0 <= j < i ==> (#[trigger] ALLOWED_IMAGE_EXTENSIONS[j])@ != extension@,
        decreases 5 - i,
    {
        if same_text(ALLOWED_IMAGE_EXTENSIONS[i], extension) {
            return true;
        }
        i += 1;
    }
    false
}

/// The media type that the mime_guess crate lists first for the extension of
/// a path, if it lists any.
pub uninterp spec fn guessed_mime(path: Seq<char>) -> Option<Seq<char>>;

/// `mime_guess::from_path(..).first()`, as text: the crate looks the path's
/// extension up in its table of media types, without touching the disk, and
/// the result depends on the path alone. Which type belongs to which
/// extension is the crate's business and not stated here.
#[verifier::external_body]
pub(crate) fn guess_mime(path: &str) -> (mime: Option<String>)
    ensures
        text_model(mime) == guessed_mime(path@),
{
    match mime_guess::from_path(path).first() {
        Some(mime) => Some(mime.to_string()),
        None => None,
    }
}

/// The content type that a file name implies, with
/// `application/octet-stream` for a name that implies none.
pub fn content_type_or_octet_stream(path: &str) -> (content_type: String)
    ensures
        content_type@ == match guessed_mime(path@) {
            Some(mime) => mime,
            None => octet_stream(),
        },
{
    match guess_mime(path) {
        Some(mime) => mime,
        None => "application/octet-stream".to_string(),
    }
}

} // verus!

verus! {

/// The part of `text` behind its last `/`: all of it where it holds none.
pub open spec fn after_last_slash(text: Seq<char>) -> Seq<char>
    decreases text.len(),
{
    if text.len() == 0 {
        text
    } else if text.last() == '/' {
        Seq::empty()
    } else {
        after_last_slash(text.drop_last()).push(text.last())
    }
}

/// The part of a content type behind its last `/`.
pub fn subtype(content_type: &str) -> (tail: &str)
    ensures
        tail@ == after_last_slash(content_type@),
{
    let length = content_type.unicode_len();
    let mut start: usize = 0;
    let mut seen: usize = 0;
    for c in it: content_type.chars()
        invariant
            it.seq() == content_type@,
            length == content_type@.len(),
            seen == it.index(),
            start <= seen <= length,
            after_last_slash(content_type@.take(seen as int)) == content_type@.subrange(
                start as int,
                seen as int,
            ),
    {
        proof {
            let longer = content_type@.take(seen + 1);
            assert(longer.drop_last() == content_type@.take(seen as int));
            assert(longer.last() == c);
            if c != '/' {
                assert(content_type@.subrange(start as int, seen as int).push(c)
                    == content_type@.subrange(start as int, seen + 1));
            }
        }
        seen = seen + 1;
        if c == '/' {
            start = seen;
        }
    }
    assert(content_type@.take(seen as int) == content_type@);
    content_type.substring_char(start, seen)
}

} // verus!
