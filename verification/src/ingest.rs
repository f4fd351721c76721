//! How configured sources become cache entries.
//!
//! The caller looks at the disk and at the network; the functions here take
//! what it saw and decide what the source is worth. A source that yields no
//! image is skipped, and never stops the others.

use vstd::prelude::*;
use crate::cache::{CacheKey, CacheValue, KeyModel, ValueModel};
use crate::config::{ImageSource, SourceModel};
use crate::media::{
    after_last_slash, allowed_extension, guess_mime, guessed_mime, is_allowed_extension, subtype,
};
use crate::text_model;

verus! {

/// The extension of a path, as `Path::extension` of std defines it.
pub uninterp spec fn path_extension(path: Seq<char>) -> Option<Seq<char>>;

/// `Path::extension` of std, on a path given as text: the part of the file
/// name behind its last dot, if the path has a file name with such a part.
/// No disk access is made, and the result depends on the path alone.
#[verifier::external_body]
fn extension_of(path: &str) -> (extension: Option<String>)
    ensures
        text_model(extension) == path_extension(path@),
{
    match std::path::Path::new(path).extension() {
        Some(extension) => Some(extension.to_string_lossy().into_owned()),
        None => None,
    }
}

/// Whether the extension of `path` is in the allow-list.
pub open spec fn image_path(path: Seq<char>) -> bool {
    match path_extension(path) {
        Some(extension) => allowed_extension(extension),
        None => false,
    }
}

/// Whether the extension of `path` is in the allow-list.
pub fn is_image_path(path: &str) -> (allowed: bool)
    ensures
        allowed == image_path(path@),
{
    match extension_of(path) {
        Some(extension) => is_allowed_extension(extension.as_str()),
        None => false,
    }
}

/// Why a file yields no image.
#[derive(Debug, Clone, Copy, PartialEq, Eq, Structural)]
pub enum ImageErrorKind {
    /// There is no regular file at the path.
    Missing,
    /// The path has no extension.
    NoExtension,
    /// The path's extension is not in the allow-list.
    Unsupported,
    /// The file could not be read.
    Unreadable,
    /// The path's extension implies no content type.
    UnknownContentType,
}

/// The mathematical value of an [`ImageError`].
pub struct ImageErrorModel {
    pub kind: ImageErrorKind,
    pub detail: Seq<char>,
}

/// Why a file yields no image: the kind of failure, and the path concerned
/// (for an unreadable file, what the read reported).
#[derive(Debug, Clone, PartialEq, Eq)]
pub struct ImageError {
    pub kind: ImageErrorKind,
    pub detail: String,
}

impl View for ImageError {
    type V = ImageErrorModel;

    open spec fn view(&self) -> ImageErrorModel {
        ImageErrorModel { kind: self.kind, detail: self.detail@ }
    }
}

/// The words that open the message of each kind of failure.
pub open spec fn image_error_opening(kind: ImageErrorKind) -> Seq<char> {
    match kind {
        ImageErrorKind::Missing => "Image file does not exist: "@,
        ImageErrorKind::NoExtension => "Image file has no extension: "@,
        ImageErrorKind::Unsupported => "Unsupported image file extension: "@,
        ImageErrorKind::Unreadable => "Failed to read image file: "@,
        ImageErrorKind::UnknownContentType =>
            "Failed to determine content type for image file: "@,
    }
}

impl ImageError {
    /// The error as a sentence.
    pub fn message(&self) -> (text: String)
        ensures
            text@ == image_error_opening(self.kind) + self.detail@,
    {
        let opening = match self.kind {
            ImageErrorKind::Missing => "Image file does not exist: ",
            ImageErrorKind::NoExtension => "Image file has no extension: ",
            ImageErrorKind::Unsupported => "Unsupported image file extension: ",
            ImageErrorKind::Unreadable => "Failed to read image file: ",
            ImageErrorKind::UnknownContentType =>
                "Failed to determine content type for image file: ",
        };
        opening.to_string().concat(self.detail.as_str())
    }
}

/// Why `path` is not admitted as an image file, if it is not: there must be
/// a regular file, and its extension must be in the allow-list.
pub open spec fn path_refusal(path: Seq<char>, is_file: bool) -> Option<ImageErrorModel> {
    if !is_file {
        Some(ImageErrorModel { kind: ImageErrorKind::Missing, detail: path })
    } else {
        match path_extension(path) {
            None => Some(ImageErrorModel { kind: ImageErrorKind::NoExtension, detail: path }),
            Some(extension) => if allowed_extension(extension) {
                None
            } else {
                Some(ImageErrorModel { kind: ImageErrorKind::Unsupported, detail: path })
            },
        }
    }
}

/// The mathematical value of the outcome of a read.
pub open spec fn read_model(contents: Result<Vec<u8>, String>) -> Result<Seq<u8>, Seq<char>> {
    match contents {
        Ok(data) => Ok(data@),
        Err(reason) => Err(reason@),
    }
}

/// The mathematical value of an image that a file may have yielded.
pub open spec fn image_model(image: Result<CacheValue, ImageError>) -> Result<
    ValueModel,
    ImageErrorModel,
> {
    match image {
        Ok(value) => Ok(value@),
        Err(error) => Err(error@),
    }
}

/// The image that the file at `path` yields, given whether a regular file is
/// there and what reading it gave.
pub open spec fn image_of_file(
    path: Seq<char>,
    is_file: bool,
    contents: Result<Seq<u8>, Seq<char>>,
) -> Result<ValueModel, ImageErrorModel> {
    match path_refusal(path, is_file) {
        Some(refusal) => Err(refusal),
        None => match contents {
            Err(reason) => Err(
                ImageErrorModel { kind: ImageErrorKind::Unreadable, detail: reason },
            ),
            Ok(data) => match guessed_mime(path) {
                None => Err(
                    ImageErrorModel { kind: ImageErrorKind::UnknownContentType, detail: path },
                ),
                Some(mime) => Ok(ValueModel { data, content_type: mime }),
            },
        },
    }
}

/// Decides, before anything is read, whether the file at `path` can be an
/// image: `is_file` says whether a regular file is there.
pub fn admit_image_path(path: &str, is_file: bool) -> (admitted: Result<(), ImageError>)
    ensures
        match admitted {
            Ok(_) => path_refusal(path@, is_file) is None,
            Err(error) => path_refusal(path@, is_file) == Some(error@),
        },
{
    if !is_file {
        return Err(ImageError { kind: ImageErrorKind::Missing, detail: path.to_string() });
    }
    match extension_of(path) {
        None => Err(ImageError { kind: ImageErrorKind::NoExtension, detail: path.to_string() }),
        Some(extension) => if is_allowed_extension(extension.as_str()) {
            Ok(())
        } else {
            Err(ImageError { kind: ImageErrorKind::Unsupported, detail: path.to_string() })
        },
    }
}

/// Read an image file from the given path and return it as a `CacheValue`
///
/// The caller has looked at the disk: `is_file` says whether a regular file
/// is at `path`, and `contents` is what reading it gave. The content type is
/// the one that the extension implies.
pub fn read_image_from_path(path: &str, is_file: bool, contents: Result<Vec<u8>, String>) -> (image:
    Result<CacheValue, ImageError>)
    ensures
        image_model(image) == image_of_file(path@, is_file, read_model(contents)),
{
    match admit_image_path(path, is_file) {
        Err(refusal) => Err(refusal),
        Ok(_) => match contents {
            Err(reason) => Err(ImageError { kind: ImageErrorKind::Unreadable, detail: reason }),
            Ok(data) => match guess_mime(path) {
                None => Err(
                    ImageError {
                        kind: ImageErrorKind::UnknownContentType,
                        detail: path.to_string(),
                    },
                ),
                Some(content_type) => Ok(CacheValue { data, content_type }),
            },
        },
    }
}

/// Why a response yields no image.
#[derive(Debug, Clone, Copy, PartialEq, Eq, Structural)]
pub enum FetchErrorKind {
    /// The response's status is not a success.
    Status,
    /// The response has no content type that is text.
    NoContentType,
    /// The content type is not that of an accepted image.
    Unsupported,
    /// The body could not be read.
    Body,
}

/// The mathematical value of a [`FetchError`].
pub struct FetchErrorModel {
    pub kind: FetchErrorKind,
    pub status: u16,
    pub detail: Seq<char>,
}

/// Why a response yields no image: the kind of failure, the response's
/// status, and the content type or the read's report where the failure
/// concerns one.
#[derive(Debug, Clone, PartialEq, Eq)]
pub struct FetchError {
    pub kind: FetchErrorKind,
    pub status: u16,
    pub detail: String,
}

impl View for FetchError {
    type V = FetchErrorModel;

    open spec fn view(&self) -> FetchErrorModel {
        FetchErrorModel { kind: self.kind, status: self.status, detail: self.detail@ }
    }
}

/// Whether a status is a success: one of 200 to 299.
pub open spec fn success(status: u16) -> bool {
    200 <= status < 300
}

/// Whether a content type names an accepted image: the part behind its last
/// `/` must be in the allow-list of extensions.
pub open spec fn image_content_type(content_type: Seq<char>) -> bool {
    allowed_extension(after_last_slash(content_type))
}

/// Why a response with this status and this content type header is refused,
/// if it is.
pub open spec fn response_refusal(status: u16, content_type: Option<Seq<char>>) -> Option<
    FetchErrorModel,
> {
    if !success(status) {
        Some(FetchErrorModel { kind: FetchErrorKind::Status, status, detail: Seq::empty() })
    } else {
        match content_type {
            None => Some(
                FetchErrorModel {
                    kind: FetchErrorKind::NoContentType,
                    status,
                    detail: Seq::empty(),
                },
            ),
            Some(content_type) => if image_content_type(content_type) {
                None
            } else {
                Some(
                    FetchErrorModel {
                        kind: FetchErrorKind::Unsupported,
                        status,
                        detail: content_type,
                    },
                )
            },
        }
    }
}

/// The image that a response yields.
pub open spec fn image_of_response(
    status: u16,
    content_type: Option<Seq<char>>,
    body: Result<Seq<u8>, Seq<char>>,
) -> Result<ValueModel, FetchErrorModel> {
    match response_refusal(status, content_type) {
        Some(refusal) => Err(refusal),
        None => match body {
            Err(reason) => Err(
                FetchErrorModel { kind: FetchErrorKind::Body, status, detail: reason },
            ),
            Ok(data) => Ok(ValueModel { data, content_type: content_type->Some_0 }),
        },
    }
}

/// The mathematical value of an image that a response may have yielded.
pub open spec fn fetched_model(image: Result<CacheValue, FetchError>) -> Result<
    ValueModel,
    FetchErrorModel,
> {
    match image {
        Ok(value) => Ok(value@),
        Err(error) => Err(error@),
    }
}

/// Decides, before the body is read, whether a response can be an image:
/// `content_type` is the header of that name, if there is one and it is
/// text.
pub fn admit_response(status: u16, content_type: Option<&str>) -> (admitted: Result<
    (),
    FetchError,
>)
    ensures
        match admitted {
            Ok(_) => response_refusal(
                status,
                match content_type {
                    Some(text) => Some(text@),
                    None => None,
                },
            ) is None,
            Err(error) => response_refusal(
                status,
                match content_type {
                    Some(text) => Some(text@),
                    None => None,
                },
            ) == Some(error@),
        },
{
    if status < 200 || status >= 300 {
        return Err(FetchError { kind: FetchErrorKind::Status, status, detail: String::new() });
    }
    match content_type {
        None => Err(
            FetchError { kind: FetchErrorKind::NoContentType, status, detail: String::new() },
        ),
        Some(text) => if is_allowed_extension(subtype(text)) {
            Ok(())
        } else {
            Err(FetchError { kind: FetchErrorKind::Unsupported, status, detail: text.to_string() })
        },
    }
}

/// Turn a fetched response into a `CacheValue`
///
/// The caller has made the request: `status` is the response's status,
/// `content_type` its header of that name, if there is one and it is text,
/// and `body` what reading the body gave. The image keeps the content type
/// as the header gave it.
pub fn read_image_from_url(status: u16, content_type: Option<String>, body: Result<
    Vec<u8>,
    String,
>) -> (image: Result<CacheValue, FetchError>)
    ensures
        fetched_model(image) == image_of_response(
            status,
            text_model(content_type),
            read_model(body),
        ),
{
    let header = match &content_type {
        Some(text) => Some(text.as_str()),
        None => None,
    };
    match admit_response(status, header) {
        Err(refusal) => Err(refusal),
        Ok(_) => match body {
            Err(reason) => Err(FetchError { kind: FetchErrorKind::Body, status, detail: reason }),
            Ok(data) => match content_type {
                Some(content_type) => Ok(CacheValue { data, content_type }),
                None => Err(
                    FetchError {
                        kind: FetchErrorKind::NoContentType,
                        status,
                        detail: String::new(),
                    },
                ),
            },
        },
    }
}

/// What the caller found at a path.
#[derive(Debug, Clone, Copy, PartialEq, Eq, Structural)]
pub enum PathKind {
    /// A regular file.
    File,
    /// A directory.
    Directory,
    /// Nothing, or something that is neither.
    Other,
}

/// The mathematical value of a [`Plan`].
pub enum PlanModel {
    Fetch(Seq<char>),
    Load(Seq<char>),
    Walk(Seq<char>),
    SkipExtension(Seq<char>),
    SkipPath(Seq<char>),
}

/// What is to be done with a source.
#[derive(Debug, Clone, PartialEq, Eq)]
pub enum Plan {
    /// Fetch the URL, and store what comes back under the URL.
    Fetch(String),
    /// Read the file, and store it under its path.
    Load(String),
    /// List the regular files below the directory, and load those that
    /// [`select_images`] picks.
    Walk(String),
    /// Skip the file: its extension is not in the allow-list.
    SkipExtension(String),
    /// Skip the path: there is neither a file nor a directory.
    SkipPath(String),
}

impl View for Plan {
    type V = PlanModel;

    open spec fn view(&self) -> PlanModel {
        match self {
            Plan::Fetch(text) => PlanModel::Fetch(text@),
            Plan::Load(text) => PlanModel::Load(text@),
            Plan::Walk(text) => PlanModel::Walk(text@),
            Plan::SkipExtension(text) => PlanModel::SkipExtension(text@),
            Plan::SkipPath(text) => PlanModel::SkipPath(text@),
        }
    }
}

/// What is to be done with `source`, where `kind` is what was found at a
/// path source and `canonical` is the path's canonical form, if it has one.
/// A path without a canonical form is taken as it is.
pub open spec fn plan_of(
    source: SourceModel,
    kind: PathKind,
    canonical: Option<Seq<char>>,
) -> PlanModel {
    match source {
        SourceModel::Url(url) => PlanModel::Fetch(url),
        SourceModel::Path(path) => {
            let resolved = match canonical {
                Some(canonical) => canonical,
                None => path,
            };
            match kind {
                PathKind::File => if image_path(resolved) {
                    PlanModel::Load(resolved)
                } else {
                    PlanModel::SkipExtension(resolved)
                },
                PathKind::Directory => PlanModel::Walk(resolved),
                PathKind::Other => PlanModel::SkipPath(path),
            }
        },
    }
}

/// Decides what is to be done with `source`. For a path source the caller
/// says what it found there and what the path's canonical form is; for a URL
/// source neither is looked at.
pub fn plan_source(source: &ImageSource, kind: PathKind, canonical: Option<String>) -> (plan: Plan)
    ensures
        plan@ == plan_of(source@, kind, text_model(canonical)),
{
    match source {
        ImageSource::Url(url) => Plan::Fetch(url.clone()),
        ImageSource::Path(path) => {
            match kind {
                PathKind::File => {
                    let resolved = match canonical {
                        Some(canonical) => canonical,
                        None => path.clone(),
                    };
                    if is_image_path(resolved.as_str()) {
                        Plan::Load(resolved)
                    } else {
                        Plan::SkipExtension(resolved)
                    }
                },
                PathKind::Directory => Plan::Walk(
                    match canonical {
                        Some(canonical) => canonical,
                        None => path.clone(),
                    },
                ),
                PathKind::Other => Plan::SkipPath(path.clone()),
            }
        },
    }
}

/// The mathematical value of a [`Listed`].
pub struct ListedModel {
    pub path: Seq<char>,
    pub is_file: bool,
}

/// One entry of a directory listing: a path, and whether a regular file is
/// there.
#[derive(Debug, Clone, PartialEq, Eq)]
pub struct Listed {
    pub path: String,
    pub is_file: bool,
}

impl View for Listed {
    type V = ListedModel;

    open spec fn view(&self) -> ListedModel {
        ListedModel { path: self.path@, is_file: self.is_file }
    }
}

/// Whether a listed entry is loaded: it must be a regular file whose
/// extension is in the allow-list.
pub open spec fn selected(entry: ListedModel) -> bool {
    entry.is_file && image_path(entry.path)
}

/// The paths of the entries of a listing that are loaded, in the order of
/// the listing.
pub open spec fn images_of(listing: Seq<ListedModel>) -> Seq<Seq<char>> {
    listing.filter(|entry: ListedModel| selected(entry)).map_values(
        |entry: ListedModel| entry.path,
    )
}

/// The views of the entries of a listing.
pub open spec fn listing_model(listing: Seq<Listed>) -> Seq<ListedModel> {
    listing.map_values(|entry: Listed| entry@)
}

/// The views of a sequence of texts.
pub open spec fn texts_model(texts: Seq<String>) -> Seq<Seq<char>> {
    texts.map_values(|text: String| text@)
}

/// Picks from a directory listing the files that are loaded: the regular
/// files whose extension is in the allow-list, in the order of the listing.
/// Everything else is passed over in silence.
pub fn select_images(listing: &Vec<Listed>) -> (paths: Vec<String>)
    ensures
        texts_model(paths@) == images_of(listing_model(listing@)),
{
    let ghost entries = listing_model(listing@);
    let ghost keep = |entry: ListedModel| selected(entry);
    let ghost path_of = |entry: ListedModel| entry.path;
    let mut paths: Vec<String> = Vec::new();
    let mut i: usize = 0;
    proof {
        assert(entries.take(0) == Seq::<ListedModel>::empty());
        assert(texts_model(paths@) == Seq::<Seq<char>>::empty());
        assert(entries.take(0).filter(keep).map_values(path_of) == Seq::<Seq<char>>::empty());
    }
    while i < listing.len()
        invariant
            i <= listing@.len(),
            entries == listing_model(listing@),
            keep == |entry: ListedModel| selected(entry),
            path_of == |entry: ListedModel| entry.path,
            texts_model(paths@) == entries.take(i as int).filter(keep).map_values(path_of),
        decreases listing@.len() - i,
    {
        let entry = &listing[i];
        let ghost shorter = entries.take(i as int);
        let ghost before = paths@;
        proof {
            assert(entries.take(i + 1) == shorter.push(entry@));
            shorter.lemma_filter_push(entry@, keep);
        }
        if entry.is_file && is_image_path(entry.path.as_str()) {
            paths.push(entry.path.clone());
            proof {
                assert(texts_model(paths@) == texts_model(before).push(entry.path@));
                assert(shorter.filter(keep).push(entry@).map_values(path_of) == shorter.filter(
                    keep,
                ).map_values(path_of).push(entry.path@));
            }
        }
        i += 1;
    }
    proof {
        assert(entries.take(i as int) == entries);
    }
    paths
}

/// The cache entry that a file yields: the image under the file's path.
pub fn entry_from_file(path: &str, is_file: bool, contents: Result<Vec<u8>, String>) -> (entry:
    Result<(CacheKey, CacheValue), ImageError>)
    ensures
        match entry {
            Ok((key, image)) => key@ == KeyModel::ImagePath(path@) && image_of_file(
                path@,
                is_file,
                read_model(contents),
            ) == Ok::<_, ImageErrorModel>(image@),
            Err(error) => image_of_file(path@, is_file, read_model(contents)) == Err::<
                ValueModel,
                _,
            >(error@),
        },
{
    match read_image_from_path(path, is_file, contents) {
        Ok(image) => Ok((CacheKey::ImagePath(path.to_string()), image)),
        Err(error) => Err(error),
    }
}

/// The cache entry that a response yields: the image under the URL that was
/// fetched.
pub fn entry_from_response(
    url: &str,
    status: u16,
    content_type: Option<String>,
    body: Result<Vec<u8>, String>,
) -> (entry: Result<(CacheKey, CacheValue), FetchError>)
    ensures
        match entry {
            Ok((key, image)) => key@ == KeyModel::ImageUrl(url@) && image_of_response(
                status,
                text_model(content_type),
                read_model(body),
            ) == Ok::<_, FetchErrorModel>(image@),
            Err(error) => image_of_response(status, text_model(content_type), read_model(body))
                == Err::<ValueModel, _>(error@),
        },
{
    match read_image_from_url(status, content_type, body) {
        Ok(image) => Ok((CacheKey::ImageUrl(url.to_string()), image)),
        Err(error) => Err(error),
    }
}

} // verus!
