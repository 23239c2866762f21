//! Whether a file is an image or a video, judged by its leading bytes.
use vstd::prelude::*;

verus! {

/// How many leading bytes of a file are enough to recognise its type.
pub const SNIFF_PREFIX_LEN: usize = 8192;

/// The family of a recognised file type.
#[derive(Clone, Copy, Debug, PartialEq, Eq, Structural)]
pub enum Category {
    App,
    Archive,
    Audio,
    Book,
    Doc,
    Font,
    Image,
    Text,
    Video,
    Custom,
}

#[derive(Clone, Copy, Debug, PartialEq, Eq, Structural)]
pub enum MediaKind {
    Image,
    Video,
    Neither,
}

/// What examining a path gave.
#[derive(Clone, Debug)]
pub enum Probe {
    /// The path is a directory.
    Directory,
    /// The path is a file; these are its leading bytes.
    Contents(Vec<u8>),
    /// The path could not be examined, for the reason given.
    ReadFailed(String),
}

/// The examination of a path failed.
#[derive(Clone, Debug, PartialEq, Eq)]
pub enum ClassificationError {
    IOError(String),
}

/// The type family that infer recognises in the bytes, if any.
pub uninterp spec fn sniffed(buf: Seq<u8>) -> Option<Category>;

/// Relies on infer::get, and infer::Type::matcher_type of its result: the
/// family of the first known signature that the bytes match.
#[verifier::external_body]
fn sniff(buf: &[u8]) -> (r: Option<Category>)
    ensures
        r == sniffed(buf@),
{
    match infer::get(buf) {
        None => None,
        Some(t) => Some(match t.matcher_type() {
            infer::MatcherType::App => Category::App,
            infer::MatcherType::Archive => Category::Archive,
            infer::MatcherType::Audio => Category::Audio,
            infer::MatcherType::Book => Category::Book,
            infer::MatcherType::Doc => Category::Doc,
            infer::MatcherType::Font => Category::Font,
            infer::MatcherType::Image => Category::Image,
            infer::MatcherType::Text => Category::Text,
            infer::MatcherType::Video => Category::Video,
            infer::MatcherType::Custom => Category::Custom,
        }),
    }
}

pub open spec fn kind_of(c: Option<Category>) -> MediaKind {
    match c {
        Some(Category::Image) => MediaKind::Image,
        Some(Category::Video) => MediaKind::Video,
        _ => MediaKind::Neither,
    }
}

/// The media kind of a recognised type family; anything else is neither.
pub fn media_kind(c: Option<Category>) -> (r: MediaKind)
    ensures
        r == kind_of(c),
{
    match c {
        Some(Category::Image) => MediaKind::Image,
        Some(Category::Video) => MediaKind::Video,
        _ => MediaKind::Neither,
    }
}

/// The media kind of a file whose leading bytes are `head`.
pub fn classify(head: &[u8]) -> (r: MediaKind)
    ensures
        r == kind_of(sniffed(head@)),
{
    media_kind(sniff(head))
}

/// The probe shows an image or a video.
pub open spec fn probe_is_media(p: Probe) -> bool {
    p matches Probe::Contents(b) && kind_of(sniffed(b@)) != MediaKind::Neither
}

/// Whether the examined path is an image or a video; an error only where
/// it could not be examined. A directory is never media.
pub fn image_or_video(probe: &Probe) -> (r: Result<bool, ClassificationError>)
    ensures
        !(probe is ReadFailed) ==> r == Ok::<bool, ClassificationError>(probe_is_media(*probe)),
        probe matches Probe::ReadFailed(m) ==> (r matches Err(ClassificationError::IOError(e))
            && e@ == m@),
{
    match probe {
        Probe::Directory => Ok(false),
        Probe::Contents(b) => {
            let k = classify(b.as_slice());
            Ok(!(k == MediaKind::Neither))
        },
        Probe::ReadFailed(m) => Err(ClassificationError::IOError(m.clone())),
    }
}

} // verus!
