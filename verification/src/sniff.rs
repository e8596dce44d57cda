//! Content sniffing: the media kind of a byte buffer, read from the bytes
//! alone.

use vstd::prelude::*;
use vstd::string::StringExecFns;

verus! {

/// The kind of media a bundled asset holds.
#[derive(Clone, Copy, Debug, PartialEq, Eq, Hash, Structural)]
pub enum MediaKind {
    StaticImage,
    Video,
}

/// The file extension that the `file_format` crate attributes to a buffer:
/// `FileFormat::from_bytes(bytes).extension()`. The crate matches the first
/// bytes against its table of signatures; the table is not restated here.
pub uninterp spec fn sniffed_extension(bytes: Seq<u8>) -> Seq<char>;

/// Calls `file_format::FileFormat::from_bytes` and takes the `extension` of
/// the format it reports. Trusted: the result is the extension that the
/// crate's signature table gives for these bytes, and depends on nothing
/// else.
#[verifier::external_body]
fn sniff_extension(bytes: &[u8]) -> (extension: String)
    ensures
        extension@ == sniffed_extension(bytes@),
{
    file_format::FileFormat::from_bytes(bytes).extension().to_string()
}

/// The media kind that goes with a sniffed extension: the MPEG-4 container is
/// video, everything else is handed to the raster decoder.
pub open spec fn media_kind_of(extension: Seq<char>) -> MediaKind {
    if extension == "mp4"@ {
        MediaKind::Video
    } else {
        MediaKind::StaticImage
    }
}

/// The media kind that goes with a sniffed extension.
pub fn media_kind_of_extension(extension: &str) -> (kind: MediaKind)
    ensures
        kind == media_kind_of(extension@),
{
    if String::from_str(extension) == String::from_str("mp4") {
        MediaKind::Video
    } else {
        MediaKind::StaticImage
    }
}

/// Classifies a buffer by its content. The key or name under which the
/// buffer is stored plays no part: the result is a function of the bytes.
pub fn classify(bytes: &[u8]) -> (kind: MediaKind)
    ensures
        kind == media_kind_of(sniffed_extension(bytes@)),
{
    let extension = sniff_extension(bytes);
    media_kind_of_extension(extension.as_str())
}

} // verus!
