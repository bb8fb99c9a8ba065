use crate::source::SeekFrom;
use vstd::prelude::*;

verus! {

/// Everything that can go wrong while opening a package file or moving
/// around in its bytes.
#[derive(Debug, Clone, Copy, PartialEq, Eq, Structural)]
pub enum Error {
    /// The data does not start with the package magic.
    InvalidFile,
    /// The legacy version lies outside the supported header families.
    UnsupportedVersion(i32),
    /// The header carries no version information at all.
    UnversionedAsset,
    /// The primary version is not a known revision.
    UnsupportedUE4Version(i32),
    /// The secondary version is not a known revision.
    UnsupportedUE5Version(i32),
    /// A field could not be decoded; the payload is the offset at which
    /// the field would have started.
    ParseError(usize),
    /// A seek had no valid target; the payload is the refused request.
    IoError(SeekFrom),
}

} // verus!
