use crate::error::Error;
use crate::source::{le_i32_at, le_u32_at, seek_target, MemoryReader, SeekFrom};
use crate::version::{ObjectVersion, ObjectVersionUE5};
use vstd::prelude::*;

verus! {

/// Magic number that opens every package file, stored lowest byte first.
pub const PACKAGE_FILE_MAGIC: u32 = 0x9E2A83C1;

/// Newest header family that is understood; families count downwards.
pub const NEWEST_LEGACY_VERSION: i32 = -8;

/// Oldest header family that is understood.
pub const OLDEST_LEGACY_VERSION: i32 = -6;

/// The version fields of a header as they stand in the file, before any of
/// them is looked up in a timeline.
pub struct RawHeader {
    pub legacy_version: i32,
    pub file_version: i32,
    pub file_version_ue5: i32,
    pub file_licensee_version: i32,
    /// How many bytes the header took, magic included.
    pub consumed: usize,
}

/// A package file whose header has been checked, with the versions it was
/// saved with.
#[derive(Debug)]
pub struct Archive {
    pub reader: MemoryReader,
    /// The primary serialization version the file was saved with.
    pub file_version: ObjectVersion,
    /// The secondary serialization version the file was saved with, if any.
    pub file_version_ue5: Option<ObjectVersionUE5>,
    /// The licensee serialization version the file was saved with.
    pub file_licensee_version: i32,
    /// The header family.
    pub legacy_version: i32,
}

/// Whether headers of the family `legacy_version` are understood.
pub open spec fn supported_legacy(legacy_version: int) -> bool {
    NEWEST_LEGACY_VERSION <= legacy_version <= OLDEST_LEGACY_VERSION
}

/// Whether headers of the family `legacy_version` hold a secondary version.
pub open spec fn has_secondary_field(legacy_version: int) -> bool {
    legacy_version <= NEWEST_LEGACY_VERSION
}

/// The fault, if any, in the three version numbers of a header.
pub open spec fn version_fault(primary: i32, secondary: i32, licensee: i32) -> Option<Error> {
    if primary == 0 && licensee == 0 && secondary == 0 {
        Some(Error::UnversionedAsset)
    } else if !ObjectVersion::known(primary as int) {
        Some(Error::UnsupportedUE4Version(primary))
    } else if secondary != 0 && !ObjectVersionUE5::known(secondary as int) {
        Some(Error::UnsupportedUE5Version(secondary))
    } else {
        None
    }
}

/// What opening a package file yields when the header starts at offset
/// `start` of `bytes`: the raw version fields, or the first fault met on
/// the way through the header.
pub open spec fn parse_header(bytes: Seq<u8>, start: nat) -> Result<RawHeader, Error> {
    let at = start as int;
    let legacy = le_i32_at(bytes, at + 4) as i32;
    let primary = le_i32_at(bytes, at + 12) as i32;
    let wide = has_secondary_field(legacy as int);
    let secondary = if wide {
        le_i32_at(bytes, at + 16) as i32
    } else {
        0i32
    };
    let licensee_at: int = if wide {
        at + 20
    } else {
        at + 16
    };
    let licensee = le_i32_at(bytes, licensee_at) as i32;
    if at + 4 > bytes.len() {
        Err(Error::ParseError(at as usize))
    } else if le_u32_at(bytes, at) != PACKAGE_FILE_MAGIC {
        Err(Error::InvalidFile)
    } else if at + 8 > bytes.len() {
        Err(Error::ParseError((at + 4) as usize))
    } else if !supported_legacy(legacy as int) {
        Err(Error::UnsupportedVersion(legacy))
    } else if at + 12 > bytes.len() {
        Err(Error::ParseError((at + 8) as usize))
    } else if at + 16 > bytes.len() {
        Err(Error::ParseError((at + 12) as usize))
    } else if wide && at + 20 > bytes.len() {
        Err(Error::ParseError((at + 16) as usize))
    } else if licensee_at + 4 > bytes.len() {
        Err(Error::ParseError(licensee_at as usize))
    } else {
        match version_fault(primary, secondary, licensee) {
            Some(fault) => Err(fault),
            None => Ok(
                RawHeader {
                    legacy_version: legacy,
                    file_version: primary,
                    file_version_ue5: secondary,
                    file_licensee_version: licensee,
                    consumed: (licensee_at + 4 - at) as usize,
                },
            ),
        }
    }
}

/// Looks the version numbers of a header up in the two timelines. A
/// secondary number of zero stands for a file without secondary version.
pub fn resolve_versions(primary: i32, secondary: i32, licensee: i32) -> (r: Result<
    (ObjectVersion, Option<ObjectVersionUE5>),
    Error,
>)
    ensures
        match version_fault(primary, secondary, licensee) {
            Some(fault) => r == Err::<(ObjectVersion, Option<ObjectVersionUE5>), Error>(fault),
            None => r is Ok && r->Ok_0.0.raw() == primary && r->Ok_0.0.valid() && (secondary == 0
                ==> r->Ok_0.1 is None) && (secondary != 0 ==> r->Ok_0.1 is Some
                && r->Ok_0.1->Some_0.raw() == secondary && r->Ok_0.1->Some_0.valid()),
        },
{
    if primary == 0 && licensee == 0 && secondary == 0 {
        return Err(Error::UnversionedAsset);
    }
    if primary == 0 {
        return Err(Error::UnsupportedUE4Version(primary));
    }
    let file_version = match ObjectVersion::from_i32(primary) {
        Some(version) => version,
        None => {
            return Err(Error::UnsupportedUE4Version(primary));
        },
    };
    let file_version_ue5 = if secondary != 0 {
        match ObjectVersionUE5::from_i32(secondary) {
            Some(version) => Some(version),
            None => {
                return Err(Error::UnsupportedUE5Version(secondary));
            },
        }
    } else {
        None
    };
    Ok((file_version, file_version_ue5))
}

impl Archive {
    /// What holds of every archive that `new` hands out.
    pub open spec fn well_formed(&self) -> bool {
        &&& supported_legacy(self.legacy_version as int)
        &&& self.file_version.valid()
        &&& self.file_version_ue5 is Some ==> {
            &&& has_secondary_field(self.legacy_version as int)
            &&& self.file_version_ue5->Some_0.valid()
        }
    }

    /// Whether this archive holds exactly what `header` says, read from
    /// `source`.
    pub open spec fn matches(&self, header: RawHeader, source: MemoryReader) -> bool {
        &&& self.reader.bytes() == source.bytes()
        &&& self.reader.position() == source.position() + header.consumed
        &&& self.legacy_version == header.legacy_version
        &&& self.file_version.raw() == header.file_version
        &&& self.file_licensee_version == header.file_licensee_version
        &&& header.file_version_ue5 == 0 ==> self.file_version_ue5 is None
        &&& header.file_version_ue5 != 0 ==> self.file_version_ue5 is Some
            && self.file_version_ue5->Some_0.raw() == header.file_version_ue5
    }

    /// Whether the version fields are those of `other`.
    pub open spec fn same_versions(&self, other: Archive) -> bool {
        &&& self.file_version == other.file_version
        &&& self.file_version_ue5 == other.file_version_ue5
        &&& self.file_licensee_version == other.file_licensee_version
        &&& self.legacy_version == other.legacy_version
    }

    /// Whether the file was saved with `version` or a later one.
    pub open spec fn saved_with(&self, version: ObjectVersion) -> bool {
        self.file_version.raw() >= version.raw()
    }

    /// Opens a package file: checks the header that starts at the reader's
    /// position and keeps the versions it names. On failure the reader is
    /// dropped wherever the header left it.
    pub fn new(reader: MemoryReader) -> (r: Result<Archive, Error>)
        ensures
            match parse_header(reader.bytes(), reader.position()) {
                Ok(header) => r is Ok && r->Ok_0.matches(header, reader) && r->Ok_0.well_formed(),
                Err(fault) => r == Err::<Archive, Error>(fault),
            },
    {
        let mut reader = reader;
        let magic: u32 = match reader.read_u32_le() {
            Ok(value) => value,
            Err(fault) => {
                return Err(fault);
            },
        };
        if magic != PACKAGE_FILE_MAGIC {
            return Err(Error::InvalidFile);
        }
        let legacy_version: i32 = match reader.read_i32_le() {
            Ok(value) => value,
            Err(fault) => {
                return Err(fault);
            },
        };
        if legacy_version < NEWEST_LEGACY_VERSION || legacy_version > OLDEST_LEGACY_VERSION {
            return Err(Error::UnsupportedVersion(legacy_version));
        }
        match reader.read_i32_le() {
            Ok(_) => {},
            Err(fault) => {
                return Err(fault);
            },
        }
        let primary: i32 = match reader.read_i32_le() {
            Ok(value) => value,
            Err(fault) => {
                return Err(fault);
            },
        };
        let secondary: i32 = if legacy_version <= NEWEST_LEGACY_VERSION {
            match reader.read_i32_le() {
                Ok(value) => value,
                Err(fault) => {
                    return Err(fault);
                },
            }
        } else {
            0
        };
        let file_licensee_version: i32 = match reader.read_i32_le() {
            Ok(value) => value,
            Err(fault) => {
                return Err(fault);
            },
        };
        match resolve_versions(primary, secondary, file_licensee_version) {
            Ok((file_version, file_version_ue5)) => Ok(
                Archive {
                    reader,
                    file_version,
                    file_version_ue5,
                    file_licensee_version,
                    legacy_version,
                },
            ),
            Err(fault) => Err(fault),
        }
    }

    /// The wrapped source, for reading on behind the header.
    pub fn reader(&mut self) -> (r: &mut MemoryReader)
        ensures
            *r == old(self).reader,
            final(self).reader == *final(r),
            final(self).same_versions(*old(self)),
    {
        &mut self.reader
    }

    /// Whether the file was saved with `version` or a later one.
    pub fn serialized_with(&self, version: ObjectVersion) -> (r: bool)
        ensures
            r == self.saved_with(version),
    {
        self.file_version.at_least(version)
    }

    /// Whether the file was saved with a version older than `version`.
    pub fn serialized_without(&self, version: ObjectVersion) -> (r: bool)
        ensures
            r == !self.saved_with(version),
    {
        !self.serialized_with(version)
    }

    /// Reads up to `count` bytes from the wrapped source, exactly as the
    /// source itself would.
    pub fn read(&mut self, count: usize) -> (out: Vec<u8>)
        ensures
            final(self).reader.bytes() == old(self).reader.bytes(),
            out@.len() == if count <= old(self).reader.available() {
                count as nat
            } else {
                old(self).reader.available()
            },
            forall|i: int|
                0 <= i < out@.len() ==> out@[i] == old(self).reader.bytes()[old(
                    self,
                ).reader.position() + i],
            final(self).reader.position() == old(self).reader.position() + out@.len(),
            final(self).same_versions(*old(self)),
    {
        self.reader.read(count)
    }

    /// Moves the position of the wrapped source, exactly as the source
    /// itself would.
    pub fn seek(&mut self, to: SeekFrom) -> (r: Result<u64, Error>)
        ensures
            final(self).reader.bytes() == old(self).reader.bytes(),
            ({
                let target = seek_target(
                    old(self).reader.bytes().len(),
                    old(self).reader.position(),
                    to,
                );
                if 0 <= target <= usize::MAX {
                    r == Ok::<u64, Error>(target as u64) && final(self).reader.position() == target
                } else {
                    r == Err::<u64, Error>(Error::IoError(to)) && final(self).reader.position()
                        == old(self).reader.position()
                }
            }),
            final(self).same_versions(*old(self)),
    {
        self.reader.seek(to)
    }
}

/// A header whose first four bytes are not the magic is no package file,
/// whatever follows them.
pub proof fn lemma_wrong_magic_is_invalid_file(bytes: Seq<u8>, start: nat)
    requires
        start + 4 <= bytes.len(),
        !(bytes[start as int] == 0xC1 && bytes[start as int + 1] == 0x83 && bytes[start as int + 2] == 0x2A
            && bytes[start as int + 3] == 0x9E),
    ensures
        parse_header(bytes, start) == Err::<RawHeader, Error>(Error::InvalidFile),
{
}

/// A header that opens with the magic and names a family outside the
/// supported ones is refused with that very family.
pub proof fn lemma_unsupported_legacy_is_reported(bytes: Seq<u8>, start: nat)
    requires
        start + 8 <= bytes.len(),
        le_u32_at(bytes, start as int) == PACKAGE_FILE_MAGIC,
        !supported_legacy(le_i32_at(bytes, start as int + 4)),
    ensures
        parse_header(bytes, start) == Err::<RawHeader, Error>(
            Error::UnsupportedVersion(le_i32_at(bytes, start as int + 4) as i32),
        ),
{
}

/// The families without a secondary version take 20 bytes and yield no
/// secondary version; the others take 24.
pub proof fn lemma_header_length(bytes: Seq<u8>, start: nat)
    requires
        parse_header(bytes, start) is Ok,
    ensures
        ({
            let header = parse_header(bytes, start)->Ok_0;
            if has_secondary_field(header.legacy_version as int) {
                header.consumed == 24
            } else {
                header.consumed == 20 && header.file_version_ue5 == 0
            }
        }),
{
}

/// A header with all three version numbers zero is unversioned; one whose
/// primary number alone is zero has an unsupported primary version.
pub proof fn lemma_zero_versions(secondary: i32, licensee: i32)
    ensures
        version_fault(0, secondary, licensee) == if secondary == 0 && licensee == 0 {
            Some(Error::UnversionedAsset)
        } else {
            Some(Error::UnsupportedUE4Version(0))
        },
{
}

/// An archive saved with revision `later` answers yes for every revision
/// that is not after it.
pub proof fn lemma_saved_with_every_earlier(
    archive: Archive,
    earlier: ObjectVersion,
    later: ObjectVersion,
)
    requires
        earlier.raw() <= later.raw(),
        archive.file_version == later,
    ensures
        archive.saved_with(earlier),
{
}

/// The query is monotone: what was saved with a revision was saved with
/// every earlier one.
pub proof fn lemma_saved_with_downward(archive: Archive, earlier: ObjectVersion, later: ObjectVersion)
    requires
        earlier.raw() <= later.raw(),
        archive.saved_with(later),
    ensures
        archive.saved_with(earlier),
{
}

} // verus!
