//! The error taxonomy shared by the decoding engine and the file readers.

use vstd::prelude::*;

verus! {

/// Everything that can go wrong while decoding a persisted file.
///
/// Reaching a clean end of log (a zero-length record) or the data-node
/// sentinel is not an error and is reported as an ordinary end of the
/// respective sequence, never through this type.
#[derive(Debug, Copy, Clone, PartialEq, Eq, Structural)]
pub enum Error {
    /// The stream ended in the middle of a value.
    Eof,
    /// A length field exceeded the configured maximum; carries the length read.
    TooLarge(usize),
    /// A string's bytes are not valid UTF-8.
    InvalidText,
    /// A file header's magic number or version did not match.
    FormatMismatch,
    /// An enum discriminant that the registered table does not map; carries
    /// the discriminant read.
    UnknownDiscriminant(i32),
    /// An enum value was decoded before its type was registered.
    UnregisteredEnum,
    /// A transaction record's trailing guard byte was wrong: the record is a
    /// partial write at the tail of an in-progress log.
    PartialRecord,
    /// Segment discovery found no segment at or before the target; carries
    /// the target transaction id.
    NoSegmentFound(i64),
    /// A snapshot section was used after an earlier decode in the same file
    /// had already failed.
    SectionErrored,
}

} // verus!
