//! The clock and the calendar, both taken from the `time` crate.
use crate::error::RollingError;
use vstd::prelude::*;
use vstd::string::StringSliceAdditionalSpecFns;
use vstd::utf8::encode_utf8;

verus! {

/// Whether `time` has a date for the instant `unix_nanos` (nanoseconds since
/// the Unix epoch).
pub uninterp spec fn in_calendar(unix_nanos: int) -> bool;

/// Whether `time` reads `format` as a format description of its first
/// version.
pub uninterp spec fn described(format: Seq<char>) -> bool;

/// What `time` writes for the instant `unix_nanos`, in UTC, under the format
/// description `format`; `None` where it cannot write that instant so.
pub uninterp spec fn formatted_utc(unix_nanos: int, format: Seq<char>) -> Option<Seq<char>>;

/// Whether the bytes from place `i` on hold no opening bracket within a
/// component, read as `time` reads them: outside a component `[[` stands
/// for a bracket as text and any other `[` opens a component; a component
/// lasts up to the next `]`.
pub open spec fn flat_from(bytes: Seq<u8>, i: int, inside: bool) -> bool
    decreases bytes.len() - i,
{
    if i < 0 || i >= bytes.len() {
        true
    } else if inside {
        if bytes[i] == 0x5b {
            false
        } else {
            flat_from(bytes, i + 1, bytes[i] != 0x5d)
        }
    } else if bytes[i] == 0x5b {
        if i + 1 < bytes.len() && bytes[i + 1] == 0x5b {
            flat_from(bytes, i + 2, false)
        } else {
            flat_from(bytes, i + 1, true)
        }
    } else {
        flat_from(bytes, i + 1, false)
    }
}

/// A description that `time` can be asked to read: no component of it
/// holds an opening bracket, and its places fit the 32 bits in which `time`
/// counts them. A description with a bracket inside a component is none
/// that `time` would accept in its first version.
pub open spec fn flat_description(format: Seq<char>) -> bool {
    encode_utf8(format).len() <= u32::MAX && flat_from(encode_utf8(format), 0, false)
}

/// Whether `format` is a description that `time` can be asked to read.
pub fn is_flat(format: &str) -> (flat: bool)
    ensures
        flat == flat_description(format@),
{
    let bytes = format.as_bytes();
    if bytes.len() > u32::MAX as usize {
        return false;
    }
    let mut i: usize = 0;
    let mut inside = false;
    while i < bytes.len()
        invariant
            i <= bytes@.len(),
            bytes@ == encode_utf8(format@),
            flat_from(bytes@, 0, false) == flat_from(bytes@, i as int, inside),
        decreases bytes@.len() - i,
    {
        let byte = bytes[i];
        if inside {
            if byte == 0x5b {
                return false;
            }
            inside = byte != 0x5d;
            i += 1;
        } else if byte == 0x5b {
            if i + 1 < bytes.len() && bytes[i + 1] == 0x5b {
                i += 2;
            } else {
                inside = true;
                i += 1;
            }
        } else {
            i += 1;
        }
    }
    true
}

/// Reads the clock: `time::OffsetDateTime::now_utc`, taken as nanoseconds
/// since the Unix epoch by `unix_timestamp_nanos`. Nothing is claimed of the
/// reading.
#[verifier::external_body]
pub(crate) fn utc_now() -> (unix_nanos: i128) {
    time::OffsetDateTime::now_utc().unix_timestamp_nanos()
}

/// Writes an instant as text: `time::OffsetDateTime::from_unix_timestamp_nanos`
/// makes the date, `time::format_description::parse_borrowed` (version 1)
/// reads the description, and `time::OffsetDateTime::format` writes. The
/// contract claims that each of the three decides by its own arguments
/// alone, in this order, and that a failure of each comes out as its own
/// error. Descriptions with a bracket inside a component are kept from the
/// parser: it cannot be relied on to return on them.
#[verifier::external_body]
pub(crate) fn format_utc(unix_nanos: i128, format: &str) -> (text: Result<String, RollingError>)
    requires
        flat_description(format@),
    ensures
        match text {
            Ok(written) => {
                &&& in_calendar(unix_nanos as int)
                &&& described(format@)
                &&& formatted_utc(unix_nanos as int, format@) == Some(written@)
            },
            Err(RollingError::TimestampOutOfRange) => !in_calendar(unix_nanos as int),
            Err(RollingError::InvalidFormat) => {
                &&& in_calendar(unix_nanos as int)
                &&& !described(format@)
            },
            Err(RollingError::Unformattable) => {
                &&& in_calendar(unix_nanos as int)
                &&& described(format@)
                &&& formatted_utc(unix_nanos as int, format@) is None
            },
            Err(_) => false,
        },
{
    let at = match time::OffsetDateTime::from_unix_timestamp_nanos(unix_nanos) {
        Ok(at) => at,
        Err(_) => return Err(RollingError::TimestampOutOfRange),
    };
    let items = match time::format_description::parse_borrowed::<1>(format) {
        Ok(items) => items,
        Err(_) => return Err(RollingError::InvalidFormat),
    };
    match at.format(&items) {
        Ok(text) => Ok(text),
        Err(_) => Err(RollingError::Unformattable),
    }
}

} // verus!
