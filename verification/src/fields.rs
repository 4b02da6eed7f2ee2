//! Bounds on the fields of a record, checked before anything is written.

use vstd::prelude::*;

verus! {

/// Why a field value is refused.
#[derive(Clone, Copy, Debug, PartialEq, Eq, Structural)]
pub enum FieldError {
    /// The text is longer than the field's declared maximum.
    FieldTooLong,
    /// The text is empty where the field must not be.
    FieldEmpty,
    /// The number is no ordinal of the field's enumeration.
    InvalidEnumValue,
}

/// Length of a text in bytes, the measure of every bound on a text field.
pub open spec fn byte_len(text: Seq<char>) -> nat {
    vstd::utf8::encode_utf8(text).len()
}

/// Whether a text fits a field of at most `max_len` bytes.
pub open spec fn fits(text: Seq<char>, max_len: usize) -> bool {
    byte_len(text) <= max_len
}

/// Whether a text fits a field that must hold between 1 and `max_len` bytes.
pub open spec fn fits_non_empty(text: Seq<char>, max_len: usize) -> bool {
    0 < byte_len(text) <= max_len
}

/// Length of a text in bytes.
pub fn text_len(value: &str) -> (r: usize)
    ensures
        r == byte_len(value@),
{
    value.as_bytes().len()
}

/// Whether a text is longer than a field of at most `max_len` bytes.
pub fn too_long(value: &str, max_len: usize) -> (r: bool)
    ensures
        r == !fits(value@, max_len),
{
    match validate(value, max_len) {
        Ok(()) => false,
        Err(_) => true,
    }
}

/// The empty text fits every field.
pub proof fn empty_text_fits(max_len: usize)
    ensures
        byte_len(Seq::<char>::empty()) == 0,
        fits(Seq::<char>::empty(), max_len),
{
}

/// Checks a text against the maximum length of its field.
pub fn validate(value: &str, max_len: usize) -> (r: Result<(), FieldError>)
    ensures
        r == (if fits(value@, max_len) {
            Ok::<(), FieldError>(())
        } else {
            Err(FieldError::FieldTooLong)
        }),
{
    if text_len(value) > max_len {
        Err(FieldError::FieldTooLong)
    } else {
        Ok(())
    }
}

/// Checks a text that must not be empty against the maximum length of its
/// field. An empty text is reported as such, whatever the maximum.
pub fn validate_non_empty(value: &str, max_len: usize) -> (r: Result<(), FieldError>)
    ensures
        r == (if byte_len(value@) == 0 {
            Err::<(), FieldError>(FieldError::FieldEmpty)
        } else if byte_len(value@) > max_len {
            Err(FieldError::FieldTooLong)
        } else {
            Ok(())
        }),
        r is Ok <==> fits_non_empty(value@, max_len),
{
    let len = text_len(value);
    if len == 0 {
        Err(FieldError::FieldEmpty)
    } else if len > max_len {
        Err(FieldError::FieldTooLong)
    } else {
        Ok(())
    }
}

/// Checks the number stored for an enumeration against its highest ordinal.
pub fn validate_ordinal(value: u8, highest: u8) -> (r: Result<(), FieldError>)
    ensures
        r == (if value <= highest {
            Ok::<(), FieldError>(())
        } else {
            Err(FieldError::InvalidEnumValue)
        }),
{
    if value > highest {
        Err(FieldError::InvalidEnumValue)
    } else {
        Ok(())
    }
}

} // verus!
