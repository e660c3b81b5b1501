//! Byte layout of a diploma record and the size reserved for it.

use vstd::prelude::*;
use vstd::utf8::{encode_utf8, is_ascii_chars, is_ascii_chars_encode_utf8};

verus! {

/// Header that tags the record's type for the storage system.
pub const DISCRIMINATOR_SPACE: usize = 8;

/// An identity handle.
pub const IDENTITY_SPACE: usize = 32;

/// Length prefix in front of a text field's bytes.
pub const TEXT_PREFIX_SPACE: usize = 4;

/// A text field, length prefix included.
pub const TEXT_SPACE: usize = 64;

/// The graduation year.
pub const YEAR_SPACE: usize = 2;

/// The issuance timestamp.
pub const TIMESTAMP_SPACE: usize = 8;

/// Size of a record's slot, fixed when the slot is allocated.
pub const DIPLOMA_SPACE: usize = DISCRIMINATOR_SPACE + IDENTITY_SPACE + IDENTITY_SPACE + TEXT_SPACE
    + TEXT_SPACE + YEAR_SPACE + TIMESTAMP_SPACE;

/// Bytes that a text field takes when written: the prefix, then its UTF-8
/// encoding.
pub open spec fn text_encoded_len(text: Seq<char>) -> nat {
    TEXT_PREFIX_SPACE as nat + encode_utf8(text).len()
}

/// Whether a text field stays within the bytes reserved for it.
pub open spec fn text_fits(text: Seq<char>) -> bool {
    text_encoded_len(text) <= TEXT_SPACE
}

/// Bytes that a whole record takes when written with the given text fields.
pub open spec fn record_encoded_len(student_name: Seq<char>, degree: Seq<char>) -> nat {
    DISCRIMINATOR_SPACE as nat + IDENTITY_SPACE as nat + IDENTITY_SPACE as nat + text_encoded_len(
        student_name,
    ) + text_encoded_len(degree) + YEAR_SPACE as nat + TIMESTAMP_SPACE as nat
}

/// Decides whether `text` stays within the bytes reserved for a text field.
pub fn fits_text_field(text: &str) -> (fits: bool)
    ensures
        fits == text_fits(text@),
{
    text.as_bytes().len() <= TEXT_SPACE - TEXT_PREFIX_SPACE
}

/// A record whose two text fields each stay within their reserved bytes
/// never outgrows the slot allocated for it.
pub proof fn lemma_fitting_record_within_slot(student_name: Seq<char>, degree: Seq<char>)
    requires
        text_fits(student_name),
        text_fits(degree),
    ensures
        record_encoded_len(student_name, degree) <= DIPLOMA_SPACE,
{
}

/// ASCII text takes one byte per character, so it fits exactly when it has
/// no more characters than the field has bytes behind its prefix.
pub proof fn lemma_ascii_text_fits(text: Seq<char>)
    requires
        is_ascii_chars(text),
    ensures
        text_encoded_len(text) == TEXT_PREFIX_SPACE + text.len(),
        text_fits(text) <==> text.len() <= TEXT_SPACE - TEXT_PREFIX_SPACE,
{
    is_ascii_chars_encode_utf8(text);
}

} // verus!
