//! Byte counts as text with a unit, the way people read them.

use vstd::prelude::*;

verus! {

/// `bytes` written with binary units (`KiB`, `MiB`, ...), as
/// `humansize::format_size` writes it with its `BINARY` options.
pub uninterp spec fn binary_size_text(bytes: u64) -> Seq<char>;

/// `bytes` written with decimal units (`kB`, `MB`, ...), as
/// `humansize::format_size` writes it with its `DECIMAL` options.
pub uninterp spec fn decimal_size_text(bytes: u64) -> Seq<char>;

/// Writes a byte count with binary units.
///
/// Trusted: `humansize::format_size` with `BINARY` returns, for every
/// `u64`, a text that depends on the number alone. That text is what
/// `binary_size_text` names.
#[verifier::external_body]
pub(crate) fn format_size_binary(bytes: u64) -> (text: String)
    ensures
        text@ == binary_size_text(bytes),
{
    humansize::format_size(bytes, humansize::BINARY)
}

/// Writes a byte count with decimal units.
///
/// Trusted: `humansize::format_size` with `DECIMAL` returns, for every
/// `u64`, a text that depends on the number alone. That text is what
/// `decimal_size_text` names.
#[verifier::external_body]
pub(crate) fn format_size_decimal(bytes: u64) -> (text: String)
    ensures
        text@ == decimal_size_text(bytes),
{
    humansize::format_size(bytes, humansize::DECIMAL)
}

} // verus!
