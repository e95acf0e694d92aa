//! The calls that leave this crate. Verus takes the contracts in this file on
//! trust: each says of a function of `std` or of `urlencoding` what its
//! documentation and source give, and no more.

use std::string::FromUtf8Error;
use vstd::prelude::*;
use vstd::utf8::{decode_utf8, valid_utf8};

verus! {

/// The error of `String::from_utf8`, which `urlencoding::decode` hands on.
#[verifier::external_type_specification]
#[verifier::external_body]
pub struct ExFromUtf8Error(std::string::FromUtf8Error);

/// What `urlencoding::decode` makes of `data`: the text in which each `%xx`
/// escape is replaced by the byte it names, or `None` where the bytes that
/// come of it are not UTF-8.
pub uninterp spec fn percent_decoded(data: Seq<char>) -> Option<Seq<char>>;

/// What `String::from_utf8_lossy` makes of `bytes`: their text, with U+FFFD
/// in place of what is not UTF-8.
pub uninterp spec fn lossy_text(bytes: Seq<u8>) -> Seq<char>;

/// The text that the `Debug` formatting of `std::time::Duration` gives for
/// the duration of `secs` seconds and `nanos` nanoseconds.
pub uninterp spec fn duration_text(secs: u64, nanos: u32) -> Seq<char>;

/// Calls `urlencoding::decode`. The result is `percent_decoded` of the
/// argument; the call fails exactly where that is `None`. A text without a
/// percent sign comes back unchanged: the crate returns its argument, borrowed,
/// where it finds none.
#[verifier::external_body]
pub(crate) fn percent_decode(data: &str) -> (r: Result<String, FromUtf8Error>)
    ensures
        match r {
            Ok(text) => percent_decoded(data@) == Some(text@),
            Err(_) => percent_decoded(data@) is None,
        },
        !data@.contains('%') ==> r is Ok && r->Ok_0@ == data@,
{
    match urlencoding::decode(data) {
        Ok(text) => Ok(text.into_owned()),
        Err(error) => Err(error),
    }
}

/// Formats a `FromUtf8Error` with its `Display` impl. Nothing is claimed of
/// the text.
#[verifier::external_body]
pub(crate) fn utf8_error_text(error: &FromUtf8Error) -> String {
    format!("{}", error)
}

/// Calls `String::from_utf8_lossy`. The result is `lossy_text` of the
/// argument. Bytes that are UTF-8 give the text that they encode: the
/// function replaces nothing but what is not UTF-8.
#[verifier::external_body]
pub(crate) fn decode_lossy(bytes: &[u8]) -> (r: String)
    ensures
        r@ == lossy_text(bytes@),
        valid_utf8(bytes@) ==> r@ == decode_utf8(bytes@),
{
    String::from_utf8_lossy(bytes).into_owned()
}

/// Formats the `std::time::Duration` of `secs` seconds and `nanos`
/// nanoseconds with its `Debug` impl, as `{:#?}` does. The result is
/// `duration_text` of the arguments. `Duration::new` carries nanoseconds
/// beyond one second into the seconds and panics where those overflow, so
/// `nanos` has to stay below one second.
#[verifier::external_body]
pub(crate) fn format_duration(secs: u64, nanos: u32) -> (r: String)
    requires
        nanos < 1_000_000_000,
    ensures
        r@ == duration_text(secs, nanos),
{
    format!("{:#?}", std::time::Duration::new(secs, nanos))
}

} // verus!
