//! What the library takes from the crates that reach the operating system.
//! The contracts in this file are believed, not proved.

use vstd::prelude::*;

verus! {

/// Whether no NUL character stands in `s` before its last position: the
/// texts that can be handed to the operating system as a C string.
pub open spec fn is_c_text(s: Seq<char>) -> bool {
    forall|i: int| 0 <= i < s.len() - 1 ==> s[i] != '\0'
}

/// `rusl::string::unix_str::UnixString::try_from_str`, asked only whether it
/// succeeds. It walks the bytes of the text; at the first NUL byte it
/// succeeds if that byte is the last and fails otherwise; without any NUL
/// byte it appends one and succeeds. NUL is the only character whose
/// encoding holds a NUL byte, so it succeeds exactly on the texts of
/// `is_c_text`.
#[verifier::external_body]
pub(crate) fn converts_to_unix_string(s: &str) -> (ok: bool)
    ensures
        ok == is_c_text(s@),
{
    rusl::string::unix_str::UnixString::try_from_str(s).is_ok()
}

/// `tiny_std::Error::matches_errno`, asked of an operating-system
/// error that carries `code` whether it is `rusl::error::Errno::ENOENT`. The
/// method compares the two codes, and `ENOENT` is 2.
#[verifier::external_body]
pub(crate) fn code_is_not_found(code: i32) -> (r: bool)
    ensures
        r == (code == 2),
{
    let code = rusl::error::Errno::new(code);
    tiny_std::Error::Os { msg: "", code }.matches_errno(rusl::error::Errno::ENOENT)
}

/// `String::from_utf8` of the standard library, with its error dropped: it
/// yields a text exactly for bytes that are valid UTF-8, and the text is the
/// one that the bytes encode.
#[verifier::external_body]
pub(crate) fn text_from_utf8(bytes: Vec<u8>) -> (r: Option<String>)
    ensures
        r is Some <==> vstd::utf8::valid_utf8(bytes@),
        r matches Some(s) ==> s@ == vstd::utf8::decode_utf8(bytes@),
{
    String::from_utf8(bytes).ok()
}

} // verus!
