use vstd::prelude::*;
use vstd::utf8::*;

verus! {

/// The message of the error that postgres's text decoding reports for bytes
/// that are not UTF-8.
pub uninterp spec fn text_decode_error(raw: Seq<u8>) -> Seq<char>;

/// Decodes the raw value of a `TEXT` column with postgres's `FromSql` for
/// `String` (`postgres_types`), which for `TEXT` runs `str::from_utf8` over
/// the bytes. Trusted: the value is returned exactly when the bytes are UTF-8,
/// and is then their decoding; otherwise the error's message is returned, which
/// depends on the bytes alone.
#[verifier::external_body]
pub(crate) fn text_from_sql(raw: &[u8]) -> (res: Result<String, String>)
    ensures
        res is Ok <==> valid_utf8(raw@),
        res matches Ok(text) ==> text@ == decode_utf8(raw@),
        res matches Err(msg) ==> msg@ == text_decode_error(raw@),
{
    match <String as postgres::types::FromSql>::from_sql(&postgres::types::Type::TEXT, raw) {
        Ok(text) => Ok(text),
        Err(err) => Err(err.to_string()),
    }
}

/// Whether `text` reads exactly `lit`.
pub(crate) fn text_is(text: &str, lit: &str) -> (b: bool)
    ensures
        b == (text@ == lit@),
{
    let owned = String::from_str(text);
    let expected = String::from_str(lit);
    owned == expected
}

} // verus!
