use crate::pg_text::{text_from_sql, text_is, text_decode_error};
use vstd::prelude::*;
use vstd::utf8::*;

verus! {

/// Possible values of the pg_locks.locktype column
#[derive(Debug, PartialEq, Eq, Hash, Clone, Structural)]
pub enum LockType {
    /// Waiting to acquire a lock on a relation
    Relation,
    /// Waiting to acquire a lock on a non-relation database object
    Object,
}

/// The pg_locks.locktype text of each lock type.
pub open spec fn lock_type_text(t: LockType) -> Seq<char> {
    match t {
        LockType::Relation => "relation"@,
        LockType::Object => "object"@,
    }
}

/// What a pg_locks.locktype text reads as: its lock type, or the message that
/// refuses it.
pub open spec fn lock_type_of_text(text: Seq<char>) -> Result<LockType, Seq<char>> {
    if text == "object"@ {
        Ok(LockType::Object)
    } else if text == "relation"@ {
        Ok(LockType::Relation)
    } else {
        Err("invalid locktype "@ + text)
    }
}

/// What the raw bytes of a pg_locks.locktype `TEXT` value read as.
pub open spec fn lock_type_of_sql(raw: Seq<u8>) -> Result<LockType, Seq<char>> {
    if valid_utf8(raw) {
        lock_type_of_text(decode_utf8(raw))
    } else {
        Err(text_decode_error(raw))
    }
}

impl LockType {
    /// Reads a pg_locks.locktype text.
    pub fn from_text(text: &str) -> (res: Result<LockType, String>)
        ensures
            match res {
                Ok(t) => lock_type_of_text(text@) == Ok::<LockType, Seq<char>>(t),
                Err(msg) => lock_type_of_text(text@) == Err::<LockType, Seq<char>>(msg@),
            },
    {
        if text_is(text, "object") {
            Ok(LockType::Object)
        } else if text_is(text, "relation") {
            Ok(LockType::Relation)
        } else {
            Err(String::from_str("invalid locktype ").concat(text))
        }
    }

    /// Reads the raw bytes of a pg_locks.locktype `TEXT` value.
    pub fn from_sql(raw: &[u8]) -> (res: Result<LockType, String>)
        ensures
            match res {
                Ok(t) => lock_type_of_sql(raw@) == Ok::<LockType, Seq<char>>(t),
                Err(msg) => lock_type_of_sql(raw@) == Err::<LockType, Seq<char>>(msg@),
            },
    {
        match text_from_sql(raw) {
            Ok(text) => LockType::from_text(text.as_str()),
            Err(msg) => Err(msg),
        }
    }
}


/// Each lock type is read back from its own pg_locks.locktype text.
pub proof fn law_lock_type_text_round_trip(t: LockType)
    ensures
        lock_type_of_text(lock_type_text(t)) == Ok::<LockType, Seq<char>>(t),
{
    reveal_strlit("object");
    reveal_strlit("relation");
    assert("object"@.len() == 6);
    assert("relation"@.len() == 8);
}

/// A text is read as a lock type only when it is that type's own text.
pub proof fn law_lock_type_text_exact(text: Seq<char>, t: LockType)
    requires
        lock_type_of_text(text) == Ok::<LockType, Seq<char>>(t),
    ensures
        text == lock_type_text(t),
{
}

/// The UTF-8 encoding of each lock type's text is read back as that type.
pub proof fn law_lock_type_sql_round_trip(t: LockType)
    ensures
        lock_type_of_sql(encode_utf8(lock_type_text(t))) == Ok::<LockType, Seq<char>>(t),
{
    encode_utf8_valid_utf8(lock_type_text(t));
    encode_utf8_decode_utf8(lock_type_text(t));
    law_lock_type_text_round_trip(t);
}


/// The bytes are read as a lock type only when they are the UTF-8 encoding of
/// that lock type's own text.
pub proof fn law_lock_type_sql_exact(raw: Seq<u8>, t: LockType)
    requires
        lock_type_of_sql(raw) == Ok::<LockType, Seq<char>>(t),
    ensures
        raw == encode_utf8(lock_type_text(t)),
{
    law_lock_type_text_exact(decode_utf8(raw), t);
    decode_utf8_encode_utf8(raw);
}

/// Valid UTF-8 bytes are read as the text they encode.
pub proof fn law_lock_type_sql_reads_text(raw: Seq<u8>)
    requires
        valid_utf8(raw),
    ensures
        lock_type_of_sql(raw) == lock_type_of_text(decode_utf8(raw)),
{
}

/// Valid UTF-8 that encodes no lock type's text is refused with the message
/// "invalid locktype " followed by the text.
pub proof fn law_lock_type_sql_refuses_other_text(raw: Seq<u8>)
    requires
        valid_utf8(raw),
        forall|t: LockType| raw != encode_utf8(#[trigger] lock_type_text(t)),
    ensures
        lock_type_of_sql(raw) == Err::<LockType, Seq<char>>("invalid locktype "@ + decode_utf8(raw)),
{
    match lock_type_of_text(decode_utf8(raw)) {
        Ok(t) => {
            law_lock_type_sql_exact(raw, t);
            assert(raw == encode_utf8(lock_type_text(t)));
        },
        Err(_) => {},
    }
}

} // verus!
