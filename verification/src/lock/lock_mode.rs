use crate::pg_text::{text_from_sql, text_is, text_decode_error};
use vstd::prelude::*;
use vstd::utf8::*;

verus! {

/// Possible values of the pg_locks.mode column
#[derive(Debug, PartialEq, Eq, Hash, Clone, Structural)]
pub enum LockMode {
    /// Conflicts with the ACCESS EXCLUSIVE lock mode only.
    ///
    /// The SELECT command acquires a lock of this mode on referenced tables. In
    /// general, any query that only reads a table and does not modify it will
    /// acquire this lock mode.
    AccessShare,

    /// Conflicts with the EXCLUSIVE and ACCESS EXCLUSIVE lock modes.
    ///
    /// The SELECT command acquires a lock of this mode on all tables on which
    /// one of the FOR UPDATE, FOR NO KEY UPDATE, FOR SHARE, or FOR KEY SHARE
    /// options is specified (in addition to ACCESS SHARE locks on any other
    /// tables that are referenced without any explicit FOR ... locking option).
    RowShare,

    /// Conflicts with the SHARE, SHARE ROW EXCLUSIVE, EXCLUSIVE, and ACCESS
    /// EXCLUSIVE lock modes.
    ///
    /// The commands UPDATE, DELETE, INSERT, and MERGE acquire this lock mode on
    /// the target table (in addition to ACCESS SHARE locks on any other
    /// referenced tables). In general, this lock mode will be acquired by any
    /// command that modifies data in a table.
    RowExclusive,

    /// Conflicts with the SHARE UPDATE EXCLUSIVE, SHARE, SHARE ROW EXCLUSIVE,
    /// EXCLUSIVE, and ACCESS EXCLUSIVE lock modes. This mode protects a table
    /// against concurrent schema changes and VACUUM runs.
    ///
    /// Acquired by VACUUM (without FULL), ANALYZE, CREATE INDEX CONCURRENTLY,
    /// CREATE STATISTICS, COMMENT ON, REINDEX CONCURRENTLY, and certain ALTER
    /// INDEX and ALTER TABLE variants (for full details see the documentation
    /// of these commands).
    ShareUpdateExclusive,

    /// Conflicts with the ROW EXCLUSIVE, SHARE UPDATE EXCLUSIVE, SHARE ROW
    /// EXCLUSIVE, EXCLUSIVE, and ACCESS EXCLUSIVE lock modes. This mode
    /// protects a table against concurrent data changes.
    ///
    /// Acquired by CREATE INDEX (without CONCURRENTLY).
    Share,

    /// Conflicts with the ROW EXCLUSIVE, SHARE UPDATE EXCLUSIVE, SHARE, SHARE
    /// ROW EXCLUSIVE, EXCLUSIVE, and ACCESS EXCLUSIVE lock modes. This mode
    /// protects a table against concurrent data changes, and is self-exclusive
    /// so that only one session can hold it at a time.
    ///
    /// Acquired by CREATE TRIGGER and some forms of ALTER TABLE.
    ShareRowExclusive,

    /// Conflicts with the ROW SHARE, ROW EXCLUSIVE, SHARE UPDATE EXCLUSIVE,
    /// SHARE, SHARE ROW EXCLUSIVE, EXCLUSIVE, and ACCESS EXCLUSIVE lock
    /// modes. This mode allows only concurrent ACCESS SHARE locks, i.e., only
    /// reads from the table can proceed in parallel with a transaction holding
    /// this lock mode.
    ///
    /// Acquired by REFRESH MATERIALIZED VIEW CONCURRENTLY.
    Exclusive,

    /// Conflicts with locks of all modes (ACCESS SHARE, ROW SHARE, ROW
    /// EXCLUSIVE, SHARE UPDATE EXCLUSIVE, SHARE, SHARE ROW EXCLUSIVE,
    /// EXCLUSIVE, and ACCESS EXCLUSIVE). This mode guarantees that the holder
    /// is the only transaction accessing the table in any way.
    ///
    /// Acquired by the DROP TABLE, TRUNCATE, REINDEX, CLUSTER, VACUUM FULL, and
    /// REFRESH MATERIALIZED VIEW (without CONCURRENTLY) commands. Many forms of
    /// ALTER INDEX and ALTER TABLE also acquire a lock at this level. This is
    /// also the default lock mode for LOCK TABLE statements that do not specify
    /// a mode explicitly.
    AccessExclusive,
}

/// The pg_locks.mode text of each lock mode.
pub open spec fn lock_mode_text(mode: LockMode) -> Seq<char> {
    match mode {
        LockMode::Share => "ShareLock"@,
        LockMode::RowShare => "RowShareLock"@,
        LockMode::Exclusive => "ExclusiveLock"@,
        LockMode::AccessShare => "AccessShareLock"@,
        LockMode::RowExclusive => "RowExclusiveLock"@,
        LockMode::AccessExclusive => "AccessExclusiveLock"@,
        LockMode::ShareRowExclusive => "ShareRowExclusiveLock"@,
        LockMode::ShareUpdateExclusive => "ShareUpdateExclusiveLock"@,
    }
}

/// What a pg_locks.mode text reads as: its lock mode, or the message that
/// refuses it.
pub open spec fn lock_mode_of_text(text: Seq<char>) -> Result<LockMode, Seq<char>> {
    if text == "ShareLock"@ {
        Ok(LockMode::Share)
    } else if text == "RowShareLock"@ {
        Ok(LockMode::RowShare)
    } else if text == "ExclusiveLock"@ {
        Ok(LockMode::Exclusive)
    } else if text == "AccessShareLock"@ {
        Ok(LockMode::AccessShare)
    } else if text == "RowExclusiveLock"@ {
        Ok(LockMode::RowExclusive)
    } else if text == "AccessExclusiveLock"@ {
        Ok(LockMode::AccessExclusive)
    } else if text == "ShareRowExclusiveLock"@ {
        Ok(LockMode::ShareRowExclusive)
    } else if text == "ShareUpdateExclusiveLock"@ {
        Ok(LockMode::ShareUpdateExclusive)
    } else {
        Err("unhandled TableLockMode "@ + text)
    }
}

/// What the raw bytes of a pg_locks.mode `TEXT` value read as.
pub open spec fn lock_mode_of_sql(raw: Seq<u8>) -> Result<LockMode, Seq<char>> {
    if valid_utf8(raw) {
        lock_mode_of_text(decode_utf8(raw))
    } else {
        Err(text_decode_error(raw))
    }
}

impl LockMode {
    /// Reads a pg_locks.mode text.
    pub fn from_text(text: &str) -> (res: Result<LockMode, String>)
        ensures
            match res {
                Ok(m) => lock_mode_of_text(text@) == Ok::<LockMode, Seq<char>>(m),
                Err(msg) => lock_mode_of_text(text@) == Err::<LockMode, Seq<char>>(msg@),
            },
    {
        if text_is(text, "ShareLock") {
            Ok(LockMode::Share)
        } else if text_is(text, "RowShareLock") {
            Ok(LockMode::RowShare)
        } else if text_is(text, "ExclusiveLock") {
            Ok(LockMode::Exclusive)
        } else if text_is(text, "AccessShareLock") {
            Ok(LockMode::AccessShare)
        } else if text_is(text, "RowExclusiveLock") {
            Ok(LockMode::RowExclusive)
        } else if text_is(text, "AccessExclusiveLock") {
            Ok(LockMode::AccessExclusive)
        } else if text_is(text, "ShareRowExclusiveLock") {
            Ok(LockMode::ShareRowExclusive)
        } else if text_is(text, "ShareUpdateExclusiveLock") {
            Ok(LockMode::ShareUpdateExclusive)
        } else {
            Err(String::from_str("unhandled TableLockMode ").concat(text))
        }
    }

    /// Reads the raw bytes of a pg_locks.mode `TEXT` value.
    pub fn from_sql(raw: &[u8]) -> (res: Result<LockMode, String>)
        ensures
            match res {
                Ok(m) => lock_mode_of_sql(raw@) == Ok::<LockMode, Seq<char>>(m),
                Err(msg) => lock_mode_of_sql(raw@) == Err::<LockMode, Seq<char>>(msg@),
            },
    {
        match text_from_sql(raw) {
            Ok(text) => LockMode::from_text(text.as_str()),
            Err(msg) => Err(msg),
        }
    }
}


/// Each lock mode is read back from its own pg_locks.mode text.
pub proof fn law_lock_mode_text_round_trip(mode: LockMode)
    ensures
        lock_mode_of_text(lock_mode_text(mode)) == Ok::<LockMode, Seq<char>>(mode),
{
    reveal_strlit("ShareLock");
    assert("ShareLock"@.len() == 9);
    reveal_strlit("RowShareLock");
    assert("RowShareLock"@.len() == 12);
    reveal_strlit("ExclusiveLock");
    assert("ExclusiveLock"@.len() == 13);
    reveal_strlit("AccessShareLock");
    assert("AccessShareLock"@.len() == 15);
    reveal_strlit("RowExclusiveLock");
    assert("RowExclusiveLock"@.len() == 16);
    reveal_strlit("AccessExclusiveLock");
    assert("AccessExclusiveLock"@.len() == 19);
    reveal_strlit("ShareRowExclusiveLock");
    assert("ShareRowExclusiveLock"@.len() == 21);
    reveal_strlit("ShareUpdateExclusiveLock");
    assert("ShareUpdateExclusiveLock"@.len() == 24);
}

/// A text is read as a lock mode only when it is that mode's own text.
pub proof fn law_lock_mode_text_exact(text: Seq<char>, mode: LockMode)
    requires
        lock_mode_of_text(text) == Ok::<LockMode, Seq<char>>(mode),
    ensures
        text == lock_mode_text(mode),
{
}

/// The UTF-8 encoding of each lock mode's text is read back as that mode.
pub proof fn law_lock_mode_sql_round_trip(mode: LockMode)
    ensures
        lock_mode_of_sql(encode_utf8(lock_mode_text(mode))) == Ok::<LockMode, Seq<char>>(mode),
{
    encode_utf8_valid_utf8(lock_mode_text(mode));
    encode_utf8_decode_utf8(lock_mode_text(mode));
    law_lock_mode_text_round_trip(mode);
}


/// The bytes are read as a lock mode only when they are the UTF-8 encoding of
/// that lock mode's own text.
pub proof fn law_lock_mode_sql_exact(raw: Seq<u8>, mode: LockMode)
    requires
        lock_mode_of_sql(raw) == Ok::<LockMode, Seq<char>>(mode),
    ensures
        raw == encode_utf8(lock_mode_text(mode)),
{
    law_lock_mode_text_exact(decode_utf8(raw), mode);
    decode_utf8_encode_utf8(raw);
}

/// Valid UTF-8 bytes are read as the text they encode.
pub proof fn law_lock_mode_sql_reads_text(raw: Seq<u8>)
    requires
        valid_utf8(raw),
    ensures
        lock_mode_of_sql(raw) == lock_mode_of_text(decode_utf8(raw)),
{
}

/// Valid UTF-8 that encodes no lock mode's text is refused with the message
/// "unhandled TableLockMode " followed by the text.
pub proof fn law_lock_mode_sql_refuses_other_text(raw: Seq<u8>)
    requires
        valid_utf8(raw),
        forall|mode: LockMode| raw != encode_utf8(#[trigger] lock_mode_text(mode)),
    ensures
        lock_mode_of_sql(raw) == Err::<LockMode, Seq<char>>("unhandled TableLockMode "@ + decode_utf8(raw)),
{
    match lock_mode_of_text(decode_utf8(raw)) {
        Ok(mode) => {
            law_lock_mode_sql_exact(raw, mode);
            assert(raw == encode_utf8(lock_mode_text(mode)));
        },
        Err(_) => {},
    }
}

} // verus!
