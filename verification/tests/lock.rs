use pglockanalyze::{LockMode, LockType};

#[test]
fn lock_mode_from_each_text() {
    let cases = [
        ("ShareLock", LockMode::Share),
        ("RowShareLock", LockMode::RowShare),
        ("ExclusiveLock", LockMode::Exclusive),
        ("AccessShareLock", LockMode::AccessShare),
        ("RowExclusiveLock", LockMode::RowExclusive),
        ("AccessExclusiveLock", LockMode::AccessExclusive),
        ("ShareRowExclusiveLock", LockMode::ShareRowExclusive),
        ("ShareUpdateExclusiveLock", LockMode::ShareUpdateExclusive),
    ];
    for (text, mode) in cases {
        assert_eq!(LockMode::from_text(text), Ok(mode.clone()));
        assert_eq!(LockMode::from_sql(text.as_bytes()), Ok(mode));
    }
}

#[test]
fn lock_mode_unknown_text_refused() {
    assert_eq!(
        LockMode::from_text("SIReadLock"),
        Err("unhandled TableLockMode SIReadLock".to_string())
    );
    assert_eq!(
        LockMode::from_sql(b"sharelock"),
        Err("unhandled TableLockMode sharelock".to_string())
    );
    assert_eq!(
        LockMode::from_text(""),
        Err("unhandled TableLockMode ".to_string())
    );
}

#[test]
fn lock_mode_invalid_utf8_refused() {
    let raw: &[u8] = &[0x53, 0xff, 0x68];
    let expected = std::str::from_utf8(raw).unwrap_err().to_string();
    assert_eq!(LockMode::from_sql(raw), Err(expected));
}

#[test]
fn lock_type_from_each_text() {
    assert_eq!(LockType::from_text("object"), Ok(LockType::Object));
    assert_eq!(LockType::from_text("relation"), Ok(LockType::Relation));
    assert_eq!(LockType::from_sql(b"object"), Ok(LockType::Object));
    assert_eq!(LockType::from_sql(b"relation"), Ok(LockType::Relation));
}

#[test]
fn lock_type_unknown_text_refused() {
    assert_eq!(
        LockType::from_text("advisory"),
        Err("invalid locktype advisory".to_string())
    );
    assert_eq!(
        LockType::from_sql(b"Relation"),
        Err("invalid locktype Relation".to_string())
    );
}

#[test]
fn lock_type_invalid_utf8_refused() {
    let raw: &[u8] = &[0xc3, 0x28];
    let expected = std::str::from_utf8(raw).unwrap_err().to_string();
    assert_eq!(LockType::from_sql(raw), Err(expected));
}

#[test]
fn lock_type_decodes_multibyte_text() {
    assert_eq!(
        LockType::from_sql("relatión".as_bytes()),
        Err("invalid locktype relatión".to_string())
    );
}
