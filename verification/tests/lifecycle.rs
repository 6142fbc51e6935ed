use pastecore::PasteError;
use pastecore::encryption::{decrypt, encrypt, generate_key};
use pastecore::lifecycle::{ReadDecision, Store, create_paste, get_paste, read_decision};
use pastecore::models::{ExpirationTime, PasteData};

fn record(id: &str, created_at: i64, expires_at: i64, burn: bool) -> PasteData {
    PasteData {
        id: id.to_string(),
        content: "ciphertext".to_string(),
        created_at,
        expires_at,
        burn_after_read: burn,
        display_format: "PlainText".to_string(),
    }
}

#[test]
fn expired_record_is_never_served() {
    let mut store = Store::new();
    let id = create_paste(
        &mut store,
        "sealed".to_string(),
        ExpirationTime::FiveMinutes,
        false,
        "PlainText".to_string(),
        1000,
    )
    .unwrap();
    // Just before expiry (created 1000, five minutes = 1300) it is served.
    assert!(get_paste(&mut store, &id, 1300).is_ok());
    // Past expiry it is withheld, although no sweep has run.
    assert!(matches!(
        get_paste(&mut store, &id, 1301),
        Err(PasteError::NotFound)
    ));
    // The read did not remove the row; only the reaper does.
    assert!(store.contains(&id));
}

#[test]
fn burn_after_grace_deletes_after_serving() {
    let mut store = Store::new();
    let id = create_paste(
        &mut store,
        "sealed".to_string(),
        ExpirationTime::OneHour,
        true,
        "PlainText".to_string(),
        1000,
    )
    .unwrap();
    // Read 31 seconds after creation: outside the 30-second grace window.
    assert!(get_paste(&mut store, &id, 1031).is_ok());
    assert!(!store.contains(&id));
    assert!(matches!(
        get_paste(&mut store, &id, 1032),
        Err(PasteError::NotFound)
    ));
}

#[test]
fn burn_within_grace_keeps_the_record() {
    let mut store = Store::new();
    let id = create_paste(
        &mut store,
        "sealed".to_string(),
        ExpirationTime::OneHour,
        true,
        "PlainText".to_string(),
        1000,
    )
    .unwrap();
    // Read 10 seconds after creation: within the grace window.
    assert!(get_paste(&mut store, &id, 1010).is_ok());
    assert!(store.contains(&id));
}

#[test]
fn burn_exactly_at_grace_boundary_keeps_the_record() {
    let mut store = Store::new();
    let id = create_paste(
        &mut store,
        "sealed".to_string(),
        ExpirationTime::OneHour,
        true,
        "PlainText".to_string(),
        1000,
    )
    .unwrap();
    // Thirty seconds exactly does not exceed the window.
    assert!(get_paste(&mut store, &id, 1030).is_ok());
    assert!(store.contains(&id));
}

#[test]
fn reaper_removes_exactly_the_expired() {
    let mut store = Store::new();
    store.create(record("aaaaaaaa", 0, 100, false)).unwrap();
    store.create(record("bbbbbbbb", 0, 500, false)).unwrap();
    store.create(record("cccccccc", 0, 99, true)).unwrap();
    let removed = store.sweep(200);
    assert_eq!(removed, 2);
    assert_eq!(store.len(), 1);
    assert!(store.contains(&"bbbbbbbb".to_string()));
}

#[test]
fn reaper_is_idempotent() {
    let mut store = Store::new();
    store.create(record("aaaaaaaa", 0, 100, false)).unwrap();
    store.create(record("bbbbbbbb", 0, 500, false)).unwrap();
    let first = store.sweep(200);
    assert_eq!(first, 1);
    let second = store.sweep(200);
    assert_eq!(second, 0);
    assert_eq!(store.len(), 1);
}

#[test]
fn reaper_on_empty_store_removes_nothing() {
    let mut store = Store::new();
    assert_eq!(store.sweep(1_000_000), 0);
    assert_eq!(store.len(), 0);
}

#[test]
fn unexpired_record_survives_reads_and_sweeps() {
    let mut store = Store::new();
    let id = create_paste(
        &mut store,
        "sealed".to_string(),
        ExpirationTime::OneDay,
        false,
        "Markdown".to_string(),
        1000,
    )
    .unwrap();
    assert!(get_paste(&mut store, &id, 2000).is_ok());
    assert_eq!(store.sweep(2000), 0);
    let served = get_paste(&mut store, &id, 3000).unwrap();
    assert_eq!(served.display_format, "Markdown");
    assert_eq!(served.created_at, 1000);
    assert_eq!(served.expires_at, 1000 + 86400);
}

#[test]
fn create_refuses_a_taken_id() {
    let mut store = Store::new();
    store.create(record("same0000", 0, 100, false)).unwrap();
    assert_eq!(
        store.create(record("same0000", 5, 200, false)),
        Err(PasteError::StoreError)
    );
    assert_eq!(store.len(), 1);
}

#[test]
fn missing_id_reads_as_not_found() {
    let mut store = Store::new();
    assert!(matches!(
        get_paste(&mut store, &"nosuchid".to_string(), 0),
        Err(PasteError::NotFound)
    ));
}

#[test]
fn delete_removes_exactly_the_named_record() {
    let mut store = Store::new();
    store.create(record("aaaaaaaa", 0, 100, false)).unwrap();
    store.create(record("bbbbbbbb", 0, 100, false)).unwrap();
    assert!(store.delete(&"aaaaaaaa".to_string()));
    assert!(!store.delete(&"aaaaaaaa".to_string()));
    assert_eq!(store.len(), 1);
    assert!(store.contains(&"bbbbbbbb".to_string()));
}

#[test]
fn create_then_read_hello_within_ttl() {
    // Create a paste with content "hello" and a five-minute lifetime, read
    // it straight back, and check the decrypted content and the remaining
    // time.
    let mut store = Store::new();
    let key = generate_key();
    let sealed = encrypt(b"hello", &key);
    let t0: i64 = 10_000;
    let id = create_paste(
        &mut store,
        sealed,
        ExpirationTime::FiveMinutes,
        false,
        "PlainText".to_string(),
        t0,
    )
    .unwrap();
    assert_eq!(id.len(), 8);
    let now = t0 + 1;
    let served = get_paste(&mut store, &id, now).unwrap();
    let opened = decrypt(served.content.as_str(), &key).unwrap();
    assert_eq!(opened, b"hello".to_vec());
    let remaining = served.expires_at - now;
    assert!(remaining > 0);
    assert!(remaining < 300);
}

#[test]
fn burn_sequence_grace_then_burn_then_gone() {
    // A burn-after-read paste is readable within the grace window without
    // being consumed, is served once more past the window, and is gone
    // afterwards.
    let mut store = Store::new();
    let key = generate_key();
    let sealed = encrypt(b"once", &key);
    let t0: i64 = 50_000;
    let id = create_paste(
        &mut store,
        sealed,
        ExpirationTime::OneHour,
        true,
        "PlainText".to_string(),
        t0,
    )
    .unwrap();
    let first = get_paste(&mut store, &id, t0 + 1).unwrap();
    assert_eq!(decrypt(first.content.as_str(), &key).unwrap(), b"once".to_vec());
    assert!(store.contains(&id));
    let second = get_paste(&mut store, &id, t0 + 40).unwrap();
    assert_eq!(decrypt(second.content.as_str(), &key).unwrap(), b"once".to_vec());
    assert!(!store.contains(&id));
    assert!(matches!(
        get_paste(&mut store, &id, t0 + 41),
        Err(PasteError::NotFound)
    ));
}

#[test]
fn read_decision_covers_the_lifecycle() {
    // Past expiry: rejected, whatever the flags say.
    assert_eq!(read_decision(0, 100, false, 101), ReadDecision::Reject);
    assert_eq!(read_decision(0, 100, true, 101), ReadDecision::Reject);
    // Servable, no burn: never deleted.
    assert_eq!(
        read_decision(0, 100, false, 50),
        ReadDecision::Serve { delete_after: false }
    );
    // Burn-after-read: deleted only past the 30-second grace window.
    assert_eq!(
        read_decision(0, 1000, true, 30),
        ReadDecision::Serve { delete_after: false }
    );
    assert_eq!(
        read_decision(0, 1000, true, 31),
        ReadDecision::Serve { delete_after: true }
    );
    // Extreme timestamps do not trip the age arithmetic.
    assert_eq!(
        read_decision(i64::MIN, i64::MAX, true, 0),
        ReadDecision::Serve { delete_after: true }
    );
}

#[test]
fn generated_ids_are_opaque_and_distinct() {
    let a = pastecore::ids::generate_id();
    let b = pastecore::ids::generate_id();
    assert_eq!(a.len(), 8);
    assert!(a.chars().all(|c| c.is_ascii_alphanumeric()));
    assert!(b.chars().all(|c| c.is_ascii_alphanumeric()));
    assert_ne!(a, b);
}
