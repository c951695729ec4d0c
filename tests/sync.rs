use kosync::api::{
    auth, auth_decide, auth_user, create_user, get_progress, healthcheck, pull_answer,
    push_answer, registration_answer, registration_lookup, robots, update_progress, ApiError,
    Authed, CreateUser, Pulled, Pushed,
};
use kosync::clock::now_timestamp;
use kosync::progress::{stamp_progress, ProgressState};
use kosync::store::{StoreError, DB};

fn fresh_db() -> DB {
    let db = sled::Config::new().temporary(true).open().expect("temporary database");
    DB::new(db.open_tree("kosync").expect("tree"))
}

fn register(db: &mut DB, user: &str, password: &str) -> Result<String, ApiError> {
    create_user(db, &CreateUser { username: user.to_string(), password: password.to_string() })
}

fn state(doc: &str, pct: f32, progress: &str, device: &str) -> ProgressState {
    ProgressState {
        document: doc.to_string(),
        percentage_bits: pct.to_bits(),
        progress: progress.to_string(),
        device: device.to_string(),
        device_id: None,
        timestamp: None,
    }
}

/// The record of a state as the service stores it: a JSON object.
fn record_of(s: &ProgressState) -> Vec<u8> {
    let mut fields = vec![
        format!("\"document\":{}", serde_json::to_string(&s.document).unwrap()),
        format!("\"percentage\":{}", serde_json::to_string(&f32::from_bits(s.percentage_bits)).unwrap()),
        format!("\"progress\":{}", serde_json::to_string(&s.progress).unwrap()),
        format!("\"device\":{}", serde_json::to_string(&s.device).unwrap()),
    ];
    if let Some(d) = &s.device_id {
        fields.push(format!("\"device_id\":{}", serde_json::to_string(d).unwrap()));
    }
    if let Some(t) = s.timestamp {
        fields.push(format!("\"timestamp\":{}", t));
    }
    format!("{{{}}}", fields.join(",")).into_bytes()
}

/// Stamps `s` with `now`, and stores its record.
fn push_at(db: &mut DB, who: &Authed, s: ProgressState, now: u64) -> Result<Pushed, ApiError> {
    let stamped = stamp_progress(s, now)?;
    update_progress(db, who, &stamped.document, now, &record_of(&stamped))
}

/// Stamps `s` with the clock, and stores its record.
fn push_now(db: &mut DB, who: &Authed, s: ProgressState) -> Result<Pushed, ApiError> {
    let (_, now) = now_timestamp();
    push_at(db, who, s, now)
}

fn pulled_json(p: Pulled) -> serde_json::Value {
    match p {
        Pulled::Found(b) => serde_json::from_slice(&b).expect("stored record is JSON"),
        Pulled::Missing(_) => panic!("record missing"),
    }
}

fn alice() -> Authed {
    Authed("alice".to_string())
}

#[test]
fn register_once_then_exists() {
    let mut db = fresh_db();
    assert_eq!(register(&mut db, "alice", "secret1"), Ok("alice".to_string()));
    assert_eq!(register(&mut db, "alice", "secret1"), Err(ApiError::UserExists));
    assert_eq!(register(&mut db, "alice", "other"), Err(ApiError::UserExists));
    // The first secret is still the one that works.
    assert!(auth(&db, Some("alice"), Some("secret1")).is_ok());
    assert_eq!(auth(&db, Some("alice"), Some("other")).err(), Some(ApiError::Unauthorized));
}

#[test]
fn register_rejects_invalid_fields() {
    let mut db = fresh_db();
    assert_eq!(register(&mut db, "", "pw"), Err(ApiError::InvalidRequest));
    assert_eq!(register(&mut db, "al:ice", "pw"), Err(ApiError::InvalidRequest));
    assert_eq!(register(&mut db, "alice", ""), Err(ApiError::InvalidRequest));
    let long = "p".repeat(4096);
    assert_eq!(register(&mut db, "alice", &long), Err(ApiError::InvalidRequest));
    assert_eq!(db.get_user("alice"), Ok(None));
}

#[test]
fn register_stores_secret_bytes() {
    let mut db = fresh_db();
    register(&mut db, "bob", "hunter2").unwrap();
    assert_eq!(db.get_user("bob"), Ok(Some(b"hunter2".to_vec())));
}

#[test]
fn auth_failures_are_uniform() {
    let mut db = fresh_db();
    register(&mut db, "alice", "secret1").unwrap();
    let wrong = auth(&db, Some("alice"), Some("nope")).err();
    let unknown = auth(&db, Some("mallory"), Some("nope")).err();
    let no_user = auth(&db, None, Some("secret1")).err();
    let no_key = auth(&db, Some("alice"), None).err();
    let empty = auth(&db, Some("alice"), Some("")).err();
    for e in [wrong, unknown, no_user, no_key, empty] {
        assert_eq!(e, Some(ApiError::Unauthorized));
    }
    let ok = auth(&db, Some("alice"), Some("secret1")).expect("authorized");
    assert_eq!(ok.0, "alice");
}

#[test]
fn delimited_user_name_is_refused() {
    let mut db = fresh_db();
    // "x:D" would share its user key "U:x:D:K" with the progress key of ("x", "K").
    let who = Authed("x".to_string());
    push_at(&mut db, &who, state("K", 0.5, "loc", "dev"), 7).unwrap();
    let stored = db.get_user("x:D").unwrap().expect("the progress record sits under that key");
    let secret = String::from_utf8(stored).unwrap_or_default();
    for key in [secret.as_str(), "anything"] {
        assert_eq!(auth(&db, Some("x:D"), Some(key)).err(), Some(ApiError::Unauthorized));
    }
}

#[test]
fn put_returns_previous_value() {
    let mut db = fresh_db();
    assert_eq!(db.put_user("carol", "one"), Ok(None));
    assert_eq!(db.put_user("carol", "two"), Ok(Some(b"one".to_vec())));
    let bytes = record_of(&state("b", 0.1, "p", "d"));
    assert_eq!(db.put_doc("carol", "b", &bytes), Ok(None));
    assert_eq!(db.put_doc("carol", "b", b"{}"), Ok(Some(bytes)));
}

#[test]
fn failed_duplicate_registration_keeps_secret() {
    let mut db = fresh_db();
    register(&mut db, "dave", "first").unwrap();
    assert_eq!(register(&mut db, "dave", "second"), Err(ApiError::UserExists));
    assert_eq!(db.get_user("dave"), Ok(Some(b"first".to_vec())));
}

#[test]
fn delimited_document_is_refused() {
    let mut db = fresh_db();
    register(&mut db, "alice", "secret1").unwrap();
    let who = alice();
    assert_eq!(get_progress(&db, "a:b", &who).err(), Some(ApiError::DocumentFieldMissing));
    let pushed = update_progress(&mut db, &who, "a:b", 1, b"{}");
    assert_eq!(pushed.err(), Some(ApiError::DocumentFieldMissing));
    let stamped = stamp_progress(state("a:b", 0.1, "x", "d"), 1);
    assert_eq!(stamped.err(), Some(ApiError::DocumentFieldMissing));
    assert!(matches!(db.get_doc("alice", "a:b"), Ok(None)));
}

#[test]
fn push_then_pull_round_trip() {
    let mut db = fresh_db();
    let who = alice();
    let mut s = state("book1", 0.25, "loc7", "kindle");
    s.device_id = Some("dev-1".to_string());
    s.timestamp = Some(5);
    let p = push_at(&mut db, &who, s, 1_700_000_123).expect("pushed");
    assert_eq!(p.document, "book1");
    assert_eq!(p.timestamp, 1_700_000_123);
    let got = pulled_json(get_progress(&db, "book1", &who).expect("pulled"));
    assert_eq!(got["document"], "book1");
    assert_eq!(got["percentage"].as_f64(), Some(0.25));
    assert_eq!(got["progress"], "loc7");
    assert_eq!(got["device"], "kindle");
    assert_eq!(got["device_id"], "dev-1");
    assert_eq!(got["timestamp"].as_u64(), Some(1_700_000_123));
}

#[test]
fn stored_record_is_json() {
    let mut db = fresh_db();
    push_at(&mut db, &alice(), state("book1", 0.5, "loc", "phone"), 9).unwrap();
    let raw = db.get_doc("alice", "book1").unwrap().expect("stored");
    assert!(raw.starts_with(b"{\"document\":\"book1\""));
    // A record written in the same form by an earlier server reads back as it is.
    let earlier = br#"{"document":"old","percentage":0.1,"progress":"p","device":"d","timestamp":3}"#;
    db.put_doc("alice", "old", earlier).unwrap();
    match get_progress(&db, "old", &alice()).unwrap() {
        Pulled::Found(b) => assert_eq!(b, earlier.to_vec()),
        Pulled::Missing(_) => panic!("record missing"),
    }
}

#[test]
fn client_timestamp_is_replaced() {
    let mut db = fresh_db();
    let who = alice();
    let (_, before) = now_timestamp();
    let mut s = state("book1", 0.5, "loc", "phone");
    s.timestamp = Some(1);
    let p = push_now(&mut db, &who, s).expect("pushed");
    assert!(p.timestamp >= before);
    let got = pulled_json(get_progress(&db, "book1", &who).unwrap());
    assert_eq!(got["timestamp"].as_u64(), Some(p.timestamp));
}

#[test]
fn pull_never_pushed_gives_stub() {
    let db = fresh_db();
    let who = alice();
    for _ in 0..3 {
        match get_progress(&db, "unknown-book", &who) {
            Ok(Pulled::Missing(d)) => assert_eq!(d, "unknown-book"),
            _ => panic!("expected the document name alone"),
        }
    }
}

#[test]
fn second_push_replaces_first() {
    let mut db = fresh_db();
    let who = alice();
    let mut first = state("book1", 0.5, "loc1", "phoneA");
    first.device_id = Some("A".to_string());
    push_at(&mut db, &who, first, 10).unwrap();
    push_at(&mut db, &who, state("book1", 0.75, "loc2", "phoneB"), 20).unwrap();
    let got = pulled_json(get_progress(&db, "book1", &who).unwrap());
    assert_eq!(got["percentage"].as_f64(), Some(0.75));
    assert_eq!(got["progress"], "loc2");
    assert_eq!(got["device"], "phoneB");
    assert!(got.get("device_id").is_none());
    assert_eq!(got["timestamp"].as_u64(), Some(20));
}

#[test]
fn progress_is_per_user() {
    let mut db = fresh_db();
    push_at(&mut db, &alice(), state("book1", 0.5, "a", "d"), 1).unwrap();
    let bob = Authed("bob".to_string());
    assert!(matches!(get_progress(&db, "book1", &bob), Ok(Pulled::Missing(_))));
}

#[test]
fn answers_for_each_store_outcome() {
    let err: Result<Option<Vec<u8>>, StoreError> = Err(StoreError::Engine);
    assert_eq!(auth_decide("u", "k", err.clone()).err(), Some(ApiError::Internal));
    assert_eq!(auth_decide("u", "k", Ok(None)).err(), Some(ApiError::Unauthorized));
    assert_eq!(auth_decide("u", "k", Ok(Some(b"x".to_vec()))).err(), Some(ApiError::Unauthorized));
    assert_eq!(auth_decide("u", "k", Ok(Some(b"k".to_vec()))).unwrap().0, "u");
    assert_eq!(registration_lookup(&Ok(Some(b"s".to_vec()))), Some(ApiError::UserExists));
    assert_eq!(registration_lookup(&Ok(None)), None);
    assert_eq!(registration_lookup(&err), Some(ApiError::Internal));
    assert_eq!(registration_answer("u", &Ok(None)), Ok("u".to_string()));
    assert_eq!(registration_answer("u", &err), Err(ApiError::Internal));
    assert!(matches!(pull_answer("d", Ok(Some(b"{}".to_vec()))), Ok(Pulled::Found(b)) if b == b"{}".to_vec()));
    assert!(matches!(pull_answer("d", Ok(None)), Ok(Pulled::Missing(d)) if d == "d"));
    assert_eq!(pull_answer("d", err.clone()).err(), Some(ApiError::Internal));
    let p = push_answer("d", 7, &Ok(None)).unwrap();
    assert_eq!((p.document.as_str(), p.timestamp), ("d", 7));
    assert_eq!(push_answer("d", 7, &err).err(), Some(ApiError::Internal));
}

#[test]
fn alice_scenario() {
    let mut db = fresh_db();
    assert_eq!(register(&mut db, "alice", "secret1"), Ok("alice".to_string()));
    let who = auth(&db, Some("alice"), Some("secret1")).expect("authorized");
    assert_eq!(auth_user(&who), 200);
    let p1 = push_now(&mut db, &who, state("book1", 0.5, "loc123", "phoneA")).unwrap();
    assert_eq!(p1.document, "book1");
    let t1 = p1.timestamp;
    let got = pulled_json(get_progress(&db, "book1", &who).unwrap());
    assert_eq!(got["timestamp"].as_u64(), Some(t1));
    assert_eq!(got["percentage"].as_f64(), Some(0.5));
    let p2 = push_now(&mut db, &who, state("book1", 0.75, "loc123", "phoneA")).unwrap();
    assert_eq!(p2.document, "book1");
    let t2 = p2.timestamp;
    assert!(t2 >= t1);
    let got = pulled_json(get_progress(&db, "book1", &who).unwrap());
    assert_eq!(got["timestamp"].as_u64(), Some(t2));
    assert_eq!(got["percentage"].as_f64(), Some(0.75));
}

#[test]
fn error_codes_and_statuses() {
    let all = [
        (ApiError::Internal, 2000, 500),
        (ApiError::Unauthorized, 2001, 401),
        (ApiError::UserExists, 2002, 402),
        (ApiError::InvalidRequest, 2003, 403),
        (ApiError::DocumentFieldMissing, 2004, 403),
    ];
    for (e, code, status) in all {
        assert_eq!(e.code(), code);
        assert_eq!(e.status(), status);
        assert!(!e.message().is_empty());
    }
    assert_eq!(ApiError::UserExists.message(), "Username is already registered.");
}

#[test]
fn trivial_endpoints() {
    assert_eq!(healthcheck(&alice()), 200);
    assert_eq!(robots(), "User-agent: *\nDisallow: /\n");
}
