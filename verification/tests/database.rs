use couchbase_lite::conflict::{
    choose_resolution, default_conflict_resolver, resolve_plan, ConflictLoop, ConflictStep, Resolution, Side,
    MAX_RETRY_COUNT,
};
use couchbase_lite::database::{
    database_name, not_found_as_none, open_target, shared_encoder_result, DatabaseConfig, DatabaseFlags,
};
use couchbase_lite::document::{C4DocumentOwner, C4Revision, Document, K_DOC_EXISTS, K_REV_DELETED};
use couchbase_lite::error::{
    c4error_init, engine_result, C4Error, C4ErrorDomain, Error, K_C4_ERROR_CONFLICT, K_C4_ERROR_NOT_FOUND,
};
use couchbase_lite::fl_slice::FLSliceResult;
use couchbase_lite::fleece::{FlNumber, FlValue};
use couchbase_lite::log_reroute::{domain_name, log_level, log_line, KnownLogDomain, LogLevel};
use couchbase_lite::query::{
    column_index_check, get_raw_checked, AdvanceStep, DocEnumeratorFlags, WalkState,
};
use couchbase_lite::transaction::{SaveMachine, SaveOutcome, SaveStep, Transaction};
use couchbase_lite::value::{i64_column_result, u16_column_result, ValueRef};

fn lite_error(code: i32) -> C4Error {
    C4Error { domain: C4ErrorDomain::LiteCoreDomain, code, internal_info: 0 }
}

fn logic_text(e: &Error) -> String {
    match e {
        Error::LogicError(m) => m.clone(),
        _ => panic!("not a logic error"),
    }
}

fn doc_owner(generation: u32, rev_id: &[u8], flags: u32, selected_flags: u8) -> C4DocumentOwner {
    C4DocumentOwner {
        flags,
        generation,
        doc_id: b"doc".to_vec(),
        rev_id: rev_id.to_vec(),
        sequence: 1,
        selected_rev: C4Revision { rev_id: rev_id.to_vec(), flags: selected_flags, sequence: 1 },
    }
}

#[test]
fn config_keeps_path_and_flags() {
    let flags = DatabaseFlags::create().union(DatabaseFlags::read_only());
    let cfg = DatabaseConfig::new(b"/tmp/db", flags);
    let c = cfg.inner.unwrap();
    assert_eq!("/tmp/db", c.parent_directory);
    assert_eq!(3, c.flags);
    let bad = DatabaseConfig::new(&[0xff, 0xfe], flags);
    assert!(matches!(bad.inner, Err(Error::InvalidUtf8)));
}

#[test]
fn open_target_strips_extension() {
    let (cfg, name) =
        open_target("\"/tmp/a.cblite2\"", Some(b"/tmp"), Some(b"a.cblite2"), DatabaseFlags::create()).unwrap();
    assert_eq!("a", name);
    assert_eq!("/tmp", cfg.inner.unwrap().parent_directory);
    let (_, name) = open_target("p", Some(b"/"), Some("имя.cblite2".as_bytes()), DatabaseFlags::create()).unwrap();
    assert_eq!("имя", name);
    let (cfg, _) = open_target("q", Some(&[0xff]), Some(b"b.cblite2"), DatabaseFlags::create()).unwrap();
    assert!(matches!(cfg.inner, Err(Error::InvalidUtf8)));
    let (cfg, _) = open_target("r", Some(b"/d"), Some(b"b.cblite2"), DatabaseFlags::read_only()).unwrap();
    let c = cfg.inner.unwrap();
    assert_eq!([0u8; 32], c.encryption_key.bytes);
    assert_eq!(DatabaseFlags::read_only().bits(), c.flags);
}

#[test]
fn open_target_errors() {
    let e = open_target("\"/\"", None, None, DatabaseFlags::create()).err().unwrap();
    assert_eq!("path \"/\" has no parent diretory", logic_text(&e));
    let e = open_target("\"/a/..\"", Some(b"/a"), None, DatabaseFlags::create()).err().unwrap();
    assert_eq!("path \"/a/..\" has no last part", logic_text(&e));
    let e = open_target("\"/tmp/a.db\"", Some(b"/tmp"), Some(b"a.db"), DatabaseFlags::create()).err().unwrap();
    assert_eq!("path \"/tmp/a.db\" should have last part with .cblite2 suffix", logic_text(&e));
    let e = open_target("x", Some(b"/tmp"), Some(&[0xff]), DatabaseFlags::create()).err().unwrap();
    assert!(matches!(e, Error::InvalidUtf8));
}

#[test]
fn missing_document_is_none() {
    let r: Result<Option<u8>, Error> = not_found_as_none(Err(Error::C4Error(lite_error(K_C4_ERROR_NOT_FOUND))));
    assert!(matches!(r, Ok(None)));
    let r = not_found_as_none(Ok(5u8));
    assert!(matches!(r, Ok(Some(5))));
    let r: Result<Option<u8>, Error> = not_found_as_none(Err(Error::C4Error(lite_error(K_C4_ERROR_CONFLICT))));
    assert!(matches!(r, Err(Error::C4Error(e)) if e.code == K_C4_ERROR_CONFLICT));
}

#[test]
fn engine_results() {
    assert!(engine_result(true, c4error_init()).is_ok());
    assert!(matches!(engine_result(false, lite_error(3)), Err(Error::C4Error(e)) if e.code == 3));
    let e = shared_encoder_result(false).err().unwrap();
    assert_eq!("c4db_getSharedFleeceEncoder return null.into()", logic_text(&e));
    assert!(database_name(b"db").is_ok());
    assert!(matches!(database_name(&[0xc3]), Err(Error::InvalidUtf8)));
}

#[test]
fn error_texts() {
    let e = Error::LogicError("boom".to_string());
    assert_eq!("logic error: boom", e.to_message(b"", b""));
    let e = Error::C4Error(lite_error(7));
    assert_eq!("c4 error LiteCore NotFound: not found", e.to_message(b"LiteCore NotFound", b"not found"));
    let e = Error::InvalidQuery { pos: 12, query_expr: "SELECT".to_string(), err: lite_error(1) };
    assert_eq!("Can not parse query SELECT, error at 12: d m", e.to_message(b"d", b"m"));
    assert_eq!("Utf8 encoding error", Error::InvalidUtf8.to_message(b"", b""));
}

#[test]
fn walk_ends_once() {
    let mut w = WalkState::new();
    assert!(w.has_item());
    assert_eq!(AdvanceStep::AskEngine, w.advance_step());
    assert!(w.after_next(true, c4error_init()).is_ok());
    assert!(w.has_item());
    assert!(w.after_next(false, c4error_init()).is_ok());
    assert!(!w.has_item());
    assert_eq!(AdvanceStep::Ended, w.advance_step());
    let mut w = WalkState::new();
    assert!(matches!(w.after_next(false, lite_error(2)), Err(Error::C4Error(e)) if e.code == 2));
    assert!(w.has_item());
}

#[test]
fn advance_stops_asking_after_the_end() {
    let mut w = WalkState::new();
    assert!(w.advance(|| (true, c4error_init())).is_ok());
    assert!(w.has_item());
    assert!(matches!(w.advance(|| (false, lite_error(3))), Err(Error::C4Error(e)) if e.code == 3));
    assert!(w.has_item());
    assert!(w.advance(|| (false, c4error_init())).is_ok());
    assert!(!w.has_item());
    let mut asked = false;
    assert!(w.advance(|| {
        asked = true;
        (true, c4error_init())
    })
    .is_ok());
    assert!(!asked);
    assert!(!w.has_item());
}

#[test]
fn column_reads() {
    let e = column_index_check(5, 3).err().unwrap();
    assert_eq!("Enumerator::get_raw_checked: Index out of bounds 5 / 3", logic_text(&e));
    assert!(column_index_check(2, 3).is_ok());
    let columns = vec![FlValue::String(b"id1".to_vec()), FlValue::Null];
    match get_raw_checked(&columns, 0).unwrap() {
        ValueRef::String(s) => assert_eq!("id1", s),
        _ => panic!("expected a string"),
    }
    assert!(get_raw_checked(&columns, 1).unwrap().is_null());
    let e = get_raw_checked(&columns, 2).err().unwrap();
    assert_eq!("Enumerator::get_raw_checked: Index out of bounds 2 / 2", logic_text(&e));
}

#[test]
fn value_conversions() {
    let e = u16_column_result(&ValueRef::SignedInt(70000)).err().unwrap();
    assert_eq!(
        "ValueRef(Signed) 70000 to u16 conversation error: out of range integral type conversion attempted",
        logic_text(&e)
    );
    assert_eq!(5u16, u16_column_result(&ValueRef::UnsignedInt(5)).unwrap());
    assert_eq!(-3i64, i64_column_result(&ValueRef::SignedInt(-3)).unwrap());
    assert!(i64_column_result(&ValueRef::UnsignedInt(u64::MAX)).is_err());
    let n = FlNumber {
        is_integer: true,
        is_unsigned: false,
        is_double: false,
        as_int: 42,
        as_unsigned: 42,
        float_bits: 0,
        double_bits: 0,
    };
    let v = FlValue::Number(n);
    assert!(matches!(ValueRef::new(&v), ValueRef::SignedInt(42)));
    assert_eq!(42u64, ValueRef::new(&v).as_u64().unwrap());
}

#[test]
fn wrong_kind_messages_print_the_value() {
    let e = ValueRef::SignedInt(1).as_str().err().unwrap();
    assert_eq!("Wrong ValueRef type, expect String, got SignedInt(1)", logic_text(&e));
    let e = ValueRef::Null.as_str().err().unwrap();
    assert_eq!("Wrong ValueRef type, expect String, got Null", logic_text(&e));
    let e = ValueRef::String("a\"b").as_u64().err().unwrap();
    assert_eq!("Wrong ValueRef type, expect SignedInt|UnsignedInt (u64) got String(\"a\\\"b\")", logic_text(&e));
    let e = ValueRef::Bool(true).as_u64().err().unwrap();
    assert_eq!("Wrong ValueRef type, expect SignedInt|UnsignedInt (u64) got Bool(true)", logic_text(&e));
}

#[test]
fn doc_enumerator_default_flags() {
    assert_eq!(0x30, DocEnumeratorFlags::default().bits());
}

#[test]
fn log_lines() {
    assert_eq!("db", domain_name(Some(KnownLogDomain::Database), b""));
    assert_eq!("BLIP", domain_name(None, b"BLIP"));
    assert_eq!("unkndmn", domain_name(None, &[0xff]));
    assert_eq!(LogLevel::Trace, log_level(0));
    assert_eq!(LogLevel::Error, log_level(5));
    assert_eq!(LogLevel::Info, log_level(9));
    assert_eq!("db hello", log_line("db", Some(b"hello")));
    assert_eq!("db <null>", log_line("db", None));
    assert_eq!("q a\u{FFFD}b", log_line("q", Some(&[b'a', 0xff, b'b'])));
}

#[test]
fn new_document_gets_uuid() {
    let doc = Document::new(FLSliceResult::new(vec![1, 2]));
    let id = doc.id();
    assert_eq!(36, id.len());
    assert_eq!(b'-', id.as_bytes()[8]);
    assert_eq!(b'4', id.as_bytes()[14]);
    let other = Document::new(FLSliceResult::new(vec![]));
    assert_ne!(id, other.id());
}

#[test]
fn conflict_winner() {
    let a = doc_owner(3, b"3-aa", K_DOC_EXISTS, 0);
    let b = doc_owner(2, b"2-zz", K_DOC_EXISTS, 0);
    assert_eq!(Some(Side::Local), default_conflict_resolver(Some(&a), Some(&b)));
    assert_eq!(Some(Side::Remote), default_conflict_resolver(Some(&b), Some(&a)));
    let c = doc_owner(3, b"3-bb", K_DOC_EXISTS, 0);
    assert_eq!(Some(Side::Remote), default_conflict_resolver(Some(&a), Some(&c)));
    assert_eq!(None, default_conflict_resolver(None, Some(&c)));
    let deleted = doc_owner(4, b"4-cc", K_DOC_EXISTS, K_REV_DELETED);
    let (res, winner) = choose_resolution(&deleted, Some(&a));
    assert_eq!(Resolution::UseRemote, res);
    assert_eq!(None, winner);
    let plan = resolve_plan(&a, Resolution::UseLocal, None);
    assert_eq!(K_REV_DELETED, plan.merge_flags);
}

#[test]
fn conflict_loop_gives_up() {
    let mut l = ConflictLoop::new(None);
    l.found_revision(b"2-x");
    let mut steps = 0;
    while l.after_resolution(false) == ConflictStep::Retry {
        steps += 1;
    }
    assert_eq!(MAX_RETRY_COUNT as usize - 1, steps);
    let mut l = ConflictLoop::new(Some(b"1-a".to_vec()));
    assert_eq!(ConflictStep::Done, l.after_resolution(true));
}

#[test]
fn save_retries_on_conflict() {
    let mut doc = Document::new_with_id_fleece("d1".to_string(), FLSliceResult::new(vec![7]));
    let mut m = SaveMachine::start(&mut doc, false).unwrap();
    let req = m.request(&doc);
    assert!(!req.update);
    assert_eq!(vec![7], req.body);
    assert!(matches!(m.on_outcome(&mut doc, SaveOutcome::Failed(lite_error(K_C4_ERROR_CONFLICT))), SaveStep::Reload));
    assert!(m.on_reload(Ok(doc_owner(1, b"1-a", K_DOC_EXISTS, 0))).is_none());
    assert!(m.request(&doc).update);
    let step = m.on_outcome(&mut doc, SaveOutcome::Saved(doc_owner(2, b"2-b", K_DOC_EXISTS, 0)));
    assert!(matches!(step, SaveStep::Done(Ok(()))));
    assert_eq!(Some("2-b"), doc.revision_id());
}

#[test]
fn delete_needs_saved_document() {
    let mut doc = Document::new_with_id_fleece("d2".to_string(), FLSliceResult::new(vec![]));
    let e = SaveMachine::start(&mut doc, true).err().unwrap();
    assert_eq!("Cannot delete a document that has not yet been saved, doc_id d2", logic_text(&e));
}

#[test]
fn transaction_rolls_back_unless_ended() {
    let mut t = Transaction::new();
    assert!(t.needs_rollback());
    assert!(t.end_transaction(true, c4error_init()).is_ok());
    assert!(!t.needs_rollback());
}
