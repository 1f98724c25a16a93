use assistant_gateway::models::{MemoryEntry, Timestamp};
use assistant_gateway::service::{get_memory, get_memory_by_id, save_memory, ApiError, MemoryQuery};
use assistant_gateway::store::{Database, PersistError};

fn entry(id: &str, message: &str, response: &str, secs: i64) -> MemoryEntry {
    MemoryEntry {
        id: id.to_string(),
        message: message.to_string(),
        response: response.to_string(),
        timestamp: Timestamp { secs, nanos: 0 },
        message_type: Some("chat".to_string()),
    }
}

fn ids(entries: &[MemoryEntry]) -> Vec<String> {
    entries.iter().map(|e| e.id.clone()).collect()
}

#[test]
fn save_then_get_returns_the_record() {
    let mut db = Database::new();
    let r = MemoryEntry {
        id: "a1".to_string(),
        message: "what is rust".to_string(),
        response: "a language".to_string(),
        timestamp: Timestamp { secs: 1_700_000_000, nanos: 123_456_789 },
        message_type: Some("reasoning".to_string()),
    };
    assert_eq!(db.save_memory(&r), Ok(()));
    assert_eq!(db.get_memory_by_id("a1"), Some(r.clone()));
    let untyped = MemoryEntry { id: "a2".to_string(), message_type: None, ..r.clone() };
    assert_eq!(db.save_memory(&untyped), Ok(()));
    assert_eq!(db.get_memory_by_id("a2"), Some(untyped));
    assert_eq!(db.get_memory_by_id("a1"), Some(r));
}

#[test]
fn get_of_an_unknown_id_finds_nothing() {
    let mut db = Database::new();
    assert!(db.is_empty());
    assert_eq!(db.len(), 0);
    assert_eq!(db.get_memory_by_id("nope"), None);
    db.save_memory(&entry("a", "m", "r", 1)).unwrap();
    assert!(!db.is_empty());
    assert_eq!(db.get_memory_by_id("nope"), None);
    assert_eq!(db.get_memory_by_id(""), None);
    assert_eq!(get_memory_by_id(&db, "nope"), Err(ApiError::NotFound));
    assert_eq!(get_memory_by_id(&db, "a"), Ok(entry("a", "m", "r", 1)));
    assert_eq!(ApiError::NotFound.status_code(), 404);
    assert_eq!(ApiError::Internal.status_code(), 500);
}

#[test]
fn saving_twice_under_one_id_keeps_the_second() {
    let mut db = Database::new();
    db.save_memory(&entry("other", "x", "y", 5)).unwrap();
    db.save_memory(&entry("same", "first text", "r1", 10)).unwrap();
    db.save_memory(&entry("same", "second text", "r2", 20)).unwrap();
    assert_eq!(db.len(), 2);
    assert_eq!(db.get_memory_by_id("same"), Some(entry("same", "second text", "r2", 20)));
    let all = db.get_memory(100, 0);
    assert_eq!(all.iter().filter(|e| e.id == "same").count(), 1);
    assert!(all.iter().all(|e| e.message != "first text"));
    assert!(db.search_memory("first text", 10).is_empty());
    assert_eq!(db.get_memory_by_id("other"), Some(entry("other", "x", "y", 5)));
}

#[test]
fn saving_the_same_record_twice_changes_nothing() {
    let mut db = Database::new();
    db.save_memory(&entry("a", "m", "r", 1)).unwrap();
    db.save_memory(&entry("b", "m", "r", 1)).unwrap();
    db.save_memory(&entry("c", "m", "r", 1)).unwrap();
    let before = db.get_memory(100, 0);
    db.save_memory(&entry("c", "m", "r", 1)).unwrap();
    assert_eq!(db.get_memory(100, 0), before);
}

#[test]
fn first_page_of_two_holds_the_two_newest() {
    let mut db = Database::new();
    db.save_memory(&entry("r1", "one", "1", 100)).unwrap();
    db.save_memory(&entry("r2", "two", "2", 200)).unwrap();
    db.save_memory(&entry("r3", "three", "3", 300)).unwrap();
    assert_eq!(db.get_memory(2, 0), vec![entry("r3", "three", "3", 300), entry("r2", "two", "2", 200)]);
}

#[test]
fn listing_is_newest_first_whatever_the_order_of_writes() {
    let mut db = Database::new();
    for (id, secs) in [("c", 30), ("a", 10), ("e", 50), ("b", 20), ("d", 40)] {
        db.save_memory(&entry(id, "m", "r", secs)).unwrap();
    }
    assert_eq!(ids(&db.get_memory(10, 0)), ["e", "d", "c", "b", "a"]);
    assert_eq!(ids(&db.get_memory(2, 1)), ["d", "c"]);
    assert_eq!(ids(&db.get_memory(10, 3)), ["b", "a"]);
    assert_eq!(ids(&db.get_memory(0, 0)), Vec::<String>::new());
    assert_eq!(ids(&db.get_memory(10, 5)), Vec::<String>::new());
    assert_eq!(ids(&db.get_memory(10, 99)), Vec::<String>::new());
    assert_eq!(ids(&db.get_memory(u32::MAX, 0)).len(), 5);
    assert_eq!(ids(&db.get_memory(u32::MAX, u32::MAX)).len(), 0);
}

#[test]
fn nanoseconds_order_records_of_one_second() {
    let mut db = Database::new();
    let at = |id: &str, nanos: u32| MemoryEntry { timestamp: Timestamp { secs: 7, nanos }, ..entry(id, "m", "r", 7) };
    db.save_memory(&at("late", 900)).unwrap();
    db.save_memory(&at("early", 100)).unwrap();
    db.save_memory(&at("mid", 500)).unwrap();
    assert_eq!(ids(&db.get_memory(10, 0)), ["late", "mid", "early"]);
    assert!(Timestamp { secs: 7, nanos: 100 }.is_before(Timestamp { secs: 7, nanos: 500 }));
    assert!(Timestamp { secs: 6, nanos: 900 }.is_before(Timestamp { secs: 7, nanos: 0 }));
    assert!(!Timestamp { secs: 7, nanos: 0 }.is_before(Timestamp { secs: 7, nanos: 0 }));
    assert!(!Timestamp { secs: 8, nanos: 0 }.is_before(Timestamp { secs: 7, nanos: 999 }));
}

#[test]
fn equal_times_are_listed_in_the_order_of_writes() {
    let mut db = Database::new();
    db.save_memory(&entry("first", "m", "r", 10)).unwrap();
    db.save_memory(&entry("second", "m", "r", 10)).unwrap();
    db.save_memory(&entry("third", "m", "r", 10)).unwrap();
    assert_eq!(ids(&db.get_memory(10, 0)), ["first", "second", "third"]);
    // a record that is written again counts as written last
    db.save_memory(&entry("first", "m2", "r", 10)).unwrap();
    assert_eq!(ids(&db.get_memory(10, 0)), ["second", "third", "first"]);
}

#[test]
fn search_finds_a_substring_of_the_message() {
    let mut db = Database::new();
    db.save_memory(&entry("a", "hello world", "hi there", 1)).unwrap();
    assert_eq!(db.search_memory("world", 10), vec![entry("a", "hello world", "hi there", 1)]);
    assert_eq!(db.search_memory("unrelated", 10), vec![]);
}

#[test]
fn search_looks_at_the_response_too_and_keeps_to_the_limit() {
    let mut db = Database::new();
    db.save_memory(&entry("a", "alpha", "the needle is here", 1)).unwrap();
    db.save_memory(&entry("b", "needle in the message", "beta", 2)).unwrap();
    db.save_memory(&entry("c", "nothing", "nothing", 3)).unwrap();
    db.save_memory(&entry("d", "another needle", "another needle", 4)).unwrap();
    assert_eq!(ids(&db.search_memory("needle", 10)), ["d", "b", "a"]);
    assert_eq!(ids(&db.search_memory("needle", 2)), ["d", "b"]);
    assert_eq!(ids(&db.search_memory("needle", 0)), Vec::<String>::new());
    assert_eq!(ids(&db.search_memory("Needle", 10)), Vec::<String>::new());
    assert_eq!(ids(&db.search_memory("", 10)), ["d", "c", "b", "a"]);
    // the query is a text, not a pattern
    assert_eq!(ids(&db.search_memory("%", 10)), Vec::<String>::new());
    assert_eq!(ids(&db.search_memory("n_edle", 10)), Vec::<String>::new());
}

#[test]
fn a_record_without_an_id_is_refused() {
    let mut db = Database::new();
    db.save_memory(&entry("a", "m", "r", 1)).unwrap();
    assert_eq!(db.save_memory(&entry("", "m", "r", 2)), Err(PersistError::EmptyId));
    assert_eq!(db.len(), 1);
    assert_eq!(save_memory(&mut db, entry("", "m", "r", 2)), Err(ApiError::Internal));
    assert_eq!(db.len(), 1);
    assert_eq!(save_memory(&mut db, entry("b", "m", "r", 2)), Ok(entry("b", "m", "r", 2)));
    assert_eq!(db.len(), 2);
}

#[test]
fn load_writes_the_rows_in_their_order() {
    let rows = vec![
        entry("a", "old", "r", 10),
        entry("b", "m", "r", 30),
        entry("", "no id", "r", 40),
        entry("a", "new", "r", 20),
    ];
    let db = Database::load(&rows);
    assert_eq!(db.get_memory(10, 0), vec![entry("b", "m", "r", 30), entry("a", "new", "r", 20)]);
    assert_eq!(Database::load(&vec![]).len(), 0);
}

#[test]
fn listing_defaults_to_fifty_records_from_the_start() {
    let mut db = Database::new();
    for i in 0..60 {
        db.save_memory(&entry(&format!("id{}", i), "m", "r", i)).unwrap();
    }
    let page = get_memory(&db, &MemoryQuery { limit: None, offset: None });
    assert_eq!(page.len(), 50);
    assert_eq!(page[0].id, "id59");
    assert_eq!(page[49].id, "id10");
    let page = get_memory(&db, &MemoryQuery { limit: Some(3), offset: Some(58) });
    assert_eq!(ids(&page), ["id1", "id0"]);
    let page = get_memory(&db, &MemoryQuery { limit: None, offset: Some(55) });
    assert_eq!(page.len(), 5);
}
