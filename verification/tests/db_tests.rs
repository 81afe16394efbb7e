use findagrave_citation_parser::Error;
use findagrave_citation_parser::Memorial;
use findagrave_citation_parser::Store;
use findagrave_citation_parser::get_memorial_by_id;
use findagrave_citation_parser::search_memorials_by_name;
use findagrave_citation_parser::store_in_db;

fn create_test_memorial() -> Memorial {
    Memorial {
        id: Some(12345),
        name: "Test Person".to_string(),
        birth_date: Some("1900-01-01".to_string()),
        birth_location: Some("Test City".to_string()),
        death_date: Some("1980-12-31".to_string()),
        death_location: Some("Another City".to_string()),
        burial_location: Some("Test Cemetery".to_string()),
        plot_details: Some("Section X, Plot 123".to_string()),
    }
}

#[test]
fn test_store_and_retrieve() {
    let mut store = Store::open(":memory:").unwrap();
    let memorial = create_test_memorial();

    store.upsert(&memorial).unwrap();

    let retrieved = store.get_by_id(12345).unwrap().unwrap();
    assert_eq!(retrieved.id, memorial.id);
    assert_eq!(retrieved.name, memorial.name);
    assert_eq!(retrieved.birth_date, memorial.birth_date);
    assert_eq!(retrieved.birth_location, memorial.birth_location);
    assert_eq!(retrieved.death_date, memorial.death_date);
    assert_eq!(retrieved.death_location, memorial.death_location);
    assert_eq!(retrieved.burial_location, memorial.burial_location);
    assert_eq!(retrieved.plot_details, memorial.plot_details);
}

#[test]
fn test_search_by_name() {
    let mut store = Store::open(":memory:").unwrap();
    let memorial = create_test_memorial();
    store.upsert(&memorial).unwrap();

    let results = store.search_by_name("Test").unwrap();
    assert_eq!(results.len(), 1);
    assert_eq!(results[0].name, "Test Person");

    let no_results = store.search_by_name("Nonexistent").unwrap();
    assert_eq!(no_results.len(), 0);
}

#[test]
fn test_upsert_idempotent() {
    let mut store = Store::open(":memory:").unwrap();
    let memorial = create_test_memorial();

    store.upsert(&memorial).unwrap();
    store.upsert(&memorial).unwrap();

    // Exactly one row for that id, with the same field values.
    let results = store.search_by_name("Test Person").unwrap();
    assert_eq!(results.len(), 1);
    let retrieved = store.get_by_id(12345).unwrap().unwrap();
    assert_eq!(retrieved.name, memorial.name);
    assert_eq!(retrieved.plot_details, memorial.plot_details);
}

#[test]
fn test_upsert_overwrites_fields() {
    let mut store = Store::open(":memory:").unwrap();
    let mut memorial = create_test_memorial();
    store.upsert(&memorial).unwrap();

    memorial.name = "Renamed Person".to_string();
    memorial.death_location = None;
    store.upsert(&memorial).unwrap();

    let retrieved = store.get_by_id(12345).unwrap().unwrap();
    assert_eq!(retrieved.name, "Renamed Person");
    assert_eq!(retrieved.death_location, None);
    let old = store.search_by_name("Test Person").unwrap();
    assert_eq!(old.len(), 0);
}

#[test]
fn test_upsert_without_id_assigns_one() {
    let mut store = Store::open(":memory:").unwrap();
    let mut memorial = create_test_memorial();
    memorial.id = None;
    store.upsert(&memorial).unwrap();

    let results = store.search_by_name("Test Person").unwrap();
    assert_eq!(results.len(), 1);
    assert!(results[0].id.is_some());
}

#[test]
fn test_get_by_id_absent() {
    let store = Store::open(":memory:").unwrap();
    assert!(store.get_by_id(42).unwrap().is_none());
}

#[test]
fn test_search_case_insensitive_and_sorted() {
    let mut store = Store::open(":memory:").unwrap();
    let mut a = Memorial::new();
    a.id = Some(1);
    a.name = "John Smith".to_string();
    store.upsert(&a).unwrap();
    let mut b = Memorial::new();
    b.id = Some(2);
    b.name = "anna smithers".to_string();
    store.upsert(&b).unwrap();
    let mut c = Memorial::new();
    c.id = Some(3);
    c.name = "Bob Jones".to_string();
    store.upsert(&c).unwrap();

    let results = store.search_by_name("SMITH").unwrap();
    assert_eq!(results.len(), 2);
    // Ascending byte order: 'J' sorts before 'a'.
    assert_eq!(results[0].name, "John Smith");
    assert_eq!(results[1].name, "anna smithers");

    for m in &results {
        assert!(m.name.to_lowercase().contains("smith"));
    }
}

#[test]
fn test_search_caps_at_one_hundred() {
    let mut store = Store::open(":memory:").unwrap();
    let mut i: u64 = 1;
    while i <= 105 {
        let mut m = Memorial::new();
        m.id = Some(i);
        m.name = format!("Common Name {:03}", i);
        store.upsert(&m).unwrap();
        i += 1;
    }
    let results = store.search_by_name("Common Name").unwrap();
    assert_eq!(results.len(), 100);
}

#[test]
fn test_missing_store_file_yields_empty() {
    // Neither lookup nor search creates or needs the store file.
    let path = "no_such_store_anywhere.db";
    assert!(get_memorial_by_id(1, path).unwrap().is_none());
    let results = search_memorials_by_name("Smith", path).unwrap();
    assert!(results.is_empty());
}

#[test]
fn test_store_failure_is_database_error() {
    // A directory is not a database file, so opening it for writing fails.
    let memorial = create_test_memorial();
    match store_in_db(&memorial, ".") {
        Err(Error::DatabaseError(_)) => {},
        _ => panic!("expected a storage failure"),
    }
}

#[test]
fn test_path_functions_roundtrip_in_memory_store() {
    // The path-based functions open their own store; on the in-memory
    // path every call sees a fresh, empty store.
    let memorial = create_test_memorial();
    store_in_db(&memorial, ":memory:").unwrap();
    assert!(get_memorial_by_id(12345, ":memory:").unwrap().is_none());
}
