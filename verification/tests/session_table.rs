use warptest::session::SessionTable;

fn text(s: &str) -> String {
    s.to_string()
}

#[test]
fn new_table_is_empty() {
    let table = SessionTable::new();
    assert_eq!(table.len(), 0);
    assert_eq!(table.lookup(&text("anything")), None);
    assert_eq!(table.lookup(&text("")), None);
}

#[test]
fn inserted_token_is_found() {
    let mut table = SessionTable::new();
    table.insert(text("t-1"), text("u-1"));
    assert_eq!(table.lookup(&text("t-1")), Some(&text("u-1")));
    assert_eq!(table.len(), 1);
}

#[test]
fn unknown_token_is_not_found() {
    let mut table = SessionTable::new();
    table.insert(text("t-1"), text("u-1"));
    assert_eq!(table.lookup(&text("t-2")), None);
    assert_eq!(table.lookup(&text("t-")), None);
    assert_eq!(table.lookup(&text("T-1")), None);
    assert_eq!(table.lookup(&text("u-1")), None);
}

#[test]
fn tokens_are_kept_apart() {
    let mut table = SessionTable::new();
    table.insert(text("t-1"), text("u-1"));
    table.insert(text("t-2"), text("u-2"));
    table.insert(text("t-3"), text("u-1"));
    assert_eq!(table.len(), 3);
    assert_eq!(table.lookup(&text("t-1")), Some(&text("u-1")));
    assert_eq!(table.lookup(&text("t-2")), Some(&text("u-2")));
    assert_eq!(table.lookup(&text("t-3")), Some(&text("u-1")));
}

#[test]
fn inserting_a_known_token_replaces_its_identity_only() {
    let mut table = SessionTable::new();
    table.insert(text("t-1"), text("u-1"));
    table.insert(text("t-2"), text("u-2"));
    table.insert(text("t-1"), text("u-9"));
    assert_eq!(table.len(), 2);
    assert_eq!(table.lookup(&text("t-1")), Some(&text("u-9")));
    assert_eq!(table.lookup(&text("t-2")), Some(&text("u-2")));
}

#[test]
fn empty_token_is_a_token_like_any_other() {
    let mut table = SessionTable::new();
    table.insert(text(""), text("nobody"));
    assert_eq!(table.lookup(&text("")), Some(&text("nobody")));
    assert_eq!(table.lookup(&text(" ")), None);
    assert_eq!(table.len(), 1);
}

#[test]
fn many_sessions_are_all_found() {
    let mut table = SessionTable::new();
    for i in 0..200 {
        table.insert(format!("token-{i}"), format!("user-{}", i % 7));
    }
    assert_eq!(table.len(), 200);
    for i in 0..200 {
        assert_eq!(
            table.lookup(&format!("token-{i}")),
            Some(&format!("user-{}", i % 7))
        );
    }
    assert_eq!(table.lookup(&text("token-200")), None);
}
