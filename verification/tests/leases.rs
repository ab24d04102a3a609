use registry_core::database::lease::LeaseTable;
use registry_core::database::LeaseKind;

const PUBLISH: LeaseKind = LeaseKind::Write { operation: "publish" };
const YANK: LeaseKind = LeaseKind::Write { operation: "yank" };

#[test]
fn new_table_holds_nothing() {
    let table = LeaseTable::new();
    assert_eq!(table.readers, 0);
    assert_eq!(table.writer, None);
}

#[test]
fn second_writer_must_wait() {
    let mut table = LeaseTable::new();
    assert!(table.request(PUBLISH));
    assert_eq!(table.writer, Some("publish"));
    assert!(!table.request(YANK));
    assert!(!table.request(PUBLISH));
    assert_eq!(table.writer, Some("publish"));
    table.release(PUBLISH);
    assert_eq!(table.writer, None);
    assert!(table.request(YANK));
    assert_eq!(table.writer, Some("yank"));
}

#[test]
fn readers_share_the_store() {
    let mut table = LeaseTable::new();
    assert!(table.request(LeaseKind::Read));
    assert!(table.request(LeaseKind::Read));
    assert!(table.request(PUBLISH));
    assert!(table.request(LeaseKind::Read));
    assert_eq!(table.readers, 3);
    assert_eq!(table.writer, Some("publish"));
    table.release(LeaseKind::Read);
    assert_eq!(table.readers, 2);
    assert_eq!(table.writer, Some("publish"));
    table.release(PUBLISH);
    assert_eq!(table.readers, 2);
}

#[test]
fn releasing_what_is_not_held_changes_nothing() {
    let mut table = LeaseTable::new();
    table.release(LeaseKind::Read);
    table.release(YANK);
    assert_eq!(table.readers, 0);
    assert_eq!(table.writer, None);
}

#[test]
fn read_leases_are_counted_up_to_the_limit() {
    let mut table = LeaseTable { readers: usize::MAX - 1, writer: None };
    assert!(table.request(LeaseKind::Read));
    assert_eq!(table.readers, usize::MAX);
    assert!(!table.request(LeaseKind::Read));
    assert_eq!(table.readers, usize::MAX);
}
