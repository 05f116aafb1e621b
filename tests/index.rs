use filebase::model::{FileSystemError, Timestamp};
use filebase::storage::MediaItemMetadataStorageInternal;
use filebase::watchdog::store_new_file;

fn date() -> Timestamp {
    Timestamp::new(2021, 3, 5, 10, 11, 12)
}

fn add(s: &mut MediaItemMetadataStorageInternal, path: &str, name: &str) -> u64 {
    s.add(path, name.to_string(), "image/jpeg".to_string(), date()).unwrap().id
}

#[test]
fn add_assigns_consecutive_ids() {
    let mut s = MediaItemMetadataStorageInternal::new();
    assert_eq!(add(&mut s, "/src/a.jpg", "a.jpg"), 0);
    assert_eq!(add(&mut s, "/src/b.jpg", "b.jpg"), 1);
    let item = s.get_item(1).unwrap();
    assert_eq!(item.path, "/src/b.jpg");
    assert_eq!(item.name, "b.jpg");
    assert_eq!(item.mime, "image/jpeg");
    assert_eq!(item.creation_date, date());
}

#[test]
fn get_unknown_id_fails() {
    let s = MediaItemMetadataStorageInternal::new();
    assert!(matches!(s.get_item(7), Err(FileSystemError::UnknownId(7))));
}

#[test]
fn path_known_after_add_and_forgotten_after_remove() {
    let mut s = MediaItemMetadataStorageInternal::new();
    assert!(!s.is_path_known("/src/a.jpg"));
    let id = add(&mut s, "/src/a.jpg", "a.jpg");
    assert!(s.is_path_known("/src/a.jpg"));
    assert_eq!(s.id_of_path("/src/a.jpg"), Some(id));
    s.remove(id).unwrap();
    assert!(!s.is_path_known("/src/a.jpg"));
    assert!(matches!(s.get_item(id), Err(FileSystemError::UnknownId(_))));
}

#[test]
fn remove_unknown_id_fails() {
    let mut s = MediaItemMetadataStorageInternal::new();
    add(&mut s, "/src/a.jpg", "a.jpg");
    assert!(matches!(s.remove(5), Err(FileSystemError::UnknownId(5))));
    assert!(s.is_path_known("/src/a.jpg"));
}

#[test]
fn remove_path_drops_both_entries() {
    let mut s = MediaItemMetadataStorageInternal::new();
    let id = add(&mut s, "/src/a.jpg", "a.jpg");
    s.remove_path("/src/a.jpg").unwrap();
    assert!(s.get_item(id).is_err());
    assert!(!s.is_path_known("/src/a.jpg"));
}

#[test]
fn remove_unknown_path_fails() {
    let mut s = MediaItemMetadataStorageInternal::new();
    match s.remove_path("/src/none.jpg") {
        Err(FileSystemError::UnknownPath(p)) => assert_eq!(p, "/src/none.jpg"),
        _ => panic!("expected UnknownPath"),
    }
}

#[test]
fn remove_if_known_ignores_unknown_paths() {
    let mut s = MediaItemMetadataStorageInternal::new();
    let id = add(&mut s, "/src/a.jpg", "a.jpg");
    s.remove_if_known("/src/other.jpg");
    assert!(s.get_item(id).is_ok());
    s.remove_if_known("/src/a.jpg");
    assert!(s.get_item(id).is_err());
}

#[test]
fn ids_are_not_reused_after_removal() {
    let mut s = MediaItemMetadataStorageInternal::new();
    let a = add(&mut s, "/src/a.jpg", "a.jpg");
    let b = add(&mut s, "/src/b.jpg", "b.jpg");
    s.remove(b).unwrap();
    s.remove(a).unwrap();
    let c = add(&mut s, "/src/a.jpg", "a.jpg");
    assert_eq!(c, 2);
}

#[test]
fn list_holds_every_item_once() {
    let mut s = MediaItemMetadataStorageInternal::new();
    add(&mut s, "/src/a.jpg", "a.jpg");
    let b = add(&mut s, "/src/b.jpg", "b.jpg");
    add(&mut s, "/src/c.jpg", "c.jpg");
    s.remove(b).unwrap();
    let mut ids: Vec<u64> = s.list().unwrap().iter().map(|i| i.id).collect();
    ids.sort();
    assert_eq!(ids, vec![0, 2]);
}

#[test]
fn round_trip_between_id_and_path() {
    let mut s = MediaItemMetadataStorageInternal::new();
    add(&mut s, "/src/a.jpg", "a.jpg");
    add(&mut s, "/src/b.png", "b.png");
    for item in s.list().unwrap() {
        assert_eq!(s.id_of_path(&item.path), Some(item.id));
        assert_eq!(s.get_item(item.id).unwrap().path, item.path);
    }
}

#[test]
fn ingesting_the_same_path_twice_keeps_one_id() {
    let mut s = MediaItemMetadataStorageInternal::new();
    let first = store_new_file(&mut s, "/src/a.txt", None, Some(date())).unwrap();
    assert!(first.is_some());
    assert!(s.is_path_known("/src/a.txt"));
    let second = store_new_file(&mut s, "/src/a.txt", None, Some(date())).unwrap();
    assert!(second.is_none());
    assert_eq!(s.list().unwrap().len(), 1);
}
