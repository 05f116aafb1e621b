use filebase::facade::{
    aggregate, all_ids, check_discardable, check_move, commit_batch, lookup_all, parent_dir, plan_confirm, ItemOutcome,
};
use filebase::destinations::{FileSystemDestinationInternal, FileSystemDestinations};
use filebase::model::{FileSystemError, Timestamp};
use filebase::storage::MediaItemMetadataStorageInternal;
use filebase::thumbnail::ThumbnailsInternal;
use filebase::watchdog::{
    exif_capture_date, file_name_of, forget_path, handle_event, is_image_mime, mime_of_path, pick_creation_date,
    read_date_taken_from_exif, store_new_file, FilesystemWatchdogError, WatchAction, WatchEvent,
};

fn date() -> Timestamp {
    Timestamp::new(2020, 1, 2, 3, 4, 5)
}

fn png_bytes() -> Vec<u8> {
    let img = image::DynamicImage::ImageRgb8(image::RgbImage::new(8, 4));
    let mut buf: Vec<u8> = Vec::new();
    img.write_to(&mut buf, image::ImageOutputFormat::Png).unwrap();
    buf
}

fn handled(found: Vec<Result<filebase::model::MediaItemMetadata, FileSystemError>>) -> Vec<ItemOutcome> {
    found
        .into_iter()
        .map(|r| match r {
            Ok(item) => ItemOutcome::Done(item),
            Err(e) => ItemOutcome::Failed(e),
        })
        .collect()
}

fn indexed(paths: &[&str]) -> (MediaItemMetadataStorageInternal, ThumbnailsInternal, Vec<u64>) {
    let mut s = MediaItemMetadataStorageInternal::new();
    let mut t = ThumbnailsInternal::new("/src");
    let mut ids = Vec::new();
    let png = png_bytes();
    for p in paths {
        let item = store_new_file(&mut s, p, None, Some(date())).unwrap().unwrap();
        t.load(&item, &png).unwrap();
        ids.push(item.id);
    }
    (s, t, ids)
}

#[test]
fn mime_from_extension() {
    assert_eq!(mime_of_path("/src/a.jpg"), "image/jpeg");
    assert_eq!(mime_of_path("/src/a.unknownext"), "application/octet-stream");
    assert!(is_image_mime("image/png"));
    assert!(!is_image_mime("application/octet-stream"));
    assert!(!is_image_mime("imag"));
}

#[test]
fn file_names() {
    assert_eq!(file_name_of("/src/a.jpg"), Some("a.jpg".to_string()));
    assert_eq!(file_name_of("a.jpg"), Some("a.jpg".to_string()));
    assert_eq!(file_name_of("/src/"), None);
    assert_eq!(file_name_of("/src/.."), None);
}

#[test]
fn capture_date_tries_fields_in_order() {
    let d = exif_capture_date(None, Some("2019-07-08 09:10:11".to_string()), Some("2000-01-01 00:00:00".to_string()));
    assert_eq!(d, Some(Timestamp::new(2019, 7, 8, 9, 10, 11)));
}

#[test]
fn unparsable_capture_date_gives_none() {
    let d = exif_capture_date(Some("yesterday".to_string()), Some("2019-07-08 09:10:11".to_string()), None);
    assert_eq!(d, None);
}

#[test]
fn unparsable_exif_falls_back_to_file_time() {
    let embedded = exif_capture_date(Some("not a date".to_string()), None, None);
    assert_eq!(pick_creation_date(true, embedded, date()), date());
    let mut s = MediaItemMetadataStorageInternal::new();
    let item = store_new_file(&mut s, "/src/photo.jpg", embedded, Some(date())).unwrap().unwrap();
    assert_eq!(item.creation_date, date());
}

#[test]
fn embedded_date_used_for_images_only() {
    let taken = Timestamp::new(2018, 6, 7, 8, 9, 10);
    let mut s = MediaItemMetadataStorageInternal::new();
    let img = store_new_file(&mut s, "/src/photo.jpg", Some(taken), Some(date())).unwrap().unwrap();
    assert_eq!(img.creation_date, taken);
    assert_eq!(img.mime, "image/jpeg");
    assert_eq!(img.name, "photo.jpg");
    let txt = store_new_file(&mut s, "/src/notes.txt", Some(taken), Some(date())).unwrap().unwrap();
    assert_eq!(txt.creation_date, date());
}

#[test]
fn bytes_without_exif_give_no_date() {
    assert!(matches!(read_date_taken_from_exif(&[1, 2, 3]), Err(FilesystemWatchdogError::WatchdogError(_))));
    assert!(read_date_taken_from_exif(&png_bytes()).is_err());
}

#[test]
fn path_without_file_name_is_refused() {
    let mut s = MediaItemMetadataStorageInternal::new();
    assert!(matches!(store_new_file(&mut s, "/src/", None, Some(date())), Err(FilesystemWatchdogError::NoFileName(_))));
}

#[test]
fn events_are_classified() {
    let (s, _t, _ids) = indexed(&["/src/a.jpg"]);
    let new = WatchEvent::Appeared { path: "/src/b.jpg".to_string(), is_file: true };
    assert!(matches!(handle_event(&s, new), WatchAction::Ingest(p) if p == "/src/b.jpg"));
    let known = WatchEvent::Appeared { path: "/src/a.jpg".to_string(), is_file: true };
    assert!(matches!(handle_event(&s, known), WatchAction::Ignore));
    let dir = WatchEvent::Appeared { path: "/src/sub".to_string(), is_file: false };
    assert!(matches!(handle_event(&s, dir), WatchAction::Ignore));
    let gone = WatchEvent::Removed { path: "/src/a.jpg".to_string() };
    assert!(matches!(handle_event(&s, gone), WatchAction::Forget(p) if p == "/src/a.jpg"));
    let unknown_gone = WatchEvent::Removed { path: "/src/z.jpg".to_string() };
    assert!(matches!(handle_event(&s, unknown_gone), WatchAction::Ignore));
    assert!(matches!(handle_event(&s, WatchEvent::Chmod), WatchAction::Ignore));
    assert!(matches!(handle_event(&s, WatchEvent::Rename), WatchAction::Unsupported(_)));
    assert!(matches!(handle_event(&s, WatchEvent::Rescan), WatchAction::Unsupported(_)));
    let err = WatchEvent::Error { message: "boom".to_string() };
    assert!(matches!(handle_event(&s, err), WatchAction::Fail(FilesystemWatchdogError::WatchdogError(m)) if m == "boom"));
}

#[test]
fn forgetting_a_path_evicts_its_thumbnail() {
    let (mut s, mut t, ids) = indexed(&["/src/a.jpg"]);
    assert_eq!(forget_path(&mut s, &mut t, "/src/a.jpg"), Some("/src/.thumbnails/0.jpg".to_string()));
    assert!(s.get_item(ids[0]).is_err());
    assert!(t.get(ids[0]).is_err());
    assert_eq!(forget_path(&mut s, &mut t, "/src/a.jpg"), None);
}

#[test]
fn thumbnails_are_rendered_as_jpeg() {
    let (_s, mut t, _ids) = indexed(&[]);
    let mut s = MediaItemMetadataStorageInternal::new();
    let item = store_new_file(&mut s, "/src/a.png", None, Some(date())).unwrap().unwrap();
    let file = t.load(&item, &png_bytes()).unwrap();
    assert_eq!(file.path, "/src/.thumbnails/0.jpg");
    assert_eq!(&file.data[0..2], &[0xFF, 0xD8]);
    assert_eq!(t.get(item.id).unwrap(), "/src/.thumbnails/0.jpg");
    assert_eq!(t.cache_dir(), "/src/.thumbnails");
}

#[test]
fn undecodable_source_gives_image_error() {
    let mut t = ThumbnailsInternal::new("/src");
    let mut s = MediaItemMetadataStorageInternal::new();
    let item = store_new_file(&mut s, "/src/a.png", None, Some(date())).unwrap().unwrap();
    assert!(matches!(t.load(&item, &[0, 1, 2, 3]), Err(FileSystemError::ImageError(_))));
    assert!(matches!(t.get(item.id), Err(FileSystemError::UnknownId(0))));
    assert!(matches!(t.remove(item.id), Err(FileSystemError::UnknownId(0))));
}

#[test]
fn discard_with_one_missing_id() {
    let (mut s, mut t, ids) = indexed(&["/src/a.jpg", "/src/b.jpg"]);
    let (a, b) = (ids[0], ids[1]);
    let missing = 99;
    let outcomes = handled(lookup_all(&s, &vec![a, missing, b]));
    let batch = commit_batch(&mut s, &mut t, outcomes);
    assert!(s.get_item(a).is_err());
    assert!(s.get_item(b).is_err());
    assert!(t.get(a).is_err());
    assert!(t.get(b).is_err());
    match aggregate(batch) {
        Err(FileSystemError::MultipleErrors(f)) => {
            assert_eq!(f.len(), 1);
            assert!(matches!(f[0], FileSystemError::UnknownId(99)));
        },
        _ => panic!("expected an aggregate error"),
    }
}

#[test]
fn discard_all_removes_everything() {
    let (mut s, mut t, _ids) = indexed(&["/src/a.jpg", "/src/b.jpg", "/src/c.jpg"]);
    let ids = all_ids(&s);
    assert_eq!(ids.len(), 3);
    let outcomes = handled(lookup_all(&s, &ids));
    let batch = commit_batch(&mut s, &mut t, outcomes);
    assert!(aggregate(batch).is_ok());
    assert_eq!(s.list().unwrap().len(), 0);
}

#[test]
fn missing_file_is_not_discarded() {
    let (s, _t, ids) = indexed(&["/src/a.jpg"]);
    let item = s.get_item(ids[0]).unwrap();
    assert!(check_discardable(&item, true, true).is_ok());
    match check_discardable(&item, false, true) {
        Err(FileSystemError::FileNotFound(p)) => assert_eq!(p, "/src/a.jpg"),
        _ => panic!("expected FileNotFound"),
    }
}

#[test]
fn confirm_refuses_existing_destination() {
    let (mut s, mut t, ids) = indexed(&["/src/a.jpg"]);
    let ds = FileSystemDestinations::from_list(vec![FileSystemDestinationInternal::new(
        "photos".to_string(),
        "/data".to_string(),
        "%year%".to_string(),
    )]);
    let plan = plan_confirm(&ds, &s, 0, &ids);
    let target = plan.into_iter().next().unwrap().unwrap();
    assert_eq!(target.destination, "/data/2020/a.jpg");
    let refused = check_move(&target.item, &target.destination, true, true);
    assert!(matches!(refused, Err(FileSystemError::InvalidParameters(_))));
    let batch = commit_batch(&mut s, &mut t, vec![ItemOutcome::Failed(refused.unwrap_err())]);
    assert!(s.is_path_known("/src/a.jpg"));
    assert!(t.get(ids[0]).is_ok());
    assert!(matches!(aggregate(batch), Err(FileSystemError::MultipleErrors(f)) if f.len() == 1));
    assert!(check_move(&target.item, &target.destination, true, false).is_ok());
    assert!(check_move(&target.item, &target.destination, false, false).is_err());
}

#[test]
fn confirm_to_unknown_destination_fails_per_item() {
    let (s, _t, ids) = indexed(&["/src/a.jpg"]);
    let ds = FileSystemDestinations::from_list(vec![]);
    let plan = plan_confirm(&ds, &s, 4, &vec![ids[0], 50]);
    assert!(matches!(plan[0], Err(FileSystemError::UnknownId(4))));
    assert!(matches!(plan[1], Err(FileSystemError::UnknownId(50))));
}

#[test]
fn parent_directories() {
    assert_eq!(parent_dir("/data/2021/a.jpg"), Some("/data/2021".to_string()));
    assert_eq!(parent_dir("/a.jpg"), Some("/".to_string()));
    assert_eq!(parent_dir("a.jpg"), Some("".to_string()));
    assert_eq!(parent_dir("/"), None);
    assert_eq!(parent_dir(""), None);
}
