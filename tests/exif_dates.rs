use exif::experimental::Writer;
use exif::{Field, In, Tag, Value};

use filebase::model::Timestamp;
use filebase::storage::MediaItemMetadataStorageInternal;
use filebase::watchdog::{pick_creation_date, read_date_taken_from_exif, store_new_file};

fn tiff_with(fields: &[(Tag, &str)]) -> Vec<u8> {
    let owned: Vec<Field> = fields
        .iter()
        .map(|(tag, text)| Field { tag: *tag, ifd_num: In::PRIMARY, value: Value::Ascii(vec![text.as_bytes().to_vec()]) })
        .collect();
    let mut writer = Writer::new();
    for f in &owned {
        writer.push_field(f);
    }
    let mut buf = std::io::Cursor::new(Vec::new());
    writer.write(&mut buf, false).unwrap();
    buf.into_inner()
}

#[test]
fn exif_original_time_is_preferred() {
    let data = tiff_with(&[(Tag::DateTime, "2000:01:01 00:00:00"), (Tag::DateTimeOriginal, "2016:05:04 03:02:01")]);
    assert_eq!(read_date_taken_from_exif(&data).unwrap(), Timestamp::new(2016, 5, 4, 3, 2, 1));
}

#[test]
fn exif_digitized_time_before_generic() {
    let data = tiff_with(&[(Tag::DateTime, "2000:01:01 00:00:00"), (Tag::DateTimeDigitized, "2011:02:03 04:05:06")]);
    assert_eq!(read_date_taken_from_exif(&data).unwrap(), Timestamp::new(2011, 2, 3, 4, 5, 6));
}

#[test]
fn exif_generic_time_last() {
    let data = tiff_with(&[(Tag::DateTime, "2001:09:10 11:12:13")]);
    assert_eq!(read_date_taken_from_exif(&data).unwrap(), Timestamp::new(2001, 9, 10, 11, 12, 13));
}

#[test]
fn unparsable_exif_time_falls_back_to_file_time() {
    let data = tiff_with(&[(Tag::DateTimeOriginal, "sometime in spring")]);
    let embedded = read_date_taken_from_exif(&data).ok();
    assert_eq!(embedded, None);
    let fs_created = Timestamp::new(2022, 2, 2, 2, 2, 2);
    assert_eq!(pick_creation_date(true, embedded, fs_created), fs_created);
    let mut s = MediaItemMetadataStorageInternal::new();
    let item = store_new_file(&mut s, "/src/shot.jpg", embedded, Some(fs_created)).unwrap().unwrap();
    assert_eq!(item.creation_date, fs_created);
}
