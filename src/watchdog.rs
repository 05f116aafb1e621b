use chrono::{Datelike, Timelike};
use vstd::prelude::*;

use crate::model::{FileSystemError, MediaItemMetadata, Timestamp};
use crate::storage::{fresh_step, MediaItemMetadataStorageInternal};
use crate::paths::join;
use crate::thumbnail::{thumbnail_file_name, thumbnail_of, ThumbnailFile, ThumbnailsInternal};

verus! {

/// What can go wrong while ingesting; observed by an operator, not a caller.
#[derive(Debug)]
pub enum FilesystemWatchdogError {
    WatchdogError(String),
    ChannelError(String),
    StorageError(FileSystemError),
    ThumbnailError(FileSystemError),
    NoUtf8Filename(String),
    NoFileName(String),
    IoError(String),
    ExifError(String),
    ChronoError(String),
}

/// The embedded timestamps of an image, in the order in which they are tried.
#[derive(Clone, Copy, Debug, PartialEq, Eq, Structural)]
pub enum ExifDateTag {
    Original,
    Digitized,
    Generic,
}

/// The MIME type that the extension of `path` suggests, or
/// `application/octet-stream` where it suggests none.
pub uninterp spec fn mime_guess_of(path: Seq<char>) -> Seq<char>;

/// The MIME type given to files of unknown type.
pub open spec fn octet_stream() -> Seq<char> {
    seq!['a', 'p', 'p', 'l', 'i', 'c', 'a', 't', 'i', 'o', 'n', '/', 'o', 'c', 't', 'e', 't', '-', 's', 't', 'r', 'e', 'a', 'm']
}

/// Relies on new_mime_guess::MimeGuess::from_path and first_or_octet_stream:
/// the guess depends on the path's extension alone, and a path without any
/// `.` has no extension, so it gets `application/octet-stream`.
#[verifier::external_body]
fn guess_mime_type(path: &str) -> (r: String)
    ensures
        r@ == mime_guess_of(path@),
        !path@.contains('.') ==> r@ == octet_stream(),
{
    new_mime_guess::MimeGuess::from_path(path).first_or_octet_stream().to_string()
}

/// The displayed value of an embedded date field of the primary image, or
/// `None` where the data holds no readable EXIF container or not that field.
pub uninterp spec fn exif_field_text(data: Seq<u8>, tag: ExifDateTag) -> Option<Seq<char>>;

/// Relies on exif::Reader::read_from_container, Exif::get_field and
/// Field::display_value: a function of the bytes and the tag alone.
#[verifier::external_body]
fn exif_date_text(data: &[u8], tag: ExifDateTag) -> (r: Option<String>)
    ensures
        match r {
            Some(t) => exif_field_text(data@, tag) == Some(t@),
            None => exif_field_text(data@, tag) is None,
        },
{
    let which = match tag {
        ExifDateTag::Original => exif::Tag::DateTimeOriginal,
        ExifDateTag::Digitized => exif::Tag::DateTimeDigitized,
        ExifDateTag::Generic => exif::Tag::DateTime,
    };
    let mut cursor = std::io::Cursor::new(data);
    match exif::Reader::new().read_from_container(&mut cursor) {
        Ok(found) => match found.get_field(which, exif::In::PRIMARY) {
            Some(f) => Some(f.display_value().to_string()),
            None => None,
        },
        Err(_) => None,
    }
}

/// The timestamp that `text` denotes in the strftime-style format `fmt`, or
/// `None` where it does not parse.
pub uninterp spec fn parsed_timestamp(text: Seq<char>, fmt: Seq<char>) -> Option<Timestamp>;

/// Relies on chrono::NaiveDateTime::parse_from_str: a function of the text and
/// the format alone, and a parsed value is a valid date and time.
#[verifier::external_body]
fn parse_timestamp(text: &str, fmt: &str) -> (r: Option<Timestamp>)
    ensures
        r == parsed_timestamp(text@, fmt@),
        r is Some ==> r->0.wf(),
{
    match chrono::NaiveDateTime::parse_from_str(text, fmt) {
        Ok(d) => Some(Timestamp::new(d.year(), d.month(), d.day(), d.hour(), d.minute(), d.second())),
        Err(_) => None,
    }
}

/// Whether a MIME type's top-level category is `image`.
pub open spec fn is_image_type(mime: Seq<char>) -> bool {
    mime.len() >= 6 && mime.subrange(0, 6) == seq!['i', 'm', 'a', 'g', 'e', '/']
}

/// Whether a MIME type's top-level category is `image`.
pub fn is_image_mime(mime: &str) -> (r: bool)
    ensures
        r == is_image_type(mime@),
{
    let n = mime.unicode_len();
    if n < 6 {
        return false;
    }
    proof {
        reveal_strlit("image/");
        assert("image/"@ =~= seq!['i', 'm', 'a', 'g', 'e', '/']);
    }
    crate::paths::same_text(mime.substring_char(0, 6), "image/")
}

/// The MIME type of a file, from its path.
pub fn mime_of_path(path: &str) -> (r: String)
    ensures
        r@ == mime_guess_of(path@),
        !path@.contains('.') ==> r@ == octet_stream(),
{
    guess_mime_type(path)
}

/// The first of three optional values that is present.
pub open spec fn first_present(
    a: Option<Seq<char>>,
    b: Option<Seq<char>>,
    c: Option<Seq<char>>,
) -> Option<Seq<char>> {
    if a is Some {
        a
    } else if b is Some {
        b
    } else {
        c
    }
}

/// The capture date of an image from its embedded date fields: the first
/// field present is parsed, and a field that does not parse gives none.
pub open spec fn capture_date(
    original: Option<Seq<char>>,
    digitized: Option<Seq<char>>,
    generic: Option<Seq<char>>,
) -> Option<Timestamp> {
    match first_present(original, digitized, generic) {
        Some(t) => parsed_timestamp(t, exif_date_format()),
        None => None,
    }
}

/// The format in which the EXIF reader displays a date and time.
pub open spec fn exif_date_format() -> Seq<char> {
    seq!['%', 'Y', '-', '%', 'm', '-', '%', 'd', ' ', '%', 'H', ':', '%', 'M', ':', '%', 'S']
}

/// The view of an optional string.
pub open spec fn opt_view(s: Option<String>) -> Option<Seq<char>> {
    match s {
        Some(t) => Some(t@),
        None => None,
    }
}

/// The capture date given by the texts of the embedded date fields.
pub fn exif_capture_date(
    original: Option<String>,
    digitized: Option<String>,
    generic: Option<String>,
) -> (r: Option<Timestamp>)
    ensures
        r == capture_date(opt_view(original), opt_view(digitized), opt_view(generic)),
        r is Some ==> r->0.wf(),
{
    let chosen = match original {
        Some(t) => Some(t),
        None => match digitized {
            Some(t) => Some(t),
            None => generic,
        },
    };
    match chosen {
        Some(t) => {
            proof {
                reveal_strlit("%Y-%m-%d %H:%M:%S");
                assert("%Y-%m-%d %H:%M:%S"@ =~= exif_date_format());
            }
            parse_timestamp(t.as_str(), "%Y-%m-%d %H:%M:%S")
        },
        None => None,
    }
}

/// The capture date that the embedded date fields of these image bytes give.
pub open spec fn embedded_capture_date(data: Seq<u8>) -> Option<Timestamp> {
    capture_date(
        exif_field_text(data, ExifDateTag::Original),
        exif_field_text(data, ExifDateTag::Digitized),
        exif_field_text(data, ExifDateTag::Generic),
    )
}

/// The capture date embedded in an image's bytes.
pub fn read_date_taken_from_exif(data: &[u8]) -> (r: Result<Timestamp, FilesystemWatchdogError>)
    ensures
        match r {
            Ok(t) => embedded_capture_date(data@) == Some(t) && t.wf(),
            Err(e) => embedded_capture_date(data@) is None && e is WatchdogError,
        },
{
    let original = exif_date_text(data, ExifDateTag::Original);
    let digitized = exif_date_text(data, ExifDateTag::Digitized);
    let generic = exif_date_text(data, ExifDateTag::Generic);
    match exif_capture_date(original, digitized, generic) {
        Some(t) => Ok(t),
        None => Err(FilesystemWatchdogError::WatchdogError("no date field given in EXIF data".to_string())),
    }
}

/// The creation date of an ingested file: an image's embedded capture date
/// where it has one, the file system's creation time otherwise.
pub open spec fn creation_date_of(is_image: bool, embedded: Option<Timestamp>, fs_created: Timestamp) -> Timestamp {
    if is_image && embedded is Some {
        embedded->0
    } else {
        fs_created
    }
}

/// Picks the creation date of an ingested file.
pub fn pick_creation_date(is_image: bool, embedded: Option<Timestamp>, fs_created: Timestamp) -> (r: Timestamp)
    ensures
        r == creation_date_of(is_image, embedded, fs_created),
{
    if is_image {
        match embedded {
            Some(t) => t,
            None => fs_created,
        }
    } else {
        fs_created
    }
}

/// Where the last component of `s[..i]` starts.
pub open spec fn name_start(s: Seq<char>, i: int) -> int
    decreases i,
{
    if i <= 0 {
        0
    } else if s[i - 1] == '/' {
        i
    } else {
        name_start(s, i - 1)
    }
}

/// The last component of a path, unless it is empty, `.` or `..`. Unlike
/// std's `Path::file_name`, the path is taken as written: a trailing `/`
/// gives no file name, and `.` components and repeated separators are not
/// normalised. The paths handed here come from directory listings and file
/// notifications, which hold none of these.
pub open spec fn file_name(p: Seq<char>) -> Option<Seq<char>> {
    let n = p.subrange(name_start(p, p.len() as int), p.len() as int);
    if n.len() == 0 || n == seq!['.'] || n == seq!['.', '.'] {
        None
    } else {
        Some(n)
    }
}

/// The file name of a path.
pub fn file_name_of(path: &str) -> (r: Option<String>)
    ensures
        opt_view(r) == file_name(path@),
{
    let len = path.unicode_len();
    let mut i: usize = len;
    while i > 0 && path.get_char(i - 1) != '/'
        invariant
            len == path@.len(),
            i <= len,
            name_start(path@, len as int) == name_start(path@, i as int),
        decreases i,
    {
        i = i - 1;
    }
    proof {
        if i > 0 {
            assert(name_start(path@, i as int) == i);
        }
    }
    let n = path.substring_char(i, len);
    proof {
        reveal_strlit(".");
        reveal_strlit("..");
        assert("."@ =~= seq!['.']);
        assert(".."@ =~= seq!['.', '.']);
    }
    if n.unicode_len() == 0 || crate::paths::same_text(n, ".") || crate::paths::same_text(n, "..") {
        None
    } else {
        Some(n.to_owned())
    }
}

/// A change in the monitored directory, as the watcher reports it.
pub enum WatchEvent {
    /// A file was created or written; `is_file` tells whether it is a regular file now.
    Appeared { path: String, is_file: bool },
    /// A file was removed.
    Removed { path: String },
    Chmod,
    Rename,
    Rescan,
    Error { message: String },
}

/// What the ingestion loop does about an event.
pub enum WatchAction {
    /// Ingest the file at this path.
    Ingest(String),
    /// Drop this path from the index and its thumbnail from the cache.
    Forget(String),
    Ignore,
    /// The event cannot be handled; the loop stops.
    Unsupported(String),
    Fail(FilesystemWatchdogError),
}

/// Decides what to do about one event, given the current index.
pub fn handle_event(storage: &MediaItemMetadataStorageInternal, event: WatchEvent) -> (r: WatchAction)
    requires
        storage.wf(),
    ensures
        match event {
            WatchEvent::Appeared { path, is_file } => if is_file && !storage.paths().contains_key(path@) {
                r is Ingest && r->Ingest_0 == path
            } else {
                r is Ignore
            },
            WatchEvent::Removed { path } => if storage.paths().contains_key(path@) {
                r is Forget && r->Forget_0 == path
            } else {
                r is Ignore
            },
            WatchEvent::Chmod => r is Ignore,
            WatchEvent::Rename => r is Unsupported,
            WatchEvent::Rescan => r is Unsupported,
            WatchEvent::Error { message } => r is Fail && r->Fail_0 == FilesystemWatchdogError::WatchdogError(message),
        },
{
    match event {
        WatchEvent::Appeared { path, is_file } => {
            if is_file && !storage.is_path_known(path.as_str()) {
                WatchAction::Ingest(path)
            } else {
                WatchAction::Ignore
            }
        },
        WatchEvent::Removed { path } => {
            if storage.is_path_known(path.as_str()) {
                WatchAction::Forget(path)
            } else {
                WatchAction::Ignore
            }
        },
        WatchEvent::Chmod => WatchAction::Ignore,
        WatchEvent::Rename => WatchAction::Unsupported("file system rename is not supported".to_string()),
        WatchEvent::Rescan => WatchAction::Unsupported("file system rescan is not supported".to_string()),
        WatchEvent::Error { message } => WatchAction::Fail(FilesystemWatchdogError::WatchdogError(message)),
    }
}

/// The creation date of a file to ingest: an image's embedded capture date
/// where it has one, otherwise the file system's creation time, if that could
/// be read.
pub open spec fn chosen_date(is_image: bool, embedded: Option<Timestamp>, fs_created: Option<Timestamp>) -> Option<
    Timestamp,
> {
    if is_image && embedded is Some {
        embedded
    } else {
        fs_created
    }
}

/// Whether ingesting a file needs its file-system creation time: it does
/// unless it is an image with an embedded capture date.
pub fn needs_file_time(is_image: bool, embedded: &Option<Timestamp>) -> (r: bool)
    ensures
        r == !(is_image && embedded is Some),
        !r ==> chosen_date(is_image, *embedded, None) == *embedded,
{
    !(is_image && embedded.is_some())
}

/// What registering a file with the given MIME type does to the index: a path
/// without a file name is refused; a known path leaves the index as it is; a
/// file without a creation date is refused; any other file is added under the
/// next id, while ids last.
pub open spec fn registered(
    pre: MediaItemMetadataStorageInternal,
    post: MediaItemMetadataStorageInternal,
    path: Seq<char>,
    mime: Seq<char>,
    embedded: Option<Timestamp>,
    fs_created: Option<Timestamp>,
    r: Result<Option<MediaItemMetadata>, FilesystemWatchdogError>,
) -> bool {
    let date = chosen_date(is_image_type(mime), embedded, fs_created);
    let unchanged = post.items() == pre.items() && post.paths() == pre.paths();
    &&& fresh_step(pre, post)
    &&& post.wf()
    &&& post.next() >= pre.next()
    &&& file_name(path) is None ==> r is Err && r->Err_0 is NoFileName && unchanged
    &&& file_name(path) is Some && pre.paths().contains_key(path) ==> r is Ok && r->Ok_0 is None && unchanged
    &&& file_name(path) is Some && !pre.paths().contains_key(path) && date is None ==> r is Err && r->Err_0 is IoError
        && unchanged
    &&& file_name(path) is Some && !pre.paths().contains_key(path) && date is Some && pre.next() < u64::MAX ==> r is Ok
        && r->Ok_0 is Some && {
        let item = r->Ok_0->0;
        &&& item.id == pre.next()
        &&& item.path@ == path
        &&& Some(item.name@) == file_name(path)
        &&& item.mime@ == mime
        &&& item.creation_date == date->0
        &&& post.items() == pre.items().insert(item.id, item)
        &&& post.paths() == pre.paths().insert(path, item.id)
    }
    &&& file_name(path) is Some && !pre.paths().contains_key(path) && date is Some && pre.next() == u64::MAX ==> r is Err
        && r->Err_0 is StorageError && unchanged
}

/// Registers a file of the given MIME type in the index, as `registered`
/// says. `embedded` is the capture date read from the file's bytes and counts
/// only for images; `fs_created` is the file system's creation time, where it
/// was read.
pub fn register_file(
    storage: &mut MediaItemMetadataStorageInternal,
    path: &str,
    mime: &str,
    embedded: Option<Timestamp>,
    fs_created: Option<Timestamp>,
) -> (r: Result<Option<MediaItemMetadata>, FilesystemWatchdogError>)
    requires
        old(storage).wf(),
    ensures
        registered(*old(storage), *final(storage), path@, mime@, embedded, fs_created, r),
{
    let name = match file_name_of(path) {
        Some(n) => n,
        None => {
            return Err(FilesystemWatchdogError::NoFileName(path.to_owned()));
        },
    };
    if storage.is_path_known(path) {
        return Ok(None);
    }
    let is_image = is_image_mime(mime);
    let date = if is_image {
        match embedded {
            Some(t) => Some(t),
            None => fs_created,
        }
    } else {
        fs_created
    };
    let creation_date = match date {
        Some(t) => t,
        None => {
            return Err(FilesystemWatchdogError::IoError("the file's creation time is unknown".to_string()));
        },
    };
    match storage.add(path, name, mime.to_owned(), creation_date) {
        Ok(item) => Ok(Some(item)),
        Err(e) => Err(FilesystemWatchdogError::StorageError(e)),
    }
}

/// Ingests a file: registers it under the MIME type that its path suggests.
pub fn store_new_file(
    storage: &mut MediaItemMetadataStorageInternal,
    path: &str,
    embedded: Option<Timestamp>,
    fs_created: Option<Timestamp>,
) -> (r: Result<Option<MediaItemMetadata>, FilesystemWatchdogError>)
    requires
        old(storage).wf(),
    ensures
        registered(*old(storage), *final(storage), path@, mime_guess_of(path@), embedded, fs_created, r),
{
    let mime = mime_of_path(path);
    register_file(storage, path, mime.as_str(), embedded, fs_created)
}

/// The last step of ingesting a file: renders its thumbnail from the file's
/// bytes and records it. A failure is reported as `ThumbnailError` and not
/// retried; the index is not touched, so the item stays indexed without a
/// thumbnail.
pub fn render_thumbnail(thumbnails: &mut ThumbnailsInternal, item: &MediaItemMetadata, source: &[u8]) -> (r: Result<
    ThumbnailFile,
    FilesystemWatchdogError,
>)
    ensures
        final(thumbnails).dir() == old(thumbnails).dir(),
        match r {
            Ok(t) => {
                &&& thumbnail_of(source@) is Some
                &&& t.data@ == thumbnail_of(source@)->0
                &&& t.path@ == join(old(thumbnails).dir(), thumbnail_file_name(item.id))
                &&& final(thumbnails).entries() == old(thumbnails).entries().insert(item.id, t.path@)
            },
            Err(e) => {
                &&& thumbnail_of(source@) is None
                &&& e is ThumbnailError
                &&& e->ThumbnailError_0 is ImageError
                &&& final(thumbnails).entries() == old(thumbnails).entries()
            },
        },
{
    match thumbnails.load(item, source) {
        Ok(t) => Ok(t),
        Err(e) => Err(FilesystemWatchdogError::ThumbnailError(e)),
    }
}

/// Ingesting the same path twice never creates two ids: after the first
/// registration the path is known and the index has grown by exactly one
/// item; the second leaves the index as it is.
pub proof fn lemma_reingest_keeps_one_id(
    s0: MediaItemMetadataStorageInternal,
    s1: MediaItemMetadataStorageInternal,
    s2: MediaItemMetadataStorageInternal,
    path: Seq<char>,
    mime1: Seq<char>,
    mime2: Seq<char>,
    embedded1: Option<Timestamp>,
    embedded2: Option<Timestamp>,
    created1: Option<Timestamp>,
    created2: Option<Timestamp>,
    r1: Result<Option<MediaItemMetadata>, FilesystemWatchdogError>,
    r2: Result<Option<MediaItemMetadata>, FilesystemWatchdogError>,
)
    requires
        s0.wf(),
        registered(s0, s1, path, mime1, embedded1, created1, r1),
        registered(s1, s2, path, mime2, embedded2, created2, r2),
        r1 is Ok && r1->Ok_0 is Some,
    ensures
        s1.paths().contains_key(path),
        s1.items().len() == s0.items().len() + 1,
        r2 is Ok && r2->Ok_0 is None,
        s2.items() == s1.items(),
        s2.paths() == s1.paths(),
{
    crate::storage::lemma_round_trip(s0);
    crate::storage::lemma_ids_fresh(s0);
}

/// Drops a path that was removed from the monitored directory: its item leaves
/// the index and its thumbnail the cache. Hands back the thumbnail's path,
/// where one was recorded, for the file to be deleted.
pub fn forget_path(
    storage: &mut MediaItemMetadataStorageInternal,
    thumbnails: &mut ThumbnailsInternal,
    path: &str,
) -> (r: Option<String>)
    requires
        old(storage).wf(),
    ensures
        fresh_step(*old(storage), *final(storage)),
        final(storage).wf(),
        final(storage).next() == old(storage).next(),
        final(thumbnails).dir() == old(thumbnails).dir(),
        old(storage).paths().contains_key(path@) ==> {
            let id = old(storage).paths()[path@];
            &&& final(storage).items() == old(storage).items().remove(id)
            &&& final(storage).paths() == old(storage).paths().remove(path@)
            &&& final(thumbnails).entries() == old(thumbnails).entries().remove(id)
            &&& match r {
                Some(p) => old(thumbnails).entries().contains_key(id) && p@ == old(thumbnails).entries()[id],
                None => !old(thumbnails).entries().contains_key(id),
            }
        },
        !old(storage).paths().contains_key(path@) ==> r is None && final(storage).items() == old(storage).items()
            && final(storage).paths() == old(storage).paths() && final(thumbnails).entries() == old(thumbnails).entries(),
{
    match storage.id_of_path(path) {
        Some(id) => {
            let _ = storage.remove_path(path);
            match thumbnails.remove(id) {
                Ok(p) => Some(p),
                Err(_) => {
                    proof {
                        assert(thumbnails.entries() =~= old(thumbnails).entries().remove(id));
                    }
                    None
                },
            }
        },
        None => None,
    }
}

} // verus!
