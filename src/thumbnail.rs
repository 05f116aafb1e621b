use std::collections::HashMap;
use vstd::prelude::*;

use crate::model::{FileSystemError, MediaItemMetadata};
use crate::paths::{decimal, decimal_text, join, join_path};

verus! {

broadcast use vstd::std_specs::hash::group_hash_axioms;

/// The width and height that the header of an encoded image declares, or
/// `None` where its format is not recognised or its header not read.
pub uninterp spec fn header_size_of(source: Seq<u8>) -> Option<(u32, u32)>;

/// Relies on image::io::Reader::with_guessed_format and into_dimensions:
/// the format is guessed from the first bytes and only the header is read,
/// so the result depends on the bytes alone.
#[verifier::external_body]
fn header_size(source: &[u8]) -> (r: Option<(u32, u32)>)
    ensures
        r == header_size_of(source@),
{
    match image::io::Reader::new(std::io::Cursor::new(source)).with_guessed_format() {
        Ok(reader) => match reader.into_dimensions() {
            Ok(size) => Some(size),
            Err(_) => None,
        },
        Err(_) => None,
    }
}

/// The largest number of pixels that an image may declare to be decoded:
/// at up to 16 bytes per pixel, its buffer stays within 1 GiB.
pub const MAX_PIXELS: u64 = 67108864;

/// Whether an image of this width and height has no pixels.
pub open spec fn has_empty_side(size: (u32, u32)) -> bool {
    size.0 == 0 || size.1 == 0
}

/// Whether an image of this width and height may be decoded.
pub open spec fn decodable_size(size: (u32, u32)) -> bool {
    !has_empty_side(size) && size.0 as int * size.1 as int <= MAX_PIXELS as int
}

/// The JPEG bytes, at the given quality, of the thumbnail of an encoded image
/// scaled to fit a `max_w` by `max_h` box with its aspect ratio kept, or
/// `None` where the image cannot be decoded or the thumbnail encoded.
pub uninterp spec fn jpeg_thumbnail_of(source: Seq<u8>, max_w: u32, max_h: u32, quality: u8) -> Option<Seq<u8>>;

/// Relies on image::load_from_memory, DynamicImage::thumbnail and
/// DynamicImage::write_to in JPEG: a function of its arguments alone.
/// Decoding allocates width x height x bytes-per-pixel, which overflows for
/// huge declared sizes, and `thumbnail` divides by the image's sides and by
/// the box; so the declared size must be small enough and not empty, and the
/// box not empty. The decoder that reads the pixels is the one that read the
/// header.
#[verifier::external_body]
fn encode_thumbnail(source: &[u8], max_w: u32, max_h: u32, quality: u8) -> (r: Result<Vec<u8>, String>)
    requires
        max_w > 0,
        max_h > 0,
        header_size_of(source@) is Some,
        decodable_size(header_size_of(source@)->0),
    ensures
        r is Ok <==> jpeg_thumbnail_of(source@, max_w, max_h, quality) is Some,
        r is Ok ==> r->Ok_0@ == jpeg_thumbnail_of(source@, max_w, max_h, quality)->0,
{
    let mut out = std::io::Cursor::new(Vec::new());
    match image::load_from_memory(source) {
        Ok(img) => match img.thumbnail(max_w, max_h).write_to(&mut out, image::ImageOutputFormat::Jpeg(quality)) {
            Ok(()) => Ok(out.into_inner()),
            Err(e) => Err(format!("{:?}", e)),
        },
        Err(e) => Err(format!("{:?}", e)),
    }
}

/// The side of the square box that thumbnails are fitted into.
pub const THUMBNAIL_BOX: u32 = 512;

/// The JPEG quality of thumbnails.
pub const THUMBNAIL_QUALITY: u8 = 75;

/// The thumbnail of a source image: none where its header gives no size, or
/// a size that is empty or too large, otherwise the encoded thumbnail (if it
/// decodes and encodes).
pub open spec fn thumbnail_of(source: Seq<u8>) -> Option<Seq<u8>> {
    match header_size_of(source) {
        Some(size) => if !decodable_size(size) {
            None
        } else {
            jpeg_thumbnail_of(source, THUMBNAIL_BOX, THUMBNAIL_BOX, THUMBNAIL_QUALITY)
        },
        None => None,
    }
}

/// The name of the hidden cache directory inside the monitored root.
pub open spec fn cache_dir_name() -> Seq<char> {
    seq!['.', 't', 'h', 'u', 'm', 'b', 'n', 'a', 'i', 'l', 's']
}

/// The file name of the thumbnail of item `id`.
pub open spec fn thumbnail_file_name(id: u64) -> Seq<char> {
    decimal(id as nat) + seq!['.', 'j', 'p', 'g']
}

/// A thumbnail ready to be written: where it goes and its JPEG bytes.
pub struct ThumbnailFile {
    pub path: String,
    pub data: Vec<u8>,
}

/// The thumbnail cache: a directory and the thumbnail path of each id.
pub struct ThumbnailsInternal {
    cache_dir: String,
    cache: HashMap<u64, String>,
}

impl ThumbnailsInternal {
    /// The cache directory.
    pub closed spec fn dir(self) -> Seq<char> {
        self.cache_dir@
    }

    /// The thumbnail path recorded for each id.
    pub closed spec fn entries(self) -> Map<u64, Seq<char>> {
        self.cache@.map_values(|p: String| p@)
    }

    /// A cache kept in the hidden directory under `img_base_path`.
    pub fn new(img_base_path: &str) -> (r: Self)
        ensures
            r.dir() == join(img_base_path@, cache_dir_name()),
            r.entries() == Map::<u64, Seq<char>>::empty(),
    {
        proof {
            reveal_strlit(".thumbnails");
        }
        let cache_dir = join_path(img_base_path, ".thumbnails");
        let r = ThumbnailsInternal { cache_dir, cache: HashMap::new() };
        proof {
            assert(r.entries() =~= Map::<u64, Seq<char>>::empty());
        }
        r
    }

    /// The directory that holds the thumbnails.
    pub fn cache_dir(&self) -> (r: &str)
        ensures
            r@ == self.dir(),
    {
        self.cache_dir.as_str()
    }

    /// Where the thumbnail of item `id` is stored.
    pub fn target_path(&self, id: u64) -> (r: String)
        ensures
            r@ == join(self.dir(), thumbnail_file_name(id)),
    {
        proof {
            reveal_strlit(".jpg");
        }
        let name = decimal_text(id).concat(".jpg");
        proof {
            assert(name@ =~= thumbnail_file_name(id));
        }
        join_path(self.cache_dir.as_str(), name.as_str())
    }

    /// Renders the thumbnail of `item` from its source bytes and records its
    /// path, which may replace an earlier entry for the same id. Where the
    /// image cannot be rendered, nothing is recorded.
    pub fn load(&mut self, item: &MediaItemMetadata, source: &[u8]) -> (r: Result<ThumbnailFile, FileSystemError>)
        ensures
            final(self).dir() == old(self).dir(),
            match r {
                Ok(t) => {
                    &&& thumbnail_of(source@) is Some
                    &&& t.data@ == thumbnail_of(source@)->0
                    &&& t.path@ == join(old(self).dir(), thumbnail_file_name(item.id))
                    &&& final(self).entries() == old(self).entries().insert(item.id, t.path@)
                },
                Err(e) => {
                    &&& thumbnail_of(source@) is None
                    &&& e is ImageError
                    &&& final(self).entries() == old(self).entries()
                },
            },
    {
        let target = self.target_path(item.id);
        match header_size(source) {
            Some((w, h)) => {
                proof {
                    assert((w as u64) * (h as u64) <= u32::MAX as int * u32::MAX as int) by (nonlinear_arith)
                        requires w <= u32::MAX, h <= u32::MAX;
                }
                if w == 0 || h == 0 {
                    return Err(FileSystemError::ImageError("the image has an empty side".to_string()));
                }
                let pixels: u64 = (w as u64) * (h as u64);
                if pixels > MAX_PIXELS {
                    return Err(FileSystemError::ImageError("the image is too large".to_string()));
                }
            },
            None => {
                return Err(FileSystemError::ImageError("the image's size cannot be read".to_string()));
            },
        }
        match encode_thumbnail(source, THUMBNAIL_BOX, THUMBNAIL_BOX, THUMBNAIL_QUALITY) {
            Ok(data) => {
                let _ = self.cache.insert(item.id, target.clone());
                proof {
                    assert(self.entries() =~= old(self).entries().insert(item.id, target@));
                }
                Ok(ThumbnailFile { path: target, data })
            },
            Err(msg) => Err(FileSystemError::ImageError(msg)),
        }
    }

    /// The recorded thumbnail path of `id`.
    pub fn get(&self, id: u64) -> (r: Result<String, FileSystemError>)
        ensures
            match r {
                Ok(p) => self.entries().contains_key(id) && p@ == self.entries()[id],
                Err(e) => !self.entries().contains_key(id) && e == FileSystemError::UnknownId(id),
            },
    {
        match self.cache.get(&id) {
            Some(p) => Ok(p.clone()),
            None => Err(FileSystemError::UnknownId(id)),
        }
    }

    /// Forgets the thumbnail of `id` and hands back its path, for the file
    /// to be deleted.
    pub fn remove(&mut self, id: u64) -> (r: Result<String, FileSystemError>)
        ensures
            final(self).dir() == old(self).dir(),
            match r {
                Ok(p) => {
                    &&& old(self).entries().contains_key(id)
                    &&& p@ == old(self).entries()[id]
                    &&& final(self).entries() == old(self).entries().remove(id)
                },
                Err(e) => {
                    &&& !old(self).entries().contains_key(id)
                    &&& e == FileSystemError::UnknownId(id)
                    &&& final(self).entries() == old(self).entries()
                },
            },
    {
        match self.cache.remove(&id) {
            Some(p) => {
                proof {
                    assert(self.entries() =~= old(self).entries().remove(id));
                }
                Ok(p)
            },
            None => Err(FileSystemError::UnknownId(id)),
        }
    }
}

} // verus!
