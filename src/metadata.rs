//! The song metadata record, built from what a tag probe found in a file.
use vstd::prelude::*;

verus! {

/// The fields read from one tag block.
#[derive(Debug)]
pub struct TagFields {
    pub title: Option<String>,
    pub artist: Option<String>,
    pub album: Option<String>,
    /// The embedded pictures' bytes, in the tag's order.
    pub pictures: Vec<Vec<u8>>,
}

/// What a probe of an audio file found: the stream's duration, the tag
/// block of the file's primary tag type, and the first tag block of any type.
#[derive(Debug)]
pub struct ProbedFile {
    pub duration_secs: u64,
    pub primary_tag: Option<TagFields>,
    pub first_tag: Option<TagFields>,
}

/// The metadata of one song.
#[derive(Debug)]
pub struct SongMetadata {
    pub title: Option<String>,
    pub artist: Option<String>,
    pub album: Option<String>,
    pub duration: u64,
    pub file_path: String,
    pub cover_art_path: Option<String>,
}

/// The tag block read: the primary one, or else the first one.
pub open spec fn chosen_tag(p: ProbedFile) -> Option<TagFields> {
    match p.primary_tag {
        Some(t) => Some(t),
        None => p.first_tag,
    }
}

/// The embedded picture that becomes the cover: the chosen tag's first.
pub open spec fn cover_picture(p: ProbedFile) -> Option<Vec<u8>> {
    match chosen_tag(p) {
        Some(t) if t.pictures.len() > 0 => Some(t.pictures[0]),
        _ => None,
    }
}

impl ProbedFile {
    pub fn chosen_tag(&self) -> (r: Option<&TagFields>)
        ensures
            match chosen_tag(*self) {
                Some(t) => r == Some(&t),
                None => r is None,
            },
    {
        match &self.primary_tag {
            Some(t) => Some(t),
            None => self.first_tag.as_ref(),
        }
    }

    /// The picture to cache as the song's cover, if the chosen tag holds one.
    pub fn cover_picture(&self) -> (r: Option<&Vec<u8>>)
        ensures
            match cover_picture(*self) {
                Some(b) => r == Some(&b),
                None => r is None,
            },
    {
        match self.chosen_tag() {
            Some(t) => {
                if t.pictures.len() > 0 {
                    Some(&t.pictures[0])
                } else {
                    None
                }
            },
            None => None,
        }
    }
}

fn clone_text(s: &Option<String>) -> (r: Option<String>)
    ensures
        r == *s,
{
    match s {
        Some(t) => Some(t.clone()),
        None => None,
    }
}

/// The metadata of the file at `file_path`, given its probe and the cached
/// cover of its picture (absent where it has none or caching failed). Title,
/// artist and album come from the chosen tag, each absent where that tag
/// lacks it or no tag exists; the duration comes from the stream.
pub fn song_metadata(probed: &ProbedFile, file_path: String, cover_art_path: Option<String>) -> (r:
    SongMetadata)
    ensures
        r.duration == probed.duration_secs,
        r.file_path == file_path,
        match chosen_tag(*probed) {
            Some(t) => {
                &&& r.title == t.title
                &&& r.artist == t.artist
                &&& r.album == t.album
            },
            None => r.title is None && r.artist is None && r.album is None,
        },
        r.cover_art_path == if cover_picture(*probed) is Some {
            cover_art_path
        } else {
            None
        },
{
    let cover = if probed.cover_picture().is_some() {
        cover_art_path
    } else {
        None
    };
    match probed.chosen_tag() {
        Some(t) => SongMetadata {
            title: clone_text(&t.title),
            artist: clone_text(&t.artist),
            album: clone_text(&t.album),
            duration: probed.duration_secs,
            file_path,
            cover_art_path: cover,
        },
        None => SongMetadata {
            title: None,
            artist: None,
            album: None,
            duration: probed.duration_secs,
            file_path,
            cover_art_path: cover,
        },
    }
}

} // verus!
