use brick_audio::metadata::{song_metadata, ProbedFile, TagFields};

fn tag(title: &str, artist: &str, album: &str, pictures: Vec<Vec<u8>>) -> TagFields {
    TagFields {
        title: Some(title.to_string()),
        artist: Some(artist.to_string()),
        album: Some(album.to_string()),
        pictures,
    }
}

#[test]
fn primary_tag_values_come_back() {
    let p = ProbedFile {
        duration_secs: 215,
        primary_tag: Some(tag("Song", "Band", "Record", vec![vec![1, 2, 3]])),
        first_tag: Some(tag("Other", "Other", "Other", vec![])),
    };
    assert_eq!(p.cover_picture(), Some(&vec![1u8, 2, 3]));
    let m = song_metadata(&p, "/music/song.mp3".to_string(), Some("/covers/x.jpg".to_string()));
    assert_eq!(m.title.as_deref(), Some("Song"));
    assert_eq!(m.artist.as_deref(), Some("Band"));
    assert_eq!(m.album.as_deref(), Some("Record"));
    assert_eq!(m.duration, 215);
    assert_eq!(m.file_path, "/music/song.mp3");
    assert_eq!(m.cover_art_path.as_deref(), Some("/covers/x.jpg"));
}

#[test]
fn first_tag_is_used_without_primary() {
    let p = ProbedFile {
        duration_secs: 3,
        primary_tag: None,
        first_tag: Some(TagFields { title: Some("Only".to_string()), artist: None, album: None, pictures: vec![] }),
    };
    assert!(p.cover_picture().is_none());
    let m = song_metadata(&p, "a.ogg".to_string(), Some("ignored.jpg".to_string()));
    assert_eq!(m.title.as_deref(), Some("Only"));
    assert_eq!(m.artist, None);
    assert_eq!(m.album, None);
    assert_eq!(m.cover_art_path, None);
}

#[test]
fn untagged_file_gives_duration_and_path_only() {
    let p = ProbedFile { duration_secs: 60, primary_tag: None, first_tag: None };
    assert!(p.chosen_tag().is_none());
    let m = song_metadata(&p, "plain.wav".to_string(), None);
    assert_eq!(m.title, None);
    assert_eq!(m.artist, None);
    assert_eq!(m.album, None);
    assert_eq!(m.cover_art_path, None);
    assert_eq!(m.duration, 60);
    assert_eq!(m.file_path, "plain.wav");
}
