use audio_ingest::reconcile::{
    begins_with_lyrics, find_lyrics, first_lyrics_key, is_usable, keep_usable, names_lyrics,
    reconcile, Metadata,
};
use audio_ingest::tags::{Tag, Tags};

fn mapping(pairs: &[(&str, &str)]) -> Tags {
    let mut entries = Vec::new();
    for (k, v) in pairs {
        entries.push(Tag { key: k.to_string(), value: v.to_string() });
    }
    Tags { entries }
}

fn some(text: &str) -> Option<String> {
    Some(text.to_string())
}

#[test]
fn a_blank_title_is_absent() {
    let r = reconcile(&mapping(&[("title", "  "), ("artist", "Bob")]));
    assert_eq!(r.metadata.title, None);
    assert_eq!(r.metadata.artist, some("Bob"));
}

#[test]
fn a_suffixed_lyrics_key_is_found() {
    let r = reconcile(&mapping(&[("lyrics-eng", "la la")]));
    assert_eq!(r.lyrics, some("la la"));
}

#[test]
fn no_tags_give_nothing_but_the_media_type() {
    let r = reconcile(&Tags::new());
    assert_eq!(r.metadata.title, None);
    assert_eq!(r.metadata.artist, None);
    assert_eq!(r.metadata.mime_type, some("image/jpeg"));
    assert_eq!(r.lyrics, None);
}

#[test]
fn title_and_artist_are_taken_as_they_are() {
    let r = reconcile(&mapping(&[("title", " My Song "), ("artist", "Bob"), ("ARTIST", "BOB")]));
    assert_eq!(r.metadata.title, some(" My Song "));
    assert_eq!(r.metadata.artist, some("Bob"));
    assert_eq!(r.metadata.mime_type, some("image/jpeg"));
}

#[test]
fn upper_case_artist_is_the_fallback() {
    let r = reconcile(&mapping(&[("ARTIST", "Bob"), ("TITLE", "T"), ("Artist", "Ann")]));
    assert_eq!(r.metadata.artist, some("Bob"));
    assert_eq!(r.metadata.title, None);
}

#[test]
fn a_blank_artist_is_not_replaced_by_the_fallback() {
    let r = reconcile(&mapping(&[("artist", " \t"), ("ARTIST", "Bob")]));
    assert_eq!(r.metadata.artist, None);
}

#[test]
fn a_replacement_character_marks_a_failed_decoding() {
    let r = reconcile(&mapping(&[("title", "S\u{FFFD}ng"), ("artist", "\u{FFFD}")]));
    assert_eq!(r.metadata.title, None);
    assert_eq!(r.metadata.artist, None);
}

#[test]
fn an_empty_value_is_absent() {
    let r = reconcile(&mapping(&[("title", ""), ("artist", "")]));
    assert_eq!(r.metadata.title, None);
    assert_eq!(r.metadata.artist, None);
}

#[test]
fn plain_lyrics_keys_come_first() {
    let all = mapping(&[("lyrics-eng", "3"), ("LYRICS", "2"), ("lyrics", "1"), ("Lyrics", "4")]);
    assert_eq!(find_lyrics(&all), some("1"));
    let upper = mapping(&[("Lyrics", "4"), ("lyrics-eng", "3"), ("LYRICS", "2")]);
    assert_eq!(find_lyrics(&upper), some("2"));
    assert_eq!(find_lyrics(&mapping(&[("title", "x")])), None);
}

#[test]
fn lyrics_are_kept_even_when_blank() {
    assert_eq!(find_lyrics(&mapping(&[("lyrics", "  ")])), some("  "));
    assert_eq!(find_lyrics(&mapping(&[("lyrics-x", "")])), some(""));
}

#[test]
fn among_suffixed_keys_the_first_in_order_wins() {
    let forward = mapping(&[("lyrics-z", "z"), ("Lyrics-a", "a"), ("lyrics-b", "b"), ("title", "t")]);
    let backward = mapping(&[("title", "t"), ("lyrics-b", "b"), ("Lyrics-a", "a"), ("lyrics-z", "z")]);
    assert_eq!(first_lyrics_key(&forward), some("Lyrics-a"));
    assert_eq!(first_lyrics_key(&backward), some("Lyrics-a"));
    assert_eq!(find_lyrics(&forward), some("a"));
    assert_eq!(find_lyrics(&backward), some("a"));
    assert_eq!(first_lyrics_key(&mapping(&[("title", "t")])), None);
}

#[test]
fn a_repeated_suffixed_key_gives_its_last_value() {
    let t = mapping(&[("lyrics-b", "old"), ("lyrics-c", "c"), ("lyrics-b", "new")]);
    assert_eq!(find_lyrics(&t), some("new"));
}

#[test]
fn lyrics_keys_are_told_by_their_lowercase_form() {
    assert!(names_lyrics("lyrics"));
    assert!(names_lyrics("LYRICS-XXX"));
    assert!(names_lyrics("LyRiCs_eng"));
    assert!(!names_lyrics("lyric"));
    assert!(!names_lyrics("unsyncedlyrics"));
    assert!(!names_lyrics(""));
    // A dotted capital I lowers to two characters, so this is no lyrics key.
    assert!(!names_lyrics("LYR\u{130}CS"));
    assert!("LYR\u{130}CS".to_lowercase() != "lyrics");
}

#[test]
fn begins_with_lyrics_reads_the_text_as_given() {
    assert!(begins_with_lyrics("lyrics-eng"));
    assert!(!begins_with_lyrics("LYRICS"));
    assert!(!begins_with_lyrics("lyri"));
}

#[test]
fn usable_values_are_neither_blank_nor_damaged() {
    assert!(is_usable("Bob"));
    assert!(is_usable(" B "));
    assert!(!is_usable(""));
    assert!(!is_usable(" \u{A0}\t"));
    assert!(!is_usable("B\u{FFFD}b"));
    assert_eq!(keep_usable(some("Bob")), some("Bob"));
    assert_eq!(keep_usable(some(" ")), None);
    assert_eq!(keep_usable(None), None);
}

#[test]
fn duplicate_copies_every_field() {
    let m = Metadata { title: some("T"), artist: None, mime_type: some("image/jpeg") };
    let d = m.duplicate();
    assert_eq!(d.title, some("T"));
    assert_eq!(d.artist, None);
    assert_eq!(d.mime_type, some("image/jpeg"));
}
