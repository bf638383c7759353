use audio_ingest::tags::{Format, RawProbeDocument, Stream, Tag, Tags};

fn tag_list(pairs: &[(&str, &str)]) -> Tags {
    let mut entries = Vec::new();
    for (k, v) in pairs {
        entries.push(Tag { key: k.to_string(), value: v.to_string() });
    }
    Tags { entries }
}

fn stream_of(codec_type: &str, pairs: &[(&str, &str)]) -> Stream {
    Stream { codec_type: codec_type.to_string(), tags: tag_list(pairs) }
}

#[test]
fn a_new_mapping_is_empty() {
    let t = Tags::new();
    assert!(t.entries.is_empty());
    assert_eq!(t.get("title"), None);
}

#[test]
fn insert_replaces_the_value_of_a_key() {
    let mut t = Tags::new();
    t.insert("title".to_string(), "One".to_string());
    t.insert("artist".to_string(), "Bob".to_string());
    assert_eq!(t.get("title"), Some("One".to_string()));
    t.insert("title".to_string(), "Two".to_string());
    assert_eq!(t.get("title"), Some("Two".to_string()));
    assert_eq!(t.get("artist"), Some("Bob".to_string()));
    assert_eq!(t.get("Title"), None);
}

#[test]
fn the_last_entry_of_a_key_decides() {
    let t = tag_list(&[("a", "1"), ("b", "2"), ("a", "3")]);
    assert_eq!(t.get("a"), Some("3".to_string()));
    assert_eq!(t.get("b"), Some("2".to_string()));
    assert_eq!(t.get("c"), None);
}

#[test]
fn extend_lets_the_other_mapping_win() {
    let mut t = tag_list(&[("title", "F"), ("album", "A")]);
    t.extend(&tag_list(&[("title", "S"), ("genre", "G")]));
    assert_eq!(t.get("title"), Some("S".to_string()));
    assert_eq!(t.get("album"), Some("A".to_string()));
    assert_eq!(t.get("genre"), Some("G".to_string()));
}

#[test]
fn stream_tags_win_over_container_tags() {
    let doc = RawProbeDocument {
        streams: vec![stream_of("audio", &[("title", "S"), ("artist", "Bob")])],
        format: Format { tags: tag_list(&[("title", "F"), ("album", "A")]) },
    };
    let merged = doc.merged_tags();
    assert_eq!(merged.get("title"), Some("S".to_string()));
    assert_eq!(merged.get("artist"), Some("Bob".to_string()));
    assert_eq!(merged.get("album"), Some("A".to_string()));
}

#[test]
fn only_the_first_audio_stream_counts() {
    let doc = RawProbeDocument {
        streams: vec![
            stream_of("video", &[("title", "V"), ("comment", "cover")]),
            stream_of("audio", &[("title", "S1")]),
            stream_of("audio", &[("title", "S2"), ("artist", "Late")]),
        ],
        format: Format { tags: tag_list(&[("title", "F")]) },
    };
    let merged = doc.merged_tags();
    assert_eq!(merged.get("title"), Some("S1".to_string()));
    assert_eq!(merged.get("artist"), None);
    assert_eq!(merged.get("comment"), None);
}

#[test]
fn without_an_audio_stream_the_container_tags_stand() {
    let doc = RawProbeDocument {
        streams: vec![stream_of("video", &[("title", "V")]), stream_of("Audio", &[("title", "X")])],
        format: Format { tags: tag_list(&[("title", "F")]) },
    };
    let merged = doc.merged_tags();
    assert_eq!(merged.get("title"), Some("F".to_string()));
    let bare = RawProbeDocument { streams: vec![], format: Format { tags: Tags::new() } };
    assert!(bare.merged_tags().entries.is_empty());
}
