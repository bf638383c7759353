//! Reconciling a tag mapping into title, artist and lyrics.

use crate::tags::{lemma_tag_map_keys, Tags};
use crate::text::{
    chars_of, contains_char, copy_text, lemma_lex_asymmetric, lemma_lex_total, lemma_lex_transitive,
    lemma_trim_end_len, lemma_trim_start_len, lex_le, precedes, starts_with, text_of, trim_range,
    trim_start, trimmed,
};
use vstd::prelude::*;

verus! {

/// The descriptive record shown to the user.
///
/// A field is absent rather than an empty string; see [`Metadata::wf`].
#[derive(Clone, Debug)]
pub struct Metadata {
    pub title: Option<String>,
    pub artist: Option<String>,
    /// The media type of the cover art.
    pub mime_type: Option<String>,
}

/// The mathematical content of a [`Metadata`].
pub struct MetadataView {
    pub title: Option<Seq<char>>,
    pub artist: Option<Seq<char>>,
    pub mime_type: Option<Seq<char>>,
}

impl View for Metadata {
    type V = MetadataView;

    open spec fn view(&self) -> MetadataView {
        MetadataView {
            title: text_of(self.title),
            artist: text_of(self.artist),
            mime_type: text_of(self.mime_type),
        }
    }
}

impl MetadataView {
    /// No field holds an empty string.
    pub open spec fn wf(self) -> bool {
        &&& self.title matches Some(t) ==> t.len() > 0
        &&& self.artist matches Some(a) ==> a.len() > 0
        &&& self.mime_type matches Some(m) ==> m.len() > 0
    }
}

impl Metadata {
    /// No field holds an empty string.
    pub open spec fn wf(&self) -> bool {
        self@.wf()
    }

    /// A copy of the record.
    pub fn duplicate(&self) -> (copy: Metadata)
        ensures
            copy@ == self@,
    {
        Metadata {
            title: copy_text(&self.title),
            artist: copy_text(&self.artist),
            mime_type: copy_text(&self.mime_type),
        }
    }
}

/// What title, artist and lyrics a tag mapping gives.
#[derive(Clone, Debug)]
pub struct Reconciled {
    pub metadata: Metadata,
    pub lyrics: Option<String>,
}

/// The media type assumed for cover art, whose real type is never detected.
pub open spec fn default_mime_type() -> Seq<char> {
    "image/jpeg"@
}

/// A tag value is usable as a title or an artist unless it is blank or
/// holds U+FFFD, the mark of a failed decoding.
pub open spec fn usable(value: Seq<char>) -> bool {
    trimmed(value).len() > 0 && !value.contains('\u{FFFD}')
}

/// The value of `key`, if the mapping has one.
pub open spec fn lookup(tags: Map<Seq<char>, Seq<char>>, key: Seq<char>) -> Option<Seq<char>> {
    if tags.contains_key(key) {
        Some(tags[key])
    } else {
        None
    }
}

/// `value`, unless it is absent or unusable.
pub open spec fn filtered(value: Option<Seq<char>>) -> Option<Seq<char>> {
    match value {
        Some(v) => if usable(v) {
            Some(v)
        } else {
            None
        },
        None => None,
    }
}

/// The title: the value of `title`, if usable.
pub open spec fn title_of(tags: Map<Seq<char>, Seq<char>>) -> Option<Seq<char>> {
    filtered(lookup(tags, "title"@))
}

/// The artist: the value of `artist`, else that of `ARTIST`, if usable.
/// An unusable `artist` is not replaced by `ARTIST`.
pub open spec fn artist_of(tags: Map<Seq<char>, Seq<char>>) -> Option<Seq<char>> {
    filtered(
        if tags.contains_key("artist"@) {
            Some(tags["artist"@])
        } else {
            lookup(tags, "ARTIST"@)
        },
    )
}

/// What `str::to_lowercase` makes of `s`.
pub uninterp spec fn lowercase_text(s: Seq<char>) -> Seq<char>;

/// Calls `str::to_lowercase`, the lowercase form by the Unicode tables. The
/// result is a function of the text alone, which is all the contract claims.
#[verifier::external_body]
fn lowercase(s: &str) -> (lower: String)
    ensures
        lower@ == lowercase_text(s@),
{
    s.to_lowercase()
}

/// A key names lyrics when its lowercase form begins with `lyrics`, as the
/// suffixed keys of some authoring tools do.
pub open spec fn is_lyrics_key(key: Seq<char>) -> bool {
    "lyrics"@.is_prefix_of(lowercase_text(key))
}

/// Among the keys of the mapping that name lyrics, `key` is the first in
/// lexicographic order.
pub open spec fn is_first_lyrics_key(tags: Map<Seq<char>, Seq<char>>, key: Seq<char>) -> bool {
    &&& tags.contains_key(key)
    &&& is_lyrics_key(key)
    &&& forall|other: Seq<char>|
        tags.contains_key(other) && #[trigger] is_lyrics_key(other) ==> lex_le(key, other)
}

/// The lyrics: the value of `lyrics`, else that of `LYRICS`, else that of
/// the first key, in lexicographic order, that names lyrics. The value is
/// taken as it is, blank or not.
pub open spec fn lyrics_of(tags: Map<Seq<char>, Seq<char>>) -> Option<Seq<char>> {
    if tags.contains_key("lyrics"@) {
        Some(tags["lyrics"@])
    } else if tags.contains_key("LYRICS"@) {
        Some(tags["LYRICS"@])
    } else if exists|key: Seq<char>| is_first_lyrics_key(tags, key) {
        Some(tags[choose|key: Seq<char>| is_first_lyrics_key(tags, key)])
    } else {
        None
    }
}

/// A mapping has at most one first lyrics key.
pub proof fn lemma_first_lyrics_key_unique(
    tags: Map<Seq<char>, Seq<char>>,
    a: Seq<char>,
    b: Seq<char>,
)
    requires
        is_first_lyrics_key(tags, a),
        is_first_lyrics_key(tags, b),
    ensures
        a == b,
{
    assert(lex_le(a, b));
    assert(lex_le(b, a));
    lemma_lex_asymmetric(a, b);
}

/// Tells whether a tag value can serve as a title or an artist.
pub fn is_usable(value: &str) -> (ok: bool)
    ensures
        ok == usable(value@),
        ok ==> value@.len() > 0,
{
    let chars = chars_of(value);
    let (a, b) = trim_range(&chars, 0, chars.len());
    proof {
        assert(chars@.subrange(0, chars@.len() as int) =~= chars@);
        lemma_trim_start_len(value@);
        lemma_trim_end_len(trim_start(value@));
    }
    a < b && !contains_char(&chars, '\u{FFFD}')
}

/// Tells whether an already lowercased key begins with `lyrics`.
pub fn begins_with_lyrics(lowered: &str) -> (yes: bool)
    ensures
        yes == "lyrics"@.is_prefix_of(lowered@),
{
    let prefix = chars_of("lyrics");
    let chars = chars_of(lowered);
    starts_with(&chars, &prefix)
}

/// Tells whether a key names lyrics.
pub fn names_lyrics(key: &str) -> (yes: bool)
    ensures
        yes == is_lyrics_key(key@),
{
    let lower = lowercase(key);
    begins_with_lyrics(lower.as_str())
}

/// The first key, in lexicographic order, that names lyrics.
pub fn first_lyrics_key(tags: &Tags) -> (found: Option<String>)
    ensures
        found is Some <==> exists|key: Seq<char>| is_first_lyrics_key(tags@, key),
        found matches Some(key) ==> is_first_lyrics_key(tags@, key@),
{
    let mut best: Option<usize> = None;
    let mut best_chars: Vec<char> = Vec::new();
    let mut i: usize = 0;
    while i < tags.entries.len()
        invariant
            i <= tags.entries.len(),
            best is None ==> forall|j: int|
                0 <= j < i ==> !is_lyrics_key((#[trigger] tags.entries@[j]).key@),
            best matches Some(b) ==> {
                &&& b < i
                &&& best_chars@ == tags.entries@[b as int].key@
                &&& is_lyrics_key(tags.entries@[b as int].key@)
                &&& forall|j: int|
                    0 <= j < i && is_lyrics_key((#[trigger] tags.entries@[j]).key@) ==> lex_le(
                        tags.entries@[b as int].key@,
                        tags.entries@[j].key@,
                    )
            },
        decreases tags.entries.len() - i,
    {
        if names_lyrics(tags.entries[i].key.as_str()) {
            let key_chars = chars_of(tags.entries[i].key.as_str());
            let better = match best {
                None => true,
                Some(_) => precedes(&key_chars, &best_chars),
            };
            if better {
                proof {
                    let new_key = tags.entries@[i as int].key@;
                    assert forall|j: int|
                        0 <= j < i + 1 && is_lyrics_key(
                            (#[trigger] tags.entries@[j]).key@,
                        ) implies lex_le(new_key, tags.entries@[j].key@) by {
                        if j < i {
                            let b = best->0;
                            let old_key = tags.entries@[b as int].key@;
                            if old_key != tags.entries@[j].key@ {
                                lemma_lex_transitive(new_key, old_key, tags.entries@[j].key@);
                            }
                        }
                    }
                }
                best = Some(i);
                best_chars = key_chars;
            } else {
                proof {
                    let b = best->0;
                    lemma_lex_total(tags.entries@[i as int].key@, tags.entries@[b as int].key@);
                }
            }
        }
        i += 1;
    }
    match best {
        Some(b) => {
            let key = tags.entries[b].key.clone();
            proof {
                lemma_tag_map_keys(tags.entries@, key@);
                assert forall|other: Seq<char>|
                    tags@.contains_key(other) && #[trigger] is_lyrics_key(other) implies lex_le(
                    key@,
                    other,
                ) by {
                    lemma_tag_map_keys(tags.entries@, other);
                    let j = choose|j: int|
                        0 <= j < tags.entries@.len() && (#[trigger] tags.entries@[j]).key@ == other;
                    assert(is_lyrics_key(tags.entries@[j].key@));
                }
                assert(is_first_lyrics_key(tags@, key@));
            }
            Some(key)
        },
        None => {
            proof {
                assert forall|key: Seq<char>| !is_first_lyrics_key(tags@, key) by {
                    if tags@.contains_key(key) && is_lyrics_key(key) {
                        lemma_tag_map_keys(tags.entries@, key);
                        let j = choose|j: int|
                            0 <= j < tags.entries@.len() && (#[trigger] tags.entries@[j]).key@
                                == key;
                        assert(!is_lyrics_key(tags.entries@[j].key@));
                    }
                }
            }
            None
        },
    }
}

/// The lyrics that a tag mapping gives.
pub fn find_lyrics(tags: &Tags) -> (lyrics: Option<String>)
    ensures
        text_of(lyrics) == lyrics_of(tags@),
{
    let plain = tags.get("lyrics");
    if plain.is_some() {
        return plain;
    }
    let upper = tags.get("LYRICS");
    if upper.is_some() {
        return upper;
    }
    match first_lyrics_key(tags) {
        Some(key) => {
            proof {
                let chosen = choose|k: Seq<char>| is_first_lyrics_key(tags@, k);
                lemma_first_lyrics_key_unique(tags@, key@, chosen);
            }
            tags.get(key.as_str())
        },
        None => None,
    }
}

/// Drops a value that is blank or holds U+FFFD.
pub fn keep_usable(value: Option<String>) -> (kept: Option<String>)
    ensures
        text_of(kept) == filtered(text_of(value)),
{
    match value {
        Some(v) => if is_usable(v.as_str()) {
            Some(v)
        } else {
            None
        },
        None => None,
    }
}

/// Reconciles a tag mapping into title, artist and lyrics.
pub fn reconcile(tags: &Tags) -> (r: Reconciled)
    ensures
        r.metadata@.title == title_of(tags@),
        r.metadata@.artist == artist_of(tags@),
        r.metadata@.mime_type == Some(default_mime_type()),
        text_of(r.lyrics) == lyrics_of(tags@),
        r.metadata@.title matches Some(t) ==> usable(t),
        r.metadata@.artist matches Some(a) ==> usable(a),
        r.metadata.wf(),
{
    proof {
        reveal_strlit("image/jpeg");
        if let Some(t) = title_of(tags@) {
            lemma_trim_start_len(t);
            lemma_trim_end_len(trim_start(t));
        }
        if let Some(a) = artist_of(tags@) {
            lemma_trim_start_len(a);
            lemma_trim_end_len(trim_start(a));
        }
    }
    let title = keep_usable(tags.get("title"));
    let lower = tags.get("artist");
    let artist = keep_usable(if lower.is_some() { lower } else { tags.get("ARTIST") });
    let lyrics = find_lyrics(tags);
    Reconciled {
        metadata: Metadata { title, artist, mime_type: Some("image/jpeg".to_owned()) },
        lyrics,
    }
}

} // verus!
