//! Tag mappings and the prober's structured output.

use vstd::prelude::*;

verus! {

/// One tag as a prober reports it.
#[derive(Clone, Debug)]
pub struct Tag {
    pub key: String,
    pub value: String,
}

/// A mapping from tag key to tag value, kept as a list of entries.
///
/// The list may name a key more than once; the entry that stands last
/// decides, so appending an entry is inserting into the mapping. The order
/// of the entries has no other meaning.
#[derive(Clone, Debug)]
pub struct Tags {
    pub entries: Vec<Tag>,
}

/// The mapping that a list of entries stands for.
pub open spec fn tag_map(entries: Seq<Tag>) -> Map<Seq<char>, Seq<char>>
    decreases entries.len(),
{
    if entries.len() == 0 {
        Map::empty()
    } else {
        tag_map(entries.drop_last()).insert(entries.last().key@, entries.last().value@)
    }
}

impl View for Tags {
    type V = Map<Seq<char>, Seq<char>>;

    open spec fn view(&self) -> Map<Seq<char>, Seq<char>> {
        tag_map(self.entries@)
    }
}

/// A key is in the mapping exactly when some entry names it.
pub proof fn lemma_tag_map_keys(entries: Seq<Tag>, key: Seq<char>)
    ensures
        tag_map(entries).contains_key(key) <==> exists|i: int|
            0 <= i < entries.len() && (#[trigger] entries[i]).key@ == key,
    decreases entries.len(),
{
    if entries.len() > 0 {
        let head = entries.drop_last();
        lemma_tag_map_keys(head, key);
        if tag_map(entries).contains_key(key) {
            if entries.last().key@ == key {
                assert(entries[entries.len() - 1].key@ == key);
            } else {
                let i = choose|i: int| 0 <= i < head.len() && (#[trigger] head[i]).key@ == key;
                assert(entries[i].key@ == key);
            }
        }
        if exists|i: int| 0 <= i < entries.len() && (#[trigger] entries[i]).key@ == key {
            let i = choose|i: int| 0 <= i < entries.len() && (#[trigger] entries[i]).key@ == key;
            if i < head.len() {
                assert(head[i].key@ == key);
            }
        }
    }
}

/// The last entry that names a key gives its value.
pub proof fn lemma_tag_map_last(entries: Seq<Tag>, key: Seq<char>, i: int)
    requires
        0 <= i < entries.len(),
        entries[i].key@ == key,
        forall|j: int| i < j < entries.len() ==> (#[trigger] entries[j]).key@ != key,
    ensures
        tag_map(entries).contains_key(key),
        tag_map(entries)[key] == entries[i].value@,
    decreases entries.len(),
{
    if i < entries.len() - 1 {
        let head = entries.drop_last();
        assert(entries[entries.len() - 1].key@ != key);
        assert forall|j: int| i < j < head.len() implies (#[trigger] head[j]).key@ != key by {
            assert(head[j] == entries[j]);
        }
        lemma_tag_map_last(head, key, i);
    }
}

impl Tags {
    /// The empty mapping.
    pub fn new() -> (tags: Tags)
        ensures
            tags@ == Map::<Seq<char>, Seq<char>>::empty(),
    {
        Tags { entries: Vec::new() }
    }

    /// Maps `key` to `value`, in place of any value it had.
    pub fn insert(&mut self, key: String, value: String)
        ensures
            final(self)@ == old(self)@.insert(key@, value@),
    {
        self.entries.push(Tag { key, value });
        assert(self.entries@.drop_last() =~= old(self).entries@);
    }

    /// The value of `key`, if the mapping has one.
    pub fn get(&self, key: &str) -> (value: Option<String>)
        ensures
            value is Some <==> self@.contains_key(key@),
            value matches Some(v) ==> v@ == self@[key@],
    {
        let wanted = key.to_owned();
        let mut i: usize = self.entries.len();
        while i > 0
            invariant
                i <= self.entries.len(),
                wanted@ == key@,
                forall|j: int| i <= j < self.entries.len() ==> (#[trigger] self.entries@[j]).key@ != key@,
            decreases i,
        {
            i -= 1;
            if self.entries[i].key == wanted {
                proof {
                    lemma_tag_map_last(self.entries@, key@, i as int);
                }
                return Some(self.entries[i].value.clone());
            }
        }
        proof {
            lemma_tag_map_keys(self.entries@, key@);
        }
        None
    }

    /// Adds every entry of `other`, whose values win where both have a key.
    pub fn extend(&mut self, other: &Tags)
        ensures
            final(self)@ == old(self)@.union_prefer_right(other@),
    {
        let mut i: usize = 0;
        assert(other.entries@.take(0) =~= Seq::<Tag>::empty());
        assert(self@ =~= old(self)@.union_prefer_right(tag_map(other.entries@.take(0))));
        while i < other.entries.len()
            invariant
                i <= other.entries.len(),
                self@ == old(self)@.union_prefer_right(tag_map(other.entries@.take(i as int))),
            decreases other.entries.len() - i,
        {
            let ghost before = self@;
            let key = other.entries[i].key.clone();
            let value = other.entries[i].value.clone();
            self.insert(key, value);
            proof {
                let upto = other.entries@.take(i + 1);
                assert(upto.drop_last() =~= other.entries@.take(i as int));
                assert(upto.last() == other.entries@[i as int]);
                assert(self@ =~= old(self)@.union_prefer_right(tag_map(upto)));
            }
            i += 1;
        }
        assert(other.entries@.take(other.entries@.len() as int) =~= other.entries@);
    }
}

/// One stream of the probed file.
#[derive(Clone, Debug)]
pub struct Stream {
    /// The codec category, `audio` for an audio stream.
    pub codec_type: String,
    pub tags: Tags,
}

/// The container of the probed file.
#[derive(Clone, Debug)]
pub struct Format {
    pub tags: Tags,
}

/// What a prober reports of a file: its streams, in order, and its container.
#[derive(Clone, Debug)]
pub struct RawProbeDocument {
    pub streams: Vec<Stream>,
    pub format: Format,
}

/// The tags of the first audio stream, or no tags where there is none.
pub open spec fn first_audio_tags(streams: Seq<Stream>) -> Map<Seq<char>, Seq<char>>
    decreases streams.len(),
{
    if streams.len() == 0 {
        Map::empty()
    } else if streams[0].codec_type@ == "audio"@ {
        streams[0].tags@
    } else {
        first_audio_tags(streams.drop_first())
    }
}

/// The one mapping that all later steps read: the container's tags, with
/// those of the first audio stream winning where both have a key.
pub open spec fn canonical_tags(doc: RawProbeDocument) -> Map<Seq<char>, Seq<char>> {
    doc.format.tags@.union_prefer_right(first_audio_tags(doc.streams@))
}

impl RawProbeDocument {
    /// Merges the container's tags with those of the first audio stream.
    pub fn merged_tags(&self) -> (tags: Tags)
        ensures
            tags@ == canonical_tags(*self),
    {
        let mut tags = Tags::new();
        tags.extend(&self.format.tags);
        assert(tags@ =~= self.format.tags@);
        let audio = "audio".to_owned();
        let mut i: usize = 0;
        assert(self.streams@.skip(0) =~= self.streams@);
        while i < self.streams.len()
            invariant
                i <= self.streams.len(),
                audio@ == "audio"@,
                tags@ == self.format.tags@,
                first_audio_tags(self.streams@) == first_audio_tags(self.streams@.skip(i as int)),
            decreases self.streams.len() - i,
        {
            if self.streams[i].codec_type == audio {
                tags.extend(&self.streams[i].tags);
                return tags;
            }
            assert(self.streams@.skip(i as int).drop_first() =~= self.streams@.skip(i + 1));
            i += 1;
        }
        assert(tags@ =~= canonical_tags(*self));
        tags
    }
}

} // verus!
