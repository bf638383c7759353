//! Filling gaps in the metadata from the file's base name.
//!
//! A base name such as `Artist - My Song` is read as an artist followed by a
//! title. This runs after the tags were reconciled, so it patches true gaps
//! only.

use crate::reconcile::{Metadata, MetadataView};
use crate::text::{chars_of, joined, split_on, texts, trim_range, trimmed};
use vstd::prelude::*;
use vstd::string::*;

verus! {

/// `acc`, followed by the trimmed `piece` unless that is empty.
pub open spec fn keep_piece(acc: Seq<Seq<char>>, piece: Seq<char>) -> Seq<Seq<char>> {
    if trimmed(piece).len() > 0 {
        acc.push(trimmed(piece))
    } else {
        acc
    }
}

/// The pieces, each trimmed, without those that are then empty.
pub open spec fn kept(pieces: Seq<Seq<char>>) -> Seq<Seq<char>>
    decreases pieces.len(),
{
    if pieces.len() == 0 {
        Seq::<Seq<char>>::empty()
    } else {
        keep_piece(kept(pieces.drop_last()), pieces.last())
    }
}

/// The segments of a base name: its pieces between dashes, each trimmed,
/// without the empty ones.
pub open spec fn segments(base: Seq<char>) -> Seq<Seq<char>> {
    kept(split_on(base, '-'))
}

/// The metadata after its gaps were filled from the base name.
///
/// An absent title becomes the base name as it is. An absent artist becomes
/// the first segment, where there are at least two; and a title that then
/// equals the whole base name, given just now or found in the tags, becomes
/// the other segments joined by ` - `.
pub open spec fn with_filename(meta: MetadataView, base: Seq<char>) -> MetadataView {
    let title = match meta.title {
        Some(t) => t,
        None => base,
    };
    let parts = segments(base);
    if meta.artist is None && parts.len() >= 2 {
        MetadataView {
            title: Some(
                if title == base {
                    joined(parts.skip(1), " - "@)
                } else {
                    title
                },
            ),
            artist: Some(parts[0]),
            mime_type: meta.mime_type,
        }
    } else {
        MetadataView { title: Some(title), artist: meta.artist, mime_type: meta.mime_type }
    }
}

/// No kept segment is empty.
pub proof fn lemma_kept_nonempty(pieces: Seq<Seq<char>>, i: int)
    requires
        0 <= i < kept(pieces).len(),
    ensures
        kept(pieces)[i].len() > 0,
    decreases pieces.len(),
{
    if pieces.len() > 0 {
        let head = kept(pieces.drop_last());
        if i < head.len() {
            lemma_kept_nonempty(pieces.drop_last(), i);
        }
    }
}

/// Joining parts of which the last is not empty gives a text that is not empty.
pub proof fn lemma_joined_nonempty(parts: Seq<Seq<char>>, sep: Seq<char>)
    requires
        parts.len() > 0,
        parts.last().len() > 0,
    ensures
        joined(parts, sep).len() > 0,
{
}

/// Filling the gaps of a record without empty strings, from a base name that
/// is not empty, gives a record without empty strings.
pub proof fn lemma_with_filename_wf(meta: MetadataView, base: Seq<char>)
    requires
        meta.wf(),
        base.len() > 0,
    ensures
        with_filename(meta, base).wf(),
{
    let parts = segments(base);
    if meta.artist is None && parts.len() >= 2 {
        lemma_kept_nonempty(split_on(base, '-'), 0);
        lemma_kept_nonempty(split_on(base, '-'), parts.len() - 1);
        lemma_joined_nonempty(parts.skip(1), " - "@);
    }
}

/// Appends the trimmed `chars[from..to]` to `segs` unless it is empty.
fn push_segment(base: &str, chars: &Vec<char>, from: usize, to: usize, segs: &mut Vec<String>)
    requires
        chars@ == base@,
        from <= to <= chars.len(),
    ensures
        texts(final(segs)@) == keep_piece(texts(old(segs)@), chars@.subrange(from as int, to as int)),
{
    let (a, b) = trim_range(chars, from, to);
    if a < b {
        let segment = base.substring_char(a, b).to_owned();
        segs.push(segment);
        assert(texts(segs@) =~= texts(old(segs)@).push(segment@));
    }
}

/// The segments of a base name.
pub fn name_segments(base: &str) -> (segs: Vec<String>)
    ensures
        texts(segs@) == segments(base@),
{
    let chars = chars_of(base);
    let mut segs: Vec<String> = Vec::new();
    let mut start: usize = 0;
    let mut i: usize = 0;
    let ghost mut done: Seq<Seq<char>> = Seq::empty();
    proof {
        assert(chars@.take(0) =~= Seq::<char>::empty());
        assert(chars@.subrange(0, 0) =~= Seq::<char>::empty());
        assert(split_on(chars@.take(0), '-') =~= done.push(chars@.subrange(0, 0)));
        assert(texts(segs@) =~= kept(done));
    }
    while i < chars.len()
        invariant
            start <= i <= chars.len(),
            chars@ == base@,
            split_on(chars@.take(i as int), '-') == done.push(
                chars@.subrange(start as int, i as int),
            ),
            texts(segs@) == kept(done),
        decreases chars.len() - i,
    {
        let ghost piece = chars@.subrange(start as int, i as int);
        let ghost upto = chars@.take(i + 1);
        proof {
            assert(upto.drop_last() =~= chars@.take(i as int));
            assert(upto.last() == chars@[i as int]);
            assert(done.push(piece).drop_last() =~= done);
            assert(done.push(piece).last() == piece);
        }
        if chars[i] == '-' {
            push_segment(base, &chars, start, i, &mut segs);
            proof {
                done = done.push(piece);
                assert(done.drop_last() =~= done.drop_last());
                assert(chars@.subrange(i + 1, i + 1) =~= Seq::<char>::empty());
            }
            start = i + 1;
        } else {
            proof {
                assert(piece.push(chars@[i as int]) =~= chars@.subrange(start as int, i + 1));
            }
        }
        i += 1;
    }
    push_segment(base, &chars, start, i, &mut segs);
    proof {
        let piece = chars@.subrange(start as int, i as int);
        assert(chars@.take(i as int) =~= chars@);
        assert(done.push(piece).drop_last() =~= done);
    }
    segs
}

/// The parts from index `from` on, with `sep` between each two neighbours.
pub fn join_from(parts: &Vec<String>, from: usize, sep: &str) -> (out: String)
    requires
        from <= parts.len(),
    ensures
        out@ == joined(texts(parts@).skip(from as int), sep@),
{
    let mut out = String::new();
    let mut k: usize = from;
    let ghost all = texts(parts@);
    proof {
        assert(all.subrange(from as int, from as int) =~= Seq::<Seq<char>>::empty());
    }
    while k < parts.len()
        invariant
            from <= k <= parts.len(),
            all == texts(parts@),
            out@ == joined(all.subrange(from as int, k as int), sep@),
        decreases parts.len() - k,
    {
        let ghost before = all.subrange(from as int, k as int);
        let ghost after = all.subrange(from as int, k + 1);
        proof {
            assert(after.drop_last() =~= before);
            assert(after.last() == parts@[k as int]@);
        }
        if k > from {
            out.append(sep);
        }
        out.append(parts[k].as_str());
        proof {
            if k == from {
                assert(out@ =~= after[0]);
            } else {
                assert(out@ =~= joined(before, sep@) + sep@ + after.last());
            }
        }
        k += 1;
    }
    proof {
        assert(all.subrange(from as int, parts@.len() as int) =~= all.skip(from as int));
    }
    out
}

impl Metadata {
    /// Fills the gaps that the tags left, from the file's base name.
    pub fn fill_from_filename(&mut self, base: &str)
        ensures
            final(self)@ == with_filename(old(self)@, base@),
            final(self)@.title is Some,
            old(self).wf() && base@.len() > 0 ==> final(self).wf(),
    {
        if self.title.is_none() {
            self.title = Some(base.to_owned());
        }
        if self.artist.is_none() {
            let parts = name_segments(base);
            if parts.len() >= 2 {
                proof {
                    let rest = segments(base@).skip(1);
                    lemma_kept_nonempty(split_on(base@, '-'), 0);
                    lemma_kept_nonempty(split_on(base@, '-'), segments(base@).len() - 1);
                    lemma_joined_nonempty(rest, " - "@);
                }
                self.artist = Some(parts[0].clone());
                let whole = base.to_owned();
                let is_whole = match &self.title {
                    Some(t) => *t == whole,
                    None => false,
                };
                if is_whole {
                    self.title = Some(join_from(&parts, 1, " - "));
                }
            }
        }
    }
}

} // verus!
