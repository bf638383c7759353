//! Font families and faces: the list of family names shown to the user, and
//! the face of a family whose data is handed out.

use crate::text::{
    chars_of, lemma_lex_asymmetric, lemma_lex_total, lemma_lex_transitive, lex_lt, precedes, texts,
};
use crate::transport::{base64_encode, base64_text, encodable};
use vstd::prelude::*;

verus! {

/// Each name stands before the next in lexicographic order, so none occurs twice.
pub open spec fn strictly_sorted(names: Seq<Seq<char>>) -> bool {
    forall|i: int, j: int| 0 <= i < j < names.len() ==> lex_lt(names[i], names[j])
}

/// Puts `name` at its place in a sorted list, unless the list has it.
fn insert_sorted(out: &mut Vec<String>, name: String)
    requires
        strictly_sorted(texts(old(out)@)),
    ensures
        strictly_sorted(texts(final(out)@)),
        forall|t: Seq<char>|
            texts(final(out)@).contains(t) <==> texts(old(out)@).contains(t) || t == name@,
{
    let name_chars = chars_of(name.as_str());
    let ghost before = texts(out@);
    let mut p: usize = 0;
    while p < out.len() && precedes(&chars_of(out[p].as_str()), &name_chars)
        invariant
            p <= out.len(),
            out@ == old(out)@,
            name_chars@ == name@,
            before == texts(out@),
            forall|j: int| 0 <= j < p ==> lex_lt(before[j], name@),
        decreases out.len() - p,
    {
        p += 1;
    }
    if p < out.len() && out[p] == name {
        assert(before[p as int] == name@);
        assert forall|t: Seq<char>| before.contains(t) || t == name@ implies before.contains(t) by {}
        return ;
    }
    proof {
        assert forall|j: int| p <= j < before.len() implies lex_lt(name@, before[j]) by {
            lemma_lex_total(before[p as int], name@);
            if j > p {
                lemma_lex_transitive(name@, before[p as int], before[j]);
            }
        }
        assert forall|j: int| 0 <= j < before.len() implies before[j] != name@ by {
            lemma_lex_asymmetric(name@, name@);
        }
    }
    out.insert(p, name);
    proof {
        let after = texts(out@);
        assert(after =~= before.insert(p as int, name@));
        assert forall|i: int, j: int| 0 <= i < j < after.len() implies lex_lt(
            after[i],
            after[j],
        ) by {
            if i < p && j > p {
                lemma_lex_transitive(after[i], name@, after[j]);
            }
        }
        assert forall|t: Seq<char>| after.contains(t) <==> before.contains(t) || t == name@ by {
            if before.contains(t) {
                let k = choose|k: int| 0 <= k < before.len() && before[k] == t;
                if k < p {
                    assert(after[k] == t);
                } else {
                    assert(after[k + 1] == t);
                }
            }
            if t == name@ {
                assert(after[p as int] == t);
            }
            if after.contains(t) {
                let k = choose|k: int| 0 <= k < after.len() && after[k] == t;
                if k < p {
                    assert(before[k] == t);
                } else if k > p {
                    assert(before[k - 1] == t);
                }
            }
        }
    }
}

/// The names in lexicographic order, each once.
pub fn sorted_unique(names: Vec<String>) -> (out: Vec<String>)
    ensures
        strictly_sorted(texts(out@)),
        forall|t: Seq<char>| texts(out@).contains(t) <==> texts(names@).contains(t),
{
    let mut out: Vec<String> = Vec::new();
    let mut i: usize = 0;
    while i < names.len()
        invariant
            i <= names.len(),
            strictly_sorted(texts(out@)),
            forall|t: Seq<char>|
                texts(out@).contains(t) <==> texts(names@.take(i as int)).contains(t),
        decreases names.len() - i,
    {
        let ghost seen = texts(names@.take(i as int));
        let ghost held = texts(out@);
        insert_sorted(&mut out, names[i].clone());
        proof {
            let now = texts(names@.take(i + 1));
            assert(now =~= seen.push(names@[i as int]@));
            assert forall|t: Seq<char>| texts(out@).contains(t) <==> now.contains(t) by {
                if seen.contains(t) {
                    let k = choose|k: int| 0 <= k < seen.len() && seen[k] == t;
                    assert(now[k] == t);
                }
                if t == names@[i as int]@ {
                    assert(now[i as int] == t);
                }
                if now.contains(t) {
                    let k = choose|k: int| 0 <= k < now.len() && now[k] == t;
                    if k < i {
                        assert(seen[k] == t);
                    }
                }
            }
        }
        i += 1;
    }
    assert(names@.take(names@.len() as int) =~= names@);
    out
}

/// What is known of a face that could be loaded.
#[derive(Clone, Copy, PartialEq, Eq, Debug, Structural)]
pub struct Face {
    /// The style is upright, neither italic nor oblique.
    pub normal_style: bool,
    /// The weight is the regular one.
    pub normal_weight: bool,
}

/// The face could be loaded and is upright and of regular weight.
pub open spec fn is_regular(face: Option<Face>) -> bool {
    face matches Some(f) && f.normal_style && f.normal_weight
}

/// The face at `k` is the one to hand out: the first regular face, or,
/// where the family has none, the first face that could be loaded.
pub open spec fn is_chosen_face(faces: Seq<Option<Face>>, k: int) -> bool {
    &&& 0 <= k < faces.len()
    &&& faces[k] is Some
    &&& forall|j: int| 0 <= j < k ==> !is_regular(#[trigger] faces[j])
    &&& !is_regular(faces[k]) ==> {
        &&& forall|j: int| 0 <= j < faces.len() ==> !is_regular(#[trigger] faces[j])
        &&& forall|j: int| 0 <= j < k ==> (#[trigger] faces[j]) is None
    }
}

/// Picks the face of a family whose data is handed out. Each entry tells
/// of one face, in the family's order: nothing where it could not be loaded.
pub fn choose_face(faces: &Vec<Option<Face>>) -> (chosen: Option<usize>)
    ensures
        chosen matches Some(k) ==> is_chosen_face(faces@, k as int),
        chosen is None <==> forall|j: int| 0 <= j < faces.len() ==> (#[trigger] faces@[j]) is None,
{
    let mut fallback: Option<usize> = None;
    let mut i: usize = 0;
    while i < faces.len()
        invariant
            i <= faces.len(),
            forall|j: int| 0 <= j < i ==> !is_regular(#[trigger] faces@[j]),
            fallback is None ==> forall|j: int| 0 <= j < i ==> (#[trigger] faces@[j]) is None,
            fallback matches Some(k) ==> k < i && faces@[k as int] is Some && forall|j: int|
                0 <= j < k ==> (#[trigger] faces@[j]) is None,
        decreases faces.len() - i,
    {
        match faces[i] {
            Some(face) => {
                if face.normal_style && face.normal_weight {
                    return Some(i);
                }
                if fallback.is_none() {
                    fallback = Some(i);
                }
            },
            None => {},
        }
        i += 1;
    }
    fallback
}

/// The bytes in base64, unless they are too many for the encoder.
pub fn encode_checked(bytes: &[u8]) -> (text: Option<String>)
    ensures
        text is Some <==> encodable(bytes@),
        text matches Some(t) ==> t@ == base64_text(bytes@),
{
    if bytes.len() <= usize::MAX / 8 {
        Some(base64_encode(bytes))
    } else {
        None
    }
}

} // verus!
