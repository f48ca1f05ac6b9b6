//! Batch tag-name parsing for the tag endpoints.
//!
//! The tag routes take a comma-separated list of names. The list is split,
//! each name trimmed, empty names dropped, and repetitions removed (the
//! first occurrence keeps its place). A batch whose cleaned-up set is empty
//! is rejected as a bad request before any store call is made; otherwise
//! the store receives exactly one call per remaining name.
use vstd::prelude::*;
use crate::envelope::ServerError;
use crate::text::{
    contains_str, dedup_first, lemma_dedup_first_contains, lemma_dedup_first_distinct, split_char,
    split_on, trim_spec, trim_str,
};

verus! {

/// The cleaned-up batch: the comma-separated segments of `s`, trimmed,
/// with empty names dropped and later repetitions removed.
pub open spec fn tag_names_spec(s: Seq<char>) -> Seq<Seq<char>> {
    dedup_first(
        split_on(s, ',').map_values(|p: Seq<char>| trim_spec(p)).filter(|t: Seq<char>| t.len() > 0),
    )
}

/// Parses a comma-separated batch of tag names.
///
/// Returns the cleaned-up names in first-occurrence order, or a
/// `BadRequest` when nothing but separators and whitespace was given —
/// exactly when the cleaned-up batch is empty.
pub fn parse_tag_names(input: &str) -> (r: Result<Vec<String>, ServerError>)
    ensures
        r is Ok <==> tag_names_spec(input@).len() > 0,
        r is Ok ==> r->Ok_0@.map_values(|t: String| t@) == tag_names_spec(input@),
        r is Err ==> r->Err_0 is BadRequest && r->Err_0.spec_message()
            == "No valid tag names provided"@,
{
    let parts = split_char(input, ',');
    let ghost parts_v = parts@.map_values(|p: String| p@);
    let ghost tr = |p: Seq<char>| trim_spec(p);
    let ghost nonempty = |t: Seq<char>| t.len() > 0;
    let n = parts.len();
    let mut out: Vec<String> = Vec::new();
    let mut i: usize = 0;
    proof {
        reveal(Seq::filter);
        assert(parts_v.subrange(0, 0).map_values(tr).filter(nonempty) =~= Seq::<Seq<char>>::empty());
        assert(out@.map_values(|t: String| t@) =~= dedup_first(
            parts_v.subrange(0, 0).map_values(tr).filter(nonempty),
        ));
    }
    while i < n
        invariant
            0 <= i <= n,
            n == parts@.len(),
            parts_v == parts@.map_values(|p: String| p@),
            out@.map_values(|t: String| t@) == dedup_first(
                parts_v.subrange(0, i as int).map_values(tr).filter(nonempty),
            ),
            tr == (|p: Seq<char>| trim_spec(p)),
            nonempty == (|t: Seq<char>| t.len() > 0),
        decreases n - i,
    {
        let t = trim_str(parts[i].as_str());
        let ghost pre = parts_v.subrange(0, i as int);
        let ghost pre1 = parts_v.subrange(0, i + 1 as int);
        proof {
            assert(parts_v[i as int] == parts@[i as int]@);
            assert(pre1 =~= pre.push(parts_v[i as int]));
            assert(pre1.map_values(tr) =~= pre.map_values(tr).push(trim_spec(parts_v[i as int])));
            assert(pre1.map_values(tr).drop_last() =~= pre.map_values(tr));
        }
        if !t.as_str().is_empty() {
            let dup = contains_str(&out, t.as_str());
            if !dup {
                out.push(t);
                proof {
                    reveal(Seq::filter);
                    let f1 = pre1.map_values(tr).filter(nonempty);
                    assert(f1 =~= pre.map_values(tr).filter(nonempty).push(t@));
                    assert(f1.drop_last() =~= pre.map_values(tr).filter(nonempty));
                    assert(out@.map_values(|x: String| x@) =~= dedup_first(f1));
                }
            } else {
                proof {
                    reveal(Seq::filter);
                    let f1 = pre1.map_values(tr).filter(nonempty);
                    assert(f1 =~= pre.map_values(tr).filter(nonempty).push(t@));
                    assert(f1.drop_last() =~= pre.map_values(tr).filter(nonempty));
                    assert(out@.map_values(|x: String| x@) =~= dedup_first(f1));
                }
            }
        } else {
            proof {
                reveal(Seq::filter);
                let f1 = pre1.map_values(tr).filter(nonempty);
                assert(f1 =~= pre.map_values(tr).filter(nonempty));
                assert(out@.map_values(|x: String| x@) =~= dedup_first(f1));
            }
        }
        i += 1;
    }
    proof {
        assert(parts_v.subrange(0, n as int) =~= parts_v);
    }
    if out.len() == 0 {
        proof {
            assert(tag_names_spec(input@).len() == 0);
        }
        Err(ServerError::BadRequest(String::from_str("No valid tag names provided")))
    } else {
        proof {
            assert(out@.map_values(|t: String| t@).len() == out@.len());
        }
        Ok(out)
    }
}

/// LAW: the cleaned-up batch never holds the same name twice — every
/// repetition in the input collapses onto its first occurrence.
pub proof fn lemma_tag_names_distinct(s: Seq<char>)
    ensures
        forall|i: int, j: int|
            0 <= i < j < tag_names_spec(s).len() ==> tag_names_spec(s)[i] != tag_names_spec(s)[j],
{
    lemma_dedup_first_distinct(
        split_on(s, ',').map_values(|p: Seq<char>| trim_spec(p)).filter(|t: Seq<char>| t.len() > 0),
    );
}

/// LAW: a name is in the cleaned-up batch exactly when it is non-empty
/// and is the trimmed form of one of the comma-separated segments. In
/// particular, a batch of separators and whitespace alone cleans up to
/// nothing, and a repeated name appears once.
pub proof fn lemma_tag_names_membership(s: Seq<char>, t: Seq<char>)
    ensures
        tag_names_spec(s).contains(t) <==> (t.len() > 0 && exists|k: int|
            0 <= k < split_on(s, ',').len() && trim_spec(#[trigger] split_on(s, ',')[k]) == t),
{
    let tr = |p: Seq<char>| trim_spec(p);
    let nonempty = |u: Seq<char>| u.len() > 0;
    let mapped = split_on(s, ',').map_values(tr);
    let filtered = mapped.filter(nonempty);
    lemma_dedup_first_contains(filtered, t);
    if filtered.contains(t) {
        let i = choose|i: int| 0 <= i < filtered.len() && filtered[i] == t;
        Seq::lemma_filter_pred(mapped, nonempty, i);
        Seq::lemma_filter_contains_rev(mapped, nonempty, t);
        let k = choose|k: int| 0 <= k < mapped.len() && mapped[k] == t;
        assert(trim_spec(split_on(s, ',')[k]) == t);
    }
    if t.len() > 0 && exists|k: int|
        0 <= k < split_on(s, ',').len() && trim_spec(#[trigger] split_on(s, ',')[k]) == t {
        let k = choose|k: int|
            0 <= k < split_on(s, ',').len() && trim_spec(#[trigger] split_on(s, ',')[k]) == t;
        assert(mapped[k] == t);
        Seq::lemma_filter_contains(mapped, nonempty, k);
    }
}

} // verus!
