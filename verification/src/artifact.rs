//! Which file of the build-output directory becomes the worker.
//!
//! An artifact is a file whose name ends in `.jar`. Where the directory holds several, the
//! one whose name sorts first, character by character, is taken: the choice does not depend
//! on the order in which the directory was listed.
use vstd::prelude::*;
use crate::command::text_of;
use crate::text::{chars_of, ends_with, has_suffix, precedes, sorts_before};
use crate::text::{lemma_precedes_antisymmetric, lemma_precedes_total};
use crate::text::lemma_precedes_transitive;

verus! {

/// The ending of an artifact's file name.
pub open spec fn artifact_suffix() -> Seq<char> {
    ".jar"@
}

/// Whether a file of this name is an artifact.
pub open spec fn is_artifact(name: Seq<char>) -> bool {
    has_suffix(name, artifact_suffix())
}

/// The artifact chosen among `names`: the one that sorts first, if there is any.
pub open spec fn select_artifact(names: Seq<Seq<char>>) -> Option<Seq<char>>
    decreases names.len(),
{
    if names.len() == 0 {
        None
    } else {
        let earlier = select_artifact(names.drop_last());
        let name = names.last();
        if is_artifact(name) && (earlier is None || !precedes(earlier->0, name)) {
            Some(name)
        } else {
            earlier
        }
    }
}

/// The chosen artifact is one of the names, is an artifact, and sorts no later than any
/// other artifact among them; none is chosen only where there is none.
pub proof fn lemma_select_artifact_least(names: Seq<Seq<char>>)
    ensures
        select_artifact(names) is None <==> forall|i: int|
            0 <= i < names.len() ==> !is_artifact(#[trigger] names[i]),
        select_artifact(names) matches Some(chosen) ==> {
            &&& names.contains(chosen)
            &&& is_artifact(chosen)
            &&& forall|i: int|
                0 <= i < names.len() && is_artifact(#[trigger] names[i]) ==> precedes(
                    chosen,
                    names[i],
                )
        },
    decreases names.len(),
{
    if names.len() > 0 {
        let front = names.drop_last();
        let name = names.last();
        lemma_select_artifact_least(front);
        assert forall|i: int| 0 <= i < front.len() implies front[i] == names[i] by {}
        match select_artifact(names) {
            Some(chosen) => {
                if select_artifact(front) == Some(chosen) {
                    let k = choose|k: int| 0 <= k < front.len() && front[k] == chosen;
                    assert(names[k] == chosen);
                } else {
                    assert(names[names.len() - 1] == chosen);
                }
                assert forall|i: int|
                    0 <= i < names.len() && is_artifact(#[trigger] names[i]) implies precedes(
                    chosen,
                    names[i],
                ) by {
                    if chosen == name {
                        lemma_precedes_total(name, name, 0);
                        if i < front.len() {
                            assert(is_artifact(front[i]));
                            let earlier = select_artifact(front)->0;
                            assert(precedes(earlier, front[i]));
                            if select_artifact(front) != Some(name) {
                                lemma_precedes_total(earlier, name, 0);
                                lemma_precedes_transitive(name, earlier, front[i], 0);
                            }
                        }
                    } else {
                        if i < front.len() {
                            assert(is_artifact(front[i]));
                        }
                    }
                }
            },
            None => {
                assert forall|i: int| 0 <= i < names.len() implies !is_artifact(
                    #[trigger] names[i],
                ) by {
                    if i < front.len() {
                        assert(!is_artifact(front[i]));
                    }
                }
            },
        }
        if select_artifact(names) is Some {
            if select_artifact(front) is Some {
                let k = choose|k: int| 0 <= k < front.len() && is_artifact(#[trigger] front[k]);
                assert(is_artifact(names[k]));
            } else {
                assert(is_artifact(names[names.len() - 1]));
            }
        }
    }
}

/// The choice depends on which names the directory holds, not on the order in which they
/// were listed nor on how often one was.
pub proof fn lemma_select_artifact_order_free(a: Seq<Seq<char>>, b: Seq<Seq<char>>)
    requires
        forall|name: Seq<char>| a.contains(name) <==> b.contains(name),
    ensures
        select_artifact(a) == select_artifact(b),
{
    lemma_select_artifact_least(a);
    lemma_select_artifact_least(b);
    match select_artifact(a) {
        Some(x) => {
            assert(b.contains(x));
            let j = choose|j: int| 0 <= j < b.len() && b[j] == x;
            assert(is_artifact(b[j]));
            let y = select_artifact(b)->0;
            assert(precedes(y, b[j]));
            assert(a.contains(y));
            let i = choose|i: int| 0 <= i < a.len() && a[i] == y;
            assert(is_artifact(a[i]));
            assert(precedes(x, a[i]));
            lemma_precedes_antisymmetric(x, y, 0);
            assert(x.skip(0) =~= x);
            assert(y.skip(0) =~= y);
        },
        None => {
            if select_artifact(b) is Some {
                let y = select_artifact(b)->0;
                assert(a.contains(y));
                let i = choose|i: int| 0 <= i < a.len() && a[i] == y;
                assert(is_artifact(a[i]));
            }
        },
    }
}

/// Chooses the artifact among the file names of the build-output directory.
pub fn select(names: &Vec<String>) -> (chosen: Option<String>)
    ensures
        text_of(chosen) == select_artifact(names.deep_view()),
{
    proof {
        reveal_strlit(".jar");
    }
    let suffix = chars_of(".jar");
    let mut best: Option<usize> = None;
    let mut best_chars: Vec<char> = Vec::new();
    let mut i: usize = 0;
    while i < names.len()
        invariant
            i <= names.len(),
            suffix@ == artifact_suffix(),
            match best {
                Some(b) => b < i && best_chars@ == names@[b as int]@ && select_artifact(
                    names.deep_view().take(i as int),
                ) == Some(names@[b as int]@),
                None => select_artifact(names.deep_view().take(i as int)) is None,
            },
        decreases names.len() - i,
    {
        let chars = chars_of(names[i].as_str());
        proof {
            let seen = names.deep_view().take(i as int + 1);
            assert(seen.drop_last() =~= names.deep_view().take(i as int));
            assert(seen.last() == names@[i as int]@);
        }
        if ends_with(&chars, &suffix) {
            let better = match best {
                Some(_) => !sorts_before(&best_chars, &chars),
                None => true,
            };
            if better {
                best = Some(i);
                best_chars = chars;
            }
        }
        i += 1;
    }
    assert(names.deep_view().take(i as int) =~= names.deep_view());
    match best {
        Some(b) => Some(names[b].clone()),
        None => None,
    }
}

} // verus!
