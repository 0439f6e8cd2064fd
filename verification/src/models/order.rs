//! The order in which paths are worked on.
//!
//! Paths are compared part by part, and parts character by character, by
//! the number of the character. A path comes before every path that it is
//! the beginning of.

use vstd::prelude::*;
use vstd::multiset::Multiset;
use crate::models::path::FilePath;
use crate::text::chars_of;

verus! {

/// `a` comes before `b` or equals it, given that they agree before `from`.
pub open spec fn text_le(a: Seq<char>, b: Seq<char>, from: int) -> bool
    decreases a.len() - from,
{
    if from < 0 || from >= a.len() {
        true
    } else if from >= b.len() {
        false
    } else if (a[from] as int) < (b[from] as int) {
        true
    } else if (a[from] as int) > (b[from] as int) {
        false
    } else {
        text_le(a, b, from + 1)
    }
}

/// The path `a` comes before the path `b` or equals it, given that they
/// agree before `from`.
pub open spec fn path_le(a: Seq<Seq<char>>, b: Seq<Seq<char>>, from: int) -> bool
    decreases a.len() - from,
{
    if from < 0 || from >= a.len() {
        true
    } else if from >= b.len() {
        false
    } else if a[from] == b[from] {
        path_le(a, b, from + 1)
    } else {
        text_le(a[from], b[from], 0)
    }
}

/// Every path of the run comes before, or equals, those behind it.
pub open spec fn ordered(paths: Seq<FilePath>) -> bool {
    forall|i: int, j: int|
        0 <= i < j < paths.len() ==> path_le((#[trigger] paths[i])@, (#[trigger] paths[j])@, 0)
}

/// Of two texts, one comes before the other or equals it.
pub proof fn lemma_text_le_total(a: Seq<char>, b: Seq<char>, from: int)
    requires
        0 <= from,
    ensures
        text_le(a, b, from) || text_le(b, a, from),
    decreases a.len() - from,
{
    if from < a.len() && from < b.len() && a[from] == b[from] {
        lemma_text_le_total(a, b, from + 1);
    }
}

/// Two texts that each come before the other or equal it are equal from
/// `from` on.
pub proof fn lemma_text_le_antisymmetric(a: Seq<char>, b: Seq<char>, from: int)
    requires
        0 <= from <= a.len(),
        from <= b.len(),
        text_le(a, b, from),
        text_le(b, a, from),
    ensures
        a.len() == b.len(),
        forall|k: int| from <= k < a.len() ==> a[k] == b[k],
    decreases a.len() - from,
{
    if from < a.len() && from < b.len() {
        assert(a[from] as int == b[from] as int);
        lemma_text_le_antisymmetric(a, b, from + 1);
    }
}

/// What comes before a text comes before everything behind that text.
pub proof fn lemma_text_le_transitive(a: Seq<char>, b: Seq<char>, c: Seq<char>, from: int)
    requires
        0 <= from,
        text_le(a, b, from),
        text_le(b, c, from),
    ensures
        text_le(a, c, from),
    decreases a.len() - from,
{
    if from < a.len() {
        if a[from] as int == b[from] as int && b[from] as int == c[from] as int {
            lemma_text_le_transitive(a, b, c, from + 1);
        }
    }
}

/// Of two paths, one comes before the other or equals it.
pub proof fn lemma_path_le_total(a: Seq<Seq<char>>, b: Seq<Seq<char>>, from: int)
    requires
        0 <= from,
    ensures
        path_le(a, b, from) || path_le(b, a, from),
    decreases a.len() - from,
{
    if from < a.len() && from < b.len() {
        if a[from] == b[from] {
            lemma_path_le_total(a, b, from + 1);
        } else {
            lemma_text_le_total(a[from], b[from], 0);
        }
    }
}

/// What comes before a path comes before everything behind that path.
pub proof fn lemma_path_le_transitive(
    a: Seq<Seq<char>>,
    b: Seq<Seq<char>>,
    c: Seq<Seq<char>>,
    from: int,
)
    requires
        0 <= from,
        path_le(a, b, from),
        path_le(b, c, from),
    ensures
        path_le(a, c, from),
    decreases a.len() - from,
{
    if from < a.len() {
        let x = a[from];
        let y = b[from];
        let z = c[from];
        if x == y && y == z {
            lemma_path_le_transitive(a, b, c, from + 1);
        } else if x == y || y == z {
        } else {
            lemma_text_le_transitive(x, y, z, 0);
            if x == z {
                lemma_text_le_antisymmetric(x, y, 0);
                assert(x =~= y);
            }
        }
    }
}

/// Whether the text `a` comes before the text `b` or equals it.
pub fn text_before_or_equal(a: &str, b: &str) -> (r: bool)
    ensures
        r == text_le(a@, b@, 0),
{
    let x = chars_of(a);
    let y = chars_of(b);
    let mut i: usize = 0;
    while i < x.len()
        invariant
            i <= x.len(),
            x@ == a@,
            y@ == b@,
            text_le(a@, b@, 0) == text_le(a@, b@, i as int),
        decreases x.len() - i,
    {
        if i >= y.len() {
            return false;
        }
        if x[i] < y[i] {
            return true;
        }
        if x[i] > y[i] {
            return false;
        }
        i += 1;
    }
    true
}

/// Whether the path `a` comes before the path `b` or equals it.
pub fn path_before_or_equal(a: &FilePath, b: &FilePath) -> (r: bool)
    ensures
        r == path_le(a@, b@, 0),
{
    let mut i: usize = 0;
    while i < a.parts.len()
        invariant
            i <= a.parts.len(),
            path_le(a@, b@, 0) == path_le(a@, b@, i as int),
        decreases a.parts.len() - i,
    {
        if i >= b.parts.len() {
            return false;
        }
        assert(a@[i as int] == a.parts@[i as int]@);
        assert(b@[i as int] == b.parts@[i as int]@);
        if a.parts[i] != b.parts[i] {
            return text_before_or_equal(a.parts[i].as_str(), b.parts[i].as_str());
        }
        i += 1;
    }
    true
}

/// Puts paths in order. The result holds the same paths, each as often as
/// it was given.
pub fn sort_paths(paths: Vec<FilePath>) -> (sorted: Vec<FilePath>)
    ensures
        sorted@.to_multiset() == paths@.to_multiset(),
        ordered(sorted@),
{
    let mut rest = paths;
    let mut sorted: Vec<FilePath> = Vec::new();
    assert(sorted@.to_multiset().add(rest@.to_multiset()) =~= paths@.to_multiset()) by {
        sorted@.to_multiset_ensures();
        assert(sorted@.to_multiset() =~= Multiset::empty());
    }
    while rest.len() > 0
        invariant
            sorted@.to_multiset().add(rest@.to_multiset()) == paths@.to_multiset(),
            ordered(sorted@),
        decreases rest.len(),
    {
        let ghost rest_before = rest@;
        let ghost sorted_before = sorted@;
        let x = rest.pop().unwrap();
        let mut at: usize = 0;
        while at < sorted.len() && path_before_or_equal(&sorted[at], &x)
            invariant
                at <= sorted.len(),
                sorted@ == sorted_before,
                forall|k: int| 0 <= k < at ==> path_le((#[trigger] sorted@[k])@, x@, 0),
            decreases sorted.len() - at,
        {
            at += 1;
        }
        sorted.insert(at, x);
        proof {
            assert(rest_before =~= rest@.push(x));
            vstd::seq_lib::to_multiset_build(rest@, x);
            vstd::seq_lib::to_multiset_insert(sorted_before, at as int, x);
            assert(sorted@.to_multiset().add(rest@.to_multiset()) =~= sorted_before.to_multiset().add(
                rest_before.to_multiset(),
            ));
            assert forall|i: int, j: int| 0 <= i < j < sorted@.len() implies path_le(
                (#[trigger] sorted@[i])@,
                (#[trigger] sorted@[j])@,
                0,
            ) by {
                if j < at {
                    assert(sorted@[i] == sorted_before[i]);
                    assert(sorted@[j] == sorted_before[j]);
                } else if j == at {
                    assert(sorted@[i] == sorted_before[i]);
                } else if i < at {
                    assert(sorted@[i] == sorted_before[i]);
                    assert(sorted@[j] == sorted_before[j - 1]);
                } else if i == at {
                    assert(sorted@[j] == sorted_before[j - 1]);
                    lemma_path_le_total(sorted_before[at as int]@, x@, 0);
                    if j - 1 > at {
                        lemma_path_le_transitive(
                            x@,
                            sorted_before[at as int]@,
                            sorted_before[j - 1]@,
                            0,
                        );
                    }
                } else {
                    assert(sorted@[i] == sorted_before[i - 1]);
                    assert(sorted@[j] == sorted_before[j - 1]);
                }
            }
        }
    }
    assert(rest@.to_multiset() =~= Multiset::empty()) by {
        rest@.to_multiset_ensures();
    }
    assert(sorted@.to_multiset().add(Multiset::empty()) =~= sorted@.to_multiset());
    sorted
}

} // verus!
