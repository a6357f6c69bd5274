//! Lexicographic order on texts, character by character, each character
//! taken by its code point.

use vstd::prelude::*;

verus! {

/// `s` and `t` hold the same characters at every position before `k`.
pub open spec fn agree_before(s: Seq<char>, t: Seq<char>, k: int) -> bool {
    &&& 0 <= k <= s.len()
    &&& k <= t.len()
    &&& forall|j: int| 0 <= j < k ==> s[j] == t[j]
}

/// Position `k` decides that `s` comes before `t`: they agree before it,
/// and there `s` ends while `t` goes on, or `s` holds the smaller code
/// point.
pub open spec fn less_at(s: Seq<char>, t: Seq<char>, k: int) -> bool {
    &&& agree_before(s, t, k)
    &&& k < t.len()
    &&& k == s.len() || (k < s.len() && (s[k] as int) < (t[k] as int))
}

/// `s` comes before `t` in lexicographic order.
pub open spec fn lex_less(s: Seq<char>, t: Seq<char>) -> bool {
    exists|k: int| less_at(s, t, k)
}

/// How one text stands to another in lexicographic order.
#[derive(Clone, Copy, Debug, PartialEq, Eq, Structural)]
pub enum Standing {
    /// The first text comes before the second.
    Before,
    /// The two texts are the same.
    Same,
    /// The first text comes after the second.
    After,
}

/// Whether `a` has the smaller code point.
pub fn char_less(a: char, b: char) -> (r: bool)
    ensures
        r == ((a as int) < (b as int)),
{
    (a as u32) < (b as u32)
}

/// How `a` stands to `b` in lexicographic order: the first position at
/// which they differ decides, and a text comes before every longer text
/// that begins with it.
pub fn lex_standing(a: &Vec<char>, b: &Vec<char>) -> (r: Standing)
    ensures
        r == Standing::Before <==> lex_less(a@, b@),
        r == Standing::After <==> lex_less(b@, a@),
        r == Standing::Same <==> a@ == b@,
{
    proof {
        lemma_lex_irreflexive(a@);
        if lex_less(a@, b@) {
            lemma_lex_asymmetric(a@, b@);
        }
    }
    let mut i: usize = 0;
    while i < a.len() && i < b.len()
        invariant
            agree_before(a@, b@, i as int),
        decreases a@.len() - i,
    {
        if a[i] != b[i] {
            if char_less(a[i], b[i]) {
                assert(less_at(a@, b@, i as int));
                return Standing::Before;
            } else {
                assert(less_at(b@, a@, i as int));
                proof {
                    lemma_lex_asymmetric(b@, a@);
                }
                return Standing::After;
            }
        }
        i += 1;
    }
    if i < b.len() {
        assert(less_at(a@, b@, i as int));
        Standing::Before
    } else if i < a.len() {
        assert(less_at(b@, a@, i as int));
        proof {
            lemma_lex_asymmetric(b@, a@);
        }
        Standing::After
    } else {
        assert(a@ =~= b@);
        Standing::Same
    }
}

/// No text comes before itself.
pub proof fn lemma_lex_irreflexive(s: Seq<char>)
    ensures
        !lex_less(s, s),
{
}

/// Of two texts at most one comes before the other.
pub proof fn lemma_lex_asymmetric(s: Seq<char>, t: Seq<char>)
    requires
        lex_less(s, t),
    ensures
        !lex_less(t, s),
{
    let k = choose|k: int| less_at(s, t, k);
    if lex_less(t, s) {
        let m = choose|m: int| less_at(t, s, m);
        if k < m {
            assert(t[k] == s[k]);
        } else if m < k {
            assert(s[m] == t[m]);
        }
    }
}

/// The order is transitive.
pub proof fn lemma_lex_transitive(s: Seq<char>, t: Seq<char>, u: Seq<char>)
    requires
        lex_less(s, t),
        lex_less(t, u),
    ensures
        lex_less(s, u),
{
    let k = choose|k: int| less_at(s, t, k);
    let m = choose|m: int| less_at(t, u, m);
    let n = if k < m {
        k
    } else {
        m
    };
    assert forall|j: int| 0 <= j < n implies s[j] == u[j] by {
        assert(s[j] == t[j]);
        assert(t[j] == u[j]);
    }
    if k < m {
        assert(t[k] == u[k]);
    } else if m < k {
        assert(s[m] == t[m]);
    }
    assert(less_at(s, u, n));
}

/// Two texts that agree before `k` are equal, or one comes before the
/// other.
pub proof fn lemma_lex_total_from(s: Seq<char>, t: Seq<char>, k: int)
    requires
        agree_before(s, t, k),
    ensures
        s == t || lex_less(s, t) || lex_less(t, s),
    decreases s.len() - k,
{
    if k == s.len() && k == t.len() {
        assert(s =~= t);
    } else if k == s.len() {
        assert(less_at(s, t, k));
    } else if k == t.len() {
        assert(less_at(t, s, k));
    } else if s[k] == t[k] {
        lemma_lex_total_from(s, t, k + 1);
    } else if (s[k] as int) < (t[k] as int) {
        assert(less_at(s, t, k));
    } else {
        assert(less_at(t, s, k));
    }
}

/// The order is total: two texts are equal, or one comes before the other.
pub proof fn lemma_lex_total(s: Seq<char>, t: Seq<char>)
    ensures
        s == t || lex_less(s, t) || lex_less(t, s),
{
    lemma_lex_total_from(s, t, 0);
}

} // verus!
