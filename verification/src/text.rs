//! The order of texts, and how two texts are compared.

use vstd::prelude::*;
use vstd::string::is_ascii_spec_bytes;
use vstd::utf8::is_ascii_chars;

verus! {

/// True when `a` and `b` are the same up to place `k`, and there `a` ends or
/// has the character with the smaller code point: `k` is where the two part,
/// and `a` is the one that comes first in a dictionary.
pub open spec fn precedes_at(a: Seq<char>, b: Seq<char>, k: int) -> bool {
    &&& 0 <= k <= a.len()
    &&& k < b.len()
    &&& a.take(k) =~= b.take(k)
    &&& k == a.len() || a[k] < b[k]
}

/// Whether `a` comes before `b` in the order of a dictionary.
pub open spec fn precedes(a: Seq<char>, b: Seq<char>) -> bool {
    exists|k: int| precedes_at(a, b, k)
}

/// No text comes before itself.
pub proof fn lemma_precedes_is_strict(a: Seq<char>)
    ensures
        !precedes(a, a),
{
}

/// What comes before a text comes before all that the text comes before.
pub proof fn lemma_precedes_is_transitive(a: Seq<char>, b: Seq<char>, c: Seq<char>)
    requires
        precedes(a, b),
        precedes(b, c),
    ensures
        precedes(a, c),
{
    let i = choose|k: int| precedes_at(a, b, k);
    let j = choose|k: int| precedes_at(b, c, k);
    let k = if i <= j {
        i
    } else {
        j
    };
    if i < j {
        assert(c[i] == c.take(j)[i]);
    }
    if j < i {
        assert(b[j] == b.take(i)[j]);
    }
    assert(precedes_at(a, c, k));
}

/// How one text stands to another in the order of a dictionary.
#[derive(Clone, Copy, Debug)]
pub enum Standing {
    /// The one comes before the other.
    Before,
    /// The two are the same text.
    Same,
    /// The one comes after the other.
    After,
}

/// How `a` stands to `b`.
pub open spec fn standing(a: Seq<char>, b: Seq<char>) -> Standing {
    if a == b {
        Standing::Same
    } else if precedes(a, b) {
        Standing::Before
    } else {
        Standing::After
    }
}

/// Of two texts that are not the same, one comes before the other, and not
/// both do.
pub proof fn lemma_standing(a: Seq<char>, b: Seq<char>)
    ensures
        standing(a, b) is Before <==> precedes(a, b),
        standing(a, b) is After <==> precedes(b, a),
        standing(a, b) is Same <==> a == b,
{
    if precedes(a, b) && precedes(b, a) {
        lemma_precedes_is_transitive(a, b, a);
    }
    if a != b && !precedes(a, b) {
        lemma_parting(a, b, 0);
    }
}

/// Of two texts that are the same up to place `k`, and not the same
/// altogether, the second comes before the first unless the first comes
/// before the second.
proof fn lemma_parting(a: Seq<char>, b: Seq<char>, k: int)
    requires
        0 <= k <= a.len(),
        k <= b.len(),
        a.take(k) =~= b.take(k),
        a != b,
        !precedes(a, b),
    ensures
        precedes(b, a),
    decreases a.len() - k,
{
    if k == a.len() && k == b.len() {
        assert(a =~= a.take(k));
        assert(b =~= b.take(k));
    } else if k < a.len() && k < b.len() && a[k] == b[k] {
        lemma_parting(a, b, k + 1);
    } else if k == b.len() || (k < a.len() && a[k] > b[k]) {
        assert(precedes_at(b, a, k));
    } else {
        assert(precedes_at(a, b, k));
    }
}

/// Compares two texts that are written in ASCII, where a character is a
/// byte and the bytes go by the same order as the characters.
pub(crate) fn compare_ascii(a: &str, b: &str) -> (found: Standing)
    requires
        is_ascii_chars(a@),
        is_ascii_chars(b@),
    ensures
        found == standing(a@, b@),
{
    let x = a.as_bytes();
    let y = b.as_bytes();
    proof {
        is_ascii_spec_bytes(a);
        is_ascii_spec_bytes(b);
    }
    let mut i: usize = 0;
    while i < x.len() && i < y.len()
        invariant
            is_ascii_chars(a@),
            is_ascii_chars(b@),
            x@.len() == a@.len(),
            y@.len() == b@.len(),
            forall|j: int| 0 <= j < a@.len() ==> x@[j] == a@[j] as u8,
            forall|j: int| 0 <= j < b@.len() ==> y@[j] == b@[j] as u8,
            i <= a@.len(),
            i <= b@.len(),
            a@.take(i as int) =~= b@.take(i as int),
        decreases a@.len() - i,
    {
        if x[i] < y[i] {
            assert(precedes_at(a@, b@, i as int));
            return Standing::Before;
        }
        if x[i] > y[i] {
            proof {
                assert(precedes_at(b@, a@, i as int));
                lemma_standing(a@, b@);
            }
            return Standing::After;
        }
        i += 1;
    }
    if x.len() < y.len() {
        assert(precedes_at(a@, b@, i as int));
        Standing::Before
    } else if x.len() > y.len() {
        proof {
            assert(precedes_at(b@, a@, i as int));
            lemma_standing(a@, b@);
        }
        Standing::After
    } else {
        assert(a@ =~= a@.take(i as int));
        assert(b@ =~= b@.take(i as int));
        Standing::Same
    }
}

} // verus!
