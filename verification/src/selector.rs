//! Correlation selectors.
//!
//! Before a worker is spawned, its asset id is stamped onto the placeholder
//! element as the value of the correlation attribute. A finalizer later
//! locates its placeholder with a CSS selector built solely from that id and
//! the element kind. Distinct ids are proved to give distinct selectors, so
//! finalizers can never address each other's nodes.

use vstd::prelude::*;
use vstd::string::*;
use crate::digits::{dec_seq, lemma_dec_seq_injective, u64_to_dec};

verus! {

/// The selector that addresses the link placeholder stamped with `id`.
pub open spec fn link_selector_seq(id: nat) -> Seq<char> {
    "link[data-trunk-id=\""@ + dec_seq(id) + "\"]"@
}

/// The selector that addresses the script placeholder stamped with `id`.
pub open spec fn script_selector_seq(id: nat) -> Seq<char> {
    "script[data-trunk-id=\""@ + dec_seq(id) + "\"]"@
}

/// Create the CSS selector for selecting a trunk link by ID.
pub fn trunk_id_selector(id: usize) -> (r: String)
    ensures
        r@ == link_selector_seq(id as nat),
{
    let mut s = String::from_str("link[data-trunk-id=\"");
    let digits = u64_to_dec(id as u64);
    s.append(digits.as_str());
    s.append("\"]");
    s
}

/// Create the CSS selector for selecting a trunk script by ID.
pub fn trunk_script_id_selector(id: usize) -> (r: String)
    ensures
        r@ == script_selector_seq(id as nat),
{
    let mut s = String::from_str("script[data-trunk-id=\"");
    let digits = u64_to_dec(id as u64);
    s.append(digits.as_str());
    s.append("\"]");
    s
}

proof fn lemma_concat_middle_injective(p: Seq<char>, m1: Seq<char>, m2: Seq<char>, s: Seq<char>)
    requires
        p + m1 + s == p + m2 + s,
    ensures
        m1 == m2,
{
    assert((p + m1 + s).len() == p.len() + m1.len() + s.len());
    assert((p + m2 + s).len() == p.len() + m2.len() + s.len());
    assert(m1.len() == m2.len());
    assert forall|k: int| 0 <= k < m1.len() implies m1[k] == m2[k] by {
        assert((p + m1 + s)[p.len() + k] == m1[k]);
        assert((p + m2 + s)[p.len() + k] == m2[k]);
    }
    assert(m1 =~= m2);
}

/// Two link placeholders with distinct ids have distinct selectors.
pub proof fn lemma_link_selector_injective(i: nat, j: nat)
    requires
        link_selector_seq(i) == link_selector_seq(j),
    ensures
        i == j,
{
    lemma_concat_middle_injective("link[data-trunk-id=\""@, dec_seq(i), dec_seq(j), "\"]"@);
    lemma_dec_seq_injective(i, j);
}

/// Two script placeholders with distinct ids have distinct selectors.
pub proof fn lemma_script_selector_injective(i: nat, j: nat)
    requires
        script_selector_seq(i) == script_selector_seq(j),
    ensures
        i == j,
{
    lemma_concat_middle_injective("script[data-trunk-id=\""@, dec_seq(i), dec_seq(j), "\"]"@);
    lemma_dec_seq_injective(i, j);
}

/// A link selector never equals a script selector, whatever the two ids.
pub proof fn lemma_selector_kinds_distinct(i: nat, j: nat)
    ensures
        link_selector_seq(i) != script_selector_seq(j),
{
    reveal_strlit("link[data-trunk-id=\"");
    reveal_strlit("script[data-trunk-id=\"");
    assert(link_selector_seq(i)[0] == 'l');
    assert(script_selector_seq(j)[0] == 's');
}

} // verus!
