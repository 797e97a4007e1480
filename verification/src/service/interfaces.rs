//! Which interfaces are shown to clients, in what order, and which are
//! leftovers of this service to be removed.

use vstd::prelude::*;
use crate::net::link::Link;
use crate::service::mac::{is_managed_macvlan_name, is_managed_name};
use crate::text::str_eq;

verus! {

broadcast use vstd::seq_lib::group_seq_properties, vstd::multiset::group_multiset_axioms;

/// Whether `l` is the loopback interface.
pub open spec fn is_loopback(l: Link) -> bool {
    l.name@ == "lo"@
}

/// Whether `l` is shown to clients: every interface but this service's
/// temporary ones.
pub open spec fn is_shown(l: Link) -> bool {
    !is_managed_name(l.name@)
}

/// The listing order: loopback last, otherwise by kernel index.
pub open spec fn listed_before(a: Link, b: Link) -> bool {
    ||| !is_loopback(a) && is_loopback(b)
    ||| is_loopback(a) == is_loopback(b) && a.index <= b.index
}

/// Whether `s` is in listing order.
pub open spec fn in_listing_order(s: Seq<Link>) -> bool {
    forall|i: int, j: int| 0 <= i < j < s.len() ==> listed_before(#[trigger] s[i], #[trigger] s[j])
}

fn goes_before(a: &Link, b: &Link) -> (r: bool)
    ensures
        r == listed_before(*a, *b),
{
    let a_lo = str_eq(a.name.as_str(), "lo");
    let b_lo = str_eq(b.name.as_str(), "lo");
    (!a_lo && b_lo) || (a_lo == b_lo && a.index <= b.index)
}

/// Every interface is either shown to clients or swept as a leftover, never
/// both: the shown and the stale interfaces together are all of them.
pub proof fn lemma_listing_and_sweep_partition(links: Seq<Link>)
    ensures
        links.filter(|l: Link| is_shown(l)).len() + links.filter(|l: Link| !is_shown(l)).len() == links.len(),
    decreases links.len(),
{
    let shown = |l: Link| is_shown(l);
    let stale = |l: Link| !is_shown(l);
    if links.len() > 0 {
        let init = links.drop_last();
        lemma_listing_and_sweep_partition(init);
        assert(init.push(links.last()) =~= links);
        init.lemma_filter_push(links.last(), shown);
        init.lemma_filter_push(links.last(), stale);
    } else {
        assert(links.filter(shown) =~= Seq::<Link>::empty());
        assert(links.filter(stale) =~= Seq::<Link>::empty());
    }
}

/// `r` is `s` rearranged by `p`: position `i` of `r` holds element `p[i]` of
/// `s`, and no element of `s` is used twice.
pub open spec fn rearranged_by(r: Seq<Link>, s: Seq<Link>, p: Seq<int>) -> bool {
    &&& p.len() == r.len() == s.len()
    &&& forall|i: int| 0 <= i < p.len() ==> 0 <= #[trigger] p[i] < s.len() && r[i] == s[p[i]]
    &&& forall|i: int, j: int| 0 <= i < j < p.len() ==> #[trigger] p[i] != #[trigger] p[j]
}

/// Under the rearrangement `p`, links that the listing order does not tell
/// apart keep their relative order.
pub open spec fn keeps_ties_in_order(r: Seq<Link>, p: Seq<int>) -> bool {
    forall|i: int, j: int| 0 <= i < j < r.len() && listed_before(#[trigger] r[j], #[trigger] r[i]) ==> p[i] < p[j]
}

/// The interfaces shown to clients: the temporary ones are left out and the
/// rest are put in listing order, links that the order does not tell apart
/// staying as they came.
pub fn visible_interfaces(links: Vec<Link>) -> (r: Vec<Link>)
    ensures
        in_listing_order(r@),
        r@.to_multiset() == links@.filter(|l: Link| is_shown(l)).to_multiset(),
        exists|p: Seq<int>| rearranged_by(r@, links@.filter(|l: Link| is_shown(l)), p) && keeps_ties_in_order(r@, p),
{
    let ghost orig = links@;
    let ghost shown = |l: Link| is_shown(l);
    let mut rest = links;
    let mut out: Vec<Link> = Vec::new();
    let mut k: usize = 0;
    let n = rest.len();
    let ghost mut perm: Seq<int> = Seq::empty();
    assert(orig.take(0).filter(shown) =~= Seq::<Link>::empty());
    while k < n
        invariant
            n == orig.len(),
            shown == (|l: Link| is_shown(l)),
            k <= n,
            rest@ == orig.subrange(k as int, n as int),
            in_listing_order(out@),
            out@.to_multiset() == orig.take(k as int).filter(shown).to_multiset(),
            rearranged_by(out@, orig.take(k as int).filter(shown), perm),
            keeps_ties_in_order(out@, perm),
        decreases n - k,
    {
        let ghost before = out@;
        let ghost kept = orig.take(k as int).filter(shown);
        let ghost before_perm = perm;
        let x = rest.remove(0);
        assert(orig.take(k as int + 1) =~= orig.take(k as int).push(x));
        proof {
            orig.take(k as int).lemma_filter_push(x, shown);
        }
        assert(rest@ =~= orig.subrange(k as int + 1, n as int));
        if !is_managed_macvlan_name(x.name.as_str()) {
            let mut pos: usize = 0;
            while pos < out.len() && goes_before(&out[pos], &x)
                invariant
                    out@ == before,
                    pos <= out.len(),
                    forall|i: int| 0 <= i < pos ==> listed_before(#[trigger] out@[i], x),
                decreases out.len() - pos,
            {
                pos = pos + 1;
            }
            proof {
                if pos < before.len() {
                    assert(!listed_before(before[pos as int], x));
                }
            }
            out.insert(pos, x);
            proof {
                vstd::seq_lib::to_multiset_insert(before, pos as int, x);
                vstd::seq_lib::to_multiset_build(orig.take(k as int).filter(shown), x);
                assert(out@.to_multiset() == orig.take(k as int + 1).filter(shown).to_multiset());
                let m = kept.len() as int;
                perm = before_perm.insert(pos as int, m);
                let kept2 = kept.push(x);
                assert(kept2 == orig.take(k as int + 1).filter(shown));
                assert forall|i: int| 0 <= i < perm.len() implies 0 <= #[trigger] perm[i] < kept2.len()
                    && out@[i] == kept2[perm[i]] by {
                    if i < pos {
                        assert(perm[i] == before_perm[i]);
                    } else if i > pos {
                        assert(perm[i] == before_perm[i - 1]);
                    }
                }
                assert forall|i: int, j: int| 0 <= i < j < perm.len() implies #[trigger] perm[i] != #[trigger] perm[j] by {
                    if i < pos && j < pos {
                        assert(perm[i] == before_perm[i] && perm[j] == before_perm[j]);
                    } else if i < pos && j > pos {
                        assert(perm[i] == before_perm[i] && perm[j] == before_perm[j - 1]);
                    } else if i > pos && j > pos {
                        assert(perm[i] == before_perm[i - 1] && perm[j] == before_perm[j - 1]);
                    } else if i == pos {
                        assert(perm[j] == before_perm[j - 1]);
                    } else {
                        assert(perm[i] == before_perm[i]);
                    }
                }
                assert forall|i: int, j: int| 0 <= i < j < out@.len() && listed_before(#[trigger] out@[j], #[trigger] out@[i])
                    implies perm[i] < perm[j] by {
                    if j < pos {
                        assert(perm[i] == before_perm[i] && perm[j] == before_perm[j]);
                    } else if j == pos {
                        assert(perm[i] == before_perm[i]);
                    } else if i < pos {
                        assert(perm[i] == before_perm[i] && perm[j] == before_perm[j - 1]);
                        assert(out@[i] == before[i] && out@[j] == before[j - 1]);
                    } else if i == pos {
                        assert(!listed_before(before[pos as int], x));
                        assert(listed_before(before[pos as int], before[j - 1]) || pos == j - 1);
                    } else {
                        assert(perm[i] == before_perm[i - 1] && perm[j] == before_perm[j - 1]);
                        assert(out@[i] == before[i - 1] && out@[j] == before[j - 1]);
                    }
                }
                assert forall|i: int, j: int| 0 <= i < j < out@.len() implies listed_before(
                    #[trigger] out@[i],
                    #[trigger] out@[j],
                ) by {
                    if j < pos {
                    } else if j == pos {
                    } else if i < pos {
                        assert(listed_before(before[i], x));
                        assert(!listed_before(before[pos as int], x));
                        assert(listed_before(before[pos as int], before[j - 1]) || pos == j - 1);
                    } else if i == pos {
                        assert(!listed_before(before[pos as int], x));
                        assert(listed_before(before[pos as int], before[j - 1]) || pos == j - 1);
                    } else {
                        assert(listed_before(before[i - 1], before[j - 1]));
                    }
                }
            }
        } else {
            assert(orig.take(k as int + 1).filter(shown) == orig.take(k as int).filter(shown));
        }
        k = k + 1;
    }
    assert(orig.take(n as int) =~= orig);
    assert(rearranged_by(out@, links@.filter(|l: Link| is_shown(l)), perm));
    out
}

/// The names of this service's temporary interfaces among `links`, in the
/// order listed: the leftovers to remove before creating a new one.
pub fn stale_interfaces(links: &Vec<Link>) -> (r: Vec<String>)
    ensures
        r@.map_values(|s: String| s@) == links@.filter(|l: Link| !is_shown(l)).map_values(|l: Link| l.name@),
{
    let ghost stale = |l: Link| !is_shown(l);
    let mut out: Vec<String> = Vec::new();
    let mut k: usize = 0;
    while k < links.len()
        invariant
            k <= links.len(),
            stale == (|l: Link| !is_shown(l)),
            out@.map_values(|s: String| s@) == links@.take(k as int).filter(stale).map_values(|l: Link| l.name@),
        decreases links.len() - k,
    {
        let ghost before = out@;
        assert(links@.take(k as int + 1) =~= links@.take(k as int).push(links@[k as int]));
        proof {
            links@.take(k as int).lemma_filter_push(links@[k as int], stale);
        }
        if is_managed_macvlan_name(links[k].name.as_str()) {
            let name = links[k].name.clone();
            assert(name@ == links@[k as int].name@);
            out.push(name);
            assert(out@.map_values(|s: String| s@) =~= before.map_values(|s: String| s@).push(links@[k as int].name@));
            assert(links@.take(k as int).filter(stale).push(links@[k as int]).map_values(|l: Link| l.name@)
                =~= links@.take(k as int).filter(stale).map_values(|l: Link| l.name@).push(links@[k as int].name@));
        }
        k = k + 1;
    }
    assert(links@.take(links.len() as int) =~= links@);
    out
}

} // verus!
