//! Network addresses of clients, as integers.

use vstd::prelude::*;

verus! {

/// An IP address, held as the integer that its octets spell in network order.
#[derive(Clone, Copy, Debug, PartialEq, Eq, Structural, Hash)]
pub enum IpAddress {
    V4(u32),
    V6(u128),
}

/// The elements of `s` in the order of their first occurrence, each once.
pub open spec fn first_occurrences(s: Seq<IpAddress>) -> Seq<IpAddress>
    decreases s.len(),
{
    if s.len() == 0 {
        Seq::empty()
    } else {
        let front = first_occurrences(s.drop_last());
        if front.contains(s.last()) {
            front
        } else {
            front.push(s.last())
        }
    }
}

/// `first_occurrences` holds exactly the elements of its argument, without
/// repetition, and leaves a sequence without repetition as it is.
pub proof fn lemma_first_occurrences(s: Seq<IpAddress>)
    ensures
        first_occurrences(s).no_duplicates(),
        forall|a: IpAddress| first_occurrences(s).contains(a) <==> s.contains(a),
        first_occurrences(s).len() <= s.len(),
        s.no_duplicates() ==> first_occurrences(s) == s,
    decreases s.len(),
{
    if s.len() > 0 {
        let init = s.drop_last();
        lemma_first_occurrences(init);
        let front = first_occurrences(init);
        let out = first_occurrences(s);
        assert forall|a: IpAddress| out.contains(a) <==> s.contains(a) by {
            if s.contains(a) {
                let i = choose|i: int| 0 <= i < s.len() && s[i] == a;
                if i < s.len() - 1 {
                    assert(init[i] == a);
                    assert(init.contains(a));
                    assert(front.contains(a));
                    let j = choose|j: int| 0 <= j < front.len() && front[j] == a;
                    assert(out[j] == a);
                } else {
                    if front.contains(a) {
                    } else {
                        assert(out[out.len() - 1] == a);
                    }
                }
            }
            if out.contains(a) {
                let j = choose|j: int| 0 <= j < out.len() && out[j] == a;
                if j < front.len() {
                    assert(front[j] == a);
                    assert(front.contains(a));
                    assert(init.contains(a));
                    let i = choose|i: int| 0 <= i < init.len() && init[i] == a;
                    assert(s[i] == a);
                } else {
                    assert(s[s.len() - 1] == a);
                }
            }
        }
        if s.no_duplicates() {
            assert(init.no_duplicates());
            assert(front == init);
            if front.contains(s.last()) {
                let i = choose|i: int| 0 <= i < init.len() && init[i] == s.last();
                assert(s[i] == s[s.len() - 1]);
            }
            assert(out =~= s);
        }
    }
}

/// Whether `a` occurs in `list`.
pub fn contains_address(list: &Vec<IpAddress>, a: IpAddress) -> (found: bool)
    ensures
        found == list@.contains(a),
{
    let mut i: usize = 0;
    while i < list.len()
        invariant
            i <= list.len(),
            forall|k: int| 0 <= k < i ==> list@[k] != a,
        decreases list.len() - i,
    {
        if list[i] == a {
            return true;
        }
        i += 1;
    }
    false
}

/// Drops every repeated address, keeping the first occurrence of each.
pub fn distinct_addresses(list: &Vec<IpAddress>) -> (out: Vec<IpAddress>)
    ensures
        out@ == first_occurrences(list@),
        out@.no_duplicates(),
{
    let mut out: Vec<IpAddress> = Vec::new();
    let mut i: usize = 0;
    while i < list.len()
        invariant
            i <= list.len(),
            out@ == first_occurrences(list@.take(i as int)),
        decreases list.len() - i,
    {
        assert(list@.take(i + 1).drop_last() =~= list@.take(i as int));
        if !contains_address(&out, list[i]) {
            out.push(list[i]);
        }
        i += 1;
    }
    assert(list@.take(i as int) =~= list@);
    proof {
        lemma_first_occurrences(list@);
    }
    out
}

} // verus!
