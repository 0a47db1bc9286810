//! Helpers over byte strings and lists of byte strings.
//!
//! ALPN protocol names, DER-encoded certificates and private keys are all
//! carried as `Vec<u8>`; certificate chains and trust stores as
//! `Vec<Vec<u8>>`. These helpers give equality, membership and copying of
//! such values exact view-level contracts.

use vstd::prelude::*;

verus! {

use vstd::std_specs::cmp::PartialEqSpec;

/// A `Vec<u8>` and its deep view agree with its plain view.
pub proof fn lemma_bytes_deep_view(v: Vec<u8>)
    ensures
        v.deep_view() == v@,
{
    assert(v.deep_view() =~= v@);
}

/// Byte-string equality, stated over views.
pub fn bytes_eq(a: &Vec<u8>, b: &Vec<u8>) -> (r: bool)
    ensures
        r <==> a@ == b@,
{
    let r = a == b;
    proof {
        if r {
            assert(a@ =~= b@);
        } else {
            if a@ == b@ {
                assert(a.eq_spec(b));
            }
        }
    }
    r
}

/// Whether a list of byte strings holds the given byte string.
pub fn contains_bytes(list: &Vec<Vec<u8>>, x: &Vec<u8>) -> (r: bool)
    ensures
        r <==> list.deep_view().contains(x@),
{
    let n = list.len();
    let mut i: usize = 0;
    while i < n
        invariant
            n == list@.len(),
            0 <= i <= n,
            forall|j: int| 0 <= j < i ==> list.deep_view()[j] != x@,
        decreases n - i,
    {
        proof {
            lemma_bytes_deep_view(list@[i as int]);
        }
        if bytes_eq(&list[i], x) {
            assert(list.deep_view()[i as int] == x@);
            return true;
        }
        i += 1;
    }
    proof {
        assert forall|j: int| 0 <= j < list.deep_view().len() implies list.deep_view()[j]
            != x@ by {}
    }
    false
}

/// Whether a list of strings holds the given string.
pub fn contains_string(list: &Vec<String>, x: &String) -> (r: bool)
    ensures
        r <==> (exists|i: int| 0 <= i < list@.len() && list@[i]@ == x@),
{
    let n = list.len();
    let mut i: usize = 0;
    while i < n
        invariant
            n == list@.len(),
            0 <= i <= n,
            forall|j: int| 0 <= j < i ==> list@[j]@ != x@,
        decreases n - i,
    {
        if list[i] == *x {
            return true;
        }
        i += 1;
    }
    false
}

/// An exact copy of a byte string.
pub fn clone_bytes(v: &Vec<u8>) -> (r: Vec<u8>)
    ensures
        r@ == v@,
{
    let mut r: Vec<u8> = Vec::new();
    r.extend_from_slice(v.as_slice());
    proof {
        assert(r@ =~= v@);
    }
    r
}

/// An exact copy of a list of byte strings.
pub fn clone_byte_list(v: &Vec<Vec<u8>>) -> (r: Vec<Vec<u8>>)
    ensures
        r.deep_view() == v.deep_view(),
{
    let n = v.len();
    let mut r: Vec<Vec<u8>> = Vec::new();
    let mut i: usize = 0;
    while i < n
        invariant
            n == v@.len(),
            0 <= i <= n,
            r@.len() == i,
            forall|j: int| 0 <= j < i ==> r.deep_view()[j] == v.deep_view()[j],
        decreases n - i,
    {
        let c = clone_bytes(&v[i]);
        proof {
            lemma_bytes_deep_view(c);
            lemma_bytes_deep_view(v@[i as int]);
        }
        r.push(c);
        i += 1;
    }
    proof {
        assert(r.deep_view() =~= v.deep_view());
    }
    r
}

/// Append a copy of every byte string of `more` to `acc`.
pub fn append_byte_list(acc: &mut Vec<Vec<u8>>, more: &Vec<Vec<u8>>)
    ensures
        final(acc).deep_view() == old(acc).deep_view() + more.deep_view(),
{
    let n = more.len();
    let mut i: usize = 0;
    while i < n
        invariant
            n == more@.len(),
            0 <= i <= n,
            acc.deep_view() =~= old(acc).deep_view() + more.deep_view().take(i as int),
        decreases n - i,
    {
        let c = clone_bytes(&more[i]);
        proof {
            lemma_bytes_deep_view(c);
            lemma_bytes_deep_view(more@[i as int]);
        }
        let ghost pre = acc.deep_view();
        acc.push(c);
        proof {
            assert(acc.deep_view().len() == pre.len() + 1);
            assert forall|j: int| 0 <= j < acc.deep_view().len() implies acc.deep_view()[j] == (
            old(acc).deep_view() + more.deep_view().take(i as int + 1))[j] by {
                if j < pre.len() {
                    assert(acc.deep_view()[j] == pre[j]);
                } else {
                    assert(acc.deep_view()[j] == c.deep_view());
                }
            }
            assert(acc.deep_view() =~= old(acc).deep_view() + more.deep_view().take(
                i as int + 1,
            ));
        }
        i += 1;
    }
    proof {
        assert(more.deep_view().take(n as int) =~= more.deep_view());
        assert(acc.deep_view() =~= old(acc).deep_view() + more.deep_view());
    }
}

} // verus!
