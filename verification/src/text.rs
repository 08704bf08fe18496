//! Decoding of the fixed-size, NUL-padded byte fields that kernel-side
//! probes hand up in their event records.

use vstd::prelude::*;

verus! {

/// What lossy UTF-8 decoding makes of a byte sequence. The decoding is a
/// function of the bytes alone; it is given a name rather than spelled out.
pub uninterp spec fn utf8_lossy(bytes: Seq<u8>) -> Seq<char>;

/// Relies on String::from_utf8_lossy: decodes the bytes as UTF-8, replacing
/// each invalid sequence with the replacement character; the result depends
/// on the bytes alone.
#[verifier::external_body]
fn decode_utf8_lossy(bytes: &[u8]) -> (s: String)
    ensures
        s@ == utf8_lossy(bytes@),
{
    String::from_utf8_lossy(bytes).into_owned()
}

/// The bytes before the first NUL — all of them if there is none.
pub open spec fn prefix_to_nul(s: Seq<u8>) -> Seq<u8>
    decreases s.len(),
{
    if s.len() == 0 {
        s
    } else if s[0] == 0 {
        Seq::empty()
    } else {
        seq![s[0]] + prefix_to_nul(s.drop_first())
    }
}

/// `prefix_to_nul` is the prefix up to the first NUL's position.
proof fn lemma_prefix_to_nul_take(s: Seq<u8>, i: int)
    requires
        0 <= i <= s.len(),
        forall|j: int| 0 <= j < i ==> s[j] != 0,
        i == s.len() || s[i] == 0,
    ensures
        prefix_to_nul(s) == s.take(i),
    decreases s.len(),
{
    if s.len() == 0 {
        assert(s.take(i) =~= s);
    } else if s[0] == 0 {
        assert(i == 0);
        assert(s.take(0) =~= Seq::<u8>::empty());
    } else {
        let t = s.drop_first();
        assert(i >= 1);
        assert(forall|j: int| 0 <= j < i - 1 ==> t[j] == s[j + 1] && s[j + 1] != 0);
        lemma_prefix_to_nul_take(t, i - 1);
        assert(s.take(i) =~= seq![s[0]] + t.take(i - 1));
    }
}

/// The printable content of a fixed-size byte field: the bytes before the
/// first NUL (or all of them, if no NUL occurs), decoded as UTF-8 with
/// invalid sequences replaced.
pub fn nul_terminated_text(x: &[u8]) -> (r: String)
    ensures
        r@ == utf8_lossy(prefix_to_nul(x@)),
{
    let n = x.len();
    let mut cut: usize = n;
    for i in 0..n
        invariant
            n == x@.len(),
            cut == n,
            forall|j: int| 0 <= j < i ==> x@[j] != 0,
    {
        if *vstd::slice::slice_index_get(x, i) == 0 {
            cut = i;
            proof {
                lemma_prefix_to_nul_take(x@, cut as int);
            }
            let head = vstd::slice::slice_subrange(x, 0, cut);
            proof {
                assert(head@ =~= x@.take(cut as int));
            }
            return decode_utf8_lossy(head);
        }
    }
    proof {
        lemma_prefix_to_nul_take(x@, n as int);
        assert(x@.subrange(0, n as int) =~= x@.take(n as int));
    }
    let whole = vstd::slice::slice_subrange(x, 0, n);
    decode_utf8_lossy(whole)
}

} // verus!
