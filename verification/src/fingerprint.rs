//! Content fingerprints of annotated items, and the internal names built from them.

use crate::decimal::{append_decimal, decimal, is_digit, lemma_decimal_digits, lemma_decimal_injective};
use vstd::prelude::*;

verus! {

/// The 128-bit XXH3 digest of a byte sequence, with the default secret and seed zero.
pub uninterp spec fn xxh3_128_digest(bytes: Seq<u8>) -> u128;

/// Calls `xxhash_rust::xxh3::xxh3_128`. The digest is a function of the input bytes
/// alone; nothing else is claimed of it.
#[verifier::external_body]
fn xxh3_128(bytes: &[u8]) -> (digest: u128)
    ensures
        digest == xxh3_128_digest(bytes@),
{
    xxhash_rust::xxh3::xxh3_128(bytes)
}

/// The fingerprint of an annotated item, computed from its serialized form.
pub fn fingerprint(serialized: &[u8]) -> (digest: u128)
    ensures
        digest == xxh3_128_digest(serialized@),
{
    xxh3_128(serialized)
}

/// The name under which a world-visible macro is declared: `macro_impl_`, the
/// fingerprint in decimal, an underscore, and the macro's own name.
pub open spec fn internal_name(fingerprint: u128, name: Seq<char>) -> Seq<char> {
    "macro_impl_"@ + decimal(fingerprint as nat) + seq!['_'] + name
}

/// Builds the internal name of the macro `name` with the given fingerprint.
pub fn make_internal_name(fingerprint: u128, name: &str) -> (s: String)
    ensures
        s@ == internal_name(fingerprint, name@),
{
    let mut s = String::from_str("macro_impl_");
    append_decimal(&mut s, fingerprint);
    proof {
        reveal_strlit("_");
    }
    s.append("_");
    s.append(name);
    assert(s@ =~= internal_name(fingerprint, name@));
    s
}

/// Internal names collide only where both the fingerprints and the names agree.
pub proof fn lemma_internal_name_injective(f1: u128, n1: Seq<char>, f2: u128, n2: Seq<char>)
    requires
        internal_name(f1, n1) == internal_name(f2, n2),
    ensures
        f1 == f2,
        n1 == n2,
{
    let p = "macro_impl_"@;
    let pl = p.len() as int;
    let l1 = decimal(f1 as nat).len() as int;
    let l2 = decimal(f2 as nat).len() as int;
    let d1 = decimal(f1 as nat);
    let d2 = decimal(f2 as nat);
    let s1 = internal_name(f1, n1);
    let s2 = internal_name(f2, n2);
    lemma_decimal_digits(f1 as nat);
    lemma_decimal_digits(f2 as nat);
    assert(!is_digit('_'));
    if d1.len() < d2.len() {
        assert(s1[pl + l1] == '_');
        assert(s2[pl + l1] == d2[l1]);
        assert(false);
    }
    if d2.len() < d1.len() {
        assert(s2[pl + l2] == '_');
        assert(s1[pl + l2] == d1[l2]);
        assert(false);
    }
    assert(d1 =~= d2) by {
        assert forall|i: int| 0 <= i < d1.len() implies d1[i] == d2[i] by {
            assert(s1[pl + i] == d1[i]);
            assert(s2[pl + i] == d2[i]);
        }
    }
    lemma_decimal_injective(f1 as nat, f2 as nat);
    assert(n1 =~= n2) by {
        assert(n1.len() == n2.len()) by {
            assert(s1.len() == p.len() + d1.len() + 1 + n1.len());
            assert(s2.len() == p.len() + d2.len() + 1 + n2.len());
        }
        assert forall|i: int| 0 <= i < n1.len() implies n1[i] == n2[i] by {
            assert(s1[pl + l1 + 1 + i] == n1[i]);
            assert(s2[pl + l2 + 1 + i] == n2[i]);
        }
    }
}

} // verus!
