//! The Internet checksum of RFC 1071: the ones'-complement of the
//! ones'-complement sum of the buffer read as big-endian 16-bit words,
//! an odd trailing byte padded with zero on the low side.

use vstd::arithmetic::div_mod::{
    lemma_fundamental_div_mod, lemma_mod_multiples_vanish, lemma_small_mod,
};
use vstd::prelude::*;

verus! {

/// The 16-bit word that starts at byte `i`, as a number: the byte at
/// `i` is the high half; a missing low byte counts as zero.
pub open spec fn word_at(s: Seq<u8>, i: int) -> nat {
    if i + 1 < s.len() {
        (s[i] as nat) * 256 + (s[i + 1] as nat)
    } else {
        (s[i] as nat) * 256
    }
}

/// Plain sum of the 16-bit words of `s` from byte position `i` on.
pub open spec fn words_sum_from(s: Seq<u8>, i: int) -> nat
    decreases s.len() - i + 2,
{
    if i < s.len() {
        word_at(s, i) + words_sum_from(s, i + 2)
    } else {
        0
    }
}

/// Plain sum of all the 16-bit words of `s`.
pub open spec fn words_sum(s: Seq<u8>) -> nat {
    words_sum_from(s, 0)
}

/// Folds the carries of a word sum back in until the value fits in 16
/// bits: the ones'-complement sum.
pub open spec fn oc_fold(s: nat) -> nat
    decreases s,
    via oc_fold_decreases
{
    if s <= 0xFFFF {
        s
    } else {
        oc_fold((s / 0x10000) + (s % 0x10000))
    }
}

#[via_fn]
proof fn oc_fold_decreases(s: nat) {
    if s > 0xFFFF {
        lemma_fundamental_div_mod(s as int, 0x10000);
        vstd::arithmetic::div_mod::lemma_div_non_zero(s as int, 0x10000);
    }
}

/// The checksum itself: the complement of the folded word sum.
pub open spec fn checksum_of(s: Seq<u8>) -> u16 {
    (0xFFFF - oc_fold(words_sum(s))) as u16
}

/// The folded sum in closed form: zero only for zero, otherwise the
/// residue modulo 0xFFFF with 0xFFFF standing in for a residue of zero.
pub open spec fn oc_fold_closed(s: nat) -> nat {
    if s == 0 {
        0
    } else if s % 0xFFFF == 0 {
        0xFFFF
    } else {
        s % 0xFFFF
    }
}

/// The recursive fold and its closed form agree; the fold therefore
/// never exceeds 0xFFFF, keeps the residue modulo 0xFFFF, and is zero
/// exactly on zero.
pub proof fn lemma_oc_fold_closed(s: nat)
    ensures
        oc_fold(s) == oc_fold_closed(s),
        oc_fold(s) <= 0xFFFF,
        oc_fold(s) % 0xFFFF == s % 0xFFFF,
        oc_fold(s) == 0 <==> s == 0,
    decreases s,
{
    if s <= 0xFFFF {
        if s < 0xFFFF {
            lemma_small_mod(s, 0xFFFF);
        }
    } else {
        let q = s / 0x10000;
        let r = s % 0x10000;
        lemma_fundamental_div_mod(s as int, 0x10000);
        vstd::arithmetic::div_mod::lemma_div_non_zero(s as int, 0x10000);
        // s == 0x10000 * q + r == 0xFFFF * q + (q + r)
        lemma_mod_multiples_vanish(q as int, (q + r) as int, 0xFFFF);
        assert(s % 0xFFFF == (q + r) % 0xFFFF);
        lemma_oc_fold_closed((q + r) as nat);
    }
    if 0 < s % 0xFFFF {
        lemma_small_mod((s % 0xFFFF) as nat, 0xFFFF);
    }
}

/// Taking one end-around carry out of a summand does not change the
/// folded total.
proof fn lemma_oc_fold_carry(x: nat, r: nat)
    requires
        x > 0xFFFF,
    ensures
        oc_fold(((x - 0xFFFF) + r) as nat) == oc_fold((x + r) as nat),
{
    let a = ((x - 0xFFFF) + r) as nat;
    let b = (x + r) as nat;
    lemma_oc_fold_closed(a);
    lemma_oc_fold_closed(b);
    lemma_mod_multiples_vanish(1, a as int, 0xFFFF);
    assert(a % 0xFFFF == b % 0xFFFF);
}

/// Two buffers of one length that agree from byte `i` on have the
/// same word sum from `i` on.
pub proof fn lemma_words_sum_from_agree(s: Seq<u8>, t: Seq<u8>, i: int)
    requires
        s.len() == t.len(),
        forall|k: int| i <= k < s.len() ==> s[k] == t[k],
    ensures
        words_sum_from(s, i) == words_sum_from(t, i),
    decreases s.len() - i + 2,
{
    if i < s.len() {
        lemma_words_sum_from_agree(s, t, i + 2);
    }
}

/// Computes the RFC 1071 Internet checksum of `data`.
pub fn compute_checksum(data: &[u8]) -> (r: u16)
    ensures
        r == checksum_of(data@),
{
    let ghost total: nat = words_sum(data@);
    let mut acc: u32 = 0;
    let mut i: usize = 0;
    while i < data.len()
        invariant
            i <= data.len(),
            acc <= 0xFFFF,
            oc_fold(acc as nat + words_sum_from(data@, i as int)) == oc_fold(total),
            total == words_sum(data@),
        decreases data.len() - i,
    {
        let ghost acc0: nat = acc as nat;
        let ghost rest: nat = words_sum_from(data@, i as int + 2);
        let hi: u32 = data[i] as u32;
        let w: u32 = if i + 1 < data.len() {
            hi * 256 + (data[i + 1] as u32)
        } else {
            hi * 256
        };
        proof {
            assert(w as nat == word_at(data@, i as int));
            assert(words_sum_from(data@, i as int) == word_at(data@, i as int) + rest);
        }
        acc = acc + w;
        if acc > 0xFFFF {
            acc = (acc - 0x10000) + 1;
            proof {
                lemma_oc_fold_carry((acc0 + w) as nat, rest);
            }
        }
        if i + 1 < data.len() {
            i = i + 2;
        } else {
            i = data.len();
        }
        proof {
            assert(words_sum_from(data@, data.len() as int) == 0);
        }
    }
    proof {
        assert(words_sum_from(data@, i as int) == 0);
        assert(oc_fold(acc as nat) == acc as nat);
        lemma_oc_fold_closed(total);
    }
    (0xFFFF - acc) as u16
}

} // verus!
