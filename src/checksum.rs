//! The Internet checksum (one's complement of the one's-complement sum of
//! 16-bit big-endian words) and the fix-up that writes it into an ICMP header.
use vstd::arithmetic::div_mod::{lemma_add_mod_noop, lemma_mod_multiples_vanish};
use vstd::prelude::*;

verus! {

/// The 16-bit big-endian word that starts at byte `2 * i`; a final odd byte is
/// padded with a zero low byte.
pub open spec fn word_at(b: Seq<u8>, i: nat) -> nat {
    let hi = b[2 * i as int] as nat;
    let lo: nat = if 2 * i + 1 < b.len() {
        b[2 * i + 1 as int] as nat
    } else {
        0
    };
    hi * 256 + lo
}

/// Number of 16-bit words in `b`, counting a final odd byte as one.
pub open spec fn word_count(b: Seq<u8>) -> nat {
    (b.len() + 1) / 2
}

/// Sum of the first `k` words of `b`.
pub open spec fn words_sum(b: Seq<u8>, k: nat) -> nat
    decreases k,
{
    if k == 0 {
        0
    } else {
        words_sum(b, (k - 1) as nat) + word_at(b, (k - 1) as nat)
    }
}

#[via_fn]
proof fn fold_carries_decreases(s: nat) {
    if s >= 0x10000 {
        assert(s % 0x10000 + s / 0x10000 < s);
    }
}

/// Folds everything above bit 15 back into the low 16 bits until no carry remains.
pub open spec fn fold_carries(s: nat) -> nat
    decreases s,
    via fold_carries_decreases
{
    if s < 0x10000 {
        s
    } else {
        fold_carries(s % 0x10000 + s / 0x10000)
    }
}

/// The Internet checksum of `b`.
pub open spec fn internet_checksum(b: Seq<u8>) -> u16 {
    (0xFFFF - fold_carries(words_sum(b, word_count(b)))) as u16
}

/// `b` with the 16-bit field at bytes `k` and `k + 1` set to zero.
pub open spec fn zero_field_at(b: Seq<u8>, k: int) -> Seq<u8> {
    b.update(k, 0).update(k + 1, 0)
}

/// `b` with the checksum of `zero_field_at(b, k)` written big-endian into
/// bytes `k` and `k + 1`.
pub open spec fn with_checksum_at(b: Seq<u8>, k: int) -> Seq<u8> {
    let c = internet_checksum(zero_field_at(b, k));
    b.update(k, (c / 256) as u8).update(k + 1, (c % 256) as u8)
}

/// `b` with its ICMP checksum field (bytes 2 and 3) set to zero.
pub open spec fn zero_checksum_field(b: Seq<u8>) -> Seq<u8> {
    zero_field_at(b, 2)
}

/// `b` with the checksum of `zero_checksum_field(b)` written big-endian into
/// bytes 2 and 3.
pub open spec fn with_checksum(b: Seq<u8>) -> Seq<u8> {
    with_checksum_at(b, 2)
}

/// The value of the one's-complement sum `s` once all carries are folded:
/// 0 for 0, and otherwise the representative of `s` modulo 65535 in 1..=65535.
spec fn end_around(s: nat) -> nat {
    if s == 0 {
        0
    } else {
        ((s - 1) as int % 65535 + 1) as nat
    }
}

proof fn lemma_end_around_small(s: nat)
    requires
        s <= 0xFFFF,
    ensures
        end_around(s) == s,
{
}

proof fn lemma_end_around_fold_step(s: nat)
    ensures
        end_around(s % 0x10000 + s / 0x10000) == end_around(s),
{
    let q = s / 0x10000;
    let r = s % 0x10000;
    assert(s == 0x10000 * q + r);
    if s > 0 {
        assert(q + r > 0);
        lemma_mod_multiples_vanish(q as int, (q + r - 1) as int, 65535);
        assert((s - 1) as int == 65535 * q + (q + r - 1));
    }
}

proof fn lemma_end_around_add(a: nat, b: nat, w: nat)
    requires
        end_around(a) == end_around(b),
    ensures
        end_around(a + w) == end_around(b + w),
{
    if a > 0 && b > 0 {
        lemma_add_mod_noop((a - 1) as int, w as int, 65535);
        lemma_add_mod_noop((b - 1) as int, w as int, 65535);
        assert(((a - 1) as int) % 65535 == ((b - 1) as int) % 65535);
        assert(((a + w - 1) as int) == (a - 1) as int + w);
        assert(((b + w - 1) as int) == (b - 1) as int + w);
    }
}

proof fn lemma_fold_carries_end_around(s: nat)
    ensures
        fold_carries(s) == end_around(s),
    decreases s,
{
    if s < 0x10000 {
        lemma_end_around_small(s);
    } else {
        lemma_fold_carries_end_around(s % 0x10000 + s / 0x10000);
        lemma_end_around_fold_step(s);
    }
}

/// Computes the Internet checksum of `packet`.
pub fn compute_checksum(packet: &[u8]) -> (r: u16)
    ensures
        r == internet_checksum(packet@),
{
    let n = packet.len();
    let words: usize = n / 2 + n % 2;
    assert(words == word_count(packet@));
    let mut sum: u64 = 0;
    let mut i: usize = 0;
    while i < words
        invariant
            n == packet@.len(),
            words == word_count(packet@),
            i <= words,
            sum <= 0x10000,
            end_around(sum as nat) == end_around(words_sum(packet@, i as nat)),
        decreases words - i,
    {
        let hi = packet[2 * i] as u64;
        let lo: u64 = if 2 * i + 1 < n {
            packet[2 * i + 1] as u64
        } else {
            0
        };
        let word = hi * 256 + lo;
        assert(word == word_at(packet@, i as nat));
        proof {
            lemma_end_around_add(sum as nat, words_sum(packet@, i as nat), word as nat);
        }
        sum = sum + word;
        if sum > 0xFFFF {
            let s = sum;
            assert(s & 0xFFFF == s % 0x10000) by (bit_vector);
            assert(s >> 16 == s / 0x10000) by (bit_vector);
            proof {
                lemma_end_around_fold_step(s as nat);
            }
            sum = (sum & 0xFFFF) + (sum >> 16);
        }
        i = i + 1;
    }
    if sum > 0xFFFF {
        let s = sum;
        assert(s & 0xFFFF == s % 0x10000) by (bit_vector);
        assert(s >> 16 == s / 0x10000) by (bit_vector);
        proof {
            lemma_end_around_fold_step(s as nat);
        }
        sum = (sum & 0xFFFF) + (sum >> 16);
    }
    proof {
        lemma_end_around_small(sum as nat);
        lemma_fold_carries_end_around(words_sum(packet@, words as nat));
    }
    let folded = sum;
    assert(!(folded as u16) == (0xFFFF - folded) as u16) by (bit_vector)
        requires
            folded <= 0xFFFF,
    ;
    !(sum as u16)
}


/// Overwrites the checksum field (bytes 2 and 3) of an ICMP message with the
/// checksum of the message, computed with that field set to zero.
pub fn checksum_fixup(buf: &mut Vec<u8>)
    requires
        old(buf)@.len() >= 4,
    ensures
        final(buf)@ == with_checksum(old(buf)@),
{
    buf[2] = 0;
    buf[3] = 0;
    assert(buf@ == zero_checksum_field(old(buf)@));
    let c = compute_checksum(buf.as_slice());
    assert((c >> 8) as u8 == c / 256) by (bit_vector);
    assert(c as u8 == c % 256) by (bit_vector);
    buf[2] = (c >> 8) as u8;
    buf[3] = c as u8;
    assert(buf@ =~= with_checksum(old(buf)@));
}

/// Where `a` and `b` differ in at most word `j`, their sums of the first `k`
/// words differ by exactly the change of that word.
proof fn lemma_words_sum_one_word(a: Seq<u8>, b: Seq<u8>, j: nat, k: nat)
    requires
        forall|i: nat| i < k && i != j ==> #[trigger] word_at(a, i) == word_at(b, i),
    ensures
        words_sum(b, k) + (if j < k { word_at(a, j) } else { 0 }) == words_sum(a, k) + (if j < k {
            word_at(b, j)
        } else {
            0
        }),
    decreases k,
{
    if k > 0 {
        lemma_words_sum_one_word(a, b, j, (k - 1) as nat);
    }
}

/// Writing the checksum of a message into any 16-bit-aligned field of it,
/// computed with that field set to zero, makes the checksum of the whole
/// message zero: the standard check accepts it.
pub proof fn lemma_checksum_field_validates(b: Seq<u8>, k: int)
    requires
        0 <= k,
        k % 2 == 0,
        k + 1 < b.len(),
    ensures
        internet_checksum(with_checksum_at(b, k)) == 0,
{
    let z = zero_field_at(b, k);
    let w = with_checksum_at(b, k);
    let j = (k / 2) as nat;
    let n = word_count(b);
    let s = words_sum(z, n);
    let c = internet_checksum(z) as nat;
    assert forall|i: nat| i < n && i != j implies #[trigger] word_at(z, i) == word_at(w, i) by {
        assert(z[2 * i as int] == w[2 * i as int]);
        if 2 * i + 1 < b.len() {
            assert(z[2 * i + 1 as int] == w[2 * i + 1 as int]);
        }
    }
    assert(2 * j == k);
    assert(word_at(z, j) == 0);
    assert(word_at(w, j) == c);
    lemma_words_sum_one_word(z, w, j, n);
    assert(word_count(w) == n);
    lemma_fold_carries_end_around(s);
    lemma_fold_carries_end_around(s + c);
    assert(c == 0xFFFF - end_around(s));
    if s > 0 {
        let x = (s - 1) as int;
        assert(x == 65535 * (x / 65535) + x % 65535);
        assert(s + c - 1 == 65535 * (x / 65535) + 65534);
        lemma_mod_multiples_vanish(x / 65535, 65534, 65535);
    }
    assert(end_around(s + c) == 0xFFFF);
}

/// Once `checksum_fixup` has written the checksum into a message of at least
/// four bytes, the checksum of the whole message is zero: the standard check
/// accepts it.
pub proof fn lemma_checksum_fixup_validates(b: Seq<u8>)
    requires
        b.len() >= 4,
    ensures
        internet_checksum(with_checksum(b)) == 0,
{
    lemma_checksum_field_validates(b, 2);
}

} // verus!
