//! The counting core of the entropy estimator: a 256-bucket frequency
//! histogram over byte values, built in one pass.

use vstd::prelude::*;

verus! {

/// Number of occurrences of the byte value `v` in `s`.
pub open spec fn count_byte(s: Seq<u8>, v: u8) -> nat
    decreases s.len(),
{
    if s.len() == 0 {
        0
    } else {
        count_byte(s.drop_last(), v) + (if s.last() == v {
            1nat
        } else {
            0nat
        })
    }
}

/// A byte value occurs no more often than the buffer is long.
proof fn lemma_count_byte_le_len(s: Seq<u8>, v: u8)
    ensures
        count_byte(s, v) <= s.len(),
    decreases s.len(),
{
    if s.len() > 0 {
        lemma_count_byte_le_len(s.drop_last(), v);
    }
}

/// Extending a buffer by one byte raises that byte's count by one and leaves
/// every other count unchanged.
proof fn lemma_count_byte_push(s: Seq<u8>, b: u8, v: u8)
    ensures
        count_byte(s.push(b), v) == count_byte(s, v) + (if b == v {
            1nat
        } else {
            0nat
        }),
{
    assert(s.push(b).drop_last() =~= s);
}

/// The frequency histogram of a buffer: bucket `v` holds the number of bytes
/// equal to `v`. One pass, constant extra space.
pub fn byte_histogram(data: &[u8]) -> (h: Vec<usize>)
    ensures
        h@.len() == 256,
        forall|v: int| 0 <= v < 256 ==> h@[v] == count_byte(data@, v as u8),
{
    let mut h: Vec<usize> = vec![0usize; 256];
    let mut i: usize = 0;
    while i < data.len()
        invariant
            i <= data@.len(),
            h@.len() == 256,
            forall|v: int| 0 <= v < 256 ==> h@[v] == count_byte(data@.take(i as int), v as u8),
        decreases data@.len() - i,
    {
        let b = data[i];
        let cur = h[b as usize];
        proof {
            lemma_count_byte_le_len(data@.take(i as int), b);
        }
        h[b as usize] = cur + 1;
        proof {
            assert forall|v: int| 0 <= v < 256 implies h@[v] == count_byte(
                data@.take(i + 1),
                v as u8,
            ) by {
                assert(data@.take(i + 1) =~= data@.take(i as int).push(data@[i as int]));
                lemma_count_byte_push(data@.take(i as int), data@[i as int], v as u8);
            }
        }
        i = i + 1;
    }
    proof {
        assert(data@.take(i as int) =~= data@);
    }
    h
}

/// Law (the counting half of "a buffer of one repeated byte has zero
/// entropy"): in a buffer whose bytes all equal `v`, bucket `v` counts the
/// whole buffer and every other bucket is zero, so at most one probability in
/// the entropy sum is nonzero and it is one.
pub proof fn lemma_repeated_byte_counts(s: Seq<u8>, v: u8)
    requires
        forall|i: int| 0 <= i < s.len() ==> s[i] == v,
    ensures
        count_byte(s, v) == s.len(),
        forall|w: u8| w != v ==> count_byte(s, w) == 0,
    decreases s.len(),
{
    if s.len() > 0 {
        lemma_repeated_byte_counts(s.drop_last(), v);
        assert forall|w: u8| w != v implies count_byte(s, w) == 0 by {
            assert(count_byte(s, w) == count_byte(s.drop_last(), w));
        }
    }
}

} // verus!
