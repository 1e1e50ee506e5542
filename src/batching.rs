//! Partition of one tick's notification items into messages of bounded size.
use vstd::prelude::*;

verus! {

/// A run of consecutive notification items sent as one message: the items
/// at positions `start .. start + len`.
#[derive(Clone, Copy, Debug, PartialEq, Eq, Structural)]
pub struct Batch {
    pub start: usize,
    pub len: usize,
}

/// How many messages a tick sends for `count` items in chunks of `size`:
/// none without a destination, else the count divided by the size, rounded
/// up.
pub open spec fn batch_count(count: int, size: int, configured: bool) -> int {
    if configured && size > 0 {
        (count + size - 1) / size
    } else {
        0
    }
}

/// The number of items in the `k`-th message.
pub open spec fn batch_len(count: int, size: int, k: int) -> int {
    if count - k * size < size {
        count - k * size
    } else {
        size
    }
}

/// The item at position `j` travels in the `k`-th message.
pub open spec fn in_batch(size: int, count: int, k: int, j: int) -> bool {
    k * size <= j < k * size + batch_len(count, size, k)
}

proof fn lemma_last_batch(count: int, size: int, k: int)
    requires
        size > 0,
        k >= 0,
        k * size < count <= k * size + size,
    ensures
        (count + size - 1) / size == k + 1,
{
    assert((count + size - 1) / size == k + 1) by (nonlinear_arith)
        requires
            size > 0,
            k >= 0,
            k * size < count <= k * size + size,
    ;
}

/// Splits `count` items into messages of at most `size` items each, in
/// order; no message at all when no destination is configured.
pub fn plan_batches(count: usize, size: usize, configured: bool) -> (r: Vec<Batch>)
    requires
        size > 0,
    ensures
        r@.len() == batch_count(count as int, size as int, configured),
        forall|k: int|
            0 <= k < r@.len() ==> (#[trigger] r@[k]).start as int == k * size && r@[k].len as int
                == batch_len(count as int, size as int, k),
{
    let mut out: Vec<Batch> = Vec::new();
    if !configured || count == 0 {
        proof {
            law_nothing_to_send(size as int, configured);
        }
        return out;
    }
    let mut start: usize = 0;
    assert(0 * size == 0);
    loop
        invariant
            size > 0,
            configured,
            start < count,
            start as int == out@.len() * size,
            forall|k: int|
                0 <= k < out@.len() ==> (#[trigger] out@[k]).start as int == k * size && out@[k].len as int
                    == batch_len(count as int, size as int, k),
        decreases count - start,
    {
        let rest = count - start;
        let k = Ghost(out@.len() as int);
        if rest <= size {
            out.push(Batch { start, len: rest });
            proof {
                lemma_last_batch(count as int, size as int, k@);
            }
            return out;
        }
        out.push(Batch { start, len: size });
        proof {
            assert((k@ + 1) * size == k@ * size + size) by (nonlinear_arith);
        }
        start = start + size;
    }
}

/// No message carries more items than the chunk size, and none is empty.
pub proof fn law_batches_bounded(count: int, size: int, configured: bool, k: int)
    requires
        size > 0,
        count >= 0,
        0 <= k < batch_count(count, size, configured),
    ensures
        1 <= batch_len(count, size, k) <= size,
{
    assert(k * size < count) by (nonlinear_arith)
        requires
            size > 0,
            count >= 0,
            0 <= k < (count + size - 1) / size,
    ;
}

/// A tick with nothing to report sends no message, destination or not.
pub proof fn law_nothing_to_send(size: int, configured: bool)
    requires
        size > 0,
    ensures
        batch_count(0, size, configured) == 0,
{
    assert((size - 1) / size == 0) by (nonlinear_arith)
        requires
            size > 0,
    ;
}

/// Without a destination no message is sent, whatever was detected.
pub proof fn law_unconfigured_is_silent(count: int, size: int)
    ensures
        batch_count(count, size, false) == 0,
{
}

/// With a destination, every item travels in exactly one message.
pub proof fn law_each_item_sent_once(count: int, size: int, j: int)
    requires
        size > 0,
        0 <= j < count,
    ensures
        exists|k: int| 0 <= k < batch_count(count, size, true) && #[trigger] in_batch(size, count, k, j),
        forall|k1: int, k2: int|
            0 <= k1 < batch_count(count, size, true) && 0 <= k2 < batch_count(count, size, true)
                && #[trigger] in_batch(size, count, k1, j) && #[trigger] in_batch(size, count, k2, j)
                ==> k1 == k2,
{
    let k = j / size;
    assert(k * size <= j < k * size + size && 0 <= k) by (nonlinear_arith)
        requires
            size > 0,
            0 <= j,
            k == j / size,
    ;
    assert(k < (count + size - 1) / size) by (nonlinear_arith)
        requires
            size > 0,
            k * size <= j < count,
            0 <= k,
    ;
    assert(in_batch(size, count, k, j));
    assert forall|k1: int, k2: int|
        0 <= k1 < batch_count(count, size, true) && 0 <= k2 < batch_count(count, size, true)
            && #[trigger] in_batch(size, count, k1, j) && #[trigger] in_batch(size, count, k2, j)
            implies k1 == k2 by {
        assert(k1 * size <= j < k1 * size + size);
        assert(k2 * size <= j < k2 * size + size);
        if k1 < k2 {
            assert(k1 * size + size <= k2 * size) by (nonlinear_arith)
                requires
                    k1 < k2,
                    size > 0,
            ;
        }
        if k2 < k1 {
            assert(k2 * size + size <= k1 * size) by (nonlinear_arith)
                requires
                    k2 < k1,
                    size > 0,
            ;
        }
    }
}

} // verus!
