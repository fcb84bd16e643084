use vstd::prelude::*;

verus! {

/// Erasure code embedding detector: detects whether trust patterns embed
/// erasure-code-like redundancy.
pub struct ErasureDetector;

/// Report from erasure code detection. `S` is the type of trust scores.
#[derive(Debug, Clone, Copy)]
pub struct ErasureReport<S> {
    pub is_embedded: bool,
    pub redundancy: S,
    pub recoverable_fragments: usize,
    pub confidence: S,
}

/// What the detector concludes from the closeness of the scores to their mean.
#[derive(Debug, Clone, Copy, PartialEq, Eq, Structural)]
pub struct EmbeddingVerdict {
    pub is_embedded: bool,
    pub recoverable_fragments: usize,
}

/// Number of `true` entries.
pub open spec fn count_true(flags: Seq<bool>) -> nat
    decreases flags.len(),
{
    if flags.len() == 0 {
        0
    } else {
        count_true(flags.drop_last()) + if flags.last() {
            1nat
        } else {
            0nat
        }
    }
}

/// The number of `true` entries is at most the number of entries.
pub proof fn lemma_count_true_bounded(flags: Seq<bool>)
    ensures
        count_true(flags) <= flags.len(),
    decreases flags.len(),
{
    if flags.len() > 0 {
        lemma_count_true_bounded(flags.drop_last());
    }
}

/// `chunks` cuts `0..len` into consecutive ranges of `size` items each, the last of which
/// may be shorter: the layout of slice chunks of that size.
pub open spec fn is_chunk_layout(chunks: Seq<(usize, usize)>, len: nat, size: nat) -> bool {
    &&& chunks.len() > 0
    &&& chunks[0].0 == 0
    &&& chunks.last().1 == len
    &&& forall|k: int| 0 <= k < chunks.len() - 1 ==> #[trigger] chunks[k].1 == chunks[k + 1].0
    &&& forall|k: int| 0 <= k < chunks.len() - 1 ==> #[trigger] chunks[k].1 - chunks[k].0 == size
    &&& 0 < chunks.last().1 - chunks.last().0 <= size
}

/// The verdict on `close.len()` scores, of which `close` says which lie within the threshold
/// of the mean, `chunk_close` which chunk means do, and `high_redundancy` whether the
/// redundancy is above its bar.
pub open spec fn spec_verdict(close: Seq<bool>, chunk_close: Seq<bool>, high_redundancy: bool) -> EmbeddingVerdict {
    if close.len() < 3 {
        EmbeddingVerdict { is_embedded: false, recoverable_fragments: 0 }
    } else {
        EmbeddingVerdict {
            is_embedded: high_redundancy && count_true(close) > close.len() / 2 && (forall|k: int|
                0 <= k < chunk_close.len() ==> #[trigger] chunk_close[k]),
            recoverable_fragments: count_true(close) as usize,
        }
    }
}

impl ErasureDetector {
    /// The ranges of the parity chunks of `len` scores: chunks of a third of `len`
    /// (rounded down), the last one possibly shorter.
    pub fn parity_chunks(len: usize) -> (chunks: Vec<(usize, usize)>)
        requires
            len >= 3,
        ensures
            is_chunk_layout(chunks@, len as nat, (len / 3) as nat),
            forall|k: int| 0 <= k < chunks@.len() ==> #[trigger] chunks@[k].0 == k * (len / 3),
            forall|k: int|
                0 <= k < chunks@.len() ==> #[trigger] chunks@[k].1 == if (k + 1) * (len / 3) <= len {
                    (k + 1) * (len / 3)
                } else {
                    len as int
                },
    {
        let third = len / 3;
        let mut chunks: Vec<(usize, usize)> = Vec::new();
        let mut start: usize = 0;
        while start < len
            invariant
                third == len / 3,
                third >= 1,
                start <= len,
                chunks@.len() == 0 ==> start == 0,
                chunks@.len() > 0 ==> {
                    &&& chunks@[0].0 == 0
                    &&& chunks@.last().1 == start
                    &&& 0 < chunks@.last().1 - chunks@.last().0 <= third
                    &&& (start < len ==> chunks@.last().1 - chunks@.last().0 == third)
                },
                forall|k: int| 0 <= k < chunks@.len() - 1 ==> #[trigger] chunks@[k].1 == chunks@[k + 1].0,
                forall|k: int|
                    0 <= k < chunks@.len() - 1 ==> #[trigger] chunks@[k].1 - chunks@[k].0 == third,
                start < len ==> start == chunks@.len() * third,
                forall|k: int| 0 <= k < chunks@.len() ==> #[trigger] chunks@[k].0 == k * third,
                forall|k: int|
                    0 <= k < chunks@.len() ==> #[trigger] chunks@[k].1 == if (k + 1) * third <= len {
                        (k + 1) * third
                    } else {
                        len as int
                    },
            decreases len - start,
        {
            let n = chunks.len();
            proof {
                assert((n + 1) * third == n * third + third) by (nonlinear_arith);
            }
            let end = if len - start >= third {
                start + third
            } else {
                len
            };
            chunks.push((start, end));
            start = end;
        }
        chunks
    }

    /// Decide whether scores embed an erasure code, from which scores lie within the
    /// threshold of their mean (`close`), which chunk means do (`chunk_close`) and whether
    /// the redundancy is above its bar (`high_redundancy`). Fewer than three scores never
    /// embed one and report no recoverable fragment.
    pub fn classify(close: &Vec<bool>, chunk_close: &Vec<bool>, high_redundancy: bool) -> (v: EmbeddingVerdict)
        ensures
            v == spec_verdict(close@, chunk_close@, high_redundancy),
            close@.len() >= 3 ==> v.recoverable_fragments == count_true(close@),
            v.is_embedded == (close@.len() >= 3 && high_redundancy && count_true(close@) > close@.len() / 2
                && forall|k: int| 0 <= k < chunk_close@.len() ==> #[trigger] chunk_close@[k]),
    {
        let n = close.len();
        if n < 3 {
            return EmbeddingVerdict { is_embedded: false, recoverable_fragments: 0 };
        }
        let mut recoverable: usize = 0;
        for i in 0..n
            invariant
                n == close@.len(),
                recoverable == count_true(close@.take(i as int)),
                recoverable <= i,
        {
            proof {
                assert(close@.take(i + 1).drop_last() =~= close@.take(i as int));
            }
            if close[i] {
                recoverable = recoverable + 1;
            }
        }
        assert(close@.take(n as int) =~= close@);
        let mut has_parity = true;
        let m = chunk_close.len();
        for k in 0..m
            invariant
                m == chunk_close@.len(),
                has_parity == (forall|j: int| 0 <= j < k ==> #[trigger] chunk_close@[j]),
        {
            if !chunk_close[k] {
                has_parity = false;
            }
        }
        let is_embedded = high_redundancy && recoverable > n / 2 && has_parity;
        EmbeddingVerdict { is_embedded, recoverable_fragments: recoverable }
    }
}

} // verus!
