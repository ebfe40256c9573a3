use vstd::prelude::*;

verus! {

/// The number of buckets of the waveform envelope.
pub const ARRAYLEN: usize = 1200;

/// The bounds of bucket `i` when `len` values are spread over `buckets`
/// windows of equal size; the values past the last full window are left out.
pub open spec fn window_of(len: nat, buckets: nat, i: nat) -> (int, int) {
    let w = len / buckets;
    ((i * w) as int, ((i + 1) * w) as int)
}

/// The windows over which each bucket of the envelope is taken: `buckets`
/// contiguous ranges of `len / buckets` values each, from the start. When
/// `len < buckets` every window is empty, and the bucket is taken as zero.
pub fn bucket_bounds(len: usize, buckets: usize) -> (r: Vec<(usize, usize)>)
    requires
        buckets > 0,
    ensures
        r@.len() == buckets,
        forall|i: int|
            0 <= i < buckets ==> {
                let (s, e) = #[trigger] r@[i];
                (s as int, e as int) == window_of(len as nat, buckets as nat, i as nat) && s <= e
                    <= len
            },
{
    let w = len / buckets;
    let mut r: Vec<(usize, usize)> = Vec::new();
    let mut i: usize = 0;
    while i < buckets
        invariant
            w == len / buckets,
            buckets > 0,
            i <= buckets,
            r@.len() == i,
            forall|k: int|
                0 <= k < i ==> {
                    let (s, e) = #[trigger] r@[k];
                    (s as int, e as int) == window_of(len as nat, buckets as nat, k as nat) && s
                        <= e <= len
                },
        decreases buckets - i,
    {
        assert((i + 1) * w <= buckets * w) by (nonlinear_arith)
            requires
                i < buckets,
                w >= 0,
        ;
        assert(buckets * w <= len) by (nonlinear_arith)
            requires
                w == len / buckets,
                buckets > 0,
        ;
        assert(i * w <= (i + 1) * w) by (nonlinear_arith)
            requires
                w >= 0,
        ;
        let s = i * w;
        let e = (i + 1) * w;
        r.push((s, e));
        i = i + 1;
    }
    r
}

} // verus!
