//! Result checking for transfer sessions: whether the frames a session
//! received contain the expected pattern as a consecutive run. The
//! surrounding harness only prints the verdict; the decision is made here.

use vstd::prelude::*;

use crate::frame::Frame;

verus! {

/// Whether `p` occurs in `s` as the consecutive run starting at `i`.
pub open spec fn contains_at<T>(s: Seq<T>, p: Seq<T>, i: int) -> bool {
    0 <= i && i + p.len() <= s.len() && s.subrange(i, i + p.len()) == p
}

/// Whether `p` occurs somewhere in `s` as a consecutive run.
pub open spec fn contains_pattern<T>(s: Seq<T>, p: Seq<T>) -> bool {
    exists|i: int| contains_at(s, p, i)
}

/// Whether `pattern` occurs in `slice` as a consecutive run.
pub fn slice_contains(slice: &[u32], pattern: &[u32]) -> (r: bool)
    ensures
        r == contains_pattern(slice@, pattern@),
{
    let n = slice.len();
    let m = pattern.len();
    if m > n {
        assert(forall|i: int| !contains_at(slice@, pattern@, i));
        return false;
    }
    let mut i: usize = 0;
    while i <= n - m
        invariant
            m <= n,
            n == slice@.len(),
            m == pattern@.len(),
            i <= n - m + 1,
            forall|k: int| 0 <= k < i ==> !contains_at(slice@, pattern@, k),
        decreases n - i,
    {
        let mut j: usize = 0;
        let mut ok = true;
        while ok && j < m
            invariant
                m <= n,
                n == slice@.len(),
                m == pattern@.len(),
                i + m <= n,
                j <= m,
                ok ==> forall|t: int| 0 <= t < j ==> slice@[i + t] == pattern@[t],
                !ok ==> exists|t: int| 0 <= t < j && slice@[i + t] != pattern@[t],
            decreases m - j,
        {
            if slice[i + j] != pattern[j] {
                ok = false;
            }
            j = j + 1;
        }
        if ok {
            assert(contains_at(slice@, pattern@, i as int)) by {
                assert(slice@.subrange(i as int, i + m) =~= pattern@);
            }
            return true;
        }
        proof {
            let t = choose|t: int| 0 <= t < j && slice@[i + t] != pattern@[t];
            assert(!contains_at(slice@, pattern@, i as int)) by {
                if contains_at(slice@, pattern@, i as int) {
                    assert(slice@.subrange(i as int, i + m)[t] == pattern@[t]);
                }
            }
        }
        i = i + 1;
    }
    assert(forall|k: int| !contains_at(slice@, pattern@, k));
    false
}

/// Whether `pattern` occurs in `slice` as a consecutive run of frames.
pub fn frame_slice_contains(slice: &[Frame], pattern: &[Frame]) -> (r: bool)
    ensures
        r == contains_pattern(slice@, pattern@),
{
    let n = slice.len();
    let m = pattern.len();
    if m > n {
        assert(forall|i: int| !contains_at(slice@, pattern@, i));
        return false;
    }
    let mut i: usize = 0;
    while i <= n - m
        invariant
            m <= n,
            n == slice@.len(),
            m == pattern@.len(),
            i <= n - m + 1,
            forall|k: int| 0 <= k < i ==> !contains_at(slice@, pattern@, k),
        decreases n - i,
    {
        let mut j: usize = 0;
        let mut ok = true;
        while ok && j < m
            invariant
                m <= n,
                n == slice@.len(),
                m == pattern@.len(),
                i + m <= n,
                j <= m,
                ok ==> forall|t: int| 0 <= t < j ==> slice@[i + t] == pattern@[t],
                !ok ==> exists|t: int| 0 <= t < j && slice@[i + t] != pattern@[t],
            decreases m - j,
        {
            if slice[i + j] != pattern[j] {
                ok = false;
            }
            j = j + 1;
        }
        if ok {
            assert(contains_at(slice@, pattern@, i as int)) by {
                assert(slice@.subrange(i as int, i + m) =~= pattern@);
            }
            return true;
        }
        proof {
            let t = choose|t: int| 0 <= t < j && slice@[i + t] != pattern@[t];
            assert(!contains_at(slice@, pattern@, i as int)) by {
                if contains_at(slice@, pattern@, i as int) {
                    assert(slice@.subrange(i as int, i + m)[t] == pattern@[t]);
                }
            }
        }
        i = i + 1;
    }
    assert(forall|k: int| !contains_at(slice@, pattern@, k));
    false
}

/// The frames of a timestamped result run, timestamps dropped.
pub open spec fn received_frames(res: Seq<(u32, Frame)>) -> Seq<Frame> {
    res.map_values(|p: (u32, Frame)| p.1)
}

/// Whether a session's timestamped results contain the expected pattern,
/// judged as the original harness does: the pattern stripped of its first
/// and last entries (the cold-start and tail slots, which a session may
/// legitimately miss) must appear in the received frames as a consecutive
/// run.
pub fn check_result(res: &[(u32, Frame)], expected: &[Frame]) -> (r: bool)
    requires
        expected@.len() >= 2,
    ensures
        r == contains_pattern(
            received_frames(res@),
            expected@.subrange(1, expected@.len() - 1),
        ),
{
    let mut samples: Vec<Frame> = Vec::new();
    let mut k: usize = 0;
    while k < res.len()
        invariant
            k <= res@.len(),
            samples@ =~= received_frames(res@.subrange(0, k as int)),
        decreases res@.len() - k,
    {
        samples.push(res[k].1);
        proof {
            assert(res@.subrange(0, k + 1).drop_last() =~= res@.subrange(0, k as int));
            assert(samples@ =~= received_frames(res@.subrange(0, k + 1)));
        }
        k = k + 1;
    }
    assert(res@.subrange(0, res@.len() as int) =~= res@);
    let mut pattern: Vec<Frame> = Vec::new();
    let mut k: usize = 1;
    while k < expected.len() - 1
        invariant
            expected@.len() >= 2,
            1 <= k <= expected@.len() - 1,
            pattern@ =~= expected@.subrange(1, k as int),
        decreases expected@.len() - k,
    {
        pattern.push(expected[k]);
        proof {
            assert(pattern@ =~= expected@.subrange(1, k + 1));
        }
        k = k + 1;
    }
    frame_slice_contains(samples.as_slice(), pattern.as_slice())
}

} // verus!
