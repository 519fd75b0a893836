use vstd::prelude::*;

verus! {

/// One element of a byte signature: either an exact byte value, or a wildcard
/// that matches any byte (used where the compiled bytes are unknown in
/// advance, such as a relocatable operand).
#[derive(Clone, Copy, Debug, PartialEq, Eq, Structural)]
pub enum PatElem {
    Exact(u8),
    Wildcard,
}

/// Whether the pattern element `e` matches the image byte `b`.
pub open spec fn elem_matches(e: PatElem, b: u8) -> bool {
    match e {
        PatElem::Exact(v) => b == v,
        PatElem::Wildcard => true,
    }
}

/// The elements `[run_start, run_start + run_len)` form a run of wildcards
/// inside `pat`. A pattern without wildcards designates an empty run.
pub open spec fn wildcard_run(pat: Seq<PatElem>, run_start: int, run_len: int) -> bool {
    &&& 0 <= run_len
    &&& 0 <= run_start
    &&& run_start + run_len <= pat.len()
    &&& forall|i: int| run_start <= i < run_start + run_len ==> (#[trigger] pat[i]) is Wildcard
}

/// A fixed-length byte signature with one designated wildcard run, the run
/// whose matched bytes hold the displacement operand that address resolution
/// reads later.
#[derive(Debug)]
pub struct BytePattern {
    pub elems: Vec<PatElem>,
    pub run_start: usize,
    pub run_len: usize,
}

impl BytePattern {
    /// The designated run lies inside the pattern and consists of wildcards
    /// only.
    pub open spec fn wf(&self) -> bool {
        wildcard_run(self.elems@, self.run_start as int, self.run_len as int)
    }

    /// Builds a pattern, validating that the designated run is an in-bounds
    /// run of wildcard elements.
    pub fn new(elems: Vec<PatElem>, run_start: usize, run_len: usize) -> (r: Option<BytePattern>)
        ensures
            match r {
                Some(p) => {
                    &&& p.elems@ == elems@
                    &&& p.run_start == run_start
                    &&& p.run_len == run_len
                    &&& p.wf()
                },
                None => !wildcard_run(elems@, run_start as int, run_len as int),
            },
    {
        if run_len > elems.len() || run_start > elems.len() - run_len {
            return None;
        }
        let end: usize = run_start + run_len;
        let mut i: usize = run_start;
        while i < end
            invariant
                run_start <= i <= end,
                end == run_start + run_len,
                end <= elems@.len(),
                forall|j: int| run_start <= j < i ==> (#[trigger] elems@[j]) is Wildcard,
            decreases end - i,
        {
            match elems[i] {
                PatElem::Wildcard => {},
                PatElem::Exact(_) => {
                    return None;
                },
            }
            i = i + 1;
        }
        Some(BytePattern { elems, run_start, run_len })
    }
}

/// The pattern `pat` matches the image bytes `buf` at offset `k`: every
/// element of the pattern matches the byte it aligns with, wildcards matching
/// anything.
pub open spec fn matches_at(buf: Seq<u8>, pat: Seq<PatElem>, k: int) -> bool {
    &&& 0 <= k
    &&& k + pat.len() <= buf.len()
    &&& forall|i: int| 0 <= i < pat.len() ==> elem_matches(#[trigger] pat[i], buf[k + i])
}

/// No offset whose full pattern window lies inside `[lo, hi)` matches.
pub open spec fn no_match_in(buf: Seq<u8>, pat: Seq<PatElem>, lo: int, hi: int) -> bool {
    forall|k: int| lo <= k && k + pat.len() <= hi ==> !matches_at(buf, pat, k)
}

/// `k` is the earliest match of `pat` inside `[lo, hi)`.
pub open spec fn found_at(buf: Seq<u8>, pat: Seq<PatElem>, lo: int, hi: int, k: int) -> bool {
    &&& lo <= k
    &&& k + pat.len() <= hi
    &&& matches_at(buf, pat, k)
    &&& forall|j: int| lo <= j < k ==> !matches_at(buf, pat, j)
}

/// All elements of the pattern are exact bytes.
pub open spec fn exact_only(pat: Seq<PatElem>) -> bool {
    forall|i: int| 0 <= i < pat.len() ==> (#[trigger] pat[i]) is Exact
}

/// The byte values of a wildcard-free pattern.
pub open spec fn exact_bytes(pat: Seq<PatElem>) -> Seq<u8>
    recommends
        exact_only(pat),
{
    Seq::new(pat.len(), |i: int| pat[i]->Exact_0)
}

/// The bytes of the wildcard-free pattern appear verbatim at offset `j` of
/// the buffer.
pub open spec fn occurs_at(buf: Seq<u8>, pat: Seq<PatElem>, j: int) -> bool {
    &&& 0 <= j
    &&& j + pat.len() <= buf.len()
    &&& buf.subrange(j, j + pat.len() as int) == exact_bytes(pat)
}

/// Exact-match law: for a pattern with no wildcards and a buffer that holds
/// its exact byte sequence at offset `k` and nowhere earlier, `k` is the
/// earliest match of the whole buffer — so a scan over the buffer returns
/// `k`.
pub proof fn lemma_exact_match(buf: Seq<u8>, pat: Seq<PatElem>, k: int)
    requires
        exact_only(pat),
        occurs_at(buf, pat, k),
        forall|j: int| 0 <= j < k ==> !occurs_at(buf, pat, j),
    ensures
        found_at(buf, pat, 0, buf.len() as int, k),
{
    assert forall|i: int| 0 <= i < pat.len() implies elem_matches(#[trigger] pat[i], buf[k + i]) by {
        assert(buf.subrange(k, k + pat.len() as int)[i] == buf[k + i]);
        assert(exact_bytes(pat)[i] == pat[i]->Exact_0);
    }
    assert(matches_at(buf, pat, k));
    assert forall|j: int| 0 <= j < k implies !matches_at(buf, pat, j) by {
        if matches_at(buf, pat, j) {
            assert forall|i: int| 0 <= i < pat.len() implies buf.subrange(
                j,
                j + pat.len() as int,
            )[i] == exact_bytes(pat)[i] by {
                assert(elem_matches(pat[i], buf[j + i]));
            }
            assert(buf.subrange(j, j + pat.len() as int) =~= exact_bytes(pat));
            assert(occurs_at(buf, pat, j));
        }
    }
}

/// Wildcard-tolerance law: a buffer that differs from a matching one only
/// inside the bytes covered by a wildcard run still matches at the same
/// offset. (The reported wildcard offset being the match offset plus the
/// run's position is part of `scan_range`'s contract.)
pub proof fn lemma_wildcard_tolerance(
    buf1: Seq<u8>,
    buf2: Seq<u8>,
    pat: Seq<PatElem>,
    m: int,
    run_start: int,
    run_len: int,
)
    requires
        wildcard_run(pat, run_start, run_len),
        matches_at(buf1, pat, m),
        buf2.len() == buf1.len(),
        forall|j: int|
            0 <= j < buf1.len() && !(m + run_start <= j < m + run_start + run_len)
                ==> buf1[j] == buf2[j],
    ensures
        matches_at(buf2, pat, m),
{
    assert forall|i: int| 0 <= i < pat.len() implies elem_matches(#[trigger] pat[i], buf2[m + i]) by {
        if run_start <= i < run_start + run_len {
            assert(pat[i] is Wildcard);
        } else {
            assert(buf1[m + i] == buf2[m + i]);
            assert(elem_matches(pat[i], buf1[m + i]));
        }
    }
}

/// A successful scan: the absolute offset where the pattern's first byte
/// aligned, and the absolute offset of the start of the designated wildcard
/// run within that match.
#[derive(Clone, Copy, Debug, PartialEq, Eq, Structural)]
pub struct MatchResult {
    pub offset: usize,
    pub run_offset: usize,
}

/// Whether `pat` matches `buf` at offset `k`, by sliding comparison of each
/// element.
pub fn match_at(buf: &Vec<u8>, pat: &BytePattern, k: usize) -> (r: bool)
    requires
        k + pat.elems@.len() <= buf@.len(),
    ensures
        r == matches_at(buf@, pat.elems@, k as int),
{
    let n = pat.elems.len();
    let len = buf.len();
    let mut i: usize = 0;
    while i < n
        invariant
            n == pat.elems@.len(),
            len == buf@.len(),
            k + n <= len,
            0 <= i <= n,
            forall|j: int| 0 <= j < i ==> elem_matches(#[trigger] pat.elems@[j], buf@[k + j]),
        decreases n - i,
    {
        match pat.elems[i] {
            PatElem::Exact(v) => {
                if buf[k + i] != v {
                    assert(!elem_matches(pat.elems@[i as int], buf@[k + i]));
                    return false;
                }
            },
            PatElem::Wildcard => {},
        }
        i = i + 1;
    }
    true
}

/// Slides `pat` over `buf[lo..hi]` and reports the earliest match, or `None`
/// when no offset in the range matches (absence, not an error). On success the
/// reported `run_offset` is the match offset plus the pattern's designated
/// wildcard-run position.
pub fn scan_range(buf: &Vec<u8>, pat: &BytePattern, lo: usize, hi: usize) -> (r: Option<MatchResult>)
    requires
        pat.wf(),
        lo <= hi <= buf@.len(),
    ensures
        match r {
            Some(m) => {
                &&& found_at(buf@, pat.elems@, lo as int, hi as int, m.offset as int)
                &&& m.run_offset == m.offset + pat.run_start
            },
            None => no_match_in(buf@, pat.elems@, lo as int, hi as int),
        },
{
    let n = pat.elems.len();
    if n > hi - lo {
        return None;
    }
    let last = hi - n;
    let mut k: usize = lo;
    while k <= last
        invariant
            pat.wf(),
            n == pat.elems@.len(),
            n <= hi <= buf@.len(),
            last == hi - n,
            lo <= k <= last + 1,
            forall|j: int| lo <= j < k ==> !matches_at(buf@, pat.elems@, j),
        decreases last + 1 - k,
    {
        if match_at(buf, pat, k) {
            return Some(MatchResult { offset: k, run_offset: k + pat.run_start });
        }
        k = k + 1;
    }
    None
}

} // verus!
