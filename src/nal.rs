//! Annex-B elementary stream reader: splits a byte stream into NAL units at
//! the start codes `00 00 01` and `00 00 00 01`.

use vstd::prelude::*;

verus! {

/// A three-byte start code `00 00 01` begins at `i`.
pub open spec fn is_marker(d: Seq<u8>, i: int) -> bool {
    0 <= i && i + 3 <= d.len() && d[i] == 0 && d[i + 1] == 0 && d[i + 2] == 1
}

/// The first start code at or after `from`, or `d.len()` when there is none.
pub open spec fn next_marker(d: Seq<u8>, from: int) -> int
    decreases d.len() - from,
{
    if from < 0 || from + 3 > d.len() {
        d.len() as int
    } else if is_marker(d, from) {
        from
    } else {
        next_marker(d, from + 1)
    }
}

/// Where the unit that starts after the code at `m` ends, given the next code
/// at `n`: a zero byte just before `n` is the first byte of a four-byte code.
pub open spec fn unit_end(d: Seq<u8>, m: int, n: int) -> int {
    if n < d.len() && n > m + 3 && d[n - 1] == 0 {
        n - 1
    } else {
        n
    }
}

/// The unit that follows the start code at `m`.
pub open spec fn unit_at(d: Seq<u8>, m: int) -> Seq<u8> {
    d.subrange(m + 3, unit_end(d, m, next_marker(d, m + 3)))
}

/// The units of `d` from position `from` on, in stream order.
pub open spec fn nal_units(d: Seq<u8>, from: int) -> Seq<Seq<u8>>
    decreases d.len() - from,
{
    let m = next_marker(d, from);
    if from < 0 || m >= d.len() || m < from || m + 3 > d.len() {
        seq![]
    } else {
        seq![unit_at(d, m)] + nal_units(d, m + 3)
    }
}

/// Where the `j`-th unit ends when the start codes of `d` stand at `ms`.
pub open spec fn segment_end(d: Seq<u8>, ms: Seq<int>, j: int) -> int {
    if j + 1 < ms.len() {
        unit_end(d, ms[j], ms[j + 1])
    } else {
        d.len() as int
    }
}

/// The bytes strictly between the `j`-th start code and the next one (or the
/// end of the stream after the last).
pub open spec fn segment(d: Seq<u8>, ms: Seq<int>, j: int) -> Seq<u8> {
    d.subrange(ms[j] + 3, segment_end(d, ms, j))
}

/// `ms` lists, in increasing order, every position where a start code begins.
pub open spec fn markers_are(d: Seq<u8>, ms: Seq<int>) -> bool {
    &&& forall|j: int| 0 <= j < ms.len() ==> is_marker(d, #[trigger] ms[j])
    &&& forall|a: int, b: int| 0 <= a < b < ms.len() ==> ms[a] < ms[b]
    &&& forall|i: int| is_marker(d, i) ==> ms.contains(i)
}

proof fn lemma_next_marker_is(d: Seq<u8>, from: int, m: int)
    requires
        0 <= from <= m,
        is_marker(d, m),
        forall|i: int| from <= i < m ==> !is_marker(d, i),
    ensures
        next_marker(d, from) == m,
    decreases m - from,
{
    if from < m {
        lemma_next_marker_is(d, from + 1, m);
    }
}

proof fn lemma_no_marker(d: Seq<u8>, from: int)
    requires
        0 <= from,
        forall|i: int| from <= i ==> !is_marker(d, i),
    ensures
        next_marker(d, from) == d.len(),
    decreases d.len() - from,
{
    if from + 3 <= d.len() {
        lemma_no_marker(d, from + 1);
    }
}

spec fn start_of(ms: Seq<int>, j: int) -> int {
    if j == 0 {
        0
    } else {
        ms[j - 1] + 3
    }
}

proof fn lemma_next_after(d: Seq<u8>, ms: Seq<int>, j: int)
    requires
        markers_are(d, ms),
        0 <= j <= ms.len(),
    ensures
        0 <= start_of(ms, j),
        j < ms.len() ==> next_marker(d, start_of(ms, j)) == ms[j],
        j == ms.len() ==> next_marker(d, start_of(ms, j)) == d.len(),
{
    if j > 0 {
        assert(is_marker(d, ms[j - 1]));
    }
    assert forall|i: int| start_of(ms, j) <= i && (j < ms.len() ==> i < ms[j]) implies !is_marker(
        d,
        i,
    ) by {
        if is_marker(d, i) {
            let t = choose|t: int| 0 <= t < ms.len() && ms[t] == i;
            if t >= j {
                if t > j {
                    assert(ms[j] < ms[t]);
                }
            } else if t < j - 1 {
                assert(ms[t] < ms[j - 1]);
            }
        }
    }
    if j < ms.len() {
        assert(is_marker(d, ms[j]));
        lemma_next_marker_is(d, start_of(ms, j), ms[j]);
    } else {
        lemma_no_marker(d, start_of(ms, j));
    }
}

proof fn lemma_units_from(d: Seq<u8>, ms: Seq<int>, j: int)
    requires
        markers_are(d, ms),
        0 <= j <= ms.len(),
    ensures
        nal_units(d, start_of(ms, j)) =~= Seq::new(
            (ms.len() - j) as nat,
            |i: int| segment(d, ms, j + i),
        ),
    decreases ms.len() - j,
{
    lemma_next_after(d, ms, j);
    if j < ms.len() {
        assert(is_marker(d, ms[j]));
        lemma_next_after(d, ms, j + 1);
        lemma_units_from(d, ms, j + 1);
        assert(start_of(ms, j + 1) == ms[j] + 3);
        assert(unit_at(d, ms[j]) == segment(d, ms, j));
    }
}

/// A stream whose start codes stand exactly at the increasing positions `ms`
/// yields one unit per start code, in order, each holding the bytes strictly
/// between that code and the next.
pub proof fn lemma_units_between_markers(d: Seq<u8>, ms: Seq<int>)
    requires
        markers_are(d, ms),
    ensures
        nal_units(d, 0).len() == ms.len(),
        forall|j: int| 0 <= j < ms.len() ==> #[trigger] nal_units(d, 0)[j] == segment(d, ms, j),
{
    lemma_units_from(d, ms, 0);
}

/// Why the reader yielded no unit.
#[derive(Clone, Copy, Debug, PartialEq, Eq, Structural)]
pub enum NalError {
    /// No start code follows the current position.
    EndOfStream,
}

/// A reader over an Annex-B stream held in memory.
pub struct NalReader {
    data: Vec<u8>,
    pos: usize,
}

proof fn lemma_next_marker_bounds(d: Seq<u8>, from: int)
    requires
        0 <= from,
    ensures
        next_marker(d, from) == d.len() || (from <= next_marker(d, from) && is_marker(
            d,
            next_marker(d, from),
        )),
        next_marker(d, from) >= from || next_marker(d, from) == d.len(),
    decreases d.len() - from,
{
    if from + 3 <= d.len() && !is_marker(d, from) {
        lemma_next_marker_bounds(d, from + 1);
    }
}

/// Position of the first start code at or after `from`, or `d.len()`.
fn find_marker(d: &Vec<u8>, from: usize) -> (r: usize)
    requires
        from <= d@.len(),
    ensures
        r == next_marker(d@, from as int),
{
    let mut k: usize = from;
    while d.len() - k >= 3 && !(d[k] == 0 && d[k + 1] == 0 && d[k + 2] == 1)
        invariant
            from <= k <= d@.len(),
            next_marker(d@, k as int) == next_marker(d@, from as int),
        decreases d@.len() - k,
    {
        k = k + 1;
    }
    if d.len() - k < 3 {
        d.len()
    } else {
        k
    }
}

impl NalReader {
    /// The stream the reader was made over.
    pub closed spec fn stream(&self) -> Seq<u8> {
        self.data@
    }

    /// The units the reader has yet to yield.
    pub closed spec fn remaining(&self) -> Seq<Seq<u8>> {
        nal_units(self.data@, self.pos as int)
    }

    pub closed spec fn wf(&self) -> bool {
        self.pos <= self.data@.len()
    }

    /// A reader positioned at the start of `data`.
    pub fn new(data: Vec<u8>) -> (r: NalReader)
        ensures
            r.wf(),
            r.stream() == data@,
            r.remaining() == nal_units(data@, 0),
    {
        NalReader { data, pos: 0 }
    }

    /// Yields the next unit, or `EndOfStream` when no start code is left.
    pub fn next_nal(&mut self) -> (r: Result<Vec<u8>, NalError>)
        requires
            old(self).wf(),
        ensures
            final(self).wf(),
            final(self).stream() == old(self).stream(),
            match r {
                Ok(u) => old(self).remaining().len() > 0 && u@ == old(self).remaining()[0]
                    && final(self).remaining() == old(self).remaining().drop_first(),
                Err(e) => e == NalError::EndOfStream && old(self).remaining().len() == 0
                    && final(self).remaining() == old(self).remaining(),
            },
    {
        let ghost d = self.data@;
        let m = find_marker(&self.data, self.pos);
        proof {
            lemma_next_marker_bounds(d, self.pos as int);
        }
        if m >= self.data.len() {
            return Err(NalError::EndOfStream);
        }
        let n = find_marker(&self.data, m + 3);
        proof {
            lemma_next_marker_bounds(d, m + 3);
        }
        let end: usize = if n < self.data.len() && n > m + 3 && self.data[n - 1] == 0 {
            n - 1
        } else {
            n
        };
        let mut unit: Vec<u8> = Vec::new();
        let mut k: usize = m + 3;
        while k < end
            invariant
                m + 3 <= k <= end <= d.len(),
                d == self.data@,
                unit@ == d.subrange(m + 3, k as int),
            decreases end - k,
        {
            unit.push(self.data[k]);
            k = k + 1;
            assert(unit@ =~= d.subrange(m + 3, k as int));
        }
        self.pos = m + 3;
        Ok(unit)
    }
}

} // verus!
