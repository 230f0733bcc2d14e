//! Ogg page reader: checks the page framing (capture pattern, header length,
//! segment table, checksum) and yields each page's header fields and payload in stream
//! order.

use vstd::prelude::*;

verus! {

/// Length of the fixed part of a page header.
pub const PAGE_HEADER_LEN: usize = 27;

/// The little-endian value of the `n` bytes of `d` from `i` on.
pub open spec fn le_value(d: Seq<u8>, i: int, n: nat) -> nat
    decreases n,
{
    if n == 0 {
        0
    } else {
        d[i] as nat + 256 * le_value(d, i + 1, (n - 1) as nat)
    }
}

/// The sum of the `n` segment lengths of `d` from `i` on.
pub open spec fn segments_total(d: Seq<u8>, i: int, n: nat) -> nat
    decreases n,
{
    if n == 0 {
        0
    } else {
        d[i + n - 1] as nat + segments_total(d, i, (n - 1) as nat)
    }
}

/// The capture pattern `OggS` begins at `pos`.
pub open spec fn capture_at(d: Seq<u8>, pos: int) -> bool {
    d[pos] == 0x4f && d[pos + 1] == 0x67 && d[pos + 2] == 0x67 && d[pos + 3] == 0x53
}

/// Number of segments of the page at `pos`.
pub open spec fn segment_count(d: Seq<u8>, pos: int) -> nat {
    d[pos + 26] as nat
}

/// Where the payload of the page at `pos` begins.
pub open spec fn payload_start(d: Seq<u8>, pos: int) -> int {
    pos + 27 + segment_count(d, pos)
}

/// Where the page at `pos` ends.
pub open spec fn page_end(d: Seq<u8>, pos: int) -> int {
    payload_start(d, pos) + segments_total(d, pos + 27, segment_count(d, pos))
}

/// Why no page was read.
#[derive(Clone, Copy, Debug, PartialEq, Eq, Structural)]
pub enum OggError {
    /// The stream ends exactly where the next page would begin.
    EndOfStream,
    /// The bytes at the position are not a page's capture pattern.
    BadCapturePattern,
    /// The stream ends inside a page.
    Truncated,
    /// The page's checksum does not match its bytes.
    ChecksumMismatch,
}

/// Whether the checksum field of the page `page` matches its bytes.
pub uninterp spec fn ogg_checksum_matches(page: Seq<u8>) -> bool;

/// Relies on rtc's `OggReader::parse_next_page` with checksums on: given the
/// bytes of exactly one page, it succeeds when the page's CRC matches.
#[verifier::external_body]
fn page_checksum_ok(page: Vec<u8>) -> (r: bool)
    ensures
        r == ogg_checksum_matches(page@),
{
    let cursor = std::io::Cursor::new(page);
    let mut reader = rtc::media::io::ogg_reader::OggReader::new_with_options(cursor, true);
    reader.parse_next_page().is_ok()
}

/// The framing of the page at `pos`: where it ends, or what is wrong with it.
pub open spec fn framing_status(d: Seq<u8>, pos: int) -> Result<int, OggError> {
    if pos >= d.len() {
        Err(OggError::EndOfStream)
    } else if d.len() - pos < 27 {
        Err(OggError::Truncated)
    } else if !capture_at(d, pos) {
        Err(OggError::BadCapturePattern)
    } else if page_end(d, pos) > d.len() {
        Err(OggError::Truncated)
    } else {
        Ok(page_end(d, pos))
    }
}

/// The outcome of reading a page at `pos`: where it ends, or the error.
pub open spec fn page_status(d: Seq<u8>, pos: int) -> Result<int, OggError> {
    match framing_status(d, pos) {
        Ok(end) => if ogg_checksum_matches(d.subrange(pos, end)) {
            Ok(end)
        } else {
            Err(OggError::ChecksumMismatch)
        },
        Err(e) => Err(e),
    }
}

/// One page: its header fields and its payload.
pub struct OggPage {
    pub header_type: u8,
    pub granule_position: u64,
    pub serial: u32,
    pub sequence: u32,
    pub checksum: u32,
    pub payload: Vec<u8>,
}

/// `p` is the page that begins at `pos` in `d`.
pub open spec fn page_matches(d: Seq<u8>, pos: int, p: OggPage) -> bool {
    &&& p.header_type == d[pos + 5]
    &&& p.granule_position == le_value(d, pos + 6, 8)
    &&& p.serial == le_value(d, pos + 14, 4)
    &&& p.sequence == le_value(d, pos + 18, 4)
    &&& p.checksum == le_value(d, pos + 22, 4)
    &&& p.payload@ == d.subrange(payload_start(d, pos), page_end(d, pos))
}

proof fn lemma_le_value_bound(d: Seq<u8>, i: int, n: nat)
    ensures
        le_value(d, i, n) < pow256(n),
    decreases n,
{
    if n > 0 {
        lemma_le_value_bound(d, i + 1, (n - 1) as nat);
        let a = d[i] as nat;
        let b = le_value(d, i + 1, (n - 1) as nat);
        let p = pow256((n - 1) as nat);
        assert(a + 256 * b < 256 * p) by (nonlinear_arith)
            requires
                a < 256,
                b < p,
        ;
    }
}

/// `256` to the power `n`.
pub open spec fn pow256(n: nat) -> nat
    decreases n,
{
    if n == 0 {
        1
    } else {
        256 * pow256((n - 1) as nat)
    }
}

/// Reads the `n` little-endian bytes from `i` on.
fn read_le(d: &Vec<u8>, i: usize, n: usize) -> (r: u64)
    requires
        n <= 8,
        i + n <= d@.len(),
    ensures
        r == le_value(d@, i as int, n as nat),
{
    let dl = d.len();
    let mut acc: u64 = 0;
    let mut k: usize = n;
    proof {
        reveal_with_fuel(pow256, 9);
        assert(pow256(8) == 0x1_0000_0000_0000_0000);
    }
    while k > 0
        invariant
            k <= n <= 8,
            i + n <= d@.len() == dl,
            acc == le_value(d@, i + k, (n - k) as nat),
            pow256(8) == 0x1_0000_0000_0000_0000,
        decreases k,
    {
        proof {
            lemma_le_value_bound(d@, i + k, (n - k) as nat);
            lemma_pow256_mono((n - k) as nat, 7);
        }
        let b = d[i + (k - 1)];
        assert(acc as int * 256 + b as int <= 0xffff_ffff_ffff_ffff) by (nonlinear_arith)
            requires
                acc < pow256(7),
                pow256(7) * 256 == 0x1_0000_0000_0000_0000,
                b < 256,
        ;
        acc = acc * 256 + b as u64;
        k = k - 1;
    }
    acc
}

proof fn lemma_pow256_mono(a: nat, b: nat)
    requires
        a <= b,
    ensures
        pow256(a) <= pow256(b),
    decreases b,
{
    if a < b {
        lemma_pow256_mono(a, (b - 1) as nat);
    }
}

/// A reader over an Ogg stream held in memory.
pub struct OggReader {
    data: Vec<u8>,
    pos: usize,
}

/// Checks the framing of the page at `pos` and returns where it ends.
pub fn frame_page(d: &Vec<u8>, pos: usize) -> (r: Result<usize, OggError>)
    ensures
        match r {
            Ok(end) => framing_status(d@, pos as int) == Ok::<int, OggError>(end as int),
            Err(e) => framing_status(d@, pos as int) == Err::<int, OggError>(e),
        },
{
    let len = d.len();
    if pos >= len {
        return Err(OggError::EndOfStream);
    }
    if len - pos < PAGE_HEADER_LEN {
        return Err(OggError::Truncated);
    }
    if !(d[pos] == 0x4f && d[pos + 1] == 0x67 && d[pos + 2] == 0x67 && d[pos + 3] == 0x53) {
        return Err(OggError::BadCapturePattern);
    }
    let n = d[pos + 26] as usize;
    if len - pos - PAGE_HEADER_LEN < n {
        return Err(OggError::Truncated);
    }
    let start = pos + PAGE_HEADER_LEN + n;
    let mut total: usize = 0;
    let mut k: usize = 0;
    while k < n
        invariant
            k <= n <= 255,
            n == d@[pos + 26],
            start == pos + 27 + n <= len == d@.len(),
            total == segments_total(d@, pos + 27, k as nat),
            total <= 255 * k,
        decreases n - k,
    {
        total = total + d[pos + PAGE_HEADER_LEN + k] as usize;
        k = k + 1;
    }
    if len - start < total {
        return Err(OggError::Truncated);
    }
    Ok(start + total)
}

/// The bytes of `d` from `from` up to `to`.
fn copy_range(d: &Vec<u8>, from: usize, to: usize) -> (r: Vec<u8>)
    requires
        from <= to <= d@.len(),
    ensures
        r@ == d@.subrange(from as int, to as int),
{
    let mut out: Vec<u8> = Vec::new();
    let mut j: usize = from;
    while j < to
        invariant
            from <= j <= to <= d@.len(),
            out@ == d@.subrange(from as int, j as int),
        decreases to - j,
    {
        out.push(d[j]);
        j = j + 1;
        assert(out@ =~= d@.subrange(from as int, j as int));
    }
    out
}

/// The header fields and payload of the well-framed page at `pos`.
pub fn page_fields(d: &Vec<u8>, pos: usize) -> (p: OggPage)
    requires
        framing_status(d@, pos as int) is Ok,
    ensures
        page_matches(d@, pos as int, p),
{
    proof {
        reveal_with_fuel(pow256, 5);
        lemma_le_value_bound(d@, pos + 14, 4);
        lemma_le_value_bound(d@, pos + 18, 4);
        lemma_le_value_bound(d@, pos + 22, 4);
    }
    let len = d.len();
    assert(pos + PAGE_HEADER_LEN <= len);
    let n = d[pos + 26] as usize;
    let end = match frame_page(d, pos) {
        Ok(end) => end,
        Err(_) => pos,
    };
    OggPage {
        header_type: d[pos + 5],
        granule_position: read_le(d, pos + 6, 8),
        serial: read_le(d, pos + 14, 4) as u32,
        sequence: read_le(d, pos + 18, 4) as u32,
        checksum: read_le(d, pos + 22, 4) as u32,
        payload: copy_range(d, pos + PAGE_HEADER_LEN + n, end),
    }
}

/// Reads the page at `pos`: its framing, its checksum, then its fields.
pub fn parse_page(d: &Vec<u8>, pos: usize) -> (r: Result<(OggPage, usize), OggError>)
    ensures
        match r {
            Ok((p, end)) => page_status(d@, pos as int) == Ok::<int, OggError>(end as int)
                && page_matches(d@, pos as int, p),
            Err(e) => page_status(d@, pos as int) == Err::<int, OggError>(e),
        },
{
    match frame_page(d, pos) {
        Err(e) => Err(e),
        Ok(end) => {
            if page_checksum_ok(copy_range(d, pos, end)) {
                Ok((page_fields(d, pos), end))
            } else {
                Err(OggError::ChecksumMismatch)
            }
        },
    }
}

impl OggReader {
    /// The stream the reader was made over.
    pub closed spec fn stream(&self) -> Seq<u8> {
        self.data@
    }

    /// Where the next page begins.
    pub closed spec fn position(&self) -> int {
        self.pos as int
    }

    pub closed spec fn wf(&self) -> bool {
        self.pos <= self.data@.len()
    }

    /// A reader positioned at the start of `data`.
    pub fn new(data: Vec<u8>) -> (r: OggReader)
        ensures
            r.wf(),
            r.stream() == data@,
            r.position() == 0,
    {
        OggReader { data, pos: 0 }
    }

    /// Reads the next page and moves past it; on an error the position stays.
    pub fn parse_next_page(&mut self) -> (r: Result<OggPage, OggError>)
        requires
            old(self).wf(),
        ensures
            final(self).wf(),
            final(self).stream() == old(self).stream(),
            match r {
                Ok(p) => page_status(old(self).stream(), old(self).position()) == Ok::<
                    int,
                    OggError,
                >(final(self).position()) && page_matches(
                    old(self).stream(),
                    old(self).position(),
                    p,
                ),
                Err(e) => page_status(old(self).stream(), old(self).position()) == Err::<
                    int,
                    OggError,
                >(e) && final(self).position() == old(self).position(),
            },
    {
        match parse_page(&self.data, self.pos) {
            Ok((p, end)) => {
                self.pos = end;
                Ok(p)
            },
            Err(e) => Err(e),
        }
    }
}

} // verus!
