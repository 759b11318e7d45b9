//! Cuts a WebM byte stream into its initialization segment and its clusters,
//! so that each can be sent as a message of its own.

use vstd::prelude::*;

verus! {

/// Identifier of the EBML header element.
pub const TAG_EBML: [u8; 4] = [0x1a, 0x45, 0xdf, 0xa3];

/// Identifier of the Segment element.
pub const TAG_SEGMENT: [u8; 4] = [0x18, 0x53, 0x80, 0x67];

/// Identifier of a Cluster element.
pub const TAG_CLUSTER: [u8; 4] = [0x1f, 0x43, 0xb6, 0x75];

/// Identifier of a Void element.
pub const TAG_VOID: u8 = 0xec;

/// The size that a Segment of unknown length declares.
pub const UNKNOWN_SIZE: u64 = 0xff_ffff_ffff_ffff;

/// What the slicer expects at the start of its buffer.
#[derive(Clone, Copy, Debug, PartialEq, Eq, Structural)]
pub enum State {
    /// The EBML header, the Segment header and what precedes the first Cluster.
    Header,
    /// A Cluster.
    Data,
}

/// Where a look at the buffer ended.
pub ghost enum Parse {
    /// The bytes cannot be the stream that is expected.
    Malformed,
    /// More bytes are needed before anything can be cut off.
    Incomplete,
    /// The first piece ends before this position.
    CutAt(int),
}

/// The bytes of `tag` stand in `buf` at position `at`.
pub open spec fn tag_at(buf: Seq<u8>, at: int, tag: Seq<u8>) -> bool {
    &&& 0 <= at
    &&& at + tag.len() <= buf.len()
    &&& forall|i: int| 0 <= i < tag.len() ==> buf[at + i] == tag[i]
}

/// Number of bytes of the variable-length integer that begins with `first`:
/// one more than the number of its leading zero bits.
pub open spec fn varint_len(first: u8) -> int {
    if first >= 0x80 {
        1
    } else if first >= 0x40 {
        2
    } else if first >= 0x20 {
        3
    } else if first >= 0x10 {
        4
    } else if first >= 0x08 {
        5
    } else if first >= 0x04 {
        6
    } else if first >= 0x02 {
        7
    } else if first >= 0x01 {
        8
    } else {
        9
    }
}

/// The length marker: the one set bit that ends the leading zeros of the
/// first byte of an integer of `len` bytes.
pub open spec fn varint_marker(len: int) -> int {
    if len == 1 {
        0x80
    } else if len == 2 {
        0x40
    } else if len == 3 {
        0x20
    } else if len == 4 {
        0x10
    } else if len == 5 {
        0x08
    } else if len == 6 {
        0x04
    } else if len == 7 {
        0x02
    } else {
        0x01
    }
}

/// A variable-length integer can be read at `at`: its first byte is there and
/// is not zero, and all its bytes are inside the buffer.
pub open spec fn varint_readable(buf: Seq<u8>, at: int) -> bool {
    &&& 0 <= at < buf.len()
    &&& buf[at] != 0
    &&& at + varint_len(buf[at]) <= buf.len()
}

/// The value of the first `n` bytes of the integer at `at`, big-endian, with
/// the length marker taken out of the first byte.
pub open spec fn varint_prefix(buf: Seq<u8>, at: int, n: int) -> int
    decreases n,
{
    if n <= 1 {
        buf[at] - varint_marker(varint_len(buf[at]))
    } else {
        varint_prefix(buf, at, n - 1) * 256 + buf[at + n - 1]
    }
}

/// The value of the variable-length integer at `at`.
pub open spec fn varint_value(buf: Seq<u8>, at: int) -> int {
    varint_prefix(buf, at, varint_len(buf[at]))
}

/// The position behind the element whose size field stands at `at`: behind
/// the size field and as many bytes of payload as it declares.
pub open spec fn element_end(buf: Seq<u8>, at: int) -> int {
    at + varint_len(buf[at]) + varint_value(buf, at)
}

/// Skips the elements from `at` on, up to the first Cluster. A Void element
/// has an identifier of one byte, any other element one of four.
pub open spec fn scan_to_cluster(buf: Seq<u8>, at: int) -> Parse
    decreases buf.len() - at,
{
    if at < 0 || buf.len() < at + 1 {
        Parse::Incomplete
    } else if tag_at(buf, at, TAG_CLUSTER@) {
        Parse::CutAt(at)
    } else {
        let size_at = if buf[at] == TAG_VOID {
            at + 1
        } else {
            at + 4
        };
        if !varint_readable(buf, size_at) {
            Parse::Malformed
        } else if element_end(buf, size_at) > buf.len() {
            Parse::Incomplete
        } else {
            proof {
                lemma_prefix_bound(buf, size_at, varint_len(buf[size_at]));
            }
            scan_to_cluster(buf, element_end(buf, size_at))
        }
    }
}

/// Looks for the end of the initialization segment: the EBML header, a
/// Segment of unknown size, and every element up to the first Cluster.
pub open spec fn parse_header(buf: Seq<u8>) -> Parse {
    if !tag_at(buf, 0, TAG_EBML@) {
        if buf.len() < 4 {
            Parse::Incomplete
        } else {
            Parse::Malformed
        }
    } else if !varint_readable(buf, 4) {
        Parse::Malformed
    } else {
        let segment = element_end(buf, 4);
        if segment > buf.len() {
            Parse::Malformed
        } else if !tag_at(buf, segment, TAG_SEGMENT@) {
            if buf.len() < segment + 4 {
                Parse::Incomplete
            } else {
                Parse::Malformed
            }
        } else if !varint_readable(buf, segment + 4) {
            Parse::Malformed
        } else if varint_value(buf, segment + 4) != UNKNOWN_SIZE {
            Parse::Malformed
        } else {
            scan_to_cluster(buf, segment + 4 + varint_len(buf[segment + 4]))
        }
    }
}

/// Looks for the end of the Cluster at the start of the buffer.
pub open spec fn parse_cluster(buf: Seq<u8>) -> Parse {
    if !tag_at(buf, 0, TAG_CLUSTER@) {
        if buf.len() < 4 {
            Parse::Incomplete
        } else {
            Parse::Malformed
        }
    } else if !varint_readable(buf, 4) {
        Parse::Malformed
    } else if buf.len() < element_end(buf, 4) {
        Parse::Incomplete
    } else {
        Parse::CutAt(element_end(buf, 4))
    }
}

/// What a look at the buffer yields in the given stage.
pub open spec fn parse(stage: State, buf: Seq<u8>) -> Parse {
    match stage {
        State::Header => parse_header(buf),
        State::Data => parse_cluster(buf),
    }
}

/// What a slicer holds: its stage and the bytes not yet handed out.
pub ghost struct SlicerState {
    pub stage: State,
    pub buffer: Seq<u8>,
}

/// The state of a slicer after `data` has arrived, and the pieces handed out:
/// none while the first piece is incomplete or the stream is malformed, else
/// the first piece, which leaves the buffer.
pub open spec fn feed(state: SlicerState, data: Seq<u8>) -> (SlicerState, Seq<Seq<u8>>) {
    let buf = state.buffer + data;
    match parse(state.stage, buf) {
        Parse::CutAt(end) => (
            SlicerState { stage: State::Data, buffer: buf.skip(end) },
            seq![buf.take(end)],
        ),
        _ => (SlicerState { stage: state.stage, buffer: buf }, Seq::empty()),
    }
}

/// The contents of a list of pieces.
pub open spec fn pieces_of(pieces: Seq<Vec<u8>>) -> Seq<Seq<u8>> {
    pieces.map_values(|piece: Vec<u8>| piece@)
}

/// Splits a stream that arrives in arbitrary portions.
pub struct Slicer {
    state: State,
    buffer: Vec<u8>,
}

impl View for Slicer {
    type V = SlicerState;

    closed spec fn view(&self) -> SlicerState {
        SlicerState { stage: self.state, buffer: self.buffer@ }
    }
}

impl Slicer {
    /// A slicer at the start of a stream.
    pub fn new() -> (s: Slicer)
        ensures
            s@ == (SlicerState { stage: State::Header, buffer: Seq::empty() }),
    {
        Slicer { state: State::Header, buffer: Vec::new() }
    }

    /// Takes the next portion of the stream. Returns `None` where the bytes
    /// held so far cannot be the stream that is expected, and else the pieces
    /// that are complete: at most one for each call.
    pub fn try_append(&mut self, data: &[u8]) -> (pieces: Option<Vec<Vec<u8>>>)
        ensures
            final(self)@ == feed(old(self)@, data@).0,
            parse(old(self)@.stage, old(self)@.buffer + data@) is Malformed <==> pieces is None,
            pieces matches Some(list) ==> pieces_of(list@) == feed(old(self)@, data@).1,
    {
        let mut i: usize = 0;
        while i < data.len()
            invariant
                i <= data@.len(),
                self.state == old(self).state,
                self.buffer@ == old(self).buffer@ + data@.take(i as int),
            decreases data@.len() - i,
        {
            self.buffer.push(data[i]);
            i = i + 1;
            assert(self.buffer@ =~= old(self).buffer@ + data@.take(i as int));
        }
        assert(data@.take(data@.len() as int) =~= data@);
        let ghost buf = self.buffer@;
        let cut = match self.state {
            State::Header => locate_header_end(&self.buffer),
            State::Data => locate_cluster_end(&self.buffer),
        };
        match cut {
            None => None,
            Some(None) => {
                let pieces: Vec<Vec<u8>> = Vec::new();
                assert(pieces_of(pieces@) =~= Seq::empty());
                Some(pieces)
            },
            Some(Some(end)) => {
                // the buffer keeps what lies behind the cut
                let mut piece = self.buffer.split_off(end);
                std::mem::swap(&mut piece, &mut self.buffer);
                self.state = State::Data;
                assert(piece@ =~= buf.take(end as int));
                assert(self.buffer@ =~= buf.skip(end as int));
                let mut pieces: Vec<Vec<u8>> = Vec::new();
                pieces.push(piece);
                assert(pieces_of(pieces@) =~= seq![buf.take(end as int)]);
                Some(pieces)
            },
        }
    }

    /// Takes the next portion of a well-formed stream and returns the pieces
    /// that are complete: at most one for each call.
    pub fn append(&mut self, data: &[u8]) -> (pieces: Vec<Vec<u8>>)
        requires
            !(parse(old(self)@.stage, old(self)@.buffer + data@) is Malformed),
        ensures
            (final(self)@, pieces_of(pieces@)) == feed(old(self)@, data@),
    {
        let pieces = self.try_append(data);
        pieces.unwrap()
    }
}

/// Tells whether the four bytes of `tag` stand in `buf` at `at`.
fn has_tag(buf: &Vec<u8>, at: usize, tag: [u8; 4]) -> (r: bool)
    requires
        at <= buf@.len(),
    ensures
        r == tag_at(buf@, at as int, tag@),
{
    if buf.len() - at < 4 {
        return false;
    }
    let mut i: usize = 0;
    while i < 4
        invariant
            i <= 4,
            at + 4 <= buf@.len() <= usize::MAX,
            forall|k: int| 0 <= k < i ==> buf@[at + k] == tag@[k],
        decreases 4 - i,
    {
        if buf[at + i] != tag[i] {
            return false;
        }
        i = i + 1;
    }
    true
}

/// Tells whether a variable-length integer can be read at `at`.
pub fn varint_is_readable(data: &[u8], at: usize) -> (r: bool)
    ensures
        r == varint_readable(data@, at as int),
{
    if at >= data.len() {
        return false;
    }
    let first = data[at];
    if first == 0 {
        return false;
    }
    let len = varint_len_of(first);
    data.len() - at >= len
}

/// Number of bytes of the variable-length integer that begins with `first`.
fn varint_len_of(first: u8) -> (len: usize)
    ensures
        len == varint_len(first),
{
    if first >= 0x80 {
        1
    } else if first >= 0x40 {
        2
    } else if first >= 0x20 {
        3
    } else if first >= 0x10 {
        4
    } else if first >= 0x08 {
        5
    } else if first >= 0x04 {
        6
    } else if first >= 0x02 {
        7
    } else if first >= 0x01 {
        8
    } else {
        9
    }
}

/// The length marker of an integer of `len` bytes.
fn varint_marker_of(len: usize) -> (marker: u8)
    requires
        1 <= len <= 8,
    ensures
        marker == varint_marker(len as int),
{
    if len == 1 {
        0x80
    } else if len == 2 {
        0x40
    } else if len == 3 {
        0x20
    } else if len == 4 {
        0x10
    } else if len == 5 {
        0x08
    } else if len == 6 {
        0x04
    } else if len == 7 {
        0x02
    } else {
        0x01
    }
}

/// What the first `n` bytes of a variable-length integer stay below.
pub open spec fn prefix_bound(n: int) -> int
    decreases n,
{
    if n <= 1 {
        0x80
    } else {
        256 * prefix_bound(n - 1)
    }
}

/// The first `n` bytes of a readable integer have a value from zero up to,
/// but not including, `prefix_bound(n)`, which fits in 64 bits.
pub proof fn lemma_prefix_bound(buf: Seq<u8>, at: int, n: int)
    requires
        varint_readable(buf, at),
        1 <= n <= varint_len(buf[at]),
    ensures
        0 <= varint_prefix(buf, at, n) < prefix_bound(n),
        prefix_bound(n) <= 0x8000_0000_0000_0000,
    decreases n,
{
    reveal_with_fuel(prefix_bound, 9);
    if n > 1 {
        lemma_prefix_bound(buf, at, n - 1);
    }
}

/// Reads the variable-length integer at `offset` and moves `offset` behind it.
pub fn read_varint(data: &[u8], offset: &mut usize) -> (value: u64)
    requires
        varint_readable(data@, *old(offset) as int),
    ensures
        *final(offset) == *old(offset) + varint_len(data@[*old(offset) as int]),
        value == varint_value(data@, *old(offset) as int),
{
    let at = *offset;
    let total = data.len();
    let len = varint_len_of(data[at]);
    let mut value: u64 = (data[at] - varint_marker_of(len)) as u64;
    let mut i: usize = 1;
    while i < len
        invariant
            1 <= i <= len,
            total == data@.len(),
            len == varint_len(data@[at as int]),
            varint_readable(data@, at as int),
            value == varint_prefix(data@, at as int, i as int),
        decreases len - i,
    {
        proof {
            lemma_prefix_bound(data@, at as int, i as int);
            lemma_prefix_bound(data@, at as int, i + 1);
        }
        value = value * 256 + data[at + i] as u64;
        i = i + 1;
    }
    *offset = at + len;
    value
}

/// The position behind the element whose size field stands at `at`, where
/// that position is inside the buffer.
fn skip_element(buf: &Vec<u8>, at: usize) -> (end: Option<usize>)
    requires
        varint_readable(buf@, at as int),
    ensures
        match end {
            Some(e) => e == element_end(buf@, at as int) && e <= buf@.len(),
            None => element_end(buf@, at as int) > buf@.len(),
        },
{
    let mut offset = at;
    let value = read_varint(buf.as_slice(), &mut offset);
    let remaining = buf.len() - offset;
    if value > remaining as u64 {
        None
    } else {
        Some(offset + value as usize)
    }
}

/// Finds the end of the initialization segment.
fn locate_header_end(buf: &Vec<u8>) -> (cut: Option<Option<usize>>)
    ensures
        cut is None <==> parse_header(buf@) is Malformed,
        cut == Some(None::<usize>) <==> parse_header(buf@) is Incomplete,
        cut matches Some(Some(end)) ==> parse_header(buf@) == Parse::CutAt(end as int) && end
            <= buf@.len(),
{
    let total = buf.len();
    if !has_tag(buf, 0, TAG_EBML) {
        return if total < 4 {
            Some(None)
        } else {
            None
        };
    }
    if !varint_is_readable(buf.as_slice(), 4) {
        return None;
    }
    let segment = match skip_element(buf, 4) {
        Some(segment) => segment,
        None => {
            return None;
        },
    };
    if !has_tag(buf, segment, TAG_SEGMENT) {
        return if buf.len() - segment < 4 {
            Some(None)
        } else {
            None
        };
    }
    if !varint_is_readable(buf.as_slice(), segment + 4) {
        return None;
    }
    let mut offset = segment + 4;
    let size = read_varint(buf.as_slice(), &mut offset);
    if size != UNKNOWN_SIZE {
        return None;
    }
    loop
        invariant
            offset <= buf@.len() == total,
            scan_to_cluster(buf@, offset as int) == parse_header(buf@),
        decreases buf@.len() - offset,
    {
        if buf.len() - offset < 1 {
            return Some(None);
        }
        if has_tag(buf, offset, TAG_CLUSTER) {
            return Some(Some(offset));
        }
        let id_len: usize = if buf[offset] == TAG_VOID {
            1
        } else {
            4
        };
        if buf.len() - offset < id_len {
            return None;
        }
        if !varint_is_readable(buf.as_slice(), offset + id_len) {
            return None;
        }
        proof {
            lemma_prefix_bound(buf@, offset + id_len, varint_len(buf@[offset + id_len]));
        }
        match skip_element(buf, offset + id_len) {
            Some(next) => {
                offset = next;
            },
            None => {
                return Some(None);
            },
        }
    }
}

/// Finds the end of the Cluster at the start of the buffer.
fn locate_cluster_end(buf: &Vec<u8>) -> (cut: Option<Option<usize>>)
    ensures
        cut is None <==> parse_cluster(buf@) is Malformed,
        cut == Some(None::<usize>) <==> parse_cluster(buf@) is Incomplete,
        cut matches Some(Some(end)) ==> parse_cluster(buf@) == Parse::CutAt(end as int) && end
            <= buf@.len(),
{
    if !has_tag(buf, 0, TAG_CLUSTER) {
        return if buf.len() < 4 {
            Some(None)
        } else {
            None
        };
    }
    if !varint_is_readable(buf.as_slice(), 4) {
        return None;
    }
    match skip_element(buf, 4) {
        Some(end) => Some(Some(end)),
        None => Some(None),
    }
}

} // verus!
