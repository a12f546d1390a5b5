//! Fragmentation of messages for data channels, and their reassembly.
//!
//! A data channel carries at most 64 KiB at a time. Each channel message starts
//! with a header of eight octets:
//!
//! ```text
//! [4 octets: message id      u32 big-endian]
//! [2 octets: fragment index  u16 big-endian]
//! [2 octets: fragment total  u16 big-endian]
//! ```
//!
//! A total of one marks a message that fits; its payload is handed on directly.
use crate::error::{NetworkError, NetworkResult};
use crate::octets::{
    buffer_with_capacity, extend_buffer, freeze_buffer, octet_count, octet_slice, shared_octets,
    tail_from,
};
use crate::text::push_decimal;
use crate::{octets, text};
use std::collections::HashMap;
use vstd::prelude::*;
use vstd::slice::slice_subrange;
use vstd::string::StringExecFns;

verus! {

broadcast use vstd::std_specs::hash::group_hash_axioms;

/// The most octets that one data channel message can hold.
pub const DC_MAX_MESSAGE_SIZE: usize = 65536;

/// The octets of the header in front of every fragment.
pub const FRAGMENT_HEADER_SIZE: usize = 8;

/// The most payload octets of one fragment.
pub const DC_MAX_PAYLOAD_SIZE: usize = 65528;

/// The most fragments of one message.
pub const MAX_FRAGMENTS: usize = 65535;

// ── Header ────────────────────────────────────────────────────────────────────

/// `x` as four octets, the most significant first.
pub open spec fn be32(x: u32) -> Seq<u8> {
    seq![
        (x / 0x1000000) as u8,
        (x / 0x10000 % 0x100) as u8,
        (x / 0x100 % 0x100) as u8,
        (x % 0x100) as u8,
    ]
}

/// `x` as two octets, the most significant first.
pub open spec fn be16(x: u16) -> Seq<u8> {
    seq![(x / 0x100) as u8, (x % 0x100) as u8]
}

/// The number that two octets spell at `at`, the most significant first.
pub open spec fn read16(s: Seq<u8>, at: int) -> int {
    s[at] * 0x100 + s[at + 1]
}

/// The number that four octets spell at `at`, the most significant first.
pub open spec fn read32(s: Seq<u8>, at: int) -> int {
    s[at] * 0x1000000 + s[at + 1] * 0x10000 + s[at + 2] * 0x100 + s[at + 3]
}

/// One fragment of a message.
pub struct Fragment {
    pub msg_id: u32,
    pub index: u16,
    pub total: u16,
    pub payload: Seq<u8>,
}

/// The header of a fragment.
pub open spec fn header(msg_id: u32, index: u16, total: u16) -> Seq<u8> {
    be32(msg_id) + be16(index) + be16(total)
}

/// A fragment as a data channel message.
pub open spec fn frame(f: Fragment) -> Seq<u8> {
    header(f.msg_id, f.index, f.total) + f.payload
}

/// The fragment that a data channel message of at least eight octets holds.
pub open spec fn parsed(raw: Seq<u8>) -> Fragment {
    Fragment {
        msg_id: read32(raw, 0) as u32,
        index: read16(raw, 4) as u16,
        total: read16(raw, 6) as u16,
        payload: raw.skip(FRAGMENT_HEADER_SIZE as int),
    }
}

pub(crate) fn push_be16(buf: &mut Vec<u8>, x: u16)
    ensures
        final(buf)@ == old(buf)@ + be16(x),
{
    buf.push((x / 0x100) as u8);
    buf.push((x % 0x100) as u8);
    assert(buf@ =~= old(buf)@ + be16(x));
}

pub(crate) fn push_be32(buf: &mut Vec<u8>, x: u32)
    ensures
        final(buf)@ == old(buf)@ + be32(x),
{
    buf.push((x / 0x1000000) as u8);
    buf.push((x / 0x10000 % 0x100) as u8);
    buf.push((x / 0x100 % 0x100) as u8);
    buf.push((x % 0x100) as u8);
    assert(buf@ =~= old(buf)@ + be32(x));
}

/// Appends octets to a vector.
pub(crate) fn push_octets(buf: &mut Vec<u8>, more: &[u8])
    ensures
        final(buf)@ == old(buf)@ + more@,
{
    buf.extend_from_slice(more);
    assert(buf@ =~= old(buf)@ + more@);
}

/// Appends a fragment header to `buf`.
pub fn encode_fragment_header(buf: &mut Vec<u8>, msg_id: u32, frag_index: u16, total_frags: u16)
    ensures
        final(buf)@ == old(buf)@ + header(msg_id, frag_index, total_frags),
{
    push_be32(buf, msg_id);
    push_be16(buf, frag_index);
    push_be16(buf, total_frags);
    assert(buf@ =~= old(buf)@ + header(msg_id, frag_index, total_frags));
}

fn read_be16(s: &[u8], at: usize) -> (x: u16)
    requires
        at + 2 <= s@.len(),
    ensures
        x == read16(s@, at as int),
{
    s[at] as u16 * 0x100 + s[at + 1] as u16
}

fn read_be32(s: &[u8], at: usize) -> (x: u32)
    requires
        at + 4 <= s@.len(),
    ensures
        x == read32(s@, at as int),
{
    s[at] as u32 * 0x1000000 + s[at + 1] as u32 * 0x10000 + s[at + 2] as u32 * 0x100 + s[at + 3] as u32
}

/// The message of the error for a frame of `len` octets that cannot hold a header.
pub open spec fn too_short_message(len: nat) -> Seq<char> {
    "fragment too short: "@ + text::decimal(len) + " bytes (minimum "@ + text::decimal(
        FRAGMENT_HEADER_SIZE as nat,
    ) + ")"@
}

/// Splits a data channel message into message id, index, total and payload.
///
/// A message that is shorter than the header is a [`NetworkError::DataChannelError`].
pub fn decode_fragment_header(raw: bytes::Bytes) -> (r: NetworkResult<
    (u32, u16, u16, bytes::Bytes),
>)
    ensures
        match r {
            Ok((id, index, total, payload)) => octets::of(raw).len() >= FRAGMENT_HEADER_SIZE
                && (Fragment { msg_id: id, index, total, payload: octets::of(payload) }) == parsed(
                octets::of(raw),
            ),
            Err(e) => octets::of(raw).len() < FRAGMENT_HEADER_SIZE && (e matches
                NetworkError::DataChannelError(m) && m@ == too_short_message(octets::of(raw).len())),
        },
{
    let len: usize = octet_count(&raw);
    if len < FRAGMENT_HEADER_SIZE {
        let mut m = "fragment too short: ".to_owned();
        push_decimal(&mut m, len as u64);
        m.append(" bytes (minimum ");
        push_decimal(&mut m, FRAGMENT_HEADER_SIZE as u64);
        m.append(")");
        return Err(NetworkError::DataChannelError(m));
    }
    let s = octet_slice(&raw);
    let msg_id: u32 = read_be32(s, 0);
    let index: u16 = read_be16(s, 4);
    let total: u16 = read_be16(s, 6);
    let payload = tail_from(&raw, FRAGMENT_HEADER_SIZE);
    Ok((msg_id, index, total, payload))
}

/// Reading a framed fragment gives the fragment back.
pub proof fn decoding_undoes_encoding(f: Fragment)
    ensures
        frame(f).len() == FRAGMENT_HEADER_SIZE + f.payload.len(),
        parsed(frame(f)) == f,
{
    let raw = frame(f);
    assert(raw.skip(FRAGMENT_HEADER_SIZE as int) =~= f.payload);
    assert(read32(raw, 0) == f.msg_id);
    assert(read16(raw, 4) == f.index);
    assert(read16(raw, 6) == f.total);
}

// ── Fragmenting ───────────────────────────────────────────────────────────────

/// The fragments that a message of `len` octets takes.
pub open spec fn fragments_needed(len: nat) -> nat {
    if len <= DC_MAX_PAYLOAD_SIZE {
        1
    } else {
        ((len - 1) / (DC_MAX_PAYLOAD_SIZE as int) + 1) as nat
    }
}

/// The octets of `data` that fragment `index` carries.
pub open spec fn chunk(data: Seq<u8>, index: int) -> Seq<u8> {
    let from = index * DC_MAX_PAYLOAD_SIZE;
    let to = from + DC_MAX_PAYLOAD_SIZE;
    data.subrange(from, if to <= data.len() { to } else { data.len() as int })
}

/// Fragment `index` of the message `data`.
pub open spec fn fragment_of(msg_id: u32, data: Seq<u8>, index: int) -> Fragment {
    Fragment {
        msg_id,
        index: index as u16,
        total: fragments_needed(data.len()) as u16,
        payload: chunk(data, index),
    }
}

/// The message of the error for `len` octets that would take too many fragments.
pub open spec fn too_large_message(len: nat) -> Seq<char> {
    "message too large: "@ + text::decimal(len) + " bytes would require "@ + text::decimal(
        fragments_needed(len),
    ) + " fragments (max "@ + text::decimal(MAX_FRAGMENTS as nat) + ")"@
}

/// The number of fragments that a message of `len` octets takes.
pub fn fragment_count(len: usize) -> (n: usize)
    ensures
        n == fragments_needed(len as nat),
{
    if len <= DC_MAX_PAYLOAD_SIZE {
        1
    } else {
        (len - 1) / DC_MAX_PAYLOAD_SIZE + 1
    }
}

/// One data channel message: a header and its payload.
pub fn fragment_frame(msg_id: u32, index: u16, total: u16, payload: &[u8]) -> (b: bytes::Bytes)
    ensures
        octets::of(b) == frame(Fragment { msg_id, index, total, payload: payload@ }),
{
    let mut buf: Vec<u8> = Vec::new();
    encode_fragment_header(&mut buf, msg_id, index, total);
    push_octets(&mut buf, payload);
    assert(buf@ =~= frame(Fragment { msg_id, index, total, payload: payload@ }));
    shared_octets(buf)
}

/// The data channel messages that carry `data` under `msg_id`, in order.
///
/// A message that would take more than 65535 fragments is a
/// [`NetworkError::DataChannelError`].
pub fn fragment_message(msg_id: u32, data: &bytes::Bytes) -> (r: NetworkResult<Vec<bytes::Bytes>>)
    ensures
        match r {
            Ok(frames) => {
                &&& octets::of(*data).len() <= isize::MAX
                &&& fragments_needed(octets::of(*data).len()) <= MAX_FRAGMENTS
                &&& frames@.len() == fragments_needed(octets::of(*data).len())
                &&& forall|k: int|
                    0 <= k < frames@.len() ==> octets::of(#[trigger] frames@[k]) == frame(
                        fragment_of(msg_id, octets::of(*data), k),
                    )
            },
            Err(e) => fragments_needed(octets::of(*data).len()) > MAX_FRAGMENTS && (e matches
                NetworkError::DataChannelError(m) && m@ == too_large_message(octets::of(*data).len())),
        },
{
    let len: usize = octet_count(data);
    let count: usize = fragment_count(len);
    if count > MAX_FRAGMENTS {
        let mut m = "message too large: ".to_owned();
        push_decimal(&mut m, len as u64);
        m.append(" bytes would require ");
        push_decimal(&mut m, count as u64);
        m.append(" fragments (max ");
        push_decimal(&mut m, MAX_FRAGMENTS as u64);
        m.append(")");
        return Err(NetworkError::DataChannelError(m));
    }
    let total: u16 = count as u16;
    let s = octet_slice(data);
    let mut frames: Vec<bytes::Bytes> = Vec::new();
    let mut index: u16 = 0;
    while index < total
        invariant
            s@ == octets::of(*data),
            s@.len() == len,
            total == count,
            count == fragments_needed(len as nat),
            index <= total,
            frames@.len() == index,
            forall|k: int|
                0 <= k < frames@.len() ==> octets::of(#[trigger] frames@[k]) == frame(
                    fragment_of(msg_id, octets::of(*data), k),
                ),
        decreases total - index,
    {
        let from: usize = index as usize * DC_MAX_PAYLOAD_SIZE;
        let to: usize = if len - from <= DC_MAX_PAYLOAD_SIZE {
            len
        } else {
            from + DC_MAX_PAYLOAD_SIZE
        };
        let piece = slice_subrange(s, from, to);
        frames.push(fragment_frame(msg_id, index, total, piece));
        index = index + 1;
    }
    Ok(frames)
}

// ── Reassembly ────────────────────────────────────────────────────────────────

/// A message of which some fragments have arrived.
pub struct Partial {
    /// The total that the first fragment named.
    pub total: u16,
    /// The payloads that have arrived, by index.
    pub parts: Map<u16, Seq<u8>>,
}

/// The payloads with an index below `below`, joined by ascending index.
pub open spec fn assembled(parts: Map<u16, Seq<u8>>, below: nat) -> Seq<u8>
    decreases below,
{
    if below == 0 {
        Seq::empty()
    } else {
        let last = (below - 1) as u16;
        assembled(parts, (below - 1) as nat) + if parts.contains_key(last) {
            parts[last]
        } else {
            Seq::empty()
        }
    }
}

/// All payloads, joined by ascending index.
pub open spec fn joined(parts: Map<u16, Seq<u8>>) -> Seq<u8> {
    assembled(parts, 0x10000)
}

/// The message under `msg_id` once `f` has been added to it.
pub open spec fn extended(pending: Map<u32, Partial>, f: Fragment) -> Partial {
    if pending.contains_key(f.msg_id) {
        Partial {
            total: pending[f.msg_id].total,
            parts: pending[f.msg_id].parts.insert(f.index, f.payload),
        }
    } else {
        Partial { total: f.total, parts: Map::<u16, Seq<u8>>::empty().insert(f.index, f.payload) }
    }
}

/// What is pending after `f` arrives, and the message it completes, if any.
pub open spec fn accepted(pending: Map<u32, Partial>, f: Fragment) -> (
    Map<u32, Partial>,
    Option<Seq<u8>>,
) {
    let next = extended(pending, f);
    if next.parts.len() == next.total {
        (pending.remove(f.msg_id), Some(joined(next.parts)))
    } else {
        (pending.insert(f.msg_id, next), None)
    }
}

/// The payloads of a fragment map.
pub open spec fn payloads(m: Map<u16, bytes::Bytes>) -> Map<u16, Seq<u8>> {
    m.map_values(|b: bytes::Bytes| octets::of(b))
}

/// The octets of an optional buffer.
pub open spec fn octets_opt(b: Option<bytes::Bytes>) -> Option<Seq<u8>> {
    match b {
        Some(b) => Some(octets::of(b)),
        None => None,
    }
}

/// Each payload is one that a buffer can hold.
spec fn all_short(parts: Map<u16, Seq<u8>>) -> bool {
    forall|k: u16| #[trigger] parts.contains_key(k) ==> parts[k].len() <= isize::MAX
}

struct FragmentEntry {
    total: u16,
    octet_total: u128,
    fragments: HashMap<u16, bytes::Bytes>,
}

impl FragmentEntry {
    spec fn model(self) -> Partial {
        Partial { total: self.total, parts: payloads(self.fragments@) }
    }

    spec fn wf(self) -> bool {
        &&& self.octet_total == joined(payloads(self.fragments@)).len()
        &&& all_short(payloads(self.fragments@))
    }
}

/// Fragments of messages that are not complete yet, by message id.
pub struct ReassemblyBuffer {
    pending: HashMap<u32, FragmentEntry>,
}

impl View for ReassemblyBuffer {
    type V = Map<u32, Partial>;

    closed spec fn view(&self) -> Map<u32, Partial> {
        self.pending@.map_values(|e: FragmentEntry| e.model())
    }
}

proof fn lemma_assembled_insert_len(parts: Map<u16, Seq<u8>>, k: u16, v: Seq<u8>, below: nat)
    requires
        below <= 0x10000,
    ensures
        assembled(parts.insert(k, v), below).len() == assembled(parts, below).len() + if k < below {
            v.len() - if parts.contains_key(k) {
                parts[k].len()
            } else {
                0
            }
        } else {
            0
        },
    decreases below,
{
    if below > 0 {
        lemma_assembled_insert_len(parts, k, v, (below - 1) as nat);
    }
}

proof fn lemma_assembled_len(parts: Map<u16, Seq<u8>>, below: nat)
    requires
        all_short(parts),
        below <= 0x10000,
    ensures
        assembled(parts, below).len() <= below * isize::MAX,
    decreases below,
{
    if below > 0 {
        lemma_assembled_len(parts, (below - 1) as nat);
        assert(below * isize::MAX == (below - 1) * isize::MAX + isize::MAX) by (nonlinear_arith)
            requires
                below > 0,
        ;
    }
}

proof fn lemma_assembled_prefix(parts: Map<u16, Seq<u8>>, low: nat, high: nat)
    requires
        low <= high,
    ensures
        assembled(parts, low).len() <= assembled(parts, high).len(),
        assembled(parts, low) =~= assembled(parts, high).take(assembled(parts, low).len() as int),
    decreases high,
{
    if low < high {
        lemma_assembled_prefix(parts, low, (high - 1) as nat);
    }
}

proof fn lemma_assembled_empty(below: nat)
    ensures
        assembled(Map::<u16, Seq<u8>>::empty(), below) == Seq::<u8>::empty(),
    decreases below,
{
    if below > 0 {
        lemma_assembled_empty((below - 1) as nat);
        assert(assembled(Map::<u16, Seq<u8>>::empty(), below) =~= Seq::<u8>::empty());
    }
}

/// Joins the payloads of a complete message.
fn assemble(fragments: &HashMap<u16, bytes::Bytes>, octet_total: usize) -> (b: bytes::Bytes)
    requires
        octet_total == joined(payloads(fragments@)).len(),
        octet_total <= isize::MAX,
    ensures
        octets::of(b) == joined(payloads(fragments@)),
{
    let ghost parts = payloads(fragments@);
    let mut out = buffer_with_capacity(octet_total);
    let mut done: usize = 0;
    let mut index: u32 = 0;
    while done < octet_total
        invariant
            parts == payloads(fragments@),
            octet_total == joined(parts).len(),
            octet_total <= isize::MAX,
            index <= 0x10000,
            octets::written(out) == assembled(parts, index as nat),
            done == octets::written(out).len(),
        decreases 0x10000 - index,
    {
        let key: u16 = index as u16;
        proof {
            lemma_assembled_prefix(parts, (index + 1) as nat, 0x10000);
        }
        match fragments.get(&key) {
            Some(piece) => {
                let s = octet_slice(piece);
                assert(parts[key] == octets::of(*piece));
                extend_buffer(&mut out, s);
                done = done + s.len();
            },
            None => {},
        }
        assert(octets::written(out) =~= assembled(parts, (index + 1) as nat));
        index = index + 1;
    }
    proof {
        lemma_assembled_prefix(parts, index as nat, 0x10000);
        assert(octets::written(out) =~= joined(parts));
    }
    freeze_buffer(out)
}

impl ReassemblyBuffer {
    /// The buffer's bookkeeping of sizes is right.
    pub closed spec fn wf(&self) -> bool {
        forall|id: u32| #[trigger] self.pending@.contains_key(id) ==> self.pending@[id].wf()
    }

    /// One buffer can hold the message that a fragment completes, if it completes one.
    pub open spec fn room_for(&self, f: Fragment) -> bool {
        accepted(self@, f).1 matches Some(message) ==> message.len() <= isize::MAX
    }

    /// A buffer with nothing pending.
    pub fn new() -> (b: Self)
        ensures
            b.wf(),
            b@ == Map::<u32, Partial>::empty(),
    {
        let b = ReassemblyBuffer { pending: HashMap::new() };
        assert(b@ =~= Map::<u32, Partial>::empty());
        b
    }

    /// Whether one buffer can hold the message that a fragment completes, if it completes
    /// one.
    pub fn has_room(
        &self,
        msg_id: u32,
        frag_index: u16,
        total_frags: u16,
        payload: &bytes::Bytes,
    ) -> (r: bool)
        requires
            self.wf(),
        ensures
            r == self.room_for(
                Fragment {
                    msg_id,
                    index: frag_index,
                    total: total_frags,
                    payload: octets::of(*payload),
                },
            ),
    {
        let size: usize = octet_count(payload);
        let ghost more = octets::of(*payload);
        match self.pending.get(&msg_id) {
            Some(entry) => {
                let ghost parts = payloads(entry.fragments@);
                assert(self@[msg_id] == entry.model());
                assert(entry.wf());
                assert(parts.dom() =~= entry.fragments@.dom());
                proof {
                    lemma_assembled_insert_len(parts, frag_index, more, 0x10000);
                    lemma_assembled_len(parts, 0x10000);
                    if parts.contains_key(frag_index) {
                        lemma_assembled_insert_len(parts, frag_index, Seq::<u8>::empty(), 0x10000);
                    }
                }
                match entry.fragments.get(&frag_index) {
                    Some(earlier) => {
                        assert(parts[frag_index] == octets::of(*earlier));
                        entry.fragments.len() != entry.total as usize || entry.octet_total
                            - octet_count(earlier) as u128 + size as u128 <= isize::MAX as u128
                    },
                    None => {
                        let announced: usize = entry.total as usize;
                        announced == 0 || entry.fragments.len() != announced - 1
                            || entry.octet_total + size as u128 <= isize::MAX as u128
                    },
                }
            },
            None => {
                proof {
                    let parts = Map::<u16, Seq<u8>>::empty();
                    lemma_assembled_empty(0x10000);
                    lemma_assembled_insert_len(parts, frag_index, more, 0x10000);
                }
                true
            },
        }
    }

    /// Adds a fragment. Returns the whole message once as many different indices
    /// have arrived as its first fragment announced.
    pub fn insert(
        &mut self,
        msg_id: u32,
        frag_index: u16,
        total_frags: u16,
        payload: bytes::Bytes,
    ) -> (r: Option<bytes::Bytes>)
        requires
            old(self).wf(),
            old(self).room_for(
                Fragment {
                    msg_id,
                    index: frag_index,
                    total: total_frags,
                    payload: octets::of(payload),
                },
            ),
        ensures
            final(self).wf(),
            ({
                let f = Fragment {
                    msg_id,
                    index: frag_index,
                    total: total_frags,
                    payload: octets::of(payload),
                };
                (final(self)@, octets_opt(r)) == accepted(old(self)@, f)
            }),
    {
        let ghost f = Fragment {
            msg_id,
            index: frag_index,
            total: total_frags,
            payload: octets::of(payload),
        };
        let ghost before = self@;
        let mut entry = match self.pending.remove(&msg_id) {
            Some(entry) => entry,
            None => {
                let fresh = FragmentEntry {
                    total: total_frags,
                    octet_total: 0,
                    fragments: HashMap::new(),
                };
                proof {
                    assert(payloads(fresh.fragments@) =~= Map::<u16, Seq<u8>>::empty());
                    lemma_assembled_empty(0x10000);
                }
                fresh
            },
        };
        assert(self@ =~= before.remove(msg_id));
        let ghost parts = payloads(entry.fragments@);
        assert(before.contains_key(msg_id) ==> before[msg_id] == entry.model());
        proof {
            lemma_assembled_insert_len(parts, frag_index, octets::of(payload), 0x10000);
            lemma_assembled_len(parts, 0x10000);
            if parts.contains_key(frag_index) {
                lemma_assembled_insert_len(parts, frag_index, Seq::<u8>::empty(), 0x10000);
            }
        }
        let size: usize = octet_count(&payload);
        let replaced: usize = match entry.fragments.insert(frag_index, payload) {
            Some(earlier) => octet_count(&earlier),
            None => 0,
        };
        assert(payloads(entry.fragments@) =~= parts.insert(frag_index, octets::of(payload)));
        entry.octet_total = entry.octet_total - replaced as u128 + size as u128;
        assert(entry.model().parts =~= extended(before, f).parts);
        assert(entry.model().parts.dom() =~= entry.fragments@.dom());
        if entry.fragments.len() == entry.total as usize {
            let whole = assemble(&entry.fragments, entry.octet_total as usize);
            Some(whole)
        } else {
            self.pending.insert(msg_id, entry);
            assert(self@ =~= accepted(before, f).0);
            None
        }
    }
}

// ── Laws ──────────────────────────────────────────────────────────────────────

/// A header takes eight octets behind what is there: the message id in four, the index in two
/// and the total in two, each with the most significant octet first.
pub proof fn a_header_is_eight_octets(
    buf: &mut Vec<u8>,
    msg_id: u32,
    frag_index: u16,
    total_frags: u16,
)
    requires
        call_ensures(encode_fragment_header, (buf, msg_id, frag_index, total_frags), ()),
    ensures
        ({
            let n = old(buf)@.len() as int;
            let b = final(buf)@;
            &&& b.len() == n + 8
            &&& b.take(n) == old(buf)@
            &&& b[n] * 0x1000000 + b[n + 1] * 0x10000 + b[n + 2] * 0x100 + b[n + 3] == msg_id
            &&& b[n + 4] * 0x100 + b[n + 5] == frag_index
            &&& b[n + 6] * 0x100 + b[n + 7] == total_frags
        }),
{
    let n = old(buf)@.len() as int;
    let h = header(msg_id, frag_index, total_frags);
    assert(final(buf)@.take(n) =~= old(buf)@);
    assert forall|i: int| 0 <= i < 8 implies final(buf)@[n + i] == #[trigger] h[i] by {}
    assert(final(buf)@[n + 0] == h[0]);
    assert(final(buf)@[n + 1] == h[1]);
    assert(final(buf)@[n + 2] == h[2]);
    assert(final(buf)@[n + 3] == h[3]);
    assert(final(buf)@[n + 4] == h[4]);
    assert(final(buf)@[n + 5] == h[5]);
    assert(final(buf)@[n + 6] == h[6]);
    assert(final(buf)@[n + 7] == h[7]);
}

/// What is written behind a header is read back with what the header says. Less than eight
/// octets are no fragment.
pub proof fn a_fragment_is_read_as_it_was_written(
    buf: &mut Vec<u8>,
    msg_id: u32,
    frag_index: u16,
    total_frags: u16,
    payload: Seq<u8>,
    raw: bytes::Bytes,
    r: NetworkResult<(u32, u16, u16, bytes::Bytes)>,
)
    requires
        old(buf)@.len() == 0,
        call_ensures(encode_fragment_header, (buf, msg_id, frag_index, total_frags), ()),
        call_ensures(decode_fragment_header, (raw,), r),
    ensures
        octets::of(raw) == final(buf)@ + payload ==> (r matches Ok((id, index, total, rest)) && id
            == msg_id && index == frag_index && total == total_frags && octets::of(rest)
            == payload),
        octets::of(raw).len() < 8 <==> r is Err,
        r matches Err(e) ==> (e matches NetworkError::DataChannelError(m) && m@
            == "fragment too short: "@ + text::decimal(octets::of(raw).len())
            + " bytes (minimum "@ + text::decimal(8) + ")"@),
{
    let f = Fragment { msg_id, index: frag_index, total: total_frags, payload };
    decoding_undoes_encoding(f);
    assert(old(buf)@ + header(msg_id, frag_index, total_frags) =~= header(
        msg_id,
        frag_index,
        total_frags,
    ));
}

/// A message takes as few fragments of 65528 octets as hold it, and at least one.
pub proof fn a_message_takes_no_more_fragments_than_it_needs(len: usize, n: usize)
    requires
        call_ensures(fragment_count, (len,), n),
    ensures
        n >= 1,
        n * 65528 >= len,
        n > 1 ==> (n - 1) * 65528 < len,
{
}

/// A message is sent exactly if 65535 fragments hold it. Its fragments are numbered from zero
/// under one id and total, none takes more than 64 KiB, and their payloads make the message.
pub proof fn fragments_hold_the_message(
    msg_id: u32,
    data: bytes::Bytes,
    r: NetworkResult<Vec<bytes::Bytes>>,
    k: int,
    read: NetworkResult<(u32, u16, u16, bytes::Bytes)>,
    len: usize,
    count: usize,
)
    requires
        call_ensures(fragment_message, (msg_id, &data), r),
        len == octets::of(data).len(),
        call_ensures(fragment_count, (len,), count),
        (r is Ok && 0 <= k < r->Ok_0@.len()) ==> call_ensures(
            decode_fragment_header,
            (r->Ok_0@[k],),
            read,
        ),
    ensures
        r is Ok <==> count <= 65535,
        r matches Err(e) ==> (e matches NetworkError::DataChannelError(m) && m@
            == "message too large: "@ + text::decimal(len as nat) + " bytes would require "@
            + text::decimal(count as nat) + " fragments (max "@ + text::decimal(65535) + ")"@),
        r matches Ok(frames) ==> {
            &&& frames@.len() == count
            &&& 0 <= k < frames@.len() ==> {
                &&& octets::of(frames@[k]).len() <= 65536
                &&& read matches Ok((id, index, total, payload)) && id == msg_id && index == k
                    && total == count && octets::of(payload) == octets::of(data).subrange(
                    k * 65528,
                    if k == count - 1 {
                        len as int
                    } else {
                        (k + 1) * 65528
                    },
                )
            }
        },
{
    if r is Ok && 0 <= k < r->Ok_0@.len() {
        let f = fragment_of(msg_id, octets::of(data), k);
        assert(octets::of(r->Ok_0@[k]) == frame(f));
        decoding_undoes_encoding(f);
        assert(f.payload == chunk(octets::of(data), k));
        assert(k * 65528 <= len);
        if k == count - 1 {
            assert((k + 1) * 65528 >= len);
        } else {
            assert((k + 1) * 65528 <= len);
        }
    }
}

/// A single frame is a header and the payload.
pub proof fn a_frame_is_a_header_and_a_payload(
    msg_id: u32,
    index: u16,
    total: u16,
    payload: &[u8],
    b: bytes::Bytes,
    r: NetworkResult<(u32, u16, u16, bytes::Bytes)>,
)
    requires
        call_ensures(fragment_frame, (msg_id, index, total, payload), b),
        call_ensures(decode_fragment_header, (b,), r),
    ensures
        r matches Ok((id, i, t, rest)) && id == msg_id && i == index && t == total && octets::of(rest)
            == payload@,
{
    decoding_undoes_encoding(Fragment { msg_id, index, total, payload: payload@ });
}

/// A fragment completes its message exactly if as many different indices have arrived as the
/// first fragment of the message announced. Then the message is forgotten, and otherwise it is
/// kept; other messages are neither.
pub proof fn a_message_is_complete_when_every_index_is_there(
    b: &mut ReassemblyBuffer,
    msg_id: u32,
    frag_index: u16,
    total_frags: u16,
    payload: bytes::Bytes,
    r: Option<bytes::Bytes>,
    other: u32,
)
    requires
        b.wf(),
        b.room_for(
            Fragment {
                msg_id,
                index: frag_index,
                total: total_frags,
                payload: octets::of(payload),
            },
        ),
        call_ensures(
            ReassemblyBuffer::insert,
            (b, msg_id, frag_index, total_frags, payload),
            r,
        ),
    ensures
        ({
            let known = old(b)@.contains_key(msg_id);
            let indices = if known {
                old(b)@[msg_id].parts.dom().insert(frag_index)
            } else {
                Set::<u16>::empty().insert(frag_index)
            };
            let announced = if known {
                old(b)@[msg_id].total
            } else {
                total_frags
            };
            &&& r is Some <==> indices.len() == announced
            &&& final(b)@.contains_key(msg_id) <==> r is None
            &&& r is None ==> final(b)@[msg_id].total == announced && final(b)@[msg_id].parts.dom()
                == indices && final(b)@[msg_id].parts[frag_index] == octets::of(payload)
            &&& !known && total_frags == 1 ==> (r matches Some(whole) && octets::of(whole)
                == octets::of(payload))
        }),
        other != msg_id ==> (final(b)@.contains_key(other) <==> old(b)@.contains_key(other)) && (
        old(b)@.contains_key(other) ==> final(b)@[other] == old(b)@[other]),
{
    let f = Fragment {
        msg_id,
        index: frag_index,
        total: total_frags,
        payload: octets::of(payload),
    };
    let next = extended(old(b)@, f);
    let indices = if old(b)@.contains_key(msg_id) {
        old(b)@[msg_id].parts.dom().insert(frag_index)
    } else {
        Set::<u16>::empty().insert(frag_index)
    };
    assert(next.parts.dom() =~= indices);
    if !old(b)@.contains_key(msg_id) {
        lemma_assembled_single(frag_index, octets::of(payload), 0x10000);
    }
}

proof fn lemma_assembled_single(k: u16, v: Seq<u8>, below: nat)
    requires
        below <= 0x10000,
    ensures
        assembled(Map::<u16, Seq<u8>>::empty().insert(k, v), below) == if k < below {
            v
        } else {
            Seq::<u8>::empty()
        },
    decreases below,
{
    if below > 0 {
        lemma_assembled_single(k, v, (below - 1) as nat);
        assert(assembled(Map::<u16, Seq<u8>>::empty().insert(k, v), below) =~= if k < below {
            v
        } else {
            Seq::<u8>::empty()
        });
    }
}

/// A new buffer holds nothing. There is room for a fragment of a message that is not complete
/// with it, and for one that makes a message of its own exactly if one buffer can hold it.
pub proof fn only_a_complete_message_needs_room(
    b: ReassemblyBuffer,
    fresh: ReassemblyBuffer,
    msg_id: u32,
    frag_index: u16,
    total_frags: u16,
    payload: bytes::Bytes,
    r: bool,
)
    requires
        b.wf(),
        call_ensures(ReassemblyBuffer::new, (), fresh),
        call_ensures(
            ReassemblyBuffer::has_room,
            (&b, msg_id, frag_index, total_frags, &payload),
            r,
        ),
    ensures
        fresh@.len() == 0 && fresh.wf(),
        !b@.contains_key(msg_id) && total_frags != 1 ==> r,
        !b@.contains_key(msg_id) && total_frags == 1 ==> (r <==> octets::of(payload).len()
            <= isize::MAX),
        b@.contains_key(msg_id) && b@[msg_id].parts.dom().insert(frag_index).len()
            != b@[msg_id].total ==> r,
{
    let f = Fragment {
        msg_id,
        index: frag_index,
        total: total_frags,
        payload: octets::of(payload),
    };
    let next = extended(b@, f);
    if !b@.contains_key(msg_id) {
        assert(next.parts.dom() =~= Set::<u16>::empty().insert(frag_index));
        lemma_assembled_single(frag_index, octets::of(payload), 0x10000);
    } else {
        assert(next.parts.dom() =~= b@[msg_id].parts.dom().insert(frag_index));
    }
}

}
