//! What reassembly promises of whole messages, whatever order their fragments
//! arrive in.
use crate::transport::fragment;
use crate::transport::fragment::{Fragment, Partial, DC_MAX_PAYLOAD_SIZE, MAX_FRAGMENTS};
use vstd::prelude::*;

verus! {

/// What is pending, and what is handed on, when a data channel message arrives:
/// a total of one bypasses the buffer.
pub open spec fn received(pending: Map<u32, Partial>, f: Fragment) -> (
    Map<u32, Partial>,
    Option<Seq<u8>>,
) {
    if f.total == 1 {
        (pending, Some(f.payload))
    } else {
        fragment::accepted(pending, f)
    }
}

/// What is pending after the fragments have arrived in this order.
pub open spec fn pending_after(pending: Map<u32, Partial>, arrivals: Seq<Fragment>) -> Map<
    u32,
    Partial,
>
    decreases arrivals.len(),
{
    if arrivals.len() == 0 {
        pending
    } else {
        received(pending_after(pending, arrivals.drop_last()), arrivals.last()).0
    }
}

/// What arrival number `k` hands on.
pub open spec fn handed_on(pending: Map<u32, Partial>, arrivals: Seq<Fragment>, k: int) -> Option<
    Seq<u8>,
> {
    received(pending_after(pending, arrivals.take(k)), arrivals[k]).1
}

/// What is pending after the fragments have been inserted in this order, those with a
/// total of one too.
pub open spec fn inserted_after(pending: Map<u32, Partial>, inserts: Seq<Fragment>) -> Map<
    u32,
    Partial,
>
    decreases inserts.len(),
{
    if inserts.len() == 0 {
        pending
    } else {
        fragment::accepted(inserted_after(pending, inserts.drop_last()), inserts.last()).0
    }
}

/// What insert number `k` returns.
pub open spec fn returned(pending: Map<u32, Partial>, inserts: Seq<Fragment>, k: int) -> Option<
    Seq<u8>,
> {
    fragment::accepted(inserted_after(pending, inserts.take(k)), inserts[k]).1
}

/// The fragments under `msg_id` are of a message of these payloads, each under its index.
/// Those under other ids are free.
pub open spec fn carries_payloads(
    arrivals: Seq<Fragment>,
    msg_id: u32,
    payloads: Seq<Seq<u8>>,
) -> bool {
    forall|k: int|
        0 <= k < arrivals.len() && (#[trigger] arrivals[k]).msg_id == msg_id ==> arrivals[k].index
            < payloads.len() && arrivals[k].total == payloads.len() && arrivals[k].payload
            == payloads[arrivals[k].index as int]
}

/// The arrivals under `msg_id` are fragments of `data`. Arrivals under other ids
/// are free.
pub open spec fn carries(arrivals: Seq<Fragment>, msg_id: u32, data: Seq<u8>) -> bool {
    forall|k: int|
        0 <= k < arrivals.len() && (#[trigger] arrivals[k]).msg_id == msg_id ==> arrivals[k].index
            < fragment::fragments_needed(data.len()) && arrivals[k] == fragment::fragment_of(
            msg_id,
            data,
            arrivals[k].index as int,
        )
}

/// Fragment `index` of the message is among the arrivals.
pub open spec fn arrived(arrivals: Seq<Fragment>, msg_id: u32, index: u16) -> bool {
    exists|k: int|
        0 <= k < arrivals.len() && (#[trigger] arrivals[k]).msg_id == msg_id && arrivals[k].index
            == index
}

/// Each fragment below `n` of the message is among the arrivals.
pub open spec fn all_arrived(arrivals: Seq<Fragment>, msg_id: u32, n: nat) -> bool {
    forall|i: u16| i < n ==> #[trigger] arrived(arrivals, msg_id, i)
}

/// No fragment of the message is among the arrivals twice.
pub open spec fn none_twice(arrivals: Seq<Fragment>, msg_id: u32) -> bool {
    forall|j: int, k: int|
        0 <= j < k < arrivals.len() && (#[trigger] arrivals[j]).msg_id == msg_id && (
        #[trigger] arrivals[k]).msg_id == msg_id ==> arrivals[j].index != arrivals[k].index
}

/// No fragment of the message comes after arrival number `k`.
pub open spec fn is_last_of(arrivals: Seq<Fragment>, msg_id: u32, k: int) -> bool {
    forall|j: int| k < j < arrivals.len() ==> (#[trigger] arrivals[j]).msg_id != msg_id
}

/// The payloads that a message is cut into.
pub open spec fn cut(data: Seq<u8>) -> Seq<Seq<u8>> {
    Seq::new(fragment::fragments_needed(data.len()), |i: int| fragment::chunk(data, i))
}

// ── Sets of indices ───────────────────────────────────────────────────────────

/// The indices that have arrived.
spec fn arrived_set(arrivals: Seq<Fragment>, msg_id: u32) -> Set<u16> {
    Set::new(|i: u16| arrived(arrivals, msg_id, i))
}

spec fn below(n: nat) -> Set<u16> {
    Set::new(|i: u16| i < n)
}

proof fn lemma_below(n: nat)
    requires
        n <= 0x10000,
    ensures
        below(n).finite(),
        below(n).len() == n,
    decreases n,
{
    if n == 0 {
        assert(below(n) =~= Set::<u16>::empty());
    } else {
        lemma_below((n - 1) as nat);
        assert(below(n) =~= below((n - 1) as nat).insert((n - 1) as u16));
    }
}

/// What has arrived is in what has arrived with one fragment more, which adds its index.
proof fn lemma_arrived_push(arrivals: Seq<Fragment>, msg_id: u32)
    requires
        arrivals.len() > 0,
    ensures
        arrived_set(arrivals, msg_id) == if arrivals.last().msg_id == msg_id {
            arrived_set(arrivals.drop_last(), msg_id).insert(arrivals.last().index)
        } else {
            arrived_set(arrivals.drop_last(), msg_id)
        },
{
    let front = arrivals.drop_last();
    let got = arrived_set(arrivals, msg_id);
    let seen = arrived_set(front, msg_id);
    let f = arrivals.last();
    assert(arrivals[arrivals.len() - 1] == f);
    assert forall|i: u16| seen.contains(i) implies got.contains(i) by {
        let k = choose|k: int|
            0 <= k < front.len() && (#[trigger] front[k]).msg_id == msg_id && front[k].index == i;
        assert(arrivals[k] == front[k]);
    }
    assert forall|i: u16| got.contains(i) implies seen.contains(i) || (f.msg_id == msg_id && i
        == f.index) by {
        let k = choose|k: int|
            0 <= k < arrivals.len() && (#[trigger] arrivals[k]).msg_id == msg_id
                && arrivals[k].index == i;
        if k < front.len() {
            assert(front[k] == arrivals[k]);
        }
    }
    if f.msg_id == msg_id {
        assert(got =~= seen.insert(f.index));
    } else {
        assert(got =~= seen);
    }
}

// ── Joined payloads ───────────────────────────────────────────────────────────

/// The payloads of the indices in `got`.
spec fn parts_of(payloads: Seq<Seq<u8>>, got: Set<u16>) -> Map<u16, Seq<u8>> {
    Map::new(|i: u16| got.contains(i), |i: u16| payloads[i as int])
}

/// The payloads below `n`, joined by index, are the first `n` of them one after the other.
proof fn lemma_assembled(payloads: Seq<Seq<u8>>, n: nat)
    requires
        n <= 0x10000,
        payloads.len() <= 0x10000,
    ensures
        fragment::assembled(parts_of(payloads, below(payloads.len())), n) == payloads.take(
            if n <= payloads.len() {
                n as int
            } else {
                payloads.len() as int
            },
        ).flatten(),
    decreases n,
{
    let parts = parts_of(payloads, below(payloads.len()));
    if n == 0 {
        assert(payloads.take(0) =~= Seq::<Seq<u8>>::empty());
    } else {
        lemma_assembled(payloads, (n - 1) as nat);
        if n <= payloads.len() {
            let first = payloads.take(n as int);
            assert(first.drop_last() =~= payloads.take(n - 1));
            first.lemma_flatten_and_flatten_alt_are_equivalent();
            first.drop_last().lemma_flatten_and_flatten_alt_are_equivalent();
            assert(first.last() == payloads[n - 1]);
            assert(below(payloads.len()).contains((n - 1) as u16));
        } else {
            assert(!below(payloads.len()).contains((n - 1) as u16));
        }
        assert(fragment::assembled(parts, n) =~= payloads.take(
            if n <= payloads.len() {
                n as int
            } else {
                payloads.len() as int
            },
        ).flatten());
    }
}

proof fn lemma_joined(payloads: Seq<Seq<u8>>)
    requires
        payloads.len() <= 0x10000,
    ensures
        fragment::joined(parts_of(payloads, below(payloads.len()))) == payloads.flatten(),
{
    lemma_assembled(payloads, 0x10000);
    assert(payloads.take(payloads.len() as int) =~= payloads);
}

/// The first `n` payloads of a message are its front.
proof fn lemma_cut(data: Seq<u8>, n: nat)
    requires
        n <= fragment::fragments_needed(data.len()),
    ensures
        cut(data).take(n as int).flatten() == data.take(
            if n * DC_MAX_PAYLOAD_SIZE <= data.len() {
                n * DC_MAX_PAYLOAD_SIZE
            } else {
                data.len() as int
            },
        ),
    decreases n,
{
    let first = cut(data).take(n as int);
    if n == 0 {
        assert(first =~= Seq::<Seq<u8>>::empty());
        assert(data.take(0) =~= Seq::<u8>::empty());
    } else {
        lemma_cut(data, (n - 1) as nat);
        assert(first.drop_last() =~= cut(data).take(n - 1));
        first.lemma_flatten_and_flatten_alt_are_equivalent();
        first.drop_last().lemma_flatten_and_flatten_alt_are_equivalent();
        assert(first.last() == fragment::chunk(data, n - 1));
        assert(first.flatten() =~= data.take(
            if n * DC_MAX_PAYLOAD_SIZE <= data.len() {
                n * DC_MAX_PAYLOAD_SIZE
            } else {
                data.len() as int
            },
        ));
    }
}

/// The payloads that a message is cut into, one after the other, are the message.
pub proof fn chunks_make_the_message(data: Seq<u8>)
    ensures
        cut(data).flatten() == data,
{
    let n = fragment::fragments_needed(data.len());
    lemma_cut(data, n);
    assert(cut(data).take(n as int) =~= cut(data));
    assert(data.take(data.len() as int) =~= data);
}

// ── Both ways of taking fragments in ──────────────────────────────────────────

/// Fragments arrive, or are inserted without the bypass.
spec fn taken(bypass: bool, pending: Map<u32, Partial>, f: Fragment) -> (
    Map<u32, Partial>,
    Option<Seq<u8>>,
) {
    if bypass {
        received(pending, f)
    } else {
        fragment::accepted(pending, f)
    }
}

spec fn taken_after(bypass: bool, pending: Map<u32, Partial>, arrivals: Seq<Fragment>) -> Map<
    u32,
    Partial,
> {
    if bypass {
        pending_after(pending, arrivals)
    } else {
        inserted_after(pending, arrivals)
    }
}

spec fn gives(bypass: bool, pending: Map<u32, Partial>, arrivals: Seq<Fragment>, k: int) -> Option<
    Seq<u8>,
> {
    taken(bypass, taken_after(bypass, pending, arrivals.take(k)), arrivals[k]).1
}

/// While a fragment is missing, exactly the arrived fragments are pending.
proof fn lemma_pending(
    bypass: bool,
    pending: Map<u32, Partial>,
    arrivals: Seq<Fragment>,
    msg_id: u32,
    payloads: Seq<Seq<u8>>,
    missing: u16,
)
    requires
        !pending.contains_key(msg_id),
        payloads.len() <= MAX_FRAGMENTS,
        carries_payloads(arrivals, msg_id, payloads),
        missing < payloads.len(),
        !arrived(arrivals, msg_id, missing),
    ensures
        ({
            let after = taken_after(bypass, pending, arrivals);
            let got = arrived_set(arrivals, msg_id);
            &&& got.subset_of(below(payloads.len()))
            &&& after.contains_key(msg_id) <==> !got.is_empty()
            &&& after.contains_key(msg_id) ==> after[msg_id] == (Partial {
                total: payloads.len() as u16,
                parts: parts_of(payloads, got),
            })
        }),
    decreases arrivals.len(),
{
    let n = payloads.len();
    let got = arrived_set(arrivals, msg_id);
    if arrivals.len() == 0 {
        assert(got =~= Set::<u16>::empty());
    } else {
        let front = arrivals.drop_last();
        let f = arrivals.last();
        let seen = arrived_set(front, msg_id);
        assert(arrivals[arrivals.len() - 1] == f);
        assert forall|k: int| 0 <= k < front.len() && (#[trigger] front[k]).msg_id == msg_id implies
            front[k].index < n && front[k].total == n && front[k].payload
            == payloads[front[k].index as int] by {
            assert(arrivals[k] == front[k]);
        }
        lemma_arrived_push(arrivals, msg_id);
        assert(got.contains(missing) == arrived(arrivals, msg_id, missing));
        assert(seen.contains(missing) == arrived(front, msg_id, missing));
        lemma_pending(bypass, pending, front, msg_id, payloads, missing);
        let earlier = taken_after(bypass, pending, front);
        if f.msg_id == msg_id {
            assert(got.contains(f.index));
            let next = fragment::extended(earlier, f);
            if !earlier.contains_key(msg_id) {
                assert(seen =~= Set::<u16>::empty());
            }
            assert(next.parts =~= parts_of(payloads, got));
            lemma_below(n);
            assert(below(n).contains(missing));
            assert(got.subset_of(below(n).remove(missing)));
            vstd::set_lib::lemma_len_subset(got, below(n).remove(missing));
            assert(next.parts.dom() =~= got);
            assert(next.parts.len() < n);
        }
    }
}

/// The last fragment to arrive gives the whole message, and nothing of it stays.
proof fn lemma_restored(
    bypass: bool,
    pending: Map<u32, Partial>,
    arrivals: Seq<Fragment>,
    msg_id: u32,
    payloads: Seq<Seq<u8>>,
    last: u16,
)
    requires
        !pending.contains_key(msg_id),
        payloads.len() <= MAX_FRAGMENTS,
        carries_payloads(arrivals, msg_id, payloads),
        arrivals.len() > 0,
        arrivals.last().msg_id == msg_id,
        all_arrived(arrivals, msg_id, payloads.len()),
        last < payloads.len(),
        !arrived(arrivals.drop_last(), msg_id, last),
    ensures
        gives(bypass, pending, arrivals, arrivals.len() - 1) == Some(payloads.flatten()),
        !taken_after(bypass, pending, arrivals).contains_key(msg_id),
{
    let n = payloads.len();
    let front = arrivals.drop_last();
    let f = arrivals.last();
    let seen = arrived_set(front, msg_id);
    let earlier = taken_after(bypass, pending, front);
    assert(arrivals[arrivals.len() - 1] == f);
    assert(arrivals.take(arrivals.len() - 1) =~= front);
    assert forall|k: int| 0 <= k < front.len() && (#[trigger] front[k]).msg_id == msg_id implies
        front[k].index < n && front[k].total == n && front[k].payload
        == payloads[front[k].index as int] by {
        assert(arrivals[k] == front[k]);
    }
    lemma_pending(bypass, pending, front, msg_id, payloads, last);
    lemma_arrived_push(arrivals, msg_id);
    let got = arrived_set(arrivals, msg_id);
    assert(got.contains(last) == arrived(arrivals, msg_id, last));
    assert(seen.contains(last) == arrived(front, msg_id, last));
    assert(f.index == last);
    assert(got =~= below(n)) by {
        assert forall|i: u16| below(n).contains(i) implies got.contains(i) by {
            assert(arrived(arrivals, msg_id, i));
        }
    }
    let next = fragment::extended(earlier, f);
    if !earlier.contains_key(msg_id) {
        assert(seen =~= Set::<u16>::empty());
    }
    assert(next.parts =~= parts_of(payloads, below(n)));
    assert(next.parts.dom() =~= below(n));
    lemma_below(n);
    lemma_joined(payloads);
    if n == 1 {
        payloads.lemma_flatten_one_element();
        assert(seen =~= Set::<u16>::empty()) by {
            assert forall|i: u16| !seen.contains(i) by {
                if seen.contains(i) {
                    assert(below(n).contains(i));
                }
            }
        }
    }
}

/// Until every fragment has arrived, none of them gives anything.
proof fn lemma_held_back(
    bypass: bool,
    pending: Map<u32, Partial>,
    arrivals: Seq<Fragment>,
    msg_id: u32,
    payloads: Seq<Seq<u8>>,
    missing: u16,
    k: int,
)
    requires
        !pending.contains_key(msg_id),
        payloads.len() <= MAX_FRAGMENTS,
        carries_payloads(arrivals, msg_id, payloads),
        missing < payloads.len(),
        0 <= k < arrivals.len(),
        arrivals[k].msg_id == msg_id,
        !arrived(arrivals.take(k + 1), msg_id, missing),
    ensures
        gives(bypass, pending, arrivals, k) is None,
{
    let n = payloads.len();
    let upto = arrivals.take(k + 1);
    assert(upto.drop_last() =~= arrivals.take(k));
    assert forall|j: int| 0 <= j < upto.len() && (#[trigger] upto[j]).msg_id == msg_id implies
        upto[j].index < n && upto[j].total == n && upto[j].payload
        == payloads[upto[j].index as int] by {
        assert(arrivals[j] == upto[j]);
    }
    lemma_pending(bypass, pending, upto, msg_id, payloads, missing);
    assert(upto[k] == arrivals[k]);
    assert(upto.last() == arrivals[k]);
    assert(arrived(upto, msg_id, arrivals[k].index));
    assert(arrived_set(upto, msg_id).contains(arrivals[k].index));
    let earlier = taken_after(bypass, pending, arrivals.take(k));
    assert(taken_after(bypass, pending, upto) == taken(bypass, earlier, arrivals[k]).0);
    assert(arrivals[k].index != missing);
    assert(n >= 2);
}

/// Fragments of other messages leave a message that is not pending so.
proof fn lemma_others_keep(
    bypass: bool,
    pending: Map<u32, Partial>,
    arrivals: Seq<Fragment>,
    msg_id: u32,
    k: int,
)
    requires
        0 <= k < arrivals.len(),
        is_last_of(arrivals, msg_id, k),
        !taken_after(bypass, pending, arrivals.take(k + 1)).contains_key(msg_id),
    ensures
        !taken_after(bypass, pending, arrivals).contains_key(msg_id),
    decreases arrivals.len(),
{
    if k == arrivals.len() - 1 {
        assert(arrivals.take(k + 1) =~= arrivals);
    } else {
        let front = arrivals.drop_last();
        assert(front.take(k + 1) =~= arrivals.take(k + 1));
        assert forall|j: int| k < j < front.len() implies (#[trigger] front[j]).msg_id != msg_id by {
            assert(arrivals[j] == front[j]);
        }
        lemma_others_keep(bypass, pending, front, msg_id, k);
        assert(arrivals[arrivals.len() - 1] == arrivals.last());
    }
}

/// Of fragments that come once each, the last gives the message.
proof fn lemma_once_each(
    bypass: bool,
    pending: Map<u32, Partial>,
    arrivals: Seq<Fragment>,
    msg_id: u32,
    payloads: Seq<Seq<u8>>,
    k: int,
)
    requires
        !pending.contains_key(msg_id),
        payloads.len() <= MAX_FRAGMENTS,
        carries_payloads(arrivals, msg_id, payloads),
        all_arrived(arrivals, msg_id, payloads.len()),
        none_twice(arrivals, msg_id),
        0 <= k < arrivals.len(),
        arrivals[k].msg_id == msg_id,
    ensures
        gives(bypass, pending, arrivals, k) == if is_last_of(arrivals, msg_id, k) {
            Some(payloads.flatten())
        } else {
            None
        },
        is_last_of(arrivals, msg_id, k) ==> !taken_after(bypass, pending, arrivals).contains_key(
            msg_id,
        ),
{
    let n = payloads.len();
    let upto = arrivals.take(k + 1);
    assert(upto.last() == arrivals[k]);
    assert forall|j: int| 0 <= j < upto.len() && (#[trigger] upto[j]).msg_id == msg_id implies
        upto[j].index < n && upto[j].total == n && upto[j].payload
        == payloads[upto[j].index as int] by {
        assert(arrivals[j] == upto[j]);
    }
    if is_last_of(arrivals, msg_id, k) {
        let last = arrivals[k].index;
        assert forall|i: u16| i < n implies #[trigger] arrived(upto, msg_id, i) by {
            assert(arrived(arrivals, msg_id, i));
            let j = choose|j: int|
                0 <= j < arrivals.len() && (#[trigger] arrivals[j]).msg_id == msg_id
                    && arrivals[j].index == i;
            assert(upto[j] == arrivals[j]);
        }
        assert(!arrived(upto.drop_last(), msg_id, last)) by {
            if arrived(upto.drop_last(), msg_id, last) {
                let front = upto.drop_last();
                let j = choose|j: int|
                    0 <= j < front.len() && (#[trigger] front[j]).msg_id == msg_id
                        && front[j].index == last;
                assert(arrivals[j] == front[j]);
            }
        }
        lemma_restored(bypass, pending, upto, msg_id, payloads, last);
        assert(upto.take(k) =~= arrivals.take(k));
        assert(upto[k] == arrivals[k]);
        lemma_others_keep(bypass, pending, arrivals, msg_id, k);
    } else {
        let later = choose|j: int|
            k < j < arrivals.len() && !((#[trigger] arrivals[j]).msg_id != msg_id);
        let missing = arrivals[later].index;
        assert(!arrived(upto, msg_id, missing)) by {
            if arrived(upto, msg_id, missing) {
                let j = choose|j: int|
                    0 <= j < upto.len() && (#[trigger] upto[j]).msg_id == msg_id && upto[j].index
                        == missing;
                assert(arrivals[j] == upto[j]);
            }
        }
        lemma_held_back(bypass, pending, arrivals, msg_id, payloads, missing, k);
    }
}

proof fn lemma_carries(arrivals: Seq<Fragment>, msg_id: u32, data: Seq<u8>)
    requires
        fragment::fragments_needed(data.len()) <= MAX_FRAGMENTS,
        carries(arrivals, msg_id, data),
    ensures
        carries_payloads(arrivals, msg_id, cut(data)),
{
    assert forall|k: int| 0 <= k < arrivals.len() && (#[trigger] arrivals[k]).msg_id
        == msg_id implies arrivals[k].index < cut(data).len() && arrivals[k].total == cut(
        data,
    ).len() && arrivals[k].payload == cut(data)[arrivals[k].index as int] by {}
}

// ── Laws ──────────────────────────────────────────────────────────────────────

/// Fragments of one message that are inserted once each, in whatever order, and whatever
/// is inserted under other ids meanwhile: each insert but the last returns nothing, and
/// the last returns the payloads joined by index. Nothing of the message stays behind.
pub proof fn inserted_payloads_come_out_by_index(
    pending: Map<u32, Partial>,
    inserts: Seq<Fragment>,
    msg_id: u32,
    payloads: Seq<Seq<u8>>,
    k: int,
)
    requires
        !pending.contains_key(msg_id),
        payloads.len() <= MAX_FRAGMENTS,
        carries_payloads(inserts, msg_id, payloads),
        all_arrived(inserts, msg_id, payloads.len()),
        none_twice(inserts, msg_id),
        0 <= k < inserts.len(),
        inserts[k].msg_id == msg_id,
    ensures
        returned(pending, inserts, k) == if is_last_of(inserts, msg_id, k) {
            Some(payloads.flatten())
        } else {
            None
        },
        is_last_of(inserts, msg_id, k) ==> !inserted_after(pending, inserts).contains_key(msg_id),
{
    lemma_once_each(false, pending, inserts, msg_id, payloads, k);
}

/// Fragments of one message that arrive once each, in whatever order, and whatever arrives
/// under other ids meanwhile: each but the last hands nothing on, and the last hands on
/// the payloads joined by index. Nothing of the message stays behind.
pub proof fn arriving_payloads_come_out_by_index(
    pending: Map<u32, Partial>,
    arrivals: Seq<Fragment>,
    msg_id: u32,
    payloads: Seq<Seq<u8>>,
    k: int,
)
    requires
        !pending.contains_key(msg_id),
        payloads.len() <= MAX_FRAGMENTS,
        carries_payloads(arrivals, msg_id, payloads),
        all_arrived(arrivals, msg_id, payloads.len()),
        none_twice(arrivals, msg_id),
        0 <= k < arrivals.len(),
        arrivals[k].msg_id == msg_id,
    ensures
        handed_on(pending, arrivals, k) == if is_last_of(arrivals, msg_id, k) {
            Some(payloads.flatten())
        } else {
            None
        },
        is_last_of(arrivals, msg_id, k) ==> !pending_after(pending, arrivals).contains_key(msg_id),
{
    lemma_once_each(true, pending, arrivals, msg_id, payloads, k);
}

/// A message that was fragmented comes out whole when the last of its fragments
/// arrives: in whatever order they come, however often one is repeated before
/// that, and whatever other messages are under way on the same lane. Nothing of
/// it stays behind.
pub proof fn any_arrival_order_restores_the_message(
    pending: Map<u32, Partial>,
    arrivals: Seq<Fragment>,
    msg_id: u32,
    data: Seq<u8>,
    last: u16,
)
    requires
        !pending.contains_key(msg_id),
        fragment::fragments_needed(data.len()) <= MAX_FRAGMENTS,
        carries(arrivals, msg_id, data),
        arrivals.len() > 0,
        arrivals.last().msg_id == msg_id,
        all_arrived(arrivals, msg_id, fragment::fragments_needed(data.len())),
        last < fragment::fragments_needed(data.len()),
        !arrived(arrivals.drop_last(), msg_id, last),
    ensures
        handed_on(pending, arrivals, arrivals.len() - 1) == Some(data),
        !pending_after(pending, arrivals).contains_key(msg_id),
{
    lemma_carries(arrivals, msg_id, data);
    lemma_restored(true, pending, arrivals, msg_id, cut(data), last);
    chunks_make_the_message(data);
}

/// Until every fragment of a message has arrived, none of them hands anything on.
pub proof fn an_incomplete_message_is_held_back(
    pending: Map<u32, Partial>,
    arrivals: Seq<Fragment>,
    msg_id: u32,
    data: Seq<u8>,
    missing: u16,
    k: int,
)
    requires
        !pending.contains_key(msg_id),
        fragment::fragments_needed(data.len()) <= MAX_FRAGMENTS,
        carries(arrivals, msg_id, data),
        missing < fragment::fragments_needed(data.len()),
        !arrived(arrivals, msg_id, missing),
        0 <= k < arrivals.len(),
        arrivals[k].msg_id == msg_id,
    ensures
        handed_on(pending, arrivals, k) is None,
{
    let upto = arrivals.take(k + 1);
    assert(!arrived(upto, msg_id, missing)) by {
        if arrived(upto, msg_id, missing) {
            let j = choose|j: int|
                0 <= j < upto.len() && (#[trigger] upto[j]).msg_id == msg_id && upto[j].index == missing;
            assert(arrivals[j] == upto[j]);
        }
    }
    lemma_carries(arrivals, msg_id, data);
    lemma_held_back(true, pending, arrivals, msg_id, cut(data), missing, k);
}

/// Two buffers hold the same under an id.
pub open spec fn same_entry(a: Map<u32, Partial>, b: Map<u32, Partial>, id: u32) -> bool {
    &&& a.contains_key(id) == b.contains_key(id)
    &&& a.contains_key(id) ==> a[id] == b[id]
}

/// A fragment leaves the messages under other ids as they were, whether it arrives or is
/// inserted.
pub proof fn messages_do_not_interfere(pending: Map<u32, Partial>, f: Fragment, other: u32)
    requires
        other != f.msg_id,
    ensures
        same_entry(received(pending, f).0, pending, other),
        same_entry(fragment::accepted(pending, f).0, pending, other),
{
}

/// Inserting the fragments of one message leaves every other message as it would be
/// without them, and so what a fragment of it returns.
pub proof fn other_messages_are_untouched(
    pending: Map<u32, Partial>,
    inserts: Seq<Fragment>,
    msg_id: u32,
    f: Fragment,
)
    requires
        f.msg_id != msg_id,
    ensures
        ({
            let with = inserted_after(pending, inserts);
            let without = inserted_after(
                pending,
                inserts.filter(|g: Fragment| g.msg_id != msg_id),
            );
            &&& same_entry(with, without, f.msg_id)
            &&& fragment::accepted(with, f).1 == fragment::accepted(without, f).1
        }),
    decreases inserts.len(),
{
    reveal(Seq::filter);
    if inserts.len() > 0 {
        let other = |g: Fragment| g.msg_id != msg_id;
        let g = inserts.last();
        let front = inserts.drop_last();
        other_messages_are_untouched(pending, front, msg_id, f);
        let kept = inserts.filter(other);
        if g.msg_id != msg_id {
            other_messages_are_untouched(pending, front, msg_id, g);
            assert(kept.drop_last() =~= front.filter(other));
            assert(kept.last() == g);
        } else {
            assert(kept =~= front.filter(other));
        }
    }
}

}
