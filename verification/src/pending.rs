//! The registry of requests that wait for the sidecar's answer.
use std::collections::HashMap;

use tokio::sync::oneshot;
use vstd::prelude::*;

use crate::events::SendChatResult;

verus! {

/// `tokio::sync::oneshot::Sender`: the sending half of a channel for one value. Opaque here.
#[verifier::external_type_specification]
#[verifier::external_body]
#[verifier::reject_recursive_types(T)]
pub struct ExOneshotSender<T>(tokio::sync::oneshot::Sender<T>);

/// `tokio::sync::oneshot::Sender::send` uses the sender up. Where the other end has hung up it
/// hands the value back. Whether it has is not known here, nor is what the other end sees.
pub assume_specification<T>[ tokio::sync::oneshot::Sender::<T>::send ](
    tx: tokio::sync::oneshot::Sender<T>,
    t: T,
) -> (r: Result<(), T>)
    ensures
        r is Err ==> r->Err_0 == t,
;

/// The id after `current`: the next number, or 1 after the last, so that no id is ever 0.
pub open spec fn next_request_id(current: u64) -> u64 {
    if current == u64::MAX {
        1
    } else {
        (current + 1) as u64
    }
}

/// Returns the successor of `current` for the request-id allocator, skipping zero on wraparound
/// so that a serialized 0 (which the other side may leave out) is never confused with an id.
pub fn advance_request_id(current: u64) -> (next: u64)
    ensures
        next == next_request_id(current),
{
    let next = current.wrapping_add(1);
    if next == 0 {
        1
    } else {
        next
    }
}

/// Registry of in-flight requests: who waits for the answer to which id.
pub struct Pending {
    pub map: HashMap<u64, oneshot::Sender<SendChatResult>>,
    pub next_id: u64,
}

impl Pending {
    /// No request has the id 0, and none will get it.
    pub open spec fn wf(&self) -> bool {
        self.next_id != 0 && !self.map@.contains_key(0)
    }

    pub fn new() -> (p: Self)
        ensures
            p.wf(),
            p.map@ == Map::<u64, oneshot::Sender<SendChatResult>>::empty(),
            p.next_id == 1,
    {
        Pending { map: HashMap::new(), next_id: 1 }
    }

    /// Reserves the next id and registers `tx` under it. Returns the id that the caller must
    /// write into the outbound control line.
    pub fn allocate(&mut self, tx: oneshot::Sender<SendChatResult>) -> (id: u64)
        ensures
            id == old(self).next_id,
            final(self).map@ == old(self).map@.insert(id, tx),
            final(self).next_id == next_request_id(id),
            old(self).wf() ==> final(self).wf(),
    {
        broadcast use vstd::std_specs::hash::group_hash_axioms;

        let id = self.next_id;
        self.map.insert(id, tx);
        self.next_id = advance_request_id(self.next_id);
        id
    }

    /// Removes the registration for `id`, so that whoever waits is released at once.
    pub fn cancel(&mut self, id: u64)
        ensures
            final(self).map@ == old(self).map@.remove(id),
            final(self).next_id == old(self).next_id,
            old(self).wf() ==> final(self).wf(),
    {
        broadcast use vstd::std_specs::hash::group_hash_axioms;

        self.map.remove(&id);
        assert(self.map@ =~= old(self).map@.remove(id));
    }

    /// Takes out the completer that waits for `result`, and pairs the two. `None` where nobody
    /// waits for that id.
    pub fn route(&mut self, result: SendChatResult) -> (r: Option<
        (oneshot::Sender<SendChatResult>, SendChatResult),
    >)
        ensures
            final(self).map@ == old(self).map@.remove(result.request_id),
            final(self).next_id == old(self).next_id,
            old(self).wf() ==> final(self).wf(),
            r == if old(self).map@.contains_key(result.request_id) {
                Some((old(self).map@[result.request_id], result))
            } else {
                None
            },
    {
        broadcast use vstd::std_specs::hash::group_hash_axioms;

        let found = self.map.remove(&result.request_id);
        assert(self.map@ =~= old(self).map@.remove(result.request_id));
        match found {
            Some(tx) => Some((tx, result)),
            None => None,
        }
    }

    /// Routes a `send_chat_result` notification to the awaiting completer, which sends it on. A
    /// no-op if none is registered for its id. Whether the other end still listens makes no
    /// difference here.
    pub fn complete(&mut self, result: SendChatResult)
        ensures
            old(self).map@.contains_key(result.request_id) ==> exists|
                sent: Result<(), SendChatResult>,
            | #[trigger]
                call_ensures(
                    oneshot::Sender::<SendChatResult>::send,
                    (old(self).map@[result.request_id], result),
                    sent,
                ),
            final(self).map@ == old(self).map@.remove(result.request_id),
            final(self).next_id == old(self).next_id,
            old(self).wf() ==> final(self).wf(),
            !old(self).map@.contains_key(result.request_id) ==> final(self).map@ == old(self).map@,
    {
        match self.route(result) {
            Some((tx, result)) => {
                let _ = tx.send(result);
            },
            None => {},
        }
        assert(!old(self).map@.contains_key(result.request_id) ==> self.map@ =~= old(self).map@);
    }

    /// Drops every registered completer, so that whoever waits is released.
    pub fn clear(&mut self)
        ensures
            final(self).map@ == Map::<u64, oneshot::Sender<SendChatResult>>::empty(),
            final(self).next_id == old(self).next_id,
            old(self).wf() ==> final(self).wf(),
    {
        broadcast use vstd::std_specs::hash::group_hash_axioms;

        self.map.clear();
    }
}

// ---------------------------------------------------------------------------
// Laws
// ---------------------------------------------------------------------------

/// The id that the allocator, starting at `start`, gives out after `k` others.
pub open spec fn request_id_after(start: u64, k: nat) -> u64
    decreases k,
{
    if k == 0 {
        start
    } else {
        next_request_id(request_id_after(start, (k - 1) as nat))
    }
}

proof fn lemma_request_id_cycles(start: u64, k: nat)
    requires
        start != 0,
    ensures
        request_id_after(start, k) == 1 + (start - 1 + k) % (u64::MAX as int),
    decreases k,
{
    let m = u64::MAX as int;
    if k > 0 {
        lemma_request_id_cycles(start, (k - 1) as nat);
        let before = (start - 1 + (k - 1)) % m;
        assert((start - 1 + k) % m == if before == m - 1 { 0 } else { before + 1 }) by (nonlinear_arith)
            requires
                m > 1,
                before == (start - 1 + (k - 1)) % m,
        ;
    } else {
        assert((start - 1) % m == start - 1) by (nonlinear_arith)
            requires
                0 <= start - 1 < m,
        ;
    }
}

/// No id is ever 0, and no two of any `u64::MAX` consecutive ids are equal: within a session a
/// request id names one request.
pub proof fn law_request_ids_are_unique(start: u64, i: nat, j: nat)
    requires
        start != 0,
        i < j,
        j - i < u64::MAX,
    ensures
        request_id_after(start, i) != 0,
        request_id_after(start, i) != request_id_after(start, j),
{
    let m = u64::MAX as int;
    lemma_request_id_cycles(start, i);
    lemma_request_id_cycles(start, j);
    let a = start - 1 + i;
    let b = start - 1 + j;
    assert(0 <= a % m);
    assert(a % m != b % m) by (nonlinear_arith)
        requires
            m > 1,
            a < b,
            b - a < m,
    ;
}

/// Cancelling what was just allocated restores the registry, provided the id was free.
pub proof fn law_cancel_undoes_allocate(
    map: Map<u64, oneshot::Sender<SendChatResult>>,
    id: u64,
    tx: oneshot::Sender<SendChatResult>,
)
    requires
        !map.contains_key(id),
    ensures
        map.insert(id, tx).remove(id) == map,
{
    assert(map.insert(id, tx).remove(id) =~= map);
}

/// An answer finds the completer that was registered under its id, whatever else was registered
/// since, and the completers of the other requests stay where they are.
pub proof fn law_answers_do_not_cross(
    map: Map<u64, oneshot::Sender<SendChatResult>>,
    first: u64,
    tx_first: oneshot::Sender<SendChatResult>,
    second: u64,
    tx_second: oneshot::Sender<SendChatResult>,
)
    requires
        first != second,
    ensures
        map.insert(first, tx_first).insert(second, tx_second)[first] == tx_first,
        map.insert(first, tx_first).insert(second, tx_second).remove(first)[second] == tx_second,
        map.insert(first, tx_first).insert(second, tx_second).remove(first)
            == map.insert(second, tx_second).remove(first),
{
    assert(map.insert(first, tx_first).insert(second, tx_second).remove(first) =~= map.insert(
        second,
        tx_second,
    ).remove(first));
}

/// The allocator counts: each id is the one before plus one, up to the last, after which it starts
/// again at 1. So the ids of a session are 1, 2, 3 and so on.
pub proof fn law_request_ids_count_up(current: u64, k: nat)
    ensures
        current < u64::MAX ==> next_request_id(current) == current + 1,
        next_request_id(u64::MAX) == 1,
        k < u64::MAX ==> request_id_after(1, k) == k + 1,
    decreases k,
{
    if k > 0 {
        law_request_ids_count_up(current, (k - 1) as nat);
    }
}

/// Whoever registers is found under the id that was handed out, and nobody else is moved; whoever
/// is cancelled is gone, and nobody else is.
pub proof fn law_registering_and_cancelling(other: u64)
    ensures
        forall|p: &mut Pending, tx: oneshot::Sender<SendChatResult>, id: u64| #[trigger]
            call_ensures(Pending::allocate, (p, tx), id) ==> {
                &&& id == p.next_id
                &&& final(p).map@.contains_key(id) && final(p).map@[id] == tx
                &&& other != id ==> (final(p).map@.contains_key(other) <==> p.map@.contains_key(
                    other,
                )) && final(p).map@[other] == p.map@[other]
                &&& id < u64::MAX ==> final(p).next_id == id + 1
            },
        forall|p: &mut Pending, id: u64, r: ()| #[trigger]
            call_ensures(Pending::cancel, (p, id), r) ==> {
                &&& !final(p).map@.contains_key(id)
                &&& other != id ==> (final(p).map@.contains_key(other) <==> p.map@.contains_key(
                    other,
                ))
                &&& other != id && p.map@.contains_key(other) ==> final(p).map@[other]
                    == p.map@[other]
                &&& final(p).next_id == p.next_id
            },
{
}

/// An answer is sent on by the completer that waits under its id and by no other, which then waits
/// no longer; everybody else goes on waiting. Clearing releases everybody.
pub proof fn law_answers_are_sent_on(result: SendChatResult, other: u64)
    requires
        other != result.request_id,
    ensures
        forall|p: &mut Pending, r: ()| #[trigger]
            call_ensures(Pending::complete, (p, result), r) ==> {
                &&& p.map@.contains_key(result.request_id) ==> exists|
                    sent: Result<(), SendChatResult>,
                | #[trigger]
                    call_ensures(
                        oneshot::Sender::<SendChatResult>::send,
                        (p.map@[result.request_id], result),
                        sent,
                    )
                &&& !final(p).map@.contains_key(result.request_id)
                &&& final(p).map@.contains_key(other) <==> p.map@.contains_key(other)
                &&& p.map@.contains_key(other) ==> final(p).map@[other] == p.map@[other]
            },
        forall|p: &mut Pending, id: u64, r: ()| #[trigger]
            call_ensures(Pending::clear, (p,), r) ==> !(#[trigger] final(p).map@.contains_key(id)),
{
}

} // verus!
