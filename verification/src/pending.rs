use std::collections::HashMap;
use std::hash::Hash;
use vstd::prelude::*;
use vstd::std_specs::hash::{obeys_key_model, spec_keys_iter};
use vstd::std_specs::iter::IteratorSpec;

verus! {

broadcast use vstd::std_specs::hash::group_hash_axioms;

/// The keys of a hash map, each once, in the map's iteration order.
pub fn keys_of<K: Copy + Eq + Hash, V>(m: &HashMap<K, V>) -> (keys: Vec<K>)
    requires
        obeys_key_model::<K>(),
    ensures
        keys@.no_duplicates(),
        keys@.to_set() == m@.dom(),
        keys@.len() == m@.dom().len(),
{
    let mut keys: Vec<K> = Vec::new();
    let ghost all = spec_keys_iter(m).remaining();
    for k in it: m.keys()
        invariant
            it.seq() == all,
            keys@ == it.seq().take(it.index() as int).map_values(|r: &K| *r),
    {
        keys.push(*k);
        proof {
            assert(it.seq().take(it.index() as int + 1).map_values(|r: &K| *r) =~= keys@);
        }
    }
    proof {
        assert(all.take(all.len() as int) =~= all);
        assert(keys@ =~= all.unref());
    }
    keys
}

} // verus!

verus! {

use crate::jsonrpc::{
    following_id, IdCounter, JsonRpcError, JsonRpcErrorResponse, JsonRpcRequest, JsonRpcResponse,
    JsonRpcSuccessResponse,
};

/// How long, in nanoseconds, requests wait on an error that carried no id
/// before they are given that error.
pub const DIRTY_PENDING_RESPONSE_TIMEOUT_NANOS: u64 = 30_000_000_000;

/// The state of a request that waits for its response.
#[derive(Debug, PartialEq)]
pub enum PendingRequestStatus {
    /// Nothing unusual has happened since the request was sent.
    Clean,
    /// An error without an id arrived while several requests were pending;
    /// unless its own response arrives first, the request gets that error
    /// once the clock reaches `timeout`.
    Dirty { timeout: u64, error_message: JsonRpcError },
}

/// The text put before an error's message when the error is handed to
/// more than one request.
pub open spec fn ambiguity_note() -> Seq<char> {
    "Error: This error may not be associated with this request and may have originated from another. One of your requests had an id that the websocket server could not parse. There is probably something wrong with thewebsocket server is parsing ids.\n"@
}

/// `out` is the error `e`, with the ambiguity note before its message when `shared`.
pub open spec fn annotated(out: JsonRpcError, e: JsonRpcError, shared: bool) -> bool {
    &&& out.code == e.code
    &&& out.data == e.data
    &&& out.message@ == (if shared {
        ambiguity_note() + e.message@
    } else {
        e.message@
    })
}

/// A status after an id-less error: clean requests become dirty, dirty ones stay as they are.
pub open spec fn mark_dirty(
    s: PendingRequestStatus,
    timeout: u64,
    e: JsonRpcError,
) -> PendingRequestStatus {
    match s {
        PendingRequestStatus::Clean => PendingRequestStatus::Dirty { timeout, error_message: e },
        PendingRequestStatus::Dirty { .. } => s,
    }
}

/// The number of positions of `ids` that hold a pending request.
pub open spec fn pending_count(pending: Map<u32, PendingRequestStatus>, ids: Seq<u32>) -> nat
    decreases ids.len(),
{
    if ids.len() == 0 {
        0
    } else {
        (if pending.contains_key(ids[0]) {
            1nat
        } else {
            0nat
        }) + pending_count(pending, ids.drop_first())
    }
}

/// Giving up on the requests of one deadline's list, in list order: each id still
/// pending is removed, and if it was dirty its error is delivered (with `shared`
/// telling whether the note is to be put before it).
pub open spec fn sweep_list(
    pending: Map<u32, PendingRequestStatus>,
    ids: Seq<u32>,
    shared: bool,
) -> (Map<u32, PendingRequestStatus>, Seq<(u32, JsonRpcError, bool)>)
    decreases ids.len(),
{
    if ids.len() == 0 {
        (pending, Seq::empty())
    } else {
        let id = ids[0];
        if pending.contains_key(id) {
            let here: Seq<(u32, JsonRpcError, bool)> = match pending[id] {
                PendingRequestStatus::Dirty { error_message, .. } => seq![(id, error_message, shared)],
                PendingRequestStatus::Clean => Seq::empty(),
            };
            let rest = sweep_list(pending.remove(id), ids.drop_first(), shared);
            (rest.0, here + rest.1)
        } else {
            sweep_list(pending, ids.drop_first(), shared)
        }
    }
}

/// Giving up on the lists of the deadlines in `order`, one after the other; the
/// note goes before the errors of a list when more than one of its ids is pending.
pub open spec fn sweep_deadlines(
    pending: Map<u32, PendingRequestStatus>,
    dirty: Map<u64, Seq<u32>>,
    order: Seq<u64>,
) -> (Map<u32, PendingRequestStatus>, Seq<(u32, JsonRpcError, bool)>)
    decreases order.len(),
{
    if order.len() == 0 {
        (pending, Seq::empty())
    } else {
        let ids = dirty[order[0]];
        let first = sweep_list(pending, ids, pending_count(pending, ids) > 1);
        let rest = sweep_deadlines(first.0, dirty, order.drop_first());
        (rest.0, first.1 + rest.1)
    }
}

/// The deliveries `out` are the deliveries `spec`, each error annotated as its flag says.
pub open spec fn delivered_as(
    out: Seq<(u32, JsonRpcError)>,
    spec: Seq<(u32, JsonRpcError, bool)>,
) -> bool {
    &&& out.len() == spec.len()
    &&& forall|i: int|
        0 <= i < out.len() ==> #[trigger] out[i].0 == spec[i].0 && annotated(
            out[i].1,
            spec[i].1,
            spec[i].2,
        )
}


/// The deadline lists after the `ids` were marked dirty with `timeout`: they
/// go at the end of that deadline's list, which is made when the first id
/// comes; with no id, nothing changes.
pub open spec fn with_dirtied(
    dirty: Map<u64, Seq<u32>>,
    timeout: u64,
    ids: Seq<u32>,
) -> Map<u64, Seq<u32>> {
    if ids.len() == 0 {
        dirty
    } else {
        dirty.insert(
            timeout,
            (if dirty.contains_key(timeout) {
                dirty[timeout]
            } else {
                Seq::empty()
            }) + ids,
        )
    }
}

/// Whether an error response is deferred: it carries no id and the number
/// of pending requests is not one. Only then is a deadline computed.
pub open spec fn defers(p: PendingRequests, message: JsonRpcErrorResponse) -> bool {
    message.id is None && p.pending_view().len() != 1
}

/// How a success response is routed: to its waiter, which is pending no more,
/// or, when no one waits under its id, to the general reader.
pub open spec fn routes_success(
    before: PendingRequests,
    after: PendingRequests,
    message: JsonRpcSuccessResponse,
    r: Routed,
) -> bool {
    &&& after.dirty_view() == before.dirty_view()
    &&& after.has_dirty() == before.has_dirty()
    &&& after.pending_view() == before.pending_view().remove(message.id)
    &&& before.pending_view().contains_key(message.id) ==> r == (Routed::Deliver {
        id: message.id,
        response: JsonRpcResponse::Result(message),
    })
    &&& !before.pending_view().contains_key(message.id) ==> r == Routed::Forward(
        JsonRpcResponse::Result(message),
    )
}

/// How an error response is routed (see `PendingRequests::route_error`).
pub open spec fn routes_error(
    before: PendingRequests,
    after: PendingRequests,
    message: JsonRpcErrorResponse,
    now: u64,
    r: Routed,
) -> bool {
    let old_p = before.pending_view();
    let new_p = after.pending_view();
    let e = message.error;
    let timeout = (now + DIRTY_PENDING_RESPONSE_TIMEOUT_NANOS) as u64;
    match message.id {
        Some(id) => {
            &&& new_p == old_p.remove(id)
            &&& after.dirty_view() == before.dirty_view()
            &&& after.has_dirty() == before.has_dirty()
            &&& old_p.contains_key(id) ==> r == (Routed::Deliver {
                id,
                response: JsonRpcResponse::ReturnedError(e),
            })
            &&& !old_p.contains_key(id) ==> r == Routed::Forward(
                JsonRpcResponse::ReturnedError(e),
            )
        },
        None => if old_p.len() == 1 {
            &&& r matches Routed::Deliver { id, response } && old_p.contains_key(id)
                && response == JsonRpcResponse::ReturnedError(e) && new_p
                == old_p.remove(id)
            &&& after.dirty_view() == before.dirty_view()
            &&& after.has_dirty() == before.has_dirty()
        } else {
            &&& new_p == old_p.map_values(
                |s: PendingRequestStatus| mark_dirty(s, timeout, e),
            )
            &&& r matches Routed::Deferred { dirtied } && dirtied@.no_duplicates()
                && dirtied@.to_set() == old_p.dom().filter(
                |id: u32| old_p[id] is Clean,
            ) && after.dirty_view() == with_dirtied(
                before.dirty_view(),
                timeout,
                dirtied@,
            )
            &&& after.has_dirty()
        },
    }
}

/// What a sweep on the clock `now` does (see `PendingRequests::sweep`).
pub open spec fn sweeps(before: PendingRequests, after: PendingRequests, now: u64, s: Sweep) -> bool {
    &&& !before.has_dirty() ==> {
        &&& after.pending_view() == before.pending_view()
        &&& after.dirty_view() == before.dirty_view()
        &&& !after.has_dirty()
        &&& s.expired@.len() == 0
        &&& s.deliveries@.len() == 0
    }
    &&& before.has_dirty() ==> {
        let result = sweep_deadlines(before.pending_view(), before.dirty_view(), s.expired@);
        &&& s.expired@.no_duplicates()
        &&& s.expired@.to_set() == before.dirty_view().dom().filter(|t: u64| t <= now)
        &&& after.pending_view() == result.0
        &&& delivered_as(s.deliveries@, result.1)
        &&& after.dirty_view() == before.dirty_view().remove_keys(s.expired@.to_set())
        &&& after.has_dirty() == !after.dirty_view().is_empty()
    }
}

/// Where a response goes.
#[derive(Debug)]
pub enum Routed {
    /// To the waiter registered under `id`, which is no longer pending.
    Deliver { id: u32, response: JsonRpcResponse },
    /// To the general reader: no one waits for it.
    Forward(JsonRpcResponse),
    /// Nowhere yet: an error without an id came while the number of pending
    /// requests was not one; the `dirtied` requests now wait for it with a deadline.
    Deferred { dirtied: Vec<u32> },
}

/// What a sweep of expired deadlines did.
#[derive(Debug)]
pub struct Sweep {
    /// The expired deadlines, in the order they were handled.
    pub expired: Vec<u64>,
    /// The errors handed to waiting requests, in order.
    pub deliveries: Vec<(u32, JsonRpcError)>,
}

/// The requests that wait for their responses, and the deadlines of those that
/// wait on an error without an id.
#[derive(Debug)]
pub struct PendingRequests {
    requests: HashMap<u32, PendingRequestStatus>,
    dirty: HashMap<u64, Vec<u32>>,
    has_dirty_requests: bool,
}

impl PendingRequests {
    /// The pending requests and their statuses.
    pub closed spec fn pending_view(&self) -> Map<u32, PendingRequestStatus> {
        self.requests@
    }

    /// For each deadline, the ids that were marked dirty with it, in order.
    pub closed spec fn dirty_view(&self) -> Map<u64, Seq<u32>> {
        self.dirty@.map_values(|v: Vec<u32>| v@)
    }

    /// Whether deadlines are to be checked.
    pub closed spec fn has_dirty(&self) -> bool {
        self.has_dirty_requests
    }

    /// No request pending, no deadline.
    pub fn new() -> (p: PendingRequests)
        ensures
            p.pending_view() == Map::<u32, PendingRequestStatus>::empty(),
            p.dirty_view() == Map::<u64, Seq<u32>>::empty(),
            !p.has_dirty(),
    {
        let p = PendingRequests {
            requests: HashMap::new(),
            dirty: HashMap::new(),
            has_dirty_requests: false,
        };
        assert(p.dirty_view() =~= Map::<u64, Seq<u32>>::empty());
        p
    }

    /// The number of pending requests.
    pub fn len(&self) -> (n: usize)
        ensures
            n == self.pending_view().len(),
    {
        self.requests.len()
    }

    /// Whether a request is pending under `id`.
    pub fn is_pending(&self, id: u32) -> (b: bool)
        ensures
            b == self.pending_view().contains_key(id),
    {
        self.requests.contains_key(&id)
    }

    /// Registers a request that waits for its response (a request already
    /// registered under the same id is replaced).
    pub fn register(&mut self, id: u32)
        ensures
            final(self).pending_view() == old(self).pending_view().insert(
                id,
                PendingRequestStatus::Clean,
            ),
            final(self).dirty_view() == old(self).dirty_view(),
            final(self).has_dirty() == old(self).has_dirty(),
    {
        self.requests.insert(id, PendingRequestStatus::Clean);
    }

    /// Stamps a request with the counter's next id and registers it as waiting
    /// for its response; gives the id.
    pub fn open_request(&mut self, counter: &mut IdCounter, request: &mut JsonRpcRequest) -> (id: u32)
        ensures
            id == old(counter).next_value() as u32,
            final(counter).next_value() == following_id(old(counter).next_value()),
            final(request).id == id,
            final(request).jsonrpc == old(request).jsonrpc,
            final(request).method == old(request).method,
            final(request).params == old(request).params,
            final(self).pending_view() == old(self).pending_view().insert(
                id,
                PendingRequestStatus::Clean,
            ),
            final(self).dirty_view() == old(self).dirty_view(),
            final(self).has_dirty() == old(self).has_dirty(),
    {
        let id = counter.take();
        request.id = id;
        self.register(id);
        id
    }

    /// Takes the request registered under `id` out of the pending ones, and
    /// says whether there was one.
    pub fn take(&mut self, id: u32) -> (was_pending: bool)
        ensures
            was_pending == old(self).pending_view().contains_key(id),
            final(self).pending_view() == old(self).pending_view().remove(id),
            final(self).dirty_view() == old(self).dirty_view(),
            final(self).has_dirty() == old(self).has_dirty(),
    {
        match self.requests.remove(&id) {
            Some(_) => true,
            None => false,
        }
    }

    /// Routes a success response: to its waiter if one is pending under its id,
    /// else to the general reader.
    pub fn route_success(&mut self, message: JsonRpcSuccessResponse) -> (r: Routed)
        ensures
            routes_success(*old(self), *final(self), message, r),
    {
        let id = message.id;
        if self.take(id) {
            Routed::Deliver { id, response: JsonRpcResponse::Result(message) }
        } else {
            Routed::Forward(JsonRpcResponse::Result(message))
        }
    }

    /// Routes an error response. With an id: to its waiter if one is pending,
    /// else to the general reader. Without an id: to the only pending request if
    /// exactly one is pending; otherwise every clean pending request becomes dirty
    /// with the deadline `now` plus the timeout, and is listed under that deadline.
    pub fn route_error(&mut self, message: JsonRpcErrorResponse, now: u64) -> (r: Routed)
        requires
            defers(*old(self), message) ==> now + DIRTY_PENDING_RESPONSE_TIMEOUT_NANOS <= u64::MAX,
        ensures
            routes_error(*old(self), *final(self), message, now, r),
    {
        match message.id {
            Some(id) => {
                if self.take(id) {
                    Routed::Deliver { id, response: JsonRpcResponse::ReturnedError(message.error) }
                } else {
                    Routed::Forward(JsonRpcResponse::ReturnedError(message.error))
                }
            },
            None => {
                if self.requests.len() == 1 {
                    let keys = keys_of(&self.requests);
                    let id = keys[0];
                    proof {
                        assert(keys@.to_set().contains(keys@[0]));
                    }
                    self.requests.remove(&id);
                    Routed::Deliver { id, response: JsonRpcResponse::ReturnedError(message.error) }
                } else {
                    let timeout = now + DIRTY_PENDING_RESPONSE_TIMEOUT_NANOS;
                    let dirtied = self.mark_all_dirty(timeout, &message.error);
                    self.append_dirty(timeout, &dirtied);
                    self.has_dirty_requests = true;
                    Routed::Deferred { dirtied }
                }
            },
        }
    }

    /// Gives up, on the clock `now`, on the requests whose deadline has passed:
    /// each expired deadline's list is handled as `sweep_list` says (the note goes
    /// before the errors when more than one of the list's ids is still pending),
    /// and the expired deadlines are dropped. Nothing happens unless some request
    /// became dirty since the deadlines were last all gone.
    pub fn sweep(&mut self, now: u64) -> (s: Sweep)
        ensures
            sweeps(*old(self), *final(self), now, s),
    {
        if !self.has_dirty_requests {
            return Sweep { expired: Vec::new(), deliveries: Vec::new() };
        }
        let deadlines = keys_of(&self.dirty);
        let mut expired: Vec<u64> = Vec::new();
        let mut i: usize = 0;
        while i < deadlines.len()
            invariant
                i <= deadlines.len(),
                deadlines@.no_duplicates(),
                deadlines@.to_set() == self.dirty@.dom(),
                expired@.no_duplicates(),
                forall|t: u64|
                    #![trigger expired@.contains(t)]
                    expired@.contains(t) <==> (deadlines@.take(i as int).contains(t) && t <= now),
            decreases deadlines.len() - i,
        {
            let t = deadlines[i];
            let ghost before = expired@;
            proof {
                broadcast use vstd::seq_lib::lemma_seq_contains_after_push;
                assert(deadlines@.take(i + 1) =~= deadlines@.take(i as int).push(t));
                assert(!deadlines@.take(i as int).contains(t)) by {
                    if deadlines@.take(i as int).contains(t) {
                        let j = choose|j: int| 0 <= j < i && deadlines@.take(i as int)[j] == t;
                        assert(deadlines@[j] == deadlines@[i as int]);
                    }
                }
            }
            proof {
                assert(!before.contains(t));
            }
            if t <= now {
                expired.push(t);
            }
            proof {
                broadcast use vstd::seq_lib::lemma_seq_contains_after_push;
                assert forall|x: u64| #![trigger expired@.contains(x)] expired@.contains(x) <==> (deadlines@.take(i + 1).contains(x) && x <= now) by {
                    if x != t {
                        assert(deadlines@.take(i + 1).contains(x) == deadlines@.take(i as int).contains(x));
                    } else {
                        assert(deadlines@.take(i + 1)[i as int] == x);
                        if t <= now {
                            assert(expired@[expired@.len() - 1] == x);
                        }
                    }
                }
            }
            i = i + 1;
        }
        proof {
            assert(deadlines@.take(deadlines@.len() as int) =~= deadlines@);
            assert(expired@.to_set() =~= self.dirty_view().dom().filter(|t: u64| t <= now));
        }
        let ghost p0 = self.requests@;
        let ghost d0 = self.dirty_view();
        let ghost mut done: Seq<(u32, JsonRpcError, bool)> = Seq::empty();
        let mut deliveries: Vec<(u32, JsonRpcError)> = Vec::new();
        let mut k: usize = 0;
        proof {
            assert(expired@.skip(0) =~= expired@);
            assert(expired@.take(0).to_set() =~= Set::<u64>::empty());
            assert(d0.remove_keys(Set::<u64>::empty()) =~= d0);
            let r = sweep_deadlines(p0, d0, expired@);
            assert(Seq::<(u32, JsonRpcError, bool)>::empty() + r.1 =~= r.1);
            assert forall|j: int| 0 <= j < expired@.len() implies d0.contains_key(#[trigger] expired@[j]) by {
                assert(expired@.contains(expired@[j]));
                assert(deadlines@.to_set().contains(expired@[j]));
            }
        }
        while k < expired.len()
            invariant
                k <= expired.len(),
                expired@.no_duplicates(),
                forall|j: int| 0 <= j < expired@.len() ==> d0.contains_key(#[trigger] expired@[j]),
                self.dirty_view() == d0.remove_keys(expired@.take(k as int).to_set()),
                sweep_deadlines(p0, d0, expired@) == (
                    sweep_deadlines(self.requests@, d0, expired@.skip(k as int)).0,
                    done + sweep_deadlines(self.requests@, d0, expired@.skip(k as int)).1,
                ),
                delivered_as(deliveries@, done),
                self.has_dirty_requests,
            decreases expired.len() - k,
        {
            let t = expired[k];
            proof {
                assert(expired@.to_set().contains(t));
                assert(!expired@.take(k as int).contains(t)) by {
                    if expired@.take(k as int).contains(t) {
                        let j = choose|j: int| 0 <= j < k && expired@.take(k as int)[j] == t;
                        assert(expired@[j] == expired@[k as int]);
                    }
                }
                assert(self.dirty_view().contains_key(t));
                assert(self.dirty@.contains_key(t));
                assert(self.dirty_view()[t] == d0[t]);
                assert(self.dirty@[t]@ == d0[t]);
            }
            let ghost dirty_before = self.dirty@;
            let ghost old_view = self.dirty_view();
            let ids = match self.dirty.remove(&t) {
                Some(v) => v,
                None => Vec::new(),
            };
            proof {
                assert(ids@ == d0[t]);
                assert(expired@.take(k + 1).to_set() =~= expired@.take(k as int).to_set().insert(t)) by {
                    broadcast use vstd::seq_lib::lemma_seq_contains_after_push;
                    assert(expired@.take(k + 1) =~= expired@.take(k as int).push(t));
                }
                let target = d0.remove_keys(expired@.take(k + 1).to_set());
                assert(self.dirty@ == dirty_before.remove(t));
                assert forall|x: u64| #![trigger target.contains_key(x)] self.dirty_view().contains_key(x) <==> target.contains_key(x) by {
                    assert(old_view.contains_key(x) == (d0.contains_key(x) && !expired@.take(k as int).to_set().contains(x)));
                }
                assert forall|x: u64| #![trigger target[x]] target.contains_key(x) implies self.dirty_view()[x] == target[x] by {
                    assert(old_view[x] == d0[x]);
                }
                assert(self.dirty_view() =~= target);
                assert(expired@.skip(k as int)[0] == t);
                assert(expired@.skip(k as int).drop_first() =~= expired@.skip(k + 1));
            }
            let ghost dirty_mid = self.dirty@;
            let count = self.count_pending(&ids);
            let shared = count > 1;
            let ghost pt = self.requests@;
            let ghost done_t = done;
            let ghost mut here: Seq<(u32, JsonRpcError, bool)> = Seq::empty();
            let mut j: usize = 0;
            proof {
                assert(ids@.skip(0) =~= ids@);
                let r = sweep_list(pt, ids@, shared);
                assert(Seq::<(u32, JsonRpcError, bool)>::empty() + r.1 =~= r.1);
                assert(done =~= done_t + here);
            }
            while j < ids.len()
                invariant
                    j <= ids.len(),
                    sweep_list(pt, ids@, shared) == (
                        sweep_list(self.requests@, ids@.skip(j as int), shared).0,
                        here + sweep_list(self.requests@, ids@.skip(j as int), shared).1,
                    ),
                    delivered_as(deliveries@, done),
                    done == done_t + here,
                    self.dirty@ == dirty_mid,
                    self.has_dirty_requests,
                decreases ids.len() - j,
            {
                let id = ids[j];
                let ghost pj = self.requests@;
                proof {
                    assert(ids@.skip(j as int)[0] == id);
                    assert(ids@.skip(j as int).drop_first() =~= ids@.skip(j + 1));
                }
                let removed = self.requests.remove(&id);
                proof {
                    let rest = sweep_list(pj.remove(id), ids@.skip(j + 1), shared);
                    if pj.contains_key(id) {
                        assert(self.requests@ == pj.remove(id));
                        assert(removed == Some(pj[id]));
                    } else {
                        assert(self.requests@ =~= pj);
                        assert(removed is None);
                    }
                }
                match removed {
                    Some(PendingRequestStatus::Dirty { error_message, .. }) => {
                        let ghost orig = error_message;
                        let e = if shared {
                            let mut m = String::new();
                            m.append("Error: This error may not be associated with this request and may have originated from another. One of your requests had an id that the websocket server could not parse. There is probably something wrong with thewebsocket server is parsing ids.\n");
                            m.append(error_message.message.as_str());
                            JsonRpcError { code: error_message.code, message: m, data: error_message.data }
                        } else {
                            error_message
                        };
                        deliveries.push((id, e));
                        proof {
                            done = done.push((id, orig, shared));
                            here = here.push((id, orig, shared));
                        }
                    },
                    _ => {},
                }
                j = j + 1;
            }
            proof {
                assert(ids@.skip(ids@.len() as int) =~= Seq::<u32>::empty());
            }
            k = k + 1;
        }
        proof {
            assert(expired@.skip(expired@.len() as int) =~= Seq::<u64>::empty());
            assert(expired@.take(expired@.len() as int) =~= expired@);
            assert(done + Seq::<(u32, JsonRpcError, bool)>::empty() =~= done);
            assert(self.dirty_view().dom() =~= self.dirty@.dom());
        }
        if self.dirty.is_empty() {
            self.has_dirty_requests = false;
        }
        Sweep { expired, deliveries }
    }

    fn count_pending(&self, ids: &Vec<u32>) -> (n: usize)
        ensures
            n == pending_count(self.requests@, ids@),
    {
        let mut n: usize = 0;
        let mut j: usize = 0;
        proof {
            assert(ids@.skip(0) =~= ids@);
        }
        while j < ids.len()
            invariant
                j <= ids.len(),
                n <= j,
                n + pending_count(self.requests@, ids@.skip(j as int)) == pending_count(
                    self.requests@,
                    ids@,
                ),
            decreases ids.len() - j,
        {
            proof {
                assert(ids@.skip(j as int).drop_first() =~= ids@.skip(j + 1));
            }
            if self.requests.contains_key(&ids[j]) {
                n = n + 1;
            }
            j = j + 1;
        }
        proof {
            assert(ids@.skip(ids@.len() as int) =~= Seq::<u32>::empty());
        }
        n
    }

    fn mark_all_dirty(&mut self, timeout: u64, e: &JsonRpcError) -> (dirtied: Vec<u32>)
        ensures
            final(self).pending_view() == old(self).pending_view().map_values(
                |s: PendingRequestStatus| mark_dirty(s, timeout, *e),
            ),
            final(self).dirty == old(self).dirty,
            final(self).has_dirty_requests == old(self).has_dirty_requests,
            dirtied@.no_duplicates(),
            dirtied@.to_set() == old(self).pending_view().dom().filter(
                |id: u32| old(self).pending_view()[id] is Clean,
            ),
    {
        let ids = keys_of(&self.requests);
        let ghost p0 = self.requests@;
        let mut dirtied: Vec<u32> = Vec::new();
        let mut i: usize = 0;
        while i < ids.len()
            invariant
                i <= ids.len(),
                ids@.no_duplicates(),
                ids@.to_set() == p0.dom(),
                self.requests@.dom() == p0.dom(),
                self.dirty == old(self).dirty,
                self.has_dirty_requests == old(self).has_dirty_requests,
                p0 == old(self).requests@,
                forall|id: u32|
                    #![trigger self.requests@[id]]
                    p0.contains_key(id) ==> self.requests@[id] == (if ids@.take(i as int).contains(
                        id,
                    ) {
                        mark_dirty(p0[id], timeout, *e)
                    } else {
                        p0[id]
                    }),
                dirtied@.no_duplicates(),
                forall|id: u32|
                    #![trigger dirtied@.contains(id)]
                    dirtied@.contains(id) <==> (ids@.take(i as int).contains(id) && p0[id] is Clean),
            decreases ids.len() - i,
        {
            let id = ids[i];
            proof {
                assert(ids@.to_set().contains(id));
                assert(!ids@.take(i as int).contains(id)) by {
                    if ids@.take(i as int).contains(id) {
                        let j = choose|j: int| 0 <= j < i && ids@.take(i as int)[j] == id;
                        assert(ids@[j] == ids@[i as int]);
                    }
                }
                assert(ids@.take(i + 1) =~= ids@.take(i as int).push(id));
            }
            let clean = match self.requests.get(&id) {
                Some(PendingRequestStatus::Clean) => true,
                _ => false,
            };
            let ghost before = self.requests@;
            let ghost dirtied_before = dirtied@;
            proof {
                assert(before[id] == p0[id]);
                assert(!dirtied_before.contains(id));
            }
            if clean {
                self.requests.insert(
                    id,
                    PendingRequestStatus::Dirty { timeout, error_message: e.clone() },
                );
                dirtied.push(id);
                proof {
                    assert(dirtied@ == dirtied_before.push(id));
                }
            }
            proof {
                assert forall|x: u32| #![trigger self.requests@[x]] p0.contains_key(x) implies self.requests@[x] == (if ids@.take(i + 1).contains(x) {
                    mark_dirty(p0[x], timeout, *e)
                } else {
                    p0[x]
                }) by {
                    if x != id {
                        assert(ids@.take(i + 1).contains(x) == ids@.take(i as int).contains(x));
                        assert(self.requests@[x] == before[x]);
                    } else {
                        assert(ids@.take(i + 1)[i as int] == x);
                    }
                }
                assert forall|x: u32| #![trigger dirtied@.contains(x)] dirtied@.contains(x) <==> (ids@.take(i + 1).contains(x) && p0[x] is Clean) by {
                    if x != id {
                        broadcast use vstd::seq_lib::lemma_seq_contains_after_push;
                        assert(ids@.take(i + 1).contains(x) == ids@.take(i as int).contains(x));
                        assert(dirtied@.contains(x) == dirtied_before.contains(x));
                    } else {
                        assert(ids@.take(i + 1)[i as int] == x);
                        assert(clean == (p0[x] is Clean));
                        if clean {
                            assert(dirtied@[dirtied@.len() - 1] == x);
                        }
                    }
                }
            }
            i = i + 1;
        }
        proof {
            assert(ids@.take(ids@.len() as int) =~= ids@);
            assert(self.requests@ =~= p0.map_values(
                |s: PendingRequestStatus| mark_dirty(s, timeout, *e),
            ));
            assert(dirtied@.to_set() =~= p0.dom().filter(|id: u32| p0[id] is Clean));
        }
        dirtied
    }

    fn append_dirty(&mut self, timeout: u64, ids: &Vec<u32>)
        ensures
            final(self).requests == old(self).requests,
            final(self).has_dirty_requests == old(self).has_dirty_requests,
            final(self).dirty_view() == with_dirtied(old(self).dirty_view(), timeout, ids@),
    {
        if ids.len() == 0 {
            return;
        }
        let mut list = match self.dirty.remove(&timeout) {
            Some(v) => v,
            None => Vec::new(),
        };
        let ghost start = list@;
        let mut i: usize = 0;
        while i < ids.len()
            invariant
                i <= ids.len(),
                list@ == start + ids@.take(i as int),
            decreases ids.len() - i,
        {
            list.push(ids[i]);
            i = i + 1;
            proof {
                assert(ids@.take(i as int) =~= ids@.take(i - 1).push(ids@[i - 1]));
            }
        }
        proof {
            assert(ids@.take(ids@.len() as int) =~= ids@);
        }
        self.dirty.insert(timeout, list);
        proof {
            assert(self.dirty_view() =~= old(self).dirty_view().insert(
                timeout,
                (if old(self).dirty_view().contains_key(timeout) {
                    old(self).dirty_view()[timeout]
                } else {
                    Seq::empty()
                }) + ids@,
            ));
        }
    }
}

} // verus!

verus! {

/// The requests a sweep over the deadlines in `order` may give up on.
pub open spec fn listed(dirty: Map<u64, Seq<u32>>, order: Seq<u64>, id: u32) -> bool {
    exists|k: int| 0 <= k < order.len() && #[trigger] dirty[order[k]].contains(id)
}

/// `after` keeps some of the entries of `before`, unchanged, and no other.
pub open spec fn shrinks(
    before: Map<u32, PendingRequestStatus>,
    after: Map<u32, PendingRequestStatus>,
) -> bool {
    forall|id: u32| #[trigger]
        after.contains_key(id) ==> before.contains_key(id) && after[id] == before[id]
}

/// Every delivery went to a request that was pending and dirty with that very
/// error, and that is pending no more; no request is given two.
pub open spec fn deliveries_sound(
    before: Map<u32, PendingRequestStatus>,
    after: Map<u32, PendingRequestStatus>,
    ds: Seq<(u32, JsonRpcError, bool)>,
) -> bool {
    &&& forall|i: int|
        #![trigger ds[i]]
        0 <= i < ds.len() ==> {
            &&& before.contains_key(ds[i].0)
            &&& before[ds[i].0] matches PendingRequestStatus::Dirty { error_message, .. }
                && error_message == ds[i].1
            &&& !after.contains_key(ds[i].0)
        }
    &&& forall|i: int, j: int| 0 <= i < j < ds.len() ==> ds[i].0 != ds[j].0
}

proof fn lemma_sweep_list(pending: Map<u32, PendingRequestStatus>, ids: Seq<u32>, shared: bool)
    ensures
        ({
            let r = sweep_list(pending, ids, shared);
            &&& shrinks(pending, r.0)
            &&& deliveries_sound(pending, r.0, r.1)
            &&& forall|id: u32|
                pending.contains_key(id) && !ids.contains(id) ==> #[trigger] r.0.contains_key(id)
        }),
    decreases ids.len(),
{
    if ids.len() > 0 {
        let id = ids[0];
        let rest_ids = ids.drop_first();
        if pending.contains_key(id) {
            let p1 = pending.remove(id);
            lemma_sweep_list(p1, rest_ids, shared);
            let rest = sweep_list(p1, rest_ids, shared);
            let r = sweep_list(pending, ids, shared);
            assert forall|x: u32| pending.contains_key(x) && !ids.contains(x) implies #[trigger] r.0.contains_key(x) by {
                if rest_ids.contains(x) {
                    let k = choose|k: int| 0 <= k < rest_ids.len() && rest_ids[k] == x;
                    assert(ids[k + 1] == x);
                }
                assert(x != id);
            }
        } else {
            lemma_sweep_list(pending, rest_ids, shared);
            let r = sweep_list(pending, ids, shared);
            assert forall|x: u32| pending.contains_key(x) && !ids.contains(x) implies #[trigger] r.0.contains_key(x) by {
                if rest_ids.contains(x) {
                    let k = choose|k: int| 0 <= k < rest_ids.len() && rest_ids[k] == x;
                    assert(ids[k + 1] == x);
                }
            }
        }
    }
}

/// Law: a sweep gives an error only to requests that were pending and dirty with
/// that very error, gives each at most one, and they are pending no more; it drops
/// no other request and changes the status of none, and it keeps every pending
/// request that no handled deadline lists.
pub proof fn law_sweep_delivers_once(
    pending: Map<u32, PendingRequestStatus>,
    dirty: Map<u64, Seq<u32>>,
    order: Seq<u64>,
)
    ensures
        ({
            let r = sweep_deadlines(pending, dirty, order);
            &&& shrinks(pending, r.0)
            &&& deliveries_sound(pending, r.0, r.1)
            &&& forall|id: u32|
                pending.contains_key(id) && !listed(dirty, order, id) ==> #[trigger] r.0.contains_key(
                    id,
                )
        }),
    decreases order.len(),
{
    if order.len() > 0 {
        let ids = dirty[order[0]];
        let shared = pending_count(pending, ids) > 1;
        let first = sweep_list(pending, ids, shared);
        lemma_sweep_list(pending, ids, shared);
        law_sweep_delivers_once(first.0, dirty, order.drop_first());
        let rest = sweep_deadlines(first.0, dirty, order.drop_first());
        let r = sweep_deadlines(pending, dirty, order);
        assert(r.1 == first.1 + rest.1);
        assert forall|i: int| #![trigger r.1[i]] 0 <= i < r.1.len() implies {
            &&& pending.contains_key(r.1[i].0)
            &&& pending[r.1[i].0] matches PendingRequestStatus::Dirty { error_message, .. }
                && error_message == r.1[i].1
            &&& !r.0.contains_key(r.1[i].0)
        } by {
            if i < first.1.len() {
                assert(r.1[i] == first.1[i]);
            } else {
                assert(r.1[i] == rest.1[i - first.1.len()]);
            }
        }
        assert forall|i: int, j: int| 0 <= i < j < r.1.len() implies r.1[i].0 != r.1[j].0 by {
            if j < first.1.len() {
                assert(r.1[i] == first.1[i] && r.1[j] == first.1[j]);
            } else if i >= first.1.len() {
                assert(r.1[i] == rest.1[i - first.1.len()] && r.1[j] == rest.1[j - first.1.len()]);
            } else {
                assert(r.1[i] == first.1[i] && r.1[j] == rest.1[j - first.1.len()]);
                assert(!first.0.contains_key(r.1[i].0));
                assert(first.0.contains_key(r.1[j].0));
            }
        }
        assert forall|id: u32| pending.contains_key(id) && !listed(dirty, order, id) implies #[trigger] r.0.contains_key(id) by {
            assert(!ids.contains(id)) by {
                if ids.contains(id) {
                    assert(dirty[order[0]].contains(id));
                }
            }
            assert(!listed(dirty, order.drop_first(), id)) by {
                if listed(dirty, order.drop_first(), id) {
                    let k = choose|k: int| 0 <= k < order.drop_first().len() && #[trigger] dirty[order.drop_first()[k]].contains(id);
                    assert(order[k + 1] == order.drop_first()[k]);
                    assert(dirty[order[k + 1]].contains(id));
                }
            }
        }
    }
}

} // verus!

verus! {

use crate::jsonrpc::{JsonRpcNotification, JsonText};

/// What to do with a message read from the websocket.
#[derive(Debug)]
pub enum Inbound {
    /// Hand the notification to whoever listens for notifications.
    Notify(JsonRpcNotification),
    /// A response, routed.
    Response(Routed),
    /// The message reads as none of the three kinds; it is only logged.
    Unreadable,
}

/// What to do with a message read from the websocket, for a client that tells
/// responses from notifications by the presence of an `id` member.
#[derive(Debug)]
pub enum KeyedInbound {
    /// Hand the whole message to whoever listens for notifications.
    Notify(JsonText),
    /// A response, routed.
    Response(Routed),
    /// The message has an id but reads as neither kind of response; it is only logged.
    Unreadable,
}

impl PendingRequests {
    /// Handles a message read from the websocket, given how it reads as each kind
    /// of message: a notification comes first, then a success response, then an
    /// error response.
    pub fn receive(
        &mut self,
        as_notification: Option<JsonRpcNotification>,
        as_success: Option<JsonRpcSuccessResponse>,
        as_error: Option<JsonRpcErrorResponse>,
        now: u64,
    ) -> (r: Inbound)
        requires
            as_notification is None && as_success is None && (as_error matches Some(m) && defers(
                *old(self),
                m,
            )) ==> now + DIRTY_PENDING_RESPONSE_TIMEOUT_NANOS <= u64::MAX,
        ensures
            match as_notification {
                Some(n) => r == Inbound::Notify(n) && *final(self) == *old(self),
                None => match as_success {
                    Some(m) => r matches Inbound::Response(routed) && routes_success(
                        *old(self),
                        *final(self),
                        m,
                        routed,
                    ),
                    None => match as_error {
                        Some(m) => r matches Inbound::Response(routed) && routes_error(
                            *old(self),
                            *final(self),
                            m,
                            now,
                            routed,
                        ),
                        None => r is Unreadable && *final(self) == *old(self),
                    },
                },
            },
    {
        match as_notification {
            Some(n) => Inbound::Notify(n),
            None => match as_success {
                Some(m) => Inbound::Response(self.route_success(m)),
                None => match as_error {
                    Some(m) => Inbound::Response(self.route_error(m, now)),
                    None => Inbound::Unreadable,
                },
            },
        }
    }

    /// Handles a message read from the websocket: one without an `id` member is a
    /// notification; one with an id is a success response if it reads as one, else
    /// an error response if it reads as one.
    pub fn receive_keyed(
        &mut self,
        raw: JsonText,
        has_id: bool,
        as_success: Option<JsonRpcSuccessResponse>,
        as_error: Option<JsonRpcErrorResponse>,
        now: u64,
    ) -> (r: KeyedInbound)
        requires
            has_id && as_success is None && (as_error matches Some(m) && defers(*old(self), m))
                ==> now + DIRTY_PENDING_RESPONSE_TIMEOUT_NANOS <= u64::MAX,
        ensures
            !has_id ==> r == KeyedInbound::Notify(raw) && *final(self) == *old(self),
            has_id ==> routes_keyed(*old(self), *final(self), as_success, as_error, now, r),
    {
        if !has_id {
            KeyedInbound::Notify(raw)
        } else {
            match as_success {
                Some(m) => KeyedInbound::Response(self.route_success(m)),
                None => match as_error {
                    Some(m) => KeyedInbound::Response(self.route_error(m, now)),
                    None => KeyedInbound::Unreadable,
                },
            }
        }
    }

    /// Handles a text frame read from the websocket, given how it reads as each
    /// kind of response: whether it has an `id` member is asked of the JSON
    /// parser, and the frame is then handled as `receive_keyed` says, a
    /// notification being handed on as the frame's own text. None, with
    /// nothing changed, when the frame is not JSON.
    pub fn receive_frame(
        &mut self,
        text: &str,
        as_success: Option<JsonRpcSuccessResponse>,
        as_error: Option<JsonRpcErrorResponse>,
        now: u64,
    ) -> (r: Option<KeyedInbound>)
        requires
            as_success is None && (as_error matches Some(m) && defers(*old(self), m))
                ==> now + DIRTY_PENDING_RESPONSE_TIMEOUT_NANOS <= u64::MAX,
        ensures
            handles_frame(*old(self), *final(self), text@, as_success, as_error, now, r),
    {
        match text_has_key(text, "id") {
            None => None,
            Some(has_id) => {
                let raw = JsonText { text: String::from_str(text) };
                Some(self.receive_keyed(raw, has_id, as_success, as_error, now))
            },
        }
    }
}

/// How a text frame is handled (see `PendingRequests::receive_frame`).
pub open spec fn handles_frame(
    before: PendingRequests,
    after: PendingRequests,
    text: Seq<char>,
    as_success: Option<JsonRpcSuccessResponse>,
    as_error: Option<JsonRpcErrorResponse>,
    now: u64,
    r: Option<KeyedInbound>,
) -> bool {
    match json_has_key(text, "id"@) {
        None => r is None && after == before,
        Some(false) => r matches Some(KeyedInbound::Notify(raw)) && raw@ == text && after == before,
        Some(true) => r matches Some(inbound) && routes_keyed(
            before,
            after,
            as_success,
            as_error,
            now,
            inbound,
        ),
    }
}

/// A JSON frame without an `id` member is handed, as it came, to whoever
/// listens for notifications, and changes no request; a frame with an `id`
/// member never is: it goes to the request that waits under its id, else to
/// the general reader, or nowhere when it reads as no response.
pub proof fn law_frames_by_id_member(
    before: PendingRequests,
    after: PendingRequests,
    text: Seq<char>,
    as_success: Option<JsonRpcSuccessResponse>,
    as_error: Option<JsonRpcErrorResponse>,
    now: u64,
    r: Option<KeyedInbound>,
)
    requires
        handles_frame(before, after, text, as_success, as_error, now, r),
    ensures
        json_has_key(text, "id"@) == Some(false) ==> (r matches Some(KeyedInbound::Notify(raw))
            && raw@ == text && after == before),
        json_has_key(text, "id"@) == Some(true) ==> (r matches Some(inbound) && !(
        inbound is Notify) && (inbound is Unreadable ==> after == before)),
{
}

/// How a message with an `id` member is handled: as a success response if it
/// reads as one, else as an error response if it reads as one, else not at all.
pub open spec fn routes_keyed(
    before: PendingRequests,
    after: PendingRequests,
    as_success: Option<JsonRpcSuccessResponse>,
    as_error: Option<JsonRpcErrorResponse>,
    now: u64,
    r: KeyedInbound,
) -> bool {
    match as_success {
        Some(m) => r matches KeyedInbound::Response(routed) && routes_success(
            before,
            after,
            m,
            routed,
        ),
        None => match as_error {
            Some(m) => r matches KeyedInbound::Response(routed) && routes_error(
                before,
                after,
                m,
                now,
                routed,
            ),
            None => r is Unreadable && after == before,
        },
    }
}

/// What `serde_json` says of a text and a member name: none when the text is
/// not a JSON value, else whether the value is an object with a member of
/// that name (of any value, null too).
pub uninterp spec fn json_has_key(text: Seq<char>, key: Seq<char>) -> Option<bool>;

/// Parses a text into a `serde_json::Value` (`serde_json::from_str`) and asks
/// it for a member (`Value::get`); the result is named `json_has_key` of the
/// text and the member name.
#[verifier::external_body]
fn text_has_key(text: &str, key: &str) -> (r: Option<bool>)
    ensures
        r == json_has_key(text@, key@),
{
    match serde_json::from_str::<serde_json::Value>(text) {
        Ok(value) => Some(value.get(key).is_some()),
        Err(_) => None,
    }
}

} // verus!

verus! {

/// A request registered under an id gets the success response that carries
/// that id, and waits no more.
pub proof fn law_response_reaches_its_request(
    before: PendingRequests,
    opened: PendingRequests,
    after: PendingRequests,
    id: u32,
    message: JsonRpcSuccessResponse,
    r: Routed,
)
    requires
        opened.pending_view() == before.pending_view().insert(id, PendingRequestStatus::Clean),
        message.id == id,
        routes_success(opened, after, message, r),
    ensures
        r == (Routed::Deliver { id, response: JsonRpcResponse::Result(message) }),
        !after.pending_view().contains_key(id),
        after.pending_view() == before.pending_view().remove(id),
{
    assert(after.pending_view() =~= before.pending_view().remove(id));
}

/// A request registered under an id gets the error response that carries
/// that id, and waits no more.
pub proof fn law_error_reaches_its_request(
    before: PendingRequests,
    opened: PendingRequests,
    after: PendingRequests,
    id: u32,
    message: JsonRpcErrorResponse,
    now: u64,
    r: Routed,
)
    requires
        opened.pending_view() == before.pending_view().insert(id, PendingRequestStatus::Clean),
        message.id == Some(id),
        routes_error(opened, after, message, now, r),
    ensures
        r == (Routed::Deliver { id, response: JsonRpcResponse::ReturnedError(message.error) }),
        !after.pending_view().contains_key(id),
        after.pending_view() == before.pending_view().remove(id),
{
    assert(after.pending_view() =~= before.pending_view().remove(id));
}

/// An error without an id, while more than one request waits, leaves no
/// request clean: each waits with a deadline for its own response or that error.
pub proof fn law_idless_error_dirties_all(
    before: PendingRequests,
    after: PendingRequests,
    message: JsonRpcErrorResponse,
    now: u64,
    r: Routed,
)
    requires
        message.id is None,
        before.pending_view().len() != 1,
        routes_error(before, after, message, now, r),
    ensures
        after.pending_view().dom() == before.pending_view().dom(),
        forall|id: u32| #[trigger]
            after.pending_view().contains_key(id) ==> after.pending_view()[id] is Dirty,
        after.has_dirty(),
{
    assert(after.pending_view().dom() =~= before.pending_view().dom());
}

} // verus!

verus! {

/// Giving up on a list that holds `id`, while `id` waits dirty with `e`,
/// delivers `e` to it once and leaves it pending no more.
proof fn lemma_sweep_list_delivers(
    pending: Map<u32, PendingRequestStatus>,
    ids: Seq<u32>,
    shared: bool,
    id: u32,
    timeout: u64,
    e: JsonRpcError,
)
    requires
        ids.contains(id),
        pending.contains_key(id),
        pending[id] == (PendingRequestStatus::Dirty { timeout, error_message: e }),
    ensures
        ({
            let r = sweep_list(pending, ids, shared);
            &&& !r.0.contains_key(id)
            &&& exists|i: int| 0 <= i < r.1.len() && #[trigger] r.1[i] == (id, e, shared)
        }),
    decreases ids.len(),
{
    let r = sweep_list(pending, ids, shared);
    let x = ids[0];
    let rest_ids = ids.drop_first();
    if x == id {
        let p1 = pending.remove(id);
        lemma_sweep_list(p1, rest_ids, shared);
        let rest = sweep_list(p1, rest_ids, shared);
        assert(r.1 == seq![(id, e, shared)] + rest.1);
        assert(r.1[0] == (id, e, shared));
    } else {
        assert(rest_ids.contains(id)) by {
            let k = choose|k: int| 0 <= k < ids.len() && ids[k] == id;
            assert(rest_ids[k - 1] == id);
        }
        if pending.contains_key(x) {
            let p1 = pending.remove(x);
            lemma_sweep_list_delivers(p1, rest_ids, shared, id, timeout, e);
            let rest = sweep_list(p1, rest_ids, shared);
            let here: Seq<(u32, JsonRpcError, bool)> = match pending[x] {
                PendingRequestStatus::Dirty { error_message, .. } => seq![(x, error_message, shared)],
                PendingRequestStatus::Clean => Seq::empty(),
            };
            assert(r.1 == here + rest.1);
            let i = choose|i: int| 0 <= i < rest.1.len() && #[trigger] rest.1[i] == (id, e, shared);
            assert(r.1[here.len() + i] == (id, e, shared));
        } else {
            lemma_sweep_list_delivers(pending, rest_ids, shared, id, timeout, e);
        }
    }
}

/// Giving up on the deadlines of `order`, where only the deadline `timeout`
/// lists `id` and `id` waits dirty with `e` and that deadline, delivers `e`
/// to it once and leaves it pending no more.
proof fn lemma_sweep_deadlines_delivers(
    pending: Map<u32, PendingRequestStatus>,
    dirty: Map<u64, Seq<u32>>,
    order: Seq<u64>,
    id: u32,
    timeout: u64,
    e: JsonRpcError,
)
    requires
        order.contains(timeout),
        dirty[timeout].contains(id),
        forall|k: int| 0 <= k < order.len() && #[trigger] dirty[order[k]].contains(id) ==> order[k]
            == timeout,
        pending.contains_key(id),
        pending[id] == (PendingRequestStatus::Dirty { timeout, error_message: e }),
    ensures
        ({
            let r = sweep_deadlines(pending, dirty, order);
            &&& !r.0.contains_key(id)
            &&& exists|i: int| 0 <= i < r.1.len() && (#[trigger] r.1[i]).0 == id && r.1[i].1 == e
        }),
    decreases order.len(),
{
    let r = sweep_deadlines(pending, dirty, order);
    let ids = dirty[order[0]];
    let shared = pending_count(pending, ids) > 1;
    let first = sweep_list(pending, ids, shared);
    let rest_order = order.drop_first();
    let rest = sweep_deadlines(first.0, dirty, rest_order);
    assert(r.1 == first.1 + rest.1);
    if order[0] == timeout {
        lemma_sweep_list_delivers(pending, ids, shared, id, timeout, e);
        law_sweep_delivers_once(first.0, dirty, rest_order);
        let i = choose|i: int| 0 <= i < first.1.len() && #[trigger] first.1[i] == (id, e, shared);
        assert(r.1[i] == first.1[i]);
    } else {
        assert(!ids.contains(id)) by {
            if ids.contains(id) {
                assert(dirty[order[0]].contains(id));
            }
        }
        lemma_sweep_list(pending, ids, shared);
        assert(first.0.contains_key(id));
        assert(first.0[id] == pending[id]);
        assert(rest_order.contains(timeout)) by {
            let k = choose|k: int| 0 <= k < order.len() && order[k] == timeout;
            assert(rest_order[k - 1] == timeout);
        }
        assert forall|k: int| 0 <= k < rest_order.len() && #[trigger] dirty[rest_order[k]].contains(
            id,
        ) implies rest_order[k] == timeout by {
            assert(rest_order[k] == order[k + 1]);
        }
        lemma_sweep_deadlines_delivers(first.0, dirty, rest_order, id, timeout, e);
        let i = choose|i: int| 0 <= i < rest.1.len() && (#[trigger] rest.1[i]).0 == id && rest.1[i].1 == e;
        assert(r.1[first.1.len() + i] == rest.1[i]);
    }
}

/// An error without an id, that comes while more than one request waits, is
/// given by the first sweep at or after its deadline (the moment it came plus
/// the timeout) to every request it marked: with the same code and data, and
/// its message, with the note before it when the error is shared. Each such
/// request then waits no more. (Left out: a request whose id an older
/// deadline that has also passed still lists, from an earlier request that
/// had the same id.)
pub proof fn law_idless_error_reaches_marked_requests(
    before: PendingRequests,
    marked: PendingRequests,
    after: PendingRequests,
    message: JsonRpcErrorResponse,
    now: u64,
    r: Routed,
    later: u64,
    s: Sweep,
)
    requires
        defers(before, message),
        now + DIRTY_PENDING_RESPONSE_TIMEOUT_NANOS <= u64::MAX,
        routes_error(before, marked, message, now, r),
        later >= now + DIRTY_PENDING_RESPONSE_TIMEOUT_NANOS,
        sweeps(marked, after, later, s),
        forall|t: u64, id: u32|
            #![trigger before.dirty_view()[t].contains(id)]
            before.dirty_view().contains_key(t) && t <= later && before.pending_view().contains_key(id)
                && before.pending_view()[id] is Clean ==> !before.dirty_view()[t].contains(id),
    ensures
        r matches Routed::Deferred { dirtied } && forall|id: u32| #[trigger]
            dirtied@.contains(id) ==> {
                &&& !after.pending_view().contains_key(id)
                &&& exists|i: int|
                    0 <= i < s.deliveries@.len() && (#[trigger] s.deliveries@[i]).0 == id && (
                    annotated(s.deliveries@[i].1, message.error, true) || annotated(
                        s.deliveries@[i].1,
                        message.error,
                        false,
                    ))
            },
{
    let timeout = (now + DIRTY_PENDING_RESPONSE_TIMEOUT_NANOS) as u64;
    let e = message.error;
    let dirtied = r->dirtied;
    let p0 = before.pending_view();
    let d0 = before.dirty_view();
    let d1 = marked.dirty_view();
    assert forall|id: u32| #[trigger] dirtied@.contains(id) implies {
        &&& !after.pending_view().contains_key(id)
        &&& exists|i: int|
            0 <= i < s.deliveries@.len() && (#[trigger] s.deliveries@[i]).0 == id && (annotated(
                s.deliveries@[i].1,
                e,
                true,
            ) || annotated(s.deliveries@[i].1, e, false))
    } by {
        assert(dirtied@.to_set().contains(id));
        assert(p0.contains_key(id) && p0[id] is Clean);
        assert(marked.pending_view()[id] == mark_dirty(p0[id], timeout, e));
        let list = (if d0.contains_key(timeout) { d0[timeout] } else { Seq::empty() }) + dirtied@;
        assert(d1 == d0.insert(timeout, list));
        assert(list.contains(id)) by {
            let k = choose|k: int| 0 <= k < dirtied@.len() && dirtied@[k] == id;
            assert(list[list.len() - dirtied@.len() + k] == id);
        }
        assert(s.expired@.to_set().contains(timeout));
        assert(s.expired@.contains(timeout));
        assert forall|k: int| 0 <= k < s.expired@.len() && #[trigger] d1[s.expired@[k]].contains(id)
            implies s.expired@[k] == timeout by {
            let t = s.expired@[k];
            assert(s.expired@.to_set().contains(t));
            if t != timeout {
                assert(d1[t] == d0[t]);
                assert(!d0[t].contains(id));
            }
        }
        lemma_sweep_deadlines_delivers(marked.pending_view(), d1, s.expired@, id, timeout, e);
        let result = sweep_deadlines(marked.pending_view(), d1, s.expired@);
        let i = choose|i: int| 0 <= i < result.1.len() && (#[trigger] result.1[i]).0 == id && result.1[i].1 == e;
        assert(s.deliveries@[i].0 == result.1[i].0);
        assert(annotated(s.deliveries@[i].1, result.1[i].1, result.1[i].2));
    }
}

/// What becomes of an error without an id. When exactly one request waits,
/// it is given the error at once. Otherwise no request gets it at once and it
/// never goes to the general reader: every request that waited clean is marked
/// (none when none waits), and the first sweep at or after the moment the
/// error came plus the timeout gives each of them the error, with the same
/// code and data and its message, the note before it when the error is
/// shared; each then waits no more. (Left out, as in
/// `law_idless_error_reaches_marked_requests`: a request whose id an older,
/// also expired deadline still lists.)
pub proof fn law_idless_error_answer(
    before: PendingRequests,
    marked: PendingRequests,
    after: PendingRequests,
    message: JsonRpcErrorResponse,
    now: u64,
    r: Routed,
    later: u64,
    s: Sweep,
)
    requires
        message.id is None,
        now + DIRTY_PENDING_RESPONSE_TIMEOUT_NANOS <= u64::MAX,
        routes_error(before, marked, message, now, r),
        later >= now + DIRTY_PENDING_RESPONSE_TIMEOUT_NANOS,
        sweeps(marked, after, later, s),
        forall|t: u64, id: u32|
            #![trigger before.dirty_view()[t].contains(id)]
            before.dirty_view().contains_key(t) && t <= later && before.pending_view().contains_key(id)
                && before.pending_view()[id] is Clean ==> !before.dirty_view()[t].contains(id),
    ensures
        !(r is Forward),
        before.pending_view().len() == 1 ==> (r matches Routed::Deliver { id, response }
            && before.pending_view().contains_key(id) && response == JsonRpcResponse::ReturnedError(
            message.error,
        ) && !marked.pending_view().contains_key(id)),
        before.pending_view().len() != 1 ==> (r matches Routed::Deferred { dirtied }
            && dirtied@.to_set() == before.pending_view().dom().filter(
            |id: u32| before.pending_view()[id] is Clean,
        ) && forall|id: u32| #[trigger]
            dirtied@.contains(id) ==> {
                &&& !after.pending_view().contains_key(id)
                &&& exists|i: int|
                    0 <= i < s.deliveries@.len() && (#[trigger] s.deliveries@[i]).0 == id && (
                    annotated(s.deliveries@[i].1, message.error, true) || annotated(
                        s.deliveries@[i].1,
                        message.error,
                        false,
                    ))
            }),
        before.pending_view().len() == 0 ==> (r matches Routed::Deferred { dirtied }
            && dirtied@.len() == 0),
{
    if before.pending_view().len() != 1 {
        law_idless_error_reaches_marked_requests(before, marked, after, message, now, r, later, s);
    }
    if before.pending_view().len() == 0 {
        let dirtied = r->dirtied;
        assert(before.pending_view().dom() =~= Set::<u32>::empty());
        if dirtied@.len() > 0 {
            assert(dirtied@.to_set().contains(dirtied@[0]));
        }
    }
}

} // verus!
