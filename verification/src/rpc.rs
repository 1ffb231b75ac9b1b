//! The request/reply layer, built on plain publish/subscribe.
//!
//! A caller opens a pending call with a reply destination that no other
//! outstanding call on the connection uses, publishes its request, and
//! waits for exactly one of three resolutions: a reply addressed to
//! that destination, the deadline passing, or the bus stream closing.
//! The table below owns every pending call of one connection and makes
//! each resolution decision; the surrounding code only moves bytes to
//! and from the bus.

use vstd::prelude::*;

verus! {

/// Where a pending call stands.  It starts `Waiting` and is resolved
/// at most once: by the reply payload, by deadline expiry, or by the
/// closure of the bus stream before any message arrived.
#[derive(Debug, Clone)]
pub enum CallState {
    Waiting,
    Replied(Vec<u8>),
    TimedOut,
    Closed,
}

/// Ephemeral state of one outstanding call: its reply destination, its
/// deadline, and its resolution so far.
#[derive(Debug, Clone)]
pub struct PendingCall {
    pub dest: Vec<u8>,
    pub deadline: u64,
    pub state: CallState,
}

/// A failed call, as the caller sees it.  "Nobody answered in time"
/// and "the responder disappeared" are distinct conditions; a timeout
/// names the topic and the elapsed time.
#[derive(Debug, Clone)]
pub enum RpcFailure {
    Timeout { topic: String, elapsed_ms: u64 },
    ChannelClosed,
}

/// Whether some call of `s` — outstanding or already resolved — uses
/// the reply destination `d`.  A destination is never reused for the
/// lifetime of the table.
pub open spec fn dest_registered(s: Seq<PendingCall>, d: Seq<u8>) -> bool {
    exists|i: int| 0 <= i < s.len() && (#[trigger] s[i]).dest@ == d
}

/// The pending calls of one logical bus connection.  Many calls may be
/// outstanding at once, each independent; resolving one never touches
/// another.
pub struct RpcLayer {
    calls: Vec<PendingCall>,
}

impl RpcLayer {
    /// Every call ever opened on this connection, in order.
    pub closed spec fn calls_seq(&self) -> Seq<PendingCall> {
        self.calls@
    }

    /// Reply destinations are pairwise distinct, so a reply addressed
    /// to one call's destination can never be mistaken for another's.
    /// This holds of every table; it is established by [`Self::new`]
    /// and preserved by every method.
    #[verifier::type_invariant]
    pub closed spec fn wf(&self) -> bool {
        forall|i: int, j: int|
            #![trigger self.calls@[i], self.calls@[j]]
            0 <= i < j < self.calls@.len() ==> self.calls@[i].dest@ != self.calls@[j].dest@
    }

    /// A fresh table with no calls.
    pub fn new() -> (r: RpcLayer)
        ensures
            r.calls_seq().len() == 0,
    {
        RpcLayer { calls: Vec::new() }
    }

    /// Number of calls the table has seen, resolved ones included.
    pub fn call_count(&self) -> (n: usize)
        ensures
            n == self.calls_seq().len(),
    {
        self.calls.len()
    }

    /// Opens a pending call on the given reply destination, before the
    /// request is published, so a reply can never arrive ahead of the
    /// subscription.  Succeeds with the call's handle exactly when no
    /// call of this table ever used the destination; otherwise the
    /// table is unchanged and the caller must pick another destination.
    pub fn open_call(&mut self, dest: Vec<u8>, deadline: u64) -> (r: Option<usize>)
        ensures
            r is None <==> dest_registered(old(self).calls_seq(), dest@),
            r is None ==> final(self).calls_seq() == old(self).calls_seq(),
            r matches Some(h) ==> h == old(self).calls_seq().len() && final(self).calls_seq()
                == old(self).calls_seq().push(
                (PendingCall { dest, deadline, state: CallState::Waiting }),
            ),
    {
        proof {
            use_type_invariant(&*self);
        }
        let ghost s0 = self.calls@;
        let n = self.calls.len();
        let mut i: usize = 0;
        while i < n
            invariant
                n == s0.len(),
                self.calls@ == s0,
                i <= n,
                forall|k: int| 0 <= k < i ==> (#[trigger] s0[k]).dest@ != dest@,
            decreases n - i,
        {
            if bytes_eq(&self.calls[i].dest, &dest) {
                return None;
            }
            i = i + 1;
        }
        let h = n;
        let mut calls = Vec::new();
        std::mem::swap(&mut calls, &mut self.calls);
        calls.push(PendingCall { dest, deadline, state: CallState::Waiting });
        proof {
            assert forall|i: int, j: int|
                #![trigger calls@[i], calls@[j]]
                0 <= i < j < calls@.len() implies calls@[i].dest@ != calls@[j].dest@ by {
                if j < s0.len() {
                    assert(calls@[i] == s0[i] && calls@[j] == s0[j]);
                } else {
                    assert(calls@[i] == s0[i]);
                }
            }
        }
        self.calls = calls;
        Some(h)
    }

    /// Opens a pending call on a destination drawn from the bus
    /// connection, namespaced to this caller.  The drawn name is only
    /// statistically fresh, so it is checked against every destination
    /// this table ever used; on the rare collision nothing changes and
    /// the caller may try again.
    pub fn begin_call(&mut self, client: &async_nats::Client, deadline: u64) -> (r: Option<usize>)
        ensures
            r is None ==> final(self).calls_seq() == old(self).calls_seq(),
            r matches Some(h) ==> {
                &&& h == old(self).calls_seq().len()
                &&& final(self).calls_seq().len() == old(self).calls_seq().len() + 1
                &&& forall|i: int|
                    0 <= i < old(self).calls_seq().len() ==> final(self).calls_seq()[i] == old(
                        self,
                    ).calls_seq()[i]
                &&& final(self).calls_seq()[h as int].state is Waiting
                &&& final(self).calls_seq()[h as int].deadline == deadline
                &&& !dest_registered(old(self).calls_seq(), final(self).calls_seq()[h as int].dest@)
            },
    {
        let dest = new_reply_destination(client);
        self.open_call(dest, deadline)
    }

    /// The reply destination of the call `i`; the caller subscribes to
    /// it and sends it with the request.
    pub fn destination(&self, i: usize) -> (d: &Vec<u8>)
        requires
            i < self.calls_seq().len(),
        ensures
            d@ == self.calls_seq()[i as int].dest@,
    {
        &self.calls[i].dest
    }

    /// The current state of the call `i`.
    pub fn state_of(&self, i: usize) -> (s: &CallState)
        requires
            i < self.calls_seq().len(),
        ensures
            *s == self.calls_seq()[i as int].state,
    {
        &self.calls[i].state
    }

    /// Routes an incoming reply to the single waiting call whose
    /// destination it is addressed to; every other call, waiting or
    /// resolved, stays exactly as it was, whatever order replies come
    /// in.  A reply that matches no waiting call — a late reply to an
    /// already-resolved call, or a stray — is discarded silently.
    pub fn deliver_reply(&mut self, dest: &Vec<u8>, payload: Vec<u8>) -> (r: Option<usize>)
        ensures
            match r {
                Some(i) => {
                    &&& 0 <= i < old(self).calls_seq().len()
                    &&& old(self).calls_seq()[i as int].dest@ == dest@
                    &&& old(self).calls_seq()[i as int].state is Waiting
                    &&& final(self).calls_seq() == old(self).calls_seq().update(
                        i as int,
                        (PendingCall {
                            dest: old(self).calls_seq()[i as int].dest,
                            deadline: old(self).calls_seq()[i as int].deadline,
                            state: CallState::Replied(payload),
                        }),
                    )
                },
                None => {
                    &&& final(self).calls_seq() == old(self).calls_seq()
                    &&& forall|i: int|
                        0 <= i < old(self).calls_seq().len() ==> !((#[trigger] old(
                            self,
                        ).calls_seq()[i]).dest@ == dest@ && old(self).calls_seq()[i].state
                            is Waiting)
                },
            },
    {
        proof {
            use_type_invariant(&*self);
        }
        let ghost s0 = self.calls@;
        let n = self.calls.len();
        let mut i: usize = 0;
        while i < n
            invariant
                n == s0.len(),
                s0 == old(self).calls_seq(),
                self.calls@ == s0,
                i <= n,
                forall|k: int|
                    0 <= k < i ==> !((#[trigger] s0[k]).dest@ == dest@ && s0[k].state is Waiting),
            decreases n - i,
        {
            let hit = match &self.calls[i].state {
                CallState::Waiting => bytes_eq(&self.calls[i].dest, dest),
                _ => false,
            };
            if hit {
                proof {
                    use_type_invariant(&*self);
                }
                let mut calls = Vec::new();
                std::mem::swap(&mut calls, &mut self.calls);
                let c = calls.remove(i);
                let c2 = PendingCall {
                    dest: c.dest,
                    deadline: c.deadline,
                    state: CallState::Replied(payload),
                };
                proof {
                    s0.remove_ensures(i as int);
                    s0.remove(i as int).insert_ensures(i as int, c2);
                }
                calls.insert(i, c2);
                proof {
                    assert forall|p: int| 0 <= p < calls@.len() implies (#[trigger] calls@[p]).dest
                        == s0[p].dest by {
                        if p < i as int {
                            assert(calls@[p] == s0.remove(i as int)[p]);
                        } else if p > i as int {
                            assert(calls@[p] == s0.remove(i as int)[p - 1]);
                        }
                    }
                    assert(calls@ =~= s0.update(i as int, c2));
                    assert forall|p: int, q: int|
                        #![trigger calls@[p], calls@[q]]
                        0 <= p < q < calls@.len() implies calls@[p].dest@ != calls@[q].dest@ by {
                        assert(calls@[p].dest == s0[p].dest && calls@[q].dest == s0[q].dest);
                    }
                }
                self.calls = calls;
                return Some(i);
            }
            i = i + 1;
        }
        None
    }

    /// Resolves the call `i` as timed out if it is still waiting and
    /// its deadline has passed; a call already resolved, or one whose
    /// deadline lies ahead, is left untouched.
    pub fn expire(&mut self, i: usize, now: u64) -> (fired: bool)
        requires
            i < old(self).calls_seq().len(),
        ensures
            fired <==> (old(self).calls_seq()[i as int].state is Waiting && now >= old(
                self,
            ).calls_seq()[i as int].deadline),
            fired ==> final(self).calls_seq() == old(self).calls_seq().update(
                i as int,
                (PendingCall {
                    dest: old(self).calls_seq()[i as int].dest,
                    deadline: old(self).calls_seq()[i as int].deadline,
                    state: CallState::TimedOut,
                }),
            ),
            !fired ==> final(self).calls_seq() == old(self).calls_seq(),
    {
        self.resolve_without_reply(i, now, false)
    }

    /// Resolves the call `i` as closed if it is still waiting: the bus
    /// stream ended before any reply, so the responder disappeared.  A
    /// call already resolved is left untouched.
    pub fn close_stream(&mut self, i: usize) -> (fired: bool)
        requires
            i < old(self).calls_seq().len(),
        ensures
            fired <==> old(self).calls_seq()[i as int].state is Waiting,
            fired ==> final(self).calls_seq() == old(self).calls_seq().update(
                i as int,
                (PendingCall {
                    dest: old(self).calls_seq()[i as int].dest,
                    deadline: old(self).calls_seq()[i as int].deadline,
                    state: CallState::Closed,
                }),
            ),
            !fired ==> final(self).calls_seq() == old(self).calls_seq(),
    {
        self.resolve_without_reply(i, 0, true)
    }

    /// Shared body of [`Self::expire`] and [`Self::close_stream`]: a
    /// waiting call becomes `Closed` when the stream ended, or
    /// `TimedOut` when `now` has reached its deadline.
    fn resolve_without_reply(&mut self, i: usize, now: u64, stream_closed: bool) -> (fired: bool)
        requires
            i < old(self).calls_seq().len(),
        ensures
            fired <==> (old(self).calls_seq()[i as int].state is Waiting && (stream_closed || now
                >= old(self).calls_seq()[i as int].deadline)),
            fired ==> final(self).calls_seq() == old(self).calls_seq().update(
                i as int,
                (PendingCall {
                    dest: old(self).calls_seq()[i as int].dest,
                    deadline: old(self).calls_seq()[i as int].deadline,
                    state: if stream_closed {
                        CallState::Closed
                    } else {
                        CallState::TimedOut
                    },
                }),
            ),
            !fired ==> final(self).calls_seq() == old(self).calls_seq(),
    {
        proof {
            use_type_invariant(&*self);
        }
        let ghost s0 = self.calls@;
        let waiting = match &self.calls[i].state {
            CallState::Waiting => true,
            _ => false,
        };
        let fires = waiting && (stream_closed || now >= self.calls[i].deadline);
        if fires {
            let mut calls = Vec::new();
            std::mem::swap(&mut calls, &mut self.calls);
            let c = calls.remove(i);
            let c2 = PendingCall {
                dest: c.dest,
                deadline: c.deadline,
                state: if stream_closed {
                    CallState::Closed
                } else {
                    CallState::TimedOut
                },
            };
            proof {
                s0.remove_ensures(i as int);
                s0.remove(i as int).insert_ensures(i as int, c2);
            }
            calls.insert(i, c2);
            proof {
                assert forall|p: int| 0 <= p < calls@.len() implies (#[trigger] calls@[p]).dest
                    == s0[p].dest by {
                    if p < i as int {
                        assert(calls@[p] == s0.remove(i as int)[p]);
                    } else if p > i as int {
                        assert(calls@[p] == s0.remove(i as int)[p - 1]);
                    }
                }
                assert(calls@ =~= s0.update(i as int, c2));
                assert forall|p: int, q: int|
                    #![trigger calls@[p], calls@[q]]
                    0 <= p < q < calls@.len() implies calls@[p].dest@ != calls@[q].dest@ by {
                    assert(calls@[p].dest == s0[p].dest && calls@[q].dest == s0[q].dest);
                }
            }
            self.calls = calls;
        }
        fires
    }

    /// How the resolved call `i` ended, for the caller: the reply
    /// payload on success, a `Timeout` naming the topic and elapsed
    /// time when the deadline passed, `ChannelClosed` when the
    /// responder's stream ended first, and nothing while the call still
    /// waits.  The two failure conditions are distinct variants, so the
    /// caller can always tell them apart.
    pub fn conclude(&self, i: usize, topic: &str, elapsed_ms: u64) -> (r: Option<
        Result<&Vec<u8>, RpcFailure>,
    >)
        requires
            i < self.calls_seq().len(),
        ensures
            match self.calls_seq()[i as int].state {
                CallState::Waiting => r is None,
                CallState::Replied(_) => r matches Some(Ok(p)) && p@
                    == self.calls_seq()[i as int].state->Replied_0@,
                CallState::TimedOut => r matches Some(Err(RpcFailure::Timeout {
                    topic: t,
                    elapsed_ms: e,
                })) && t@ == topic@ && e == elapsed_ms,
                CallState::Closed => r matches Some(Err(RpcFailure::ChannelClosed)),
            },
    {
        match &self.calls[i].state {
            CallState::Waiting => None,
            CallState::Replied(p) => Some(Ok(p)),
            CallState::TimedOut => Some(
                Err(RpcFailure::Timeout { topic: topic.to_owned(), elapsed_ms }),
            ),
            CallState::Closed => Some(Err(RpcFailure::ChannelClosed)),
        }
    }
}

/// Compares two byte strings for equality.
fn bytes_eq(a: &Vec<u8>, b: &Vec<u8>) -> (r: bool)
    ensures
        r == (a@ == b@),
{
    if a.len() != b.len() {
        return false;
    }
    let mut i: usize = 0;
    while i < a.len()
        invariant
            a@.len() == b@.len(),
            i <= a@.len(),
            forall|k: int| 0 <= k < i ==> a@[k] == b@[k],
        decreases a@.len() - i,
    {
        if a[i] != b[i] {
            return false;
        }
        i = i + 1;
    }
    proof {
        assert(a@ =~= b@);
    }
    true
}

/// The bus connection type; values of it are opaque here and only
/// handed through to the trusted call below.
#[verifier::external_type_specification]
#[verifier::external_body]
pub struct ExNatsClient(async_nats::Client);

/// Relies on `async_nats::Client::new_inbox`: it builds a reply
/// destination from the connection's inbox prefix and a fresh
/// pseudo-random identifier.  Its uniqueness is only statistical, so
/// nothing is assumed of the result; [`RpcLayer::open_call`] checks it
/// against every destination already used.
#[verifier::external_body]
fn new_reply_destination(client: &async_nats::Client) -> (r: Vec<u8>) {
    client.new_inbox().into_bytes()
}

/// Law (call correlation): reply destinations identify their call —
/// two calls of one well-formed table with the same destination are
/// the same call, so the reply addressed to a call's own destination
/// can resolve no other, however replies are ordered.
pub proof fn lemma_call_correlation(r: &RpcLayer, i: int, j: int)
    requires
        r.wf(),
        0 <= i < r.calls_seq().len(),
        0 <= j < r.calls_seq().len(),
        r.calls_seq()[i].dest@ == r.calls_seq()[j].dest@,
    ensures
        i == j,
{
}

/// Law (timeout distinctness): deadline expiry and stream closure
/// resolve a call into different states, and neither carries a reply,
/// so "nobody answered in time" and "the responder disappeared" can
/// never be confused with each other or with a reply.
pub proof fn lemma_timeout_distinct(p: Vec<u8>)
    ensures
        CallState::TimedOut != (CallState::Replied(p)),
        CallState::Closed != (CallState::Replied(p)),
        CallState::TimedOut != CallState::Closed,
{
}

} // verus!
