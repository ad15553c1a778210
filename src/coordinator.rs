//! The submission coordinator: a state machine that installs the event
//! subscription for a transaction before broadcasting it, waits for the
//! confirmation, and releases the subscription and connection on every path.
//!
//! The driver asks `action` for the next call to make on the node connection,
//! makes it, and hands the outcome to `step`. The machine records, as ghost
//! state, every call it has asked for and the outcome of each completed call.
use vstd::prelude::*;
use crate::encoding::{query_for, tx_query_for};

verus! {

/// Whether the transaction is only simulated against the node's state, or
/// broadcast and confirmed.
#[derive(Debug, Clone, Copy, PartialEq, Eq, Structural)]
pub enum Mode {
    DryRun,
    Broadcast,
}

/// Where a submission stands: the call it waits on, or `Finished`.
#[derive(Debug, Clone, Copy, PartialEq, Eq, Structural)]
pub enum Phase {
    Simulating,
    Opening,
    Subscribing,
    Broadcasting,
    Receiving,
    Unsubscribing,
    Closing,
    Finished,
}

/// The failures a submission reports, each naming the stage that failed.
#[derive(Debug, Clone, PartialEq, Eq)]
pub enum SubmitError {
    /// A code or data blob could not be read.
    FileNotFound(String),
    /// The ledger address does not name a reachable endpoint.
    AddressInvalid(String),
    /// A field is too long for the transaction's byte layout.
    Encoding,
    /// The event subscription could not be installed.
    Subscription(String),
    /// The node did not accept the transaction.
    Broadcast(String),
    /// The connection failed while opening, simulating, waiting or cleaning up.
    Connection(String),
    /// A message from the node could not be decoded.
    ResponseDecode(String),
}

/// A call on the node connection, as the driver is asked to make it.
#[derive(Debug, Clone, PartialEq, Eq)]
pub enum Action {
    Simulate(Vec<u8>),
    Open,
    Subscribe(String),
    Broadcast(Vec<u8>),
    Receive,
    Unsubscribe,
    Close,
    /// No call is left to make.
    Finish,
}

/// The outcome of a call: what it returned, or why it failed.
#[derive(Debug, Clone, PartialEq, Eq)]
pub enum Reply {
    Success(String),
    Failure(String),
}

/// The reply for a broadcast that the node answered with result `code` and
/// message `text`: acceptance when the code is zero, else a rejection.
pub fn broadcast_reply(code: u32, text: String) -> (r: Reply)
    ensures
        code == 0 ==> r == Reply::Success(text),
        code != 0 ==> r == Reply::Failure(text),
{
    if code == 0 {
        Reply::Success(text)
    } else {
        Reply::Failure(text)
    }
}

/// A call on the node connection, over mathematical values.
pub enum Call {
    Simulate(Seq<u8>),
    Open,
    Subscribe(Seq<char>),
    Broadcast(Seq<u8>),
    Receive,
    Unsubscribe,
    Close,
}

/// The call an action asks for, or `None` for `Finish`.
pub open spec fn action_call(a: Action) -> Option<Call> {
    match a {
        Action::Simulate(b) => Some(Call::Simulate(b@)),
        Action::Open => Some(Call::Open),
        Action::Subscribe(q) => Some(Call::Subscribe(q@)),
        Action::Broadcast(b) => Some(Call::Broadcast(b@)),
        Action::Receive => Some(Call::Receive),
        Action::Unsubscribe => Some(Call::Unsubscribe),
        Action::Close => Some(Call::Close),
        Action::Finish => None,
    }
}

/// The phase that follows `p` when its call succeeded (`ok`) or failed.
/// A failure before the subscription exists goes to closing the connection;
/// one after it goes to unsubscribing; a failed open has nothing to release.
pub open spec fn next_phase(p: Phase, ok: bool) -> Phase {
    match p {
        Phase::Simulating => Phase::Finished,
        Phase::Opening => if ok {
            Phase::Subscribing
        } else {
            Phase::Finished
        },
        Phase::Subscribing => if ok {
            Phase::Broadcasting
        } else {
            Phase::Closing
        },
        Phase::Broadcasting => if ok {
            Phase::Receiving
        } else {
            Phase::Unsubscribing
        },
        Phase::Receiving => Phase::Unsubscribing,
        Phase::Unsubscribing => Phase::Closing,
        Phase::Closing => Phase::Finished,
        Phase::Finished => Phase::Finished,
    }
}

/// The error reported when the call of phase `p` fails with message `m`.
pub open spec fn failure_of(p: Phase, m: String) -> SubmitError {
    match p {
        Phase::Subscribing => SubmitError::Subscription(m),
        Phase::Broadcasting => SubmitError::Broadcast(m),
        _ => SubmitError::Connection(m),
    }
}

/// Whether a reply reports success.
pub open spec fn reply_ok(r: Reply) -> bool {
    r is Success
}

/// One submission of serialized transaction bytes.
pub struct Submission {
    pub mode: Mode,
    /// The serialized transaction, as broadcast.
    pub bytes: Vec<u8>,
    /// The event query that selects this transaction's confirmation.
    pub query: String,
    pub phase: Phase,
    /// The node's answer to a simulation.
    pub simulation: Option<String>,
    /// The node's acknowledgment of the broadcast.
    pub ack: Option<String>,
    /// The confirmation event received for the transaction.
    pub confirmation: Option<String>,
    /// The first failure, if any.
    pub error: Option<SubmitError>,
    /// Every call asked of the driver, in order, the pending one included.
    pub calls: Ghost<Seq<Call>>,
    /// The outcome of each completed call, in the same order.
    pub replies: Ghost<Seq<bool>>,
}

/// The main path of a broadcast: open, subscribe, broadcast, wait.
pub open spec fn main_calls(q: Seq<char>, b: Seq<u8>) -> Seq<Call> {
    seq![Call::Open, Call::Subscribe(q), Call::Broadcast(b), Call::Receive]
}

impl Submission {
    /// The call that the submission waits on in its current phase.
    pub open spec fn pending_call(&self) -> Call {
        match self.phase {
            Phase::Simulating => Call::Simulate(self.bytes@),
            Phase::Opening => Call::Open,
            Phase::Subscribing => Call::Subscribe(self.query@),
            Phase::Broadcasting => Call::Broadcast(self.bytes@),
            Phase::Receiving => Call::Receive,
            Phase::Unsubscribing => Call::Unsubscribe,
            _ => Call::Close,
        }
    }

    /// The history of calls and outcomes that each phase can have been
    /// reached by.
    pub open spec fn history_ok(&self) -> bool {
        let c = self.calls@;
        let r = self.replies@;
        let m = main_calls(self.query@, self.bytes@);
        match self.mode {
            Mode::DryRun => c == seq![Call::Simulate(self.bytes@)] && match self.phase {
                Phase::Simulating => r.len() == 0,
                Phase::Finished => r.len() == 1,
                _ => false,
            },
            Mode::Broadcast => match self.phase {
                Phase::Opening => c == m.take(1) && r == Seq::<bool>::empty(),
                Phase::Subscribing => c == m.take(2) && r == seq![true],
                Phase::Broadcasting => c == m.take(3) && r == seq![true, true],
                Phase::Receiving => c == m && r == seq![true, true, true],
                Phase::Unsubscribing => (c == m.take(3).push(Call::Unsubscribe) && r == seq![
                    true,
                    true,
                    false,
                ]) || (c == m.push(Call::Unsubscribe) && r.len() == 4 && r.take(3) == seq![
                    true,
                    true,
                    true,
                ]),
                Phase::Closing => (c == m.take(2).push(Call::Close) && r == seq![true, false]) || (c
                    == m.take(3).push(Call::Unsubscribe).push(Call::Close) && r.len() == 4
                    && r.take(3) == seq![true, true, false]) || (c == m.push(Call::Unsubscribe).push(
                    Call::Close,
                ) && r.len() == 5 && r.take(3) == seq![true, true, true]),
                Phase::Finished => (c == m.take(1) && r == seq![false]) || (c == m.take(2).push(
                    Call::Close,
                ) && r.len() == 3 && r.take(2) == seq![true, false]) || (c == m.take(3).push(
                    Call::Unsubscribe,
                ).push(Call::Close) && r.len() == 5 && r.take(3) == seq![true, true, false]) || (c
                    == m.push(Call::Unsubscribe).push(Call::Close) && r.len() == 6 && r.take(3)
                    == seq![true, true, true]),
                Phase::Simulating => false,
            },
        }
    }

    /// Well-formedness: the query is the one for these bytes, and the calls
    /// made so far follow the protocol.
    pub open spec fn wf(&self) -> bool {
        &&& self.query@ == query_for(self.bytes@)
        &&& self.history_ok()
    }

    /// A submission of bytes `b` in `mode` that has made no call yet: its
    /// first call is pending and nothing has been reported.
    pub open spec fn fresh(&self, b: Seq<u8>, mode: Mode) -> bool {
        &&& self.wf()
        &&& self.bytes@ == b
        &&& self.mode == mode
        &&& self.phase == (if mode == Mode::DryRun {
            Phase::Simulating
        } else {
            Phase::Opening
        })
        &&& self.calls@ == seq![self.pending_call()]
        &&& self.replies@.len() == 0
        &&& self.simulation is None && self.ack is None && self.confirmation is None
        &&& self.error is None
    }

    /// Starts a submission of `bytes`: a simulation in `DryRun` mode, else
    /// the broadcast protocol, whose first call opens the connection.
    pub fn start(bytes: Vec<u8>, mode: Mode) -> (r: Submission)
        ensures
            r.fresh(bytes@, mode),
    {
        let ghost first = match mode {
            Mode::DryRun => Call::Simulate(bytes@),
            Mode::Broadcast => Call::Open,
        };
        let query = tx_query_for(bytes.as_slice());
        let phase = match mode {
            Mode::DryRun => Phase::Simulating,
            Mode::Broadcast => Phase::Opening,
        };
        proof {
            assert(Seq::empty().push(Call::Open) =~= main_calls(query@, bytes@).take(1));
            assert(Seq::empty().push(Call::Simulate(bytes@)) =~= seq![Call::Simulate(bytes@)]);
            assert(Seq::empty().push(Call::Open) =~= seq![Call::Open]);
        }
        Submission {
            mode,
            bytes,
            query,
            phase,
            simulation: None,
            ack: None,
            confirmation: None,
            error: None,
            calls: Ghost(Seq::empty().push(first)),
            replies: Ghost(Seq::empty()),
        }
    }

    /// The call the driver is to make next, or `Finish`.
    pub fn action(&self) -> (r: Action)
        requires
            self.wf(),
        ensures
            (r is Finish) <==> (self.phase == Phase::Finished),
            !(r is Finish) ==> action_call(r) == Some(self.pending_call()),
    {
        match self.phase {
            Phase::Simulating => Action::Simulate(self.bytes.clone()),
            Phase::Opening => Action::Open,
            Phase::Subscribing => Action::Subscribe(self.query.clone()),
            Phase::Broadcasting => Action::Broadcast(self.bytes.clone()),
            Phase::Receiving => Action::Receive,
            Phase::Unsubscribing => Action::Unsubscribe,
            Phase::Closing => Action::Close,
            Phase::Finished => Action::Finish,
        }
    }

    /// Takes the outcome of the pending call and moves to the next phase,
    /// recording what the call returned and the first failure.
    pub fn step(&mut self, reply: Reply)
        requires
            old(self).wf(),
            old(self).phase != Phase::Finished,
        ensures
            final(self).wf(),
            final(self).phase == next_phase(old(self).phase, reply_ok(reply)),
            final(self).mode == old(self).mode,
            final(self).bytes@ == old(self).bytes@,
            final(self).query@ == old(self).query@,
            final(self).replies@ == old(self).replies@.push(reply_ok(reply)),
            final(self).calls@ == if final(self).phase == Phase::Finished {
                old(self).calls@
            } else {
                old(self).calls@.push(final(self).pending_call())
            },
            final(self).simulation == (match reply {
                Reply::Success(v) if old(self).phase == Phase::Simulating => Some(v),
                _ => old(self).simulation,
            }),
            final(self).ack == (match reply {
                Reply::Success(v) if old(self).phase == Phase::Broadcasting => Some(v),
                _ => old(self).ack,
            }),
            final(self).confirmation == (match reply {
                Reply::Success(v) if old(self).phase == Phase::Receiving => Some(v),
                _ => old(self).confirmation,
            }),
            final(self).error == (match reply {
                Reply::Failure(m) if old(self).error is None => Some(
                    failure_of(old(self).phase, m),
                ),
                _ => old(self).error,
            }),
    {
        let ghost prev = *self;
        let ok = match &reply {
            Reply::Success(_) => true,
            Reply::Failure(_) => false,
        };
        match reply {
            Reply::Success(v) => match self.phase {
                Phase::Simulating => {
                    self.simulation = Some(v);
                },
                Phase::Broadcasting => {
                    self.ack = Some(v);
                },
                Phase::Receiving => {
                    self.confirmation = Some(v);
                },
                _ => {},
            },
            Reply::Failure(m) => {
                if self.error.is_none() {
                    self.error = Some(
                        match self.phase {
                            Phase::Subscribing => SubmitError::Subscription(m),
                            Phase::Broadcasting => SubmitError::Broadcast(m),
                            _ => SubmitError::Connection(m),
                        },
                    );
                }
            },
        }
        self.phase = match self.phase {
            Phase::Simulating => Phase::Finished,
            Phase::Opening => if ok {
                Phase::Subscribing
            } else {
                Phase::Finished
            },
            Phase::Subscribing => if ok {
                Phase::Broadcasting
            } else {
                Phase::Closing
            },
            Phase::Broadcasting => if ok {
                Phase::Receiving
            } else {
                Phase::Unsubscribing
            },
            Phase::Receiving => Phase::Unsubscribing,
            Phase::Unsubscribing => Phase::Closing,
            Phase::Closing => Phase::Finished,
            Phase::Finished => Phase::Finished,
        };
        self.replies = Ghost(prev.replies@.push(ok));
        if self.phase != Phase::Finished {
            self.calls = Ghost(prev.calls@.push(self.pending_call()));
        }
        proof {
            let m = main_calls(self.query@, self.bytes@);
            assert(m.take(1).push(Call::Subscribe(self.query@)) =~= m.take(2));
            assert(m.take(2).push(Call::Broadcast(self.bytes@)) =~= m.take(3));
            assert(m.take(3).push(Call::Receive) =~= m);
            assert(Seq::<bool>::empty().push(ok) =~= seq![ok]);
            assert(seq![true].push(ok) =~= seq![true, ok]);
            assert(seq![true, true].push(ok) =~= seq![true, true, ok]);
            if prev.replies@.len() >= 3 {
                assert(self.replies@.take(3) =~= prev.replies@.take(3));
            }
            if prev.replies@.len() >= 2 {
                assert(self.replies@.take(2) =~= prev.replies@.take(2));
            }
            if prev.replies@.len() == 3 {
                assert(prev.replies@.take(3) =~= prev.replies@);
            }
            if prev.replies@.len() == 2 {
                assert(prev.replies@.take(2) =~= prev.replies@);
            }
        }
    }
}

/// Every subscription query asked for is the query for the exact bytes that
/// are broadcast, and those are the submission's bytes.
pub proof fn lemma_query_matches_broadcast(s: Submission)
    requires
        s.wf(),
    ensures
        forall|i: int, j: int|
            #![trigger s.calls@[i], s.calls@[j]]
            0 <= i < s.calls@.len() && 0 <= j < s.calls@.len() && s.calls@[i] is Subscribe
                && s.calls@[j] is Broadcast ==> s.calls@[i]->Subscribe_0 == query_for(
                s.calls@[j]->Broadcast_0,
            ),
        forall|j: int|
            0 <= j < s.calls@.len() && #[trigger] s.calls@[j] is Broadcast ==> s.calls@[j]->Broadcast_0
                == s.bytes@,
{
}

/// A broadcast is asked for only after a subscription was asked for and
/// reported installed.
pub proof fn lemma_subscribe_precedes_broadcast(s: Submission)
    requires
        s.wf(),
    ensures
        forall|j: int|
            0 <= j < s.calls@.len() && #[trigger] s.calls@[j] is Broadcast ==> exists|i: int|
                0 <= i < j && i < s.replies@.len() && #[trigger] s.calls@[i] is Subscribe
                    && s.replies@[i],
{
    assert forall|j: int|
        0 <= j < s.calls@.len() && #[trigger] s.calls@[j] is Broadcast implies exists|i: int|
            0 <= i < j && i < s.replies@.len() && #[trigger] s.calls@[i] is Subscribe
                && s.replies@[i] by {
        assert(j == 2);
        if s.replies@.len() >= 3 {
            assert(s.replies@.take(3)[1] == s.replies@[1]);
        }
        assert(s.calls@[1] is Subscribe);
    }
}

/// When the subscription fails, no broadcast is ever asked for.
pub proof fn lemma_failed_subscribe_blocks_broadcast(s: Submission)
    requires
        s.wf(),
    ensures
        forall|i: int|
            0 <= i < s.replies@.len() && #[trigger] s.calls@[i] is Subscribe && !s.replies@[i]
                ==> forall|j: int| 0 <= j < s.calls@.len() ==> !(#[trigger] s.calls@[j] is Broadcast),
{
    assert forall|i: int|
        0 <= i < s.replies@.len() && #[trigger] s.calls@[i] is Subscribe
            && !s.replies@[i] implies forall|j: int|
        0 <= j < s.calls@.len() ==> !(#[trigger] s.calls@[j] is Broadcast) by {
        assert(i == 1);
        if s.replies@.len() > 2 {
            assert(s.replies@.take(2)[1] == s.replies@[1]);
        }
        if s.replies@.len() > 3 {
            assert(s.replies@.take(3)[1] == s.replies@[1]);
        }
    }
}

/// `unsubscribe` and `close` are each asked for at most once; once the
/// submission is finished, `close` was asked for if the connection was
/// opened, and `unsubscribe` if the subscription was installed.
pub proof fn lemma_cleanup_exactly_once(s: Submission)
    requires
        s.wf(),
    ensures
        forall|i: int, j: int|
            #![trigger s.calls@[i], s.calls@[j]]
            0 <= i < s.calls@.len() && 0 <= j < s.calls@.len() && s.calls@[i] is Unsubscribe
                && s.calls@[j] is Unsubscribe ==> i == j,
        forall|i: int, j: int|
            #![trigger s.calls@[i], s.calls@[j]]
            0 <= i < s.calls@.len() && 0 <= j < s.calls@.len() && s.calls@[i] is Close
                && s.calls@[j] is Close ==> i == j,
        s.phase == Phase::Finished && (exists|i: int|
            0 <= i < s.replies@.len() && #[trigger] s.calls@[i] is Open && s.replies@[i])
            ==> exists|k: int| 0 <= k < s.calls@.len() && #[trigger] s.calls@[k] is Close,
        s.phase == Phase::Finished && (exists|i: int|
            0 <= i < s.replies@.len() && #[trigger] s.calls@[i] is Subscribe && s.replies@[i])
            ==> exists|k: int| 0 <= k < s.calls@.len() && #[trigger] s.calls@[k] is Unsubscribe,
{
    let n = s.calls@.len() as int;
    if s.phase == Phase::Finished && s.mode == Mode::Broadcast {
        if n > 1 {
            assert(s.calls@[n - 1] is Close);
        }
        if n > 3 {
            assert(s.calls@[n - 2] is Unsubscribe);
        }
        if exists|i: int| 0 <= i < s.replies@.len() && #[trigger] s.calls@[i] is Open && s.replies@[i] {
            let i = choose|i: int| 0 <= i < s.replies@.len() && #[trigger] s.calls@[i] is Open && s.replies@[i];
            assert(i == 0);
            assert(n > 1);
        }
        if exists|i: int| 0 <= i < s.replies@.len() && #[trigger] s.calls@[i] is Subscribe && s.replies@[i] {
            let i = choose|i: int| 0 <= i < s.replies@.len() && #[trigger] s.calls@[i] is Subscribe && s.replies@[i];
            assert(i == 1);
            if n == 3 {
                assert(s.replies@.take(2)[1] == s.replies@[1]);
            }
            assert(n > 3);
        }
    }
}

/// A submission asks for at most one subscription, so it never holds two
/// at a time.
pub proof fn lemma_single_subscription(s: Submission)
    requires
        s.wf(),
    ensures
        forall|i: int, j: int|
            #![trigger s.calls@[i], s.calls@[j]]
            0 <= i < s.calls@.len() && 0 <= j < s.calls@.len() && s.calls@[i] is Subscribe
                && s.calls@[j] is Subscribe ==> i == j,
{
}

/// A dry run asks for nothing but the simulation: no subscription, broadcast,
/// unsubscription or close.
pub proof fn lemma_dry_run_only_simulates(s: Submission)
    requires
        s.wf(),
        s.mode == Mode::DryRun,
    ensures
        forall|i: int| 0 <= i < s.calls@.len() ==> #[trigger] s.calls@[i] is Simulate,
{
}

} // verus!
