//! The control-channel command state machine.
//!
//! A connection classified as control is driven through a fixed sequence of
//! states: the server requests the parameter exchange, consumes the
//! length-prefixed config payload, requests stream creation, announces test
//! start and test running, waits for the end-of-test and done command bytes,
//! drains whatever trails, and closes. The machine here is pure: each call
//! of [`step`] maps the current state and one input (the bytes the previous
//! action asked to be read, or the fact that the read failed) to the next
//! state and an action — bytes to send, whether to release the session
//! token, and what to read next. The surrounding I/O loop performs the
//! action and feeds the outcome back in.
//!
//! No state is retried or revisited. A command byte other than the expected
//! one is tolerated: the machine proceeds to the same next state, only
//! without sending `DISPLAY_RESULTS` or releasing the token in the
//! end-of-test case. A failed read is fatal — except while draining, where
//! the connection is about to close anyway.

use vstd::prelude::*;
use crate::commands::CREATE_STREAMS;
use crate::commands::DISPLAY_RESULTS;
use crate::commands::IPERF_DONE;
use crate::commands::PARAM_EXCHANGE;
use crate::commands::TEST_END;
use crate::commands::TEST_RUNNING;
use crate::commands::TEST_START;

verus! {

/// States of the control-channel state machine, in protocol order.
#[derive(Clone, Copy, PartialEq, Eq, Structural, Debug)]
pub enum DriverState {
    /// Nothing exchanged yet; the parameter-exchange request is owed.
    Init,
    /// Waiting for the 4-byte big-endian length of the config payload.
    AwaitingConfigLength,
    /// Waiting for exactly `len` bytes of opaque config payload.
    AwaitingConfigPayload { len: u32 },
    /// Config consumed; the three stream-setup commands are owed.
    StreamsRequested,
    /// Waiting for the end-of-test command byte.
    AwaitingEnd,
    /// Waiting for the done command byte.
    AwaitingDone,
    /// Consuming whatever trailing bytes remain before the peer closes.
    Draining,
    /// Terminal: no further I/O.
    Closed,
}

/// What the previous action asked the I/O loop to read before stepping
/// again.
#[derive(Clone, Copy, PartialEq, Eq, Structural, Debug)]
pub enum ReadRequest {
    /// Read exactly this many bytes; a short read is a transport error.
    Exact(usize),
    /// Read everything until the peer closes the connection.
    ToEnd,
    /// Nothing to read: feed `Event::Proceed`, or stop once the state is
    /// `Closed`.
    Nothing,
}

/// One input to the state machine, as the I/O loop delivers it.
pub enum Event {
    /// The previous action requested no read.
    Proceed,
    /// The bytes the previous action's read request produced.
    Bytes(Vec<u8>),
    /// The requested read failed: the peer closed early or the transport
    /// errored.
    Failed,
}

/// Spec-level image of an [`Event`].
pub ghost enum EventV {
    Proceed,
    Bytes(Seq<u8>),
    Failed,
}

impl View for Event {
    type V = EventV;

    open spec fn view(&self) -> EventV {
        match self {
            Event::Proceed => EventV::Proceed,
            Event::Bytes(b) => EventV::Bytes(b@),
            Event::Failed => EventV::Failed,
        }
    }
}

/// What the caller must do after a step: write the `send` bytes in order,
/// release the session token if `release` is set, then perform the `read`
/// request.
pub struct Action {
    pub send: Vec<u8>,
    pub release: bool,
    pub read: ReadRequest,
}

/// Spec-level image of an [`Action`].
pub ghost struct ActionV {
    pub send: Seq<u8>,
    pub release: bool,
    pub read: ReadRequest,
}

impl View for Action {
    type V = ActionV;

    open spec fn view(&self) -> ActionV {
        ActionV { send: self.send@, release: self.release, read: self.read }
    }
}

/// A read that the protocol required came back short or not at all.
#[derive(Clone, Copy, PartialEq, Eq, Structural, Debug)]
pub enum TransportError {
    /// The peer closed or errored before delivering the bytes a state
    /// needed.
    ShortRead,
}

/// Value of a 4-byte sequence read as a big-endian unsigned integer.
pub open spec fn spec_be32(s: Seq<u8>) -> u32
    recommends
        s.len() == 4,
{
    (s[0] * 0x100_0000 + s[1] * 0x1_0000 + s[2] * 0x100 + s[3]) as u32
}

/// Which events may be fed to which states: a read must return exactly the
/// byte count the previous action requested, `Proceed` arrives only where no
/// read was requested, and a failed read can arrive wherever a read was
/// requested. The closed state accepts nothing.
pub open spec fn event_fits(s: DriverState, e: EventV) -> bool {
    match s {
        DriverState::Init => e is Proceed,
        DriverState::AwaitingConfigLength => (e matches EventV::Bytes(b) && b.len() == 4)
            || e is Failed,
        DriverState::AwaitingConfigPayload { len } => (e matches EventV::Bytes(b) && b.len()
            == len) || e is Failed,
        DriverState::StreamsRequested => e is Proceed,
        DriverState::AwaitingEnd => (e matches EventV::Bytes(b) && b.len() == 1) || e is Failed,
        DriverState::AwaitingDone => (e matches EventV::Bytes(b) && b.len() == 1) || e is Failed,
        DriverState::Draining => e is Bytes || e is Failed,
        DriverState::Closed => false,
    }
}

/// The transition function. A failed read is fatal (a short read) except
/// while draining; every other transition is unconditional once its read
/// completes, whether or not the byte read matched the expected command.
pub open spec fn spec_step(s: DriverState, e: EventV) -> Result<
    (DriverState, ActionV),
    TransportError,
> {
    if e is Failed {
        if s is Draining {
            Ok(
                (
                    DriverState::Closed,
                    ActionV { send: Seq::empty(), release: false, read: ReadRequest::Nothing },
                ),
            )
        } else {
            Err(TransportError::ShortRead)
        }
    } else {
        match s {
            DriverState::Init => Ok(
                (
                    DriverState::AwaitingConfigLength,
                    ActionV {
                        send: seq![PARAM_EXCHANGE],
                        release: false,
                        read: ReadRequest::Exact(4),
                    },
                ),
            ),
            DriverState::AwaitingConfigLength => {
                let len = spec_be32(e->0);
                Ok(
                    (
                        DriverState::AwaitingConfigPayload { len },
                        ActionV {
                            send: Seq::empty(),
                            release: false,
                            read: ReadRequest::Exact(len as usize),
                        },
                    ),
                )
            },
            DriverState::AwaitingConfigPayload { .. } => Ok(
                (
                    DriverState::StreamsRequested,
                    ActionV { send: Seq::empty(), release: false, read: ReadRequest::Nothing },
                ),
            ),
            DriverState::StreamsRequested => Ok(
                (
                    DriverState::AwaitingEnd,
                    ActionV {
                        send: seq![CREATE_STREAMS, TEST_START, TEST_RUNNING],
                        release: false,
                        read: ReadRequest::Exact(1),
                    },
                ),
            ),
            DriverState::AwaitingEnd => {
                if e->0[0] == TEST_END {
                    Ok(
                        (
                            DriverState::AwaitingDone,
                            ActionV {
                                send: seq![DISPLAY_RESULTS],
                                release: true,
                                read: ReadRequest::Exact(1),
                            },
                        ),
                    )
                } else {
                    Ok(
                        (
                            DriverState::AwaitingDone,
                            ActionV {
                                send: Seq::empty(),
                                release: false,
                                read: ReadRequest::Exact(1),
                            },
                        ),
                    )
                }
            },
            DriverState::AwaitingDone => Ok(
                (
                    DriverState::Draining,
                    ActionV { send: Seq::empty(), release: false, read: ReadRequest::ToEnd },
                ),
            ),
            DriverState::Draining => Ok(
                (
                    DriverState::Closed,
                    ActionV { send: Seq::empty(), release: false, read: ReadRequest::Nothing },
                ),
            ),
            DriverState::Closed => Err(TransportError::ShortRead),
        }
    }
}

/// Spec-level image of a step's result.
pub open spec fn step_view(r: Result<(DriverState, Action), TransportError>) -> Result<
    (DriverState, ActionV),
    TransportError,
> {
    match r {
        Ok((s, a)) => Ok((s, a@)),
        Err(e) => Err(e),
    }
}

/// Reads a 4-byte big-endian unsigned length.
pub fn be32(b: &Vec<u8>) -> (r: u32)
    requires
        b@.len() == 4,
    ensures
        r == spec_be32(b@),
{
    let b0 = b[0] as u32;
    let b1 = b[1] as u32;
    let b2 = b[2] as u32;
    let b3 = b[3] as u32;
    b0 * 0x100_0000 + b1 * 0x1_0000 + b2 * 0x100 + b3
}

/// Runs one transition of the control-channel state machine: returns the
/// next state and the action owed, or the transport error that ends the
/// exchange.
pub fn step(s: DriverState, e: &Event) -> (r: Result<(DriverState, Action), TransportError>)
    requires
        event_fits(s, e@),
    ensures
        step_view(r) == spec_step(s, e@),
{
    match e {
        Event::Failed => {
            if let DriverState::Draining = s {
                let send: Vec<u8> = Vec::new();
                proof {
                    assert(send@ =~= Seq::<u8>::empty());
                }
                Ok((DriverState::Closed, Action { send, release: false, read: ReadRequest::Nothing }))
            } else {
                Err(TransportError::ShortRead)
            }
        },
        Event::Proceed => {
            match s {
                DriverState::Init => {
                    let mut send: Vec<u8> = Vec::new();
                    send.push(PARAM_EXCHANGE);
                    proof {
                        assert(send@ =~= seq![PARAM_EXCHANGE]);
                    }
                    Ok(
                        (
                            DriverState::AwaitingConfigLength,
                            Action { send, release: false, read: ReadRequest::Exact(4) },
                        ),
                    )
                },
                DriverState::StreamsRequested => {
                    let mut send: Vec<u8> = Vec::new();
                    send.push(CREATE_STREAMS);
                    send.push(TEST_START);
                    send.push(TEST_RUNNING);
                    proof {
                        assert(send@ =~= seq![CREATE_STREAMS, TEST_START, TEST_RUNNING]);
                    }
                    Ok(
                        (
                            DriverState::AwaitingEnd,
                            Action { send, release: false, read: ReadRequest::Exact(1) },
                        ),
                    )
                },
                _ => vstd::pervasive::unreached(),
            }
        },
        Event::Bytes(b) => {
            match s {
                DriverState::AwaitingConfigLength => {
                    let len = be32(b);
                    let send: Vec<u8> = Vec::new();
                    proof {
                        assert(send@ =~= Seq::<u8>::empty());
                    }
                    Ok(
                        (
                            DriverState::AwaitingConfigPayload { len },
                            Action { send, release: false, read: ReadRequest::Exact(len as usize) },
                        ),
                    )
                },
                DriverState::AwaitingConfigPayload { .. } => {
                    let send: Vec<u8> = Vec::new();
                    proof {
                        assert(send@ =~= Seq::<u8>::empty());
                    }
                    Ok(
                        (
                            DriverState::StreamsRequested,
                            Action { send, release: false, read: ReadRequest::Nothing },
                        ),
                    )
                },
                DriverState::AwaitingEnd => {
                    if b[0] == TEST_END {
                        let mut send: Vec<u8> = Vec::new();
                        send.push(DISPLAY_RESULTS);
                        proof {
                            assert(send@ =~= seq![DISPLAY_RESULTS]);
                        }
                        Ok(
                            (
                                DriverState::AwaitingDone,
                                Action { send, release: true, read: ReadRequest::Exact(1) },
                            ),
                        )
                    } else {
                        let send: Vec<u8> = Vec::new();
                        proof {
                            assert(send@ =~= Seq::<u8>::empty());
                        }
                        Ok(
                            (
                                DriverState::AwaitingDone,
                                Action { send, release: false, read: ReadRequest::Exact(1) },
                            ),
                        )
                    }
                },
                DriverState::AwaitingDone => {
                    let send: Vec<u8> = Vec::new();
                    proof {
                        assert(send@ =~= Seq::<u8>::empty());
                    }
                    Ok(
                        (
                            DriverState::Draining,
                            Action { send, release: false, read: ReadRequest::ToEnd },
                        ),
                    )
                },
                DriverState::Draining => {
                    let send: Vec<u8> = Vec::new();
                    proof {
                        assert(send@ =~= Seq::<u8>::empty());
                    }
                    Ok(
                        (
                            DriverState::Closed,
                            Action { send, release: false, read: ReadRequest::Nothing },
                        ),
                    )
                },
                _ => vstd::pervasive::unreached(),
            }
        },
    }
}

/// Everything observable about a finished or aborted control-channel
/// exchange: the final state, the concatenation of all bytes sent to the
/// peer, whether the session token was released, and whether a required
/// read failed.
pub ghost struct Transcript {
    pub state: DriverState,
    pub sent: Seq<u8>,
    pub released: bool,
    pub failed: bool,
}

/// Folds [`spec_step`] over a sequence of events, accumulating what the
/// exchange sends and whether it releases the token; stops at the first
/// transport error.
pub open spec fn run_steps(s: DriverState, events: Seq<EventV>) -> Transcript
    decreases events.len(),
{
    if events.len() == 0 {
        Transcript { state: s, sent: Seq::empty(), released: false, failed: false }
    } else {
        match spec_step(s, events[0]) {
            Ok((s2, a)) => {
                let rest = run_steps(s2, events.drop_first());
                Transcript {
                    state: rest.state,
                    sent: a.send + rest.sent,
                    released: a.release || rest.released,
                    failed: rest.failed,
                }
            },
            Err(_) => Transcript { state: s, sent: Seq::empty(), released: false, failed: true },
        }
    }
}

/// State machine determinism: a control peer that supplies any well-framed
/// config payload, answers `TEST_END` and then `IPERF_DONE`, and finally
/// closes with any trailing bytes, is sent exactly the command sequence
/// `PARAM_EXCHANGE, CREATE_STREAMS, TEST_START, TEST_RUNNING,
/// DISPLAY_RESULTS`, has its session token released, and ends closed with
/// no transport error.
pub proof fn lemma_state_machine_determinism(cfg: Seq<u8>, payload: Seq<u8>, trailing: Seq<u8>)
    requires
        cfg.len() == 4,
        payload.len() == spec_be32(cfg),
    ensures
        ({
            let events = seq![
                EventV::Proceed,
                EventV::Bytes(cfg),
                EventV::Bytes(payload),
                EventV::Proceed,
                EventV::Bytes(seq![TEST_END]),
                EventV::Bytes(seq![IPERF_DONE]),
                EventV::Bytes(trailing),
            ];
            let t = run_steps(DriverState::Init, events);
            &&& t.sent == seq![
                PARAM_EXCHANGE,
                CREATE_STREAMS,
                TEST_START,
                TEST_RUNNING,
                DISPLAY_RESULTS,
            ]
            &&& t.released
            &&& !t.failed
            &&& t.state is Closed
        }),
{
    let events = seq![
        EventV::Proceed,
        EventV::Bytes(cfg),
        EventV::Bytes(payload),
        EventV::Proceed,
        EventV::Bytes(seq![TEST_END]),
        EventV::Bytes(seq![IPERF_DONE]),
        EventV::Bytes(trailing),
    ];
    let e1 = events.drop_first();
    let e2 = e1.drop_first();
    let e3 = e2.drop_first();
    let e4 = e3.drop_first();
    let e5 = e4.drop_first();
    let e6 = e5.drop_first();
    let e7 = e6.drop_first();
    assert(e7.len() == 0);
    let t7 = run_steps(DriverState::Closed, e7);
    assert(t7.state is Closed && !t7.failed && !t7.released && t7.sent =~= Seq::<u8>::empty());
    let t6 = run_steps(DriverState::Draining, e6);
    let t5 = run_steps(DriverState::AwaitingDone, e5);
    let t4 = run_steps(DriverState::AwaitingEnd, e4);
    let t3 = run_steps(DriverState::StreamsRequested, e3);
    let t2 = run_steps(DriverState::AwaitingConfigPayload { len: spec_be32(cfg) }, e2);
    let t1 = run_steps(DriverState::AwaitingConfigLength, e1);
    let t = run_steps(DriverState::Init, events);
    assert(t6.state is Closed && !t6.failed && !t6.released && t6.sent =~= Seq::<u8>::empty());
    assert(t5.state is Closed && !t5.failed && !t5.released && t5.sent =~= Seq::<u8>::empty());
    assert(t4.state is Closed && !t4.failed && t4.released && t4.sent =~= seq![DISPLAY_RESULTS]);
    assert(t3.state is Closed && !t3.failed && t3.released && t3.sent =~= seq![
        CREATE_STREAMS,
        TEST_START,
        TEST_RUNNING,
        DISPLAY_RESULTS,
    ]);
    assert(t2.state is Closed && !t2.failed && t2.released && t2.sent =~= t3.sent);
    assert(t1.state is Closed && !t1.failed && t1.released && t1.sent =~= t3.sent);
    assert(t.state is Closed && !t.failed && t.released && t.sent =~= seq![
        PARAM_EXCHANGE,
        CREATE_STREAMS,
        TEST_START,
        TEST_RUNNING,
        DISPLAY_RESULTS,
    ]);
}

/// Mismatch tolerance: when the byte read while awaiting the end-of-test
/// command is anything but `TEST_END`, the exchange sends no
/// `DISPLAY_RESULTS` and never releases the session token — yet it does not
/// hang or error: it still reads the next command byte, drains, and ends
/// closed.
pub proof fn lemma_mismatch_tolerance(
    cfg: Seq<u8>,
    payload: Seq<u8>,
    wrong: u8,
    second: u8,
    trailing: Seq<u8>,
)
    requires
        cfg.len() == 4,
        payload.len() == spec_be32(cfg),
        wrong != TEST_END,
    ensures
        ({
            let events = seq![
                EventV::Proceed,
                EventV::Bytes(cfg),
                EventV::Bytes(payload),
                EventV::Proceed,
                EventV::Bytes(seq![wrong]),
                EventV::Bytes(seq![second]),
                EventV::Bytes(trailing),
            ];
            let t = run_steps(DriverState::Init, events);
            &&& t.sent == seq![PARAM_EXCHANGE, CREATE_STREAMS, TEST_START, TEST_RUNNING]
            &&& !t.released
            &&& !t.failed
            &&& t.state is Closed
        }),
{
    let events = seq![
        EventV::Proceed,
        EventV::Bytes(cfg),
        EventV::Bytes(payload),
        EventV::Proceed,
        EventV::Bytes(seq![wrong]),
        EventV::Bytes(seq![second]),
        EventV::Bytes(trailing),
    ];
    let e1 = events.drop_first();
    let e2 = e1.drop_first();
    let e3 = e2.drop_first();
    let e4 = e3.drop_first();
    let e5 = e4.drop_first();
    let e6 = e5.drop_first();
    let e7 = e6.drop_first();
    assert(e7.len() == 0);
    let t7 = run_steps(DriverState::Closed, e7);
    assert(t7.state is Closed && !t7.failed && !t7.released && t7.sent =~= Seq::<u8>::empty());
    let t6 = run_steps(DriverState::Draining, e6);
    let t5 = run_steps(DriverState::AwaitingDone, e5);
    let t4 = run_steps(DriverState::AwaitingEnd, e4);
    let t3 = run_steps(DriverState::StreamsRequested, e3);
    let t2 = run_steps(DriverState::AwaitingConfigPayload { len: spec_be32(cfg) }, e2);
    let t1 = run_steps(DriverState::AwaitingConfigLength, e1);
    let t = run_steps(DriverState::Init, events);
    assert(t6.state is Closed && !t6.failed && !t6.released && t6.sent =~= Seq::<u8>::empty());
    assert(t5.state is Closed && !t5.failed && !t5.released && t5.sent =~= Seq::<u8>::empty());
    assert(t4.state is Closed && !t4.failed && !t4.released && t4.sent =~= Seq::<u8>::empty());
    assert(t3.state is Closed && !t3.failed && !t3.released && t3.sent =~= seq![
        CREATE_STREAMS,
        TEST_START,
        TEST_RUNNING,
    ]);
    assert(t2.state is Closed && !t2.failed && !t2.released && t2.sent =~= t3.sent);
    assert(t1.state is Closed && !t1.failed && !t1.released && t1.sent =~= t3.sent);
    assert(t.state is Closed && !t.failed && !t.released && t.sent =~= seq![
        PARAM_EXCHANGE,
        CREATE_STREAMS,
        TEST_START,
        TEST_RUNNING,
    ]);
}

/// Config framing: on reading the 4-byte length prefix the machine asks for
/// exactly the declared number of payload bytes, and a peer that closes
/// before delivering them ends the exchange in a short-read failure — never
/// in a silently misframed stream — with the token still unreleased.
pub proof fn lemma_config_framing(cfg: Seq<u8>)
    requires
        cfg.len() == 4,
    ensures
        spec_step(DriverState::AwaitingConfigLength, EventV::Bytes(cfg)) == Ok::<
            (DriverState, ActionV),
            TransportError,
        >(
            (
                DriverState::AwaitingConfigPayload { len: spec_be32(cfg) },
                ActionV {
                    send: Seq::empty(),
                    release: false,
                    read: ReadRequest::Exact(spec_be32(cfg) as usize),
                },
            ),
        ),
        ({
            let t = run_steps(
                DriverState::Init,
                seq![EventV::Proceed, EventV::Bytes(cfg), EventV::Failed],
            );
            &&& t.failed
            &&& !t.released
        }),
{
    let events = seq![EventV::Proceed, EventV::Bytes(cfg), EventV::Failed];
    let e1 = events.drop_first();
    let e2 = e1.drop_first();
    let t2 = run_steps(DriverState::AwaitingConfigPayload { len: spec_be32(cfg) }, e2);
    assert(t2.failed && !t2.released);
    let t1 = run_steps(DriverState::AwaitingConfigLength, e1);
    assert(t1.failed && !t1.released);
    let t = run_steps(DriverState::Init, events);
    assert(t.failed && !t.released);
}

} // verus!
