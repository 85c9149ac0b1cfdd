use vstd::prelude::*;
use crate::dispatch::{calls_view, next, DispatchModel, Dispatcher, SinkCall, TogglePolicy};
use crate::profile::{DispatchError, Profile};

verus! {

/// Service the device advertises; discovery looks for it.
pub const TAP_SERVICE: u128 = 0xC3FF0001_1D8B_40FD_A56F_C7BD5D0F3370;
/// Characteristic that notifies chord codes.
pub const TAP_DATA_CHARACTERISTIC: u128 = 0xc3ff0005_1d8b_40fd_a56f_c7bd5d0f3370;
/// Service that holds the mode-switch characteristic.
pub const MODE_SERVICE: u128 = 0x6E400001_B5A3_F393_E0A9_E50E24DCCA9E;
/// Characteristic that takes mode packets, written without response.
pub const MODE_SWITCH_CHARACTERISTIC: u128 = 0x6E400002_B5A3_F393_E0A9_E50E24DCCA9E;

/// Seconds to wait before looking for the device again.
pub const RETRY_DELAY_SECS: u64 = 5;
/// Seconds between two re-assertions of streaming mode.
pub const KEEP_ALIVE_SECS: u64 = 5;

/// The two mode requests the device understands.
#[derive(Clone, Copy, Debug, PartialEq, Eq, Structural)]
pub enum ModePacket {
    /// Enter streaming (controller) mode.
    Enter,
    /// Return to the device's default mode.
    Exit,
}

pub open spec fn packet_bytes(p: ModePacket) -> Seq<u8> {
    match p {
        ModePacket::Enter => seq![0x03u8, 0x0Cu8, 0x00u8, 0x01u8],
        ModePacket::Exit => seq![0x03u8, 0x0Cu8, 0x00u8, 0x00u8],
    }
}

impl ModePacket {
    /// The four bytes written to the mode-switch characteristic.
    pub fn bytes(&self) -> (r: Vec<u8>)
        ensures
            r@ == packet_bytes(*self),
    {
        let mut v: Vec<u8> = Vec::new();
        v.push(0x03);
        v.push(0x0C);
        v.push(0x00);
        match self {
            ModePacket::Enter => v.push(0x01),
            ModePacket::Exit => v.push(0x00),
        }
        proof {
            assert(v@ =~= packet_bytes(*self));
        }
        v
    }
}

/// Where the run stands.
#[derive(Clone, Copy, Debug, PartialEq, Eq, Structural)]
pub enum Phase {
    /// Looking for a connected device.
    Searching,
    /// A device was found; its services are being resolved and subscribed to.
    Connected,
    /// Notifications are dispatched and streaming mode is kept alive.
    Streaming,
    /// The stream ended; the exit packet has been requested.
    Closing,
    /// Nothing more to do.
    Closed,
}

/// What the caller reports back.
#[derive(Clone, Debug)]
pub enum Event {
    /// The run begins.
    Start,
    /// A discovery pass ended; whether a suitable device was found.
    Located(bool),
    /// Service resolution ended; whether it succeeded.
    ServicesResolved(bool),
    /// Subscription to the data characteristic ended; whether it succeeded.
    Subscribed(bool),
    /// The keep-alive interval elapsed.
    KeepAliveTick,
    /// A notification arrived with this payload.
    Notification(Vec<u8>),
    /// The notification stream ended.
    StreamEnded,
    /// The exit packet write ended; whether it succeeded.
    ExitWritten(bool),
}

/// What the caller is asked to do, in order.
#[derive(Clone, Copy, Debug, PartialEq, Eq, Structural)]
pub enum Command {
    /// Run one discovery pass and report `Located`.
    Locate,
    /// Sleep this many seconds.
    Wait(u64),
    /// Resolve the device's services and report `ServicesResolved`.
    ResolveServices,
    /// Subscribe to the data characteristic and report `Subscribed`.
    Subscribe,
    /// Begin reporting `KeepAliveTick` every keep-alive interval.
    StartKeepAlive,
    /// Stop the keep-alive ticks; an outstanding write may be abandoned.
    CancelKeepAlive,
    /// Write this packet to the mode-switch characteristic.
    WriteMode(ModePacket),
    /// Make this call on the virtual keyboard.
    Emit(SinkCall),
    /// Record a non-fatal problem with a notification.
    Warn(DispatchError),
    /// The run is over.
    Finish,
}

pub struct SessionModel {
    pub phase: Phase,
    pub dispatch: DispatchModel,
}

/// The commands that carry out a dispatch result.
pub open spec fn commands_of(r: Result<Seq<SinkCall>, DispatchError>) -> Seq<Command> {
    match r {
        Ok(calls) => calls.map_values(|c: SinkCall| Command::Emit(c)),
        Err(e) => seq![Command::Warn(e)],
    }
}

pub open spec fn retry() -> Seq<Command> {
    seq![Command::Wait(RETRY_DELAY_SECS), Command::Locate]
}

/// The state after one event, and the commands it asks for.
pub open spec fn step_spec(
    profiles: Seq<Profile>,
    policy: TogglePolicy,
    s: SessionModel,
    ev: Event,
) -> (SessionModel, Seq<Command>) {
    let at = |p: Phase| SessionModel { phase: p, dispatch: s.dispatch };
    match s.phase {
        Phase::Searching => match ev {
            Event::Start => (s, seq![Command::Locate]),
            Event::Located(found) => if found {
                (at(Phase::Connected), seq![Command::ResolveServices])
            } else {
                (s, retry())
            },
            _ => (s, seq![]),
        },
        Phase::Connected => match ev {
            Event::ServicesResolved(ok) => if ok {
                (s, seq![Command::Subscribe])
            } else {
                (at(Phase::Searching), retry())
            },
            Event::Subscribed(ok) => if ok {
                (at(Phase::Streaming), seq![Command::StartKeepAlive])
            } else {
                (at(Phase::Searching), retry())
            },
            _ => (s, seq![]),
        },
        Phase::Streaming => match ev {
            Event::KeepAliveTick => (s, seq![Command::WriteMode(ModePacket::Enter)]),
            Event::Notification(payload) => {
                let (d, r) = next(profiles, policy, s.dispatch, payload@);
                (SessionModel { phase: Phase::Streaming, dispatch: d }, commands_of(r))
            },
            Event::StreamEnded => (
                at(Phase::Closing),
                seq![Command::CancelKeepAlive, Command::WriteMode(ModePacket::Exit)],
            ),
            _ => (s, seq![]),
        },
        Phase::Closing => match ev {
            Event::ExitWritten(_) => (at(Phase::Closed), seq![Command::Finish]),
            _ => (s, seq![]),
        },
        Phase::Closed => (s, seq![]),
    }
}

/// The final state and all commands after a sequence of events.
pub open spec fn run(
    profiles: Seq<Profile>,
    policy: TogglePolicy,
    s: SessionModel,
    evs: Seq<Event>,
) -> (SessionModel, Seq<Command>)
    decreases evs.len(),
{
    if evs.len() == 0 {
        (s, seq![])
    } else {
        let (s1, c1) = step_spec(profiles, policy, s, evs[0]);
        let (s2, c2) = run(profiles, policy, s1, evs.drop_first());
        (s2, c1 + c2)
    }
}

/// How many times the exit packet is written in a command sequence.
pub open spec fn exit_writes(cmds: Seq<Command>) -> nat
    decreases cmds.len(),
{
    if cmds.len() == 0 {
        0
    } else {
        (if cmds[0] == Command::WriteMode(ModePacket::Exit) {
            1nat
        } else {
            0nat
        }) + exit_writes(cmds.drop_first())
    }
}

/// The exit packet has been asked for in this phase or before it.
pub open spec fn shutting_down(p: Phase) -> bool {
    p == Phase::Closing || p == Phase::Closed
}

proof fn lemma_exit_writes_concat(a: Seq<Command>, b: Seq<Command>)
    ensures
        exit_writes(a + b) == exit_writes(a) + exit_writes(b),
    decreases a.len(),
{
    if a.len() > 0 {
        assert((a + b).drop_first() =~= a.drop_first() + b);
        lemma_exit_writes_concat(a.drop_first(), b);
    } else {
        assert(a + b =~= b);
    }
}

proof fn lemma_no_exit_in(cmds: Seq<Command>)
    requires
        forall|i: int| 0 <= i < cmds.len() ==> cmds[i] != Command::WriteMode(ModePacket::Exit),
    ensures
        exit_writes(cmds) == 0,
    decreases cmds.len(),
{
    if cmds.len() > 0 {
        assert(cmds[0] != Command::WriteMode(ModePacket::Exit));
        lemma_no_exit_in(cmds.drop_first());
    }
}

/// One step writes the exit packet at most once, only when it leaves
/// streaming for shutdown, and once shut down it stays so.
proof fn lemma_step_exit(profiles: Seq<Profile>, policy: TogglePolicy, s: SessionModel, ev: Event)
    ensures
        ({
            let (s1, c1) = step_spec(profiles, policy, s, ev);
            &&& exit_writes(c1) <= 1
            &&& exit_writes(c1) == 1 ==> !shutting_down(s.phase) && shutting_down(s1.phase)
            &&& shutting_down(s.phase) ==> shutting_down(s1.phase)
        }),
{
    let (s1, c1) = step_spec(profiles, policy, s, ev);
    if s.phase == Phase::Streaming && ev is Notification {
        lemma_no_exit_in(c1);
    } else {
        assert(exit_writes(c1) <= 1 && (exit_writes(c1) == 1 ==> ev is StreamEnded)) by {
            reveal_with_fuel(exit_writes, 3);
        }
    }
}

/// Over any sequence of events the exit packet is written at most once, and
/// not at all once shutdown has begun.
pub proof fn lemma_exit_written_at_most_once(
    profiles: Seq<Profile>,
    policy: TogglePolicy,
    s: SessionModel,
    evs: Seq<Event>,
)
    ensures
        exit_writes(run(profiles, policy, s, evs).1) <= if shutting_down(s.phase) {
            0nat
        } else {
            1nat
        },
        shutting_down(s.phase) ==> shutting_down(run(profiles, policy, s, evs).0.phase),
    decreases evs.len(),
{
    if evs.len() > 0 {
        let (s1, c1) = step_spec(profiles, policy, s, evs[0]);
        lemma_step_exit(profiles, policy, s, evs[0]);
        lemma_exit_written_at_most_once(profiles, policy, s1, evs.drop_first());
        lemma_exit_writes_concat(c1, run(profiles, policy, s1, evs.drop_first()).1);
    }
}

/// When the stream ends while streaming, the keep-alive is cancelled and then
/// the exit packet is written; whatever follows, it is written exactly once.
pub proof fn lemma_stream_end_exits_once(
    profiles: Seq<Profile>,
    policy: TogglePolicy,
    s: SessionModel,
    rest: Seq<Event>,
)
    requires
        s.phase == Phase::Streaming,
    ensures
        step_spec(profiles, policy, s, Event::StreamEnded).1 == seq![
            Command::CancelKeepAlive,
            Command::WriteMode(ModePacket::Exit),
        ],
        exit_writes(run(profiles, policy, s, seq![Event::StreamEnded] + rest).1) == 1,
{
    let evs = seq![Event::StreamEnded] + rest;
    assert(evs[0] == Event::StreamEnded);
    assert(evs.drop_first() =~= rest);
    let (s1, c1) = step_spec(profiles, policy, s, Event::StreamEnded);
    lemma_exit_written_at_most_once(profiles, policy, s1, rest);
    lemma_exit_writes_concat(c1, run(profiles, policy, s1, rest).1);
    assert(exit_writes(c1) == 1) by {
        reveal_with_fuel(exit_writes, 3);
    }
}

/// Re-asserting streaming mode while streaming asks for the enter packet and
/// nothing else, and leaves the state untouched, so every later event, a
/// notification included, has the outcome it would have had without it.
pub proof fn lemma_keep_alive_is_idempotent(
    profiles: Seq<Profile>,
    policy: TogglePolicy,
    s: SessionModel,
    later: Event,
)
    requires
        s.phase == Phase::Streaming,
    ensures
        step_spec(profiles, policy, s, Event::KeepAliveTick) == (
            s,
            seq![Command::WriteMode(ModePacket::Enter)],
        ),
        step_spec(profiles, policy, step_spec(profiles, policy, s, Event::KeepAliveTick).0, later)
            == step_spec(profiles, policy, s, later),
{
}

/// The device session: discovery, streaming, keep-alive and shutdown, with a
/// dispatcher for the notifications.
pub struct Session {
    phase: Phase,
    dispatcher: Dispatcher,
}

impl Session {
    pub closed spec fn wf(&self) -> bool {
        self.dispatcher.wf()
    }

    pub closed spec fn profiles(&self) -> Seq<Profile> {
        self.dispatcher.profiles()
    }

    pub closed spec fn policy(&self) -> TogglePolicy {
        self.dispatcher.policy()
    }

    pub closed spec fn model(&self) -> SessionModel {
        SessionModel { phase: self.phase, dispatch: self.dispatcher.model() }
    }

    /// A session that has not started searching yet.
    pub fn new(dispatcher: Dispatcher) -> (r: Session)
        requires
            dispatcher.wf(),
        ensures
            r.wf(),
            r.profiles() == dispatcher.profiles(),
            r.policy() == dispatcher.policy(),
            r.model() == (SessionModel { phase: Phase::Searching, dispatch: dispatcher.model() }),
    {
        Session { phase: Phase::Searching, dispatcher }
    }

    pub fn phase(&self) -> (r: Phase)
        ensures
            r == self.model().phase,
    {
        self.phase
    }

    pub fn dispatcher(&self) -> (r: &Dispatcher)
        ensures
            r.model() == self.model().dispatch,
            r.profiles() == self.profiles(),
            r.policy() == self.policy(),
            self.wf() ==> r.wf(),
    {
        &self.dispatcher
    }

    fn emit_all(calls: Vec<SinkCall>) -> (r: Vec<Command>)
        ensures
            r@ == calls@.map_values(|c: SinkCall| Command::Emit(c)),
    {
        let mut out: Vec<Command> = Vec::new();
        let mut i: usize = 0;
        while i < calls.len()
            invariant
                i <= calls@.len(),
                out@ =~= calls@.subrange(0, i as int).map_values(|c: SinkCall| Command::Emit(c)),
            decreases calls@.len() - i,
        {
            out.push(Command::Emit(calls[i]));
            i += 1;
        }
        proof {
            assert(calls@.subrange(0, calls@.len() as int) =~= calls@);
        }
        out
    }

    /// Takes one event and returns the commands to carry out, in order.
    pub fn step(&mut self, ev: Event) -> (r: Vec<Command>)
        requires
            old(self).wf(),
        ensures
            final(self).wf(),
            final(self).profiles() == old(self).profiles(),
            final(self).policy() == old(self).policy(),
            (final(self).model(), r@) == step_spec(
                old(self).profiles(),
                old(self).policy(),
                old(self).model(),
                ev,
            ),
    {
        let mut out: Vec<Command> = Vec::new();
        match self.phase {
            Phase::Searching => match ev {
                Event::Start => out.push(Command::Locate),
                Event::Located(found) => if found {
                    self.phase = Phase::Connected;
                    out.push(Command::ResolveServices);
                } else {
                    out.push(Command::Wait(RETRY_DELAY_SECS));
                    out.push(Command::Locate);
                },
                _ => {},
            },
            Phase::Connected => match ev {
                Event::ServicesResolved(ok) => if ok {
                    out.push(Command::Subscribe);
                } else {
                    self.phase = Phase::Searching;
                    out.push(Command::Wait(RETRY_DELAY_SECS));
                    out.push(Command::Locate);
                },
                Event::Subscribed(ok) => if ok {
                    self.phase = Phase::Streaming;
                    out.push(Command::StartKeepAlive);
                } else {
                    self.phase = Phase::Searching;
                    out.push(Command::Wait(RETRY_DELAY_SECS));
                    out.push(Command::Locate);
                },
                _ => {},
            },
            Phase::Streaming => match ev {
                Event::KeepAliveTick => out.push(Command::WriteMode(ModePacket::Enter)),
                Event::Notification(payload) => {
                    match self.dispatcher.handle(payload.as_slice()) {
                        Ok(calls) => {
                            out = Self::emit_all(calls);
                        },
                        Err(e) => out.push(Command::Warn(e)),
                    }
                },
                Event::StreamEnded => {
                    self.phase = Phase::Closing;
                    out.push(Command::CancelKeepAlive);
                    out.push(Command::WriteMode(ModePacket::Exit));
                },
                _ => {},
            },
            Phase::Closing => match ev {
                Event::ExitWritten(_) => {
                    self.phase = Phase::Closed;
                    out.push(Command::Finish);
                },
                _ => {},
            },
            Phase::Closed => {},
        }
        proof {
            let sp = step_spec(old(self).profiles(), old(self).policy(), old(self).model(), ev);
            assert(out@ =~= sp.1);
        }
        out
    }
}

} // verus!
