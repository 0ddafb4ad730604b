//! The connection coordinator: the single consumer of the inbound event
//! channel. It classifies every inbound event, drives the session and the
//! identify-versus-resume decision, supervises the heartbeat task across
//! reconnects, and decides which failures are fatal.

use vstd::prelude::*;

use crate::config::Config;
use crate::error::PandaError;
use crate::events::{Command, DispatchEvent, Event};
use crate::session::{updated_sequence, Session};
use crate::text::{normalize_token, normalized_token};

verus! {

/// Lifecycle of one transport connection. A replacement connection starts a
/// fresh pass through these states while the session persists.
#[derive(Clone, Copy, Debug, PartialEq, Eq, Structural)]
pub enum GatewayPhase {
    /// The transport is being opened.
    Connecting,
    /// The hello frame arrived; no identify or resume was sent yet.
    Handshaking,
    /// Authenticated and processing events.
    Ready,
    /// The channels are being torn down.
    Closing,
    /// Both channels are closed; any task reading them has exited.
    Closed,
}

/// What the receive loop must do after one inbound event.
#[derive(Debug, Clone, PartialEq)]
pub enum Outcome {
    /// Keep reading.
    Continue,
    /// Hand the dispatched event to the application's event router, then
    /// keep reading.
    Forward(DispatchEvent),
    /// Run the reconnect protocol, then keep reading on the new connection.
    Reconnect,
    /// Exit the loop and surface the error to whoever started it.
    Fatal(PandaError),
}

/// The coordinator's whole state: the persistent session plus the current
/// connection generation's bookkeeping.
pub struct Coordinator {
    /// The session; it outlives any single connection.
    pub session: Session,
    /// Authentication token, already carrying the `Bot ` prefix.
    pub token: String,
    /// Connection tunables.
    pub config: Config,
    /// Lifecycle of the current connection.
    pub phase: GatewayPhase,
    /// Heartbeat interval the current connection negotiated, in
    /// milliseconds; zero until the first hello frame.
    pub heartbeat_interval: u64,
    /// Number of live heartbeat tasks; at most one by construction.
    pub heartbeats_active: u64,
    /// Heartbeat acknowledgements observed, for liveness diagnostics.
    pub heartbeat_acks: u64,
}

/// The session after one dispatched event: the sequence number advances
/// monotonically, and a ready payload stores the new session identifier.
pub open spec fn spec_dispatch_session(s: Session, d: DispatchEvent, sq: Option<u64>) -> Session {
    let advanced = Session { last_sequence: updated_sequence(s.last_sequence, sq), ..s };
    match d {
        DispatchEvent::Ready(r) => Session { id: r.session_id, ..advanced },
        _ => advanced,
    }
}

/// One more acknowledgement observed, at the counter's cap if need be.
pub open spec fn spec_inc_acks(n: u64) -> u64 {
    if n < u64::MAX {
        (n + 1) as u64
    } else {
        n
    }
}

/// The coordinator after one inbound event. Only a dispatch, a session
/// invalidation, or a heartbeat acknowledgement changes anything; in
/// particular a close changes nothing by itself — the reconnect protocol is
/// a separate step.
pub open spec fn spec_on_event(c: Coordinator, ev: Event) -> Coordinator {
    match ev {
        Event::Dispatch(d, sq) => Coordinator {
            session: spec_dispatch_session(c.session, d, sq),
            ..c
        },
        Event::InvalidSession(b) => Coordinator {
            session: Session { resumable: b, ..c.session },
            ..c
        },
        Event::HeartbeatACK => Coordinator { heartbeat_acks: spec_inc_acks(c.heartbeat_acks), ..c },
        _ => c,
    }
}

/// What the receive loop does after each inbound event: dispatches are
/// forwarded, a close is fatal exactly when it is an authentication failure
/// and triggers the reconnect protocol otherwise, and everything else lets
/// the loop keep reading.
pub open spec fn spec_outcome(ev: Event) -> Outcome {
    match ev {
        Event::Dispatch(d, _) => Outcome::Forward(d),
        Event::Close(e) => if e is AuthenticationFailed {
            Outcome::Fatal(e)
        } else {
            Outcome::Reconnect
        },
        _ => Outcome::Continue,
    }
}

/// The identify command the coordinator's configuration yields.
pub open spec fn spec_identify_command(c: Coordinator) -> Command {
    Command::Identify {
        token: c.token,
        large_threshold: c.config.gateway_large_treshold,
        guild_subscriptions: c.config.gateway_guilds_subscriptions,
        shard_id: c.config.gateway_shard_id,
        num_shards: c.config.gateway_num_shards,
    }
}

/// The resume command the coordinator's session yields.
pub open spec fn spec_resume_command(c: Coordinator) -> Command {
    Command::Resume {
        token: c.token,
        session_id: c.session.id,
        last_sequence: c.session.last_sequence,
    }
}

/// What the reconnect protocol sends: a resume while the server still allows
/// one, a fresh identify otherwise.
pub open spec fn spec_reconnect_command(c: Coordinator) -> Command {
    if c.session.resumable {
        spec_resume_command(c)
    } else {
        spec_identify_command(c)
    }
}

/// The coordinator after the reconnect protocol: one heartbeat task on the
/// new connection, the interval the replacement connection negotiated, and —
/// after a fresh identify — a session that is optimistically resumable
/// again.
pub open spec fn spec_reconnect_state(c: Coordinator, new_interval: u64) -> Coordinator {
    Coordinator {
        phase: GatewayPhase::Ready,
        heartbeat_interval: new_interval,
        heartbeats_active: 1,
        session: if c.session.resumable {
            c.session
        } else {
            Session { resumable: true, ..c.session }
        },
        ..c
    }
}

impl Coordinator {
    /// A coordinator for a fresh client: token normalized, session new, no
    /// connection yet and no heartbeat task.
    pub fn new(token: &str, config: Config) -> (c: Coordinator)
        ensures
            c.token@ == normalized_token(token@),
            c.session.id@ == Seq::<char>::empty(),
            c.session.resumable,
            c.session.last_sequence is None,
            c.config == config,
            c.phase is Connecting,
            c.heartbeat_interval == 0,
            c.heartbeats_active == 0,
            c.heartbeat_acks == 0,
    {
        Coordinator {
            session: Session::new(),
            token: normalize_token(token),
            config,
            phase: GatewayPhase::Connecting,
            heartbeat_interval: 0,
            heartbeats_active: 0,
            heartbeat_acks: 0,
        }
    }

    /// Record the heartbeat interval the handshake's hello frame carried;
    /// the connection is then ready for the first identify or resume.
    pub fn on_hello(&mut self, interval_ms: u64)
        ensures
            *final(self) == (Coordinator {
                phase: GatewayPhase::Handshaking,
                heartbeat_interval: interval_ms,
                ..*old(self)
            }),
    {
        self.phase = GatewayPhase::Handshaking;
        self.heartbeat_interval = interval_ms;
    }

    /// Close both channels of the current connection. The heartbeat task
    /// terminates on channel closure, so none is left running; this is what
    /// guarantees two generations never beat at once.
    pub fn close_channels(&mut self)
        ensures
            *final(self) == (Coordinator {
                phase: GatewayPhase::Closed,
                heartbeats_active: 0,
                ..*old(self)
            }),
    {
        self.phase = GatewayPhase::Closed;
        self.heartbeats_active = 0;
    }

    /// Account for spawning the single heartbeat task of a new connection
    /// generation. The previous task must already have exited.
    pub fn spawn_heartbeater(&mut self)
        requires
            old(self).heartbeats_active == 0,
        ensures
            *final(self) == (Coordinator { heartbeats_active: 1, ..*old(self) }),
    {
        self.heartbeats_active = 1;
    }

    /// Authenticate a brand-new session: yield the identify command and
    /// spawn the connection's heartbeat task.
    pub fn clean_connect(&mut self) -> (cmd: Command)
        requires
            old(self).heartbeats_active == 0,
        ensures
            *final(self) == (Coordinator {
                phase: GatewayPhase::Ready,
                heartbeats_active: 1,
                ..*old(self)
            }),
            cmd == spec_identify_command(*old(self)),
    {
        let cmd = Command::new_identify(
            &self.token,
            self.config.gateway_large_treshold,
            self.config.gateway_guilds_subscriptions,
            self.config.gateway_shard_id,
            self.config.gateway_num_shards,
        );
        self.spawn_heartbeater();
        self.phase = GatewayPhase::Ready;
        cmd
    }

    /// Reattach to the established session: yield the resume command —
    /// carrying the last observed sequence number — and spawn the
    /// connection's heartbeat task.
    pub fn resume_connect(&mut self) -> (cmd: Command)
        requires
            old(self).heartbeats_active == 0,
        ensures
            *final(self) == (Coordinator {
                phase: GatewayPhase::Ready,
                heartbeats_active: 1,
                ..*old(self)
            }),
            cmd == spec_resume_command(*old(self)),
    {
        let cmd = Command::new_resume(
            self.token.clone(),
            self.session.id(),
            self.session.last_sequence,
        );
        self.spawn_heartbeater();
        self.phase = GatewayPhase::Ready;
        cmd
    }

    /// Classify one inbound event and apply its session effect. The returned
    /// outcome tells the caller what the receive loop must do next; a
    /// non-fatal close asks for the reconnect protocol but changes nothing
    /// itself.
    pub fn handle_event(&mut self, ev: Event) -> (out: Outcome)
        ensures
            *final(self) == spec_on_event(*old(self), ev),
            out == spec_outcome(ev),
    {
        match ev {
            Event::Dispatch(d, sq) => {
                if let DispatchEvent::Ready(r) = &d {
                    self.session.set_id(r.session_id.clone());
                }
                if let Some(n) = sq {
                    self.session.observe_sequence(n);
                }
                Outcome::Forward(d)
            }
            Event::InvalidSession(resumable) => {
                self.session.set_resumable(resumable);
                Outcome::Continue
            }
            Event::HeartbeatACK => {
                if self.heartbeat_acks < u64::MAX {
                    self.heartbeat_acks = self.heartbeat_acks + 1;
                }
                Outcome::Continue
            }
            Event::Close(e) => {
                if e.is_fatal() {
                    Outcome::Fatal(e)
                } else {
                    Outcome::Reconnect
                }
            }
            _ => Outcome::Continue,
        }
    }

    /// The reconnect protocol: close the old generation's channels (its
    /// heartbeat task exits with them), adopt the interval the replacement
    /// connection negotiated, and either resume the session or identify
    /// afresh — after a fresh identify the session is optimistically
    /// resumable again, since the server gave no signal either way.
    pub fn reconnect(&mut self, new_interval: u64) -> (cmd: Command)
        ensures
            *final(self) == spec_reconnect_state(*old(self), new_interval),
            cmd == spec_reconnect_command(*old(self)),
    {
        self.close_channels();
        self.heartbeat_interval = new_interval;
        if self.session.is_resumable() {
            self.resume_connect()
        } else {
            let cmd = self.clean_connect();
            self.session.set_resumable(true);
            cmd
        }
    }
}

/// The coordinator after a run of inbound events, oldest first.
pub open spec fn spec_on_events(c: Coordinator, evs: Seq<Event>) -> Coordinator
    decreases evs.len(),
{
    if evs.len() == 0 {
        c
    } else {
        spec_on_event(spec_on_events(c, evs.drop_last()), evs.last())
    }
}

/// The sequence number a dispatched event carries (zero elsewhere).
pub open spec fn dispatch_seq_no(ev: Event) -> u64 {
    match ev {
        Event::Dispatch(_, sq) => match sq {
            Option::Some(n) => n,
            Option::None => 0,
        },
        _ => 0,
    }
}

/// A run of dispatched events, each with a sequence number, strictly
/// increasing.
pub open spec fn increasing_dispatches(evs: Seq<Event>) -> bool {
    (forall|i: int|
        0 <= i < evs.len() ==> (#[trigger] evs[i]) matches Event::Dispatch(
            _,
            Option::Some(_),
        )) && (forall|i: int, j: int|
        0 <= i < j < evs.len() ==> dispatch_seq_no(#[trigger] evs[i]) < dispatch_seq_no(
            #[trigger] evs[j],
        ))
}

/// Processing inbound dispatched events with strictly increasing sequence
/// numbers leaves `last_sequence` at the maximum — the last — of the
/// sequence numbers seen.
pub proof fn lemma_dispatch_tracks_max(c: Coordinator, evs: Seq<Event>)
    requires
        c.session.last_sequence is None,
        evs.len() >= 1,
        increasing_dispatches(evs),
    ensures
        spec_on_events(c, evs).session.last_sequence == Some(dispatch_seq_no(evs.last())),
        forall|i: int|
            0 <= i < evs.len() ==> dispatch_seq_no(evs[i]) <= dispatch_seq_no(evs.last()),
    decreases evs.len(),
{
    if evs.len() == 1 {
        assert(evs.drop_last() =~= Seq::<Event>::empty());
    } else {
        let front = evs.drop_last();
        assert forall|i: int|
            0 <= i < front.len() implies (#[trigger] front[i]) matches Event::Dispatch(
            _,
            Option::Some(_),
        ) by {
            assert(front[i] == evs[i]);
        }
        assert forall|i: int, j: int|
            0 <= i < j < front.len() implies dispatch_seq_no(#[trigger] front[i])
            < dispatch_seq_no(#[trigger] front[j]) by {
            assert(front[i] == evs[i] && front[j] == evs[j]);
        }
        lemma_dispatch_tracks_max(c, front);
        assert(front.last() == evs[evs.len() - 2]);
        assert(dispatch_seq_no(evs[evs.len() - 2]) < dispatch_seq_no(evs.last()));
    }
}

/// A run of events that carries no session invalidation leaves resumability
/// as it was.
pub proof fn lemma_no_invalid_session_preserves_resumable(c: Coordinator, evs: Seq<Event>)
    requires
        forall|i: int|
            0 <= i < evs.len() ==> !((#[trigger] evs[i]) matches Event::InvalidSession(_)),
    ensures
        spec_on_events(c, evs).session.resumable == c.session.resumable,
    decreases evs.len(),
{
    if evs.len() > 0 {
        lemma_no_invalid_session_preserves_resumable(c, evs.drop_last());
    }
}

/// After the server revoked the session (`InvalidSession(false)`) and the
/// connection closed, the reconnect protocol identifies afresh; it never
/// resumes.
pub proof fn lemma_revoked_session_reidentifies(c: Coordinator, reason: PandaError)
    requires
        !(reason is AuthenticationFailed),
    ensures
        ({
            let c1 = spec_on_event(c, Event::InvalidSession(false));
            let c2 = spec_on_event(c1, Event::Close(reason));
            &&& spec_outcome(Event::Close(reason)) == Outcome::Reconnect
            &&& spec_reconnect_command(c2) == spec_identify_command(c2)
            &&& !(spec_reconnect_command(c2) matches Command::Resume { .. })
        }),
{
}

/// With no session invalidation observed since the session began, a closed
/// connection is resumed, and the resume carries the last sequence number
/// observed before closure.
pub proof fn lemma_close_resumes(c: Coordinator, evs: Seq<Event>, reason: PandaError)
    requires
        c.session.resumable,
        forall|i: int|
            0 <= i < evs.len() ==> !((#[trigger] evs[i]) matches Event::InvalidSession(_)),
        !(reason is AuthenticationFailed),
    ensures
        ({
            let c1 = spec_on_events(c, evs);
            let c2 = spec_on_event(c1, Event::Close(reason));
            &&& spec_outcome(Event::Close(reason)) == Outcome::Reconnect
            &&& spec_reconnect_command(c2) == (Command::Resume {
                token: c1.token,
                session_id: c1.session.id,
                last_sequence: c1.session.last_sequence,
            })
        }),
{
    lemma_no_invalid_session_preserves_resumable(c, evs);
}

/// An authentication failure during the run loop is fatal: the outcome
/// carries that error, the state does not change, and no reconnect follows.
pub proof fn lemma_auth_failure_fatal(c: Coordinator)
    ensures
        spec_outcome(Event::Close(PandaError::AuthenticationFailed)) == Outcome::Fatal(
            PandaError::AuthenticationFailed,
        ),
        spec_on_event(c, Event::Close(PandaError::AuthenticationFailed)) == c,
        !(spec_outcome(Event::Close(PandaError::AuthenticationFailed)) is Reconnect),
{
}

/// The coordinator after consecutive runs of the reconnect protocol, one
/// per negotiated interval.
pub open spec fn spec_reconnects(c: Coordinator, intervals: Seq<u64>) -> Coordinator
    decreases intervals.len(),
{
    if intervals.len() == 0 {
        c
    } else {
        spec_reconnect_state(spec_reconnects(c, intervals.drop_last()), intervals.last())
    }
}

/// However many consecutive reconnects run, exactly one heartbeat task is
/// active afterwards — none duplicated, none leaked — because every spawn is
/// preceded by the previous task's exit on channel closure.
pub proof fn lemma_reconnects_single_heartbeat(c: Coordinator, intervals: Seq<u64>)
    requires
        intervals.len() >= 1,
    ensures
        spec_reconnects(c, intervals).heartbeats_active == 1,
{
}

/// Whatever the inbound event, the recorded sequence number never moves
/// backwards, and never reverts to being unset.
pub proof fn lemma_sequence_never_regresses(c: Coordinator, ev: Event)
    ensures
        ({
            let c1 = spec_on_event(c, ev);
            match (c.session.last_sequence, c1.session.last_sequence) {
                (Option::Some(m), Option::Some(n)) => m <= n,
                (Option::Some(_), Option::None) => false,
                _ => true,
            }
        }),
{
}

/// Ghost record of one run of the receive loop: the final state, the
/// commands sent, the events forwarded to the router, and the fatal error if
/// one ended the run.
pub struct RunLog {
    pub state: Coordinator,
    pub sent: Seq<Command>,
    pub forwarded: Seq<DispatchEvent>,
    pub fatal: Option<PandaError>,
}

/// The receive loop over a run of inbound events, oldest first: each event
/// is classified and applied; a non-fatal close runs the reconnect protocol
/// (`reconnect_interval` standing for what the replacement connection
/// negotiates) and records the command it sends; the first fatal error stops
/// the run, and whatever follows it is not processed.
pub open spec fn spec_run(c: Coordinator, evs: Seq<Event>, reconnect_interval: u64) -> RunLog
    decreases evs.len(),
{
    if evs.len() == 0 {
        RunLog { state: c, sent: Seq::empty(), forwarded: Seq::empty(), fatal: None }
    } else {
        let prev = spec_run(c, evs.drop_last(), reconnect_interval);
        if prev.fatal is Some {
            prev
        } else {
            let ev = evs.last();
            let c1 = spec_on_event(prev.state, ev);
            match spec_outcome(ev) {
                Outcome::Continue => RunLog { state: c1, ..prev },
                Outcome::Forward(d) => RunLog {
                    state: c1,
                    forwarded: prev.forwarded.push(d),
                    ..prev
                },
                Outcome::Reconnect => RunLog {
                    state: spec_reconnect_state(c1, reconnect_interval),
                    sent: prev.sent.push(spec_reconnect_command(c1)),
                    ..prev
                },
                Outcome::Fatal(e) => RunLog { state: c1, fatal: Some(e), ..prev },
            }
        }
    }
}

/// Once a fatal error ends a run, nothing that follows is processed: the
/// state, the commands sent, and the forwarded events stay exactly as they
/// were — in particular, no reconnect follows a fatal close.
pub proof fn lemma_fatal_stops_run(
    c: Coordinator,
    evs: Seq<Event>,
    more: Seq<Event>,
    reconnect_interval: u64,
)
    requires
        spec_run(c, evs, reconnect_interval).fatal is Some,
    ensures
        spec_run(c, evs + more, reconnect_interval) == spec_run(c, evs, reconnect_interval),
    decreases more.len(),
{
    if more.len() > 0 {
        lemma_fatal_stops_run(c, evs, more.drop_last(), reconnect_interval);
        assert((evs + more).drop_last() =~= evs + more.drop_last());
    } else {
        assert(evs + more =~= evs);
    }
}

/// What one run of the receive loop produced.
pub struct RunOutput {
    /// Commands the reconnect protocol sent, oldest first.
    pub sent: Vec<Command>,
    /// Dispatched events handed to the router, oldest first.
    pub forwarded: Vec<DispatchEvent>,
    /// The fatal error that ended the run, if one did.
    pub fatal: Option<PandaError>,
}

impl Coordinator {
    /// Drive the receive loop over a finite run of inbound events: classify
    /// each event, apply its session effect, collect forwarded dispatches
    /// and outbound commands, run the reconnect protocol on every non-fatal
    /// close, and stop at the first fatal error.
    pub fn run_inbound(&mut self, events: Vec<Event>, reconnect_interval: u64) -> (out:
        RunOutput)
        ensures
            ({
                let r = spec_run(*old(self), events@, reconnect_interval);
                &&& *final(self) == r.state
                &&& out.sent@ == r.sent
                &&& out.forwarded@ == r.forwarded
                &&& out.fatal == r.fatal
            }),
    {
        let ghost evs0 = events@;
        let ghost c0 = *self;
        let mut events = events;
        let mut sent: Vec<Command> = Vec::new();
        let mut forwarded: Vec<DispatchEvent> = Vec::new();
        let mut fatal: Option<PandaError> = None;
        while events.len() > 0
            invariant
                events@.len() <= evs0.len(),
                events@ =~= evs0.subrange(
                    evs0.len() - events@.len(),
                    evs0.len() as int,
                ),
                ({
                    let r = spec_run(
                        c0,
                        evs0.subrange(0, evs0.len() - events@.len()),
                        reconnect_interval,
                    );
                    &&& *self == r.state
                    &&& sent@ == r.sent
                    &&& forwarded@ == r.forwarded
                    &&& fatal == r.fatal
                }),
            decreases events@.len(),
        {
            let ghost i = evs0.len() - events@.len();
            let ev = events.remove(0);
            proof {
                assert(ev == evs0[i as int]);
                assert(events@ =~= evs0.subrange(i + 1 as int, evs0.len() as int));
            }
            if fatal.is_none() {
                let step = self.handle_event(ev);
                match step {
                    Outcome::Continue => {}
                    Outcome::Forward(d) => {
                        forwarded.push(d);
                    }
                    Outcome::Reconnect => {
                        let cmd = self.reconnect(reconnect_interval);
                        sent.push(cmd);
                    }
                    Outcome::Fatal(e) => {
                        fatal = Some(e);
                    }
                }
            }
            proof {
                assert(evs0.subrange(0, i + 1 as int).drop_last() =~= evs0.subrange(
                    0,
                    i as int,
                ));
                assert(evs0.subrange(0, i + 1 as int).last() == evs0[i as int]);
            }
        }
        proof {
            assert(evs0.subrange(0, evs0.len() as int) =~= evs0);
        }
        RunOutput { sent, forwarded, fatal }
    }
}

} // verus!
