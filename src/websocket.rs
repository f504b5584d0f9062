use vstd::prelude::*;
use vstd::utf8::{decode_utf8, valid_utf8};

verus! {

/// How often the heartbeat monitor probes the peer, in milliseconds.
pub const HEARTBEAT_INTERVAL_MS: u64 = 5000;

/// How long the peer may stay silent before the connection is dropped, in milliseconds.
pub const CLIENT_TIMEOUT_MS: u64 = 10000;

/// Path arguments of the upgrade endpoint.
#[derive(PartialEq, Eq, Structural, Clone, Copy, Debug)]
pub struct WebSocketArgs {
    pub server_id: i32,
}

/// The reason a peer gives for closing: a status code and an optional text.
#[derive(Debug)]
pub struct CloseReason {
    pub code: u16,
    pub description: Option<String>,
}

/// An inbound protocol frame.
#[derive(Debug)]
pub enum Frame {
    Text(Vec<u8>),
    Binary(Vec<u8>),
    Continuation(Vec<u8>),
    Ping(Vec<u8>),
    Pong(Vec<u8>),
    Close(Option<CloseReason>),
}

/// An outbound protocol message.
#[derive(Debug)]
pub enum Message {
    Text(String),
    Binary(Vec<u8>),
    Ping(Vec<u8>),
    Pong(Vec<u8>),
    Close(Option<CloseReason>),
}

/// A connection-level failure raised by the frame router.
#[derive(PartialEq, Eq, Structural, Clone, Copy, Debug)]
pub enum FrameError {
    /// A text frame whose payload is not well-formed UTF-8.
    InvalidText,
}

/// Relies on `String::from_utf8`: it accepts exactly the well-formed UTF-8
/// byte sequences and returns the characters they encode.
#[verifier::external_body]
fn decode_text(bytes: Vec<u8>) -> (r: Option<String>)
    ensures
        r is Some <==> valid_utf8(bytes@),
        r is Some ==> r->0@ == decode_utf8(bytes@),
{
    String::from_utf8(bytes).ok()
}

/// Why the heartbeat monitor stopped.
#[derive(PartialEq, Eq, Structural, Clone, Copy, Debug)]
pub enum StopReason {
    /// The peer stayed silent for longer than the client timeout.
    TimedOut,
    /// Sending a probe failed: the peer is gone.
    PeerGone,
    /// The connection's shutdown signal fired.
    Shutdown,
}

/// Whether the heartbeat monitor is still running.
#[derive(PartialEq, Eq, Structural, Clone, Copy, Debug)]
pub enum MonitorStatus {
    Running,
    Stopped(StopReason),
}

/// What wakes the heartbeat monitor.
#[derive(PartialEq, Eq, Structural, Clone, Copy, Debug)]
pub enum MonitorEvent {
    /// The probe interval elapsed; `now` is the current time in milliseconds.
    Tick { now: u64 },
    /// The probe asked for by the previous step could not be sent.
    ProbeFailed,
    /// The shutdown signal was delivered.
    Shutdown,
}

/// What the heartbeat monitor asks its runner to do.
#[derive(PartialEq, Eq, Structural, Clone, Copy, Debug)]
pub enum MonitorAction {
    /// Send one liveness probe with an empty payload, then wait for the next event.
    Probe,
    /// Leave the loop: the monitor has stopped for the given reason.
    Exit(StopReason),
    /// The monitor had already stopped: do nothing.
    Idle,
}

/// The liveness timestamp after a probe or an acknowledgment seen at `now`;
/// it never moves backwards.
pub open spec fn refreshed(hb: u64, now: u64) -> u64 {
    if now > hb {
        now
    } else {
        hb
    }
}

/// More than the client timeout has passed between `hb` and `now`.
pub open spec fn timed_out(hb: u64, now: u64) -> bool {
    now > hb && now - hb > CLIENT_TIMEOUT_MS
}

/// One step of the heartbeat monitor: from its status, whether the shutdown
/// signal has fired, the last liveness time and an event, to its next status
/// and the action it asks for.
pub open spec fn monitor_step(status: MonitorStatus, fired: bool, hb: u64, event: MonitorEvent) -> (
    MonitorStatus,
    MonitorAction,
) {
    match status {
        MonitorStatus::Stopped(_) => (status, MonitorAction::Idle),
        MonitorStatus::Running => {
            if fired || event == MonitorEvent::Shutdown {
                (
                    MonitorStatus::Stopped(StopReason::Shutdown),
                    MonitorAction::Exit(StopReason::Shutdown),
                )
            } else {
                match event {
                    MonitorEvent::Tick { now } => {
                        if timed_out(hb, now) {
                            (
                                MonitorStatus::Stopped(StopReason::TimedOut),
                                MonitorAction::Exit(StopReason::TimedOut),
                            )
                        } else {
                            (MonitorStatus::Running, MonitorAction::Probe)
                        }
                    },
                    _ => (
                        MonitorStatus::Stopped(StopReason::PeerGone),
                        MonitorAction::Exit(StopReason::PeerGone),
                    ),
                }
            }
        },
    }
}

/// The sending end of `futures::channel::oneshot`, carried as an opaque value.
#[verifier::external_type_specification]
#[verifier::external_body]
#[verifier::reject_recursive_types(T)]
pub struct ExOneshotSender<T>(futures::channel::oneshot::Sender<T>);

/// Relies on `futures::channel::oneshot::Sender::send`: it consumes the
/// sender and hands the value back in `Err` when the receiver is gone.
pub assume_specification<T>[ futures::channel::oneshot::Sender::<T>::send ](
    sender: futures::channel::oneshot::Sender<T>,
    t: T,
) -> (r: Result<(), T>)
    ensures
        r matches Err(u) ==> u == t,
;

/// A one-shot shutdown notification: it holds the sending end of the
/// connection's shutdown channel until it fires, and fires at most once.
pub struct ShutdownSignal {
    tx: Option<futures::channel::oneshot::Sender<()>>,
}

impl ShutdownSignal {
    /// Whether the signal has fired.
    pub closed spec fn has_fired(&self) -> bool {
        self.tx is None
    }

    /// A signal that has not fired, sending on `tx` when it does.
    pub fn new(tx: futures::channel::oneshot::Sender<()>) -> (r: ShutdownSignal)
        ensures
            !r.has_fired(),
    {
        ShutdownSignal { tx: Some(tx) }
    }

    /// Fires the signal: the first call sends the notification and returns
    /// true; a later call changes nothing and returns false. A receiver that
    /// is already gone is no failure.
    pub fn fire(&mut self) -> (r: bool)
        ensures
            r == !old(self).has_fired(),
            final(self).has_fired(),
    {
        match self.tx.take() {
            Some(tx) => {
                let _ = tx.send(());
                true
            },
            None => false,
        }
    }

    /// Whether the signal has fired.
    pub fn is_fired(&self) -> (r: bool)
        ensures
            r == self.has_fired(),
    {
        self.tx.is_none()
    }
}

/// What a connection session holds, as plain values.
pub ghost struct SessionView {
    pub user_id: Seq<char>,
    pub server_id: i32,
    pub last_heartbeat: u64,
    pub monitor: MonitorStatus,
    pub shutdown_fired: bool,
}

impl SessionView {
    /// The same session after a liveness signal seen at `now`.
    pub open spec fn refreshed_at(self, now: u64) -> SessionView {
        SessionView { last_heartbeat: refreshed(self.last_heartbeat, now), ..self }
    }
}

/// The state of one upgraded connection, shared by its frame router and its
/// heartbeat monitor.
pub struct WsSession {
    user_id: String,
    server_id: i32,
    hb: u64,
    monitor: MonitorStatus,
    signal: ShutdownSignal,
}

impl View for WsSession {
    type V = SessionView;

    closed spec fn view(&self) -> SessionView {
        SessionView {
            user_id: self.user_id@,
            server_id: self.server_id,
            last_heartbeat: self.hb,
            monitor: self.monitor,
            shutdown_fired: self.signal.has_fired(),
        }
    }
}

impl WsSession {
    /// Starts the session of a connection upgraded at `now` for `user_id`:
    /// liveness is fresh, the monitor runs and the shutdown signal, which
    /// sends on `shutdown_tx`, has not fired.
    pub fn establish(
        user_id: String,
        server_id: i32,
        now: u64,
        shutdown_tx: futures::channel::oneshot::Sender<()>,
    ) -> (r: WsSession)
        ensures
            r@ == (SessionView {
                user_id: user_id@,
                server_id,
                last_heartbeat: now,
                monitor: MonitorStatus::Running,
                shutdown_fired: false,
            }),
    {
        WsSession {
            user_id,
            server_id,
            hb: now,
            monitor: MonitorStatus::Running,
            signal: ShutdownSignal::new(shutdown_tx),
        }
    }

    /// The principal the connection was upgraded for.
    pub fn user_id(&self) -> (r: &String)
        ensures
            r@ == self@.user_id,
    {
        &self.user_id
    }

    /// The server the connection was opened against.
    pub fn server_id(&self) -> (r: i32)
        ensures
            r == self@.server_id,
    {
        self.server_id
    }

    /// The last time, in milliseconds, a probe or an acknowledgment was seen.
    pub fn last_heartbeat(&self) -> (r: u64)
        ensures
            r == self@.last_heartbeat,
    {
        self.hb
    }

    /// Whether the heartbeat monitor still runs.
    pub fn monitor_status(&self) -> (r: MonitorStatus)
        ensures
            r == self@.monitor,
    {
        self.monitor
    }

    /// Whether the shutdown signal has fired.
    pub fn shutdown_fired(&self) -> (r: bool)
        ensures
            r == self@.shutdown_fired,
    {
        self.signal.is_fired()
    }

    /// Routes one inbound frame received at `now` to at most one outbound
    /// message. A probe is acknowledged with the same payload, text, binary
    /// and close frames are echoed, and a probe or an acknowledgment
    /// refreshes the liveness time. Text that is not well-formed UTF-8 is an
    /// error of the connection.
    pub fn handle_frame(&mut self, frame: Frame, now: u64) -> (r: Result<Option<Message>, FrameError>)
        ensures
            frame is Ping ==> (r matches Ok(Some(Message::Pong(q))) && q == frame->Ping_0),
            frame is Pong ==> r matches Ok(None),
            frame is Ping || frame is Pong ==> final(self)@ == old(self)@.refreshed_at(now),
            frame is Text && valid_utf8(frame->Text_0@) ==> (r matches Ok(Some(Message::Text(s)))
                && s@ == decode_utf8(frame->Text_0@)),
            frame is Text && !valid_utf8(frame->Text_0@) ==> r == Err::<Option<Message>, FrameError>(
                FrameError::InvalidText,
            ),
            frame is Binary ==> (r matches Ok(Some(Message::Binary(c))) && c == frame->Binary_0),
            frame is Close ==> (r matches Ok(Some(Message::Close(c))) && c == frame->Close_0),
            frame is Continuation ==> r matches Ok(None),
            !(frame is Ping || frame is Pong) ==> final(self)@ == old(self)@,
    {
        match frame {
            Frame::Ping(p) => {
                self.refresh(now);
                Ok(Some(Message::Pong(p)))
            },
            Frame::Pong(_) => {
                self.refresh(now);
                Ok(None)
            },
            Frame::Text(b) => match decode_text(b) {
                Some(s) => Ok(Some(Message::Text(s))),
                None => Err(FrameError::InvalidText),
            },
            Frame::Binary(b) => Ok(Some(Message::Binary(b))),
            Frame::Close(c) => Ok(Some(Message::Close(c))),
            Frame::Continuation(_) => Ok(None),
        }
    }

    fn refresh(&mut self, now: u64)
        ensures
            final(self)@ == old(self)@.refreshed_at(now),
    {
        if now > self.hb {
            self.hb = now;
        }
    }

    /// One step of the heartbeat monitor on `event`. A running monitor stops
    /// on a delivered or already fired shutdown signal, on a failed probe, or
    /// on a tick that finds the peer silent for longer than the client
    /// timeout; on any other tick it asks for a probe. A stopped monitor
    /// stays stopped and asks for nothing.
    pub fn heartbeat(&mut self, event: MonitorEvent) -> (r: MonitorAction)
        ensures
            (final(self)@.monitor, r) == monitor_step(
                old(self)@.monitor,
                old(self)@.shutdown_fired,
                old(self)@.last_heartbeat,
                event,
            ),
            final(self)@ == (SessionView { monitor: final(self)@.monitor, ..old(self)@ }),
    {
        match self.monitor {
            MonitorStatus::Stopped(_) => MonitorAction::Idle,
            MonitorStatus::Running => {
                let reason = if self.signal.is_fired() {
                    StopReason::Shutdown
                } else {
                    match event {
                        MonitorEvent::Shutdown => StopReason::Shutdown,
                        MonitorEvent::ProbeFailed => StopReason::PeerGone,
                        MonitorEvent::Tick { now } => {
                            if now > self.hb && now - self.hb > CLIENT_TIMEOUT_MS {
                                StopReason::TimedOut
                            } else {
                                return MonitorAction::Probe;
                            }
                        },
                    }
                };
                self.monitor = MonitorStatus::Stopped(reason);
                MonitorAction::Exit(reason)
            },
        }
    }

    /// Tears the connection down: fires the shutdown signal. Returns true on
    /// the first call, when the notification must be delivered to the
    /// monitor; any later call changes nothing and returns false.
    pub fn shutdown(&mut self) -> (r: bool)
        ensures
            r == !old(self)@.shutdown_fired,
            final(self)@ == (SessionView { shutdown_fired: true, ..old(self)@ }),
    {
        self.signal.fire()
    }
}

/// Decides an upgrade request for `args` at `now`: with a principal, the
/// session of the new connection is established for it; without one the
/// request is rejected and nothing is started.
pub fn admit_upgrade(
    principal: Option<String>,
    args: &WebSocketArgs,
    now: u64,
    shutdown_tx: futures::channel::oneshot::Sender<()>,
) -> (r: Option<WsSession>)
    ensures
        principal is None ==> r is None,
        principal is Some ==> (r matches Some(s) && s@ == (SessionView {
            user_id: principal->0@,
            server_id: args.server_id,
            last_heartbeat: now,
            monitor: MonitorStatus::Running,
            shutdown_fired: false,
        })),
{
    match principal {
        Some(user_id) => Some(WsSession::establish(user_id, args.server_id, now, shutdown_tx)),
        None => None,
    }
}

/// The liveness time never moves backwards, whatever time a probe or an
/// acknowledgment is seen at.
pub proof fn lemma_heartbeat_never_decreases(hb: u64, now: u64)
    ensures
        refreshed(hb, now) >= hb,
        now >= hb ==> refreshed(hb, now) == now,
{
}

/// A running monitor whose peer has been silent for longer than the client
/// timeout stops the connection on its next tick, with no further input.
pub proof fn lemma_silence_times_out(hb: u64, now: u64)
    requires
        now > hb + CLIENT_TIMEOUT_MS,
    ensures
        monitor_step(MonitorStatus::Running, false, hb, MonitorEvent::Tick { now }) == (
            MonitorStatus::Stopped(StopReason::TimedOut),
            MonitorAction::Exit(StopReason::TimedOut),
        ),
{
}

/// Once the shutdown signal has fired, a running monitor exits on the very
/// next event, whatever it is, without sending a probe.
pub proof fn lemma_fired_signal_stops_monitor(hb: u64, event: MonitorEvent)
    ensures
        monitor_step(MonitorStatus::Running, true, hb, event) == (
            MonitorStatus::Stopped(StopReason::Shutdown),
            MonitorAction::Exit(StopReason::Shutdown),
        ),
{
}

/// A stopped monitor stays stopped and asks for nothing: no probe is ever
/// sent after it has exited.
pub proof fn lemma_stopped_monitor_stays_silent(
    status: MonitorStatus,
    fired: bool,
    hb: u64,
    event: MonitorEvent,
)
    requires
        status is Stopped,
    ensures
        monitor_step(status, fired, hb, event) == (status, MonitorAction::Idle),
{
}

/// Firing the shutdown signal again after the monitor has exited changes
/// nothing: the session stays as it was and the monitor asks for nothing.
pub proof fn lemma_repeated_shutdown_is_noop(v: SessionView, event: MonitorEvent)
    requires
        v.shutdown_fired,
        v.monitor is Stopped,
    ensures
        (SessionView { shutdown_fired: true, ..v }) == v,
        monitor_step(v.monitor, true, v.last_heartbeat, event) == (v.monitor, MonitorAction::Idle),
{
}

} // verus!
