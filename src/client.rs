//! The client: the readiness-gated command API, the FIFO outbound queue, and
//! the connection state machine that the embedding program drives. The
//! program performs each step's I/O and reports what happened; every
//! decision is taken here.

use vstd::prelude::*;
use std::collections::VecDeque;
use crate::activity::Activity;
use crate::codec::{Message, OpCode};
use crate::json::json_valid;
use crate::protocol::{
    command_json, command_text, handshake_message, handshake_json, handshake_ready, inbound_event,
    parse_event, parse_handshake_response, set_activity_args, set_activity_args_json, Command,
    Event, EventContext,
};
use crate::registry::{positions, HandlerRegistry};
use crate::utils::{nonce, uuid_v4_text};

verus! {

/// Whether a live transport to the peer is held.
#[derive(Clone, Copy, Debug, PartialEq, Eq, Structural)]
pub enum Link {
    Disconnected,
    Connected,
}

/// What the connection loop is to do next.
#[derive(Clone, Copy, Debug, PartialEq, Eq, Structural)]
pub enum Step {
    /// Leave the loop: stopped, or never started, or a hard failure.
    Halt,
    /// Connect and perform the handshake.
    Connect,
    /// Send what is queued, then try one inbound read.
    Relay,
}

/// How a connect-and-handshake attempt ended.
pub enum ConnectOutcome {
    /// A connection was made and this was the handshake response.
    Established(Message),
    /// No endpoint was ready yet; try again on the next tick.
    WouldBlock,
    /// Any other failure.
    Failed,
}

/// A failure of a send or of a receive on the live transport.
#[derive(Clone, Copy, Debug, PartialEq, Eq, Structural)]
pub enum TransportError {
    /// Nothing could be moved now; not an error.
    WouldBlock,
    /// The channel failed.
    Io,
    /// The peer closed the channel.
    Closed,
}

/// The error of a command.
#[derive(Clone, Copy, Debug, PartialEq, Eq, Structural)]
pub enum ClientError {
    /// The client is not started, or the peer has not announced readiness.
    NotStarted,
}

/// The state of a client.
pub struct ClientView {
    pub client_id: u64,
    pub pid: u32,
    pub started: bool,
    pub ready: bool,
    pub link: Link,
    /// A handshake has succeeded since the last start.
    pub connected_since_start: bool,
    pub stopped: bool,
    /// The queued frames, oldest first.
    pub outbound: Seq<(OpCode, Seq<char>)>,
    /// The event of each registered handler, in registration order.
    pub handlers: Seq<Event>,
}

/// The opcode and payload text of each message.
pub open spec fn frames(ms: Seq<Message>) -> Seq<(OpCode, Seq<char>)> {
    ms.map_values(|m: Message| (m.opcode, m.payload@))
}

/// An activity with every field absent.
pub open spec fn blank_activity() -> Activity {
    Activity { state: None, details: None, timestamps: None, assets: None, party: None, buttons: None }
}

/// The state's own invariant: a live link was made since the last start,
/// and its handshake made the peer ready.
pub open spec fn client_wf(c: ClientView) -> bool {
    c.link == Link::Connected ==> c.connected_since_start && c.ready
}

/// Commands are accepted only while both flags hold.
pub open spec fn can_send(c: ClientView) -> bool {
    c.started && c.ready
}

pub open spec fn next_step_of(c: ClientView) -> Step {
    if c.stopped || !c.started {
        Step::Halt
    } else if c.link == Link::Disconnected {
        Step::Connect
    } else {
        Step::Relay
    }
}

pub open spec fn after_start(c: ClientView) -> ClientView {
    ClientView {
        started: true,
        stopped: false,
        connected_since_start: c.link == Link::Connected,
        ..c
    }
}

/// A queued command frame with payload `text`.
pub open spec fn after_command(c: ClientView, text: Seq<char>) -> ClientView {
    ClientView { outbound: c.outbound.push((OpCode::Frame, text)), ..c }
}

/// The oldest queued frame handed out for sending.
pub open spec fn after_dequeue(c: ClientView) -> ClientView {
    ClientView { outbound: c.outbound.drop_first(), ..c }
}

/// A frame that could not be sent now put back in front of the queue.
pub open spec fn after_requeue(c: ClientView, opcode: OpCode, payload: Seq<char>) -> ClientView {
    ClientView { outbound: seq![(opcode, payload)] + c.outbound, ..c }
}

/// Commands with the payloads `texts`, queued one after another.
pub open spec fn after_commands(c: ClientView, texts: Seq<Seq<char>>) -> ClientView
    decreases texts.len(),
{
    if texts.len() == 0 {
        c
    } else {
        after_command(after_commands(c, texts.drop_last()), texts.last())
    }
}

/// A hard connect failure ends the run unless a handshake already succeeded
/// in it; after a disconnect the loop keeps trying.
pub open spec fn after_hard_failure(c: ClientView) -> ClientView {
    if c.connected_since_start {
        c
    } else {
        ClientView { started: false, ..c }
    }
}

pub open spec fn after_connect(c: ClientView, outcome: ConnectOutcome) -> ClientView {
    match outcome {
        ConnectOutcome::Established(m) => match handshake_ready(m.opcode, m.payload@) {
            Some(_) => ClientView {
                link: Link::Connected,
                ready: true,
                connected_since_start: true,
                ..c
            },
            None => after_hard_failure(c),
        },
        ConnectOutcome::WouldBlock => c,
        ConnectOutcome::Failed => after_hard_failure(c),
    }
}

pub open spec fn after_disconnect(c: ClientView) -> ClientView {
    ClientView { link: Link::Disconnected, ready: false, ..c }
}

pub open spec fn after_transport_error(c: ClientView, e: TransportError) -> ClientView {
    match e {
        TransportError::WouldBlock => c,
        _ => after_disconnect(c),
    }
}

/// Whether an inbound payload reports the `Ready` event.
pub open spec fn reports_ready(payload: Seq<char>) -> bool {
    match inbound_event(payload) {
        Some((e, _)) => e == Event::Ready,
        None => false,
    }
}

/// An inbound `Close` drops the link; an inbound `READY` on a live link
/// marks the peer ready.
pub open spec fn after_message(c: ClientView, opcode: OpCode, payload: Seq<char>) -> ClientView {
    if opcode == OpCode::Close {
        after_disconnect(c)
    } else if opcode == OpCode::Frame && c.link == Link::Connected && reports_ready(payload) {
        ClientView { ready: true, ..c }
    } else {
        c
    }
}

/// Commands are refused before `start`, and after `start` until a handshake
/// brings the peer's readiness; once it has, they are accepted.
pub proof fn lemma_readiness_gating(c: ClientView, response: Message)
    requires
        !c.ready,
        handshake_ready(response.opcode, response.payload@) is Some,
    ensures
        !can_send(c),
        !can_send(after_start(c)),
        can_send(after_connect(after_start(c), ConnectOutcome::Established(response))),
{
}

/// Commands submitted in order on a client that accepts them are all
/// accepted and queued after what was queued before, in that order; the
/// queue hands out its oldest frame first.
pub proof fn lemma_fifo_outbound(c: ClientView, texts: Seq<Seq<char>>)
    requires
        can_send(c),
    ensures
        can_send(after_commands(c, texts)),
        after_commands(c, texts).outbound == c.outbound + texts.map_values(
            |t: Seq<char>| (OpCode::Frame, t),
        ),
        c.outbound.len() == 0 && texts.len() > 0 ==> after_dequeue(after_commands(c, texts)).outbound
            == texts.drop_first().map_values(|t: Seq<char>| (OpCode::Frame, t)),
        c.outbound.len() == 0 && texts.len() > 0 ==> after_commands(c, texts).outbound[0] == (
            OpCode::Frame,
            texts[0],
        ),
    decreases texts.len(),
{
    if texts.len() > 0 {
        lemma_fifo_outbound(c, texts.drop_last());
        assert(texts.map_values(|t: Seq<char>| (OpCode::Frame, t)) =~= texts.drop_last().map_values(
            |t: Seq<char>| (OpCode::Frame, t),
        ).push((OpCode::Frame, texts.last())));
        assert(after_commands(c, texts).outbound =~= c.outbound + texts.map_values(
            |t: Seq<char>| (OpCode::Frame, t),
        ));
        if c.outbound.len() == 0 {
            assert(after_dequeue(after_commands(c, texts)).outbound =~= texts.drop_first().map_values(
                |t: Seq<char>| (OpCode::Frame, t),
            ));
        }
    }
}

/// A transport failure on a live link drops it and readiness with it; the
/// loop then connects again, a hard failure of that attempt does not end the
/// run, and a good handshake restores readiness.
pub proof fn lemma_reconnect(c: ClientView, e: TransportError, response: Message)
    requires
        client_wf(c),
        c.started,
        !c.stopped,
        c.link == Link::Connected,
        e != TransportError::WouldBlock,
        handshake_ready(response.opcode, response.payload@) is Some,
    ensures
        after_transport_error(c, e).link == Link::Disconnected,
        !after_transport_error(c, e).ready,
        next_step_of(after_transport_error(c, e)) == Step::Connect,
        next_step_of(after_connect(after_transport_error(c, e), ConnectOutcome::Failed))
            == Step::Connect,
        after_connect(after_transport_error(c, e), ConnectOutcome::Established(response)).ready,
        after_connect(after_transport_error(c, e), ConnectOutcome::Established(response)).link
            == Link::Connected,
{
}

/// Whether the connection loop has nothing more to do.
pub open spec fn halted(c: ClientView) -> bool {
    next_step_of(c) == Step::Halt
}

/// A hard failure of the first connect attempt of a run ends the run: the
/// client is no longer started and the loop halts.
pub proof fn lemma_hard_failure_is_terminal(c: ClientView)
    requires
        client_wf(c),
        c.started,
        c.link == Link::Disconnected,
        !c.connected_since_start,
    ensures
        !after_connect(c, ConnectOutcome::Failed).started,
        halted(after_connect(c, ConnectOutcome::Failed)),
{
}

/// Once the loop halts, nothing but a new `start` makes it connect again:
/// every other step leaves it halted.
pub proof fn lemma_halt_is_absorbing(
    c: ClientView,
    outcome: ConnectOutcome,
    e: TransportError,
    opcode: OpCode,
    payload: Seq<char>,
    text: Seq<char>,
)
    requires
        halted(c),
    ensures
        halted(after_connect(c, outcome)),
        halted(after_transport_error(c, e)),
        halted(after_message(c, opcode, payload)),
        halted(after_command(c, text)),
        halted(ClientView { stopped: true, ..c }),
        halted(after_dequeue(c)),
        halted(after_requeue(c, opcode, payload)),
{
}

/// Every step keeps the state's invariant.
pub proof fn lemma_wf_preserved(
    c: ClientView,
    outcome: ConnectOutcome,
    e: TransportError,
    opcode: OpCode,
    payload: Seq<char>,
    text: Seq<char>,
)
    requires
        client_wf(c),
    ensures
        client_wf(after_start(c)),
        client_wf(after_connect(c, outcome)),
        client_wf(after_transport_error(c, e)),
        client_wf(after_message(c, opcode, payload)),
        client_wf(after_command(c, text)),
        client_wf(ClientView { stopped: true, ..c }),
        client_wf(after_dequeue(c)),
        client_wf(after_requeue(c, opcode, payload)),
{
}

/// The rich-presence client. `H` is the type of the event handlers that the
/// embedding program registers and calls.
pub struct Client<H> {
    client_id: u64,
    pid: u32,
    started: bool,
    ready: bool,
    link: Link,
    connected_since_start: bool,
    stopped: bool,
    outbound: VecDeque<Message>,
    registry: HandlerRegistry<H>,
}

impl<H> View for Client<H> {
    type V = ClientView;

    closed spec fn view(&self) -> ClientView {
        ClientView {
            client_id: self.client_id,
            pid: self.pid,
            started: self.started,
            ready: self.ready,
            link: self.link,
            connected_since_start: self.connected_since_start,
            stopped: self.stopped,
            outbound: frames(self.outbound@),
            handlers: self.registry.events(),
        }
    }
}

impl<H> Client<H> {
    /// The handlers in registration order.
    pub closed spec fn handler_values(&self) -> Seq<H> {
        self.registry.handlers()
    }

    /// One handler for each registration.
    pub proof fn lemma_handler_count(&self)
        ensures
            self.handler_values().len() == self@.handlers.len(),
    {
        self.registry.lemma_lengths();
    }

    /// A client for `client_id`, not started, that reports process id 0.
    pub fn new(client_id: u64) -> (r: Client<H>)
        ensures
            r.handler_values() == Seq::<H>::empty(),
            r@ == (ClientView {
                client_id,
                pid: 0,
                started: false,
                ready: false,
                link: Link::Disconnected,
                connected_since_start: false,
                stopped: false,
                outbound: Seq::empty(),
                handlers: Seq::empty(),
            }),
    {
        Self::with_process_id(client_id, 0)
    }

    /// A client for `client_id`, not started, that reports process id `pid`.
    pub fn with_process_id(client_id: u64, pid: u32) -> (r: Client<H>)
        ensures
            r.handler_values() == Seq::<H>::empty(),
            r@ == (ClientView {
                client_id,
                pid,
                started: false,
                ready: false,
                link: Link::Disconnected,
                connected_since_start: false,
                stopped: false,
                outbound: Seq::empty(),
                handlers: Seq::empty(),
            }),
    {
        let r = Client {
            client_id,
            pid,
            started: false,
            ready: false,
            link: Link::Disconnected,
            connected_since_start: false,
            stopped: false,
            outbound: VecDeque::new(),
            registry: HandlerRegistry::new(),
        };
        assert(frames(r.outbound@) =~= Seq::empty());
        r
    }

    pub fn client_id(&self) -> (r: u64)
        ensures
            r == self@.client_id,
    {
        self.client_id
    }

    /// Whether the peer has announced readiness.
    pub fn is_ready(&self) -> (r: bool)
        ensures
            r == self@.ready,
    {
        self.ready
    }

    /// Whether the client is started.
    pub fn is_started(&self) -> (r: bool)
        ensures
            r == self@.started,
    {
        self.started
    }

    /// Whether a live transport is held.
    pub fn is_connected(&self) -> (r: bool)
        ensures
            r == (self@.link == Link::Connected),
    {
        self.link == Link::Connected
    }

    /// Starts (or restarts) the connection run.
    pub fn start(&mut self)
        ensures
            final(self)@ == after_start(old(self)@),
    {
        self.started = true;
        self.stopped = false;
        self.connected_since_start = self.link == Link::Connected;
    }

    /// Asks the connection loop to leave at its next step.
    pub fn stop(&mut self)
        ensures
            final(self)@ == (ClientView { stopped: true, ..old(self)@ }),
    {
        self.stopped = true;
    }

    /// Queues one command frame with the given nonce: `NotStarted`, with
    /// nothing queued, unless the client is started and ready.
    pub fn execute(&mut self, cmd: Command, args: Option<String>, evt: Option<Event>, nonce: &str) -> (r: Result<(), ClientError>)
        ensures
            r is Ok <==> can_send(old(self)@),
            r is Err ==> r == Err::<(), ClientError>(ClientError::NotStarted) && final(self)@ == old(self)@,
            r is Ok ==> final(self)@ == after_command(
                old(self)@,
                command_json(
                    cmd,
                    match args {
                        Some(a) => Some(a@),
                        None => None,
                    },
                    nonce@,
                    evt,
                ),
            ),
    {
        if !self.started || !self.ready {
            return Err(ClientError::NotStarted);
        }
        let text = command_text(cmd, args, nonce, evt);
        self.outbound.push_back(Message::new(OpCode::Frame, text));
        assert(frames(self.outbound@) =~= frames(old(self).outbound@).push((OpCode::Frame, text@)));
        Ok(())
    }

    /// Sets the user's activity to what `f` makes of a blank one, under a
    /// fresh nonce.
    pub fn set_activity<F>(&mut self, f: F) -> (r: Result<(), ClientError>)
        where F: FnOnce(Activity) -> Activity,
        requires
            f.requires((blank_activity(),)),
        ensures
            r is Ok <==> can_send(old(self)@),
            r is Err ==> r == Err::<(), ClientError>(ClientError::NotStarted) && final(self)@ == old(self)@,
            r is Ok ==> exists|a: Activity, n: Seq<char>|
                #![trigger f.ensures((blank_activity(),), a), uuid_v4_text(n)]
                f.ensures((blank_activity(),), a) && uuid_v4_text(n) && final(self)@ == after_command(
                    old(self)@,
                    command_json(
                        Command::SetActivity,
                        Some(set_activity_args_json(old(self)@.pid, Some(a))),
                        n,
                        None,
                    ),
                ),
    {
        if !self.started || !self.ready {
            return Err(ClientError::NotStarted);
        }
        let a = f(Activity::new());
        let args = set_activity_args(self.pid, Some(a));
        let n = nonce();
        let r = self.execute(Command::SetActivity, Some(args), None, n.as_str());
        assert(f.ensures((blank_activity(),), a) && uuid_v4_text(n@));
        r
    }

    /// Clears the user's activity, under a fresh nonce.
    pub fn clear_activity(&mut self) -> (r: Result<(), ClientError>)
        ensures
            r is Ok <==> can_send(old(self)@),
            r is Err ==> r == Err::<(), ClientError>(ClientError::NotStarted) && final(self)@ == old(self)@,
            r is Ok ==> exists|n: Seq<char>|
                #![trigger uuid_v4_text(n)]
                uuid_v4_text(n) && final(self)@ == after_command(
                    old(self)@,
                    command_json(
                        Command::SetActivity,
                        Some(set_activity_args_json(old(self)@.pid, None)),
                        n,
                        None,
                    ),
                ),
    {
        if !self.started || !self.ready {
            return Err(ClientError::NotStarted);
        }
        let args = set_activity_args(self.pid, None);
        let n = nonce();
        self.execute(Command::SetActivity, Some(args), None, n.as_str())
    }

    /// Registers `handler` for `event`, after every earlier registration.
    pub fn on_event(&mut self, event: Event, handler: H)
        ensures
            final(self)@ == (ClientView { handlers: old(self)@.handlers.push(event), ..old(self)@ }),
            final(self).handler_values() == old(self).handler_values().push(handler),
    {
        self.registry.register(event, handler);
    }

    /// The registrations to call for `event`, in registration order.
    pub fn handlers_for(&self, event: Event) -> (r: Vec<usize>)
        ensures
            r@ == positions(self@.handlers, event, self@.handlers.len()),
            forall|j: int| 0 <= j < r@.len() ==> r@[j] < self.handler_values().len(),
    {
        let r = self.registry.handlers_for(event);
        proof {
            self.registry.lemma_lengths();
        }
        r
    }

    /// The handler of registration `i`.
    pub fn handler(&self, i: usize) -> (r: &H)
        requires
            i < self@.handlers.len(),
        ensures
            *r == self.handler_values()[i as int],
    {
        proof {
            self.registry.lemma_lengths();
        }
        self.registry.handler(i)
    }

    /// What the connection loop is to do next.
    pub fn next_step(&self) -> (r: Step)
        ensures
            r == next_step_of(self@),
    {
        if self.stopped || !self.started {
            Step::Halt
        } else if self.link == Link::Disconnected {
            Step::Connect
        } else {
            Step::Relay
        }
    }

    /// The handshake request for this client.
    pub fn handshake(&self) -> (r: Message)
        ensures
            r.opcode == OpCode::Handshake,
            r.payload@ == handshake_json(self@.client_id),
    {
        handshake_message(self.client_id)
    }

    /// Takes in the outcome of a connect-and-handshake attempt. On success,
    /// the `Ready` event with the response's data, to be dispatched.
    pub fn on_connect(&mut self, outcome: ConnectOutcome) -> (r: Option<EventContext>)
        ensures
            final(self)@ == after_connect(old(self)@, outcome),
            match outcome {
                ConnectOutcome::Established(m) => match handshake_ready(m.opcode, m.payload@) {
                    Some(d) => r is Some && r->Some_0.event == Event::Ready && r->Some_0.data@ == d,
                    None => r is None,
                },
                _ => r is None,
            },
            outcome matches ConnectOutcome::Established(m) && !json_valid(m.payload@) ==> r is None
                && final(self)@ == after_hard_failure(old(self)@),
    {
        match outcome {
            ConnectOutcome::Established(m) => {
                match parse_handshake_response(&m) {
                    Some(ctx) => {
                        self.link = Link::Connected;
                        self.ready = true;
                        self.connected_since_start = true;
                        Some(ctx)
                    },
                    None => {
                        self.hard_failure();
                        None
                    },
                }
            },
            ConnectOutcome::WouldBlock => None,
            ConnectOutcome::Failed => {
                self.hard_failure();
                None
            },
        }
    }

    fn hard_failure(&mut self)
        ensures
            final(self)@ == after_hard_failure(old(self)@),
    {
        if !self.connected_since_start {
            self.started = false;
        }
    }

    /// Hands out the oldest queued frame, if any, and removes it from the queue.
    pub fn next_outbound(&mut self) -> (r: Option<Message>)
        ensures
            old(self)@.outbound.len() == 0 ==> r is None && final(self)@ == old(self)@,
            old(self)@.outbound.len() > 0 ==> r is Some && (r->Some_0.opcode, r->Some_0.payload@)
                == old(self)@.outbound[0] && final(self)@ == after_dequeue(old(self)@),
    {
        let r = self.outbound.pop_front();
        proof {
            if r is Some {
                assert(frames(self.outbound@) =~= frames(old(self).outbound@).drop_first());
            }
        }
        r
    }

    /// Puts back, in front of the queue, a frame that could not be sent now.
    pub fn requeue_front(&mut self, m: Message)
        ensures
            final(self)@ == after_requeue(old(self)@, m.opcode, m.payload@),
    {
        let ghost op = m.opcode;
        let ghost text = m.payload@;
        self.outbound.push_front(m);
        assert(frames(self.outbound@) =~= seq![(op, text)] + frames(old(self).outbound@));
    }

    /// Takes in a failed send or receive on the live transport.
    pub fn on_transport_error(&mut self, e: TransportError)
        ensures
            final(self)@ == after_transport_error(old(self)@, e),
    {
        match e {
            TransportError::WouldBlock => {},
            _ => {
                self.link = Link::Disconnected;
                self.ready = false;
            },
        }
    }

    /// Takes in one inbound message; the event it reports, if any, is to be
    /// dispatched.
    pub fn on_message(&mut self, m: &Message) -> (r: Option<EventContext>)
        ensures
            final(self)@ == after_message(old(self)@, m.opcode, m.payload@),
            m.opcode == OpCode::Frame ==> match inbound_event(m.payload@) {
                Some((e, d)) => r is Some && r->Some_0.event == e && r->Some_0.data@ == d,
                None => r is None,
            },
            m.opcode != OpCode::Frame ==> r is None,
    {
        if m.opcode == OpCode::Close {
            self.link = Link::Disconnected;
            self.ready = false;
            return None;
        }
        if m.opcode != OpCode::Frame {
            return None;
        }
        let ctx = parse_event(m.payload.as_str());
        match &ctx {
            Some(c) => {
                if self.link == Link::Connected && c.event == Event::Ready {
                    self.ready = true;
                }
            },
            None => {},
        }
        ctx
    }
}

} // verus!
