//! Sessions: one connection, one application instance, and the cycle of
//! receiving a message, updating the application and sending its commands.
//!
//! The session decides; a driver performs. The driver hands each thing that
//! happened on the connection to [`Session::step`] and then does what the
//! returned [`Action`] says.

use vstd::prelude::*;
use vstd::string::*;
use crate::command::{commands_json, commands_to_json, commands_view, Command, CommandView};
use crate::event::{decode_message, event_of, DecodeError, Event, EventView};
use crate::html::HtmlPage;
use crate::json::{json_text, parsed_members};

verus! {

/// The user application.
pub trait App: Sized {
    /// Returns an instance; called once for every client connection.
    fn new() -> Self;

    /// Returns the page; called once, before any connection is accepted.
    fn init() -> HtmlPage;

    /// Updates the application state and returns the commands that update the
    /// page, in the order in which the browser must apply them; called on
    /// every event.
    fn update(&mut self, event: Event) -> Vec<Command>;
}

/// Where a session stands. `Receiving` and `Sending` are the two halves of the
/// active state.
#[derive(Debug, Clone, Copy, PartialEq, Eq, Structural)]
pub enum SessionState {
    /// The connection's handshake has not completed yet.
    Accepting,
    /// The session waits for the next message.
    Receiving,
    /// The session waits until its last batch of commands has been sent.
    Sending,
    /// The session has ended.
    Closed,
}

/// Why a session ended.
#[derive(Debug, Clone, Copy, PartialEq, Eq, Structural)]
pub enum CloseReason {
    /// A message could not be decoded.
    Decode(DecodeError),
    /// The connection failed or the peer closed it.
    Connection,
    /// The driver reported something that cannot happen in this state.
    OutOfTurn,
}

/// The mathematical value of an [`Input`].
pub enum InputView {
    Connected,
    Message(Seq<char>),
    Skipped,
    Sent,
    Failed,
}

/// What happened on the connection.
#[derive(Debug, Clone, PartialEq, Eq)]
pub enum Input {
    /// The handshake completed.
    Connected,
    /// A text message arrived.
    Message(String),
    /// A message arrived that carries no text.
    Skipped,
    /// The last batch of commands has been sent in full.
    Sent,
    /// Receiving or sending failed, or the peer closed the connection.
    Failed,
}

impl View for Input {
    type V = InputView;

    open spec fn view(&self) -> InputView {
        match self {
            Input::Connected => InputView::Connected,
            Input::Message(text) => InputView::Message(text@),
            Input::Skipped => InputView::Skipped,
            Input::Sent => InputView::Sent,
            Input::Failed => InputView::Failed,
        }
    }
}

/// The mathematical value of an [`Action`].
pub enum ActionView {
    Receive,
    Send(Seq<char>),
    Close(CloseReason),
}

/// What the driver must do next.
#[derive(Debug, Clone, PartialEq, Eq)]
pub enum Action {
    /// Wait for the next message.
    Receive,
    /// Send this text, then report `Sent` or `Failed`.
    Send(String),
    /// Close the connection and drop the session.
    Close(CloseReason),
}

impl View for Action {
    type V = ActionView;

    open spec fn view(&self) -> ActionView {
        match self {
            Action::Receive => ActionView::Receive,
            Action::Send(text) => ActionView::Send(text@),
            Action::Close(reason) => ActionView::Close(*reason),
        }
    }
}

/// The mathematical value of a [`Session`].
pub struct SessionView<A> {
    pub state: SessionState,
    pub app: Option<A>,
}

/// Where a session stands, together with the application instance that it
/// holds while it is active.
enum Phase<A> {
    Accepting,
    Receiving(A),
    Sending(A),
    Closed,
}

/// One connection's session.
pub struct Session<A: App> {
    phase: Phase<A>,
}

impl<A: App> View for Session<A> {
    type V = SessionView<A>;

    closed spec fn view(&self) -> SessionView<A> {
        match self.phase {
            Phase::Accepting => SessionView { state: SessionState::Accepting, app: None },
            Phase::Receiving(app) => SessionView {
                state: SessionState::Receiving,
                app: Some(app),
            },
            Phase::Sending(app) => SessionView { state: SessionState::Sending, app: Some(app) },
            Phase::Closed => SessionView { state: SessionState::Closed, app: None },
        }
    }
}

/// A session holds an application instance exactly while it is active.
pub open spec fn well_formed<A>(s: SessionView<A>) -> bool {
    s.app is Some <==> (s.state is Receiving || s.state is Sending)
}

/// A session that has ended for `reason`.
pub open spec fn closed<A>(reason: CloseReason) -> (SessionView<A>, ActionView) {
    (SessionView { state: SessionState::Closed, app: None }, ActionView::Close(reason))
}

/// What an application made of an event: its state afterwards and its
/// commands, in the order in which the browser must apply them.
pub struct Outcome<A> {
    pub app: A,
    pub commands: Seq<CommandView>,
}

/// The session after a text message has arrived, and what the driver must do
/// next. A message that decodes to an event goes to the application, and its
/// commands go out as one JSON array in their order; a message that does not
/// decode ends the session.
pub open spec fn received<A>(text: Seq<char>, outcome: Outcome<A>) -> (
    SessionView<A>,
    ActionView,
) {
    match event_of(parsed_members(text)) {
        Ok(_) => (
            SessionView { state: SessionState::Sending, app: Some(outcome.app) },
            ActionView::Send(json_text(commands_json(outcome.commands))),
        ),
        Err(e) => closed(CloseReason::Decode(e)),
    }
}

/// The session after `input`, and what the driver must do next. `fresh` is the
/// application instance that an accepted connection starts with, and `outcome`
/// what the application makes of the event that a message decodes to.
pub open spec fn next<A>(s: SessionView<A>, input: InputView, fresh: A, outcome: Outcome<A>) -> (
    SessionView<A>,
    ActionView,
) {
    match (s.state, input) {
        (SessionState::Accepting, InputView::Connected) => (
            SessionView { state: SessionState::Receiving, app: Some(fresh) },
            ActionView::Receive,
        ),
        (SessionState::Receiving, InputView::Message(text)) => received(text, outcome),
        (SessionState::Receiving, InputView::Skipped) => (s, ActionView::Receive),
        (SessionState::Sending, InputView::Sent) => (
            SessionView { state: SessionState::Receiving, app: s.app },
            ActionView::Receive,
        ),
        (SessionState::Closed, _) => closed(CloseReason::OutOfTurn),
        (_, InputView::Failed) => closed(CloseReason::Connection),
        (_, _) => closed(CloseReason::OutOfTurn),
    }
}

impl<A: App> Session<A> {
    /// A session for a connection whose handshake has not completed yet.
    pub fn new() -> (s: Self)
        ensures
            s@ == (SessionView::<A> { state: SessionState::Accepting, app: None }),
    {
        Session { phase: Phase::Accepting }
    }

    /// Every session is well formed.
    pub proof fn lemma_well_formed(&self)
        ensures
            well_formed(self@),
    {
    }

    /// Where the session stands.
    pub fn state(&self) -> (state: SessionState)
        ensures
            state == self@.state,
    {
        match &self.phase {
            Phase::Accepting => SessionState::Accepting,
            Phase::Receiving(_) => SessionState::Receiving,
            Phase::Sending(_) => SessionState::Sending,
            Phase::Closed => SessionState::Closed,
        }
    }

    /// Takes in what happened on the connection and says what to do next.
    ///
    /// The session moves as [`next`] says. Where a connection is accepted, the
    /// instance it then holds is one that the application's `new` returned.
    /// Where a message arrives that decodes to an event, the application's
    /// `update` was called on the session's own instance with that event; the
    /// session holds the instance as `update` left it, and the text to send is
    /// the encoding of the commands that `update` returned.
    pub fn step(&mut self, input: Input) -> (action: Action)
        ensures
            exists|fresh: A, outcome: Outcome<A>| #[trigger]
                next(old(self)@, input@, fresh, outcome) == (final(self)@, action@),
            old(self)@.state is Accepting && input@ is Connected ==> final(self)@.app is Some
                && call_ensures(A::new, (), final(self)@.app->0),
            old(self)@.state is Receiving && input@ is Message && event_of(
                parsed_members(input@->Message_0),
            ) is Ok ==> exists|app: &mut A, handed: Event, commands: Vec<Command>|
                Some(*app) == old(self)@.app && Ok::<EventView, DecodeError>(handed@) == event_of(
                    parsed_members(input@->Message_0),
                ) && #[trigger] call_ensures(A::update, (app, handed), commands) && Some(
                    *final(app),
                ) == final(self)@.app && action@ == ActionView::Send(
                    json_text(commands_json(commands_view(commands@))),
                ),
    {
        let ghost before = self@;
        let ghost fresh: A = arbitrary();
        let ghost outcome: Outcome<A> = arbitrary();
        let mut phase = Phase::Closed;
        core::mem::swap(&mut self.phase, &mut phase);
        let action = match (phase, input) {
            (Phase::Accepting, Input::Connected) => {
                let app = A::new();
                proof {
                    fresh = app;
                }
                self.phase = Phase::Receiving(app);
                Action::Receive
            },
            (Phase::Receiving(app), Input::Message(text)) => {
                let (action, Ghost(given)) = self.receive(app, text.as_str());
                proof {
                    outcome = given;
                }
                action
            },
            (Phase::Receiving(app), Input::Skipped) => {
                self.phase = Phase::Receiving(app);
                Action::Receive
            },
            (Phase::Sending(app), Input::Sent) => {
                self.phase = Phase::Receiving(app);
                Action::Receive
            },
            (Phase::Closed, _) => Action::Close(CloseReason::OutOfTurn),
            (_, Input::Failed) => Action::Close(CloseReason::Connection),
            (_, _) => Action::Close(CloseReason::OutOfTurn),
        };
        proof {
            assert(next(before, input@, fresh, outcome) == (self@, action@));
        }
        action
    }

    /// Decodes a message, hands the event to the application and encodes its
    /// commands; ends the session where the message does not decode. Returns
    /// what the application made of the event, too.
    fn receive(&mut self, app: A, text: &str) -> (r: (Action, Ghost<Outcome<A>>))
        requires
            old(self)@.state is Closed,
        ensures
            (final(self)@, r.0@) == received(text@, r.1@),
            event_of(parsed_members(text@)) is Ok ==> exists|
                held: &mut A,
                handed: Event,
                commands: Vec<Command>,
            |
                *held == app && Ok::<EventView, DecodeError>(handed@) == event_of(
                    parsed_members(text@),
                ) && #[trigger] call_ensures(A::update, (held, handed), commands) && Some(
                    *final(held),
                ) == final(self)@.app && r.0@ == ActionView::Send(
                    json_text(commands_json(commands_view(commands@))),
                ),
    {
        match decode_message(text) {
            Ok(event) => {
                let mut app = app;
                let commands = app.update(event);
                let ghost outcome = Outcome { app: app, commands: commands_view(commands@) };
                self.phase = Phase::Sending(app);
                (Action::Send(commands_to_json(&commands)), Ghost(outcome))
            },
            Err(e) => (Action::Close(CloseReason::Decode(e)), Ghost(arbitrary())),
        }
    }
}

/// Sessions side by side after `input` has been taken in by the session at
/// position `to`.
pub open spec fn delivered<A>(
    sessions: Seq<SessionView<A>>,
    to: int,
    input: InputView,
    fresh: A,
    outcome: Outcome<A>,
) -> Seq<SessionView<A>> {
    sessions.update(to, next(sessions[to], input, fresh, outcome).0)
}

/// Every step leaves a session well formed: it holds an application instance
/// exactly while it is active.
pub proof fn lemma_next_well_formed<A>(
    s: SessionView<A>,
    input: InputView,
    fresh: A,
    outcome: Outcome<A>,
)
    requires
        well_formed(s),
    ensures
        well_formed(next(s, input, fresh, outcome).0),
{
}

/// A closed session stays closed, whatever happens, and holds no application
/// instance.
pub proof fn lemma_closed_is_final<A>(
    s: SessionView<A>,
    input: InputView,
    fresh: A,
    outcome: Outcome<A>,
)
    requires
        s.state is Closed,
    ensures
        next(s, input, fresh, outcome).0.state is Closed,
        next(s, input, fresh, outcome).0.app is None,
        next(s, input, fresh, outcome).1 is Close,
{
}

/// Isolation: what one session takes in changes that session alone. Every
/// other session, its application instance included, is afterwards what it was
/// before, whatever the application makes of an event.
pub proof fn lemma_sessions_isolated<A>(
    sessions: Seq<SessionView<A>>,
    to: int,
    other: int,
    input: InputView,
    fresh: A,
    outcome: Outcome<A>,
)
    requires
        0 <= to < sessions.len(),
        0 <= other < sessions.len(),
        to != other,
    ensures
        delivered(sessions, to, input, fresh, outcome)[other] == sessions[other],
        delivered(sessions, to, input, fresh, outcome).len() == sessions.len(),
{
}

/// Isolation: what two different sessions take in can be taken in in either
/// order, with the same sessions afterwards.
pub proof fn lemma_deliveries_commute<A>(
    sessions: Seq<SessionView<A>>,
    first: int,
    second: int,
    input_first: InputView,
    input_second: InputView,
    fresh: A,
    outcome: Outcome<A>,
)
    requires
        0 <= first < sessions.len(),
        0 <= second < sessions.len(),
        first != second,
    ensures
        delivered(
            delivered(sessions, first, input_first, fresh, outcome),
            second,
            input_second,
            fresh,
            outcome,
        ) == delivered(
            delivered(sessions, second, input_second, fresh, outcome),
            first,
            input_first,
            fresh,
            outcome,
        ),
{
    let one = delivered(
        delivered(sessions, first, input_first, fresh, outcome),
        second,
        input_second,
        fresh,
        outcome,
    );
    let other = delivered(
        delivered(sessions, second, input_second, fresh, outcome),
        first,
        input_first,
        fresh,
        outcome,
    );
    assert(one =~= other);
}

} // verus!
