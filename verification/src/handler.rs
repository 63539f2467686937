use vstd::prelude::*;

use crate::text::owned;

verus! {

/// What a client's handshake says it wants next.
#[derive(Debug, PartialEq, Eq, Structural)]
pub enum Intention {
    Status,
    Login,
    Other,
}

/// What the server read from a connection.
pub enum Event {
    /// A handshake, with the intention and the host name the client used.
    Handshake { intention: Intention, hostname: String },
    /// A request for the server's status.
    StatusRequest,
    /// A ping that asks for its time to be sent back.
    PingRequest { time: u64 },
    /// The start of a login, with the player's name.
    LoginHello { name: String },
    /// A packet that was read but is not the one expected.
    OtherPacket,
    /// Nothing could be read: the bytes were not a packet, or the
    /// connection failed.
    ReadFailed,
}

/// Where a conversation with a client stands.
pub enum Stage {
    AwaitHandshake,
    AwaitStatusRequest { target: String },
    AwaitPing,
    AwaitLoginStart,
    Closed,
}

/// What the server does next on a connection.
pub enum Action {
    /// Read the next packet.
    ReadNext,
    /// Report a contact that was not a game client, then close quietly.
    LogConnection,
    /// Report the ping to `target`, then answer with a status response.
    SendStatus { target: String },
    /// Answer a ping with its own time, then close.
    SendPong { time: u64 },
    /// Report that `user` joined, then turn the player away with `reason`.
    TurnAway { user: String, reason: String },
    /// Give up on the connection with an error.
    Fail { message: String },
    /// Give up on the connection with the error the read returned.
    PassReadError,
    /// Nothing: the conversation is over.
    Ignore,
}

/// The stage after an event, and the action it calls for.
pub struct Step {
    pub stage: Stage,
    pub action: Action,
}

pub enum EventView {
    Handshake { intention: Intention, hostname: Seq<char> },
    StatusRequest,
    PingRequest { time: u64 },
    LoginHello { name: Seq<char> },
    OtherPacket,
    ReadFailed,
}

pub enum StageView {
    AwaitHandshake,
    AwaitStatusRequest { target: Seq<char> },
    AwaitPing,
    AwaitLoginStart,
    Closed,
}

pub enum ActionView {
    ReadNext,
    LogConnection,
    SendStatus { target: Seq<char> },
    SendPong { time: u64 },
    TurnAway { user: Seq<char>, reason: Seq<char> },
    Fail { message: Seq<char> },
    PassReadError,
    Ignore,
}

impl View for Event {
    type V = EventView;

    open spec fn view(&self) -> EventView {
        match self {
            Event::Handshake { intention, hostname } => EventView::Handshake {
                intention: *intention,
                hostname: hostname@,
            },
            Event::StatusRequest => EventView::StatusRequest,
            Event::PingRequest { time } => EventView::PingRequest { time: *time },
            Event::LoginHello { name } => EventView::LoginHello { name: name@ },
            Event::OtherPacket => EventView::OtherPacket,
            Event::ReadFailed => EventView::ReadFailed,
        }
    }
}

impl View for Stage {
    type V = StageView;

    open spec fn view(&self) -> StageView {
        match self {
            Stage::AwaitHandshake => StageView::AwaitHandshake,
            Stage::AwaitStatusRequest { target } => StageView::AwaitStatusRequest {
                target: target@,
            },
            Stage::AwaitPing => StageView::AwaitPing,
            Stage::AwaitLoginStart => StageView::AwaitLoginStart,
            Stage::Closed => StageView::Closed,
        }
    }
}

impl View for Action {
    type V = ActionView;

    open spec fn view(&self) -> ActionView {
        match self {
            Action::ReadNext => ActionView::ReadNext,
            Action::LogConnection => ActionView::LogConnection,
            Action::SendStatus { target } => ActionView::SendStatus { target: target@ },
            Action::SendPong { time } => ActionView::SendPong { time: *time },
            Action::TurnAway { user, reason } => ActionView::TurnAway {
                user: user@,
                reason: reason@,
            },
            Action::Fail { message } => ActionView::Fail { message: message@ },
            Action::PassReadError => ActionView::PassReadError,
            Action::Ignore => ActionView::Ignore,
        }
    }
}

/// The reason shown to every player who tries to log in.
pub open spec fn turn_away_reason() -> Seq<char> {
    "Internal server error, please try again later."@
}

/// On a bad packet in `stage`, the error message; a failed read passes its
/// own error on.
pub open spec fn unexpected(message: Seq<char>, event: EventView) -> (StageView, ActionView) {
    match event {
        EventView::ReadFailed => (StageView::Closed, ActionView::PassReadError),
        _ => (StageView::Closed, ActionView::Fail { message }),
    }
}

/// How a conversation moves on: a handshake asking for the status leads to a
/// status request, answered with a status response and then a pong; a
/// handshake asking to log in leads to a login start, answered by turning the
/// player away; anything but a handshake first is reported as a contact that
/// is not a game client.
pub open spec fn next(stage: StageView, event: EventView) -> (StageView, ActionView) {
    match stage {
        StageView::AwaitHandshake => match event {
            EventView::Handshake { intention, hostname } => match intention {
                Intention::Status => (
                    StageView::AwaitStatusRequest { target: hostname },
                    ActionView::ReadNext,
                ),
                Intention::Login => (StageView::AwaitLoginStart, ActionView::ReadNext),
                Intention::Other => (
                    StageView::Closed,
                    ActionView::Fail { message: "[!] unexpected data"@ },
                ),
            },
            _ => (StageView::Closed, ActionView::LogConnection),
        },
        StageView::AwaitStatusRequest { target } => match event {
            EventView::StatusRequest => (StageView::AwaitPing, ActionView::SendStatus { target }),
            _ => unexpected("[!] expected status request"@, event),
        },
        StageView::AwaitPing => match event {
            EventView::PingRequest { time } => (StageView::Closed, ActionView::SendPong { time }),
            _ => unexpected("[!] expected ping request"@, event),
        },
        StageView::AwaitLoginStart => match event {
            EventView::LoginHello { name } => (
                StageView::Closed,
                ActionView::TurnAway { user: name, reason: turn_away_reason() },
            ),
            _ => unexpected("[!] expected login start"@, event),
        },
        StageView::Closed => (StageView::Closed, ActionView::Ignore),
    }
}

/// How many more steps a conversation in `stage` can take at most.
pub open spec fn steps_left(stage: StageView) -> nat {
    match stage {
        StageView::AwaitHandshake => 3,
        StageView::AwaitStatusRequest { .. } => 2,
        StageView::AwaitPing => 1,
        StageView::AwaitLoginStart => 1,
        StageView::Closed => 0,
    }
}

fn unexpected_step(message: &str, event: Event) -> (s: Step)
    ensures
        (s.stage@, s.action@) == unexpected(message@, event@),
{
    match event {
        Event::ReadFailed => Step { stage: Stage::Closed, action: Action::PassReadError },
        _ => Step { stage: Stage::Closed, action: Action::Fail { message: owned(message) } },
    }
}

/// The stage after `event` arrives in `stage`, and what the server does.
pub fn step(stage: Stage, event: Event) -> (s: Step)
    ensures
        (s.stage@, s.action@) == next(stage@, event@),
{
    match stage {
        Stage::AwaitHandshake => match event {
            Event::Handshake { intention, hostname } => match intention {
                Intention::Status => Step {
                    stage: Stage::AwaitStatusRequest { target: hostname },
                    action: Action::ReadNext,
                },
                Intention::Login => Step { stage: Stage::AwaitLoginStart, action: Action::ReadNext },
                Intention::Other => Step {
                    stage: Stage::Closed,
                    action: Action::Fail { message: owned("[!] unexpected data") },
                },
            },
            _ => Step { stage: Stage::Closed, action: Action::LogConnection },
        },
        Stage::AwaitStatusRequest { target } => match event {
            Event::StatusRequest => Step { stage: Stage::AwaitPing, action: Action::SendStatus { target } },
            _ => unexpected_step("[!] expected status request", event),
        },
        Stage::AwaitPing => match event {
            Event::PingRequest { time } => Step { stage: Stage::Closed, action: Action::SendPong { time } },
            _ => unexpected_step("[!] expected ping request", event),
        },
        Stage::AwaitLoginStart => match event {
            Event::LoginHello { name } => Step {
                stage: Stage::Closed,
                action: Action::TurnAway {
                    user: name,
                    reason: owned("Internal server error, please try again later."),
                },
            },
            _ => unexpected_step("[!] expected login start", event),
        },
        Stage::Closed => Step { stage: Stage::Closed, action: Action::Ignore },
    }
}

/// A closed conversation stays closed and does nothing more.
pub proof fn law_closed_is_final(event: EventView)
    ensures
        next(StageView::Closed, event) == (StageView::Closed, ActionView::Ignore),
{
}

/// Every conversation ends: each step out of an open stage brings the end
/// closer, so no conversation takes more than three steps.
pub proof fn law_conversation_ends(stage: StageView, event: EventView)
    requires
        stage != StageView::Closed,
    ensures
        steps_left(next(stage, event).0) < steps_left(stage),
{
}

/// A ping is answered with the time it carried, and the conversation ends.
pub proof fn law_pong_echoes_ping(time: u64)
    ensures
        next(StageView::AwaitPing, EventView::PingRequest { time }) == (
            StageView::Closed,
            ActionView::SendPong { time },
        ),
{
}

/// A connection that does not open with a handshake is reported as a plain
/// contact and closed.
pub proof fn law_no_handshake_is_logged(event: EventView)
    requires
        !(event is Handshake),
    ensures
        next(StageView::AwaitHandshake, event) == (StageView::Closed, ActionView::LogConnection),
{
}

/// The status response is sent for the host name that the handshake named:
/// a handshake asking for the status, then a status request, lead to a
/// report and a response for that host name.
pub proof fn law_status_for_handshake_host(hostname: Seq<char>)
    ensures
        ({
            let first = next(
                StageView::AwaitHandshake,
                EventView::Handshake { intention: Intention::Status, hostname },
            );
            &&& first.1 == ActionView::ReadNext
            &&& next(first.0, EventView::StatusRequest) == (
                StageView::AwaitPing,
                ActionView::SendStatus { target: hostname },
            )
        }),
{
}

/// Every login attempt is reported with the player's name and turned away
/// with the same reason.
pub proof fn law_every_login_turned_away(hostname: Seq<char>, name: Seq<char>)
    ensures
        ({
            let first = next(
                StageView::AwaitHandshake,
                EventView::Handshake { intention: Intention::Login, hostname },
            );
            &&& first == (StageView::AwaitLoginStart, ActionView::ReadNext)
            &&& next(first.0, EventView::LoginHello { name }) == (
                StageView::Closed,
                ActionView::TurnAway { user: name, reason: turn_away_reason() },
            )
        }),
{
}

/// A handshake decides the rest of the conversation: asking for the status
/// or asking to log in both lead on to reading the next packet (the status
/// request, or the login start), and any other intention ends the
/// conversation with an error.
pub proof fn law_handshake_leads_on(hostname: Seq<char>)
    ensures
        next(
            StageView::AwaitHandshake,
            EventView::Handshake { intention: Intention::Status, hostname },
        ) == (StageView::AwaitStatusRequest { target: hostname }, ActionView::ReadNext),
        next(
            StageView::AwaitHandshake,
            EventView::Handshake { intention: Intention::Login, hostname },
        ) == (StageView::AwaitLoginStart, ActionView::ReadNext),
        next(
            StageView::AwaitHandshake,
            EventView::Handshake { intention: Intention::Other, hostname },
        ) == (StageView::Closed, ActionView::Fail { message: "[!] unexpected data"@ }),
{
}

/// Only a conversation that never opened with a handshake is reported as a
/// plain contact: no event in any other stage, and no handshake, calls for it.
pub proof fn law_plain_contact_only_without_handshake(stage: StageView, event: EventView)
    ensures
        next(stage, event).1 == ActionView::LogConnection <==> (stage
            == StageView::AwaitHandshake && !(event is Handshake)),
{
}

/// In the middle of a conversation, a packet that is not the expected one
/// ends it with an error, and a failed read ends it with the read's error.
pub proof fn law_unexpected_packet_fails(event: EventView)
    ensures
        !(event is StatusRequest) ==> next(
            StageView::AwaitStatusRequest { target: Seq::empty() },
            event,
        ).0 == StageView::Closed,
        !(event is PingRequest) ==> next(StageView::AwaitPing, event).0 == StageView::Closed,
        !(event is LoginHello) ==> next(StageView::AwaitLoginStart, event).0 == StageView::Closed,
        event is ReadFailed ==> next(StageView::AwaitPing, event).1 == ActionView::PassReadError,
        event is OtherPacket ==> next(StageView::AwaitPing, event).1 == (ActionView::Fail {
            message: "[!] expected ping request"@,
        }),
{
}

} // verus!
