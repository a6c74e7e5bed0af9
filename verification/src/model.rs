//! The session as a state machine.
//!
//! A session is at some [`StageView`] of an operation. Each event that the
//! caller reports takes it to the next stage and yields the next action:
//! that is [`step`]. The functions here are the mathematics; the types of
//! `ftp` are what runs.

use crate::datetime::DateTime;
use crate::payload::{listing_result, mdtm_result, pasv_result, pwd_result, size_result, Endpoint};
use crate::reply::{
    closes,
    ends_in_line_feed,
    framed,
    is_reply_code,
    unfinished_text,
    FramedView,
    Framing,
};
use crate::status;
use crate::types::ErrorView;
use vstd::prelude::*;

verus! {

/// What a data connection is opened for.
#[derive(Debug, Clone, Copy, PartialEq, Eq, Structural)]
pub enum Transfer {
    /// `RETR`, the connection handed to the caller once it is open.
    Get,
    /// `RETR`, the connection read by a reader of the caller's.
    Retr,
    /// `RETR`, the connection read to its end into memory.
    SimpleRetr,
    /// `LIST` or `NLST`, the connection read to its end as lines of text.
    List,
    /// `STOR`, the connection written from a source of the caller's.
    Put,
}

/// A command and the reply awaited for it, or a reply awaited for its own
/// sake.
pub enum ExchangeView {
    /// The greeting that the server opens the control connection with.
    Greeting,
    /// `USER`; the password is kept for the `PASS` that may follow.
    User(Seq<char>),
    /// `PASS`.
    Pass,
    /// A command that returns nothing, with the codes that accept it.
    Command(Seq<u32>),
    /// A reply read for the caller, with the codes that accept it.
    Reply(Seq<u32>),
    /// `PWD`.
    Pwd,
    /// `MDTM`.
    Mdtm,
    /// `SIZE`.
    Size,
    /// `RNFR`; the new name is kept for the `RNTO` that follows.
    RenameFrom(Seq<char>),
    /// `RNTO`.
    RenameTo,
    /// `AUTH TLS`.
    AuthTls,
    /// `PBSZ 0`.
    Pbsz,
    /// `PROT P`.
    Prot,
    /// `CCC`.
    Ccc,
    /// `PASV`; the command that triggers the transfer is kept.
    Pasv(Transfer, Seq<char>),
    /// The reply to the triggering command, read once the data connection
    /// is open.
    Opening(Transfer),
    /// The reply that confirms a transfer, read once the data connection is
    /// closed; what the transfer returns once it is confirmed is kept.
    Confirm(Transfer, OutcomeView),
}

/// Where a session stands.
pub enum StageView {
    /// No operation is under way.
    Idle,
    /// A command is being written.
    Sending(ExchangeView),
    /// A reply is being read.
    Receiving(ExchangeView, Framing),
    /// The control connection is being secured.
    Securing,
    /// The control connection is being returned to plain text.
    Clearing,
    /// The command that triggers a transfer is being written; the endpoint
    /// of the data connection is known.
    Triggering(Transfer, Endpoint),
    /// The data connection is being opened.
    Connecting(Transfer),
    /// Bytes are moving over the data connection.
    Moving(Transfer),
    /// The data connection is being closed after a transfer.
    Closing(Transfer, OutcomeView),
    /// The data connection is being closed after a failure.
    Aborting(ErrorView),
}

/// A session as contracts see it.
pub struct Session {
    /// The greeting of the server, once it has been read.
    pub welcome: Option<Seq<char>>,
    /// Whether the control connection is encrypted.
    pub secure: bool,
    /// Where the session stands.
    pub stage: StageView,
}

/// What an operation returns.
pub enum OutcomeView {
    Done,
    Reply((u32, Seq<char>)),
    Path(Seq<char>),
    Modified(Option<DateTime>),
    Size(Option<usize>),
    Lines(Seq<Seq<char>>),
    Bytes(Seq<u8>),
    Stream,
}

/// What the session asks of its caller.
pub enum ActionView {
    Send(Seq<char>),
    ReadLine,
    OpenData(Endpoint, bool),
    Move(Transfer),
    CloseData(bool),
    Secure,
    Clear,
    Done(OutcomeView),
    Fail(ErrorView),
}

/// What the caller reports to the session.
pub enum EventView {
    Sent,
    Line(Seq<char>),
    Opened,
    Moved(Seq<u8>),
    Closed,
    Secured,
    Cleared,
    Failed(ErrorView),
}

impl ExchangeView {
    /// Whether the exchange begins with a command. The others are replies
    /// that come unasked or after something else than a command: the
    /// greeting, a reply read for the caller, and the two replies of a
    /// transfer.
    pub open spec fn has_command(self) -> bool {
        !(self is Greeting || self is Reply || self is Opening || self is Confirm)
    }
}

impl Session {
    /// What holds of every session: where a command is being written, it is
    /// the command of an exchange that has one.
    pub open spec fn wf(self) -> bool {
        self.stage matches StageView::Sending(x) ==> x.has_command()
    }

    /// The session at another stage.
    pub open spec fn at(self, stage: StageView) -> Session {
        Session { welcome: self.welcome, secure: self.secure, stage }
    }

    /// The session with no operation under way.
    pub open spec fn idle(self) -> Session {
        self.at(StageView::Idle)
    }
}

/// The codes that accept the reply of an exchange.
pub open spec fn expected_codes(x: ExchangeView) -> Seq<u32> {
    match x {
        ExchangeView::Greeting => seq![status::READY],
        ExchangeView::User(_) => seq![status::LOGGED_IN, status::NEED_PASSWORD],
        ExchangeView::Pass => seq![status::LOGGED_IN],
        ExchangeView::Command(codes) => codes,
        ExchangeView::Reply(codes) => codes,
        ExchangeView::Pwd => seq![status::PATH_CREATED],
        ExchangeView::Mdtm => seq![status::FILE],
        ExchangeView::Size => seq![status::FILE],
        ExchangeView::RenameFrom(_) => seq![status::REQUEST_FILE_PENDING],
        ExchangeView::RenameTo => seq![status::REQUESTED_FILE_ACTION_OK],
        ExchangeView::AuthTls => seq![status::AUTH_OK],
        ExchangeView::Pbsz => seq![status::COMMAND_OK],
        ExchangeView::Prot => seq![status::COMMAND_OK],
        ExchangeView::Ccc => seq![status::COMMAND_OK],
        ExchangeView::Pasv(_, _) => seq![status::PASSIVE_MODE],
        ExchangeView::Opening(t) => if t == Transfer::Put {
            seq![status::ALREADY_OPEN, status::ABOUT_TO_SEND]
        } else {
            seq![status::ABOUT_TO_SEND, status::ALREADY_OPEN]
        },
        ExchangeView::Confirm(_, _) => seq![
            status::CLOSING_DATA_CONNECTION,
            status::REQUESTED_FILE_ACTION_OK,
        ],
    }
}

/// The error for an event that the stage does not await.
pub open spec fn out_of_turn() -> ErrorView {
    ErrorView::Connection("event out of turn"@)
}

/// What a transfer returns once it is confirmed, given the bytes that the
/// data connection was read for: the bytes themselves of a file read into
/// memory, the lines of a listing, and nothing of the other transfers. A
/// listing that is no text has nothing to return: it fails.
pub open spec fn delivered(t: Transfer, bytes: Seq<u8>) -> Result<OutcomeView, ErrorView> {
    match t {
        Transfer::SimpleRetr => Ok(OutcomeView::Bytes(bytes)),
        Transfer::List => match listing_result(bytes) {
            Ok(lines) => Ok(OutcomeView::Lines(lines)),
            Err(e) => Err(e),
        },
        _ => Ok(OutcomeView::Done),
    }
}

/// Where an accepted reply takes the session.
pub open spec fn replied(s: Session, x: ExchangeView, reply: (u32, Seq<char>)) -> (
    Session,
    ActionView,
) {
    let done = (s.idle(), ActionView::Done(OutcomeView::Done));
    match x {
        ExchangeView::Greeting => (
            Session { welcome: Some(reply.1), secure: s.secure, stage: StageView::Idle },
            ActionView::Done(OutcomeView::Done),
        ),
        ExchangeView::User(password) => if reply.0 == status::NEED_PASSWORD {
            (
                s.at(StageView::Sending(ExchangeView::Pass)),
                ActionView::Send("PASS "@ + password + "\r\n"@),
            )
        } else {
            done
        },
        ExchangeView::Pass => done,
        ExchangeView::Command(_) => done,
        ExchangeView::Reply(_) => (s.idle(), ActionView::Done(OutcomeView::Reply(reply))),
        ExchangeView::Pwd => match pwd_result(reply.1) {
            Ok(path) => (s.idle(), ActionView::Done(OutcomeView::Path(path))),
            Err(e) => (s.idle(), ActionView::Fail(e)),
        },
        ExchangeView::Mdtm => match mdtm_result(reply.1) {
            Ok(time) => (s.idle(), ActionView::Done(OutcomeView::Modified(time))),
            Err(e) => (s.idle(), ActionView::Fail(e)),
        },
        ExchangeView::Size => match size_result(reply.1) {
            Ok(size) => (s.idle(), ActionView::Done(OutcomeView::Size(size))),
            Err(e) => (s.idle(), ActionView::Fail(e)),
        },
        ExchangeView::RenameFrom(to_name) => (
            s.at(StageView::Sending(ExchangeView::RenameTo)),
            ActionView::Send("RNTO "@ + to_name + "\r\n"@),
        ),
        ExchangeView::RenameTo => done,
        ExchangeView::AuthTls => (s.at(StageView::Securing), ActionView::Secure),
        ExchangeView::Pbsz => (
            s.at(StageView::Sending(ExchangeView::Prot)),
            ActionView::Send("PROT P\r\n"@),
        ),
        ExchangeView::Prot => done,
        ExchangeView::Ccc => (s.at(StageView::Clearing), ActionView::Clear),
        ExchangeView::Pasv(t, command) => match pasv_result(reply.1) {
            Ok(endpoint) => (s.at(StageView::Triggering(t, endpoint)), ActionView::Send(command)),
            Err(e) => (s.idle(), ActionView::Fail(e)),
        },
        ExchangeView::Opening(t) => if t == Transfer::Get {
            (s.idle(), ActionView::Done(OutcomeView::Stream))
        } else {
            (s.at(StageView::Moving(t)), ActionView::Move(t))
        },
        ExchangeView::Confirm(_, outcome) => (s.idle(), ActionView::Done(outcome)),
    }
}

/// Where a reply that could not be had takes the session: the operation
/// fails, once the data connection is closed if one is open.
pub open spec fn unreplied(s: Session, x: ExchangeView, e: ErrorView) -> (Session, ActionView) {
    match x {
        ExchangeView::Opening(_) => (s.at(StageView::Aborting(e)), ActionView::CloseData(false)),
        _ => (s.idle(), ActionView::Fail(e)),
    }
}

/// The operation fails at once.
pub open spec fn failed(s: Session, e: ErrorView) -> (Session, ActionView) {
    (s.idle(), ActionView::Fail(e))
}

/// Where an event takes the session, and what the session asks for next.
pub open spec fn step(s: Session, e: EventView) -> (Session, ActionView) {
    match s.stage {
        StageView::Idle => failed(s, out_of_turn()),
        StageView::Sending(x) => match e {
            EventView::Sent => (s.at(StageView::Receiving(x, Framing::First)), ActionView::ReadLine),
            EventView::Failed(err) => failed(s, err),
            _ => failed(s, out_of_turn()),
        },
        StageView::Receiving(x, framing) => match e {
            EventView::Line(line) => match framed(framing, line, expected_codes(x)) {
                FramedView::More(next) => (
                    s.at(StageView::Receiving(x, next)),
                    ActionView::ReadLine,
                ),
                FramedView::Reply(reply) => replied(s, x, reply),
                FramedView::Malformed(err) => unreplied(s, x, err),
            },
            EventView::Failed(err) => unreplied(s, x, err),
            _ => unreplied(s, x, out_of_turn()),
        },
        StageView::Securing => match e {
            EventView::Secured => (
                Session {
                    welcome: s.welcome,
                    secure: true,
                    stage: StageView::Sending(ExchangeView::Pbsz),
                },
                ActionView::Send("PBSZ 0\r\n"@),
            ),
            EventView::Failed(err) => failed(s, err),
            _ => failed(s, out_of_turn()),
        },
        StageView::Clearing => match e {
            EventView::Cleared => (
                Session { welcome: s.welcome, secure: false, stage: StageView::Idle },
                ActionView::Done(OutcomeView::Done),
            ),
            EventView::Failed(err) => failed(s, err),
            _ => failed(s, out_of_turn()),
        },
        StageView::Triggering(t, endpoint) => match e {
            EventView::Sent => (
                s.at(StageView::Connecting(t)),
                ActionView::OpenData(endpoint, s.secure),
            ),
            EventView::Failed(err) => failed(s, err),
            _ => failed(s, out_of_turn()),
        },
        StageView::Connecting(t) => match e {
            EventView::Opened => (
                s.at(StageView::Receiving(ExchangeView::Opening(t), Framing::First)),
                ActionView::ReadLine,
            ),
            EventView::Failed(err) => failed(s, err),
            _ => failed(s, out_of_turn()),
        },
        StageView::Moving(t) => match e {
            EventView::Moved(bytes) => match delivered(t, bytes) {
                Ok(outcome) => (
                    s.at(StageView::Closing(t, outcome)),
                    ActionView::CloseData(s.secure && t == Transfer::Put),
                ),
                Err(err) => (s.at(StageView::Aborting(err)), ActionView::CloseData(false)),
            },
            EventView::Failed(err) => (
                s.at(StageView::Aborting(err)),
                ActionView::CloseData(false),
            ),
            _ => (s.at(StageView::Aborting(out_of_turn())), ActionView::CloseData(false)),
        },
        StageView::Closing(t, outcome) => match e {
            EventView::Closed => (
                s.at(StageView::Receiving(ExchangeView::Confirm(t, outcome), Framing::First)),
                ActionView::ReadLine,
            ),
            EventView::Failed(err) => failed(s, err),
            _ => failed(s, out_of_turn()),
        },
        StageView::Aborting(err) => failed(s, err),
    }
}

/// The reply to `USER` decides whether a password is sent. With 230 the
/// login is over and has succeeded, and no `PASS` is written; with 331
/// `PASS` is written with the password. No other code is accepted.
pub proof fn user_reply_decides(s: Session, password: Seq<char>, framing: Framing, line: Seq<char>)
    requires
        s.stage == StageView::Receiving(ExchangeView::User(password), framing),
        framed(framing, line, expected_codes(ExchangeView::User(password))) is Reply,
    ensures
        ({
            let reply = framed(framing, line, expected_codes(ExchangeView::User(password)))->Reply_0;
            let next = step(s, EventView::Line(line));
            &&& reply.0 == status::LOGGED_IN || reply.0 == status::NEED_PASSWORD
            &&& reply.0 == status::LOGGED_IN ==> next == (
                s.idle(),
                ActionView::Done(OutcomeView::Done),
            )
            &&& reply.0 == status::NEED_PASSWORD ==> next == (
                s.at(StageView::Sending(ExchangeView::Pass)),
                ActionView::Send("PASS "@ + password + "\r\n"@),
            )
        }),
{
    let expected = expected_codes(ExchangeView::User(password));
    assert(forall|code: u32|
        expected.contains(code) ==> code == status::LOGGED_IN || code == status::NEED_PASSWORD);
}

/// After `PASS` the login succeeds exactly where the reply bears 230: any
/// other reply fails it, with the error of the reply.
pub proof fn pass_reply_decides(s: Session, framing: Framing, line: Seq<char>)
    requires
        s.stage == StageView::Receiving(ExchangeView::Pass, framing),
    ensures
        match framed(framing, line, expected_codes(ExchangeView::Pass)) {
            FramedView::More(next) => step(s, EventView::Line(line)) == (
                s.at(StageView::Receiving(ExchangeView::Pass, next)),
                ActionView::ReadLine,
            ),
            FramedView::Reply(reply) => reply.0 == status::LOGGED_IN && step(
                s,
                EventView::Line(line),
            ) == (s.idle(), ActionView::Done(OutcomeView::Done)),
            FramedView::Malformed(e) => step(s, EventView::Line(line)) == (
                s.idle(),
                ActionView::Fail(e),
            ),
        },
{
    let expected = expected_codes(ExchangeView::Pass);
    assert(forall|code: u32| expected.contains(code) ==> code == status::LOGGED_IN);
}

/// No event takes a session out of the sessions that are well formed.
pub proof fn step_keeps_well_formed(s: Session, e: EventView)
    requires
        s.wf(),
    ensures
        step(s, e).0.wf(),
{
    match s.stage {
        StageView::Receiving(x, framing) => {
            if let EventView::Line(line) = e {
                if let FramedView::Reply(reply) = framed(framing, line, expected_codes(x)) {
                    assert(replied(s, x, reply).0.wf());
                }
            }
        },
        _ => {},
    }
}

/// A session does not wait on a control connection that has ended. Where a
/// reply is open and the line reported does not end in a line feed, as the
/// last of a stream does not, no further line is asked for; unless the line
/// closes the reply, the exchange fails with a connection error, after the
/// data connection is closed if one is open. The empty line fails every
/// exchange, in the first place too.
pub proof fn ended_stream_is_not_read_again(
    s: Session,
    x: ExchangeView,
    framing: Framing,
    line: Seq<char>,
)
    requires
        s.stage == StageView::Receiving(x, framing),
        !ends_in_line_feed(line),
        framing is Continued || line.len() == 0,
    ensures
        !(step(s, EventView::Line(line)).1 is ReadLine),
        framing matches Framing::Continued(code) && !closes(line, code) ==> step(
            s,
            EventView::Line(line),
        ) == unreplied(s, x, ErrorView::Connection(unfinished_text())),
        line.len() == 0 ==> step(s, EventView::Line(line)).1 is Fail || step(
            s,
            EventView::Line(line),
        ).1 is CloseData,
{
    match framed(framing, line, expected_codes(x)) {
        FramedView::Reply(reply) => {
            assert(!(replied(s, x, reply).1 is ReadLine));
        },
        _ => {},
    }
}

/// A reply that is read for the caller bears a code from 100 to 559 that is
/// one of those the caller expected.
pub proof fn reply_for_caller_is_bounded(
    s: Session,
    codes: Seq<u32>,
    framing: Framing,
    line: Seq<char>,
)
    requires
        s.stage == StageView::Receiving(ExchangeView::Reply(codes), framing),
    ensures
        step(s, EventView::Line(line)).1 matches ActionView::Done(OutcomeView::Reply(reply))
            ==> is_reply_code(reply.0) && codes.contains(reply.0),
{
}

/// The reply that confirms a transfer is read only after the data
/// connection has been closed: the session begins to read it on the report
/// that the connection is closed, and on nothing else. And the connection is
/// closed after a transfer only on the report that the bytes have moved, and
/// only where they give what the transfer returns.
pub proof fn confirmation_follows_close(s: Session, e: EventView)
    requires
        s.wf(),
    ensures
        step(s, e).0.stage matches StageView::Receiving(
            ExchangeView::Confirm(t, outcome),
            Framing::First,
        ) ==> s.stage == StageView::Closing(t, outcome) && e == EventView::Closed && step(s, e).1
            == ActionView::ReadLine,
        step(s, e).0.stage matches StageView::Closing(t, outcome) ==> s.stage == StageView::Moving(
            t,
        ) && (e matches EventView::Moved(bytes) && delivered(t, bytes) == Ok::<
            OutcomeView,
            ErrorView,
        >(outcome)) && step(s, e).1 is CloseData,
{
    match s.stage {
        StageView::Receiving(x, framing) => {
            if let EventView::Line(line) = e {
                match framed(framing, line, expected_codes(x)) {
                    FramedView::More(next) => {
                        assert(next is Continued);
                    },
                    FramedView::Reply(reply) => {
                        assert(!(replied(s, x, reply).0.stage is Receiving));
                        assert(!(replied(s, x, reply).0.stage is Closing));
                    },
                    FramedView::Malformed(_) => {},
                }
            }
        },
        _ => {},
    }
}

/// While bytes move over the data connection, and while it is being closed,
/// nothing is read from the control connection and nothing is written to it.
pub proof fn control_connection_rests_during_transfer(s: Session, e: EventView)
    requires
        s.stage is Moving,
    ensures
        step(s, e).1 is CloseData,
        step(s, e).0.stage is Closing || step(s, e).0.stage is Aborting,
{
}

/// A listing that is no text is a transfer that has failed: the data
/// connection is closed, then the operation fails with the error of the
/// listing, whatever the close reports. The confirmation is not read.
pub proof fn unreadable_listing_is_not_confirmed(
    s: Session,
    bytes: Seq<u8>,
    err: ErrorView,
    closing: EventView,
)
    requires
        s.stage == StageView::Moving(Transfer::List),
        listing_result(bytes) == Err::<Seq<Seq<char>>, ErrorView>(err),
    ensures
        step(s, EventView::Moved(bytes)) == (
            s.at(StageView::Aborting(err)),
            ActionView::CloseData(false),
        ),
        step(step(s, EventView::Moved(bytes)).0, closing) == (s.idle(), ActionView::Fail(err)),
{
}

/// A transfer that fails leaves without its confirmation: the data
/// connection is closed, then the operation fails with the error of the
/// transfer, whatever the close reports.
pub proof fn failed_transfer_is_not_confirmed(
    s: Session,
    t: Transfer,
    err: ErrorView,
    closing: EventView,
)
    requires
        s.stage == StageView::Moving(t),
    ensures
        step(s, EventView::Failed(err)) == (
            s.at(StageView::Aborting(err)),
            ActionView::CloseData(false),
        ),
        step(step(s, EventView::Failed(err)).0, closing) == (s.idle(), ActionView::Fail(err)),
{
}

/// A data connection is opened only once the command that triggers the
/// transfer has been written, to the endpoint that the `PASV` reply gave, and
/// secured exactly where the control connection is.
pub proof fn data_connection_follows_command(s: Session, e: EventView)
    requires
        step(s, e).1 is OpenData,
    ensures
        e == EventView::Sent,
        s.stage matches StageView::Triggering(t, endpoint) && step(s, e) == (
            s.at(StageView::Connecting(t)),
            ActionView::OpenData(endpoint, s.secure),
        ),
{
    match s.stage {
        StageView::Receiving(x, framing) => {
            if let EventView::Line(line) = e {
                if let FramedView::Reply(reply) = framed(framing, line, expected_codes(x)) {
                    assert(!(replied(s, x, reply).1 is OpenData));
                }
            }
        },
        _ => {},
    }
}

/// The control connection changes between plain text and encryption only
/// when a handshake is reported done or the security layer is reported taken
/// off; the greeting, once read, stays.
pub proof fn security_changes_by_handshake_only(s: Session, e: EventView)
    ensures
        step(s, e).0.secure != s.secure ==> (s.stage is Securing && e is Secured && step(
            s,
            e,
        ).0.secure) || (s.stage is Clearing && e is Cleared && !step(s, e).0.secure),
        step(s, e).0.welcome != s.welcome ==> s.stage matches StageView::Receiving(
            ExchangeView::Greeting,
            _,
        ),
{
    match s.stage {
        StageView::Receiving(x, framing) => {
            if let EventView::Line(line) = e {
                if let FramedView::Reply(reply) = framed(framing, line, expected_codes(x)) {
                    assert(replied(s, x, reply).0.secure == s.secure);
                }
            }
        },
        _ => {},
    }
}

} // verus!
