//! The session: what runs of the state machine of `model`.

use crate::datetime::DateTime;
use crate::model::{
    expected_codes,
    replied,
    step,
    step_keeps_well_formed,
    unreplied,
    ActionView,
    EventView,
    ExchangeView,
    OutcomeView,
    Session,
    StageView,
    Transfer,
};
use crate::payload::{parse_listing, parse_mdtm, parse_pasv, parse_pwd, parse_size, Endpoint};
use crate::reply::{frame_line, Framed, Framing};
use crate::status;
use crate::types::{FileType, FtpError, Line};
use vstd::prelude::*;
use vstd::slice::slice_to_vec;
use vstd::string::StringExecFns;

verus! {

/// What an operation returns when it succeeds.
#[derive(Debug)]
pub enum Outcome {
    /// Nothing but the success.
    Done,
    /// The reply that was read.
    Reply(Line),
    /// The working directory.
    Path(String),
    /// The modification time, if the reply gave one.
    Modified(Option<DateTime>),
    /// The size in bytes, if the reply gave one.
    Size(Option<usize>),
    /// The lines of a listing.
    Lines(Vec<String>),
    /// The bytes of a file.
    Bytes(Vec<u8>),
    /// The data connection, open and the caller's to read and to close.
    Stream,
}

impl View for Outcome {
    type V = OutcomeView;

    open spec fn view(&self) -> OutcomeView {
        match *self {
            Outcome::Done => OutcomeView::Done,
            Outcome::Reply(line) => OutcomeView::Reply(line@),
            Outcome::Path(path) => OutcomeView::Path(path@),
            Outcome::Modified(time) => OutcomeView::Modified(time),
            Outcome::Size(size) => OutcomeView::Size(size),
            Outcome::Lines(lines) => OutcomeView::Lines(lines.deep_view()),
            Outcome::Bytes(bytes) => OutcomeView::Bytes(bytes@),
            Outcome::Stream => OutcomeView::Stream,
        }
    }
}

/// What the session asks of its caller. The caller does it and reports the
/// [`Event`] named with each action; any failure it reports as
/// [`Event::Failed`].
#[derive(Debug)]
pub enum Action {
    /// Write the text to the control connection, then report
    /// [`Event::Sent`].
    Send(String),
    /// Read one line from the control connection, through its line feed,
    /// then report it as [`Event::Line`]. At the end of the stream report
    /// what was left to read, the empty line where nothing was: the session
    /// then fails the reply. A read that fails is [`Event::Failed`].
    ReadLine,
    /// Open the data connection to the endpoint and, where the flag is set,
    /// secure it as the control connection is secured, before a byte goes
    /// over it; then report [`Event::Opened`].
    OpenData(Endpoint, bool),
    /// Use the data connection as the transfer asks, then report
    /// [`Event::Moved`]: with the bytes read to the end of the connection for
    /// [`Transfer::SimpleRetr`] and [`Transfer::List`]; when the caller's
    /// reader is through for [`Transfer::Retr`]; when the caller's source is
    /// exhausted for [`Transfer::Put`].
    Move(Transfer),
    /// Close the data connection, after the shutdown handshake of the
    /// security layer where the flag is set; then report [`Event::Closed`].
    CloseData(bool),
    /// Secure the control connection by a handshake, then report
    /// [`Event::Secured`].
    Secure,
    /// Take the security layer off the control connection, then report
    /// [`Event::Cleared`].
    Clear,
    /// The operation is over and has succeeded.
    Done(Outcome),
    /// The operation is over and has failed.
    Fail(FtpError),
}

impl View for Action {
    type V = ActionView;

    open spec fn view(&self) -> ActionView {
        match *self {
            Action::Send(text) => ActionView::Send(text@),
            Action::ReadLine => ActionView::ReadLine,
            Action::OpenData(endpoint, secure) => ActionView::OpenData(endpoint, secure),
            Action::Move(t) => ActionView::Move(t),
            Action::CloseData(shutdown) => ActionView::CloseData(shutdown),
            Action::Secure => ActionView::Secure,
            Action::Clear => ActionView::Clear,
            Action::Done(outcome) => ActionView::Done(outcome@),
            Action::Fail(e) => ActionView::Fail(e@),
        }
    }
}

/// What the caller reports to the session.
#[derive(Debug)]
pub enum Event {
    /// The text was written to the control connection.
    Sent,
    /// A line was read from the control connection.
    Line(String),
    /// The data connection is open.
    Opened,
    /// The transfer is through; the bytes read, where the action asked for
    /// them.
    Moved(Vec<u8>),
    /// The data connection is closed.
    Closed,
    /// The control connection is encrypted.
    Secured,
    /// The control connection is in plain text again.
    Cleared,
    /// The action failed.
    Failed(FtpError),
}

impl View for Event {
    type V = EventView;

    open spec fn view(&self) -> EventView {
        match *self {
            Event::Sent => EventView::Sent,
            Event::Line(line) => EventView::Line(line@),
            Event::Opened => EventView::Opened,
            Event::Moved(bytes) => EventView::Moved(bytes@),
            Event::Closed => EventView::Closed,
            Event::Secured => EventView::Secured,
            Event::Cleared => EventView::Cleared,
            Event::Failed(e) => EventView::Failed(e@),
        }
    }
}

/// A command and the reply awaited for it: see [`ExchangeView`].
#[derive(Debug)]
pub enum Exchange {
    Greeting,
    User(String),
    Pass,
    Command(Vec<u32>),
    Reply(Vec<u32>),
    Pwd,
    Mdtm,
    Size,
    RenameFrom(String),
    RenameTo,
    AuthTls,
    Pbsz,
    Prot,
    Ccc,
    Pasv(Transfer, String),
    Opening(Transfer),
    Confirm(Transfer, Outcome),
}

impl View for Exchange {
    type V = ExchangeView;

    open spec fn view(&self) -> ExchangeView {
        match *self {
            Exchange::Greeting => ExchangeView::Greeting,
            Exchange::User(password) => ExchangeView::User(password@),
            Exchange::Pass => ExchangeView::Pass,
            Exchange::Command(codes) => ExchangeView::Command(codes@),
            Exchange::Reply(codes) => ExchangeView::Reply(codes@),
            Exchange::Pwd => ExchangeView::Pwd,
            Exchange::Mdtm => ExchangeView::Mdtm,
            Exchange::Size => ExchangeView::Size,
            Exchange::RenameFrom(to_name) => ExchangeView::RenameFrom(to_name@),
            Exchange::RenameTo => ExchangeView::RenameTo,
            Exchange::AuthTls => ExchangeView::AuthTls,
            Exchange::Pbsz => ExchangeView::Pbsz,
            Exchange::Prot => ExchangeView::Prot,
            Exchange::Ccc => ExchangeView::Ccc,
            Exchange::Pasv(t, command) => ExchangeView::Pasv(t, command@),
            Exchange::Opening(t) => ExchangeView::Opening(t),
            Exchange::Confirm(t, outcome) => ExchangeView::Confirm(t, outcome@),
        }
    }
}

/// Where a session stands: see [`StageView`].
#[derive(Debug)]
pub enum Stage {
    Idle,
    Sending(Exchange),
    Receiving(Exchange, Framing),
    Securing,
    Clearing,
    Triggering(Transfer, Endpoint),
    Connecting(Transfer),
    Moving(Transfer),
    Closing(Transfer, Outcome),
    Aborting(FtpError),
}

impl View for Stage {
    type V = StageView;

    open spec fn view(&self) -> StageView {
        match *self {
            Stage::Idle => StageView::Idle,
            Stage::Sending(x) => StageView::Sending(x@),
            Stage::Receiving(x, framing) => StageView::Receiving(x@, framing),
            Stage::Securing => StageView::Securing,
            Stage::Clearing => StageView::Clearing,
            Stage::Triggering(t, endpoint) => StageView::Triggering(t, endpoint),
            Stage::Connecting(t) => StageView::Connecting(t),
            Stage::Moving(t) => StageView::Moving(t),
            Stage::Closing(t, outcome) => StageView::Closing(t, outcome@),
            Stage::Aborting(e) => StageView::Aborting(e@),
        }
    }
}

/// One session with an FTP server, as far as it is a matter of protocol: the
/// control connection's state, without the connection.
///
/// An operation begins with the method that bears its name, which returns
/// the first [`Action`]. The caller performs each action and hands what came
/// of it to [`FtpStream::advance`], until the action is [`Action::Done`] or
/// [`Action::Fail`]. To begin an operation while another is under way
/// abandons the other.
#[derive(Debug)]
pub struct FtpStream {
    welcome_msg: Option<String>,
    secure: bool,
    stage: Stage,
}

impl View for FtpStream {
    type V = Session;

    closed spec fn view(&self) -> Session {
        Session {
            welcome: match self.welcome_msg {
                Some(text) => Some(text@),
                None => None,
            },
            secure: self.secure,
            stage: self.stage@,
        }
    }
}

/// The codes that accept the reply of an exchange.
fn codes_of(x: &Exchange) -> (codes: Vec<u32>)
    ensures
        codes@ == expected_codes(x@),
{
    let codes = match x {
        Exchange::Greeting => vec![status::READY],
        Exchange::User(_) => vec![status::LOGGED_IN, status::NEED_PASSWORD],
        Exchange::Pass => vec![status::LOGGED_IN],
        Exchange::Command(codes) => codes.clone(),
        Exchange::Reply(codes) => codes.clone(),
        Exchange::Pwd => vec![status::PATH_CREATED],
        Exchange::Mdtm => vec![status::FILE],
        Exchange::Size => vec![status::FILE],
        Exchange::RenameFrom(_) => vec![status::REQUEST_FILE_PENDING],
        Exchange::RenameTo => vec![status::REQUESTED_FILE_ACTION_OK],
        Exchange::AuthTls => vec![status::AUTH_OK],
        Exchange::Pbsz => vec![status::COMMAND_OK],
        Exchange::Prot => vec![status::COMMAND_OK],
        Exchange::Ccc => vec![status::COMMAND_OK],
        Exchange::Pasv(_, _) => vec![status::PASSIVE_MODE],
        Exchange::Opening(t) => match t {
            Transfer::Put => vec![status::ALREADY_OPEN, status::ABOUT_TO_SEND],
            _ => vec![status::ABOUT_TO_SEND, status::ALREADY_OPEN],
        },
        Exchange::Confirm(_, _) => vec![
            status::CLOSING_DATA_CONNECTION,
            status::REQUESTED_FILE_ACTION_OK,
        ],
    };
    assert(codes@ =~= expected_codes(x@));
    codes
}

/// The command for a listing: the verb alone, or the verb, a space and the
/// path.
pub open spec fn listing_command(verb: Seq<char>, pathname: Option<&str>) -> Seq<char> {
    match pathname {
        Some(path) => verb + " "@ + path@ + "\r\n"@,
        None => verb + "\r\n"@,
    }
}

/// A command with one argument: the verb, the argument, and the end of the
/// line.
fn command(verb: &str, argument: &str) -> (text: String)
    ensures
        text@ == verb@ + argument@ + "\r\n"@,
{
    String::from_str(verb).concat(argument).concat("\r\n")
}

impl FtpStream {
    fn with(welcome_msg: Option<String>, secure: bool, stage: Stage) -> (s: FtpStream)
        ensures
            s@ == (Session {
                welcome: match welcome_msg {
                    Some(text) => Some(text@),
                    None => None,
                },
                secure,
                stage: stage@,
            }),
    {
        FtpStream { welcome_msg, secure, stage }
    }

    /// Where an accepted reply takes the session.
    fn replied(self, x: Exchange, reply: Line) -> (r: (FtpStream, Action))
        ensures
            (r.0@, r.1@) == replied(self@, x@, reply@),
    {
        let FtpStream { welcome_msg, secure, stage: _ } = self;
        let Line(code, text) = reply;
        match x {
            Exchange::Greeting => (
                FtpStream::with(Some(text), secure, Stage::Idle),
                Action::Done(Outcome::Done),
            ),
            Exchange::User(password) => {
                if code == status::NEED_PASSWORD {
                    (
                        FtpStream::with(welcome_msg, secure, Stage::Sending(Exchange::Pass)),
                        Action::Send(command("PASS ", password.as_str())),
                    )
                } else {
                    (FtpStream::with(welcome_msg, secure, Stage::Idle), Action::Done(Outcome::Done))
                }
            },
            Exchange::Pass | Exchange::Command(_) | Exchange::RenameTo | Exchange::Prot => (
                FtpStream::with(welcome_msg, secure, Stage::Idle),
                Action::Done(Outcome::Done),
            ),
            Exchange::Reply(_) => (
                FtpStream::with(welcome_msg, secure, Stage::Idle),
                Action::Done(Outcome::Reply(Line(code, text))),
            ),
            Exchange::Pwd => {
                let action = match parse_pwd(text.as_str()) {
                    Ok(path) => Action::Done(Outcome::Path(path)),
                    Err(e) => Action::Fail(e),
                };
                (FtpStream::with(welcome_msg, secure, Stage::Idle), action)
            },
            Exchange::Mdtm => {
                let action = match parse_mdtm(text.as_str()) {
                    Ok(time) => Action::Done(Outcome::Modified(time)),
                    Err(e) => Action::Fail(e),
                };
                (FtpStream::with(welcome_msg, secure, Stage::Idle), action)
            },
            Exchange::Size => {
                let action = match parse_size(text.as_str()) {
                    Ok(size) => Action::Done(Outcome::Size(size)),
                    Err(e) => Action::Fail(e),
                };
                (FtpStream::with(welcome_msg, secure, Stage::Idle), action)
            },
            Exchange::RenameFrom(to_name) => (
                FtpStream::with(welcome_msg, secure, Stage::Sending(Exchange::RenameTo)),
                Action::Send(command("RNTO ", to_name.as_str())),
            ),
            Exchange::AuthTls => (
                FtpStream::with(welcome_msg, secure, Stage::Securing),
                Action::Secure,
            ),
            Exchange::Pbsz => (
                FtpStream::with(welcome_msg, secure, Stage::Sending(Exchange::Prot)),
                Action::Send(String::from_str("PROT P\r\n")),
            ),
            Exchange::Ccc => (
                FtpStream::with(welcome_msg, secure, Stage::Clearing),
                Action::Clear,
            ),
            Exchange::Pasv(t, command) => match parse_pasv(text.as_str()) {
                Ok(endpoint) => (
                    FtpStream::with(welcome_msg, secure, Stage::Triggering(t, endpoint)),
                    Action::Send(command),
                ),
                Err(e) => (FtpStream::with(welcome_msg, secure, Stage::Idle), Action::Fail(e)),
            },
            Exchange::Opening(t) => match t {
                Transfer::Get => (
                    FtpStream::with(welcome_msg, secure, Stage::Idle),
                    Action::Done(Outcome::Stream),
                ),
                _ => (FtpStream::with(welcome_msg, secure, Stage::Moving(t)), Action::Move(t)),
            },
            Exchange::Confirm(_, outcome) => (
                FtpStream::with(welcome_msg, secure, Stage::Idle),
                Action::Done(outcome),
            ),
        }
    }

    /// Where a reply that could not be had takes the session.
    fn unreplied(self, x: Exchange, e: FtpError) -> (r: (FtpStream, Action))
        ensures
            (r.0@, r.1@) == unreplied(self@, x@, e@),
    {
        let FtpStream { welcome_msg, secure, stage: _ } = self;
        match x {
            Exchange::Opening(_) => (
                FtpStream::with(welcome_msg, secure, Stage::Aborting(e)),
                Action::CloseData(false),
            ),
            _ => (FtpStream::with(welcome_msg, secure, Stage::Idle), Action::Fail(e)),
        }
    }

    /// The error for an event that the stage does not await.
    fn out_of_turn() -> (e: FtpError)
        ensures
            e@ == crate::model::out_of_turn(),
    {
        FtpError::ConnectionError(String::from_str("event out of turn"))
    }

    /// The operation fails at once, with `event`'s error if it reports one.
    fn failed(self, event: Event) -> (r: (FtpStream, Action))
        ensures
            r.0@ == self@.idle(),
            r.1@ == ActionView::Fail(
                match event@ {
                    EventView::Failed(e) => e,
                    _ => crate::model::out_of_turn(),
                },
            ),
    {
        let FtpStream { welcome_msg, secure, stage: _ } = self;
        let e = match event {
            Event::Failed(e) => e,
            _ => FtpStream::out_of_turn(),
        };
        (FtpStream::with(welcome_msg, secure, Stage::Idle), Action::Fail(e))
    }

    /// Where an event takes the session, and what the session asks for next.
    fn stepped(self, event: Event) -> (r: (FtpStream, Action))
        ensures
            (r.0@, r.1@) == step(self@, event@),
    {
        let FtpStream { welcome_msg, secure, stage } = self;
        match stage {
            Stage::Idle => FtpStream::with(welcome_msg, secure, Stage::Idle).failed(Event::Closed),
            Stage::Sending(x) => match event {
                Event::Sent => (
                    FtpStream::with(welcome_msg, secure, Stage::Receiving(x, Framing::First)),
                    Action::ReadLine,
                ),
                other => FtpStream::with(welcome_msg, secure, Stage::Idle).failed(other),
            },
            Stage::Receiving(x, framing) => {
                let session = FtpStream::with(welcome_msg, secure, Stage::Idle);
                match event {
                    Event::Line(line) => {
                        let codes = codes_of(&x);
                        match frame_line(framing, line.as_str(), codes.as_slice()) {
                            Framed::More(next) => {
                                let FtpStream { welcome_msg, secure, stage: _ } = session;
                                (
                                    FtpStream::with(welcome_msg, secure, Stage::Receiving(x, next)),
                                    Action::ReadLine,
                                )
                            },
                            Framed::Reply(reply) => session.replied(x, reply),
                            Framed::Malformed(e) => session.unreplied(x, e),
                        }
                    },
                    Event::Failed(e) => session.unreplied(x, e),
                    _ => session.unreplied(x, FtpStream::out_of_turn()),
                }
            },
            Stage::Securing => match event {
                Event::Secured => (
                    FtpStream::with(welcome_msg, true, Stage::Sending(Exchange::Pbsz)),
                    Action::Send(String::from_str("PBSZ 0\r\n")),
                ),
                other => FtpStream::with(welcome_msg, secure, Stage::Idle).failed(other),
            },
            Stage::Clearing => match event {
                Event::Cleared => (
                    FtpStream::with(welcome_msg, false, Stage::Idle),
                    Action::Done(Outcome::Done),
                ),
                other => FtpStream::with(welcome_msg, secure, Stage::Idle).failed(other),
            },
            Stage::Triggering(t, endpoint) => match event {
                Event::Sent => (
                    FtpStream::with(welcome_msg, secure, Stage::Connecting(t)),
                    Action::OpenData(endpoint, secure),
                ),
                other => FtpStream::with(welcome_msg, secure, Stage::Idle).failed(other),
            },
            Stage::Connecting(t) => match event {
                Event::Opened => (
                    FtpStream::with(
                        welcome_msg,
                        secure,
                        Stage::Receiving(Exchange::Opening(t), Framing::First),
                    ),
                    Action::ReadLine,
                ),
                other => FtpStream::with(welcome_msg, secure, Stage::Idle).failed(other),
            },
            Stage::Moving(t) => match event {
                Event::Moved(bytes) => {
                    let outcome = match t {
                        Transfer::SimpleRetr => Ok(Outcome::Bytes(bytes)),
                        Transfer::List => match parse_listing(bytes) {
                            Ok(lines) => Ok(Outcome::Lines(lines)),
                            Err(e) => Err(e),
                        },
                        _ => Ok(Outcome::Done),
                    };
                    match outcome {
                        Ok(outcome) => {
                            let shutdown = secure && matches!(t, Transfer::Put);
                            (
                                FtpStream::with(welcome_msg, secure, Stage::Closing(t, outcome)),
                                Action::CloseData(shutdown),
                            )
                        },
                        Err(e) => (
                            FtpStream::with(welcome_msg, secure, Stage::Aborting(e)),
                            Action::CloseData(false),
                        ),
                    }
                },
                Event::Failed(e) => (
                    FtpStream::with(welcome_msg, secure, Stage::Aborting(e)),
                    Action::CloseData(false),
                ),
                _ => (
                    FtpStream::with(
                        welcome_msg,
                        secure,
                        Stage::Aborting(FtpStream::out_of_turn()),
                    ),
                    Action::CloseData(false),
                ),
            },
            Stage::Closing(t, outcome) => match event {
                Event::Closed => (
                    FtpStream::with(
                        welcome_msg,
                        secure,
                        Stage::Receiving(Exchange::Confirm(t, outcome), Framing::First),
                    ),
                    Action::ReadLine,
                ),
                other => FtpStream::with(welcome_msg, secure, Stage::Idle).failed(other),
            },
            Stage::Aborting(e) => (
                FtpStream::with(welcome_msg, secure, Stage::Idle),
                Action::Fail(e),
            ),
        }
    }

    /// A session on a control connection that has just been opened: the
    /// server's greeting is awaited, and kept as the welcome message once it
    /// has come with code 220.
    pub fn connect() -> (r: (FtpStream, Action))
        ensures
            r.0@ == (Session {
                welcome: None,
                secure: false,
                stage: StageView::Receiving(ExchangeView::Greeting, Framing::First),
            }),
            r.1@ == ActionView::ReadLine,
    {
        (
            FtpStream {
                welcome_msg: None,
                secure: false,
                stage: Stage::Receiving(Exchange::Greeting, Framing::First),
            },
            Action::ReadLine,
        )
    }

    /// Begins the switch to an encrypted control connection: `AUTH TLS`,
    /// accepted with 234; the handshake; then `PBSZ 0` and `PROT P`, each
    /// accepted with 200. The session is secure from the handshake on.
    pub fn into_secure(self) -> (r: (FtpStream, Action))
        ensures
            r.0@ == self@.at(StageView::Sending(ExchangeView::AuthTls)),
            r.1@ == ActionView::Send("AUTH TLS\r\n"@),
    {
        let FtpStream { welcome_msg, secure, stage: _ } = self;
        (
            FtpStream::with(welcome_msg, secure, Stage::Sending(Exchange::AuthTls)),
            Action::Send(String::from_str("AUTH TLS\r\n")),
        )
    }

    /// Begins the return to a control connection in plain text: `CCC`,
    /// accepted with 200, then the security layer is taken off.
    pub fn into_insecure(self) -> (r: (FtpStream, Action))
        ensures
            r.0@ == self@.at(StageView::Sending(ExchangeView::Ccc)),
            r.1@ == ActionView::Send("CCC\r\n"@),
    {
        let FtpStream { welcome_msg, secure, stage: _ } = self;
        (
            FtpStream::with(welcome_msg, secure, Stage::Sending(Exchange::Ccc)),
            Action::Send(String::from_str("CCC\r\n")),
        )
    }

    /// The greeting of the server, once it has been read.
    pub fn get_welcome_msg(&self) -> (m: Option<&str>)
        ensures
            m is Some <==> self@.welcome is Some,
            m is Some ==> m->0@ == self@.welcome->0,
    {
        match &self.welcome_msg {
            Some(text) => Some(text.as_str()),
            None => None,
        }
    }

    /// Whether the control connection is encrypted, and every data
    /// connection with it.
    pub fn is_secure(&self) -> (b: bool)
        ensures
            b == self@.secure,
    {
        self.secure
    }

    /// Whether no operation is under way.
    pub fn is_idle(&self) -> (b: bool)
        ensures
            b == (self@.stage is Idle),
    {
        matches!(self.stage, Stage::Idle)
    }

    /// Begins an exchange: the command is to be written, its reply read.
    fn send(&mut self, x: Exchange, text: String) -> (action: Action)
        ensures
            final(self)@ == old(self)@.at(StageView::Sending(x@)),
            action@ == ActionView::Send(text@),
    {
        self.stage = Stage::Sending(x);
        Action::Send(text)
    }

    /// Begins an operation on a data connection: `PASV`, accepted with 227,
    /// tells where to connect; then the triggering command is written, and
    /// only then the connection is opened.
    fn data_command(&mut self, transfer: Transfer, cmd: String) -> (action: Action)
        ensures
            final(self)@ == old(self)@.at(
                StageView::Sending(ExchangeView::Pasv(transfer, cmd@)),
            ),
            action@ == ActionView::Send("PASV\r\n"@),
    {
        self.send(Exchange::Pasv(transfer, cmd), String::from_str("PASV\r\n"))
    }

    /// Begins a listing with `verb`, of `pathname` or of the working
    /// directory.
    fn list_command(&mut self, verb: &str, pathname: Option<&str>) -> (action: Action)
        ensures
            final(self)@ == old(self)@.at(
                StageView::Sending(
                    ExchangeView::Pasv(Transfer::List, listing_command(verb@, pathname)),
                ),
            ),
            action@ == ActionView::Send("PASV\r\n"@),
    {
        let cmd = match pathname {
            Some(path) => String::from_str(verb).concat(" ").concat(path).concat("\r\n"),
            None => String::from_str(verb).concat("\r\n"),
        };
        self.data_command(Transfer::List, cmd)
    }

    /// Begins a login: `USER`, accepted with 230 or 331. After 331 the
    /// password is sent with `PASS`, accepted with 230; after 230 it is not.
    pub fn login(&mut self, user: &str, password: &str) -> (action: Action)
        ensures
            final(self)@ == old(self)@.at(StageView::Sending(ExchangeView::User(password@))),
            action@ == ActionView::Send("USER "@ + user@ + "\r\n"@),
    {
        self.send(Exchange::User(String::from_str(password)), command("USER ", user))
    }

    /// Begins a change of the working directory: `CWD`, accepted with 250.
    pub fn cwd(&mut self, path: &str) -> (action: Action)
        ensures
            final(self)@ == old(self)@.at(
                StageView::Sending(ExchangeView::Command(seq![status::REQUESTED_FILE_ACTION_OK])),
            ),
            action@ == ActionView::Send("CWD "@ + path@ + "\r\n"@),
    {
        let codes = vec![status::REQUESTED_FILE_ACTION_OK];
        assert(codes@ =~= seq![status::REQUESTED_FILE_ACTION_OK]);
        self.send(Exchange::Command(codes), command("CWD ", path))
    }

    /// Begins the move to the parent directory: `CDUP`, accepted with 200 or
    /// 250.
    pub fn cdup(&mut self) -> (action: Action)
        ensures
            final(self)@ == old(self)@.at(
                StageView::Sending(
                    ExchangeView::Command(
                        seq![status::COMMAND_OK, status::REQUESTED_FILE_ACTION_OK],
                    ),
                ),
            ),
            action@ == ActionView::Send("CDUP\r\n"@),
    {
        let codes = vec![status::COMMAND_OK, status::REQUESTED_FILE_ACTION_OK];
        assert(codes@ =~= seq![status::COMMAND_OK, status::REQUESTED_FILE_ACTION_OK]);
        self.send(Exchange::Command(codes), String::from_str("CDUP\r\n"))
    }

    /// Begins the query for the working directory: `PWD`, accepted with 257;
    /// the path stands in double quotes in the reply.
    pub fn pwd(&mut self) -> (action: Action)
        ensures
            final(self)@ == old(self)@.at(StageView::Sending(ExchangeView::Pwd)),
            action@ == ActionView::Send("PWD\r\n"@),
    {
        self.send(Exchange::Pwd, String::from_str("PWD\r\n"))
    }

    /// Begins a command that does nothing: `NOOP`, accepted with 200.
    pub fn noop(&mut self) -> (action: Action)
        ensures
            final(self)@ == old(self)@.at(
                StageView::Sending(ExchangeView::Command(seq![status::COMMAND_OK])),
            ),
            action@ == ActionView::Send("NOOP\r\n"@),
    {
        let codes = vec![status::COMMAND_OK];
        assert(codes@ =~= seq![status::COMMAND_OK]);
        self.send(Exchange::Command(codes), String::from_str("NOOP\r\n"))
    }

    /// Begins the making of a directory: `MKD`, accepted with 257.
    pub fn mkdir(&mut self, pathname: &str) -> (action: Action)
        ensures
            final(self)@ == old(self)@.at(
                StageView::Sending(ExchangeView::Command(seq![status::PATH_CREATED])),
            ),
            action@ == ActionView::Send("MKD "@ + pathname@ + "\r\n"@),
    {
        let codes = vec![status::PATH_CREATED];
        assert(codes@ =~= seq![status::PATH_CREATED]);
        self.send(Exchange::Command(codes), command("MKD ", pathname))
    }

    /// Begins the choice of a representation type: `TYPE`, accepted with 200.
    pub fn transfer_type(&mut self, file_type: FileType) -> (action: Action)
        ensures
            final(self)@ == old(self)@.at(
                StageView::Sending(ExchangeView::Command(seq![status::COMMAND_OK])),
            ),
            action@ == ActionView::Send("TYPE "@ + file_type.argument() + "\r\n"@),
    {
        let codes = vec![status::COMMAND_OK];
        assert(codes@ =~= seq![status::COMMAND_OK]);
        let argument = file_type.to_string();
        self.send(Exchange::Command(codes), command("TYPE ", argument.as_str()))
    }

    /// Begins the end of the session: `QUIT`, accepted with 221.
    pub fn quit(&mut self) -> (action: Action)
        ensures
            final(self)@ == old(self)@.at(
                StageView::Sending(ExchangeView::Command(seq![status::CLOSING])),
            ),
            action@ == ActionView::Send("QUIT\r\n"@),
    {
        let codes = vec![status::CLOSING];
        assert(codes@ =~= seq![status::CLOSING]);
        self.send(Exchange::Command(codes), String::from_str("QUIT\r\n"))
    }

    /// Begins a retrieval that ends as soon as the server has announced the
    /// file: the data connection is then the caller's, and so is the reading
    /// of the reply that confirms the transfer.
    pub fn get(&mut self, file_name: &str) -> (action: Action)
        ensures
            final(self)@ == old(self)@.at(
                StageView::Sending(
                    ExchangeView::Pasv(Transfer::Get, "RETR "@ + file_name@ + "\r\n"@),
                ),
            ),
            action@ == ActionView::Send("PASV\r\n"@),
    {
        self.data_command(Transfer::Get, command("RETR ", file_name))
    }

    /// Begins a renaming: `RNFR`, accepted with 350, then `RNTO`, accepted
    /// with 250.
    pub fn rename(&mut self, from_name: &str, to_name: &str) -> (action: Action)
        ensures
            final(self)@ == old(self)@.at(StageView::Sending(ExchangeView::RenameFrom(to_name@))),
            action@ == ActionView::Send("RNFR "@ + from_name@ + "\r\n"@),
    {
        self.send(Exchange::RenameFrom(String::from_str(to_name)), command("RNFR ", from_name))
    }

    /// Begins a retrieval read by a reader of the caller's: `RETR`, accepted
    /// with 150 or 125; the reader; the close; the confirmation, accepted
    /// with 226 or 250.
    pub fn retr(&mut self, filename: &str) -> (action: Action)
        ensures
            final(self)@ == old(self)@.at(
                StageView::Sending(
                    ExchangeView::Pasv(Transfer::Retr, "RETR "@ + filename@ + "\r\n"@),
                ),
            ),
            action@ == ActionView::Send("PASV\r\n"@),
    {
        self.data_command(Transfer::Retr, command("RETR ", filename))
    }

    /// Begins a retrieval into memory: as [`FtpStream::retr`], with the data
    /// connection read to its end.
    pub fn simple_retr(&mut self, file_name: &str) -> (action: Action)
        ensures
            final(self)@ == old(self)@.at(
                StageView::Sending(
                    ExchangeView::Pasv(Transfer::SimpleRetr, "RETR "@ + file_name@ + "\r\n"@),
                ),
            ),
            action@ == ActionView::Send("PASV\r\n"@),
    {
        self.data_command(Transfer::SimpleRetr, command("RETR ", file_name))
    }

    /// Begins the removal of a directory: `RMD`, accepted with 250.
    pub fn rmdir(&mut self, pathname: &str) -> (action: Action)
        ensures
            final(self)@ == old(self)@.at(
                StageView::Sending(ExchangeView::Command(seq![status::REQUESTED_FILE_ACTION_OK])),
            ),
            action@ == ActionView::Send("RMD "@ + pathname@ + "\r\n"@),
    {
        let codes = vec![status::REQUESTED_FILE_ACTION_OK];
        assert(codes@ =~= seq![status::REQUESTED_FILE_ACTION_OK]);
        self.send(Exchange::Command(codes), command("RMD ", pathname))
    }

    /// Begins the removal of a file: `DELE`, accepted with 250.
    pub fn rm(&mut self, filename: &str) -> (action: Action)
        ensures
            final(self)@ == old(self)@.at(
                StageView::Sending(ExchangeView::Command(seq![status::REQUESTED_FILE_ACTION_OK])),
            ),
            action@ == ActionView::Send("DELE "@ + filename@ + "\r\n"@),
    {
        let codes = vec![status::REQUESTED_FILE_ACTION_OK];
        assert(codes@ =~= seq![status::REQUESTED_FILE_ACTION_OK]);
        self.send(Exchange::Command(codes), command("DELE ", filename))
    }

    /// Begins a store: `STOR`, accepted with 125 or 150; the caller's source
    /// copied into the data connection; the close, after the shutdown of the
    /// security layer where the session is secure; the confirmation,
    /// accepted with 226 or 250.
    pub fn put(&mut self, filename: &str) -> (action: Action)
        ensures
            final(self)@ == old(self)@.at(
                StageView::Sending(
                    ExchangeView::Pasv(Transfer::Put, "STOR "@ + filename@ + "\r\n"@),
                ),
            ),
            action@ == ActionView::Send("PASV\r\n"@),
    {
        self.data_command(Transfer::Put, command("STOR ", filename))
    }

    /// Begins a listing in the long form: `LIST`, of `pathname` or of the
    /// working directory. The lines come as [`Outcome::Lines`]. A listing
    /// that is no text fails as a transfer does: the data connection is
    /// closed and no confirmation is read.
    pub fn list(&mut self, pathname: Option<&str>) -> (action: Action)
        ensures
            final(self)@ == old(self)@.at(
                StageView::Sending(
                    ExchangeView::Pasv(Transfer::List, listing_command("LIST"@, pathname)),
                ),
            ),
            action@ == ActionView::Send("PASV\r\n"@),
    {
        self.list_command("LIST", pathname)
    }

    /// Begins a listing of names only: `NLST`, of `pathname` or of the
    /// working directory. The lines come as [`Outcome::Lines`].
    pub fn nlst(&mut self, pathname: Option<&str>) -> (action: Action)
        ensures
            final(self)@ == old(self)@.at(
                StageView::Sending(
                    ExchangeView::Pasv(Transfer::List, listing_command("NLST"@, pathname)),
                ),
            ),
            action@ == ActionView::Send("PASV\r\n"@),
    {
        self.list_command("NLST", pathname)
    }

    /// Begins the query for a modification time: `MDTM`, accepted with 213.
    pub fn mdtm(&mut self, pathname: &str) -> (action: Action)
        ensures
            final(self)@ == old(self)@.at(StageView::Sending(ExchangeView::Mdtm)),
            action@ == ActionView::Send("MDTM "@ + pathname@ + "\r\n"@),
    {
        self.send(Exchange::Mdtm, command("MDTM ", pathname))
    }

    /// Begins the query for a size: `SIZE`, accepted with 213.
    pub fn size(&mut self, pathname: &str) -> (action: Action)
        ensures
            final(self)@ == old(self)@.at(StageView::Sending(ExchangeView::Size)),
            action@ == ActionView::Send("SIZE "@ + pathname@ + "\r\n"@),
    {
        self.send(Exchange::Size, command("SIZE ", pathname))
    }

    /// Begins the reading of a reply that only `expected_code` accepts.
    pub fn read_response(&mut self, expected_code: u32) -> (action: Action)
        ensures
            final(self)@ == old(self)@.at(
                StageView::Receiving(ExchangeView::Reply(seq![expected_code]), Framing::First),
            ),
            action@ == ActionView::ReadLine,
    {
        let codes = vec![expected_code];
        assert(codes@ =~= seq![expected_code]);
        self.stage = Stage::Receiving(Exchange::Reply(codes), Framing::First);
        Action::ReadLine
    }

    /// Begins the reading of a reply that any of `expected_code` accepts.
    pub fn read_response_in(&mut self, expected_code: &[u32]) -> (action: Action)
        ensures
            final(self)@ == old(self)@.at(
                StageView::Receiving(ExchangeView::Reply(expected_code@), Framing::First),
            ),
            action@ == ActionView::ReadLine,
    {
        let codes = slice_to_vec(expected_code);
        self.stage = Stage::Receiving(Exchange::Reply(codes), Framing::First);
        Action::ReadLine
    }

    /// Takes what came of the last action and returns the next one.
    pub fn advance(&mut self, event: Event) -> (action: Action)
        ensures
            (final(self)@, action@) == step(old(self)@, event@),
            old(self)@.wf() ==> final(self)@.wf(),
    {
        proof {
            if self@.wf() {
                step_keeps_well_formed(self@, event@);
            }
        }
        let mut session = FtpStream { welcome_msg: None, secure: false, stage: Stage::Idle };
        core::mem::swap(self, &mut session);
        let (next, action) = session.stepped(event);
        *self = next;
        action
    }
}

} // verus!
