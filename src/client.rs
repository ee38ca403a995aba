use vstd::prelude::*;
use crate::event::{Event, EventView, empty_event, opt_chars};
use crate::text::{chars_of, range_is};
use crate::number::parse_retry;
use crate::parser::{
    ParseResult,
    event_after,
    is_blank,
    last_id_after,
    retry_after,
    split_line,
};

verus! {

/// hyper's `Url` (the `url` crate's), declared so that a client can hold
/// the address of its stream and hand it to every connection. Nothing is
/// assumed of its contents.
#[verifier::external_type_specification]
#[verifier::external_body]
pub struct ExUrl(hyper::Url);

/// The reconnection delay, in milliseconds, until the server sets another.
pub const DEFAULT_RETRY: u64 = 5000;

/// A failure that ends the current pull.
#[derive(Debug, Clone, Copy, PartialEq, Eq, Structural)]
pub enum Error {
    /// The server answered with this status, which is not a success.
    Http(u16),
    /// The connection could not be made.
    Transport,
    /// Reading the open stream failed.
    Io,
}

/// What the surrounding loop reports to the client.
#[derive(Debug)]
pub enum Signal {
    /// The caller asks for the next event.
    Pull,
    /// A connection attempt was answered with this status.
    Status(u16),
    /// A connection attempt failed before any answer.
    TransportError,
    /// A line was read from the open stream, with its newline if it had one.
    Line(String),
    /// The open stream ended cleanly.
    EndOfStream,
    /// Reading the open stream failed.
    ReadError,
    /// The pause before a reconnection is over.
    Woke,
}

/// The mathematical value of a `Signal`.
pub enum SignalView {
    Pull,
    Status(u16),
    TransportError,
    Line(Seq<char>),
    EndOfStream,
    ReadError,
    Woke,
}

impl View for Signal {
    type V = SignalView;

    open spec fn view(&self) -> SignalView {
        match self {
            Signal::Pull => SignalView::Pull,
            Signal::Status(s) => SignalView::Status(*s),
            Signal::TransportError => SignalView::TransportError,
            Signal::Line(l) => SignalView::Line(l@),
            Signal::EndOfStream => SignalView::EndOfStream,
            Signal::ReadError => SignalView::ReadError,
            Signal::Woke => SignalView::Woke,
        }
    }
}

/// What the client asks the surrounding loop to do next.
#[derive(Debug)]
pub enum Action {
    /// Open a connection, sending this value as the `Last-Event-ID` header
    /// when there is one.
    Connect(Option<String>),
    /// Read the next line of the open stream.
    ReadLine,
    /// Pause for this many milliseconds before reconnecting.
    Sleep(u64),
    /// Hand this event to the caller: the pull is over.
    Emit(Event),
    /// Hand this failure to the caller: the pull is over.
    Fail(Error),
}

/// The mathematical value of an `Action`.
pub enum ActionView {
    Connect(Option<Seq<char>>),
    ReadLine,
    Sleep(u64),
    Emit(EventView),
    Fail(Error),
}

impl View for Action {
    type V = ActionView;

    open spec fn view(&self) -> ActionView {
        match self {
            Action::Connect(id) => ActionView::Connect(opt_chars(*id)),
            Action::ReadLine => ActionView::ReadLine,
            Action::Sleep(ms) => ActionView::Sleep(*ms),
            Action::Emit(e) => ActionView::Emit(e@),
            Action::Fail(err) => ActionView::Fail(*err),
        }
    }
}

/// The state of a session with one stream.
pub struct Client {
    url: hyper::Url,
    connected: bool,
    last_event_id: Option<String>,
    retry: u64,
    pending: Event,
}

/// The mathematical value of a `Client`: whether a stream is open, the last
/// event id seen, the retry interval, and the event being assembled.
pub struct ClientView {
    pub connected: bool,
    pub last_event_id: Option<Seq<char>>,
    pub retry: u64,
    pub pending: EventView,
}

impl View for Client {
    type V = ClientView;

    closed spec fn view(&self) -> ClientView {
        ClientView {
            connected: self.connected,
            last_event_id: opt_chars(self.last_event_id),
            retry: self.retry,
            pending: self.pending@,
        }
    }
}

/// A status of the success class, 200 to 299, as hyper's
/// `StatusCode::is_success` classifies it.
pub open spec fn is_success(status: u16) -> bool {
    200 <= status <= 299
}

/// The session after a line that is not blank: the retry interval and last
/// event id as the line sets them, and the line read into the pending event.
pub open spec fn after_line(c: ClientView, line: Seq<char>) -> ClientView {
    ClientView {
        last_event_id: last_id_after(c.last_event_id, line),
        retry: retry_after(c.retry, line),
        pending: event_after(c.pending, line),
        ..c
    }
}

/// The session once its stream is gone: closed, with no partial event.
pub open spec fn dropped(c: ClientView) -> ClientView {
    ClientView { connected: false, pending: empty_event(), ..c }
}

/// How the session answers one signal: its next state and the action asked for.
pub open spec fn step_spec(c: ClientView, s: SignalView) -> (ClientView, ActionView) {
    match s {
        SignalView::Pull => (
            ClientView { pending: empty_event(), ..c },
            if c.connected {
                ActionView::ReadLine
            } else {
                ActionView::Connect(c.last_event_id)
            },
        ),
        SignalView::Status(code) => if is_success(code) {
            (ClientView { connected: true, ..c }, ActionView::ReadLine)
        } else {
            (ClientView { connected: false, ..c }, ActionView::Fail(Error::Http(code)))
        },
        SignalView::TransportError => (dropped(c), ActionView::Fail(Error::Transport)),
        SignalView::Line(l) => if is_blank(l) {
            (ClientView { pending: empty_event(), ..c }, ActionView::Emit(c.pending))
        } else {
            (after_line(c, l), ActionView::ReadLine)
        },
        SignalView::EndOfStream => (dropped(c), ActionView::Sleep(c.retry)),
        SignalView::ReadError => (dropped(c), ActionView::Fail(Error::Io)),
        SignalView::Woke => (c, ActionView::Connect(c.last_event_id)),
    }
}

impl Client {
    /// The stream that the client reads.
    pub closed spec fn target(&self) -> hyper::Url {
        self.url
    }

    /// A client for the stream at `url`: not connected, no last event id,
    /// the default retry interval. No connection is made yet.
    pub fn new(url: hyper::Url) -> (c: Client)
        ensures
            c@ == (ClientView {
                connected: false,
                last_event_id: None,
                retry: DEFAULT_RETRY,
                pending: empty_event(),
            }),
            c.target() == url,
    {
        Client { url, connected: false, last_event_id: None, retry: DEFAULT_RETRY, pending: Event::new() }
    }

    /// The stream that the client reads.
    pub fn url(&self) -> (r: &hyper::Url)
        ensures
            *r == self.target(),
    {
        &self.url
    }

    /// The id of the last event that carried one.
    pub fn last_event_id(&self) -> (r: &Option<String>)
        ensures
            opt_chars(*r) == self@.last_event_id,
    {
        &self.last_event_id
    }

    /// The pause before a reconnection, in milliseconds.
    pub fn retry(&self) -> (r: u64)
        ensures
            r == self@.retry,
    {
        self.retry
    }

    /// Whether a stream is open.
    pub fn is_connected(&self) -> (r: bool)
        ensures
            r == self@.connected,
    {
        self.connected
    }

    /// The `Last-Event-ID` value that the next connection sends, if any.
    pub fn next_request(&self) -> (r: Option<String>)
        ensures
            opt_chars(r) == self@.last_event_id,
    {
        match &self.last_event_id {
            Some(id) => Some(id.clone()),
            None => None,
        }
    }

    /// Reads one line of the stream into `event` and the session. A blank
    /// line asks for the event to be handed out and changes nothing; any
    /// other line sets the field it names, and unknown fields are ignored.
    pub fn parse_event_line(&mut self, line: &str, event: &mut Event) -> (r: ParseResult)
        ensures
            r == (if is_blank(line@) {
                ParseResult::Dispatch
            } else {
                ParseResult::Next
            }),
            final(event)@ == event_after(old(event)@, line@),
            final(self)@ == (ClientView {
                last_event_id: last_id_after(old(self)@.last_event_id, line@),
                retry: retry_after(old(self)@.retry, line@),
                ..old(self)@
            }),
            final(self).target() == old(self).target(),
    {
        proof {
            reveal_strlit("event");
            reveal_strlit("data");
            reveal_strlit("id");
            reveal_strlit("retry");
            assert("event"@.len() != "id"@.len() && "data"@.len() != "id"@.len());
            assert("event"@[0] != "retry"@[0] && "data"@.len() != "retry"@.len());
        }
        let chars = chars_of(line);
        match split_line(&chars) {
            None => ParseResult::Dispatch,
            Some((name_end, value_start, end)) => {
                let value = line.substring_char(value_start, end);
                if range_is(&chars, 0, name_end, "event") {
                    event.event_type = Some(value.to_owned());
                } else if range_is(&chars, 0, name_end, "data") {
                    event.data.append(value);
                    event.data.append("\n");
                } else if range_is(&chars, 0, name_end, "id") {
                    event.id = Some(value.to_owned());
                    self.last_event_id = Some(value.to_owned());
                } else if range_is(&chars, 0, name_end, "retry") {
                    match parse_retry(value) {
                        Some(n) => {
                            self.retry = n;
                        },
                        None => {},
                    }
                }
                ParseResult::Next
            },
        }
    }

    /// Answers one signal of the surrounding loop with the next action.
    pub fn step(&mut self, signal: Signal) -> (r: Action)
        ensures
            (final(self)@, r@) == step_spec(old(self)@, signal@),
            final(self).target() == old(self).target(),
    {
        match signal {
            Signal::Pull => {
                self.pending = Event::new();
                if self.connected {
                    Action::ReadLine
                } else {
                    Action::Connect(self.next_request())
                }
            },
            Signal::Status(code) => {
                if 200 <= code && code <= 299 {
                    self.connected = true;
                    Action::ReadLine
                } else {
                    self.connected = false;
                    Action::Fail(Error::Http(code))
                }
            },
            Signal::TransportError => {
                self.drop_stream();
                Action::Fail(Error::Transport)
            },
            Signal::Line(line) => {
                let mut event = Event::new();
                std::mem::swap(&mut event, &mut self.pending);
                match self.parse_event_line(line.as_str(), &mut event) {
                    ParseResult::Dispatch => Action::Emit(event),
                    ParseResult::Next => {
                        self.pending = event;
                        Action::ReadLine
                    },
                }
            },
            Signal::EndOfStream => {
                self.drop_stream();
                Action::Sleep(self.retry)
            },
            Signal::ReadError => {
                self.drop_stream();
                Action::Fail(Error::Io)
            },
            Signal::Woke => Action::Connect(self.next_request()),
        }
    }

    fn drop_stream(&mut self)
        ensures
            final(self)@ == dropped(old(self)@),
            final(self).target() == old(self).target(),
    {
        self.connected = false;
        self.pending = Event::new();
    }
}

} // verus!
