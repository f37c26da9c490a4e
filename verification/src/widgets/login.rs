use crate::buffer::{BufferError, Rect, Region};
use crate::color::Color;
use crate::draw::{draw_box, on_box};
use crate::keysyms::{
    key_backspace, key_c, key_return, key_u, spec_key_backspace, spec_key_c, spec_key_return,
    spec_key_u,
};
use crate::widget::{DrawContext, DrawError, DrawReport, KeyState, ModifiersState, Widget};
use vstd::prelude::*;
use vstd::string::{StrSliceExecFns, StringExecFns, StringSliceAdditionalSpecFns};

verus! {

/// The width of the login panel in pixels.
pub const WIDTH: u32 = 1024;

/// The height of the login panel in pixels.
pub const HEIGHT: u32 = 128;

/// `Vec::capacity` of std: how many elements the vector can hold without
/// allocating again. It is only claimed to be no less than the length.
#[verifier::external_body]
fn vec_capacity<T>(v: &Vec<T>) -> (c: usize)
    ensures
        c >= v@.len(),
{
    v.capacity()
}

/// `String::capacity` of std: how many bytes the string can hold without
/// allocating again. It is only claimed to be no less than the number of
/// characters.
#[verifier::external_body]
fn string_capacity(s: &String) -> (c: usize)
    ensures
        c >= s@.len(),
{
    s.capacity()
}

/// `String::truncate` of std, asked to keep nothing: the string is empty
/// after.
#[verifier::external_body]
fn string_truncate(s: &mut String, new_len: usize)
    requires
        new_len == 0,
    ensures
        final(s)@ == Seq::<char>::empty(),
{
    s.truncate(new_len)
}

/// `String::push` of std: the character is appended.
#[verifier::external_body]
fn string_push(s: &mut String, c: char)
    ensures
        final(s)@ == old(s)@.push(c),
{
    s.push(c)
}

/// `String::pop` of std: the last character is taken off and returned, if
/// there is one.
#[verifier::external_body]
fn string_pop(s: &mut String) -> (c: Option<char>)
    ensures
        old(s)@.len() == 0 ==> c is None && final(s)@ == old(s)@,
        old(s)@.len() > 0 ==> c == Some(old(s)@.last()) && final(s)@ == old(s)@.drop_last(),
{
    s.pop()
}

/// Memory that held a secret and can be wiped: everything that was
/// allocated is overwritten, and the value is empty after.
pub trait Scrambler {
    fn scramble(&mut self);
}

impl<T: Default> Scrambler for Vec<T> {
    fn scramble(&mut self)
        ensures
            final(self)@ == Seq::<T>::empty(),
    {
        let cap = vec_capacity(self);
        self.truncate(0);
        let mut i: usize = 0;
        while i < cap
            invariant
                i <= cap,
            decreases cap - i,
        {
            self.push(T::default());
            i = i + 1;
        }
        self.truncate(0);
        assert(self@ =~= Seq::<T>::empty());
    }
}

impl Scrambler for String {
    fn scramble(&mut self)
        ensures
            final(self)@ == Seq::<char>::empty(),
    {
        let cap = string_capacity(self);
        string_truncate(self, 0);
        let mut i: usize = 0;
        while i < cap
            invariant
                i <= cap,
            decreases cap - i,
        {
            string_push(self, char::default());
            i = i + 1;
        }
        string_truncate(self, 0);
    }
}

/// How an answer to a question of the session manager is to be shown.
#[derive(Clone, Copy, Debug, PartialEq, Eq, Structural)]
pub enum AuthMessageType {
    /// The answer is shown as it is typed.
    Visible,
    /// The answer is a secret and is shown masked.
    Secret,
    /// A notice; no answer is shown.
    Info,
    /// An error notice; no answer is shown.
    Error,
}

/// Why the session manager refused.
#[derive(Clone, Copy, Debug, PartialEq, Eq, Structural)]
pub enum ErrorType {
    /// Something went wrong.
    Error,
    /// The login was not accepted.
    AuthError,
}

/// What is sent to the session manager.
#[derive(Debug, PartialEq, Eq)]
pub enum Request {
    CreateSession { username: String },
    PostAuthMessageResponse { response: Option<String> },
    StartSession { cmd: Vec<String>, env: Vec<String> },
    CancelSession,
}

/// What the session manager answers.
#[derive(Debug, PartialEq, Eq)]
pub enum Response {
    Success,
    Error { error_type: ErrorType, description: String },
    AuthMessage { auth_message_type: AuthMessageType, auth_message: String },
}

/// What came of the step that the login asked for.
#[derive(Debug, PartialEq, Eq)]
pub enum LoginEvent {
    /// The request was sent.
    Sent,
    /// An answer was read.
    Received(Response),
    /// Sending or reading failed, with the failure in words.
    Failed(String),
}

/// What the login asks to be done next.
#[derive(Debug, PartialEq, Eq)]
pub enum LoginAction {
    /// Nothing: the exchange is over or none is under way.
    Done,
    /// Send this request to the session manager, then report `Sent` or
    /// `Failed`.
    Send(Request),
    /// Read the session manager's answer, then report `Received` or
    /// `Failed`.
    Receive,
    /// End the process with `code`, after printing `message` if there is
    /// one.
    Exit { code: i32, message: Option<String> },
    /// Give up: the session manager or the socket did what cannot be
    /// recovered from.
    Abort(String),
}

/// Where an exchange with the session manager stands.
#[derive(Clone, Copy, Debug, PartialEq, Eq, Structural)]
pub enum Phase {
    /// No exchange is under way; keys are taken.
    Idle,
    /// The answer is being sent.
    SendingAuth,
    /// The reply to the answer is being read.
    ReadingAuth,
    /// The request to start the session is being sent.
    SendingStart,
    /// The reply to the start of the session is being read.
    ReadingStart,
    /// The session is being cancelled after the session manager refused.
    CancellingRefused,
    /// The session is being cancelled after an exchange failed.
    CancellingFailed,
    /// The session is being cancelled because a key asked for it.
    CancellingKey,
}

/// The text of a request.
pub enum RequestView {
    CreateSession { username: Seq<char> },
    PostAuthMessageResponse { response: Option<Seq<char>> },
    StartSession { cmd: Seq<Seq<char>>, env: Seq<Seq<char>> },
    CancelSession,
}

impl View for Request {
    type V = RequestView;

    open spec fn view(&self) -> RequestView {
        match *self {
            Request::CreateSession { username } => RequestView::CreateSession {
                username: username@,
            },
            Request::PostAuthMessageResponse { response } => RequestView::PostAuthMessageResponse {
                response: match response {
                    Some(r) => Some(r@),
                    None => None,
                },
            },
            Request::StartSession { cmd, env } => RequestView::StartSession {
                cmd: cmd@.map_values(|s: String| s@),
                env: env@.map_values(|s: String| s@),
            },
            Request::CancelSession => RequestView::CancelSession,
        }
    }
}

/// The text of a response.
pub enum ResponseView {
    Success,
    Error { error_type: ErrorType, description: Seq<char> },
    AuthMessage { auth_message_type: AuthMessageType, auth_message: Seq<char> },
}

impl View for Response {
    type V = ResponseView;

    open spec fn view(&self) -> ResponseView {
        match *self {
            Response::Success => ResponseView::Success,
            Response::Error { error_type, description } => ResponseView::Error {
                error_type,
                description: description@,
            },
            Response::AuthMessage { auth_message_type, auth_message } => ResponseView::AuthMessage {
                auth_message_type,
                auth_message: auth_message@,
            },
        }
    }
}

/// The text of an event.
pub enum EventView {
    Sent,
    Received(ResponseView),
    Failed(Seq<char>),
}

impl View for LoginEvent {
    type V = EventView;

    open spec fn view(&self) -> EventView {
        match *self {
            LoginEvent::Sent => EventView::Sent,
            LoginEvent::Received(r) => EventView::Received(r@),
            LoginEvent::Failed(e) => EventView::Failed(e@),
        }
    }
}

/// The text of an action.
pub enum ActionView {
    Done,
    Send(RequestView),
    Receive,
    Exit { code: i32, message: Option<Seq<char>> },
    Abort(Seq<char>),
}

impl View for LoginAction {
    type V = ActionView;

    open spec fn view(&self) -> ActionView {
        match *self {
            LoginAction::Done => ActionView::Done,
            LoginAction::Send(r) => ActionView::Send(r@),
            LoginAction::Receive => ActionView::Receive,
            LoginAction::Exit { code, message } => ActionView::Exit {
                code,
                message: match message {
                    Some(m) => Some(m@),
                    None => None,
                },
            },
            LoginAction::Abort(m) => ActionView::Abort(m@),
        }
    }
}

/// The login as plain values.
pub struct LoginState {
    pub question: Seq<char>,
    pub answer: Seq<char>,
    pub command: Seq<char>,
    pub mode: Option<AuthMessageType>,
    pub error: Seq<char>,
    pub border: Color,
    pub dirty: bool,
    pub reset_border: bool,
    pub phase: Phase,
    /// The request that waits to be sent.
    pub outgoing: Option<RequestView>,
    /// Why the session manager refused, while the session is cancelled.
    pub refusal: (ErrorType, Seq<char>),
}

/// The question that a login starts with.
pub open spec fn first_question() -> Seq<char> {
    "username:"@
}

/// What is shown when a login is not accepted.
pub open spec fn login_failed() -> Seq<char> {
    "Login failed"@
}

/// What is said when a session is cancelled after a failure and the
/// cancelling goes wrong.
pub open spec fn unable_to_cancel() -> Seq<char> {
    "unable to cancel"@
}

/// What is said when the session manager answers the start of a session with
/// a question.
pub open spec fn unexpected_message() -> Seq<char> {
    "unexpected message"@
}

/// What is shown before a command that was set by hand.
pub open spec fn command_set_to() -> Seq<char> {
    "Command set to: "@
}

impl LoginState {
    /// Back to the first question, with nothing typed.
    pub open spec fn reset(self) -> LoginState {
        LoginState { question: first_question(), answer: Seq::empty(), ..self }
    }

    /// The state after a key that takes everything back: the session is
    /// cancelled if one is open, and the login starts over.
    pub open spec fn start_over(self) -> LoginState {
        let cleared = LoginState {
            answer: Seq::empty(),
            error: Seq::empty(),
            question: first_question(),
            dirty: true,
            ..self
        };
        if self.mode is Some {
            LoginState {
                mode: None,
                phase: Phase::CancellingKey,
                outgoing: Some(RequestView::CancelSession),
                ..cleared
            }
        } else {
            cleared
        }
    }

    /// The state after the return key: an answer that starts with `!` sets
    /// the command; any other answer is sent to the session manager, as the
    /// user name of a new session if no question is open, as the answer to
    /// the open question else.
    pub open spec fn submit(self) -> LoginState {
        if self.answer.len() > 0 && self.answer[0] == '!' {
            LoginState {
                error: command_set_to() + self.answer.skip(1),
                command: self.answer.skip(1),
                answer: Seq::empty(),
                dirty: true,
                mode: None,
                ..self
            }
        } else {
            LoginState {
                phase: Phase::SendingAuth,
                outgoing: Some(
                    if self.mode is None {
                        RequestView::CreateSession { username: self.answer }
                    } else {
                        RequestView::PostAuthMessageResponse { response: Some(self.answer) }
                    },
                ),
                dirty: true,
                answer: Seq::empty(),
                error: Seq::empty(),
                ..self
            }
        }
    }

    /// The state after a key. While an exchange with the session manager is
    /// under way, keys are dropped.
    pub open spec fn key(self, keysym: u32, ctrl: bool, interpreted: Option<Seq<char>>) -> LoginState {
        if self.phase != Phase::Idle {
            self
        } else if (keysym == spec_key_u() || keysym == spec_key_c()) && ctrl {
            self.start_over()
        } else if keysym == spec_key_backspace() {
            LoginState {
                answer: if self.answer.len() > 0 {
                    self.answer.drop_last()
                } else {
                    self.answer
                },
                dirty: true,
                ..self
            }
        } else if keysym == spec_key_return() {
            self.submit()
        } else {
            match interpreted {
                Some(text) => LoginState { answer: self.answer + text, dirty: true, ..self },
                None => self,
            }
        }
    }

    /// The state after an exchange failed with `message`: the login starts
    /// over, shows the message, and cancels the session.
    pub open spec fn fail(self, message: Seq<char>) -> (LoginState, ActionView) {
        (
            LoginState {
                question: first_question(),
                answer: Seq::empty(),
                error: message,
                mode: None,
                phase: Phase::CancellingFailed,
                outgoing: None,
                ..self
            },
            ActionView::Send(RequestView::CancelSession),
        )
    }

    /// The state after the exchange came to `Idle` again.
    pub open spec fn idle(self) -> LoginState {
        LoginState { phase: Phase::Idle, outgoing: None, ..self }
    }

    /// What an event leads to: the next state, and what to do next.
    pub open spec fn advance(self, event: EventView) -> (LoginState, ActionView) {
        match self.phase {
            Phase::Idle => (self, ActionView::Done),
            Phase::SendingAuth => match event {
                EventView::Sent => (
                    LoginState { phase: Phase::ReadingAuth, outgoing: None, ..self },
                    ActionView::Receive,
                ),
                EventView::Failed(e) => self.fail(e),
                EventView::Received(_) => (self.idle(), ActionView::Abort(unexpected_message())),
            },
            Phase::ReadingAuth => match event {
                EventView::Received(ResponseView::AuthMessage {
                    auth_message_type,
                    auth_message,
                }) => (
                    LoginState {
                        question: auth_message,
                        mode: Some(auth_message_type),
                        ..self.idle()
                    },
                    ActionView::Done,
                ),
                EventView::Received(ResponseView::Success) => (
                    LoginState { phase: Phase::SendingStart, ..self },
                    ActionView::Send(
                        RequestView::StartSession { cmd: seq![self.command], env: Seq::empty() },
                    ),
                ),
                EventView::Received(ResponseView::Error { error_type, description }) => (
                    LoginState {
                        phase: Phase::CancellingRefused,
                        refusal: (error_type, description),
                        ..self
                    },
                    ActionView::Send(RequestView::CancelSession),
                ),
                EventView::Failed(e) => self.fail(e),
                EventView::Sent => (self.idle(), ActionView::Abort(unexpected_message())),
            },
            Phase::SendingStart => match event {
                EventView::Sent => (
                    LoginState { phase: Phase::ReadingStart, ..self },
                    ActionView::Receive,
                ),
                EventView::Failed(e) => self.fail(e),
                EventView::Received(_) => (self.idle(), ActionView::Abort(unexpected_message())),
            },
            Phase::ReadingStart => match event {
                EventView::Received(ResponseView::Success) => (
                    self.idle(),
                    ActionView::Exit { code: 0i32, message: None },
                ),
                EventView::Received(ResponseView::Error { error_type, description }) => {
                    if error_type == ErrorType::AuthError {
                        self.fail(login_failed())
                    } else {
                        (self.idle(), ActionView::Exit { code: -1i32, message: Some(description) })
                    }
                },
                EventView::Received(ResponseView::AuthMessage { .. }) => (
                    self.idle(),
                    ActionView::Abort(unexpected_message()),
                ),
                EventView::Failed(e) => self.fail(e),
                EventView::Sent => (self.idle(), ActionView::Abort(unexpected_message())),
            },
            Phase::CancellingRefused => match event {
                EventView::Sent => {
                    if self.refusal.0 == ErrorType::AuthError {
                        self.fail(login_failed())
                    } else {
                        (
                            self.idle(),
                            ActionView::Exit { code: -1i32, message: Some(self.refusal.1) },
                        )
                    }
                },
                EventView::Failed(e) => self.fail(e),
                EventView::Received(_) => (self.idle(), ActionView::Abort(unexpected_message())),
            },
            Phase::CancellingFailed => match event {
                EventView::Sent => (self.idle(), ActionView::Done),
                EventView::Failed(e) => (LoginState { error: e, ..self.idle() }, ActionView::Done),
                EventView::Received(_) => (self.idle(), ActionView::Abort(unexpected_message())),
            },
            Phase::CancellingKey => match event {
                EventView::Sent => (self.idle(), ActionView::Done),
                EventView::Failed(_) => (self.idle(), ActionView::Abort(unable_to_cancel())),
                EventView::Received(_) => (self.idle(), ActionView::Abort(unexpected_message())),
            },
        }
    }

    /// What of the answer is shown: the answer itself where it is visible, a
    /// star for each of its bytes where it is a secret, nothing where the
    /// session manager only gave a notice.
    pub open spec fn shown_answer(self) -> Option<Seq<char>> {
        match self.mode {
            None | Some(AuthMessageType::Visible) => Some(self.answer),
            Some(AuthMessageType::Secret) => Some(
                Seq::new(vstd::utf8::encode_utf8(self.answer).len(), |i: int| '*'),
            ),
            _ => None,
        }
    }
}

/// The login panel: a question of the session manager, the answer as it is
/// typed, and the exchange that an answer starts.
pub struct Login {
    question: String,
    answer: String,
    command: String,
    mode: Option<AuthMessageType>,
    error: String,
    border: Color,
    dirty: bool,
    reset_border: bool,
    phase: Phase,
    outgoing: Option<Request>,
    refusal: (ErrorType, String),
}

impl View for Login {
    type V = LoginState;

    closed spec fn view(&self) -> LoginState {
        LoginState {
            question: self.question@,
            answer: self.answer@,
            command: self.command@,
            mode: self.mode,
            error: self.error@,
            border: self.border,
            dirty: self.dirty,
            reset_border: self.reset_border,
            phase: self.phase,
            outgoing: match self.outgoing {
                Some(r) => Some(r@),
                None => None,
            },
            refusal: (self.refusal.0, self.refusal.1@),
        }
    }
}

fn white() -> (c: Color)
    ensures
        c == (Color { red: 255, green: 255, blue: 255, opacity: 255 }),
{
    Color::new(255, 255, 255, 255)
}

impl Login {
    /// A login that asks for the user name and starts `cmd` once a session
    /// is open.
    pub fn new(cmd: String) -> (l: Login)
        ensures
            l@ == (LoginState {
                question: first_question(),
                answer: Seq::empty(),
                command: cmd@,
                mode: None,
                error: Seq::empty(),
                border: Color { red: 255, green: 255, blue: 255, opacity: 255 },
                dirty: false,
                reset_border: false,
                phase: Phase::Idle,
                outgoing: None,
                refusal: (ErrorType::Error, Seq::empty()),
            }),
    {
        let mut l = Login {
            question: String::new(),
            answer: String::new(),
            command: cmd,
            mode: None,
            error: String::new(),
            border: white(),
            dirty: false,
            reset_border: false,
            phase: Phase::Idle,
            outgoing: None,
            refusal: (ErrorType::Error, String::new()),
        };
        l.reset();
        l
    }

    fn reset(&mut self)
        ensures
            final(self)@ == old(self)@.reset(),
    {
        self.question = "username:".to_owned();
        self.answer = String::new();
    }

    fn cancel(&mut self)
        ensures
            final(self)@ == (LoginState {
                outgoing: Some(RequestView::CancelSession),
                ..old(self)@
            }),
    {
        self.outgoing = Some(Request::CancelSession);
    }

    fn communicate(&mut self)
        ensures
            final(self)@ == (LoginState {
                phase: Phase::SendingAuth,
                outgoing: Some(
                    if old(self)@.mode is None {
                        RequestView::CreateSession { username: old(self)@.answer }
                    } else {
                        RequestView::PostAuthMessageResponse { response: Some(old(self)@.answer) }
                    },
                ),
                ..old(self)@
            }),
    {
        let answer = self.answer.clone();
        let req = match self.mode {
            None => Request::CreateSession { username: answer },
            Some(_) => Request::PostAuthMessageResponse { response: Some(answer) },
        };
        self.outgoing = Some(req);
        self.phase = Phase::SendingAuth;
    }

    /// Takes the request that a key left to be sent, if there is one.
    pub fn take_request(&mut self) -> (action: LoginAction)
        ensures
            action@ == match old(self)@.outgoing {
                Some(r) => ActionView::Send(r),
                None => ActionView::Done,
            },
            final(self)@ == (LoginState { outgoing: None, ..old(self)@ }),
    {
        match self.outgoing.take() {
            Some(r) => LoginAction::Send(r),
            None => LoginAction::Done,
        }
    }

    fn fail(&mut self, message: String) -> (action: LoginAction)
        ensures
            (final(self)@, action@) == old(self)@.fail(message@),
    {
        self.reset();
        self.error = message;
        self.mode = None;
        self.phase = Phase::CancellingFailed;
        self.outgoing = None;
        LoginAction::Send(Request::CancelSession)
    }

    fn finish(&mut self)
        ensures
            final(self)@ == old(self)@.idle(),
    {
        self.phase = Phase::Idle;
        self.outgoing = None;
    }

    fn unexpected(&mut self) -> (action: LoginAction)
        ensures
            (final(self)@, action@) == (old(self)@.idle(), ActionView::Abort(unexpected_message())),
    {
        self.finish();
        LoginAction::Abort("unexpected message".to_owned())
    }

    /// Takes what came of the last action and says what to do next.
    pub fn advance(&mut self, event: LoginEvent) -> (action: LoginAction)
        ensures
            (final(self)@, action@) == old(self)@.advance(event@),
    {
        match self.phase {
            Phase::Idle => LoginAction::Done,
            Phase::SendingAuth => match event {
                LoginEvent::Sent => {
                    self.phase = Phase::ReadingAuth;
                    self.outgoing = None;
                    LoginAction::Receive
                },
                LoginEvent::Failed(e) => self.fail(e),
                LoginEvent::Received(_) => self.unexpected(),
            },
            Phase::ReadingAuth => match event {
                LoginEvent::Received(Response::AuthMessage { auth_message_type, auth_message }) => {
                    self.finish();
                    self.question = auth_message;
                    self.mode = Some(auth_message_type);
                    LoginAction::Done
                },
                LoginEvent::Received(Response::Success) => {
                    self.phase = Phase::SendingStart;
                    let mut cmd: Vec<String> = Vec::new();
                    cmd.push(self.command.clone());
                    let env: Vec<String> = Vec::new();
                    assert(cmd@.map_values(|s: String| s@) =~= seq![self.command@]);
                    assert(env@.map_values(|s: String| s@) =~= Seq::<Seq<char>>::empty());
                    LoginAction::Send(Request::StartSession { cmd, env })
                },
                LoginEvent::Received(Response::Error { error_type, description }) => {
                    self.phase = Phase::CancellingRefused;
                    self.refusal = (error_type, description);
                    LoginAction::Send(Request::CancelSession)
                },
                LoginEvent::Failed(e) => self.fail(e),
                LoginEvent::Sent => self.unexpected(),
            },
            Phase::SendingStart => match event {
                LoginEvent::Sent => {
                    self.phase = Phase::ReadingStart;
                    LoginAction::Receive
                },
                LoginEvent::Failed(e) => self.fail(e),
                LoginEvent::Received(_) => self.unexpected(),
            },
            Phase::ReadingStart => match event {
                LoginEvent::Received(Response::Success) => {
                    self.finish();
                    LoginAction::Exit { code: 0, message: None }
                },
                LoginEvent::Received(Response::Error { error_type, description }) => {
                    match error_type {
                        ErrorType::AuthError => self.fail("Login failed".to_owned()),
                        ErrorType::Error => {
                            self.finish();
                            LoginAction::Exit { code: -1, message: Some(description) }
                        },
                    }
                },
                LoginEvent::Received(Response::AuthMessage { .. }) => self.unexpected(),
                LoginEvent::Failed(e) => self.fail(e),
                LoginEvent::Sent => self.unexpected(),
            },
            Phase::CancellingRefused => match event {
                LoginEvent::Sent => {
                    match self.refusal.0 {
                        ErrorType::AuthError => self.fail("Login failed".to_owned()),
                        ErrorType::Error => {
                            let description = self.refusal.1.clone();
                            self.finish();
                            LoginAction::Exit { code: -1, message: Some(description) }
                        },
                    }
                },
                LoginEvent::Failed(e) => self.fail(e),
                LoginEvent::Received(_) => self.unexpected(),
            },
            Phase::CancellingFailed => match event {
                LoginEvent::Sent => {
                    self.finish();
                    LoginAction::Done
                },
                LoginEvent::Failed(e) => {
                    self.finish();
                    self.error = e;
                    LoginAction::Done
                },
                LoginEvent::Received(_) => self.unexpected(),
            },
            Phase::CancellingKey => match event {
                LoginEvent::Sent => {
                    self.finish();
                    LoginAction::Done
                },
                LoginEvent::Failed(_) => {
                    self.finish();
                    LoginAction::Abort("unable to cancel".to_owned())
                },
                LoginEvent::Received(_) => self.unexpected(),
            },
        }
    }

    fn start_over(&mut self)
        ensures
            final(self)@ == old(self)@.start_over(),
    {
        if self.mode.is_some() {
            self.cancel();
            self.phase = Phase::CancellingKey;
            self.mode = None;
        }
        self.answer = String::new();
        self.error = String::new();
        self.reset();
        self.dirty = true;
    }

    fn submit(&mut self)
        ensures
            final(self)@ == old(self)@.submit(),
    {
        let typed = self.answer.as_str().unicode_len();
        if typed > 0 && self.answer.as_str().get_char(0) == '!' {
            let rest = self.answer.as_str().substring_char(1, typed).to_owned();
            let mut error = "Command set to: ".to_owned();
            error.append(rest.as_str());
            assert(rest@ =~= self.answer@.skip(1));
            self.error = error;
            self.command = rest;
            self.answer = String::new();
            self.dirty = true;
            self.mode = None;
        } else {
            self.communicate();
            self.dirty = true;
            self.answer = String::new();
            self.error = String::new();
        }
    }

    /// The size of the panel.
    pub fn panel_size() -> (s: (u32, u32))
        ensures
            s == (WIDTH, HEIGHT),
    {
        (WIDTH, HEIGHT)
    }

    pub fn question(&self) -> (q: &String)
        ensures
            q@ == self@.question,
    {
        &self.question
    }

    pub fn answer(&self) -> (a: &String)
        ensures
            a@ == self@.answer,
    {
        &self.answer
    }

    pub fn command(&self) -> (c: &String)
        ensures
            c@ == self@.command,
    {
        &self.command
    }

    pub fn error(&self) -> (e: &String)
        ensures
            e@ == self@.error,
    {
        &self.error
    }

    pub fn mode(&self) -> (m: Option<AuthMessageType>)
        ensures
            m == self@.mode,
    {
        self.mode
    }

    pub fn phase(&self) -> (p: Phase)
        ensures
            p == self@.phase,
    {
        self.phase
    }

    pub fn is_dirty(&self) -> (d: bool)
        ensures
            d == self@.dirty,
    {
        self.dirty
    }

    /// What of the answer is to be shown.
    pub fn shown_answer(&self) -> (text: Option<String>)
        ensures
            match self@.shown_answer() {
                Some(t) => text is Some && text->0@ == t,
                None => text is None,
            },
    {
        match self.mode {
            None | Some(AuthMessageType::Visible) => Some(self.answer.clone()),
            Some(AuthMessageType::Secret) => {
                let typed = self.answer.as_str();
                let n = typed.as_bytes().len();
                let mut stars = String::new();
                assert(stars@ =~= Seq::new(0, |k: int| '*'));
                let mut i: usize = 0;
                while i < n
                    invariant
                        i <= n,
                        stars@ == Seq::new(i as nat, |k: int| '*'),
                    decreases n - i,
                {
                    string_push(&mut stars, '*');
                    i = i + 1;
                    assert(stars@ =~= Seq::new(i as nat, |k: int| '*'));
                }
                Some(stars)
            },
            _ => None,
        }
    }

    /// Where the headline goes in a panel at `region`.
    pub fn headline_area(region: &Region) -> (r: Result<Region, BufferError>)
        ensures
            r == region.spec_offset((32, 24)),
    {
        region.offset((32, 24))
    }

    /// Where the question goes in a panel at `region`.
    pub fn question_area(region: &Region) -> (r: Result<Region, BufferError>)
        ensures
            r == region.spec_offset((256, 24)),
    {
        region.offset((256, 24))
    }

    /// Where the answer goes in a panel at `region`, behind a question that
    /// was drawn `question_width` pixels wide.
    pub fn answer_area(region: &Region, question_width: u32) -> (r: Result<Region, BufferError>)
        ensures
            r == if 256 + question_width + 16 > u32::MAX {
                Err(BufferError::OutOfBounds)
            } else {
                region.spec_subdimensions(
                    ((256 + question_width + 16) as u32, 24, (WIDTH - 416 - 32) as u32, 64),
                )
            },
    {
        if question_width > u32::MAX - 272 {
            return Err(BufferError::OutOfBounds);
        }
        region.subdimensions((256 + question_width + 16, 24, WIDTH - 416 - 32, 64))
    }

    /// Where the error goes in a panel at `region`.
    pub fn error_area(region: &Region) -> (r: Result<Region, BufferError>)
        ensures
            r == region.spec_offset((256, 64)),
    {
        region.offset((256, 64))
    }
}

/// The part of `region` that the panel takes: its top left corner.
pub open spec fn panel(region: Region) -> Region {
    Region { x: region.x, y: region.y, width: WIDTH, height: HEIGHT }
}

/// The damage that a drawn panel reports: the panel's own rectangle.
pub open spec fn panel_damage(region: Region) -> Seq<Rect> {
    seq![
        (
            region.x as i32,
            region.y as i32,
            WIDTH as i32,
            HEIGHT as i32,
        ),
    ]
}

impl Widget for Login {
    open spec fn spec_size(&self) -> (u32, u32) {
        (WIDTH, HEIGHT)
    }

    fn size(&self) -> (s: (u32, u32)) {
        (WIDTH, HEIGHT)
    }

    /// Draws the panel's ground and outline if anything changed or the
    /// drawing is forced. The texts are left to whoever has the glyphs; the
    /// areas they go to are given by `headline_area` and its like.
    fn draw(&mut self, ctx: &mut DrawContext, pos: (u32, u32)) -> (r: Result<DrawReport, DrawError>)
        ensures
            !old(self)@.dirty && !old(ctx).force ==> {
                &&& final(self)@ == old(self)@
                &&& r matches Ok(report)
                &&& report.width == WIDTH
                &&& report.height == HEIGHT
                &&& report.damage@ == Seq::<Rect>::empty()
                &&& !report.full_damage
                &&& final(ctx).buf == old(ctx).buf
            },
            old(self)@.dirty || old(ctx).force ==> {
                &&& final(self)@.dirty == false
                &&& r is Ok <==> WIDTH <= old(ctx).region.width && HEIGHT <= old(ctx).region.height
                &&& r is Err ==> r == Err::<DrawReport, DrawError>(DrawError::OutOfBounds)
                &&& r is Err ==> final(ctx).buf == old(ctx).buf
                &&& r matches Ok(report) ==> {
                    &&& report.width == WIDTH
                    &&& report.height == HEIGHT
                    &&& report.damage@ == panel_damage(old(ctx).region)
                    &&& !report.full_damage
                    &&& final(ctx).buf.same_tail(&old(ctx).buf)
                    &&& forall|px: int, py: int|
                        final(ctx).buf.in_grid(px, py) ==> #[trigger] final(ctx).buf.pixel(px, py)
                            == if on_box(panel(old(ctx).region), (WIDTH, HEIGHT), px, py) {
                            old(self)@.border.argb()
                        } else if panel(old(ctx).region).contains(px, py) {
                            old(ctx).bg.argb()
                        } else {
                            old(ctx).buf.pixel(px, py)
                        }
                }
            },
    {
        let (width, height) = self.size();
        if !self.dirty && !ctx.force {
            return Ok(DrawReport::empty(width, height));
        }
        self.dirty = false;
        let region = match ctx.region.subdimensions((0, 0, width, height)) {
            Ok(region) => region,
            Err(_) => {
                return Err(DrawError::OutOfBounds);
            },
        };
        ctx.buf.memset(&region, ctx.bg);
        let outlined = draw_box(&mut ctx.buf, &region, &self.border, (width, height));
        assert(outlined is Ok);
        if self.reset_border {
            self.border = white();
            self.reset_border = false;
        }
        let mut damage: Vec<Rect> = Vec::new();
        damage.push(region.get_signed_bounds());
        assert(damage@ =~= panel_damage(old(ctx).region));
        Ok(DrawReport { width, height, damage, full_damage: false })
    }

    fn keyboard_input(
        &mut self,
        keysym: u32,
        modifier_state: ModifiersState,
        key_state: KeyState,
        interpreted: Option<String>,
    )
        ensures
            final(self)@ == old(self)@.key(
                keysym,
                modifier_state.ctrl,
                match interpreted {
                    Some(t) => Some(t@),
                    None => None,
                },
            ),
    {
        if self.phase != Phase::Idle {
            return ;
        }
        if (keysym == key_u() || keysym == key_c()) && modifier_state.ctrl {
            self.start_over();
        } else if keysym == key_backspace() {
            let _ = string_pop(&mut self.answer);
            self.dirty = true;
        } else if keysym == key_return() {
            self.submit();
        } else {
            match interpreted {
                Some(text) => {
                    self.answer.append(text.as_str());
                    self.dirty = true;
                },
                None => {},
            }
        }
    }

    fn mouse_click(&mut self, button: u32, pos: (u32, u32))
        ensures
            final(self)@ == old(self)@,
    {
    }

    fn mouse_scroll(&mut self, scroll: (i64, i64), pos: (u32, u32))
        ensures
            final(self)@ == old(self)@,
    {
    }
}

} // verus!
