use vstd::prelude::*;

use crate::session::Session;
use crate::types::{Error, LoginInfo, LoginInfoWrapper, UserInfo, UserInfoWrapper};

verus! {

/// What the sign-in page reacts to.
pub enum Msg {
    /// The form was submitted, with the browser's own submission suppressed.
    Request,
    /// The sign-in call came back.
    Response(Result<UserInfoWrapper, Error>),
    /// A notification of no interest, such as a router acknowledgement.
    Ignore,
    /// The email field now holds this text.
    UpdateEmail(String),
    /// The password field now holds this text.
    UpdatePassword(String),
}

/// Work that the host must carry out after an update.
pub enum Effect {
    /// Send a sign-in call with this body and track it under this handle.
    Login(u64, LoginInfoWrapper),
    /// Hand the signed-in user to the page's success callback.
    Emit(UserInfo),
    /// Navigate to the home page.
    RouteHome,
}

/// What an update asks of the host.
pub struct Update {
    /// Whether the page must be drawn again.
    pub render: bool,
    /// The work to carry out, in order.
    pub effects: Vec<Effect>,
}

/// The abstract state of the sign-in page.
pub struct LoginModel {
    /// The form values.
    pub request: LoginInfo,
    /// The last failure, shown to the user.
    pub error: Option<Error>,
    /// The handle of the sign-in call in flight, if any.
    pub task: Option<u64>,
    /// The handle that the next sign-in call will get.
    pub next: u64,
}

/// The handle after `h`; handles are reused only after every `u64` was given.
pub open spec fn next_handle(h: u64) -> u64 {
    if h == u64::MAX {
        0
    } else {
        (h + 1) as u64
    }
}

/// The body of a sign-in call made from state `s`: the form values as they stand.
pub open spec fn payload(s: LoginModel) -> LoginInfoWrapper {
    LoginInfoWrapper { user: s.request }
}

/// The state after `msg`.
pub open spec fn step(s: LoginModel, msg: Msg) -> LoginModel {
    match msg {
        Msg::Request => LoginModel { task: Some(s.next), next: next_handle(s.next), ..s },
        Msg::Response(Ok(_)) => LoginModel { error: None, task: None, ..s },
        Msg::Response(Err(e)) => LoginModel { error: Some(e), task: None, ..s },
        Msg::Ignore => s,
        Msg::UpdateEmail(email) => LoginModel {
            request: LoginInfo { email, ..s.request },
            ..s
        },
        Msg::UpdatePassword(password) => LoginModel {
            request: LoginInfo { password, ..s.request },
            ..s
        },
    }
}

/// The work that `msg` asks for in state `s`.
pub open spec fn effects(s: LoginModel, msg: Msg) -> Seq<Effect> {
    match msg {
        Msg::Request => seq![Effect::Login(s.next, payload(s))],
        Msg::Response(Ok(info)) => seq![Effect::Emit(info.user), Effect::RouteHome],
        _ => Seq::empty(),
    }
}

/// The session token after `msg`: a successful sign-in stores the token
/// that came back, and nothing else touches it.
pub open spec fn token_after(token: Option<Seq<char>>, msg: Msg) -> Option<Seq<char>> {
    match msg {
        Msg::Response(Ok(info)) => Some(info.user.token@),
        _ => token,
    }
}

/// The state after each of `msgs` in turn, from `s`.
pub open spec fn run(s: LoginModel, msgs: Seq<Msg>) -> LoginModel
    decreases msgs.len(),
{
    if msgs.len() == 0 {
        s
    } else {
        step(run(s, msgs.drop_last()), msgs.last())
    }
}

/// The handles of the sign-in calls issued while `msgs` are applied from `s`, in order.
pub open spec fn calls(s: LoginModel, msgs: Seq<Msg>) -> Seq<u64>
    decreases msgs.len(),
{
    if msgs.len() == 0 {
        Seq::empty()
    } else {
        let before = run(s, msgs.drop_last());
        match msgs.last() {
            Msg::Request => calls(s, msgs.drop_last()).push(before.next),
            _ => calls(s, msgs.drop_last()),
        }
    }
}

/// At most one sign-in call is tracked at any time, and it is the last one
/// issued: a new submission replaces the handle of an earlier one. Where no
/// response arrives after the first submission, the last call stays tracked.
pub proof fn lemma_last_submission_tracked(s: LoginModel, msgs: Seq<Msg>)
    ensures
        calls(s, msgs).len() == 0 && run(s, msgs).task is Some ==> run(s, msgs).task == s.task,
        calls(s, msgs).len() > 0 && run(s, msgs).task is Some ==> run(s, msgs).task == Some(
            calls(s, msgs).last(),
        ),
        calls(s, msgs).len() > 0 && (forall|i: int| 0 <= i < msgs.len() ==> !(#[trigger] msgs[i] is Response))
            ==> run(s, msgs).task == Some(calls(s, msgs).last()),
    decreases msgs.len(),
{
    if msgs.len() > 0 {
        let prefix = msgs.drop_last();
        lemma_last_submission_tracked(s, prefix);
        assert forall|i: int| 0 <= i < prefix.len() && (forall|j: int| 0 <= j < msgs.len() ==> !(#[trigger] msgs[j] is Response))
            implies !(#[trigger] prefix[i] is Response) by {
            assert(prefix[i] == msgs[i]);
        }
    }
}

/// A submission moves the page to requesting and issues exactly one call,
/// whose body holds the form values as they stood when it was submitted; the
/// next submission gets another handle.
pub proof fn lemma_submit_issues_one_call(s: LoginModel)
    ensures
        step(s, Msg::Request).task == Some(s.next),
        step(s, Msg::Request).next != s.next,
        effects(s, Msg::Request).len() == 1,
        effects(s, Msg::Request)[0] == Effect::Login(s.next, payload(s)),
        payload(s).user.email == s.request.email,
        payload(s).user.password == s.request.password,
        step(s, Msg::Request).request == s.request,
{
}

/// A successful sign-in stores the token that came back, whatever was there
/// before, and leaves no failure shown and nothing in flight.
pub proof fn lemma_success_signs_in(s: LoginModel, token: Option<Seq<char>>, info: UserInfoWrapper)
    ensures
        token_after(token, Msg::Response(Ok(info))) == Some(info.user.token@),
        step(s, Msg::Response(Ok(info))).error is None,
        step(s, Msg::Response(Ok(info))).task is None,
{
}

/// A failed sign-in leaves the token as it was and shows the failure that
/// came back, whatever failure was shown before.
pub proof fn lemma_failure_keeps_token(s: LoginModel, token: Option<Seq<char>>, err: Error)
    ensures
        token_after(token, Msg::Response(Err(err))) == token,
        step(s, Msg::Response(Err(err))).error == Some(err),
        step(s, Msg::Response(Err(err))).task is None,
{
}

/// Editing one form field changes that field alone, leaves the token and the
/// call in flight as they were, and issues no call.
pub proof fn lemma_field_edit_is_local(s: LoginModel, token: Option<Seq<char>>, text: String)
    ensures
        step(s, Msg::UpdateEmail(text)).request.email == text,
        step(s, Msg::UpdateEmail(text)).request.password == s.request.password,
        step(s, Msg::UpdateEmail(text)).error == s.error,
        step(s, Msg::UpdateEmail(text)).task == s.task,
        effects(s, Msg::UpdateEmail(text)).len() == 0,
        token_after(token, Msg::UpdateEmail(text)) == token,
        step(s, Msg::UpdatePassword(text)).request.password == text,
        step(s, Msg::UpdatePassword(text)).request.email == s.request.email,
        step(s, Msg::UpdatePassword(text)).error == s.error,
        step(s, Msg::UpdatePassword(text)).task == s.task,
        effects(s, Msg::UpdatePassword(text)).len() == 0,
        token_after(token, Msg::UpdatePassword(text)) == token,
{
}

/// The sign-in page: the form, the call in flight and the last failure.
pub struct Login {
    request: LoginInfo,
    error: Option<Error>,
    task: Option<u64>,
    next: u64,
}

impl View for Login {
    type V = LoginModel;

    closed spec fn view(&self) -> LoginModel {
        LoginModel { request: self.request, error: self.error, task: self.task, next: self.next }
    }
}

impl Login {
    /// A page with an empty form, no failure and nothing in flight.
    pub fn create() -> (r: Login)
        ensures
            r@.request.email@ == Seq::<char>::empty(),
            r@.request.password@ == Seq::<char>::empty(),
            r@.error is None,
            r@.task is None,
            r@.next == 0,
    {
        Login { request: LoginInfo::default(), error: None, task: None, next: 0 }
    }

    /// Applies `msg`: changes the page as `step` says, stores the token of a
    /// successful sign-in in `session`, and returns the work of `effects`.
    /// The page is always drawn again.
    pub fn update(&mut self, session: &mut Session, msg: Msg) -> (r: Update)
        ensures
            final(self)@ == step(old(self)@, msg),
            final(session)@ == token_after(old(session)@, msg),
            r.effects@ == effects(old(self)@, msg),
            r.render,
    {
        let mut work: Vec<Effect> = Vec::new();
        match msg {
            Msg::Request => {
                let id = self.next;
                let user = LoginInfo {
                    email: self.request.email.clone(),
                    password: self.request.password.clone(),
                };
                self.task = Some(id);
                self.next = if id == u64::MAX {
                    0
                } else {
                    id + 1
                };
                work.push(Effect::Login(id, LoginInfoWrapper { user }));
            },
            Msg::Response(Ok(info)) => {
                session.set_token(Some(info.user.token.clone()));
                self.error = None;
                self.task = None;
                work.push(Effect::Emit(info.user));
                work.push(Effect::RouteHome);
            },
            Msg::Response(Err(err)) => {
                self.error = Some(err);
                self.task = None;
            },
            Msg::UpdateEmail(email) => {
                self.request.email = email;
            },
            Msg::UpdatePassword(password) => {
                self.request.password = password;
            },
            Msg::Ignore => {},
        }
        proof {
            assert(work@ =~= effects(old(self)@, msg));
        }
        Update { render: true, effects: work }
    }

    /// The form values, as the inputs show them.
    pub fn request(&self) -> (r: &LoginInfo)
        ensures
            *r == self@.request,
    {
        &self.request
    }

    /// The last failure, shown above the form.
    pub fn error(&self) -> (r: Option<&Error>)
        ensures
            match r {
                Some(e) => self@.error == Some(*e),
                None => self@.error is None,
            },
    {
        self.error.as_ref()
    }

    /// The handle of the sign-in call in flight, if any.
    pub fn task(&self) -> (r: Option<u64>)
        ensures
            r == self@.task,
    {
        self.task
    }

    /// Whether a sign-in call is in flight.
    pub fn is_requesting(&self) -> (r: bool)
        ensures
            r == (self@.task is Some),
    {
        self.task.is_some()
    }
}

} // verus!
