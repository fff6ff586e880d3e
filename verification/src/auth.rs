use vstd::prelude::*;

verus! {

/// A signed-in account: its tokens and what the profile tells of the user.
#[derive(Clone, Debug, PartialEq, Eq)]
pub struct AuthSession {
    pub access_token: String,
    pub refresh_token: String,
    pub email: Option<String>,
    pub username: Option<String>,
}

/// The message shown next to the account controls.
#[derive(Clone, Debug, PartialEq, Eq)]
pub enum AuthMessage {
    /// Sign-in continues in the browser.
    SignInPrompt,
    /// A request failed with this error.
    Error(String),
}

/// A request for the authentication service.
#[derive(Clone, Debug, PartialEq, Eq)]
pub enum AuthRequest {
    SignIn,
    Refresh { refresh_token: String },
    SignOut { access_token: Option<String> },
    OpenSignupPage,
}

/// A reply of the authentication service.
#[derive(Debug, PartialEq, Eq)]
pub enum AuthServiceMessage {
    SignedIn(Result<AuthSession, String>),
    Refreshed(Result<AuthSession, String>),
    SignedOut(Result<(), String>),
}

/// The account state and the requests waiting to be sent.
pub struct AuthState {
    pub session: Option<AuthSession>,
    pub pending: bool,
    pub refresh_started: bool,
    pub message: Option<AuthMessage>,
    pub requests: Vec<AuthRequest>,
}

/// The account state with the queued requests as a sequence.
pub struct AuthView {
    pub session: Option<AuthSession>,
    pub pending: bool,
    pub refresh_started: bool,
    pub message: Option<AuthMessage>,
    pub requests: Seq<AuthRequest>,
}

impl View for AuthState {
    type V = AuthView;

    open spec fn view(&self) -> AuthView {
        AuthView {
            session: self.session,
            pending: self.pending,
            refresh_started: self.refresh_started,
            message: self.message,
            requests: self.requests@,
        }
    }
}

/// The name shown for the account: the profile's username, else the email.
pub open spec fn display_name_of(session: Option<AuthSession>) -> Option<String> {
    match session {
        Some(s) => match s.username {
            Some(u) => Some(u),
            None => s.email,
        },
        None => None,
    }
}

impl AuthView {
    /// Starting a sign-in: ignored while a request is pending.
    pub open spec fn after_submit_sign_in(self) -> AuthView {
        if self.pending {
            self
        } else {
            AuthView {
                pending: true,
                message: Some(AuthMessage::SignInPrompt),
                requests: self.requests.push(AuthRequest::SignIn),
                ..self
            }
        }
    }

    /// Refreshing the session: only with a session, nothing pending and no
    /// refresh started yet.
    pub open spec fn after_refresh(self) -> AuthView {
        if self.pending || self.refresh_started {
            self
        } else {
            match self.session {
                None => self,
                Some(s) => AuthView {
                    refresh_started: true,
                    requests: self.requests.push(AuthRequest::Refresh { refresh_token: s.refresh_token }),
                    ..self
                },
            }
        }
    }

    /// Signing out: ignored while a request is pending.
    pub open spec fn after_sign_out(self) -> AuthView {
        if self.pending {
            self
        } else {
            AuthView {
                pending: true,
                message: None,
                requests: self.requests.push(
                    AuthRequest::SignOut {
                        access_token: match self.session {
                            Some(s) => Some(s.access_token),
                            None => None,
                        },
                    },
                ),
                ..self
            }
        }
    }

    /// Opening the sign-up page.
    pub open spec fn after_open_signup(self) -> AuthView {
        AuthView { requests: self.requests.push(AuthRequest::OpenSignupPage), ..self }
    }

    /// Applying the outcome of a sign-in.
    pub open spec fn after_sign_in_result(self, result: Result<AuthSession, String>) -> AuthView {
        match result {
            Ok(session) => AuthView {
                pending: false,
                session: Some(session),
                refresh_started: true,
                message: None,
                ..self
            },
            Err(e) => AuthView { pending: false, message: Some(AuthMessage::Error(e)), ..self },
        }
    }

    /// Applying the outcome of a refresh.
    pub open spec fn after_refresh_result(self, result: Result<AuthSession, String>) -> AuthView {
        match result {
            Ok(session) => AuthView { session: Some(session), refresh_started: true, ..self },
            Err(e) => AuthView {
                session: None,
                refresh_started: false,
                message: Some(AuthMessage::Error(e)),
                ..self
            },
        }
    }

    /// Applying the outcome of a sign-out.
    pub open spec fn after_sign_out_result(self, result: Result<(), String>) -> AuthView {
        AuthView {
            pending: false,
            refresh_started: false,
            session: None,
            message: match result {
                Ok(_) => None,
                Err(e) => Some(AuthMessage::Error(e)),
            },
            ..self
        }
    }

    /// Applying one service reply.
    pub open spec fn after_message(self, m: AuthServiceMessage) -> AuthView {
        match m {
            AuthServiceMessage::SignedIn(r) => self.after_sign_in_result(r),
            AuthServiceMessage::Refreshed(r) => self.after_refresh_result(r),
            AuthServiceMessage::SignedOut(r) => self.after_sign_out_result(r),
        }
    }

    /// Applying the first `k` replies in order.
    pub open spec fn after_messages(self, ms: Seq<AuthServiceMessage>, k: int) -> AuthView
        decreases k,
    {
        if k <= 0 {
            self
        } else {
            self.after_messages(ms, k - 1).after_message(ms[k - 1])
        }
    }

    /// A polling round: refresh a signed-in session not yet refreshed, then
    /// apply every reply in order.
    pub open spec fn after_update(self, ms: Seq<AuthServiceMessage>) -> AuthView {
        let first = if self.session is Some && !self.refresh_started {
            self.after_refresh()
        } else {
            self
        };
        first.after_messages(ms, ms.len() as int)
    }
}

impl AuthState {
    /// No session, nothing pending, no message, no request.
    pub fn new() -> (r: Self)
        ensures
            r@.session is None,
            !r@.pending,
            !r@.refresh_started,
            r@.message is None,
            r@.requests.len() == 0,
    {
        AuthState {
            session: None,
            pending: false,
            refresh_started: false,
            message: None,
            requests: Vec::new(),
        }
    }

    /// The profile's username when there is one, else the account's email.
    pub fn auth_display_name(&self) -> (r: Option<String>)
        ensures
            r == display_name_of(self.session),
    {
        match &self.session {
            Some(s) => match &s.username {
                Some(u) => Some(u.clone()),
                None => s.email.clone(),
            },
            None => None,
        }
    }

    /// Whether a sign-in or sign-out request is outstanding.
    pub fn auth_pending(&self) -> (r: bool)
        ensures
            r == self.pending,
    {
        self.pending
    }

    /// The message to show, if any.
    pub fn auth_message(&self) -> (r: Option<AuthMessage>)
        ensures
            r == self.message,
    {
        match &self.message {
            Some(AuthMessage::SignInPrompt) => Some(AuthMessage::SignInPrompt),
            Some(AuthMessage::Error(e)) => Some(AuthMessage::Error(e.clone())),
            None => None,
        }
    }

    /// Starts a browser sign-in unless a request is pending.
    pub fn submit_auth_sign_in(&mut self)
        ensures
            final(self)@ == old(self)@.after_submit_sign_in(),
    {
        if self.pending {
            return;
        }
        self.pending = true;
        self.message = Some(AuthMessage::SignInPrompt);
        self.requests.push(AuthRequest::SignIn);
    }

    /// Asks for a refreshed session when signed in, nothing is pending and no
    /// refresh has started.
    pub fn refresh_auth_session(&mut self)
        ensures
            final(self)@ == old(self)@.after_refresh(),
    {
        if self.pending || self.refresh_started {
            return;
        }
        let token = match &self.session {
            Some(s) => s.refresh_token.clone(),
            None => {
                return;
            },
        };
        self.refresh_started = true;
        self.requests.push(AuthRequest::Refresh { refresh_token: token });
    }

    /// Signs out unless a request is pending.
    pub fn sign_out_auth_session(&mut self)
        ensures
            final(self)@ == old(self)@.after_sign_out(),
    {
        if self.pending {
            return;
        }
        let access_token = match &self.session {
            Some(s) => Some(s.access_token.clone()),
            None => None,
        };
        self.pending = true;
        self.message = None;
        self.requests.push(AuthRequest::SignOut { access_token });
    }

    /// Asks for the sign-up page to be opened.
    pub fn open_auth_signup_page(&mut self)
        ensures
            final(self)@ == old(self)@.after_open_signup(),
    {
        self.requests.push(AuthRequest::OpenSignupPage);
    }

    /// Applies the outcome of a sign-in.
    pub fn complete_auth_sign_in(&mut self, result: Result<AuthSession, String>)
        ensures
            final(self)@ == old(self)@.after_sign_in_result(result),
    {
        self.pending = false;
        match result {
            Ok(session) => {
                self.session = Some(session);
                self.refresh_started = true;
                self.message = None;
            },
            Err(error) => {
                self.message = Some(AuthMessage::Error(error));
            },
        }
    }

    /// Applies the outcome of a refresh.
    pub fn complete_auth_refresh(&mut self, result: Result<AuthSession, String>)
        ensures
            final(self)@ == old(self)@.after_refresh_result(result),
    {
        match result {
            Ok(session) => {
                self.session = Some(session);
                self.refresh_started = true;
            },
            Err(error) => {
                self.session = None;
                self.refresh_started = false;
                self.message = Some(AuthMessage::Error(error));
            },
        }
    }

    /// Applies the outcome of a sign-out.
    pub fn complete_auth_sign_out(&mut self, result: Result<(), String>)
        ensures
            final(self)@ == old(self)@.after_sign_out_result(result),
    {
        self.pending = false;
        self.refresh_started = false;
        self.session = None;
        match result {
            Ok(()) => {
                self.message = None;
            },
            Err(error) => {
                self.message = Some(AuthMessage::Error(error));
            },
        }
    }

    /// Refreshes a signed-in session that has not been refreshed, then
    /// applies the service's replies in order.
    pub fn update_auth_results(&mut self, messages: Vec<AuthServiceMessage>)
        ensures
            final(self)@ == old(self)@.after_update(messages@),
    {
        if self.session.is_some() && !self.refresh_started {
            self.refresh_auth_session();
        }
        let ghost first = self@;
        let ghost all = messages@;
        assert(all.len() == messages.len());
        let mut rest = messages;
        let mut k: usize = 0;
        while rest.len() > 0
            invariant
                k <= all.len(),
                all.len() <= usize::MAX,
                rest@ == all.subrange(k as int, all.len() as int),
                self@ == first.after_messages(all, k as int),
            decreases rest.len(),
        {
            let m = rest.remove(0);
            assert(m == all[k as int]);
            match m {
                AuthServiceMessage::SignedIn(r) => self.complete_auth_sign_in(r),
                AuthServiceMessage::Refreshed(r) => self.complete_auth_refresh(r),
                AuthServiceMessage::SignedOut(r) => self.complete_auth_sign_out(r),
            }
            k = k + 1;
            assert(rest@ =~= all.subrange(k as int, all.len() as int));
        }
        assert(k == all.len());
    }
}

} // verus!
