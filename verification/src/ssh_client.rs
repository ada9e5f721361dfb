//! One host: its configuration and the life of its session.
//!
//! [`SshClient`] holds what is needed to reach one host, and the session with
//! it once there is one. The session is of a type `S` that the embedding
//! program chooses; nothing here looks inside it, and nothing here touches
//! the network. What is done on the wire is handed in: a function that
//! carries out a plan to connect, and a function that performs an operation
//! on a session. [`SshClient::execute`], [`SshClient::scp_download`] and
//! [`SshClient::scp_upload`] decide when each is called: the first only
//! when there is no session, the second unless connecting has failed. A
//! session that was made is kept for the operations that follow, until
//! [`SshClient::disconnect`].
//!
//! A program that cannot hand functions in asks [`SshClient::request`] for
//! the next [`Step`], does what it says, and reports an attempt to connect
//! with [`SshClient::establish`].

use vstd::prelude::*;
use vstd::string::*;
use crate::failure::{Failure, FailureKind, FailureView};
use crate::host::Endpoint;

verus! {

/// Output of a command executed over SSH.
#[derive(Debug, PartialEq, Eq)]
pub struct CommandOutput {
    /// Exit status
    pub exit_status: i32,
    /// Standard error
    pub stderr: Vec<u8>,
    /// Standard output
    pub stdout: Vec<u8>,
}

impl Clone for CommandOutput {
    fn clone(&self) -> (copy: Self)
        ensures
            copy.exit_status == self.exit_status,
            copy.stderr@ == self.stderr@,
            copy.stdout@ == self.stdout@,
    {
        CommandOutput {
            exit_status: self.exit_status,
            stderr: self.stderr.clone(),
            stdout: self.stdout.clone(),
        }
    }
}

/// How a client proves who it is. Exactly one method is chosen at a time.
#[derive(Debug, PartialEq, Eq)]
pub enum SshAuth {
    /// The first identity held by a running SSH agent.
    Agent,
    /// A password.
    Password(String),
    /// A private key file, given by its path.
    Pubkey(String),
}

/// Mathematical value of an [`SshAuth`].
pub enum AuthView {
    Agent,
    Password(Seq<char>),
    Pubkey(Seq<char>),
}

impl View for SshAuth {
    type V = AuthView;

    open spec fn view(&self) -> AuthView {
        match self {
            SshAuth::Agent => AuthView::Agent,
            SshAuth::Password(password) => AuthView::Password(password@),
            SshAuth::Pubkey(path) => AuthView::Pubkey(path@),
        }
    }
}

impl Clone for SshAuth {
    fn clone(&self) -> (copy: Self)
        ensures
            copy == *self,
    {
        match self {
            SshAuth::Agent => SshAuth::Agent,
            SshAuth::Password(password) => SshAuth::Password(password.clone()),
            SshAuth::Pubkey(path) => SshAuth::Pubkey(path.clone()),
        }
    }
}

/// One thing to do on the wire while connecting. The steps of a plan are
/// carried out in order; the first that fails ends the attempt.
#[derive(Debug, PartialEq, Eq)]
pub enum ConnectStep {
    /// Create the session.
    OpenSession,
    /// Bound every blocking call of the session to so many milliseconds.
    /// A plan never asks for a bound of zero, which a session takes for no
    /// bound.
    LimitSession(u32),
    /// Open the transport to the endpoint and attach it to the session,
    /// waiting at most `timeout_ms` milliseconds, or as long as it takes if
    /// there is none.
    Dial { addr: Endpoint, timeout_ms: Option<u64> },
    /// Perform the protocol handshake.
    Handshake,
    /// Authenticate `user` with the given method.
    Authenticate { user: String, auth: SshAuth },
    /// Ask the session whether it is authenticated; if it is not, the
    /// attempt has failed.
    ConfirmAuthenticated,
}

/// Mathematical value of a [`ConnectStep`].
pub enum ConnectStepView {
    OpenSession,
    LimitSession(nat),
    Dial { addr: Seq<char>, port: nat, timeout_ms: Option<nat> },
    Handshake,
    Authenticate { user: Seq<char>, auth: AuthView },
    ConfirmAuthenticated,
}

impl View for ConnectStep {
    type V = ConnectStepView;

    open spec fn view(&self) -> ConnectStepView {
        match self {
            ConnectStep::OpenSession => ConnectStepView::OpenSession,
            ConnectStep::LimitSession(ms) => ConnectStepView::LimitSession(*ms as nat),
            ConnectStep::Dial { addr, timeout_ms } => ConnectStepView::Dial {
                addr: addr.addr@,
                port: addr.port as nat,
                timeout_ms: match timeout_ms {
                    Some(ms) => Some(*ms as nat),
                    None => None,
                },
            },
            ConnectStep::Handshake => ConnectStepView::Handshake,
            ConnectStep::Authenticate { user, auth } => ConnectStepView::Authenticate {
                user: user@,
                auth: auth@,
            },
            ConnectStep::ConfirmAuthenticated => ConnectStepView::ConfirmAuthenticated,
        }
    }
}

impl ConnectStepView {
    /// The kind of failure that a failure of this step is: up to the
    /// handshake the transport has failed, from then on the authentication.
    pub open spec fn failure_kind(self) -> FailureKind {
        match self {
            ConnectStepView::Authenticate { .. } => FailureKind::Authentication,
            ConnectStepView::ConfirmAuthenticated => FailureKind::Authentication,
            _ => FailureKind::Transport,
        }
    }
}

impl ConnectStep {
    /// The kind of failure that a failure of this step is.
    pub fn failure_kind(&self) -> (kind: FailureKind)
        ensures
            kind == self@.failure_kind(),
    {
        match self {
            ConnectStep::Authenticate { .. } => FailureKind::Authentication,
            ConnectStep::ConfirmAuthenticated => FailureKind::Authentication,
            _ => FailureKind::Transport,
        }
    }
}

/// The bound on a session's blocking calls that stands for a timeout: the
/// timeout itself, or the greatest bound that a session takes if the timeout
/// is greater.
pub open spec fn session_limit(timeout: nat) -> nat {
    if timeout > u32::MAX {
        u32::MAX as nat
    } else {
        timeout
    }
}

/// The failure of a session that is not authenticated after its
/// authentication.
pub open spec fn not_authenticated() -> FailureView {
    FailureView { kind: FailureKind::Authentication, message: "Authentication failed"@ }
}

/// The failure of a plan that was carried out and left no session.
pub open spec fn no_session() -> FailureView {
    FailureView { kind: FailureKind::Transport, message: "no session was opened"@ }
}

/// Confirms an authentication: a session that says it is not authenticated
/// has failed to authenticate, whatever the authentication itself said.
pub fn confirm_authenticated(authenticated: bool) -> (confirmed: Result<(), Failure>)
    ensures
        confirmed is Ok <==> authenticated,
        confirmed matches Err(failure) ==> failure@ == not_authenticated(),
{
    if authenticated {
        Ok(())
    } else {
        Err(Failure::new(FailureKind::Authentication, "Authentication failed"))
    }
}

/// Whether taking the first `k` steps of `plan` in order, each with `take`,
/// may lead from no session to `state` without a step failing.
pub open spec fn taken<S, F: Fn(&ConnectStep, Option<S>) -> Result<Option<S>, String>>(
    plan: Seq<ConnectStep>,
    take: F,
    k: int,
    state: Option<S>,
) -> bool
    decreases k,
{
    if k <= 0 {
        state is None
    } else {
        exists|before: Option<S>|
            taken(plan, take, k - 1, before) && #[trigger] take.ensures(
                (&plan[k - 1], before),
                Ok::<Option<S>, String>(state),
            )
    }
}

/// Whether `failure` is that of step `k` of `plan`: the steps before it were
/// taken, `take` failed on it, and the failure is of the step's kind with
/// the message that `take` gave.
pub open spec fn failed_at<S, F: Fn(&ConnectStep, Option<S>) -> Result<Option<S>, String>>(
    plan: Seq<ConnectStep>,
    take: F,
    k: int,
    failure: FailureView,
) -> bool {
    &&& 0 <= k < plan.len()
    &&& exists|before: Option<S>, message: String|
        {
            &&& taken(plan, take, k, before)
            &&& #[trigger] take.ensures((&plan[k], before), Err::<Option<S>, String>(message))
            &&& failure == (FailureView { kind: plan[k]@.failure_kind(), message: message@ })
        }
}

/// Carries a plan out: takes its steps in order, each with `take`, which is
/// handed the step and the session as far as it is made. The first step
/// that fails ends the attempt, and no step after it is taken; the failure
/// is of that step's kind. A plan whose steps were all taken and left no
/// session has failed too.
pub fn carry_out<S, F>(plan: &Vec<ConnectStep>, take: F) -> (attempt: Result<S, Failure>) where
    F: Fn(&ConnectStep, Option<S>) -> Result<Option<S>, String>,

    requires
        forall|step: &ConnectStep, state: Option<S>| take.requires((step, state)),
    ensures
        match attempt {
            Ok(session) => taken(plan@, take, plan@.len() as int, Some(session)),
            Err(failure) => (exists|k: int| #[trigger] failed_at(plan@, take, k, failure@)) || (
            taken(plan@, take, plan@.len() as int, None::<S>) && failure@ == no_session()),
        },
{
    let n: usize = plan.len();
    let mut state: Option<S> = None;
    let mut k: usize = 0;
    while k < n
        invariant
            n == plan@.len(),
            k <= n,
            taken(plan@, take, k as int, state),
            forall|step: &ConnectStep, state: Option<S>| take.requires((step, state)),
        decreases n - k,
    {
        let step: &ConnectStep = &plan[k];
        let ghost before = state;
        match take(step, state) {
            Ok(next) => {
                assert(taken(plan@, take, k + 1, next)) by {
                    assert(take.ensures((&plan@[k + 1 - 1], before), Ok::<Option<S>, String>(next)));
                }
                state = next;
            },
            Err(message) => {
                let failure: Failure = Failure::new(step.failure_kind(), message.as_str());
                assert(failed_at(plan@, take, k as int, failure@));
                return Err(failure);
            },
        }
        k = k + 1;
    }
    match state {
        Some(session) => Ok(session),
        None => Err(Failure::new(FailureKind::Transport, "no session was opened")),
    }
}

/// The values of the steps of a plan.
pub open spec fn plan_view(steps: Seq<ConnectStep>) -> Seq<ConnectStepView> {
    steps.map_values(|step: ConnectStep| step@)
}

/// An operation on one host.
#[derive(Debug, PartialEq, Eq)]
pub enum Request {
    /// Run a command.
    Execute { command: String },
    /// Copy a remote file to a local path.
    Download { remote_path: String, local_path: String },
    /// Copy a local file to a remote path.
    Upload { local_path: String, remote_path: String },
}

/// Mathematical value of a [`Request`].
pub enum RequestView {
    Execute { command: Seq<char> },
    Download { remote_path: Seq<char>, local_path: Seq<char> },
    Upload { local_path: Seq<char>, remote_path: Seq<char> },
}

impl View for Request {
    type V = RequestView;

    open spec fn view(&self) -> RequestView {
        match self {
            Request::Execute { command } => RequestView::Execute { command: command@ },
            Request::Download { remote_path, local_path } => RequestView::Download {
                remote_path: remote_path@,
                local_path: local_path@,
            },
            Request::Upload { local_path, remote_path } => RequestView::Upload {
                local_path: local_path@,
                remote_path: remote_path@,
            },
        }
    }
}

impl Clone for Request {
    fn clone(&self) -> (copy: Self)
        ensures
            copy == *self,
    {
        match self {
            Request::Execute { command } => Request::Execute { command: command.clone() },
            Request::Download { remote_path, local_path } => Request::Download {
                remote_path: remote_path.clone(),
                local_path: local_path.clone(),
            },
            Request::Upload { local_path, remote_path } => Request::Upload {
                local_path: local_path.clone(),
                remote_path: remote_path.clone(),
            },
        }
    }
}

/// What to do next for an operation on one host.
#[derive(Debug, PartialEq, Eq)]
pub enum Step {
    /// There is no session: carry out this plan, report the attempt with
    /// [`SshClient::establish`], and ask again.
    Connect(Vec<ConnectStep>),
    /// There is a session: perform the operation on it.
    Perform(Request),
}

/// Mathematical value of a [`Step`].
pub enum StepView {
    Connect(Seq<ConnectStepView>),
    Perform(RequestView),
}

impl View for Step {
    type V = StepView;

    open spec fn view(&self) -> StepView {
        match self {
            Step::Connect(plan) => StepView::Connect(plan_view(plan@)),
            Step::Perform(request) => StepView::Perform(request@),
        }
    }
}

/// The failure of making a client for a name that resolved to no address.
pub open spec fn no_address() -> FailureView {
    FailureView {
        kind: FailureKind::AddressResolution,
        message: "Socket address conversion failed"@,
    }
}

/// SSH client for a single host, with a session of type `S`.
pub struct SshClient<S> {
    addr: Endpoint,
    auth: SshAuth,
    session: Option<S>,
    timeout: u64,
    user: String,
}

/// Mathematical value of an [`SshClient`].
pub struct ClientView<S> {
    pub user: Seq<char>,
    pub addr: Seq<char>,
    pub port: nat,
    pub auth: AuthView,
    pub timeout: nat,
    pub session: Option<S>,
}

impl<S> ClientView<S> {
    /// A client that was just made: agent authentication, no timeout, no
    /// session.
    pub open spec fn fresh(user: Seq<char>, addr: Seq<char>, port: nat) -> ClientView<S> {
        ClientView { user, addr, port, auth: AuthView::Agent, timeout: 0, session: None }
    }

    /// What connecting takes. The timeout, if there is one, bounds the
    /// opening of the transport and the session's blocking calls. A session
    /// takes no bound above [`u32::MAX`] milliseconds: a greater timeout
    /// bounds its calls to that many, and never to fewer.
    pub open spec fn connect_plan(self) -> Seq<ConnectStepView> {
        let dial = ConnectStepView::Dial {
            addr: self.addr,
            port: self.port,
            timeout_ms: if self.timeout == 0 {
                None
            } else {
                Some(self.timeout)
            },
        };
        let open = if self.timeout == 0 {
            seq![ConnectStepView::OpenSession, dial]
        } else {
            seq![
                ConnectStepView::OpenSession,
                ConnectStepView::LimitSession(session_limit(self.timeout)),
                dial,
            ]
        };
        open + seq![
            ConnectStepView::Handshake,
            ConnectStepView::Authenticate { user: self.user, auth: self.auth },
            ConnectStepView::ConfirmAuthenticated,
        ]
    }

    /// The next step for an operation: with a session the operation itself,
    /// without one the plan to get one.
    pub open spec fn next_step(self, request: RequestView) -> StepView {
        if self.session is Some {
            StepView::Perform(request)
        } else {
            StepView::Connect(self.connect_plan())
        }
    }

    /// The client after an attempt to connect: a session that was made is
    /// cached in place of any earlier one; after a failed attempt there is
    /// none.
    pub open spec fn after_connect(self, attempt: Result<S, Failure>) -> ClientView<S> {
        ClientView {
            session: match attempt {
                Ok(session) => Some(session),
                Err(_) => None,
            },
            ..self
        }
    }

    /// The client after its session was dropped.
    pub open spec fn after_disconnect(self) -> ClientView<S> {
        ClientView { session: None, ..self }
    }
}

impl<S> View for SshClient<S> {
    type V = ClientView<S>;

    closed spec fn view(&self) -> ClientView<S> {
        ClientView {
            user: self.user@,
            addr: self.addr.addr@,
            port: self.addr.port as nat,
            auth: self.auth@,
            timeout: self.timeout as nat,
            session: self.session,
        }
    }
}

impl<S> SshClient<S> {
    /// Constructs a client for the given user at the given endpoint. It
    /// authenticates through the agent, has no timeout and no session.
    pub fn from(user: &str, addr: Endpoint) -> (client: Self)
        ensures
            client@ == ClientView::<S>::fresh(user@, addr.addr@, addr.port as nat),
    {
        SshClient {
            addr,
            auth: SshAuth::Agent,
            session: None,
            timeout: 0,
            user: String::from_str(user),
        }
    }

    /// Constructs a client from the outcome of resolving a host name: for
    /// the first endpoint found, if the lookup succeeded and found one.
    pub fn try_from(user: &str, resolved: Result<Vec<Endpoint>, Failure>) -> (client: Result<
        Self,
        Failure,
    >)
        ensures
            match resolved {
                Ok(found) => if found@.len() > 0 {
                    client matches Ok(c) && c@ == ClientView::<S>::fresh(
                        user@,
                        found@[0].addr@,
                        found@[0].port as nat,
                    )
                } else {
                    client matches Err(f) && f@ == no_address()
                },
                Err(failure) => client matches Err(f) && f == failure,
            },
    {
        match resolved {
            Ok(mut found) => {
                if found.len() > 0 {
                    let first: Endpoint = found.swap_remove(0);
                    Ok(SshClient::from(user, first))
                } else {
                    Err(
                        Failure::new(
                            FailureKind::AddressResolution,
                            "Socket address conversion failed",
                        ),
                    )
                }
            },
            Err(failure) => Err(failure),
        }
    }

    /// Configures this client to authenticate through the agent, with the
    /// first identity that the agent holds.
    pub fn set_auth_agent(&mut self) -> (this: &mut Self)
        ensures
            this@ == (ClientView { auth: AuthView::Agent, ..old(self)@ }),
            *final(self) == *final(this),
    {
        self.auth = SshAuth::Agent;
        self
    }

    /// Configures this client to authenticate with a password.
    pub fn set_auth_password(&mut self, password: &str) -> (this: &mut Self)
        ensures
            this@ == (ClientView { auth: AuthView::Password(password@), ..old(self)@ }),
            *final(self) == *final(this),
    {
        self.auth = SshAuth::Password(String::from_str(password));
        self
    }

    /// Configures this client to authenticate with the private key stored
    /// in the file at `path`.
    pub fn set_auth_pubkey(&mut self, path: &str) -> (this: &mut Self)
        ensures
            this@ == (ClientView { auth: AuthView::Pubkey(path@), ..old(self)@ }),
            *final(self) == *final(this),
    {
        self.auth = SshAuth::Pubkey(String::from_str(path));
        self
    }

    /// Configures this client to use a timeout, in milliseconds, for
    /// blocking calls. Zero means no timeout.
    pub fn set_timeout(&mut self, timeout_ms: u64) -> (this: &mut Self)
        ensures
            this@ == (ClientView { timeout: timeout_ms as nat, ..old(self)@ }),
            *final(self) == *final(this),
    {
        self.timeout = timeout_ms;
        self
    }

    /// Returns the endpoint of this client's host.
    pub fn get_addr(&self) -> (addr: &Endpoint)
        ensures
            addr.addr@ == self@.addr,
            addr.port == self@.port,
    {
        &self.addr
    }

    /// Returns the authentication method of this client.
    pub fn get_auth(&self) -> (auth: &SshAuth)
        ensures
            auth@ == self@.auth,
    {
        &self.auth
    }

    /// Returns the timeout, in milliseconds; zero means no timeout.
    pub fn get_timeout(&self) -> (timeout_ms: u64)
        ensures
            timeout_ms == self@.timeout,
    {
        self.timeout
    }

    /// Returns the user name of this client.
    pub fn get_user(&self) -> (user: &str)
        ensures
            user@ == self@.user,
    {
        self.user.as_str()
    }

    /// Returns whether this client holds a session.
    pub fn is_connected(&self) -> (connected: bool)
        ensures
            connected == (self@.session is Some),
    {
        self.session.is_some()
    }

    /// Returns the cached session, if there is one.
    pub fn session(&self) -> (session: Option<&S>)
        ensures
            match session {
                Some(s) => self@.session == Some(*s),
                None => self@.session is None,
            },
    {
        self.session.as_ref()
    }

    /// Returns what connecting to this client's host takes.
    pub fn connect_plan(&self) -> (plan: Vec<ConnectStep>)
        ensures
            plan_view(plan@) == self@.connect_plan(),
    {
        let mut plan: Vec<ConnectStep> = Vec::new();
        plan.push(ConnectStep::OpenSession);
        if self.timeout == 0 {
            plan.push(ConnectStep::Dial { addr: self.addr.clone(), timeout_ms: None });
        } else {
            let limit: u32 = if self.timeout > u32::MAX as u64 {
                u32::MAX
            } else {
                self.timeout as u32
            };
            plan.push(ConnectStep::LimitSession(limit));
            plan.push(ConnectStep::Dial { addr: self.addr.clone(), timeout_ms: Some(self.timeout) });
        }
        plan.push(ConnectStep::Handshake);
        plan.push(ConnectStep::Authenticate { user: self.user.clone(), auth: self.auth.clone() });
        plan.push(ConnectStep::ConfirmAuthenticated);
        assert(plan_view(plan@) =~= self@.connect_plan());
        plan
    }

    /// Returns the next step for `request`: the request itself if there is
    /// a session, else the plan to connect.
    pub fn request(&self, request: Request) -> (step: Step)
        ensures
            step@ == self@.next_step(request@),
    {
        if self.session.is_some() {
            Step::Perform(request)
        } else {
            Step::Connect(self.connect_plan())
        }
    }

    /// Records the outcome of an attempt to connect. A session that was
    /// made is cached, and replaces any earlier one, which is dropped. After
    /// a failed attempt the client holds no session, whatever it held
    /// before, and the failure is handed back.
    pub fn establish(&mut self, attempt: Result<S, Failure>) -> (outcome: Result<(), Failure>)
        ensures
            final(self)@ == old(self)@.after_connect(attempt),
            match attempt {
                Ok(_) => outcome is Ok,
                Err(failure) => outcome == Err::<(), Failure>(failure),
            },
    {
        match attempt {
            Ok(session) => {
                self.session = Some(session);
                Ok(())
            },
            Err(failure) => {
                self.session = None;
                Err(failure)
            },
        }
    }

    /// Connects: has `dial` carry out the plan and records the outcome. The
    /// session that `dial` makes is cached in place of any earlier one; if
    /// `dial` fails, the client is left without a session and the failure
    /// is handed back.
    pub fn connect<C>(&mut self, dial: C) -> (outcome: Result<(), Failure>) where
        C: FnOnce(Vec<ConnectStep>) -> Result<S, Failure>,

        requires
            forall|plan: Vec<ConnectStep>| dial.requires((plan,)),
        ensures
            exists|attempt: Result<S, Failure>|
                {
                    &&& #[trigger] dialed(old(self)@, dial, attempt)
                    &&& final(self)@ == old(self)@.after_connect(attempt)
                    &&& match attempt {
                        Ok(_) => outcome is Ok,
                        Err(failure) => outcome == Err::<(), Failure>(failure),
                    }
                },
    {
        let plan: Vec<ConnectStep> = self.connect_plan();
        let attempt: Result<S, Failure> = dial(plan);
        assert(dialed(old(self)@, dial, attempt));
        self.establish(attempt)
    }

    /// Sees to it that there is a session: has `dial` make one of the plan
    /// if there is none, and leaves `dial` alone if there is one.
    fn ensure_session<C>(&mut self, dial: C) -> (outcome: Result<(), Failure>) where
        C: FnOnce(Vec<ConnectStep>) -> Result<S, Failure>,

        requires
            old(self)@.session is None ==> forall|plan: Vec<ConnectStep>| dial.requires((plan,)),
        ensures
            outcome is Ok ==> final(self)@.session is Some,
            carried_out(
                old(self)@,
                final(self)@,
                dial,
                outcome,
                |session: S| final(self)@.session == Some(session) && outcome is Ok,
            ),
    {
        if self.session.is_none() {
            let plan: Vec<ConnectStep> = self.connect_plan();
            let attempt: Result<S, Failure> = dial(plan);
            assert(dialed(old(self)@, dial, attempt));
            self.establish(attempt)
        } else {
            Ok(())
        }
    }

    /// Carries `request` out: on the cached session if there is one, else
    /// on the session that `dial` makes of the plan. `dial` is called only
    /// if there is no session, and `perform` unless the attempt to connect
    /// fails, in which case that failure is the outcome. Of `dial` nothing
    /// is asked where a session is cached: there it cannot be called, and
    /// no connection is made.
    pub fn run<T, C, P>(&mut self, request: Request, dial: C, perform: P) -> (outcome: Result<
        T,
        Failure,
    >) where
        C: FnOnce(Vec<ConnectStep>) -> Result<S, Failure>,
        P: FnOnce(&S, Request) -> Result<T, Failure>,

        requires
            old(self)@.session is None ==> forall|plan: Vec<ConnectStep>| dial.requires((plan,)),
            forall|session: &S, asked: Request| perform.requires((session, asked)),
        ensures
            carried_out(
                old(self)@,
                final(self)@,
                dial,
                outcome,
                |session: S| perform.ensures((&session, request), outcome),
            ),
    {
        match self.ensure_session(dial) {
            Ok(_) => {
                let session: &S = self.session.as_ref().unwrap();
                perform(session, request)
            },
            Err(failure) => Err(failure),
        }
    }

    /// Runs `command` on the host: on the cached session if there is one,
    /// else on the session that `dial` makes of the plan. `exec` runs the
    /// command on the session; it is not called if the attempt to connect
    /// fails, in which case that failure is the outcome.
    pub fn execute<C, P>(&mut self, command: &str, dial: C, exec: P) -> (outcome: Result<
        CommandOutput,
        Failure,
    >) where
        C: FnOnce(Vec<ConnectStep>) -> Result<S, Failure>,
        P: FnOnce(&S, &str) -> Result<CommandOutput, Failure>,

        requires
            old(self)@.session is None ==> forall|plan: Vec<ConnectStep>| dial.requires((plan,)),
            forall|session: &S, asked: &str| exec.requires((session, asked)),
        ensures
            carried_out(
                old(self)@,
                final(self)@,
                dial,
                outcome,
                |session: S| exec.ensures((&session, command), outcome),
            ),
    {
        match self.ensure_session(dial) {
            Ok(_) => {
                let session: &S = self.session.as_ref().unwrap();
                exec(session, command)
            },
            Err(failure) => Err(failure),
        }
    }

    /// Copies the remote file at `remote_path` to `local_path`: over the
    /// cached session if there is one, else over the session that `dial`
    /// makes of the plan. `copy` does the copying, from its second argument
    /// to its third; it is not called if the attempt to connect fails, in
    /// which case that failure is the outcome.
    pub fn scp_download<C, P>(
        &mut self,
        remote_path: &str,
        local_path: &str,
        dial: C,
        copy: P,
    ) -> (outcome: Result<(), Failure>) where
        C: FnOnce(Vec<ConnectStep>) -> Result<S, Failure>,
        P: FnOnce(&S, &str, &str) -> Result<(), Failure>,

        requires
            old(self)@.session is None ==> forall|plan: Vec<ConnectStep>| dial.requires((plan,)),
            forall|session: &S, from: &str, to: &str| copy.requires((session, from, to)),
        ensures
            carried_out(
                old(self)@,
                final(self)@,
                dial,
                outcome,
                |session: S| copy.ensures((&session, remote_path, local_path), outcome),
            ),
    {
        match self.ensure_session(dial) {
            Ok(_) => {
                let session: &S = self.session.as_ref().unwrap();
                copy(session, remote_path, local_path)
            },
            Err(failure) => Err(failure),
        }
    }

    /// Copies the local file at `local_path` to `remote_path` on the host:
    /// over the cached session if there is one, else over the session that
    /// `dial` makes of the plan. `copy` does the copying, from its second
    /// argument to its third; it is not called if the attempt to connect
    /// fails, in which case that failure is the outcome.
    pub fn scp_upload<C, P>(
        &mut self,
        local_path: &str,
        remote_path: &str,
        dial: C,
        copy: P,
    ) -> (outcome: Result<(), Failure>) where
        C: FnOnce(Vec<ConnectStep>) -> Result<S, Failure>,
        P: FnOnce(&S, &str, &str) -> Result<(), Failure>,

        requires
            old(self)@.session is None ==> forall|plan: Vec<ConnectStep>| dial.requires((plan,)),
            forall|session: &S, from: &str, to: &str| copy.requires((session, from, to)),
        ensures
            carried_out(
                old(self)@,
                final(self)@,
                dial,
                outcome,
                |session: S| copy.ensures((&session, local_path, remote_path), outcome),
            ),
    {
        match self.ensure_session(dial) {
            Ok(_) => {
                let session: &S = self.session.as_ref().unwrap();
                copy(session, local_path, remote_path)
            },
            Err(failure) => Err(failure),
        }
    }

    /// Drops the session, if there is one.
    pub fn disconnect(&mut self) -> (this: &mut Self)
        ensures
            this@ == old(self)@.after_disconnect(),
            *final(self) == *final(this),
    {
        self.session = None;
        self
    }
}

/// Whether `attempt` is what `dial` may answer when it is handed the plan
/// of `client`.
pub open spec fn dialed<S, C: FnOnce(Vec<ConnectStep>) -> Result<S, Failure>>(
    client: ClientView<S>,
    dial: C,
    attempt: Result<S, Failure>,
) -> bool {
    exists|plan: Vec<ConnectStep>|
        plan_view(plan@) == client.connect_plan() && #[trigger] dial.ensures((plan,), attempt)
}

/// What carrying out an operation comes to, for a client that was `before`
/// and is `after`, and an `outcome`. With a session cached, the client is
/// left as it was and the operation was performed on that session. Without
/// one, `dial` was handed the plan; after a failed attempt that failure is
/// the outcome, else the operation was performed on the session made; the
/// attempt is recorded in the client either way. `performed` says of a
/// session that the operation was performed on it.
pub open spec fn carried_out<S, T, C: FnOnce(Vec<ConnectStep>) -> Result<S, Failure>>(
    before: ClientView<S>,
    after: ClientView<S>,
    dial: C,
    outcome: Result<T, Failure>,
    performed: spec_fn(S) -> bool,
) -> bool {
    match before.session {
        Some(session) => after == before && performed(session),
        None => exists|attempt: Result<S, Failure>|
            {
                &&& #[trigger] dialed(before, dial, attempt)
                &&& after == before.after_connect(attempt)
                &&& match attempt {
                    Ok(session) => performed(session),
                    Err(failure) => outcome == Err::<T, Failure>(failure),
                }
            },
    }
}

/// A session is reused: once an attempt to connect has succeeded, every
/// operation that follows is performed on the cached session, and none asks
/// to connect again.
pub proof fn lemma_session_reuse<S>(client: ClientView<S>, session: S, request: RequestView)
    ensures
        client.after_connect(Ok(session)).session == Some(session),
        client.after_connect(Ok(session)).next_step(request) == StepView::Perform(request),
{
}

/// After a disconnect the next operation connects afresh, with the plan of
/// the unchanged configuration, rather than failing; and once that attempt
/// has succeeded the operation is performed.
pub proof fn lemma_reconnect_after_disconnect<S>(
    client: ClientView<S>,
    session: S,
    request: RequestView,
)
    ensures
        client.after_disconnect().next_step(request) == StepView::Connect(client.connect_plan()),
        client.after_disconnect().after_connect(Ok(session)).next_step(request)
            == StepView::Perform(request),
{
}

/// A failed attempt leaves no session behind, so the next operation asks to
/// connect again.
pub proof fn lemma_failed_connect<S>(client: ClientView<S>, failure: Failure, request: RequestView)
    ensures
        client.after_connect(Err(failure)).session is None,
        client.after_connect(Err(failure)).next_step(request) == StepView::Connect(
            client.connect_plan(),
        ),
{
}

/// A timeout is applied as configured: a plan for a client with a timeout
/// bounds the session's blocking calls to the timeout, or to the greatest
/// bound that a session takes if the timeout is greater; never to nothing,
/// and never to less than the lesser of the two.
pub proof fn lemma_timeout_applied<S>(client: ClientView<S>)
    requires
        client.timeout != 0,
    ensures
        client.connect_plan()[1] == ConnectStepView::LimitSession(session_limit(client.timeout)),
        client.connect_plan()[2] == (ConnectStepView::Dial {
            addr: client.addr,
            port: client.port,
            timeout_ms: Some(client.timeout),
        }),
        session_limit(client.timeout) != 0,
        client.timeout <= u32::MAX ==> session_limit(client.timeout) == client.timeout,
        client.timeout > u32::MAX ==> session_limit(client.timeout) == u32::MAX,
{
}

/// A plan opens the session first, dials before the handshake, and ends by
/// authenticating and confirming; without a timeout nothing is bounded.
pub proof fn lemma_connect_plan_shape<S>(client: ClientView<S>)
    ensures
        ({
            let plan = client.connect_plan();
            let n = plan.len();
            &&& n == if client.timeout == 0 { 5nat } else { 6nat }
            &&& plan[0] == ConnectStepView::OpenSession
            &&& plan[n - 4] is Dial
            &&& plan[n - 3] == ConnectStepView::Handshake
            &&& plan[n - 2] == (ConnectStepView::Authenticate {
                user: client.user,
                auth: client.auth,
            })
            &&& plan[n - 1] == ConnectStepView::ConfirmAuthenticated
        }),
{
}

} // verus!
