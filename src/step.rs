use vstd::prelude::*;

verus! {

/// What the credential verifier answered for one request.
pub enum Outcome {
    Success,
    Failure(String),
}

pub enum OutcomeModel {
    Success,
    Failure(Seq<char>),
}

impl View for Outcome {
    type V = OutcomeModel;

    open spec fn view(&self) -> OutcomeModel {
        match self {
            Outcome::Success => OutcomeModel::Success,
            Outcome::Failure(reason) => OutcomeModel::Failure(reason@),
        }
    }
}

/// A message addressed to the active step.
pub enum StepMessage {
    /// The password field now holds this text.
    PasswordEntered(String),
    /// The user asked to check the password.
    Submit,
    /// The verifier's answer to the request with this id.
    Verified { request: u64, outcome: Outcome },
}

pub enum StepMessageModel {
    PasswordEntered(Seq<char>),
    Submit,
    Verified { request: u64, outcome: OutcomeModel },
}

impl View for StepMessage {
    type V = StepMessageModel;

    open spec fn view(&self) -> StepMessageModel {
        match self {
            StepMessage::PasswordEntered(p) => StepMessageModel::PasswordEntered(p@),
            StepMessage::Submit => StepMessageModel::Submit,
            StepMessage::Verified { request, outcome } => StepMessageModel::Verified {
                request: *request,
                outcome: outcome@,
            },
        }
    }
}

/// One call to make into the credential verifier: a copy of the account
/// name and of the password as they stood when the user submitted.
pub struct VerifyRequest {
    pub id: u64,
    pub user: String,
    pub password: String,
}

pub struct RequestModel {
    pub id: u64,
    pub user: Seq<char>,
    pub password: Seq<char>,
}

impl View for VerifyRequest {
    type V = RequestModel;

    open spec fn view(&self) -> RequestModel {
        RequestModel { id: self.id, user: self.user@, password: self.password@ }
    }
}

/// What a step asks of the world after handling a message.
pub enum Effect {
    Nothing,
    /// Move keyboard focus to the password field.
    FocusPassword,
    /// Start this verification off the event loop.
    Verify(VerifyRequest),
    /// The verifier accepted the password: release the lock.
    Unlock,
    /// An outcome arrived for no outstanding request and was dropped.
    Stale,
}

pub enum EffectModel {
    Nothing,
    FocusPassword,
    Verify(RequestModel),
    Unlock,
    Stale,
}

impl View for Effect {
    type V = EffectModel;

    open spec fn view(&self) -> EffectModel {
        match self {
            Effect::Nothing => EffectModel::Nothing,
            Effect::FocusPassword => EffectModel::FocusPassword,
            Effect::Verify(r) => EffectModel::Verify(r@),
            Effect::Unlock => EffectModel::Unlock,
            Effect::Stale => EffectModel::Stale,
        }
    }
}

/// One screen of the unlock wizard.
pub enum AuthStep {
    Welcome { user_name: String },
    Auth {
        name: String,
        password: String,
        auth_error: Option<String>,
        /// Id of the request whose outcome is awaited, if any.
        pending: Option<u64>,
        /// Id that the next request will carry.
        next_request: u64,
        /// Set once the verifier has accepted a password; the step then
        /// takes no more input.
        unlocked: bool,
    },
}

pub enum StepModel {
    Welcome { user_name: Seq<char> },
    Auth {
        name: Seq<char>,
        password: Seq<char>,
        auth_error: Option<Seq<char>>,
        pending: Option<u64>,
        next_request: u64,
        unlocked: bool,
    },
}

pub open spec fn opt_view(o: Option<String>) -> Option<Seq<char>> {
    match o {
        Some(s) => Some(s@),
        None => None,
    }
}

impl View for AuthStep {
    type V = StepModel;

    open spec fn view(&self) -> StepModel {
        match self {
            AuthStep::Welcome { user_name } => StepModel::Welcome { user_name: user_name@ },
            AuthStep::Auth { name, password, auth_error, pending, next_request, unlocked } =>
                StepModel::Auth {
                name: name@,
                password: password@,
                auth_error: opt_view(*auth_error),
                pending: *pending,
                next_request: *next_request,
                unlocked: *unlocked,
            },
        }
    }
}

/// The id after `id`; ids wrap around rather than run out.
pub open spec fn next_id(id: u64) -> u64 {
    if id == u64::MAX {
        0
    } else {
        (id + 1) as u64
    }
}

/// A step is well formed when an unlocked step awaits nothing.
pub open spec fn step_wf(s: StepModel) -> bool {
    s matches StepModel::Auth { pending, unlocked, .. } ==> (unlocked ==> pending is None)
}

/// How a step answers a message: its next state and the effect it asks for.
pub open spec fn step_update(s: StepModel, m: StepMessageModel) -> (StepModel, EffectModel) {
    match s {
        StepModel::Welcome { .. } => (s, EffectModel::Nothing),
        StepModel::Auth { name, password, auth_error, pending, next_request, unlocked } => {
            match m {
                StepMessageModel::PasswordEntered(p) => {
                    if unlocked {
                        (s, EffectModel::Nothing)
                    } else {
                        (
                            StepModel::Auth {
                                name,
                                password: p,
                                auth_error: None,
                                pending,
                                next_request,
                                unlocked,
                            },
                            EffectModel::Nothing,
                        )
                    }
                },
                StepMessageModel::Submit => {
                    if unlocked || pending is Some {
                        (s, EffectModel::Nothing)
                    } else {
                        (
                            StepModel::Auth {
                                name,
                                password,
                                auth_error: None,
                                pending: Some(next_request),
                                next_request: next_id(next_request),
                                unlocked,
                            },
                            EffectModel::Verify(
                                RequestModel { id: next_request, user: name, password },
                            ),
                        )
                    }
                },
                StepMessageModel::Verified { request, outcome } => {
                    if pending != Some(request) {
                        (s, EffectModel::Stale)
                    } else {
                        match outcome {
                            OutcomeModel::Success => (
                                StepModel::Auth {
                                    name,
                                    password,
                                    auth_error,
                                    pending: None,
                                    next_request,
                                    unlocked: true,
                                },
                                EffectModel::Unlock,
                            ),
                            OutcomeModel::Failure(reason) => (
                                StepModel::Auth {
                                    name,
                                    password: Seq::empty(),
                                    auth_error: Some(reason),
                                    pending: None,
                                    next_request,
                                    unlocked,
                                },
                                EffectModel::Nothing,
                            ),
                        }
                    }
                },
            }
        },
    }
}

impl AuthStep {
    /// Handles one message: edits replace the password and clear the error,
    /// a submission snapshots name and password into a request unless one is
    /// already outstanding, and the outcome of the outstanding request either
    /// unlocks or records the failure and clears the password.
    pub fn update(&mut self, msg: StepMessage) -> (r: Effect)
        requires
            step_wf(old(self)@),
        ensures
            (final(self)@, r@) == step_update(old(self)@, msg@),
            step_wf(final(self)@),
    {
        match self {
            AuthStep::Welcome { .. } => Effect::Nothing,
            AuthStep::Auth { name, password, auth_error, pending, next_request, unlocked } => {
                match msg {
                    StepMessage::PasswordEntered(p) => {
                        if !*unlocked {
                            *password = p;
                            *auth_error = None;
                        }
                        Effect::Nothing
                    },
                    StepMessage::Submit => {
                        if *unlocked || pending.is_some() {
                            Effect::Nothing
                        } else {
                            let id = *next_request;
                            *auth_error = None;
                            *pending = Some(id);
                            *next_request = if id == u64::MAX {
                                0
                            } else {
                                id + 1
                            };
                            Effect::Verify(
                                VerifyRequest { id, user: name.clone(), password: password.clone() },
                            )
                        }
                    },
                    StepMessage::Verified { request, outcome } => {
                        let awaited = match *pending {
                            Some(id) => id == request,
                            None => false,
                        };
                        if !awaited {
                            Effect::Stale
                        } else {
                            *pending = None;
                            match outcome {
                                Outcome::Success => {
                                    *unlocked = true;
                                    Effect::Unlock
                                },
                                Outcome::Failure(reason) => {
                                    *password = String::new();
                                    *auth_error = Some(reason);
                                    Effect::Nothing
                                },
                            }
                        }
                    },
                }
            },
        }
    }

    /// Whether the wizard may move on from this step; no step gates it.
    pub fn can_continue(&self) -> (r: bool)
        ensures
            r,
    {
        match self {
            AuthStep::Welcome { .. } => true,
            AuthStep::Auth { .. } => true,
        }
    }
}

} // verus!
