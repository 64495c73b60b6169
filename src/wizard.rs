use vstd::prelude::*;
use crate::step::{
    step_update, step_wf, AuthStep, Effect, EffectModel, StepMessage, StepMessageModel, StepModel,
};

verus! {

/// The wizard: a fixed sequence of steps and the index of the active one.
pub struct AuthSteps {
    steps: Vec<AuthStep>,
    current: usize,
}

pub struct WizardModel {
    pub steps: Seq<StepModel>,
    pub current: int,
}

impl View for AuthSteps {
    type V = WizardModel;

    closed spec fn view(&self) -> WizardModel {
        WizardModel { steps: self.steps@.map_values(|s: AuthStep| s@), current: self.current as int }
    }
}

/// The wizard holds a welcome step and then an auth step for the same
/// account, and `current` names one of them.
pub open spec fn wizard_wf(w: WizardModel) -> bool {
    &&& w.steps.len() == 2
    &&& 0 <= w.current < 2
    &&& w.steps[0] matches StepModel::Welcome { user_name }
    &&& w.steps[1] matches StepModel::Auth { name, .. }
    &&& user_name == name
    &&& step_wf(w.steps[1])
}

/// The wizard at the start of a lock session for the account `user`.
pub open spec fn wizard_init(user: Seq<char>) -> WizardModel {
    WizardModel {
        steps: seq![
            StepModel::Welcome { user_name: user },
            StepModel::Auth {
                name: user,
                password: Seq::empty(),
                auth_error: None,
                pending: None,
                next_request: 0,
                unlocked: false,
            },
        ],
        current: 0,
    }
}

/// Whether the wizard may move past its active step.
pub open spec fn wizard_can_continue(w: WizardModel) -> bool {
    w.current + 1 < w.steps.len()
}

/// Moving forward: from a step that is not the last, to the next one, with
/// focus sent to the password field; past the last step, nothing.
pub open spec fn wizard_advance(w: WizardModel) -> (WizardModel, EffectModel) {
    if wizard_can_continue(w) {
        (WizardModel { current: w.current + 1, ..w }, EffectModel::FocusPassword)
    } else {
        (w, EffectModel::Nothing)
    }
}

/// A message goes to the active step alone.
pub open spec fn wizard_update(w: WizardModel, m: StepMessageModel) -> (WizardModel, EffectModel) {
    let (s, e) = step_update(w.steps[w.current], m);
    (WizardModel { steps: w.steps.update(w.current, s), ..w }, e)
}

/// The auth step of a well-formed wizard.
pub open spec fn auth_of(w: WizardModel) -> StepModel {
    w.steps[1]
}

impl AuthSteps {
    /// A wizard for the account `user_name`, on its welcome step.
    pub fn new(user_name: String) -> (r: AuthSteps)
        ensures
            r@ == wizard_init(user_name@),
            wizard_wf(r@),
    {
        let steps = vec![
            AuthStep::Welcome { user_name: user_name.clone() },
            AuthStep::Auth {
                name: user_name,
                password: String::new(),
                auth_error: None,
                pending: None,
                next_request: 0,
                unlocked: false,
            },
        ];
        let r = AuthSteps { steps, current: 0 };
        assert(r@.steps =~= wizard_init(r@.steps[0]->Welcome_user_name).steps);
        r
    }

    /// Hands the message to the active step.
    pub fn update(&mut self, msg: StepMessage) -> (r: Effect)
        requires
            wizard_wf(old(self)@),
        ensures
            (final(self)@, r@) == wizard_update(old(self)@, msg@),
            wizard_wf(final(self)@),
    {
        let i = self.current;
        let ghost before = self@;
        let r = self.steps[i].update(msg);
        assert(self@.steps =~= before.steps.update(i as int, self.steps@[i as int]@));
        r
    }

    /// The step being shown; no other step is ever presented.
    pub fn active(&self) -> (r: &AuthStep)
        requires
            wizard_wf(self@),
        ensures
            r@ == self@.steps[self@.current],
    {
        &self.steps[self.current]
    }

    /// Moves to the next step when there is one, asking for focus on the
    /// password field.
    pub fn advance(&mut self) -> (r: Effect)
        requires
            wizard_wf(old(self)@),
        ensures
            (final(self)@, r@) == wizard_advance(old(self)@),
            wizard_wf(final(self)@),
    {
        if self.can_continue() {
            self.current = self.current + 1;
            Effect::FocusPassword
        } else {
            Effect::Nothing
        }
    }

    /// Whether there is a step after the active one that it lets us reach.
    pub fn can_continue(&self) -> (r: bool)
        requires
            wizard_wf(self@),
        ensures
            r == wizard_can_continue(self@),
    {
        self.current + 1 < self.steps.len() && self.steps[self.current].can_continue()
    }

    /// Index of the active step.
    pub fn current(&self) -> (r: usize)
        ensures
            r == self@.current,
    {
        self.current
    }
}

} // verus!
