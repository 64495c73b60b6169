use vstd::prelude::*;
use crate::gate::UnlockGate;
use crate::step::{AuthStep, Effect, EffectModel, StepMessage, StepMessageModel};
use crate::wizard::{
    auth_of, wizard_advance, wizard_init, wizard_update, wizard_wf, AuthSteps, WizardModel,
};

verus! {

/// A raw input event, as far as the lock screen cares.
#[derive(PartialEq, Eq, Structural, Clone, Copy, Debug)]
pub enum InputEvent {
    EnterPressed,
    Other,
}

/// A message to the lock screen.
pub enum Message {
    /// The user asked to go on to the next step.
    NextPressed,
    /// A message for the active step.
    Step(StepMessage),
    /// A raw input event, to be routed.
    EnterEvent(InputEvent),
}

pub enum MessageModel {
    NextPressed,
    Step(StepMessageModel),
    EnterEvent(InputEvent),
}

impl View for Message {
    type V = MessageModel;

    open spec fn view(&self) -> MessageModel {
        match self {
            Message::NextPressed => MessageModel::NextPressed,
            Message::Step(m) => MessageModel::Step(m@),
            Message::EnterEvent(e) => MessageModel::EnterEvent(*e),
        }
    }
}

/// The lock screen: the wizard and the one signal that releases the lock.
pub struct Lock {
    steps: AuthSteps,
    gate: UnlockGate,
}

pub struct LockModel {
    pub wizard: WizardModel,
    pub unlocked: bool,
}

impl View for Lock {
    type V = LockModel;

    closed spec fn view(&self) -> LockModel {
        LockModel { wizard: self.steps@, unlocked: self.gate@ }
    }
}

/// The lock is released exactly when the auth step has seen its password
/// accepted.
pub open spec fn lock_wf(s: LockModel) -> bool {
    &&& wizard_wf(s.wizard)
    &&& s.unlocked == auth_of(s.wizard)->unlocked
}

/// The lock screen at the start of a session for the account `user`.
pub open spec fn lock_init(user: Seq<char>) -> LockModel {
    LockModel { wizard: wizard_init(user), unlocked: false }
}

/// Whether the active step is the welcome step.
pub open spec fn on_welcome(w: WizardModel) -> bool {
    w.steps[w.current] is Welcome
}

/// Enter on the welcome step moves on; Enter on any other step submits the
/// password; every other event is inert.
pub open spec fn route(w: WizardModel, e: InputEvent) -> Option<MessageModel> {
    match e {
        InputEvent::EnterPressed => if on_welcome(w) {
            Some(MessageModel::NextPressed)
        } else {
            Some(MessageModel::Step(StepMessageModel::Submit))
        },
        InputEvent::Other => None,
    }
}

/// Handling of a message that needs no routing.
pub open spec fn lock_dispatch(s: LockModel, m: MessageModel) -> (LockModel, EffectModel) {
    match m {
        MessageModel::NextPressed => {
            let (w, e) = wizard_advance(s.wizard);
            (LockModel { wizard: w, ..s }, e)
        },
        MessageModel::Step(sm) => {
            let (w, e) = wizard_update(s.wizard, sm);
            (LockModel { wizard: w, unlocked: s.unlocked || e is Unlock }, e)
        },
        MessageModel::EnterEvent(_) => (s, EffectModel::Nothing),
    }
}

/// How the lock screen answers a message. Once unlocked it takes no more.
pub open spec fn lock_update(s: LockModel, m: MessageModel) -> (LockModel, EffectModel) {
    if s.unlocked {
        (s, EffectModel::Nothing)
    } else {
        match m {
            MessageModel::EnterEvent(e) => match route(s.wizard, e) {
                Some(routed) => lock_dispatch(s, routed),
                None => (s, EffectModel::Nothing),
            },
            _ => lock_dispatch(s, m),
        }
    }
}

/// A session: the messages handled in order, from state `s`, giving the
/// final state and the effect asked for by each message.
pub open spec fn run(s: LockModel, msgs: Seq<MessageModel>) -> (LockModel, Seq<EffectModel>)
    decreases msgs.len(),
{
    if msgs.len() == 0 {
        (s, Seq::empty())
    } else {
        let (mid, effects) = run(s, msgs.drop_last());
        let (end, e) = lock_update(mid, msgs.last());
        (end, effects.push(e))
    }
}

/// How many of the effects release the lock.
pub open spec fn unlock_count(es: Seq<EffectModel>) -> nat
    decreases es.len(),
{
    if es.len() == 0 {
        0
    } else {
        unlock_count(es.drop_last()) + if es.last() is Unlock {
            1nat
        } else {
            0nat
        }
    }
}

/// How many of the effects start a verification.
pub open spec fn verify_count(es: Seq<EffectModel>) -> nat
    decreases es.len(),
{
    if es.len() == 0 {
        0
    } else {
        verify_count(es.drop_last()) + if es.last() is Verify {
            1nat
        } else {
            0nat
        }
    }
}

impl Lock {
    /// The lock screen for the account `user_name`, on its welcome step.
    pub fn new(user_name: String) -> (r: Lock)
        ensures
            r@ == lock_init(user_name@),
            lock_wf(r@),
    {
        Lock { steps: AuthSteps::new(user_name), gate: UnlockGate::new() }
    }

    /// Turns a raw input event into the message it stands for, if any.
    pub fn route(&self, event: InputEvent) -> (r: Option<Message>)
        requires
            lock_wf(self@),
        ensures
            match r {
                Some(m) => route(self@.wizard, event) == Some(m@),
                None => route(self@.wizard, event) is None,
            },
    {
        match event {
            InputEvent::EnterPressed => {
                let on_welcome = match self.steps.active() {
                    AuthStep::Welcome { .. } => true,
                    AuthStep::Auth { .. } => false,
                };
                if on_welcome {
                    Some(Message::NextPressed)
                } else {
                    Some(Message::Step(StepMessage::Submit))
                }
            },
            InputEvent::Other => None,
        }
    }

    fn dispatch(&mut self, message: Message) -> (r: Effect)
        requires
            lock_wf(old(self)@),
            !old(self)@.unlocked,
        ensures
            (final(self)@, r@) == lock_dispatch(old(self)@, message@),
            lock_wf(final(self)@),
    {
        match message {
            Message::NextPressed => self.steps.advance(),
            Message::Step(m) => {
                let e = self.steps.update(m);
                match e {
                    Effect::Unlock => match self.gate.signal() {
                        Ok(()) => Effect::Unlock,
                        Err(_) => Effect::Nothing,
                    },
                    _ => e,
                }
            },
            Message::EnterEvent(_) => Effect::Nothing,
        }
    }

    /// Handles one message and returns what the surroundings must do next:
    /// focus the password field, start a verification, release the lock, or
    /// nothing.
    pub fn update(&mut self, message: Message) -> (r: Effect)
        requires
            lock_wf(old(self)@),
        ensures
            (final(self)@, r@) == lock_update(old(self)@, message@),
            lock_wf(final(self)@),
    {
        if self.gate.is_unlocked() {
            return Effect::Nothing;
        }
        match message {
            Message::EnterEvent(e) => match self.route(e) {
                Some(routed) => self.dispatch(routed),
                None => Effect::Nothing,
            },
            _ => self.dispatch(message),
        }
    }

    /// The wizard.
    pub fn steps(&self) -> (r: &AuthSteps)
        ensures
            r@ == self@.wizard,
    {
        &self.steps
    }

    /// Whether the lock has been released.
    pub fn is_unlocked(&self) -> (r: bool)
        ensures
            r == self@.unlocked,
    {
        self.gate.is_unlocked()
    }
}

} // verus!
