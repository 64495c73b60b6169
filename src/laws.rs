use vstd::prelude::*;
use crate::lock::{
    lock_update, lock_wf, run, unlock_count, verify_count, InputEvent, LockModel, MessageModel,
};
use crate::step::{EffectModel, OutcomeModel, StepMessageModel};
use crate::wizard::{auth_of, wizard_advance, wizard_wf, WizardModel};

verus! {

/// Whether the auth step awaits an outcome.
pub open spec fn pending_of(s: LockModel) -> bool {
    auth_of(s.wizard)->pending is Some
}

/// Whether a message is a verifier outcome.
pub open spec fn is_outcome(m: MessageModel) -> bool {
    m matches MessageModel::Step(StepMessageModel::Verified { .. })
}

/// Whether a message asks, on the auth step, to check the password.
pub open spec fn is_submission(m: MessageModel) -> bool {
    ||| m == MessageModel::Step(StepMessageModel::Submit)
    ||| m == MessageModel::EnterEvent(InputEvent::EnterPressed)
}

/// Password edits, one message per text.
pub open spec fn edits_of(texts: Seq<Seq<char>>) -> Seq<MessageModel> {
    texts.map_values(|p: Seq<char>| MessageModel::Step(StepMessageModel::PasswordEntered(p)))
}

/// The wizard after `n` requests to advance.
pub open spec fn advance_n(w: WizardModel, n: nat) -> WizardModel
    decreases n,
{
    if n == 0 {
        w
    } else {
        wizard_advance(advance_n(w, (n - 1) as nat)).0
    }
}

/// Every message keeps the lock screen well formed.
pub proof fn lemma_update_wf(s: LockModel, m: MessageModel)
    requires
        lock_wf(s),
    ensures
        lock_wf(lock_update(s, m).0),
        lock_update(s, m).0.wizard.current >= s.wizard.current,
{
}

/// Every session keeps the lock screen well formed, and the active step
/// never moves backwards.
pub proof fn lemma_run_wf(s: LockModel, msgs: Seq<MessageModel>)
    requires
        lock_wf(s),
    ensures
        lock_wf(run(s, msgs).0),
        run(s, msgs).0.wizard.current >= s.wizard.current,
        run(s, msgs).1.len() == msgs.len(),
    decreases msgs.len(),
{
    if msgs.len() > 0 {
        lemma_run_wf(s, msgs.drop_last());
        lemma_update_wf(run(s, msgs.drop_last()).0, msgs.last());
    }
}

/// A session split in two runs as its first part and then its second.
pub proof fn lemma_run_append(s: LockModel, a: Seq<MessageModel>, b: Seq<MessageModel>)
    ensures
        run(s, a + b).0 == run(run(s, a).0, b).0,
        run(s, a + b).1 == run(s, a).1 + run(run(s, a).0, b).1,
    decreases b.len(),
{
    if b.len() == 0 {
        assert(a + b =~= a);
        assert(run(s, a).1 + Seq::<EffectModel>::empty() =~= run(s, a).1);
    } else {
        assert((a + b).drop_last() =~= a + b.drop_last());
        assert((a + b).last() == b.last());
        lemma_run_append(s, a, b.drop_last());
        let ea = run(s, a).1;
        let eb = run(run(s, a).0, b.drop_last()).1;
        let e = lock_update(run(run(s, a).0, b.drop_last()).0, b.last()).1;
        assert((ea + eb).push(e) =~= ea + eb.push(e));
    }
}

/// Counting releases over two runs of effects adds up.
pub proof fn lemma_unlock_count_append(a: Seq<EffectModel>, b: Seq<EffectModel>)
    ensures
        unlock_count(a + b) == unlock_count(a) + unlock_count(b),
    decreases b.len(),
{
    if b.len() == 0 {
        assert(a + b =~= a);
    } else {
        assert((a + b).drop_last() =~= a + b.drop_last());
        lemma_unlock_count_append(a, b.drop_last());
    }
}

/// Once the lock is released, every later message is ignored: the state
/// stays as it is and nothing more is asked of the surroundings.
pub proof fn lemma_unlocked_is_final(s: LockModel, msgs: Seq<MessageModel>)
    requires
        s.unlocked,
    ensures
        run(s, msgs).0 == s,
        unlock_count(run(s, msgs).1) == 0,
        verify_count(run(s, msgs).1) == 0,
        forall|i: int| 0 <= i < msgs.len() ==> run(s, msgs).1[i] is Nothing,
    decreases msgs.len(),
{
    if msgs.len() > 0 {
        lemma_unlocked_is_final(s, msgs.drop_last());
        let es = run(s, msgs.drop_last()).1;
        assert(run(s, msgs).1.drop_last() =~= es);
        lemma_run_len(s, msgs.drop_last());
    }
}

proof fn lemma_run_len(s: LockModel, msgs: Seq<MessageModel>)
    ensures
        run(s, msgs).1.len() == msgs.len(),
    decreases msgs.len(),
{
    if msgs.len() > 0 {
        lemma_run_len(s, msgs.drop_last());
    }
}

/// Password edits on the auth step, while no request is outstanding,
/// change only the password: the step stays active, nothing is awaited,
/// the next request id is kept, and no verification or release is asked.
proof fn lemma_edits(s: LockModel, texts: Seq<Seq<char>>)
    requires
        lock_wf(s),
        s.wizard.current == 1,
        !pending_of(s),
        !s.unlocked,
    ensures
        lock_wf(run(s, edits_of(texts)).0),
        run(s, edits_of(texts)).0.wizard.current == 1,
        !pending_of(run(s, edits_of(texts)).0),
        !run(s, edits_of(texts)).0.unlocked,
        auth_of(run(s, edits_of(texts)).0.wizard)->next_request == auth_of(s.wizard)->next_request,
        auth_of(run(s, edits_of(texts)).0.wizard)->name == auth_of(s.wizard)->name,
        unlock_count(run(s, edits_of(texts)).1) == 0,
        texts.len() > 0 ==> auth_of(run(s, edits_of(texts)).0.wizard)->password == texts.last(),
    decreases texts.len(),
{
    if texts.len() > 0 {
        assert(edits_of(texts).drop_last() =~= edits_of(texts.drop_last()));
        lemma_edits(s, texts.drop_last());
        assert(run(s, edits_of(texts)).1.drop_last() =~= run(s, edits_of(texts.drop_last())).1);
    }
}

/// From the auth step with no request outstanding, any password edits, then
/// a submission, then a success for the request it issued, release the lock
/// exactly once; the request carries the last text entered.
pub proof fn lemma_edits_then_success_unlock_once(s: LockModel, texts: Seq<Seq<char>>)
    requires
        lock_wf(s),
        s.wizard.current == 1,
        !pending_of(s),
        !s.unlocked,
    ensures
        ({
            let id = auth_of(s.wizard)->next_request;
            let msgs = edits_of(texts) + seq![
                MessageModel::Step(StepMessageModel::Submit),
                MessageModel::Step(
                    StepMessageModel::Verified { request: id, outcome: OutcomeModel::Success },
                ),
            ];
            &&& unlock_count(run(s, msgs).1) == 1
            &&& run(s, msgs).0.unlocked
        }),
{
    let id = auth_of(s.wizard)->next_request;
    let tail = seq![
        MessageModel::Step(StepMessageModel::Submit),
        MessageModel::Step(StepMessageModel::Verified { request: id, outcome: OutcomeModel::Success }),
    ];
    lemma_edits(s, texts);
    let mid = run(s, edits_of(texts)).0;
    lemma_run_append(s, edits_of(texts), tail);
    let one = tail.drop_last();
    assert(one.drop_last() =~= Seq::<MessageModel>::empty());
    assert(one =~= seq![MessageModel::Step(StepMessageModel::Submit)]);
    assert(run(mid, one.drop_last()) == (mid, Seq::<EffectModel>::empty()));
    let after_submit = run(mid, one);
    assert(after_submit.1 =~= Seq::<EffectModel>::empty().push(lock_update(mid, one.last()).1));
    assert(after_submit.1.drop_last() =~= Seq::<EffectModel>::empty());
    assert(lock_update(mid, one.last()).1 is Verify);
    assert(unlock_count(after_submit.1.drop_last()) == 0);
    assert(unlock_count(after_submit.1) == 0);
    let es = run(mid, tail).1;
    assert(es.drop_last() =~= after_submit.1);
    lemma_unlock_count_append(run(s, edits_of(texts)).1, es);
}

/// Without outcomes arriving, a session issues at most one verification;
/// none if one was already outstanding; and from the auth step with none
/// outstanding, exactly one when the session holds at least one submission,
/// however many it holds.
pub proof fn lemma_single_flight(s: LockModel, msgs: Seq<MessageModel>)
    requires
        lock_wf(s),
        forall|i: int| 0 <= i < msgs.len() ==> !is_outcome(#[trigger] msgs[i]),
    ensures
        verify_count(run(s, msgs).1) <= 1,
        pending_of(s) ==> verify_count(run(s, msgs).1) == 0,
        s.wizard.current == 1 && !s.unlocked && !pending_of(s) ==> (verify_count(run(s, msgs).1)
            == 1 <==> exists|i: int| 0 <= i < msgs.len() && is_submission(#[trigger] msgs[i])),
{
    lemma_single_flight_inner(s, msgs);
}

proof fn lemma_single_flight_inner(s: LockModel, msgs: Seq<MessageModel>)
    requires
        lock_wf(s),
        forall|i: int| 0 <= i < msgs.len() ==> !is_outcome(#[trigger] msgs[i]),
    ensures
        lock_wf(run(s, msgs).0),
        run(s, msgs).0.unlocked == s.unlocked,
        s.wizard.current == 1 ==> run(s, msgs).0.wizard.current == 1,
        verify_count(run(s, msgs).1) <= 1,
        pending_of(s) ==> verify_count(run(s, msgs).1) == 0,
        pending_of(run(s, msgs).0) == (pending_of(s) || verify_count(run(s, msgs).1) == 1),
        s.wizard.current == 1 && !s.unlocked && !pending_of(s) ==> (verify_count(run(s, msgs).1)
            == 1 <==> exists|i: int| 0 <= i < msgs.len() && is_submission(#[trigger] msgs[i])),
    decreases msgs.len(),
{
    if msgs.len() > 0 {
        let prev = msgs.drop_last();
        assert forall|i: int| 0 <= i < prev.len() implies !is_outcome(#[trigger] prev[i]) by {
            assert(prev[i] == msgs[i]);
        }
        lemma_single_flight_inner(s, prev);
        let es = run(s, msgs).1;
        assert(es.drop_last() =~= run(s, prev).1);
        assert(!is_outcome(msgs[msgs.len() - 1]));
        if s.wizard.current == 1 && !s.unlocked && !pending_of(s) {
            if exists|i: int| 0 <= i < prev.len() && is_submission(#[trigger] prev[i]) {
                let i = choose|i: int| 0 <= i < prev.len() && is_submission(#[trigger] prev[i]);
                assert(msgs[i] == prev[i]);
            }
            if exists|i: int| 0 <= i < msgs.len() && is_submission(#[trigger] msgs[i]) {
                let i = choose|i: int| 0 <= i < msgs.len() && is_submission(#[trigger] msgs[i]);
                if i < prev.len() {
                    assert(prev[i] == msgs[i]);
                }
            }
        }
    }
}

/// A failed verification of the outstanding request clears the password,
/// shows the reason, re-enables submission, and leaves the active step
/// where it was.
pub proof fn lemma_failure_clears_password(s: LockModel, reason: Seq<char>)
    requires
        lock_wf(s),
        s.wizard.current == 1,
        pending_of(s),
    ensures
        ({
            let id = auth_of(s.wizard)->pending->0;
            let m = MessageModel::Step(
                StepMessageModel::Verified { request: id, outcome: OutcomeModel::Failure(reason) },
            );
            let (t, e) = lock_update(s, m);
            &&& t.wizard.current == s.wizard.current
            &&& auth_of(t.wizard)->password == Seq::<char>::empty()
            &&& auth_of(t.wizard)->auth_error == Some(reason)
            &&& !pending_of(t)
            &&& !t.unlocked
            &&& e is Nothing
        }),
{
}

/// Enter on the welcome step moves to the auth step and asks for focus on
/// the password field; Enter on the auth step keeps it there; any other
/// input changes nothing.
pub proof fn lemma_enter_advances_from_welcome(s: LockModel)
    requires
        lock_wf(s),
        !s.unlocked,
    ensures
        s.wizard.current == 0 ==> lock_update(
            s,
            MessageModel::EnterEvent(InputEvent::EnterPressed),
        ) == (LockModel { wizard: WizardModel { current: 1, ..s.wizard }, ..s }, EffectModel::FocusPassword),
        s.wizard.current == 1 ==> lock_update(
            s,
            MessageModel::EnterEvent(InputEvent::EnterPressed),
        ).0.wizard.current == 1,
        lock_update(s, MessageModel::EnterEvent(InputEvent::Other)) == (s, EffectModel::Nothing),
{
}

/// Advancing is idempotent: after the first request, further requests to
/// advance change nothing, and on the last step none changes anything.
pub proof fn lemma_advance_idempotent(w: WizardModel, n: nat)
    requires
        wizard_wf(w),
    ensures
        wizard_advance(wizard_advance(w).0) == (wizard_advance(w).0, EffectModel::Nothing),
        n >= 1 ==> advance_n(w, n) == wizard_advance(w).0,
        w.current == 1 ==> advance_n(w, n) == w,
    decreases n,
{
    if n > 1 {
        lemma_advance_idempotent(w, (n - 1) as nat);
    } else if n == 1 {
        assert(advance_n(w, 0) == w);
    }
}

} // verus!
