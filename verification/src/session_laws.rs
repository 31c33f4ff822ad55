//! What the models of steps and outcomes show, and what steps are made of.

use vstd::prelude::*;

use crate::message::MessageView;
use crate::session::{
    AddedMember, AddedMemberView, MlsRequest, MlsRequestView, Next, NextView, Outcome, OutcomeView,
    SessionError, SessionErrorView, Step, StepView, TimerOp, TimerOpView, METADATA_MLS_ENABLED,
    METADATA_MLS_INIT_COMMIT_ID,
};

verus! {

/// The two metadata keys have fixed texts, and are not the same.
pub proof fn metadata_keys_are_fixed()
    ensures
        METADATA_MLS_ENABLED@ == "MLS_ENABLED"@,
        METADATA_MLS_INIT_COMMIT_ID@ == "MLS_INIT_COMMIT_ID"@,
        METADATA_MLS_ENABLED@ != METADATA_MLS_INIT_COMMIT_ID@,
{
    reveal_strlit("MLS_ENABLED");
    reveal_strlit("MLS_INIT_COMMIT_ID");
    assert("MLS_ENABLED"@.len() != "MLS_INIT_COMMIT_ID"@.len());
}

/// The model of an error shows its kind and its text.
pub proof fn models_of_errors(e: SessionError, s: String)
    ensures
        SessionError::Processing(s)@ == SessionErrorView::Processing(s@),
        SessionError::MLSInit(s)@ == SessionErrorView::MLSInit(s@),
        SessionError::WelcomeMessage(s)@ == SessionErrorView::WelcomeMessage(s@),
        SessionError::CommitMessage(s)@ == SessionErrorView::CommitMessage(s@),
        SessionError::AddParticipant(s)@ == SessionErrorView::AddParticipant(s@),
        SessionError::RemoveParticipant(s)@ == SessionErrorView::RemoveParticipant(s@),
        SessionError::JoinChannelPayload(s)@ == SessionErrorView::JoinChannelPayload(s@),
        SessionError::TimerNotFound(s)@ == SessionErrorView::TimerNotFound(s@),
        SessionError::NoMls@ == SessionErrorView::NoMls,
        crate::session::unit_result(Ok(())) == Ok::<(), SessionErrorView>(()),
        crate::session::unit_result(Err(e)) == Err::<(), SessionErrorView>(e@),
{
}

/// The model of what the engine gave shows the bytes on success, and the text on failure.
pub proof fn models_of_engine_answers(b: Vec<u8>, e: String, a: AddedMember)
    ensures
        crate::session::engine_bytes(Ok(b)) == Ok::<Seq<u8>, Seq<char>>(b@),
        crate::session::engine_bytes(Err(e)) == Err::<Seq<u8>, Seq<char>>(e@),
        crate::session::engine_unit(Ok(())) == Ok::<(), Seq<char>>(()),
        crate::session::engine_unit(Err(e)) == Err::<(), Seq<char>>(e@),
        crate::session::engine_added(Ok(a)) == Ok::<AddedMemberView, Seq<char>>(a@),
        crate::session::engine_added(Err(e)) == Err::<AddedMemberView, Seq<char>>(e@),
        a@ == (AddedMemberView {
            commit_message: a.commit_message@,
            welcome_message: a.welcome_message@,
            member_identity: a.member_identity@,
        }),
{
}

/// The model of an outcome shows its kind and its result.
pub proof fn models_of_outcomes(
    sent: Result<(), SessionError>,
    unit: Result<(), String>,
    bytes: Result<Vec<u8>, String>,
    added: Result<AddedMember, String>,
)
    ensures
        Outcome::Sent(sent)@ == OutcomeView::Sent(crate::session::unit_result(sent)),
        Outcome::GroupCreated(unit)@ == OutcomeView::GroupCreated(
            crate::session::engine_unit(unit),
        ),
        Outcome::KeyPackage(bytes)@ == OutcomeView::KeyPackage(
            crate::session::engine_bytes(bytes),
        ),
        Outcome::WelcomeProcessed(bytes)@ == OutcomeView::WelcomeProcessed(
            crate::session::engine_bytes(bytes),
        ),
        Outcome::CommitProcessed(unit)@ == OutcomeView::CommitProcessed(
            crate::session::engine_unit(unit),
        ),
        Outcome::MemberAdded(added)@ == OutcomeView::MemberAdded(
            crate::session::engine_added(added),
        ),
        Outcome::MemberRemoved(bytes)@ == OutcomeView::MemberRemoved(
            crate::session::engine_bytes(bytes),
        ),
{
}

/// The model of a request to the engine shows its kind and its bytes.
pub proof fn models_of_requests(b: Vec<u8>)
    ensures
        MlsRequest::CreateGroup@ == MlsRequestView::CreateGroup,
        MlsRequest::GenerateKeyPackage@ == MlsRequestView::GenerateKeyPackage,
        MlsRequest::ProcessWelcome(b)@ == MlsRequestView::ProcessWelcome(b@),
        MlsRequest::ProcessCommit(b)@ == MlsRequestView::ProcessCommit(b@),
        MlsRequest::AddMember(b)@ == MlsRequestView::AddMember(b@),
        MlsRequest::RemoveMember(b)@ == MlsRequestView::RemoveMember(b@),
{
}

/// The model of a step shows each of its changes to the timers, in order, and what it
/// ends with.
pub proof fn models_of_steps(s: Step, i: int)
    ensures
        s@.next == s.next@,
        s@.timers.len() == s.timers@.len(),
        0 <= i < s.timers@.len() ==> s@.timers[i] == s.timers@[i]@,
        s.next matches Next::Send(m) ==> s@.next == NextView::Send(m@),
        s.next matches Next::Mls(r) ==> s@.next == NextView::Mls(r@),
        s.next matches Next::Finish(r) ==> s@.next == NextView::Finish(
            crate::session::unit_result(r),
        ),
        crate::session::step_option(Some(s)) == Some(s@),
        crate::session::step_option(None) is None,
{
}

/// The model of a change to the timers shows its key and, for a start, the interval, the
/// number of retries and the message to send again.
pub proof fn models_of_timer_changes(op: TimerOp)
    ensures
        op matches TimerOp::Start { key, interval, max_retries, observer } ==> op@
            == (TimerOpView::Start { key, interval, max_retries, message: observer.message@ }),
        op matches TimerOp::Stop { key } ==> op@ == (TimerOpView::Stop { key }),
{
}

/// A step that sends, asks or ends does just that, and leaves the timers alone. Changes
/// to the timers that are put in front come before its own.
pub proof fn steps_do_one_thing(
    message: MessageView,
    request: MlsRequestView,
    result: Result<(), SessionErrorView>,
    step: StepView,
    timers: Seq<TimerOpView>,
)
    ensures
        StepView::send(message).next == NextView::Send(message),
        StepView::send(message).timers.len() == 0,
        StepView::ask(request).next == NextView::Mls(request),
        StepView::ask(request).timers.len() == 0,
        StepView::finish(result).next == NextView::Finish(result),
        StepView::finish(result).timers.len() == 0,
        step.after(timers).next == step.next,
        step.after(timers).timers.len() == timers.len() + step.timers.len(),
        step.after(timers).timers.take(timers.len() as int) == timers,
        step.after(timers).timers.skip(timers.len() as int) == step.timers,
{
    assert(step.after(timers).timers.take(timers.len() as int) =~= timers);
    assert(step.after(timers).timers.skip(timers.len() as int) =~= step.timers);
}

} // verus!
