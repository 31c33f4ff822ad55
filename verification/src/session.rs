//! What an endpoint asks of the session around it, and what it is told back.
//!
//! Handling a message is a run of steps. A step may start and stop timers, and ends
//! with one thing to do: a message to send, a request to the group key engine, or the
//! end of the run. What came of it is handed back, and the next step follows.

use std::time::Duration;
use vstd::prelude::*;
use vstd::string::*;

use crate::message::{MessageView, ProtoMessage};

verus! {

/// Metadata key of a join request that asks for a key package.
pub const METADATA_MLS_ENABLED: &'static str = "MLS_ENABLED";

/// Metadata key of the commit that a welcome message starts from.
pub const METADATA_MLS_INIT_COMMIT_ID: &'static str = "MLS_INIT_COMMIT_ID";

/// The model of an error.
pub enum SessionErrorView {
    Processing(Seq<char>),
    MLSInit(Seq<char>),
    WelcomeMessage(Seq<char>),
    CommitMessage(Seq<char>),
    AddParticipant(Seq<char>),
    RemoveParticipant(Seq<char>),
    JoinChannelPayload(Seq<char>),
    TimerNotFound(Seq<char>),
    NoMls,
}

/// Why a message could not be handled.
#[derive(Debug)]
pub enum SessionError {
    Processing(String),
    MLSInit(String),
    WelcomeMessage(String),
    CommitMessage(String),
    AddParticipant(String),
    RemoveParticipant(String),
    JoinChannelPayload(String),
    TimerNotFound(String),
    NoMls,
}

impl View for SessionError {
    type V = SessionErrorView;

    open spec fn view(&self) -> SessionErrorView {
        match self {
            SessionError::Processing(s) => SessionErrorView::Processing(s@),
            SessionError::MLSInit(s) => SessionErrorView::MLSInit(s@),
            SessionError::WelcomeMessage(s) => SessionErrorView::WelcomeMessage(s@),
            SessionError::CommitMessage(s) => SessionErrorView::CommitMessage(s@),
            SessionError::AddParticipant(s) => SessionErrorView::AddParticipant(s@),
            SessionError::RemoveParticipant(s) => SessionErrorView::RemoveParticipant(s@),
            SessionError::JoinChannelPayload(s) => SessionErrorView::JoinChannelPayload(s@),
            SessionError::TimerNotFound(s) => SessionErrorView::TimerNotFound(s@),
            SessionError::NoMls => SessionErrorView::NoMls,
        }
    }
}

/// The model of the result of something that yields no value.
pub open spec fn unit_result(r: Result<(), SessionError>) -> Result<(), SessionErrorView> {
    match r {
        Ok(_) => Ok(()),
        Err(e) => Err(e@),
    }
}

/// The model of bytes, or of an error's text, that the group key engine gave.
pub open spec fn engine_bytes(r: Result<Vec<u8>, String>) -> Result<Seq<u8>, Seq<char>> {
    match r {
        Ok(b) => Ok(b@),
        Err(e) => Err(e@),
    }
}

/// The model of success, or of an error's text, that the group key engine gave.
pub open spec fn engine_unit(r: Result<(), String>) -> Result<(), Seq<char>> {
    match r {
        Ok(_) => Ok(()),
        Err(e) => Err(e@),
    }
}

/// The model of a request to the group key engine.
pub enum MlsRequestView {
    CreateGroup,
    GenerateKeyPackage,
    ProcessWelcome(Seq<u8>),
    ProcessCommit(Seq<u8>),
    AddMember(Seq<u8>),
    RemoveMember(Seq<u8>),
}

/// A request to the group key engine.
#[derive(Debug)]
pub enum MlsRequest {
    /// Create the group.
    CreateGroup,
    /// Make a key package to be added to a group with.
    GenerateKeyPackage,
    /// Enter the group of a welcome message.
    ProcessWelcome(Vec<u8>),
    /// Follow a change of the group.
    ProcessCommit(Vec<u8>),
    /// Add the member with a key package.
    AddMember(Vec<u8>),
    /// Remove the member with an identity.
    RemoveMember(Vec<u8>),
}

impl View for MlsRequest {
    type V = MlsRequestView;

    open spec fn view(&self) -> MlsRequestView {
        match self {
            MlsRequest::CreateGroup => MlsRequestView::CreateGroup,
            MlsRequest::GenerateKeyPackage => MlsRequestView::GenerateKeyPackage,
            MlsRequest::ProcessWelcome(b) => MlsRequestView::ProcessWelcome(b@),
            MlsRequest::ProcessCommit(b) => MlsRequestView::ProcessCommit(b@),
            MlsRequest::AddMember(b) => MlsRequestView::AddMember(b@),
            MlsRequest::RemoveMember(b) => MlsRequestView::RemoveMember(b@),
        }
    }
}

/// The model of what adding a member yields.
pub struct AddedMemberView {
    pub commit_message: Seq<u8>,
    pub welcome_message: Seq<u8>,
    pub member_identity: Seq<u8>,
}

/// What adding a member yields.
#[derive(Debug)]
pub struct AddedMember {
    /// The change of the group, for those who are in it.
    pub commit_message: Vec<u8>,
    /// The way into the group, for the new member.
    pub welcome_message: Vec<u8>,
    /// What the member is removed by.
    pub member_identity: Vec<u8>,
}

impl View for AddedMember {
    type V = AddedMemberView;

    open spec fn view(&self) -> AddedMemberView {
        AddedMemberView {
            commit_message: self.commit_message@,
            welcome_message: self.welcome_message@,
            member_identity: self.member_identity@,
        }
    }
}

/// The model of what adding a member yields, or of an error's text.
pub open spec fn engine_added(r: Result<AddedMember, String>) -> Result<
    AddedMemberView,
    Seq<char>,
> {
    match r {
        Ok(a) => Ok(a@),
        Err(e) => Err(e@),
    }
}

/// The model of an outcome.
pub enum OutcomeView {
    Sent(Result<(), SessionErrorView>),
    GroupCreated(Result<(), Seq<char>>),
    KeyPackage(Result<Seq<u8>, Seq<char>>),
    WelcomeProcessed(Result<Seq<u8>, Seq<char>>),
    CommitProcessed(Result<(), Seq<char>>),
    MemberAdded(Result<AddedMemberView, Seq<char>>),
    MemberRemoved(Result<Seq<u8>, Seq<char>>),
}

/// What came of a step.
#[derive(Debug)]
pub enum Outcome {
    /// The message was sent, or not.
    Sent(Result<(), SessionError>),
    /// The engine created the group, or not.
    GroupCreated(Result<(), String>),
    /// The engine made a key package, or not.
    KeyPackage(Result<Vec<u8>, String>),
    /// The engine entered a group and gave its id, or not.
    WelcomeProcessed(Result<Vec<u8>, String>),
    /// The engine followed a change, or not.
    CommitProcessed(Result<(), String>),
    /// The engine added a member, or not.
    MemberAdded(Result<AddedMember, String>),
    /// The engine removed a member and gave the change of the group, or not.
    MemberRemoved(Result<Vec<u8>, String>),
}

impl View for Outcome {
    type V = OutcomeView;

    open spec fn view(&self) -> OutcomeView {
        match self {
            Outcome::Sent(r) => OutcomeView::Sent(unit_result(*r)),
            Outcome::GroupCreated(r) => OutcomeView::GroupCreated(engine_unit(*r)),
            Outcome::KeyPackage(r) => OutcomeView::KeyPackage(engine_bytes(*r)),
            Outcome::WelcomeProcessed(r) => OutcomeView::WelcomeProcessed(engine_bytes(*r)),
            Outcome::CommitProcessed(r) => OutcomeView::CommitProcessed(engine_unit(*r)),
            Outcome::MemberAdded(r) => OutcomeView::MemberAdded(engine_added(*r)),
            Outcome::MemberRemoved(r) => OutcomeView::MemberRemoved(engine_bytes(*r)),
        }
    }
}

/// What a timer does while a request is pending.
#[derive(Debug)]
pub struct RequestTimerObserver {
    /// The message to send in case of timeout.
    pub message: ProtoMessage,
}

impl RequestTimerObserver {
    /// The message to send again when the timer runs out.
    pub fn on_timeout(&self) -> (r: ProtoMessage)
        ensures
            r@ == self.message@,
    {
        self.message.clone()
    }

    /// What the application is told when the timer has run out for the last time.
    pub fn on_failure(&self) -> (r: SessionError)
        ensures
            r@ == SessionErrorView::Processing(
                "timer failed on channel endpoint. Stop sending messages"@,
            ),
    {
        SessionError::Processing(
            "timer failed on channel endpoint. Stop sending messages".to_owned(),
        )
    }
}

/// The model of a change to the running timers.
pub enum TimerOpView {
    Start { key: u32, interval: Duration, max_retries: u32, message: MessageView },
    Stop { key: u32 },
}

/// A change to the running timers.
#[derive(Debug)]
pub enum TimerOp {
    /// Start a timer of constant interval that gives up after a number of retries.
    Start { key: u32, interval: Duration, max_retries: u32, observer: RequestTimerObserver },
    /// Stop the timer with a key.
    Stop { key: u32 },
}

impl View for TimerOp {
    type V = TimerOpView;

    open spec fn view(&self) -> TimerOpView {
        match self {
            TimerOp::Start { key, interval, max_retries, observer } => TimerOpView::Start {
                key: *key,
                interval: *interval,
                max_retries: *max_retries,
                message: observer.message@,
            },
            TimerOp::Stop { key } => TimerOpView::Stop { key: *key },
        }
    }
}

/// The model of what a step ends with.
pub enum NextView {
    Send(MessageView),
    Mls(MlsRequestView),
    Finish(Result<(), SessionErrorView>),
}

/// What a step ends with.
#[derive(Debug)]
pub enum Next {
    /// Send a message to the local SLIM instance.
    Send(ProtoMessage),
    /// Ask the group key engine.
    Mls(MlsRequest),
    /// The message has been handled, or could not be.
    Finish(Result<(), SessionError>),
}

impl View for Next {
    type V = NextView;

    open spec fn view(&self) -> NextView {
        match self {
            Next::Send(m) => NextView::Send(m@),
            Next::Mls(r) => NextView::Mls(r@),
            Next::Finish(r) => NextView::Finish(unit_result(*r)),
        }
    }
}

/// The model of a step.
pub struct StepView {
    pub timers: Seq<TimerOpView>,
    pub next: NextView,
}

/// A step: first the changes to the timers, in order, then one thing to do.
#[derive(Debug)]
pub struct Step {
    pub timers: Vec<TimerOp>,
    pub next: Next,
}

impl View for Step {
    type V = StepView;

    open spec fn view(&self) -> StepView {
        StepView {
            timers: self.timers@.map_values(|t: TimerOp| t@),
            next: self.next@,
        }
    }
}

/// The model of a step that may be there.
pub open spec fn step_option(step: Option<Step>) -> Option<StepView> {
    match step {
        Some(s) => Some(s@),
        None => None,
    }
}

impl StepView {
    /// The step that sends a message.
    pub open spec fn send(message: MessageView) -> StepView {
        StepView { timers: Seq::empty(), next: NextView::Send(message) }
    }

    /// The step that asks the group key engine.
    pub open spec fn ask(request: MlsRequestView) -> StepView {
        StepView { timers: Seq::empty(), next: NextView::Mls(request) }
    }

    /// The step that ends a run.
    pub open spec fn finish(result: Result<(), SessionErrorView>) -> StepView {
        StepView { timers: Seq::empty(), next: NextView::Finish(result) }
    }

    /// The step with changes to the timers before its own.
    pub open spec fn after(self, timers: Seq<TimerOpView>) -> StepView {
        StepView { timers: timers + self.timers, next: self.next }
    }
}

impl Step {
    /// The step that sends a message.
    pub fn send(message: ProtoMessage) -> (r: Step)
        ensures
            r@ == StepView::send(message@),
    {
        let r = Step { timers: Vec::new(), next: Next::Send(message) };
        assert(r@.timers =~= Seq::empty());
        r
    }

    /// The step that asks the group key engine.
    pub fn ask(request: MlsRequest) -> (r: Step)
        ensures
            r@ == StepView::ask(request@),
    {
        let r = Step { timers: Vec::new(), next: Next::Mls(request) };
        assert(r@.timers =~= Seq::empty());
        r
    }

    /// The step that ends a run.
    pub fn finish(result: Result<(), SessionError>) -> (r: Step)
        ensures
            r@ == StepView::finish(unit_result(result)),
    {
        let r = Step { timers: Vec::new(), next: Next::Finish(result) };
        assert(r@.timers =~= Seq::empty());
        r
    }

    /// The step with one change to the timers before its own.
    pub fn after(self, op: TimerOp) -> (r: Step)
        ensures
            r@ == self@.after(seq![op@]),
    {
        let mut timers = self.timers;
        let ghost before = timers@;
        timers.insert(0, op);
        let r = Step { timers, next: self.next };
        proof {
            assert(r@.timers =~= seq![op@] + before.map_values(|t: TimerOp| t@));
        }
        r
    }
}

} // verus!
