//! The model of a participant: how it goes from one step to the next.

use vstd::prelude::*;

use crate::encoder::{AgentTypeView, AgentView};
use crate::endpoint::EndpointView;
use crate::kinds::SessionMessageType;
use crate::message::MessageView;
use crate::mls::MlsView;
use crate::payload::JoinPayloadView;
use crate::session::{
    MlsRequestView, OutcomeView, SessionErrorView, StepView, METADATA_MLS_ENABLED,
};

verus! {

/// The model of what a participant waits for.
pub enum ParticipantTaskView {
    MeetModerator { msg: MessageView, moderator: AgentView },
    MakeKeyPackage { msg: MessageView },
    EnterGroup { msg: MessageView },
    FollowCommit { msg: MessageView },
    Subscribe { msg: MessageView, answer: SessionMessageType },
    Route { msg: MessageView, answer: SessionMessageType },
    Unsubscribe { msg: MessageView },
    Unroute { msg: MessageView },
    LeaveReply,
    Close,
}

/// The model of a participant.
pub struct ParticipantView {
    pub moderator_name: Option<AgentView>,
    pub endpoint: EndpointView,
    pub waiting: Option<ParticipantTaskView>,
}

/// Whether something is what is read from a join request. The text of the error for a
/// payload that cannot be read is left open.
pub open spec fn reads_names(
    msg: MessageView,
    names: Result<JoinPayloadView, SessionErrorView>,
) -> bool {
    match msg.payload() {
        None => names == Err::<JoinPayloadView, SessionErrorView>(
            SessionErrorView::Processing("missing payload in a Join Channel request"@),
        ),
        Some(content) => match JoinPayloadView::read(content.blob) {
            Some(n) => names == Ok::<JoinPayloadView, SessionErrorView>(n),
            None => names matches Err(SessionErrorView::JoinChannelPayload(_)),
        },
    }
}

/// Whether a message is a join request.
pub open spec fn is_join_request(msg: MessageView) -> bool {
    msg.session_header() is Some && msg.kind() == SessionMessageType::ChannelJoinRequest
}

impl ParticipantView {
    /// The participant while it waits for something.
    pub open spec fn wait(self, task: ParticipantTaskView) -> ParticipantView {
        ParticipantView { waiting: Some(task), ..self }
    }

    /// The participant once a message has been handled.
    pub open spec fn idle(self) -> ParticipantView {
        ParticipantView { waiting: None, ..self }
    }

    /// The participant with another state in the group.
    pub open spec fn with_mls(self, mls: MlsView) -> ParticipantView {
        ParticipantView { endpoint: EndpointView { mls_state: Some(mls), ..self.endpoint }, ..self }
    }

    /// The end of a run.
    pub open spec fn finish(self, result: Result<(), SessionErrorView>) -> (
        ParticipantView,
        StepView,
    ) {
        (self.idle(), StepView::finish(result))
    }

    /// Answers a message, as the last thing of a run.
    pub open spec fn answer(
        self,
        msg: MessageView,
        answer: SessionMessageType,
        payload: Seq<u8>,
    ) -> (ParticipantView, StepView) {
        (
            self.wait(ParticipantTaskView::Close),
            StepView::send(self.endpoint.answer(msg, answer, payload)),
        )
    }

    /// Whether the channel can be joined and a message answered.
    pub open spec fn can_join(self, msg: MessageView) -> bool {
        if self.endpoint.subscribed {
            msg.can_answer()
        } else {
            self.endpoint.can_subscribe()
        }
    }

    /// Joins the channel, but only once, and then answers a message.
    pub open spec fn join(self, msg: MessageView, answer: SessionMessageType) -> (
        ParticipantView,
        StepView,
    ) {
        if self.endpoint.subscribed {
            self.answer(msg, answer, Seq::empty())
        } else {
            (
                ParticipantView {
                    endpoint: EndpointView { subscribed: true, ..self.endpoint },
                    ..self
                }.wait(ParticipantTaskView::Subscribe { msg, answer }),
                StepView::send(self.endpoint.subscription()),
            )
        }
    }

    /// Whether a join request can be handled, given what was read from it.
    pub open spec fn accepts_join(
        self,
        msg: MessageView,
        names: Result<JoinPayloadView, SessionErrorView>,
    ) -> bool {
        names matches Ok(n) ==> {
            &&& msg.has_incoming_conn()
            &&& msg.session_header() is Some
            &&& n.moderator_name.agent_type.strings is Some
        }
    }

    /// The participant with what a join request says of the channel.
    pub open spec fn invited(self, msg: MessageView, channel_name: AgentTypeView) -> ParticipantView {
        ParticipantView {
            endpoint: EndpointView {
                conn: Some(msg.incoming_conn()),
                session_id: msg.session_header()->0.session_id,
                channel_name,
                ..self.endpoint
            },
            ..self
        }
    }

    /// A join request: the channel is taken from it, and a route to the moderator is set.
    pub open spec fn on_join_request(
        self,
        msg: MessageView,
        names: Result<JoinPayloadView, SessionErrorView>,
    ) -> (ParticipantView, StepView) {
        match names {
            Err(e) => self.finish(Err(e)),
            Ok(n) => {
                let invited = self.invited(msg, n.channel_name);
                let moderator = n.moderator_name;
                (
                    invited.wait(ParticipantTaskView::MeetModerator { msg, moderator }),
                    StepView::send(
                        invited.endpoint.route(moderator.agent_type, moderator.id_option()),
                    ),
                )
            },
        }
    }

    /// A join request, once the route to the moderator is set: with keys, a key package
    /// is needed for the answer; without, the channel is joined.
    pub open spec fn on_moderator_met(self, msg: MessageView, moderator: AgentView) -> (
        ParticipantView,
        StepView,
    ) {
        let met = ParticipantView { moderator_name: Some(moderator), ..self };
        if !msg.metadata.contains_key(METADATA_MLS_ENABLED@) {
            met.join(msg, SessionMessageType::ChannelJoinReply)
        } else if self.endpoint.mls_state is None {
            met.finish(Err(SessionErrorView::NoMls))
        } else {
            (
                met.wait(ParticipantTaskView::MakeKeyPackage { msg }),
                StepView::ask(MlsRequestView::GenerateKeyPackage),
            )
        }
    }

    /// Whether a welcome message can be handled.
    pub open spec fn accepts_welcome(self, msg: MessageView) -> bool {
        self.endpoint.mls_state matches Some(mls) ==> {
            &&& mls.reads_welcome(msg) ==> msg.is_publish()
            &&& mls.welcome(msg) == Ok::<Option<Seq<u8>>, SessionErrorView>(None) ==> self.can_join(
                msg,
            )
        }
    }

    /// A welcome message: the first one has the engine enter the group; after it, the
    /// channel is joined and the message acknowledged.
    pub open spec fn on_mls_welcome(self, msg: MessageView) -> (ParticipantView, StepView) {
        match self.endpoint.mls_state {
            None => self.finish(Err(SessionErrorView::NoMls)),
            Some(mls) => {
                let next = self.with_mls(mls.after_welcome(msg));
                match mls.welcome(msg) {
                    Err(e) => next.finish(Err(e)),
                    Ok(None) => next.join(msg, SessionMessageType::ChannelMlsAck),
                    Ok(Some(welcome)) => (
                        next.wait(ParticipantTaskView::EnterGroup { msg }),
                        StepView::ask(MlsRequestView::ProcessWelcome(welcome)),
                    ),
                }
            },
        }
    }

    /// Whether a commit message can be handled.
    pub open spec fn accepts_commit(self, msg: MessageView) -> bool {
        self.endpoint.mls_state matches Some(mls) ==> mls.last_commit_id != 0 ==> {
            &&& msg.session_header() is Some
            &&& mls.last_commit_id < u32::MAX
        }
    }

    /// A commit message: the next one has the engine follow it.
    pub open spec fn on_mls_commit(self, msg: MessageView) -> (ParticipantView, StepView) {
        match self.endpoint.mls_state {
            None => self.finish(Err(SessionErrorView::NoMls)),
            Some(mls) => {
                let next = self.with_mls(mls.after_commit(msg));
                match mls.commit(msg) {
                    Err(e) => next.finish(Err(e)),
                    Ok(commit) => (
                        next.wait(ParticipantTaskView::FollowCommit { msg }),
                        StepView::ask(MlsRequestView::ProcessCommit(commit)),
                    ),
                }
            },
        }
    }

    /// A leave request: the subscription to the channel is ended first.
    pub open spec fn on_leave_request(self, msg: MessageView) -> (ParticipantView, StepView) {
        (
            self.wait(ParticipantTaskView::Unsubscribe { msg }),
            StepView::send(self.endpoint.unsubscription()),
        )
    }

    /// Whether a message other than a join request can be handled.
    pub open spec fn accepts_other(self, msg: MessageView) -> bool {
        &&& msg.session_header() is Some
        &&& match msg.kind() {
            SessionMessageType::ChannelMlsWelcome => self.accepts_welcome(msg),
            SessionMessageType::ChannelMlsCommit => self.accepts_commit(msg),
            SessionMessageType::ChannelLeaveRequest => self.endpoint.conn is Some,
            _ => true,
        }
    }

    /// The first step for a message other than a join request. One that is not for a
    /// participant is refused.
    pub open spec fn on_other_message(self, msg: MessageView) -> (ParticipantView, StepView) {
        match msg.kind() {
            SessionMessageType::ChannelDiscoveryRequest => self.finish(
                Err(
                    SessionErrorView::Processing(
                        "Received discovery request message, this should not happen"@,
                    ),
                ),
            ),
            SessionMessageType::ChannelMlsWelcome => self.on_mls_welcome(msg),
            SessionMessageType::ChannelMlsCommit => self.on_mls_commit(msg),
            SessionMessageType::ChannelLeaveRequest => self.on_leave_request(msg),
            other => self.finish(
                Err(
                    SessionErrorView::Processing(
                        "Received message of type "@ + other.spec_name() + ", drop it"@,
                    ),
                ),
            ),
        }
    }

    /// Whether a message leads to a step, or to none where the message lacks what its
    /// kind needs. Nothing changes then.
    pub open spec fn handles(
        self,
        msg: MessageView,
        step: Option<StepView>,
        after: ParticipantView,
    ) -> bool {
        if is_join_request(msg) {
            exists|names: Result<JoinPayloadView, SessionErrorView>| #[trigger]
                reads_names(msg, names) && match step {
                    Some(s) => self.accepts_join(msg, names) && (after, s) == self.on_join_request(
                        msg,
                        names,
                    ),
                    None => !self.accepts_join(msg, names) && after == self,
                }
        } else {
            match step {
                Some(s) => self.accepts_other(msg) && (after, s) == self.on_other_message(msg),
                None => !self.accepts_other(msg) && after == self,
            }
        }
    }

    /// Whether an outcome leads to a step, or to none where it is not one that is waited
    /// for or what follows it cannot be done. Nothing changes then.
    pub open spec fn continues(
        self,
        outcome: OutcomeView,
        step: Option<StepView>,
        after: ParticipantView,
    ) -> bool {
        match step {
            Some(s) => self.can_resume(outcome) && (after, s) == self.resume(outcome),
            None => !self.can_resume(outcome) && after == self,
        }
    }

    /// Whether an outcome is one that is waited for, and what follows can be done.
    pub open spec fn can_resume(self, outcome: OutcomeView) -> bool {
        match (self.waiting, outcome) {
            (Some(task), OutcomeView::Sent(Err(_))) => match task {
                ParticipantTaskView::MakeKeyPackage { .. } => false,
                ParticipantTaskView::EnterGroup { .. } => false,
                ParticipantTaskView::FollowCommit { .. } => false,
                _ => true,
            },
            (Some(task), OutcomeView::Sent(Ok(_))) => match task {
                ParticipantTaskView::MeetModerator { msg, .. } => {
                    &&& msg.can_answer()
                    &&& !msg.metadata.contains_key(METADATA_MLS_ENABLED@) ==> self.can_join(msg)
                },
                ParticipantTaskView::Subscribe { .. } => self.endpoint.can_subscribe(),
                ParticipantTaskView::Route { msg, .. } => msg.can_answer(),
                ParticipantTaskView::Unsubscribe { .. } => self.endpoint.conn is Some,
                ParticipantTaskView::Unroute { msg } => msg.can_answer(),
                ParticipantTaskView::LeaveReply => self.moderator_name is Some
                    ==> self.endpoint.conn is Some,
                ParticipantTaskView::Close => true,
                _ => false,
            },
            (
                Some(ParticipantTaskView::MakeKeyPackage { msg }),
                OutcomeView::KeyPackage(r),
            ) => r is Ok ==> msg.can_answer(),
            (
                Some(ParticipantTaskView::EnterGroup { msg }),
                OutcomeView::WelcomeProcessed(r),
            ) => self.endpoint.mls_state is Some && (r is Ok ==> self.can_join(msg)),
            (
                Some(ParticipantTaskView::FollowCommit { msg }),
                OutcomeView::CommitProcessed(r),
            ) => r is Ok ==> msg.can_answer(),
            _ => false,
        }
    }

    /// The step that follows an outcome. A message that could not be sent ends the run.
    pub open spec fn resume(self, outcome: OutcomeView) -> (ParticipantView, StepView) {
        match (self.waiting->0, outcome) {
            (_, OutcomeView::Sent(Err(e))) => self.finish(Err(e)),
            (
                ParticipantTaskView::MeetModerator { msg, moderator },
                _,
            ) => self.on_moderator_met(msg, moderator),
            (
                ParticipantTaskView::MakeKeyPackage { msg },
                OutcomeView::KeyPackage(Ok(package)),
            ) => self.answer(msg, SessionMessageType::ChannelJoinReply, package),
            (ParticipantTaskView::MakeKeyPackage { .. }, OutcomeView::KeyPackage(Err(e))) => {
                self.finish(Err(SessionErrorView::MLSInit(e)))
            },
            (
                ParticipantTaskView::EnterGroup { msg },
                OutcomeView::WelcomeProcessed(Ok(group)),
            ) => self.with_mls(MlsView { group, ..self.endpoint.mls_state->0 }).join(
                msg,
                SessionMessageType::ChannelMlsAck,
            ),
            (ParticipantTaskView::EnterGroup { .. }, OutcomeView::WelcomeProcessed(Err(e))) => {
                self.finish(Err(SessionErrorView::WelcomeMessage(e)))
            },
            (
                ParticipantTaskView::FollowCommit { msg },
                OutcomeView::CommitProcessed(Ok(_)),
            ) => self.answer(msg, SessionMessageType::ChannelMlsAck, Seq::empty()),
            (ParticipantTaskView::FollowCommit { .. }, OutcomeView::CommitProcessed(Err(e))) => {
                self.finish(Err(SessionErrorView::CommitMessage(e)))
            },
            (ParticipantTaskView::Subscribe { msg, answer }, _) => (
                self.wait(ParticipantTaskView::Route { msg, answer }),
                StepView::send(self.endpoint.route(self.endpoint.channel_name, None)),
            ),
            (ParticipantTaskView::Route { msg, answer }, _) => self.answer(
                msg,
                answer,
                Seq::empty(),
            ),
            (ParticipantTaskView::Unsubscribe { msg }, _) => (
                self.wait(ParticipantTaskView::Unroute { msg }),
                StepView::send(self.endpoint.unroute(self.endpoint.channel_name, None)),
            ),
            (ParticipantTaskView::Unroute { msg }, _) => (
                self.wait(ParticipantTaskView::LeaveReply),
                StepView::send(
                    self.endpoint.answer(
                        msg,
                        SessionMessageType::ChannelLeaveReply,
                        Seq::empty(),
                    ),
                ),
            ),
            (ParticipantTaskView::LeaveReply, _) => match self.moderator_name {
                Some(m) => (
                    self.wait(ParticipantTaskView::Close),
                    StepView::send(self.endpoint.unroute(m.agent_type, m.id_option())),
                ),
                None => self.finish(Ok(())),
            },
            _ => self.finish(Ok(())),
        }
    }
}

} // verus!
