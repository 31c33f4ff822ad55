//! The model of a moderator: how it goes from one step to the next.

use std::time::Duration;
use vstd::prelude::*;

use crate::endpoint::EndpointView;
use crate::kinds::SessionMessageType;
use crate::message::MessageView;
use crate::mls::MlsView;
use crate::session::{
    AddedMemberView, MlsRequestView, OutcomeView, SessionErrorView, StepView, TimerOpView,
    METADATA_MLS_ENABLED, METADATA_MLS_INIT_COMMIT_ID,
};

verus! {

/// The model of a pending request.
pub struct ChannelTimerView {
    pub expected_acks: u32,
    pub to_forward: Option<MessageView>,
}

/// The model of what follows an acknowledgement.
pub enum AfterAckView {
    Done,
    Invite { join: MessageView, id: u32 },
    Add { msg: MessageView },
}

/// The model of what a moderator waits for.
pub enum ModeratorTaskView {
    Forward { msg: MessageView, after: AfterAckView },
    Subscribe { reply: Option<MessageView> },
    Route { reply: Option<MessageView> },
    CreateGroup { reply: Option<MessageView> },
    AddMember { msg: MessageView },
    SendWelcome {
        welcome: MessageView,
        welcome_id: u32,
        commit: MessageView,
        commit_id: u32,
        others: u32,
    },
    RemoveMember { msg: MessageView },
    SendCommit {
        commit: MessageView,
        commit_id: u32,
        acks: u32,
        to_forward: Option<MessageView>,
    },
    Close,
}

/// The model of a moderator.
#[verifier::ext_equal]
pub struct ModeratorView {
    pub endpoint: EndpointView,
    pub pending_requests: Map<u32, ChannelTimerView>,
    pub max_retries: u32,
    pub retries_interval: Duration,
    pub invite_payload: Seq<u8>,
    pub mls_msg_id: u32,
    pub waiting: Option<ModeratorTaskView>,
}

/// A step with changes to the timers before its own.
pub open spec fn after_timers(
    step: (ModeratorView, StepView),
    timers: Seq<TimerOpView>,
) -> (ModeratorView, StepView) {
    (step.0, step.1.after(timers))
}

impl ModeratorView {
    /// The moderator while it waits for something.
    pub open spec fn wait(self, task: ModeratorTaskView) -> ModeratorView {
        ModeratorView { waiting: Some(task), ..self }
    }

    /// The end of a run.
    pub open spec fn finish(self, result: Result<(), SessionErrorView>) -> (
        ModeratorView,
        StepView,
    ) {
        (ModeratorView { waiting: None, ..self }, StepView::finish(result))
    }

    /// The moderator with another pending request.
    pub open spec fn with_pending(
        self,
        key: u32,
        expected_acks: u32,
        to_forward: Option<MessageView>,
    ) -> ModeratorView {
        ModeratorView {
            pending_requests: self.pending_requests.insert(
                key,
                ChannelTimerView { expected_acks, to_forward },
            ),
            ..self
        }
    }

    /// The moderator without a pending request.
    pub open spec fn without_pending(self, key: u32) -> ModeratorView {
        ModeratorView { pending_requests: self.pending_requests.remove(key), ..self }
    }

    /// The start of the timer of a request.
    pub open spec fn timer(self, key: u32, message: MessageView) -> TimerOpView {
        TimerOpView::Start {
            key,
            interval: self.retries_interval,
            max_retries: self.max_retries,
            message,
        }
    }

    /// Forwards a message. It becomes a pending request once it is sent.
    pub open spec fn forward(self, msg: MessageView, after: AfterAckView) -> (
        ModeratorView,
        StepView,
    ) {
        (self.wait(ModeratorTaskView::Forward { msg, after }), StepView::send(msg))
    }

    /// Whether what follows an acknowledgement can be done.
    pub open spec fn can_follow_ack(self, after: AfterAckView) -> bool {
        after matches AfterAckView::Add { msg } ==> self.endpoint.mls_state is Some
            ==> msg.is_publish()
    }

    /// What follows an acknowledgement: nothing, a join request, or the addition of a
    /// participant to the group where there is one.
    pub open spec fn follow_ack(self, after: AfterAckView) -> (ModeratorView, StepView) {
        match after {
            AfterAckView::Done => self.finish(Ok(())),
            AfterAckView::Invite { join, id } => (
                self.with_pending(id, 1, None).wait(ModeratorTaskView::Close),
                StepView::send(join).after(seq![self.timer(id, join)]),
            ),
            AfterAckView::Add { msg } => if self.endpoint.mls_state is None {
                self.finish(Ok(()))
            } else {
                match crate::mls::key_package(msg) {
                    Err(e) => self.finish(Err(e)),
                    Ok(package) => (
                        self.wait(ModeratorTaskView::AddMember { msg }),
                        StepView::ask(MlsRequestView::AddMember(package)),
                    ),
                }
            },
        }
    }

    /// Whether an acknowledgement can be counted.
    pub open spec fn can_count_ack(self, key: u32, after: AfterAckView) -> bool {
        self.pending_requests.contains_key(key) ==> {
            let timer = self.pending_requests[key];
            if timer.expected_acks <= 1 && timer.to_forward is Some {
                timer.to_forward->0.session_header() is Some
            } else {
                self.can_follow_ack(after)
            }
        }
    }

    /// Counts an acknowledgement of a pending request. The last one stops the timer, and
    /// has the message that waited for it forwarded.
    pub open spec fn count_ack(self, key: u32, after: AfterAckView) -> (ModeratorView, StepView) {
        if !self.pending_requests.contains_key(key) {
            self.finish(Err(SessionErrorView::TimerNotFound(crate::text::decimal(key as nat))))
        } else {
            let timer = self.pending_requests[key];
            if timer.expected_acks > 1 {
                self.with_pending(
                    key,
                    (timer.expected_acks - 1) as u32,
                    timer.to_forward,
                ).follow_ack(after)
            } else {
                let settled = self.without_pending(key);
                after_timers(
                    match timer.to_forward {
                        Some(msg) => settled.forward(msg, after),
                        None => settled.follow_ack(after),
                    },
                    seq![TimerOpView::Stop { key }],
                )
            }
        }
    }

    /// The join request for the agent that sent a discovery reply.
    pub open spec fn join_request(self, reply: MessageView, id: u32) -> MessageView {
        let join = self.endpoint.message_to(
            reply.source(),
            SessionMessageType::ChannelJoinRequest,
            id,
            self.invite_payload,
        );
        if self.endpoint.mls_state is Some {
            join.with_metadata(METADATA_MLS_ENABLED@, "true"@)
        } else {
            join
        }
    }

    /// Whether a discovery reply can be followed up, once the channel is joined.
    pub open spec fn can_follow_join(self, reply: Option<MessageView>) -> bool {
        reply matches Some(r) ==> r.can_answer() && self.can_count_ack(
            r.id(),
            AfterAckView::Done,
        )
    }

    /// What follows once the channel is joined: the join request for the agent that sent
    /// a discovery reply.
    pub open spec fn follow_join(self, reply: Option<MessageView>, id: u32) -> (
        ModeratorView,
        StepView,
    ) {
        match reply {
            None => self.finish(Ok(())),
            Some(r) => self.count_ack(
                r.id(),
                AfterAckView::Invite { join: self.join_request(r, id), id },
            ),
        }
    }

    /// Whether the channel can be joined.
    pub open spec fn can_join(self, reply: Option<MessageView>) -> bool {
        if self.endpoint.subscribed {
            self.can_follow_join(reply)
        } else {
            self.endpoint.can_subscribe()
        }
    }

    /// Joins the channel, but only once.
    pub open spec fn join(self, reply: Option<MessageView>, id: u32) -> (ModeratorView, StepView) {
        if self.endpoint.subscribed {
            self.follow_join(reply, id)
        } else {
            (
                ModeratorView {
                    endpoint: EndpointView { subscribed: true, ..self.endpoint },
                    ..self
                }.wait(ModeratorTaskView::Subscribe { reply }),
                StepView::send(self.endpoint.subscription()),
            )
        }
    }

    /// The moderator with the connection that a message came in on.
    pub open spec fn connected(self, msg: MessageView) -> ModeratorView {
        ModeratorView {
            endpoint: EndpointView { conn: Some(msg.incoming_conn()), ..self.endpoint },
            ..self
        }
    }

    /// The moderator with another state in the group and its next change counted.
    pub open spec fn with_change(self, mls: MlsView) -> ModeratorView {
        ModeratorView {
            endpoint: EndpointView { mls_state: Some(mls), ..self.endpoint },
            mls_msg_id: (self.mls_msg_id + 1) as u32,
            ..self
        }
    }

    /// Whether an added participant can be welcomed.
    pub open spec fn can_add(self, msg: MessageView, added: AddedMemberView) -> bool {
        &&& self.endpoint.mls_state matches Some(mls)
        &&& msg.has_source()
        &&& self.mls_msg_id < u32::MAX
        &&& mls.with_participant(
            msg.source().key(),
            added.member_identity,
        ).participants.len() - 1 <= u32::MAX
    }

    /// A participant was added: it is welcomed first.
    pub open spec fn on_added(self, msg: MessageView, added: AddedMemberView, id: u32) -> (
        ModeratorView,
        StepView,
    ) {
        let mls = self.endpoint.mls_state->0.with_participant(
            msg.source().key(),
            added.member_identity,
        );
        let next = self.with_change(mls);
        let commit = next.endpoint.broadcast(
            SessionMessageType::ChannelMlsCommit,
            next.mls_msg_id,
            added.commit_message,
        );
        let welcome = next.endpoint.message_to(
            msg.source(),
            SessionMessageType::ChannelMlsWelcome,
            id,
            added.welcome_message,
        ).with_metadata(
            METADATA_MLS_INIT_COMMIT_ID@,
            crate::text::decimal(next.mls_msg_id as nat),
        );
        (
            next.wait(
                ModeratorTaskView::SendWelcome {
                    welcome,
                    welcome_id: id,
                    commit,
                    commit_id: next.mls_msg_id,
                    others: (mls.participants.len() - 1) as u32,
                },
            ),
            StepView::send(welcome),
        )
    }

    /// Whether the group can be told of a removal.
    pub open spec fn can_remove(self, msg: MessageView) -> bool {
        &&& self.endpoint.mls_state matches Some(mls)
        &&& msg.has_destination()
        &&& self.mls_msg_id < u32::MAX
        &&& mls.without_participant(msg.destination_agent().key()).participants.len() + 1
            <= u32::MAX
    }

    /// A participant was removed: the group is told, and the leave request is forwarded
    /// once all have acknowledged it, the removed participant among them.
    pub open spec fn on_removed(self, msg: MessageView, change: Seq<u8>) -> (
        ModeratorView,
        StepView,
    ) {
        let mls = self.endpoint.mls_state->0.without_participant(msg.destination_agent().key());
        let next = self.with_change(mls);
        let commit = next.endpoint.broadcast(
            SessionMessageType::ChannelMlsCommit,
            next.mls_msg_id,
            change,
        );
        (
            next.wait(
                ModeratorTaskView::SendCommit {
                    commit,
                    commit_id: next.mls_msg_id,
                    acks: (mls.participants.len() + 1) as u32,
                    to_forward: Some(msg),
                },
            ),
            StepView::send(commit),
        )
    }

    /// A leave request: with keys, the participant is removed from the group first;
    /// without, the request is forwarded.
    pub open spec fn on_leave_request(self, msg: MessageView) -> (ModeratorView, StepView) {
        match self.endpoint.mls_state {
            None => self.forward(msg, AfterAckView::Done),
            Some(mls) => {
                let key = msg.destination_agent().key();
                if mls.participants.contains_key(key) {
                    (
                        self.wait(ModeratorTaskView::RemoveMember { msg }),
                        StepView::ask(MlsRequestView::RemoveMember(mls.participants[key])),
                    )
                } else {
                    self.finish(
                        Err(SessionErrorView::RemoveParticipant("participant does not exists"@)),
                    )
                }
            },
        }
    }

    /// Whether a message can be handled.
    pub open spec fn accepts(self, msg: MessageView) -> bool {
        &&& msg.session_header() is Some
        &&& match msg.kind() {
            SessionMessageType::ChannelDiscoveryReply => msg.has_incoming_conn() && self.connected(
                msg,
            ).can_join(Some(msg)),
            SessionMessageType::ChannelJoinReply => msg.has_source() && self.can_count_ack(
                msg.id(),
                AfterAckView::Add { msg },
            ),
            SessionMessageType::ChannelMlsAck => self.can_count_ack(
                msg.id(),
                AfterAckView::Done,
            ),
            SessionMessageType::ChannelLeaveRequest => self.endpoint.mls_state is Some
                ==> msg.has_destination(),
            SessionMessageType::ChannelLeaveReply => self.can_count_ack(
                msg.id(),
                AfterAckView::Done,
            ),
            _ => true,
        }
    }

    /// The first step for a message, with a fresh id for a message that follows from it.
    pub open spec fn on_message(self, msg: MessageView, id: u32) -> (ModeratorView, StepView) {
        match msg.kind() {
            SessionMessageType::ChannelDiscoveryRequest => self.forward(msg, AfterAckView::Done),
            SessionMessageType::ChannelDiscoveryReply => self.connected(msg).join(Some(msg), id),
            SessionMessageType::ChannelJoinReply => self.count_ack(
                msg.id(),
                AfterAckView::Add { msg },
            ),
            SessionMessageType::ChannelMlsAck => self.count_ack(msg.id(), AfterAckView::Done),
            SessionMessageType::ChannelLeaveRequest => self.on_leave_request(msg),
            SessionMessageType::ChannelLeaveReply => self.count_ack(msg.id(), AfterAckView::Done),
            other => self.finish(
                Err(
                    SessionErrorView::Processing(
                        "received unexpected packet type: "@ + other.spec_name(),
                    ),
                ),
            ),
        }
    }

    /// Whether a message leads to a step, under some fresh id, or to none where the
    /// message lacks what its kind needs. Nothing changes then.
    pub open spec fn handles(
        self,
        msg: MessageView,
        step: Option<StepView>,
        after: ModeratorView,
    ) -> bool {
        match step {
            Some(s) => self.accepts(msg) && exists|id: u32|
                (after, s) == #[trigger] self.on_message(msg, id),
            None => !self.accepts(msg) && after == self,
        }
    }

    /// Whether an outcome leads to a step, under some fresh id, or to none where it is not
    /// one that is waited for or what follows it cannot be done. Nothing changes then.
    pub open spec fn continues(
        self,
        outcome: OutcomeView,
        step: Option<StepView>,
        after: ModeratorView,
    ) -> bool {
        match step {
            Some(s) => self.can_resume(outcome) && exists|id: u32|
                (after, s) == #[trigger] self.resume(outcome, id),
            None => !self.can_resume(outcome) && after == self,
        }
    }

    /// Whether an outcome is one that is waited for, and what follows can be done.
    pub open spec fn can_resume(self, outcome: OutcomeView) -> bool {
        match (self.waiting, outcome) {
            (Some(task), OutcomeView::Sent(Err(_))) => match task {
                ModeratorTaskView::CreateGroup { .. } => false,
                ModeratorTaskView::AddMember { .. } => false,
                ModeratorTaskView::RemoveMember { .. } => false,
                _ => true,
            },
            (Some(task), OutcomeView::Sent(Ok(_))) => match task {
                ModeratorTaskView::Forward { msg, after } => msg.session_header() is Some
                    && self.can_follow_ack(after),
                ModeratorTaskView::Subscribe { .. } => self.endpoint.can_subscribe(),
                ModeratorTaskView::Route { reply } => self.endpoint.mls_state is None
                    ==> self.can_follow_join(reply),
                ModeratorTaskView::SendWelcome { .. } => true,
                ModeratorTaskView::SendCommit { .. } => true,
                ModeratorTaskView::Close => true,
                _ => false,
            },
            (
                Some(ModeratorTaskView::CreateGroup { reply }),
                OutcomeView::GroupCreated(r),
            ) => r is Ok ==> self.can_follow_join(reply),
            (Some(ModeratorTaskView::AddMember { msg }), OutcomeView::MemberAdded(r)) => {
                match r {
                    Ok(added) => self.can_add(msg, added),
                    Err(_) => true,
                }
            },
            (Some(ModeratorTaskView::RemoveMember { msg }), OutcomeView::MemberRemoved(r)) => {
                r is Ok ==> self.can_remove(msg)
            },
            _ => false,
        }
    }

    /// The step that follows an outcome, with a fresh id for a message that follows from
    /// it. A message that could not be sent ends the run, and no request is pending for
    /// it.
    pub open spec fn resume(self, outcome: OutcomeView, id: u32) -> (ModeratorView, StepView) {
        match (self.waiting->0, outcome) {
            (_, OutcomeView::Sent(Err(e))) => self.finish(Err(e)),
            (ModeratorTaskView::Forward { msg, after }, _) => after_timers(
                self.with_pending(msg.id(), 1, None).follow_ack(after),
                seq![self.timer(msg.id(), msg)],
            ),
            (ModeratorTaskView::Subscribe { reply }, _) => (
                self.wait(ModeratorTaskView::Route { reply }),
                StepView::send(self.endpoint.route(self.endpoint.channel_name, None)),
            ),
            (ModeratorTaskView::Route { reply }, _) => if self.endpoint.mls_state is Some {
                (
                    self.wait(ModeratorTaskView::CreateGroup { reply }),
                    StepView::ask(MlsRequestView::CreateGroup),
                )
            } else {
                self.follow_join(reply, id)
            },
            (ModeratorTaskView::CreateGroup { reply }, OutcomeView::GroupCreated(Ok(_))) => {
                self.follow_join(reply, id)
            },
            (ModeratorTaskView::CreateGroup { .. }, OutcomeView::GroupCreated(Err(e))) => {
                self.finish(Err(SessionErrorView::MLSInit(e)))
            },
            (ModeratorTaskView::AddMember { msg }, OutcomeView::MemberAdded(Ok(added))) => {
                self.on_added(msg, added, id)
            },
            (ModeratorTaskView::AddMember { .. }, OutcomeView::MemberAdded(Err(e))) => {
                self.finish(Err(SessionErrorView::AddParticipant(e)))
            },
            (
                ModeratorTaskView::SendWelcome { welcome, welcome_id, commit, commit_id, others },
                _,
            ) => {
                let welcomed = self.with_pending(welcome_id, 1, None);
                after_timers(
                    if others > 0 {
                        (
                            welcomed.wait(
                                ModeratorTaskView::SendCommit {
                                    commit,
                                    commit_id,
                                    acks: others,
                                    to_forward: None,
                                },
                            ),
                            StepView::send(commit),
                        )
                    } else {
                        welcomed.finish(Ok(()))
                    },
                    seq![self.timer(welcome_id, welcome)],
                )
            },
            (ModeratorTaskView::RemoveMember { msg }, OutcomeView::MemberRemoved(Ok(change))) => {
                self.on_removed(msg, change)
            },
            (ModeratorTaskView::RemoveMember { .. }, OutcomeView::MemberRemoved(Err(e))) => {
                self.finish(Err(SessionErrorView::RemoveParticipant(e)))
            },
            (ModeratorTaskView::SendCommit { commit, commit_id, acks, to_forward }, _) => {
                after_timers(
                    self.with_pending(commit_id, acks, to_forward).finish(Ok(())),
                    seq![self.timer(commit_id, commit)],
                )
            },
            _ => self.finish(Ok(())),
        }
    }
}

} // verus!
