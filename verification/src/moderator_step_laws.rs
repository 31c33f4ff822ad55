//! What a moderator does in each step, field by field.

use vstd::prelude::*;

use crate::endpoint::EndpointView;
use crate::kinds::SessionMessageType;
use crate::message::{MessageView, ProtoMessage};
use crate::mls::MlsView;
use crate::moderator::{AfterAck, ChannelModerator, ChannelTimer, ModeratorTask};
use crate::moderator_model::{AfterAckView, ChannelTimerView, ModeratorTaskView, ModeratorView};
use crate::session::{
    AddedMemberView, MlsRequestView, NextView, OutcomeView, SessionErrorView, StepView,
    TimerOpView, METADATA_MLS_ENABLED, METADATA_MLS_INIT_COMMIT_ID,
};

verus! {

/// The model of a moderator shows all that it holds.
pub proof fn models_of_moderators(
    m: ChannelModerator,
    pending: Map<u32, ChannelTimer>,
    key: u32,
    timer: ChannelTimer,
    msg: ProtoMessage,
)
    ensures
        m@.endpoint == m.endpoint@,
        m@.pending_requests == crate::moderator::pending_view(m.pending_requests@),
        m@.max_retries == m.max_retries,
        m@.retries_interval == m.retries_interval,
        m@.invite_payload == m.invite_payload@,
        m@.mls_msg_id == m.mls_msg_id,
        m@.waiting is None <==> m.waiting is None,
        m.waiting matches Some(t) ==> m@.waiting == Some(t@),
        crate::moderator::pending_view(pending).contains_key(key) <==> pending.contains_key(key),
        pending.contains_key(key) ==> crate::moderator::pending_view(pending)[key]
            == pending[key]@,
        timer@.expected_acks == timer.expected_acks,
        timer@.to_forward == crate::moderator::message_option(timer.to_forward),
        crate::moderator::message_option(Some(msg)) == Some(msg@),
        crate::moderator::message_option(None) is None,
{
}

/// The model of what is waited for, and of what follows an acknowledgement, shows its
/// kind and all that it holds.
pub proof fn models_of_moderator_tasks(
    msg: ProtoMessage,
    other: ProtoMessage,
    after: AfterAck,
    reply: Option<ProtoMessage>,
    id: u32,
    other_id: u32,
    n: u32,
)
    ensures
        AfterAck::Done@ == AfterAckView::Done,
        (AfterAck::Invite { join: msg, id })@ == (AfterAckView::Invite { join: msg@, id }),
        (AfterAck::Add { msg })@ == (AfterAckView::Add { msg: msg@ }),
        (ModeratorTask::Forward { msg, after })@
            == (ModeratorTaskView::Forward { msg: msg@, after: after@ }),
        (ModeratorTask::Subscribe { reply })@
            == (ModeratorTaskView::Subscribe { reply: crate::moderator::message_option(reply) }),
        (ModeratorTask::Route { reply })@
            == (ModeratorTaskView::Route { reply: crate::moderator::message_option(reply) }),
        (ModeratorTask::CreateGroup { reply })@
            == (ModeratorTaskView::CreateGroup { reply: crate::moderator::message_option(reply) }),
        (ModeratorTask::AddMember { msg })@ == (ModeratorTaskView::AddMember { msg: msg@ }),
        (ModeratorTask::RemoveMember { msg })@ == (ModeratorTaskView::RemoveMember { msg: msg@ }),
        (ModeratorTask::SendWelcome {
            welcome: msg,
            welcome_id: id,
            commit: other,
            commit_id: other_id,
            others: n,
        })@ == (ModeratorTaskView::SendWelcome {
            welcome: msg@,
            welcome_id: id,
            commit: other@,
            commit_id: other_id,
            others: n,
        }),
        (ModeratorTask::SendCommit { commit: msg, commit_id: id, acks: n, to_forward: reply })@
            == (ModeratorTaskView::SendCommit {
            commit: msg@,
            commit_id: id,
            acks: n,
            to_forward: crate::moderator::message_option(reply),
        }),
        ModeratorTask::Close@ == ModeratorTaskView::Close,
{
}

/// A new pending request stands under its key and touches no other, and no more of the
/// moderator. Its timer has the interval and the number of retries that the moderator was
/// made with, and the message of the request. A request that is taken out leaves the
/// others.
pub proof fn requests_are_kept_by_key(
    m: ModeratorView,
    key: u32,
    acks: u32,
    to_forward: Option<MessageView>,
    message: MessageView,
)
    ensures
        m.with_pending(key, acks, to_forward) == (ModeratorView {
            endpoint: m.endpoint,
            pending_requests: m.pending_requests.insert(
                key,
                ChannelTimerView { expected_acks: acks, to_forward },
            ),
            max_retries: m.max_retries,
            retries_interval: m.retries_interval,
            invite_payload: m.invite_payload,
            mls_msg_id: m.mls_msg_id,
            waiting: m.waiting,
        }),
        m.without_pending(key) == (ModeratorView {
            endpoint: m.endpoint,
            pending_requests: m.pending_requests.remove(key),
            max_retries: m.max_retries,
            retries_interval: m.retries_interval,
            invite_payload: m.invite_payload,
            mls_msg_id: m.mls_msg_id,
            waiting: m.waiting,
        }),
        m.timer(key, message) == (TimerOpView::Start {
            key,
            interval: m.retries_interval,
            max_retries: m.max_retries,
            message,
        }),
{
}

/// Whether all timers that are started have the settings of a moderator.
pub open spec fn with_settings(timers: Seq<TimerOpView>, m: ModeratorView) -> bool {
    forall|i: int|
        0 <= i < timers.len() ==> match #[trigger] timers[i] {
            TimerOpView::Start { interval, max_retries, .. } => interval == m.retries_interval
                && max_retries == m.max_retries,
            TimerOpView::Stop { .. } => true,
        }
}

/// Every timer that a moderator starts, in any state, has the interval and the number of
/// retries that the moderator was made with.
pub proof fn timers_have_the_settings(
    m: ModeratorView,
    msg: MessageView,
    outcome: OutcomeView,
    id: u32,
)
    ensures
        with_settings(m.on_message(msg, id).1.timers, m),
        with_settings(m.resume(outcome, id).1.timers, m),
        with_settings(m.join(None, id).1.timers, m),
{
}

/// A discovery request is sent as it is, whatever the moderator holds. Once it is sent the
/// run ends well, and the request is pending under its id until one acknowledgement comes,
/// with one timer that sends it again. Nothing else changes.
pub proof fn discovery_request_is_forwarded(
    m: ModeratorView,
    msg: MessageView,
    id: u32,
    other_id: u32,
)
    requires
        msg.session_header() is Some,
        msg.kind() == SessionMessageType::ChannelDiscoveryRequest,
    ensures
        m.accepts(msg),
        ({
            let (q, step) = m.on_message(msg, id);
            let (r, last) = q.resume(OutcomeView::Sent(Ok(())), other_id);
            &&& step.next == NextView::Send(msg)
            &&& step.timers.len() == 0
            &&& q.can_resume(OutcomeView::Sent(Ok(())))
            &&& q == (ModeratorView { waiting: q.waiting, ..m })
            &&& last.next == NextView::Finish(Ok(()))
            &&& last.timers == seq![
                TimerOpView::Start {
                    key: msg.session_header()->0.message_id,
                    interval: m.retries_interval,
                    max_retries: m.max_retries,
                    message: msg,
                },
            ]
            &&& r == (ModeratorView {
                pending_requests: m.pending_requests.insert(
                    msg.session_header()->0.message_id,
                    ChannelTimerView { expected_acks: 1, to_forward: None },
                ),
                waiting: None,
                ..m
            })
        }),
{
    let (q, step) = m.on_message(msg, id);
    let (r, last) = q.resume(OutcomeView::Sent(Ok(())), other_id);
    assert(last.timers =~= seq![
        TimerOpView::Start {
            key: msg.session_header()->0.message_id,
            interval: m.retries_interval,
            max_retries: m.max_retries,
            message: msg,
        },
    ]);
}

/// A leave request with a group of any size: where its destination is a participant, the
/// engine is asked to remove the identity that is stored for it, and the moderator waits
/// for that. Where it is not, the request is refused. Nothing else changes.
pub proof fn leave_request_asks_for_the_removal(
    m: ModeratorView,
    msg: MessageView,
    mls: MlsView,
    id: u32,
)
    requires
        msg.session_header() is Some,
        msg.has_destination(),
        msg.kind() == SessionMessageType::ChannelLeaveRequest,
        m.endpoint.mls_state == Some(mls),
    ensures
        m.accepts(msg),
        ({
            let (q, step) = m.on_message(msg, id);
            let key = msg.destination_agent().key();
            &&& step.timers.len() == 0
            &&& mls.participants.contains_key(key) ==> {
                &&& step.next == NextView::Mls(
                    MlsRequestView::RemoveMember(mls.participants[key]),
                )
                &&& q == (ModeratorView {
                    waiting: Some(ModeratorTaskView::RemoveMember { msg }),
                    ..m
                })
            }
            &&& !mls.participants.contains_key(key) ==> {
                &&& step.next == NextView::Finish(
                    Err(SessionErrorView::RemoveParticipant("participant does not exists"@)),
                )
                &&& q == (ModeratorView { waiting: None, ..m })
            }
        }),
        m.on_message(msg, id) == m.on_leave_request(msg),
{
}

/// Without a group a leave request is sent as it is, in any state, and is then kept like
/// any forwarded request.
pub proof fn leave_request_is_forwarded(
    m: ModeratorView,
    msg: MessageView,
    id: u32,
    other_id: u32,
)
    requires
        msg.session_header() is Some,
        msg.kind() == SessionMessageType::ChannelLeaveRequest,
        m.endpoint.mls_state is None,
    ensures
        m.accepts(msg),
        m.on_message(msg, id) == m.on_leave_request(msg),
        ({
            let (q, step) = m.on_message(msg, id);
            let (r, last) = q.resume(OutcomeView::Sent(Ok(())), other_id);
            &&& step.next == NextView::Send(msg)
            &&& step.timers.len() == 0
            &&& q.can_resume(OutcomeView::Sent(Ok(())))
            &&& q == (ModeratorView { waiting: q.waiting, ..m })
            &&& last.next == NextView::Finish(Ok(()))
            &&& last.timers == seq![
                TimerOpView::Start {
                    key: msg.session_header()->0.message_id,
                    interval: m.retries_interval,
                    max_retries: m.max_retries,
                    message: msg,
                },
            ]
            &&& r == (ModeratorView {
                pending_requests: m.pending_requests.insert(
                    msg.session_header()->0.message_id,
                    ChannelTimerView { expected_acks: 1, to_forward: None },
                ),
                waiting: None,
                ..m
            })
        }),
{
    let (q, step) = m.on_message(msg, id);
    let (r, last) = q.resume(OutcomeView::Sent(Ok(())), other_id);
    assert(last.timers =~= seq![
        TimerOpView::Start {
            key: msg.session_header()->0.message_id,
            interval: m.retries_interval,
            max_retries: m.max_retries,
            message: msg,
        },
    ]);
}

/// A removal by the engine: the participant is taken out of the list, the next number is
/// given to the change, and the change is broadcast under it. It is then kept until one
/// more than are left have acknowledged it, with the leave request to be forwarded. A
/// failure refuses the request, and nothing changes.
pub proof fn removal_is_broadcast(
    m: ModeratorView,
    msg: MessageView,
    mls: MlsView,
    change: Seq<u8>,
    e: Seq<char>,
    id: u32,
)
    requires
        m.waiting == Some(ModeratorTaskView::RemoveMember { msg }),
        m.endpoint.mls_state == Some(mls),
    ensures
        m.mls_msg_id < u32::MAX ==> {
            let (q, step) = m.resume(OutcomeView::MemberRemoved(Ok(change)), id);
            let left = mls.participants.remove(msg.destination_agent().key());
            let commit = m.endpoint.broadcast(
                SessionMessageType::ChannelMlsCommit,
                (m.mls_msg_id + 1) as u32,
                change,
            );
            &&& step.next == NextView::Send(commit)
            &&& step.timers.len() == 0
            &&& q == (ModeratorView {
                endpoint: EndpointView {
                    mls_state: Some(
                        MlsView {
                            group: mls.group,
                            last_commit_id: mls.last_commit_id,
                            participants: left,
                        },
                    ),
                    ..m.endpoint
                },
                mls_msg_id: (m.mls_msg_id + 1) as u32,
                waiting: Some(
                    ModeratorTaskView::SendCommit {
                        commit,
                        commit_id: (m.mls_msg_id + 1) as u32,
                        acks: (left.len() + 1) as u32,
                        to_forward: Some(msg),
                    },
                ),
                ..m
            })
        },
        ({
            let (q, step) = m.resume(OutcomeView::MemberRemoved(Err(e)), id);
            &&& q == (ModeratorView { waiting: None, ..m })
            &&& step.next == NextView::Finish(Err(SessionErrorView::RemoveParticipant(e)))
            &&& step.timers.len() == 0
        }),
{
}

/// An addition by the engine: the participant is put on the list with its identity, the
/// next number is given to the change, and the welcome is sent to the new participant
/// under the fresh id, with the number in its metadata. The change is held for the others.
/// A failure refuses the request, and nothing changes.
pub proof fn addition_is_welcomed(
    m: ModeratorView,
    msg: MessageView,
    mls: MlsView,
    added: AddedMemberView,
    e: Seq<char>,
    id: u32,
)
    requires
        m.waiting == Some(ModeratorTaskView::AddMember { msg }),
        m.endpoint.mls_state == Some(mls),
    ensures
        m.mls_msg_id < u32::MAX ==> {
            let (q, step) = m.resume(OutcomeView::MemberAdded(Ok(added)), id);
            let grown = mls.participants.insert(msg.source().key(), added.member_identity);
            let number = (m.mls_msg_id + 1) as u32;
            let commit = m.endpoint.broadcast(
                SessionMessageType::ChannelMlsCommit,
                number,
                added.commit_message,
            );
            let plain = m.endpoint.message_to(
                msg.source(),
                SessionMessageType::ChannelMlsWelcome,
                id,
                added.welcome_message,
            );
            let welcome = MessageView {
                metadata: plain.metadata.insert(
                    METADATA_MLS_INIT_COMMIT_ID@,
                    crate::text::decimal(number as nat),
                ),
                body: plain.body,
            };
            &&& step.next == NextView::Send(welcome)
            &&& step.timers.len() == 0
            &&& q == (ModeratorView {
                endpoint: EndpointView {
                    mls_state: Some(
                        MlsView {
                            group: mls.group,
                            last_commit_id: mls.last_commit_id,
                            participants: grown,
                        },
                    ),
                    ..m.endpoint
                },
                mls_msg_id: number,
                waiting: Some(
                    ModeratorTaskView::SendWelcome {
                        welcome,
                        welcome_id: id,
                        commit,
                        commit_id: number,
                        others: (grown.len() - 1) as u32,
                    },
                ),
                ..m
            })
        },
        ({
            let (q, step) = m.resume(OutcomeView::MemberAdded(Err(e)), id);
            &&& q == (ModeratorView { waiting: None, ..m })
            &&& step.next == NextView::Finish(Err(SessionErrorView::AddParticipant(e)))
            &&& step.timers.len() == 0
        }),
{
}

/// Once a welcome is sent it is pending, with its timer, until it is acknowledged. Then
/// the change is sent where there are others; where there are none the run ends well.
pub proof fn sent_welcome_is_pending(
    m: ModeratorView,
    welcome: MessageView,
    welcome_id: u32,
    commit: MessageView,
    commit_id: u32,
    others: u32,
    id: u32,
)
    requires
        m.waiting == Some(
            ModeratorTaskView::SendWelcome { welcome, welcome_id, commit, commit_id, others },
        ),
    ensures
        ({
            let (q, step) = m.resume(OutcomeView::Sent(Ok(())), id);
            &&& step.timers == seq![
                TimerOpView::Start {
                    key: welcome_id,
                    interval: m.retries_interval,
                    max_retries: m.max_retries,
                    message: welcome,
                },
            ]
            &&& step.next == if others > 0 {
                NextView::Send(commit)
            } else {
                NextView::Finish(Ok(()))
            }
            &&& q == (ModeratorView {
                pending_requests: m.pending_requests.insert(
                    welcome_id,
                    ChannelTimerView { expected_acks: 1, to_forward: None },
                ),
                waiting: if others > 0 {
                    Some(
                        ModeratorTaskView::SendCommit {
                            commit,
                            commit_id,
                            acks: others,
                            to_forward: None,
                        },
                    )
                } else {
                    None
                },
                ..m
            })
        }),
{
    let (q, step) = m.resume(OutcomeView::Sent(Ok(())), id);
    assert(step.timers =~= seq![
        TimerOpView::Start {
            key: welcome_id,
            interval: m.retries_interval,
            max_retries: m.max_retries,
            message: welcome,
        },
    ]);
}

/// Once a change is sent it is pending, with its timer, until the given number have
/// acknowledged it, and the given message waits for that. The run ends well.
pub proof fn sent_change_is_pending(
    m: ModeratorView,
    commit: MessageView,
    commit_id: u32,
    acks: u32,
    to_forward: Option<MessageView>,
    id: u32,
)
    requires
        m.waiting == Some(ModeratorTaskView::SendCommit { commit, commit_id, acks, to_forward }),
    ensures
        ({
            let (q, step) = m.resume(OutcomeView::Sent(Ok(())), id);
            &&& step.timers == seq![
                TimerOpView::Start {
                    key: commit_id,
                    interval: m.retries_interval,
                    max_retries: m.max_retries,
                    message: commit,
                },
            ]
            &&& step.next == NextView::Finish(Ok(()))
            &&& q == (ModeratorView {
                pending_requests: m.pending_requests.insert(
                    commit_id,
                    ChannelTimerView { expected_acks: acks, to_forward },
                ),
                waiting: None,
                ..m
            })
        }),
{
    let (q, step) = m.resume(OutcomeView::Sent(Ok(())), id);
    assert(step.timers =~= seq![
        TimerOpView::Start {
            key: commit_id,
            interval: m.retries_interval,
            max_retries: m.max_retries,
            message: commit,
        },
    ]);
}

/// What follows an acknowledgement: nothing, and the run ends well; or the invitation,
/// which is pending with its timer before it is sent as the last message; or the addition
/// of the participant with the payload of its answer, where there is a group.
pub proof fn what_follows_an_acknowledgement(
    m: ModeratorView,
    join: MessageView,
    msg: MessageView,
    id: u32,
)
    ensures
        ({
            let (q, step) = m.follow_ack(AfterAckView::Done);
            &&& q == (ModeratorView { waiting: None, ..m })
            &&& step.next == NextView::Finish(Ok(()))
            &&& step.timers.len() == 0
        }),
        ({
            let (q, step) = m.follow_ack(AfterAckView::Invite { join, id });
            &&& q == (ModeratorView {
                pending_requests: m.pending_requests.insert(
                    id,
                    ChannelTimerView { expected_acks: 1, to_forward: None },
                ),
                waiting: Some(ModeratorTaskView::Close),
                ..m
            })
            &&& step.next == NextView::Send(join)
            &&& step.timers == seq![
                TimerOpView::Start {
                    key: id,
                    interval: m.retries_interval,
                    max_retries: m.max_retries,
                    message: join,
                },
            ]
        }),
        ({
            let (q, step) = m.follow_ack(AfterAckView::Add { msg });
            &&& step.timers.len() == 0
            &&& m.endpoint.mls_state is None ==> q == (ModeratorView { waiting: None, ..m })
                && step.next == NextView::Finish(Ok(()))
            &&& m.endpoint.mls_state is Some && msg.payload() is None ==> q == (ModeratorView {
                waiting: None,
                ..m
            }) && step.next == NextView::Finish(
                Err(
                    SessionErrorView::AddParticipant(
                        "key package is missing. the end point cannot be added to the channel"@,
                    ),
                ),
            )
            &&& m.endpoint.mls_state is Some ==> (msg.payload() matches Some(c) ==> q == (
            ModeratorView { waiting: Some(ModeratorTaskView::AddMember { msg }), ..m }) && step.next
                == NextView::Mls(MlsRequestView::AddMember(c.blob)))
        }),
{
    let (q, step) = m.follow_ack(AfterAckView::Invite { join, id });
    assert(step.timers =~= seq![
        TimerOpView::Start {
            key: id,
            interval: m.retries_interval,
            max_retries: m.max_retries,
            message: join,
        },
    ]);
}

/// An acknowledgement of what is not pending is refused, and nothing changes. One of a
/// request that more are expected for counts down by one, and what is to follow follows.
/// The last one takes the request out and stops its timer; what waited for it is sent
/// first, before anything else follows.
pub proof fn acknowledgements_count_down(
    m: ModeratorView,
    key: u32,
    after: AfterAckView,
    timer: ChannelTimerView,
    msg: MessageView,
)
    ensures
        !m.pending_requests.contains_key(key) ==> {
            let (q, step) = m.count_ack(key, after);
            &&& q == (ModeratorView { waiting: None, ..m })
            &&& step.next == NextView::Finish(
                Err(SessionErrorView::TimerNotFound(crate::text::decimal(key as nat))),
            )
            &&& step.timers.len() == 0
        },
        m.pending_requests.contains_key(key) && m.pending_requests[key] == timer ==> {
            let (q, step) = m.count_ack(key, after);
            let counted = ModeratorView {
                pending_requests: m.pending_requests.insert(
                    key,
                    ChannelTimerView {
                        expected_acks: (timer.expected_acks - 1) as u32,
                        to_forward: timer.to_forward,
                    },
                ),
                ..m
            };
            let settled = ModeratorView {
                pending_requests: m.pending_requests.remove(key),
                ..m
            };
            &&& timer.expected_acks > 1 ==> (q, step) == counted.follow_ack(after)
            &&& timer.expected_acks <= 1 && timer.to_forward is None ==> {
                &&& q == settled.follow_ack(after).0
                &&& step.next == settled.follow_ack(after).1.next
                &&& step.timers == seq![TimerOpView::Stop { key }] + settled.follow_ack(
                    after,
                ).1.timers
            }
            &&& timer.expected_acks <= 1 && timer.to_forward == Some(msg) ==> {
                &&& q == (ModeratorView {
                    waiting: Some(ModeratorTaskView::Forward { msg, after }),
                    ..settled
                })
                &&& step.next == NextView::Send(msg)
                &&& step.timers == seq![TimerOpView::Stop { key }]
            }
        },
{
    if m.pending_requests.contains_key(key) && m.pending_requests[key] == timer
        && timer.expected_acks <= 1 && timer.to_forward == Some(msg) {
        assert(m.count_ack(key, after).1.timers =~= seq![TimerOpView::Stop { key }]);
    }
}

/// Which acknowledgement a message is: that of the request with its id. A join reply is
/// followed by the addition of its source, the others by nothing.
pub proof fn answers_are_acknowledgements(m: ModeratorView, msg: MessageView, id: u32)
    ensures
        msg.kind() == SessionMessageType::ChannelJoinReply ==> m.on_message(msg, id)
            == m.count_ack(msg.session_header()->0.message_id, AfterAckView::Add { msg }),
        msg.kind() == SessionMessageType::ChannelMlsAck || msg.kind()
            == SessionMessageType::ChannelLeaveReply ==> m.on_message(msg, id) == m.count_ack(
            msg.session_header()->0.message_id,
            AfterAckView::Done,
        ),
{
}

/// A message that was forwarded is pending under its id until one acknowledgement comes,
/// with its timer, before what is to follow follows.
pub proof fn forwarded_messages_are_pending(
    m: ModeratorView,
    msg: MessageView,
    after: AfterAckView,
    id: u32,
)
    requires
        m.waiting == Some(ModeratorTaskView::Forward { msg, after }),
    ensures
        ({
            let (q, step) = m.resume(OutcomeView::Sent(Ok(())), id);
            let kept = ModeratorView {
                pending_requests: m.pending_requests.insert(
                    msg.session_header()->0.message_id,
                    ChannelTimerView { expected_acks: 1, to_forward: None },
                ),
                ..m
            };
            &&& q == kept.follow_ack(after).0
            &&& step.next == kept.follow_ack(after).1.next
            &&& step.timers == seq![
                TimerOpView::Start {
                    key: msg.session_header()->0.message_id,
                    interval: m.retries_interval,
                    max_retries: m.max_retries,
                    message: msg,
                },
            ] + kept.follow_ack(after).1.timers
        }),
{
}

/// A join request goes to the source of the discovery reply, under the fresh id, with the
/// payload of the moderator's invitations. It asks for a key package by its metadata
/// exactly where there is a group.
pub proof fn join_request_part_by_part(m: ModeratorView, reply: MessageView, id: u32)
    ensures
        ({
            let plain = m.endpoint.message_to(
                reply.source(),
                SessionMessageType::ChannelJoinRequest,
                id,
                m.invite_payload,
            );
            m.join_request(reply, id) == (MessageView {
                metadata: if m.endpoint.mls_state is Some {
                    plain.metadata.insert(METADATA_MLS_ENABLED@, "true"@)
                } else {
                    plain.metadata
                },
                body: plain.body,
            })
        }),
{
}

/// A discovery reply gives the moderator the connection that it came in on. Where the
/// channel is not joined yet, it is marked as joined and the subscription is sent first.
/// Where it is, the reply acknowledges the discovery, and the join request follows.
pub proof fn discovery_reply_is_followed_up(m: ModeratorView, msg: MessageView, id: u32, conn: u64)
    requires
        msg.slim_header() is Some,
        msg.slim_header()->0.incoming_conn == Some(conn),
    ensures
        msg.kind() == SessionMessageType::ChannelDiscoveryReply ==> m.on_message(msg, id)
            == m.connected(msg).join(Some(msg), id),
        m.connected(msg) == (ModeratorView {
            endpoint: EndpointView { conn: Some(conn), ..m.endpoint },
            ..m
        }),
        ({
            let connected = ModeratorView {
                endpoint: EndpointView { conn: Some(conn), ..m.endpoint },
                ..m
            };
            let (q, step) = m.connected(msg).join(Some(msg), id);
            &&& m.endpoint.subscribed ==> (q, step) == connected.count_ack(
                msg.session_header()->0.message_id,
                AfterAckView::Invite { join: connected.join_request(msg, id), id },
            )
            &&& !m.endpoint.subscribed ==> {
                &&& q == (ModeratorView {
                    endpoint: EndpointView { conn: Some(conn), subscribed: true, ..m.endpoint },
                    waiting: Some(ModeratorTaskView::Subscribe { reply: Some(msg) }),
                    ..m
                })
                &&& step.next == NextView::Send(connected.endpoint.subscription())
                &&& step.timers.len() == 0
            }
        }),
{
}

/// Joining by itself: a moderator that has joined does nothing. Else it is marked as
/// joined and sends the subscription.
pub proof fn moderator_joins(m: ModeratorView, id: u32)
    ensures
        ({
            let (q, step) = m.join(None, id);
            &&& step.timers.len() == 0
            &&& m.endpoint.subscribed ==> q == (ModeratorView { waiting: None, ..m }) && step.next
                == NextView::Finish(Ok(()))
            &&& !m.endpoint.subscribed ==> q == (ModeratorView {
                endpoint: EndpointView { subscribed: true, ..m.endpoint },
                waiting: Some(ModeratorTaskView::Subscribe { reply: None }),
                ..m
            }) && step.next == NextView::Send(m.endpoint.subscription())
        }),
        m.can_join(None) <==> m.endpoint.subscribed || (m.endpoint.conn is Some
            && m.endpoint.channel_name.strings is Some),
{
}

/// Joining goes on: the subscription is followed by the route to the channel, that by the
/// creation of the group where there is to be one, and that by the join request for the
/// source of the discovery reply, if one is to be followed up. Where the group cannot be
/// created, the run ends with that error.
pub proof fn joining_goes_on(
    m: ModeratorView,
    reply: Option<MessageView>,
    r: MessageView,
    e: Seq<char>,
    id: u32,
)
    ensures
        m.waiting == Some(ModeratorTaskView::Subscribe { reply }) ==> {
            let (q, step) = m.resume(OutcomeView::Sent(Ok(())), id);
            &&& q == (ModeratorView { waiting: Some(ModeratorTaskView::Route { reply }), ..m })
            &&& step.next == NextView::Send(m.endpoint.route(m.endpoint.channel_name, None))
            &&& step.timers.len() == 0
        },
        m.waiting == Some(ModeratorTaskView::Route { reply }) && m.endpoint.mls_state is Some ==> {
            let (q, step) = m.resume(OutcomeView::Sent(Ok(())), id);
            &&& q == (ModeratorView {
                waiting: Some(ModeratorTaskView::CreateGroup { reply }),
                ..m
            })
            &&& step.next == NextView::Mls(MlsRequestView::CreateGroup)
            &&& step.timers.len() == 0
        },
        m.waiting == Some(ModeratorTaskView::Route { reply }) && m.endpoint.mls_state is None
            ==> m.resume(OutcomeView::Sent(Ok(())), id) == m.follow_join(reply, id),
        m.waiting == Some(ModeratorTaskView::CreateGroup { reply }) ==> m.resume(
            OutcomeView::GroupCreated(Ok(())),
            id,
        ) == m.follow_join(reply, id),
        m.waiting == Some(ModeratorTaskView::CreateGroup { reply }) ==> {
            let (q, step) = m.resume(OutcomeView::GroupCreated(Err(e)), id);
            &&& q == (ModeratorView { waiting: None, ..m })
            &&& step.next == NextView::Finish(Err(SessionErrorView::MLSInit(e)))
            &&& step.timers.len() == 0
        },
        ({
            let (q, step) = m.follow_join(None, id);
            &&& q == (ModeratorView { waiting: None, ..m })
            &&& step.next == NextView::Finish(Ok(()))
            &&& step.timers.len() == 0
        }),
        m.follow_join(Some(r), id) == m.count_ack(
            r.session_header()->0.message_id,
            AfterAckView::Invite { join: m.join_request(r, id), id },
        ),
{
}

/// The last message of a run ends it well. A message that could not be sent ends it with
/// its error, and nothing changes. A message of a kind that is not for a moderator is
/// refused with a text that names the kind.
pub proof fn ends_of_runs(m: ModeratorView, msg: MessageView, e: SessionErrorView, id: u32)
    ensures
        m.waiting == Some(ModeratorTaskView::Close) ==> {
            let (q, step) = m.resume(OutcomeView::Sent(Ok(())), id);
            &&& q == (ModeratorView { waiting: None, ..m })
            &&& step.next == NextView::Finish(Ok(()))
            &&& step.timers.len() == 0
        },
        m.waiting is Some ==> {
            let (q, step) = m.resume(OutcomeView::Sent(Err(e)), id);
            &&& q == (ModeratorView { waiting: None, ..m })
            &&& step.next == NextView::Finish(Err(e))
            &&& step.timers.len() == 0
        },
        msg.kind() != SessionMessageType::ChannelDiscoveryRequest && msg.kind()
            != SessionMessageType::ChannelDiscoveryReply && msg.kind()
            != SessionMessageType::ChannelJoinReply && msg.kind()
            != SessionMessageType::ChannelMlsAck && msg.kind()
            != SessionMessageType::ChannelLeaveRequest && msg.kind()
            != SessionMessageType::ChannelLeaveReply ==> {
            let (q, step) = m.on_message(msg, id);
            &&& q == (ModeratorView { waiting: None, ..m })
            &&& step.next == NextView::Finish(
                Err(
                    SessionErrorView::Processing(
                        "received unexpected packet type: "@ + msg.kind().spec_name(),
                    ),
                ),
            )
            &&& step.timers.len() == 0
        },
{
}

/// An acknowledgement can be counted in any state: only what waits for the last one has to
/// have a session header, and what is to be added a payload's place, where there is a
/// group.
pub proof fn countable_acknowledgements(
    m: ModeratorView,
    key: u32,
    msg: MessageView,
    join: MessageView,
    id: u32,
)
    ensures
        m.can_follow_ack(AfterAckView::Done),
        m.can_follow_ack(AfterAckView::Invite { join, id }),
        m.can_follow_ack(AfterAckView::Add { msg }) <==> m.endpoint.mls_state is None
            || msg.is_publish(),
        m.can_count_ack(key, AfterAckView::Done) <==> !(m.pending_requests.contains_key(key)
            && m.pending_requests[key].expected_acks <= 1
            && m.pending_requests[key].to_forward is Some
            && m.pending_requests[key].to_forward->0.session_header() is None),
        m.can_count_ack(key, AfterAckView::Add { msg }) <==> !m.pending_requests.contains_key(key)
            || if m.pending_requests[key].expected_acks <= 1
            && m.pending_requests[key].to_forward is Some {
            m.pending_requests[key].to_forward->0.session_header() is Some
        } else {
            m.endpoint.mls_state is None || msg.is_publish()
        },
{
}

/// Which messages are accepted: those with a session header. A discovery reply has to say
/// on which connection it came in, and needs what joining or answering needs; a join reply
/// has to name its source; a leave request its destination, where there is a group.
pub proof fn acceptable_messages(m: ModeratorView, msg: MessageView)
    ensures
        msg.session_header() is None ==> !m.accepts(msg),
        msg.session_header() is Some ==> {
            let key = msg.session_header()->0.message_id;
            let sourced = msg.slim_header() is Some && msg.slim_header()->0.source is Some;
            &&& msg.kind() == SessionMessageType::ChannelDiscoveryReply ==> (m.accepts(msg)
                <==> msg.slim_header() is Some && msg.slim_header()->0.incoming_conn is Some
                && if m.endpoint.subscribed {
                sourced && m.can_count_ack(key, AfterAckView::Done)
            } else {
                m.endpoint.channel_name.strings is Some
            })
            &&& msg.kind() == SessionMessageType::ChannelJoinReply ==> (m.accepts(msg) <==> sourced
                && m.can_count_ack(key, AfterAckView::Add { msg }))
            &&& msg.kind() == SessionMessageType::ChannelMlsAck || msg.kind()
                == SessionMessageType::ChannelLeaveReply ==> (m.accepts(msg) <==> m.can_count_ack(
                key,
                AfterAckView::Done,
            ))
            &&& msg.kind() == SessionMessageType::ChannelLeaveRequest ==> (m.accepts(msg)
                <==> m.endpoint.mls_state is None || (msg.slim_header() is Some
                && msg.slim_header()->0.destination is Some))
            &&& msg.kind() != SessionMessageType::ChannelDiscoveryReply && msg.kind()
                != SessionMessageType::ChannelJoinReply && msg.kind()
                != SessionMessageType::ChannelMlsAck && msg.kind()
                != SessionMessageType::ChannelLeaveReply && msg.kind()
                != SessionMessageType::ChannelLeaveRequest ==> m.accepts(msg)
        },
{
}

/// When an outcome is taken: where it is of the kind that is waited for, and what follows
/// it has all it needs. Changes of the group and participants are counted in 32 bits, and
/// that is the only bound.
pub proof fn outcomes_are_taken(
    m: ModeratorView,
    e: SessionErrorView,
    unit: Result<(), Seq<char>>,
    added: AddedMemberView,
    text: Seq<char>,
    change: Seq<u8>,
    outcome: OutcomeView,
)
    ensures
        m.waiting is None ==> !m.can_resume(outcome),
        m.waiting matches Some(task) ==> {
            &&& m.can_resume(OutcomeView::Sent(Err(e))) <==> !(task is CreateGroup) && !(
            task is AddMember) && !(task is RemoveMember)
            &&& task is SendWelcome || task is SendCommit || task is Close ==> m.can_resume(
                OutcomeView::Sent(Ok(())),
            )
            &&& task is CreateGroup || task is AddMember || task is RemoveMember ==> !m.can_resume(
                OutcomeView::Sent(Ok(())),
            )
            &&& task matches ModeratorTaskView::Forward { msg, after } ==> (m.can_resume(
                OutcomeView::Sent(Ok(())),
            ) <==> msg.session_header() is Some && m.can_follow_ack(after))
            &&& task is Subscribe ==> (m.can_resume(OutcomeView::Sent(Ok(())))
                <==> m.endpoint.conn is Some && m.endpoint.channel_name.strings is Some)
            &&& task matches ModeratorTaskView::Route { reply } ==> (m.can_resume(
                OutcomeView::Sent(Ok(())),
            ) <==> m.endpoint.mls_state is Some || m.can_follow_join(reply))
            &&& task matches ModeratorTaskView::CreateGroup { reply } ==> (m.can_resume(
                OutcomeView::GroupCreated(unit),
            ) <==> unit is Err || m.can_follow_join(reply))
            &&& task is AddMember ==> m.can_resume(OutcomeView::MemberAdded(Err(text)))
            &&& task is RemoveMember ==> m.can_resume(OutcomeView::MemberRemoved(Err(text)))
            &&& task matches ModeratorTaskView::AddMember { msg } ==> (m.can_resume(
                OutcomeView::MemberAdded(Ok(added)),
            ) <==> m.endpoint.mls_state is Some && msg.has_source() && m.mls_msg_id < u32::MAX
                && m.endpoint.mls_state->0.participants.insert(
                msg.source().key(),
                added.member_identity,
            ).len() - 1 <= u32::MAX)
            &&& task matches ModeratorTaskView::RemoveMember { msg } ==> (m.can_resume(
                OutcomeView::MemberRemoved(Ok(change)),
            ) <==> m.endpoint.mls_state is Some && msg.has_destination() && m.mls_msg_id
                < u32::MAX && m.endpoint.mls_state->0.participants.remove(
                msg.destination_agent().key(),
            ).len() + 1 <= u32::MAX)
        },
        m.can_resume(OutcomeView::MemberAdded(Err(text))) ==> m.waiting->0 is AddMember,
        m.can_resume(OutcomeView::MemberRemoved(Err(text))) ==> m.waiting->0 is RemoveMember,
        !m.can_resume(OutcomeView::KeyPackage(Ok(change))),
        !m.can_resume(OutcomeView::KeyPackage(Err(text))),
        !m.can_resume(OutcomeView::WelcomeProcessed(Ok(change))),
        !m.can_resume(OutcomeView::WelcomeProcessed(Err(text))),
        !m.can_resume(OutcomeView::CommitProcessed(unit)),
        m.can_resume(OutcomeView::GroupCreated(unit)) ==> m.waiting->0 is CreateGroup,
        m.can_resume(OutcomeView::MemberAdded(Ok(added))) ==> m.waiting->0 is AddMember,
        m.can_resume(OutcomeView::MemberRemoved(Ok(change))) ==> m.waiting->0 is RemoveMember,
{
}

/// A discovery reply can be followed up where it names its source and has an id, and the
/// discovery that it answers can be settled. Nothing is needed where there is none.
pub proof fn discovery_replies_to_follow_up(m: ModeratorView, r: MessageView)
    ensures
        m.can_follow_join(None),
        m.can_follow_join(Some(r)) <==> r.slim_header() is Some
            && r.slim_header()->0.source is Some && r.session_header() is Some && m.can_count_ack(
            r.session_header()->0.message_id,
            AfterAckView::Done,
        ),
{
}

/// A message that is accepted leads to its step under some fresh id, and one that is not
/// to none. So does an outcome. Without a step nothing changes.
pub proof fn every_message_and_outcome_has_its_step(
    m: ModeratorView,
    msg: MessageView,
    outcome: OutcomeView,
    step: Option<StepView>,
    after: ModeratorView,
)
    ensures
        m.handles(msg, step, after) ==> {
            &&& step is Some <==> m.accepts(msg)
            &&& step is None ==> after == m
            &&& step matches Some(s) ==> exists|id: u32| #[trigger]
                m.on_message(msg, id) == (after, s)
        },
        m.continues(outcome, step, after) ==> {
            &&& step is Some <==> m.can_resume(outcome)
            &&& step is None ==> after == m
            &&& step matches Some(s) ==> exists|id: u32| #[trigger]
                m.resume(outcome, id) == (after, s)
        },
{
    if m.handles(msg, step, after) && step is Some {
        let id = choose|id: u32| (after, step->0) == #[trigger] m.on_message(msg, id);
        assert(m.on_message(msg, id) == (after, step->0));
    }
    if m.continues(outcome, step, after) && step is Some {
        let id = choose|id: u32| (after, step->0) == #[trigger] m.resume(outcome, id);
        assert(m.resume(outcome, id) == (after, step->0));
    }
}

} // verus!
