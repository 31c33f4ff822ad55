//! What a participant does in each step, field by field.

use vstd::prelude::*;

use crate::encoder::{Agent, AgentView};
use crate::endpoint::EndpointView;
use crate::kinds::SessionMessageType;
use crate::message::{MessageView, ProtoMessage};
use crate::mls::MlsView;
use crate::participant::{ChannelParticipant, ParticipantTask};
use crate::participant_model::{ParticipantTaskView, ParticipantView};
use crate::payload::{JoinMessagePayload, JoinPayloadView};
use crate::session::{
    AddedMemberView, MlsRequestView, NextView, OutcomeView, SessionError, SessionErrorView, StepView,
    METADATA_MLS_ENABLED,
};

verus! {

/// The model of a participant shows all that it holds.
pub proof fn models_of_participants(
    p: ChannelParticipant,
    n: JoinMessagePayload,
    e: SessionError,
)
    ensures
        p@.endpoint == p.endpoint@,
        p@.moderator_name is None <==> p.moderator_name is None,
        p.moderator_name matches Some(m) ==> p@.moderator_name == Some(m@),
        p@.waiting is None <==> p.waiting is None,
        p.waiting matches Some(t) ==> p@.waiting == Some(t@),
        crate::participant::names_view(Ok(n)) == Ok::<JoinPayloadView, SessionErrorView>(n@),
        crate::participant::names_view(Err(e)) == Err::<JoinPayloadView, SessionErrorView>(e@),
{
}

/// The model of what is waited for shows its kind and all that it holds.
pub proof fn models_of_participant_tasks(
    msg: ProtoMessage,
    moderator: Agent,
    answer: SessionMessageType,
)
    ensures
        (ParticipantTask::MeetModerator { msg, moderator })@
            == (ParticipantTaskView::MeetModerator { msg: msg@, moderator: moderator@ }),
        (ParticipantTask::MakeKeyPackage { msg })@
            == (ParticipantTaskView::MakeKeyPackage { msg: msg@ }),
        (ParticipantTask::EnterGroup { msg })@ == (ParticipantTaskView::EnterGroup { msg: msg@ }),
        (ParticipantTask::FollowCommit { msg })@
            == (ParticipantTaskView::FollowCommit { msg: msg@ }),
        (ParticipantTask::Subscribe { msg, answer })@
            == (ParticipantTaskView::Subscribe { msg: msg@, answer }),
        (ParticipantTask::Route { msg, answer })@
            == (ParticipantTaskView::Route { msg: msg@, answer }),
        (ParticipantTask::Unsubscribe { msg })@ == (ParticipantTaskView::Unsubscribe { msg: msg@ }),
        (ParticipantTask::Unroute { msg })@ == (ParticipantTaskView::Unroute { msg: msg@ }),
        ParticipantTask::LeaveReply@ == ParticipantTaskView::LeaveReply,
        ParticipantTask::Close@ == ParticipantTaskView::Close,
{
}

/// A message is a join request by the kind in its session header. What is read from it is
/// the payload that its bytes start with; without a payload, or where the bytes start
/// with none, there is an error.
pub proof fn join_requests_are_read(
    msg: MessageView,
    names: Result<JoinPayloadView, SessionErrorView>,
    n: JoinPayloadView,
)
    ensures
        crate::participant_model::is_join_request(msg) <==> msg.session_header() is Some
            && msg.kind() == SessionMessageType::ChannelJoinRequest,
        msg.payload() is None ==> (crate::participant_model::reads_names(msg, names) <==> names
            == Err::<JoinPayloadView, SessionErrorView>(
            SessionErrorView::Processing("missing payload in a Join Channel request"@),
        )),
        msg.payload() matches Some(c) ==> {
            &&& JoinPayloadView::read(c.blob) == Some(n) ==> (
            crate::participant_model::reads_names(msg, names) <==> names == Ok::<
                JoinPayloadView,
                SessionErrorView,
            >(n))
            &&& JoinPayloadView::read(c.blob) is None && crate::participant_model::reads_names(
                msg,
                names,
            ) ==> names matches Err(SessionErrorView::JoinChannelPayload(_))
        },
{
}

/// A join request is accepted where its names could not be read, since it is then
/// refused. Else it has to say on which connection it came in, and the moderator's name
/// must have texts. What else the participant holds does not matter.
pub proof fn acceptable_join_requests(
    p: ParticipantView,
    msg: MessageView,
    n: JoinPayloadView,
    e: SessionErrorView,
)
    ensures
        p.accepts_join(msg, Err(e)),
        p.accepts_join(msg, Ok(n)) <==> msg.slim_header() is Some
            && msg.slim_header()->0.incoming_conn is Some && msg.session_header() is Some
            && n.moderator_name.agent_type.strings is Some,
{
}

/// A join request with names, with keys or without: the participant takes over the
/// channel that it names, the connection that it came in on and the session that it is
/// of, and nothing else. It sends the route to the moderator by that connection, and then
/// waits to meet the moderator. One without names is refused, and nothing changes.
pub proof fn join_request_is_taken_over(
    p: ParticipantView,
    msg: MessageView,
    n: JoinPayloadView,
    e: SessionErrorView,
    conn: u64,
    session_id: u32,
)
    ensures
        ({
            let (q, step) = p.on_join_request(msg, Err(e));
            &&& q == (ParticipantView {
                moderator_name: p.moderator_name,
                endpoint: p.endpoint,
                waiting: None,
            })
            &&& step.next == NextView::Finish(Err(e))
            &&& step.timers.len() == 0
        }),
        msg.slim_header() is Some && msg.slim_header()->0.incoming_conn == Some(conn)
            && msg.session_header() is Some && msg.session_header()->0.session_id == session_id
            ==> {
            let (q, step) = p.on_join_request(msg, Ok(n));
            &&& q.endpoint == (EndpointView {
                name: p.endpoint.name,
                channel_name: n.channel_name,
                channel_id: p.endpoint.channel_id,
                session_id,
                session_type: p.endpoint.session_type,
                conn: Some(conn),
                subscribed: p.endpoint.subscribed,
                mls_state: p.endpoint.mls_state,
            })
            &&& q.moderator_name == p.moderator_name
            &&& q.waiting == Some(
                ParticipantTaskView::MeetModerator { msg, moderator: n.moderator_name },
            )
            &&& step.next == NextView::Send(
                q.endpoint.route(n.moderator_name.agent_type, n.moderator_name.id_option()),
            )
            &&& step.timers.len() == 0
        },
{
}

/// Once the route to the moderator is sent, the moderator is known. A request with keys
/// has the engine make a key package, or is refused where there is no group. A request
/// without keys has the channel joined, and is answered at once where it is joined
/// already.
pub proof fn moderator_is_met(p: ParticipantView, msg: MessageView, moderator: AgentView)
    requires
        p.waiting == Some(ParticipantTaskView::MeetModerator { msg, moderator }),
    ensures
        ({
            let (q, step) = p.resume(OutcomeView::Sent(Ok(())));
            let keys = msg.metadata.contains_key(METADATA_MLS_ENABLED@);
            &&& q.moderator_name == Some(moderator)
            &&& step.timers.len() == 0
            &&& keys ==> q.endpoint == p.endpoint
            &&& !keys ==> q.endpoint == (EndpointView { subscribed: true, ..p.endpoint })
            &&& keys && p.endpoint.mls_state is None ==> q.waiting is None && step.next
                == NextView::Finish(Err(SessionErrorView::NoMls))
            &&& keys && p.endpoint.mls_state is Some ==> q.waiting == Some(
                ParticipantTaskView::MakeKeyPackage { msg },
            ) && step.next == NextView::Mls(MlsRequestView::GenerateKeyPackage)
            &&& !keys && p.endpoint.subscribed ==> q.waiting == Some(ParticipantTaskView::Close)
                && step.next == NextView::Send(
                p.endpoint.answer(msg, SessionMessageType::ChannelJoinReply, Seq::empty()),
            )
            &&& !keys && !p.endpoint.subscribed ==> q.waiting == Some(
                ParticipantTaskView::Subscribe {
                    msg,
                    answer: SessionMessageType::ChannelJoinReply,
                },
            ) && step.next == NextView::Send(p.endpoint.subscription())
        }),
{
}

/// The answer to a join request with keys carries the key package that the engine made,
/// and is the last message. Without one, the request is refused.
pub proof fn key_package_is_sent(
    p: ParticipantView,
    msg: MessageView,
    package: Seq<u8>,
    e: Seq<char>,
)
    requires
        p.waiting == Some(ParticipantTaskView::MakeKeyPackage { msg }),
    ensures
        ({
            let (q, step) = p.resume(OutcomeView::KeyPackage(Ok(package)));
            &&& q == (ParticipantView {
                moderator_name: p.moderator_name,
                endpoint: p.endpoint,
                waiting: Some(ParticipantTaskView::Close),
            })
            &&& step.next == NextView::Send(
                p.endpoint.answer(msg, SessionMessageType::ChannelJoinReply, package),
            )
            &&& step.timers.len() == 0
        }),
        ({
            let (q, step) = p.resume(OutcomeView::KeyPackage(Err(e)));
            &&& q == (ParticipantView {
                moderator_name: p.moderator_name,
                endpoint: p.endpoint,
                waiting: None,
            })
            &&& step.next == NextView::Finish(Err(SessionErrorView::MLSInit(e)))
            &&& step.timers.len() == 0
        }),
{
}

/// A welcome message: it is refused without a group. Else the state in the group is what
/// the message makes of it, and nothing else changes before the engine has entered the
/// group. A message that is passed over has the channel joined where it is not yet, and is
/// acknowledged.
pub proof fn welcome_is_taken(p: ParticipantView, msg: MessageView, mls: MlsView)
    ensures
        msg.kind() == SessionMessageType::ChannelMlsWelcome ==> p.on_other_message(msg) == p.on_mls_welcome(msg),
        p.endpoint.mls_state is None ==> {
            let (q, step) = p.on_mls_welcome(msg);
            &&& q == (ParticipantView {
                moderator_name: p.moderator_name,
                endpoint: p.endpoint,
                waiting: None,
            })
            &&& step.next == NextView::Finish(Err(SessionErrorView::NoMls))
            &&& step.timers.len() == 0
        },
        p.endpoint.mls_state == Some(mls) ==> {
            let (q, step) = p.on_mls_welcome(msg);
            &&& q.moderator_name == p.moderator_name
            &&& step.timers.len() == 0
            &&& match mls.welcome(msg) {
                Err(e) => {
                    &&& q.endpoint == (EndpointView {
                        mls_state: Some(mls.after_welcome(msg)),
                        ..p.endpoint
                    })
                    &&& q.waiting is None
                    &&& step.next == NextView::Finish(Err(e))
                },
                Ok(Some(welcome)) => {
                    &&& q.endpoint == (EndpointView {
                        mls_state: Some(mls.after_welcome(msg)),
                        ..p.endpoint
                    })
                    &&& q.waiting == Some(ParticipantTaskView::EnterGroup { msg })
                    &&& step.next == NextView::Mls(MlsRequestView::ProcessWelcome(welcome))
                },
                Ok(None) => {
                    &&& q.endpoint == (EndpointView { subscribed: true, ..p.endpoint })
                    &&& p.endpoint.subscribed ==> q.waiting == Some(ParticipantTaskView::Close)
                        && step.next == NextView::Send(
                        p.endpoint.answer(msg, SessionMessageType::ChannelMlsAck, Seq::empty()),
                    )
                    &&& !p.endpoint.subscribed ==> q.waiting == Some(
                        ParticipantTaskView::Subscribe {
                            msg,
                            answer: SessionMessageType::ChannelMlsAck,
                        },
                    ) && step.next == NextView::Send(p.endpoint.subscription())
                },
            }
        },
{
}

/// Once the engine has entered a group, the participant knows its id. The channel is
/// joined where it is not yet, and the welcome message is acknowledged. Where the engine
/// could not, the message is refused and nothing changes.
pub proof fn group_is_entered(
    p: ParticipantView,
    msg: MessageView,
    mls: MlsView,
    group: Seq<u8>,
    e: Seq<char>,
)
    requires
        p.waiting == Some(ParticipantTaskView::EnterGroup { msg }),
        p.endpoint.mls_state == Some(mls),
    ensures
        ({
            let (q, step) = p.resume(OutcomeView::WelcomeProcessed(Ok(group)));
            &&& q.moderator_name == p.moderator_name
            &&& q.endpoint == (EndpointView {
                subscribed: true,
                mls_state: Some(
                    MlsView {
                        group,
                        last_commit_id: mls.last_commit_id,
                        participants: mls.participants,
                    },
                ),
                ..p.endpoint
            })
            &&& step.timers.len() == 0
            &&& p.endpoint.subscribed ==> q.waiting == Some(ParticipantTaskView::Close)
                && step.next == NextView::Send(
                p.endpoint.answer(msg, SessionMessageType::ChannelMlsAck, Seq::empty()),
            )
            &&& !p.endpoint.subscribed ==> q.waiting == Some(
                ParticipantTaskView::Subscribe { msg, answer: SessionMessageType::ChannelMlsAck },
            ) && step.next == NextView::Send(p.endpoint.subscription())
        }),
        ({
            let (q, step) = p.resume(OutcomeView::WelcomeProcessed(Err(e)));
            &&& q == (ParticipantView {
                moderator_name: p.moderator_name,
                endpoint: p.endpoint,
                waiting: None,
            })
            &&& step.next == NextView::Finish(Err(SessionErrorView::WelcomeMessage(e)))
            &&& step.timers.len() == 0
        }),
{
}

/// A commit message: it is refused without a group. Else the state in the group is what
/// the message makes of it, nothing else changes, and the engine is asked to follow the
/// change where it is the next one.
pub proof fn commit_is_taken(p: ParticipantView, msg: MessageView, mls: MlsView)
    ensures
        msg.kind() == SessionMessageType::ChannelMlsCommit ==> p.on_other_message(msg) == p.on_mls_commit(msg),
        p.endpoint.mls_state is None ==> {
            let (q, step) = p.on_mls_commit(msg);
            &&& q == (ParticipantView {
                moderator_name: p.moderator_name,
                endpoint: p.endpoint,
                waiting: None,
            })
            &&& step.next == NextView::Finish(Err(SessionErrorView::NoMls))
            &&& step.timers.len() == 0
        },
        p.endpoint.mls_state == Some(mls) ==> {
            let (q, step) = p.on_mls_commit(msg);
            &&& q.moderator_name == p.moderator_name
            &&& q.endpoint == (EndpointView {
                mls_state: Some(mls.after_commit(msg)),
                ..p.endpoint
            })
            &&& step.timers.len() == 0
            &&& match mls.commit(msg) {
                Err(e) => q.waiting is None && step.next == NextView::Finish(Err(e)),
                Ok(change) => q.waiting == Some(ParticipantTaskView::FollowCommit { msg })
                    && step.next == NextView::Mls(MlsRequestView::ProcessCommit(change)),
            }
        },
{
}

/// Once the engine has followed a change, the commit message is acknowledged, and that is
/// the last message. Where the engine could not, the message is refused.
pub proof fn change_is_acknowledged(p: ParticipantView, msg: MessageView, e: Seq<char>)
    requires
        p.waiting == Some(ParticipantTaskView::FollowCommit { msg }),
    ensures
        ({
            let (q, step) = p.resume(OutcomeView::CommitProcessed(Ok(())));
            &&& q == (ParticipantView {
                moderator_name: p.moderator_name,
                endpoint: p.endpoint,
                waiting: Some(ParticipantTaskView::Close),
            })
            &&& step.next == NextView::Send(
                p.endpoint.answer(msg, SessionMessageType::ChannelMlsAck, Seq::empty()),
            )
            &&& step.timers.len() == 0
        }),
        ({
            let (q, step) = p.resume(OutcomeView::CommitProcessed(Err(e)));
            &&& q == (ParticipantView {
                moderator_name: p.moderator_name,
                endpoint: p.endpoint,
                waiting: None,
            })
            &&& step.next == NextView::Finish(Err(SessionErrorView::CommitMessage(e)))
            &&& step.timers.len() == 0
        }),
{
}

/// Joining the channel: the subscription is followed by the route to the channel, and
/// that by the answer that was put off, without a payload, which is the last message.
/// Nothing but what is waited for changes.
pub proof fn joining_goes_on(
    p: ParticipantView,
    msg: MessageView,
    answer: SessionMessageType,
)
    ensures
        p.waiting == Some(ParticipantTaskView::Subscribe { msg, answer }) ==> {
            let (q, step) = p.resume(OutcomeView::Sent(Ok(())));
            &&& q == (ParticipantView {
                moderator_name: p.moderator_name,
                endpoint: p.endpoint,
                waiting: Some(ParticipantTaskView::Route { msg, answer }),
            })
            &&& step.next == NextView::Send(p.endpoint.route(p.endpoint.channel_name, None))
            &&& step.timers.len() == 0
        },
        p.waiting == Some(ParticipantTaskView::Route { msg, answer }) ==> {
            let (q, step) = p.resume(OutcomeView::Sent(Ok(())));
            &&& q == (ParticipantView {
                moderator_name: p.moderator_name,
                endpoint: p.endpoint,
                waiting: Some(ParticipantTaskView::Close),
            })
            &&& step.next == NextView::Send(p.endpoint.answer(msg, answer, Seq::empty()))
            &&& step.timers.len() == 0
        },
{
}

/// Leaving the channel: the unsubscription from the channel, the end of the route to the
/// channel, the answer to the request and the end of the route to the moderator are sent
/// one after the other. Nothing but what is waited for changes. Without a known moderator
/// the answer is the last message, which is no error.
pub proof fn leaving_goes_on(p: ParticipantView, msg: MessageView)
    ensures
        msg.kind() == SessionMessageType::ChannelLeaveRequest ==> p.on_other_message(msg)
            == p.on_leave_request(msg),
        ({
            let (q, step) = p.on_leave_request(msg);
            &&& q == (ParticipantView {
                moderator_name: p.moderator_name,
                endpoint: p.endpoint,
                waiting: Some(ParticipantTaskView::Unsubscribe { msg }),
            })
            &&& step.next == NextView::Send(p.endpoint.unsubscription())
            &&& step.timers.len() == 0
        }),
        p.waiting == Some(ParticipantTaskView::Unsubscribe { msg }) ==> {
            let (q, step) = p.resume(OutcomeView::Sent(Ok(())));
            &&& q == (ParticipantView {
                moderator_name: p.moderator_name,
                endpoint: p.endpoint,
                waiting: Some(ParticipantTaskView::Unroute { msg }),
            })
            &&& step.next == NextView::Send(p.endpoint.unroute(p.endpoint.channel_name, None))
            &&& step.timers.len() == 0
        },
        p.waiting == Some(ParticipantTaskView::Unroute { msg }) ==> {
            let (q, step) = p.resume(OutcomeView::Sent(Ok(())));
            &&& q == (ParticipantView {
                moderator_name: p.moderator_name,
                endpoint: p.endpoint,
                waiting: Some(ParticipantTaskView::LeaveReply),
            })
            &&& step.next == NextView::Send(
                p.endpoint.answer(msg, SessionMessageType::ChannelLeaveReply, Seq::empty()),
            )
            &&& step.timers.len() == 0
        },
        p.waiting == Some(ParticipantTaskView::LeaveReply) ==> {
            let (q, step) = p.resume(OutcomeView::Sent(Ok(())));
            &&& q.moderator_name == p.moderator_name
            &&& q.endpoint == p.endpoint
            &&& step.timers.len() == 0
            &&& p.moderator_name matches Some(m) ==> q.waiting == Some(ParticipantTaskView::Close)
                && step.next == NextView::Send(
                p.endpoint.unroute(m.agent_type, m.id_option()),
            )
            &&& p.moderator_name is None ==> q.waiting is None && step.next == NextView::Finish(
                Ok(()),
            )
        },
        p.waiting == Some(ParticipantTaskView::Close) ==> {
            let (q, step) = p.resume(OutcomeView::Sent(Ok(())));
            &&& q == (ParticipantView {
                moderator_name: p.moderator_name,
                endpoint: p.endpoint,
                waiting: None,
            })
            &&& step.next == NextView::Finish(Ok(()))
            &&& step.timers.len() == 0
        },
{
}

/// A message of any other kind is refused with a text that names the kind, and nothing
/// changes.
pub proof fn other_kinds_are_refused(p: ParticipantView, msg: MessageView)
    requires
        msg.kind() != SessionMessageType::ChannelJoinRequest,
        msg.kind() != SessionMessageType::ChannelMlsWelcome,
        msg.kind() != SessionMessageType::ChannelMlsCommit,
        msg.kind() != SessionMessageType::ChannelLeaveRequest,
    ensures
        ({
            let (q, step) = p.on_other_message(msg);
            &&& q == (ParticipantView {
                moderator_name: p.moderator_name,
                endpoint: p.endpoint,
                waiting: None,
            })
            &&& step.timers.len() == 0
            &&& step.next == NextView::Finish(
                Err(
                    SessionErrorView::Processing(
                        if msg.kind() == SessionMessageType::ChannelDiscoveryRequest {
                            "Received discovery request message, this should not happen"@
                        } else {
                            "Received message of type "@ + msg.kind().spec_name() + ", drop it"@
                        },
                    ),
                ),
            )
        }),
{
}

/// Which messages other than join requests are accepted: those with a session header. A
/// leave request needs a known connection. A welcome message that is passed over needs
/// what joining and answering need. A commit message needs a number left for it.
pub proof fn acceptable_messages(p: ParticipantView, msg: MessageView, mls: MlsView)
    ensures
        msg.session_header() is None ==> !p.accepts_other(msg),
        msg.session_header() is Some ==> {
            &&& msg.kind() == SessionMessageType::ChannelLeaveRequest ==> (p.accepts_other(msg)
                <==> p.endpoint.conn is Some)
            &&& msg.kind() == SessionMessageType::ChannelMlsWelcome && p.endpoint.mls_state is None
                ==> p.accepts_other(msg)
            &&& msg.kind() == SessionMessageType::ChannelMlsWelcome && p.endpoint.mls_state
                == Some(mls) ==> (p.accepts_other(msg) <==> mls.last_commit_id == 0 || if p.endpoint.subscribed {
                msg.slim_header() is Some && msg.slim_header()->0.source is Some
            } else {
                p.endpoint.conn is Some && p.endpoint.channel_name.strings is Some
            })
            &&& msg.kind() == SessionMessageType::ChannelMlsCommit && p.endpoint.mls_state is None
                ==> p.accepts_other(msg)
            &&& msg.kind() == SessionMessageType::ChannelMlsCommit && p.endpoint.mls_state == Some(
                mls,
            ) ==> (p.accepts_other(msg) <==> mls.last_commit_id < u32::MAX)
            &&& msg.kind() != SessionMessageType::ChannelLeaveRequest && msg.kind()
                != SessionMessageType::ChannelMlsWelcome && msg.kind()
                != SessionMessageType::ChannelMlsCommit ==> p.accepts_other(msg)
        },
{
}

/// A message that could not be sent is taken wherever a message was to be sent, and ends
/// the run with its error. Nothing is taken where nothing is waited for.
pub proof fn failures_to_send_are_taken(p: ParticipantView, outcome: OutcomeView, e: SessionErrorView)
    ensures
        p.waiting is None ==> !p.can_resume(outcome),
        p.waiting matches Some(task) ==> (p.can_resume(OutcomeView::Sent(Err(e))) <==> !(
        task is MakeKeyPackage) && !(task is EnterGroup) && !(task is FollowCommit)),
        p.waiting is Some ==> {
            let (q, step) = p.resume(OutcomeView::Sent(Err(e)));
            &&& q == (ParticipantView {
                moderator_name: p.moderator_name,
                endpoint: p.endpoint,
                waiting: None,
            })
            &&& step.next == NextView::Finish(Err(e))
            &&& step.timers.len() == 0
        },
{
}

/// When a message that was sent is taken: always, where a message was to be sent and what
/// follows it has all it needs. To join takes a connection and the texts of the channel's
/// name, to answer a source and an id.
pub proof fn sent_messages_are_taken(
    p: ParticipantView,
    msg: MessageView,
    moderator: AgentView,
    answer: SessionMessageType,
)
    ensures
        ({
            let taken = p.can_resume(OutcomeView::Sent(Ok(())));
            let answered = msg.slim_header() is Some && msg.slim_header()->0.source is Some
                && msg.session_header() is Some;
            let joined = p.endpoint.conn is Some && p.endpoint.channel_name.strings is Some;
            &&& p.waiting == Some(ParticipantTaskView::MeetModerator { msg, moderator }) ==> (taken
                <==> answered && (msg.metadata.contains_key(METADATA_MLS_ENABLED@)
                || p.endpoint.subscribed || joined))
            &&& p.waiting == Some(ParticipantTaskView::Subscribe { msg, answer }) ==> (taken
                <==> joined)
            &&& p.waiting == Some(ParticipantTaskView::Route { msg, answer }) ==> (taken
                <==> answered)
            &&& p.waiting == Some(ParticipantTaskView::Unsubscribe { msg }) ==> (taken
                <==> p.endpoint.conn is Some)
            &&& p.waiting == Some(ParticipantTaskView::Unroute { msg }) ==> (taken <==> answered)
            &&& p.waiting == Some(ParticipantTaskView::LeaveReply) ==> (taken
                <==> p.moderator_name is None || p.endpoint.conn is Some)
            &&& p.waiting == Some(ParticipantTaskView::Close) ==> taken
            &&& (p.waiting matches Some(task) && (task is MakeKeyPackage || task is EnterGroup
                || task is FollowCommit)) ==> !taken
        }),
{
}

/// When an answer of the engine is taken: where it is the one that is waited for, and what
/// follows it has all it needs.
pub proof fn engine_answers_are_taken(
    p: ParticipantView,
    msg: MessageView,
    bytes: Result<Seq<u8>, Seq<char>>,
    unit: Result<(), Seq<char>>,
    added: Result<AddedMemberView, Seq<char>>,
)
    ensures
        ({
            let answered = msg.slim_header() is Some && msg.slim_header()->0.source is Some
                && msg.session_header() is Some;
            let joined = p.endpoint.conn is Some && p.endpoint.channel_name.strings is Some;
            &&& p.waiting == Some(ParticipantTaskView::MakeKeyPackage { msg }) ==> (p.can_resume(
                OutcomeView::KeyPackage(bytes),
            ) <==> bytes is Err || answered)
            &&& p.waiting == Some(ParticipantTaskView::FollowCommit { msg }) ==> (p.can_resume(
                OutcomeView::CommitProcessed(unit),
            ) <==> unit is Err || answered)
            &&& p.waiting == Some(ParticipantTaskView::EnterGroup { msg }) ==> (p.can_resume(
                OutcomeView::WelcomeProcessed(bytes),
            ) <==> p.endpoint.mls_state is Some && (bytes is Err || if p.endpoint.subscribed {
                answered
            } else {
                joined
            }))
            &&& p.can_resume(OutcomeView::KeyPackage(bytes)) ==> p.waiting is Some
                && p.waiting->0 is MakeKeyPackage
            &&& p.can_resume(OutcomeView::CommitProcessed(unit)) ==> p.waiting is Some
                && p.waiting->0 is FollowCommit
            &&& p.can_resume(OutcomeView::WelcomeProcessed(bytes)) ==> p.waiting is Some
                && p.waiting->0 is EnterGroup
            &&& !p.can_resume(OutcomeView::GroupCreated(unit))
            &&& !p.can_resume(OutcomeView::MemberAdded(added))
            &&& !p.can_resume(OutcomeView::MemberRemoved(bytes))
        }),
{
}

/// A message that is accepted leads to its step, and one that is not to none. So does an
/// outcome. Without a step nothing changes.
pub proof fn every_message_and_outcome_has_its_step(
    p: ParticipantView,
    msg: MessageView,
    outcome: OutcomeView,
    step: Option<StepView>,
    after: ParticipantView,
    n: JoinPayloadView,
)
    ensures
        !crate::participant_model::is_join_request(msg) ==> (p.handles(msg, step, after) <==> (
        (p.accepts_other(msg) && step is Some && (after, step->0) == p.on_other_message(msg)) || (
        !p.accepts_other(msg) && step is None && after == p))),
        p.continues(outcome, step, after) <==> ((p.can_resume(outcome) && step is Some && (
            after,
            step->0,
        ) == p.resume(outcome)) || (!p.can_resume(outcome) && step is None && after == p)),
        crate::participant_model::is_join_request(msg)
            && crate::participant_model::reads_names(msg, Ok(n)) ==> (p.handles(msg, step, after)
            <==> ((p.accepts_join(msg, Ok(n)) && step is Some && (after, step->0)
            == p.on_join_request(msg, Ok(n))) || (!p.accepts_join(msg, Ok(n)) && step is None
            && after == p))),
        crate::participant_model::is_join_request(msg) && (forall|m: JoinPayloadView|
            !crate::participant_model::reads_names(msg, Ok(m))) && p.handles(msg, step, after) ==> {
            &&& after == (ParticipantView {
                moderator_name: p.moderator_name,
                endpoint: p.endpoint,
                waiting: None,
            })
            &&& step is Some
            &&& step->0.next matches NextView::Finish(Err(_))
        },
{
    if crate::participant_model::is_join_request(msg) && (forall|m: JoinPayloadView|
        !crate::participant_model::reads_names(msg, Ok(m))) && p.handles(msg, step, after) {
        let names = choose|names: Result<JoinPayloadView, SessionErrorView>| #[trigger]
            crate::participant_model::reads_names(msg, names) && match step {
                Some(s) => p.accepts_join(msg, names) && (after, s) == p.on_join_request(
                    msg,
                    names,
                ),
                None => !p.accepts_join(msg, names) && after == p,
            };
        if let Ok(m) = names {
            assert(!crate::participant_model::reads_names(msg, Ok(m)));
        }
    }
}

} // verus!
