//! What holds of a participant over whole runs.

use vstd::prelude::*;

use crate::encoder::AgentView;
use crate::endpoint::EndpointView;
use crate::kinds::SessionMessageType;
use crate::message::MessageView;
use crate::mls::MlsView;
use crate::participant_model::{ParticipantTaskView, ParticipantView};
use crate::payload::JoinPayloadView;
use crate::session::{
    MlsRequestView, NextView, OutcomeView, SessionErrorView, StepView, METADATA_MLS_ENABLED,
};

verus! {

/// A control message carries the session and the sender of its endpoint, and the kind,
/// the id and the payload that it was made with.
pub proof fn control_messages_belong_to_the_session(
    e: EndpointView,
    agent: AgentView,
    kind: SessionMessageType,
    id: u32,
    payload: Seq<u8>,
)
    ensures
        ({
            let m = e.message_to(agent, kind, id, payload);
            &&& m.validation() is Ok
            &&& m.source().same(e.name)
            &&& m.destination_agent().same(agent)
            &&& m.kind() == kind
            &&& m.id() == id
            &&& m.session_header()->0.session_id == e.session_id
            &&& m.session_header()->0.session_type == e.session_type.code()
            &&& m.payload()->0.blob == payload
            &&& m.slim_header()->0.fanout == 1
        }),
        ({
            let m = e.broadcast(kind, id, payload);
            &&& m.validation() is Ok
            &&& m.source().same(e.name)
            &&& m.name().0.same(e.channel_name)
            &&& m.kind() == kind
            &&& m.id() == id
            &&& m.session_header()->0.session_id == e.session_id
            &&& m.session_header()->0.session_type == e.session_type.code()
            &&& m.payload()->0.blob == payload
            &&& m.slim_header()->0.fanout == 10
        }),
{
    crate::message_laws::message_type_numbers(kind, 0);
}

/// An answer goes to the source of the message that it answers, under the same id.
pub proof fn answers_go_back(
    e: EndpointView,
    msg: MessageView,
    kind: SessionMessageType,
    payload: Seq<u8>,
)
    requires
        msg.can_answer(),
    ensures
        e.answer(msg, kind, payload).destination_agent().same(msg.source()),
        e.answer(msg, kind, payload).id() == msg.id(),
        e.answer(msg, kind, payload).kind() == kind,
        e.answer(msg, kind, payload).source().same(e.name),
{
    control_messages_belong_to_the_session(e, msg.source(), kind, msg.id(), payload);
}

/// Whether an outcome is of the kind that a task waits for.
pub open spec fn answers_task(task: ParticipantTaskView, outcome: OutcomeView) -> bool {
    match task {
        ParticipantTaskView::MakeKeyPackage { .. } => outcome is KeyPackage,
        ParticipantTaskView::EnterGroup { .. } => outcome is WelcomeProcessed,
        ParticipantTaskView::FollowCommit { .. } => outcome is CommitProcessed,
        _ => outcome is Sent,
    }
}

/// Whether an outcome is of the kind that comes of a step.
pub open spec fn answers_step(step: StepView, outcome: OutcomeView) -> bool {
    match step.next {
        NextView::Send(_) => outcome is Sent,
        NextView::Mls(MlsRequestView::CreateGroup) => outcome is GroupCreated,
        NextView::Mls(MlsRequestView::GenerateKeyPackage) => outcome is KeyPackage,
        NextView::Mls(MlsRequestView::ProcessWelcome(_)) => outcome is WelcomeProcessed,
        NextView::Mls(MlsRequestView::ProcessCommit(_)) => outcome is CommitProcessed,
        NextView::Mls(MlsRequestView::AddMember(_)) => outcome is MemberAdded,
        NextView::Mls(MlsRequestView::RemoveMember(_)) => outcome is MemberRemoved,
        NextView::Finish(_) => false,
    }
}

/// How many steps a run can still take at most.
pub open spec fn steps_left(p: ParticipantView) -> nat {
    match p.waiting {
        None => 0,
        Some(task) => match task {
            ParticipantTaskView::MeetModerator { .. } => 5,
            ParticipantTaskView::MakeKeyPackage { .. } => 2,
            ParticipantTaskView::EnterGroup { .. } => 4,
            ParticipantTaskView::FollowCommit { .. } => 2,
            ParticipantTaskView::Subscribe { .. } => 3,
            ParticipantTaskView::Route { .. } => 2,
            ParticipantTaskView::Unsubscribe { .. } => 4,
            ParticipantTaskView::Unroute { .. } => 3,
            ParticipantTaskView::LeaveReply => 2,
            ParticipantTaskView::Close => 1,
        },
    }
}

/// Whether a participant has all that the rest of its run needs.
pub open spec fn ready(p: ParticipantView) -> bool {
    let e = p.endpoint;
    let can_join = e.subscribed || e.can_subscribe();
    match p.waiting {
        None => true,
        Some(task) => match task {
            ParticipantTaskView::MeetModerator { msg, .. } => msg.can_answer() && (can_join
                || msg.metadata.contains_key(METADATA_MLS_ENABLED@)),
            ParticipantTaskView::MakeKeyPackage { msg } => msg.can_answer(),
            ParticipantTaskView::EnterGroup { msg } => msg.can_answer() && can_join
                && e.mls_state is Some,
            ParticipantTaskView::FollowCommit { msg } => msg.can_answer(),
            ParticipantTaskView::Subscribe { msg, .. } => msg.can_answer() && e.can_subscribe(),
            ParticipantTaskView::Route { msg, .. } => msg.can_answer(),
            ParticipantTaskView::Unsubscribe { msg } => msg.can_answer() && e.conn is Some,
            ParticipantTaskView::Unroute { msg } => msg.can_answer() && e.conn is Some,
            ParticipantTaskView::LeaveReply => e.conn is Some,
            ParticipantTaskView::Close => true,
        },
    }
}

/// Whether what a step asks for is what the participant then waits for.
pub open spec fn in_step(p: ParticipantView, step: StepView) -> bool {
    &&& p.waiting is None <==> step.next is Finish
    &&& p.waiting matches Some(task) ==> forall|o: OutcomeView| #[trigger]
        answers_step(step, o) == answers_task(task, o)
}

/// A join request that is accepted and can be answered starts a run that has all it
/// needs. To join the channel at once, the texts of its name have to be known.
pub proof fn join_request_starts_a_run(
    p: ParticipantView,
    msg: MessageView,
    names: Result<JoinPayloadView, SessionErrorView>,
)
    requires
        p.accepts_join(msg, names),
        names matches Ok(n) ==> msg.can_answer() && (n.channel_name.strings is Some
            || p.endpoint.subscribed || msg.metadata.contains_key(METADATA_MLS_ENABLED@)),
    ensures
        ({
            let (q, step) = p.on_join_request(msg, names);
            ready(q) && in_step(q, step) && steps_left(q) <= 5 && step.timers.len() == 0
        }),
{
}

/// Any other message that is accepted starts a run that has all it needs. What is to be
/// answered has to name its source; for a welcome message, the participant must be able
/// to join the channel where it has not.
pub proof fn other_message_starts_a_run(p: ParticipantView, msg: MessageView)
    requires
        p.accepts_other(msg),
        msg.kind() == SessionMessageType::ChannelMlsWelcome ==> msg.has_source() && (
        p.endpoint.subscribed || p.endpoint.can_subscribe()),
        msg.kind() == SessionMessageType::ChannelMlsCommit ==> msg.has_source(),
        msg.kind() == SessionMessageType::ChannelLeaveRequest ==> msg.has_source(),
    ensures
        ({
            let (q, step) = p.on_other_message(msg);
            ready(q) && in_step(q, step) && steps_left(q) <= 5 && step.timers.len() == 0
        }),
{
}

/// A run goes on with every outcome that can come of its last step, and comes to its
/// end: each step leaves fewer to take.
pub proof fn run_comes_to_its_end(p: ParticipantView, outcome: OutcomeView)
    requires
        ready(p),
        p.waiting is Some,
        answers_task(p.waiting->0, outcome),
    ensures
        p.can_resume(outcome),
        ({
            let (q, step) = p.resume(outcome);
            &&& ready(q)
            &&& in_step(q, step)
            &&& steps_left(q) < steps_left(p)
            &&& step.timers.len() == 0
        }),
{
}

/// A message that could not be sent ends the run with the error that came, and the
/// participant is as it was before.
pub proof fn failed_send_ends_the_run(p: ParticipantView, e: SessionErrorView)
    requires
        p.waiting is Some,
    ensures
        p.resume(OutcomeView::Sent(Err(e))) == (p.idle(), StepView::finish(Err(e))),
{
}

/// A message of a kind that is not for a participant is refused, and nothing changes.
pub proof fn strange_messages_change_nothing(p: ParticipantView, msg: MessageView)
    requires
        msg.session_header() is Some,
        msg.kind() != SessionMessageType::ChannelJoinRequest,
        msg.kind() != SessionMessageType::ChannelMlsWelcome,
        msg.kind() != SessionMessageType::ChannelMlsCommit,
        msg.kind() != SessionMessageType::ChannelLeaveRequest,
    ensures
        p.accepts_other(msg),
        p.on_other_message(msg).0 == p.idle(),
        p.on_other_message(msg).1.next matches NextView::Finish(Err(SessionErrorView::Processing(_))),
{
}

/// Without a state in a group, what concerns the group is refused, and nothing changes.
/// A join request that asks for a key package is refused once the moderator is known.
pub proof fn group_messages_need_a_group(
    p: ParticipantView,
    msg: MessageView,
    moderator: AgentView,
)
    requires
        p.endpoint.mls_state is None,
    ensures
        msg.metadata.contains_key(METADATA_MLS_ENABLED@) ==> p.on_moderator_met(msg, moderator)
            == (ParticipantView { moderator_name: Some(moderator), ..p }).finish(
            Err(SessionErrorView::NoMls),
        ),
        p.on_mls_welcome(msg) == p.finish(Err(SessionErrorView::NoMls)),
        p.on_mls_commit(msg) == p.finish(Err(SessionErrorView::NoMls)),
{
}

/// A change of the group is followed only in order: the one that comes next after the
/// last. Any other is refused, and nothing changes. So a change that comes twice is
/// followed once.
pub proof fn commits_are_followed_in_order(p: ParticipantView, mls: MlsView, msg: MessageView)
    requires
        p.endpoint.mls_state == Some(mls),
        msg.session_header() is Some,
        mls.last_commit_id < u32::MAX,
    ensures
        !mls.is_next_commit(msg) ==> {
            &&& p.on_mls_commit(msg).0 == p.idle()
            &&& p.on_mls_commit(msg).1.next matches NextView::Finish(
                Err(SessionErrorView::CommitMessage(_)),
            )
        },
        mls.is_next_commit(msg) ==> mls.after_commit(msg).last_commit_id == mls.last_commit_id + 1,
        !mls.after_commit(msg).is_next_commit(msg),
        mls.after_commit(msg).group == mls.group,
        mls.after_commit(msg).participants == mls.participants,
{
}

/// A second welcome message only has the channel joined, where it is not yet, and is
/// acknowledged: the engine is not asked, and the state in the group stays.
pub proof fn second_welcome_is_only_acknowledged(p: ParticipantView, mls: MlsView, msg: MessageView)
    requires
        p.endpoint.mls_state == Some(mls),
        mls.last_commit_id != 0,
    ensures
        p.on_mls_welcome(msg) == p.join(msg, SessionMessageType::ChannelMlsAck),
        p.on_mls_welcome(msg).1.next is Send,
        p.on_mls_welcome(msg).0.endpoint.mls_state == Some(mls),
{
    assert(p.with_mls(mls) == p);
}

/// The channel is subscribed to only once. A step that marks the participant as
/// subscribed sends the subscription; a participant that is subscribed stays so, and is
/// sent no further one by joining.
pub proof fn participant_subscribes_once(
    p: ParticipantView,
    msg: MessageView,
    names: Result<JoinPayloadView, SessionErrorView>,
    answer: SessionMessageType,
    outcome: OutcomeView,
)
    ensures
        p.endpoint.subscribed ==> {
            &&& p.join(msg, answer) == p.answer(msg, answer, Seq::empty())
            &&& p.on_join_request(msg, names).0.endpoint.subscribed
            &&& p.on_other_message(msg).0.endpoint.subscribed
            &&& p.resume(outcome).0.endpoint.subscribed
        },
        !p.endpoint.subscribed ==> {
            &&& !p.on_join_request(msg, names).0.endpoint.subscribed
            &&& p.on_other_message(msg).0.endpoint.subscribed ==> p.on_other_message(msg).1
                == StepView::send(p.endpoint.subscription())
            &&& p.resume(outcome).0.endpoint.subscribed ==> p.resume(outcome).1
                == StepView::send(p.endpoint.subscription())
        },
{
}

/// The messages that a run sends, from a step on, and where it ends, with given outcomes.
pub open spec fn run(p: ParticipantView, step: StepView, outcomes: Seq<OutcomeView>) -> (
    Seq<MessageView>,
    ParticipantView,
    NextView,
)
    decreases outcomes.len(),
{
    let sent = match step.next {
        NextView::Send(m) => seq![m],
        _ => Seq::empty(),
    };
    if outcomes.len() == 0 {
        (sent, p, step.next)
    } else {
        let (q, next) = p.resume(outcomes.first());
        let rest = run(q, next, outcomes.drop_first());
        (sent + rest.0, rest.1, rest.2)
    }
}

/// The outcome of a message that was sent.
pub open spec fn sent() -> OutcomeView {
    OutcomeView::Sent(Ok(()))
}

/// One more step of a run.
proof fn run_step(p: ParticipantView, step: StepView, outcome: OutcomeView, rest: Seq<OutcomeView>)
    ensures
        run(p, step, seq![outcome] + rest) == ({
            let (q, next) = p.resume(outcome);
            let tail = run(q, next, rest);
            (
                match step.next {
                    NextView::Send(m) => seq![m],
                    _ => Seq::empty(),
                } + tail.0,
                tail.1,
                tail.2,
            )
        }),
{
    let all = seq![outcome] + rest;
    assert(all.first() == outcome);
    assert(all.drop_first() =~= rest);
}

/// A join request without keys, where all messages can be sent: the route to the
/// moderator is set, then the channel is joined, where it is not yet, then the request is
/// answered.
pub proof fn joining_without_keys(p: ParticipantView, msg: MessageView, n: JoinPayloadView)
    requires
        p.accepts_join(msg, Ok(n)),
        msg.can_answer(),
        !msg.metadata.contains_key(METADATA_MLS_ENABLED@),
        !p.endpoint.subscribed ==> n.channel_name.strings is Some,
    ensures
        ({
            let (q, step) = p.on_join_request(msg, Ok(n));
            let e = p.invited(msg, n.channel_name).endpoint;
            let m = n.moderator_name;
            let end = ParticipantView {
                moderator_name: Some(m),
                endpoint: EndpointView { subscribed: true, ..e },
                waiting: None,
            };
            let answer = e.answer(msg, SessionMessageType::ChannelJoinReply, Seq::empty());
            if p.endpoint.subscribed {
                run(q, step, seq![sent(), sent()]) == (
                    seq![e.route(m.agent_type, m.id_option()), answer],
                    end,
                    NextView::Finish(Ok(())),
                )
            } else {
                run(q, step, seq![sent(), sent(), sent(), sent()]) == (
                    seq![
                        e.route(m.agent_type, m.id_option()),
                        e.subscription(),
                        e.route(n.channel_name, None),
                        answer,
                    ],
                    end,
                    NextView::Finish(Ok(())),
                )
            }
        }),
{
    let (q, step) = p.on_join_request(msg, Ok(n));
    let e = p.invited(msg, n.channel_name).endpoint;
    let m = n.moderator_name;
    let answer = e.answer(msg, SessionMessageType::ChannelJoinReply, Seq::empty());
    let none = Seq::<OutcomeView>::empty();
    let r1 = q.resume(sent());
    if p.endpoint.subscribed {
        run_step(r1.0, r1.1, sent(), none);
        run_step(q, step, sent(), seq![sent()] + none);
        assert(seq![sent(), sent()] =~= seq![sent()] + (seq![sent()] + none));
        assert(run(q, step, seq![sent(), sent()]).0 =~= seq![
            e.route(m.agent_type, m.id_option()),
            answer,
        ]);
    } else {
        let r2 = r1.0.resume(sent());
        let r3 = r2.0.resume(sent());
        run_step(r3.0, r3.1, sent(), none);
        run_step(r2.0, r2.1, sent(), seq![sent()] + none);
        run_step(r1.0, r1.1, sent(), seq![sent()] + (seq![sent()] + none));
        run_step(q, step, sent(), seq![sent()] + (seq![sent()] + (seq![sent()] + none)));
        assert(seq![sent(), sent(), sent(), sent()] =~= seq![sent()] + (seq![sent()] + (seq![
            sent(),
        ] + (seq![sent()] + none))));
        assert(run(q, step, seq![sent(), sent(), sent(), sent()]).0 =~= seq![
            e.route(m.agent_type, m.id_option()),
            e.subscription(),
            e.route(n.channel_name, None),
            answer,
        ]);
    }
}

/// A join request with keys, where all messages can be sent: the route to the moderator
/// is set, then the request is answered with the key package that the engine made. The
/// channel is not joined yet.
pub proof fn joining_with_keys(
    p: ParticipantView,
    msg: MessageView,
    n: JoinPayloadView,
    package: Seq<u8>,
)
    requires
        p.accepts_join(msg, Ok(n)),
        msg.can_answer(),
        msg.metadata.contains_key(METADATA_MLS_ENABLED@),
        p.endpoint.mls_state is Some,
    ensures
        ({
            let (q, step) = p.on_join_request(msg, Ok(n));
            let e = p.invited(msg, n.channel_name).endpoint;
            let m = n.moderator_name;
            let end = ParticipantView { moderator_name: Some(m), endpoint: e, waiting: None };
            &&& q.resume(sent()).1 == StepView::ask(MlsRequestView::GenerateKeyPackage)
            &&& run(q, step, seq![sent(), OutcomeView::KeyPackage(Ok(package)), sent()]) == (
                seq![
                    e.route(m.agent_type, m.id_option()),
                    e.answer(msg, SessionMessageType::ChannelJoinReply, package),
                ],
                end,
                NextView::Finish(Ok(())),
            )
        }),
{
    let made = OutcomeView::KeyPackage(Ok(package));
    let (q, step) = p.on_join_request(msg, Ok(n));
    let r1 = q.resume(sent());
    let r2 = r1.0.resume(made);
    let none = Seq::<OutcomeView>::empty();
    run_step(r2.0, r2.1, sent(), none);
    run_step(r1.0, r1.1, made, seq![sent()] + none);
    run_step(q, step, sent(), seq![made] + (seq![sent()] + none));
    assert(seq![sent(), made, sent()] =~= seq![sent()] + (seq![made] + (seq![sent()] + none)));
    let e = p.invited(msg, n.channel_name).endpoint;
    let m = n.moderator_name;
    assert(run(q, step, seq![sent(), made, sent()]).0 =~= seq![
        e.route(m.agent_type, m.id_option()),
        e.answer(msg, SessionMessageType::ChannelJoinReply, package),
    ]);
}

/// The first welcome message, where the engine can enter its group and all messages can
/// be sent: the channel is joined, where it is not yet, then the message is acknowledged.
pub proof fn entering_the_group(
    p: ParticipantView,
    mls: MlsView,
    msg: MessageView,
    welcome: Seq<u8>,
    group: Seq<u8>,
)
    requires
        p.endpoint.mls_state == Some(mls),
        mls.welcome(msg) == Ok::<Option<Seq<u8>>, SessionErrorView>(Some(welcome)),
        msg.can_answer(),
        !p.endpoint.subscribed ==> p.endpoint.can_subscribe(),
    ensures
        ({
            let (q, step) = p.on_mls_welcome(msg);
            let entered = OutcomeView::WelcomeProcessed(Ok(group));
            let end = ParticipantView {
                endpoint: EndpointView {
                    subscribed: true,
                    mls_state: Some(MlsView { group, ..mls.after_welcome(msg) }),
                    ..p.endpoint
                },
                waiting: None,
                ..p
            };
            let ack = p.endpoint.answer(msg, SessionMessageType::ChannelMlsAck, Seq::empty());
            &&& step == StepView::ask(MlsRequestView::ProcessWelcome(welcome))
            &&& if p.endpoint.subscribed {
                run(q, step, seq![entered, sent()]) == (
                    seq![ack],
                    end,
                    NextView::Finish(Ok(())),
                )
            } else {
                run(q, step, seq![entered, sent(), sent(), sent()]) == (
                    seq![
                        p.endpoint.subscription(),
                        p.endpoint.route(p.endpoint.channel_name, None),
                        ack,
                    ],
                    end,
                    NextView::Finish(Ok(())),
                )
            }
        }),
{
    let entered = OutcomeView::WelcomeProcessed(Ok(group));
    let ack = p.endpoint.answer(msg, SessionMessageType::ChannelMlsAck, Seq::empty());
    let none = Seq::<OutcomeView>::empty();
    let (q, step) = p.on_mls_welcome(msg);
    let r1 = q.resume(entered);
    if p.endpoint.subscribed {
        run_step(r1.0, r1.1, sent(), none);
        run_step(q, step, entered, seq![sent()] + none);
        assert(seq![entered, sent()] =~= seq![entered] + (seq![sent()] + none));
        assert(run(q, step, seq![entered, sent()]).0 =~= seq![ack]);
    } else {
        let r2 = r1.0.resume(sent());
        let r3 = r2.0.resume(sent());
        run_step(r3.0, r3.1, sent(), none);
        run_step(r2.0, r2.1, sent(), seq![sent()] + none);
        run_step(r1.0, r1.1, sent(), seq![sent()] + (seq![sent()] + none));
        run_step(q, step, entered, seq![sent()] + (seq![sent()] + (seq![sent()] + none)));
        assert(seq![entered, sent(), sent(), sent()] =~= seq![entered] + (seq![sent()] + (seq![
            sent(),
        ] + (seq![sent()] + none))));
        assert(run(q, step, seq![entered, sent(), sent(), sent()]).0 =~= seq![
            p.endpoint.subscription(),
            p.endpoint.route(p.endpoint.channel_name, None),
            ack,
        ]);
    }
}

/// The next commit message, where the engine can follow it: it is acknowledged.
pub proof fn following_a_commit(p: ParticipantView, mls: MlsView, msg: MessageView, commit: Seq<u8>)
    requires
        p.endpoint.mls_state == Some(mls),
        mls.commit(msg) == Ok::<Seq<u8>, SessionErrorView>(commit),
        msg.can_answer(),
    ensures
        ({
            let (q, step) = p.on_mls_commit(msg);
            let done = p.with_mls(mls.after_commit(msg));
            &&& step == StepView::ask(MlsRequestView::ProcessCommit(commit))
            &&& run(q, step, seq![OutcomeView::CommitProcessed(Ok(())), sent()]) == (
                seq![p.endpoint.answer(msg, SessionMessageType::ChannelMlsAck, Seq::empty())],
                done.idle(),
                NextView::Finish(Ok(())),
            )
        }),
{
    let followed = OutcomeView::CommitProcessed(Ok(()));
    let (q, step) = p.on_mls_commit(msg);
    let r1 = q.resume(followed);
    let none = Seq::<OutcomeView>::empty();
    run_step(r1.0, r1.1, sent(), none);
    run_step(q, step, followed, seq![sent()] + none);
    assert(seq![followed, sent()] =~= seq![followed] + (seq![sent()] + none));
    assert(run(q, step, seq![followed, sent()]).0 =~= seq![
        p.endpoint.answer(msg, SessionMessageType::ChannelMlsAck, Seq::empty()),
    ]);
}

/// A leave request, where all messages can be sent: subscription and route to the
/// channel are ended, then the request is answered, then the route to the moderator is
/// ended. Where the moderator is not known there is no such route, which is no error.
/// The participant itself is as before.
pub proof fn leaving(p: ParticipantView, msg: MessageView)
    requires
        p.endpoint.conn is Some,
        msg.can_answer(),
    ensures
        ({
            let (q, step) = p.on_leave_request(msg);
            let e = p.endpoint;
            let reply = e.answer(msg, SessionMessageType::ChannelLeaveReply, Seq::empty());
            match p.moderator_name {
                Some(m) => run(q, step, seq![sent(), sent(), sent(), sent()]) == (
                    seq![
                        e.unsubscription(),
                        e.unroute(e.channel_name, None),
                        reply,
                        e.unroute(m.agent_type, m.id_option()),
                    ],
                    p.idle(),
                    NextView::Finish(Ok(())),
                ),
                None => run(q, step, seq![sent(), sent(), sent()]) == (
                    seq![e.unsubscription(), e.unroute(e.channel_name, None), reply],
                    p.idle(),
                    NextView::Finish(Ok(())),
                ),
            }
        }),
{
    let (q, step) = p.on_leave_request(msg);
    let e = p.endpoint;
    let reply = e.answer(msg, SessionMessageType::ChannelLeaveReply, Seq::empty());
    let none = Seq::<OutcomeView>::empty();
    let r1 = q.resume(sent());
    let r2 = r1.0.resume(sent());
    match p.moderator_name {
        Some(m) => {
            let r3 = r2.0.resume(sent());
            run_step(r3.0, r3.1, sent(), none);
            run_step(r2.0, r2.1, sent(), seq![sent()] + none);
            run_step(r1.0, r1.1, sent(), seq![sent()] + (seq![sent()] + none));
            run_step(q, step, sent(), seq![sent()] + (seq![sent()] + (seq![sent()] + none)));
            assert(seq![sent(), sent(), sent(), sent()] =~= seq![sent()] + (seq![sent()] + (seq![
                sent(),
            ] + (seq![sent()] + none))));
            assert(run(q, step, seq![sent(), sent(), sent(), sent()]).0 =~= seq![
                e.unsubscription(),
                e.unroute(e.channel_name, None),
                reply,
                e.unroute(m.agent_type, m.id_option()),
            ]);
        },
        None => {
            run_step(r2.0, r2.1, sent(), none);
            run_step(r1.0, r1.1, sent(), seq![sent()] + none);
            run_step(q, step, sent(), seq![sent()] + (seq![sent()] + none));
            assert(seq![sent(), sent(), sent()] =~= seq![sent()] + (seq![sent()] + (seq![sent()]
                + none)));
            assert(run(q, step, seq![sent(), sent(), sent()]).0 =~= seq![
                e.unsubscription(),
                e.unroute(e.channel_name, None),
                reply,
            ]);
        },
    }
}

} // verus!
