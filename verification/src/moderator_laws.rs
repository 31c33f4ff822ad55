//! What holds of a moderator over whole runs, and between it and a participant.

use vstd::prelude::*;

use crate::encoder::AgentKey;
use crate::endpoint::EndpointView;
use crate::kinds::SessionMessageType;
use crate::message::MessageView;
use crate::mls::MlsView;
use crate::moderator_model::{AfterAckView, ChannelTimerView, ModeratorTaskView, ModeratorView};
use crate::participant_laws::{answers_step, control_messages_belong_to_the_session};
use crate::payload::JoinPayloadView;
use crate::session::{
    AddedMemberView, MlsRequestView, NextView, OutcomeView, SessionErrorView, StepView,
    TimerOpView, METADATA_MLS_ENABLED,
};

verus! {

/// The timers that run after some changes to them.
pub open spec fn running(timers: Set<u32>, ops: Seq<TimerOpView>) -> Set<u32>
    decreases ops.len(),
{
    if ops.len() == 0 {
        timers
    } else {
        let before = running(timers, ops.drop_last());
        match ops.last() {
            TimerOpView::Start { key, .. } => before.insert(key),
            TimerOpView::Stop { key } => before.remove(key),
        }
    }
}

proof fn running_none(timers: Set<u32>)
    ensures
        running(timers, Seq::empty()) == timers,
{
}

proof fn running_one(timers: Set<u32>, op: TimerOpView)
    ensures
        running(timers, seq![op]) == match op {
            TimerOpView::Start { key, .. } => timers.insert(key),
            TimerOpView::Stop { key } => timers.remove(key),
        },
{
    assert(seq![op].drop_last() =~= Seq::empty());
    running_none(timers);
}

proof fn running_both(timers: Set<u32>, first: Seq<TimerOpView>, second: Seq<TimerOpView>)
    ensures
        running(timers, first + second) == running(running(timers, first), second),
    decreases second.len(),
{
    if second.len() == 0 {
        assert(first + second =~= first);
    } else {
        assert((first + second).drop_last() =~= first + second.drop_last());
        running_both(timers, first, second.drop_last());
    }
}

proof fn follow_ack_keeps_timers(m: ModeratorView, after: AfterAckView)
    ensures
        running(m.pending_requests.dom(), m.follow_ack(after).1.timers) == m.follow_ack(
            after,
        ).0.pending_requests.dom(),
{
    running_none(m.pending_requests.dom());
    if let AfterAckView::Invite { join, id } = after {
        let op = m.timer(id, join);
        running_one(m.pending_requests.dom(), op);
        assert(m.follow_ack(after).1.timers =~= seq![op]);
        assert(m.follow_ack(after).0.pending_requests.dom() =~= m.pending_requests.dom().insert(
            id,
        ));
    }
}

proof fn count_ack_keeps_timers(m: ModeratorView, key: u32, after: AfterAckView)
    ensures
        running(m.pending_requests.dom(), m.count_ack(key, after).1.timers) == m.count_ack(
            key,
            after,
        ).0.pending_requests.dom(),
{
    let timers = m.pending_requests.dom();
    running_none(timers);
    if m.pending_requests.contains_key(key) {
        let timer = m.pending_requests[key];
        if timer.expected_acks > 1 {
            let next = m.with_pending(key, (timer.expected_acks - 1) as u32, timer.to_forward);
            assert(next.pending_requests.dom() =~= timers);
            follow_ack_keeps_timers(next, after);
        } else {
            let settled = m.without_pending(key);
            let stop = seq![TimerOpView::Stop { key }];
            running_one(timers, TimerOpView::Stop { key });
            assert(settled.pending_requests.dom() =~= timers.remove(key));
            let step = match timer.to_forward {
                Some(msg) => settled.forward(msg, after),
                None => settled.follow_ack(after),
            };
            running_both(timers, stop, step.1.timers);
            running_none(settled.pending_requests.dom());
            follow_ack_keeps_timers(settled, after);
        }
    }
}

proof fn follow_join_keeps_timers(m: ModeratorView, reply: Option<MessageView>, id: u32)
    ensures
        running(m.pending_requests.dom(), m.follow_join(reply, id).1.timers) == m.follow_join(
            reply,
            id,
        ).0.pending_requests.dom(),
{
    running_none(m.pending_requests.dom());
    if let Some(r) = reply {
        count_ack_keeps_timers(
            m,
            r.id(),
            AfterAckView::Invite { join: m.join_request(r, id), id },
        );
    }
}

/// A timer runs for each pending request and for nothing else: where that is so before
/// a step, it is so after the step and its changes to the timers.
pub proof fn timers_run_for_pending_requests(
    m: ModeratorView,
    msg: MessageView,
    outcome: OutcomeView,
    id: u32,
)
    ensures
        running(m.pending_requests.dom(), m.on_message(msg, id).1.timers) == m.on_message(
            msg,
            id,
        ).0.pending_requests.dom(),
        running(m.pending_requests.dom(), m.resume(outcome, id).1.timers) == m.resume(
            outcome,
            id,
        ).0.pending_requests.dom(),
        running(m.pending_requests.dom(), m.join(None, id).1.timers) == m.join(
            None,
            id,
        ).0.pending_requests.dom(),
{
    let timers = m.pending_requests.dom();
    running_none(timers);
    count_ack_keeps_timers(m, msg.id(), AfterAckView::Add { msg });
    count_ack_keeps_timers(m, msg.id(), AfterAckView::Done);
    follow_join_keeps_timers(m.connected(msg), Some(msg), id);
    match m.waiting->0 {
        ModeratorTaskView::Forward { msg, after } => {
            let op = m.timer(msg.id(), msg);
            let next = m.with_pending(msg.id(), 1, None);
            running_one(timers, op);
            running_both(timers, seq![op], next.follow_ack(after).1.timers);
            assert(next.pending_requests.dom() =~= timers.insert(msg.id()));
            follow_ack_keeps_timers(next, after);
        },
        ModeratorTaskView::Route { reply } => {
            follow_join_keeps_timers(m, reply, id);
        },
        ModeratorTaskView::CreateGroup { reply } => {
            follow_join_keeps_timers(m, reply, id);
        },
        ModeratorTaskView::SendWelcome { welcome, welcome_id, .. } => {
            let op = m.timer(welcome_id, welcome);
            running_one(timers, op);
            assert(m.with_pending(welcome_id, 1, None).pending_requests.dom() =~= timers.insert(
                welcome_id,
            ));
            assert(seq![op] + Seq::<TimerOpView>::empty() =~= seq![op]);
        },
        ModeratorTaskView::SendCommit { commit, commit_id, acks, to_forward } => {
            let op = m.timer(commit_id, commit);
            running_one(timers, op);
            assert(m.with_pending(commit_id, acks, to_forward).pending_requests.dom()
                =~= timers.insert(commit_id));
            assert(seq![op] + Seq::<TimerOpView>::empty() =~= seq![op]);
        },
        _ => {},
    }
}

/// The moderator after a number of acknowledgements of one request, each handled to the
/// end.
pub open spec fn after_acks(m: ModeratorView, key: u32, n: nat) -> ModeratorView
    decreases n,
{
    if n == 0 {
        m
    } else {
        after_acks(m, key, (n - 1) as nat).count_ack(key, AfterAckView::Done).0
    }
}

/// A request that is to be acknowledged by a number of participants stays pending until
/// so many acknowledgements have come, and nothing is sent for it before: only the last
/// one stops its timer and has the message that waited for it forwarded. One more finds
/// nothing that is pending.
pub proof fn all_acknowledgements_are_waited_for(m: ModeratorView, key: u32, n: nat)
    requires
        m.pending_requests.contains_key(key),
        n < m.pending_requests[key].expected_acks,
    ensures
        after_acks(m, key, n).pending_requests == m.pending_requests.insert(
            key,
            ChannelTimerView {
                expected_acks: (m.pending_requests[key].expected_acks - n) as u32,
                to_forward: m.pending_requests[key].to_forward,
            },
        ),
        n + 1 < m.pending_requests[key].expected_acks ==> after_acks(m, key, n).count_ack(
            key,
            AfterAckView::Done,
        ).1 == StepView::finish(Ok(())),
        n + 1 == m.pending_requests[key].expected_acks ==> {
            let (q, step) = after_acks(m, key, n).count_ack(key, AfterAckView::Done);
            &&& q.pending_requests == m.pending_requests.remove(key)
            &&& step.timers == seq![TimerOpView::Stop { key }]
            &&& step.next == match m.pending_requests[key].to_forward {
                Some(msg) => NextView::Send(msg),
                None => NextView::Finish(Ok(())),
            }
            &&& q.count_ack(key, AfterAckView::Done).1.next == NextView::Finish(
                Err(SessionErrorView::TimerNotFound(crate::text::decimal(key as nat))),
            )
        },
    decreases n,
{
    let timer = m.pending_requests[key];
    if n > 0 {
        all_acknowledgements_are_waited_for(m, key, (n - 1) as nat);
    }
    let here = after_acks(m, key, n);
    assert(here.pending_requests =~= m.pending_requests.insert(
        key,
        ChannelTimerView {
            expected_acks: (timer.expected_acks - n) as u32,
            to_forward: timer.to_forward,
        },
    ));
    if n + 1 == timer.expected_acks {
        let (q, step) = here.count_ack(key, AfterAckView::Done);
        assert(q.pending_requests =~= m.pending_requests.remove(key));
        assert(step.timers =~= seq![TimerOpView::Stop { key }]);
    }
}

/// Whether a pending request waits for at least one acknowledgement, and what waits for
/// it can be forwarded as a request of its own.
pub open spec fn sound_request(timer: ChannelTimerView) -> bool {
    &&& timer.expected_acks >= 1
    &&& timer.to_forward matches Some(msg) ==> msg.session_header() is Some
}

/// Whether what follows an acknowledgement can be done, now and later.
pub open spec fn sound_after(after: AfterAckView) -> bool {
    after matches AfterAckView::Add { msg } ==> msg.can_answer()
}

/// Whether a discovery reply can be followed up.
pub open spec fn sound_reply(reply: Option<MessageView>) -> bool {
    reply matches Some(r) ==> r.can_answer()
}

/// Whether all pending requests are sound.
pub open spec fn sound_requests(pending: Map<u32, ChannelTimerView>) -> bool {
    forall|key: u32| pending.dom().contains(key) ==> sound_request(#[trigger] pending[key])
}

/// Whether all pending requests are sound, and the moderator has all that the rest of its
/// run needs.
pub open spec fn sound(m: ModeratorView) -> bool {
    &&& sound_requests(m.pending_requests)
    &&& match m.waiting {
        None => true,
        Some(task) => match task {
            ModeratorTaskView::Forward { msg, after } => msg.session_header() is Some
                && sound_after(after),
            ModeratorTaskView::Subscribe { reply } => sound_reply(reply)
                && m.endpoint.can_subscribe(),
            ModeratorTaskView::Route { reply } => sound_reply(reply),
            ModeratorTaskView::CreateGroup { reply } => sound_reply(reply),
            ModeratorTaskView::AddMember { msg } => msg.can_answer()
                && m.endpoint.mls_state is Some,
            ModeratorTaskView::SendWelcome { .. } => true,
            ModeratorTaskView::RemoveMember { msg } => msg.has_destination()
                && msg.session_header() is Some && m.endpoint.mls_state is Some,
            ModeratorTaskView::SendCommit { acks, to_forward, .. } => acks >= 1 && (
            to_forward matches Some(msg) ==> msg.session_header() is Some),
            ModeratorTaskView::Close => true,
        },
    }
}

/// Whether an outcome is of the kind that a task waits for.
pub open spec fn answers_task(task: ModeratorTaskView, outcome: OutcomeView) -> bool {
    match task {
        ModeratorTaskView::CreateGroup { .. } => outcome is GroupCreated,
        ModeratorTaskView::AddMember { .. } => outcome is MemberAdded,
        ModeratorTaskView::RemoveMember { .. } => outcome is MemberRemoved,
        _ => outcome is Sent,
    }
}

/// Whether what a step asks for is what the moderator then waits for.
pub open spec fn in_step(m: ModeratorView, step: StepView) -> bool {
    &&& m.waiting is None <==> step.next is Finish
    &&& m.waiting matches Some(task) ==> forall|o: OutcomeView| #[trigger]
        answers_step(step, o) == answers_task(task, o)
}

/// How many steps can still follow an acknowledgement at most.
pub open spec fn steps_after(after: AfterAckView) -> nat {
    match after {
        AfterAckView::Done => 0,
        AfterAckView::Invite { .. } => 1,
        AfterAckView::Add { .. } => 4,
    }
}

/// How many steps a run can still take at most.
pub open spec fn steps_left(m: ModeratorView) -> nat {
    match m.waiting {
        None => 0,
        Some(task) => match task {
            ModeratorTaskView::Forward { after, .. } => 1 + steps_after(after),
            ModeratorTaskView::Subscribe { .. } => 6,
            ModeratorTaskView::Route { .. } => 5,
            ModeratorTaskView::CreateGroup { .. } => 4,
            ModeratorTaskView::AddMember { .. } => 3,
            ModeratorTaskView::SendWelcome { .. } => 2,
            ModeratorTaskView::RemoveMember { .. } => 2,
            ModeratorTaskView::SendCommit { .. } => 1,
            ModeratorTaskView::Close => 1,
        },
    }
}

/// Whether a machine limit is not reached with an outcome: the ids of the changes of the
/// group and the number of participants are counted in 32 bits.
pub open spec fn within_limits(m: ModeratorView, outcome: OutcomeView) -> bool {
    match (m.waiting, outcome) {
        (Some(ModeratorTaskView::AddMember { msg }), OutcomeView::MemberAdded(Ok(added))) => {
            &&& m.mls_msg_id < u32::MAX
            &&& m.endpoint.mls_state->0.with_participant(
                msg.source().key(),
                added.member_identity,
            ).participants.len() - 1 <= u32::MAX
        },
        (Some(ModeratorTaskView::RemoveMember { msg }), OutcomeView::MemberRemoved(Ok(_))) => {
            &&& m.mls_msg_id < u32::MAX
            &&& m.endpoint.mls_state->0.without_participant(
                msg.destination_agent().key(),
            ).participants.len() + 1 <= u32::MAX
        },
        _ => true,
    }
}

proof fn follow_ack_is_sound(m: ModeratorView, after: AfterAckView)
    requires
        sound_requests(m.pending_requests),
        sound_after(after),
    ensures
        m.can_follow_ack(after),
        sound(m.follow_ack(after).0),
        in_step(m.follow_ack(after).0, m.follow_ack(after).1),
        steps_left(m.follow_ack(after).0) <= steps_after(after),
{
}

proof fn count_ack_is_sound(m: ModeratorView, key: u32, after: AfterAckView)
    requires
        sound_requests(m.pending_requests),
        sound_after(after),
    ensures
        m.can_count_ack(key, after),
        sound(m.count_ack(key, after).0),
        in_step(m.count_ack(key, after).0, m.count_ack(key, after).1),
        steps_left(m.count_ack(key, after).0) <= 1 + steps_after(after),
{
    if m.pending_requests.contains_key(key) {
        let timer = m.pending_requests[key];
        assert(sound_request(timer));
        if timer.expected_acks > 1 {
            let next = m.with_pending(key, (timer.expected_acks - 1) as u32, timer.to_forward);
            follow_ack_is_sound(next, after);
        } else {
            follow_ack_is_sound(m.without_pending(key), after);
        }
    }
}

proof fn follow_join_is_sound(m: ModeratorView, reply: Option<MessageView>, id: u32)
    requires
        sound_requests(m.pending_requests),
        sound_reply(reply),
    ensures
        m.can_follow_join(reply),
        sound(m.follow_join(reply, id).0),
        in_step(m.follow_join(reply, id).0, m.follow_join(reply, id).1),
        steps_left(m.follow_join(reply, id).0) <= 2,
{
    if let Some(r) = reply {
        count_ack_is_sound(m, r.id(), AfterAckView::Done);
        count_ack_is_sound(
            m,
            r.id(),
            AfterAckView::Invite { join: m.join_request(r, id), id },
        );
    }
}

/// A moderator that nothing is pending for has sound requests.
pub proof fn new_moderator_is_sound(m: ModeratorView)
    requires
        m.pending_requests == Map::<u32, ChannelTimerView>::empty(),
        m.waiting is None,
    ensures
        sound(m),
{
}

/// A message with a session header is accepted by a moderator whose requests are sound,
/// and starts a run that has all it needs. A discovery reply and a join reply have to
/// name their source, a discovery reply the connection that it came in on as well, and a
/// leave request its destination where there is a group. To join the channel, the texts
/// of its name have to be known.
pub proof fn message_starts_a_run(m: ModeratorView, msg: MessageView, id: u32)
    requires
        sound_requests(m.pending_requests),
        msg.session_header() is Some,
        msg.kind() == SessionMessageType::ChannelDiscoveryReply ==> msg.has_source()
            && msg.has_incoming_conn() && (m.endpoint.subscribed
            || m.endpoint.channel_name.strings is Some),
        msg.kind() == SessionMessageType::ChannelJoinReply ==> msg.has_source(),
        msg.kind() == SessionMessageType::ChannelLeaveRequest && m.endpoint.mls_state is Some
            ==> msg.has_destination(),
    ensures
        m.accepts(msg),
        sound(m.on_message(msg, id).0),
        in_step(m.on_message(msg, id).0, m.on_message(msg, id).1),
        steps_left(m.on_message(msg, id).0) <= 6,
{
    count_ack_is_sound(m, msg.id(), AfterAckView::Done);
    if msg.kind() == SessionMessageType::ChannelJoinReply {
        count_ack_is_sound(m, msg.id(), AfterAckView::Add { msg });
    }
    if msg.kind() == SessionMessageType::ChannelDiscoveryReply {
        follow_join_is_sound(m.connected(msg), Some(msg), id);
    }
}

/// A run goes on with every outcome that can come of its last step, and comes to its end:
/// each step leaves fewer to take. The pending requests stay sound.
pub proof fn run_comes_to_its_end(m: ModeratorView, outcome: OutcomeView, id: u32)
    requires
        sound(m),
        m.waiting is Some,
        answers_task(m.waiting->0, outcome),
        within_limits(m, outcome),
    ensures
        m.can_resume(outcome),
        sound(m.resume(outcome, id).0),
        in_step(m.resume(outcome, id).0, m.resume(outcome, id).1),
        steps_left(m.resume(outcome, id).0) < steps_left(m),
{
    match m.waiting->0 {
        ModeratorTaskView::Forward { msg, after } => {
            follow_ack_is_sound(m, after);
            follow_ack_is_sound(m.with_pending(msg.id(), 1, None), after);
        },
        ModeratorTaskView::Route { reply } => {
            follow_join_is_sound(m, reply, id);
        },
        ModeratorTaskView::CreateGroup { reply } => {
            follow_join_is_sound(m, reply, id);
        },
        _ => {},
    }
}

/// A message that could not be sent ends the run with the error that came. No request is
/// pending for it, and no timer is touched.
pub proof fn failed_send_ends_the_run(m: ModeratorView, e: SessionErrorView, id: u32)
    requires
        m.waiting is Some,
    ensures
        m.resume(OutcomeView::Sent(Err(e)), id) == m.finish(Err(e)),
        m.resume(OutcomeView::Sent(Err(e)), id).0.pending_requests == m.pending_requests,
        m.resume(OutcomeView::Sent(Err(e)), id).1.timers.len() == 0,
{
}

/// A message of a kind that is not for a moderator is refused, and nothing changes.
pub proof fn strange_messages_change_nothing(m: ModeratorView, msg: MessageView, id: u32)
    requires
        msg.session_header() is Some,
        msg.kind() != SessionMessageType::ChannelDiscoveryRequest,
        msg.kind() != SessionMessageType::ChannelDiscoveryReply,
        msg.kind() != SessionMessageType::ChannelJoinReply,
        msg.kind() != SessionMessageType::ChannelMlsAck,
        msg.kind() != SessionMessageType::ChannelLeaveRequest,
        msg.kind() != SessionMessageType::ChannelLeaveReply,
    ensures
        m.accepts(msg),
        m.on_message(msg, id).0 == (ModeratorView { waiting: None, ..m }),
        m.on_message(msg, id).1.next matches NextView::Finish(
            Err(SessionErrorView::Processing(_)),
        ),
{
}

/// An acknowledgement or an answer that nothing is pending for is refused, and nothing
/// changes.
pub proof fn unexpected_answers_change_nothing(m: ModeratorView, msg: MessageView, id: u32)
    requires
        msg.session_header() is Some,
        msg.kind() == SessionMessageType::ChannelJoinReply ==> msg.has_source(),
        msg.kind() == SessionMessageType::ChannelJoinReply || msg.kind()
            == SessionMessageType::ChannelMlsAck || msg.kind()
            == SessionMessageType::ChannelLeaveReply,
        !m.pending_requests.contains_key(msg.id()),
    ensures
        m.accepts(msg),
        m.on_message(msg, id) == m.finish(
            Err(SessionErrorView::TimerNotFound(crate::text::decimal(msg.id() as nat))),
        ),
{
}

/// Whether two moderators are made with the same names, session and settings.
pub open spec fn same_making(a: ModeratorView, b: ModeratorView) -> bool {
    &&& a.endpoint.name == b.endpoint.name
    &&& a.endpoint.channel_name == b.endpoint.channel_name
    &&& a.endpoint.channel_id == b.endpoint.channel_id
    &&& a.endpoint.session_id == b.endpoint.session_id
    &&& a.endpoint.session_type == b.endpoint.session_type
    &&& a.endpoint.mls_state is Some == b.endpoint.mls_state is Some
    &&& a.max_retries == b.max_retries
    &&& a.retries_interval == b.retries_interval
    &&& a.invite_payload == b.invite_payload
}

/// What a moderator was made with never changes: its name, the channel, the session, the
/// settings of its timers and the payload of its join requests.
pub proof fn moderator_stays_as_it_was_made(
    m: ModeratorView,
    msg: MessageView,
    outcome: OutcomeView,
    id: u32,
)
    requires
        m.can_resume(outcome),
    ensures
        same_making(m, m.on_message(msg, id).0),
        same_making(m, m.resume(outcome, id).0),
        same_making(m, m.join(None, id).0),
{
}

/// The channel is subscribed to only once. A step that marks the moderator as subscribed
/// sends the subscription, and a moderator that is subscribed stays so. The group is
/// created only after that.
pub proof fn moderator_subscribes_once(
    m: ModeratorView,
    msg: MessageView,
    outcome: OutcomeView,
    id: u32,
)
    requires
        m.can_resume(outcome),
    ensures
        m.endpoint.subscribed ==> {
            &&& m.on_message(msg, id).0.endpoint.subscribed
            &&& m.resume(outcome, id).0.endpoint.subscribed
            &&& m.join(None, id) == m.finish(Ok(()))
        },
        !m.endpoint.subscribed ==> {
            &&& m.on_message(msg, id).0.endpoint.subscribed ==> m.on_message(msg, id).1
                == StepView::send(m.connected(msg).endpoint.subscription())
            &&& !m.resume(outcome, id).0.endpoint.subscribed
        },
        m.on_message(msg, id).1.next != NextView::Mls(MlsRequestView::CreateGroup),
        m.resume(outcome, id).1.next == NextView::Mls(MlsRequestView::CreateGroup)
            ==> m.waiting->0 is Route,
{
}

/// The changes of the group are numbered without gaps: a step either makes no change and
/// keeps the number, or makes one and takes the next number.
pub proof fn changes_are_numbered(
    m: ModeratorView,
    msg: MessageView,
    outcome: OutcomeView,
    id: u32,
)
    requires
        m.can_resume(outcome),
    ensures
        m.on_message(msg, id).0.mls_msg_id == m.mls_msg_id,
        m.resume(outcome, id).0.mls_msg_id == if (outcome matches OutcomeView::MemberAdded(Ok(_)))
            || (outcome matches OutcomeView::MemberRemoved(Ok(_))) {
            m.mls_msg_id + 1
        } else {
            m.mls_msg_id as int
        },
{
}

/// A participant that is added and then removed leaves no trace, and others are not
/// touched by either.
pub proof fn removing_undoes_adding(mls: MlsView, key: AgentKey, other: AgentKey, identity: Seq<u8>)
    requires
        !mls.participants.contains_key(key),
        other != key,
    ensures
        mls.with_participant(key, identity).without_participant(key) == mls,
        mls.with_participant(key, identity).participants.contains_key(other)
            == mls.participants.contains_key(other),
        mls.with_participant(key, identity).participants[key] == identity,
{
    assert(mls.with_participant(key, identity).without_participant(key).participants
        =~= mls.participants);
}

/// A removal is to be acknowledged by one more than are left in the group: by all that
/// were in it before, the removed participant among them. Only then is the leave request
/// forwarded.
pub proof fn removal_is_acknowledged_by_all(
    m: ModeratorView,
    mls: MlsView,
    msg: MessageView,
    change: Seq<u8>,
    id: u32,
)
    requires
        m.endpoint.mls_state == Some(mls),
        m.waiting == Some(ModeratorTaskView::RemoveMember { msg }),
        mls.participants.dom().finite(),
        m.can_resume(OutcomeView::MemberRemoved(Ok(change))),
    ensures
        ({
            let (q, step) = m.resume(OutcomeView::MemberRemoved(Ok(change)), id);
            let (end, last) = q.resume(OutcomeView::Sent(Ok(())), id);
            let left = mls.participants.remove(msg.destination_agent().key());
            let commit = m.endpoint.broadcast(
                SessionMessageType::ChannelMlsCommit,
                q.mls_msg_id,
                change,
            );
            &&& q.mls_msg_id == m.mls_msg_id + 1
            &&& step == StepView::send(commit)
            &&& last.next == NextView::Finish(Ok(()))
            &&& last.timers == seq![m.timer(q.mls_msg_id, commit)]
            &&& end.pending_requests == m.pending_requests.insert(
                q.mls_msg_id,
                ChannelTimerView {
                    expected_acks: (left.len() + 1) as u32,
                    to_forward: Some(msg),
                },
            )
            &&& mls.participants.contains_key(msg.destination_agent().key()) ==> left.len() + 1
                == mls.participants.len()
        }),
{
    let key = msg.destination_agent().key();
    assert(mls.participants.remove(key).dom() =~= mls.participants.dom().remove(key));
    let (q, step) = m.resume(OutcomeView::MemberRemoved(Ok(change)), id);
    let (end, last) = q.resume(OutcomeView::Sent(Ok(())), id);
    assert(last.timers =~= seq![m.timer(q.mls_msg_id, step.next->Send_0)]);
}

/// With keys, a leave request is forwarded only when the last of all that were in the
/// group has acknowledged the removal: every earlier acknowledgement sends nothing.
pub proof fn leave_request_waits_for_all(
    m: ModeratorView,
    mls: MlsView,
    msg: MessageView,
    change: Seq<u8>,
    id: u32,
    n: nat,
)
    requires
        m.endpoint.mls_state == Some(mls),
        m.waiting == Some(ModeratorTaskView::RemoveMember { msg }),
        mls.participants.dom().finite(),
        m.can_resume(OutcomeView::MemberRemoved(Ok(change))),
        n <= mls.participants.remove(msg.destination_agent().key()).len(),
    ensures
        ({
            let q = m.resume(OutcomeView::MemberRemoved(Ok(change)), id).0;
            let end = q.resume(OutcomeView::Sent(Ok(())), id).0;
            let left = mls.participants.remove(msg.destination_agent().key());
            let (r, step) = after_acks(end, q.mls_msg_id, n).count_ack(
                q.mls_msg_id,
                AfterAckView::Done,
            );
            if n < left.len() {
                step == StepView::finish(Ok(())) && r.pending_requests.contains_key(q.mls_msg_id)
            } else {
                &&& step.next == NextView::Send(msg)
                &&& step.timers == seq![TimerOpView::Stop { key: q.mls_msg_id }]
                &&& !r.pending_requests.contains_key(q.mls_msg_id)
            }
        }),
{
    removal_is_acknowledged_by_all(m, mls, msg, change, id);
    let q = m.resume(OutcomeView::MemberRemoved(Ok(change)), id).0;
    let end = q.resume(OutcomeView::Sent(Ok(())), id).0;
    all_acknowledgements_are_waited_for(end, q.mls_msg_id, n);
}

/// A participant that was added is welcomed, and the change of the group goes to the
/// others, if there are any: each has to acknowledge what it was sent. A participant
/// that was in the group already is not counted twice.
pub proof fn addition_is_acknowledged_by_all(
    m: ModeratorView,
    mls: MlsView,
    msg: MessageView,
    added: AddedMemberView,
    id: u32,
    other_id: u32,
)
    requires
        m.endpoint.mls_state == Some(mls),
        m.waiting == Some(ModeratorTaskView::AddMember { msg }),
        mls.participants.dom().finite(),
        m.can_resume(OutcomeView::MemberAdded(Ok(added))),
    ensures
        ({
            let (q, step) = m.resume(OutcomeView::MemberAdded(Ok(added)), id);
            let (r, next) = q.resume(OutcomeView::Sent(Ok(())), other_id);
            let (end, last) = r.resume(OutcomeView::Sent(Ok(())), other_id);
            let grown = mls.participants.insert(msg.source().key(), added.member_identity);
            let commit = m.endpoint.broadcast(
                SessionMessageType::ChannelMlsCommit,
                q.mls_msg_id,
                added.commit_message,
            );
            let welcomed = m.pending_requests.insert(
                id,
                ChannelTimerView { expected_acks: 1, to_forward: None },
            );
            &&& step.next is Send
            &&& next.timers == seq![m.timer(id, step.next->Send_0)]
            &&& r.pending_requests == welcomed
            &&& grown.len() == if mls.participants.contains_key(msg.source().key()) {
                mls.participants.len()
            } else {
                mls.participants.len() + 1
            }
            &&& grown.len() >= 1
            &&& grown.len() == 1 ==> next.next == NextView::Finish(Ok(()))
            &&& grown.len() > 1 ==> {
                &&& next.next == NextView::Send(commit)
                &&& last.next == NextView::Finish(Ok(()))
                &&& last.timers == seq![m.timer(q.mls_msg_id, commit)]
                &&& end.pending_requests == welcomed.insert(
                    q.mls_msg_id,
                    ChannelTimerView {
                        expected_acks: (grown.len() - 1) as u32,
                        to_forward: None,
                    },
                )
            }
        }),
{
    let key = msg.source().key();
    let grown = mls.participants.insert(key, added.member_identity);
    assert(grown.dom() =~= mls.participants.dom().insert(key));
    if mls.participants.contains_key(key) {
        assert(grown.dom() =~= mls.participants.dom());
        if grown.dom().len() == 0 {
            assert(grown.dom() =~= Set::empty());
            assert(grown.dom().contains(key));
        }
    }
    let (q, step) = m.resume(OutcomeView::MemberAdded(Ok(added)), id);
    let (r, next) = q.resume(OutcomeView::Sent(Ok(())), other_id);
    let (end, last) = r.resume(OutcomeView::Sent(Ok(())), other_id);
    assert(next.timers =~= seq![m.timer(id, step.next->Send_0)]);
    if grown.len() > 1 {
        assert(last.timers =~= seq![m.timer(q.mls_msg_id, next.next->Send_0)]);
    }
}

/// An invitation is understood: a participant that reads a join request of the moderator
/// finds the channel and the moderator that the payload was made with, and a request for
/// a key package exactly where the moderator has a group.
pub proof fn invitation_is_understood(
    m: ModeratorView,
    reply: MessageView,
    id: u32,
    names: JoinPayloadView,
    read: Result<JoinPayloadView, SessionErrorView>,
)
    requires
        JoinPayloadView::read(m.invite_payload) == Some(names),
    ensures
        crate::participant_model::reads_names(m.join_request(reply, id), read) <==> read
            == Ok::<JoinPayloadView, SessionErrorView>(names),
        crate::participant_model::is_join_request(m.join_request(reply, id)),
        m.join_request(reply, id).id() == id,
        m.join_request(reply, id).destination_agent().same(reply.source()),
        m.join_request(reply, id).metadata.contains_key(METADATA_MLS_ENABLED@)
            == m.endpoint.mls_state is Some,
{
    control_messages_belong_to_the_session(
        m.endpoint,
        reply.source(),
        SessionMessageType::ChannelJoinRequest,
        id,
        m.invite_payload,
    );
}

/// A welcome is understood: a participant that has not been welcomed before takes over
/// the number of the change that it was added with. So the next change that the
/// moderator makes is the next one for the participant.
pub proof fn welcome_is_understood(
    m: ModeratorView,
    msg: MessageView,
    added: AddedMemberView,
    id: u32,
    p: MlsView,
)
    requires
        m.can_add(msg, added),
        p.last_commit_id == 0,
    ensures
        ({
            let (q, step) = m.on_added(msg, added, id);
            &&& step.next matches NextView::Send(welcome) && {
                &&& welcome.kind() == SessionMessageType::ChannelMlsWelcome
                &&& welcome.destination_agent().same(msg.source())
                &&& p.welcome(welcome) == Ok::<Option<Seq<u8>>, SessionErrorView>(
                    Some(added.welcome_message),
                )
                &&& p.after_welcome(welcome).last_commit_id == q.mls_msg_id
                &&& p.after_welcome(welcome).last_commit_id != 0
            }
        }),
{
    let (q, step) = m.on_added(msg, added, id);
    crate::text::decimal_reads_back(q.mls_msg_id);
    control_messages_belong_to_the_session(
        q.endpoint,
        msg.source(),
        SessionMessageType::ChannelMlsWelcome,
        id,
        added.welcome_message,
    );
}

/// A change is understood: the commit of the next change that a moderator makes is the
/// next one for a participant that knows the one before it.
pub proof fn next_change_is_understood(
    m: ModeratorView,
    msg: MessageView,
    added: AddedMemberView,
    leave: MessageView,
    change: Seq<u8>,
    id: u32,
    p: MlsView,
)
    requires
        p.last_commit_id == m.mls_msg_id,
        p.last_commit_id != 0,
        m.mls_msg_id < u32::MAX,
    ensures
        m.on_added(msg, added, id).0.waiting matches Some(
            ModeratorTaskView::SendWelcome { commit, .. },
        ) && p.commit(commit) == Ok::<Seq<u8>, SessionErrorView>(added.commit_message)
            && p.after_commit(commit).last_commit_id == m.on_added(msg, added, id).0.mls_msg_id,
        m.on_removed(leave, change).1.next matches NextView::Send(commit) && p.commit(commit)
            == Ok::<Seq<u8>, SessionErrorView>(change) && p.after_commit(commit).last_commit_id
            == m.on_removed(leave, change).0.mls_msg_id,
{
}

/// A discovery reply, where all messages can be sent and the group can be created: the
/// channel is joined, where it is not yet; then the agent is invited, and the invitation
/// is pending in place of the discovery. To a moderator that is subscribed already the
/// invitation is all there is to send.
pub proof fn inviting_an_agent(m: ModeratorView, reply: MessageView, ids: Seq<u32>)
    requires
        m.accepts(reply),
        reply.kind() == SessionMessageType::ChannelDiscoveryReply,
        reply.can_answer(),
        m.pending_requests.contains_key(reply.id()),
        m.pending_requests[reply.id()].expected_acks <= 1,
        m.pending_requests[reply.id()].to_forward is None,
        ids.len() == 5,
    ensures
        ({
            let sent = OutcomeView::Sent(Ok(()));
            let connected = m.connected(reply);
            let e = connected.endpoint;
            let a = m.on_message(reply, ids[0]);
            let b = a.0.resume(sent, ids[1]);
            let c = b.0.resume(sent, ids[2]);
            let (d, id) = if m.endpoint.subscribed {
                (a, ids[0])
            } else if m.endpoint.mls_state is Some {
                (c.0.resume(OutcomeView::GroupCreated(Ok(())), ids[3]), ids[3])
            } else {
                (c, ids[2])
            };
            let end = d.0.resume(sent, ids[4]);
            let invitation = connected.join_request(reply, id);
            &&& !m.endpoint.subscribed ==> {
                &&& a.1 == StepView::send(e.subscription())
                &&& b.1 == StepView::send(e.route(e.channel_name, None))
                &&& m.endpoint.mls_state is Some ==> c.1 == StepView::ask(
                    MlsRequestView::CreateGroup,
                )
            }
            &&& d.1.next == NextView::Send(invitation)
            &&& d.1.timers == seq![
                TimerOpView::Stop { key: reply.id() },
                m.timer(id, invitation),
            ]
            &&& end.1 == StepView::finish(Ok(()))
            &&& end.0.pending_requests == m.pending_requests.remove(reply.id()).insert(
                id,
                ChannelTimerView { expected_acks: 1, to_forward: None },
            )
            &&& end.0.endpoint == (EndpointView { subscribed: true, ..e })
            &&& end.0.waiting is None
        }),
{
    let sent = OutcomeView::Sent(Ok(()));
    let a = m.on_message(reply, ids[0]);
    let b = a.0.resume(sent, ids[1]);
    let c = b.0.resume(sent, ids[2]);
    let (d, id) = if m.endpoint.subscribed {
        (a, ids[0])
    } else if m.endpoint.mls_state is Some {
        (c.0.resume(OutcomeView::GroupCreated(Ok(())), ids[3]), ids[3])
    } else {
        (c, ids[2])
    };
    let invitation = m.connected(reply).join_request(reply, id);
    assert(d.1.timers =~= seq![TimerOpView::Stop { key: reply.id() }, m.timer(id, invitation)]);
}

/// The answer of a participant settles the request that it answers: it is accepted, the
/// request is no longer pending, and its timer is stopped.
pub proof fn answers_settle_requests(
    m: ModeratorView,
    e: EndpointView,
    request: MessageView,
    kind: SessionMessageType,
    payload: Seq<u8>,
    id: u32,
)
    requires
        request.can_answer(),
        kind == SessionMessageType::ChannelJoinReply || kind == SessionMessageType::ChannelMlsAck
            || kind == SessionMessageType::ChannelLeaveReply,
        m.pending_requests.contains_key(request.id()),
        m.pending_requests[request.id()].expected_acks <= 1,
        m.pending_requests[request.id()].to_forward is None,
    ensures
        ({
            let reply = e.answer(request, kind, payload);
            let (q, step) = m.on_message(reply, id);
            &&& m.accepts(reply)
            &&& q.pending_requests == m.pending_requests.remove(request.id())
            &&& step.timers == seq![TimerOpView::Stop { key: request.id() }]
            &&& kind == SessionMessageType::ChannelJoinReply && m.endpoint.mls_state is Some
                ==> step.next == NextView::Mls(MlsRequestView::AddMember(payload))
            &&& kind != SessionMessageType::ChannelJoinReply || m.endpoint.mls_state is None
                ==> step.next == NextView::Finish(Ok(()))
        }),
{
    let reply = e.answer(request, kind, payload);
    control_messages_belong_to_the_session(e, request.source(), kind, request.id(), payload);
    let (q, step) = m.on_message(reply, id);
    assert(step.timers =~= seq![TimerOpView::Stop { key: request.id() }]);
}

/// Without keys, a leave request is forwarded at once, and is pending until it is
/// answered.
pub proof fn leaving_without_keys(m: ModeratorView, msg: MessageView, id: u32)
    requires
        msg.session_header() is Some,
        msg.kind() == SessionMessageType::ChannelLeaveRequest,
        m.endpoint.mls_state is None,
    ensures
        ({
            let (q, step) = m.on_message(msg, id);
            let (end, last) = q.resume(OutcomeView::Sent(Ok(())), id);
            &&& step == StepView::send(msg)
            &&& last.next == NextView::Finish(Ok(()))
            &&& last.timers == seq![m.timer(msg.id(), msg)]
            &&& end.pending_requests == m.pending_requests.insert(
                msg.id(),
                ChannelTimerView { expected_acks: 1, to_forward: None },
            )
        }),
{
    let (q, step) = m.on_message(msg, id);
    let (end, last) = q.resume(OutcomeView::Sent(Ok(())), id);
    assert(last.timers =~= seq![m.timer(msg.id(), msg)]);
}

} // verus!
