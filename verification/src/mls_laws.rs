//! What holds of the state in a group.

use vstd::prelude::*;

use crate::encoder::AgentKey;
use crate::message::MessageView;
use crate::mls::{MlsState, MlsView};
use crate::session::{SessionErrorView, METADATA_MLS_INIT_COMMIT_ID};

verus! {

/// Before any message there is no group, no change and no participant. The model shows
/// all that the state holds.
pub proof fn groups_start_empty(s: MlsState)
    ensures
        MlsView::initial().group.len() == 0,
        MlsView::initial().last_commit_id == 0,
        MlsView::initial().participants == Map::<AgentKey, Seq<u8>>::empty(),
        s@.group == s.group@,
        s@.last_commit_id == s.last_commit_id,
        s@.participants == s.participants@,
{
}

/// The commit that a welcome message starts from is the number in its metadata. Without
/// it, or where it is no number, the message is refused.
pub proof fn welcome_names_its_commit(msg: MessageView)
    ensures
        !msg.metadata.contains_key(METADATA_MLS_INIT_COMMIT_ID@) ==> crate::mls::init_commit_id(msg)
            == Err::<u32, SessionErrorView>(
            SessionErrorView::WelcomeMessage(
                "received welcome message without commit id, drop it"@,
            ),
        ),
        msg.metadata.contains_key(METADATA_MLS_INIT_COMMIT_ID@) ==> match crate::text::parsed_u32(
            msg.metadata[METADATA_MLS_INIT_COMMIT_ID@],
        ) {
            Some(id) => crate::mls::init_commit_id(msg) == Ok::<u32, SessionErrorView>(id),
            None => crate::mls::init_commit_id(msg) == Err::<u32, SessionErrorView>(
                SessionErrorView::WelcomeMessage(
                    "received welcome message with invalid commit id, drop it"@,
                ),
            ),
        },
{
}

/// The first welcome message with a number has the engine enter the group of its payload,
/// and sets the last commit to that number, even where there is no payload. One without a
/// number is refused and changes nothing. A later one is passed over.
pub proof fn first_welcome_counts(mls: MlsView, msg: MessageView, id: u32, e: SessionErrorView)
    ensures
        mls.last_commit_id != 0 ==> mls.welcome(msg) == Ok::<Option<Seq<u8>>, SessionErrorView>(
            None,
        ) && mls.after_welcome(msg) == mls && !mls.reads_welcome(msg),
        mls.last_commit_id == 0 && crate::mls::init_commit_id(msg) == Err::<u32, SessionErrorView>(
            e,
        ) ==> mls.welcome(msg) == Err::<Option<Seq<u8>>, SessionErrorView>(e)
            && mls.after_welcome(msg) == mls && !mls.reads_welcome(msg),
        mls.last_commit_id == 0 && crate::mls::init_commit_id(msg) == Ok::<u32, SessionErrorView>(
            id,
        ) ==> {
            &&& mls.reads_welcome(msg)
            &&& mls.after_welcome(msg) == (MlsView {
                group: mls.group,
                last_commit_id: id,
                participants: mls.participants,
            })
            &&& msg.payload() matches Some(c) ==> mls.welcome(msg) == Ok::<
                Option<Seq<u8>>,
                SessionErrorView,
            >(Some(c.blob))
            &&& msg.payload() is None ==> mls.welcome(msg) == Err::<
                Option<Seq<u8>>,
                SessionErrorView,
            >(
                SessionErrorView::WelcomeMessage(
                    "missing payload in MLS welcome, cannot join the group"@,
                ),
            )
        },
{
}

/// A commit message before any welcome is refused, and so is one whose id does not follow
/// the last one; neither changes anything. The one that follows is counted, even where it
/// has no payload, and its payload is what the engine is to follow.
pub proof fn next_commit_counts(mls: MlsView, msg: MessageView)
    ensures
        mls.is_next_commit(msg) <==> mls.last_commit_id != 0 && msg.id() == mls.last_commit_id + 1,
        mls.last_commit_id == 0 ==> mls.after_commit(msg) == mls && mls.commit(msg) == Err::<
            Seq<u8>,
            SessionErrorView,
        >(SessionErrorView::CommitMessage("welcome message not received yet, drop commit"@)),
        mls.last_commit_id != 0 && msg.id() != mls.last_commit_id + 1 ==> mls.after_commit(msg)
            == mls && mls.commit(msg) == Err::<Seq<u8>, SessionErrorView>(
            SessionErrorView::CommitMessage("unexpected commit id, drop message"@),
        ),
        mls.last_commit_id != 0 && msg.id() == mls.last_commit_id + 1 ==> {
            &&& mls.after_commit(msg) == (MlsView {
                group: mls.group,
                last_commit_id: (mls.last_commit_id + 1) as u32,
                participants: mls.participants,
            })
            &&& msg.payload() matches Some(c) ==> mls.commit(msg) == Ok::<
                Seq<u8>,
                SessionErrorView,
            >(c.blob)
            &&& msg.payload() is None ==> mls.commit(msg) == Err::<Seq<u8>, SessionErrorView>(
                SessionErrorView::CommitMessage(
                    "missing payload in MLS commit, cannot process the commit"@,
                ),
            )
        },
{
}

/// Adding and removing a participant changes the list of participants at that place, and
/// nothing else. The key package of a message is its payload.
pub proof fn participants_come_and_go(
    mls: MlsView,
    key: AgentKey,
    identity: Seq<u8>,
    msg: MessageView,
)
    ensures
        mls.with_participant(key, identity) == (MlsView {
            group: mls.group,
            last_commit_id: mls.last_commit_id,
            participants: mls.participants.insert(key, identity),
        }),
        mls.without_participant(key) == (MlsView {
            group: mls.group,
            last_commit_id: mls.last_commit_id,
            participants: mls.participants.remove(key),
        }),
        msg.payload() matches Some(c) ==> crate::mls::key_package(msg) == Ok::<
            Seq<u8>,
            SessionErrorView,
        >(c.blob),
        msg.payload() is None ==> crate::mls::key_package(msg) == Err::<Seq<u8>, SessionErrorView>(
            SessionErrorView::AddParticipant(
                "key package is missing. the end point cannot be added to the channel"@,
            ),
        ),
{
}

} // verus!
