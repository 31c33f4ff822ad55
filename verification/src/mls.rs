//! The state of an endpoint in a group that shares keys.
//!
//! The keys themselves are kept by the group key engine. A function that needs the
//! engine comes in two parts: one that says what to ask it, and one that takes its
//! answer.

use vstd::prelude::*;
use vstd::string::*;

use crate::encoder::{Agent, AgentKey};
use crate::message::{MessageView, ProtoMessage};
use crate::session::{
    AddedMember, SessionError, SessionErrorView, METADATA_MLS_INIT_COMMIT_ID,
};
use crate::table::Table;
use crate::text::parse_u32;

verus! {

/// The model of the state in a group.
#[verifier::ext_equal]
pub struct MlsView {
    pub group: Seq<u8>,
    pub last_commit_id: u32,
    pub participants: Map<AgentKey, Seq<u8>>,
}

/// The state in a group.
#[derive(Debug)]
pub struct MlsState {
    /// The id of the group.
    pub group: Vec<u8>,
    /// The last change of the group that was followed; 0 before a welcome message.
    pub last_commit_id: u32,
    /// The participants, with what each is removed by. Only a moderator uses it.
    pub participants: Table<Agent, Vec<u8>>,
}

impl View for MlsState {
    type V = MlsView;

    open spec fn view(&self) -> MlsView {
        MlsView {
            group: self.group@,
            last_commit_id: self.last_commit_id,
            participants: self.participants@,
        }
    }
}

/// The commit that a welcome message starts from, where it says so in a way that can
/// be read.
pub open spec fn init_commit_id(msg: MessageView) -> Result<u32, SessionErrorView> {
    if !msg.metadata.contains_key(METADATA_MLS_INIT_COMMIT_ID@) {
        Err(
            SessionErrorView::WelcomeMessage(
                "received welcome message without commit id, drop it"@,
            ),
        )
    } else {
        match crate::text::parsed_u32(msg.metadata[METADATA_MLS_INIT_COMMIT_ID@]) {
            Some(id) => Ok(id),
            None => Err(
                SessionErrorView::WelcomeMessage(
                    "received welcome message with invalid commit id, drop it"@,
                ),
            ),
        }
    }
}

impl MlsView {
    /// The state before any message.
    pub open spec fn initial() -> MlsView {
        MlsView { group: Seq::empty(), last_commit_id: 0, participants: Map::empty() }
    }

    /// Whether the payload of a welcome message is looked at: no other came before it, and
    /// its commit id can be read.
    pub open spec fn reads_welcome(self, msg: MessageView) -> bool {
        self.last_commit_id == 0 && init_commit_id(msg) is Ok
    }

    /// The state after a welcome message has come in. The commit id is taken over
    /// before the payload is looked at.
    pub open spec fn after_welcome(self, msg: MessageView) -> MlsView {
        match init_commit_id(msg) {
            Ok(id) if self.last_commit_id == 0 => MlsView { last_commit_id: id, ..self },
            _ => self,
        }
    }

    /// What a welcome message has the engine do: nothing where one came before it,
    /// else enter the group of its payload.
    pub open spec fn welcome(self, msg: MessageView) -> Result<Option<Seq<u8>>, SessionErrorView> {
        if self.last_commit_id != 0 {
            Ok(None)
        } else {
            match (init_commit_id(msg), msg.payload()) {
                (Err(e), _) => Err(e),
                (Ok(_), None) => Err(
                    SessionErrorView::WelcomeMessage(
                        "missing payload in MLS welcome, cannot join the group"@,
                    ),
                ),
                (Ok(_), Some(content)) => Ok(Some(content.blob)),
            }
        }
    }

    /// Whether a commit message is the next one: it comes after a welcome message, and
    /// its id follows the last one.
    pub open spec fn is_next_commit(self, msg: MessageView) -> bool {
        self.last_commit_id != 0 && msg.id() == self.last_commit_id + 1
    }

    /// The state after a commit message has come in.
    pub open spec fn after_commit(self, msg: MessageView) -> MlsView {
        if self.is_next_commit(msg) {
            MlsView { last_commit_id: msg.id(), ..self }
        } else {
            self
        }
    }

    /// The change that a commit message has the engine follow.
    pub open spec fn commit(self, msg: MessageView) -> Result<Seq<u8>, SessionErrorView> {
        if self.last_commit_id == 0 {
            Err(SessionErrorView::CommitMessage("welcome message not received yet, drop commit"@))
        } else if !self.is_next_commit(msg) {
            Err(SessionErrorView::CommitMessage("unexpected commit id, drop message"@))
        } else {
            match msg.payload() {
                None => Err(
                    SessionErrorView::CommitMessage(
                        "missing payload in MLS commit, cannot process the commit"@,
                    ),
                ),
                Some(content) => Ok(content.blob),
            }
        }
    }

    /// The state with a participant.
    pub open spec fn with_participant(self, participant: AgentKey, identity: Seq<u8>) -> MlsView {
        MlsView { participants: self.participants.insert(participant, identity), ..self }
    }

    /// The state without a participant.
    pub open spec fn without_participant(self, participant: AgentKey) -> MlsView {
        MlsView { participants: self.participants.remove(participant), ..self }
    }
}

/// The key package of a message that asks to be added.
pub open spec fn key_package(msg: MessageView) -> Result<Seq<u8>, SessionErrorView> {
    match msg.payload() {
        None => Err(
            SessionErrorView::AddParticipant(
                "key package is missing. the end point cannot be added to the channel"@,
            ),
        ),
        Some(content) => Ok(content.blob),
    }
}

impl MlsState {
    /// The state before any message, once the engine has been initialized.
    pub fn new(initialized: Result<(), String>) -> (r: Result<MlsState, SessionError>)
        ensures
            match (initialized, r) {
                (Ok(_), Ok(state)) => state@ == MlsView::initial(),
                (Err(e), Err(error)) => error@ == SessionErrorView::MLSInit(e@),
                _ => false,
            },
    {
        match initialized {
            Ok(_) => Ok(
                MlsState { group: Vec::new(), last_commit_id: 0, participants: Table::new() },
            ),
            Err(e) => Err(SessionError::MLSInit(e)),
        }
    }

    /// Takes in a welcome message. What the engine is to process is handed out, where
    /// this is the first such message.
    pub fn process_welcome_message(&mut self, msg: &ProtoMessage) -> (r: Result<
        Option<Vec<u8>>,
        SessionError,
    >)
        requires
            old(self)@.reads_welcome(msg@) ==> msg@.is_publish(),
        ensures
            final(self)@ == old(self)@.after_welcome(msg@),
            match (r, old(self)@.welcome(msg@)) {
                (Ok(None), Ok(None)) => true,
                (Ok(Some(welcome)), Ok(Some(blob))) => welcome@ == blob,
                (Err(e), Err(error)) => e@ == error,
                _ => false,
            },
    {
        if self.last_commit_id != 0 {
            return Ok(None);
        }
        self.last_commit_id = match msg.get_metadata(METADATA_MLS_INIT_COMMIT_ID) {
            Some(text) => match parse_u32(text.as_str()) {
                Some(id) => id,
                None => {
                    return Err(
                        SessionError::WelcomeMessage(
                            "received welcome message with invalid commit id, drop it".to_owned(),
                        ),
                    )
                },
            },
            None => {
                return Err(
                    SessionError::WelcomeMessage(
                        "received welcome message without commit id, drop it".to_owned(),
                    ),
                )
            },
        };
        match msg.get_payload() {
            Some(content) => {
                let welcome = content.clone().blob;
                Ok(Some(welcome))
            },
            None => Err(
                SessionError::WelcomeMessage(
                    "missing payload in MLS welcome, cannot join the group".to_owned(),
                ),
            ),
        }
    }

    /// Takes in what the engine made of a welcome message.
    pub fn welcome_processed(&mut self, processed: Result<Vec<u8>, String>) -> (r: Result<
        (),
        SessionError,
    >)
        ensures
            match (processed, r) {
                (Ok(group), Ok(_)) => final(self)@ == (MlsView { group: group@, ..old(self)@ }),
                (Err(e), Err(error)) => final(self)@ == old(self)@ && error@
                    == SessionErrorView::WelcomeMessage(e@),
                _ => false,
            },
    {
        match processed {
            Ok(group) => {
                self.group = group;
                Ok(())
            },
            Err(e) => Err(SessionError::WelcomeMessage(e)),
        }
    }

    /// Takes in a commit message. The change that the engine is to follow is handed out,
    /// where it is the next one; any other can be dropped, as the moderator sends it
    /// again if it is needed.
    pub fn process_commit_message(&mut self, msg: &ProtoMessage) -> (r: Result<
        Vec<u8>,
        SessionError,
    >)
        requires
            old(self)@.last_commit_id != 0 ==> msg@.session_header() is Some,
            old(self)@.last_commit_id < u32::MAX,
        ensures
            final(self)@ == old(self)@.after_commit(msg@),
            match (r, old(self)@.commit(msg@)) {
                (Ok(commit), Ok(blob)) => commit@ == blob,
                (Err(e), Err(error)) => e@ == error,
                _ => false,
            },
    {
        if self.last_commit_id == 0 {
            return Err(
                SessionError::CommitMessage(
                    "welcome message not received yet, drop commit".to_owned(),
                ),
            );
        }
        let msg_id: u32 = msg.get_id();
        if msg_id == self.last_commit_id + 1 {
            self.last_commit_id = self.last_commit_id + 1;
        } else {
            return Err(
                SessionError::CommitMessage("unexpected commit id, drop message".to_owned()),
            );
        }
        match msg.get_payload() {
            Some(content) => Ok(content.clone().blob),
            None => Err(
                SessionError::CommitMessage(
                    "missing payload in MLS commit, cannot process the commit".to_owned(),
                ),
            ),
        }
    }

    /// The key package of a message that asks to be added.
    pub fn add_participant(&self, msg: &ProtoMessage) -> (r: Result<Vec<u8>, SessionError>)
        requires
            msg@.is_publish(),
        ensures
            match (r, key_package(msg@)) {
                (Ok(package), Ok(blob)) => package@ == blob,
                (Err(e), Err(error)) => e@ == error,
                _ => false,
            },
    {
        match msg.get_payload() {
            Some(content) => Ok(content.clone().blob),
            None => Err(
                SessionError::AddParticipant(
                    "key package is missing. the end point cannot be added to the channel".to_owned(),
                ),
            ),
        }
    }

    /// Takes in the participant that the engine has added for a message. The change of
    /// the group and the welcome are handed out.
    pub fn participant_added(&mut self, msg: &ProtoMessage, added: AddedMember) -> (r: (
        Vec<u8>,
        Vec<u8>,
    ))
        requires
            msg@.has_source(),
        ensures
            final(self)@ == old(self)@.with_participant(
                msg@.source().key(),
                added.member_identity@,
            ),
            r.0@ == added.commit_message@,
            r.1@ == added.welcome_message@,
    {
        self.participants.insert(msg.get_source(), added.member_identity);
        (added.commit_message, added.welcome_message)
    }

    /// What the participant that a message names is removed by.
    pub fn remove_participant(&self, msg: &ProtoMessage) -> (r: Result<Vec<u8>, SessionError>)
        requires
            msg@.has_destination(),
        ensures
            match r {
                Ok(identity) => {
                    &&& self@.participants.contains_key(msg@.destination_agent().key())
                    &&& identity@ == self@.participants[msg@.destination_agent().key()]
                },
                Err(e) => {
                    &&& !self@.participants.contains_key(msg@.destination_agent().key())
                    &&& e@ == SessionErrorView::RemoveParticipant("participant does not exists"@)
                },
            },
    {
        let name = msg.get_name_as_agent();
        match self.participants.get(&name) {
            Some(id) => {
                let identity = id.clone();
                assert(identity@ =~= id@);
                Ok(identity)
            },
            None => Err(
                SessionError::RemoveParticipant("participant does not exists".to_owned()),
            ),
        }
    }

    /// Takes out the participant that a message names, once the engine has removed it.
    pub fn participant_removed(&mut self, msg: &ProtoMessage)
        requires
            msg@.has_destination(),
        ensures
            final(self)@ == old(self)@.without_participant(msg@.destination_agent().key()),
    {
        let name = msg.get_name_as_agent();
        self.participants.remove(&name);
    }

    /// What the engine's answer to the creation of a group means.
    pub fn init_moderator(created: Result<(), String>) -> (r: Result<(), SessionError>)
        ensures
            match (created, r) {
                (Ok(_), Ok(_)) => true,
                (Err(e), Err(error)) => error@ == SessionErrorView::MLSInit(e@),
                _ => false,
            },
    {
        match created {
            Ok(_) => Ok(()),
            Err(e) => Err(SessionError::MLSInit(e)),
        }
    }

    /// What the engine's answer to the request for a key package means.
    pub fn generate_key_package(package: Result<Vec<u8>, String>) -> (r: Result<
        Vec<u8>,
        SessionError,
    >)
        ensures
            match (package, r) {
                (Ok(p), Ok(q)) => q@ == p@,
                (Err(e), Err(error)) => error@ == SessionErrorView::MLSInit(e@),
                _ => false,
            },
    {
        match package {
            Ok(p) => Ok(p),
            Err(e) => Err(SessionError::MLSInit(e)),
        }
    }

    /// What the engine's answer to a commit message means.
    pub fn commit_processed(processed: Result<(), String>) -> (r: Result<(), SessionError>)
        ensures
            match (processed, r) {
                (Ok(_), Ok(_)) => true,
                (Err(e), Err(error)) => error@ == SessionErrorView::CommitMessage(e@),
                _ => false,
            },
    {
        match processed {
            Ok(_) => Ok(()),
            Err(e) => Err(SessionError::CommitMessage(e)),
        }
    }
}

} // verus!
