//! An endpoint of a channel, of either role.

use vstd::prelude::*;

use crate::message::ProtoMessage;
use crate::moderator::ChannelModerator;
use crate::participant::ChannelParticipant;
use crate::session::{Outcome, Step};

verus! {

/// An endpoint of a channel.
#[derive(Debug)]
pub enum ChannelEndpoint {
    ChannelParticipant(ChannelParticipant),
    ChannelModerator(ChannelModerator),
}

impl ChannelEndpoint {
    /// The first step for a message, as the endpoint's role has it. There is none where
    /// the message lacks what its kind needs.
    pub fn on_message(&mut self, msg: ProtoMessage) -> (r: Option<Step>)
        ensures
            match (*old(self), *final(self)) {
                (
                    ChannelEndpoint::ChannelParticipant(before),
                    ChannelEndpoint::ChannelParticipant(after),
                ) => before@.handles(msg@, crate::session::step_option(r), after@),
                (
                    ChannelEndpoint::ChannelModerator(before),
                    ChannelEndpoint::ChannelModerator(after),
                ) => before@.handles(msg@, crate::session::step_option(r), after@),
                _ => false,
            },
    {
        match self {
            ChannelEndpoint::ChannelParticipant(cp) => cp.on_message(msg),
            ChannelEndpoint::ChannelModerator(cm) => cm.on_message(msg),
        }
    }

    /// The step that follows an outcome, as the endpoint's role has it. There is none
    /// where the outcome is not one that is waited for or what follows it cannot be done.
    pub fn resume(&mut self, outcome: Outcome) -> (r: Option<Step>)
        ensures
            match (*old(self), *final(self)) {
                (
                    ChannelEndpoint::ChannelParticipant(before),
                    ChannelEndpoint::ChannelParticipant(after),
                ) => before@.continues(outcome@, crate::session::step_option(r), after@),
                (
                    ChannelEndpoint::ChannelModerator(before),
                    ChannelEndpoint::ChannelModerator(after),
                ) => before@.continues(outcome@, crate::session::step_option(r), after@),
                _ => false,
            },
    {
        match self {
            ChannelEndpoint::ChannelParticipant(cp) => cp.resume(outcome),
            ChannelEndpoint::ChannelModerator(cm) => cm.resume(outcome),
        }
    }
}

} // verus!
