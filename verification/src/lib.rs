//! Messages and channel endpoints of a SLIM session layer.

pub mod bodies;
pub mod channel;
pub mod encoder;
pub mod endpoint;
pub mod endpoint_laws;
pub mod kinds;
pub mod message;
pub mod message_laws;
pub mod mls;
pub mod mls_laws;
pub mod moderator;
pub mod moderator_laws;
pub mod moderator_model;
pub mod moderator_step_laws;
pub mod participant;
pub mod participant_laws;
pub mod participant_model;
pub mod participant_step_laws;
pub mod payload;
pub mod payload_laws;
pub mod proto;
pub mod session;
pub mod session_laws;
pub mod table;
pub mod text;
pub mod text_laws;
