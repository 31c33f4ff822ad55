//! Names of agents: a type (organization, namespace, type) and an id within it.
//!
//! On the wire each part of a type is a hash of its text. A name keeps the texts
//! where it was made from them; two names are equal when their numbers are.

use std::collections::hash_map::DefaultHasher;
use std::hash::Hasher;
use vstd::prelude::*;
use vstd::std_specs::hash::DefaultHasherAdditionalSpecFns;
use vstd::string::*;

use crate::table::TableKey;

verus! {

/// The id of an agent that is named by its type alone.
pub const DEFAULT_AGENT_ID: u64 = 0xffff_ffff_ffff_ffff;

/// The number that stands for one part of a type's name.
pub open spec fn text_hash(s: Seq<char>) -> u64 {
    DefaultHasher::spec_finish(seq![vstd::utf8::encode_utf8(s), seq![0xffu8]])
}

/// Hashes one part of a type's name.
pub fn calculate_hash(s: &str) -> (r: u64)
    ensures
        r == text_hash(s@),
{
    let mut end: Vec<u8> = Vec::new();
    end.push(0xff);
    let mut hasher = DefaultHasher::new();
    hasher.write(s.as_bytes());
    hasher.write(end.as_slice());
    proof {
        assert(end@ =~= seq![0xffu8]);
        assert(hasher@ =~= seq![vstd::utf8::encode_utf8(s@), seq![0xffu8]]);
    }
    hasher.finish()
}

/// The texts of a type's name.
pub struct TypeStringsView {
    pub organization: Seq<char>,
    pub namespace: Seq<char>,
    pub agent_type: Seq<char>,
}

/// The texts that a type's name was made from.
#[derive(Debug)]
pub struct TypeStrings {
    pub organization: String,
    pub namespace: String,
    pub agent_type: String,
}

impl View for TypeStrings {
    type V = TypeStringsView;

    open spec fn view(&self) -> TypeStringsView {
        TypeStringsView {
            organization: self.organization@,
            namespace: self.namespace@,
            agent_type: self.agent_type@,
        }
    }
}

impl Clone for TypeStrings {
    fn clone(&self) -> (r: Self)
        ensures
            r@ == self@,
    {
        TypeStrings {
            organization: self.organization.clone(),
            namespace: self.namespace.clone(),
            agent_type: self.agent_type.clone(),
        }
    }
}

/// The model of a type's name.
pub struct AgentTypeView {
    pub organization: u64,
    pub namespace: u64,
    pub agent_type: u64,
    pub strings: Option<TypeStringsView>,
}

impl AgentTypeView {
    /// The name made from three texts.
    pub open spec fn from_strings(
        organization: Seq<char>,
        namespace: Seq<char>,
        agent_type: Seq<char>,
    ) -> AgentTypeView {
        AgentTypeView {
            organization: text_hash(organization),
            namespace: text_hash(namespace),
            agent_type: text_hash(agent_type),
            strings: Some(TypeStringsView { organization, namespace, agent_type }),
        }
    }

    /// Whether two names are equal: their numbers are.
    pub open spec fn same(self, other: AgentTypeView) -> bool {
        &&& self.organization == other.organization
        &&& self.namespace == other.namespace
        &&& self.agent_type == other.agent_type
    }

    /// Whether the numbers are those of the texts, where there are texts.
    pub open spec fn hashed(self) -> bool {
        self.strings matches Some(s) ==> {
            &&& self.organization == text_hash(s.organization)
            &&& self.namespace == text_hash(s.namespace)
            &&& self.agent_type == text_hash(s.agent_type)
        }
    }
}

/// The name of a type of agents.
#[derive(Debug)]
pub struct AgentType {
    pub organization: u64,
    pub namespace: u64,
    pub agent_type: u64,
    pub strings: Option<TypeStrings>,
}

impl View for AgentType {
    type V = AgentTypeView;

    open spec fn view(&self) -> AgentTypeView {
        AgentTypeView {
            organization: self.organization,
            namespace: self.namespace,
            agent_type: self.agent_type,
            strings: match self.strings {
                Some(s) => Some(s@),
                None => None,
            },
        }
    }
}

impl Clone for AgentType {
    fn clone(&self) -> (r: Self)
        ensures
            r@ == self@,
    {
        AgentType {
            organization: self.organization,
            namespace: self.namespace,
            agent_type: self.agent_type,
            strings: match &self.strings {
                Some(s) => Some(s.clone()),
                None => None,
            },
        }
    }
}

impl Default for AgentType {
    fn default() -> (r: Self)
        ensures
            r@ == (AgentTypeView { organization: 0, namespace: 0, agent_type: 0, strings: None }),
    {
        AgentType { organization: 0, namespace: 0, agent_type: 0, strings: None }
    }
}

impl PartialEq for AgentType {
    fn eq(&self, other: &Self) -> (r: bool) {
        self.organization == other.organization && self.namespace == other.namespace
            && self.agent_type == other.agent_type
    }
}

impl vstd::std_specs::cmp::PartialEqSpecImpl for AgentType {
    open spec fn obeys_eq_spec() -> bool {
        true
    }

    open spec fn eq_spec(&self, other: &Self) -> bool {
        self@.same(other@)
    }
}

impl Eq for AgentType {

}

impl AgentType {
    /// A name of which only the numbers are known.
    pub fn new(organization: u64, namespace: u64, agent_type: u64) -> (r: Self)
        ensures
            r@ == (AgentTypeView { organization, namespace, agent_type, strings: None }),
    {
        AgentType { organization, namespace, agent_type, strings: None }
    }

    /// The name made from three texts.
    pub fn from_strings(organization: &str, namespace: &str, agent_type: &str) -> (r: Self)
        ensures
            r@ == AgentTypeView::from_strings(organization@, namespace@, agent_type@),
    {
        AgentType {
            organization: calculate_hash(organization),
            namespace: calculate_hash(namespace),
            agent_type: calculate_hash(agent_type),
            strings: Some(
                TypeStrings {
                    organization: organization.to_owned(),
                    namespace: namespace.to_owned(),
                    agent_type: agent_type.to_owned(),
                },
            ),
        }
    }

    pub fn organization(&self) -> (r: u64)
        ensures
            r == self@.organization,
    {
        self.organization
    }

    pub fn namespace(&self) -> (r: u64)
        ensures
            r == self@.namespace,
    {
        self.namespace
    }

    pub fn agent_type(&self) -> (r: u64)
        ensures
            r == self@.agent_type,
    {
        self.agent_type
    }

    /// The organization's text, where it is known.
    pub fn organization_string(&self) -> (r: Option<String>)
        ensures
            match r {
                Some(t) => self@.strings matches Some(s) && t@ == s.organization,
                None => self@.strings is None,
            },
    {
        match &self.strings {
            Some(s) => Some(s.organization.clone()),
            None => None,
        }
    }

    /// The namespace's text, where it is known.
    pub fn namespace_string(&self) -> (r: Option<String>)
        ensures
            match r {
                Some(t) => self@.strings matches Some(s) && t@ == s.namespace,
                None => self@.strings is None,
            },
    {
        match &self.strings {
            Some(s) => Some(s.namespace.clone()),
            None => None,
        }
    }

    /// The type's text, where it is known.
    pub fn agent_type_string(&self) -> (r: Option<String>)
        ensures
            match r {
                Some(t) => self@.strings matches Some(s) && t@ == s.agent_type,
                None => self@.strings is None,
            },
    {
        match &self.strings {
            Some(s) => Some(s.agent_type.clone()),
            None => None,
        }
    }
}

/// What tells one agent from another.
pub struct AgentKey {
    pub organization: u64,
    pub namespace: u64,
    pub agent_type: u64,
    pub agent_id: u64,
}

/// The model of an agent's name.
pub struct AgentView {
    pub agent_type: AgentTypeView,
    pub agent_id: u64,
}

impl AgentView {
    /// Whether two names are equal: their numbers are.
    pub open spec fn same(self, other: AgentView) -> bool {
        self.agent_type.same(other.agent_type) && self.agent_id == other.agent_id
    }

    /// The id, but for that of an agent named by its type alone.
    pub open spec fn id_option(self) -> Option<u64> {
        if self.agent_id == DEFAULT_AGENT_ID {
            None
        } else {
            Some(self.agent_id)
        }
    }

    /// The numbers of the name.
    pub open spec fn key(self) -> AgentKey {
        AgentKey {
            organization: self.agent_type.organization,
            namespace: self.agent_type.namespace,
            agent_type: self.agent_type.agent_type,
            agent_id: self.agent_id,
        }
    }
}

/// The name of an agent.
#[derive(Debug)]
pub struct Agent {
    pub agent_type: AgentType,
    pub agent_id: u64,
}

impl View for Agent {
    type V = AgentView;

    open spec fn view(&self) -> AgentView {
        AgentView { agent_type: self.agent_type@, agent_id: self.agent_id }
    }
}

impl Clone for Agent {
    fn clone(&self) -> (r: Self)
        ensures
            r@ == self@,
    {
        Agent { agent_type: self.agent_type.clone(), agent_id: self.agent_id }
    }
}

impl Default for Agent {
    fn default() -> (r: Self)
        ensures
            r@.agent_type == (AgentTypeView {
                organization: 0,
                namespace: 0,
                agent_type: 0,
                strings: None,
            }),
            r@.agent_id == 0,
    {
        Agent { agent_type: AgentType::default(), agent_id: 0 }
    }
}

impl PartialEq for Agent {
    fn eq(&self, other: &Self) -> (r: bool) {
        self.agent_type == other.agent_type && self.agent_id == other.agent_id
    }
}

impl vstd::std_specs::cmp::PartialEqSpecImpl for Agent {
    open spec fn obeys_eq_spec() -> bool {
        true
    }

    open spec fn eq_spec(&self, other: &Self) -> bool {
        self@.same(other@)
    }
}

impl Eq for Agent {

}

impl TableKey for Agent {
    type Key = AgentKey;

    open spec fn key(&self) -> AgentKey {
        self@.key()
    }

    fn same_key(&self, other: &Self) -> (r: bool) {
        *self == *other
    }
}

impl Agent {
    pub fn new(agent_type: AgentType, agent_id: u64) -> (r: Self)
        ensures
            r@ == (AgentView { agent_type: agent_type@, agent_id }),
    {
        Agent { agent_type, agent_id }
    }

    /// The name made from three texts and an id.
    pub fn from_strings(
        organization: &str,
        namespace: &str,
        agent_type: &str,
        agent_id: u64,
    ) -> (r: Self)
        ensures
            r@.agent_type == AgentTypeView::from_strings(organization@, namespace@, agent_type@),
            r@.agent_id == agent_id,
    {
        Agent { agent_type: AgentType::from_strings(organization, namespace, agent_type), agent_id }
    }

    pub fn agent_type(&self) -> (r: &AgentType)
        ensures
            r@ == self@.agent_type,
    {
        &self.agent_type
    }

    pub fn agent_id(&self) -> (r: u64)
        ensures
            r == self@.agent_id,
    {
        self.agent_id
    }

    /// The id, but for that of an agent named by its type alone.
    pub fn agent_id_option(&self) -> (r: Option<u64>)
        ensures
            r == self@.id_option(),
    {
        if self.agent_id == DEFAULT_AGENT_ID {
            None
        } else {
            Some(self.agent_id)
        }
    }
}

} // verus!
