//! Who calls a tool, and what the caller may do.

use crate::text::opt;
use vstd::prelude::*;

verus! {

/// How a caller proved its identity.
#[derive(Debug, Clone, Copy, PartialEq, Eq, Structural)]
pub enum PrincipalKind {
    AgentBearer,
    OperatorSession,
    ForwardingHeader,
}

/// The role of an agent in its team.
#[derive(Debug, Clone, Copy, PartialEq, Eq, Structural)]
pub enum AgentRole {
    Worker,
    Manager,
}

/// One permission.
#[derive(Debug, Clone, Copy, PartialEq, Eq, Structural)]
pub enum Capability {
    SystemConfigWrite,
    AgentsRegister,
    AgentsRotateToken,
    AgentsTerminate,
    AgentsUse,
    AgentsView,
    McpConnect,
    MessagesView,
    FilesUse,
    MemoriesView,
    MemoriesCreate,
    MemoriesUpdate,
    MemoriesDelete,
}

/// The permissions of a caller.
#[derive(Debug)]
pub enum Capabilities {
    /// Every permission.
    Sysadmin,
    /// The permissions of the list.
    Listed(Vec<Capability>),
}

/// A caller.
#[derive(Debug)]
pub struct Principal {
    pub kind: PrincipalKind,
    pub user_id: Option<String>,
    pub agent_id: Option<String>,
    pub project_name: Option<String>,
    pub agent_role: Option<AgentRole>,
    pub capabilities: Capabilities,
    /// The name under which the caller's actions are recorded.
    pub actor_label: String,
    /// The name under which the caller's messages are sent.
    pub sender_label: String,
    /// Whether the caller acts with an operator's authority.
    pub operator_tier: bool,
    /// Whether that authority is confirmed, as for the disclosure of secrets.
    pub confirmed_operator_tier: bool,
}

/// The meaning of a caller.
pub struct PrincipalView {
    pub kind: PrincipalKind,
    pub user_id: Option<Seq<char>>,
    pub agent_id: Option<Seq<char>>,
    pub project_name: Option<Seq<char>>,
    pub agent_role: Option<AgentRole>,
    pub capabilities: Capabilities,
    pub actor_label: Seq<char>,
    pub sender_label: Seq<char>,
    pub operator_tier: bool,
    pub confirmed_operator_tier: bool,
}

impl View for Principal {
    type V = PrincipalView;

    open spec fn view(&self) -> PrincipalView {
        PrincipalView {
            kind: self.kind,
            user_id: opt(self.user_id),
            agent_id: opt(self.agent_id),
            project_name: opt(self.project_name),
            agent_role: self.agent_role,
            capabilities: self.capabilities,
            actor_label: self.actor_label@,
            sender_label: self.sender_label@,
            operator_tier: self.operator_tier,
            confirmed_operator_tier: self.confirmed_operator_tier,
        }
    }
}

/// Whether `caps` grant `cap`.
pub open spec fn grants(caps: Capabilities, cap: Capability) -> bool {
    match caps {
        Capabilities::Sysadmin => true,
        Capabilities::Listed(v) => v@.contains(cap),
    }
}

/// The view of an optional caller.
pub open spec fn caller_view(p: Option<&Principal>) -> Option<PrincipalView> {
    match p {
        Some(x) => Some(x@),
        None => None,
    }
}

/// The name under which a call is recorded; `fallback` without a caller.
pub open spec fn label_or(p: Option<PrincipalView>, fallback: Seq<char>) -> Seq<char> {
    match p {
        Some(x) => x.actor_label,
        None => fallback,
    }
}

/// Whether there is a caller and it has `cap`.
pub open spec fn caller_has(p: Option<PrincipalView>, cap: Capability) -> bool {
    match p {
        Some(x) => grants(x.capabilities, cap),
        None => false,
    }
}

/// Whether there is a caller with an operator's authority.
pub open spec fn is_operator(p: Option<PrincipalView>) -> bool {
    match p {
        Some(x) => x.operator_tier,
        None => false,
    }
}

/// The caller's agent id.
pub open spec fn caller_agent(p: Option<PrincipalView>) -> Option<Seq<char>> {
    match p {
        Some(x) => x.agent_id,
        None => None,
    }
}

impl Principal {
    /// Whether the caller has the permission `cap`.
    pub fn has_capability(&self, cap: Capability) -> (r: bool)
        ensures
            r == grants(self@.capabilities, cap),
    {
        match &self.capabilities {
            Capabilities::Sysadmin => true,
            Capabilities::Listed(v) => {
                let mut i: usize = 0;
                while i < v.len()
                    invariant
                        self.capabilities == Capabilities::Listed(*v),
                        i <= v@.len(),
                        forall|j: int| 0 <= j < i ==> v@[j] != cap,
                    decreases v@.len() - i,
                {
                    if v[i] == cap {
                        assert(v@.contains(cap));
                        return true;
                    }
                    i = i + 1;
                }
                false
            },
        }
    }
}

/// Whether there is a caller and it has `cap`.
pub fn has_capability(p: Option<&Principal>, cap: Capability) -> (r: bool)
    ensures
        r == caller_has(caller_view(p), cap),
{
    match p {
        Some(x) => x.has_capability(cap),
        None => false,
    }
}

/// The name under which a call is recorded.
pub fn actor_label<'a>(p: Option<&'a Principal>, fallback: &'a str) -> (r: &'a str)
    ensures
        r@ == label_or(caller_view(p), fallback@),
{
    match p {
        Some(x) => x.actor_label.as_str(),
        None => fallback,
    }
}

/// The caller's agent id.
pub fn agent_of<'a>(p: Option<&'a Principal>) -> (r: Option<&'a str>)
    ensures
        crate::text::opt_str(r) == caller_agent(caller_view(p)),
{
    match p {
        Some(x) => crate::text::borrow_opt(&x.agent_id),
        None => None,
    }
}

} // verus!
