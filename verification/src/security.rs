//! The central safeguard: every action passes through [`check`].
use vstd::prelude::*;

verus! {

/// Permission levels of an action: 0 = read, 1 = reversible,
/// 2 = sensitive, 3 = critical.
#[derive(Debug, Clone, Copy, PartialEq, Eq, Structural, PartialOrd, Ord)]
pub enum Permission {
    Read,
    Reversible,
    Sensitive,
    Critical,
}

impl Permission {
    /// The numeric level of a permission (0 to 3).
    pub open spec fn rank(self) -> nat {
        match self {
            Permission::Read => 0,
            Permission::Reversible => 1,
            Permission::Sensitive => 2,
            Permission::Critical => 3,
        }
    }

    /// The numeric level of a permission (0 to 3).
    pub fn level(&self) -> (r: u8)
        ensures
            r as nat == self.rank(),
    {
        match self {
            Permission::Read => 0,
            Permission::Reversible => 1,
            Permission::Sensitive => 2,
            Permission::Critical => 3,
        }
    }
}

/// Whether an action of this level must be confirmed by the user.
pub open spec fn requires_confirmation(level: Permission) -> bool {
    level.rank() >= 2
}

/// The guard's verdict.
#[derive(Debug)]
pub enum Verdict {
    /// Direct execution is allowed.
    Allowed,
    /// Execution is suspended until the user explicitly agrees; `critical`
    /// tells level 2 (confirmation) from level 3 (explicit confirmation and
    /// extra rules).
    NeedsConfirmation { description: String, critical: bool },
}

/// A confirmation request sent from the core to the interface.
#[derive(Debug)]
pub struct ConfirmRequest {
    pub description: String,
    pub critical: bool,
}

/// What `check` answers for an action of `level` described by `description`.
pub open spec fn verdict_is(v: Verdict, level: Permission, description: Seq<char>) -> bool {
    match v {
        Verdict::Allowed => !requires_confirmation(level),
        Verdict::NeedsConfirmation { description: d, critical } => {
            &&& requires_confirmation(level)
            &&& d@ == description
            &&& critical == (level == Permission::Critical)
        },
    }
}

/// The central safeguard: nothing runs without going through here.
/// Read and reversible actions are allowed; sensitive and critical ones need
/// the user's confirmation, critical ones explicitly.
pub fn check(level: Permission, description: &str) -> (v: Verdict)
    ensures
        verdict_is(v, level, description@),
        (v is Allowed) <==> !requires_confirmation(level),
{
    match level {
        Permission::Read | Permission::Reversible => Verdict::Allowed,
        Permission::Sensitive => Verdict::NeedsConfirmation {
            description: description.to_owned(),
            critical: false,
        },
        Permission::Critical => Verdict::NeedsConfirmation {
            description: description.to_owned(),
            critical: true,
        },
    }
}

/// Whether the user agreed: the request reached the interface and its
/// answer was yes.
pub open spec fn agreed(sent: bool, reply: Option<bool>) -> bool {
    sent && reply == Some(true)
}

/// The user's agreement as the interface reports it: `sent` tells whether
/// the request reached the interface, `reply` is its answer (`None` when the
/// answer channel closed). Communication errors count as a refusal
/// (fail-closed).
pub fn confirmation_answer(sent: bool, reply: Option<bool>) -> (r: bool)
    ensures
        r == agreed(sent, reply),
{
    if !sent {
        return false;
    }
    match reply {
        Some(agreed) => agreed,
        None => false,
    }
}

/// Fail-closed: an action is only agreed to when the request was delivered
/// and the user answered yes; any lost message is a refusal.
pub proof fn law_confirmation_fails_closed(sent: bool, reply: Option<bool>)
    ensures
        !sent ==> !agreed(sent, reply),
        reply is None ==> !agreed(sent, reply),
        reply == Some(false) ==> !agreed(sent, reply),
        agreed(sent, reply) ==> sent && reply == Some(true),
{
}

/// A higher level never needs less confirmation than a lower one: if an
/// action at `low` must be confirmed, so must every action at `high >= low`.
pub proof fn law_confirmation_is_monotone(low: Permission, high: Permission)
    requires
        low.rank() <= high.rank(),
    ensures
        requires_confirmation(low) ==> requires_confirmation(high),
{
}

/// Only the critical level asks for an explicit, critical confirmation:
/// whatever the description, a verdict marked critical comes from
/// `Permission::Critical`, and one for `Permission::Critical` is critical.
pub proof fn law_critical_only_for_critical(v: Verdict, level: Permission, description: Seq<char>)
    requires
        verdict_is(v, level, description),
    ensures
        (v matches Verdict::NeedsConfirmation { critical, .. } && critical) <==> level
            == Permission::Critical,
{
}

} // verus!
