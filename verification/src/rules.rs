//! Security rules attached to a protected application.
use vstd::prelude::*;

verus! {

/// A rule that the proxy enforces on a path of an application, in order of
/// priority.
#[derive(Debug, Clone, PartialEq, Eq)]
pub struct SecurityRule {
    pub name: String,
    pub priority: u32,
    pub path_prefix: Option<String>,
    pub action: RuleAction,
}

#[derive(Debug, Clone, Copy, PartialEq, Eq, Structural)]
pub enum RuleAction {
    Allow,
    Block,
    Challenge,
    Captcha,
    RateLimit,
    Redirect,
    AddHeader,
    RemoveHeader,
    Log,
    ApplyRule,
}

/// The name of an action as `Debug` prints it.
pub open spec fn action_name(action: RuleAction) -> Seq<char> {
    match action {
        RuleAction::Allow => "Allow"@,
        RuleAction::Block => "Block"@,
        RuleAction::Challenge => "Challenge"@,
        RuleAction::Captcha => "Captcha"@,
        RuleAction::RateLimit => "RateLimit"@,
        RuleAction::Redirect => "Redirect"@,
        RuleAction::AddHeader => "AddHeader"@,
        RuleAction::RemoveHeader => "RemoveHeader"@,
        RuleAction::Log => "Log"@,
        RuleAction::ApplyRule => "ApplyRule"@,
    }
}

impl RuleAction {
    /// The name of the action as `Debug` prints it.
    pub fn name(&self) -> (r: &'static str)
        ensures
            r@ == action_name(*self),
    {
        match self {
            RuleAction::Allow => "Allow",
            RuleAction::Block => "Block",
            RuleAction::Challenge => "Challenge",
            RuleAction::Captcha => "Captcha",
            RuleAction::RateLimit => "RateLimit",
            RuleAction::Redirect => "Redirect",
            RuleAction::AddHeader => "AddHeader",
            RuleAction::RemoveHeader => "RemoveHeader",
            RuleAction::Log => "Log",
            RuleAction::ApplyRule => "ApplyRule",
        }
    }
}

} // verus!
