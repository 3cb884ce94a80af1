//! The configuration surface of the tool.
//!
//! The values here are plain data; reading them from the command line is
//! the binary's business. The create-rule options also serve as the
//! payload of a create-rule call (see `rules.rs` for the builder).

use vstd::prelude::*;

verus! {

/// What one run of the tool was asked to do.
#[derive(Debug, PartialEq)]
pub struct Opts {
    /// Stop after this many processed events.
    pub limit: Option<usize>,
    /// File the events are appended to.
    pub file: String,
    /// Credential for the stream; when absent the environment supplies it.
    pub bearer_token: Option<String>,
    /// Environment file to look the credential up in.
    pub env_file: String,
    /// Tolerate at most this many reconnects.
    pub max_resets: Option<usize>,
    /// How much to report along the way.
    pub verbose: usize,
    /// A rule-management command, in place of streaming.
    pub subcmd: Option<SubCmd>,
}

/// The rule-management commands.
#[derive(Debug, PartialEq)]
pub enum SubCmd {
    ListRules,
    CreateRule(CreateRule),
    DeleteRule(DeleteRule),
}

/// What a new filter rule should hold.
#[derive(Debug, PartialEq)]
pub struct CreateRule {
    pub value: String,
    pub tag: Option<String>,
}

pub ghost struct CreateRuleView {
    pub value: Seq<char>,
    pub tag: Option<Seq<char>>,
}

impl View for CreateRule {
    type V = CreateRuleView;

    open spec fn view(&self) -> CreateRuleView {
        CreateRuleView {
            value: self.value@,
            tag: crate::event::view_opt_string(self.tag),
        }
    }
}

/// Which rule to delete, or all of them.
#[derive(Debug, PartialEq)]
pub struct DeleteRule {
    pub id: Option<String>,
    pub all: bool,
    pub force: bool,
}

} // verus!
