//! The verified core of the deck's issue dispatch and mode panes: prompt
//! templating, per-issue path and branch derivation, `gh`/`git` argv
//! construction, configuration validation, the idempotency decision,
//! claim-comment rendering and parsing, the step machines of a dispatch
//! fire, of worktree and isolated-clone provisioning, of removal and of the
//! post-merge sync, and the mode manager's pane and routing decisions.
//!
//! Every step machine decides; its caller performs the I/O it asks for and
//! reports the outcome back.

pub mod text;
pub mod issue_dispatch;
pub mod claim;
pub mod json;
pub mod registry;
pub mod dispatch_run;
pub mod worktree_flow;
pub mod clone_flow;
pub mod dispatch_flow;
pub mod run_flow;
pub mod mode_manager;
pub mod claim_laws;
pub mod segment_laws;
pub mod shell_word;
