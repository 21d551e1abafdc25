//! Policy enforcement for a shell: profile parsing, rule evaluation, event
//! reporting, and argument classification for policy-aware utility
//! wrappers.
//!
//! Everything that touches the filesystem, the environment, the clock or the
//! network is left to the caller, who hands the results in as plain values:
//! the engine decides on canonicalised paths, the profile parser asks for
//! the files it needs one request at a time, and the wrapper setup is given
//! what the filesystem says of each place a utility is looked for.
use vstd::prelude::*;

pub mod arg_parser;
pub mod engine;
pub mod error;
pub mod macros;
pub mod parser;
pub mod paths;
pub mod policy_loader;
pub mod reporter;
pub mod rules;
pub mod schemas;
pub mod text;
pub mod wrappers;

pub use arg_parser::{extract_positional_args, parse_args};
pub use engine::{DefaultPolicy, PolicyEngine};
pub use error::{ParseError, PolicyViolation};
pub use macros::{MacroEnvironment, MacroExpander};
pub use parser::{ParseAction, ParseEvent, ProfileParser};
pub use rules::{CommandRule, FileAccessMode, FilesystemRule, Policy, RuleAction};
pub use schemas::{ArgPattern, FileArg, UtilitySchema};

verus! {
} // verus!
