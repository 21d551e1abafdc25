//! Errors of policy loading for wrapper binaries, and the report a wrapper
//! prints when a policy check blocks it.
use vstd::prelude::*;
use crate::error::{ParseError, PolicyViolation, parse_error_text, violation_text};
use crate::text::{chars_of, chars_of_string, concat, own, string_of};

verus! {

/// Errors that can occur during policy loading.
#[derive(Debug)]
pub enum PolicyError {
    /// BRUSHFIRE_POLICY environment variable not set.
    NoPolicyEnvVar,
    /// Failed to parse policy profile.
    PolicyParse(ParseError),
    /// IO error reading profile (its message).
    Io(String),
}

/// The text a policy loading error is displayed as.
pub open spec fn policy_error_text(e: PolicyError) -> Seq<char> {
    match e {
        PolicyError::NoPolicyEnvVar => "BRUSHFIRE_POLICY environment variable not set"@,
        PolicyError::PolicyParse(p) => "Failed to parse policy profile: "@ + parse_error_text(p@),
        PolicyError::Io(m) => "IO error: "@ + m@,
    }
}

impl PolicyError {
    /// The text this error is displayed as.
    pub fn message(&self) -> (r: String)
        ensures
            r@ == policy_error_text(*self),
    {
        match self {
            PolicyError::NoPolicyEnvVar => own("BRUSHFIRE_POLICY environment variable not set"),
            PolicyError::PolicyParse(p) => string_of(
                &concat(
                    &chars_of("Failed to parse policy profile: "),
                    &chars_of_string(&p.message()),
                ),
            ),
            PolicyError::Io(m) => string_of(&concat(&chars_of("IO error: "), &chars_of_string(m))),
        }
    }
}

/// The lines a wrapper prints when `violation` blocks `command` on `file_path`.
pub open spec fn policy_error_text_lines(
    command: Seq<char>,
    file_path: Seq<char>,
    violation: PolicyViolation,
) -> Seq<Seq<char>> {
    seq![
        "brushfire: Policy violation"@,
        "  Command: "@ + command + " "@ + file_path,
        "  Reason: "@ + violation_text(violation),
        ""@,
        "This operation was blocked by brushfire policy enforcement."@,
        "Check the active profile for details."@,
    ]
}

/// The policy error message for AI agents, line by line, as a wrapper
/// prints it to stderr when a policy violation blocks it.
pub fn policy_error_lines(command: &str, file_path: &str, violation: &PolicyViolation) -> (r: Vec<
    String,
>)
    ensures
        r@.map_values(|l: String| l@) == policy_error_text_lines(command@, file_path@, *violation),
{
    let cmd = concat(
        &concat(&concat(&chars_of("  Command: "), &chars_of(command)), &chars_of(" ")),
        &chars_of(file_path),
    );
    let reason = concat(&chars_of("  Reason: "), &chars_of_string(&violation.message()));
    let r = vec![
        own("brushfire: Policy violation"),
        string_of(&cmd),
        string_of(&reason),
        own(""),
        own("This operation was blocked by brushfire policy enforcement."),
        own("Check the active profile for details."),
    ];
    assert(r@.map_values(|l: String| l@) =~= policy_error_text_lines(
        command@,
        file_path@,
        *violation,
    ));
    r
}

} // verus!
