//! What a resource provider reports when it fails: whether resources were left behind, and why.

use crate::text::{push_signed_decimal, signed_decimal};
use vstd::prelude::*;
use vstd::utf8::{decode_utf8, valid_utf8};

verus! {

/// Whether a failed operation left resources that still need to be destroyed.
#[derive(Clone, Copy, Debug, PartialEq, Eq, Structural)]
pub enum Resources {
    /// Nothing was left behind.
    Clear,
    /// Resources exist and need to be destroyed.
    Remaining,
    /// Resources exist but can no longer be destroyed by the provider.
    Orphaned,
    /// It is not known whether resources exist.
    Unknown,
}

/// A provider failure: the resource situation and a message that explains it.
#[derive(Clone, Debug, PartialEq, Eq)]
pub struct ProviderError {
    pub resources: Resources,
    pub context: String,
}

impl ProviderError {
    pub fn new_with_context(resources: Resources, context: String) -> (r: Self)
        ensures
            r.resources == resources,
            r.context@ == context@,
    {
        ProviderError { resources, context }
    }
}

/// The outcome of a test run.
#[derive(Clone, Copy, Debug, PartialEq, Eq, Structural)]
pub enum Outcome {
    Pass,
    Fail,
    Timeout,
    InProgress,
    Unknown,
}

/// What a test agent reports at the end of (or during) a test.
#[derive(Clone, Debug, PartialEq, Eq)]
pub struct TestResults {
    pub outcome: Outcome,
    pub num_passed: u64,
    pub num_failed: u64,
    pub num_skipped: u64,
    pub other_info: Option<String>,
}

/// The text `String::from_utf8_lossy` makes of `bytes`: invalid sequences replaced.
pub uninterp spec fn lossy_text(bytes: Seq<u8>) -> Seq<char>;

/// `String::from_utf8_lossy`, made an owned `String`: the text of `bytes`, each invalid sequence
/// replaced by U+FFFD; the text they encode where they are valid UTF-8.
#[verifier::external_body]
fn text_of_bytes(bytes: &[u8]) -> (r: String)
    ensures
        r@ == lossy_text(bytes@),
        valid_utf8(bytes@) ==> r@ == decode_utf8(bytes@),
{
    String::from_utf8_lossy(bytes).to_string()
}

/// The message of a command that failed: the command `hint`, its exit code (`-1` when a signal
/// ended it), and what it printed on stderr and stdout.
pub open spec fn command_failure_message(
    hint: Seq<char>,
    code: Option<i32>,
    stderr: Seq<char>,
    stdout: Seq<char>,
) -> Seq<char> {
    "Error running '"@ + hint + "', exit code "@ + signed_decimal(
        match code {
            Some(c) => c as int,
            None => -1,
        },
    ) + "\nstderr:\n"@ + stderr + "\nstdout:\n"@ + stdout
}

/// What a command printed, when it succeeded (exit status `success`), else the error that says
/// how it failed, with the resource situation `resources`. `code` is the exit code, `None` when a
/// signal ended the command.
pub fn provider_error_for_cmd_output(
    success: bool,
    code: Option<i32>,
    stdout: &[u8],
    stderr: &[u8],
    hint: &str,
    resources: Resources,
) -> (r: Result<String, ProviderError>)
    ensures
        success ==> (r matches Ok(s) && s@ == lossy_text(stdout@)),
        !success ==> (r matches Err(e) && e.resources == resources && e.context@
            == command_failure_message(hint@, code, lossy_text(stderr@), lossy_text(stdout@))),
{
    let out = text_of_bytes(stdout);
    if success {
        Ok(out)
    } else {
        let err = text_of_bytes(stderr);
        let c: i32 = match code {
            Some(c) => c,
            None => -1,
        };
        let mut msg = String::new();
        msg.append("Error running '");
        msg.append(hint);
        msg.append("', exit code ");
        push_signed_decimal(&mut msg, c as i64);
        msg.append("\nstderr:\n");
        msg.append(err.as_str());
        msg.append("\nstdout:\n");
        msg.append(out.as_str());
        Err(ProviderError::new_with_context(resources, msg))
    }
}

} // verus!
