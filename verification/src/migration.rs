//! What the migration test agent decides from what SSM reports: when a command has finished on
//! every host, which hosts it failed on, which hosts have not yet booted into the target version,
//! and the test results of the migration.

use crate::document::{doc_text, json_document, opt_get, parse_json};
use crate::eks::opt_view;
use crate::provider::{Outcome, TestResults};
use crate::text::{hex_text, owned, str_eq, string_views};
use vstd::prelude::*;
use vstd::utf8::encode_utf8;

verus! {

/// The SSM document that changes the update repository of the hosts.
pub const BR_CHANGE_UPDATE_REPO_DOCUMENT_NAME: &'static str = "BR-ChangeUpdateRepo";

/// Where the document that changes the update repository is read from.
pub const BR_CHANGE_UPDATE_REPO_DOCUMENT_PATH: &'static str =
    "/local/ssm-documents/ssm-change-update-repo.yml";

/// Where the document that updates the hosts is read from.
pub const BR_UPDATE_DOCUMENT_PATH: &'static str = "/local/ssm-documents/update-api-update.yml";

/// The SSM document that updates the hosts.
pub const BR_UPDATE_DOCUMENT_NAME: &'static str = "BR-Update";

/// The SHA-256 digest of `data`.
pub uninterp spec fn sha256_digest(data: Seq<u8>) -> Seq<u8>;

/// `hex::encode`: the lowercase hexadecimal text of `bytes`, two digits per byte.
#[verifier::external_body]
fn hex_encode(bytes: &[u8]) -> (r: String)
    ensures
        r@ == hex_text(bytes@),
{
    hex::encode(bytes)
}

/// `sha2::Digest::digest` for `sha2::Sha256`: the 32-byte SHA-256 digest of `data`.
#[verifier::external_body]
fn sha256(data: &[u8]) -> (r: Vec<u8>)
    ensures
        r@ == sha256_digest(data@),
        r@.len() == 32,
{
    <sha2::Sha256 as sha2::Digest>::digest(data).to_vec()
}

/// The hexadecimal SHA-256 checksum of the UTF-8 bytes of `text`, as SSM reports a document's
/// hash.
pub open spec fn sha256_hex(text: Seq<char>) -> Seq<char> {
    hex_text(sha256_digest(encode_utf8(text)))
}

/// Whether the SSM document whose hash SSM reports as `ssm_hash` already has the content
/// `file_content` of the document file, so that it needs no update.
pub fn document_up_to_date(ssm_hash: &str, file_content: &str) -> (r: bool)
    ensures
        r == (sha256_hex(file_content@) == ssm_hash@),
{
    let digest = sha256(file_content.as_bytes());
    let hex = hex_encode(digest.as_slice());
    str_eq(hex.as_str(), ssm_hash)
}

/// The content with which SSM updates a document from the file at `path`.
pub fn document_update_content(path: &str) -> (r: String)
    ensures
        r@ == "file://"@ + path@,
{
    let mut s = owned("file://");
    s.append(path);
    s
}

/// How many times the hosts' OS version is checked before the agent gives up.
pub const MAX_OS_VERSION_CHECKS: u32 = 12;

/// The status of a command on one host, as SSM reports it.
#[derive(Clone, Copy, Debug, PartialEq, Eq, Structural)]
pub enum InvocationStatus {
    Pending,
    InProgress,
    Delayed,
    Success,
    Cancelled,
    TimedOut,
    Failed,
    Cancelling,
    /// A status this agent does not know.
    Other,
}

/// A command's invocation on one host.
#[derive(Clone, Debug)]
pub struct Invocation {
    pub instance_id: Option<String>,
    pub status: Option<InvocationStatus>,
    /// For each plugin of the command, the `version_id` of the JSON it printed, where it printed
    /// a JSON object with a string `version_id`.
    pub version_ids: Vec<Option<String>>,
}

/// Whether the command is still running on the host.
pub open spec fn is_running(i: Invocation) -> bool {
    i.status == Some(InvocationStatus::InProgress) || i.status == Some(InvocationStatus::Pending)
        || i.status == Some(InvocationStatus::Delayed)
}

/// Whether a command has finished: SSM lists invocations and none of them still runs.
pub open spec fn command_finished(invocations: Seq<Invocation>) -> bool {
    invocations.len() > 0 && forall|j: int| 0 <= j < invocations.len() ==> !is_running(
        #[trigger] invocations[j],
    )
}

fn running(i: &Invocation) -> (r: bool)
    ensures
        r == is_running(*i),
{
    match i.status {
        Some(InvocationStatus::InProgress) => true,
        Some(InvocationStatus::Pending) => true,
        Some(InvocationStatus::Delayed) => true,
        _ => false,
    }
}

/// Whether the wait for the command is over.
pub fn is_command_finished(invocations: &Vec<Invocation>) -> (r: bool)
    ensures
        r == command_finished(invocations@),
{
    if invocations.len() == 0 {
        return false;
    }
    let mut i: usize = 0;
    while i < invocations.len()
        invariant
            0 <= i <= invocations@.len(),
            forall|j: int| 0 <= j < i ==> !is_running(#[trigger] invocations@[j]),
        decreases invocations.len() - i,
    {
        if running(&invocations[i]) {
            return false;
        }
        i = i + 1;
    }
    true
}

/// The host of an invocation; the empty text where SSM names none.
pub open spec fn host_of(i: Invocation) -> Seq<char> {
    match i.instance_id {
        Some(id) => id@,
        None => Seq::empty(),
    }
}

fn host_text(i: &Invocation) -> (r: String)
    ensures
        r@ == host_of(*i),
{
    match &i.instance_id {
        Some(id) => id.clone(),
        None => String::new(),
    }
}

/// The hosts, in order, of the invocations that match `p`.
pub open spec fn hosts_where(invocations: Seq<Invocation>, p: spec_fn(Invocation) -> bool) -> Seq<
    Seq<char>,
>
    decreases invocations.len(),
{
    if invocations.len() == 0 {
        Seq::empty()
    } else {
        let rest = hosts_where(invocations.drop_last(), p);
        if p(invocations.last()) {
            rest.push(host_of(invocations.last()))
        } else {
            rest
        }
    }
}

/// Whether the command did not succeed on the host.
pub open spec fn did_not_succeed(i: Invocation) -> bool {
    i.status != Some(InvocationStatus::Success)
}

/// The hosts on which a finished command did not succeed, in the order SSM lists them.
pub fn failed_hosts(invocations: &Vec<Invocation>) -> (r: Vec<String>)
    ensures
        string_views(r@) == hosts_where(invocations@, |i: Invocation| did_not_succeed(i)),
{
    let ghost p = |i: Invocation| did_not_succeed(i);
    let mut v: Vec<String> = Vec::new();
    let mut k: usize = 0;
    while k < invocations.len()
        invariant
            0 <= k <= invocations@.len(),
            string_views(v@) == hosts_where(invocations@.take(k as int), p),
            p == (|i: Invocation| did_not_succeed(i)),
        decreases invocations.len() - k,
    {
        let inv = &invocations[k];
        let failed = match inv.status {
            Some(InvocationStatus::Success) => false,
            _ => true,
        };
        proof {
            let next = invocations@.take(k + 1);
            assert(next.drop_last() =~= invocations@.take(k as int));
            assert(next.last() == invocations@[k as int]);
            assert(p(next.last()) == failed);
            assert(hosts_where(next, p) == if p(next.last()) {
                hosts_where(next.drop_last(), p).push(host_of(next.last()))
            } else {
                hosts_where(next.drop_last(), p)
            });
        }
        if failed {
            let ghost before = string_views(v@);
            let h = host_text(inv);
            v.push(h);
            assert(string_views(v@) =~= before.push(host_of(invocations@[k as int])));
        }
        k = k + 1;
    }
    assert(invocations@.take(k as int) =~= invocations@);
    v
}

/// An error of the migration agent that the agent itself decides on.
#[derive(Clone, Debug)]
pub enum MigrationError {
    /// The document's command did not succeed on these hosts.
    SsmRunCommand { document_name: String, instance_ids: Vec<String> },
}

/// The result of a finished command: the invocations, or the error that names the hosts it did
/// not succeed on.
pub fn command_result(document_name: &str, invocations: Vec<Invocation>) -> (r: Result<
    Vec<Invocation>,
    MigrationError,
>)
    ensures
        ({
            let failed = hosts_where(invocations@, |i: Invocation| did_not_succeed(i));
            if failed.len() == 0 {
                r matches Ok(v) && v@ == invocations@
            } else {
                r matches Err(MigrationError::SsmRunCommand { document_name: d, instance_ids })
                    && d@ == document_name@ && string_views(instance_ids@) == failed
            }
        }),
{
    let failed = failed_hosts(&invocations);
    if failed.len() == 0 {
        Ok(invocations)
    } else {
        Err(
            MigrationError::SsmRunCommand {
                document_name: owned(document_name),
                instance_ids: failed,
            },
        )
    }
}

/// `s` without the run of `c` at its start.
pub open spec fn trim_start_char(s: Seq<char>, c: char) -> Seq<char>
    decreases s.len(),
{
    if s.len() > 0 && s[0] == c {
        trim_start_char(s.drop_first(), c)
    } else {
        s
    }
}

/// The version the hosts report once migrated: the target without its leading `v`s.
pub fn target_version_id(target_version: &str) -> (r: &str)
    ensures
        r@ == trim_start_char(target_version@, 'v'),
{
    let n = target_version.unicode_len();
    let mut i: usize = 0;
    proof {
        assert(target_version@.subrange(0, n as int) =~= target_version@);
    }
    while i < n && target_version.get_char(i) == 'v'
        invariant
            n == target_version@.len(),
            0 <= i <= n,
            trim_start_char(target_version@.subrange(i as int, n as int), 'v') == trim_start_char(
                target_version@,
                'v',
            ),
        decreases n - i,
    {
        proof {
            assert(target_version@.subrange(i as int, n as int).drop_first() =~= target_version@.subrange(
                i + 1,
                n as int,
            ));
        }
        i = i + 1;
    }
    target_version.substring_char(i, n)
}

/// The `version_id` a plugin reported in its output: the text under `version_id` in the JSON
/// value of `output`, where it is JSON.
pub open spec fn reported_version_id(output: Seq<char>) -> Option<Seq<char>> {
    doc_text(opt_get(json_document(output), "version_id"@))
}

/// The `version_id` a plugin reported in its output `output`.
fn version_id_in(output: &str) -> (r: Option<String>)
    ensures
        opt_view(r) == reported_version_id(output@),
{
    match parse_json(output) {
        Some(doc) => match doc.get("version_id") {
            Some(v) => match v.as_text() {
                Some(t) => Some(t.clone()),
                None => None,
            },
            None => None,
        },
        None => None,
    }
}

/// The `version_id` each plugin of a host reported, from the output it printed (the JSON of
/// `apiclient get /os`); a plugin whose output SSM does not give reads as the empty text.
pub fn plugin_version_ids(outputs: &Vec<Option<String>>) -> (r: Vec<Option<String>>)
    ensures
        r@.len() == outputs@.len(),
        forall|j: int|
            0 <= j < outputs@.len() ==> opt_view(#[trigger] r@[j]) == reported_version_id(
                match outputs@[j] {
                    Some(o) => o@,
                    None => ""@,
                },
            ),
{
    let mut v: Vec<Option<String>> = Vec::new();
    let mut j: usize = 0;
    while j < outputs.len()
        invariant
            0 <= j <= outputs@.len(),
            v@.len() == j,
            forall|m: int|
                0 <= m < j ==> opt_view(#[trigger] v@[m]) == reported_version_id(
                    match outputs@[m] {
                        Some(o) => o@,
                        None => ""@,
                    },
                ),
        decreases outputs.len() - j,
    {
        let id = match &outputs[j] {
            Some(o) => version_id_in(o.as_str()),
            None => version_id_in(""),
        };
        v.push(id);
        j = j + 1;
    }
    v
}

/// Whether a plugin's report shows another version than `target`.
pub open spec fn reports_other_version(version_id: Option<String>, target: Seq<char>) -> bool {
    version_id matches Some(v) && v@ != target
}

/// Whether the host of `i` is still on another version than `target`: one of its plugins
/// reports another version.
pub open spec fn still_unchanged(i: Invocation, target: Seq<char>) -> bool {
    exists|j: int| 0 <= j < i.version_ids@.len() && reports_other_version(
        #[trigger] i.version_ids@[j],
        target,
    )
}

fn is_unchanged(i: &Invocation, target: &str) -> (r: bool)
    ensures
        r == still_unchanged(*i, target@),
{
    let mut j: usize = 0;
    while j < i.version_ids.len()
        invariant
            0 <= j <= i.version_ids@.len(),
            forall|m: int| 0 <= m < j ==> !reports_other_version(#[trigger] i.version_ids@[m], target@),
        decreases i.version_ids.len() - j,
    {
        let other = match &i.version_ids[j] {
            Some(v) => !str_eq(v.as_str(), target),
            None => false,
        };
        if other {
            return true;
        }
        j = j + 1;
    }
    false
}

/// The hosts that have not booted into `target` yet, in the order SSM lists them.
pub fn unchanged_hosts(invocations: &Vec<Invocation>, target: &str) -> (r: Vec<String>)
    ensures
        string_views(r@) == hosts_where(invocations@, |i: Invocation| still_unchanged(i, target@)),
{
    let ghost p = |i: Invocation| still_unchanged(i, target@);
    let mut v: Vec<String> = Vec::new();
    let mut k: usize = 0;
    while k < invocations.len()
        invariant
            0 <= k <= invocations@.len(),
            string_views(v@) == hosts_where(invocations@.take(k as int), p),
            p == (|i: Invocation| still_unchanged(i, target@)),
        decreases invocations.len() - k,
    {
        let inv = &invocations[k];
        let unchanged = is_unchanged(inv, target);
        proof {
            let next = invocations@.take(k + 1);
            assert(next.drop_last() =~= invocations@.take(k as int));
            assert(next.last() == invocations@[k as int]);
            assert(p(next.last()) == unchanged);
            assert(hosts_where(next, p) == if p(next.last()) {
                hosts_where(next.drop_last(), p).push(host_of(next.last()))
            } else {
                hosts_where(next.drop_last(), p)
            });
        }
        if unchanged {
            let ghost before = string_views(v@);
            let h = host_text(inv);
            v.push(h);
            assert(string_views(v@) =~= before.push(host_of(invocations@[k as int])));
        }
        k = k + 1;
    }
    assert(invocations@.take(k as int) =~= invocations@);
    v
}

/// Whether the migration is done: every host answered and none is on another version.
pub fn migration_done(unchanged: &Vec<String>, answered: usize, hosts: usize) -> (r: bool)
    ensures
        r == (unchanged@.len() == 0 && answered == hosts),
{
    unchanged.len() == 0 && answered == hosts
}

/// The test results of a migration of `hosts` hosts: a pass when no host failed to migrate, else
/// a failure that counts the hosts that failed. The message is left to the caller.
pub fn migration_results(hosts: u64, failed_hosts: Option<&Vec<String>>) -> (r: TestResults)
    requires
        failed_hosts matches Some(f) ==> f@.len() <= hosts,
    ensures
        r.num_skipped == 0,
        r.other_info is None,
        match failed_hosts {
            None => r.outcome == Outcome::Pass && r.num_passed == hosts && r.num_failed == 0,
            Some(f) => r.outcome == Outcome::Fail && r.num_passed == hosts - f@.len()
                && r.num_failed == f@.len(),
        },
{
    match failed_hosts {
        None => TestResults {
            outcome: Outcome::Pass,
            num_passed: hosts,
            num_failed: 0,
            num_skipped: 0,
            other_info: None,
        },
        Some(f) => {
            let failed = f.len() as u64;
            TestResults {
                outcome: Outcome::Fail,
                num_passed: hosts - failed,
                num_failed: failed,
                num_skipped: 0,
                other_info: None,
            }
        },
    }
}


/// A command is not finished while any host still has it pending, in progress or delayed; it is
/// finished once it has run on some host and every invocation has settled to another status (or
/// reports none).
pub proof fn lemma_command_finished_only_when_settled(invocations: Seq<Invocation>, j: int)
    ensures
        0 <= j < invocations.len() && (invocations[j].status == Some(InvocationStatus::InProgress)
            || invocations[j].status == Some(InvocationStatus::Pending) || invocations[j].status
            == Some(InvocationStatus::Delayed)) ==> !command_finished(invocations),
        invocations.len() > 0 && (forall|k: int|
            0 <= k < invocations.len() ==> match #[trigger] invocations[k].status {
                Some(InvocationStatus::Success) | Some(InvocationStatus::Cancelled) | Some(
                    InvocationStatus::TimedOut,
                ) | Some(InvocationStatus::Failed) | Some(InvocationStatus::Cancelling) | Some(
                    InvocationStatus::Other,
                ) | None => true,
                _ => false,
            }) ==> command_finished(invocations),
{
    if 0 <= j < invocations.len() {
        assert(invocations[j] == invocations[j]);
    }
    if invocations.len() > 0 && (forall|k: int|
        0 <= k < invocations.len() ==> match #[trigger] invocations[k].status {
            Some(InvocationStatus::Success) | Some(InvocationStatus::Cancelled) | Some(
                InvocationStatus::TimedOut,
            ) | Some(InvocationStatus::Failed) | Some(InvocationStatus::Cancelling) | Some(
                InvocationStatus::Other,
            ) | None => true,
            _ => false,
        }) {
        assert forall|k: int| 0 <= k < invocations.len() implies !is_running(
            #[trigger] invocations[k],
        ) by {
            assert(match invocations[k].status {
                Some(InvocationStatus::Success) | Some(InvocationStatus::Cancelled) | Some(
                    InvocationStatus::TimedOut,
                ) | Some(InvocationStatus::Failed) | Some(InvocationStatus::Cancelling) | Some(
                    InvocationStatus::Other,
                ) | None => true,
                _ => false,
            });
        }
    }
}

} // verus!
