//! What the `testsys` command line decides from its flags: which objects `status` reports on and
//! how, and whose logs `logs` follows.

use crate::text::{owned, push_string, string_views};
use vstd::prelude::*;

verus! {

/// The kinds of TestSys objects.
#[derive(Clone, Copy, Debug, PartialEq, Eq, Structural)]
pub enum CrdType {
    Test,
    Resource,
}

/// The objects `status` reports on: only tests with `--tests`, only resources with
/// `--resources`, and all of them with both flags or neither.
pub fn crd_type_filter(tests: bool, resources: bool) -> (r: Option<CrdType>)
    ensures
        r == if tests && !resources {
            Some(CrdType::Test)
        } else if resources && !tests {
            Some(CrdType::Resource)
        } else {
            None
        },
{
    match (tests, resources) {
        (true, false) => Some(CrdType::Test),
        (false, true) => Some(CrdType::Resource),
        _ => None,
    }
}

/// How much progress `status` shows.
#[derive(Clone, Copy, Debug, PartialEq, Eq, Structural)]
pub enum StatusProgress {
    /// The progress of resources.
    Resources,
    /// The progress of resources and tests.
    WithTests,
}

/// The progress `status` shows: that of tests too with `--with-test`, that of resources with
/// `--progress`, none otherwise.
pub fn progress_mode(with_test: bool, progress: bool) -> (r: Option<StatusProgress>)
    ensures
        r == if with_test {
            Some(StatusProgress::WithTests)
        } else if progress {
            Some(StatusProgress::Resources)
        } else {
            None
        },
{
    if with_test {
        Some(StatusProgress::WithTests)
    } else if progress {
        Some(StatusProgress::Resources)
    } else {
        None
    }
}

/// The stage of a resource whose logs are wanted.
#[derive(Clone, Copy, Debug, PartialEq, Eq, Structural)]
pub enum ResourceState {
    Creation,
    Destruction,
}

/// Whose logs `logs` follows.
#[derive(Clone, Debug)]
pub enum LogTarget {
    Test(String),
    Resource(String, ResourceState),
    Controller,
}

/// Why `logs` refused its arguments.
pub open spec fn log_target_message() -> Seq<char> {
    "Invalid arguments were provided. Exactly one of `--test`, `--resource`, and `--controller` must be used."@
}

/// The logs to follow: a test's, a resource's in one of its stages, or the controller's; any
/// other combination of the flags is refused.
pub fn log_target(
    test: Option<String>,
    resource: Option<String>,
    resource_state: Option<ResourceState>,
    controller: bool,
) -> (r: Result<LogTarget, String>)
    ensures
        match (test, resource, resource_state, controller) {
            (Some(t), None, None, false) => r matches Ok(LogTarget::Test(x)) && x@ == t@,
            (None, Some(n), Some(s), false) => r matches Ok(LogTarget::Resource(x, y)) && x@ == n@
                && y == s,
            (None, None, None, true) => r matches Ok(LogTarget::Controller),
            _ => r matches Err(m) && m@ == log_target_message(),
        },
{
    match (test, resource, resource_state, controller) {
        (Some(t), None, None, false) => Ok(LogTarget::Test(t)),
        (None, Some(n), Some(s), false) => Ok(LogTarget::Resource(n, s)),
        (None, None, None, true) => Ok(LogTarget::Controller),
        _ => Err(
            owned(
                "Invalid arguments were provided. Exactly one of `--test`, `--resource`, and `--controller` must be used.",
            ),
        ),
    }
}

/// The label that selects the pods of the job `job`.
pub open spec fn job_selector(job: Seq<char>) -> Seq<char> {
    "job-name="@ + job
}

/// The label selector of a test's pods.
pub fn test_log_selector(test_name: &str) -> (r: String)
    ensures
        r@ == job_selector(test_name@),
{
    let mut r = owned("job-name=");
    r.append(test_name);
    r
}

/// The selectors of the pods of the resources' creation and destruction jobs, resource by
/// resource.
pub open spec fn resource_selectors(resources: Seq<Seq<char>>) -> Seq<Seq<char>>
    decreases resources.len(),
{
    if resources.len() == 0 {
        Seq::empty()
    } else {
        resource_selectors(resources.drop_last()) + seq![
            job_selector(resources.last() + "-creation"@),
            job_selector(resources.last() + "-destruction"@),
        ]
    }
}

/// The label selectors of the pods whose logs come with a test's when its resources' logs are
/// included: for each resource, its creation job, then its destruction job.
pub fn resource_log_selectors(resources: &Vec<String>) -> (r: Vec<String>)
    ensures
        string_views(r@) == resource_selectors(string_views(resources@)),
{
    let ghost rs = string_views(resources@);
    let mut v: Vec<String> = Vec::new();
    let mut i: usize = 0;
    while i < resources.len()
        invariant
            0 <= i <= resources@.len(),
            rs == string_views(resources@),
            string_views(v@) == resource_selectors(rs.take(i as int)),
        decreases resources.len() - i,
    {
        let ghost before = string_views(v@);
        let mut c = owned("job-name=");
        c.append(resources[i].as_str());
        c.append("-creation");
        assert(c@ =~= job_selector(resources@[i as int]@ + "-creation"@));
        push_string(&mut v, c);
        let mut d = owned("job-name=");
        d.append(resources[i].as_str());
        d.append("-destruction");
        assert(d@ =~= job_selector(resources@[i as int]@ + "-destruction"@));
        push_string(&mut v, d);
        proof {
            let next = rs.take(i + 1);
            assert(next.drop_last() =~= rs.take(i as int));
            assert(next.last() == resources@[i as int]@);
            assert(string_views(v@) =~= before + seq![
                job_selector(next.last() + "-creation"@),
                job_selector(next.last() + "-destruction"@),
            ]);
        }
        i = i + 1;
    }
    assert(rs.take(i as int) =~= rs);
    v
}

} // verus!
