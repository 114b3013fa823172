//! Turning the output of `sonobuoy status --json` into test results, and the arguments with which
//! the sonobuoy test agent runs `sonobuoy`.

use crate::agent_config::{sonobuoy_mode_text, SonobuoyConfig, SonobuoyMode};
use crate::document::{
    doc_get, doc_list, doc_text, doc_views, json_compact, json_document, json_text, parse_json,
    Doc, DocView,
};
use crate::k8s_version::full_version_with_v_text;
use crate::provider::{Outcome, TestResults};
use crate::text::{join, join_strings, parse_u64, parse_u64_spec, push_text, str_eq, string_views};
use vstd::prelude::*;

verus! {

/// A field of a JSON object as it was read: absent, present with another type than the one
/// expected, or present with the expected type.
#[derive(Clone, Debug, PartialEq, Eq)]
pub enum Field<T> {
    Missing,
    Mistyped,
    Present(T),
}

/// The `result-counts` object of a plugin: each count that is present as an unsigned integer.
#[derive(Clone, Copy, Debug, PartialEq, Eq, Structural)]
pub struct ResultCounts {
    pub passed: Option<u64>,
    pub failed: Option<u64>,
    pub skipped: Option<u64>,
}

/// One entry of the `plugins` array of `sonobuoy status --json`.
#[derive(Clone, Debug, PartialEq, Eq)]
pub struct PluginStatus {
    /// `plugin`: the plugin's name, a string.
    pub plugin: Field<String>,
    /// `progress`, when present: its compact JSON text.
    pub progress: Option<String>,
    /// `result-status`: a string.
    pub result_status: Field<String>,
    /// `result-counts`, when present (with whatever counts it holds).
    pub result_counts: Option<ResultCounts>,
}

/// What the agent reads of `sonobuoy status --json`: its `plugins` array.
#[derive(Clone, Debug, PartialEq, Eq)]
pub struct SonobuoyStatus {
    pub plugins: Field<Vec<PluginStatus>>,
}

/// Why the sonobuoy status could not be turned into test results.
#[derive(Clone, Debug, PartialEq, Eq)]
pub enum Error {
    /// A field that the status must have is missing (or has the wrong type).
    MissingSonobuoyStatusField { field: String },
    /// The output of `sonobuoy status --json` is no JSON.
    DeserializeJson,
    /// `sonobuoy run` did not succeed.
    SonobuoyRun,
}

/// What the agent does once `sonobuoy run --wait` has exited.
#[derive(Clone, Debug, PartialEq, Eq)]
pub enum AfterRun {
    /// Retrieve the results of the run.
    RetrieveResults,
    /// Stop with this error; no results are retrieved.
    Stop(Error),
}

/// What follows `sonobuoy run --wait`: the results are retrieved only when the run succeeded;
/// else the agent stops with `SonobuoyRun`.
pub fn after_sonobuoy_run(run_succeeded: bool) -> (r: AfterRun)
    ensures
        run_succeeded <==> r == AfterRun::RetrieveResults,
        !run_succeeded ==> r == AfterRun::Stop(Error::SonobuoyRun),
{
    if run_succeeded {
        AfterRun::RetrieveResults
    } else {
        AfterRun::Stop(Error::SonobuoyRun)
    }
}

pub open spec fn plugin_ok(p: PluginStatus) -> bool {
    &&& p.plugin is Present
    &&& p.result_status is Present
    &&& p.result_counts is Some
}

/// The field reported missing for a plugin entry that is not complete (checked in the order
/// `plugin`, `result-status`, `result-counts`).
pub open spec fn plugin_missing_field(p: PluginStatus) -> Seq<char> {
    match p.plugin {
        Field::Present(name) => if p.result_status is Present {
            "plugins."@ + name@ + ".result-counts"@
        } else {
            "plugins."@ + name@ + ".result-status"@
        },
        _ => "plugins.[].plugin"@,
    }
}

/// Index of the first incomplete plugin entry at or after `i`, or `ps.len()`.
pub open spec fn first_bad_from(ps: Seq<PluginStatus>, i: nat) -> nat
    decreases ps.len() - i,
{
    if i >= ps.len() {
        ps.len()
    } else if !plugin_ok(ps[i as int]) {
        i
    } else {
        first_bad_from(ps, i + 1)
    }
}

pub open spec fn count_or_zero(c: Option<u64>) -> int {
    match c {
        Some(n) => n as int,
        None => 0,
    }
}

pub open spec fn passed_of(p: PluginStatus) -> int {
    match p.result_counts {
        Some(c) => count_or_zero(c.passed),
        None => 0,
    }
}

pub open spec fn failed_of(p: PluginStatus) -> int {
    match p.result_counts {
        Some(c) => count_or_zero(c.failed),
        None => 0,
    }
}

pub open spec fn skipped_of(p: PluginStatus) -> int {
    match p.result_counts {
        Some(c) => count_or_zero(c.skipped),
        None => 0,
    }
}

pub open spec fn sum_passed(ps: Seq<PluginStatus>) -> int
    decreases ps.len(),
{
    if ps.len() == 0 {
        0
    } else {
        sum_passed(ps.drop_last()) + passed_of(ps.last())
    }
}

pub open spec fn sum_failed(ps: Seq<PluginStatus>) -> int
    decreases ps.len(),
{
    if ps.len() == 0 {
        0
    } else {
        sum_failed(ps.drop_last()) + failed_of(ps.last())
    }
}

pub open spec fn sum_skipped(ps: Seq<PluginStatus>) -> int
    decreases ps.len(),
{
    if ps.len() == 0 {
        0
    } else {
        sum_skipped(ps.drop_last()) + skipped_of(ps.last())
    }
}

/// The `progress` notes of the plugins in `ps`, each as `<plugin>: <progress>`.
pub open spec fn progress_notes(ps: Seq<PluginStatus>) -> Seq<Seq<char>>
    decreases ps.len(),
{
    if ps.len() == 0 {
        Seq::empty()
    } else {
        let p = ps.last();
        let rest = progress_notes(ps.drop_last());
        match p.progress {
            Some(text) => rest.push(
                match p.plugin {
                    Field::Present(name) => name@,
                    _ => Seq::empty(),
                } + ": "@ + text@,
            ),
            None => rest,
        }
    }
}

pub open spec fn status_is(p: PluginStatus, a: Seq<char>, b: Seq<char>) -> bool {
    match p.result_status {
        Field::Present(s) => s@ == a || s@ == b,
        _ => false,
    }
}

pub open spec fn some_status(ps: Seq<PluginStatus>, a: Seq<char>, b: Seq<char>) -> bool {
    exists|i: int| 0 <= i < ps.len() && status_is(#[trigger] ps[i], a, b)
}

pub open spec fn all_status(ps: Seq<PluginStatus>, a: Seq<char>, b: Seq<char>) -> bool {
    forall|i: int| 0 <= i < ps.len() ==> status_is(#[trigger] ps[i], a, b)
}

/// The overall outcome of the plugins: any failure makes it a failure; otherwise any time-out a
/// time-out; otherwise it is a pass when there are plugins and every one of them passed, and
/// unknown when some plugin has not finished.
pub open spec fn overall_outcome(ps: Seq<PluginStatus>) -> Outcome {
    if some_status(ps, "fail"@, "failed"@) {
        Outcome::Fail
    } else if some_status(ps, "timeout"@, "timed-out"@) {
        Outcome::Timeout
    } else if ps.len() > 0 && all_status(ps, "pass"@, "passed"@) {
        Outcome::Pass
    } else {
        Outcome::Unknown
    }
}

/// The counts of the plugins before the first incomplete entry fit in a `u64`.
pub open spec fn counts_fit(status: SonobuoyStatus) -> bool {
    match status.plugins {
        Field::Present(v) => {
            let ok = v@.take(first_bad_from(v@, 0) as int);
            &&& sum_passed(ok) <= u64::MAX
            &&& sum_failed(ok) <= u64::MAX
            &&& sum_skipped(ok) <= u64::MAX
        },
        _ => true,
    }
}

/// What `sonobuoy status` gives: the summed counts and the overall outcome of all plugins, with
/// their progress notes joined by `, `; or the first missing field.
pub open spec fn sonobuoy_results_spec(status: SonobuoyStatus) -> Result<
    (Outcome, int, int, int, Seq<char>),
    Seq<char>,
> {
    match status.plugins {
        Field::Present(v) => {
            let ps = v@;
            let k = first_bad_from(ps, 0);
            if k < ps.len() {
                Err(plugin_missing_field(ps[k as int]))
            } else {
                Ok(
                    (
                        overall_outcome(ps),
                        sum_passed(ps),
                        sum_failed(ps),
                        sum_skipped(ps),
                        join(progress_notes(ps), ", "@),
                    ),
                )
            }
        },
        _ => Err("plugins"@),
    }
}

proof fn lemma_first_bad_from_bounds(ps: Seq<PluginStatus>, i: nat)
    requires
        i <= ps.len(),
    ensures
        i <= first_bad_from(ps, i) <= ps.len(),
        forall|j: int| i <= j < first_bad_from(ps, i) ==> plugin_ok(#[trigger] ps[j]),
        first_bad_from(ps, i) < ps.len() ==> !plugin_ok(ps[first_bad_from(ps, i) as int]),
    decreases ps.len() - i,
{
    if i < ps.len() && plugin_ok(ps[i as int]) {
        lemma_first_bad_from_bounds(ps, i + 1);
    }
}

proof fn lemma_sums_monotone(ps: Seq<PluginStatus>, i: int, j: int)
    requires
        0 <= i <= j <= ps.len(),
    ensures
        sum_passed(ps.take(i)) <= sum_passed(ps.take(j)),
        sum_failed(ps.take(i)) <= sum_failed(ps.take(j)),
        sum_skipped(ps.take(i)) <= sum_skipped(ps.take(j)),
    decreases j - i,
{
    if i < j {
        lemma_sums_monotone(ps, i, j - 1);
        assert(ps.take(j).drop_last() =~= ps.take(j - 1));
        let p = ps[j - 1];
        assert(passed_of(p) >= 0 && failed_of(p) >= 0 && skipped_of(p) >= 0);
    }
}

fn count_value(c: Option<u64>) -> (r: u64)
    ensures
        r == count_or_zero(c),
{
    match c {
        Some(n) => n,
        None => 0,
    }
}

/// The counts that fit in `u64`, as `counts_fit` states it.
pub fn status_counts_fit(status: &SonobuoyStatus) -> (r: bool)
    ensures
        r == counts_fit(*status),
{
    match &status.plugins {
        Field::Present(v) => {
            let mut passed: u64 = 0;
            let mut failed: u64 = 0;
            let mut skipped: u64 = 0;
            let mut i: usize = 0;
            proof {
                lemma_first_bad_from_bounds(v@, 0);
            }
            let ghost k = first_bad_from(v@, 0);
            while i < v.len()
                invariant
                    status.plugins == Field::Present(*v),
                    0 <= i <= k <= v@.len(),
                    k == first_bad_from(v@, 0),
                    forall|j: int| 0 <= j < k ==> plugin_ok(#[trigger] v@[j]),
                    k < v@.len() ==> !plugin_ok(v@[k as int]),
                    passed == sum_passed(v@.take(i as int)),
                    failed == sum_failed(v@.take(i as int)),
                    skipped == sum_skipped(v@.take(i as int)),
                ensures
                    i == k,
                decreases v.len() - i,
            {
                let p = &v[i];
                let ok = match (&p.plugin, &p.result_status, &p.result_counts) {
                    (Field::Present(_), Field::Present(_), Some(_)) => true,
                    _ => false,
                };
                if !ok {
                    assert(i == k);
                    break;
                }
                assert(v@.take(i + 1).drop_last() =~= v@.take(i as int));
                assert(v@.take(i + 1).last() == v@[i as int]);
                assert(plugin_ok(v@[i as int]));
                assert(i < k);
                let a = count_value(match &p.result_counts {
                    Some(c) => c.passed,
                    None => None,
                });
                let b = count_value(match &p.result_counts {
                    Some(c) => c.failed,
                    None => None,
                });
                let c = count_value(match &p.result_counts {
                    Some(c) => c.skipped,
                    None => None,
                });
                proof {
                    lemma_sums_monotone(v@, i + 1, k as int);
                    assert(a == passed_of(v@[i as int]) && b == failed_of(v@[i as int]) && c
                        == skipped_of(v@[i as int]));
                    let t = v@.take(i + 1);
                    assert(sum_passed(t) == sum_passed(v@.take(i as int)) + a);
                    assert(sum_failed(t) == sum_failed(v@.take(i as int)) + b);
                    assert(sum_skipped(t) == sum_skipped(v@.take(i as int)) + c);
                }
                match (passed.checked_add(a), failed.checked_add(b), skipped.checked_add(c)) {
                    (Some(x), Some(y), Some(z)) => {
                        passed = x;
                        failed = y;
                        skipped = z;
                    },
                    _ => {
                        return false;
                    },
                }
                i = i + 1;
            }
            true
        },
        _ => true,
    }
}

/// Parses the output from `sonobuoy status --json` and gets the overall status of the plugin
/// results: the summed counts, the outcome (any failure makes it a failure; otherwise any
/// time-out a time-out; otherwise a pass when all plugins passed), and the plugins' progress
/// notes.
pub fn process_sonobuoy_test_results(run_status: &SonobuoyStatus) -> (r: Result<TestResults, Error>)
    requires
        counts_fit(*run_status),
    ensures
        r matches Ok(t) ==> sonobuoy_results_spec(*run_status) == Ok::<
            (Outcome, int, int, int, Seq<char>),
            Seq<char>,
        >((t.outcome, t.num_passed as int, t.num_failed as int, t.num_skipped as int, t.other_info->0@))
            && t.other_info is Some,
        r matches Err(Error::MissingSonobuoyStatusField { field }) ==> sonobuoy_results_spec(
            *run_status,
        ) == Err::<(Outcome, int, int, int, Seq<char>), Seq<char>>(field@),
        r is Err ==> r->Err_0 is MissingSonobuoyStatusField,
        sonobuoy_results_spec(*run_status) is Ok ==> r is Ok,
{
    let plugins = match &run_status.plugins {
        Field::Present(v) => v,
        _ => {
            let mut field = String::new();
            field.append("plugins");
            proof {
                reveal_strlit("plugins");
            }
            return Err(Error::MissingSonobuoyStatusField { field });
        },
    };
    let ghost ps = plugins@;
    assert(run_status.plugins == Field::Present(*plugins));
    proof {
        lemma_first_bad_from_bounds(ps, 0);
    }
    let ghost k = first_bad_from(ps, 0);
    let mut num_passed: u64 = 0;
    let mut num_failed: u64 = 0;
    let mut num_skipped: u64 = 0;
    let mut progress: Vec<String> = Vec::new();
    let mut all_pass = true;
    let mut any_fail = false;
    let mut any_timeout = false;
    let mut i: usize = 0;
    while i < plugins.len()
        invariant
            ps == plugins@,
            run_status.plugins == Field::Present(*plugins),
            0 <= i <= k <= ps.len(),
            k == first_bad_from(ps, 0),
            forall|j: int| 0 <= j < k ==> plugin_ok(#[trigger] ps[j]),
            k < ps.len() ==> !plugin_ok(ps[k as int]),
            sum_passed(ps.take(k as int)) <= u64::MAX,
            sum_failed(ps.take(k as int)) <= u64::MAX,
            sum_skipped(ps.take(k as int)) <= u64::MAX,
            num_passed == sum_passed(ps.take(i as int)),
            num_failed == sum_failed(ps.take(i as int)),
            num_skipped == sum_skipped(ps.take(i as int)),
            progress@.map_values(|s: String| s@) == progress_notes(ps.take(i as int)),
            all_pass == all_status(ps.take(i as int), "pass"@, "passed"@),
            any_fail == some_status(ps.take(i as int), "fail"@, "failed"@),
            any_timeout == some_status(ps.take(i as int), "timeout"@, "timed-out"@),
        decreases plugins.len() - i,
    {
        let p = &plugins[i];
        let ghost prefix = ps.take(i as int);
        let ghost next = ps.take(i + 1);
        assert(next.drop_last() =~= prefix);
        assert(next.last() == *p);
        let plugin = match &p.plugin {
            Field::Present(name) => name,
            _ => {
                let mut field = String::new();
                field.append("plugins.[].plugin");
                proof {
                    reveal_strlit("plugins.[].plugin");
                }
                return Err(Error::MissingSonobuoyStatusField { field });
            },
        };
        let status = match &p.result_status {
            Field::Present(s) => s,
            _ => {
                let mut field = String::new();
                field.append("plugins.");
                field.append(plugin.as_str());
                field.append(".result-status");
                assert(field@ =~= "plugins."@ + plugin@ + ".result-status"@);
                assert(!plugin_ok(ps[i as int]));
                assert(i == k);
                return Err(Error::MissingSonobuoyStatusField { field });
            },
        };
        let counts = match &p.result_counts {
            Some(c) => c,
            None => {
                let mut field = String::new();
                field.append("plugins.");
                field.append(plugin.as_str());
                field.append(".result-counts");
                assert(field@ =~= "plugins."@ + plugin@ + ".result-counts"@);
                assert(!plugin_ok(ps[i as int]));
                assert(i == k);
                return Err(Error::MissingSonobuoyStatusField { field });
            },
        };
        assert(plugin_ok(*p));
        proof {
            lemma_sums_monotone(ps, i + 1, k as int);
        }
        if let Some(text) = &p.progress {
            let mut note = String::new();
            note.append(plugin.as_str());
            note.append(": ");
            note.append(text.as_str());
            progress.push(note);
        }
        let s = status.as_str();
        let is_pass = str_eq(s, "pass") || str_eq(s, "passed");
        let is_fail = str_eq(s, "fail") || str_eq(s, "failed");
        let is_timeout = str_eq(s, "timeout") || str_eq(s, "timed-out");
        proof {
            assert(is_pass == status_is(*p, "pass"@, "passed"@));
            assert(is_fail == status_is(*p, "fail"@, "failed"@));
            assert(is_timeout == status_is(*p, "timeout"@, "timed-out"@));
            lemma_all_status_push(prefix, *p, "pass"@, "passed"@);
            lemma_some_status_push(prefix, *p, "fail"@, "failed"@);
            lemma_some_status_push(prefix, *p, "timeout"@, "timed-out"@);
            assert(prefix.push(*p) =~= next);
        }
        all_pass = all_pass && is_pass;
        any_fail = any_fail || is_fail;
        any_timeout = any_timeout || is_timeout;
        num_passed = num_passed + count_value(counts.passed);
        num_failed = num_failed + count_value(counts.failed);
        num_skipped = num_skipped + count_value(counts.skipped);
        assert(progress@.map_values(|s: String| s@) =~= progress_notes(next));
        i = i + 1;
    }
    assert(ps.take(i as int) =~= ps);
    let outcome = if any_fail {
        Outcome::Fail
    } else if any_timeout {
        Outcome::Timeout
    } else if plugins.len() > 0 && all_pass {
        Outcome::Pass
    } else {
        Outcome::Unknown
    };
    let other_info = join_strings(&progress, ", ");
    proof {
        reveal_strlit(", ");
    }
    Ok(
        TestResults {
            outcome,
            num_passed,
            num_failed,
            num_skipped,
            other_info: Some(other_info),
        },
    )
}

proof fn lemma_all_status_push(ps: Seq<PluginStatus>, p: PluginStatus, a: Seq<char>, b: Seq<char>)
    ensures
        all_status(ps.push(p), a, b) == (all_status(ps, a, b) && status_is(p, a, b)),
{
    let q = ps.push(p);
    if all_status(q, a, b) {
        assert forall|i: int| 0 <= i < ps.len() implies status_is(#[trigger] ps[i], a, b) by {
            assert(q[i] == ps[i]);
        }
        assert(q[ps.len() as int] == p);
    }
    if all_status(ps, a, b) && status_is(p, a, b) {
        assert forall|i: int| 0 <= i < q.len() implies status_is(#[trigger] q[i], a, b) by {
            if i < ps.len() {
                assert(q[i] == ps[i]);
            }
        }
    }
}

proof fn lemma_some_status_push(ps: Seq<PluginStatus>, p: PluginStatus, a: Seq<char>, b: Seq<char>)
    ensures
        some_status(ps.push(p), a, b) == (some_status(ps, a, b) || status_is(p, a, b)),
{
    let q = ps.push(p);
    if some_status(ps, a, b) {
        let i = choose|i: int| 0 <= i < ps.len() && status_is(#[trigger] ps[i], a, b);
        assert(q[i] == ps[i]);
    }
    if status_is(p, a, b) {
        assert(q[ps.len() as int] == p);
    }
    if some_status(q, a, b) {
        let i = choose|i: int| 0 <= i < q.len() && status_is(#[trigger] q[i], a, b);
        if i < ps.len() {
            assert(q[i] == ps[i]);
        }
    }
}


/// Whether `f` is what the agent reads of a string field whose value is `d` (`None`: absent).
pub open spec fn text_field_of(f: Field<String>, d: Option<DocView>) -> bool {
    match d {
        None => f is Missing,
        Some(v) => match doc_text(Some(v)) {
            Some(t) => f matches Field::Present(x) && x@ == t,
            None => f is Mistyped,
        },
    }
}

/// Whether `c` is what the agent reads of a count whose value is `d`: an unsigned integer, else
/// nothing.
pub open spec fn count_of(c: Option<u64>, d: Option<DocView>) -> bool {
    match d {
        Some(DocView::Number(t)) => c == parse_u64_spec(t),
        _ => c is None,
    }
}

/// Whether `p` is what the agent reads of the plugin entry `d`.
pub open spec fn plugin_of(p: PluginStatus, d: DocView) -> bool {
    &&& text_field_of(p.plugin, doc_get(d, "plugin"@))
    &&& text_field_of(p.result_status, doc_get(d, "result-status"@))
    &&& match doc_get(d, "progress"@) {
        Some(v) => p.progress matches Some(t) && t@ == json_compact(v),
        None => p.progress is None,
    }
    &&& match doc_get(d, "result-counts"@) {
        Some(c) => p.result_counts matches Some(rc) && count_of(rc.passed, doc_get(c, "passed"@))
            && count_of(rc.failed, doc_get(c, "failed"@)) && count_of(
            rc.skipped,
            doc_get(c, "skipped"@),
        ),
        None => p.result_counts is None,
    }
}

/// Whether `s` is what the agent reads of the JSON value `d` of `sonobuoy status --json`.
pub open spec fn status_of(s: SonobuoyStatus, d: DocView) -> bool {
    match doc_get(d, "plugins"@) {
        None => s.plugins is Missing,
        Some(v) => match doc_list(Some(v)) {
            Some(items) => s.plugins matches Field::Present(ps) && ps@.len() == items.len() && forall|
                i: int,
            |
                0 <= i < items.len() ==> plugin_of(#[trigger] ps@[i], items[i]),
            None => s.plugins is Mistyped,
        },
    }
}

fn text_field(d: Option<&Doc>) -> (r: Field<String>)
    ensures
        text_field_of(
            r,
            match d {
                Some(x) => Some(x@),
                None => None,
            },
        ),
{
    match d {
        None => Field::Missing,
        Some(v) => match v.as_text() {
            Some(t) => Field::Present(t.clone()),
            None => Field::Mistyped,
        },
    }
}

fn count(d: Option<&Doc>) -> (r: Option<u64>)
    ensures
        count_of(
            r,
            match d {
                Some(x) => Some(x@),
                None => None,
            },
        ),
{
    match d {
        Some(Doc::Number(t)) => parse_u64(t.as_str()),
        _ => None,
    }
}

/// What the agent reads of one plugin entry of `sonobuoy status --json`.
pub fn plugin_status(d: &Doc) -> (r: PluginStatus)
    ensures
        plugin_of(r, d@),
{
    let progress = match d.get("progress") {
        Some(v) => Some(json_text(v)),
        None => None,
    };
    let result_counts = match d.get("result-counts") {
        Some(c) => Some(
            ResultCounts {
                passed: count(c.get("passed")),
                failed: count(c.get("failed")),
                skipped: count(c.get("skipped")),
            },
        ),
        None => None,
    };
    PluginStatus {
        plugin: text_field(d.get("plugin")),
        progress,
        result_status: text_field(d.get("result-status")),
        result_counts,
    }
}

/// What the agent reads of the JSON value of `sonobuoy status --json`: its `plugins` array.
pub fn sonobuoy_status(d: &Doc) -> (r: SonobuoyStatus)
    ensures
        status_of(r, d@),
{
    let plugins = match d.get("plugins") {
        None => Field::Missing,
        Some(v) => match v.as_list() {
            Some(items) => {
                let ghost views = doc_views(items@);
                let mut ps: Vec<PluginStatus> = Vec::new();
                let mut i: usize = 0;
                while i < items.len()
                    invariant
                        0 <= i <= items@.len(),
                        views == doc_views(items@),
                        ps@.len() == i,
                        forall|j: int| 0 <= j < i ==> plugin_of(#[trigger] ps@[j], views[j]),
                    decreases items.len() - i,
                {
                    ps.push(plugin_status(&items[i]));
                    i = i + 1;
                }
                Field::Present(ps)
            },
            None => Field::Mistyped,
        },
    };
    SonobuoyStatus { plugins }
}

/// Whether `res` gives what `sonobuoy_results_spec` says of `s`.
pub open spec fn results_match(res: Result<TestResults, Error>, s: SonobuoyStatus) -> bool {
    match sonobuoy_results_spec(s) {
        Ok((outcome, passed, failed, skipped, info)) => match res {
            Ok(t) => t.outcome == outcome && t.num_passed == passed && t.num_failed == failed
                && t.num_skipped == skipped && t.other_info is Some && t.other_info->0@ == info,
            Err(_) => false,
        },
        Err(field) => match res {
            Err(Error::MissingSonobuoyStatusField { field: f }) => f@ == field,
            _ => false,
        },
    }
}

/// The test results of the output `stdout` of `sonobuoy status --json`, or the error for a
/// missing field or an output that is no JSON. `None` only where the summed counts do not fit
/// in a `u64`.
pub fn sonobuoy_results(stdout: &str) -> (r: Option<Result<TestResults, Error>>)
    ensures
        match json_document(stdout@) {
            None => r == Some(Err::<TestResults, Error>(Error::DeserializeJson)),
            Some(d) => exists|s: SonobuoyStatus|
                #![trigger status_of(s, d)]
                {
                    &&& status_of(s, d)
                    &&& counts_fit(s) ==> (r matches Some(res) && results_match(res, s))
                    &&& !counts_fit(s) ==> r is None
                },
        },
{
    let d = match parse_json(stdout) {
        Some(d) => d,
        None => {
            return Some(Err(Error::DeserializeJson));
        },
    };
    let status = sonobuoy_status(&d);
    if !status_counts_fit(&status) {
        return None;
    }
    let res = process_sonobuoy_test_results(&status);
    assert(results_match(res, status));
    Some(res)
}

/// `--kubeconfig <path>` followed by the arguments of `sonobuoy run` for `config`: the plugin and
/// mode, the conformance image when one is given (else the Kubernetes version, when one is
/// given), and the e2e repository configuration when there is one.
pub open spec fn sonobuoy_run_args_spec(
    kubeconfig_path: Seq<char>,
    e2e_repo_config_path: Option<Seq<char>>,
    config: SonobuoyConfig,
) -> Seq<Seq<char>> {
    seq!["--kubeconfig"@, kubeconfig_path, "run"@, "--wait"@, "--plugin"@, config.plugin@, "--mode"@,
        sonobuoy_mode_text(config.mode)] + match (config.kube_conformance_image, config.kubernetes_version) {
        (Some(image), _) => seq!["--kube-conformance-image"@, image@],
        (None, Some(version)) => seq!["--kubernetes-version"@, full_version_with_v_text(version@)],
        (None, None) => Seq::empty(),
    } + match e2e_repo_config_path {
        Some(p) => seq!["--e2e-repo-config"@, p],
        None => Seq::empty(),
    }
}

fn push_str(v: &mut Vec<String>, s: &str)
    ensures
        final(v)@.map_values(|x: String| x@) == old(v)@.map_values(|x: String| x@).push(s@),
{
    let mut t = String::new();
    t.append(s);
    v.push(t);
    assert(v@.map_values(|x: String| x@) =~= old(v)@.map_values(|x: String| x@).push(s@));
}

/// The arguments with which the agent runs `sonobuoy` to start the tests of `sonobuoy_config`.
pub fn sonobuoy_run_args(
    kubeconfig_path: &str,
    e2e_repo_config_path: Option<&str>,
    sonobuoy_config: &SonobuoyConfig,
) -> (r: Vec<String>)
    ensures
        r@.map_values(|s: String| s@) == sonobuoy_run_args_spec(
            kubeconfig_path@,
            match e2e_repo_config_path {
                Some(p) => Some(p@),
                None => None,
            },
            *sonobuoy_config,
        ),
{
    let mut v: Vec<String> = Vec::new();
    push_str(&mut v, "--kubeconfig");
    push_str(&mut v, kubeconfig_path);
    push_str(&mut v, "run");
    push_str(&mut v, "--wait");
    push_str(&mut v, "--plugin");
    push_str(&mut v, sonobuoy_config.plugin.as_str());
    push_str(&mut v, "--mode");
    let mode = sonobuoy_config.mode.to_string();
    push_str(&mut v, mode.as_str());
    match (&sonobuoy_config.kube_conformance_image, &sonobuoy_config.kubernetes_version) {
        (Some(image), _) => {
            push_str(&mut v, "--kube-conformance-image");
            push_str(&mut v, image.as_str());
        },
        (None, Some(version)) => {
            push_str(&mut v, "--kubernetes-version");
            let text = version.full_version_with_v();
            push_str(&mut v, text.as_str());
        },
        (None, None) => {},
    }
    match e2e_repo_config_path {
        Some(p) => {
            push_str(&mut v, "--e2e-repo-config");
            push_str(&mut v, p);
        },
        None => {},
    }
    assert(v@.map_values(|s: String| s@) =~= sonobuoy_run_args_spec(
        kubeconfig_path@,
        match e2e_repo_config_path {
            Some(p) => Some(p@),
            None => None,
        },
        *sonobuoy_config,
    ));
    v
}

/// `--kubeconfig <path> run [--e2e-repo-config <p>] --wait --rerun-failed <results file>`
pub open spec fn sonobuoy_rerun_args_spec(
    kubeconfig_path: Seq<char>,
    e2e_repo_config_path: Option<Seq<char>>,
    results_file: Seq<char>,
) -> Seq<Seq<char>> {
    seq!["--kubeconfig"@, kubeconfig_path, "run"@] + match e2e_repo_config_path {
        Some(p) => seq!["--e2e-repo-config"@, p],
        None => Seq::empty(),
    } + seq!["--wait"@, "--rerun-failed"@, results_file]
}

/// The arguments with which the agent reruns the failed tests recorded in `results_file`.
pub fn sonobuoy_rerun_args(
    kubeconfig_path: &str,
    e2e_repo_config_path: Option<&str>,
    results_file: &str,
) -> (r: Vec<String>)
    ensures
        r@.map_values(|s: String| s@) == sonobuoy_rerun_args_spec(
            kubeconfig_path@,
            match e2e_repo_config_path {
                Some(p) => Some(p@),
                None => None,
            },
            results_file@,
        ),
{
    let mut v: Vec<String> = Vec::new();
    push_str(&mut v, "--kubeconfig");
    push_str(&mut v, kubeconfig_path);
    push_str(&mut v, "run");
    match e2e_repo_config_path {
        Some(p) => {
            push_str(&mut v, "--e2e-repo-config");
            push_str(&mut v, p);
        },
        None => {},
    }
    push_str(&mut v, "--wait");
    push_str(&mut v, "--rerun-failed");
    push_str(&mut v, results_file);
    assert(v@.map_values(|s: String| s@) =~= sonobuoy_rerun_args_spec(
        kubeconfig_path@,
        match e2e_repo_config_path {
            Some(p) => Some(p@),
            None => None,
        },
        results_file@,
    ));
    v
}

/// The modes of the e2e plugin that the older test agent offers: `non-disruptive-conformance`,
/// `certified-conformance` and `quick`.
#[derive(Copy, Clone, Debug, Eq, PartialEq, Ord, PartialOrd, Hash, Structural)]
pub enum Mode {
    /// This is the default mode and will run all the tests in the e2e plugin which are marked
    /// `Conformance` which are known to not be disruptive to other workloads in your cluster.
    NonDisruptiveConformance,
    /// This mode runs all of the Conformance tests.
    CertifiedConformance,
    /// This mode will run a single test from the e2e test suite which is known to be simple and
    /// fast. Use this mode as a quick check that the cluster is responding and reachable.
    Quick,
}

impl Default for Mode {
    fn default() -> (r: Self)
        ensures
            r == Mode::NonDisruptiveConformance,
    {
        Self::NonDisruptiveConformance
    }
}

/// The kebab-case name of a mode.
pub open spec fn mode_text(m: Mode) -> Seq<char> {
    match m {
        Mode::NonDisruptiveConformance => "non-disruptive-conformance"@,
        Mode::CertifiedConformance => "certified-conformance"@,
        Mode::Quick => "quick"@,
    }
}

/// The mode with the kebab-case name `s`, if there is one.
pub open spec fn mode_named(s: Seq<char>) -> Option<Mode> {
    if s == "non-disruptive-conformance"@ {
        Some(Mode::NonDisruptiveConformance)
    } else if s == "certified-conformance"@ {
        Some(Mode::CertifiedConformance)
    } else if s == "quick"@ {
        Some(Mode::Quick)
    } else {
        None
    }
}

impl Mode {
    /// The kebab-case name of the mode (its `Display` form).
    pub fn to_string(&self) -> (r: String)
        ensures
            r@ == mode_text(*self),
    {
        let mut s = String::new();
        match self {
            Mode::NonDisruptiveConformance => s.append("non-disruptive-conformance"),
            Mode::CertifiedConformance => s.append("certified-conformance"),
            Mode::Quick => s.append("quick"),
        }
        s
    }

    /// The mode with the kebab-case name `s` (its `FromStr` form); `None` for any other text.
    pub fn from_name(s: &str) -> (r: Option<Self>)
        ensures
            r == mode_named(s@),
    {
        if str_eq(s, "non-disruptive-conformance") {
            Some(Mode::NonDisruptiveConformance)
        } else if str_eq(s, "certified-conformance") {
            Some(Mode::CertifiedConformance)
        } else if str_eq(s, "quick") {
            Some(Mode::Quick)
        } else {
            None
        }
    }
}

/// Reading a mode's name gives the mode back.
pub proof fn lemma_mode_name_round_trip(m: Mode)
    ensures
        mode_named(mode_text(m)) == Some(m),
{
    reveal_strlit("non-disruptive-conformance");
    reveal_strlit("certified-conformance");
    reveal_strlit("quick");
    assert("non-disruptive-conformance"@[0] != "certified-conformance"@[0]);
    assert("non-disruptive-conformance"@[0] != "quick"@[0]);
    assert("certified-conformance"@[0] != "quick"@[0]);
}

/// The arguments of `sonobuoy retrieve` that save the results to `results_file`.
pub fn retrieve_args(kubeconfig_path: &str, results_file: &str) -> (r: Vec<String>)
    ensures
        string_views(r@) == seq![
            "--kubeconfig"@,
            kubeconfig_path@,
            "retrieve"@,
            "--filename"@,
            results_file@,
        ],
{
    let mut v: Vec<String> = Vec::new();
    push_text(&mut v, "--kubeconfig");
    push_text(&mut v, kubeconfig_path);
    push_text(&mut v, "retrieve");
    push_text(&mut v, "--filename");
    push_text(&mut v, results_file);
    v
}

/// The arguments of `sonobuoy results` that check the saved results.
pub fn results_args(results_file: &str) -> (r: Vec<String>)
    ensures
        string_views(r@) == seq!["results"@, results_file@],
{
    let mut v: Vec<String> = Vec::new();
    push_text(&mut v, "results");
    push_text(&mut v, results_file);
    v
}

/// The arguments of `sonobuoy status --json`.
pub fn status_args(kubeconfig_path: &str) -> (r: Vec<String>)
    ensures
        string_views(r@) == seq!["--kubeconfig"@, kubeconfig_path@, "status"@, "--json"@],
{
    let mut v: Vec<String> = Vec::new();
    push_text(&mut v, "--kubeconfig");
    push_text(&mut v, kubeconfig_path);
    push_text(&mut v, "status");
    push_text(&mut v, "--json");
    v
}

/// The arguments of `sonobuoy delete` that remove all of sonobuoy's namespaces and resources.
pub fn delete_args(kubeconfig_path: &str) -> (r: Vec<String>)
    ensures
        string_views(r@) == seq!["--kubeconfig"@, kubeconfig_path@, "delete"@, "--all"@, "--wait"@],
{
    let mut v: Vec<String> = Vec::new();
    push_text(&mut v, "--kubeconfig");
    push_text(&mut v, kubeconfig_path);
    push_text(&mut v, "delete");
    push_text(&mut v, "--all");
    push_text(&mut v, "--wait");
    v
}


/// `sonobuoy run` waits for the tests, runs the configured plugin, and passes the configured mode
/// by its name after `--mode`, whatever the plugin is called.
pub proof fn lemma_run_passes_configured_mode(
    kubeconfig_path: Seq<char>,
    e2e_repo_config_path: Option<Seq<char>>,
    config: SonobuoyConfig,
)
    ensures
        sonobuoy_run_args_spec(kubeconfig_path, e2e_repo_config_path, config).len() >= 8,
        sonobuoy_run_args_spec(kubeconfig_path, e2e_repo_config_path, config)[0] == "--kubeconfig"@,
        sonobuoy_run_args_spec(kubeconfig_path, e2e_repo_config_path, config)[1] == kubeconfig_path,
        sonobuoy_run_args_spec(kubeconfig_path, e2e_repo_config_path, config)[2] == "run"@,
        sonobuoy_run_args_spec(kubeconfig_path, e2e_repo_config_path, config)[3] == "--wait"@,
        sonobuoy_run_args_spec(kubeconfig_path, e2e_repo_config_path, config)[4] == "--plugin"@,
        sonobuoy_run_args_spec(kubeconfig_path, e2e_repo_config_path, config)[5] == config.plugin@,
        sonobuoy_run_args_spec(kubeconfig_path, e2e_repo_config_path, config)[6] == "--mode"@,
        sonobuoy_run_args_spec(kubeconfig_path, e2e_repo_config_path, config)[7] == match config.mode {
            SonobuoyMode::NonDisruptiveConformance => "non-disruptive-conformance"@,
            SonobuoyMode::ConformanceLite => "conformance-lite"@,
            SonobuoyMode::CertifiedConformance => "certified-conformance"@,
            SonobuoyMode::Quick => "quick"@,
        },
{
}

} // verus!
