use bottlerocket_agents::agent_config::{SonobuoyConfig, SonobuoyMode};
use bottlerocket_agents::provider::Outcome;
use bottlerocket_agents::document::Doc;
use bottlerocket_agents::sonobuoy::{
    sonobuoy_results, sonobuoy_status, Error, Field, Mode, PluginStatus, ResultCounts,
    SonobuoyStatus,
};
fn results(text: &str) -> bottlerocket_agents::provider::TestResults {
    sonobuoy_results(text).unwrap().unwrap()
}

#[test]
fn test_process_results_pass() {
    let result = results(
        r#"{"plugins":[{"plugin":"e2e","node":"global","status":"complete","result-status":"passed","result-counts":{"passed":6}}]}"#,
    );
    assert_eq!(result.num_passed, 6);
    assert_eq!(result.num_failed, 0);
    assert_eq!(result.num_skipped, 0);
    assert_eq!(result.outcome, Outcome::Pass);
    assert_eq!(result.other_info.unwrap(), "");
}

#[test]
fn test_process_results_failed() {
    let result = results(
        r#"{"plugins":[{"plugin":"e2e","node":"global","status":"complete","result-status":"failed","result-counts":{"failed":1}}]}"#,
    );
    assert_eq!(result.num_passed, 0);
    assert_eq!(result.num_failed, 1);
    assert_eq!(result.num_skipped, 0);
    assert_eq!(result.outcome, Outcome::Fail);
    assert_eq!(result.other_info.unwrap(), "");
}

#[test]
fn test_process_results_timeout() {
    let result = results(
        r#"{"plugins":[{"plugin":"e2e","node":"global","status":"complete","result-status":"timed-out","result-counts":{"failed":1}}]}"#,
    );
    assert_eq!(result.num_passed, 0);
    assert_eq!(result.num_failed, 1);
    assert_eq!(result.num_skipped, 0);
    assert_eq!(result.outcome, Outcome::Timeout);
    assert_eq!(result.other_info.unwrap(), "");
}

#[test]
fn test_process_results_progress_object() {
    let result = results(
        r#"{"plugins":[{"plugin":"e2e","progress":{"name":"e2e","node":"global","timestamp":"2022-12-08T15:37:23.007805243Z","msg":"Test Suite completed","total":1,"completed":1},"status":"complete","result-status":"timed-out","result-counts":{"failed":1}}]}"#,
    );
    assert_eq!(result.num_passed, 0);
    assert_eq!(result.num_failed, 1);
    assert_eq!(result.num_skipped, 0);
    assert_eq!(result.outcome, Outcome::Timeout);
    assert_eq!(result.other_info.unwrap(), "e2e: {\"name\":\"e2e\",\"node\":\"global\",\"timestamp\":\"2022-12-08T15:37:23.007805243Z\",\"msg\":\"Test Suite completed\",\"total\":1,\"completed\":1}");
}

#[test]
fn test_process_results_multiple_pass() {
    // All must pass to report passing status.
    let result = results(
        r#"{
            "plugins":[
                {"plugin":"smoketest","node":"global","status":"complete","result-status":"pass","result-counts":{"passed":1}},
                {"plugin":"workload","node":"global","status":"complete","result-status":"pass","result-counts":{"passed":1,"skipped":1}}
            ]}"#,
    );
    assert_eq!(result.num_passed, 2);
    assert_eq!(result.num_failed, 0);
    assert_eq!(result.num_skipped, 1);
    assert_eq!(result.outcome, Outcome::Pass);
    assert_eq!(result.other_info.unwrap(), "");
}

#[test]
fn test_process_results_multiple_pass_and_fail() {
    // Verify that is one fails, overall status is reported as failure.
    let result = results(
        r#"{
            "plugins":[
                {"plugin":"smoketest","node":"global","status":"complete","result-status":"pass","result-counts":{"passed":1}},
                {"plugin":"workload","node":"global","status":"complete","result-status":"fail","result-counts":{"failed":1,"skipped":1}}
            ]}"#,
    );
    assert_eq!(result.num_passed, 1);
    assert_eq!(result.num_failed, 1);
    assert_eq!(result.num_skipped, 1);
    assert_eq!(result.outcome, Outcome::Fail);
    assert_eq!(result.other_info.unwrap(), "");
}

#[test]
fn test_process_results_multiple_pass_and_timeout() {
    // Timeout takes precedence over passing.
    let result = results(
        r#"{
            "plugins":[
                {"plugin":"smoketest","node":"global","status":"complete","result-status":"pass","result-counts":{"passed":1}},
                {"plugin":"workload","node":"global","status":"complete","result-status":"timeout","result-counts":{"failed":1,"skipped":1}}
            ]}"#,
    );
    assert_eq!(result.num_passed, 1);
    assert_eq!(result.num_failed, 1);
    assert_eq!(result.num_skipped, 1);
    assert_eq!(result.outcome, Outcome::Timeout);
    assert_eq!(result.other_info.unwrap(), "");
}

#[test]
fn test_process_results_multiple_timeout_and_failure() {
    // Failure takes precendence over timeout.
    let result = results(
        r#"{
            "plugins":[
                {"plugin":"smoketest","node":"global","status":"complete","result-status":"failed","result-counts":{"failed":1}},
                {"plugin":"workload","node":"global","status":"complete","result-status":"timeout","result-counts":{"skipped":1}}
            ]}"#,
    );
    assert_eq!(result.num_passed, 0);
    assert_eq!(result.num_failed, 1);
    assert_eq!(result.num_skipped, 1);
    assert_eq!(result.outcome, Outcome::Fail);
    assert_eq!(result.other_info.unwrap(), "");
}

#[test]
fn test_process_results_other_info() {
    let result = results(
        r#"{
            "plugins":[
                {"plugin":"smoketest","progress":"one","status":"complete","result-status":"pass","result-counts":{"passed":1}},
                {"plugin":"workload","progress":"two","status":"complete","result-status":"pass","result-counts":{"passed":1,"skipped":1}}
            ]}"#,
    );
    assert_eq!(result.num_passed, 2);
    assert_eq!(result.num_failed, 0);
    assert_eq!(result.num_skipped, 1);
    assert_eq!(result.outcome, Outcome::Pass);
    assert_eq!(
        result.other_info.unwrap(),
        "smoketest: \"one\", workload: \"two\""
    );
}

#[test]
fn sonobuoy_results_missing_fields() {
    let missing = |text: &str| match sonobuoy_results(text).unwrap() {
        Err(Error::MissingSonobuoyStatusField { field }) => field,
        _ => panic!("expected a missing field"),
    };
    assert_eq!(missing(r#"{}"#), "plugins");
    assert_eq!(missing(r#"{"plugins": 3}"#), "plugins");
    assert_eq!(
        missing(r#"{"plugins":[{"result-status":"passed","result-counts":{}}]}"#),
        "plugins.[].plugin"
    );
    assert_eq!(
        missing(r#"{"plugins":[{"plugin":"e2e","result-counts":{}}]}"#),
        "plugins.e2e.result-status"
    );
    assert_eq!(
        missing(r#"{"plugins":[{"plugin":"e2e","result-status":"passed"}]}"#),
        "plugins.e2e.result-counts"
    );
}

#[test]
fn sonobuoy_results_unknown_outcome() {
    let result = results(r#"{"plugins":[]}"#);
    assert_eq!(result.outcome, Outcome::Unknown);
    assert_eq!(result.num_passed, 0);
    let result = results(
        r#"{"plugins":[{"plugin":"e2e","result-status":"running","result-counts":{"passed":"x"}}]}"#,
    );
    assert_eq!(result.outcome, Outcome::Unknown);
    assert_eq!(result.num_passed, 0);
}

#[test]
fn sonobuoy_counts_that_overflow_are_detected() {
    let text = r#"{"plugins":[
            {"plugin":"a","result-status":"passed","result-counts":{"passed":18446744073709551615}},
            {"plugin":"b","result-status":"passed","result-counts":{"passed":1}}
        ]}"#;
    assert!(sonobuoy_results(text).is_none());
}

#[test]
fn sonobuoy_results_need_every_plugin_to_pass() {
    let result = results(
        r#"{"plugins":[
            {"plugin":"smoketest","status":"complete","result-status":"pass","result-counts":{"passed":1}},
            {"plugin":"workload","status":"running","result-status":"running","result-counts":{}}
        ]}"#,
    );
    assert_eq!(result.outcome, Outcome::Unknown);
    assert_eq!(result.num_passed, 1);
}

#[test]
fn sonobuoy_results_of_text_that_is_no_json() {
    assert_eq!(sonobuoy_results("not json"), Some(Err(Error::DeserializeJson)));
}

fn t(s: &str) -> Doc {
    Doc::Text(s.to_string())
}

#[test]
fn sonobuoy_status_model_of_a_plugin_entry() {
    let entry = Doc::Mapping(vec![
        (t("plugin"), t("e2e")),
        (t("progress"), Doc::Mapping(vec![(t("msg"), t("done"))])),
        (t("result-status"), Doc::Bool(true)),
        (
            t("result-counts"),
            Doc::Mapping(vec![
                (t("passed"), Doc::Number("3".to_string())),
                (t("failed"), Doc::Number("-1".to_string())),
            ]),
        ),
    ]);
    let status = sonobuoy_status(&Doc::Mapping(vec![(t("plugins"), Doc::List(vec![entry]))]));
    let expected = SonobuoyStatus {
        plugins: Field::Present(vec![PluginStatus {
            plugin: Field::Present("e2e".to_string()),
            progress: Some("{\"msg\":\"done\"}".to_string()),
            result_status: Field::Mistyped,
            result_counts: Some(ResultCounts { passed: Some(3), failed: None, skipped: None }),
        }]),
    };
    assert_eq!(status, expected);
    assert_eq!(sonobuoy_status(&Doc::Mapping(vec![])), SonobuoyStatus { plugins: Field::Missing });
    assert_eq!(
        sonobuoy_status(&Doc::Mapping(vec![(t("plugins"), t("x"))])),
        SonobuoyStatus { plugins: Field::Mistyped }
    );
}

#[test]
fn sonobuoy_mode_names() {
    assert_eq!(SonobuoyMode::default(), SonobuoyMode::NonDisruptiveConformance);
    for m in [
        SonobuoyMode::NonDisruptiveConformance,
        SonobuoyMode::ConformanceLite,
        SonobuoyMode::CertifiedConformance,
        SonobuoyMode::Quick,
    ] {
        assert_eq!(SonobuoyMode::from_name(&m.to_string()), Some(m));
    }
    assert_eq!(SonobuoyMode::ConformanceLite.to_string(), "conformance-lite");
    assert_eq!(SonobuoyMode::from_name("Quick"), None);
    assert_eq!(SonobuoyConfig::default().mode, SonobuoyMode::NonDisruptiveConformance);
}

#[test]
fn older_sonobuoy_mode_names() {
    assert_eq!(Mode::default(), Mode::NonDisruptiveConformance);
    assert_eq!(Mode::CertifiedConformance.to_string(), "certified-conformance");
    assert_eq!(Mode::from_name("quick"), Some(Mode::Quick));
    assert_eq!(Mode::from_name("conformance-lite"), None);
}
