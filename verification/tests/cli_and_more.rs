use bottlerocket_agents::cli::{
    crd_type_filter, log_target, progress_mode, resource_log_selectors, test_log_selector,
    CrdType, LogTarget, ResourceState, StatusProgress,
};
use bottlerocket_agents::ecs::{
    completion_reached, first_matching_revision, timed_out_results, waiting_message,
    ContainerDefinition, TaskDefinition, WorkloadTest,
};
use bottlerocket_agents::eks::{ClusterConfig, EksCreator};
use bottlerocket_agents::provider::{Outcome, Resources, TestResults};
use bottlerocket_agents::vsphere_vm::vsphere_credentials_env;

#[test]
fn cli_status_flags() {
    assert_eq!(crd_type_filter(true, false), Some(CrdType::Test));
    assert_eq!(crd_type_filter(false, true), Some(CrdType::Resource));
    assert_eq!(crd_type_filter(true, true), None);
    assert_eq!(crd_type_filter(false, false), None);
    assert_eq!(progress_mode(true, true), Some(StatusProgress::WithTests));
    assert_eq!(progress_mode(false, true), Some(StatusProgress::Resources));
    assert_eq!(progress_mode(false, false), None);
}

#[test]
fn cli_log_targets() {
    assert!(matches!(log_target(Some("t".to_string()), None, None, false), Ok(LogTarget::Test(t)) if t == "t"));
    assert!(matches!(
        log_target(None, Some("r".to_string()), Some(ResourceState::Destruction), false),
        Ok(LogTarget::Resource(r, ResourceState::Destruction)) if r == "r"
    ));
    assert!(matches!(log_target(None, None, None, true), Ok(LogTarget::Controller)));
    let e = log_target(Some("t".to_string()), None, None, true).unwrap_err();
    assert_eq!(
        e,
        "Invalid arguments were provided. Exactly one of `--test`, `--resource`, and `--controller` must be used."
    );
    assert!(log_target(None, Some("r".to_string()), None, false).is_err());
    assert_eq!(test_log_selector("t"), "job-name=t");
    assert_eq!(
        resource_log_selectors(&vec!["a".to_string(), "b".to_string()]),
        vec![
            "job-name=a-creation".to_string(),
            "job-name=a-destruction".to_string(),
            "job-name=b-creation".to_string(),
            "job-name=b-destruction".to_string(),
        ]
    );
}

#[test]
fn ecs_workload_revisions_and_waiting() {
    let test_def = WorkloadTest { name: "n".to_string(), image: "i".to_string(), gpu: false };
    let def = |image: &str| TaskDefinition {
        container_definitions: Some(vec![ContainerDefinition {
            name: Some("n".to_string()),
            image: Some(image.to_string()),
            resource_requirements: None,
        }]),
    };
    let revisions = vec![None, Some(def("other")), Some(def("i")), Some(def("i"))];
    assert_eq!(first_matching_revision(&revisions, &test_def), Some(2));
    assert_eq!(first_matching_revision(&vec![None, Some(def("x"))], &test_def), None);
    assert!(completion_reached(Outcome::Pass));
    assert!(completion_reached(Outcome::Fail));
    assert!(!completion_reached(Outcome::InProgress));
    assert_eq!(waiting_message(12), "Waiting for test completion: attempt 12");
    let in_progress = TestResults {
        outcome: Outcome::InProgress,
        num_passed: 1,
        num_failed: 0,
        num_skipped: 0,
        other_info: None,
    };
    let r = timed_out_results(in_progress);
    assert_eq!((r.outcome, r.num_passed), (Outcome::Timeout, 1));
    let passed = TestResults { outcome: Outcome::Pass, num_passed: 2, num_failed: 0, num_skipped: 0, other_info: None };
    assert_eq!(timed_out_results(passed).outcome, Outcome::Pass);
}

#[test]
fn eks_creation_commands() {
    let c = EksCreator {};
    let args = ClusterConfig::from_args("c".to_string(), None, None, None);
    assert_eq!(c.create_cluster_args(&args), vec!["create", "cluster", "-f", "/local/cluster_config.yaml"]);
    let file = ClusterConfig::ConfigPath { cluster_name: "c".to_string(), region: "r".to_string() };
    assert_eq!(c.create_cluster_args(&file)[3], "/local/eksctl_config.yaml");
    assert_eq!(
        c.update_kubeconfig_args("c", &None, "r", "/tmp/k"),
        vec!["eks", "update-kubeconfig", "--region", "r", "--name", "c", "--kubeconfig", "/tmp/k"]
    );
    assert_eq!(
        c.update_kubeconfig_args("c", &Some("https://e".to_string()), "r", "/tmp/k")[8..],
        ["--endpoint".to_string(), "https://e".to_string()]
    );
}

#[test]
fn vsphere_credentials_from_secret() {
    let env = vsphere_credentials_env("s", Some(b"user".to_vec()), Some(b"pass".to_vec()), Resources::Clear).unwrap();
    assert_eq!(
        env,
        vec![
            ("GOVC_USERNAME".to_string(), "user".to_string()),
            ("GOVC_PASSWORD".to_string(), "pass".to_string()),
            ("EKSA_VSPHERE_USERNAME".to_string(), "user".to_string()),
            ("EKSA_VSPHERE_PASSWORD".to_string(), "pass".to_string()),
        ]
    );
    let e = vsphere_credentials_env("s", None, Some(b"p".to_vec()), Resources::Remaining).unwrap_err();
    assert_eq!((e.resources, e.context.as_str()), (Resources::Remaining, "vsphere username missing from secret 's'"));
    let e = vsphere_credentials_env("s", Some(vec![0xff]), None, Resources::Clear).unwrap_err();
    assert_eq!(e.context, "Could not convert vsphere username to String");
    let e = vsphere_credentials_env("s", Some(b"u".to_vec()), None, Resources::Clear).unwrap_err();
    assert_eq!(e.context, "vsphere password missing from secret 's'");
    let e = vsphere_credentials_env("s", Some(b"u".to_vec()), Some(vec![0xc3]), Resources::Clear).unwrap_err();
    assert_eq!(e.context, "Could not convert secret-access-key to String");
}

#[test]
fn command_output_or_its_failure() {
    let ok = bottlerocket_agents::provider::provider_error_for_cmd_output(
        true,
        Some(0),
        b"hello\n",
        b"",
        "echo hello",
        bottlerocket_agents::provider::Resources::Clear,
    );
    assert_eq!(ok, Ok("hello\n".to_string()));
    let e = bottlerocket_agents::provider::provider_error_for_cmd_output(
        false,
        None,
        b"out",
        b"bad \xff",
        "eksctl create",
        bottlerocket_agents::provider::Resources::Remaining,
    )
    .unwrap_err();
    assert_eq!(e.resources, bottlerocket_agents::provider::Resources::Remaining);
    assert_eq!(e.context, "Error running 'eksctl create', exit code -1\nstderr:\nbad \u{fffd}\nstdout:\nout");
}

#[test]
fn k8s_versions_from_equal_numbers_are_equal() {
    use_versions();
}

fn use_versions() {
    let v = bottlerocket_agents::k8s_version::K8sVersion::new;
    assert_eq!(v(1, 24, Some(3)), v(1, 24, Some(3)));
    assert_ne!(v(1, 24, Some(3)), v(1, 24, None));
    assert_eq!(v(0, 0, None), bottlerocket_agents::k8s_version::K8sVersion::default());
}
