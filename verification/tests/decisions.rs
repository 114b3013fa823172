use bottlerocket_agents::agent_config::CreationPolicy;
use bottlerocket_agents::ecs::{
    instance_profile_action, instance_profile_policies, instance_profile_steps,
    InstanceProfileAction, InstanceProfileStep, INSTANCE_PROFILE_PROPAGATION_SECS,
};
use bottlerocket_agents::testsys_plan::tuf_repo_choice;
use bottlerocket_agents::document::Doc;
use bottlerocket_agents::ec2::{Ec2Creator, LaunchDecision, LaunchOutcome, LAUNCH_ATTEMPT_SECS};
use bottlerocket_agents::eks::{eks_destroy_plan, Cluster, EksDestroyStep, EksDestroyer, EksMemo};
use bottlerocket_agents::eksa::manifest_archive_url;
use bottlerocket_agents::karpenter::{Ec2KarpenterDestroyer, KarpenterProgress, TeardownStep};
use bottlerocket_agents::plan::{next_action, StepAction, StepOutcome};
use bottlerocket_agents::provider::{ProviderError, Resources};
use bottlerocket_agents::sonobuoy::{after_sonobuoy_run, AfterRun, Error};
use bottlerocket_agents::vsphere_k8s::thumbprint_in_cert;
use bottlerocket_agents::vsphere_vm::vm_ip_in_info;

fn t(s: &str) -> Doc {
    Doc::Text(s.to_string())
}

fn failed() -> StepOutcome {
    StepOutcome::Failed(ProviderError::new_with_context(Resources::Remaining, "boom".to_string()))
}

#[test]
fn eks_destroy_ends_well_when_the_last_send_fails() {
    let plan = eks_destroy_plan();
    let last = plan.len() - 1;
    assert_eq!(plan[last].step, EksDestroyStep::SendStatus);
    assert!(!plan[last].fatal);
    let (i, a) = next_action(&plan, last, failed());
    assert_eq!((i, a), (plan.len(), StepAction::Done));
    let (i, a) = next_action(&plan, 3, failed());
    assert_eq!(i, plan.len());
    assert_eq!(
        a,
        StepAction::Fail(ProviderError::new_with_context(
            Resources::Remaining,
            "Failed to run eksctl delete command".to_string()
        ))
    );
}

#[test]
fn karpenter_role_cleanup_only_warns() {
    let progress = KarpenterProgress { cloud_formation_stack_exists: true, ..KarpenterProgress::default() };
    let plan = Ec2KarpenterDestroyer {}.destroy_plan(&progress);
    let sa = plan.iter().position(|p| p.step == TeardownStep::DeleteServiceAccount).unwrap();
    let (i, a) = next_action(&plan, sa, failed());
    assert_eq!(i, sa + 1);
    assert_eq!(a, StepAction::Run { step: TeardownStep::DeleteControllerRole, status: None, wait_secs: None });
    let (i, a) = next_action(&plan, sa + 1, failed());
    assert_eq!(i, sa + 2);
    assert!(matches!(a, StepAction::Run { step: TeardownStep::DeleteStack, .. }));
    let (_, a) = next_action(&plan, sa + 2, failed());
    assert_eq!(
        a,
        StepAction::Fail(ProviderError::new_with_context(
            Resources::Remaining,
            "Unable to delete cloudformation stack".to_string()
        ))
    );
}

#[test]
fn ec2_launch_stops_at_the_first_success() {
    let c = Ec2Creator {};
    assert_eq!(LAUNCH_ATTEMPT_SECS, 360);
    assert_eq!(c.first_launch_attempt(4), LaunchDecision::Try(0));
    assert_eq!(c.after_launch_attempt(4, 0, LaunchOutcome::Failed), LaunchDecision::Try(1));
    assert_eq!(c.after_launch_attempt(4, 1, LaunchOutcome::Launched), LaunchDecision::Keep);
    let none = "Failed to create instances of any of the provided types in any of the provided subnets";
    assert_eq!(
        c.after_launch_attempt(4, 3, LaunchOutcome::Failed),
        LaunchDecision::Fail(ProviderError::new_with_context(Resources::Clear, none.to_string()))
    );
    assert_eq!(
        c.first_launch_attempt(0),
        LaunchDecision::Fail(ProviderError::new_with_context(Resources::Clear, none.to_string()))
    );
    assert_eq!(
        c.after_launch_attempt(4, 0, LaunchOutcome::TimedOut),
        LaunchDecision::Fail(ProviderError::new_with_context(
            Resources::Clear,
            "Failed to run instances within the time limit".to_string()
        ))
    );
}

#[test]
fn failing_sonobuoy_run_retrieves_nothing() {
    assert_eq!(after_sonobuoy_run(true), AfterRun::RetrieveResults);
    assert_eq!(after_sonobuoy_run(false), AfterRun::Stop(Error::SonobuoyRun));
}

#[test]
fn readers_take_the_parsed_value() {
    let info = Doc::Mapping(vec![(
        t("VirtualMachines"),
        Doc::List(vec![Doc::Mapping(vec![(t("Guest"), Doc::Mapping(vec![(t("IpAddress"), t("10.1.2.3"))]))])]),
    )]);
    assert_eq!(vm_ip_in_info(&info), Some("10.1.2.3".to_string()));
    assert_eq!(vm_ip_in_info(&Doc::Mapping(vec![(t("VirtualMachines"), Doc::List(vec![]))])), None);
    let cert = Doc::Mapping(vec![(t("ThumbprintSHA1"), t("AB:CD"))]);
    assert_eq!(thumbprint_in_cert(&cert), Some("AB:CD".to_string()));
    assert_eq!(thumbprint_in_cert(&Doc::Mapping(vec![])), None);
    let e = manifest_archive_url(&vec![], "linux", "amd64", Resources::Clear).unwrap_err();
    assert_eq!(e.context, "Unable to get latest version for EKS-A");
}

#[test]
fn ecs_instance_profile_follows_the_creation_policy() {
    assert_eq!(instance_profile_action(CreationPolicy::Create, false), InstanceProfileAction::Create);
    assert_eq!(instance_profile_action(CreationPolicy::IfNotExists, false), InstanceProfileAction::Create);
    assert_eq!(instance_profile_action(CreationPolicy::IfNotExists, true), InstanceProfileAction::UseExisting);
    assert_eq!(instance_profile_action(CreationPolicy::Never, true), InstanceProfileAction::UseExisting);
    assert_eq!(
        instance_profile_action(CreationPolicy::Never, false),
        InstanceProfileAction::Refuse(ProviderError::new_with_context(
            Resources::Remaining,
            "Instance profile creation policy is `Never`, but profile doesn't exist.".to_string()
        ))
    );
    assert_eq!(
        instance_profile_action(CreationPolicy::Create, true),
        InstanceProfileAction::Refuse(ProviderError::new_with_context(
            Resources::Remaining,
            "Instance profile creation policy is `Create`, but profile already exists.".to_string()
        ))
    );
    let steps = instance_profile_steps();
    assert_eq!(steps.len(), 6);
    assert_eq!(steps[0], (InstanceProfileStep::CreateRole, Some("Unable to create new role.")));
    assert_eq!(steps[5], (InstanceProfileStep::WaitForPropagation, None));
    assert_eq!(INSTANCE_PROFILE_PROPAGATION_SECS, 60);
    assert_eq!(instance_profile_policies()[1], "arn:aws:iam::aws:policy/service-role/AmazonEC2ContainerServiceforEC2Role");
}

#[test]
fn tuf_repo_needs_both_urls() {
    let m = Some("https://m".to_string());
    let t = Some("https://t".to_string());
    let r = tuf_repo_choice(&m, &t).unwrap();
    assert_eq!((r.metadata_url.as_str(), r.targets_url.as_str()), ("https://m", "https://t"));
    assert!(tuf_repo_choice(&m, &None).is_none());
    assert!(tuf_repo_choice(&None, &t).is_none());
    assert!(tuf_repo_choice(&None, &None).is_none());
}

#[test]
fn eks_destroyer_leaves_an_unprovisioned_cluster_alone() {
    let d = EksDestroyer {};
    let plan = eks_destroy_plan();
    let memo = EksMemo { cluster_name: Some("c".to_string()), ..EksMemo::default() };
    let (outcome, args) = d.read_delete_command(&memo);
    assert_eq!(outcome, StepOutcome::Finished);
    assert!(args.is_none());
    assert_eq!(plan[1].step, EksDestroyStep::ReadDeleteCommand);
    assert_eq!(next_action(&plan, 1, outcome), (plan.len(), StepAction::Done));
    let memo = EksMemo { provisioning_started: true, cluster_name: Some("c".to_string()), ..EksMemo::default() };
    let (outcome, args) = d.read_delete_command(&memo);
    assert_eq!(outcome, StepOutcome::Succeeded);
    assert_eq!(args.unwrap(), vec!["delete", "cluster", "--name", "c", "-r", "us-west-2"]);
    let memo = EksMemo { provisioning_started: true, ..EksMemo::default() };
    let (outcome, _) = d.read_delete_command(&memo);
    assert_eq!(
        outcome,
        StepOutcome::Failed(ProviderError::new_with_context(
            Resources::Unknown,
            "Unable to obtain cluster name".to_string()
        ))
    );
}

#[test]
fn older_destroyer_deletes_only_what_it_created() {
    let d = EksDestroyer {};
    assert_eq!(d.recorded_cluster_delete_args(&None, &None), None);
    assert_eq!(d.recorded_cluster_delete_args(&Some(Cluster::Existing("x".to_string())), &None), None);
    assert_eq!(
        d.recorded_cluster_delete_args(&Some(Cluster::Create("x".to_string())), &Some("ap-south-1".to_string())).unwrap(),
        vec!["delete", "cluster", "--name", "x", "-r", "ap-south-1"]
    );
    assert_eq!(
        d.recorded_cluster_delete_args(&Some(Cluster::Create("x".to_string())), &None).unwrap(),
        vec!["delete", "cluster", "--name", "x", "-r", "us-west-2"]
    );
}
