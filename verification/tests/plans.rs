use bottlerocket_agents::eks::{eks_create_decision_plan, EksCreateStep, EksCreator};
use bottlerocket_agents::karpenter::{
    karpenter_create_plan, Ec2KarpenterDestroyer, KarpenterCreatePlanStep, KarpenterProgress,
    TeardownStep,
};
use bottlerocket_agents::metal_k8s::{metal_destroy_plan, MetalDestroyStep};
use bottlerocket_agents::plan::{first_action, next_action, StepAction, StepOutcome};
use bottlerocket_agents::provider::{ProviderError, Resources};
use bottlerocket_agents::vsphere_vm::{vm_create_plan, VmCreateStep};

#[test]
fn eks_creation_runs_its_steps_in_order() {
    let plan = eks_create_decision_plan();
    assert_eq!(
        first_action(&plan),
        StepAction::Run { step: EksCreateStep::GetInfo, status: None, wait_secs: None }
    );
    let (i, a) = next_action(&plan, 0, StepOutcome::Succeeded);
    assert_eq!(i, 1);
    assert_eq!(
        a,
        StepAction::Run {
            step: EksCreateStep::RecordPolicy,
            status: Some("Initializing agent"),
            wait_secs: None
        }
    );
    let (_, a) = next_action(&plan, 0, StepOutcome::Failed(ProviderError::new_with_context(Resources::Unknown, "x".to_string())));
    assert_eq!(
        a,
        StepAction::Fail(ProviderError::new_with_context(
            Resources::Clear,
            "Unable to get info from client".to_string()
        ))
    );
    let own = ProviderError::new_with_context(Resources::Clear, "Metadata is missing from eksctl config.".to_string());
    let (i, a) = next_action(&plan, 2, StepOutcome::Failed(own.clone()));
    assert_eq!(i, plan.len());
    assert_eq!(a, StepAction::Fail(own));
    let (i, a) = next_action(&plan, plan.len() - 1, StepOutcome::Succeeded);
    assert_eq!(i, plan.len());
    assert_eq!(a, StepAction::Done);
    assert_eq!(EksCreator {}.after_decision_plan(true).len(), EksCreator {}.after_decision_plan(false).len() + 3);
}

#[test]
fn failures_report_what_is_left_behind() {
    let plan = vm_create_plan();
    let import = plan.iter().position(|s| s.step == VmCreateStep::CheckImportOva).unwrap();
    assert_eq!(plan[import].on_failure, Resources::Unknown);
    assert_eq!(plan[0].on_failure, Resources::Unknown);
    assert_eq!(plan[1].on_failure, Resources::Clear);
    assert_eq!(plan.last().unwrap().status, Some("Launching worker nodes"));
    let destroy = metal_destroy_plan(Resources::Remaining);
    assert_eq!(destroy[0].step, MetalDestroyStep::GetInfo);
    assert_eq!(destroy[1].on_failure, Resources::Remaining);
    let karpenter = karpenter_create_plan();
    let wait = karpenter.iter().find(|s| s.step == KarpenterCreatePlanStep::WaitForStack).unwrap();
    assert_eq!(wait.wait_secs, Some(600));
    assert_eq!(wait.failure, Some("Timed out waiting for cloud formation stack."));
}

#[test]
fn karpenter_destroy_plan_follows_the_teardown() {
    let progress = KarpenterProgress {
        cloud_formation_stack_exists: true,
        tainted_nodegroup_exists: false,
        karpenter_namespace_exists: false,
        inflate_deployment_exists: false,
    };
    let d = Ec2KarpenterDestroyer {};
    let plan = d.destroy_plan(&progress);
    let steps: Vec<TeardownStep> = plan.iter().map(|p| p.step).collect();
    assert_eq!(steps, d.teardown_steps(&progress));
    assert!(plan.iter().all(|p| p.on_failure == Resources::Remaining));
    assert_eq!(plan.last().unwrap().wait_secs, Some(600));
}

#[test]
fn destroy_and_launch_plans() {
    let eks = bottlerocket_agents::eks::eks_destroy_plan();
    let check = eks
        .iter()
        .find(|s| s.step == bottlerocket_agents::eks::EksDestroyStep::CheckEksctl)
        .unwrap();
    assert_eq!(check.on_failure, Resources::Orphaned);
    let ec2 = bottlerocket_agents::ec2::ec2_create_plan();
    assert_eq!(ec2.last().unwrap().status, Some("Instance(s) created"));
    assert_eq!(ec2.last().unwrap().on_failure, Resources::Remaining);
    let vm = bottlerocket_agents::vsphere_vm::VMDestroyer {};
    let progress = bottlerocket_agents::vsphere_vm::VmProgress {
        vms: vec![bottlerocket_agents::vsphere_vm::VSphereVM::default()],
        ssm_activation_id: "a".to_string(),
        vm_template: "t".to_string(),
        current_status: String::new(),
    };
    let plan = vm.destroy_plan(&progress, Resources::Remaining);
    assert_eq!(plan.len(), 5);
    assert!(plan.iter().all(|p| p.on_failure == Resources::Remaining && p.failure.is_none()));
}
