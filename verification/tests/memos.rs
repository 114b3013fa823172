use bottlerocket_agents::agent_config::CreationPolicy;
use bottlerocket_agents::eks::{
    eks_create_decision_plan, EksCreateFacts, EksCreateStep, EksCreator, EksDestroyer, EksMemo,
};
use bottlerocket_agents::karpenter::{
    karpenter_destroy_preamble, Ec2KarpenterDestroyer, KarpenterDestroyPreStep, KarpenterProgress,
};
use bottlerocket_agents::metal_k8s::{
    metal_create_plan, metal_created_plan, metal_machine_plan, MetalCreateFacts, MetalCreateStep,
    MetalK8sClusterCreator, MetalMemo,
};
use bottlerocket_agents::vsphere_vm::{
    created_instance_ids, vm_create_plan, vm_created_plan, vm_destroyed_plan, vm_node_plan,
    VMCreator, VMDestroyer, VSphereVM, VmCreateFacts, VmProgress,
};

fn eks_facts() -> EksCreateFacts {
    EksCreateFacts {
        creation_policy: CreationPolicy::IfNotExists,
        aws_secret_name: Some("aws-creds".to_string()),
        assume_role: None,
        cluster_name: "my-cluster".to_string(),
        region: "us-east-2".to_string(),
        decision: "Creating cluster 'my-cluster'".to_string(),
    }
}

fn eks_full_plan(create: bool) -> Vec<bottlerocket_agents::plan::PlannedStep<EksCreateStep>> {
    let mut plan = eks_create_decision_plan();
    plan.extend(EksCreator {}.after_decision_plan(create));
    plan
}

#[test]
fn eks_memo_records_provisioning_before_eksctl() {
    let creator = EksCreator {};
    let facts = eks_facts();
    let mut memo = EksMemo::default();
    let plan = eks_full_plan(true);
    let mut seen_create = false;
    for step in &plan {
        if step.step == EksCreateStep::CreateCluster {
            assert!(memo.provisioning_started);
            assert_eq!(memo.current_status, "Creating cluster");
            seen_create = true;
        }
        creator.update_memo(&mut memo, step, &facts);
    }
    assert!(seen_create);
    assert_eq!(memo.cluster_name.as_deref(), Some("my-cluster"));
    assert_eq!(memo.region.as_deref(), Some("us-east-2"));
    assert_eq!(memo.current_status, "Cluster ready");
    assert_eq!(memo.creation_policy, Some(CreationPolicy::IfNotExists));
    assert_eq!(memo.aws_secret_name.as_deref(), Some("aws-creds"));
    let args = EksDestroyer {}.delete_command(&memo).unwrap().unwrap();
    assert_eq!(args, vec!["delete", "cluster", "--name", "my-cluster", "-r", "us-east-2"]);
}

#[test]
fn eks_found_cluster_is_never_deleted() {
    let creator = EksCreator {};
    let facts = eks_facts();
    let mut memo = EksMemo::default();
    for step in &eks_full_plan(false) {
        assert_ne!(step.step, EksCreateStep::CreateCluster);
        creator.update_memo(&mut memo, step, &facts);
        assert!(!memo.provisioning_started);
    }
    assert_eq!(memo.cluster_name.as_deref(), Some("my-cluster"));
    assert_eq!(EksDestroyer {}.delete_command(&memo).unwrap(), None);
}

#[test]
fn eks_decision_status_is_sent() {
    let creator = EksCreator {};
    let facts = eks_facts();
    let mut memo = EksMemo::default();
    for step in &eks_create_decision_plan() {
        creator.update_memo(&mut memo, step, &facts);
    }
    assert_eq!(memo.current_status, "Creating cluster 'my-cluster'");
}

#[test]
fn karpenter_without_stack_stops_after_reading_the_memo() {
    let d = Ec2KarpenterDestroyer {};
    let preamble = karpenter_destroy_preamble();
    let steps: Vec<KarpenterDestroyPreStep> = preamble.iter().map(|p| p.step).collect();
    assert_eq!(steps, vec![KarpenterDestroyPreStep::GetSpec, KarpenterDestroyPreStep::GetInfo]);
    assert!(preamble.iter().all(|p| p.status.is_none()));
    let none = KarpenterProgress::default();
    assert!(d.destroy_setup(&none).is_empty());
    assert!(d.destroy_plan(&none).is_empty());
    let stack = KarpenterProgress { cloud_formation_stack_exists: true, ..KarpenterProgress::default() };
    let setup = d.destroy_setup(&stack);
    assert_eq!(setup.len(), 3);
    assert_eq!(setup[0].status, Some("Getting AWS secret"));
    assert_eq!(setup[1].status, Some("Creating AWS config"));
    assert_eq!(setup[2].step, KarpenterDestroyPreStep::CreateAwsConfig);
    assert!(!d.destroy_plan(&stack).is_empty());
}

fn vm(n: u32) -> VSphereVM {
    VSphereVM {
        name: format!("c-node-{}", n),
        instance_id: format!("mi-{}", n),
        ip_address: format!("10.0.0.{}", n),
    }
}

#[test]
fn vm_memo_holds_template_and_every_vm() {
    let creator = VMCreator {};
    let mut facts = VmCreateFacts {
        template: "c-node-vmtemplate".to_string(),
        ssm_activation_id: "act-1".to_string(),
        vms: vec![],
    };
    let mut memo = VmProgress::default();
    for step in &vm_create_plan() {
        creator.update_memo(&mut memo, step, &facts);
    }
    assert_eq!(memo.vm_template, "c-node-vmtemplate");
    assert_eq!(memo.ssm_activation_id, "act-1");
    assert!(memo.vms.is_empty());
    for n in 1..=2 {
        facts.vms.push(vm(n));
        for step in &vm_node_plan() {
            creator.update_memo(&mut memo, step, &facts);
        }
    }
    for step in &vm_created_plan() {
        creator.update_memo(&mut memo, step, &facts);
    }
    assert_eq!(memo.current_status, "VM(s) created");
    assert_eq!(memo.vms.len(), 2);
    assert_eq!(memo.vms[1].name, "c-node-2");
    assert_eq!(created_instance_ids(&memo.vms), vec!["mi-1", "mi-2"]);
    let destroyer = VMDestroyer {};
    for step in &vm_destroyed_plan() {
        destroyer.update_memo(&mut memo, step);
    }
    assert!(memo.vms.is_empty());
    assert_eq!(memo.current_status, "VM(s) deleted");
    assert_eq!(memo.vm_template, "c-node-vmtemplate");
}

#[test]
fn metal_memo_names_the_cluster_before_eksctl() {
    let creator = MetalK8sClusterCreator {};
    let mut facts = MetalCreateFacts {
        aws_secret_name: None,
        assume_role: Some("arn:role".to_string()),
        cluster_name: "metal".to_string(),
        ssm_activation_id: "act".to_string(),
        instance_ids: vec![],
    };
    let mut memo = MetalMemo::default();
    let mut launched = false;
    for step in &metal_create_plan() {
        if step.step == MetalCreateStep::LaunchEksctl {
            assert_eq!(memo.cluster_name.as_deref(), Some("metal"));
            assert_eq!(memo.current_status, "Creating cluster");
            launched = true;
        }
        creator.update_memo(&mut memo, step, &facts);
    }
    assert!(launched);
    assert_eq!(memo.assume_role.as_deref(), Some("arn:role"));
    assert_eq!(memo.ssm_activation_id, "act");
    for id in ["i-1", "i-2", "i-3"] {
        for step in &metal_machine_plan() {
            creator.update_memo(&mut memo, step, &facts);
        }
        facts.instance_ids.push(id.to_string());
    }
    assert!(memo.instance_ids.is_empty());
    for step in &metal_created_plan() {
        creator.update_memo(&mut memo, step, &facts);
    }
    assert_eq!(memo.instance_ids, vec!["i-1", "i-2", "i-3"]);
    assert_eq!(memo.current_status, "Cluster created");
}
