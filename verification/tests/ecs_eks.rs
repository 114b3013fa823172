use bottlerocket_agents::agent_config::CreationPolicy;
use bottlerocket_agents::creation::is_cluster_creation_required;
use bottlerocket_agents::ecs::{
    create_container_definition, ecs_role_policy_document, first_subnet_id,
    is_matching_definition, region_or_default, task_definition_name, test_results,
    workload_test_results, ContainerDefinition, EcsDestroyer, EcsTeardownStep,
    ResourceRequirement, TaskDefinition, TaskStatus, WorkloadTaskStatus, WorkloadTest,
};
use bottlerocket_agents::eks::{
    EksMemo,
    decode_eksctl_config, find_nodegroup_stack, instance_profile_arn,
    service_ip_cidr_to_cluster_dns_ip, Cluster, ClusterConfig, EksDestroyer, EksctlMetadata,
    IpFamily, SecurityGroupType, SubnetType,
};
use bottlerocket_agents::provider::{Outcome, Resources};

fn fake_task_def(include_gpu: bool) -> TaskDefinition {
    let resource_requirements = if include_gpu {
        Some(vec![ResourceRequirement { gpu: true, value: Some("1".to_string()) }])
    } else {
        None
    };
    TaskDefinition {
        container_definitions: Some(vec![ContainerDefinition {
            name: Some("test".to_string()),
            image: Some("image_name:latest".to_string()),
            resource_requirements,
        }]),
    }
}

#[test]
fn test_is_matching_definition_matches() {
    let test_def = WorkloadTest {
        image: "image_name:latest".to_string(),
        name: "test".to_string(),
        gpu: true,
    };

    let task_def = fake_task_def(true);
    assert!(is_matching_definition(&test_def, &task_def));
}

#[test]
fn test_is_matching_definition_mismatch() {
    let test_def = WorkloadTest {
        image: "image_name:1.1".to_string(),
        name: "test".to_string(),
        gpu: true,
    };

    let task_def = fake_task_def(true);
    assert!(!is_matching_definition(&test_def, &task_def));
}

#[test]
fn test_is_matching_definition_mismatch_gpu() {
    let test_def = WorkloadTest {
        image: "image_name:latest".to_string(),
        name: "test".to_string(),
        gpu: true,
    };

    let task_def = fake_task_def(false);
    assert!(!is_matching_definition(&test_def, &task_def));
}

#[test]
fn registered_definition_is_found_again() {
    for gpu in [true, false] {
        let test_def = WorkloadTest { image: "img".to_string(), name: "n".to_string(), gpu };
        let task_def = TaskDefinition {
            container_definitions: Some(vec![create_container_definition(&test_def)]),
        };
        assert!(is_matching_definition(&test_def, &task_def));
        assert_eq!(task_definition_name(&test_def), "testsys-bottlerocket-n");
    }
}

#[test]
fn matching_needs_a_single_container() {
    let test_def = WorkloadTest { image: "image_name:latest".to_string(), name: "test".to_string(), gpu: false };
    let mut two = fake_task_def(false);
    let c = two.container_definitions.as_ref().unwrap()[0].clone();
    two.container_definitions.as_mut().unwrap().push(c);
    assert!(!is_matching_definition(&test_def, &two));
    assert!(!is_matching_definition(&test_def, &TaskDefinition { container_definitions: None }));
}

#[test]
fn cluster_dns_ip_from_service_ipv4_cidr() {
    assert_eq!(
        service_ip_cidr_to_cluster_dns_ip(
            Some(IpFamily::Ipv4),
            Some("10.100.0.0/16".to_string()),
            None
        )
        .unwrap(),
        "10.100.0.10".to_string()
    )
}

#[test]
fn cluster_dns_ip_from_service_ipv6_cidr() {
    assert_eq!(
        service_ip_cidr_to_cluster_dns_ip(
            Some(IpFamily::Ipv6),
            None,
            Some("fd30:1c53:5f8a::/108".to_string())
        )
        .unwrap(),
        "fd30:1c53:5f8a::a".to_string()
    )
}

#[test]
fn cluster_dns_ip_errors() {
    let e = service_ip_cidr_to_cluster_dns_ip(Some(IpFamily::Ipv4), None, None).unwrap_err();
    assert_eq!(e.resources, Resources::Remaining);
    let e = service_ip_cidr_to_cluster_dns_ip(None, None, None).unwrap_err();
    assert_eq!(e.resources, Resources::Remaining);
    assert!(service_ip_cidr_to_cluster_dns_ip(Some(IpFamily::Ipv4), Some("10.100".to_string()), None).is_err());
}

#[test]
fn creation_policy_decisions() {
    let (create, msg) = is_cluster_creation_required(&false, "c", &CreationPolicy::Create).unwrap();
    assert!(create);
    assert!(!msg.is_empty());
    let (create, _) = is_cluster_creation_required(&true, "c", &CreationPolicy::IfNotExists).unwrap();
    assert!(!create);
    let (create, _) = is_cluster_creation_required(&false, "c", &CreationPolicy::IfNotExists).unwrap();
    assert!(create);
    let (create, _) = is_cluster_creation_required(&true, "c", &CreationPolicy::Never).unwrap();
    assert!(!create);
    let e = is_cluster_creation_required(&true, "c", &CreationPolicy::Create).unwrap_err();
    assert_eq!(e.resources, Resources::Clear);
    assert!(is_cluster_creation_required(&false, "c", &CreationPolicy::Never).is_err());
}

#[test]
fn creation_policy_names() {
    assert_eq!(CreationPolicy::default(), CreationPolicy::Create);
    assert_eq!(CreationPolicy::IfNotExists.to_string(), "ifNotExists");
    assert_eq!(CreationPolicy::IfNotExists.debug_name(), "IfNotExists");
    for p in [CreationPolicy::Create, CreationPolicy::IfNotExists, CreationPolicy::Never] {
        assert_eq!(CreationPolicy::from_name(&p.to_string()), Some(p));
    }
    assert_eq!(CreationPolicy::from_name("Never"), None);
}

#[test]
fn ecs_small_decisions() {
    assert_eq!(first_subnet_id(&["a".to_string(), "b".to_string()]), Some("a".to_string()));
    assert_eq!(first_subnet_id(&[]), None);
    assert_eq!(region_or_default(&None), "us-west-2");
    assert_eq!(region_or_default(&Some("eu-west-1".to_string())), "eu-west-1");
    let doc: serde_json::Value = serde_json::from_str(&ecs_role_policy_document()).unwrap();
    assert_eq!(doc["Statement"][0]["Action"], "sts:AssumeRole");
}

#[test]
fn ecs_smoke_test_results() {
    let running = TaskStatus { last_status: Some("Running".to_string()) };
    let stopped = TaskStatus { last_status: Some("STOPPED".to_string()) };
    let r = test_results(&vec![running.clone(), running.clone()], 2);
    assert_eq!((r.outcome, r.num_passed, r.num_failed), (Outcome::Pass, 2, 0));
    let r = test_results(&vec![running, stopped, TaskStatus { last_status: None }], 3);
    assert_eq!((r.outcome, r.num_passed, r.num_failed), (Outcome::Fail, 1, 2));
}

#[test]
fn ecs_workload_test_results() {
    let passed = WorkloadTaskStatus {
        last_status: Some("STOPPED".to_string()),
        essential_container_exited: true,
        container_exit_codes: vec![Some(0)],
    };
    let failed = WorkloadTaskStatus {
        last_status: Some("STOPPED".to_string()),
        essential_container_exited: true,
        container_exit_codes: vec![Some(0), Some(1)],
    };
    let r = workload_test_results(&vec![passed.clone(), passed.clone()], 2);
    assert_eq!((r.outcome, r.num_passed, r.num_failed), (Outcome::Pass, 2, 0));
    let r = workload_test_results(&vec![passed, failed], 2);
    assert_eq!(r.outcome, Outcome::Fail);
    assert_eq!((r.num_passed, r.num_failed), (1, 1));
}

#[test]
fn ecs_teardown() {
    let d = EcsDestroyer {};
    assert_eq!(d.teardown_steps(None, &Some("c".to_string())), vec![EcsTeardownStep::DeleteCluster]);
    assert_eq!(d.teardown_steps(Some(CreationPolicy::IfNotExists), &None), vec![]);
    let steps = d.teardown_steps(Some(CreationPolicy::Create), &Some("c".to_string()));
    assert_eq!(steps.len(), 6);
    assert_eq!(steps[0], EcsTeardownStep::RemoveRoleFromInstanceProfile);
    assert_eq!(steps[5], EcsTeardownStep::DeleteCluster);
    assert_eq!(d.step_failure(EcsTeardownStep::DeleteCluster), (Resources::Unknown, "The cluster could not be deleted."));
    assert_eq!(d.step_failure(EcsTeardownStep::DeleteRole), (Resources::Remaining, "Unable to delete iam role."));
}

#[test]
fn eks_tags() {
    assert_eq!(SubnetType::default(), SubnetType::Private);
    assert_eq!(SubnetType::Public.tag("c"), "eksctl-c-cluster/SubnetPublic*");
    assert_eq!(SubnetType::Private.map_public_ip_on_launch(), "false");
    assert_eq!(SecurityGroupType::ClusterShared.tag("c"), "*c-clustershared*");
}

#[test]
fn eks_config_sources() {
    let c = ClusterConfig::from_args("c".to_string(), None, None, None);
    assert_eq!(c.region(), "us-west-2");
    assert_eq!(c.cluster_name(), "c");
    let c = ClusterConfig::from_metadata(Some(EksctlMetadata {
        name: Some("n".to_string()),
        region: Some("r".to_string()),
    }))
    .unwrap();
    assert_eq!((c.cluster_name(), c.region()), ("n".to_string(), "r".to_string()));
    let e = ClusterConfig::from_metadata(None).unwrap_err();
    assert_eq!(e.context, "Metadata is missing from eksctl config.");
    let e = ClusterConfig::from_metadata(Some(EksctlMetadata { name: Some("n".to_string()), region: None }))
        .unwrap_err();
    assert_eq!(e.context, "The cluster's region was not in the eksctl config.");
    assert_eq!(decode_eksctl_config(&"a2luZDogQ2x1c3RlckNvbmZpZw==".to_string()).unwrap(), "kind: ClusterConfig");
    assert_eq!(
        decode_eksctl_config(&"%%%".to_string()).unwrap_err().context,
        "Unable to decode eksctl configuration."
    );
}

#[test]
fn eks_nodegroup_stack_and_instance_profile() {
    let stacks = vec![
        "eksctl-c-cluster".to_string(),
        "eksctl-c-nodegroup-ng-1".to_string(),
        "eksctl-d-nodegroup-ng-1".to_string(),
    ];
    assert_eq!(find_nodegroup_stack(&stacks, "c"), Some(1));
    assert_eq!(find_nodegroup_stack(&stacks, "e"), None);
    assert_eq!(
        instance_profile_arn(vec!["arn:x".to_string()], "role").unwrap(),
        "arn:x"
    );
    assert!(instance_profile_arn(vec![], "role").is_err());
    assert!(instance_profile_arn(vec!["a".to_string(), "b".to_string()], "role").is_err());
}

#[test]
fn eks_destroy_command() {
    let d = EksDestroyer {};
    let mut memo = EksMemo::default();
    memo.cluster_name = Some("c".to_string());
    assert_eq!(d.delete_command(&memo).unwrap(), None);
    memo.provisioning_started = true;
    memo.cluster_name = None;
    let e = d.delete_command(&memo).unwrap_err();
    assert_eq!((e.resources, e.context.as_str()), (Resources::Unknown, "Unable to obtain cluster name"));
    memo.cluster_name = Some("c".to_string());
    assert_eq!(
        d.delete_command(&memo).unwrap().unwrap(),
        vec!["delete", "cluster", "--name", "c", "-r", "us-west-2"]
    );
    memo.region = Some("eu-west-1".to_string());
    assert_eq!(
        d.delete_command(&memo).unwrap().unwrap(),
        vec!["delete", "cluster", "--name", "c", "-r", "eu-west-1"]
    );
    let older = Cluster::default();
    assert!(older.is_created_by_agent());
    assert_eq!(older.name(), "");
    assert!(!Cluster::Existing("x".to_string()).is_created_by_agent());
}
