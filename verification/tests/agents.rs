use bottlerocket_agents::agent_config::{ClusterType, CreationPolicy, TufRepoConfig, VSphereClusterInfo, VSphereVmConfig};
use bottlerocket_agents::ec2::{
    instance_count, instance_type, instance_types_to_try, resources_situation, security_group_ids,
    tag_specifications, uuid_tag_filter, Architecture, DesiredInstanceState, Ec2Creator,
    Ec2DestroyAction, Ec2Destroyer,
};
use bottlerocket_agents::eksa::{eks_a_archive_url, eksa_arch};
use bottlerocket_agents::k8s_version::K8sVersion;
use bottlerocket_agents::karpenter::{
    CreateStep, Ec2KarpenterCreator,
    block_device_mappings, helm_install_args, identity_mapping_args, instance_type_requirements,
    karpenter_version, node_count_reached, provisioner, service_account_args, stack_name,
    tainted_node_count, write_kubeconfig_args, CountComparison, Ec2KarpenterDestroyer,
    KarpenterDeviceMapping, KarpenterProgress, NodeTaint, TeardownStep,
};
use bottlerocket_agents::metal_k8s::{
    machine_ips, workload_kubeconfig_path, MetalK8sClusterCreator,
    MetalK8sClusterDestroyer, NodeAddress,
};
use bottlerocket_agents::migration::{
    command_result, failed_hosts, is_command_finished, migration_results, target_version_id,
    unchanged_hosts, Invocation, InvocationStatus, MigrationError,
};
use bottlerocket_agents::provider::{Outcome, Resources};
use bottlerocket_agents::vsphere_k8s::{
    clusterspec, eksd_release_tags, support_flag_name, vm_template_path, VSphereK8sClusterConfig,
    VSphereK8sClusterCreator, VSphereK8sClusterDestroyer,
};
use bottlerocket_agents::vsphere_vm::{
    created_instance_ids, govc_env, node_names, vm_count, vm_template_name, VMDestroyer, VSphereVM,
    VmProgress, VmTeardownStep,
};
use bottlerocket_agents::userdata::{default_userdata, CustomUserData};
use bottlerocket_agents::vsphere_vm::VMCreator;
use std::collections::HashSet;

fn strings(v: &[&str]) -> Vec<String> {
    v.iter().map(|s| s.to_string()).collect()
}

#[test]
fn ec2_launch_choices() {
    assert_eq!(instance_count(None), 2);
    assert_eq!(instance_count(Some(5)), 5);
    assert_eq!(instance_type(Architecture::X8664), "m5.large");
    assert_eq!(instance_type(Architecture::Arm64), "m6g.large");
    assert_eq!(instance_types_to_try(&vec![], "m5.large".to_string()), strings(&["m5.large"]));
    assert_eq!(instance_types_to_try(&strings(&["a", "b"]), "m5.large".to_string()), strings(&["a", "b"]));
    assert_eq!(security_group_ids(&vec![]), None);
    assert_eq!(uuid_tag_filter("u"), "testsys-ec2-uuid=u");
    let attempts = Ec2Creator {}.launch_attempts(&strings(&["t1", "t2"]), &strings(&["s1", "s2"]));
    let expected: Vec<(String, String)> = [("t1", "s1"), ("t1", "s2"), ("t2", "s1"), ("t2", "s2")]
        .iter()
        .map(|(a, b)| (a.to_string(), b.to_string()))
        .collect();
    assert_eq!(attempts, expected);
    assert_eq!(
        Ec2Creator {}.no_launch_error().context,
        "Failed to create instances of any of the provided types in any of the provided subnets"
    );
}

#[test]
fn ec2_tags_and_filters() {
    let tags = tag_specifications(&ClusterType::Eks, "c", "u");
    assert_eq!(
        tags,
        vec![
            ("Name".to_string(), "c_node".to_string()),
            ("kubernetes.io/cluster/c".to_string(), "owned".to_string()),
            ("testsys-ec2-uuid".to_string(), "u".to_string()),
        ]
    );
    assert_eq!(tag_specifications(&ClusterType::Ecs, "c", "u").len(), 1);
    assert_eq!(
        DesiredInstanceState::Running.filter(),
        strings(&["pending", "shutting-down", "stopping", "stopped", "terminated"])
    );
    assert_eq!(DesiredInstanceState::Terminated.filter()[4], "running");
}

#[test]
fn ec2_destroy_decisions() {
    let d = Ec2Destroyer {};
    match d.first_action(None, vec![], Some("u".to_string()), ClusterType::Eks) {
        Ec2DestroyAction::LookUpByUuid(u) => assert_eq!(u, "u"),
        _ => panic!("expected a lookup"),
    }
    assert!(matches!(d.first_action(None, vec![], None, ClusterType::Eks), Ec2DestroyAction::Done));
    match d.first_action(Some(strings(&["i-1"])), strings(&["i-2"]), None, ClusterType::Ecs) {
        Ec2DestroyAction::Terminate { ids, deregister_from_ecs } => {
            assert_eq!(ids, strings(&["i-1"]));
            assert!(deregister_from_ecs);
        }
        _ => panic!("expected a termination"),
    }
    assert!(matches!(d.after_lookup(vec![], ClusterType::Eks), Ec2DestroyAction::Done));
    assert_eq!(
        d.remaining_ids(&strings(&["a", "b", "c"]), &strings(&["b"])),
        strings(&["a", "c"])
    );
    let mut ids = HashSet::new();
    assert_eq!(resources_situation(&ids), Resources::Clear);
    ids.insert("i".to_string());
    assert_eq!(resources_situation(&ids), Resources::Remaining);
}

#[test]
fn karpenter_commands() {
    assert_eq!(karpenter_version(None), "v0.33.1");
    assert_eq!(karpenter_version(Some("v1".to_string())), "v1");
    assert_eq!(stack_name("c"), "Karpenter-c");
    assert_eq!(
        write_kubeconfig_args("r", "c"),
        strings(&["utils", "write-kubeconfig", "-r", "r", "--cluster=c", "--kubeconfig=/local/cluster.kubeconfig"])
    );
    let sa = service_account_args("r", "c", "123");
    assert_eq!(sa[11], "KarpenterControllerRole-c");
    assert_eq!(sa[13], "arn:aws:iam::123:policy/KarpenterControllerPolicy-c");
    let im = identity_mapping_args("r", "c", "123");
    assert_eq!(im[7], "arn:aws:iam::123:role/KarpenterNodeRole-c");
    assert_eq!(im[9], "system:node:{{EC2PrivateDNSName}}");
    let helm = helm_install_args("v1", "c", "https://e", "123");
    assert_eq!(helm.len(), 19);
    assert_eq!(
        helm[16],
        r#"serviceAccount.annotations.eks\.amazonaws\.com/role-arn=arn:aws:iam::123:role/KarpenterControllerRole-c"#
    );
}

#[test]
fn karpenter_provisioner_text() {
    assert_eq!(instance_type_requirements(&vec![]), "");
    assert_eq!(
        instance_type_requirements(&strings(&["m5.large", "m5.xlarge"])),
        "        - key: node.kubernetes.io/instance-type\n          operator: In\n          values: [m5.large,m5.xlarge]\n\n"
    );
    let mappings = vec![KarpenterDeviceMapping {
        name: "/dev/xvda".to_string(),
        volume_type: "gp3".to_string(),
        volume_size: 20,
        delete_on_termination: true,
    }];
    assert_eq!(
        block_device_mappings(&mappings),
        "    blockDeviceMappings:\n    - deviceName: /dev/xvda\n      ebs:\n        volumeType: gp3\n        volumeSize: 20Gi\n        deleteOnTermination: true"
    );
    let p = provisioner("c", "ami-1", &vec![], &vec![]);
    let expected = format!(
        r#"apiVersion: karpenter.sh/v1beta1
kind: NodePool
metadata:
    name: default
spec: 
  template:
    spec:
        nodeClassRef:
            name: my-provider
        requirements:
        - key: kubernetes.io/arch
          operator: In
          values: ["arm64", "amd64"]
{}
---
apiVersion: karpenter.k8s.aws/v1beta1
kind: EC2NodeClass
metadata:
    name: my-provider
spec:
    amiFamily: Bottlerocket
    role: "KarpenterNodeRole-{}"
    amiSelectorTerms: 
      - id: {}
    subnetSelectorTerms:
        - tags:
            karpenter.sh/discovery: {}
    securityGroupSelectorTerms:
        - tags:
            karpenter.sh/discovery: {}
{}
"#,
        "", "c", "ami-1", "c", "c", ""
    );
    assert_eq!(p, expected);
}

#[test]
fn karpenter_waits() {
    assert!(node_count_reached(5, 3, CountComparison::Greater));
    assert!(!node_count_reached(3, 3, CountComparison::Greater));
    assert!(node_count_reached(2, 2, CountComparison::Equal));
    assert!(node_count_reached(1, 2, CountComparison::Less));
    let taint = |k: &str, v: Option<&str>, e: &str| NodeTaint {
        key: k.to_string(),
        value: v.map(|s| s.to_string()),
        effect: e.to_string(),
    };
    let nodes = vec![
        Some(vec![taint("sonobuoy", Some("ignore"), "NoSchedule")]),
        Some(vec![taint("sonobuoy", Some("ignore"), "PreferNoSchedule")]),
        None,
        Some(vec![taint("other", None, "NoSchedule"), taint("sonobuoy", Some("ignore"), "NoSchedule")]),
    ];
    assert_eq!(tainted_node_count(&nodes), 2);
}

#[test]
fn karpenter_teardown() {
    let d = Ec2KarpenterDestroyer {};
    assert_eq!(d.teardown_steps(&KarpenterProgress::default()), vec![]);
    let only_stack = KarpenterProgress { cloud_formation_stack_exists: true, ..Default::default() };
    assert_eq!(
        d.teardown_steps(&only_stack),
        vec![
            TeardownStep::DetachNodeRole,
            TeardownStep::DeleteServiceAccount,
            TeardownStep::DeleteControllerRole,
            TeardownStep::DeleteStack,
            TeardownStep::WaitForStackDeletion,
        ]
    );
    let all = KarpenterProgress {
        cloud_formation_stack_exists: true,
        tainted_nodegroup_exists: true,
        karpenter_namespace_exists: true,
        inflate_deployment_exists: true,
    };
    let steps = d.teardown_steps(&all);
    assert_eq!(steps.len(), 13);
    assert_eq!(steps[3], TeardownStep::DeleteInflateDeployment);
    assert_eq!(steps[5], TeardownStep::UninstallKarpenter);
}

#[test]
fn vsphere_vm_names_and_teardown() {
    assert_eq!(vm_count(None), 2);
    assert_eq!(vm_template_name("c"), "c-node-vmtemplate");
    assert_eq!(node_names("c", 3), strings(&["c-node-1", "c-node-2", "c-node-3"]));
    assert!(node_names("c", 0).is_empty());
    assert!(node_names("c", -1).is_empty());
    let vm = |n: &str| VSphereVM { name: n.to_string(), instance_id: format!("mi-{}", n), ip_address: "1.2.3.4".to_string() };
    let vms = vec![vm("a"), vm("b")];
    assert_eq!(created_instance_ids(&vms), strings(&["mi-a", "mi-b"]));
    let d = VMDestroyer {};
    let progress = VmProgress { current_status: String::new(), vm_template: String::new(), vms, ssm_activation_id: String::new() };
    assert_eq!(d.resources_situation(&progress), Resources::Remaining);
    assert_eq!(d.resources_situation(&VmProgress::default()), Resources::Clear);
    assert_eq!(
        d.teardown_steps(&progress),
        vec![
            VmTeardownStep::DeleteNode(0),
            VmTeardownStep::DestroyVm(0),
            VmTeardownStep::DeregisterInstance(0),
            VmTeardownStep::DeleteNode(1),
            VmTeardownStep::DestroyVm(1),
            VmTeardownStep::DeregisterInstance(1),
            VmTeardownStep::DestroyTemplate,
            VmTeardownStep::DeleteActivation,
        ]
    );
}

fn vm_config() -> VSphereVmConfig {
    VSphereVmConfig {
        ova_name: "o".to_string(),
        tuf_repo: TufRepoConfig::default(),
        vm_count: None,
        vcenter_host_url: "url".to_string(),
        vcenter_datacenter: "dc".to_string(),
        vcenter_datastore: "ds".to_string(),
        vcenter_network: "net".to_string(),
        vcenter_resource_pool: "pool".to_string(),
        vcenter_workload_folder: "folder".to_string(),
        cluster: VSphereClusterInfo::default(),
        assume_role: None,
    }
}

#[test]
fn govc_environment() {
    let env = govc_env(&vm_config());
    assert_eq!(env[0], ("GOVC_URL".to_string(), "url".to_string()));
    assert_eq!(env[5], ("GOVC_FOLDER".to_string(), "folder".to_string()));
}

fn k8s_config() -> VSphereK8sClusterConfig {
    VSphereK8sClusterConfig {
        name: "wl".to_string(),
        control_plane_endpoint_ip: "10.0.0.1".to_string(),
        creation_policy: Some(CreationPolicy::IfNotExists),
        version: Some(K8sVersion::new(1, 23, None)),
        ova_name: "o.ova".to_string(),
        tuf_repo: TufRepoConfig::default(),
        vcenter_host_url: "https://vc".to_string(),
        vcenter_datacenter: "dc".to_string(),
        vcenter_datastore: "ds".to_string(),
        vcenter_network: "net".to_string(),
        vcenter_resource_pool: "pool".to_string(),
        vcenter_workload_folder: "/dc/vm/folder//".to_string(),
        mgmt_cluster_kubeconfig_base64: String::new(),
        kubeconfig_base64: None,
    }
}

#[test]
fn vsphere_k8s_template_and_tags() {
    assert_eq!(vm_template_path("/dc/vm/folder//", "t"), "/dc/vm/folder/t");
    assert_eq!(vm_template_path("", "t"), "/t");
    let v = K8sVersion::new(1, 23, Some(4));
    let tags = eksd_release_tags(&v);
    assert_eq!(tags.len(), 49);
    assert_eq!(tags[0], "eksdRelease:kubernetes-1-23-eks-1");
    assert_eq!(tags[48], "eksdRelease:kubernetes-1-23-eks-49");
    assert_eq!(support_flag_name(&v), "K8S_1_23_SUPPORT");
}

#[test]
fn vsphere_k8s_clusterspec_text() {
    let spec = clusterspec(&k8s_config(), "tmpl", "mgmt", "AB:CD");
    let expected = r###"apiVersion: anywhere.eks.amazonaws.com/v1alpha1
kind: Cluster
metadata:
  name: wl
spec:
  managementCluster:
    name: mgmt
  clusterNetwork:
    cniConfig:
      cilium: {}
    pods:
      cidrBlocks:
      - 192.168.0.0/16
    services:
      cidrBlocks:
      - 10.96.0.0/12
  controlPlaneConfiguration:
    count: 2
    endpoint:
      host: "10.0.0.1"
    machineGroupRef:
      kind: VSphereMachineConfig
      name: wl-node
  datacenterRef:
    kind: VSphereDatacenterConfig
    name: wl
  externalEtcdConfiguration:
    count: 3
    machineGroupRef:
      kind: VSphereMachineConfig
      name: wl-node
  kubernetesVersion: "1.23"
  workerNodeGroupConfigurations:
  - count: 1
    machineGroupRef:
      kind: VSphereMachineConfig
      name: wl-node
    name: md-0
---
apiVersion: anywhere.eks.amazonaws.com/v1alpha1
kind: VSphereDatacenterConfig
metadata:
  name: wl
spec:
  datacenter: "dc"
  insecure: false
  network: "net"
  server: "https://vc"
  thumbprint: "AB:CD"
---
apiVersion: anywhere.eks.amazonaws.com/v1alpha1
kind: VSphereMachineConfig
metadata:
  name: wl-node
spec:
  diskGiB: 25
  memoryMiB: 8192
  numCPUs: 2
  osFamily: bottlerocket
  datastore: "ds"
  folder: "/dc/vm/folder//"
  template: "tmpl"
  resourcePool: "pool"
"###;
    assert_eq!(spec, expected);
    let mut no_version = k8s_config();
    no_version.version = None;
    assert!(clusterspec(&no_version, "t", "m", "x").contains("kubernetesVersion: \"0.0\""));
}

#[test]
fn vsphere_k8s_existing_cluster_and_destroy() {
    let c = VSphereK8sClusterCreator {};
    assert_eq!(c.existing_kubeconfig(&Some("k".to_string()), Resources::Clear).unwrap(), "k");
    let e = c.existing_kubeconfig(&None, Resources::Clear).unwrap_err();
    assert_eq!(e.context, "Kubeconfig for existing vSphere K8s cluster missing");
    assert!(!c.cluster_exists(false, true));
    let d = VSphereK8sClusterDestroyer {};
    assert_eq!(
        d.workload_kubeconfig_path("wl"),
        "/local/eksa-work/wl//wl-eks-a-cluster.kubeconfig"
    );
}

#[test]
fn metal_cluster_name_and_ips() {
    let c = MetalK8sClusterCreator {};
    let config = "apiVersion: anywhere.eks.amazonaws.com/v1alpha1\nkind: TinkerbellDatacenterConfig\nmetadata:\n  name: x\n---\nkind: Cluster\nmetadata:\n  name: metal\n";
    let encoded = base64::Engine::encode(&base64::engine::general_purpose::STANDARD, config);
    let (decoded, name) = c.config_cluster_name(&encoded).unwrap();
    assert_eq!(decoded, config.as_bytes().to_vec());
    assert_eq!(name, "metal");
    let nameless = base64::Engine::encode(
        &base64::engine::general_purpose::STANDARD,
        "kind: Cluster\nmetadata: {}\n---\nkind: Cluster\nmetadata:\n  name: late\n",
    );
    let e = c.config_cluster_name(&nameless).unwrap_err();
    assert_eq!(e.resources, Resources::Clear);
    assert_eq!(e.context, "Unable to determine the cluster name from the config file ");
    let e = c.config_cluster_name("not base64!").unwrap_err();
    assert_eq!(e.context, "Unable to decode eksctl configuration.");
    let broken = base64::Engine::encode(&base64::engine::general_purpose::STANDARD, "kind: [unclosed\n");
    let e = c.config_cluster_name(&broken).unwrap_err();
    assert_eq!(e.context, "Unable to deserialize eksa config file");
    let addr = |t: &str, a: &str| NodeAddress { address_type: t.to_string(), address: a.to_string() };
    let nodes = vec![
        vec![addr("Hostname", "h"), addr("InternalIP", "10.0.0.2"), addr("InternalIP", "10.0.0.3")],
        vec![addr("InternalIP", "10.0.0.4")],
    ];
    assert_eq!(machine_ips(&nodes, Resources::Remaining).unwrap(), strings(&["10.0.0.2", "10.0.0.4"]));
    let e = machine_ips(&vec![vec![addr("Hostname", "h")]], Resources::Remaining).unwrap_err();
    assert_eq!(e.context, "A node was missing an InternalIp address");
    assert_eq!(workload_kubeconfig_path("m"), "/local/eksa-work/m-eks-a-cluster.kubeconfig");
    let d = MetalK8sClusterDestroyer {};
    assert_eq!(d.resources_situation(&HashSet::new(), ""), Resources::Clear);
    assert_eq!(d.resources_situation(&HashSet::new(), "act"), Resources::Remaining);
}

#[test]
fn eksa_archive_url_lookup() {
    assert_eq!(eksa_arch("x86_64"), "amd64");
    assert_eq!(eksa_arch("aarch64"), "arm64");
    assert_eq!(eksa_arch("riscv64"), "riscv64");
    let manifest = "kind: Other\n---\nkind: Release\nspec:\n  latestVersion: v0.2\n  releases:\n  - version: v0.1\n    eksACLI:\n      linux:\n        amd64:\n          uri: old\n  - version: v0.2\n    eksACLI:\n      darwin:\n        amd64:\n          uri: mac\n      linux:\n        amd64:\n          uri: new\n";
    assert_eq!(eks_a_archive_url(manifest, "linux", "amd64", Resources::Clear).unwrap(), "new");
    let e = eks_a_archive_url(manifest, "linux", "arm64", Resources::Clear).unwrap_err();
    assert_eq!(e.context, "Unable to get the URL for the latest EKS-A version (v0.2)");
    let e = eks_a_archive_url("kind: Other\n", "linux", "amd64", Resources::Clear).unwrap_err();
    assert_eq!(e.context, "Unable to get latest version for EKS-A");
    let e = eks_a_archive_url("kind: [", "linux", "amd64", Resources::Clear).unwrap_err();
    assert_eq!(e.context, "Unable to deserialize eksa config file");
}

fn invocation(id: &str, status: InvocationStatus, versions: &[Option<&str>]) -> Invocation {
    Invocation {
        instance_id: Some(id.to_string()),
        status: Some(status),
        version_ids: versions.iter().map(|v| v.map(|s| s.to_string())).collect(),
    }
}

#[test]
fn migration_decisions() {
    assert!(!is_command_finished(&vec![]));
    let done = vec![
        invocation("a", InvocationStatus::Success, &[Some("1.5.0")]),
        invocation("b", InvocationStatus::Failed, &[Some("1.4.0")]),
    ];
    assert!(is_command_finished(&done));
    assert!(!is_command_finished(&vec![invocation("a", InvocationStatus::Pending, &[])]));
    assert_eq!(failed_hosts(&done), strings(&["b"]));
    match command_result("doc", done.clone()) {
        Err(MigrationError::SsmRunCommand { document_name, instance_ids }) => {
            assert_eq!(document_name, "doc");
            assert_eq!(instance_ids, strings(&["b"]));
        }
        Ok(_) => panic!("expected a failure"),
    }
    assert_eq!(target_version_id("v1.5.0"), "1.5.0");
    assert_eq!(target_version_id("vv1"), "1");
    assert_eq!(unchanged_hosts(&done, "1.5.0"), strings(&["b"]));
    let none = vec![invocation("c", InvocationStatus::Success, &[None])];
    assert!(unchanged_hosts(&none, "1.5.0").is_empty());
    let r = migration_results(3, None);
    assert_eq!((r.outcome, r.num_passed, r.num_failed), (Outcome::Pass, 3, 0));
    let r = migration_results(3, Some(&strings(&["b"])));
    assert_eq!((r.outcome, r.num_passed, r.num_failed), (Outcome::Fail, 2, 1));
}

#[test]
fn karpenter_creation_records_before_teardown() {
    let c = Ec2KarpenterCreator {};
    let steps = c.steps();
    assert_eq!(steps.len(), 21);
    assert_eq!(steps[1], CreateStep::RecordStack);
    assert_eq!(steps[2], CreateStep::CreateStack);
    let mut progress = KarpenterProgress::default();
    for (i, step) in steps.iter().enumerate() {
        progress = c.record(progress, *step);
        if i == 1 {
            assert!(progress.cloud_formation_stack_exists);
            assert!(!progress.tainted_nodegroup_exists);
        }
    }
    assert_eq!(
        progress,
        KarpenterProgress {
            cloud_formation_stack_exists: true,
            tainted_nodegroup_exists: true,
            karpenter_namespace_exists: true,
            inflate_deployment_exists: true,
        }
    );
    assert!(Ec2KarpenterDestroyer {}.teardown_steps(&progress).contains(&TeardownStep::DeleteInflateDeployment));
}

#[test]
fn vsphere_vm_userdata_choice() {
    let c = VMCreator {};
    assert_eq!(
        c.userdata("e", "d", "t", "c", "u", &None),
        Some(Ok(default_userdata("e", "d", "t", "c", "u")))
    );
    let merge = Some(CustomUserData::Merge { encoded_userdata: "m".to_string() });
    let e = c.userdata("e", "d", "t", "c", "u", &merge).unwrap().unwrap_err();
    assert_eq!(e.context, "Failed to decode base64 TOML");
}

#[test]
fn plugin_version_ids_read_the_json_reports() {
    let outputs = vec![
        Some(r#"{"arch":"x86_64","version_id":"1.5.0"}"#.to_string()),
        Some("not json".to_string()),
        None,
        Some(r#"{"version_id":5}"#.to_string()),
        Some(r#"["version_id"]"#.to_string()),
    ];
    let ids = bottlerocket_agents::migration::plugin_version_ids(&outputs);
    assert_eq!(ids, vec![Some("1.5.0".to_string()), None, None, None, None]);
}

#[test]
fn ssm_document_checksums() {
    let sha_of_abc = "ba7816bf8f01cfea414140de5dae2223b00361a396177a9cb410ff61f20015ad";
    assert!(bottlerocket_agents::migration::document_up_to_date(sha_of_abc, "abc"));
    assert!(!bottlerocket_agents::migration::document_up_to_date(sha_of_abc, "abd"));
    assert!(!bottlerocket_agents::migration::document_up_to_date(&sha_of_abc.to_uppercase(), "abc"));
    assert_eq!(
        bottlerocket_agents::migration::document_update_content("/local/doc.yml"),
        "file:///local/doc.yml"
    );
}

#[test]
fn karpenter_waits_on_stacks_and_nodegroups() {
    let s = |v: &[Option<&str>]| Some(v.iter().map(|o| o.map(|x| x.to_string())).collect::<Vec<_>>());
    assert!(bottlerocket_agents::karpenter::stack_reached(&s(&[Some("CREATE_COMPLETE")]), "CREATE_COMPLETE"));
    assert!(!bottlerocket_agents::karpenter::stack_reached(&s(&[None]), "CREATE_COMPLETE"));
    assert!(bottlerocket_agents::karpenter::stack_reached(&s(&[]), "CREATE_IN_PROGRESS"));
    assert!(bottlerocket_agents::karpenter::stack_reached(&None, "CREATE_IN_PROGRESS"));
    assert!(bottlerocket_agents::karpenter::stack_deletion_over(&s(&[])));
    assert!(!bottlerocket_agents::karpenter::stack_deletion_over(&s(&[Some("DELETE_IN_PROGRESS")])));
    assert!(!bottlerocket_agents::karpenter::stack_deletion_over(&None));
    assert_eq!(bottlerocket_agents::karpenter::nodegroup_active(&Some(Some("ACTIVE".to_string()))).unwrap(), true);
    assert_eq!(bottlerocket_agents::karpenter::nodegroup_active(&Some(Some("CREATING".to_string()))).unwrap(), false);
    let e = bottlerocket_agents::karpenter::nodegroup_active(&None).unwrap_err();
    assert_eq!(e.resources, Resources::Remaining);
    assert_eq!(e.context, "No nodegroup was found");
    let e = bottlerocket_agents::karpenter::nodegroup_active(&Some(None)).unwrap_err();
    assert_eq!(e.context, "The nodegroup did not have a status");
}
