//! What the Karpenter resource agent computes: the commands it runs against the cluster, the
//! Karpenter provisioner it applies, when it stops waiting for nodes, and which of the resources
//! it created it tears down again.

use crate::plan::{step_transition, PlannedStep, StepAction, StepOutcome};
use crate::provider::{ProviderError, Resources};
use crate::text::{
    bool_text, join, join_strings, owned, push_bool, push_signed_decimal, push_string, push_text,
    signed_decimal, str_eq, string_views,
};
use vstd::prelude::*;

verus! {

/// The Karpenter release installed when the configuration names none.
pub const KARPENTER_VERSION: &'static str = "v0.33.1";

/// Where the cluster's kubeconfig is written.
pub const CLUSTER_KUBECONFIG: &'static str = "/local/cluster.kubeconfig";

/// Where the provisioner is written before it is applied.
pub const PROVISIONER_YAML: &'static str = "/local/provisioner.yaml";

/// The managed nodegroup that keeps the cluster's own pods away from the test nodes.
pub const TAINTED_NODEGROUP_NAME: &'static str = "tainted-nodegroup";

/// Where the CloudFormation template of the Karpenter stack is read from.
pub const TEMPLATE_PATH: &'static str = "/local/cloudformation.yaml";

/// The node pool part of the provisioner, up to its instance type requirements.
pub const PROVISIONER_HEAD: &'static str = "apiVersion: karpenter.sh/v1beta1\nkind: NodePool\nmetadata:\n    name: default\nspec: \n  template:\n    spec:\n        nodeClassRef:\n            name: my-provider\n        requirements:\n        - key: kubernetes.io/arch\n          operator: In\n          values: [\"arm64\", \"amd64\"]\n";

/// The text of the provisioner between the requirements and the cluster's name in the role.
pub const PROVISIONER_ROLE: &'static str = "\n---\napiVersion: karpenter.k8s.aws/v1beta1\nkind: EC2NodeClass\nmetadata:\n    name: my-provider\nspec:\n    amiFamily: Bottlerocket\n    role: \"KarpenterNodeRole-";

/// The text of the provisioner before the AMI id.
pub const PROVISIONER_AMI: &'static str = "\"\n    amiSelectorTerms: \n      - id: ";

/// The text of the provisioner before the subnets' discovery tag.
pub const PROVISIONER_SUBNETS: &'static str = "\n    subnetSelectorTerms:\n        - tags:\n            karpenter.sh/discovery: ";

/// The text of the provisioner before the security groups' discovery tag.
pub const PROVISIONER_GROUPS: &'static str = "\n    securityGroupSelectorTerms:\n        - tags:\n            karpenter.sh/discovery: ";

/// The instance type requirement up to its list of values.
pub const REQUIREMENTS_HEAD: &'static str = "        - key: node.kubernetes.io/instance-type\n          operator: In\n          values: [";

/// The `--set` value that annotates the service account with the controller's role, up to the account.
pub const HELM_ROLE_ARN: &'static str = "serviceAccount.annotations.eks\\.amazonaws\\.com/role-arn=arn:aws:iam::";

/// An EBS volume to attach to the nodes Karpenter launches.
#[derive(Clone, Debug)]
pub struct KarpenterDeviceMapping {
    pub name: String,
    pub volume_type: String,
    pub volume_size: i32,
    pub delete_on_termination: bool,
}

/// What the agent hands back once Karpenter scales the cluster.
#[derive(Clone, Copy, Debug, Default, PartialEq, Eq, Structural)]
pub struct CreatedEc2Instances {}

/// Installs Karpenter in a cluster and lets it launch nodes.
#[derive(Clone, Copy, Debug, Default)]
pub struct Ec2KarpenterCreator {}

/// Removes what the creator set up.
#[derive(Clone, Copy, Debug, Default)]
pub struct Ec2KarpenterDestroyer {}

/// The Karpenter release to install: the configured one, else the default.
pub fn karpenter_version(configured: Option<String>) -> (r: String)
    ensures
        r@ == match configured {
            Some(v) => v@,
            None => KARPENTER_VERSION@,
        },
{
    match configured {
        Some(v) => v,
        None => owned(KARPENTER_VERSION),
    }
}

/// `prefix` followed by `name`.
fn prefixed(prefix: &str, name: &str) -> (r: String)
    ensures
        r@ == prefix@ + name@,
{
    let mut r = owned(prefix);
    r.append(name);
    r
}

/// The name of the CloudFormation stack with Karpenter's roles and policies.
pub fn stack_name(cluster_name: &str) -> (r: String)
    ensures
        r@ == "Karpenter-"@ + cluster_name@,
{
    prefixed("Karpenter-", cluster_name)
}

/// The IAM role of the Karpenter controller.
pub fn controller_role_name(cluster_name: &str) -> (r: String)
    ensures
        r@ == "KarpenterControllerRole-"@ + cluster_name@,
{
    prefixed("KarpenterControllerRole-", cluster_name)
}

/// The IAM role of the nodes Karpenter launches.
pub fn node_role_name(cluster_name: &str) -> (r: String)
    ensures
        r@ == "KarpenterNodeRole-"@ + cluster_name@,
{
    prefixed("KarpenterNodeRole-", cluster_name)
}

/// `arn:aws:iam::<account>:<kind>/<name-prefix><cluster>`.
pub open spec fn iam_arn(account_id: Seq<char>, kind: Seq<char>, cluster_name: Seq<char>) -> Seq<
    char,
> {
    "arn:aws:iam::"@ + account_id + ":"@ + kind + cluster_name
}

fn iam_arn_text(account_id: &str, kind: &str, cluster_name: &str) -> (r: String)
    ensures
        r@ == iam_arn(account_id@, kind@, cluster_name@),
{
    let mut r = owned("arn:aws:iam::");
    r.append(account_id);
    r.append(":");
    r.append(kind);
    r.append(cluster_name);
    r
}

/// The arguments of `eksctl utils write-kubeconfig`.
pub open spec fn write_kubeconfig_args_spec(region: Seq<char>, cluster_name: Seq<char>) -> Seq<
    Seq<char>,
> {
    seq![
        "utils"@,
        "write-kubeconfig"@,
        "-r"@,
        region,
        "--cluster="@ + cluster_name,
        "--kubeconfig="@ + CLUSTER_KUBECONFIG@,
    ]
}

/// The arguments with which `eksctl` writes the cluster's kubeconfig.
pub fn write_kubeconfig_args(region: &str, cluster_name: &str) -> (r: Vec<String>)
    ensures
        string_views(r@) == write_kubeconfig_args_spec(region@, cluster_name@),
{
    let mut v: Vec<String> = Vec::new();
    push_text(&mut v, "utils");
    push_text(&mut v, "write-kubeconfig");
    push_text(&mut v, "-r");
    push_text(&mut v, region);
    push_string(&mut v, prefixed("--cluster=", cluster_name));
    push_string(&mut v, prefixed("--kubeconfig=", CLUSTER_KUBECONFIG));
    assert(string_views(v@) =~= write_kubeconfig_args_spec(region@, cluster_name@));
    v
}

/// The arguments of `eksctl utils associate-iam-oidc-provider`.
pub open spec fn associate_oidc_args_spec(region: Seq<char>, cluster_name: Seq<char>) -> Seq<
    Seq<char>,
> {
    seq![
        "utils"@,
        "associate-iam-oidc-provider"@,
        "-r"@,
        region,
        "--cluster"@,
        cluster_name,
        "--approve"@,
    ]
}

/// The arguments with which `eksctl` associates the cluster with an IAM OIDC provider.
pub fn associate_oidc_args(region: &str, cluster_name: &str) -> (r: Vec<String>)
    ensures
        string_views(r@) == associate_oidc_args_spec(region@, cluster_name@),
{
    let mut v: Vec<String> = Vec::new();
    push_text(&mut v, "utils");
    push_text(&mut v, "associate-iam-oidc-provider");
    push_text(&mut v, "-r");
    push_text(&mut v, region);
    push_text(&mut v, "--cluster");
    push_text(&mut v, cluster_name);
    push_text(&mut v, "--approve");
    assert(string_views(v@) =~= associate_oidc_args_spec(region@, cluster_name@));
    v
}

/// The arguments of `eksctl create iamserviceaccount` for the Karpenter controller.
pub open spec fn service_account_args_spec(
    region: Seq<char>,
    cluster_name: Seq<char>,
    account_id: Seq<char>,
) -> Seq<Seq<char>> {
    seq![
        "create"@,
        "iamserviceaccount"@,
        "-r"@,
        region,
        "--cluster"@,
        cluster_name,
        "--name"@,
        "karpenter"@,
        "--namespace"@,
        "karpenter"@,
        "--role-name"@,
        "KarpenterControllerRole-"@ + cluster_name,
        "--attach-policy-arn"@,
        iam_arn(account_id, "policy/KarpenterControllerPolicy-"@, cluster_name),
        "--role-only"@,
        "--approve"@,
    ]
}

/// The arguments with which `eksctl` creates the controller's IAM role.
pub fn service_account_args(region: &str, cluster_name: &str, account_id: &str) -> (r: Vec<String>)
    ensures
        string_views(r@) == service_account_args_spec(region@, cluster_name@, account_id@),
{
    let mut v: Vec<String> = Vec::new();
    push_text(&mut v, "create");
    push_text(&mut v, "iamserviceaccount");
    push_text(&mut v, "-r");
    push_text(&mut v, region);
    push_text(&mut v, "--cluster");
    push_text(&mut v, cluster_name);
    push_text(&mut v, "--name");
    push_text(&mut v, "karpenter");
    push_text(&mut v, "--namespace");
    push_text(&mut v, "karpenter");
    push_text(&mut v, "--role-name");
    push_string(&mut v, controller_role_name(cluster_name));
    push_text(&mut v, "--attach-policy-arn");
    push_string(&mut v, iam_arn_text(account_id, "policy/KarpenterControllerPolicy-", cluster_name));
    push_text(&mut v, "--role-only");
    push_text(&mut v, "--approve");
    assert(string_views(v@) =~= service_account_args_spec(region@, cluster_name@, account_id@));
    v
}

/// The arguments of `eksctl create iamidentitymapping` for the nodes' role.
pub open spec fn identity_mapping_args_spec(
    region: Seq<char>,
    cluster_name: Seq<char>,
    account_id: Seq<char>,
) -> Seq<Seq<char>> {
    seq![
        "create"@,
        "iamidentitymapping"@,
        "-r"@,
        region,
        "--cluster"@,
        cluster_name,
        "--arn"@,
        iam_arn(account_id, "role/KarpenterNodeRole-"@, cluster_name),
        "--username"@,
        "system:node:{{EC2PrivateDNSName}}"@,
        "--group"@,
        "system:bootstrappers"@,
        "--group"@,
        "system:nodes"@,
    ]
}

/// The arguments with which `eksctl` lets the nodes' role join the cluster.
pub fn identity_mapping_args(region: &str, cluster_name: &str, account_id: &str) -> (r: Vec<
    String,
>)
    ensures
        string_views(r@) == identity_mapping_args_spec(region@, cluster_name@, account_id@),
{
    let mut v: Vec<String> = Vec::new();
    push_text(&mut v, "create");
    push_text(&mut v, "iamidentitymapping");
    push_text(&mut v, "-r");
    push_text(&mut v, region);
    push_text(&mut v, "--cluster");
    push_text(&mut v, cluster_name);
    push_text(&mut v, "--arn");
    push_string(&mut v, iam_arn_text(account_id, "role/KarpenterNodeRole-", cluster_name));
    push_text(&mut v, "--username");
    push_text(&mut v, "system:node:{{EC2PrivateDNSName}}");
    push_text(&mut v, "--group");
    push_text(&mut v, "system:bootstrappers");
    push_text(&mut v, "--group");
    push_text(&mut v, "system:nodes");
    assert(string_views(v@) =~= identity_mapping_args_spec(region@, cluster_name@, account_id@));
    v
}

/// The arguments of `eksctl create nodegroup` for the tainted nodegroup.
pub open spec fn create_nodegroup_args_spec(region: Seq<char>, cluster_name: Seq<char>) -> Seq<
    Seq<char>,
> {
    seq![
        "create"@,
        "nodegroup"@,
        "-r"@,
        region,
        "--cluster"@,
        cluster_name,
        "--name"@,
        TAINTED_NODEGROUP_NAME@,
    ]
}

/// The arguments with which `eksctl` creates the tainted nodegroup.
pub fn create_nodegroup_args(region: &str, cluster_name: &str) -> (r: Vec<String>)
    ensures
        string_views(r@) == create_nodegroup_args_spec(region@, cluster_name@),
{
    let mut v: Vec<String> = Vec::new();
    push_text(&mut v, "create");
    push_text(&mut v, "nodegroup");
    push_text(&mut v, "-r");
    push_text(&mut v, region);
    push_text(&mut v, "--cluster");
    push_text(&mut v, cluster_name);
    push_text(&mut v, "--name");
    push_text(&mut v, TAINTED_NODEGROUP_NAME);
    assert(string_views(v@) =~= create_nodegroup_args_spec(region@, cluster_name@));
    v
}

/// The arguments of `eksctl delete nodegroup` for the tainted nodegroup.
pub open spec fn delete_nodegroup_args_spec(region: Seq<char>, cluster_name: Seq<char>) -> Seq<
    Seq<char>,
> {
    create_nodegroup_args_spec(region, cluster_name).update(0, "delete"@) + seq![
        "--wait"@,
        "--disable-eviction"@,
    ]
}

/// The arguments with which `eksctl` deletes the tainted nodegroup.
pub fn delete_nodegroup_args(region: &str, cluster_name: &str) -> (r: Vec<String>)
    ensures
        string_views(r@) == delete_nodegroup_args_spec(region@, cluster_name@),
{
    let mut v: Vec<String> = Vec::new();
    push_text(&mut v, "delete");
    push_text(&mut v, "nodegroup");
    push_text(&mut v, "-r");
    push_text(&mut v, region);
    push_text(&mut v, "--cluster");
    push_text(&mut v, cluster_name);
    push_text(&mut v, "--name");
    push_text(&mut v, TAINTED_NODEGROUP_NAME);
    push_text(&mut v, "--wait");
    push_text(&mut v, "--disable-eviction");
    assert(string_views(v@) =~= delete_nodegroup_args_spec(region@, cluster_name@));
    v
}

/// The arguments of `eksctl delete iamserviceaccount` for the Karpenter controller.
pub open spec fn delete_service_account_args_spec(region: Seq<char>, cluster_name: Seq<char>) -> Seq<
    Seq<char>,
> {
    seq![
        "delete"@,
        "iamserviceaccount"@,
        "-r"@,
        region,
        "--cluster"@,
        cluster_name,
        "--name"@,
        "karpenter"@,
        "--namespace"@,
        "karpenter"@,
        "--wait"@,
    ]
}

/// The arguments with which `eksctl` deletes the controller's service account.
pub fn delete_service_account_args(region: &str, cluster_name: &str) -> (r: Vec<String>)
    ensures
        string_views(r@) == delete_service_account_args_spec(region@, cluster_name@),
{
    let mut v: Vec<String> = Vec::new();
    push_text(&mut v, "delete");
    push_text(&mut v, "iamserviceaccount");
    push_text(&mut v, "-r");
    push_text(&mut v, region);
    push_text(&mut v, "--cluster");
    push_text(&mut v, cluster_name);
    push_text(&mut v, "--name");
    push_text(&mut v, "karpenter");
    push_text(&mut v, "--namespace");
    push_text(&mut v, "karpenter");
    push_text(&mut v, "--wait");
    assert(string_views(v@) =~= delete_service_account_args_spec(region@, cluster_name@));
    v
}

/// The arguments of `helm upgrade --install` for Karpenter.
pub open spec fn helm_install_args_spec(
    version: Seq<char>,
    cluster_name: Seq<char>,
    endpoint: Seq<char>,
    account_id: Seq<char>,
) -> Seq<Seq<char>> {
    seq![
        "upgrade"@,
        "--install"@,
        "karpenter"@,
        "--namespace"@,
        "karpenter"@,
        "--create-namespace"@,
        "oci://public.ecr.aws/karpenter/karpenter"@,
        "--version"@,
        version,
        "--set"@,
        "aws.defaultInstanceProfile=KarpenterNodeRole-"@ + cluster_name,
        "--set"@,
        "settings.clusterName="@ + cluster_name,
        "--set"@,
        "settings.aws.clusterEndpoint="@ + endpoint,
        "--set"@,
        HELM_ROLE_ARN@ + account_id + ":role/KarpenterControllerRole-"@ + cluster_name,
        "--wait"@,
        "--debug"@,
    ]
}

/// The arguments with which `helm` installs Karpenter in the cluster.
pub fn helm_install_args(version: &str, cluster_name: &str, endpoint: &str, account_id: &str) -> (r:
    Vec<String>)
    ensures
        string_views(r@) == helm_install_args_spec(version@, cluster_name@, endpoint@, account_id@),
{
    let mut v: Vec<String> = Vec::new();
    push_text(&mut v, "upgrade");
    push_text(&mut v, "--install");
    push_text(&mut v, "karpenter");
    push_text(&mut v, "--namespace");
    push_text(&mut v, "karpenter");
    push_text(&mut v, "--create-namespace");
    push_text(&mut v, "oci://public.ecr.aws/karpenter/karpenter");
    push_text(&mut v, "--version");
    push_text(&mut v, version);
    push_text(&mut v, "--set");
    push_string(&mut v, prefixed("aws.defaultInstanceProfile=KarpenterNodeRole-", cluster_name));
    push_text(&mut v, "--set");
    push_string(&mut v, prefixed("settings.clusterName=", cluster_name));
    push_text(&mut v, "--set");
    push_string(&mut v, prefixed("settings.aws.clusterEndpoint=", endpoint));
    push_text(&mut v, "--set");
    let mut arn = owned(HELM_ROLE_ARN);
    arn.append(account_id);
    arn.append(":role/KarpenterControllerRole-");
    arn.append(cluster_name);
    push_string(&mut v, arn);
    push_text(&mut v, "--wait");
    push_text(&mut v, "--debug");
    assert(string_views(v@) =~= helm_install_args_spec(
        version@,
        cluster_name@,
        endpoint@,
        account_id@,
    ));
    v
}

/// The arguments of `helm uninstall` for Karpenter.
pub open spec fn helm_uninstall_args_spec() -> Seq<Seq<char>> {
    seq!["uninstall"@, "karpenter"@, "--namespace"@, "karpenter"@]
}

/// The arguments with which `helm` removes Karpenter from the cluster.
pub fn helm_uninstall_args() -> (r: Vec<String>)
    ensures
        string_views(r@) == helm_uninstall_args_spec(),
{
    let mut v: Vec<String> = Vec::new();
    push_text(&mut v, "uninstall");
    push_text(&mut v, "karpenter");
    push_text(&mut v, "--namespace");
    push_text(&mut v, "karpenter");
    assert(string_views(v@) =~= helm_uninstall_args_spec());
    v
}

/// The arguments of `kubectl apply` for the provisioner.
pub open spec fn apply_provisioner_args_spec() -> Seq<Seq<char>> {
    seq!["--kubeconfig"@, CLUSTER_KUBECONFIG@, "apply"@, "-f"@, PROVISIONER_YAML@]
}

/// The arguments with which `kubectl` applies the provisioner.
pub fn apply_provisioner_args() -> (r: Vec<String>)
    ensures
        string_views(r@) == apply_provisioner_args_spec(),
{
    let mut v: Vec<String> = Vec::new();
    push_text(&mut v, "--kubeconfig");
    push_text(&mut v, CLUSTER_KUBECONFIG);
    push_text(&mut v, "apply");
    push_text(&mut v, "-f");
    push_text(&mut v, PROVISIONER_YAML);
    assert(string_views(v@) =~= apply_provisioner_args_spec());
    v
}

/// The requirement on instance types of the node pool: none when no type is configured.
pub open spec fn instance_type_requirements_text(instance_types: Seq<Seq<char>>) -> Seq<char> {
    if instance_types.len() == 0 {
        Seq::empty()
    } else {
        REQUIREMENTS_HEAD@ + join(instance_types, ","@) + "]\n\n"@
    }
}

/// The node pool's requirement that nodes be of one of `instance_types`.
pub fn instance_type_requirements(instance_types: &Vec<String>) -> (r: String)
    ensures
        r@ == instance_type_requirements_text(string_views(instance_types@)),
{
    if instance_types.len() == 0 {
        String::new()
    } else {
        let mut r = owned(REQUIREMENTS_HEAD);
        let joined = join_strings(instance_types, ",");
        r.append(joined.as_str());
        r.append("]\n\n");
        r
    }
}

/// The YAML of one block device mapping.
pub open spec fn device_mapping_text(m: KarpenterDeviceMapping) -> Seq<char> {
    "\n    - deviceName: "@ + m.name@ + "\n      ebs:\n        volumeType: "@ + m.volume_type@
        + "\n        volumeSize: "@ + signed_decimal(m.volume_size as int)
        + "Gi\n        deleteOnTermination: "@ + bool_text(m.delete_on_termination)
}

/// The YAML of the mappings `ms`, one after the other.
pub open spec fn device_mappings_concat(ms: Seq<KarpenterDeviceMapping>) -> Seq<char>
    decreases ms.len(),
{
    if ms.len() == 0 {
        Seq::empty()
    } else {
        device_mappings_concat(ms.drop_last()) + device_mapping_text(ms.last())
    }
}

/// The block device mappings of the node class: none when no mapping is configured.
pub open spec fn block_device_mappings_text(ms: Seq<KarpenterDeviceMapping>) -> Seq<char> {
    if ms.len() == 0 {
        Seq::empty()
    } else {
        "    blockDeviceMappings:"@ + device_mappings_concat(ms)
    }
}

/// The node class's block device mappings, in the order given.
pub fn block_device_mappings(mappings: &Vec<KarpenterDeviceMapping>) -> (r: String)
    ensures
        r@ == block_device_mappings_text(mappings@),
{
    if mappings.len() == 0 {
        return String::new();
    }
    let mut r = owned("    blockDeviceMappings:");
    let mut i: usize = 0;
    while i < mappings.len()
        invariant
            0 <= i <= mappings@.len(),
            r@ == "    blockDeviceMappings:"@ + device_mappings_concat(mappings@.take(i as int)),
        decreases mappings.len() - i,
    {
        let m = &mappings[i];
        let ghost before = r@;
        r.append("\n    - deviceName: ");
        r.append(m.name.as_str());
        r.append("\n      ebs:\n        volumeType: ");
        r.append(m.volume_type.as_str());
        r.append("\n        volumeSize: ");
        push_signed_decimal(&mut r, m.volume_size as i64);
        r.append("Gi\n        deleteOnTermination: ");
        push_bool(&mut r, m.delete_on_termination);
        proof {
            let next = mappings@.take(i + 1);
            assert(next.drop_last() =~= mappings@.take(i as int));
            assert(next.last() == mappings@[i as int]);
            assert(r@ =~= before + device_mapping_text(mappings@[i as int]));
        }
        i = i + 1;
    }
    assert(mappings@.take(i as int) =~= mappings@);
    r
}

/// The provisioner: a node pool that lets Karpenter launch `arm64` and `amd64` nodes and an EC2
/// node class of Bottlerocket nodes with the given AMI, found by the cluster's discovery tags.
pub open spec fn provisioner_text(
    requirements: Seq<char>,
    cluster_name: Seq<char>,
    node_ami: Seq<char>,
    block_mappings: Seq<char>,
) -> Seq<char> {
    PROVISIONER_HEAD@ + requirements + PROVISIONER_ROLE@ + cluster_name + PROVISIONER_AMI@
        + node_ami + PROVISIONER_SUBNETS@ + cluster_name + PROVISIONER_GROUPS@ + cluster_name
        + "\n"@ + block_mappings + "\n"@
}

/// The provisioner YAML for a cluster, from the configured instance types and block devices.
pub fn provisioner(
    cluster_name: &str,
    node_ami: &str,
    instance_types: &Vec<String>,
    device_mappings: &Vec<KarpenterDeviceMapping>,
) -> (r: String)
    ensures
        r@ == provisioner_text(
            instance_type_requirements_text(string_views(instance_types@)),
            cluster_name@,
            node_ami@,
            block_device_mappings_text(device_mappings@),
        ),
{
    let requirements = instance_type_requirements(instance_types);
    let mappings = block_device_mappings(device_mappings);
    let mut r = owned(PROVISIONER_HEAD);
    r.append(requirements.as_str());
    r.append(PROVISIONER_ROLE);
    r.append(cluster_name);
    r.append(PROVISIONER_AMI);
    r.append(node_ami);
    r.append(PROVISIONER_SUBNETS);
    r.append(cluster_name);
    r.append(PROVISIONER_GROUPS);
    r.append(cluster_name);
    r.append("\n");
    r.append(mappings.as_str());
    r.append("\n");
    r
}

/// How a node count is to compare with a reference count.
#[derive(Clone, Copy, Debug, PartialEq, Eq, Structural)]
pub enum CountComparison {
    Less,
    Equal,
    Greater,
}

/// Whether `nodes` compares with `reference` as `wanted` says.
pub open spec fn count_matches(nodes: int, reference: int, wanted: CountComparison) -> bool {
    match wanted {
        CountComparison::Less => nodes < reference,
        CountComparison::Equal => nodes == reference,
        CountComparison::Greater => nodes > reference,
    }
}

/// Whether the wait for nodes is over: the cluster has `nodes` nodes and the agent waits for
/// a count that compares with `reference` as `wanted` says.
pub fn node_count_reached(nodes: usize, reference: usize, wanted: CountComparison) -> (r: bool)
    ensures
        r == count_matches(nodes as int, reference as int, wanted),
{
    match wanted {
        CountComparison::Less => nodes < reference,
        CountComparison::Equal => nodes == reference,
        CountComparison::Greater => nodes > reference,
    }
}

/// A taint on a node.
#[derive(Clone, Debug)]
pub struct NodeTaint {
    pub key: String,
    pub value: Option<String>,
    pub effect: String,
}

/// Whether `t` is `sonobuoy=ignore:NoSchedule`, the taint that keeps the tests off a node.
pub open spec fn is_sonobuoy_taint(t: NodeTaint) -> bool {
    &&& t.key@ == "sonobuoy"@
    &&& t.value matches Some(v) && v@ == "ignore"@
    &&& t.effect@ == "NoSchedule"@
}

/// Whether a node with the taints `taints` (none when its spec lists none) is kept off.
pub open spec fn node_is_tainted(taints: Option<Vec<NodeTaint>>) -> bool {
    match taints {
        Some(ts) => exists|j: int| 0 <= j < ts@.len() && is_sonobuoy_taint(#[trigger] ts@[j]),
        None => false,
    }
}

/// How many of `nodes` are kept off.
pub open spec fn tainted_count(nodes: Seq<Option<Vec<NodeTaint>>>) -> nat
    decreases nodes.len(),
{
    if nodes.len() == 0 {
        0
    } else {
        tainted_count(nodes.drop_last()) + if node_is_tainted(nodes.last()) {
            1nat
        } else {
            0nat
        }
    }
}

fn is_sonobuoy_no_schedule(t: &NodeTaint) -> (r: bool)
    ensures
        r == is_sonobuoy_taint(*t),
{
    let value_ok = match &t.value {
        Some(v) => crate::text::str_eq(v.as_str(), "ignore"),
        None => false,
    };
    crate::text::str_eq(t.key.as_str(), "sonobuoy") && value_ok && crate::text::str_eq(
        t.effect.as_str(),
        "NoSchedule",
    )
}

fn has_sonobuoy_taint(taints: &Vec<NodeTaint>) -> (r: bool)
    ensures
        r == exists|j: int| 0 <= j < taints@.len() && is_sonobuoy_taint(#[trigger] taints@[j]),
{
    let mut i: usize = 0;
    while i < taints.len()
        invariant
            0 <= i <= taints@.len(),
            forall|j: int| 0 <= j < i ==> !is_sonobuoy_taint(#[trigger] taints@[j]),
        decreases taints.len() - i,
    {
        if is_sonobuoy_no_schedule(&taints[i]) {
            return true;
        }
        i = i + 1;
    }
    false
}

/// The number of nodes that carry the `sonobuoy=ignore:NoSchedule` taint; each node is given by
/// its taints, or `None` where its spec lists none.
pub fn tainted_node_count(nodes: &Vec<Option<Vec<NodeTaint>>>) -> (r: usize)
    ensures
        r == tainted_count(nodes@),
{
    let mut count: usize = 0;
    let mut i: usize = 0;
    while i < nodes.len()
        invariant
            0 <= i <= nodes@.len(),
            count == tainted_count(nodes@.take(i as int)),
            count <= i,
        decreases nodes.len() - i,
    {
        let tainted = match &nodes[i] {
            Some(ts) => has_sonobuoy_taint(ts),
            None => false,
        };
        proof {
            let next = nodes@.take(i + 1);
            assert(next.drop_last() =~= nodes@.take(i as int));
            assert(next.last() == nodes@[i as int]);
        }
        if tainted {
            count = count + 1;
        }
        i = i + 1;
    }
    assert(nodes@.take(i as int) =~= nodes@);
    count
}

/// Whether the wait for tainted nodes is over: at least `desired` nodes carry the taint.
pub fn enough_tainted_nodes(nodes: &Vec<Option<Vec<NodeTaint>>>, desired: usize) -> (r: bool)
    ensures
        r == (tainted_count(nodes@) >= desired),
{
    tainted_node_count(nodes) >= desired
}

/// What the agent records, while it creates, of the resources it has set up.
#[derive(Clone, Copy, Debug, Default, PartialEq, Eq, Structural)]
pub struct KarpenterProgress {
    pub cloud_formation_stack_exists: bool,
    pub tainted_nodegroup_exists: bool,
    pub karpenter_namespace_exists: bool,
    pub inflate_deployment_exists: bool,
}

/// One step of tearing Karpenter down.
#[derive(Clone, Copy, Debug, PartialEq, Eq, Structural)]
pub enum TeardownStep {
    /// `eksctl utils write-kubeconfig`.
    WriteKubeconfig,
    /// Wait until the tainted nodegroup is active.
    WaitForTaintedNodegroup,
    /// Remove the `sonobuoy=ignore:NoSchedule` taint from the tainted nodegroup.
    RemoveNodegroupTaint,
    /// Delete the `inflate` deployment.
    DeleteInflateDeployment,
    /// Wait until only the two nodes of the tainted nodegroup are left.
    WaitForKarpenterNodesToLeave,
    /// `helm uninstall` Karpenter.
    UninstallKarpenter,
    /// `eksctl delete nodegroup` for the tainted nodegroup.
    DeleteTaintedNodegroup,
    /// Record that the instances are deleted.
    RecordInstancesDeleted,
    /// Remove the nodes' role from its instance profile.
    DetachNodeRole,
    /// `eksctl delete iamserviceaccount`; a failure is only reported.
    DeleteServiceAccount,
    /// Delete the controller's role; a failure is only reported.
    DeleteControllerRole,
    /// Delete the CloudFormation stack.
    DeleteStack,
    /// Wait for the stack to be gone.
    WaitForStackDeletion,
}

/// The steps of tearing down what `progress` records: nothing when no stack was created, the
/// nodegroup and what runs on it only when it was created, and the roles and the stack last.
pub open spec fn teardown_plan(progress: KarpenterProgress) -> Seq<TeardownStep> {
    if !progress.cloud_formation_stack_exists {
        Seq::empty()
    } else {
        let nodegroup = if progress.tainted_nodegroup_exists {
            seq![
                TeardownStep::WriteKubeconfig,
                TeardownStep::WaitForTaintedNodegroup,
                TeardownStep::RemoveNodegroupTaint,
            ] + (if progress.inflate_deployment_exists {
                seq![
                    TeardownStep::DeleteInflateDeployment,
                    TeardownStep::WaitForKarpenterNodesToLeave,
                ]
            } else {
                Seq::empty()
            }) + (if progress.karpenter_namespace_exists {
                seq![TeardownStep::UninstallKarpenter]
            } else {
                Seq::empty()
            }) + seq![TeardownStep::DeleteTaintedNodegroup, TeardownStep::RecordInstancesDeleted]
        } else {
            Seq::empty()
        };
        nodegroup + seq![
            TeardownStep::DetachNodeRole,
            TeardownStep::DeleteServiceAccount,
            TeardownStep::DeleteControllerRole,
            TeardownStep::DeleteStack,
            TeardownStep::WaitForStackDeletion,
        ]
    }
}

impl Ec2KarpenterDestroyer {
    /// The steps, in order, with which the destroyer tears down what `progress` records.
    pub fn teardown_steps(&self, progress: &KarpenterProgress) -> (r: Vec<TeardownStep>)
        ensures
            r@ == teardown_plan(*progress),
    {
        let mut v: Vec<TeardownStep> = Vec::new();
        if !progress.cloud_formation_stack_exists {
            assert(v@ =~= teardown_plan(*progress));
            return v;
        }
        if progress.tainted_nodegroup_exists {
            v.push(TeardownStep::WriteKubeconfig);
            v.push(TeardownStep::WaitForTaintedNodegroup);
            v.push(TeardownStep::RemoveNodegroupTaint);
            if progress.inflate_deployment_exists {
                v.push(TeardownStep::DeleteInflateDeployment);
                v.push(TeardownStep::WaitForKarpenterNodesToLeave);
            }
            if progress.karpenter_namespace_exists {
                v.push(TeardownStep::UninstallKarpenter);
            }
            v.push(TeardownStep::DeleteTaintedNodegroup);
            v.push(TeardownStep::RecordInstancesDeleted);
        }
        v.push(TeardownStep::DetachNodeRole);
        v.push(TeardownStep::DeleteServiceAccount);
        v.push(TeardownStep::DeleteControllerRole);
        v.push(TeardownStep::DeleteStack);
        v.push(TeardownStep::WaitForStackDeletion);
        assert(v@ =~= teardown_plan(*progress));
        v
    }
}

/// Tearing down touches only what was recorded as created: the deployment, Karpenter and the
/// nodegroup are removed only where the progress records them, nothing is done without a stack,
/// and with a stack the last step waits for the stack to be gone.
pub proof fn lemma_teardown_only_what_was_created(progress: KarpenterProgress)
    ensures
        teardown_plan(progress).contains(TeardownStep::DeleteInflateDeployment)
            ==> progress.inflate_deployment_exists,
        teardown_plan(progress).contains(TeardownStep::UninstallKarpenter)
            ==> progress.karpenter_namespace_exists,
        teardown_plan(progress).contains(TeardownStep::DeleteTaintedNodegroup)
            ==> progress.tainted_nodegroup_exists,
        (teardown_plan(progress).len() == 0) == !progress.cloud_formation_stack_exists,
        progress.cloud_formation_stack_exists ==> teardown_plan(progress).last()
            == TeardownStep::WaitForStackDeletion,
{
    let p = teardown_plan(progress);
    if progress.cloud_formation_stack_exists {
        assert(p.len() >= 5);
        if p.contains(TeardownStep::DeleteInflateDeployment) {
            let j = choose|j: int| 0 <= j < p.len() && p[j] == TeardownStep::DeleteInflateDeployment;
            if !progress.inflate_deployment_exists {
                assert(false);
            }
        }
        if p.contains(TeardownStep::UninstallKarpenter) {
            let j = choose|j: int| 0 <= j < p.len() && p[j] == TeardownStep::UninstallKarpenter;
            if !progress.karpenter_namespace_exists {
                assert(false);
            }
        }
        if p.contains(TeardownStep::DeleteTaintedNodegroup) {
            let j = choose|j: int| 0 <= j < p.len() && p[j] == TeardownStep::DeleteTaintedNodegroup;
            if !progress.tainted_nodegroup_exists {
                assert(false);
            }
        }
    }
}

/// One step of installing Karpenter, in the order the creator takes them. The `Record` steps
/// send what was created so far to the controller, which hands it to the destroyer.
#[derive(Clone, Copy, Debug, PartialEq, Eq, Structural)]
pub enum CreateStep {
    WriteKubeconfig,
    /// Record the CloudFormation stack, before it is created.
    RecordStack,
    CreateStack,
    WaitForStack,
    AssociateOidcProvider,
    CreateServiceAccount,
    TagSubnets,
    TagSecurityGroup,
    CreateIdentityMapping,
    CreateTaintedNodegroup,
    /// Record the tainted nodegroup, once it is created.
    RecordNodegroup,
    TaintAndScaleNodegroup,
    InstallKarpenter,
    /// Record Karpenter, once it is installed.
    RecordKarpenter,
    ApplyProvisioner,
    CreateInflateDeployment,
    /// Record the `inflate` deployment, once it is created.
    RecordInflateDeployment,
    WaitForKarpenterNodes,
    WaitForTaintedNodegroup,
    MakeNodegroupUnschedulable,
    WaitForTaintedNodes,
}

/// The number of steps of the creation.
pub const CREATE_STEP_COUNT: usize = 21;

/// The `i`-th step of the creation.
pub open spec fn create_step(i: int) -> CreateStep {
    if i == 0 {
        CreateStep::WriteKubeconfig
    } else if i == 1 {
        CreateStep::RecordStack
    } else if i == 2 {
        CreateStep::CreateStack
    } else if i == 3 {
        CreateStep::WaitForStack
    } else if i == 4 {
        CreateStep::AssociateOidcProvider
    } else if i == 5 {
        CreateStep::CreateServiceAccount
    } else if i == 6 {
        CreateStep::TagSubnets
    } else if i == 7 {
        CreateStep::TagSecurityGroup
    } else if i == 8 {
        CreateStep::CreateIdentityMapping
    } else if i == 9 {
        CreateStep::CreateTaintedNodegroup
    } else if i == 10 {
        CreateStep::RecordNodegroup
    } else if i == 11 {
        CreateStep::TaintAndScaleNodegroup
    } else if i == 12 {
        CreateStep::InstallKarpenter
    } else if i == 13 {
        CreateStep::RecordKarpenter
    } else if i == 14 {
        CreateStep::ApplyProvisioner
    } else if i == 15 {
        CreateStep::CreateInflateDeployment
    } else if i == 16 {
        CreateStep::RecordInflateDeployment
    } else if i == 17 {
        CreateStep::WaitForKarpenterNodes
    } else if i == 18 {
        CreateStep::WaitForTaintedNodegroup
    } else if i == 19 {
        CreateStep::MakeNodegroupUnschedulable
    } else {
        CreateStep::WaitForTaintedNodes
    }
}

/// What the record after `step` holds, from what `progress` held.
pub open spec fn recorded(progress: KarpenterProgress, step: CreateStep) -> KarpenterProgress {
    match step {
        CreateStep::RecordStack => KarpenterProgress { cloud_formation_stack_exists: true, ..progress },
        CreateStep::RecordNodegroup => KarpenterProgress { tainted_nodegroup_exists: true, ..progress },
        CreateStep::RecordKarpenter => KarpenterProgress {
            karpenter_namespace_exists: true,
            ..progress
        },
        CreateStep::RecordInflateDeployment => KarpenterProgress {
            inflate_deployment_exists: true,
            ..progress
        },
        _ => progress,
    }
}

/// What the controller holds once the first `n` steps are done.
pub open spec fn progress_after(n: nat) -> KarpenterProgress
    decreases n,
{
    if n == 0 {
        KarpenterProgress {
            cloud_formation_stack_exists: false,
            tainted_nodegroup_exists: false,
            karpenter_namespace_exists: false,
            inflate_deployment_exists: false,
        }
    } else {
        recorded(progress_after((n - 1) as nat), create_step(n - 1))
    }
}

/// Something the creation sets up that the teardown removes.
#[derive(Clone, Copy, Debug, PartialEq, Eq, Structural)]
pub enum KarpenterResource {
    Stack,
    ServiceAccount,
    Nodegroup,
    Karpenter,
    InflateDeployment,
}

/// What a step of the creation sets up.
pub open spec fn creates(step: CreateStep) -> Option<KarpenterResource> {
    match step {
        CreateStep::CreateStack => Some(KarpenterResource::Stack),
        CreateStep::CreateServiceAccount => Some(KarpenterResource::ServiceAccount),
        CreateStep::CreateTaintedNodegroup => Some(KarpenterResource::Nodegroup),
        CreateStep::InstallKarpenter => Some(KarpenterResource::Karpenter),
        CreateStep::CreateInflateDeployment => Some(KarpenterResource::InflateDeployment),
        _ => None,
    }
}

/// The teardown step that removes a resource.
pub open spec fn removal(r: KarpenterResource) -> TeardownStep {
    match r {
        KarpenterResource::Stack => TeardownStep::DeleteStack,
        KarpenterResource::ServiceAccount => TeardownStep::DeleteServiceAccount,
        KarpenterResource::Nodegroup => TeardownStep::DeleteTaintedNodegroup,
        KarpenterResource::Karpenter => TeardownStep::UninstallKarpenter,
        KarpenterResource::InflateDeployment => TeardownStep::DeleteInflateDeployment,
    }
}

/// Whether one of the first `n` steps set up `r`.
pub open spec fn created_within(n: nat, r: KarpenterResource) -> bool {
    exists|i: int| 0 <= i < n && creates(#[trigger] create_step(i)) == Some(r)
}

impl Ec2KarpenterCreator {
    /// The steps of the creation, in order.
    pub fn steps(&self) -> (r: Vec<CreateStep>)
        ensures
            r@.len() == CREATE_STEP_COUNT,
            forall|i: int| 0 <= i < CREATE_STEP_COUNT ==> #[trigger] r@[i] == create_step(i),
    {
        let v: Vec<CreateStep> = vec![
            CreateStep::WriteKubeconfig,
            CreateStep::RecordStack,
            CreateStep::CreateStack,
            CreateStep::WaitForStack,
            CreateStep::AssociateOidcProvider,
            CreateStep::CreateServiceAccount,
            CreateStep::TagSubnets,
            CreateStep::TagSecurityGroup,
            CreateStep::CreateIdentityMapping,
            CreateStep::CreateTaintedNodegroup,
            CreateStep::RecordNodegroup,
            CreateStep::TaintAndScaleNodegroup,
            CreateStep::InstallKarpenter,
            CreateStep::RecordKarpenter,
            CreateStep::ApplyProvisioner,
            CreateStep::CreateInflateDeployment,
            CreateStep::RecordInflateDeployment,
            CreateStep::WaitForKarpenterNodes,
            CreateStep::WaitForTaintedNodegroup,
            CreateStep::MakeNodegroupUnschedulable,
            CreateStep::WaitForTaintedNodes,
        ];
        assert forall|i: int| 0 <= i < CREATE_STEP_COUNT implies #[trigger] v@[i] == create_step(i) by {
            assert(i == 0 || i == 1 || i == 2 || i == 3 || i == 4 || i == 5 || i == 6 || i == 7 || i
                == 8 || i == 9 || i == 10 || i == 11 || i == 12 || i == 13 || i == 14 || i == 15 || i
                == 16 || i == 17 || i == 18 || i == 19 || i == 20);
        }
        v
    }

    /// What the creator records once `step` is done, from what it recorded before.
    pub fn record(&self, progress: KarpenterProgress, step: CreateStep) -> (r: KarpenterProgress)
        ensures
            r == recorded(progress, step),
    {
        match step {
            CreateStep::RecordStack => KarpenterProgress { cloud_formation_stack_exists: true, ..progress },
            CreateStep::RecordNodegroup => KarpenterProgress { tainted_nodegroup_exists: true, ..progress },
            CreateStep::RecordKarpenter => KarpenterProgress {
                karpenter_namespace_exists: true,
                ..progress
            },
            CreateStep::RecordInflateDeployment => KarpenterProgress {
                inflate_deployment_exists: true,
                ..progress
            },
            _ => progress,
        }
    }
}

proof fn lemma_progress_after(n: nat)
    requires
        n <= CREATE_STEP_COUNT,
    ensures
        progress_after(n) == (KarpenterProgress {
            cloud_formation_stack_exists: n > 1,
            tainted_nodegroup_exists: n > 10,
            karpenter_namespace_exists: n > 13,
            inflate_deployment_exists: n > 16,
        }),
    decreases n,
{
    if n > 0 {
        lemma_progress_after((n - 1) as nat);
    }
}

proof fn lemma_created_within(n: nat, r: KarpenterResource)
    requires
        n <= CREATE_STEP_COUNT,
    ensures
        created_within(n, r) == match r {
            KarpenterResource::Stack => n > 2,
            KarpenterResource::ServiceAccount => n > 5,
            KarpenterResource::Nodegroup => n > 9,
            KarpenterResource::Karpenter => n > 12,
            KarpenterResource::InflateDeployment => n > 15,
        },
{
    let at = match r {
        KarpenterResource::Stack => 2int,
        KarpenterResource::ServiceAccount => 5int,
        KarpenterResource::Nodegroup => 9int,
        KarpenterResource::Karpenter => 12int,
        KarpenterResource::InflateDeployment => 15int,
    };
    assert(creates(create_step(at)) == Some(r));
    assert forall|i: int| 0 <= i < CREATE_STEP_COUNT && creates(#[trigger] create_step(i)) == Some(r)
        implies i == at by {}
}

proof fn lemma_teardown_contains(p: KarpenterProgress)
    requires
        p.cloud_formation_stack_exists,
    ensures
        teardown_plan(p).contains(TeardownStep::DeleteStack),
        teardown_plan(p).contains(TeardownStep::DeleteServiceAccount),
        p.tainted_nodegroup_exists ==> teardown_plan(p).contains(TeardownStep::DeleteTaintedNodegroup),
        p.tainted_nodegroup_exists && p.karpenter_namespace_exists ==> teardown_plan(p).contains(
            TeardownStep::UninstallKarpenter,
        ),
        p.tainted_nodegroup_exists && p.inflate_deployment_exists ==> teardown_plan(p).contains(
            TeardownStep::DeleteInflateDeployment,
        ),
{
    let t = teardown_plan(p);
    let k = t.len() - 5;
    assert(t[k + 1] == TeardownStep::DeleteServiceAccount);
    assert(t[k + 3] == TeardownStep::DeleteStack);
    if p.tainted_nodegroup_exists {
        assert(t[k - 2] == TeardownStep::DeleteTaintedNodegroup);
        if p.inflate_deployment_exists {
            assert(t[3] == TeardownStep::DeleteInflateDeployment);
        }
        if p.karpenter_namespace_exists {
            assert(t[k - 3] == TeardownStep::UninstallKarpenter);
        }
    }
}

/// Whether `step` records something after it was set up (rather than before).
pub open spec fn records_after_set_up(step: CreateStep) -> bool {
    step == CreateStep::RecordNodegroup || step == CreateStep::RecordKarpenter || step
        == CreateStep::RecordInflateDeployment
}

/// A creation that stops after its first `n` steps leaves nothing behind that the destroyer
/// does not remove: what those steps set up is torn down from what the creator recorded. This
/// fails only where the creation stops at a record that follows the set-up it records (the
/// nodegroup, Karpenter or the `inflate` deployment is then in place but not recorded).
pub proof fn lemma_teardown_removes_what_creation_left(n: nat, r: KarpenterResource)
    requires
        n <= CREATE_STEP_COUNT,
        n < CREATE_STEP_COUNT ==> !records_after_set_up(create_step(n as int)),
        created_within(n, r),
    ensures
        teardown_plan(progress_after(n)).contains(removal(r)),
{
    lemma_progress_after(n);
    lemma_created_within(n, r);
    lemma_teardown_contains(progress_after(n));
}

/// The status the agent reads from `DescribeStacks` (the statuses of the stacks listed, where
/// they have one): that of the first stack, `CREATE_IN_PROGRESS` when there is no such status.
pub open spec fn reported_stack_status(stacks: Option<Seq<Option<Seq<char>>>>) -> Seq<char> {
    match stacks {
        Some(s) => if s.len() > 0 {
            match s[0] {
                Some(status) => status,
                None => "CREATE_IN_PROGRESS"@,
            }
        } else {
            "CREATE_IN_PROGRESS"@
        },
        None => "CREATE_IN_PROGRESS"@,
    }
}

/// The views of stack statuses.
pub open spec fn status_views(stacks: Option<Vec<Option<String>>>) -> Option<Seq<Option<Seq<char>>>> {
    match stacks {
        Some(s) => Some(s@.map_values(|o: Option<String>| match o {
            Some(x) => Some(x@),
            None => None,
        })),
        None => None,
    }
}

/// Whether the wait for the CloudFormation stack is over: the status read from `DescribeStacks`
/// is the desired one (`CREATE_COMPLETE` once the stack is created).
pub fn stack_reached(stacks: &Option<Vec<Option<String>>>, desired: &str) -> (r: bool)
    ensures
        r == (reported_stack_status(status_views(*stacks)) == desired@),
{
    let status: &str = match stacks {
        Some(s) => if s.len() > 0 {
            match &s[0] {
                Some(status) => status.as_str(),
                None => "CREATE_IN_PROGRESS",
            }
        } else {
            "CREATE_IN_PROGRESS"
        },
        None => "CREATE_IN_PROGRESS",
    };
    str_eq(status, desired)
}

/// Whether the wait for the deletion of the CloudFormation stack is over: `DescribeStacks` lists
/// no stack. When it gives no list, the wait goes on.
pub fn stack_deletion_over(stacks: &Option<Vec<Option<String>>>) -> (r: bool)
    ensures
        r == (stacks matches Some(s) && s@.len() == 0),
{
    match stacks {
        Some(s) => s.len() == 0,
        None => false,
    }
}

/// Whether the wait for a nodegroup is over, given what `DescribeNodegroup` reports: the
/// nodegroup (`None` when none was found) and its status (`None` when it has none). The wait is
/// over once the status is `ACTIVE`; without a nodegroup or a status it fails, the cluster's
/// resources remaining.
pub fn nodegroup_active(nodegroup_status: &Option<Option<String>>) -> (r: Result<bool, ProviderError>)
    ensures
        match nodegroup_status {
            None => r matches Err(e) && e.resources == Resources::Remaining && e.context@
                == "No nodegroup was found"@,
            Some(None) => r matches Err(e) && e.resources == Resources::Remaining && e.context@
                == "The nodegroup did not have a status"@,
            Some(Some(status)) => r == Ok::<bool, ProviderError>(status@ == "ACTIVE"@),
        },
{
    match nodegroup_status {
        None => Err(ProviderError::new_with_context(Resources::Remaining, owned("No nodegroup was found"))),
        Some(None) => Err(
            ProviderError::new_with_context(
                Resources::Remaining,
                owned("The nodegroup did not have a status"),
            ),
        ),
        Some(Some(status)) => Ok(str_eq(status.as_str(), "ACTIVE")),
    }
}

/// A step of the Karpenter agent's set-up of Karpenter on a cluster, as it runs it.
#[derive(Clone, Copy, Debug, PartialEq, Eq, Structural)]
pub enum KarpenterCreatePlanStep {
    /// Read the memo from the controller.
    GetInfo,
    /// Send the memo (its new status, or what it now records) to the controller.
    SendStatus,
    /// Make the AWS configuration.
    CreateAwsConfig,
    /// Run `eksctl utils write-kubeconfig`.
    LaunchWriteKubeconfig,
    /// Check that the kubeconfig was written.
    CheckWriteKubeconfig,
    /// Ask STS for the caller's identity.
    GetCallerIdentity,
    /// Read the account id from the caller's identity.
    ReadAccountId,
    /// Read the CloudFormation template.
    ReadStackTemplate,
    /// Create the CloudFormation stack.
    CreateStack,
    /// Wait for the stack to be created.
    WaitForStack,
    /// Run `eksctl utils associate-iam-oidc-provider`.
    LaunchAssociateOidc,
    /// Check that the OIDC provider was associated.
    CheckAssociateOidc,
    /// Run `eksctl create iamserviceaccount` for Karpenter's controller.
    LaunchCreateServiceAccount,
    /// Check that the service account was created.
    CheckCreateServiceAccount,
    /// Tag the cluster's subnets for Karpenter.
    TagSubnets,
    /// Tag the cluster's security group for Karpenter.
    TagSecurityGroup,
    /// Read the cluster's kubeconfig.
    ReadKubeconfig,
    /// Make a client configuration of the kubeconfig.
    LoadKubeconfig,
    /// Make the Kubernetes client of the cluster.
    CreateClient,
    /// Run `eksctl create iamidentitymapping` for the nodes' role.
    LaunchIdentityMapping,
    /// Check that the identity mapping was created.
    CheckIdentityMapping,
    /// Run `eksctl create nodegroup` for the tainted nodegroup.
    LaunchCreateNodegroup,
    /// Check that the nodegroup was created.
    CheckCreateNodegroup,
    /// Scale the tainted nodegroup to two nodes and taint it.
    TaintAndScaleNodegroup,
    /// Run `helm upgrade --install` for Karpenter.
    LaunchHelm,
    /// Check that Karpenter was installed.
    CheckHelm,
    /// Write the provisioner.
    WriteProvisioner,
    /// Run `kubectl apply` with the provisioner.
    LaunchApplyProvisioner,
    /// Check that the provisioner was applied.
    CheckApplyProvisioner,
    /// List the cluster's nodes.
    ListNodes,
    /// Make the `inflate` deployment.
    MakeInflateDeployment,
    /// Create the `inflate` deployment.
    CreateInflateDeployment,
    /// Wait for Karpenter's nodes to join the cluster.
    WaitForKarpenterNodes,
    /// Wait for the tainted nodegroup to be `ACTIVE`.
    WaitForTaintedNodegroup,
    /// Taint the tainted nodegroup's nodes `NoSchedule`.
    MakeNodegroupUnschedulable,
    /// Wait for the tainted nodes.
    WaitForTaintedNodes,
}

/// The Karpenter creator's steps, with the memo sent before each and what a failure reports. The agent reports `Clear` for most failures, `Remaining` where the agent names it (the kubeconfig, the stack, Karpenter's chart); the waits give up after 600 seconds.
pub open spec fn karpenter_create_plan_spec() -> Seq<PlannedStep<KarpenterCreatePlanStep>> {
    seq![
        PlannedStep { step: KarpenterCreatePlanStep::GetInfo, status: None, on_failure: Resources::Unknown, failure: Some("Unable to get info from info client"), wait_secs: None, fatal: true },
        PlannedStep { step: KarpenterCreatePlanStep::SendStatus, status: Some("Getting AWS secret"), on_failure: Resources::Clear, failure: Some("Error sending cluster creation message"), wait_secs: None, fatal: true },
        PlannedStep { step: KarpenterCreatePlanStep::SendStatus, status: Some("Creating AWS config"), on_failure: Resources::Clear, failure: Some("Error sending cluster creation message"), wait_secs: None, fatal: true },
        PlannedStep { step: KarpenterCreatePlanStep::CreateAwsConfig, status: None, on_failure: Resources::Clear, failure: Some("Error creating config"), wait_secs: None, fatal: true },
        PlannedStep { step: KarpenterCreatePlanStep::LaunchWriteKubeconfig, status: None, on_failure: Resources::Remaining, failure: Some("Failed write kubeconfig"), wait_secs: None, fatal: true },
        PlannedStep { step: KarpenterCreatePlanStep::CheckWriteKubeconfig, status: None, on_failure: Resources::Remaining, failure: None, wait_secs: None, fatal: true },
        PlannedStep { step: KarpenterCreatePlanStep::GetCallerIdentity, status: None, on_failure: Resources::Clear, failure: Some("Unable to get caller identity"), wait_secs: None, fatal: true },
        PlannedStep { step: KarpenterCreatePlanStep::ReadAccountId, status: None, on_failure: Resources::Clear, failure: Some("The caller identity was missing an account id"), wait_secs: None, fatal: true },
        PlannedStep { step: KarpenterCreatePlanStep::SendStatus, status: None, on_failure: Resources::Clear, failure: Some("Error sending cluster creation message"), wait_secs: None, fatal: true },
        PlannedStep { step: KarpenterCreatePlanStep::ReadStackTemplate, status: None, on_failure: Resources::Clear, failure: Some("Unable to read cloudformation template"), wait_secs: None, fatal: true },
        PlannedStep { step: KarpenterCreatePlanStep::CreateStack, status: None, on_failure: Resources::Remaining, failure: Some("Unable to create cloudformation stack"), wait_secs: None, fatal: true },
        PlannedStep { step: KarpenterCreatePlanStep::WaitForStack, status: None, on_failure: Resources::Clear, failure: Some("Timed out waiting for cloud formation stack."), wait_secs: Some(600u64), fatal: true },
        PlannedStep { step: KarpenterCreatePlanStep::LaunchAssociateOidc, status: None, on_failure: Resources::Clear, failure: Some("Failed to associate-iam-oidc-provider"), wait_secs: None, fatal: true },
        PlannedStep { step: KarpenterCreatePlanStep::CheckAssociateOidc, status: None, on_failure: Resources::Clear, failure: None, wait_secs: None, fatal: true },
        PlannedStep { step: KarpenterCreatePlanStep::LaunchCreateServiceAccount, status: None, on_failure: Resources::Clear, failure: Some("Failed to create iamserviceaccount"), wait_secs: None, fatal: true },
        PlannedStep { step: KarpenterCreatePlanStep::CheckCreateServiceAccount, status: None, on_failure: Resources::Clear, failure: None, wait_secs: None, fatal: true },
        PlannedStep { step: KarpenterCreatePlanStep::TagSubnets, status: None, on_failure: Resources::Clear, failure: Some("Unable to tag cluster's subnets"), wait_secs: None, fatal: true },
        PlannedStep { step: KarpenterCreatePlanStep::TagSecurityGroup, status: None, on_failure: Resources::Clear, failure: Some("Unable to tag cluster's security groups"), wait_secs: None, fatal: true },
        PlannedStep { step: KarpenterCreatePlanStep::ReadKubeconfig, status: None, on_failure: Resources::Clear, failure: Some("Unable to create config from cluster kubeconfig"), wait_secs: None, fatal: true },
        PlannedStep { step: KarpenterCreatePlanStep::LoadKubeconfig, status: None, on_failure: Resources::Clear, failure: Some("Unable to convert kubeconfig"), wait_secs: None, fatal: true },
        PlannedStep { step: KarpenterCreatePlanStep::CreateClient, status: None, on_failure: Resources::Clear, failure: Some("Unable to create k8s client from cluster kubeconfig"), wait_secs: None, fatal: true },
        PlannedStep { step: KarpenterCreatePlanStep::LaunchIdentityMapping, status: None, on_failure: Resources::Clear, failure: Some("Failed to create iamidentitymapping"), wait_secs: None, fatal: true },
        PlannedStep { step: KarpenterCreatePlanStep::CheckIdentityMapping, status: None, on_failure: Resources::Clear, failure: None, wait_secs: None, fatal: true },
        PlannedStep { step: KarpenterCreatePlanStep::LaunchCreateNodegroup, status: None, on_failure: Resources::Clear, failure: Some("Failed to create nodegroup"), wait_secs: None, fatal: true },
        PlannedStep { step: KarpenterCreatePlanStep::CheckCreateNodegroup, status: None, on_failure: Resources::Clear, failure: None, wait_secs: None, fatal: true },
        PlannedStep { step: KarpenterCreatePlanStep::SendStatus, status: Some("Tainting nodegroup"), on_failure: Resources::Clear, failure: Some("Error sending message"), wait_secs: None, fatal: true },
        PlannedStep { step: KarpenterCreatePlanStep::TaintAndScaleNodegroup, status: None, on_failure: Resources::Clear, failure: Some("Unable to increase nodegroup size and apply taints"), wait_secs: None, fatal: true },
        PlannedStep { step: KarpenterCreatePlanStep::LaunchHelm, status: None, on_failure: Resources::Remaining, failure: Some("Failed to create helm template"), wait_secs: None, fatal: true },
        PlannedStep { step: KarpenterCreatePlanStep::CheckHelm, status: None, on_failure: Resources::Remaining, failure: None, wait_secs: None, fatal: true },
        PlannedStep { step: KarpenterCreatePlanStep::SendStatus, status: Some("Karpenter Installed"), on_failure: Resources::Clear, failure: Some("Error sending message"), wait_secs: None, fatal: true },
        PlannedStep { step: KarpenterCreatePlanStep::WriteProvisioner, status: None, on_failure: Resources::Clear, failure: Some("Unable to write provisioner yaml"), wait_secs: None, fatal: true },
        PlannedStep { step: KarpenterCreatePlanStep::LaunchApplyProvisioner, status: None, on_failure: Resources::Clear, failure: Some("Failed to apply provisioner"), wait_secs: None, fatal: true },
        PlannedStep { step: KarpenterCreatePlanStep::CheckApplyProvisioner, status: None, on_failure: Resources::Clear, failure: None, wait_secs: None, fatal: true },
        PlannedStep { step: KarpenterCreatePlanStep::ListNodes, status: None, on_failure: Resources::Clear, failure: Some("Unable to list nodes in target cluster."), wait_secs: None, fatal: true },
        PlannedStep { step: KarpenterCreatePlanStep::MakeInflateDeployment, status: None, on_failure: Resources::Clear, failure: Some("Unable to serialize inflate deployment"), wait_secs: None, fatal: true },
        PlannedStep { step: KarpenterCreatePlanStep::CreateInflateDeployment, status: None, on_failure: Resources::Clear, failure: Some("Unable to create deployment"), wait_secs: None, fatal: true },
        PlannedStep { step: KarpenterCreatePlanStep::SendStatus, status: Some("Waiting for Karpenter Nodes"), on_failure: Resources::Clear, failure: Some("Error sending message"), wait_secs: None, fatal: true },
        PlannedStep { step: KarpenterCreatePlanStep::WaitForKarpenterNodes, status: None, on_failure: Resources::Clear, failure: Some("Timed out waiting for karpenter nodes to join the cluster"), wait_secs: Some(600u64), fatal: true },
        PlannedStep { step: KarpenterCreatePlanStep::WaitForTaintedNodegroup, status: None, on_failure: Resources::Clear, failure: Some("Timed out waiting for tainted nodegroup to be `ACTIVE`"), wait_secs: Some(600u64), fatal: true },
        PlannedStep { step: KarpenterCreatePlanStep::MakeNodegroupUnschedulable, status: None, on_failure: Resources::Clear, failure: Some("Unable to apply taints"), wait_secs: None, fatal: true },
        PlannedStep { step: KarpenterCreatePlanStep::WaitForTaintedNodes, status: None, on_failure: Resources::Clear, failure: Some("Timed out waiting for karpenter nodes to join the cluster"), wait_secs: Some(600u64), fatal: true },
    ]
}

/// The Karpenter creator's steps, with the memo sent before each and what a failure reports. The agent reports `Clear` for most failures, `Remaining` where the agent names it (the kubeconfig, the stack, Karpenter's chart); the waits give up after 600 seconds.
pub fn karpenter_create_plan() -> (r: Vec<PlannedStep<KarpenterCreatePlanStep>>)
    ensures
        r@ == karpenter_create_plan_spec(),
{
    let mut v: Vec<PlannedStep<KarpenterCreatePlanStep>> = Vec::new();
    v.push(PlannedStep { step: KarpenterCreatePlanStep::GetInfo, status: None, on_failure: Resources::Unknown, failure: Some("Unable to get info from info client"), wait_secs: None, fatal: true });
    v.push(PlannedStep { step: KarpenterCreatePlanStep::SendStatus, status: Some("Getting AWS secret"), on_failure: Resources::Clear, failure: Some("Error sending cluster creation message"), wait_secs: None, fatal: true });
    v.push(PlannedStep { step: KarpenterCreatePlanStep::SendStatus, status: Some("Creating AWS config"), on_failure: Resources::Clear, failure: Some("Error sending cluster creation message"), wait_secs: None, fatal: true });
    v.push(PlannedStep { step: KarpenterCreatePlanStep::CreateAwsConfig, status: None, on_failure: Resources::Clear, failure: Some("Error creating config"), wait_secs: None, fatal: true });
    v.push(PlannedStep { step: KarpenterCreatePlanStep::LaunchWriteKubeconfig, status: None, on_failure: Resources::Remaining, failure: Some("Failed write kubeconfig"), wait_secs: None, fatal: true });
    v.push(PlannedStep { step: KarpenterCreatePlanStep::CheckWriteKubeconfig, status: None, on_failure: Resources::Remaining, failure: None, wait_secs: None, fatal: true });
    v.push(PlannedStep { step: KarpenterCreatePlanStep::GetCallerIdentity, status: None, on_failure: Resources::Clear, failure: Some("Unable to get caller identity"), wait_secs: None, fatal: true });
    v.push(PlannedStep { step: KarpenterCreatePlanStep::ReadAccountId, status: None, on_failure: Resources::Clear, failure: Some("The caller identity was missing an account id"), wait_secs: None, fatal: true });
    v.push(PlannedStep { step: KarpenterCreatePlanStep::SendStatus, status: None, on_failure: Resources::Clear, failure: Some("Error sending cluster creation message"), wait_secs: None, fatal: true });
    v.push(PlannedStep { step: KarpenterCreatePlanStep::ReadStackTemplate, status: None, on_failure: Resources::Clear, failure: Some("Unable to read cloudformation template"), wait_secs: None, fatal: true });
    v.push(PlannedStep { step: KarpenterCreatePlanStep::CreateStack, status: None, on_failure: Resources::Remaining, failure: Some("Unable to create cloudformation stack"), wait_secs: None, fatal: true });
    v.push(PlannedStep { step: KarpenterCreatePlanStep::WaitForStack, status: None, on_failure: Resources::Clear, failure: Some("Timed out waiting for cloud formation stack."), wait_secs: Some(600u64), fatal: true });
    v.push(PlannedStep { step: KarpenterCreatePlanStep::LaunchAssociateOidc, status: None, on_failure: Resources::Clear, failure: Some("Failed to associate-iam-oidc-provider"), wait_secs: None, fatal: true });
    v.push(PlannedStep { step: KarpenterCreatePlanStep::CheckAssociateOidc, status: None, on_failure: Resources::Clear, failure: None, wait_secs: None, fatal: true });
    v.push(PlannedStep { step: KarpenterCreatePlanStep::LaunchCreateServiceAccount, status: None, on_failure: Resources::Clear, failure: Some("Failed to create iamserviceaccount"), wait_secs: None, fatal: true });
    v.push(PlannedStep { step: KarpenterCreatePlanStep::CheckCreateServiceAccount, status: None, on_failure: Resources::Clear, failure: None, wait_secs: None, fatal: true });
    v.push(PlannedStep { step: KarpenterCreatePlanStep::TagSubnets, status: None, on_failure: Resources::Clear, failure: Some("Unable to tag cluster's subnets"), wait_secs: None, fatal: true });
    v.push(PlannedStep { step: KarpenterCreatePlanStep::TagSecurityGroup, status: None, on_failure: Resources::Clear, failure: Some("Unable to tag cluster's security groups"), wait_secs: None, fatal: true });
    v.push(PlannedStep { step: KarpenterCreatePlanStep::ReadKubeconfig, status: None, on_failure: Resources::Clear, failure: Some("Unable to create config from cluster kubeconfig"), wait_secs: None, fatal: true });
    v.push(PlannedStep { step: KarpenterCreatePlanStep::LoadKubeconfig, status: None, on_failure: Resources::Clear, failure: Some("Unable to convert kubeconfig"), wait_secs: None, fatal: true });
    v.push(PlannedStep { step: KarpenterCreatePlanStep::CreateClient, status: None, on_failure: Resources::Clear, failure: Some("Unable to create k8s client from cluster kubeconfig"), wait_secs: None, fatal: true });
    v.push(PlannedStep { step: KarpenterCreatePlanStep::LaunchIdentityMapping, status: None, on_failure: Resources::Clear, failure: Some("Failed to create iamidentitymapping"), wait_secs: None, fatal: true });
    v.push(PlannedStep { step: KarpenterCreatePlanStep::CheckIdentityMapping, status: None, on_failure: Resources::Clear, failure: None, wait_secs: None, fatal: true });
    v.push(PlannedStep { step: KarpenterCreatePlanStep::LaunchCreateNodegroup, status: None, on_failure: Resources::Clear, failure: Some("Failed to create nodegroup"), wait_secs: None, fatal: true });
    v.push(PlannedStep { step: KarpenterCreatePlanStep::CheckCreateNodegroup, status: None, on_failure: Resources::Clear, failure: None, wait_secs: None, fatal: true });
    v.push(PlannedStep { step: KarpenterCreatePlanStep::SendStatus, status: Some("Tainting nodegroup"), on_failure: Resources::Clear, failure: Some("Error sending message"), wait_secs: None, fatal: true });
    v.push(PlannedStep { step: KarpenterCreatePlanStep::TaintAndScaleNodegroup, status: None, on_failure: Resources::Clear, failure: Some("Unable to increase nodegroup size and apply taints"), wait_secs: None, fatal: true });
    v.push(PlannedStep { step: KarpenterCreatePlanStep::LaunchHelm, status: None, on_failure: Resources::Remaining, failure: Some("Failed to create helm template"), wait_secs: None, fatal: true });
    v.push(PlannedStep { step: KarpenterCreatePlanStep::CheckHelm, status: None, on_failure: Resources::Remaining, failure: None, wait_secs: None, fatal: true });
    v.push(PlannedStep { step: KarpenterCreatePlanStep::SendStatus, status: Some("Karpenter Installed"), on_failure: Resources::Clear, failure: Some("Error sending message"), wait_secs: None, fatal: true });
    v.push(PlannedStep { step: KarpenterCreatePlanStep::WriteProvisioner, status: None, on_failure: Resources::Clear, failure: Some("Unable to write provisioner yaml"), wait_secs: None, fatal: true });
    v.push(PlannedStep { step: KarpenterCreatePlanStep::LaunchApplyProvisioner, status: None, on_failure: Resources::Clear, failure: Some("Failed to apply provisioner"), wait_secs: None, fatal: true });
    v.push(PlannedStep { step: KarpenterCreatePlanStep::CheckApplyProvisioner, status: None, on_failure: Resources::Clear, failure: None, wait_secs: None, fatal: true });
    v.push(PlannedStep { step: KarpenterCreatePlanStep::ListNodes, status: None, on_failure: Resources::Clear, failure: Some("Unable to list nodes in target cluster."), wait_secs: None, fatal: true });
    v.push(PlannedStep { step: KarpenterCreatePlanStep::MakeInflateDeployment, status: None, on_failure: Resources::Clear, failure: Some("Unable to serialize inflate deployment"), wait_secs: None, fatal: true });
    v.push(PlannedStep { step: KarpenterCreatePlanStep::CreateInflateDeployment, status: None, on_failure: Resources::Clear, failure: Some("Unable to create deployment"), wait_secs: None, fatal: true });
    v.push(PlannedStep { step: KarpenterCreatePlanStep::SendStatus, status: Some("Waiting for Karpenter Nodes"), on_failure: Resources::Clear, failure: Some("Error sending message"), wait_secs: None, fatal: true });
    v.push(PlannedStep { step: KarpenterCreatePlanStep::WaitForKarpenterNodes, status: None, on_failure: Resources::Clear, failure: Some("Timed out waiting for karpenter nodes to join the cluster"), wait_secs: Some(600u64), fatal: true });
    v.push(PlannedStep { step: KarpenterCreatePlanStep::WaitForTaintedNodegroup, status: None, on_failure: Resources::Clear, failure: Some("Timed out waiting for tainted nodegroup to be `ACTIVE`"), wait_secs: Some(600u64), fatal: true });
    v.push(PlannedStep { step: KarpenterCreatePlanStep::MakeNodegroupUnschedulable, status: None, on_failure: Resources::Clear, failure: Some("Unable to apply taints"), wait_secs: None, fatal: true });
    v.push(PlannedStep { step: KarpenterCreatePlanStep::WaitForTaintedNodes, status: None, on_failure: Resources::Clear, failure: Some("Timed out waiting for karpenter nodes to join the cluster"), wait_secs: Some(600u64), fatal: true });
    assert(v@ =~= karpenter_create_plan_spec());
    v
}

/// A step the Karpenter destroyer takes before its teardown.
#[derive(Clone, Copy, Debug, PartialEq, Eq, Structural)]
pub enum KarpenterDestroyPreStep {
    /// Take the resource's spec.
    GetSpec,
    /// Read the memo from the controller.
    GetInfo,
    /// Send the memo with its new status to the controller.
    SendStatus,
    /// Make the AWS configuration.
    CreateAwsConfig,
}

/// The Karpenter destroyer's first steps, before it looks at the memo: a missing spec leaves the
/// cluster's Karpenter resources behind, and a memo that cannot be read leaves it unknown.
pub open spec fn karpenter_destroy_preamble_spec() -> Seq<PlannedStep<KarpenterDestroyPreStep>> {
    seq![
        PlannedStep { step: KarpenterDestroyPreStep::GetSpec, status: None, on_failure: Resources::Remaining, failure: Some("Unable to get the resource spec"), wait_secs: None, fatal: true },
        PlannedStep { step: KarpenterDestroyPreStep::GetInfo, status: None, on_failure: Resources::Unknown, failure: Some("Unable to get info from client"), wait_secs: None, fatal: true },
    ]
}

/// The Karpenter destroyer's first steps, before it looks at the memo: a missing spec leaves the
/// cluster's Karpenter resources behind, and a memo that cannot be read leaves it unknown.
pub fn karpenter_destroy_preamble() -> (r: Vec<PlannedStep<KarpenterDestroyPreStep>>)
    ensures
        r@ == karpenter_destroy_preamble_spec(),
{
    let mut v: Vec<PlannedStep<KarpenterDestroyPreStep>> = Vec::new();
    v.push(PlannedStep { step: KarpenterDestroyPreStep::GetSpec, status: None, on_failure: Resources::Remaining, failure: Some("Unable to get the resource spec"), wait_secs: None, fatal: true });
    v.push(PlannedStep { step: KarpenterDestroyPreStep::GetInfo, status: None, on_failure: Resources::Unknown, failure: Some("Unable to get info from client"), wait_secs: None, fatal: true });
    assert(v@ =~= karpenter_destroy_preamble_spec());
    v
}

/// What the Karpenter destroyer does once it has read the memo `progress`, before its teardown:
/// nothing at all, and it is done, when no CloudFormation stack was recorded; else it sends two
/// statuses and makes the AWS configuration, each failure leaving the resources behind.
pub open spec fn karpenter_destroy_setup_spec(progress: KarpenterProgress) -> Seq<
    PlannedStep<KarpenterDestroyPreStep>,
> {
    if !progress.cloud_formation_stack_exists {
        Seq::empty()
    } else {
        seq![
            PlannedStep { step: KarpenterDestroyPreStep::SendStatus, status: Some("Getting AWS secret"), on_failure: Resources::Remaining, failure: Some("Error sending cluster creation message"), wait_secs: None, fatal: true },
            PlannedStep { step: KarpenterDestroyPreStep::SendStatus, status: Some("Creating AWS config"), on_failure: Resources::Remaining, failure: Some("Error sending cluster creation message"), wait_secs: None, fatal: true },
            PlannedStep { step: KarpenterDestroyPreStep::CreateAwsConfig, status: None, on_failure: Resources::Remaining, failure: Some("Error creating config"), wait_secs: None, fatal: true },
        ]
    }
}

impl Ec2KarpenterDestroyer {
    /// The destroyer's steps between reading the memo `progress` and its teardown: none when the
    /// memo records no CloudFormation stack (the destruction then succeeds with nothing sent).
    pub fn destroy_setup(&self, progress: &KarpenterProgress) -> (r: Vec<PlannedStep<KarpenterDestroyPreStep>>)
        ensures
            r@ == karpenter_destroy_setup_spec(*progress),
            !progress.cloud_formation_stack_exists ==> r@.len() == 0,
    {
        let mut v: Vec<PlannedStep<KarpenterDestroyPreStep>> = Vec::new();
        if progress.cloud_formation_stack_exists {
            v.push(PlannedStep { step: KarpenterDestroyPreStep::SendStatus, status: Some("Getting AWS secret"), on_failure: Resources::Remaining, failure: Some("Error sending cluster creation message"), wait_secs: None, fatal: true });
            v.push(PlannedStep { step: KarpenterDestroyPreStep::SendStatus, status: Some("Creating AWS config"), on_failure: Resources::Remaining, failure: Some("Error sending cluster creation message"), wait_secs: None, fatal: true });
            v.push(PlannedStep { step: KarpenterDestroyPreStep::CreateAwsConfig, status: None, on_failure: Resources::Remaining, failure: Some("Error creating config"), wait_secs: None, fatal: true });
        }
        assert(v@ =~= karpenter_destroy_setup_spec(*progress));
        v
    }
}

/// A destroyer that reads a memo recording no CloudFormation stack stops right there: after the
/// spec and the memo it sends nothing, makes no AWS configuration and tears nothing down.
pub proof fn lemma_no_stack_no_destroy_work(progress: KarpenterProgress)
    requires
        !progress.cloud_formation_stack_exists,
    ensures
        karpenter_destroy_setup_spec(progress).len() == 0,
        karpenter_destroy_plan_spec(progress).len() == 0,
        forall|i: int| 0 <= i < karpenter_destroy_preamble_spec().len()
            ==> (#[trigger] karpenter_destroy_preamble_spec()[i]).status is None,
{
    assert(teardown_plan(progress) =~= Seq::<TeardownStep>::empty());
}

/// How the Karpenter destroyer runs a step of its teardown: the memo it sends before it, and what
/// a failure reports. Every failure leaves Karpenter's resources behind. Deleting the service
/// account and the controller's role only warns when it fails, so those steps are not fatal; the
/// waits give up after 600 seconds.
pub open spec fn teardown_planned(step: TeardownStep) -> PlannedStep<TeardownStep> {
    let (status, failure, wait): (Option<&'static str>, Option<&'static str>, Option<u64>) = match step {
        TeardownStep::WriteKubeconfig => (None, Some("Failed write kubeconfig"), None),
        TeardownStep::WaitForTaintedNodegroup => (
            None,
            Some("Timed out waiting for tainted nodegroup to be `ACTIVE`"),
            Some(600u64),
        ),
        TeardownStep::RemoveNodegroupTaint => (None, Some("Unable to apply taints"), None),
        TeardownStep::DeleteInflateDeployment => (None, Some("Unable to delete deployment"), None),
        TeardownStep::WaitForKarpenterNodesToLeave => (
            None,
            Some("Timed out waiting for karpenter nodes to leave the cluster"),
            Some(600u64),
        ),
        TeardownStep::UninstallKarpenter => (None, Some("Failed to create helm template"), None),
        TeardownStep::DeleteTaintedNodegroup => (None, Some("Failed to delete nodegroup"), None),
        TeardownStep::RecordInstancesDeleted => (
            Some("Instances deleted"),
            Some("Error sending final destruction message"),
            None,
        ),
        TeardownStep::DetachNodeRole => (None, Some("Unable to remove role from instance profile"), None),
        TeardownStep::DeleteServiceAccount => (None, None, None),
        TeardownStep::DeleteControllerRole => (None, None, None),
        TeardownStep::DeleteStack => (None, Some("Unable to delete cloudformation stack"), None),
        TeardownStep::WaitForStackDeletion => (
            None,
            Some("Timed out waiting for cloud formation stack to delete."),
            Some(600u64),
        ),
    };
    let fatal = match step {
        TeardownStep::DeleteServiceAccount | TeardownStep::DeleteControllerRole => false,
        _ => true,
    };
    PlannedStep { step, status, on_failure: Resources::Remaining, failure, wait_secs: wait, fatal }
}

fn planned_teardown_step(step: TeardownStep) -> (r: PlannedStep<TeardownStep>)
    ensures
        r == teardown_planned(step),
{
    let (status, failure, wait): (Option<&'static str>, Option<&'static str>, Option<u64>) = match step {
        TeardownStep::WriteKubeconfig => (None, Some("Failed write kubeconfig"), None),
        TeardownStep::WaitForTaintedNodegroup => (
            None,
            Some("Timed out waiting for tainted nodegroup to be `ACTIVE`"),
            Some(600u64),
        ),
        TeardownStep::RemoveNodegroupTaint => (None, Some("Unable to apply taints"), None),
        TeardownStep::DeleteInflateDeployment => (None, Some("Unable to delete deployment"), None),
        TeardownStep::WaitForKarpenterNodesToLeave => (
            None,
            Some("Timed out waiting for karpenter nodes to leave the cluster"),
            Some(600u64),
        ),
        TeardownStep::UninstallKarpenter => (None, Some("Failed to create helm template"), None),
        TeardownStep::DeleteTaintedNodegroup => (None, Some("Failed to delete nodegroup"), None),
        TeardownStep::RecordInstancesDeleted => (
            Some("Instances deleted"),
            Some("Error sending final destruction message"),
            None,
        ),
        TeardownStep::DetachNodeRole => (None, Some("Unable to remove role from instance profile"), None),
        TeardownStep::DeleteServiceAccount => (None, None, None),
        TeardownStep::DeleteControllerRole => (None, None, None),
        TeardownStep::DeleteStack => (None, Some("Unable to delete cloudformation stack"), None),
        TeardownStep::WaitForStackDeletion => (
            None,
            Some("Timed out waiting for cloud formation stack to delete."),
            Some(600u64),
        ),
    };
    let fatal = match step {
        TeardownStep::DeleteServiceAccount | TeardownStep::DeleteControllerRole => false,
        _ => true,
    };
    PlannedStep { step, status, on_failure: Resources::Remaining, failure, wait_secs: wait, fatal }
}

/// The Karpenter destroyer's teardown of what `progress` records, as it runs it.
pub open spec fn karpenter_destroy_plan_spec(progress: KarpenterProgress) -> Seq<
    PlannedStep<TeardownStep>,
> {
    teardown_plan(progress).map_values(|s: TeardownStep| teardown_planned(s))
}

impl Ec2KarpenterDestroyer {
    /// The teardown of what `progress` records, each step with the memo sent before it and what
    /// its failure reports.
    pub fn destroy_plan(&self, progress: &KarpenterProgress) -> (r: Vec<PlannedStep<TeardownStep>>)
        ensures
            r@ == karpenter_destroy_plan_spec(*progress),
    {
        let steps = self.teardown_steps(progress);
        let mut v: Vec<PlannedStep<TeardownStep>> = Vec::new();
        let mut i: usize = 0;
        while i < steps.len()
            invariant
                0 <= i <= steps@.len(),
                steps@ == teardown_plan(*progress),
                v@ == steps@.take(i as int).map_values(|s: TeardownStep| teardown_planned(s)),
            decreases steps.len() - i,
        {
            v.push(planned_teardown_step(steps[i]));
            assert(steps@.take(i + 1).map_values(|s: TeardownStep| teardown_planned(s)) =~= steps@.take(
                i as int,
            ).map_values(|s: TeardownStep| teardown_planned(s)).push(teardown_planned(steps@[i as int])));
            i = i + 1;
        }
        assert(steps@.take(i as int) =~= steps@);
        v
    }
}


/// Deleting the service account and the controller's role only warns when it fails: a failure of
/// either moves the teardown on to its next step, with no error.
pub proof fn lemma_role_cleanup_only_warns(
    progress: KarpenterProgress,
    index: int,
    outcome: StepOutcome,
    r: (usize, StepAction<TeardownStep>),
)
    requires
        0 <= index < karpenter_destroy_plan_spec(progress).len(),
        karpenter_destroy_plan_spec(progress)[index].step == TeardownStep::DeleteServiceAccount
            || karpenter_destroy_plan_spec(progress)[index].step == TeardownStep::DeleteControllerRole,
        outcome is Failed,
        step_transition(karpenter_destroy_plan_spec(progress), index, outcome, r),
    ensures
        r.0 == index + 1,
        r.1 !is Fail,
{
}


/// The OIDC provider is associated for real: the `eksctl utils associate-iam-oidc-provider`
/// command line names the region after `-r` and the cluster after `--cluster`, and ends with
/// `--approve`.
pub proof fn lemma_oidc_association_is_approved(region: Seq<char>, cluster_name: Seq<char>)
    ensures
        associate_oidc_args_spec(region, cluster_name).len() == 7,
        associate_oidc_args_spec(region, cluster_name)[0] == "utils"@,
        associate_oidc_args_spec(region, cluster_name)[1] == "associate-iam-oidc-provider"@,
        associate_oidc_args_spec(region, cluster_name)[2] == "-r"@,
        associate_oidc_args_spec(region, cluster_name)[3] == region,
        associate_oidc_args_spec(region, cluster_name)[4] == "--cluster"@,
        associate_oidc_args_spec(region, cluster_name)[5] == cluster_name,
        associate_oidc_args_spec(region, cluster_name).last() == "--approve"@,
{
}

} // verus!
