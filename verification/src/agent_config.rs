//! The configuration that TestSys hands to the Bottlerocket test and resource agents.

use std::collections::HashSet;
use vstd::prelude::*;

pub use crate::k8s_version::K8sVersion;

verus! {

pub const AWS_CREDENTIALS_SECRET_NAME: &'static str = "awsCredentials";

pub const SONOBUOY_RESULTS_FILENAME: &'static str = "sonobuoy-results.tar.gz";

pub const VSPHERE_CREDENTIALS_SECRET_NAME: &'static str = "vsphereCredentials";

pub const WIREGUARD_SECRET_NAME: &'static str = "wireguardSecrets";

#[derive(Clone, Debug, Eq, PartialEq, Default)]
pub struct VSphereClusterInfo {
    pub name: String,
    pub control_plane_endpoint_ip: String,
    pub kubeconfig_base64: String,
}

/// What mode to run the e2e plugin in. Valid modes are `non-disruptive-conformance`,
/// `certified-conformance` and `quick`.
#[derive(Copy, Clone, Debug, Eq, PartialEq, Ord, PartialOrd, Hash, Structural)]
pub enum SonobuoyMode {
    /// This is the default mode and will run all the tests in the e2e plugin which are marked
    /// `Conformance` which are known to not be disruptive to other workloads in your cluster.
    NonDisruptiveConformance,
    /// An unofficial mode of running the e2e tests which removes some of the longest running tests
    /// so that tests can complete in the fastest time possible while maximizing coverage.
    ConformanceLite,
    /// This mode runs all the tests in the K8s E2E conformance test suite.
    CertifiedConformance,
    /// This mode will run a single test from the e2e test suite which is known to be simple and
    /// fast. Use this mode as a quick check that the cluster is responding and reachable.
    Quick,
}

impl Default for SonobuoyMode {
    fn default() -> (r: Self)
        ensures
            r == SonobuoyMode::NonDisruptiveConformance,
    {
        Self::NonDisruptiveConformance
    }
}

/// The kebab-case name by which Sonobuoy knows a mode.
pub open spec fn sonobuoy_mode_text(m: SonobuoyMode) -> Seq<char> {
    match m {
        SonobuoyMode::NonDisruptiveConformance => "non-disruptive-conformance"@,
        SonobuoyMode::ConformanceLite => "conformance-lite"@,
        SonobuoyMode::CertifiedConformance => "certified-conformance"@,
        SonobuoyMode::Quick => "quick"@,
    }
}

impl SonobuoyMode {
    /// The name of the mode as it is passed to `sonobuoy run --mode` (its `Display` form).
    pub fn to_string(&self) -> (r: String)
        ensures
            r@ == sonobuoy_mode_text(*self),
    {
        let mut s = String::new();
        match self {
            SonobuoyMode::NonDisruptiveConformance => s.append("non-disruptive-conformance"),
            SonobuoyMode::ConformanceLite => s.append("conformance-lite"),
            SonobuoyMode::CertifiedConformance => s.append("certified-conformance"),
            SonobuoyMode::Quick => s.append("quick"),
        }
        s
    }
}

/// The mode with the kebab-case name `s`, if there is one.
pub open spec fn sonobuoy_mode_named(s: Seq<char>) -> Option<SonobuoyMode> {
    if s == "non-disruptive-conformance"@ {
        Some(SonobuoyMode::NonDisruptiveConformance)
    } else if s == "conformance-lite"@ {
        Some(SonobuoyMode::ConformanceLite)
    } else if s == "certified-conformance"@ {
        Some(SonobuoyMode::CertifiedConformance)
    } else if s == "quick"@ {
        Some(SonobuoyMode::Quick)
    } else {
        None
    }
}

impl SonobuoyMode {
    /// The mode with the kebab-case name `s` (its `FromStr` form); `None` for any other text.
    pub fn from_name(s: &str) -> (r: Option<Self>)
        ensures
            r == sonobuoy_mode_named(s@),
    {
        if crate::text::str_eq(s, "non-disruptive-conformance") {
            Some(SonobuoyMode::NonDisruptiveConformance)
        } else if crate::text::str_eq(s, "conformance-lite") {
            Some(SonobuoyMode::ConformanceLite)
        } else if crate::text::str_eq(s, "certified-conformance") {
            Some(SonobuoyMode::CertifiedConformance)
        } else if crate::text::str_eq(s, "quick") {
            Some(SonobuoyMode::Quick)
        } else {
            None
        }
    }
}

/// Reading a mode's name gives the mode back: its `Display` and `FromStr` forms agree.
pub proof fn lemma_sonobuoy_mode_name_round_trip(m: SonobuoyMode)
    ensures
        sonobuoy_mode_named(sonobuoy_mode_text(m)) == Some(m),
{
    reveal_strlit("non-disruptive-conformance");
    reveal_strlit("conformance-lite");
    reveal_strlit("certified-conformance");
    reveal_strlit("quick");
    assert("non-disruptive-conformance"@[0] != "conformance-lite"@[0]);
    assert("non-disruptive-conformance"@[0] != "certified-conformance"@[0]);
    assert("non-disruptive-conformance"@[0] != "quick"@[0]);
    assert("conformance-lite"@[1] != "certified-conformance"@[1]);
    assert("conformance-lite"@[0] != "quick"@[0]);
    assert("certified-conformance"@[0] != "quick"@[0]);
}

#[derive(Debug, Clone, Default)]
pub struct SonobuoyConfig {
    pub kubeconfig_base64: String,
    pub plugin: String,
    pub mode: SonobuoyMode,
    pub e2e_repo_config_base64: Option<String>,
    /// This will be passed to `sonobuoy run` as `--kubernetes-version` if `kube_conformance_image`
    /// is `None`. **Caution**: if you provide `kubernetes_version`, it must precisely match the
    /// control plane version. If it is off by even a patch-level from the control plane, some tests
    /// may fail. Unless you have a specific reason to pass `kubernetes_version`, it is best to
    /// leave this as `None` and let the sonobuoy binary choose the right value.
    pub kubernetes_version: Option<K8sVersion>,
    pub kube_conformance_image: Option<String>,
    pub assume_role: Option<String>,
}

#[derive(Debug, Clone, Default)]
pub struct TufRepoConfig {
    pub metadata_url: String,
    pub targets_url: String,
}

#[derive(Debug, Default)]
pub struct MigrationConfig {
    pub aws_region: String,
    pub instance_ids: HashSet<String>,
    pub migrate_to_version: String,
    pub tuf_repo: Option<TufRepoConfig>,
    pub assume_role: Option<String>,
}

/// The configuration information for a eks instance provider.
#[derive(Clone, Debug, Eq, PartialEq, Default)]
pub struct EksClusterConfig {
    /// The name of the eks cluster to create or an existing cluster.
    pub cluster_name: String,
    /// Whether this agent will create the cluster or not.
    pub creation_policy: Option<CreationPolicy>,
    /// The AWS region to create the cluster. If no value is provided `us-west-2` will be used.
    pub region: Option<String>,
    /// The availability zones. (e.g. us-west-2a,us-west-2b)
    pub zones: Option<Vec<String>>,
    /// The eks version of the the cluster (e.g. "1.14", "1.15", "1.16").
    pub version: Option<K8sVersion>,
    /// The role that should be assumed when creating the cluster.
    pub assume_role: Option<String>,
}

#[derive(Clone, Copy, Debug, Eq, PartialEq, Structural)]
pub enum CreationPolicy {
    /// Create the item, it is an error if the item already exists. This is the default
    /// behavior when no `CreationPolicy` is provided.
    Create,
    /// Create the item if it does not already exist.
    IfNotExists,
    /// Never create the item, it is an error if it does not exist.
    Never,
}

impl Default for CreationPolicy {
    fn default() -> (r: Self)
        ensures
            r == CreationPolicy::Create,
    {
        Self::Create
    }
}

/// The camelCase name of a creation policy (its serialized and `Display` form).
pub open spec fn creation_policy_text(p: CreationPolicy) -> Seq<char> {
    match p {
        CreationPolicy::Create => "create"@,
        CreationPolicy::IfNotExists => "ifNotExists"@,
        CreationPolicy::Never => "never"@,
    }
}

/// The Rust name of a creation policy variant (its `Debug` form).
pub open spec fn creation_policy_debug_text(p: CreationPolicy) -> Seq<char> {
    match p {
        CreationPolicy::Create => "Create"@,
        CreationPolicy::IfNotExists => "IfNotExists"@,
        CreationPolicy::Never => "Never"@,
    }
}

impl CreationPolicy {
    /// The camelCase name of the policy (its `Display` form).
    pub fn to_string(&self) -> (r: String)
        ensures
            r@ == creation_policy_text(*self),
    {
        let mut s = String::new();
        match self {
            CreationPolicy::Create => s.append("create"),
            CreationPolicy::IfNotExists => s.append("ifNotExists"),
            CreationPolicy::Never => s.append("never"),
        }
        s
    }

    /// The variant's Rust name (its `Debug` form), as used in messages.
    pub fn debug_name(&self) -> (r: &'static str)
        ensures
            r@ == creation_policy_debug_text(*self),
    {
        match self {
            CreationPolicy::Create => "Create",
            CreationPolicy::IfNotExists => "IfNotExists",
            CreationPolicy::Never => "Never",
        }
    }
}

/// The policy with the camelCase name `s`, if there is one.
pub open spec fn creation_policy_named(s: Seq<char>) -> Option<CreationPolicy> {
    if s == "create"@ {
        Some(CreationPolicy::Create)
    } else if s == "ifNotExists"@ {
        Some(CreationPolicy::IfNotExists)
    } else if s == "never"@ {
        Some(CreationPolicy::Never)
    } else {
        None
    }
}

impl CreationPolicy {
    /// The policy with the camelCase name `s` (its `FromStr` form); `None` for any other text.
    pub fn from_name(s: &str) -> (r: Option<Self>)
        ensures
            r == creation_policy_named(s@),
    {
        if crate::text::str_eq(s, "create") {
            Some(CreationPolicy::Create)
        } else if crate::text::str_eq(s, "ifNotExists") {
            Some(CreationPolicy::IfNotExists)
        } else if crate::text::str_eq(s, "never") {
            Some(CreationPolicy::Never)
        } else {
            None
        }
    }
}

/// Reading a policy's name gives the policy back: its `Display` and `FromStr` forms agree.
pub proof fn lemma_creation_policy_name_round_trip(p: CreationPolicy)
    ensures
        creation_policy_named(creation_policy_text(p)) == Some(p),
{
    reveal_strlit("create");
    reveal_strlit("ifNotExists");
    reveal_strlit("never");
    assert("create"@[0] != "ifNotExists"@[0]);
    assert("create"@[0] != "never"@[0]);
    assert("ifNotExists"@[0] != "never"@[0]);
}

#[derive(Clone, Debug, Eq, PartialEq, Default)]
pub struct Ec2Config {
    /// The AMI ID of the AMI to use for the worker nodes.
    pub node_ami: String,
    /// The number of instances to create. If no value is provided 2 instances will be created.
    pub instance_count: Option<i32>,
    /// The type of instance to spin up. m5.large is recommended for x86_64 and m6g.large is
    /// recommended for arm64 on eks. c3.large is recommended for ecs. If no value is provided
    /// the recommended type will be used.
    pub instance_type: Option<String>,
    /// The name of the cluster we are creating instances for.
    pub cluster_name: String,
    /// The region the cluster is located in.
    pub region: String,
    /// The instance profile that should be attached to these instances.
    pub instance_profile_arn: String,
    /// The subnet the instances should be launched using.
    pub subnet_id: String,
    /// The type of cluster we are launching instances to.
    pub cluster_type: ClusterType,
    /// The eks server endpoint. The endpoint is required for eks clusters.
    pub endpoint: Option<String>,
    /// The eks certificate. The certificate is required for eks clusters.
    pub certificate: Option<String>,
    /// The cluster DNS IP for the K8s cluster. This is used to determine the IP family of the node IP.
    pub cluster_dns_ip: Option<String>,
    /// The role that should be assumed when launching instances.
    pub assume_role: Option<String>,
    /// The security groups that should be attached to the instances.
    pub security_groups: Vec<String>,
}

#[derive(Clone, Copy, Debug, Eq, PartialEq, Structural)]
pub enum ClusterType {
    Eks,
    Ecs,
}

impl Default for ClusterType {
    fn default() -> (r: Self)
        ensures
            r == ClusterType::Eks,
    {
        Self::Eks
    }
}

/// The configuration information for an ecs instance provider.
#[derive(Clone, Debug, Eq, PartialEq, Default)]
pub struct EcsClusterConfig {
    /// The name of the ecs cluster to create.
    pub cluster_name: String,
    /// The AWS region to create the cluster. If no value is provided `us-west-2` will be used.
    pub region: Option<String>,
    /// The vpc to use for this clusters subnet ids. If no value is provided the default vpc will be used.
    pub vpc: Option<String>,
    /// The role that should be assumed when creating the ecs cluster.
    pub assume_role: Option<String>,
}

#[derive(Debug, Clone, Default)]
pub struct EcsTestConfig {
    pub region: Option<String>,
    pub cluster_name: String,
    /// How many tasks to run; `default_count()` when the configuration leaves it out.
    pub task_count: i32,
    pub subnet: String,
    /// The task definition (including the revision number) for a custom task to be run. If the task
    /// name is `foo` and the revision is `3`, use `foo:3`.
    pub task_definition_name_and_revision: Option<String>,
    /// The role that should be assumed for this test agent.
    pub assume_role: Option<String>,
}

/// The number of tasks an ECS test runs when its configuration does not say.
pub fn default_count() -> (r: i32)
    ensures
        r == 1,
{
    1
}

#[derive(Clone, Debug, Default)]
pub struct VSphereVmConfig {
    /// The name of the OVA file used for the VSphere worker nodes.
    pub ova_name: String,
    /// TUF repository where the OVA file can be found
    pub tuf_repo: TufRepoConfig,
    /// The number of VMs to create. If no value is provided 2 VMs will be created.
    pub vm_count: Option<i32>,
    /// URL of the vCenter instance to connect to
    pub vcenter_host_url: String,
    /// vCenter datacenter
    pub vcenter_datacenter: String,
    /// vCenter datastore
    pub vcenter_datastore: String,
    /// vCenter network
    pub vcenter_network: String,
    /// vCenter resource pool
    pub vcenter_resource_pool: String,
    /// The workloads folder to create the K8s cluster control plane in.
    pub vcenter_workload_folder: String,
    /// vSphere cluster information
    pub cluster: VSphereClusterInfo,
    /// The role that should be assumed when creating the vms.
    pub assume_role: Option<String>,
}

} // verus!
