//! What the EKS resource agent decides about the cluster it creates or adopts: the eksctl
//! configuration, the cluster DNS IP, and the names by which it finds the cluster's subnets,
//! security groups, node group stack and instance profile.

use crate::agent_config::CreationPolicy;
use crate::document::{doc_get, doc_text, parse_yaml, yaml_document, Doc, DocView};
use crate::k8s_version::{major_minor_without_v_text, K8sVersion};
use crate::plan::{
    avoids, lemma_avoids, lemma_memo_after_append, lemma_memo_after_keeps, lemma_memo_after_one,
    memo_after, step_transition, PlannedStep, StepAction, StepOutcome,
};
use crate::provider::{ProviderError, Resources};
use crate::text::{
    count_char, count_from, decimal, find_char_from, find_from, lemma_count_from_find,
    lemma_find_from_bounds, owned, push_decimal, push_string, push_text, str_ends_with,
    str_starts_with, string_views,
};
use crate::userdata::{base64_decode, base64_decoding, string_from_utf8};
use vstd::prelude::*;
use vstd::utf8::{decode_utf8, encode_utf8, valid_utf8};

verus! {

/// The default region for the cluster.
pub const DEFAULT_REGION: &'static str = "us-west-2";

/// The default cluster version.
pub const DEFAULT_VERSION: &'static str = "1.32";

/// Where the agent finds a user-provided eksctl configuration.
pub const TEST_CLUSTER_CONFIG_PATH: &'static str = "/local/eksctl_config.yaml";

/// Where the agent writes the eksctl configuration it generates.
pub const CLUSTER_CONFIG_PATH: &'static str = "/local/cluster_config.yaml";

/// The default cluster managed node group values.
pub const MNG_MIN_SIZE: i32 = 0;

pub const MNG_MAX_SIZE: i32 = 2;

pub const MNG_DESIRED_CAPACITY: i32 = 0;

/// The IP family of an EKS cluster's Kubernetes network.
#[derive(Clone, Copy, Debug, PartialEq, Eq, Structural)]
pub enum IpFamily {
    Ipv4,
    Ipv6,
    /// A family this agent does not know.
    Other,
}

/// The cluster DNS IP of an IPv4 service CIDR: the CIDR's address with its last component
/// replaced by `10` (the CIDR must have four `.`-separated components).
pub open spec fn ipv4_cluster_dns_ip(cidr: Seq<char>) -> Result<Seq<char>, nat> {
    let pieces = count_from(cidr, '.', 0) + 1;
    if pieces != 4 {
        Err(pieces)
    } else {
        let d1 = find_from(cidr, '.', 0);
        let d2 = find_from(cidr, '.', d1 + 1);
        let d3 = find_from(cidr, '.', d2 + 1);
        Ok(cidr.subrange(0, (d3 + 1) as int) + "10"@)
    }
}

/// The cluster DNS IP of an IPv6 service CIDR: its address (before the `/`) followed by `a`.
pub open spec fn ipv6_cluster_dns_ip(cidr: Seq<char>) -> Seq<char> {
    cidr.subrange(0, find_from(cidr, '/', 0) as int) + "a"@
}

/// The cluster DNS IP of a cluster's network configuration, or the error message for what it
/// lacks. An unknown IP family is taken as IPv4.
pub open spec fn cluster_dns_ip_spec(
    ip_family: Option<IpFamily>,
    v4: Option<Seq<char>>,
    v6: Option<Seq<char>>,
) -> Result<Seq<char>, Seq<char>> {
    match ip_family {
        None => Err("Cluster network config missing IP family information"@),
        Some(IpFamily::Ipv6) => match v6 {
            None => Err("IPv6 Cluster missing serviceIPv6CIDR information"@),
            Some(c) => Ok(ipv6_cluster_dns_ip(c)),
        },
        Some(_) => match v4 {
            None => Err("IPv4 Cluster missing serviceIPv4CIDR information"@),
            Some(c) => match ipv4_cluster_dns_ip(c) {
                Ok(ip) => Ok(ip),
                Err(n) => Err(
                    "Expected 4 components in serviceIPv4CIDR but found "@ + decimal(n),
                ),
            },
        },
    }
}

pub open spec fn opt_view(o: Option<String>) -> Option<Seq<char>> {
    match o {
        Some(s) => Some(s@),
        None => None,
    }
}

/// Derives the cluster DNS IP from the service CIDR of the cluster's IP family.
pub fn service_ip_cidr_to_cluster_dns_ip(
    ip_family: Option<IpFamily>,
    service_ipv4_cidr: Option<String>,
    service_ipv6_cidr: Option<String>,
) -> (r: Result<String, ProviderError>)
    ensures
        r matches Ok(ip) ==> cluster_dns_ip_spec(
            ip_family,
            opt_view(service_ipv4_cidr),
            opt_view(service_ipv6_cidr),
        ) == Ok::<Seq<char>, Seq<char>>(ip@),
        r matches Err(e) ==> e.resources == Resources::Remaining && cluster_dns_ip_spec(
            ip_family,
            opt_view(service_ipv4_cidr),
            opt_view(service_ipv6_cidr),
        ) == Err::<Seq<char>, Seq<char>>(e.context@),
{
    let family = match ip_family {
        Some(f) => f,
        None => {
            let mut msg = String::new();
            msg.append("Cluster network config missing IP family information");
            return Err(ProviderError::new_with_context(Resources::Remaining, msg));
        },
    };
    match family {
        IpFamily::Ipv6 => {
            let cidr = match &service_ipv6_cidr {
                Some(c) => c,
                None => {
                    let mut msg = String::new();
                    msg.append("IPv6 Cluster missing serviceIPv6CIDR information");
                    return Err(ProviderError::new_with_context(Resources::Remaining, msg));
                },
            };
            let s = cidr.as_str();
            proof {
                lemma_find_from_bounds(s@, '/', 0);
            }
            let slash = find_char_from(s, '/', 0);
            let mut ip = String::new();
            ip.append(s.substring_char(0, slash));
            ip.append("a");
            assert(ip@ =~= ipv6_cluster_dns_ip(s@));
            Ok(ip)
        },
        _ => {
            let cidr = match &service_ipv4_cidr {
                Some(c) => c,
                None => {
                    let mut msg = String::new();
                    msg.append("IPv4 Cluster missing serviceIPv4CIDR information");
                    return Err(ProviderError::new_with_context(Resources::Remaining, msg));
                },
            };
            let s = cidr.as_str();
            let _len = s.unicode_len();
            let dots = count_char(s, '.');
            if dots != 3 {
                let mut msg = String::new();
                msg.append("Expected 4 components in serviceIPv4CIDR but found ");
                proof {
                    lemma_count_bound(s@, '.', 0);
                }
                push_decimal(&mut msg, dots as u128 + 1);
                return Err(ProviderError::new_with_context(Resources::Remaining, msg));
            }
            proof {
                lemma_find_from_bounds(s@, '.', 0);
                lemma_count_from_find(s@, '.', 0);
            }
            let d1 = find_char_from(s, '.', 0);
            proof {
                lemma_find_from_bounds(s@, '.', (d1 + 1) as nat);
                lemma_count_from_find(s@, '.', (d1 + 1) as nat);
            }
            let d2 = find_char_from(s, '.', d1 + 1);
            proof {
                lemma_find_from_bounds(s@, '.', (d2 + 1) as nat);
                lemma_count_from_find(s@, '.', (d2 + 1) as nat);
            }
            let d3 = find_char_from(s, '.', d2 + 1);
            let mut ip = String::new();
            ip.append(s.substring_char(0, d3 + 1));
            ip.append("10");
            assert(ip@ =~= s@.subrange(0, d3 + 1) + "10"@);
            Ok(ip)
        },
    }
}

proof fn lemma_count_bound(s: Seq<char>, c: char, from: nat)
    ensures
        from <= s.len() ==> count_from(s, c, from) <= s.len() - from,
    decreases s.len() - from,
{
    if from < s.len() {
        lemma_count_bound(s, c, from + 1);
    }
}

/// The kind of subnet that instances are launched in.
#[derive(Clone, Copy, Debug, Eq, PartialEq, Structural)]
pub enum SubnetType {
    Public,
    Private,
}

impl Default for SubnetType {
    fn default() -> (r: Self)
        ensures
            r == SubnetType::Private,
    {
        Self::Private
    }
}

/// The `Name` tag pattern of the subnets that eksctl creates for a cluster.
pub open spec fn subnet_tag_text(t: SubnetType, cluster_name: Seq<char>) -> Seq<char> {
    "eksctl-"@ + cluster_name + "-cluster/Subnet"@ + match t {
        SubnetType::Public => "Public"@,
        SubnetType::Private => "Private"@,
    } + "*"@
}

impl SubnetType {
    /// The `Name` tag pattern of the subnets of this type that eksctl creates for a cluster.
    pub fn tag(&self, cluster_name: &str) -> (r: String)
        ensures
            r@ == subnet_tag_text(*self, cluster_name@),
    {
        let mut s = String::new();
        s.append("eksctl-");
        s.append(cluster_name);
        s.append("-cluster/Subnet");
        match self {
            SubnetType::Public => s.append("Public"),
            SubnetType::Private => s.append("Private"),
        }
        s.append("*");
        s
    }

    /// The value of the `map-public-ip-on-launch` filter that selects subnets of this type.
    pub fn map_public_ip_on_launch(&self) -> (r: &'static str)
        ensures
            r@ == match *self {
                SubnetType::Public => "true"@,
                SubnetType::Private => "false"@,
            },
    {
        match self {
            SubnetType::Public => "true",
            SubnetType::Private => "false",
        }
    }
}

/// The security groups that eksctl creates for a cluster.
#[derive(Clone, Copy, Debug, Eq, PartialEq, Structural)]
pub enum SecurityGroupType {
    NodeGroup,
    ClusterShared,
    ControlPlane,
}

/// The `Name` tag pattern of a security group that eksctl creates for a cluster.
pub open spec fn security_group_tag_text(t: SecurityGroupType, cluster_name: Seq<char>) -> Seq<
    char,
> {
    "*"@ + cluster_name + "-"@ + match t {
        SecurityGroupType::NodeGroup => "nodegroup"@,
        SecurityGroupType::ClusterShared => "clustershared"@,
        SecurityGroupType::ControlPlane => "controlplane"@,
    } + "*"@
}

impl SecurityGroupType {
    /// The `Name` tag pattern of this security group of a cluster.
    pub fn tag(&self, cluster_name: &str) -> (r: String)
        ensures
            r@ == security_group_tag_text(*self, cluster_name@),
    {
        let mut s = String::new();
        s.append("*");
        s.append(cluster_name);
        s.append("-");
        match self {
            SecurityGroupType::NodeGroup => s.append("nodegroup"),
            SecurityGroupType::ClusterShared => s.append("clustershared"),
            SecurityGroupType::ControlPlane => s.append("controlplane"),
        }
        s.append("*");
        s
    }
}

/// How the cluster to create is described: by arguments, or by an eksctl configuration file
/// (base64-encoded).
#[derive(Clone, Debug, PartialEq, Eq)]
pub enum EksctlConfig {
    File { encoded_config: String },
    Args {
        cluster_name: String,
        region: Option<String>,
        zones: Option<Vec<String>>,
        version: Option<K8sVersion>,
    },
}

/// The cluster that the agent creates or adopts.
#[derive(Clone, Debug, PartialEq, Eq)]
pub enum ClusterConfig {
    Args {
        cluster_name: String,
        region: String,
        version: Option<K8sVersion>,
        zones: Option<Vec<String>>,
    },
    ConfigPath { cluster_name: String, region: String },
}

/// The `metadata` of an eksctl configuration, as far as the agent reads it: the `name` and the
/// `region`, each when it is present as a string.
#[derive(Clone, Debug, PartialEq, Eq)]
pub struct EksctlMetadata {
    pub name: Option<String>,
    pub region: Option<String>,
}

/// What decoding a base64 eksctl configuration gives: its text, or the message of the failure.
pub open spec fn decoded_eksctl_config(encoded: Seq<char>) -> Result<Seq<char>, Seq<char>> {
    match base64_decoding(encode_utf8(encoded)) {
        None => Err("Unable to decode eksctl configuration."@),
        Some(bytes) => if valid_utf8(bytes) {
            Ok(decode_utf8(bytes))
        } else {
            Err("Unable to convert decoded config to string."@)
        },
    }
}

/// Decodes a base64 eksctl configuration into its YAML text.
pub fn decode_eksctl_config(encoded_config: &String) -> (r: Result<String, ProviderError>)
    ensures
        r matches Ok(s) ==> decoded_eksctl_config(encoded_config@) == Ok::<Seq<char>, Seq<char>>(
            s@,
        ),
        r matches Err(e) ==> e.resources == Resources::Clear && decoded_eksctl_config(
            encoded_config@,
        ) == Err::<Seq<char>, Seq<char>>(e.context@),
{
    let bytes = match base64_decode(encoded_config.as_str().as_bytes()) {
        Ok(b) => b,
        Err(_) => {
            let mut msg = String::new();
            msg.append("Unable to decode eksctl configuration.");
            return Err(ProviderError::new_with_context(Resources::Clear, msg));
        },
    };
    match string_from_utf8(bytes) {
        Ok(s) => Ok(s),
        Err(_) => {
            let mut msg = String::new();
            msg.append("Unable to convert decoded config to string.");
            Err(ProviderError::new_with_context(Resources::Clear, msg))
        },
    }
}

/// The `metadata` of an eksctl configuration as far as the agent reads it: its `name` and its
/// `region`, each where it is a text; `None` without `metadata`.
pub open spec fn metadata_view(metadata: Option<EksctlMetadata>) -> Option<
    (Option<Seq<char>>, Option<Seq<char>>),
> {
    match metadata {
        None => None,
        Some(m) => Some((opt_view(m.name), opt_view(m.region))),
    }
}

/// The `metadata` of the YAML value of an eksctl configuration.
pub open spec fn metadata_of(config: DocView) -> Option<(Option<Seq<char>>, Option<Seq<char>>)> {
    match doc_get(config, "metadata"@) {
        None => None,
        Some(m) => Some((doc_text(doc_get(m, "name"@)), doc_text(doc_get(m, "region"@)))),
    }
}

/// The cluster named by the `metadata` of an eksctl configuration, or the message for what it
/// lacks.
pub open spec fn cluster_from_metadata(metadata: Option<(Option<Seq<char>>, Option<Seq<char>>)>) -> Result<
    (Seq<char>, Seq<char>),
    Seq<char>,
> {
    match metadata {
        None => Err("Metadata is missing from eksctl config."@),
        Some((name, region)) => match name {
            None => Err("The cluster's name was not in the eksctl config."@),
            Some(name) => match region {
                None => Err("The cluster's region was not in the eksctl config."@),
                Some(region) => Ok((name, region)),
            },
        },
    }
}

/// The cluster an eksctl configuration file describes, or the message for why it describes none:
/// the configuration is decoded, read as YAML, and its `metadata` names the cluster.
pub open spec fn cluster_of_config_file(encoded: Seq<char>) -> Result<
    (Seq<char>, Seq<char>),
    Seq<char>,
> {
    match decoded_eksctl_config(encoded) {
        Err(m) => Err(m),
        Ok(text) => match yaml_document(text) {
            None => Err("Unable to serialize eksctl config."@),
            Some(config) => cluster_from_metadata(metadata_of(config)),
        },
    }
}

/// The `metadata` of the YAML value `config` of an eksctl configuration.
pub fn eksctl_metadata(config: &Doc) -> (r: Option<EksctlMetadata>)
    ensures
        metadata_view(r) == metadata_of(config@),
{
    match config.get("metadata") {
        None => None,
        Some(m) => {
            let name = match m.get("name") {
                Some(n) => match n.as_text() {
                    Some(t) => Some(t.clone()),
                    None => None,
                },
                None => None,
            };
            let region = match m.get("region") {
                Some(g) => match g.as_text() {
                    Some(t) => Some(t.clone()),
                    None => None,
                },
                None => None,
            };
            Some(EksctlMetadata { name, region })
        },
    }
}

impl ClusterConfig {
    /// The cluster described by arguments; the region defaults to `us-west-2`.
    pub fn from_args(
        cluster_name: String,
        region: Option<String>,
        zones: Option<Vec<String>>,
        version: Option<K8sVersion>,
    ) -> (r: Self)
        ensures
            r matches ClusterConfig::Args { cluster_name: n, region: g, version: v, zones: z } && n
                == cluster_name && v == version && z == zones && g@ == match region {
                Some(x) => x@,
                None => DEFAULT_REGION@,
            },
    {
        let region = match region {
            Some(r) => r,
            None => {
                let mut r = String::new();
                r.append(DEFAULT_REGION);
                r
            },
        };
        ClusterConfig::Args { cluster_name, region, version, zones }
    }

    /// The cluster described by the `metadata` of an eksctl configuration file.
    pub fn from_metadata(metadata: Option<EksctlMetadata>) -> (r: Result<Self, ProviderError>)
        ensures
            r matches Ok(ClusterConfig::ConfigPath { cluster_name, region }) ==> cluster_from_metadata(
                metadata_view(metadata),
            ) == Ok::<(Seq<char>, Seq<char>), Seq<char>>((cluster_name@, region@)),
            r matches Ok(c) ==> c is ConfigPath,
            r matches Err(e) ==> e.resources == Resources::Clear && cluster_from_metadata(
                metadata_view(metadata),
            ) == Err::<(Seq<char>, Seq<char>), Seq<char>>(e.context@),
    {
        let m = match metadata {
            Some(m) => m,
            None => {
                let mut msg = String::new();
                msg.append("Metadata is missing from eksctl config.");
                return Err(ProviderError::new_with_context(Resources::Clear, msg));
            },
        };
        let cluster_name = match m.name {
            Some(n) => n,
            None => {
                let mut msg = String::new();
                msg.append("The cluster's name was not in the eksctl config.");
                return Err(ProviderError::new_with_context(Resources::Clear, msg));
            },
        };
        let region = match m.region {
            Some(r) => r,
            None => {
                let mut msg = String::new();
                msg.append("The cluster's region was not in the eksctl config.");
                return Err(ProviderError::new_with_context(Resources::Clear, msg));
            },
        };
        Ok(ClusterConfig::ConfigPath { cluster_name, region })
    }

    /// The cluster an eksctl configuration describes: by arguments (the region defaulting to
    /// `us-west-2`), or by a configuration file whose `metadata` names the cluster and its region.
    pub fn new(eksctl_config: EksctlConfig) -> (r: Result<Self, ProviderError>)
        ensures
            match eksctl_config {
                EksctlConfig::Args { cluster_name, region, zones, version } => r matches Ok(
                    ClusterConfig::Args { cluster_name: n, region: g, version: v, zones: z },
                ) && n == cluster_name && v == version && z == zones && g@ == match region {
                    Some(x) => x@,
                    None => DEFAULT_REGION@,
                },
                EksctlConfig::File { encoded_config } => match cluster_of_config_file(
                    encoded_config@,
                ) {
                    Ok((name, region)) => r matches Ok(
                        ClusterConfig::ConfigPath { cluster_name, region: g },
                    ) && cluster_name@ == name && g@ == region,
                    Err(m) => r matches Err(e) && e.resources == Resources::Clear && e.context@
                        == m,
                },
            },
    {
        match eksctl_config {
            EksctlConfig::Args { cluster_name, region, zones, version } => Ok(
                Self::from_args(cluster_name, region, zones, version),
            ),
            EksctlConfig::File { encoded_config } => {
                let text = decode_eksctl_config(&encoded_config)?;
                let config = match parse_yaml(text.as_str()) {
                    Some(c) => c,
                    None => {
                        return Err(
                            ProviderError::new_with_context(
                                Resources::Clear,
                                owned("Unable to serialize eksctl config."),
                            ),
                        );
                    },
                };
                Self::from_metadata(eksctl_metadata(&config))
            },
        }
    }

    pub fn region(&self) -> (r: String)
        ensures
            r@ == match self {
                ClusterConfig::Args { region, .. } => region@,
                ClusterConfig::ConfigPath { region, .. } => region@,
            },
    {
        match self {
            ClusterConfig::Args { region, .. } => region.clone(),
            ClusterConfig::ConfigPath { region, .. } => region.clone(),
        }
    }

    pub fn cluster_name(&self) -> (r: String)
        ensures
            r@ == match self {
                ClusterConfig::Args { cluster_name, .. } => cluster_name@,
                ClusterConfig::ConfigPath { cluster_name, .. } => cluster_name@,
            },
    {
        match self {
            ClusterConfig::Args { cluster_name, .. } => cluster_name.clone(),
            ClusterConfig::ConfigPath { cluster_name, .. } => cluster_name.clone(),
        }
    }

    /// The eksctl configuration file that `eksctl create cluster -f` is given: the one the agent
    /// generates for a cluster described by arguments, else the one the user provided.
    pub fn cluster_config_path(&self) -> (r: &'static str)
        ensures
            r@ == if self is Args {
                CLUSTER_CONFIG_PATH@
            } else {
                TEST_CLUSTER_CONFIG_PATH@
            },
    {
        match self {
            ClusterConfig::Args { .. } => CLUSTER_CONFIG_PATH,
            ClusterConfig::ConfigPath { .. } => TEST_CLUSTER_CONFIG_PATH,
        }
    }
}

/// The Kubernetes version an eksctl configuration asks for: `<major>.<minor>` of the requested
/// version, else the default.
pub fn version_arg(version: &Option<K8sVersion>) -> (r: String)
    ensures
        r@ == match version {
            Some(v) => major_minor_without_v_text(v@),
            None => DEFAULT_VERSION@,
        },
{
    match version {
        Some(v) => v.major_minor_without_v(),
        None => {
            let mut s = String::new();
            s.append(DEFAULT_VERSION);
            s
        },
    }
}

/// The Kubernetes network IP family of a cluster.
#[derive(Clone, Copy, Debug, PartialEq, Eq, Structural)]
pub enum IPFamily {
    IPv6,
    IPv4,
}

/// An EKS addon and its version.
#[derive(Clone, Debug, PartialEq, Eq)]
pub struct Addon {
    pub name: String,
    pub version: String,
}

/// A managed node group and its size.
#[derive(Clone, Debug, PartialEq, Eq)]
pub struct ManagedNodeGroup {
    pub name: String,
    pub min_size: i32,
    pub max_size: i32,
    pub desired_capacity: i32,
}

/// The eksctl configuration (`ClusterConfig` of `eksctl.io/v1alpha5`) the agent writes for a
/// cluster described by arguments.
#[derive(Clone, Debug, PartialEq, Eq)]
pub struct EksctlYamlConfig {
    pub api_version: String,
    pub kind: String,
    pub name: String,
    pub region: String,
    pub version: String,
    pub availability_zones: Vec<String>,
    pub ip_family: IPFamily,
    pub addons: Vec<Addon>,
    pub with_oidc: bool,
    pub managed_node_groups: Vec<ManagedNodeGroup>,
}

/// The eksctl configuration for a cluster named `cluster_name` in `region` running `version`
/// across `zones`: IPv6 when the name ends with `ipv6` (else IPv4), the `vpc-cni`, `coredns` and
/// `kube-proxy` addons at their latest versions, OIDC, and one managed node group `mng-1` of
/// between 0 and 2 nodes (none wanted).
pub fn create_yaml(cluster_name: &str, region: &str, version: &str, zones: &Option<Vec<String>>) -> (r:
    EksctlYamlConfig)
    ensures
        r.api_version@ == "eksctl.io/v1alpha5"@,
        r.kind@ == "ClusterConfig"@,
        r.name@ == cluster_name@,
        r.region@ == region@,
        r.version@ == version@,
        r.availability_zones@ == match zones {
            Some(z) => z@,
            None => Seq::<String>::empty(),
        },
        r.ip_family == if cluster_name@.len() >= 4 && cluster_name@.subrange(
            cluster_name@.len() - 4,
            cluster_name@.len() as int,
        ) == "ipv6"@ {
            IPFamily::IPv6
        } else {
            IPFamily::IPv4
        },
        r.addons@.len() == 3,
        r.addons@[0].name@ == "vpc-cni"@ && r.addons@[0].version@ == "latest"@,
        r.addons@[1].name@ == "coredns"@ && r.addons@[1].version@ == "latest"@,
        r.addons@[2].name@ == "kube-proxy"@ && r.addons@[2].version@ == "latest"@,
        r.with_oidc,
        r.managed_node_groups@.len() == 1,
        r.managed_node_groups@[0].name@ == "mng-1"@,
        r.managed_node_groups@[0].min_size == MNG_MIN_SIZE,
        r.managed_node_groups@[0].max_size == MNG_MAX_SIZE,
        r.managed_node_groups@[0].desired_capacity == MNG_DESIRED_CAPACITY,
{
    proof {
        reveal_strlit("ipv6");
    }
    let ip_family = if str_ends_with(cluster_name, "ipv6") {
        IPFamily::IPv6
    } else {
        IPFamily::IPv4
    };
    let availability_zones = match zones {
        Some(z) => z.clone(),
        None => Vec::new(),
    };
    let mut addons: Vec<Addon> = Vec::new();
    addons.push(Addon { name: owned("vpc-cni"), version: owned("latest") });
    addons.push(Addon { name: owned("coredns"), version: owned("latest") });
    addons.push(Addon { name: owned("kube-proxy"), version: owned("latest") });
    let mut managed_node_groups: Vec<ManagedNodeGroup> = Vec::new();
    managed_node_groups.push(
        ManagedNodeGroup {
            name: owned("mng-1"),
            min_size: MNG_MIN_SIZE,
            max_size: MNG_MAX_SIZE,
            desired_capacity: MNG_DESIRED_CAPACITY,
        },
    );
    EksctlYamlConfig {
        api_version: owned("eksctl.io/v1alpha5"),
        kind: owned("ClusterConfig"),
        name: owned(cluster_name),
        region: owned(region),
        version: owned(version),
        availability_zones,
        ip_family,
        addons,
        with_oidc: true,
        managed_node_groups,
    }
}

/// Whether a CloudFormation stack is the node group stack of `cluster_name`: one created by
/// eksctl (`eksctl-<cluster>-nodegroup…`) or otherwise (`<cluster>-node-group…`).
pub open spec fn is_nodegroup_stack(stack_name: Seq<char>, cluster_name: Seq<char>) -> bool {
    let a = "eksctl-"@ + cluster_name + "-nodegroup"@;
    let b = cluster_name + "-node-group"@;
    (a.len() <= stack_name.len() && stack_name.subrange(0, a.len() as int) == a) || (b.len()
        <= stack_name.len() && stack_name.subrange(0, b.len() as int) == b)
}

/// The first of `stack_names` that is the node group stack of `cluster_name`, if any.
pub fn find_nodegroup_stack(stack_names: &Vec<String>, cluster_name: &str) -> (r: Option<usize>)
    ensures
        r matches Some(i) ==> i < stack_names@.len() && is_nodegroup_stack(
            stack_names@[i as int]@,
            cluster_name@,
        ) && forall|j: int| 0 <= j < i ==> !is_nodegroup_stack(#[trigger] stack_names@[j]@, cluster_name@),
        r is None ==> forall|j: int|
            0 <= j < stack_names@.len() ==> !is_nodegroup_stack(#[trigger] stack_names@[j]@, cluster_name@),
{
    let mut a = String::new();
    a.append("eksctl-");
    a.append(cluster_name);
    a.append("-nodegroup");
    let mut b = String::new();
    b.append(cluster_name);
    b.append("-node-group");
    let mut i: usize = 0;
    while i < stack_names.len()
        invariant
            0 <= i <= stack_names.len(),
            a@ == "eksctl-"@ + cluster_name@ + "-nodegroup"@,
            b@ == cluster_name@ + "-node-group"@,
            forall|j: int| 0 <= j < i ==> !is_nodegroup_stack(#[trigger] stack_names@[j]@, cluster_name@),
        decreases stack_names.len() - i,
    {
        let name = stack_names[i].as_str();
        if str_starts_with(name, a.as_str()) || str_starts_with(name, b.as_str()) {
            return Some(i);
        }
        i = i + 1;
    }
    None
}

/// The ARN of the one instance profile of a role, or the message for why there is not exactly one.
pub open spec fn single_instance_profile(arns: Seq<Seq<char>>, role_name: Seq<char>) -> Result<
    Seq<char>,
    Seq<char>,
> {
    if arns.len() > 1 {
        Err("More than one instance profile was found for role '"@ + role_name + "'"@)
    } else if arns.len() == 0 {
        Err("No instance profile was found for role '"@ + role_name + "'"@)
    } else {
        Ok(arns[0])
    }
}

/// Picks the instance profile of a node role: the role must have exactly one.
pub fn instance_profile_arn(instance_profile_arns: Vec<String>, role_name: &str) -> (r: Result<
    String,
    ProviderError,
>)
    ensures
        r matches Ok(arn) ==> single_instance_profile(
            instance_profile_arns@.map_values(|s: String| s@),
            role_name@,
        ) == Ok::<Seq<char>, Seq<char>>(arn@),
        r matches Err(e) ==> e.resources == Resources::Remaining && single_instance_profile(
            instance_profile_arns@.map_values(|s: String| s@),
            role_name@,
        ) == Err::<Seq<char>, Seq<char>>(e.context@),
{
    if instance_profile_arns.len() > 1 {
        let mut msg = String::new();
        msg.append("More than one instance profile was found for role '");
        msg.append(role_name);
        msg.append("'");
        return Err(ProviderError::new_with_context(Resources::Remaining, msg));
    }
    if instance_profile_arns.len() == 0 {
        let mut msg = String::new();
        msg.append("No instance profile was found for role '");
        msg.append(role_name);
        msg.append("'");
        return Err(ProviderError::new_with_context(Resources::Remaining, msg));
    }
    let mut v = instance_profile_arns;
    let arn = v.remove(0);
    Ok(arn)
}

/// The cluster of the older EKS agent: an existing one to use, or one to create.
#[derive(Clone, Debug, PartialEq, Eq)]
pub enum Cluster {
    Existing(String),
    Create(String),
}

impl Default for Cluster {
    fn default() -> (r: Self)
        ensures
            r matches Cluster::Create(n) && n@.len() == 0,
    {
        Cluster::Create(String::new())
    }
}

impl Cluster {
    /// The cluster's name.
    pub fn name(&self) -> (r: &String)
        ensures
            r == match self {
                Cluster::Existing(n) => n,
                Cluster::Create(n) => n,
            },
    {
        match self {
            Cluster::Existing(n) => n,
            Cluster::Create(n) => n,
        }
    }

    /// Whether the agent creates the cluster, and therefore deletes it again.
    pub fn is_created_by_agent(&self) -> (r: bool)
        ensures
            r == (self is Create),
    {
        match self {
            Cluster::Existing(_) => false,
            Cluster::Create(_) => true,
        }
    }
}

/// What the EKS agent hands back about the cluster.
#[derive(Clone, Debug, Default)]
pub struct CreatedCluster {
    /// The name of the cluster we created.
    pub cluster_name: String,
    /// The regions of the cluster.
    pub region: String,
    /// The eks server endpoint.
    pub endpoint: String,
    /// The cluster certificate.
    pub certificate: String,
    /// The cluster DNS IP.
    pub cluster_dns_ip: String,
    /// A vector of public subnet ids. Will be empty if no public ids exist.
    pub public_subnet_ids: Vec<String>,
    /// A vector of private subnet ids. Will be empty if no private ids exist.
    pub private_subnet_ids: Vec<String>,
    /// Security groups necessary for ec2 instances
    pub security_groups: Vec<String>,
    /// Cluster security group
    pub cluster_sg: String,
    /// The instance IAM instance profile.
    pub iam_instance_profile_arn: String,
    /// Base64 encoded kubeconfig
    pub encoded_kubeconfig: String,
}

/// Creates, or takes over, an EKS cluster.
#[derive(Clone, Copy, Debug, Default)]
pub struct EksCreator {}

/// Deletes the EKS cluster the creator made.
#[derive(Clone, Copy, Debug, Default)]
pub struct EksDestroyer {}

/// The arguments of `eksctl delete cluster`.
pub open spec fn delete_cluster_args_spec(cluster_name: Seq<char>, region: Seq<char>) -> Seq<
    Seq<char>,
> {
    seq!["delete"@, "cluster"@, "--name"@, cluster_name, "-r"@, region]
}

impl EksDestroyer {
    /// What the destroyer runs, from the memo the creator left: nothing when provisioning never
    /// started; else `eksctl delete cluster` for the memo's cluster in its region (the default
    /// region when it records none), or the error when the memo lost the cluster's name.
    pub fn delete_command(&self, memo: &EksMemo) -> (r: Result<Option<Vec<String>>, ProviderError>)
        ensures
            !memo@.provisioning_started ==> r matches Ok(None),
            memo@.provisioning_started && memo@.cluster_name is None ==> (r matches Err(e)
                && e.resources == Resources::Unknown && e.context@
                == "Unable to obtain cluster name"@),
            memo@.provisioning_started && memo@.cluster_name is Some ==> (r matches Ok(Some(args))
                && string_views(args@) == delete_cluster_args_spec(
                memo@.cluster_name->0,
                match memo@.region {
                    Some(g) => g,
                    None => DEFAULT_REGION@,
                },
            )),
    {
        if !memo.provisioning_started {
            return Ok(None);
        }
        let name = match &memo.cluster_name {
            Some(n) => n,
            None => {
                return Err(
                    ProviderError::new_with_context(
                        Resources::Unknown,
                        owned("Unable to obtain cluster name"),
                    ),
                );
            },
        };
        let region = match &memo.region {
            Some(g) => g.clone(),
            None => owned(DEFAULT_REGION),
        };
        let mut v: Vec<String> = Vec::new();
        push_text(&mut v, "delete");
        push_text(&mut v, "cluster");
        push_text(&mut v, "--name");
        push_text(&mut v, name.as_str());
        push_text(&mut v, "-r");
        push_string(&mut v, region);
        Ok(Some(v))
    }
}

impl EksCreator {
    /// The arguments of `eksctl` that create the cluster from its configuration file.
    pub fn create_cluster_args(&self, config: &ClusterConfig) -> (r: Vec<String>)
        ensures
            string_views(r@) == seq![
                "create"@,
                "cluster"@,
                "-f"@,
                if config is Args {
                    CLUSTER_CONFIG_PATH@
                } else {
                    TEST_CLUSTER_CONFIG_PATH@
                },
            ],
    {
        let mut v: Vec<String> = Vec::new();
        push_text(&mut v, "create");
        push_text(&mut v, "cluster");
        push_text(&mut v, "-f");
        push_text(&mut v, config.cluster_config_path());
        v
    }

    /// The arguments of `aws eks update-kubeconfig` that write the cluster's kubeconfig to
    /// `kubeconfig_path`, through the EKS endpoint when one is configured.
    pub fn update_kubeconfig_args(
        &self,
        cluster_name: &str,
        endpoint: &Option<String>,
        region: &str,
        kubeconfig_path: &str,
    ) -> (r: Vec<String>)
        ensures
            string_views(r@) == seq![
                "eks"@,
                "update-kubeconfig"@,
                "--region"@,
                region@,
                "--name"@,
                cluster_name@,
                "--kubeconfig"@,
                kubeconfig_path@,
            ] + match endpoint {
                Some(e) => seq!["--endpoint"@, e@],
                None => Seq::empty(),
            },
    {
        let mut v: Vec<String> = Vec::new();
        push_text(&mut v, "eks");
        push_text(&mut v, "update-kubeconfig");
        push_text(&mut v, "--region");
        push_text(&mut v, region);
        push_text(&mut v, "--name");
        push_text(&mut v, cluster_name);
        push_text(&mut v, "--kubeconfig");
        push_text(&mut v, kubeconfig_path);
        match endpoint {
            Some(e) => {
                push_text(&mut v, "--endpoint");
                push_text(&mut v, e.as_str());
            },
            None => {},
        }
        v
    }
}

/// The VPC configuration of a described cluster, as far as the agent reads it.
#[derive(Clone, Debug)]
pub struct VpcConfig {
    pub subnet_ids: Option<Vec<String>>,
    pub cluster_security_group_id: Option<String>,
}

/// The network configuration of a described cluster.
#[derive(Clone, Debug)]
pub struct NetworkConfig {
    pub ip_family: Option<IpFamily>,
    pub service_ipv4_cidr: Option<String>,
    pub service_ipv6_cidr: Option<String>,
}

/// What `DescribeCluster` reports of a cluster, as far as the agent reads it. The certificate
/// authority is given by its data, when it has any.
#[derive(Clone, Debug)]
pub struct ClusterDescription {
    pub resources_vpc_config: Option<VpcConfig>,
    pub endpoint: Option<String>,
    pub certificate_authority: Option<Option<String>>,
    pub kubernetes_network_config: Option<NetworkConfig>,
}

/// The facts about a cluster that the instances joining it need.
#[derive(Clone, Debug)]
pub struct ClusterFacts {
    pub subnet_ids: Vec<String>,
    pub endpoint: String,
    pub certificate: String,
    pub cluster_dns_ip: String,
    pub cluster_sg: String,
}

/// The facts of a described cluster, read in order (subnets, endpoint, certificate, cluster DNS
/// IP, security group), or the message for the first that is missing.
pub open spec fn cluster_facts_spec(d: ClusterDescription) -> Result<
    (Seq<Seq<char>>, Seq<char>, Seq<char>, Seq<char>, Seq<char>),
    Seq<char>,
> {
    match d.resources_vpc_config {
        None => Err("Cluster missing resources_vpc_config field"@),
        Some(vpc) => match vpc.subnet_ids {
            None => Err("resources_vpc_config missing subnet ids"@),
            Some(subnets) => match d.endpoint {
                None => Err("Cluster missing endpoint field"@),
                Some(endpoint) => match d.certificate_authority {
                    None => Err("Cluster missing certificate_authority field"@),
                    Some(None) => Err("Certificate authority missing data"@),
                    Some(Some(certificate)) => match d.kubernetes_network_config {
                        None => Err("DescribeCluster missing KubernetesNetworkConfig field"@),
                        Some(net) => match cluster_dns_ip_spec(
                            net.ip_family,
                            opt_view(net.service_ipv4_cidr),
                            opt_view(net.service_ipv6_cidr),
                        ) {
                            Err(m) => Err(m),
                            Ok(dns) => match vpc.cluster_security_group_id {
                                None => Err(
                                    "resources_vpc_config missing cluster security group id"@,
                                ),
                                Some(sg) => Ok(
                                    (string_views(subnets@), endpoint@, certificate@, dns, sg@),
                                ),
                            },
                        },
                    },
                },
            },
        },
    }
}

fn missing(context: &str) -> (e: ProviderError)
    ensures
        e.resources == Resources::Remaining,
        e.context@ == context@,
{
    ProviderError::new_with_context(Resources::Remaining, owned(context))
}

impl EksCreator {
    /// The facts of a described cluster that its instances need, or the error for the first
    /// one that is missing; nothing has to be torn down for it, but the cluster remains.
    pub fn cluster_facts(&self, d: &ClusterDescription) -> (r: Result<ClusterFacts, ProviderError>)
        ensures
            match cluster_facts_spec(*d) {
                Ok((subnets, endpoint, certificate, dns, sg)) => r matches Ok(f) && string_views(
                    f.subnet_ids@,
                ) == subnets && f.endpoint@ == endpoint && f.certificate@ == certificate
                    && f.cluster_dns_ip@ == dns && f.cluster_sg@ == sg,
                Err(m) => r matches Err(e) && e.resources == Resources::Remaining && e.context@
                    == m,
            },
    {
        let vpc = match &d.resources_vpc_config {
            Some(v) => v,
            None => {
                return Err(missing("Cluster missing resources_vpc_config field"));
            },
        };
        let subnet_ids = match &vpc.subnet_ids {
            Some(s) => s.clone(),
            None => {
                return Err(missing("resources_vpc_config missing subnet ids"));
            },
        };
        let endpoint = match &d.endpoint {
            Some(e) => e.clone(),
            None => {
                return Err(missing("Cluster missing endpoint field"));
            },
        };
        let certificate = match &d.certificate_authority {
            None => {
                return Err(missing("Cluster missing certificate_authority field"));
            },
            Some(None) => {
                return Err(missing("Certificate authority missing data"));
            },
            Some(Some(c)) => c.clone(),
        };
        let net = match &d.kubernetes_network_config {
            Some(n) => n,
            None => {
                return Err(missing("DescribeCluster missing KubernetesNetworkConfig field"));
            },
        };
        let cluster_dns_ip = service_ip_cidr_to_cluster_dns_ip(
            net.ip_family,
            net.service_ipv4_cidr.clone(),
            net.service_ipv6_cidr.clone(),
        )?;
        let cluster_sg = match &vpc.cluster_security_group_id {
            Some(sg) => sg.clone(),
            None => {
                return Err(missing("resources_vpc_config missing cluster security group id"));
            },
        };
        Ok(ClusterFacts { subnet_ids, endpoint, certificate, cluster_dns_ip, cluster_sg })
    }

    /// What the creator hands back about the cluster: its facts, the public and private subnets
    /// among its subnets, the cluster security group as the instances' only group, and the
    /// instance profile of its nodes.
    pub fn created_cluster(
        &self,
        cluster_name: &str,
        region: &str,
        facts: ClusterFacts,
        public_subnet_ids: Vec<String>,
        private_subnet_ids: Vec<String>,
        iam_instance_profile_arn: String,
        encoded_kubeconfig: String,
    ) -> (r: CreatedCluster)
        ensures
            r.cluster_name@ == cluster_name@,
            r.region@ == region@,
            r.endpoint == facts.endpoint,
            r.certificate == facts.certificate,
            r.cluster_dns_ip == facts.cluster_dns_ip,
            r.public_subnet_ids == public_subnet_ids,
            r.private_subnet_ids == private_subnet_ids,
            string_views(r.security_groups@) == seq![facts.cluster_sg@],
            r.cluster_sg == facts.cluster_sg,
            r.iam_instance_profile_arn == iam_instance_profile_arn,
            r.encoded_kubeconfig == encoded_kubeconfig,
    {
        let mut security_groups: Vec<String> = Vec::new();
        push_string(&mut security_groups, facts.cluster_sg.clone());
        CreatedCluster {
            cluster_name: owned(cluster_name),
            region: owned(region),
            endpoint: facts.endpoint,
            certificate: facts.certificate,
            cluster_dns_ip: facts.cluster_dns_ip,
            public_subnet_ids,
            private_subnet_ids,
            security_groups,
            cluster_sg: facts.cluster_sg,
            iam_instance_profile_arn,
            encoded_kubeconfig,
        }
    }
}

/// A step of the EKS agent's creation of a cluster.
#[derive(Clone, Copy, Debug, PartialEq, Eq, Structural)]
pub enum EksCreateStep {
    /// Read the memo from the controller.
    GetInfo,
    /// Send the memo with its new status to the controller.
    SendStatus,
    /// Send the memo with its new status and the creation policy.
    RecordPolicy,
    /// Send the memo with its new status, the AWS credentials secret and the role to assume.
    RecordCredentials,
    /// Send the memo with its new status, recording that provisioning has started.
    StartProvisioning,
    /// Send the memo with its new status, the cluster's name and its region.
    RecordCluster,
    /// Read the cluster's configuration (`ClusterConfig::new`).
    ReadClusterConfig,
    /// Make the AWS configuration.
    CreateAwsConfig,
    /// Make the configuration of the EKS client, with its endpoint.
    CreateEksClientConfig,
    /// Learn whether the cluster exists and decide by the creation policy.
    CheckCluster,
    /// Send the memo with the creation decision as its status.
    SendDecision,
    /// Create the cluster with `eksctl`.
    CreateCluster,
    /// Write the cluster's kubeconfig.
    WriteKubeconfig,
    /// Read the kubeconfig back, to encode it.
    ReadKubeconfig,
    /// Describe the cluster and gather what its instances need.
    CollectClusterInfo,
}

/// The EKS creator's steps up to its decision whether to create the cluster: before the cluster is touched, every failure leaves nothing behind.
pub open spec fn eks_create_decision_plan_spec() -> Seq<PlannedStep<EksCreateStep>> {
    seq![
        PlannedStep { step: EksCreateStep::GetInfo, status: None, on_failure: Resources::Clear, failure: Some("Unable to get info from client"), wait_secs: None, fatal: true },
        PlannedStep { step: EksCreateStep::RecordPolicy, status: Some("Initializing agent"), on_failure: Resources::Clear, failure: Some("Error sending cluster creation message"), wait_secs: None, fatal: true },
        PlannedStep { step: EksCreateStep::ReadClusterConfig, status: None, on_failure: Resources::Clear, failure: None, wait_secs: None, fatal: true },
        PlannedStep { step: EksCreateStep::SendStatus, status: Some("Getting AWS secret"), on_failure: Resources::Clear, failure: Some("Error sending cluster creation message"), wait_secs: None, fatal: true },
        PlannedStep { step: EksCreateStep::RecordCredentials, status: Some("Creating AWS config"), on_failure: Resources::Clear, failure: Some("Error sending cluster creation message"), wait_secs: None, fatal: true },
        PlannedStep { step: EksCreateStep::CreateAwsConfig, status: None, on_failure: Resources::Clear, failure: Some("Error creating config"), wait_secs: None, fatal: true },
        PlannedStep { step: EksCreateStep::CreateEksClientConfig, status: None, on_failure: Resources::Clear, failure: Some("Error creating EKS client config"), wait_secs: None, fatal: true },
        PlannedStep { step: EksCreateStep::SendStatus, status: Some("Determining cluster state"), on_failure: Resources::Clear, failure: Some("Error sending cluster creation message"), wait_secs: None, fatal: true },
        PlannedStep { step: EksCreateStep::CheckCluster, status: None, on_failure: Resources::Clear, failure: None, wait_secs: None, fatal: true },
        PlannedStep { step: EksCreateStep::SendDecision, status: None, on_failure: Resources::Clear, failure: Some("Error sending cluster creation message"), wait_secs: None, fatal: true },
    ]
}

/// The EKS creator's steps up to its decision whether to create the cluster: before the cluster is touched, every failure leaves nothing behind.
pub fn eks_create_decision_plan() -> (r: Vec<PlannedStep<EksCreateStep>>)
    ensures
        r@ == eks_create_decision_plan_spec(),
{
    let mut v: Vec<PlannedStep<EksCreateStep>> = Vec::new();
    v.push(PlannedStep { step: EksCreateStep::GetInfo, status: None, on_failure: Resources::Clear, failure: Some("Unable to get info from client"), wait_secs: None, fatal: true });
    v.push(PlannedStep { step: EksCreateStep::RecordPolicy, status: Some("Initializing agent"), on_failure: Resources::Clear, failure: Some("Error sending cluster creation message"), wait_secs: None, fatal: true });
    v.push(PlannedStep { step: EksCreateStep::ReadClusterConfig, status: None, on_failure: Resources::Clear, failure: None, wait_secs: None, fatal: true });
    v.push(PlannedStep { step: EksCreateStep::SendStatus, status: Some("Getting AWS secret"), on_failure: Resources::Clear, failure: Some("Error sending cluster creation message"), wait_secs: None, fatal: true });
    v.push(PlannedStep { step: EksCreateStep::RecordCredentials, status: Some("Creating AWS config"), on_failure: Resources::Clear, failure: Some("Error sending cluster creation message"), wait_secs: None, fatal: true });
    v.push(PlannedStep { step: EksCreateStep::CreateAwsConfig, status: None, on_failure: Resources::Clear, failure: Some("Error creating config"), wait_secs: None, fatal: true });
    v.push(PlannedStep { step: EksCreateStep::CreateEksClientConfig, status: None, on_failure: Resources::Clear, failure: Some("Error creating EKS client config"), wait_secs: None, fatal: true });
    v.push(PlannedStep { step: EksCreateStep::SendStatus, status: Some("Determining cluster state"), on_failure: Resources::Clear, failure: Some("Error sending cluster creation message"), wait_secs: None, fatal: true });
    v.push(PlannedStep { step: EksCreateStep::CheckCluster, status: None, on_failure: Resources::Clear, failure: None, wait_secs: None, fatal: true });
    v.push(PlannedStep { step: EksCreateStep::SendDecision, status: None, on_failure: Resources::Clear, failure: Some("Error sending cluster creation message"), wait_secs: None, fatal: true });
    assert(v@ =~= eks_create_decision_plan_spec());
    v
}

/// The EKS creator's steps once it decided to create the cluster: provisioning starts with `eksctl`, and nothing is left behind until it is done.
pub open spec fn eks_create_cluster_plan_spec() -> Seq<PlannedStep<EksCreateStep>> {
    seq![
        PlannedStep { step: EksCreateStep::StartProvisioning, status: Some("Creating cluster"), on_failure: Resources::Clear, failure: Some("Error sending cluster creation message"), wait_secs: None, fatal: true },
        PlannedStep { step: EksCreateStep::CreateCluster, status: None, on_failure: Resources::Clear, failure: None, wait_secs: None, fatal: true },
        PlannedStep { step: EksCreateStep::SendStatus, status: Some("Cluster creation complete"), on_failure: Resources::Remaining, failure: Some("Error sending cluster creation message"), wait_secs: None, fatal: true },
    ]
}

/// The EKS creator's steps once it decided to create the cluster: provisioning starts with `eksctl`, and nothing is left behind until it is done.
pub fn eks_create_cluster_plan() -> (r: Vec<PlannedStep<EksCreateStep>>)
    ensures
        r@ == eks_create_cluster_plan_spec(),
{
    let mut v: Vec<PlannedStep<EksCreateStep>> = Vec::new();
    v.push(PlannedStep { step: EksCreateStep::StartProvisioning, status: Some("Creating cluster"), on_failure: Resources::Clear, failure: Some("Error sending cluster creation message"), wait_secs: None, fatal: true });
    v.push(PlannedStep { step: EksCreateStep::CreateCluster, status: None, on_failure: Resources::Clear, failure: None, wait_secs: None, fatal: true });
    v.push(PlannedStep { step: EksCreateStep::SendStatus, status: Some("Cluster creation complete"), on_failure: Resources::Remaining, failure: Some("Error sending cluster creation message"), wait_secs: None, fatal: true });
    assert(v@ =~= eks_create_cluster_plan_spec());
    v
}

/// The EKS creator's last steps, on the cluster it created or found: every failure leaves the cluster behind.
pub open spec fn eks_adopt_cluster_plan_spec() -> Seq<PlannedStep<EksCreateStep>> {
    seq![
        PlannedStep { step: EksCreateStep::SendStatus, status: Some("Writing cluster kubeconfig"), on_failure: Resources::Remaining, failure: Some("Error sending cluster creation message"), wait_secs: None, fatal: true },
        PlannedStep { step: EksCreateStep::WriteKubeconfig, status: None, on_failure: Resources::Remaining, failure: None, wait_secs: None, fatal: true },
        PlannedStep { step: EksCreateStep::ReadKubeconfig, status: None, on_failure: Resources::Remaining, failure: Some("Unable to read kubeconfig."), wait_secs: None, fatal: true },
        PlannedStep { step: EksCreateStep::SendStatus, status: Some("Collecting cluster info"), on_failure: Resources::Remaining, failure: Some("Error sending cluster creation message"), wait_secs: None, fatal: true },
        PlannedStep { step: EksCreateStep::CollectClusterInfo, status: None, on_failure: Resources::Remaining, failure: None, wait_secs: None, fatal: true },
        PlannedStep { step: EksCreateStep::RecordCluster, status: Some("Cluster ready"), on_failure: Resources::Remaining, failure: Some("Error sending cluster created message"), wait_secs: None, fatal: true },
    ]
}

/// The EKS creator's last steps, on the cluster it created or found: every failure leaves the cluster behind.
pub fn eks_adopt_cluster_plan() -> (r: Vec<PlannedStep<EksCreateStep>>)
    ensures
        r@ == eks_adopt_cluster_plan_spec(),
{
    let mut v: Vec<PlannedStep<EksCreateStep>> = Vec::new();
    v.push(PlannedStep { step: EksCreateStep::SendStatus, status: Some("Writing cluster kubeconfig"), on_failure: Resources::Remaining, failure: Some("Error sending cluster creation message"), wait_secs: None, fatal: true });
    v.push(PlannedStep { step: EksCreateStep::WriteKubeconfig, status: None, on_failure: Resources::Remaining, failure: None, wait_secs: None, fatal: true });
    v.push(PlannedStep { step: EksCreateStep::ReadKubeconfig, status: None, on_failure: Resources::Remaining, failure: Some("Unable to read kubeconfig."), wait_secs: None, fatal: true });
    v.push(PlannedStep { step: EksCreateStep::SendStatus, status: Some("Collecting cluster info"), on_failure: Resources::Remaining, failure: Some("Error sending cluster creation message"), wait_secs: None, fatal: true });
    v.push(PlannedStep { step: EksCreateStep::CollectClusterInfo, status: None, on_failure: Resources::Remaining, failure: None, wait_secs: None, fatal: true });
    v.push(PlannedStep { step: EksCreateStep::RecordCluster, status: Some("Cluster ready"), on_failure: Resources::Remaining, failure: Some("Error sending cluster created message"), wait_secs: None, fatal: true });
    assert(v@ =~= eks_adopt_cluster_plan_spec());
    v
}


/// The EKS creator's steps after its decision: creating the cluster when it decided to, then
/// what it does on the cluster.
pub open spec fn eks_after_decision_plan_spec(create: bool) -> Seq<PlannedStep<EksCreateStep>> {
    if create {
        eks_create_cluster_plan_spec() + eks_adopt_cluster_plan_spec()
    } else {
        eks_adopt_cluster_plan_spec()
    }
}

impl EksCreator {
    /// The creator's steps after its decision whether to create the cluster (`create`).
    pub fn after_decision_plan(&self, create: bool) -> (r: Vec<PlannedStep<EksCreateStep>>)
        ensures
            r@ == eks_after_decision_plan_spec(create),
    {
        let mut rest = eks_adopt_cluster_plan();
        if create {
            let mut v = eks_create_cluster_plan();
            v.append(&mut rest);
            v
        } else {
            rest
        }
    }
}

/// The EKS agent's memo: what it reports to the controller while it creates, and what the
/// destroyer reads back.
#[derive(Clone, Debug, Default)]
pub struct EksMemo {
    pub current_status: String,
    /// The name of the secret holding the AWS credentials.
    pub aws_secret_name: Option<String>,
    /// The name of the cluster.
    pub cluster_name: Option<String>,
    /// Whether the agent was told to create the cluster.
    pub creation_policy: Option<CreationPolicy>,
    /// The cluster's region.
    pub region: Option<String>,
    /// The role that is assumed.
    pub assume_role: Option<String>,
    /// Whether `eksctl` was set to create the cluster.
    pub provisioning_started: bool,
}

/// The EKS memo as plain values.
pub struct EksMemoView {
    pub current_status: Seq<char>,
    pub aws_secret_name: Option<Seq<char>>,
    pub cluster_name: Option<Seq<char>>,
    pub creation_policy: Option<CreationPolicy>,
    pub region: Option<Seq<char>>,
    pub assume_role: Option<Seq<char>>,
    pub provisioning_started: bool,
}

/// The text an optional string holds, if any.
pub open spec fn opt_text(o: Option<String>) -> Option<Seq<char>> {
    match o {
        Some(s) => Some(s@),
        None => None,
    }
}

impl View for EksMemo {
    type V = EksMemoView;

    open spec fn view(&self) -> EksMemoView {
        EksMemoView {
            current_status: self.current_status@,
            aws_secret_name: opt_text(self.aws_secret_name),
            cluster_name: opt_text(self.cluster_name),
            creation_policy: self.creation_policy,
            region: opt_text(self.region),
            assume_role: opt_text(self.assume_role),
            provisioning_started: self.provisioning_started,
        }
    }
}

/// What the EKS creator has learned by the time it records it: the creation policy, the
/// credentials it was given, the cluster's name and region, and the status its decision reports.
#[derive(Clone, Debug)]
pub struct EksCreateFacts {
    pub creation_policy: CreationPolicy,
    pub aws_secret_name: Option<String>,
    pub assume_role: Option<String>,
    pub cluster_name: String,
    pub region: String,
    pub decision: String,
}

/// The memo after the step `p`, from the memo `m` before it: a step with a status reports it,
/// and the recording steps add what they record.
pub open spec fn eks_memo_sent(m: EksMemoView, p: PlannedStep<EksCreateStep>, f: EksCreateFacts) -> EksMemoView {
    let m = match p.status {
        Some(s) => EksMemoView { current_status: s@, ..m },
        None => m,
    };
    match p.step {
        EksCreateStep::RecordPolicy => EksMemoView { creation_policy: Some(f.creation_policy), ..m },
        EksCreateStep::RecordCredentials => EksMemoView {
            aws_secret_name: opt_text(f.aws_secret_name),
            assume_role: opt_text(f.assume_role),
            ..m
        },
        EksCreateStep::SendDecision => EksMemoView { current_status: f.decision@, ..m },
        EksCreateStep::StartProvisioning => EksMemoView { provisioning_started: true, ..m },
        EksCreateStep::RecordCluster => EksMemoView {
            cluster_name: Some(f.cluster_name@),
            region: Some(f.region@),
            ..m
        },
        _ => m,
    }
}

/// The EKS memo once `steps` have run, from `m`.
pub open spec fn eks_memo_after(m: EksMemoView, steps: Seq<PlannedStep<EksCreateStep>>, f: EksCreateFacts) -> EksMemoView {
    memo_after(
        m,
        steps,
        f,
        |m: EksMemoView, p: PlannedStep<EksCreateStep>, f: EksCreateFacts| eks_memo_sent(m, p, f),
    )
}

/// The EKS creator's whole plan, when it decides to create the cluster (`create`) and when not.
pub open spec fn eks_create_plan_spec(create: bool) -> Seq<PlannedStep<EksCreateStep>> {
    eks_create_decision_plan_spec() + eks_after_decision_plan_spec(create)
}

fn copy_opt(o: &Option<String>) -> (r: Option<String>)
    ensures
        r == *o,
{
    match o {
        Some(s) => Some(s.clone()),
        None => None,
    }
}

impl EksCreator {
    /// Makes `memo` the memo that the step `step` sends (or keeps, when it sends none), from what
    /// the creator has learned.
    pub fn update_memo(&self, memo: &mut EksMemo, step: &PlannedStep<EksCreateStep>, facts: &EksCreateFacts)
        ensures
            final(memo)@ == eks_memo_sent(old(memo)@, *step, *facts),
    {
        match step.status {
            Some(s) => {
                memo.current_status = owned(s);
            },
            None => {},
        }
        match step.step {
            EksCreateStep::RecordPolicy => {
                memo.creation_policy = Some(facts.creation_policy);
            },
            EksCreateStep::RecordCredentials => {
                memo.aws_secret_name = copy_opt(&facts.aws_secret_name);
                memo.assume_role = copy_opt(&facts.assume_role);
            },
            EksCreateStep::SendDecision => {
                memo.current_status = facts.decision.clone();
            },
            EksCreateStep::StartProvisioning => {
                memo.provisioning_started = true;
            },
            EksCreateStep::RecordCluster => {
                memo.cluster_name = Some(facts.cluster_name.clone());
                memo.region = Some(facts.region.clone());
            },
            _ => {},
        }
    }
}

/// Provisioning is recorded before `eksctl` creates the cluster: in the plan that creates it, the
/// only `CreateCluster` step comes right after the step that records the start of provisioning,
/// and the memo sent then says that provisioning started, whatever memo the creator began with.
pub proof fn lemma_provisioning_recorded_before_eksctl(memo: EksMemoView, facts: EksCreateFacts)
    ensures
        eks_create_plan_spec(true)[11].step == EksCreateStep::CreateCluster,
        eks_create_plan_spec(true)[10].step == EksCreateStep::StartProvisioning,
        forall|i: int| 0 <= i < eks_create_plan_spec(true).len()
            && #[trigger] eks_create_plan_spec(true)[i].step == EksCreateStep::CreateCluster
            ==> i == 11,
        eks_memo_after(memo, eks_create_plan_spec(true).take(11), facts).provisioning_started,
{
    let plan = eks_create_plan_spec(true);
    let sent = |m: EksMemoView, p: PlannedStep<EksCreateStep>, f: EksCreateFacts| eks_memo_sent(m, p, f);
    let head = eks_create_decision_plan_spec();
    assert(plan.take(11) =~= head + seq![plan[10]]);
    lemma_memo_after_append(memo, head, seq![plan[10]], facts, sent);
    lemma_memo_after_one(memo_after(memo, head, facts, sent), plan[10], facts, sent);
    let rest = plan.skip(12);
    assert(avoids(rest, EksCreateStep::CreateCluster)) by {
        reveal_with_fuel(avoids, 18);
    }
    lemma_avoids(rest, EksCreateStep::CreateCluster);
    assert(avoids(plan.take(11), EksCreateStep::CreateCluster)) by {
        reveal_with_fuel(avoids, 18);
    }
    lemma_avoids(plan.take(11), EksCreateStep::CreateCluster);
    assert forall|i: int| 0 <= i < plan.len() && #[trigger] plan[i].step == EksCreateStep::CreateCluster
        implies i == 11 by {
        if i < 11 {
            assert(plan.take(11)[i] == plan[i]);
        } else if i > 11 {
            assert(rest[i - 12] == plan[i]);
        }
    }
}

/// The creator's last memo names the cluster and its region, whether it created the cluster or
/// found it.
pub proof fn lemma_created_memo_names_cluster(memo: EksMemoView, facts: EksCreateFacts, create: bool)
    ensures
        eks_memo_after(memo, eks_create_plan_spec(create), facts).cluster_name == Some(facts.cluster_name@),
        eks_memo_after(memo, eks_create_plan_spec(create), facts).region == Some(facts.region@),
        eks_memo_after(memo, eks_create_plan_spec(create), facts).current_status == "Cluster ready"@,
{
    let plan = eks_create_plan_spec(create);
    assert(plan.last().step == EksCreateStep::RecordCluster);
}

/// A cluster the creator did not create is never marked as provisioned: when it decides not to
/// create the cluster, no memo it sends says that provisioning started (where the memo it began
/// with did not), so the destroyer's `delete_command` deletes nothing.
pub proof fn lemma_found_cluster_never_provisioned(memo: EksMemoView, facts: EksCreateFacts, n: int)
    requires
        !memo.provisioning_started,
        0 <= n <= eks_create_plan_spec(false).len(),
    ensures
        !eks_memo_after(memo, eks_create_plan_spec(false).take(n), facts).provisioning_started,
{
    let plan = eks_create_plan_spec(false);
    let steps = plan.take(n);
    let sent = |m: EksMemoView, p: PlannedStep<EksCreateStep>, f: EksCreateFacts| eks_memo_sent(m, p, f);
    let keep = |m: EksMemoView| !m.provisioning_started;
    assert(avoids(plan, EksCreateStep::StartProvisioning)) by {
        reveal_with_fuel(avoids, 18);
    }
    lemma_avoids(plan, EksCreateStep::StartProvisioning);
    assert forall|m: EksMemoView, i: int| 0 <= i < steps.len() && #[trigger] keep(m) implies keep(
        sent(m, #[trigger] steps[i], facts),
    ) by {
        assert(steps[i] == plan[i]);
    }
    lemma_memo_after_keeps(memo, steps, facts, sent, keep);
}

/// A step of the EKS agent's deletion of a cluster.
#[derive(Clone, Copy, Debug, PartialEq, Eq, Structural)]
pub enum EksDestroyStep {
    /// Read the memo from the controller.
    GetInfo,
    /// Decide what to delete (`delete_command`).
    ReadDeleteCommand,
    /// Make the AWS configuration.
    CreateAwsConfig,
    /// Run `eksctl delete cluster`.
    LaunchEksctl,
    /// Check that `eksctl` deleted the cluster.
    CheckEksctl,
    /// Send the memo with its new status; a failure is only reported, the cluster being gone.
    SendStatus,
}

/// The EKS destroyer's steps, once provisioning had started: a failed `eksctl` run leaves the cluster orphaned.
pub open spec fn eks_destroy_plan_spec() -> Seq<PlannedStep<EksDestroyStep>> {
    seq![
        PlannedStep { step: EksDestroyStep::GetInfo, status: None, on_failure: Resources::Remaining, failure: Some("Unable to get info from client"), wait_secs: None, fatal: true },
        PlannedStep { step: EksDestroyStep::ReadDeleteCommand, status: None, on_failure: Resources::Unknown, failure: None, wait_secs: None, fatal: true },
        PlannedStep { step: EksDestroyStep::CreateAwsConfig, status: None, on_failure: Resources::Clear, failure: Some("Error creating config"), wait_secs: None, fatal: true },
        PlannedStep { step: EksDestroyStep::LaunchEksctl, status: None, on_failure: Resources::Remaining, failure: Some("Failed to run eksctl delete command"), wait_secs: None, fatal: true },
        PlannedStep { step: EksDestroyStep::CheckEksctl, status: None, on_failure: Resources::Orphaned, failure: None, wait_secs: None, fatal: true },
        PlannedStep { step: EksDestroyStep::SendStatus, status: Some("Cluster deleted"), on_failure: Resources::Clear, failure: None, wait_secs: None, fatal: false },
    ]
}

/// The EKS destroyer's steps, once provisioning had started: a failed `eksctl` run leaves the cluster orphaned.
pub fn eks_destroy_plan() -> (r: Vec<PlannedStep<EksDestroyStep>>)
    ensures
        r@ == eks_destroy_plan_spec(),
{
    let mut v: Vec<PlannedStep<EksDestroyStep>> = Vec::new();
    v.push(PlannedStep { step: EksDestroyStep::GetInfo, status: None, on_failure: Resources::Remaining, failure: Some("Unable to get info from client"), wait_secs: None, fatal: true });
    v.push(PlannedStep { step: EksDestroyStep::ReadDeleteCommand, status: None, on_failure: Resources::Unknown, failure: None, wait_secs: None, fatal: true });
    v.push(PlannedStep { step: EksDestroyStep::CreateAwsConfig, status: None, on_failure: Resources::Clear, failure: Some("Error creating config"), wait_secs: None, fatal: true });
    v.push(PlannedStep { step: EksDestroyStep::LaunchEksctl, status: None, on_failure: Resources::Remaining, failure: Some("Failed to run eksctl delete command"), wait_secs: None, fatal: true });
    v.push(PlannedStep { step: EksDestroyStep::CheckEksctl, status: None, on_failure: Resources::Orphaned, failure: None, wait_secs: None, fatal: true });
    v.push(PlannedStep { step: EksDestroyStep::SendStatus, status: Some("Cluster deleted"), on_failure: Resources::Clear, failure: None, wait_secs: None, fatal: false });
    assert(v@ =~= eks_destroy_plan_spec());
    v
}


/// Once the cluster is deleted, the EKS destroyer's last step only reports a failure to send its
/// memo: whatever that step comes to, the run ends there without an error.
pub proof fn lemma_eks_destroy_ends_without_error(outcome: StepOutcome, r: (usize, StepAction<EksDestroyStep>))
    requires
        step_transition(eks_destroy_plan_spec(), 5, outcome, r),
    ensures
        r.1 is Done,
        r.0 == eks_destroy_plan_spec().len(),
{
}


impl EksDestroyer {
    /// How the step that reads what to delete comes out, with the `eksctl` arguments when there
    /// is a cluster to delete: the destroyer is done, successfully, when provisioning never
    /// started; it fails as `delete_command` does when the memo lost the cluster's name.
    pub fn read_delete_command(&self, memo: &EksMemo) -> (r: (StepOutcome, Option<Vec<String>>))
        ensures
            !memo@.provisioning_started ==> r.0 == StepOutcome::Finished && r.1 is None,
            memo@.provisioning_started && memo@.cluster_name is None ==> (r.0 matches StepOutcome::Failed(e)
                && e.resources == Resources::Unknown && e.context@ == "Unable to obtain cluster name"@
                && r.1 is None),
            memo@.provisioning_started && memo@.cluster_name is Some ==> r.0 == StepOutcome::Succeeded
                && (r.1 matches Some(args) && string_views(args@) == delete_cluster_args_spec(
                memo@.cluster_name->0,
                match memo@.region {
                    Some(g) => g,
                    None => DEFAULT_REGION@,
                },
            )),
    {
        match self.delete_command(memo) {
            Ok(None) => (StepOutcome::Finished, None),
            Ok(Some(args)) => (StepOutcome::Succeeded, Some(args)),
            Err(e) => (StepOutcome::Failed(e), None),
        }
    }
}

/// A destroyer whose memo records that provisioning never started (`read_delete_command` then
/// finishes) stops after reading what to delete: the run ends there, successfully, without
/// `eksctl`.
pub proof fn lemma_unprovisioned_cluster_is_left_alone(r: (usize, StepAction<EksDestroyStep>))
    requires
        step_transition(eks_destroy_plan_spec(), 1, StepOutcome::Finished, r),
    ensures
        eks_destroy_plan_spec()[1].step == EksDestroyStep::ReadDeleteCommand,
        r.1 is Done,
        r.0 == eks_destroy_plan_spec().len(),
{
}


impl EksDestroyer {
    /// What the older EKS destroyer runs for the cluster its memo records: `eksctl delete cluster`
    /// for a cluster the agent created, in the memo's region (the default region when it records
    /// none); nothing for a cluster it only used, or when it records none.
    pub fn recorded_cluster_delete_args(&self, cluster: &Option<Cluster>, region: &Option<String>) -> (r:
        Option<Vec<String>>)
        ensures
            match cluster {
                Some(Cluster::Create(n)) => r matches Some(args) && string_views(args@)
                    == delete_cluster_args_spec(
                    n@,
                    match region {
                        Some(g) => g@,
                        None => DEFAULT_REGION@,
                    },
                ),
                _ => r is None,
            },
    {
        match cluster {
            Some(Cluster::Create(n)) => {
                let region = match region {
                    Some(g) => g.clone(),
                    None => owned(DEFAULT_REGION),
                };
                let mut v: Vec<String> = Vec::new();
                push_text(&mut v, "delete");
                push_text(&mut v, "cluster");
                push_text(&mut v, "--name");
                push_text(&mut v, n.as_str());
                push_text(&mut v, "-r");
                push_string(&mut v, region);
                Some(v)
            },
            _ => None,
        }
    }
}


/// Whether `s` holds no `.`.
pub open spec fn no_dot(s: Seq<char>) -> bool {
    forall|i: int| 0 <= i < s.len() ==> s[i] != '.'
}

proof fn lemma_find_dot_at(s: Seq<char>, from: nat, j: nat)
    requires
        from <= j < s.len(),
        s[j as int] == '.',
        forall|i: int| from <= i < j ==> s[i] != '.',
    ensures
        find_from(s, '.', from) == j,
    decreases j - from,
{
    if from < j {
        lemma_find_dot_at(s, from + 1, j);
    }
}

proof fn lemma_no_dot_count(s: Seq<char>, from: nat)
    requires
        from <= s.len(),
        forall|i: int| from <= i < s.len() ==> s[i] != '.',
    ensures
        count_from(s, '.', from) == 0,
    decreases s.len() - from,
{
    if from < s.len() {
        lemma_no_dot_count(s, from + 1);
    }
}

/// The cluster DNS IP of an IPv4 cluster (or one of an unknown family) is the address of its
/// service CIDR `a.b.c.d/m` with the last component replaced by `10`: `a.b.c.10`, its first three
/// components those of the CIDR, whatever the IPv6 CIDR.
pub proof fn lemma_ipv4_cluster_dns_ip_is_dot_ten(
    family: IpFamily,
    a: Seq<char>,
    b: Seq<char>,
    c: Seq<char>,
    d: Seq<char>,
    v6: Option<Seq<char>>,
)
    requires
        family != IpFamily::Ipv6,
        no_dot(a),
        no_dot(b),
        no_dot(c),
        no_dot(d),
    ensures
        cluster_dns_ip_spec(
            Some(family),
            Some(a + seq!['.'] + b + seq!['.'] + c + seq!['.'] + d),
            v6,
        ) == Ok::<Seq<char>, Seq<char>>(a + seq!['.'] + b + seq!['.'] + c + seq!['.', '1', '0']),
{
    let s = a + seq!['.'] + b + seq!['.'] + c + seq!['.'] + d;
    let p1 = a.len();
    let p2 = p1 + 1 + b.len();
    let p3 = p2 + 1 + c.len();
    assert(s.len() == p3 + 1 + d.len());
    assert(s[p1 as int] == '.');
    assert(s[p2 as int] == '.');
    assert(s[p3 as int] == '.');
    assert forall|i: int| 0 <= i < p1 implies s[i] != '.' by {
        assert(s[i] == a[i]);
    }
    assert forall|i: int| p1 + 1 <= i < p2 implies s[i] != '.' by {
        assert(s[i] == b[i - p1 - 1]);
    }
    assert forall|i: int| p2 + 1 <= i < p3 implies s[i] != '.' by {
        assert(s[i] == c[i - p2 - 1]);
    }
    assert forall|i: int| p3 + 1 <= i < s.len() implies s[i] != '.' by {
        assert(s[i] == d[i - p3 - 1]);
    }
    lemma_find_dot_at(s, 0, p1);
    lemma_find_dot_at(s, (p1 + 1) as nat, p2);
    lemma_find_dot_at(s, (p2 + 1) as nat, p3);
    lemma_count_from_find(s, '.', 0);
    lemma_count_from_find(s, '.', (p1 + 1) as nat);
    lemma_count_from_find(s, '.', (p2 + 1) as nat);
    lemma_count_from_find(s, '.', (p3 + 1) as nat);
    lemma_find_from_bounds(s, '.', (p3 + 1) as nat);
    lemma_no_dot_count(s, (p3 + 1) as nat);
    assert(count_from(s, '.', 0) == 3);
    reveal_strlit("10");
    assert(s.subrange(0, (p3 + 1) as int) + "10"@ =~= a + seq!['.'] + b + seq!['.'] + c + seq![
        '.',
        '1',
        '0',
    ]);
}


proof fn lemma_find_slash_at(s: Seq<char>, from: nat, j: nat)
    requires
        from <= j < s.len(),
        s[j as int] == '/',
        forall|i: int| from <= i < j ==> s[i] != '/',
    ensures
        find_from(s, '/', from) == j,
    decreases j - from,
{
    if from < j {
        lemma_find_slash_at(s, from + 1, j);
    }
}

/// The cluster DNS IP of an IPv6 cluster whose service CIDR is `addr/m` is `addr` followed by
/// `a`, whatever its IPv4 CIDR; an IPv6 cluster without a service IPv6 CIDR has none.
pub proof fn lemma_ipv6_cluster_dns_ip_appends_a(
    addr: Seq<char>,
    m: Seq<char>,
    v4: Option<Seq<char>>,
)
    requires
        forall|i: int| 0 <= i < addr.len() ==> addr[i] != '/',
    ensures
        cluster_dns_ip_spec(Some(IpFamily::Ipv6), v4, Some(addr + seq!['/'] + m))
            == Ok::<Seq<char>, Seq<char>>(addr + seq!['a']),
        cluster_dns_ip_spec(Some(IpFamily::Ipv6), v4, None) is Err,
        cluster_dns_ip_spec(None, v4, Some(addr + seq!['/'] + m)) is Err,
{
    let s = addr + seq!['/'] + m;
    assert forall|i: int| 0 <= i < addr.len() implies s[i] != '/' by {
        assert(s[i] == addr[i]);
    }
    lemma_find_slash_at(s, 0, addr.len());
    reveal_strlit("a");
    assert(s.subrange(0, addr.len() as int) + "a"@ =~= addr + seq!['a']);
}

} // verus!
