//! What the bare metal EKS Anywhere cluster resource agent decides: the cluster's name in the
//! EKS Anywhere configuration, the addresses at which it reaches the machines, the commands it
//! runs, and what remains when deletion fails.

use crate::document::{
    doc_get, doc_text, doc_views, entry_views, find_where, is_text, json_compact, json_text,
    lemma_first_where_found, lemma_first_where_none, mapping_of, opt_get, read_toml_as_json,
    parse_yaml_documents, toml_json_read, yaml_documents, Doc, DocView,
};
use crate::plan::{memo_after, PlannedStep};
use crate::provider::{ProviderError, Resources};
use crate::eks::opt_text;
use crate::text::{owned, push_string, push_text, str_eq, string_views};
use crate::userdata::{base64_decode, base64_decoding, CustomUserData};
use vstd::utf8::encode_utf8;
use std::collections::HashSet;
use vstd::prelude::*;

verus! {

/// The directory in which EKS Anywhere runs.
pub const WORKING_DIR: &'static str = "/local/eksa-work";

/// What the agent hands back: the cluster's base64 encoded kubeconfig and the instance IDs of
/// all SSM-registered machines.
#[derive(Debug, Default)]
pub struct CreatedMetalK8sCluster {
    pub encoded_kubeconfig: String,
    pub instance_ids: HashSet<String>,
}

/// Creates a workload cluster on bare metal machines with EKS Anywhere.
#[derive(Clone, Copy, Debug, Default)]
pub struct MetalK8sClusterCreator {}

/// Deletes the workload cluster and deregisters its machines.
#[derive(Clone, Copy, Debug, Default)]
pub struct MetalK8sClusterDestroyer {}

/// A file in the working directory.
pub open spec fn working_file(name: Seq<char>) -> Seq<char> {
    WORKING_DIR@ + "/"@ + name
}

fn working_file_text(name: &str) -> (r: String)
    ensures
        r@ == working_file(name@),
{
    let mut r = owned(WORKING_DIR);
    r.append("/");
    r.append(name);
    r
}

/// Where the management cluster's kubeconfig is written.
pub fn mgmt_kubeconfig_path() -> (r: String)
    ensures
        r@ == working_file("mgmt.kubeconfig"@),
{
    working_file_text("mgmt.kubeconfig")
}

/// Where the EKS Anywhere configuration is written.
pub fn eksa_config_path() -> (r: String)
    ensures
        r@ == working_file("cluster.yaml"@),
{
    working_file_text("cluster.yaml")
}

/// Where the hardware description of the machines is written.
pub fn hardware_csv_path() -> (r: String)
    ensures
        r@ == working_file("hardware.csv"@),
{
    working_file_text("hardware.csv")
}

/// Where the workload cluster's kubeconfig is written for its deletion.
pub fn workload_kubeconfig_path(cluster_name: &str) -> (r: String)
    ensures
        r@ == working_file(cluster_name@ + "-eks-a-cluster.kubeconfig"@),
{
    let mut name = owned(cluster_name);
    name.append("-eks-a-cluster.kubeconfig");
    working_file_text(name.as_str())
}

/// The SSH key EKS Anywhere made for the cluster's machines.
pub fn ssh_key_path(cluster_name: &str) -> (r: String)
    ensures
        r@ == working_file(cluster_name@) + "/eks-a-id_rsa"@,
{
    let mut r = working_file_text(cluster_name);
    r.append("/eks-a-id_rsa");
    r
}

/// Whether the YAML document `d` is of kind `Cluster`.
pub open spec fn is_cluster_document(d: DocView) -> bool {
    is_text(doc_get(d, "kind"@), "Cluster"@)
}

/// The message when the cluster's name cannot be found.
pub open spec fn no_cluster_name_message() -> Seq<char> {
    "Unable to determine the cluster name from the config file "@
}

/// The cluster's name: the `metadata.name` text of the first document of kind `Cluster`.
pub open spec fn cluster_name_spec(docs: Seq<DocView>) -> Option<Seq<char>> {
    match find_where(docs, |d: DocView| is_cluster_document(d)) {
        Some(d) => doc_text(opt_get(doc_get(d, "metadata"@), "name"@)),
        None => None,
    }
}

/// The cluster an EKS Anywhere configuration (base64-encoded YAML) describes, with the decoded
/// configuration, or the message for why it names none.
pub open spec fn config_cluster(encoded: Seq<char>) -> Result<(Seq<u8>, Seq<char>), Seq<char>> {
    match base64_decoding(encode_utf8(encoded)) {
        None => Err("Unable to decode eksctl configuration."@),
        Some(bytes) => match yaml_documents(bytes) {
            None => Err("Unable to deserialize eksa config file"@),
            Some(docs) => match cluster_name_spec(docs) {
                None => Err(no_cluster_name_message()),
                Some(name) => Ok((bytes, name)),
            },
        },
    }
}

impl MetalK8sClusterCreator {
    /// The cluster's name in the EKS Anywhere configuration `docs`: that of its first document of
    /// kind `Cluster`. Without such a document, or without a name in it, the error says so and
    /// nothing was created.
    pub fn cluster_name(&self, docs: &Vec<Doc>) -> (r: Result<String, ProviderError>)
        ensures
            match cluster_name_spec(doc_views(docs@)) {
                Some(n) => r matches Ok(s) && s@ == n,
                None => r matches Err(e) && e.resources == Resources::Clear && e.context@
                    == no_cluster_name_message(),
            },
    {
        let ghost views = doc_views(docs@);
        let ghost p = |d: DocView| is_cluster_document(d);
        let mut i: usize = 0;
        while i < docs.len()
            invariant
                0 <= i <= docs@.len(),
                views == doc_views(docs@),
                p == (|d: DocView| is_cluster_document(d)),
                forall|j: int| 0 <= j < i ==> !p(#[trigger] views[j]),
            decreases docs.len() - i,
        {
            let kind = docs[i].get("kind");
            let is_cluster = match kind {
                Some(k) => k.is_text("Cluster"),
                None => false,
            };
            assert(views[i as int] == docs@[i as int]@);
            if is_cluster {
                proof {
                    lemma_first_where_found(views, p, i as nat);
                }
                let name = match docs[i].get("metadata") {
                    Some(m) => match m.get("name") {
                        Some(n) => n.as_text(),
                        None => None,
                    },
                    None => None,
                };
                return match name {
                    Some(n) => Ok(n.clone()),
                    None => Err(
                        ProviderError::new_with_context(
                            Resources::Clear,
                            owned("Unable to determine the cluster name from the config file "),
                        ),
                    ),
                };
            }
            i = i + 1;
        }
        proof {
            lemma_first_where_none(views, p);
        }
        Err(
            ProviderError::new_with_context(
                Resources::Clear,
                owned("Unable to determine the cluster name from the config file "),
            ),
        )
    }

    /// Decodes the base64 EKS Anywhere configuration, reads its YAML documents and finds the
    /// cluster's name in them; the decoded configuration comes back with the name, to be written
    /// out for `eksctl anywhere`. Every failure leaves nothing behind.
    pub fn config_cluster_name(&self, cluster_config_base64: &str) -> (r: Result<
        (Vec<u8>, String),
        ProviderError,
    >)
        ensures
            match config_cluster(cluster_config_base64@) {
                Ok((bytes, name)) => r matches Ok((b, n)) && b@ == bytes && n@ == name,
                Err(m) => r matches Err(e) && e.resources == Resources::Clear && e.context@ == m,
            },
    {
        let decoded = match base64_decode(cluster_config_base64.as_bytes()) {
            Ok(b) => b,
            Err(_) => {
                return Err(
                    ProviderError::new_with_context(
                        Resources::Clear,
                        owned("Unable to decode eksctl configuration."),
                    ),
                );
            },
        };
        let docs = match parse_yaml_documents(decoded.as_slice()) {
            Some(d) => d,
            None => {
                return Err(
                    ProviderError::new_with_context(
                        Resources::Clear,
                        owned("Unable to deserialize eksa config file"),
                    ),
                );
            },
        };
        let name = self.cluster_name(&docs)?;
        Ok((decoded, name))
    }

    /// The arguments of `eksctl` that create the workload cluster with the management cluster.
    pub fn create_cluster_args(&self, mgmt_kubeconfig: &str, config: &str, hardware_csv: &str) -> (r:
        Vec<String>)
        ensures
            string_views(r@) == seq![
                "anywhere"@,
                "create"@,
                "cluster"@,
                "--kubeconfig"@,
                mgmt_kubeconfig@,
                "-f"@,
                config@,
                "--hardware-csv"@,
                hardware_csv@,
                "--skip-ip-check"@,
                "-v"@,
                "4"@,
            ],
    {
        let mut v: Vec<String> = Vec::new();
        push_text(&mut v, "anywhere");
        push_text(&mut v, "create");
        push_text(&mut v, "cluster");
        push_text(&mut v, "--kubeconfig");
        push_text(&mut v, mgmt_kubeconfig);
        push_text(&mut v, "-f");
        push_text(&mut v, config);
        push_text(&mut v, "--hardware-csv");
        push_text(&mut v, hardware_csv);
        push_text(&mut v, "--skip-ip-check");
        push_text(&mut v, "-v");
        push_text(&mut v, "4");
        v
    }

    /// The encoded custom user data, merged or replacing alike: on bare metal it is applied as
    /// settings on top of those the machines have.
    pub fn custom_settings_source(&self, custom: &Option<CustomUserData>) -> (r: Option<String>)
        ensures
            match custom {
                None => r is None,
                Some(CustomUserData::Replace { encoded_userdata }) => r matches Some(s) && s@
                    == encoded_userdata@,
                Some(CustomUserData::Merge { encoded_userdata }) => r matches Some(s) && s@
                    == encoded_userdata@,
            },
    {
        match custom {
            None => None,
            Some(CustomUserData::Replace { encoded_userdata }) => Some(encoded_userdata.clone()),
            Some(CustomUserData::Merge { encoded_userdata }) => Some(encoded_userdata.clone()),
        }
    }
}

/// The settings that enable the control container with the user data `userdata`.
pub open spec fn control_container_settings(userdata: Seq<char>) -> DocView {
    DocView::Mapping(
        seq![
            (
                DocView::Text("host-containers"@),
                DocView::Mapping(
                    seq![
                        (
                            DocView::Text("control"@),
                            DocView::Mapping(
                                seq![
                                    (DocView::Text("enabled"@), DocView::Bool(true)),
                                    (DocView::Text("user-data"@), DocView::Text(userdata)),
                                ],
                            ),
                        ),
                    ],
                ),
            ),
        ],
    )
}

/// The settings, as JSON text, that the custom user data (base64-encoded TOML) gives the
/// machines, or the message for why it gives none.
pub open spec fn custom_settings_of(encoded: Seq<char>) -> Result<Seq<char>, Seq<char>> {
    match base64_decoding(encode_utf8(encoded)) {
        None => Err("Unable to decode custom user data"@),
        Some(bytes) => match toml_json_read(bytes) {
            None => Err("Unable to deserialize custom userdata"@),
            Some(settings) => Ok(json_compact(settings)),
        },
    }
}

/// The encoded custom user data, merged or replacing alike.
pub open spec fn custom_encoded(custom: Option<CustomUserData>) -> Option<Seq<char>> {
    match custom {
        None => None,
        Some(CustomUserData::Replace { encoded_userdata }) => Some(encoded_userdata@),
        Some(CustomUserData::Merge { encoded_userdata }) => Some(encoded_userdata@),
    }
}

/// The arguments of `apiclient` that read a machine's settings.
pub open spec fn get_settings_args_spec() -> Seq<Seq<char>> {
    seq!["get"@, "settings"@]
}

/// The arguments of `apiclient` that apply the settings `json`.
pub open spec fn set_settings_args_spec(json: Seq<char>) -> Seq<Seq<char>> {
    seq!["set"@, "--json"@, json]
}

impl MetalK8sClusterCreator {
    /// The settings, as compact JSON, with which `apiclient set` enables the control container of
    /// a machine, `control_userdata` registering it with SSM.
    pub fn ssm_settings_json(&self, control_userdata: &str) -> (r: String)
        ensures
            r@ == json_compact(control_container_settings(control_userdata@)),
    {
        let mut control: Vec<(Doc, Doc)> = Vec::new();
        control.push((Doc::Text(owned("enabled")), Doc::Bool(true)));
        control.push((Doc::Text(owned("user-data")), Doc::Text(owned(control_userdata))));
        let control_doc = mapping_of(control);
        let ghost control_view = control_doc@;
        let mut containers: Vec<(Doc, Doc)> = Vec::new();
        containers.push((Doc::Text(owned("control")), control_doc));
        let containers_doc = mapping_of(containers);
        let ghost containers_view = containers_doc@;
        let mut top: Vec<(Doc, Doc)> = Vec::new();
        top.push((Doc::Text(owned("host-containers")), containers_doc));
        let settings = mapping_of(top);
        proof {
            assert(entry_views(control@) =~= seq![
                (DocView::Text("enabled"@), DocView::Bool(true)),
                (DocView::Text("user-data"@), DocView::Text(control_userdata@)),
            ]);
            assert(entry_views(containers@) =~= seq![(DocView::Text("control"@), control_view)]);
            assert(entry_views(top@) =~= seq![
                (DocView::Text("host-containers"@), containers_view),
            ]);
            assert(settings@ == control_container_settings(control_userdata@));
        }
        json_text(&settings)
    }

    /// The settings, as compact JSON, that the custom user data gives the machines: its TOML
    /// read as settings. None without custom user data.
    pub fn custom_settings_json(&self, custom: &Option<CustomUserData>, resources: Resources) -> (r:
        Result<Option<String>, ProviderError>)
        ensures
            match custom_encoded(*custom) {
                None => r matches Ok(None),
                Some(encoded) => match custom_settings_of(encoded) {
                    Ok(t) => r matches Ok(Some(s)) && s@ == t,
                    Err(m) => r matches Err(e) && e.resources == resources && e.context@ == m,
                },
            },
    {
        let encoded = match self.custom_settings_source(custom) {
            None => {
                return Ok(None);
            },
            Some(e) => e,
        };
        let bytes = match base64_decode(encoded.as_str().as_bytes()) {
            Ok(b) => b,
            Err(_) => {
                return Err(
                    ProviderError::new_with_context(
                        resources,
                        owned("Unable to decode custom user data"),
                    ),
                );
            },
        };
        match read_toml_as_json(bytes.as_slice()) {
            Some(settings) => Ok(Some(json_text(&settings))),
            None => Err(
                ProviderError::new_with_context(
                    resources,
                    owned("Unable to deserialize custom userdata"),
                ),
            ),
        }
    }

    /// The arguments with which `apiclient` reads a machine's settings.
    pub fn get_settings_args(&self) -> (r: Vec<String>)
        ensures
            string_views(r@) == get_settings_args_spec(),
    {
        let mut v: Vec<String> = Vec::new();
        push_text(&mut v, "get");
        push_text(&mut v, "settings");
        assert(string_views(v@) =~= get_settings_args_spec());
        v
    }

    /// The arguments with which `apiclient` applies the settings `json`.
    pub fn set_settings_args(&self, json: &str) -> (r: Vec<String>)
        ensures
            string_views(r@) == set_settings_args_spec(json@),
    {
        let mut v: Vec<String> = Vec::new();
        push_text(&mut v, "set");
        push_text(&mut v, "--json");
        push_text(&mut v, json);
        assert(string_views(v@) =~= set_settings_args_spec(json@));
        v
    }
}

/// An address of a node, as the node's status lists it.
#[derive(Clone, Debug)]
pub struct NodeAddress {
    pub address_type: String,
    pub address: String,
}

/// Whether `a` is an internal IP address.
pub open spec fn is_internal_ip(a: NodeAddress) -> bool {
    a.address_type@ == "InternalIP"@
}

/// The index of the first internal IP address in `addrs`, or their number.
pub open spec fn first_internal_ip(addrs: Seq<NodeAddress>) -> nat
    decreases addrs.len(),
{
    if addrs.len() == 0 {
        0
    } else if is_internal_ip(addrs[0]) {
        0
    } else {
        1 + first_internal_ip(addrs.drop_first())
    }
}

/// The internal IP of a node with the addresses `addrs`: the first one listed.
pub open spec fn internal_ip_of(addrs: Seq<NodeAddress>) -> Option<Seq<char>> {
    let i = first_internal_ip(addrs);
    if i < addrs.len() {
        Some(addrs[i as int].address@)
    } else {
        None
    }
}

/// Whether every node has an internal IP.
pub open spec fn all_have_internal_ip(nodes: Seq<Vec<NodeAddress>>) -> bool {
    forall|i: int| 0 <= i < nodes.len() ==> (#[trigger] internal_ip_of(nodes[i]@)) is Some
}

proof fn lemma_first_internal_ip(addrs: Seq<NodeAddress>, i: nat)
    requires
        i <= addrs.len(),
        forall|j: int| 0 <= j < i ==> !is_internal_ip(#[trigger] addrs[j]),
    ensures
        first_internal_ip(addrs) == i + first_internal_ip(addrs.subrange(i as int, addrs.len() as int)),
    decreases i,
{
    if i > 0 {
        assert(!is_internal_ip(addrs[0]));
        let rest = addrs.drop_first();
        assert forall|j: int| 0 <= j < i - 1 implies !is_internal_ip(#[trigger] rest[j]) by {
            assert(rest[j] == addrs[j + 1]);
        }
        lemma_first_internal_ip(rest, (i - 1) as nat);
        assert(rest.subrange(i - 1, rest.len() as int) =~= addrs.subrange(i as int, addrs.len() as int));
    } else {
        assert(addrs.subrange(0, addrs.len() as int) =~= addrs);
    }
}

fn internal_ip(addrs: &Vec<NodeAddress>) -> (r: Option<String>)
    ensures
        match internal_ip_of(addrs@) {
            Some(a) => r matches Some(s) && s@ == a,
            None => r is None,
        },
{
    let mut i: usize = 0;
    while i < addrs.len()
        invariant
            0 <= i <= addrs@.len(),
            forall|j: int| 0 <= j < i ==> !is_internal_ip(#[trigger] addrs@[j]),
        decreases addrs.len() - i,
    {
        if str_eq(addrs[i].address_type.as_str(), "InternalIP") {
            proof {
                lemma_first_internal_ip(addrs@, i as nat);
                let rest = addrs@.subrange(i as int, addrs@.len() as int);
                assert(rest[0] == addrs@[i as int]);
            }
            return Some(addrs[i].address.clone());
        }
        i = i + 1;
    }
    proof {
        lemma_first_internal_ip(addrs@, i as nat);
    }
    None
}

/// The internal IPs of the nodes, one per node in order; each node is given by the addresses its
/// status lists (none when it has no status). When a node has none, the error says so.
pub fn machine_ips(nodes: &Vec<Vec<NodeAddress>>, resources: Resources) -> (r: Result<
    Vec<String>,
    ProviderError,
>)
    ensures
        all_have_internal_ip(nodes@) ==> (r matches Ok(ips) && ips@.len() == nodes@.len() && forall|
            i: int,
        | 0 <= i < nodes@.len() ==> internal_ip_of(nodes@[i]@) == Some(#[trigger] ips@[i]@)),
        !all_have_internal_ip(nodes@) ==> (r matches Err(e) && e.resources == resources
            && e.context@ == "A node was missing an InternalIp address"@),
{
    let mut ips: Vec<String> = Vec::new();
    let mut i: usize = 0;
    while i < nodes.len()
        invariant
            0 <= i <= nodes@.len(),
            ips@.len() == i,
            forall|j: int| 0 <= j < i ==> internal_ip_of(nodes@[j]@) == Some(#[trigger] ips@[j]@),
        decreases nodes.len() - i,
    {
        match internal_ip(&nodes[i]) {
            Some(ip) => ips.push(ip),
            None => {
                return Err(
                    ProviderError::new_with_context(
                        resources,
                        owned("A node was missing an InternalIp address"),
                    ),
                );
            },
        }
        i = i + 1;
    }
    assert forall|j: int| 0 <= j < nodes@.len() implies (#[trigger] internal_ip_of(
        nodes@[j]@,
    )) is Some by {
        assert(internal_ip_of(nodes@[j]@) == Some(ips@[j]@));
    }
    Ok(ips)
}

impl MetalK8sClusterDestroyer {
    /// What remains when destruction fails: something, as soon as the memo records a machine or
    /// an activation.
    pub fn resources_situation(&self, instance_ids: &HashSet<String>, ssm_activation_id: &str) -> (r:
        Resources)
        ensures
            r == if !instance_ids@.is_empty() || ssm_activation_id@.len() > 0 {
                Resources::Remaining
            } else {
                Resources::Clear
            },
    {
        if !instance_ids.is_empty() || !ssm_activation_id.is_empty() {
            Resources::Remaining
        } else {
            Resources::Clear
        }
    }

    /// The cluster's name from the memo, or the error when the memo records none.
    pub fn recorded_cluster_name(&self, cluster_name: &Option<String>, resources: Resources) -> (r:
        Result<String, ProviderError>)
        ensures
            match cluster_name {
                Some(n) => r matches Ok(s) && s@ == n@,
                None => r matches Err(e) && e.resources == resources && e.context@
                    == "The cluster name was missing from this agents production memo"@,
            },
    {
        match cluster_name {
            Some(n) => Ok(n.clone()),
            None => Err(
                ProviderError::new_with_context(
                    resources,
                    owned("The cluster name was missing from this agents production memo"),
                ),
            ),
        }
    }

    /// The arguments of `eksctl` that delete the workload cluster.
    pub fn delete_cluster_args(&self, mgmt_kubeconfig: &str, config: &str, workload_kubeconfig: &str) -> (r:
        Vec<String>)
        ensures
            string_views(r@) == seq![
                "anywhere"@,
                "delete"@,
                "cluster"@,
                "--kubeconfig"@,
                mgmt_kubeconfig@,
                "-f"@,
                config@,
                "--w-config"@,
                workload_kubeconfig@,
                "-v"@,
                "4"@,
            ],
    {
        let mut v: Vec<String> = Vec::new();
        push_text(&mut v, "anywhere");
        push_text(&mut v, "delete");
        push_text(&mut v, "cluster");
        push_text(&mut v, "--kubeconfig");
        push_text(&mut v, mgmt_kubeconfig);
        push_text(&mut v, "-f");
        push_text(&mut v, config);
        push_text(&mut v, "--w-config");
        push_text(&mut v, workload_kubeconfig);
        push_text(&mut v, "-v");
        push_text(&mut v, "4");
        v
    }

    /// The arguments of `kubectl` that remove what EKS Anywhere left of the cluster's objects.
    pub fn cleanup_args(&self, mgmt_kubeconfig: &str, config: &str) -> (r: Vec<String>)
        ensures
            string_views(r@) == seq![
                "delete"@,
                "--kubeconfig"@,
                mgmt_kubeconfig@,
                "-f"@,
                config@,
                "--ignore-not-found"@,
            ],
    {
        let mut v: Vec<String> = Vec::new();
        push_text(&mut v, "delete");
        push_text(&mut v, "--kubeconfig");
        push_text(&mut v, mgmt_kubeconfig);
        push_text(&mut v, "-f");
        push_text(&mut v, config);
        push_string(&mut v, owned("--ignore-not-found"));
        v
    }
}

/// The bytes of the base64 text `encoded`, or the error `failure` that leaves `resources`.
fn decode_or_fail(encoded: &str, resources: Resources, failure: &str) -> (r: Result<
    Vec<u8>,
    ProviderError,
>)
    ensures
        r is Ok <==> base64_decoding(encode_utf8(encoded@)) is Some,
        r matches Ok(b) ==> base64_decoding(encode_utf8(encoded@)) == Some(b@),
        r matches Err(e) ==> e.resources == resources && e.context@ == failure@,
{
    match base64_decode(encoded.as_bytes()) {
        Ok(b) => Ok(b),
        Err(_) => Err(ProviderError::new_with_context(resources, owned(failure))),
    }
}

impl MetalK8sClusterCreator {
    /// The hardware description of the machines, decoded from its base64 text, for the file that
    /// `eksctl anywhere` reads; nothing exists yet when it cannot be decoded.
    pub fn decode_hardware_csv(&self, hardware_csv_base64: &str) -> (r: Result<Vec<u8>, ProviderError>)
        ensures
            r is Ok <==> base64_decoding(encode_utf8(hardware_csv_base64@)) is Some,
            r matches Ok(b) ==> base64_decoding(encode_utf8(hardware_csv_base64@)) == Some(b@),
            r matches Err(e) ==> e.resources == Resources::Clear && e.context@
                == "Unable to decode and write hardware requirements"@,
    {
        decode_or_fail(hardware_csv_base64, Resources::Clear, "Unable to decode and write hardware requirements")
    }

    /// The workload cluster's kubeconfig, decoded from the base64 text the management cluster
    /// holds; the cluster remains when it cannot be decoded.
    pub fn decode_workload_kubeconfig(&self, encoded_kubeconfig: &str) -> (r: Result<Vec<u8>, ProviderError>)
        ensures
            r is Ok <==> base64_decoding(encode_utf8(encoded_kubeconfig@)) is Some,
            r matches Ok(b) ==> base64_decoding(encode_utf8(encoded_kubeconfig@)) == Some(b@),
            r matches Err(e) ==> e.resources == Resources::Remaining && e.context@
                == "Unable to decode encoded workload cluster kubeconfig"@,
    {
        decode_or_fail(encoded_kubeconfig, Resources::Remaining, "Unable to decode encoded workload cluster kubeconfig")
    }
}

/// A step of the bare metal agent's creation of a cluster.
#[derive(Clone, Copy, Debug, PartialEq, Eq, Structural)]
pub enum MetalCreateStep {
    /// Read the memo from the controller.
    GetInfo,
    /// Send the memo with its new status to the controller.
    SendStatus,
    /// Make the AWS configuration.
    CreateAwsConfig,
    /// Make sure the SSM service role exists.
    EnsureSsmServiceRole,
    /// Create the working directory.
    CreateWorkingDir,
    /// Make the working directory the current one.
    EnterWorkingDir,
    /// Decode the hardware description of the machines (`decode_hardware_csv`) and write it.
    WriteHardwareCsv,
    /// Decode the EKS Anywhere configuration and find the cluster's name in it.
    ReadClusterConfig,
    /// Write the EKS Anywhere configuration.
    WriteClusterConfig,
    /// Write and check the management cluster's kubeconfig.
    ConnectMgmtCluster,
    /// Run `eksctl anywhere create cluster`.
    LaunchEksctl,
    /// Check that `eksctl` created the cluster.
    CheckEksctl,
    /// Get the workload cluster's kubeconfig from the management cluster.
    RetrieveKubeconfig,
    /// Decode the workload cluster's kubeconfig (`decode_workload_kubeconfig`).
    DecodeKubeconfig,
    /// Read the workload cluster's kubeconfig.
    ReadKubeconfig,
    /// Make a client configuration of the kubeconfig.
    LoadKubeconfig,
    /// Make the Kubernetes client of the workload cluster.
    CreateClient,
    /// List the workload cluster's nodes.
    ListNodes,
    /// Find the internal IP of each node.
    FindMachineIps,
    /// Create the SSM activation of the machines.
    CreateSsmActivation,
    /// Decode and read the custom user data as settings.
    ReadCustomSettings,
    /// Open an SSH session to a machine.
    ConnectMachine,
    /// Run `apiclient get settings` on the machine.
    GetSettings,
    /// Check that `apiclient get settings` succeeded.
    CheckGetSettings,
    /// Run `apiclient set` with the control container's SSM settings.
    SetSsmSettings,
    /// Check that the SSM settings were set.
    CheckSetSsmSettings,
    /// Run `apiclient set` with the custom settings, when there are any.
    SetCustomSettings,
    /// Check that the custom settings were set.
    CheckSetCustomSettings,
    /// Wait until the machine's SSM agent is registered.
    WaitForSsm,
    /// Read the SSM instance id of the machine.
    ReadSsmInstance,
    /// Send the memo with its new status, the AWS credentials secret and the role to assume.
    RecordCredentials,
    /// Send the memo with its new status and the cluster's name.
    RecordClusterName,
    /// Record the SSM activation in the memo.
    RecordActivation,
    /// Send the memo with its new status and the instance IDs of the registered machines.
    RecordInstances,
}

/// The bare metal creator's steps up to the machines: nothing is left behind until `eksctl` has run, and from then on the cluster remains.
pub open spec fn metal_create_plan_spec() -> Seq<PlannedStep<MetalCreateStep>> {
    seq![
        PlannedStep { step: MetalCreateStep::GetInfo, status: None, on_failure: Resources::Unknown, failure: Some("Unable to get info from info client"), wait_secs: None, fatal: true },
        PlannedStep { step: MetalCreateStep::SendStatus, status: Some("Initializing agent"), on_failure: Resources::Clear, failure: Some("Error sending cluster creation message"), wait_secs: None, fatal: true },
        PlannedStep { step: MetalCreateStep::CreateAwsConfig, status: None, on_failure: Resources::Clear, failure: Some("Error creating config"), wait_secs: None, fatal: true },
        PlannedStep { step: MetalCreateStep::RecordCredentials, status: Some("Checking SSM service role"), on_failure: Resources::Clear, failure: Some("Error sending cluster creation message"), wait_secs: None, fatal: true },
        PlannedStep { step: MetalCreateStep::EnsureSsmServiceRole, status: None, on_failure: Resources::Clear, failure: Some("Unable to check for SSM service role"), wait_secs: None, fatal: true },
        PlannedStep { step: MetalCreateStep::SendStatus, status: Some("Creating working directory"), on_failure: Resources::Clear, failure: Some("Error sending cluster creation message"), wait_secs: None, fatal: true },
        PlannedStep { step: MetalCreateStep::CreateWorkingDir, status: None, on_failure: Resources::Clear, failure: Some("Failed to create working directory '/local/eksa-work'"), wait_secs: None, fatal: true },
        PlannedStep { step: MetalCreateStep::EnterWorkingDir, status: None, on_failure: Resources::Clear, failure: Some("Failed to change current directory to /local/eksa-work"), wait_secs: None, fatal: true },
        PlannedStep { step: MetalCreateStep::WriteHardwareCsv, status: None, on_failure: Resources::Clear, failure: Some("Unable to decode and write hardware requirements"), wait_secs: None, fatal: true },
        PlannedStep { step: MetalCreateStep::ReadClusterConfig, status: None, on_failure: Resources::Clear, failure: None, wait_secs: None, fatal: true },
        PlannedStep { step: MetalCreateStep::WriteClusterConfig, status: None, on_failure: Resources::Clear, failure: Some("Unable to write EKS Anywhere configuration to '/local/eksa-work/cluster.yaml'"), wait_secs: None, fatal: true },
        PlannedStep { step: MetalCreateStep::RecordClusterName, status: Some("Creating cluster"), on_failure: Resources::Clear, failure: Some("Error sending cluster creation message"), wait_secs: None, fatal: true },
        PlannedStep { step: MetalCreateStep::ConnectMgmtCluster, status: None, on_failure: Resources::Clear, failure: None, wait_secs: None, fatal: true },
        PlannedStep { step: MetalCreateStep::LaunchEksctl, status: None, on_failure: Resources::Clear, failure: Some("Failed to launch eksctl process"), wait_secs: None, fatal: true },
        PlannedStep { step: MetalCreateStep::CheckEksctl, status: None, on_failure: Resources::Remaining, failure: None, wait_secs: None, fatal: true },
        PlannedStep { step: MetalCreateStep::RetrieveKubeconfig, status: None, on_failure: Resources::Remaining, failure: None, wait_secs: None, fatal: true },
        PlannedStep { step: MetalCreateStep::SendStatus, status: Some("Getting node ips"), on_failure: Resources::Remaining, failure: Some("Error sending final creation message"), wait_secs: None, fatal: true },
        PlannedStep { step: MetalCreateStep::DecodeKubeconfig, status: None, on_failure: Resources::Remaining, failure: Some("Unable to decode encoded workload cluster kubeconfig"), wait_secs: None, fatal: true },
        PlannedStep { step: MetalCreateStep::ReadKubeconfig, status: None, on_failure: Resources::Remaining, failure: Some("Unable to create workload kubeconfig from encoded config"), wait_secs: None, fatal: true },
        PlannedStep { step: MetalCreateStep::LoadKubeconfig, status: None, on_failure: Resources::Remaining, failure: Some("Unable to create `Config` from `Kubeconfig`"), wait_secs: None, fatal: true },
        PlannedStep { step: MetalCreateStep::CreateClient, status: None, on_failure: Resources::Remaining, failure: Some("Unable create K8s client from kubeconfig"), wait_secs: None, fatal: true },
        PlannedStep { step: MetalCreateStep::ListNodes, status: None, on_failure: Resources::Remaining, failure: Some("Unable to list nodes from workload cluster"), wait_secs: None, fatal: true },
        PlannedStep { step: MetalCreateStep::FindMachineIps, status: None, on_failure: Resources::Remaining, failure: Some("A node was missing an InternalIp address"), wait_secs: None, fatal: true },
        PlannedStep { step: MetalCreateStep::CreateSsmActivation, status: None, on_failure: Resources::Remaining, failure: Some("Unable to create SSM activation"), wait_secs: None, fatal: true },
        PlannedStep { step: MetalCreateStep::RecordActivation, status: None, on_failure: Resources::Remaining, failure: None, wait_secs: None, fatal: true },
        PlannedStep { step: MetalCreateStep::ReadCustomSettings, status: None, on_failure: Resources::Remaining, failure: None, wait_secs: None, fatal: true },
    ]
}

/// The bare metal creator's steps up to the machines: nothing is left behind until `eksctl` has run, and from then on the cluster remains.
pub fn metal_create_plan() -> (r: Vec<PlannedStep<MetalCreateStep>>)
    ensures
        r@ == metal_create_plan_spec(),
{
    let mut v: Vec<PlannedStep<MetalCreateStep>> = Vec::new();
    v.push(PlannedStep { step: MetalCreateStep::GetInfo, status: None, on_failure: Resources::Unknown, failure: Some("Unable to get info from info client"), wait_secs: None, fatal: true });
    v.push(PlannedStep { step: MetalCreateStep::SendStatus, status: Some("Initializing agent"), on_failure: Resources::Clear, failure: Some("Error sending cluster creation message"), wait_secs: None, fatal: true });
    v.push(PlannedStep { step: MetalCreateStep::CreateAwsConfig, status: None, on_failure: Resources::Clear, failure: Some("Error creating config"), wait_secs: None, fatal: true });
    v.push(PlannedStep { step: MetalCreateStep::RecordCredentials, status: Some("Checking SSM service role"), on_failure: Resources::Clear, failure: Some("Error sending cluster creation message"), wait_secs: None, fatal: true });
    v.push(PlannedStep { step: MetalCreateStep::EnsureSsmServiceRole, status: None, on_failure: Resources::Clear, failure: Some("Unable to check for SSM service role"), wait_secs: None, fatal: true });
    v.push(PlannedStep { step: MetalCreateStep::SendStatus, status: Some("Creating working directory"), on_failure: Resources::Clear, failure: Some("Error sending cluster creation message"), wait_secs: None, fatal: true });
    v.push(PlannedStep { step: MetalCreateStep::CreateWorkingDir, status: None, on_failure: Resources::Clear, failure: Some("Failed to create working directory '/local/eksa-work'"), wait_secs: None, fatal: true });
    v.push(PlannedStep { step: MetalCreateStep::EnterWorkingDir, status: None, on_failure: Resources::Clear, failure: Some("Failed to change current directory to /local/eksa-work"), wait_secs: None, fatal: true });
    v.push(PlannedStep { step: MetalCreateStep::WriteHardwareCsv, status: None, on_failure: Resources::Clear, failure: Some("Unable to decode and write hardware requirements"), wait_secs: None, fatal: true });
    v.push(PlannedStep { step: MetalCreateStep::ReadClusterConfig, status: None, on_failure: Resources::Clear, failure: None, wait_secs: None, fatal: true });
    v.push(PlannedStep { step: MetalCreateStep::WriteClusterConfig, status: None, on_failure: Resources::Clear, failure: Some("Unable to write EKS Anywhere configuration to '/local/eksa-work/cluster.yaml'"), wait_secs: None, fatal: true });
    v.push(PlannedStep { step: MetalCreateStep::RecordClusterName, status: Some("Creating cluster"), on_failure: Resources::Clear, failure: Some("Error sending cluster creation message"), wait_secs: None, fatal: true });
    v.push(PlannedStep { step: MetalCreateStep::ConnectMgmtCluster, status: None, on_failure: Resources::Clear, failure: None, wait_secs: None, fatal: true });
    v.push(PlannedStep { step: MetalCreateStep::LaunchEksctl, status: None, on_failure: Resources::Clear, failure: Some("Failed to launch eksctl process"), wait_secs: None, fatal: true });
    v.push(PlannedStep { step: MetalCreateStep::CheckEksctl, status: None, on_failure: Resources::Remaining, failure: None, wait_secs: None, fatal: true });
    v.push(PlannedStep { step: MetalCreateStep::RetrieveKubeconfig, status: None, on_failure: Resources::Remaining, failure: None, wait_secs: None, fatal: true });
    v.push(PlannedStep { step: MetalCreateStep::SendStatus, status: Some("Getting node ips"), on_failure: Resources::Remaining, failure: Some("Error sending final creation message"), wait_secs: None, fatal: true });
    v.push(PlannedStep { step: MetalCreateStep::DecodeKubeconfig, status: None, on_failure: Resources::Remaining, failure: Some("Unable to decode encoded workload cluster kubeconfig"), wait_secs: None, fatal: true });
    v.push(PlannedStep { step: MetalCreateStep::ReadKubeconfig, status: None, on_failure: Resources::Remaining, failure: Some("Unable to create workload kubeconfig from encoded config"), wait_secs: None, fatal: true });
    v.push(PlannedStep { step: MetalCreateStep::LoadKubeconfig, status: None, on_failure: Resources::Remaining, failure: Some("Unable to create `Config` from `Kubeconfig`"), wait_secs: None, fatal: true });
    v.push(PlannedStep { step: MetalCreateStep::CreateClient, status: None, on_failure: Resources::Remaining, failure: Some("Unable create K8s client from kubeconfig"), wait_secs: None, fatal: true });
    v.push(PlannedStep { step: MetalCreateStep::ListNodes, status: None, on_failure: Resources::Remaining, failure: Some("Unable to list nodes from workload cluster"), wait_secs: None, fatal: true });
    v.push(PlannedStep { step: MetalCreateStep::FindMachineIps, status: None, on_failure: Resources::Remaining, failure: Some("A node was missing an InternalIp address"), wait_secs: None, fatal: true });
    v.push(PlannedStep { step: MetalCreateStep::CreateSsmActivation, status: None, on_failure: Resources::Remaining, failure: Some("Unable to create SSM activation"), wait_secs: None, fatal: true });
    v.push(PlannedStep { step: MetalCreateStep::RecordActivation, status: None, on_failure: Resources::Remaining, failure: None, wait_secs: None, fatal: true });
    v.push(PlannedStep { step: MetalCreateStep::ReadCustomSettings, status: None, on_failure: Resources::Remaining, failure: None, wait_secs: None, fatal: true });
    assert(v@ =~= metal_create_plan_spec());
    v
}

/// The steps the bare metal creator takes on each machine, to register it with SSM: the SSH connection waits 5 seconds at most, the SSM registration 60 seconds.
pub open spec fn metal_machine_plan_spec() -> Seq<PlannedStep<MetalCreateStep>> {
    seq![
        PlannedStep { step: MetalCreateStep::ConnectMachine, status: None, on_failure: Resources::Remaining, failure: None, wait_secs: Some(5u64), fatal: true },
        PlannedStep { step: MetalCreateStep::GetSettings, status: None, on_failure: Resources::Remaining, failure: Some("Unable to call `apiclient get settings`"), wait_secs: None, fatal: true },
        PlannedStep { step: MetalCreateStep::CheckGetSettings, status: None, on_failure: Resources::Remaining, failure: None, wait_secs: None, fatal: true },
        PlannedStep { step: MetalCreateStep::SetSsmSettings, status: None, on_failure: Resources::Remaining, failure: Some("Unable to call `apiclient set`"), wait_secs: None, fatal: true },
        PlannedStep { step: MetalCreateStep::CheckSetSsmSettings, status: None, on_failure: Resources::Remaining, failure: None, wait_secs: None, fatal: true },
        PlannedStep { step: MetalCreateStep::SetCustomSettings, status: None, on_failure: Resources::Remaining, failure: Some("Unable to call `apiclient set`"), wait_secs: None, fatal: true },
        PlannedStep { step: MetalCreateStep::CheckSetCustomSettings, status: None, on_failure: Resources::Remaining, failure: None, wait_secs: None, fatal: true },
        PlannedStep { step: MetalCreateStep::WaitForSsm, status: None, on_failure: Resources::Remaining, failure: None, wait_secs: Some(60u64), fatal: true },
        PlannedStep { step: MetalCreateStep::ReadSsmInstance, status: None, on_failure: Resources::Remaining, failure: None, wait_secs: None, fatal: true },
    ]
}

/// The steps the bare metal creator takes on each machine, to register it with SSM: the SSH connection waits 5 seconds at most, the SSM registration 60 seconds.
pub fn metal_machine_plan() -> (r: Vec<PlannedStep<MetalCreateStep>>)
    ensures
        r@ == metal_machine_plan_spec(),
{
    let mut v: Vec<PlannedStep<MetalCreateStep>> = Vec::new();
    v.push(PlannedStep { step: MetalCreateStep::ConnectMachine, status: None, on_failure: Resources::Remaining, failure: None, wait_secs: Some(5u64), fatal: true });
    v.push(PlannedStep { step: MetalCreateStep::GetSettings, status: None, on_failure: Resources::Remaining, failure: Some("Unable to call `apiclient get settings`"), wait_secs: None, fatal: true });
    v.push(PlannedStep { step: MetalCreateStep::CheckGetSettings, status: None, on_failure: Resources::Remaining, failure: None, wait_secs: None, fatal: true });
    v.push(PlannedStep { step: MetalCreateStep::SetSsmSettings, status: None, on_failure: Resources::Remaining, failure: Some("Unable to call `apiclient set`"), wait_secs: None, fatal: true });
    v.push(PlannedStep { step: MetalCreateStep::CheckSetSsmSettings, status: None, on_failure: Resources::Remaining, failure: None, wait_secs: None, fatal: true });
    v.push(PlannedStep { step: MetalCreateStep::SetCustomSettings, status: None, on_failure: Resources::Remaining, failure: Some("Unable to call `apiclient set`"), wait_secs: None, fatal: true });
    v.push(PlannedStep { step: MetalCreateStep::CheckSetCustomSettings, status: None, on_failure: Resources::Remaining, failure: None, wait_secs: None, fatal: true });
    v.push(PlannedStep { step: MetalCreateStep::WaitForSsm, status: None, on_failure: Resources::Remaining, failure: None, wait_secs: Some(60u64), fatal: true });
    v.push(PlannedStep { step: MetalCreateStep::ReadSsmInstance, status: None, on_failure: Resources::Remaining, failure: None, wait_secs: None, fatal: true });
    assert(v@ =~= metal_machine_plan_spec());
    v
}

/// The bare metal creator's last step, once every machine is registered.
pub open spec fn metal_created_plan_spec() -> Seq<PlannedStep<MetalCreateStep>> {
    seq![
        PlannedStep { step: MetalCreateStep::RecordInstances, status: Some("Cluster created"), on_failure: Resources::Remaining, failure: Some("Error sending final creation message"), wait_secs: None, fatal: true },
    ]
}

/// The bare metal creator's last step, once every machine is registered.
pub fn metal_created_plan() -> (r: Vec<PlannedStep<MetalCreateStep>>)
    ensures
        r@ == metal_created_plan_spec(),
{
    let mut v: Vec<PlannedStep<MetalCreateStep>> = Vec::new();
    v.push(PlannedStep { step: MetalCreateStep::RecordInstances, status: Some("Cluster created"), on_failure: Resources::Remaining, failure: Some("Error sending final creation message"), wait_secs: None, fatal: true });
    assert(v@ =~= metal_created_plan_spec());
    v
}


/// The bare metal agent's memo: what it reports while it creates, and what the destroyer reads.
#[derive(Debug, Default)]
pub struct MetalMemo {
    pub current_status: String,
    /// The SSM activation of the machines.
    pub ssm_activation_id: String,
    /// The name of the secret holding the AWS credentials.
    pub aws_secret_name: Option<String>,
    /// The role that is assumed.
    pub assume_role: Option<String>,
    /// The instance IDs of the machines this agent registered.
    pub instance_ids: Vec<String>,
    /// The name of the cluster.
    pub cluster_name: Option<String>,
}

/// The bare metal memo as plain values.
pub struct MetalMemoView {
    pub current_status: Seq<char>,
    pub ssm_activation_id: Seq<char>,
    pub aws_secret_name: Option<Seq<char>>,
    pub assume_role: Option<Seq<char>>,
    pub instance_ids: Seq<Seq<char>>,
    pub cluster_name: Option<Seq<char>>,
}

impl View for MetalMemo {
    type V = MetalMemoView;

    open spec fn view(&self) -> MetalMemoView {
        MetalMemoView {
            current_status: self.current_status@,
            ssm_activation_id: self.ssm_activation_id@,
            aws_secret_name: opt_text(self.aws_secret_name),
            assume_role: opt_text(self.assume_role),
            instance_ids: string_views(self.instance_ids@),
            cluster_name: opt_text(self.cluster_name),
        }
    }
}

/// What the bare metal creator has learned by the time it records it.
#[derive(Debug)]
pub struct MetalCreateFacts {
    pub aws_secret_name: Option<String>,
    pub assume_role: Option<String>,
    pub cluster_name: String,
    pub ssm_activation_id: String,
    /// The instance IDs of the machines registered so far.
    pub instance_ids: Vec<String>,
}

/// The memo after the creator's step `p`, from `m`: a step with a status reports it, and the
/// recording steps add what they record.
pub open spec fn metal_memo_sent(m: MetalMemoView, p: PlannedStep<MetalCreateStep>, f: MetalCreateFacts) -> MetalMemoView {
    let m = match p.status {
        Some(s) => MetalMemoView { current_status: s@, ..m },
        None => m,
    };
    match p.step {
        MetalCreateStep::RecordCredentials => MetalMemoView {
            aws_secret_name: opt_text(f.aws_secret_name),
            assume_role: opt_text(f.assume_role),
            ..m
        },
        MetalCreateStep::RecordClusterName => MetalMemoView { cluster_name: Some(f.cluster_name@), ..m },
        MetalCreateStep::RecordActivation => MetalMemoView { ssm_activation_id: f.ssm_activation_id@, ..m },
        MetalCreateStep::RecordInstances => MetalMemoView {
            instance_ids: string_views(f.instance_ids@),
            ..m
        },
        _ => m,
    }
}

/// The creator's memo once `steps` have run, from `m`.
pub open spec fn metal_memo_after(m: MetalMemoView, steps: Seq<PlannedStep<MetalCreateStep>>, f: MetalCreateFacts) -> MetalMemoView {
    memo_after(
        m,
        steps,
        f,
        |m: MetalMemoView, p: PlannedStep<MetalCreateStep>, f: MetalCreateFacts| metal_memo_sent(m, p, f),
    )
}

fn copy_strings(v: &Vec<String>) -> (r: Vec<String>)
    ensures
        r@ == v@,
{
    let mut out: Vec<String> = Vec::new();
    let mut i: usize = 0;
    while i < v.len()
        invariant
            i <= v@.len(),
            out@ == v@.take(i as int),
        decreases v.len() - i,
    {
        out.push(v[i].clone());
        assert(v@.take(i + 1) =~= v@.take(i as int).push(v@[i as int]));
        i = i + 1;
    }
    assert(v@.take(i as int) =~= v@);
    out
}

fn copy_opt_text(o: &Option<String>) -> (r: Option<String>)
    ensures
        r == *o,
{
    match o {
        Some(s) => Some(s.clone()),
        None => None,
    }
}

impl MetalK8sClusterCreator {
    /// Makes `memo` the memo after the step `step`, from what the creator has learned.
    pub fn update_memo(&self, memo: &mut MetalMemo, step: &PlannedStep<MetalCreateStep>, facts: &MetalCreateFacts)
        ensures
            final(memo)@ == metal_memo_sent(old(memo)@, *step, *facts),
    {
        match step.status {
            Some(s) => {
                memo.current_status = owned(s);
            },
            None => {},
        }
        match step.step {
            MetalCreateStep::RecordCredentials => {
                memo.aws_secret_name = copy_opt_text(&facts.aws_secret_name);
                memo.assume_role = copy_opt_text(&facts.assume_role);
            },
            MetalCreateStep::RecordClusterName => {
                memo.cluster_name = Some(facts.cluster_name.clone());
            },
            MetalCreateStep::RecordActivation => {
                memo.ssm_activation_id = facts.ssm_activation_id.clone();
            },
            MetalCreateStep::RecordInstances => {
                memo.instance_ids = copy_strings(&facts.instance_ids);
            },
            _ => {},
        }
    }
}

/// The cluster is named in the memo before `eksctl anywhere create cluster` runs: the only
/// `LaunchEksctl` step of the creator's plan comes after the step that records the cluster's
/// name, and the memo at that point names the cluster, whatever memo the creator began with.
pub proof fn lemma_cluster_named_before_eksctl(memo: MetalMemoView, facts: MetalCreateFacts)
    ensures
        metal_create_plan_spec()[13].step == MetalCreateStep::LaunchEksctl,
        metal_create_plan_spec()[11].step == MetalCreateStep::RecordClusterName,
        forall|i: int| 0 <= i < metal_create_plan_spec().len()
            && #[trigger] metal_create_plan_spec()[i].step == MetalCreateStep::LaunchEksctl ==> i == 13,
        metal_memo_after(memo, metal_create_plan_spec().take(13), facts).cluster_name == Some(
            facts.cluster_name@,
        ),
{
    let plan = metal_create_plan_spec();
    assert(plan.take(13).drop_last() =~= plan.take(12));
    assert(plan.take(12).drop_last() =~= plan.take(11));
    assert(plan.take(13).last() == plan[12]);
    assert(plan.take(12).last() == plan[11]);
    let sent = |m: MetalMemoView, p: PlannedStep<MetalCreateStep>, f: MetalCreateFacts| metal_memo_sent(m, p, f);
    let m11 = memo_after(memo, plan.take(11), facts, sent);
    let m12 = memo_after(memo, plan.take(12), facts, sent);
    assert(m12 == sent(m11, plan[11], facts));
    assert(m12.cluster_name == Some(facts.cluster_name@));
    assert(memo_after(memo, plan.take(13), facts, sent) == sent(m12, plan[12], facts));
    assert forall|i: int| 0 <= i < plan.len() && #[trigger] plan[i].step == MetalCreateStep::LaunchEksctl
        implies i == 13 by {
        if i != 13 {
            assert(plan[i].step != MetalCreateStep::LaunchEksctl);
        }
    }
}

/// The creator's last memo holds the instance IDs of every machine it registered, with the status
/// that the cluster is created, whatever came before.
pub proof fn lemma_created_memo_holds_instances(
    memo: MetalMemoView,
    before: Seq<PlannedStep<MetalCreateStep>>,
    facts: MetalCreateFacts,
)
    ensures
        metal_memo_after(memo, before + metal_created_plan_spec(), facts).instance_ids
            == string_views(facts.instance_ids@),
        metal_memo_after(memo, before + metal_created_plan_spec(), facts).current_status
            == "Cluster created"@,
{
    let plan = before + metal_created_plan_spec();
    assert(plan.last() == metal_created_plan_spec()[0]);
}

/// A step of the bare metal agent's deletion of a cluster.
#[derive(Clone, Copy, Debug, PartialEq, Eq, Structural)]
pub enum MetalDestroyStep {
    /// Read the memo from the controller.
    GetInfo,
    /// Read the cluster's name from the memo.
    ReadClusterName,
    /// Make the AWS configuration.
    CreateAwsConfig,
    /// Create the working directory.
    CreateWorkingDir,
    /// Make the working directory the current one.
    EnterWorkingDir,
    /// Take the configuration from the spec.
    ReadSpec,
    /// Decode and write the management cluster's kubeconfig.
    WriteMgmtKubeconfig,
    /// Decode and write the EKS Anywhere configuration.
    WriteClusterConfig,
    /// Take the workload cluster's kubeconfig from the created resource.
    ReadCreatedResource,
    /// Decode and write the workload cluster's kubeconfig.
    WriteWorkloadKubeconfig,
    /// Send the memo with its new status to the controller.
    SendStatus,
    /// Run `eksctl anywhere delete cluster`.
    LaunchEksctl,
    /// Check that `eksctl` deleted the cluster.
    CheckEksctl,
    /// Run `kubectl delete` on what EKS Anywhere left in the management cluster.
    LaunchCleanup,
    /// Check that the leftovers were deleted.
    CheckCleanup,
    /// Deregister one machine from SSM.
    DeregisterMachine,
    /// Send the memo, its machines gone, to the controller.
    SendFinalStatus,
}

/// The bare metal destroyer's steps up to the deregistration of the machines; a failure leaves behind what the memo records (`resources`, from `resources_situation`).
pub open spec fn metal_destroy_plan_spec(resources: Resources) -> Seq<PlannedStep<MetalDestroyStep>> {
    seq![
        PlannedStep { step: MetalDestroyStep::GetInfo, status: None, on_failure: Resources::Unknown, failure: Some("Unable to get info from client"), wait_secs: None, fatal: true },
        PlannedStep { step: MetalDestroyStep::ReadClusterName, status: None, on_failure: resources, failure: Some("The cluster name was missing from this agents production memo"), wait_secs: None, fatal: true },
        PlannedStep { step: MetalDestroyStep::CreateAwsConfig, status: None, on_failure: Resources::Clear, failure: Some("Error creating config"), wait_secs: None, fatal: true },
        PlannedStep { step: MetalDestroyStep::CreateWorkingDir, status: None, on_failure: resources, failure: Some("Failed to create working directory '/local/eksa-work'"), wait_secs: None, fatal: true },
        PlannedStep { step: MetalDestroyStep::EnterWorkingDir, status: None, on_failure: resources, failure: Some("Failed to change current directory to /local/eksa-work"), wait_secs: None, fatal: true },
        PlannedStep { step: MetalDestroyStep::ReadSpec, status: None, on_failure: resources, failure: Some("The spec was not provided for destruction"), wait_secs: None, fatal: true },
        PlannedStep { step: MetalDestroyStep::WriteMgmtKubeconfig, status: None, on_failure: resources, failure: Some("Unable to decode and write hardware requirements"), wait_secs: None, fatal: true },
        PlannedStep { step: MetalDestroyStep::WriteClusterConfig, status: None, on_failure: resources, failure: Some("Unable to decode and write hardware requirements"), wait_secs: None, fatal: true },
        PlannedStep { step: MetalDestroyStep::ReadCreatedResource, status: None, on_failure: resources, failure: Some("The created resource was not provided for destruction"), wait_secs: None, fatal: true },
        PlannedStep { step: MetalDestroyStep::WriteWorkloadKubeconfig, status: None, on_failure: resources, failure: Some("Unable to decode and write hardware requirements"), wait_secs: None, fatal: true },
        PlannedStep { step: MetalDestroyStep::SendStatus, status: Some("Deleting cluster"), on_failure: resources, failure: Some("Error sending cluster creation message"), wait_secs: None, fatal: true },
        PlannedStep { step: MetalDestroyStep::LaunchEksctl, status: None, on_failure: resources, failure: Some("Failed to launch eksctl process"), wait_secs: None, fatal: true },
        PlannedStep { step: MetalDestroyStep::CheckEksctl, status: None, on_failure: resources, failure: None, wait_secs: None, fatal: true },
        PlannedStep { step: MetalDestroyStep::LaunchCleanup, status: None, on_failure: resources, failure: Some("Failed to launch eksctl process"), wait_secs: None, fatal: true },
        PlannedStep { step: MetalDestroyStep::CheckCleanup, status: None, on_failure: resources, failure: None, wait_secs: None, fatal: true },
    ]
}

/// The bare metal destroyer's steps up to the deregistration of the machines; a failure leaves behind what the memo records (`resources`, from `resources_situation`).
pub fn metal_destroy_plan(resources: Resources) -> (r: Vec<PlannedStep<MetalDestroyStep>>)
    ensures
        r@ == metal_destroy_plan_spec(resources),
{
    let mut v: Vec<PlannedStep<MetalDestroyStep>> = Vec::new();
    v.push(PlannedStep { step: MetalDestroyStep::GetInfo, status: None, on_failure: Resources::Unknown, failure: Some("Unable to get info from client"), wait_secs: None, fatal: true });
    v.push(PlannedStep { step: MetalDestroyStep::ReadClusterName, status: None, on_failure: resources, failure: Some("The cluster name was missing from this agents production memo"), wait_secs: None, fatal: true });
    v.push(PlannedStep { step: MetalDestroyStep::CreateAwsConfig, status: None, on_failure: Resources::Clear, failure: Some("Error creating config"), wait_secs: None, fatal: true });
    v.push(PlannedStep { step: MetalDestroyStep::CreateWorkingDir, status: None, on_failure: resources, failure: Some("Failed to create working directory '/local/eksa-work'"), wait_secs: None, fatal: true });
    v.push(PlannedStep { step: MetalDestroyStep::EnterWorkingDir, status: None, on_failure: resources, failure: Some("Failed to change current directory to /local/eksa-work"), wait_secs: None, fatal: true });
    v.push(PlannedStep { step: MetalDestroyStep::ReadSpec, status: None, on_failure: resources, failure: Some("The spec was not provided for destruction"), wait_secs: None, fatal: true });
    v.push(PlannedStep { step: MetalDestroyStep::WriteMgmtKubeconfig, status: None, on_failure: resources, failure: Some("Unable to decode and write hardware requirements"), wait_secs: None, fatal: true });
    v.push(PlannedStep { step: MetalDestroyStep::WriteClusterConfig, status: None, on_failure: resources, failure: Some("Unable to decode and write hardware requirements"), wait_secs: None, fatal: true });
    v.push(PlannedStep { step: MetalDestroyStep::ReadCreatedResource, status: None, on_failure: resources, failure: Some("The created resource was not provided for destruction"), wait_secs: None, fatal: true });
    v.push(PlannedStep { step: MetalDestroyStep::WriteWorkloadKubeconfig, status: None, on_failure: resources, failure: Some("Unable to decode and write hardware requirements"), wait_secs: None, fatal: true });
    v.push(PlannedStep { step: MetalDestroyStep::SendStatus, status: Some("Deleting cluster"), on_failure: resources, failure: Some("Error sending cluster creation message"), wait_secs: None, fatal: true });
    v.push(PlannedStep { step: MetalDestroyStep::LaunchEksctl, status: None, on_failure: resources, failure: Some("Failed to launch eksctl process"), wait_secs: None, fatal: true });
    v.push(PlannedStep { step: MetalDestroyStep::CheckEksctl, status: None, on_failure: resources, failure: None, wait_secs: None, fatal: true });
    v.push(PlannedStep { step: MetalDestroyStep::LaunchCleanup, status: None, on_failure: resources, failure: Some("Failed to launch eksctl process"), wait_secs: None, fatal: true });
    v.push(PlannedStep { step: MetalDestroyStep::CheckCleanup, status: None, on_failure: resources, failure: None, wait_secs: None, fatal: true });
    assert(v@ =~= metal_destroy_plan_spec(resources));
    v
}

/// The step the bare metal destroyer takes for each machine the memo records.
pub open spec fn metal_deregister_plan_spec(resources: Resources) -> Seq<PlannedStep<MetalDestroyStep>> {
    seq![
        PlannedStep { step: MetalDestroyStep::DeregisterMachine, status: None, on_failure: resources, failure: None, wait_secs: None, fatal: true },
    ]
}

/// The step the bare metal destroyer takes for each machine the memo records.
pub fn metal_deregister_plan(resources: Resources) -> (r: Vec<PlannedStep<MetalDestroyStep>>)
    ensures
        r@ == metal_deregister_plan_spec(resources),
{
    let mut v: Vec<PlannedStep<MetalDestroyStep>> = Vec::new();
    v.push(PlannedStep { step: MetalDestroyStep::DeregisterMachine, status: None, on_failure: resources, failure: None, wait_secs: None, fatal: true });
    assert(v@ =~= metal_deregister_plan_spec(resources));
    v
}

/// The bare metal destroyer's last step: with the machines deregistered, nothing is left.
pub open spec fn metal_destroyed_plan_spec() -> Seq<PlannedStep<MetalDestroyStep>> {
    seq![
        PlannedStep { step: MetalDestroyStep::SendFinalStatus, status: Some("Cluster deleted"), on_failure: Resources::Clear, failure: Some("Error sending final destruction message"), wait_secs: None, fatal: true },
    ]
}

/// The bare metal destroyer's last step: with the machines deregistered, nothing is left.
pub fn metal_destroyed_plan() -> (r: Vec<PlannedStep<MetalDestroyStep>>)
    ensures
        r@ == metal_destroyed_plan_spec(),
{
    let mut v: Vec<PlannedStep<MetalDestroyStep>> = Vec::new();
    v.push(PlannedStep { step: MetalDestroyStep::SendFinalStatus, status: Some("Cluster deleted"), on_failure: Resources::Clear, failure: Some("Error sending final destruction message"), wait_secs: None, fatal: true });
    assert(v@ =~= metal_destroyed_plan_spec());
    v
}

} // verus!
