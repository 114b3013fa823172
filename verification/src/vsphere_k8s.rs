//! What the vSphere Kubernetes cluster resource agent decides: whether it creates the cluster or
//! uses an existing one, how it names and tags the VM template, the EKS Anywhere cluster spec it
//! writes, and where it puts the files the deletion needs.

use crate::agent_config::{CreationPolicy, TufRepoConfig};
use crate::document::{
    doc_get, doc_text, entry_views, json_document, json_pretty, json_pretty_text, key_position,
    lemma_entries_view, mapping_of, opt_doc_view, parse_json, replaced, Doc, DocView,
};
use crate::vsphere_vm::{network_mapped, with_network_mapping};
use crate::k8s_version::{default_version_view, major_minor_without_v_text, K8sVersion};
use crate::plan::PlannedStep;
use crate::provider::{ProviderError, Resources};
use crate::text::{
    decimal, owned, push_decimal, push_string, replace_char, replace_char_text, string_views,
    trim_end_char, trim_end_char_text,
};
use crate::eks::opt_text;
use vstd::prelude::*;

verus! {

/// The directory in which EKS Anywhere runs.
pub const WORKING_DIR: &'static str = "/local/eksa-work";

/// The number of EKS-D release tags put on the VM template: releases `1` up to this, excluded.
pub const EKSD_RELEASE_END: u32 = 50;

/// The configuration of the vSphere Kubernetes cluster agent.
#[derive(Clone, Debug)]
pub struct VSphereK8sClusterConfig {
    /// The name of the cluster.
    pub name: String,
    /// The IP of the control plane endpoint.
    pub control_plane_endpoint_ip: String,
    /// The creation policy; `None` means the default one.
    pub creation_policy: Option<CreationPolicy>,
    /// The Kubernetes version of the cluster.
    pub version: Option<K8sVersion>,
    /// The name of the OVA file of the control plane nodes.
    pub ova_name: String,
    /// Where the OVA can be found.
    pub tuf_repo: TufRepoConfig,
    /// URL of the vCenter instance to connect to.
    pub vcenter_host_url: String,
    /// vCenter datacenter.
    pub vcenter_datacenter: String,
    /// vCenter datastore.
    pub vcenter_datastore: String,
    /// vCenter network.
    pub vcenter_network: String,
    /// vCenter resource pool.
    pub vcenter_resource_pool: String,
    /// The folder for the cluster's VMs.
    pub vcenter_workload_folder: String,
    /// The base64 encoded kubeconfig of the management cluster.
    pub mgmt_cluster_kubeconfig_base64: String,
    /// The base64 encoded kubeconfig of an existing cluster, if there is one.
    pub kubeconfig_base64: Option<String>,
}

/// What the agent hands back: the cluster, its endpoint and its base64 encoded kubeconfig.
#[derive(Clone, Debug, Default)]
pub struct CreatedVSphereK8sCluster {
    pub cluster_name: String,
    pub endpoint: String,
    pub encoded_kubeconfig: String,
}

/// Creates, or takes over, a vSphere Kubernetes cluster.
#[derive(Clone, Copy, Debug, Default)]
pub struct VSphereK8sClusterCreator {}

/// Deletes the cluster and its VM template.
#[derive(Clone, Copy, Debug, Default)]
pub struct VSphereK8sClusterDestroyer {}

/// A file in the working directory.
pub open spec fn working_file(name: Seq<char>) -> Seq<char> {
    WORKING_DIR@ + "/"@ + name
}

fn working_file_text(name: &str) -> (r: String)
    ensures
        r@ == working_file(name@),
{
    let mut r = owned(WORKING_DIR);
    r.append("/");
    r.append(name);
    r
}

/// Where the management cluster's kubeconfig is written.
pub fn mgmt_kubeconfig_path() -> (r: String)
    ensures
        r@ == working_file("mgmt.kubeconfig"@),
{
    working_file_text("mgmt.kubeconfig")
}

/// Where the cluster spec is written.
pub fn clusterspec_path() -> (r: String)
    ensures
        r@ == working_file("vsphere-k8s-clusterspec.yaml"@),
{
    working_file_text("vsphere-k8s-clusterspec.yaml")
}

/// The name of the control plane's VM template.
pub fn vm_template_name(cluster_name: &str) -> (r: String)
    ensures
        r@ == cluster_name@ + "-eksa-vmtemplate"@,
{
    let mut r = owned(cluster_name);
    r.append("-eksa-vmtemplate");
    r
}

/// The inventory path of the template: the folder without its trailing slashes, then the name.
pub open spec fn vm_template_path_text(folder: Seq<char>, template: Seq<char>) -> Seq<char> {
    trim_end_char(folder, '/') + "/"@ + template
}

/// The full inventory path of the VM template, which the tags are attached to.
pub fn vm_template_path(folder: &str, template: &str) -> (r: String)
    ensures
        r@ == vm_template_path_text(folder@, template@),
{
    let mut r = owned(trim_end_char_text(folder, '/'));
    r.append("/");
    r.append(template);
    r
}

/// The Kubernetes version, or the error when the configuration names none.
pub fn required_version(version: Option<K8sVersion>, resources: Resources) -> (r: Result<
    K8sVersion,
    ProviderError,
>)
    ensures
        match version {
            Some(v) => r == Ok::<K8sVersion, ProviderError>(v),
            None => r matches Err(e) && e.resources == resources && e.context@
                == "K8s version missing from configuration"@,
        },
{
    match version {
        Some(v) => Ok(v),
        None => Err(
            ProviderError::new_with_context(
                resources,
                owned("K8s version missing from configuration"),
            ),
        ),
    }
}

/// `major.minor` of the version with its dot replaced by `sep`.
pub open spec fn version_label(version: K8sVersion, sep: Seq<char>) -> Seq<char> {
    replace_char(major_minor_without_v_text(version@), '.', sep)
}

/// The EKS-D release tag numbered `n` for the version: `eksdRelease:kubernetes-1-23-eks-6`.
pub open spec fn eksd_release_tag(version: K8sVersion, n: nat) -> Seq<char> {
    "eksdRelease:kubernetes-"@ + version_label(version, "-"@) + "-eks-"@ + decimal(n)
}

/// The EKS-D release tags put on the VM template, for the releases from `1` up to, and without,
/// `EKSD_RELEASE_END`: EKS Anywhere only needs one of them to match.
pub fn eksd_release_tags(version: &K8sVersion) -> (r: Vec<String>)
    ensures
        r@.len() == EKSD_RELEASE_END - 1,
        forall|i: int| 0 <= i < r@.len() ==> #[trigger] r@[i]@ == eksd_release_tag(
            *version,
            (i + 1) as nat,
        ),
{
    let mm = version.major_minor_without_v();
    let label = replace_char_text(mm.as_str(), '.', "-");
    let mut v: Vec<String> = Vec::new();
    let mut n: u32 = 1;
    while n < EKSD_RELEASE_END
        invariant
            1 <= n <= EKSD_RELEASE_END,
            v@.len() == n - 1,
            label@ == version_label(*version, "-"@),
            forall|i: int| 0 <= i < v@.len() ==> #[trigger] v@[i]@ == eksd_release_tag(
                *version,
                (i + 1) as nat,
            ),
        decreases EKSD_RELEASE_END - n,
    {
        let mut tag = owned("eksdRelease:kubernetes-");
        tag.append(label.as_str());
        tag.append("-eks-");
        push_decimal(&mut tag, n as u128);
        v.push(tag);
        n = n + 1;
    }
    v
}

/// The environment variable that tells EKS Anywhere to support the version, such as
/// `K8S_1_23_SUPPORT`.
pub fn support_flag_name(version: &K8sVersion) -> (r: String)
    ensures
        r@ == "K8S_"@ + version_label(*version, "_"@) + "_SUPPORT"@,
{
    let mm = version.major_minor_without_v();
    let mut r = owned("K8S_");
    r.append(replace_char_text(mm.as_str(), '.', "_").as_str());
    r.append("_SUPPORT");
    r
}

/// The `MachineDeployment` of the cluster's default node group.
pub fn default_machine_deployment(cluster_name: &str) -> (r: String)
    ensures
        r@ == "machinedeployments/"@ + cluster_name@ + "-md-0"@,
{
    let mut r = owned("machinedeployments/");
    r.append(cluster_name);
    r.append("-md-0");
    r
}

/// The arguments of `kubectl` that scale the default node group to no machine.
pub open spec fn scale_default_nodegroup_args_spec(
    mgmt_kubeconfig: Seq<char>,
    cluster_name: Seq<char>,
) -> Seq<Seq<char>> {
    seq![
        "--kubeconfig"@,
        mgmt_kubeconfig,
        "scale"@,
        "machinedeployments/"@ + cluster_name + "-md-0"@,
        "--replicas=0"@,
        "-n"@,
        "eksa-system"@,
    ]
}

/// The arguments with which `kubectl` scales the default node group to no machine: the tests
/// launch their own.
pub fn scale_default_nodegroup_args(mgmt_kubeconfig: &str, cluster_name: &str) -> (r: Vec<String>)
    ensures
        string_views(r@) == scale_default_nodegroup_args_spec(mgmt_kubeconfig@, cluster_name@),
{
    let mut v: Vec<String> = Vec::new();
    push_string(&mut v, owned("--kubeconfig"));
    push_string(&mut v, owned(mgmt_kubeconfig));
    push_string(&mut v, owned("scale"));
    push_string(&mut v, default_machine_deployment(cluster_name));
    push_string(&mut v, owned("--replicas=0"));
    push_string(&mut v, owned("-n"));
    push_string(&mut v, owned("eksa-system"));
    assert(string_views(v@) =~= scale_default_nodegroup_args_spec(mgmt_kubeconfig@, cluster_name@));
    v
}

/// The EKS Anywhere cluster spec: the cluster with two control plane nodes, three etcd nodes and
/// one worker, its vSphere datacenter, and the machine configuration of its nodes.
pub open spec fn clusterspec_text(
    config: VSphereK8sClusterConfig,
    vm_template: Seq<char>,
    mgmt_cluster_name: Seq<char>,
    thumbprint: Seq<char>,
) -> Seq<char> {
    let name = config.name@;
    let version = match config.version {
        Some(v) => major_minor_without_v_text(v@),
        None => major_minor_without_v_text(default_version_view()),
    };
    "apiVersion: anywhere.eks.amazonaws.com/v1alpha1\nkind: Cluster\nmetadata:\n  name: "@ + name
        + "\nspec:\n  managementCluster:\n    name: "@ + mgmt_cluster_name
        + "\n  clusterNetwork:\n    cniConfig:\n      cilium: {}\n    pods:\n      cidrBlocks:\n      - 192.168.0.0/16\n    services:\n      cidrBlocks:\n      - 10.96.0.0/12\n  controlPlaneConfiguration:\n    count: 2\n    endpoint:\n      host: \""@
        + config.control_plane_endpoint_ip@
        + "\"\n    machineGroupRef:\n      kind: VSphereMachineConfig\n      name: "@ + name
        + "-node\n  datacenterRef:\n    kind: VSphereDatacenterConfig\n    name: "@ + name
        + "\n  externalEtcdConfiguration:\n    count: 3\n    machineGroupRef:\n      kind: VSphereMachineConfig\n      name: "@
        + name + "-node\n  kubernetesVersion: \""@ + version
        + "\"\n  workerNodeGroupConfigurations:\n  - count: 1\n    machineGroupRef:\n      kind: VSphereMachineConfig\n      name: "@
        + name
        + "-node\n    name: md-0\n---\napiVersion: anywhere.eks.amazonaws.com/v1alpha1\nkind: VSphereDatacenterConfig\nmetadata:\n  name: "@
        + name + "\nspec:\n  datacenter: \""@ + config.vcenter_datacenter@
        + "\"\n  insecure: false\n  network: \""@ + config.vcenter_network@ + "\"\n  server: \""@
        + config.vcenter_host_url@ + "\"\n  thumbprint: \""@ + thumbprint
        + "\"\n---\napiVersion: anywhere.eks.amazonaws.com/v1alpha1\nkind: VSphereMachineConfig\nmetadata:\n  name: "@
        + name
        + "-node\nspec:\n  diskGiB: 25\n  memoryMiB: 8192\n  numCPUs: 2\n  osFamily: bottlerocket\n  datastore: \""@
        + config.vcenter_datastore@ + "\"\n  folder: \""@ + config.vcenter_workload_folder@
        + "\"\n  template: \""@ + vm_template + "\"\n  resourcePool: \""@
        + config.vcenter_resource_pool@ + "\"\n"@
}

/// The SHA1 thumbprint of the vCenter certificate in the output of `govc about.cert -json`, or
/// the message for why it is not there.
pub open spec fn thumbprint_result(output: Seq<char>, vcenter_host_url: Seq<char>) -> Result<
    Seq<char>,
    Seq<char>,
> {
    match json_document(output) {
        None => Err("Failed to deserialize 'govc about.cert' output"@),
        Some(cert) => match doc_text(doc_get(cert, "ThumbprintSHA1"@)) {
            Some(t) => Ok(t),
            None => Err(
                "Failed to get the SHA1 thumbprint from vCenter server certificate for '"@
                    + vcenter_host_url + "'"@,
            ),
        },
    }
}

/// The SHA1 thumbprint in `cert`, the JSON value that `govc about.cert -json` printed: its
/// `ThumbprintSHA1` text.
pub fn thumbprint_in_cert(cert: &Doc) -> (r: Option<String>)
    ensures
        opt_text(r) == doc_text(doc_get(cert@, "ThumbprintSHA1"@)),
{
    let thumbprint = match cert.get("ThumbprintSHA1") {
        Some(t) => t.as_text(),
        None => None,
    };
    match thumbprint {
        Some(t) => Some(t.clone()),
        None => None,
    }
}

/// The SHA1 thumbprint of the certificate of the vCenter at `vcenter_host_url`, from what
/// `govc about.cert -json` printed (`about_cert_output`).
pub fn vcenter_thumbprint(about_cert_output: &str, vcenter_host_url: &str, resources: Resources) -> (r:
    Result<String, ProviderError>)
    ensures
        match thumbprint_result(about_cert_output@, vcenter_host_url@) {
            Ok(t) => r matches Ok(s) && s@ == t,
            Err(m) => r matches Err(e) && e.resources == resources && e.context@ == m,
        },
{
    let cert = match parse_json(about_cert_output) {
        Some(d) => d,
        None => {
            return Err(
                ProviderError::new_with_context(
                    resources,
                    owned("Failed to deserialize 'govc about.cert' output"),
                ),
            );
        },
    };
    match thumbprint_in_cert(&cert) {
        Some(t) => Ok(t),
        None => {
            let mut msg = owned(
                "Failed to get the SHA1 thumbprint from vCenter server certificate for '",
            );
            msg.append(vcenter_host_url);
            msg.append("'");
            Err(ProviderError::new_with_context(resources, msg))
        },
    }
}

/// The import spec `spec` with its `MarkAsTemplate` set to `true`, when it has one.
pub open spec fn marked_as_template(spec: DocView) -> Option<DocView> {
    replaced(spec, "MarkAsTemplate"@, DocView::Bool(true), |_v: DocView| true)
}

/// The import spec for the OVA of the VM template from the output of `govc import.spec` (its
/// JSON), with the VMs on `network` and the import marked as a template, as pretty-printed JSON;
/// or the message for why there is none.
pub open spec fn template_import_spec(output: Seq<char>, network: Seq<char>) -> Result<
    Seq<char>,
    Seq<char>,
> {
    match json_document(output) {
        None => Err("Failed to deserialize govc import.spec output"@),
        Some(spec) => match network_mapped(spec, network) {
            None => Err("Missing network mappings for VM network"@),
            Some(m) => match marked_as_template(m) {
                None => Err("Missing 'MarkAsTemplate' in Import spec"@),
                Some(t) => Ok(json_pretty(t)),
            },
        },
    }
}

fn mark_as_template(spec: Doc) -> (r: Option<Doc>)
    ensures
        opt_doc_view(r) == marked_as_template(spec@),
{
    match spec {
        Doc::Mapping(mut es) => {
            proof {
                lemma_entries_view(es);
            }
            let i = key_position(&es, "MarkAsTemplate");
            if i >= es.len() {
                return None;
            }
            let ghost before = entry_views(es@);
            es.set(i, (Doc::Text(owned("MarkAsTemplate")), Doc::Bool(true)));
            assert(entry_views(es@) =~= before.update(
                i as int,
                (DocView::Text("MarkAsTemplate"@), DocView::Bool(true)),
            ));
            Some(mapping_of(es))
        },
        _ => None,
    }
}

/// The import spec for the OVA of the VM template, as pretty-printed JSON: what `govc
/// import.spec` printed (`import_spec_output`), with the VMs on the vCenter network `network`
/// and the import marked as a template.
pub fn ova_template_import_spec(
    import_spec_output: &str,
    network: &str,
    resources: Resources,
) -> (r: Result<String, ProviderError>)
    ensures
        match template_import_spec(import_spec_output@, network@) {
            Ok(t) => r matches Ok(s) && s@ == t,
            Err(m) => r matches Err(e) && e.resources == resources && e.context@ == m,
        },
{
    let spec = match parse_json(import_spec_output) {
        Some(d) => d,
        None => {
            return Err(
                ProviderError::new_with_context(
                    resources,
                    owned("Failed to deserialize govc import.spec output"),
                ),
            );
        },
    };
    let mapped = match with_network_mapping(spec, network) {
        Some(m) => m,
        None => {
            return Err(
                ProviderError::new_with_context(
                    resources,
                    owned("Missing network mappings for VM network"),
                ),
            );
        },
    };
    match mark_as_template(mapped) {
        Some(t) => Ok(json_pretty_text(&t)),
        None => Err(
            ProviderError::new_with_context(
                resources,
                owned("Missing 'MarkAsTemplate' in Import spec"),
            ),
        ),
    }
}

/// The EKS Anywhere cluster spec for the configured cluster, made from `vm_template`, managed by
/// `mgmt_cluster_name`, on the vCenter whose certificate has the SHA1 `thumbprint`. Without a
/// configured version the spec names that of the default version.
pub fn clusterspec(
    config: &VSphereK8sClusterConfig,
    vm_template: &str,
    mgmt_cluster_name: &str,
    thumbprint: &str,
) -> (r: String)
    ensures
        r@ == clusterspec_text(*config, vm_template@, mgmt_cluster_name@, thumbprint@),
{
    let version = match config.version {
        Some(v) => v.major_minor_without_v(),
        None => K8sVersion::default().major_minor_without_v(),
    };
    let name = config.name.as_str();
    let mut r = owned("apiVersion: anywhere.eks.amazonaws.com/v1alpha1\nkind: Cluster\nmetadata:\n  name: ");
    r.append(name);
    r.append("\nspec:\n  managementCluster:\n    name: ");
    r.append(mgmt_cluster_name);
    r.append("\n  clusterNetwork:\n    cniConfig:\n      cilium: {}\n    pods:\n      cidrBlocks:\n      - 192.168.0.0/16\n    services:\n      cidrBlocks:\n      - 10.96.0.0/12\n  controlPlaneConfiguration:\n    count: 2\n    endpoint:\n      host: \"");
    r.append(config.control_plane_endpoint_ip.as_str());
    r.append("\"\n    machineGroupRef:\n      kind: VSphereMachineConfig\n      name: ");
    r.append(name);
    r.append("-node\n  datacenterRef:\n    kind: VSphereDatacenterConfig\n    name: ");
    r.append(name);
    r.append("\n  externalEtcdConfiguration:\n    count: 3\n    machineGroupRef:\n      kind: VSphereMachineConfig\n      name: ");
    r.append(name);
    r.append("-node\n  kubernetesVersion: \"");
    r.append(version.as_str());
    r.append("\"\n  workerNodeGroupConfigurations:\n  - count: 1\n    machineGroupRef:\n      kind: VSphereMachineConfig\n      name: ");
    r.append(name);
    r.append("-node\n    name: md-0\n---\napiVersion: anywhere.eks.amazonaws.com/v1alpha1\nkind: VSphereDatacenterConfig\nmetadata:\n  name: ");
    r.append(name);
    r.append("\nspec:\n  datacenter: \"");
    r.append(config.vcenter_datacenter.as_str());
    r.append("\"\n  insecure: false\n  network: \"");
    r.append(config.vcenter_network.as_str());
    r.append("\"\n  server: \"");
    r.append(config.vcenter_host_url.as_str());
    r.append("\"\n  thumbprint: \"");
    r.append(thumbprint);
    r.append("\"\n---\napiVersion: anywhere.eks.amazonaws.com/v1alpha1\nkind: VSphereMachineConfig\nmetadata:\n  name: ");
    r.append(name);
    r.append("-node\nspec:\n  diskGiB: 25\n  memoryMiB: 8192\n  numCPUs: 2\n  osFamily: bottlerocket\n  datastore: \"");
    r.append(config.vcenter_datastore.as_str());
    r.append("\"\n  folder: \"");
    r.append(config.vcenter_workload_folder.as_str());
    r.append("\"\n  template: \"");
    r.append(vm_template);
    r.append("\"\n  resourcePool: \"");
    r.append(config.vcenter_resource_pool.as_str());
    r.append("\"\n");
    r
}

impl VSphereK8sClusterCreator {
    /// The kubeconfig of a cluster the agent does not create: the configured one, or the error
    /// when there is none.
    pub fn existing_kubeconfig(&self, kubeconfig_base64: &Option<String>, resources: Resources) -> (r:
        Result<String, ProviderError>)
        ensures
            match kubeconfig_base64 {
                Some(k) => r matches Ok(s) && s@ == k@,
                None => r matches Err(e) && e.resources == resources && e.context@
                    == "Kubeconfig for existing vSphere K8s cluster missing"@,
            },
    {
        match kubeconfig_base64 {
            Some(k) => Ok(k.clone()),
            None => Err(
                ProviderError::new_with_context(
                    resources,
                    owned("Kubeconfig for existing vSphere K8s cluster missing"),
                ),
            ),
        }
    }

    /// Whether the cluster exists: a kubeconfig is configured and the nodes of the cluster it
    /// points at could be listed with it.
    pub fn cluster_exists(&self, kubeconfig_configured: bool, nodes_listed: bool) -> (r: bool)
        ensures
            r == (kubeconfig_configured && nodes_listed),
    {
        kubeconfig_configured && nodes_listed
    }
}

/// What the agent records of what it created.
#[derive(Clone, Debug, Default)]
pub struct K8sClusterProgress {
    /// The name of the cluster it created.
    pub cluster_name: Option<String>,
    /// The name of the VM template of the control plane.
    pub vm_template: String,
}

impl VSphereK8sClusterDestroyer {
    /// What remains when destruction fails: something, as soon as the memo records a cluster or
    /// a template.
    pub fn resources_situation(&self, progress: &K8sClusterProgress) -> (r: Resources)
        ensures
            r == if progress.cluster_name is Some || progress.vm_template@.len() > 0 {
                Resources::Remaining
            } else {
                Resources::Clear
            },
    {
        if progress.cluster_name.is_some() || !progress.vm_template.as_str().is_empty() {
            Resources::Remaining
        } else {
            Resources::Clear
        }
    }

    /// The directory in which EKS Anywhere looks for the files of the cluster it deletes.
    pub fn cluster_dir(&self, cluster_name: &str) -> (r: String)
        ensures
            r@ == working_file(cluster_name@) + "/"@,
    {
        let mut r = working_file_text(cluster_name);
        r.append("/");
        r
    }

    /// Where the workload cluster's kubeconfig goes in the cluster's directory.
    pub fn workload_kubeconfig_path(&self, cluster_name: &str) -> (r: String)
        ensures
            r@ == working_file(cluster_name@) + "/"@ + "/"@ + cluster_name@
                + "-eks-a-cluster.kubeconfig"@,
    {
        let mut r = self.cluster_dir(cluster_name);
        r.append("/");
        r.append(cluster_name);
        r.append("-eks-a-cluster.kubeconfig");
        r
    }

    /// Where the cluster spec goes in the cluster's directory.
    pub fn clusterspec_file_path(&self, cluster_name: &str) -> (r: String)
        ensures
            r@ == working_file(cluster_name@) + "/"@ + "/"@ + cluster_name@
                + "-eks-a-cluster.yaml"@,
    {
        let mut r = self.cluster_dir(cluster_name);
        r.append("/");
        r.append(cluster_name);
        r.append("-eks-a-cluster.yaml");
        r
    }
}

/// A step of the vSphere Kubernetes agent's creation of a cluster.
#[derive(Clone, Copy, Debug, PartialEq, Eq, Structural)]
pub enum K8sClusterCreateStep {
    /// Read the URLs of the TUF repository.
    ReadTufUrls,
    /// Download the OVA from the TUF repository.
    DownloadOva,
    /// Run `govc import.spec`.
    RunImportSpec,
    /// Read the import spec, map the VM network and mark it a template (`ova_template_import_spec`).
    MakeImportSpec,
    /// Create the import spec file.
    CreateImportSpecFile,
    /// Write the import spec file.
    WriteImportSpecFile,
    /// Run `govc import.ova`, which makes the VM template.
    ImportOva,
    /// Check that the OVA was imported.
    CheckImportOva,
    /// Create the `os` tag category.
    CreateOsTagCategory,
    /// Create the `os:bottlerocket` tag.
    CreateOsTag,
    /// Attach the `os:bottlerocket` tag to the template.
    AttachOsTag,
    /// Check that the tag was attached.
    CheckAttachOsTag,
    /// Create the `eksdRelease` tag category.
    CreateEksdTagCategory,
    /// Read the Kubernetes version from the configuration.
    ReadVersion,
    /// Create one `eksdRelease` tag.
    CreateEksdTag,
    /// Attach one `eksdRelease` tag to the template.
    AttachEksdTag,
    /// Check that the tag was attached.
    CheckAttachEksdTag,
    /// Read the management cluster's kubeconfig.
    ReadMgmtKubeconfig,
    /// Find the management cluster's name in it.
    FindMgmtCluster,
    /// Run `govc about.cert` for the vCenter certificate.
    RunAboutCert,
    /// Check that `govc about.cert` succeeded.
    CheckAboutCert,
    /// Read the certificate's thumbprint (`vcenter_thumbprint`).
    ReadThumbprint,
    /// Write the cluster spec.
    WriteClusterspec,
    /// Run `eksctl anywhere create cluster`.
    LaunchEksctl,
    /// Check that `eksctl` created the cluster.
    CheckEksctl,
    /// Run `kubectl scale` on the default node group.
    LaunchScale,
    /// Check that the node group was scaled.
    CheckScale,
}

/// The steps that make and tag the VM template: nothing is left behind until the OVA is imported, and the template remains from then on.
pub open spec fn k8s_template_plan_spec() -> Seq<PlannedStep<K8sClusterCreateStep>> {
    seq![
        PlannedStep { step: K8sClusterCreateStep::ReadTufUrls, status: None, on_failure: Resources::Clear, failure: None, wait_secs: None, fatal: true },
        PlannedStep { step: K8sClusterCreateStep::DownloadOva, status: None, on_failure: Resources::Clear, failure: None, wait_secs: None, fatal: true },
        PlannedStep { step: K8sClusterCreateStep::RunImportSpec, status: None, on_failure: Resources::Clear, failure: Some("Failed to start govc"), wait_secs: None, fatal: true },
        PlannedStep { step: K8sClusterCreateStep::MakeImportSpec, status: None, on_failure: Resources::Clear, failure: None, wait_secs: None, fatal: true },
        PlannedStep { step: K8sClusterCreateStep::CreateImportSpecFile, status: None, on_failure: Resources::Clear, failure: Some("Failed to create ova import spec file"), wait_secs: None, fatal: true },
        PlannedStep { step: K8sClusterCreateStep::WriteImportSpecFile, status: None, on_failure: Resources::Clear, failure: Some("Failed to write out OVA import spec file"), wait_secs: None, fatal: true },
        PlannedStep { step: K8sClusterCreateStep::ImportOva, status: None, on_failure: Resources::Clear, failure: Some("Failed to launch govc process"), wait_secs: None, fatal: true },
        PlannedStep { step: K8sClusterCreateStep::CheckImportOva, status: None, on_failure: Resources::Unknown, failure: None, wait_secs: None, fatal: true },
        PlannedStep { step: K8sClusterCreateStep::CreateOsTagCategory, status: None, on_failure: Resources::Remaining, failure: Some("Failed to launch govc process"), wait_secs: None, fatal: true },
        PlannedStep { step: K8sClusterCreateStep::CreateOsTag, status: None, on_failure: Resources::Remaining, failure: Some("Failed to launch govc process"), wait_secs: None, fatal: true },
        PlannedStep { step: K8sClusterCreateStep::AttachOsTag, status: None, on_failure: Resources::Remaining, failure: Some("Failed to launch govc process"), wait_secs: None, fatal: true },
        PlannedStep { step: K8sClusterCreateStep::CheckAttachOsTag, status: None, on_failure: Resources::Remaining, failure: None, wait_secs: None, fatal: true },
        PlannedStep { step: K8sClusterCreateStep::CreateEksdTagCategory, status: None, on_failure: Resources::Remaining, failure: Some("Failed to launch govc process"), wait_secs: None, fatal: true },
        PlannedStep { step: K8sClusterCreateStep::ReadVersion, status: None, on_failure: Resources::Remaining, failure: Some("K8s version missing from configuration"), wait_secs: None, fatal: true },
    ]
}

/// The steps that make and tag the VM template: nothing is left behind until the OVA is imported, and the template remains from then on.
pub fn k8s_template_plan() -> (r: Vec<PlannedStep<K8sClusterCreateStep>>)
    ensures
        r@ == k8s_template_plan_spec(),
{
    let mut v: Vec<PlannedStep<K8sClusterCreateStep>> = Vec::new();
    v.push(PlannedStep { step: K8sClusterCreateStep::ReadTufUrls, status: None, on_failure: Resources::Clear, failure: None, wait_secs: None, fatal: true });
    v.push(PlannedStep { step: K8sClusterCreateStep::DownloadOva, status: None, on_failure: Resources::Clear, failure: None, wait_secs: None, fatal: true });
    v.push(PlannedStep { step: K8sClusterCreateStep::RunImportSpec, status: None, on_failure: Resources::Clear, failure: Some("Failed to start govc"), wait_secs: None, fatal: true });
    v.push(PlannedStep { step: K8sClusterCreateStep::MakeImportSpec, status: None, on_failure: Resources::Clear, failure: None, wait_secs: None, fatal: true });
    v.push(PlannedStep { step: K8sClusterCreateStep::CreateImportSpecFile, status: None, on_failure: Resources::Clear, failure: Some("Failed to create ova import spec file"), wait_secs: None, fatal: true });
    v.push(PlannedStep { step: K8sClusterCreateStep::WriteImportSpecFile, status: None, on_failure: Resources::Clear, failure: Some("Failed to write out OVA import spec file"), wait_secs: None, fatal: true });
    v.push(PlannedStep { step: K8sClusterCreateStep::ImportOva, status: None, on_failure: Resources::Clear, failure: Some("Failed to launch govc process"), wait_secs: None, fatal: true });
    v.push(PlannedStep { step: K8sClusterCreateStep::CheckImportOva, status: None, on_failure: Resources::Unknown, failure: None, wait_secs: None, fatal: true });
    v.push(PlannedStep { step: K8sClusterCreateStep::CreateOsTagCategory, status: None, on_failure: Resources::Remaining, failure: Some("Failed to launch govc process"), wait_secs: None, fatal: true });
    v.push(PlannedStep { step: K8sClusterCreateStep::CreateOsTag, status: None, on_failure: Resources::Remaining, failure: Some("Failed to launch govc process"), wait_secs: None, fatal: true });
    v.push(PlannedStep { step: K8sClusterCreateStep::AttachOsTag, status: None, on_failure: Resources::Remaining, failure: Some("Failed to launch govc process"), wait_secs: None, fatal: true });
    v.push(PlannedStep { step: K8sClusterCreateStep::CheckAttachOsTag, status: None, on_failure: Resources::Remaining, failure: None, wait_secs: None, fatal: true });
    v.push(PlannedStep { step: K8sClusterCreateStep::CreateEksdTagCategory, status: None, on_failure: Resources::Remaining, failure: Some("Failed to launch govc process"), wait_secs: None, fatal: true });
    v.push(PlannedStep { step: K8sClusterCreateStep::ReadVersion, status: None, on_failure: Resources::Remaining, failure: Some("K8s version missing from configuration"), wait_secs: None, fatal: true });
    assert(v@ =~= k8s_template_plan_spec());
    v
}

/// The steps for each of the EKS-D release tags (`eksd_release_tags`).
pub open spec fn k8s_eksd_tag_plan_spec() -> Seq<PlannedStep<K8sClusterCreateStep>> {
    seq![
        PlannedStep { step: K8sClusterCreateStep::CreateEksdTag, status: None, on_failure: Resources::Remaining, failure: Some("Failed to launch govc process"), wait_secs: None, fatal: true },
        PlannedStep { step: K8sClusterCreateStep::AttachEksdTag, status: None, on_failure: Resources::Remaining, failure: Some("Failed to launch govc process"), wait_secs: None, fatal: true },
        PlannedStep { step: K8sClusterCreateStep::CheckAttachEksdTag, status: None, on_failure: Resources::Remaining, failure: None, wait_secs: None, fatal: true },
    ]
}

/// The steps for each of the EKS-D release tags (`eksd_release_tags`).
pub fn k8s_eksd_tag_plan() -> (r: Vec<PlannedStep<K8sClusterCreateStep>>)
    ensures
        r@ == k8s_eksd_tag_plan_spec(),
{
    let mut v: Vec<PlannedStep<K8sClusterCreateStep>> = Vec::new();
    v.push(PlannedStep { step: K8sClusterCreateStep::CreateEksdTag, status: None, on_failure: Resources::Remaining, failure: Some("Failed to launch govc process"), wait_secs: None, fatal: true });
    v.push(PlannedStep { step: K8sClusterCreateStep::AttachEksdTag, status: None, on_failure: Resources::Remaining, failure: Some("Failed to launch govc process"), wait_secs: None, fatal: true });
    v.push(PlannedStep { step: K8sClusterCreateStep::CheckAttachEksdTag, status: None, on_failure: Resources::Remaining, failure: None, wait_secs: None, fatal: true });
    assert(v@ =~= k8s_eksd_tag_plan_spec());
    v
}

/// The steps that create the cluster from the template: every failure leaves the template and what was made of the cluster.
pub open spec fn k8s_cluster_plan_spec() -> Seq<PlannedStep<K8sClusterCreateStep>> {
    seq![
        PlannedStep { step: K8sClusterCreateStep::ReadVersion, status: None, on_failure: Resources::Remaining, failure: Some("K8s version missing from configuration"), wait_secs: None, fatal: true },
        PlannedStep { step: K8sClusterCreateStep::ReadMgmtKubeconfig, status: None, on_failure: Resources::Remaining, failure: Some("Unable to read kubeconfig"), wait_secs: None, fatal: true },
        PlannedStep { step: K8sClusterCreateStep::FindMgmtCluster, status: None, on_failure: Resources::Remaining, failure: Some("Missing clusters in Kubeconfig"), wait_secs: None, fatal: true },
        PlannedStep { step: K8sClusterCreateStep::RunAboutCert, status: None, on_failure: Resources::Remaining, failure: Some("Failed to launch govc process"), wait_secs: None, fatal: true },
        PlannedStep { step: K8sClusterCreateStep::CheckAboutCert, status: None, on_failure: Resources::Remaining, failure: None, wait_secs: None, fatal: true },
        PlannedStep { step: K8sClusterCreateStep::ReadThumbprint, status: None, on_failure: Resources::Remaining, failure: None, wait_secs: None, fatal: true },
        PlannedStep { step: K8sClusterCreateStep::WriteClusterspec, status: None, on_failure: Resources::Remaining, failure: Some("Failed to write vSphere cluster spec to '/local/eksa-work/vsphere-k8s-clusterspec.yaml'"), wait_secs: None, fatal: true },
        PlannedStep { step: K8sClusterCreateStep::LaunchEksctl, status: None, on_failure: Resources::Remaining, failure: Some("Failed to launch eksctl process"), wait_secs: None, fatal: true },
        PlannedStep { step: K8sClusterCreateStep::CheckEksctl, status: None, on_failure: Resources::Remaining, failure: None, wait_secs: None, fatal: true },
        PlannedStep { step: K8sClusterCreateStep::LaunchScale, status: None, on_failure: Resources::Remaining, failure: Some("Failed to launch kubectl process"), wait_secs: None, fatal: true },
        PlannedStep { step: K8sClusterCreateStep::CheckScale, status: None, on_failure: Resources::Remaining, failure: None, wait_secs: None, fatal: true },
    ]
}

/// The steps that create the cluster from the template: every failure leaves the template and what was made of the cluster.
pub fn k8s_cluster_plan() -> (r: Vec<PlannedStep<K8sClusterCreateStep>>)
    ensures
        r@ == k8s_cluster_plan_spec(),
{
    let mut v: Vec<PlannedStep<K8sClusterCreateStep>> = Vec::new();
    v.push(PlannedStep { step: K8sClusterCreateStep::ReadVersion, status: None, on_failure: Resources::Remaining, failure: Some("K8s version missing from configuration"), wait_secs: None, fatal: true });
    v.push(PlannedStep { step: K8sClusterCreateStep::ReadMgmtKubeconfig, status: None, on_failure: Resources::Remaining, failure: Some("Unable to read kubeconfig"), wait_secs: None, fatal: true });
    v.push(PlannedStep { step: K8sClusterCreateStep::FindMgmtCluster, status: None, on_failure: Resources::Remaining, failure: Some("Missing clusters in Kubeconfig"), wait_secs: None, fatal: true });
    v.push(PlannedStep { step: K8sClusterCreateStep::RunAboutCert, status: None, on_failure: Resources::Remaining, failure: Some("Failed to launch govc process"), wait_secs: None, fatal: true });
    v.push(PlannedStep { step: K8sClusterCreateStep::CheckAboutCert, status: None, on_failure: Resources::Remaining, failure: None, wait_secs: None, fatal: true });
    v.push(PlannedStep { step: K8sClusterCreateStep::ReadThumbprint, status: None, on_failure: Resources::Remaining, failure: None, wait_secs: None, fatal: true });
    v.push(PlannedStep { step: K8sClusterCreateStep::WriteClusterspec, status: None, on_failure: Resources::Remaining, failure: Some("Failed to write vSphere cluster spec to '/local/eksa-work/vsphere-k8s-clusterspec.yaml'"), wait_secs: None, fatal: true });
    v.push(PlannedStep { step: K8sClusterCreateStep::LaunchEksctl, status: None, on_failure: Resources::Remaining, failure: Some("Failed to launch eksctl process"), wait_secs: None, fatal: true });
    v.push(PlannedStep { step: K8sClusterCreateStep::CheckEksctl, status: None, on_failure: Resources::Remaining, failure: None, wait_secs: None, fatal: true });
    v.push(PlannedStep { step: K8sClusterCreateStep::LaunchScale, status: None, on_failure: Resources::Remaining, failure: Some("Failed to launch kubectl process"), wait_secs: None, fatal: true });
    v.push(PlannedStep { step: K8sClusterCreateStep::CheckScale, status: None, on_failure: Resources::Remaining, failure: None, wait_secs: None, fatal: true });
    assert(v@ =~= k8s_cluster_plan_spec());
    v
}

} // verus!
