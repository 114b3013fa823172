//! What the vSphere VM resource agent decides: how many worker VMs it launches and their names,
//! the `govc` commands it runs for them, and what it tears down again.

use crate::agent_config::VSphereVmConfig;
use crate::eks::opt_text;
use crate::document::{
    doc_get, doc_list, doc_text, doc_views, entry_views, json_document, json_pretty,
    json_pretty_text, key_position, lemma_entries_view, lemma_list_view, mapping_of, opt_doc_view,
    opt_get, parse_json, replaced, Doc, DocView,
};
use crate::plan::{
    avoids, lemma_avoids, lemma_memo_after_append, lemma_memo_after_keeps, lemma_memo_after_one,
    memo_after, PlannedStep,
};
use crate::provider::{ProviderError, Resources};
use crate::userdata::{
    decoded_text, default_userdata, encodable, encoded_text, string_from_utf8, vsphere_userdata_text,
    CustomUserData, is_merged_userdata, merged_userdata,
};
use vstd::utf8::{decode_utf8, valid_utf8};
use crate::text::{decimal, owned, push_decimal, push_string, push_text, string_views};
use std::collections::HashSet;
use vstd::prelude::*;

verus! {

/// The default number of VMs to spin up.
pub const DEFAULT_VM_COUNT: i32 = 2;

/// Where the import spec of the OVA is written.
pub const IMPORT_SPEC_PATH: &'static str = "/local/ova.importspec";

/// A worker VM the agent launched.
#[derive(Clone, Debug, Default)]
pub struct VSphereVM {
    /// Name of the created VSphere VM.
    pub name: String,
    /// Instance IDs of the created VSphere VM.
    pub instance_id: String,
    /// The public IP addresses of the vSphere worker node
    pub ip_address: String,
}

/// What the agent hands back once the VMs are up: the instance IDs of all SSM-registered VMs.
#[derive(Debug, Default)]
pub struct CreatedVSphereVms {
    pub instance_ids: HashSet<String>,
}

/// Launches worker VMs in vSphere.
#[derive(Clone, Copy, Debug, Default)]
pub struct VMCreator {}

/// Removes the VMs, their template and their SSM activation.
#[derive(Clone, Copy, Debug, Default)]
pub struct VMDestroyer {}

/// The number of VMs to launch: the configured count, else the default.
pub fn vm_count(configured: Option<i32>) -> (r: i32)
    ensures
        r == match configured {
            Some(n) => n,
            None => DEFAULT_VM_COUNT,
        },
{
    match configured {
        Some(n) => n,
        None => DEFAULT_VM_COUNT,
    }
}

/// The name of the VM template made from the OVA.
pub fn vm_template_name(cluster_name: &str) -> (r: String)
    ensures
        r@ == cluster_name@ + "-node-vmtemplate"@,
{
    let mut r = owned(cluster_name);
    r.append("-node-vmtemplate");
    r
}

/// The name of the worker node numbered `number`, counting from one.
pub open spec fn node_name_text(cluster_name: Seq<char>, number: nat) -> Seq<char> {
    cluster_name + "-node-"@ + decimal(number)
}

/// The name of the `index`-th worker node (from zero); the names count from one.
pub fn node_name(cluster_name: &str, index: u32) -> (r: String)
    requires
        index < u32::MAX,
    ensures
        r@ == node_name_text(cluster_name@, (index + 1) as nat),
{
    let mut r = owned(cluster_name);
    r.append("-node-");
    push_decimal(&mut r, (index + 1) as u128);
    r
}

/// The names of the worker nodes to launch, one per VM: none when `count` is not positive.
pub fn node_names(cluster_name: &str, count: i32) -> (r: Vec<String>)
    ensures
        r@.len() == if count > 0 {
            count as int
        } else {
            0
        },
        forall|i: int| 0 <= i < r@.len() ==> #[trigger] r@[i]@ == node_name_text(
            cluster_name@,
            (i + 1) as nat,
        ),
{
    let mut v: Vec<String> = Vec::new();
    if count <= 0 {
        return v;
    }
    let n: u32 = count as u32;
    let mut i: u32 = 0;
    while i < n
        invariant
            n == count,
            0 <= i <= n,
            v@.len() == i,
            forall|j: int| 0 <= j < i ==> #[trigger] v@[j]@ == node_name_text(
                cluster_name@,
                (j + 1) as nat,
            ),
        decreases n - i,
    {
        v.push(node_name(cluster_name, i));
        i = i + 1;
    }
    v
}

/// The arguments of `govc import.ova` that make a VM template out of the OVA.
pub open spec fn import_ova_args_spec(template: Seq<char>, ova_name: Seq<char>) -> Seq<Seq<char>> {
    seq![
        "import.ova"@,
        "-options="@ + IMPORT_SPEC_PATH@,
        "-name="@ + template,
        "/local/"@ + ova_name,
    ]
}

/// The arguments with which `govc` imports the OVA as `template`.
pub fn import_ova_args(template: &str, ova_name: &str) -> (r: Vec<String>)
    ensures
        string_views(r@) == import_ova_args_spec(template@, ova_name@),
{
    let mut v: Vec<String> = Vec::new();
    push_text(&mut v, "import.ova");
    let mut options = owned("-options=");
    options.append(IMPORT_SPEC_PATH);
    push_string(&mut v, options);
    let mut name = owned("-name=");
    name.append(template);
    push_string(&mut v, name);
    let mut path = owned("/local/");
    path.append(ova_name);
    push_string(&mut v, path);
    assert(string_views(v@) =~= import_ova_args_spec(template@, ova_name@));
    v
}

/// The arguments of `govc vm.clone` for a worker node, left powered off.
pub open spec fn clone_args_spec(template: Seq<char>, node: Seq<char>) -> Seq<Seq<char>> {
    seq!["vm.clone"@, "-vm"@, template, "-on=false"@, node]
}

/// The arguments with which `govc` clones `template` into the VM `node`.
pub fn clone_args(template: &str, node: &str) -> (r: Vec<String>)
    ensures
        string_views(r@) == clone_args_spec(template@, node@),
{
    let mut v: Vec<String> = Vec::new();
    push_text(&mut v, "vm.clone");
    push_text(&mut v, "-vm");
    push_text(&mut v, template);
    push_text(&mut v, "-on=false");
    push_text(&mut v, node);
    assert(string_views(v@) =~= clone_args_spec(template@, node@));
    v
}

/// The arguments of `govc vm.change` that hand a node its base64 encoded user data.
pub open spec fn inject_userdata_args_spec(node: Seq<char>, userdata: Seq<char>) -> Seq<Seq<char>> {
    seq![
        "vm.change"@,
        "-vm"@,
        node,
        "-e"@,
        "guestinfo.userdata="@ + userdata,
        "-e"@,
        "guestinfo.userdata.encoding=base64"@,
    ]
}

/// The arguments with which `govc` gives the VM `node` its user data.
pub fn inject_userdata_args(node: &str, userdata: &str) -> (r: Vec<String>)
    ensures
        string_views(r@) == inject_userdata_args_spec(node@, userdata@),
{
    let mut v: Vec<String> = Vec::new();
    push_text(&mut v, "vm.change");
    push_text(&mut v, "-vm");
    push_text(&mut v, node);
    push_text(&mut v, "-e");
    let mut data = owned("guestinfo.userdata=");
    data.append(userdata);
    push_string(&mut v, data);
    push_text(&mut v, "-e");
    push_text(&mut v, "guestinfo.userdata.encoding=base64");
    assert(string_views(v@) =~= inject_userdata_args_spec(node@, userdata@));
    v
}

/// The arguments of `govc vm.power` that power a node on and wait for it.
pub open spec fn power_on_args_spec(node: Seq<char>) -> Seq<Seq<char>> {
    seq!["vm.power"@, "-wait=true"@, "-on"@, node]
}

/// The arguments with which `govc` powers on the VM `node`.
pub fn power_on_args(node: &str) -> (r: Vec<String>)
    ensures
        string_views(r@) == power_on_args_spec(node@),
{
    let mut v: Vec<String> = Vec::new();
    push_text(&mut v, "vm.power");
    push_text(&mut v, "-wait=true");
    push_text(&mut v, "-on");
    push_text(&mut v, node);
    assert(string_views(v@) =~= power_on_args_spec(node@));
    v
}

/// The arguments of `govc vm.info` that wait for a node's IP address and print JSON.
pub open spec fn vm_info_args_spec(node: Seq<char>) -> Seq<Seq<char>> {
    seq!["vm.info"@, "-waitip=true"@, "-json=true"@, node]
}

/// The arguments with which `govc` reports on the VM `node` once it has an IP address.
pub fn vm_info_args(node: &str) -> (r: Vec<String>)
    ensures
        string_views(r@) == vm_info_args_spec(node@),
{
    let mut v: Vec<String> = Vec::new();
    push_text(&mut v, "vm.info");
    push_text(&mut v, "-waitip=true");
    push_text(&mut v, "-json=true");
    push_text(&mut v, node);
    assert(string_views(v@) =~= vm_info_args_spec(node@));
    v
}

/// The IP address of the VM in the JSON value `info` of `govc vm.info`: the `Guest.IpAddress`
/// text of the first of its `VirtualMachines`.
pub open spec fn vm_ip_of(info: DocView) -> Option<Seq<char>> {
    match doc_list(doc_get(info, "VirtualMachines"@)) {
        Some(vms) => if vms.len() > 0 {
            doc_text(opt_get(doc_get(vms[0], "Guest"@), "IpAddress"@))
        } else {
            None
        },
        None => None,
    }
}

/// The IP address of the VM `node` in the output of `govc vm.info`, or the message for why it
/// is not there.
pub open spec fn vm_ip_result(output: Seq<char>, node: Seq<char>) -> Result<Seq<char>, Seq<char>> {
    match json_document(output) {
        None => Err("Failed to deserialize govc vm.info output"@),
        Some(info) => match vm_ip_of(info) {
            Some(ip) => Ok(ip),
            None => Err("Failed to get ip address for '"@ + node + "'"@),
        },
    }
}

/// The IP address of the VM in `info`, the JSON value that `govc vm.info` printed: the
/// `Guest.IpAddress` text of the first of its `VirtualMachines`.
pub fn vm_ip_in_info(info: &Doc) -> (r: Option<String>)
    ensures
        opt_text(r) == vm_ip_of(info@),
{
    let vms = match info.get("VirtualMachines") {
        Some(v) => v.as_list(),
        None => None,
    };
    let ip = match vms {
        Some(vms) => if vms.len() > 0 {
            assert(doc_views(vms@)[0] == vms@[0]@);
            match vms[0].get("Guest") {
                Some(g) => match g.get("IpAddress") {
                    Some(a) => a.as_text(),
                    None => None,
                },
                None => None,
            }
        } else {
            None
        },
        None => None,
    };
    match ip {
        Some(t) => Some(t.clone()),
        None => None,
    }
}

/// The IP address of the VM `node_name` that `govc vm.info -json` printed (`vm_info_output`); it
/// is also the VM's DNS name.
pub fn vm_ip_address(vm_info_output: &str, node_name: &str, resources: Resources) -> (r: Result<
    String,
    ProviderError,
>)
    ensures
        match vm_ip_result(vm_info_output@, node_name@) {
            Ok(ip) => r matches Ok(s) && s@ == ip,
            Err(m) => r matches Err(e) && e.resources == resources && e.context@ == m,
        },
{
    let info = match parse_json(vm_info_output) {
        Some(d) => d,
        None => {
            return Err(
                ProviderError::new_with_context(
                    resources,
                    owned("Failed to deserialize govc vm.info output"),
                ),
            );
        },
    };
    let ip = vm_ip_in_info(&info);
    match ip {
        Some(ip) => Ok(ip),
        None => {
            let mut msg = owned("Failed to get ip address for '");
            msg.append(node_name);
            msg.append("'");
            Err(ProviderError::new_with_context(resources, msg))
        },
    }
}

/// The network mapping that puts a VM's `VM Network` on the vCenter network `network`.
pub open spec fn vm_network_mapping(network: Seq<char>) -> DocView {
    DocView::Mapping(
        seq![
            (DocView::Text("Name"@), DocView::Text("VM Network"@)),
            (DocView::Text("Network"@), DocView::Text(network)),
        ],
    )
}

/// The OVA import spec `spec` with its `NetworkMapping` list replaced by the one mapping of
/// `network`; `None` when it has no such list.
pub open spec fn network_mapped(spec: DocView, network: Seq<char>) -> Option<DocView> {
    replaced(
        spec,
        "NetworkMapping"@,
        DocView::List(seq![vm_network_mapping(network)]),
        |v: DocView| v is List,
    )
}

/// The import spec for the OVA from the output of `govc import.spec` (its JSON), with the VMs on
/// `network`, as pretty-printed JSON; or the message for why there is none.
pub open spec fn vm_import_spec(output: Seq<char>, network: Seq<char>) -> Result<
    Seq<char>,
    Seq<char>,
> {
    match json_document(output) {
        None => Err("Failed to deserialize govc import.spec output"@),
        Some(spec) => match network_mapped(spec, network) {
            None => Err("Missing network mappings for VM network"@),
            Some(m) => Ok(json_pretty(m)),
        },
    }
}

fn text_doc(s: &str) -> (r: Doc)
    ensures
        r@ == DocView::Text(s@),
{
    Doc::Text(owned(s))
}

/// The import spec `spec` with its network mappings replaced by the one for `network`, when it
/// has a list of them.
pub fn with_network_mapping(spec: Doc, network: &str) -> (r: Option<Doc>)
    ensures
        opt_doc_view(r) == network_mapped(spec@, network@),
{
    match spec {
        Doc::Mapping(mut es) => {
            proof {
                lemma_entries_view(es);
            }
            let i = key_position(&es, "NetworkMapping");
            if i >= es.len() {
                return None;
            }
            let is_list = match &es[i].1 {
                Doc::List(_) => true,
                _ => false,
            };
            assert(entry_views(es@)[i as int] == (es@[i as int].0@, es@[i as int].1@));
            if !is_list {
                return None;
            }
            let mut entries: Vec<(Doc, Doc)> = Vec::new();
            entries.push((text_doc("Name"), text_doc("VM Network")));
            entries.push((text_doc("Network"), text_doc(network)));
            let mapping = mapping_of(entries);
            let mut list: Vec<Doc> = Vec::new();
            list.push(mapping);
            proof {
                lemma_list_view(list);
                assert(entry_views(entries@) =~= seq![
                    (DocView::Text("Name"@), DocView::Text("VM Network"@)),
                    (DocView::Text("Network"@), DocView::Text(network@)),
                ]);
                assert(doc_views(list@) =~= seq![vm_network_mapping(network@)]);
            }
            let ghost before = entry_views(es@);
            es.set(i, (text_doc("NetworkMapping"), Doc::List(list)));
            assert(entry_views(es@) =~= before.update(
                i as int,
                (DocView::Text("NetworkMapping"@), DocView::List(seq![vm_network_mapping(network@)])),
            ));
            Some(mapping_of(es))
        },
        _ => None,
    }
}

/// The import spec for the OVA, as pretty-printed JSON: what `govc import.spec` printed
/// (`import_spec_output`), with the VMs on the vCenter network `network`.
pub fn ova_import_spec(import_spec_output: &str, network: &str, resources: Resources) -> (r: Result<
    String,
    ProviderError,
>)
    ensures
        match vm_import_spec(import_spec_output@, network@) {
            Ok(t) => r matches Ok(s) && s@ == t,
            Err(m) => r matches Err(e) && e.resources == resources && e.context@ == m,
        },
{
    let spec = match parse_json(import_spec_output) {
        Some(d) => d,
        None => {
            return Err(
                ProviderError::new_with_context(
                    resources,
                    owned("Failed to deserialize govc import.spec output"),
                ),
            );
        },
    };
    match with_network_mapping(spec, network) {
        Some(m) => Ok(json_pretty_text(&m)),
        None => Err(
            ProviderError::new_with_context(
                resources,
                owned("Missing network mappings for VM network"),
            ),
        ),
    }
}

/// The arguments of `govc vm.destroy` for a worker node, found by its IP address.
pub open spec fn destroy_vm_args_spec(vm: VSphereVM) -> Seq<Seq<char>> {
    seq!["vm.destroy"@, "-vm.ip="@ + vm.ip_address@, vm.name@]
}

/// The arguments with which `govc` destroys the worker `vm`.
pub fn destroy_vm_args(vm: &VSphereVM) -> (r: Vec<String>)
    ensures
        string_views(r@) == destroy_vm_args_spec(*vm),
{
    let mut v: Vec<String> = Vec::new();
    push_text(&mut v, "vm.destroy");
    let mut ip = owned("-vm.ip=");
    ip.append(vm.ip_address.as_str());
    push_string(&mut v, ip);
    push_text(&mut v, vm.name.as_str());
    assert(string_views(v@) =~= destroy_vm_args_spec(*vm));
    v
}

/// The environment variables that point `govc` at the configured vCenter.
pub open spec fn govc_env_spec(config: VSphereVmConfig) -> Seq<(Seq<char>, Seq<char>)> {
    seq![
        ("GOVC_URL"@, config.vcenter_host_url@),
        ("GOVC_DATACENTER"@, config.vcenter_datacenter@),
        ("GOVC_DATASTORE"@, config.vcenter_datastore@),
        ("GOVC_NETWORK"@, config.vcenter_network@),
        ("GOVC_RESOURCE_POOL"@, config.vcenter_resource_pool@),
        ("GOVC_FOLDER"@, config.vcenter_workload_folder@),
    ]
}

/// The views of (name, value) pairs.
pub open spec fn pair_views(v: Seq<(String, String)>) -> Seq<(Seq<char>, Seq<char>)> {
    v.map_values(|p: (String, String)| (p.0@, p.1@))
}

/// The environment, as (name, value) pairs in order, with which `govc` reaches the vCenter.
pub fn govc_env(config: &VSphereVmConfig) -> (r: Vec<(String, String)>)
    ensures
        pair_views(r@) == govc_env_spec(*config),
{
    let mut v: Vec<(String, String)> = Vec::new();
    v.push((owned("GOVC_URL"), config.vcenter_host_url.clone()));
    v.push((owned("GOVC_DATACENTER"), config.vcenter_datacenter.clone()));
    v.push((owned("GOVC_DATASTORE"), config.vcenter_datastore.clone()));
    v.push((owned("GOVC_NETWORK"), config.vcenter_network.clone()));
    v.push((owned("GOVC_RESOURCE_POOL"), config.vcenter_resource_pool.clone()));
    v.push((owned("GOVC_FOLDER"), config.vcenter_workload_folder.clone()));
    assert(pair_views(v@) =~= govc_env_spec(*config));
    v
}

/// The instance IDs of the VMs, in the order the VMs were launched.
pub fn created_instance_ids(vms: &Vec<VSphereVM>) -> (r: Vec<String>)
    ensures
        string_views(r@) == vms@.map_values(|vm: VSphereVM| vm.instance_id@),
{
    let mut v: Vec<String> = Vec::new();
    let mut i: usize = 0;
    while i < vms.len()
        invariant
            0 <= i <= vms@.len(),
            string_views(v@) == vms@.take(i as int).map_values(|vm: VSphereVM| vm.instance_id@),
        decreases vms.len() - i,
    {
        push_string(&mut v, vms[i].instance_id.clone());
        assert(vms@.take(i + 1).map_values(|vm: VSphereVM| vm.instance_id@) =~= vms@.take(
            i as int,
        ).map_values(|vm: VSphereVM| vm.instance_id@).push(vms@[i as int].instance_id@));
        i = i + 1;
    }
    assert(vms@.take(i as int) =~= vms@);
    v
}

/// The agent's memo: its status and what it records of the resources it has created.
#[derive(Debug, Default)]
pub struct VmProgress {
    /// What the agent reports it is doing.
    pub current_status: String,
    /// Name of the VM template used to create the worker nodes.
    pub vm_template: String,
    /// The VMs launched so far.
    pub vms: Vec<VSphereVM>,
    /// The SSM activation of the VMs.
    pub ssm_activation_id: String,
}

/// Whether anything the agent created may remain.
pub open spec fn vm_resources_remain(p: VmProgress) -> bool {
    p.vms@.len() > 0 || p.ssm_activation_id@.len() > 0 || p.vm_template@.len() > 0
}

impl VMDestroyer {
    /// What remains when destruction fails: something, as soon as the memo records a VM, an
    /// activation or a template.
    pub fn resources_situation(&self, progress: &VmProgress) -> (r: Resources)
        ensures
            r == if vm_resources_remain(*progress) {
                Resources::Remaining
            } else {
                Resources::Clear
            },
    {
        if progress.vms.len() > 0 || !progress.ssm_activation_id.as_str().is_empty()
            || !progress.vm_template.as_str().is_empty() {
            Resources::Remaining
        } else {
            Resources::Clear
        }
    }

    /// The steps, in order, with which the destroyer removes what `progress` records.
    pub fn teardown_steps(&self, progress: &VmProgress) -> (r: Vec<VmTeardownStep>)
        ensures
            r@ == vm_teardown_plan(progress.vms@.len()),
    {
        let mut v: Vec<VmTeardownStep> = Vec::new();
        let mut i: usize = 0;
        while i < progress.vms.len()
            invariant
                0 <= i <= progress.vms@.len(),
                v@ == vm_steps(i as nat),
            decreases progress.vms.len() - i,
        {
            v.push(VmTeardownStep::DeleteNode(i));
            v.push(VmTeardownStep::DestroyVm(i));
            v.push(VmTeardownStep::DeregisterInstance(i));
            assert(v@ =~= vm_steps((i + 1) as nat));
            i = i + 1;
        }
        v.push(VmTeardownStep::DestroyTemplate);
        v.push(VmTeardownStep::DeleteActivation);
        assert(v@ =~= vm_teardown_plan(progress.vms@.len()));
        v
    }
}

/// One step of removing the VMs: the index is that of the VM in the memo.
#[derive(Clone, Copy, Debug, PartialEq, Eq, Structural)]
pub enum VmTeardownStep {
    /// Remove the VM's node, named by its IP address, from the cluster.
    DeleteNode(usize),
    /// `govc vm.destroy` the VM.
    DestroyVm(usize),
    /// Deregister the VM's managed instance from SSM.
    DeregisterInstance(usize),
    /// `govc vm.destroy` the VM template.
    DestroyTemplate,
    /// Delete the SSM activation.
    DeleteActivation,
}

/// The steps for the first `n` VMs: for each, its node, the VM and its managed instance.
pub open spec fn vm_steps(n: nat) -> Seq<VmTeardownStep>
    decreases n,
{
    if n == 0 {
        Seq::empty()
    } else {
        let i = (n - 1) as usize;
        vm_steps((n - 1) as nat) + seq![
            VmTeardownStep::DeleteNode(i),
            VmTeardownStep::DestroyVm(i),
            VmTeardownStep::DeregisterInstance(i),
        ]
    }
}

/// The whole teardown for `n` VMs: the VMs one by one, then the template, then the activation.
pub open spec fn vm_teardown_plan(n: nat) -> Seq<VmTeardownStep> {
    vm_steps(n) + seq![VmTeardownStep::DestroyTemplate, VmTeardownStep::DeleteActivation]
}

/// Every recorded VM is torn down completely, in order: its node is deleted first, then the VM,
/// then its managed instance, all before the template and the activation.
pub proof fn lemma_every_vm_torn_down(n: nat, i: nat)
    requires
        i < n,
        n < usize::MAX,
    ensures
        vm_teardown_plan(n).len() == 3 * n + 2,
        vm_teardown_plan(n)[3 * i as int] == VmTeardownStep::DeleteNode(i as usize),
        vm_teardown_plan(n)[(3 * i + 1) as int] == VmTeardownStep::DestroyVm(i as usize),
        vm_teardown_plan(n)[(3 * i + 2) as int] == VmTeardownStep::DeregisterInstance(i as usize),
        vm_teardown_plan(n)[3 * n as int] == VmTeardownStep::DestroyTemplate,
        vm_teardown_plan(n)[(3 * n + 1) as int] == VmTeardownStep::DeleteActivation,
    decreases n,
{
    lemma_vm_steps(n, i);
}

proof fn lemma_vm_steps(n: nat, i: nat)
    requires
        i < n,
        n < usize::MAX,
    ensures
        vm_steps(n).len() == 3 * n,
        vm_steps(n)[3 * i as int] == VmTeardownStep::DeleteNode(i as usize),
        vm_steps(n)[(3 * i + 1) as int] == VmTeardownStep::DestroyVm(i as usize),
        vm_steps(n)[(3 * i + 2) as int] == VmTeardownStep::DeregisterInstance(i as usize),
    decreases n,
{
    if i + 1 < n {
        lemma_vm_steps((n - 1) as nat, i);
    } else {
        lemma_vm_steps_len((n - 1) as nat);
    }
}

proof fn lemma_vm_steps_len(n: nat)
    ensures
        vm_steps(n).len() == 3 * n,
    decreases n,
{
    if n > 0 {
        lemma_vm_steps_len((n - 1) as nat);
    }
}

/// What the vSphere credentials secret gives: the environment with which `govc` and EKS
/// Anywhere log in to vCenter, or why it cannot.
pub open spec fn vsphere_credentials_spec(
    secret_name: Seq<char>,
    username: Option<Seq<u8>>,
    password: Option<Seq<u8>>,
) -> Result<Seq<(Seq<char>, Seq<char>)>, Seq<char>> {
    match username {
        None => Err("vsphere username missing from secret '"@ + secret_name + "'"@),
        Some(u) => if !valid_utf8(u) {
            Err("Could not convert vsphere username to String"@)
        } else {
            match password {
                None => Err("vsphere password missing from secret '"@ + secret_name + "'"@),
                Some(p) => if !valid_utf8(p) {
                    Err("Could not convert secret-access-key to String"@)
                } else {
                    Ok(
                        seq![
                            ("GOVC_USERNAME"@, decode_utf8(u)),
                            ("GOVC_PASSWORD"@, decode_utf8(p)),
                            ("EKSA_VSPHERE_USERNAME"@, decode_utf8(u)),
                            ("EKSA_VSPHERE_PASSWORD"@, decode_utf8(p)),
                        ],
                    )
                },
            }
        },
    }
}

/// The environment, as (name, value) pairs, with which `govc` and EKS Anywhere log in to
/// vCenter, from the `username` and `password` of the secret `secret_name`; or the error when one
/// is missing or is not UTF-8.
pub fn vsphere_credentials_env(
    secret_name: &str,
    username: Option<Vec<u8>>,
    password: Option<Vec<u8>>,
    resources: Resources,
) -> (r: Result<Vec<(String, String)>, ProviderError>)
    ensures
        match vsphere_credentials_spec(
            secret_name@,
            match username {
                Some(u) => Some(u@),
                None => None,
            },
            match password {
                Some(p) => Some(p@),
                None => None,
            },
        ) {
            Ok(env) => r matches Ok(v) && pair_views(v@) == env,
            Err(m) => r matches Err(e) && e.resources == resources && e.context@ == m,
        },
{
    let username = match username {
        Some(u) => u,
        None => {
            let mut m = owned("vsphere username missing from secret '");
            m.append(secret_name);
            m.append("'");
            return Err(ProviderError::new_with_context(resources, m));
        },
    };
    let username = match string_from_utf8(username) {
        Ok(u) => u,
        Err(_) => {
            return Err(
                ProviderError::new_with_context(
                    resources,
                    owned("Could not convert vsphere username to String"),
                ),
            );
        },
    };
    let password = match password {
        Some(p) => p,
        None => {
            let mut m = owned("vsphere password missing from secret '");
            m.append(secret_name);
            m.append("'");
            return Err(ProviderError::new_with_context(resources, m));
        },
    };
    let password = match string_from_utf8(password) {
        Ok(p) => p,
        Err(_) => {
            return Err(
                ProviderError::new_with_context(
                    resources,
                    owned("Could not convert secret-access-key to String"),
                ),
            );
        },
    };
    let mut v: Vec<(String, String)> = Vec::new();
    v.push((owned("GOVC_USERNAME"), username.clone()));
    v.push((owned("GOVC_PASSWORD"), password.clone()));
    v.push((owned("EKSA_VSPHERE_USERNAME"), username));
    v.push((owned("EKSA_VSPHERE_PASSWORD"), password));
    assert(pair_views(v@) =~= seq![
        ("GOVC_USERNAME"@, v@[0].1@),
        ("GOVC_PASSWORD"@, v@[1].1@),
        ("EKSA_VSPHERE_USERNAME"@, v@[2].1@),
        ("EKSA_VSPHERE_PASSWORD"@, v@[3].1@),
    ]);
    Ok(v)
}

impl VMCreator {
    /// The user data of the worker VMs: the default one for joining the cluster at `endpoint`,
    /// replaced by the custom user data, or with the custom user data merged into it (a failed
    /// merge leaves nothing behind). `None` only where the merged text is too long to encode.
    pub fn userdata(
        &self,
        endpoint: &str,
        cluster_dns_ip: &str,
        bootstrap_token: &str,
        certificate: &str,
        control_container_userdata: &str,
        custom_user_data: &Option<CustomUserData>,
    ) -> (r: Option<Result<String, ProviderError>>)
        requires
            encodable(
                vsphere_userdata_text(
                    endpoint@,
                    cluster_dns_ip@,
                    bootstrap_token@,
                    certificate@,
                    control_container_userdata@,
                ).len(),
            ),
        ensures
            ({
                let text = vsphere_userdata_text(
                    endpoint@,
                    cluster_dns_ip@,
                    bootstrap_token@,
                    certificate@,
                    control_container_userdata@,
                );
                match custom_user_data {
                    None => r matches Some(Ok(s)) && s@ == encoded_text(text) && decoded_text(s@)
                        == Some(text),
                    Some(CustomUserData::Replace { encoded_userdata }) => r matches Some(Ok(s))
                        && s@ == encoded_userdata@,
                    Some(CustomUserData::Merge { encoded_userdata }) => is_merged_userdata(
                        r,
                        encoded_text(text),
                        encoded_userdata@,
                    ),
                }
            }),
    {
        let default = default_userdata(
            endpoint,
            cluster_dns_ip,
            bootstrap_token,
            certificate,
            control_container_userdata,
        );
        match custom_user_data {
            None => Some(Ok(default)),
            Some(CustomUserData::Replace { encoded_userdata }) => Some(Ok(encoded_userdata.clone())),
            Some(CustomUserData::Merge { encoded_userdata }) => merged_userdata(
                &default,
                encoded_userdata,
            ),
        }
    }
}

/// A step of the vSphere VM agent's creation of worker VMs.
#[derive(Clone, Copy, Debug, PartialEq, Eq, Structural)]
pub enum VmCreateStep {
    /// Read the memo from the controller.
    GetInfo,
    /// Send the memo with its new status to the controller.
    SendStatus,
    /// Make the AWS configuration.
    CreateAwsConfig,
    /// Make sure the SSM service role exists.
    EnsureSsmServiceRole,
    /// Read the vSphere credentials from their secret.
    FetchCredentials,
    /// Decode and write the cluster's kubeconfig.
    WriteKubeconfig,
    /// Read the kubeconfig back.
    ReadKubeconfig,
    /// Make a client configuration of the kubeconfig.
    LoadKubeconfig,
    /// Make the Kubernetes client of the cluster.
    CreateClient,
    /// Download the OVA from the TUF repository.
    DownloadOva,
    /// Query the cluster's services for its DNS IP.
    QueryClusterServices,
    /// Read the cluster DNS IP.
    ReadClusterDnsIp,
    /// Read the cluster's certificate authority data.
    ReadCertificate,
    /// Run `kubeadm token create`.
    CreateBootstrapToken,
    /// Run `govc import.spec`.
    RunImportSpec,
    /// Read the import spec and map the VM network (`ova_import_spec`).
    MakeImportSpec,
    /// Create the import spec file.
    CreateImportSpecFile,
    /// Write the import spec file.
    WriteImportSpecFile,
    /// Run `govc import.ova`.
    ImportOva,
    /// Check that the OVA was imported.
    CheckImportOva,
    /// Run `govc vm.markastemplate`.
    MarkTemplate,
    /// Check that the VM was made a template.
    CheckMarkTemplate,
    /// Create the SSM activation of the VMs.
    CreateSsmActivation,
    /// Run `govc vm.clone` for a worker node.
    CloneVm,
    /// Check that the VM was cloned.
    CheckCloneVm,
    /// Run `govc vm.change` with the user data.
    InjectUserdata,
    /// Check that the user data was injected.
    CheckInjectUserdata,
    /// Run `govc vm.power -on`.
    PowerOn,
    /// Check that the VM is powered on.
    CheckPowerOn,
    /// Run `govc vm.info`.
    RunVmInfo,
    /// Read the VM's IP address (`vm_ip_address`).
    ReadVmIp,
    /// Wait until the VM's SSM agent is registered.
    WaitForSsm,
    /// Check the SSM registration of the VM.
    CheckSsm,
    /// Read the managed instance of the VM.
    ReadSsmInstance,
    /// Record the template in the memo.
    RecordTemplate,
    /// Record the SSM activation in the memo.
    RecordActivation,
    /// Record the node's VM in the memo.
    RecordVm,
}

/// The vSphere VM creator's steps up to the worker nodes: nothing is left behind until the OVA is imported, what is left is unknown while it is made a template, and the template remains from then on.
pub open spec fn vm_create_plan_spec() -> Seq<PlannedStep<VmCreateStep>> {
    seq![
        PlannedStep { step: VmCreateStep::GetInfo, status: None, on_failure: Resources::Unknown, failure: Some("Unable to get info from info client"), wait_secs: None, fatal: true },
        PlannedStep { step: VmCreateStep::SendStatus, status: Some("Initializing agent"), on_failure: Resources::Clear, failure: Some("Error sending cluster creation message"), wait_secs: None, fatal: true },
        PlannedStep { step: VmCreateStep::CreateAwsConfig, status: None, on_failure: Resources::Clear, failure: Some("Error creating config"), wait_secs: None, fatal: true },
        PlannedStep { step: VmCreateStep::SendStatus, status: Some("Checking SSM service role"), on_failure: Resources::Clear, failure: Some("Error sending cluster creation message"), wait_secs: None, fatal: true },
        PlannedStep { step: VmCreateStep::EnsureSsmServiceRole, status: None, on_failure: Resources::Clear, failure: Some("Unable to check for SSM service role"), wait_secs: None, fatal: true },
        PlannedStep { step: VmCreateStep::SendStatus, status: Some("Getting vSphere secret"), on_failure: Resources::Clear, failure: Some("Error sending cluster creation message"), wait_secs: None, fatal: true },
        PlannedStep { step: VmCreateStep::FetchCredentials, status: None, on_failure: Resources::Clear, failure: Some("Unable to fetch vSphere credentials"), wait_secs: None, fatal: true },
        PlannedStep { step: VmCreateStep::SendStatus, status: Some("Setting GOVC env"), on_failure: Resources::Clear, failure: Some("Error sending cluster creation message"), wait_secs: None, fatal: true },
        PlannedStep { step: VmCreateStep::SendStatus, status: Some("Writing kubeconfig"), on_failure: Resources::Clear, failure: Some("Error sending cluster creation message"), wait_secs: None, fatal: true },
        PlannedStep { step: VmCreateStep::WriteKubeconfig, status: None, on_failure: Resources::Clear, failure: Some("Failed to write out kubeconfig for vSphere cluster"), wait_secs: None, fatal: true },
        PlannedStep { step: VmCreateStep::ReadKubeconfig, status: None, on_failure: Resources::Clear, failure: Some("Unable to read kubeconfig"), wait_secs: None, fatal: true },
        PlannedStep { step: VmCreateStep::LoadKubeconfig, status: None, on_failure: Resources::Clear, failure: Some("Unable load kubeconfig"), wait_secs: None, fatal: true },
        PlannedStep { step: VmCreateStep::SendStatus, status: Some("Creating K8s client"), on_failure: Resources::Clear, failure: Some("Error sending cluster creation message"), wait_secs: None, fatal: true },
        PlannedStep { step: VmCreateStep::CreateClient, status: None, on_failure: Resources::Clear, failure: Some("Unable create K8s client from kubeconfig"), wait_secs: None, fatal: true },
        PlannedStep { step: VmCreateStep::SendStatus, status: Some("Downloading OVA"), on_failure: Resources::Clear, failure: Some("Error sending cluster creation message"), wait_secs: None, fatal: true },
        PlannedStep { step: VmCreateStep::DownloadOva, status: None, on_failure: Resources::Clear, failure: None, wait_secs: None, fatal: true },
        PlannedStep { step: VmCreateStep::SendStatus, status: Some("Retrieving K8s cluster info"), on_failure: Resources::Clear, failure: Some("Error sending cluster creation message"), wait_secs: None, fatal: true },
        PlannedStep { step: VmCreateStep::QueryClusterServices, status: None, on_failure: Resources::Clear, failure: Some("Failed to query for K8s cluster services"), wait_secs: None, fatal: true },
        PlannedStep { step: VmCreateStep::ReadClusterDnsIp, status: None, on_failure: Resources::Clear, failure: Some("Missing Cluster DNS IP"), wait_secs: None, fatal: true },
        PlannedStep { step: VmCreateStep::ReadCertificate, status: None, on_failure: Resources::Clear, failure: Some("Missing Cluster certificate authority data"), wait_secs: None, fatal: true },
        PlannedStep { step: VmCreateStep::SendStatus, status: Some("Creating bootstrap token"), on_failure: Resources::Clear, failure: Some("Error sending cluster creation message"), wait_secs: None, fatal: true },
        PlannedStep { step: VmCreateStep::CreateBootstrapToken, status: None, on_failure: Resources::Clear, failure: Some("Failed to start kubeadm"), wait_secs: None, fatal: true },
        PlannedStep { step: VmCreateStep::SendStatus, status: Some("Updating import spec"), on_failure: Resources::Clear, failure: Some("Error sending cluster creation message"), wait_secs: None, fatal: true },
        PlannedStep { step: VmCreateStep::RunImportSpec, status: None, on_failure: Resources::Clear, failure: Some("Failed to start govc"), wait_secs: None, fatal: true },
        PlannedStep { step: VmCreateStep::MakeImportSpec, status: None, on_failure: Resources::Clear, failure: None, wait_secs: None, fatal: true },
        PlannedStep { step: VmCreateStep::CreateImportSpecFile, status: None, on_failure: Resources::Clear, failure: Some("Failed to create ova import spec file"), wait_secs: None, fatal: true },
        PlannedStep { step: VmCreateStep::WriteImportSpecFile, status: None, on_failure: Resources::Clear, failure: Some("Failed to write out OVA import spec file"), wait_secs: None, fatal: true },
        PlannedStep { step: VmCreateStep::SendStatus, status: Some("Importing OVA"), on_failure: Resources::Clear, failure: Some("Error sending cluster creation message"), wait_secs: None, fatal: true },
        PlannedStep { step: VmCreateStep::ImportOva, status: None, on_failure: Resources::Clear, failure: Some("Failed to start govc"), wait_secs: None, fatal: true },
        PlannedStep { step: VmCreateStep::CheckImportOva, status: None, on_failure: Resources::Unknown, failure: None, wait_secs: None, fatal: true },
        PlannedStep { step: VmCreateStep::SendStatus, status: Some("Creating template from OVA"), on_failure: Resources::Unknown, failure: Some("Error sending cluster creation message"), wait_secs: None, fatal: true },
        PlannedStep { step: VmCreateStep::MarkTemplate, status: None, on_failure: Resources::Remaining, failure: Some("Failed to start govc"), wait_secs: None, fatal: true },
        PlannedStep { step: VmCreateStep::CheckMarkTemplate, status: None, on_failure: Resources::Remaining, failure: None, wait_secs: None, fatal: true },
        PlannedStep { step: VmCreateStep::RecordTemplate, status: None, on_failure: Resources::Remaining, failure: None, wait_secs: None, fatal: true },
        PlannedStep { step: VmCreateStep::CreateSsmActivation, status: None, on_failure: Resources::Remaining, failure: Some("Unable to create SSM activation"), wait_secs: None, fatal: true },
        PlannedStep { step: VmCreateStep::RecordActivation, status: None, on_failure: Resources::Remaining, failure: None, wait_secs: None, fatal: true },
        PlannedStep { step: VmCreateStep::SendStatus, status: Some("Launching worker nodes"), on_failure: Resources::Remaining, failure: Some("Error sending cluster creation message"), wait_secs: None, fatal: true },
    ]
}

/// The vSphere VM creator's steps up to the worker nodes: nothing is left behind until the OVA is imported, what is left is unknown while it is made a template, and the template remains from then on.
pub fn vm_create_plan() -> (r: Vec<PlannedStep<VmCreateStep>>)
    ensures
        r@ == vm_create_plan_spec(),
{
    let mut v: Vec<PlannedStep<VmCreateStep>> = Vec::new();
    v.push(PlannedStep { step: VmCreateStep::GetInfo, status: None, on_failure: Resources::Unknown, failure: Some("Unable to get info from info client"), wait_secs: None, fatal: true });
    v.push(PlannedStep { step: VmCreateStep::SendStatus, status: Some("Initializing agent"), on_failure: Resources::Clear, failure: Some("Error sending cluster creation message"), wait_secs: None, fatal: true });
    v.push(PlannedStep { step: VmCreateStep::CreateAwsConfig, status: None, on_failure: Resources::Clear, failure: Some("Error creating config"), wait_secs: None, fatal: true });
    v.push(PlannedStep { step: VmCreateStep::SendStatus, status: Some("Checking SSM service role"), on_failure: Resources::Clear, failure: Some("Error sending cluster creation message"), wait_secs: None, fatal: true });
    v.push(PlannedStep { step: VmCreateStep::EnsureSsmServiceRole, status: None, on_failure: Resources::Clear, failure: Some("Unable to check for SSM service role"), wait_secs: None, fatal: true });
    v.push(PlannedStep { step: VmCreateStep::SendStatus, status: Some("Getting vSphere secret"), on_failure: Resources::Clear, failure: Some("Error sending cluster creation message"), wait_secs: None, fatal: true });
    v.push(PlannedStep { step: VmCreateStep::FetchCredentials, status: None, on_failure: Resources::Clear, failure: Some("Unable to fetch vSphere credentials"), wait_secs: None, fatal: true });
    v.push(PlannedStep { step: VmCreateStep::SendStatus, status: Some("Setting GOVC env"), on_failure: Resources::Clear, failure: Some("Error sending cluster creation message"), wait_secs: None, fatal: true });
    v.push(PlannedStep { step: VmCreateStep::SendStatus, status: Some("Writing kubeconfig"), on_failure: Resources::Clear, failure: Some("Error sending cluster creation message"), wait_secs: None, fatal: true });
    v.push(PlannedStep { step: VmCreateStep::WriteKubeconfig, status: None, on_failure: Resources::Clear, failure: Some("Failed to write out kubeconfig for vSphere cluster"), wait_secs: None, fatal: true });
    v.push(PlannedStep { step: VmCreateStep::ReadKubeconfig, status: None, on_failure: Resources::Clear, failure: Some("Unable to read kubeconfig"), wait_secs: None, fatal: true });
    v.push(PlannedStep { step: VmCreateStep::LoadKubeconfig, status: None, on_failure: Resources::Clear, failure: Some("Unable load kubeconfig"), wait_secs: None, fatal: true });
    v.push(PlannedStep { step: VmCreateStep::SendStatus, status: Some("Creating K8s client"), on_failure: Resources::Clear, failure: Some("Error sending cluster creation message"), wait_secs: None, fatal: true });
    v.push(PlannedStep { step: VmCreateStep::CreateClient, status: None, on_failure: Resources::Clear, failure: Some("Unable create K8s client from kubeconfig"), wait_secs: None, fatal: true });
    v.push(PlannedStep { step: VmCreateStep::SendStatus, status: Some("Downloading OVA"), on_failure: Resources::Clear, failure: Some("Error sending cluster creation message"), wait_secs: None, fatal: true });
    v.push(PlannedStep { step: VmCreateStep::DownloadOva, status: None, on_failure: Resources::Clear, failure: None, wait_secs: None, fatal: true });
    v.push(PlannedStep { step: VmCreateStep::SendStatus, status: Some("Retrieving K8s cluster info"), on_failure: Resources::Clear, failure: Some("Error sending cluster creation message"), wait_secs: None, fatal: true });
    v.push(PlannedStep { step: VmCreateStep::QueryClusterServices, status: None, on_failure: Resources::Clear, failure: Some("Failed to query for K8s cluster services"), wait_secs: None, fatal: true });
    v.push(PlannedStep { step: VmCreateStep::ReadClusterDnsIp, status: None, on_failure: Resources::Clear, failure: Some("Missing Cluster DNS IP"), wait_secs: None, fatal: true });
    v.push(PlannedStep { step: VmCreateStep::ReadCertificate, status: None, on_failure: Resources::Clear, failure: Some("Missing Cluster certificate authority data"), wait_secs: None, fatal: true });
    v.push(PlannedStep { step: VmCreateStep::SendStatus, status: Some("Creating bootstrap token"), on_failure: Resources::Clear, failure: Some("Error sending cluster creation message"), wait_secs: None, fatal: true });
    v.push(PlannedStep { step: VmCreateStep::CreateBootstrapToken, status: None, on_failure: Resources::Clear, failure: Some("Failed to start kubeadm"), wait_secs: None, fatal: true });
    v.push(PlannedStep { step: VmCreateStep::SendStatus, status: Some("Updating import spec"), on_failure: Resources::Clear, failure: Some("Error sending cluster creation message"), wait_secs: None, fatal: true });
    v.push(PlannedStep { step: VmCreateStep::RunImportSpec, status: None, on_failure: Resources::Clear, failure: Some("Failed to start govc"), wait_secs: None, fatal: true });
    v.push(PlannedStep { step: VmCreateStep::MakeImportSpec, status: None, on_failure: Resources::Clear, failure: None, wait_secs: None, fatal: true });
    v.push(PlannedStep { step: VmCreateStep::CreateImportSpecFile, status: None, on_failure: Resources::Clear, failure: Some("Failed to create ova import spec file"), wait_secs: None, fatal: true });
    v.push(PlannedStep { step: VmCreateStep::WriteImportSpecFile, status: None, on_failure: Resources::Clear, failure: Some("Failed to write out OVA import spec file"), wait_secs: None, fatal: true });
    v.push(PlannedStep { step: VmCreateStep::SendStatus, status: Some("Importing OVA"), on_failure: Resources::Clear, failure: Some("Error sending cluster creation message"), wait_secs: None, fatal: true });
    v.push(PlannedStep { step: VmCreateStep::ImportOva, status: None, on_failure: Resources::Clear, failure: Some("Failed to start govc"), wait_secs: None, fatal: true });
    v.push(PlannedStep { step: VmCreateStep::CheckImportOva, status: None, on_failure: Resources::Unknown, failure: None, wait_secs: None, fatal: true });
    v.push(PlannedStep { step: VmCreateStep::SendStatus, status: Some("Creating template from OVA"), on_failure: Resources::Unknown, failure: Some("Error sending cluster creation message"), wait_secs: None, fatal: true });
    v.push(PlannedStep { step: VmCreateStep::MarkTemplate, status: None, on_failure: Resources::Remaining, failure: Some("Failed to start govc"), wait_secs: None, fatal: true });
    v.push(PlannedStep { step: VmCreateStep::CheckMarkTemplate, status: None, on_failure: Resources::Remaining, failure: None, wait_secs: None, fatal: true });
    v.push(PlannedStep { step: VmCreateStep::RecordTemplate, status: None, on_failure: Resources::Remaining, failure: None, wait_secs: None, fatal: true });
    v.push(PlannedStep { step: VmCreateStep::CreateSsmActivation, status: None, on_failure: Resources::Remaining, failure: Some("Unable to create SSM activation"), wait_secs: None, fatal: true });
    v.push(PlannedStep { step: VmCreateStep::RecordActivation, status: None, on_failure: Resources::Remaining, failure: None, wait_secs: None, fatal: true });
    v.push(PlannedStep { step: VmCreateStep::SendStatus, status: Some("Launching worker nodes"), on_failure: Resources::Remaining, failure: Some("Error sending cluster creation message"), wait_secs: None, fatal: true });
    assert(v@ =~= vm_create_plan_spec());
    v
}

/// The steps the vSphere VM creator takes for each worker node; the SSM registration waits 60 seconds at most.
pub open spec fn vm_node_plan_spec() -> Seq<PlannedStep<VmCreateStep>> {
    seq![
        PlannedStep { step: VmCreateStep::CloneVm, status: None, on_failure: Resources::Remaining, failure: Some("Failed to start govc"), wait_secs: None, fatal: true },
        PlannedStep { step: VmCreateStep::CheckCloneVm, status: None, on_failure: Resources::Remaining, failure: None, wait_secs: None, fatal: true },
        PlannedStep { step: VmCreateStep::InjectUserdata, status: None, on_failure: Resources::Remaining, failure: Some("Failed to start govc"), wait_secs: None, fatal: true },
        PlannedStep { step: VmCreateStep::CheckInjectUserdata, status: None, on_failure: Resources::Remaining, failure: None, wait_secs: None, fatal: true },
        PlannedStep { step: VmCreateStep::PowerOn, status: None, on_failure: Resources::Remaining, failure: Some("Failed to start govc"), wait_secs: None, fatal: true },
        PlannedStep { step: VmCreateStep::CheckPowerOn, status: None, on_failure: Resources::Remaining, failure: None, wait_secs: None, fatal: true },
        PlannedStep { step: VmCreateStep::RunVmInfo, status: None, on_failure: Resources::Remaining, failure: Some("Failed to start govc"), wait_secs: None, fatal: true },
        PlannedStep { step: VmCreateStep::ReadVmIp, status: None, on_failure: Resources::Remaining, failure: None, wait_secs: None, fatal: true },
        PlannedStep { step: VmCreateStep::WaitForSsm, status: None, on_failure: Resources::Remaining, failure: None, wait_secs: Some(60u64), fatal: true },
        PlannedStep { step: VmCreateStep::CheckSsm, status: None, on_failure: Resources::Remaining, failure: Some("Unable to determine if SSM activation is ready"), wait_secs: None, fatal: true },
        PlannedStep { step: VmCreateStep::ReadSsmInstance, status: None, on_failure: Resources::Remaining, failure: None, wait_secs: None, fatal: true },
        PlannedStep { step: VmCreateStep::RecordVm, status: None, on_failure: Resources::Remaining, failure: None, wait_secs: None, fatal: true },
    ]
}

/// The steps the vSphere VM creator takes for each worker node; the SSM registration waits 60 seconds at most.
pub fn vm_node_plan() -> (r: Vec<PlannedStep<VmCreateStep>>)
    ensures
        r@ == vm_node_plan_spec(),
{
    let mut v: Vec<PlannedStep<VmCreateStep>> = Vec::new();
    v.push(PlannedStep { step: VmCreateStep::CloneVm, status: None, on_failure: Resources::Remaining, failure: Some("Failed to start govc"), wait_secs: None, fatal: true });
    v.push(PlannedStep { step: VmCreateStep::CheckCloneVm, status: None, on_failure: Resources::Remaining, failure: None, wait_secs: None, fatal: true });
    v.push(PlannedStep { step: VmCreateStep::InjectUserdata, status: None, on_failure: Resources::Remaining, failure: Some("Failed to start govc"), wait_secs: None, fatal: true });
    v.push(PlannedStep { step: VmCreateStep::CheckInjectUserdata, status: None, on_failure: Resources::Remaining, failure: None, wait_secs: None, fatal: true });
    v.push(PlannedStep { step: VmCreateStep::PowerOn, status: None, on_failure: Resources::Remaining, failure: Some("Failed to start govc"), wait_secs: None, fatal: true });
    v.push(PlannedStep { step: VmCreateStep::CheckPowerOn, status: None, on_failure: Resources::Remaining, failure: None, wait_secs: None, fatal: true });
    v.push(PlannedStep { step: VmCreateStep::RunVmInfo, status: None, on_failure: Resources::Remaining, failure: Some("Failed to start govc"), wait_secs: None, fatal: true });
    v.push(PlannedStep { step: VmCreateStep::ReadVmIp, status: None, on_failure: Resources::Remaining, failure: None, wait_secs: None, fatal: true });
    v.push(PlannedStep { step: VmCreateStep::WaitForSsm, status: None, on_failure: Resources::Remaining, failure: None, wait_secs: Some(60u64), fatal: true });
    v.push(PlannedStep { step: VmCreateStep::CheckSsm, status: None, on_failure: Resources::Remaining, failure: Some("Unable to determine if SSM activation is ready"), wait_secs: None, fatal: true });
    v.push(PlannedStep { step: VmCreateStep::ReadSsmInstance, status: None, on_failure: Resources::Remaining, failure: None, wait_secs: None, fatal: true });
    v.push(PlannedStep { step: VmCreateStep::RecordVm, status: None, on_failure: Resources::Remaining, failure: None, wait_secs: None, fatal: true });
    assert(v@ =~= vm_node_plan_spec());
    v
}

/// The vSphere VM creator's last step, once every worker node is registered.
pub open spec fn vm_created_plan_spec() -> Seq<PlannedStep<VmCreateStep>> {
    seq![
        PlannedStep { step: VmCreateStep::SendStatus, status: Some("VM(s) created"), on_failure: Resources::Remaining, failure: Some("Error sending final creation message"), wait_secs: None, fatal: true },
    ]
}

/// The vSphere VM creator's last step, once every worker node is registered.
pub fn vm_created_plan() -> (r: Vec<PlannedStep<VmCreateStep>>)
    ensures
        r@ == vm_created_plan_spec(),
{
    let mut v: Vec<PlannedStep<VmCreateStep>> = Vec::new();
    v.push(PlannedStep { step: VmCreateStep::SendStatus, status: Some("VM(s) created"), on_failure: Resources::Remaining, failure: Some("Error sending final creation message"), wait_secs: None, fatal: true });
    assert(v@ =~= vm_created_plan_spec());
    v
}

/// A step the vSphere VM destroyer takes around its teardown.
#[derive(Clone, Copy, Debug, PartialEq, Eq, Structural)]
pub enum VmDestroyPreStep {
    /// Read the memo from the controller.
    GetInfo,
    /// Take the resource's spec.
    ReadSpec,
    /// Make the AWS configuration.
    CreateAwsConfig,
    /// Decode and write the cluster's kubeconfig.
    WriteKubeconfig,
    /// Read the kubeconfig back.
    ReadKubeconfig,
    /// Make a client configuration of the kubeconfig.
    LoadKubeconfig,
    /// Make the Kubernetes client of the cluster.
    CreateClient,
    /// Read the vSphere credentials from their secret.
    FetchCredentials,
    /// Send the memo with its new status to the controller.
    SendStatus,
    /// Send the memo with its new status and no VMs left in it.
    ClearVms,
}

/// The vSphere VM destroyer's steps before its teardown; a failure leaves behind what the memo records (`resources`, from `resources_situation`).
pub open spec fn vm_destroy_preamble_spec(resources: Resources) -> Seq<PlannedStep<VmDestroyPreStep>> {
    seq![
        PlannedStep { step: VmDestroyPreStep::GetInfo, status: None, on_failure: Resources::Unknown, failure: Some("Unable to get info from client"), wait_secs: None, fatal: true },
        PlannedStep { step: VmDestroyPreStep::ReadSpec, status: None, on_failure: resources, failure: Some("Missing vSphere resource agent spec"), wait_secs: None, fatal: true },
        PlannedStep { step: VmDestroyPreStep::CreateAwsConfig, status: None, on_failure: Resources::Clear, failure: Some("Error creating config"), wait_secs: None, fatal: true },
        PlannedStep { step: VmDestroyPreStep::WriteKubeconfig, status: None, on_failure: Resources::Clear, failure: Some("Failed to write out kubeconfig for vSphere cluster"), wait_secs: None, fatal: true },
        PlannedStep { step: VmDestroyPreStep::ReadKubeconfig, status: None, on_failure: resources, failure: Some("Unable to read kubeconfig"), wait_secs: None, fatal: true },
        PlannedStep { step: VmDestroyPreStep::LoadKubeconfig, status: None, on_failure: resources, failure: Some("Unable load kubeconfig"), wait_secs: None, fatal: true },
        PlannedStep { step: VmDestroyPreStep::CreateClient, status: None, on_failure: resources, failure: Some("Unable create K8s client from kubeconfig"), wait_secs: None, fatal: true },
        PlannedStep { step: VmDestroyPreStep::FetchCredentials, status: None, on_failure: resources, failure: Some("Unable to fetch vSphere credentials"), wait_secs: None, fatal: true },
    ]
}

/// The vSphere VM destroyer's steps before its teardown; a failure leaves behind what the memo records (`resources`, from `resources_situation`).
pub fn vm_destroy_preamble(resources: Resources) -> (r: Vec<PlannedStep<VmDestroyPreStep>>)
    ensures
        r@ == vm_destroy_preamble_spec(resources),
{
    let mut v: Vec<PlannedStep<VmDestroyPreStep>> = Vec::new();
    v.push(PlannedStep { step: VmDestroyPreStep::GetInfo, status: None, on_failure: Resources::Unknown, failure: Some("Unable to get info from client"), wait_secs: None, fatal: true });
    v.push(PlannedStep { step: VmDestroyPreStep::ReadSpec, status: None, on_failure: resources, failure: Some("Missing vSphere resource agent spec"), wait_secs: None, fatal: true });
    v.push(PlannedStep { step: VmDestroyPreStep::CreateAwsConfig, status: None, on_failure: Resources::Clear, failure: Some("Error creating config"), wait_secs: None, fatal: true });
    v.push(PlannedStep { step: VmDestroyPreStep::WriteKubeconfig, status: None, on_failure: Resources::Clear, failure: Some("Failed to write out kubeconfig for vSphere cluster"), wait_secs: None, fatal: true });
    v.push(PlannedStep { step: VmDestroyPreStep::ReadKubeconfig, status: None, on_failure: resources, failure: Some("Unable to read kubeconfig"), wait_secs: None, fatal: true });
    v.push(PlannedStep { step: VmDestroyPreStep::LoadKubeconfig, status: None, on_failure: resources, failure: Some("Unable load kubeconfig"), wait_secs: None, fatal: true });
    v.push(PlannedStep { step: VmDestroyPreStep::CreateClient, status: None, on_failure: resources, failure: Some("Unable create K8s client from kubeconfig"), wait_secs: None, fatal: true });
    v.push(PlannedStep { step: VmDestroyPreStep::FetchCredentials, status: None, on_failure: resources, failure: Some("Unable to fetch vSphere credentials"), wait_secs: None, fatal: true });
    assert(v@ =~= vm_destroy_preamble_spec(resources));
    v
}

/// The vSphere VM destroyer's last step: with everything torn down, nothing is left.
pub open spec fn vm_destroyed_plan_spec() -> Seq<PlannedStep<VmDestroyPreStep>> {
    seq![
        PlannedStep { step: VmDestroyPreStep::ClearVms, status: Some("VM(s) deleted"), on_failure: Resources::Clear, failure: Some("Error sending final destruction message"), wait_secs: None, fatal: true },
    ]
}

/// The vSphere VM destroyer's last step: with everything torn down, nothing is left.
pub fn vm_destroyed_plan() -> (r: Vec<PlannedStep<VmDestroyPreStep>>)
    ensures
        r@ == vm_destroyed_plan_spec(),
{
    let mut v: Vec<PlannedStep<VmDestroyPreStep>> = Vec::new();
    v.push(PlannedStep { step: VmDestroyPreStep::ClearVms, status: Some("VM(s) deleted"), on_failure: Resources::Clear, failure: Some("Error sending final destruction message"), wait_secs: None, fatal: true });
    assert(v@ =~= vm_destroyed_plan_spec());
    v
}

/// The teardown of `n` VMs as the vSphere VM destroyer runs it: each step reports its own error
/// (which names the VM, template or activation), with what the memo records left behind.
pub open spec fn vm_teardown_planned(resources: Resources, n: nat) -> Seq<PlannedStep<VmTeardownStep>> {
    vm_teardown_plan(n).map_values(
        |s: VmTeardownStep|
            PlannedStep { step: s, status: None, on_failure: resources, failure: None, wait_secs: None, fatal: true },
    )
}

impl VMDestroyer {
    /// The teardown of the VMs `progress` records, each step with what its failure reports.
    pub fn destroy_plan(&self, progress: &VmProgress, resources: Resources) -> (r: Vec<
        PlannedStep<VmTeardownStep>,
    >)
        ensures
            r@ == vm_teardown_planned(resources, progress.vms@.len()),
    {
        let steps = self.teardown_steps(progress);
        let ghost f = |s: VmTeardownStep|
            PlannedStep { step: s, status: None, on_failure: resources, failure: None, wait_secs: None, fatal: true };
        let mut v: Vec<PlannedStep<VmTeardownStep>> = Vec::new();
        let mut i: usize = 0;
        while i < steps.len()
            invariant
                0 <= i <= steps@.len(),
                steps@ == vm_teardown_plan(progress.vms@.len()),
                f == (|s: VmTeardownStep|
                    PlannedStep { step: s, status: None, on_failure: resources, failure: None, wait_secs: None, fatal: true }),
                v@ == steps@.take(i as int).map_values(f),
            decreases steps.len() - i,
        {
            v.push(PlannedStep { step: steps[i], status: None, on_failure: resources, failure: None, wait_secs: None, fatal: true });
            assert(steps@.take(i + 1).map_values(f) =~= steps@.take(i as int).map_values(f).push(f(steps@[i as int])));
            i = i + 1;
        }
        assert(steps@.take(i as int) =~= steps@);
        v
    }
}


/// The vSphere VM memo as plain values.
pub struct VmProgressView {
    pub current_status: Seq<char>,
    pub vm_template: Seq<char>,
    pub vms: Seq<VSphereVM>,
    pub ssm_activation_id: Seq<char>,
}

impl View for VmProgress {
    type V = VmProgressView;

    open spec fn view(&self) -> VmProgressView {
        VmProgressView {
            current_status: self.current_status@,
            vm_template: self.vm_template@,
            vms: self.vms@,
            ssm_activation_id: self.ssm_activation_id@,
        }
    }
}

/// What the vSphere VM creator has learned by the time it records it: the template it made, the
/// SSM activation, and the VMs of the nodes launched so far, in order.
#[derive(Debug)]
pub struct VmCreateFacts {
    pub template: String,
    pub ssm_activation_id: String,
    pub vms: Vec<VSphereVM>,
}

/// The memo after the creator's step `p`, from `m`: a step with a status reports it, and the
/// recording steps add the template, the activation, or the next node's VM.
pub open spec fn vm_memo_sent(m: VmProgressView, p: PlannedStep<VmCreateStep>, f: VmCreateFacts) -> VmProgressView {
    let m = match p.status {
        Some(s) => VmProgressView { current_status: s@, ..m },
        None => m,
    };
    match p.step {
        VmCreateStep::RecordTemplate => VmProgressView { vm_template: f.template@, ..m },
        VmCreateStep::RecordActivation => VmProgressView { ssm_activation_id: f.ssm_activation_id@, ..m },
        VmCreateStep::RecordVm => VmProgressView { vms: m.vms.push(f.vms@[m.vms.len() as int]), ..m },
        _ => m,
    }
}

/// The creator's memo once `steps` have run, from `m`.
pub open spec fn vm_memo_after(m: VmProgressView, steps: Seq<PlannedStep<VmCreateStep>>, f: VmCreateFacts) -> VmProgressView {
    memo_after(
        m,
        steps,
        f,
        |m: VmProgressView, p: PlannedStep<VmCreateStep>, f: VmCreateFacts| vm_memo_sent(m, p, f),
    )
}

/// The steps for `n` worker nodes, one node after the other.
pub open spec fn vm_nodes_plan(n: nat) -> Seq<PlannedStep<VmCreateStep>>
    decreases n,
{
    if n == 0 {
        Seq::empty()
    } else {
        vm_nodes_plan((n - 1) as nat) + vm_node_plan_spec()
    }
}

/// The vSphere VM creator's whole plan for `n` worker nodes.
pub open spec fn vm_full_create_plan(n: nat) -> Seq<PlannedStep<VmCreateStep>> {
    vm_create_plan_spec() + vm_nodes_plan(n) + vm_created_plan_spec()
}

fn copy_vm(vm: &VSphereVM) -> (r: VSphereVM)
    ensures
        r == *vm,
{
    VSphereVM {
        name: vm.name.clone(),
        instance_id: vm.instance_id.clone(),
        ip_address: vm.ip_address.clone(),
    }
}

impl VMCreator {
    /// Makes `memo` the memo after the step `step`, from what the creator has learned; a node's
    /// VM is recorded once it is among the VMs learned.
    pub fn update_memo(&self, memo: &mut VmProgress, step: &PlannedStep<VmCreateStep>, facts: &VmCreateFacts)
        requires
            step.step == VmCreateStep::RecordVm ==> old(memo).vms@.len() < facts.vms@.len(),
        ensures
            final(memo)@ == vm_memo_sent(old(memo)@, *step, *facts),
    {
        match step.status {
            Some(s) => {
                memo.current_status = owned(s);
            },
            None => {},
        }
        match step.step {
            VmCreateStep::RecordTemplate => {
                memo.vm_template = facts.template.clone();
            },
            VmCreateStep::RecordActivation => {
                memo.ssm_activation_id = facts.ssm_activation_id.clone();
            },
            VmCreateStep::RecordVm => {
                let vm = copy_vm(&facts.vms[memo.vms.len()]);
                memo.vms.push(vm);
            },
            _ => {},
        }
    }
}

proof fn lemma_vm_plain_steps_keep(
    m0: VmProgressView,
    steps: Seq<PlannedStep<VmCreateStep>>,
    facts: VmCreateFacts,
)
    requires
        avoids(steps, VmCreateStep::RecordTemplate),
        avoids(steps, VmCreateStep::RecordActivation),
        avoids(steps, VmCreateStep::RecordVm),
    ensures
        vm_memo_after(m0, steps, facts).vm_template == m0.vm_template,
        vm_memo_after(m0, steps, facts).ssm_activation_id == m0.ssm_activation_id,
        vm_memo_after(m0, steps, facts).vms == m0.vms,
{
    let sent = |m: VmProgressView, p: PlannedStep<VmCreateStep>, f: VmCreateFacts| vm_memo_sent(m, p, f);
    let keep = |m: VmProgressView|
        m.vm_template == m0.vm_template && m.ssm_activation_id == m0.ssm_activation_id && m.vms
            == m0.vms;
    lemma_avoids(steps, VmCreateStep::RecordTemplate);
    lemma_avoids(steps, VmCreateStep::RecordActivation);
    lemma_avoids(steps, VmCreateStep::RecordVm);
    assert forall|m: VmProgressView, i: int| 0 <= i < steps.len() && #[trigger] keep(m) implies keep(
        sent(m, #[trigger] steps[i], facts),
    ) by {
        assert(steps[i].step != VmCreateStep::RecordVm);
    }
    lemma_memo_after_keeps(m0, steps, facts, sent, keep);
}

proof fn lemma_vm_nodes_memo(m0: VmProgressView, facts: VmCreateFacts, n: nat)
    requires
        m0.vms == facts.vms@.take(0),
        n <= facts.vms@.len(),
    ensures
        vm_memo_after(m0, vm_nodes_plan(n), facts).vms == facts.vms@.take(n as int),
        vm_memo_after(m0, vm_nodes_plan(n), facts).vm_template == m0.vm_template,
        vm_memo_after(m0, vm_nodes_plan(n), facts).ssm_activation_id == m0.ssm_activation_id,
    decreases n,
{
    let sent = |m: VmProgressView, p: PlannedStep<VmCreateStep>, f: VmCreateFacts| vm_memo_sent(m, p, f);
    if n == 0 {
        assert(vm_nodes_plan(0) =~= Seq::<PlannedStep<VmCreateStep>>::empty());
    } else {
        lemma_vm_nodes_memo(m0, facts, (n - 1) as nat);
        let before = vm_nodes_plan((n - 1) as nat);
        let node = vm_node_plan_spec();
        lemma_memo_after_append(m0, before, node, facts, sent);
        let m1 = vm_memo_after(m0, before, facts);
        assert(avoids(node.drop_last(), VmCreateStep::RecordTemplate)) by {
            reveal_with_fuel(avoids, 13);
        }
        assert(avoids(node.drop_last(), VmCreateStep::RecordActivation)) by {
            reveal_with_fuel(avoids, 13);
        }
        assert(avoids(node.drop_last(), VmCreateStep::RecordVm)) by {
            reveal_with_fuel(avoids, 13);
        }
        lemma_vm_plain_steps_keep(m1, node.drop_last(), facts);
        assert(node.last().step == VmCreateStep::RecordVm);
        assert(facts.vms@.take(n - 1).push(facts.vms@[n - 1]) =~= facts.vms@.take(n as int));
    }
}

/// The creator's last memo holds the template it made, the SSM activation, and the VM of each
/// of the `n` nodes, in launch order, with the status that the VMs are created; so the instance
/// IDs it hands back (`created_instance_ids` of these VMs) are those of its nodes.
pub proof fn lemma_created_memo_holds_vms(memo: VmProgressView, facts: VmCreateFacts, n: nat)
    requires
        memo.vms.len() == 0,
        n <= facts.vms@.len(),
    ensures
        vm_memo_after(memo, vm_full_create_plan(n), facts).vm_template == facts.template@,
        vm_memo_after(memo, vm_full_create_plan(n), facts).ssm_activation_id
            == facts.ssm_activation_id@,
        vm_memo_after(memo, vm_full_create_plan(n), facts).vms == facts.vms@.take(n as int),
        vm_memo_after(memo, vm_full_create_plan(n), facts).current_status == "VM(s) created"@,
{
    let sent = |m: VmProgressView, p: PlannedStep<VmCreateStep>, f: VmCreateFacts| vm_memo_sent(m, p, f);
    let a = vm_create_plan_spec();
    let k = (a.len() - 4) as int;
    let a1 = a.take(k);
    let a2 = a.skip(k);
    assert(a =~= a1 + a2);
    lemma_memo_after_append(memo, a1, a2, facts, sent);
    assert(avoids(a1, VmCreateStep::RecordTemplate)) by {
        reveal_with_fuel(avoids, 40);
    }
    assert(avoids(a1, VmCreateStep::RecordActivation)) by {
        reveal_with_fuel(avoids, 40);
    }
    assert(avoids(a1, VmCreateStep::RecordVm)) by {
        reveal_with_fuel(avoids, 40);
    }
    lemma_vm_plain_steps_keep(memo, a1, facts);
    let m1 = vm_memo_after(memo, a1, facts);
    assert(a2[0].step == VmCreateStep::RecordTemplate);
    assert(a2[1].step == VmCreateStep::CreateSsmActivation);
    assert(a2[2].step == VmCreateStep::RecordActivation);
    assert(a2[3].step == VmCreateStep::SendStatus);
    assert(a2.len() == 4);
    assert(a2.drop_last().drop_last().drop_last().drop_last() =~= Seq::<PlannedStep<VmCreateStep>>::empty());
    reveal_with_fuel(memo_after, 5);
    let m2 = vm_memo_after(m1, a2, facts);
    assert(m2.vm_template == facts.template@);
    assert(m2.ssm_activation_id == facts.ssm_activation_id@);
    assert(m2.vms.len() == 0);
    assert(m2.vms == facts.vms@.take(0));
    lemma_vm_nodes_memo(m2, facts, n);
    let nodes = vm_nodes_plan(n);
    lemma_memo_after_append(m2, nodes, vm_created_plan_spec(), facts, sent);
    lemma_memo_after_append(memo, a, nodes, facts, sent);
    lemma_memo_after_append(memo, a + nodes, vm_created_plan_spec(), facts, sent);
    lemma_memo_after_one(vm_memo_after(m2, nodes, facts), vm_created_plan_spec()[0], facts, sent);
    assert(vm_created_plan_spec() =~= seq![vm_created_plan_spec()[0]]);
}

/// The memo after the destroyer's step `p`, from `m`: a step with a status reports it, and the
/// last one leaves no VM in the memo.
pub open spec fn vm_destroy_memo_sent(m: VmProgressView, p: PlannedStep<VmDestroyPreStep>, f: ()) -> VmProgressView {
    let m = match p.status {
        Some(s) => VmProgressView { current_status: s@, ..m },
        None => m,
    };
    match p.step {
        VmDestroyPreStep::ClearVms => VmProgressView { vms: Seq::empty(), ..m },
        _ => m,
    }
}

impl VMDestroyer {
    /// Makes `memo` the memo after the destroyer's step `step`.
    pub fn update_memo(&self, memo: &mut VmProgress, step: &PlannedStep<VmDestroyPreStep>)
        ensures
            final(memo)@ == vm_destroy_memo_sent(old(memo)@, *step, ()),
    {
        match step.status {
            Some(s) => {
                memo.current_status = owned(s);
            },
            None => {},
        }
        match step.step {
            VmDestroyPreStep::ClearVms => {
                memo.vms.clear();
            },
            _ => {},
        }
    }
}

/// The destroyer's last memo, once everything is torn down, holds no VM and says the VMs are
/// deleted, whatever the memo it read.
pub proof fn lemma_destroyed_memo_has_no_vms(memo: VmProgressView)
    ensures
        memo_after(memo, vm_destroyed_plan_spec(), (), |m: VmProgressView, p: PlannedStep<VmDestroyPreStep>, f: ()| vm_destroy_memo_sent(m, p, f)).vms.len() == 0,
        memo_after(memo, vm_destroyed_plan_spec(), (), |m: VmProgressView, p: PlannedStep<VmDestroyPreStep>, f: ()| vm_destroy_memo_sent(m, p, f)).current_status == "VM(s) deleted"@,
{
    let sent = |m: VmProgressView, p: PlannedStep<VmDestroyPreStep>, f: ()| vm_destroy_memo_sent(m, p, f);
    assert(vm_destroyed_plan_spec() =~= seq![vm_destroyed_plan_spec()[0]]);
    lemma_memo_after_one(memo, vm_destroyed_plan_spec()[0], (), sent);
}


/// Injecting user data into a VM always declares it base64: `govc vm.change` on the VM sets
/// `guestinfo.userdata` to the given user data and `guestinfo.userdata.encoding` to `base64`,
/// each after its own `-e`, and nothing else.
pub proof fn lemma_injected_userdata_is_declared_base64(node: Seq<char>, userdata: Seq<char>)
    ensures
        inject_userdata_args_spec(node, userdata).len() == 7,
        inject_userdata_args_spec(node, userdata)[0] == "vm.change"@,
        inject_userdata_args_spec(node, userdata)[1] == "-vm"@,
        inject_userdata_args_spec(node, userdata)[2] == node,
        inject_userdata_args_spec(node, userdata)[3] == "-e"@,
        inject_userdata_args_spec(node, userdata)[4] == "guestinfo.userdata="@ + userdata,
        inject_userdata_args_spec(node, userdata)[5] == "-e"@,
        inject_userdata_args_spec(node, userdata)[6] == "guestinfo.userdata.encoding=base64"@,
{
}

} // verus!
