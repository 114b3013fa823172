use bottlerocket_agents::eks::{ClusterConfig, EksctlConfig};
use bottlerocket_agents::eksa::{check_archive_url, release_manifest_url};
use bottlerocket_agents::metal_k8s::MetalK8sClusterCreator;
use bottlerocket_agents::secrets::secret_values;
use bottlerocket_agents::userdata::{control_container_userdata, CustomUserData};
use bottlerocket_agents::provider::Resources;
use bottlerocket_agents::vsphere_k8s::{ova_template_import_spec, vcenter_thumbprint};
use bottlerocket_agents::vsphere_vm::{ova_import_spec, vm_ip_address};

fn encode(text: &str) -> String {
    base64::Engine::encode(&base64::engine::general_purpose::STANDARD, text)
}

#[test]
fn cluster_config_from_an_eksctl_file() {
    let config = EksctlConfig::File {
        encoded_config: encode(
            "apiVersion: eksctl.io/v1alpha5\nkind: ClusterConfig\nmetadata:\n  name: my-cluster\n  region: us-east-2\n",
        ),
    };
    match ClusterConfig::new(config).unwrap() {
        ClusterConfig::ConfigPath { cluster_name, region } => {
            assert_eq!(cluster_name, "my-cluster");
            assert_eq!(region, "us-east-2");
        }
        other => panic!("unexpected {:?}", other),
    }
}

#[test]
fn cluster_config_file_errors() {
    let file = |t: &str| EksctlConfig::File { encoded_config: encode(t) };
    let e = ClusterConfig::new(file("kind: ClusterConfig\n")).unwrap_err();
    assert_eq!(e.resources, Resources::Clear);
    assert_eq!(e.context, "Metadata is missing from eksctl config.");
    let e = ClusterConfig::new(file("metadata:\n  region: r\n")).unwrap_err();
    assert_eq!(e.context, "The cluster's name was not in the eksctl config.");
    let e = ClusterConfig::new(file("metadata:\n  name: n\n  region: 5\n")).unwrap_err();
    assert_eq!(e.context, "The cluster's region was not in the eksctl config.");
    let e = ClusterConfig::new(file("metadata: [unclosed\n")).unwrap_err();
    assert_eq!(e.context, "Unable to serialize eksctl config.");
    let e = ClusterConfig::new(EksctlConfig::File { encoded_config: "%%%".to_string() }).unwrap_err();
    assert_eq!(e.context, "Unable to decode eksctl configuration.");
}

#[test]
fn cluster_config_from_arguments() {
    let config = EksctlConfig::Args {
        cluster_name: "c".to_string(),
        region: None,
        zones: None,
        version: None,
    };
    match ClusterConfig::new(config).unwrap() {
        ClusterConfig::Args { cluster_name, region, .. } => {
            assert_eq!(cluster_name, "c");
            assert_eq!(region, "us-west-2");
        }
        other => panic!("unexpected {:?}", other),
    }
}

#[test]
fn vm_ip_from_govc_vm_info() {
    let info = r#"{"VirtualMachines":[{"Guest":{"IpAddress":"10.0.0.7","HostName":""}}]}"#;
    assert_eq!(vm_ip_address(info, "node-1", Resources::Remaining).unwrap(), "10.0.0.7");
    let e = vm_ip_address(r#"{"VirtualMachines":[]}"#, "node-1", Resources::Remaining).unwrap_err();
    assert_eq!(e.resources, Resources::Remaining);
    assert_eq!(e.context, "Failed to get ip address for 'node-1'");
    let e = vm_ip_address("nope", "node-1", Resources::Remaining).unwrap_err();
    assert_eq!(e.context, "Failed to deserialize govc vm.info output");
}

#[test]
fn import_spec_maps_the_vm_network() {
    let spec = r#"{"DiskProvisioning":"flat","NetworkMapping":[{"Name":"VM Network","Network":""}],"MarkAsTemplate":false}"#;
    let text = ova_import_spec(spec, "lab-net", Resources::Clear).unwrap();
    let value: serde_json::Value = serde_json::from_str(&text).unwrap();
    assert_eq!(value["DiskProvisioning"], "flat");
    assert_eq!(value["MarkAsTemplate"], false);
    assert_eq!(value["NetworkMapping"].as_array().unwrap().len(), 1);
    assert_eq!(value["NetworkMapping"][0]["Name"], "VM Network");
    assert_eq!(value["NetworkMapping"][0]["Network"], "lab-net");
    let keys: Vec<&String> = value.as_object().unwrap().keys().collect();
    assert_eq!(keys, vec!["DiskProvisioning", "NetworkMapping", "MarkAsTemplate"]);
    let e = ova_import_spec(r#"{"NetworkMapping":{}}"#, "n", Resources::Clear).unwrap_err();
    assert_eq!(e.context, "Missing network mappings for VM network");
    let e = ova_import_spec("{", "n", Resources::Clear).unwrap_err();
    assert_eq!(e.context, "Failed to deserialize govc import.spec output");
}

#[test]
fn template_import_spec_is_marked_as_template() {
    let spec = r#"{"NetworkMapping":[],"MarkAsTemplate":false,"Count":3}"#;
    let text = ova_template_import_spec(spec, "net", Resources::Clear).unwrap();
    let value: serde_json::Value = serde_json::from_str(&text).unwrap();
    assert_eq!(value["MarkAsTemplate"], true);
    assert_eq!(value["Count"], 3);
    assert_eq!(value["NetworkMapping"][0]["Network"], "net");
    let e = ova_template_import_spec(r#"{"NetworkMapping":[]}"#, "net", Resources::Clear).unwrap_err();
    assert_eq!(e.context, "Missing 'MarkAsTemplate' in Import spec");
}

#[test]
fn vcenter_thumbprint_from_about_cert() {
    let cert = r#"{"ThumbprintSHA1":"AB:CD","ThumbprintSHA256":"x"}"#;
    assert_eq!(vcenter_thumbprint(cert, "https://vc", Resources::Clear).unwrap(), "AB:CD");
    let e = vcenter_thumbprint("{}", "https://vc", Resources::Clear).unwrap_err();
    assert_eq!(e.context, "Failed to get the SHA1 thumbprint from vCenter server certificate for 'https://vc'");
    let e = vcenter_thumbprint("", "https://vc", Resources::Clear).unwrap_err();
    assert_eq!(e.context, "Failed to deserialize 'govc about.cert' output");
}

#[test]
fn secret_values_are_the_json_of_the_secret() {
    let d = secret_values(
        Some(r#"{"username":"u","password":"p"}"#.to_string()),
        "creds",
    )
    .unwrap();
    let user = d.get("username").and_then(|u| u.as_text()).cloned();
    assert_eq!(user, Some("u".to_string()));
    let e = secret_values(None, "creds").unwrap_err();
    assert_eq!(e.resources, Resources::Clear);
    assert_eq!(e.context, "creds not found");
    let e = secret_values(Some("{".to_string()), "creds").unwrap_err();
    assert_eq!(e.context, "Unable to parse secret values");
}

#[test]
fn eks_a_manifest_and_archive_checks() {
    assert_eq!(
        release_manifest_url(&None),
        "https://anywhere-assets.eks.amazonaws.com/releases/eks-a/manifest.yaml"
    );
    assert_eq!(release_manifest_url(&Some("https://m".to_string())), "https://m");
    assert!(check_archive_url("https://x/eksctl-anywhere.tar.gz", Resources::Clear).is_ok());
    let e = check_archive_url("https://x/eksctl-anywhere.zip", Resources::Clear).unwrap_err();
    assert_eq!(e.context, "EKS-A binary archive at 'https://x/eksctl-anywhere.zip' is not tar.gz compressed");
}

#[test]
fn control_container_userdata_is_the_encoded_ssm_json() {
    let encoded = control_container_userdata("act-id", "act-code").unwrap();
    let decoded = base64::Engine::decode(&base64::engine::general_purpose::STANDARD, &encoded).unwrap();
    assert_eq!(
        String::from_utf8(decoded).unwrap(),
        r#"{"ssm":{"activation-id":"act-id","activation-code":"act-code","region":"us-west-2"}}"#
    );
}

#[test]
fn metal_machine_settings() {
    let c = MetalK8sClusterCreator {};
    assert_eq!(
        c.ssm_settings_json("dXNlcg=="),
        r#"{"host-containers":{"control":{"enabled":true,"user-data":"dXNlcg=="}}}"#
    );
    assert_eq!(c.get_settings_args(), vec!["get".to_string(), "settings".to_string()]);
    assert_eq!(
        c.set_settings_args("{}"),
        vec!["set".to_string(), "--json".to_string(), "{}".to_string()]
    );
    assert_eq!(c.custom_settings_json(&None, Resources::Remaining).unwrap(), None);
    let custom = CustomUserData::Merge {
        encoded_userdata: encode("[settings.motd]\n\n[settings.kernel]\nlockdown = \"integrity\"\n"),
    };
    let json = c.custom_settings_json(&Some(custom), Resources::Remaining).unwrap().unwrap();
    let value: serde_json::Value = serde_json::from_str(&json).unwrap();
    assert_eq!(value["settings"]["kernel"]["lockdown"], "integrity");
    let bad = CustomUserData::Replace { encoded_userdata: "***".to_string() };
    let e = c.custom_settings_json(&Some(bad), Resources::Remaining).unwrap_err();
    assert_eq!(e.resources, Resources::Remaining);
    assert_eq!(e.context, "Unable to decode custom user data");
    let not_toml = CustomUserData::Replace { encoded_userdata: encode("= = =") };
    let e = c.custom_settings_json(&Some(not_toml), Resources::Remaining).unwrap_err();
    assert_eq!(e.context, "Unable to deserialize custom userdata");
}
