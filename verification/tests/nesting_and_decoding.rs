use bottlerocket_agents::document::read_toml_as_json;
use bottlerocket_agents::metal_k8s::MetalK8sClusterCreator;
use bottlerocket_agents::provider::Resources;
use bottlerocket_agents::text::count_nesting_marks;
use bottlerocket_agents::toml_merge::{read_toml, TOML_NESTING_LIMIT};
use bottlerocket_agents::userdata::{decode_kubeconfig, encode_text, merged_userdata, CustomUserData};

fn nested_arrays(depth: usize) -> String {
    format!("a = {}1{}\n", "[".repeat(depth), "]".repeat(depth))
}

fn nested_tables(depth: usize) -> String {
    format!("a = {}1{}\n", "{b = ".repeat(depth), "}".repeat(depth))
}

fn dotted_key(depth: usize) -> String {
    format!("a{} = 1\n", ".b".repeat(depth))
}

#[test]
fn nesting_marks_are_counted() {
    assert_eq!(count_nesting_marks(b"[settings.kubernetes]\nx = {y = [1.5]}"), 5);
    assert_eq!(count_nesting_marks(b""), 0);
    assert_eq!(count_nesting_marks(b"abc = 1"), 0);
}

#[test]
fn toml_nesting_at_the_limit_is_read() {
    assert!(read_toml(&nested_arrays(TOML_NESTING_LIMIT)).is_some());
    assert!(read_toml(&nested_tables(TOML_NESTING_LIMIT)).is_some());
    assert!(read_toml(&dotted_key(TOML_NESTING_LIMIT)).is_some());
    assert!(read_toml_as_json(nested_arrays(TOML_NESTING_LIMIT).as_bytes()).is_some());
    assert!(read_toml_as_json(dotted_key(TOML_NESTING_LIMIT).as_bytes()).is_some());
}

#[test]
fn toml_nesting_beyond_the_limit_is_refused() {
    assert!(read_toml(&nested_arrays(TOML_NESTING_LIMIT + 1)).is_none());
    assert!(read_toml(&dotted_key(TOML_NESTING_LIMIT + 1)).is_none());
    assert!(read_toml(&nested_arrays(300_000)).is_none());
    assert!(read_toml_as_json(nested_tables(300_000).as_bytes()).is_none());
    assert!(read_toml_as_json(b"a = [1, 2]").is_some());
}

#[test]
fn deep_custom_userdata_is_merged_or_refused() {
    let default = encode_text("[settings.kubernetes]\ncluster-name = \"c\"\n");
    let deep = encode_text(&nested_arrays(TOML_NESTING_LIMIT));
    let merged = merged_userdata(&default, &deep).unwrap().unwrap();
    assert!(!merged.is_empty());
    let too_deep = encode_text(&nested_arrays(200_000));
    let e = merged_userdata(&default, &too_deep).unwrap().unwrap_err();
    assert_eq!((e.resources, e.context.as_str()), (Resources::Clear, "Failed to parse TOML"));
    let creator = MetalK8sClusterCreator {};
    let custom = Some(CustomUserData::Merge { encoded_userdata: too_deep });
    let e = creator.custom_settings_json(&custom, Resources::Remaining).unwrap_err();
    assert_eq!((e.resources, e.context.as_str()), (Resources::Remaining, "Unable to deserialize custom userdata"));
    let custom = Some(CustomUserData::Merge { encoded_userdata: encode_text("[settings]\nx = 1\n") });
    assert_eq!(creator.custom_settings_json(&custom, Resources::Remaining).unwrap(), Some("{\"settings\":{\"x\":1}}".to_string()));
}

#[test]
fn kubeconfig_is_decoded() {
    assert_eq!(decode_kubeconfig("YXBpVmVyc2lvbjogdjE=").unwrap(), b"apiVersion: v1".to_vec());
    assert_eq!(decode_kubeconfig("").unwrap(), Vec::<u8>::new());
    let e = decode_kubeconfig("not base64!").unwrap_err();
    assert_eq!(
        (e.resources, e.context.as_str()),
        (Resources::Clear, "Failed to base64-decode 'kubeconfig' for test cluster")
    );
}

#[test]
fn metal_files_are_decoded() {
    let creator = MetalK8sClusterCreator {};
    assert_eq!(creator.decode_hardware_csv("aG9zdG5hbWUK").unwrap(), b"hostname\n".to_vec());
    let e = creator.decode_hardware_csv("%%").unwrap_err();
    assert_eq!(
        (e.resources, e.context.as_str()),
        (Resources::Clear, "Unable to decode and write hardware requirements")
    );
    assert_eq!(creator.decode_workload_kubeconfig("a2luZDogQ29uZmln").unwrap(), b"kind: Config".to_vec());
    let e = creator.decode_workload_kubeconfig("%%").unwrap_err();
    assert_eq!(
        (e.resources, e.context.as_str()),
        (Resources::Remaining, "Unable to decode encoded workload cluster kubeconfig")
    );
}
