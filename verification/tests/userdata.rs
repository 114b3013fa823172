use bottlerocket_agents::agent_config::ClusterType;
use bottlerocket_agents::provider::Resources;
use bottlerocket_agents::toml_merge::{merge_values, TomlValue};
use bottlerocket_agents::userdata::{
    decode_to_string, default_ecs_userdata, default_eks_userdata, default_userdata, encode_text,
    merged_userdata, userdata, CustomUserData,
};

fn from_toml(v: &toml::Value) -> TomlValue {
    match v {
        toml::Value::String(s) => TomlValue::String(s.clone()),
        toml::Value::Integer(i) => TomlValue::Integer(*i),
        toml::Value::Float(f) => TomlValue::Float(f.to_string()),
        toml::Value::Boolean(b) => TomlValue::Boolean(*b),
        toml::Value::Datetime(d) => TomlValue::Datetime(d.to_string()),
        toml::Value::Array(a) => TomlValue::Array(a.iter().map(from_toml).collect()),
        toml::Value::Table(t) => {
            TomlValue::Table(t.iter().map(|(k, v)| (k.clone(), from_toml(v))).collect())
        }
    }
}

fn to_toml(v: &TomlValue) -> toml::Value {
    match v {
        TomlValue::String(s) => toml::Value::String(s.clone()),
        TomlValue::Integer(i) => toml::Value::Integer(*i),
        TomlValue::Float(f) => toml::Value::Float(f.parse().unwrap()),
        TomlValue::Boolean(b) => toml::Value::Boolean(*b),
        TomlValue::Datetime(d) => toml::Value::Datetime(d.parse().unwrap()),
        TomlValue::Array(a) => toml::Value::Array(a.iter().map(to_toml).collect()),
        TomlValue::Table(t) => {
            toml::Value::Table(t.iter().map(|(k, v)| (k.clone(), to_toml(v))).collect())
        }
    }
}

fn parse(text: &str) -> TomlValue {
    from_toml(&toml::from_str::<toml::Value>(text).unwrap())
}

#[test]
fn merge_1() {
    let mut left = parse(
        r#"
        top1 = "left top1"
        top2 = "left top2"
        [settings.inner]
        inner_setting1 = "left inner_setting1"
        inner_setting2 = "left inner_setting2"
        "#,
    );
    let right = parse(
        r#"
        top1 = "right top1"
        [settings]
        setting = "right setting"
        [settings.inner]
        inner_setting1 = "right inner_setting1"
        inner_setting3 = "right inner_setting3"
        "#,
    );
    // "top1" is being overwritten from right.
    // "top2" is only in the left and remains.
    // "setting" is only in the right side.
    // "inner" tests that recursion works; inner_setting1 is replaced, 2 is untouched, and
    // 3 is new.
    let expected = toml::from_str::<toml::Value>(
        r#"
        top1 = "right top1"
        top2 = "left top2"
        [settings]
        setting = "right setting"
        [settings.inner]
        inner_setting1 = "right inner_setting1"
        inner_setting2 = "left inner_setting2"
        inner_setting3 = "right inner_setting3"
        "#,
    )
    .unwrap();
    merge_values(&right, &mut left).unwrap();
    assert_eq!(to_toml(&left), expected);
}

#[test]
fn merge_2() {
    let mut left = parse(
        r#"
        top1 = "left top1"
        top2 = "left top2"
        [settings]
        setting = "left setting"
        [settings.inner]
        inner_setting1 = "left inner_setting1"
        inner_setting2 = "left inner_setting2"
        "#,
    );
    let right = parse(
        r#"
        top1 = "right top1"
        [settings.inner]
        inner_setting1 = "right inner_setting1"
        inner_setting3 = "right inner_setting3"
        "#,
    );
    let expected = toml::from_str::<toml::Value>(
        r#"
        top1 = "right top1"
        top2 = "left top2"
        [settings]
        setting = "left setting"
        [settings.inner]
        inner_setting1 = "right inner_setting1"
        inner_setting2 = "left inner_setting2"
        inner_setting3 = "right inner_setting3"
        "#,
    )
    .unwrap();
    merge_values(&right, &mut left).unwrap();
    assert_eq!(to_toml(&left), expected);
}

#[test]
fn merge_3() {
    let mut left = parse(r#"top1 = "left top1""#);
    let right = parse("top1 = 12");
    assert!(merge_values(&right, &mut left).is_err());
}

#[test]
fn merge_mismatch_at_top_is_refused_and_leaves_the_value() {
    let mut left = TomlValue::String("left".to_string());
    let right = TomlValue::Integer(3);
    let e = merge_values(&right, &mut left).unwrap_err();
    assert_eq!(e.resources, Resources::Clear);
    assert_eq!(e.context, "Cannot merge mismatched data types in given TOML");
    assert_eq!(to_toml(&left), toml::Value::String("left".to_string()));
}

#[test]
fn merge_replaces_arrays_and_scalars() {
    let mut left = parse("a = [1, 2, 3]\nb = 1.5\nc = true\nd = 1979-05-27T07:32:00Z");
    let right = parse("a = [4]\nb = 2.5\nc = false\nd = 2000-01-01T00:00:00Z");
    merge_values(&right, &mut left).unwrap();
    let expected =
        toml::from_str::<toml::Value>("a = [4]\nb = 2.5\nc = false\nd = 2000-01-01T00:00:00Z").unwrap();
    assert_eq!(to_toml(&left), expected);
}

#[test]
fn merge_empty_table_changes_nothing() {
    let mut left = parse("a = 1\n[b]\nc = \"x\"");
    let before = to_toml(&left);
    merge_values(&TomlValue::Table(Vec::new()), &mut left).unwrap();
    assert_eq!(to_toml(&left), before);
}

#[test]
fn merge_stops_at_a_nested_mismatch_keeping_what_was_merged() {
    let mut left = parse("a = 1\n[t]\nx = \"s\"\ny = 2");
    let right = parse("a = 5\n[t]\nx = 3\ny = 7");
    assert!(merge_values(&right, &mut left).is_err());
    let expected = toml::from_str::<toml::Value>("a = 5\n[t]\nx = \"s\"\ny = 2").unwrap();
    assert_eq!(to_toml(&left), expected);
}

#[test]
fn base64_text_round_trip() {
    assert_eq!(encode_text("abc"), "YWJj");
    assert_eq!(encode_text(""), "");
    assert_eq!(encode_text("[settings]"), "W3NldHRpbmdzXQ==");
    assert_eq!(decode_to_string(&"YWJj".to_string()).unwrap(), "abc");
    let text = "héllo, wörld";
    assert_eq!(decode_to_string(&encode_text(text)).unwrap(), text);
}

#[test]
fn decode_to_string_errors() {
    let e = decode_to_string(&"not base64!".to_string()).unwrap_err();
    assert_eq!(e.resources, Resources::Clear);
    assert_eq!(e.context, "Failed to decode base64 TOML");
    // Valid base64 of bytes that are not UTF-8.
    let e = decode_to_string(&"/w==".to_string()).unwrap_err();
    assert_eq!(e.context, "Failed to decode base64 TOML");
}

#[test]
fn default_userdata_texts() {
    let ecs = decode_to_string(&default_ecs_userdata("my-cluster")).unwrap();
    assert_eq!(ecs, "[settings.ecs]\ncluster = \"my-cluster\"");
    let eks = default_eks_userdata(
        "my-cluster",
        &Some("https://endpoint".to_string()),
        &Some("cert".to_string()),
        &Some("10.100.0.10".to_string()),
        Resources::Clear,
    )
    .unwrap();
    assert_eq!(
        decode_to_string(&eks).unwrap(),
        "[settings.updates]\nignore-waves = true\n\n[settings.kubernetes]\napi-server = \"https://endpoint\"\ncluster-name = \"my-cluster\"\ncluster-certificate = \"cert\"\ncluster-dns-ip = \"10.100.0.10\""
    );
    let vm = default_userdata("1.2.3.4", "10.0.0.10", "token", "cert", "ctl");
    assert_eq!(
        decode_to_string(&vm).unwrap(),
        "[settings.updates]\nignore-waves = true\n\n[settings.host-containers.control]\nenabled = true\nuser-data = \"ctl\"\n\n[settings.kubernetes]\napi-server = \"https://1.2.3.4:6443\"\ncluster-dns-ip = \"10.0.0.10\"\nbootstrap-token = \"token\"\ncluster-certificate = \"cert\""
    );
}

#[test]
fn eks_userdata_needs_endpoint_certificate_and_dns_ip() {
    let e = default_eks_userdata("c", &None, &Some("x".to_string()), &Some("y".to_string()), Resources::Remaining)
        .unwrap_err();
    assert_eq!(e.resources, Resources::Remaining);
    assert_eq!(e.context, "Server endpoint is required for eks clusters.");
    let e = default_eks_userdata("c", &Some("x".to_string()), &None, &Some("y".to_string()), Resources::Clear)
        .unwrap_err();
    assert_eq!(e.context, "Cluster certificate is required for eks clusters.");
    let e = default_eks_userdata("c", &Some("x".to_string()), &Some("y".to_string()), &None, Resources::Clear)
        .unwrap_err();
    assert_eq!(e.context, "Cluster DNS IP is required for eks clusters.");
}

fn b64(text: &str) -> String {
    encode_text(text)
}

#[test]
fn userdata_choice() {
    assert_eq!(
        userdata(&ClusterType::Ecs, "c", &None, &None, &None, &None, Resources::Clear),
        Some(Ok(default_ecs_userdata("c")))
    );
    let replace = Some(CustomUserData::Replace { encoded_userdata: "abcd".to_string() });
    assert_eq!(
        userdata(&ClusterType::Ecs, "c", &None, &None, &None, &replace, Resources::Clear),
        Some(Ok("abcd".to_string()))
    );
    let merge = Some(CustomUserData::Merge {
        encoded_userdata: b64("[settings.ecs]\nlogging-drivers = [\"json-file\"]\n"),
    });
    let merged = userdata(&ClusterType::Ecs, "c", &None, &None, &None, &merge, Resources::Clear)
        .unwrap()
        .unwrap();
    let text = decode_to_string(&merged).unwrap();
    let value: toml::Value = toml::from_str(&text).unwrap();
    assert_eq!(value["settings"]["ecs"]["cluster"].as_str(), Some("c"));
    assert_eq!(value["settings"]["ecs"]["logging-drivers"][0].as_str(), Some("json-file"));
    let e = userdata(&ClusterType::Eks, "c", &None, &None, &None, &None, Resources::Remaining)
        .unwrap()
        .unwrap_err();
    assert_eq!(e.resources, Resources::Remaining);
    assert_eq!(e.context, "Server endpoint is required for eks clusters.");
}

#[test]
fn merged_userdata_failures() {
    let good = b64("a = 1\n");
    let e = merged_userdata(&"%%%".to_string(), &good).unwrap().unwrap_err();
    assert_eq!(e.resources, Resources::Clear);
    assert_eq!(e.context, "Failed to decode base64 TOML");
    let e = merged_userdata(&b64("a = = 1"), &good).unwrap().unwrap_err();
    assert_eq!(e.context, "Failed to parse TOML");
    let e = merged_userdata(&good, &b64("a = \"text\"\n")).unwrap().unwrap_err();
    assert_eq!(e.context, "Failed to merge TOML");
    let merged = merged_userdata(&good, &b64("a = 2\nb = 1.5\n")).unwrap().unwrap();
    let value: toml::Value = toml::from_str(&decode_to_string(&merged).unwrap()).unwrap();
    assert_eq!(value["a"].as_integer(), Some(2));
    assert_eq!(value["b"].as_float(), Some(1.5));
}

#[test]
fn merging_twice_is_merging_once() {
    let from = parse("a = 1\n[t]\nx = \"y\"\nf = 2.5\n[t.u]\nz = [1, 2]\n");
    let mut once = parse("b = true\n[t]\nw = 3\n");
    merge_values(&from, &mut once).unwrap();
    let mut twice = parse(&toml::to_string(&to_toml(&once)).unwrap());
    merge_values(&from, &mut twice).unwrap();
    assert_eq!(to_toml(&twice), to_toml(&once));
}
