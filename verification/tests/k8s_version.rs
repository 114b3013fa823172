use bottlerocket_agents::agent_config;
use bottlerocket_agents::k8s_version::K8sVersion;
use std::str::FromStr;

#[test]
fn lib_k8s_version_invalid() {
    let input = "1.foo";
    assert!(K8sVersion::parse(input).is_err())
}

#[test]
fn lib_k8s_version_valid() {
    let input = "v1.21.3";
    let k8s_version = K8sVersion::from_str(input).unwrap();
    assert_eq!("v1.21", k8s_version.major_minor_with_v());
    assert_eq!("1.21", k8s_version.major_minor_without_v());
    assert_eq!("v1.21.3", k8s_version.full_version_with_v());
    assert_eq!("1.21.3", k8s_version.full_version_without_v());
}

#[test]
fn agent_config_k8s_version_invalid() {
    let input = "1.foo";
    assert!(agent_config::K8sVersion::parse(input).is_err())
}

#[test]
fn agent_config_k8s_version_valid() {
    let input = "v1.21.3";
    let k8s_version = agent_config::K8sVersion::from_str(input).unwrap();
    assert_eq!("v1.21", k8s_version.major_minor_with_v());
    assert_eq!("1.21", k8s_version.major_minor_without_v());
    assert_eq!("v1.21.3", k8s_version.full_version_with_v());
    assert_eq!("1.21.3", k8s_version.full_version_without_v());
}

#[test]
fn k8s_version_without_v_and_patch() {
    let v = K8sVersion::parse("1.24").unwrap();
    assert_eq!(v, K8sVersion::new(1, 24, None));
    assert_eq!(v.full_version_with_v(), "v1.24");
    assert_eq!(v.to_string(), "v1.24");
}

#[test]
fn k8s_version_round_trips_through_its_text() {
    for v in [
        K8sVersion::new(1, 21, Some(3)),
        K8sVersion::new(0, 0, None),
        K8sVersion::new(255, 9, Some(255)),
        K8sVersion::new(10, 100, None),
    ] {
        assert_eq!(K8sVersion::parse(&v.full_version_with_v()).unwrap(), v);
        assert_eq!(K8sVersion::parse(&v.full_version_without_v()).unwrap(), v);
        let major_minor = K8sVersion::parse(&v.major_minor_with_v()).unwrap();
        assert_eq!(major_minor.full_version_without_v(), v.major_minor_without_v());
    }
}

#[test]
fn k8s_version_minor_missing() {
    assert_eq!(
        K8sVersion::parse("v1").unwrap_err(),
        "Unable to find the minor version number when parsing 'v1' as a k8s version"
    );
}

#[test]
fn k8s_version_bad_numbers() {
    assert_eq!(
        K8sVersion::parse("1.foo").unwrap_err(),
        "Error when parsing the minor version number of a k8s version: invalid digit found in string"
    );
    assert_eq!(
        K8sVersion::parse("x.1").unwrap_err(),
        "Error when parsing the major version number of a k8s version: invalid digit found in string"
    );
    assert_eq!(
        K8sVersion::parse("256.1").unwrap_err(),
        "Error when parsing the major version number of a k8s version: number too large to fit in target type"
    );
    assert_eq!(
        K8sVersion::parse("").unwrap_err(),
        "Error when parsing the major version number of a k8s version: cannot parse integer from empty string"
    );
}

#[test]
fn k8s_version_bad_patch_is_dropped() {
    let v = K8sVersion::parse("1.21.x.7").unwrap();
    assert_eq!(v, K8sVersion::new(1, 21, None));
    let v = K8sVersion::parse("+1.+2.+3").unwrap();
    assert_eq!(v, K8sVersion::new(1, 2, Some(3)));
}

#[test]
fn k8s_version_default_is_zero() {
    assert_eq!(K8sVersion::default().major_minor_without_v(), "0.0");
}
