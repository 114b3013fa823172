use bottlerocket_agents::agent_config::SonobuoyMode;
use bottlerocket_agents::testsys_plan::{
    cluster_resource_name, create_plugin_config, custom_user_data, eksctl_cluster_name,
    instance_types, instances_resource_name, plugin_from_file, template_ref, test_plan,
    CustomUserDataMode, PluginChoice, ResultFormat, SonobuoyPluginArgs, SonobuoyPluginConfig,
    TestsysError, MISSING_VERSIONS, MISSING_VERSIONS_ECS,
};
use bottlerocket_agents::userdata::CustomUserData;

#[test]
fn testsys_resource_names() {
    assert_eq!(cluster_resource_name(None, None), "cluster");
    assert_eq!(cluster_resource_name(None, Some("c".to_string())), "c");
    assert_eq!(cluster_resource_name(Some("r".to_string()), Some("c".to_string())), "r");
    assert_eq!(instances_resource_name(None, "c", "-instances"), "c-instances");
    assert_eq!(instances_resource_name(None, "c", "-vms"), "c-vms");
    assert_eq!(instances_resource_name(Some("x".to_string()), "c", "-vms"), "x");
    assert_eq!(template_ref("cluster", "iamInstanceProfileArn"), "${cluster.iamInstanceProfileArn}");
    assert_eq!(instance_types(Some("m5.large".to_string())), vec!["m5.large".to_string()]);
    assert!(instance_types(None).is_empty());
    match eksctl_cluster_name(None) {
        Err(TestsysError::InvalidArguments { why }) => {
            assert_eq!(why, "One of `cluster-name` or `cluster-config` must be provided.")
        }
        Ok(_) => panic!("expected an error"),
    }
}

#[test]
fn testsys_custom_user_data() {
    assert_eq!(CustomUserDataMode::from_str("merge").unwrap(), CustomUserDataMode::Merge);
    assert_eq!(CustomUserDataMode::from_str("replace").unwrap(), CustomUserDataMode::Replace);
    match CustomUserDataMode::from_str("Merge") {
        Err(TestsysError::InvalidArguments { why }) => assert_eq!(why, "Invalid user data mode"),
        Ok(_) => panic!("expected an error"),
    }
    assert!(matches!(custom_user_data(None, None), Ok(None)));
    match custom_user_data(Some(CustomUserDataMode::Merge), Some("x".to_string())) {
        Ok(Some(CustomUserData::Merge { encoded_userdata })) => assert_eq!(encoded_userdata, "x"),
        _ => panic!("expected a merge"),
    }
    match custom_user_data(None, Some("x".to_string())) {
        Err(TestsysError::InvalidArguments { why }) => assert_eq!(
            why,
            "Either both or neither of custom-user-data-mode and custom-user-data must be provided."
        ),
        _ => panic!("expected an error"),
    }
}

#[test]
fn testsys_single_test_plan() {
    let plan = test_plan("t", false, &None, &None, &None, MISSING_VERSIONS).unwrap();
    assert_eq!(plan.len(), 1);
    assert_eq!(plan[0].name, "t");
    assert!(plan[0].migrate_to.is_none() && plan[0].depends_on.is_none());
}

#[test]
fn testsys_upgrade_downgrade_plan() {
    let plan = test_plan(
        "t",
        true,
        &Some("v1.0".to_string()),
        &Some("v1.1".to_string()),
        &Some("img".to_string()),
        MISSING_VERSIONS,
    )
    .unwrap();
    let names: Vec<&str> = plan.iter().map(|p| p.name.as_str()).collect();
    assert_eq!(names, vec!["t-1-initial", "t-2-migrate", "t-3-migrated", "t-4-migrate", "t-5-final"]);
    assert_eq!(plan[1].migrate_to.as_deref(), Some("v1.1"));
    assert_eq!(plan[3].migrate_to.as_deref(), Some("v1.0"));
    assert!(plan[0].depends_on.is_none());
    for (k, test) in plan.iter().enumerate().skip(1) {
        let expected: Vec<String> = names[..k].iter().map(|s| s.to_string()).collect();
        assert_eq!(test.depends_on.as_ref().unwrap(), &expected);
    }
    match test_plan("t", true, &Some("v1.0".to_string()), &None, &Some("i".to_string()), MISSING_VERSIONS_ECS) {
        Err(TestsysError::InvalidArguments { why }) => assert_eq!(
            why,
            "If performing an upgrade/downgrade test, `starting-version`, `upgrade-version` must be provided."
        ),
        Ok(_) => panic!("expected an error"),
    }
    match test_plan("t", true, &None, &None, &None, MISSING_VERSIONS) {
        Err(TestsysError::InvalidArguments { why }) => assert_eq!(
            why,
            "If performing an upgrade/downgrade test,`starting-version`, `upgrade-version` must be provided."
        ),
        Ok(_) => panic!("expected an error"),
    }
}

#[test]
fn testsys_plugin_config() {
    let plain = SonobuoyPluginArgs::default();
    assert!(matches!(
        create_plugin_config(&plain),
        Ok(PluginChoice::Ready(SonobuoyPluginConfig::E2E(SonobuoyMode::Quick)))
    ));
    let e2e = SonobuoyPluginArgs {
        plugin_name: Some("e2e".to_string()),
        sonobuoy_mode: Some(SonobuoyMode::CertifiedConformance),
        ..Default::default()
    };
    assert!(matches!(
        create_plugin_config(&e2e),
        Ok(PluginChoice::Ready(SonobuoyPluginConfig::E2E(SonobuoyMode::CertifiedConformance)))
    ));
    let image = SonobuoyPluginArgs {
        plugin_name: Some("p".to_string()),
        plugin_image: Some("img".to_string()),
        plugin_result_format: Some("manual".to_string()),
        plugin_result_files: vec!["a.xml".to_string()],
        ..Default::default()
    };
    match create_plugin_config(&image) {
        Ok(PluginChoice::Ready(SonobuoyPluginConfig::CustomPlugin { name, image, result_format })) => {
            assert_eq!((name.as_str(), image.as_str()), ("p", "img"));
            match result_format {
                ResultFormat::Manual(files) => assert_eq!(files, vec!["a.xml".to_string()]),
                _ => panic!("expected manual results"),
            }
        }
        _ => panic!("expected a custom plugin"),
    }
    let file = SonobuoyPluginArgs {
        plugin_name: Some("p".to_string()),
        plugin_file_path: Some("/x.yaml".to_string()),
        ..Default::default()
    };
    assert!(matches!(create_plugin_config(&file), Ok(PluginChoice::FromFile { .. })));
    let bad = SonobuoyPluginArgs {
        plugin_name: Some("p".to_string()),
        sonobuoy_mode: Some(SonobuoyMode::Quick),
        ..Default::default()
    };
    match create_plugin_config(&bad) {
        Err(TestsysError::InvalidArguments { why }) => assert_eq!(
            why,
            "The arguments provided for the custom sonobuoy config were not a recognized configuration."
        ),
        Ok(_) => panic!("expected an error"),
    }
    match plugin_from_file("p".to_string(), "abc") {
        SonobuoyPluginConfig::EncodedYaml { name, encoded_yaml } => {
            assert_eq!((name.as_str(), encoded_yaml.as_str()), ("p", "YWJj"))
        }
        _ => panic!("expected encoded yaml"),
    }
}
