use bottlerocket_agents::ec2::{
    conforming_wait_over, container_instance_filter, described_instance_ids,
    deregistration_wait_over, reported_instance_ids, DescribedInstance, InstanceStatus,
    Reservation,
};
use bottlerocket_agents::provider::Resources;

fn instance(id: Option<&str>) -> DescribedInstance {
    DescribedInstance { instance_id: id.map(|s| s.to_string()) }
}

#[test]
fn described_ids_are_flattened_and_deduplicated() {
    let reservations = Some(vec![
        Reservation { instances: Some(vec![instance(Some("i-1")), instance(None), instance(Some("i-2"))]) },
        Reservation { instances: None },
        Reservation { instances: Some(vec![instance(Some("i-2")), instance(Some("i-3"))]) },
    ]);
    let ids = described_instance_ids(&reservations, Resources::Remaining).unwrap();
    assert_eq!(ids, vec!["i-1".to_string(), "i-2".to_string(), "i-3".to_string()]);
}

#[test]
fn described_ids_without_reservations_is_an_error() {
    let e = described_instance_ids(&None, Resources::Clear).unwrap_err();
    assert_eq!(e.resources, Resources::Clear);
    assert_eq!(e.context, "No instances were provided.");
}

#[test]
fn reported_ids_keep_order_and_skip_missing() {
    let statuses = Some(vec![
        InstanceStatus { instance_id: Some("i-9".to_string()) },
        InstanceStatus { instance_id: None },
        InstanceStatus { instance_id: Some("i-4".to_string()) },
    ]);
    let ids = reported_instance_ids(&statuses, Resources::Remaining).unwrap();
    assert_eq!(ids, vec!["i-9".to_string(), "i-4".to_string()]);
    let e = reported_instance_ids(&None, Resources::Remaining).unwrap_err();
    assert_eq!(e.resources, Resources::Remaining);
    assert_eq!(e.context, "No instance statuses were provided.");
}

#[test]
fn conforming_wait_ends_when_nothing_is_left_or_unknown() {
    assert!(conforming_wait_over(&Some(vec![])));
    assert!(!conforming_wait_over(&Some(vec!["i-1".to_string()])));
    assert!(conforming_wait_over(&None));
}

#[test]
fn container_instance_filter_names_the_instance() {
    assert_eq!(container_instance_filter("i-123"), "ec2InstanceId==i-123");
}

#[test]
fn deregistration_wait_ends_when_none_of_ours_is_listed() {
    let ours = vec!["arn:a".to_string(), "arn:b".to_string()];
    assert!(!deregistration_wait_over(&ours, &Some(vec!["arn:x".to_string(), "arn:b".to_string()])));
    assert!(deregistration_wait_over(&ours, &Some(vec!["arn:x".to_string()])));
    assert!(deregistration_wait_over(&ours, &Some(vec![])));
    assert!(deregistration_wait_over(&ours, &None));
}

#[test]
fn new_instance_uuid_is_the_v4_uuid_of_the_random_bytes() {
    let c = bottlerocket_agents::ec2::Ec2Creator {};
    let random = [
        70, 235, 208, 238, 14, 109, 67, 201, 185, 13, 204, 195, 90, 145, 63, 62,
    ];
    assert_eq!(c.new_instance_uuid(random), "46ebd0ee-0e6d-43c9-b90d-ccc35a913f3e");
    assert_eq!(c.new_instance_uuid([0xff; 16]), "ffffffff-ffff-4fff-bfff-ffffffffffff");
}
