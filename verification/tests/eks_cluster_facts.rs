use bottlerocket_agents::eks::{
    ClusterDescription, EksCreator, IpFamily, NetworkConfig, VpcConfig,
};
use bottlerocket_agents::provider::Resources;

fn full_description() -> ClusterDescription {
    ClusterDescription {
        resources_vpc_config: Some(VpcConfig {
            subnet_ids: Some(vec!["subnet-a".to_string(), "subnet-b".to_string()]),
            cluster_security_group_id: Some("sg-123".to_string()),
        }),
        endpoint: Some("https://example.eks".to_string()),
        certificate_authority: Some(Some("Y2VydA==".to_string())),
        kubernetes_network_config: Some(NetworkConfig {
            ip_family: Some(IpFamily::Ipv4),
            service_ipv4_cidr: Some("10.100.0.0/16".to_string()),
            service_ipv6_cidr: None,
        }),
    }
}

#[test]
fn cluster_facts_of_a_full_description() {
    let facts = EksCreator {}.cluster_facts(&full_description()).unwrap();
    assert_eq!(facts.subnet_ids, vec!["subnet-a".to_string(), "subnet-b".to_string()]);
    assert_eq!(facts.endpoint, "https://example.eks");
    assert_eq!(facts.certificate, "Y2VydA==");
    assert_eq!(facts.cluster_dns_ip, "10.100.0.10");
    assert_eq!(facts.cluster_sg, "sg-123");
}

#[test]
fn cluster_facts_missing_vpc_config() {
    let mut d = full_description();
    d.resources_vpc_config = None;
    let e = EksCreator {}.cluster_facts(&d).unwrap_err();
    assert_eq!(e.resources, Resources::Remaining);
    assert_eq!(e.context, "Cluster missing resources_vpc_config field");
}

#[test]
fn cluster_facts_missing_certificate_data() {
    let mut d = full_description();
    d.certificate_authority = Some(None);
    let e = EksCreator {}.cluster_facts(&d).unwrap_err();
    assert_eq!(e.context, "Certificate authority missing data");
}

#[test]
fn cluster_facts_missing_network_config() {
    let mut d = full_description();
    d.kubernetes_network_config = None;
    let e = EksCreator {}.cluster_facts(&d).unwrap_err();
    assert_eq!(e.context, "DescribeCluster missing KubernetesNetworkConfig field");
}

#[test]
fn cluster_facts_missing_security_group() {
    let mut d = full_description();
    d.resources_vpc_config = Some(VpcConfig {
        subnet_ids: Some(vec![]),
        cluster_security_group_id: None,
    });
    let e = EksCreator {}.cluster_facts(&d).unwrap_err();
    assert_eq!(e.context, "resources_vpc_config missing cluster security group id");
}

#[test]
fn created_cluster_uses_the_cluster_security_group() {
    let facts = EksCreator {}.cluster_facts(&full_description()).unwrap();
    let c = EksCreator {}.created_cluster(
        "my-cluster",
        "us-west-2",
        facts,
        vec!["subnet-a".to_string()],
        vec!["subnet-b".to_string()],
        "arn:profile".to_string(),
        "a3ViZQ==".to_string(),
    );
    assert_eq!(c.cluster_name, "my-cluster");
    assert_eq!(c.region, "us-west-2");
    assert_eq!(c.cluster_dns_ip, "10.100.0.10");
    assert_eq!(c.security_groups, vec!["sg-123".to_string()]);
    assert_eq!(c.cluster_sg, "sg-123");
    assert_eq!(c.public_subnet_ids, vec!["subnet-a".to_string()]);
    assert_eq!(c.private_subnet_ids, vec!["subnet-b".to_string()]);
    assert_eq!(c.iam_instance_profile_arn, "arn:profile");
    assert_eq!(c.encoded_kubeconfig, "a3ViZQ==");
}
