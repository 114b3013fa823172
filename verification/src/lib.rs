pub mod text;
pub mod document;
pub mod secrets;
pub mod k8s_version;
pub mod provider;
pub mod plan;
pub mod agent_config;
pub mod creation;
pub mod sonobuoy;

pub mod toml_merge;
pub mod userdata;
pub mod eks;
pub mod ecs;
pub mod ec2;
pub mod karpenter;
pub mod vsphere_vm;
pub mod vsphere_k8s;
pub mod metal_k8s;
pub mod testsys_plan;
pub mod migration;
pub mod eksa;
pub mod cli;
