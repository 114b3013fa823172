# bottlerocket_agents

The decisions of the Bottlerocket test system's agents and of its `testsys` command line,
written in Verus and proved against their contracts.

The resource agents create and destroy EKS and ECS clusters, EC2 instances (directly or
through Karpenter), vSphere VMs and EKS Anywhere clusters; the test agents run sonobuoy,
ECS tasks and migrations of Bottlerocket hosts. Each of them talks to AWS, Kubernetes and
command line tools, and decides what to do from what it hears back. The library holds those
decisions: the commands and their arguments, the configuration files and user data it writes,
how it reads results, and what it tears down again. For the resource agents whose creation and
deletion run many steps (EKS, Karpenter, vSphere VMs, vSphere and bare metal EKS Anywhere
clusters), the library holds each run as a plan: the steps in order, the status the memo reports
before each, how long a wait may take, and what a failing step reports; `plan.rs` runs a plan one
step at a time, where a step that is not fatal only reports its failure. The memo that a creator
sends, and that the destroyer later reads, is modelled too: each plan names the steps that record
something in it, and the library proves what the memo holds at the points that matter (that EKS
provisioning is recorded before `eksctl` runs, that the cluster's name is recorded before
`eksctl anywhere` runs, what the last memo holds). The calls to AWS, Kubernetes and SSH that
perform the steps are not part of this crate.

TOML is read only up to a bound on its nesting (`TOML_NESTING_LIMIT` of the characters `[`, `{`
and `.`), since the TOML reader recurses once per level of nesting.

## Layout

- `src/` — the verified library.
  - `text.rs`: character-level helpers (decimal numbers, splitting, joining, trimming).
  - `k8s_version.rs`, `agent_config.rs`, `provider.rs`: the configuration types and the
    reports of the agents.
  - `document.rs`: JSON and YAML values as the parsers give them, and the lookups in them.
  - `plan.rs`: how an agent runs a plan of steps, what a failing step reports, and the memo
    the steps leave.
  - `creation.rs`: whether a cluster is created under a creation policy.
  - `secrets.rs`: the secret values read from AWS Secrets Manager.
  - `userdata.rs`, `toml_merge.rs`: base64 user data and the merge of TOML values.
  - `ec2.rs`, `karpenter.rs`, `ecs.rs`, `eks.rs`, `vsphere_vm.rs`, `vsphere_k8s.rs`,
    `metal_k8s.rs`, `eksa.rs`: the resource agents.
  - `sonobuoy.rs`, `migration.rs`: the test agents.
  - `testsys_plan.rs`, `cli.rs`: the command line.
- `tests/` — tests of the library.
- `app/` — the process, file and serialization edges that the library leaves out, the loop
  that runs a plan, and the EKS destroyer run on it.
