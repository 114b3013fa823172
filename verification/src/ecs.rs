//! What the ECS resource and test agents decide: the subnet and role policy of a new cluster, the
//! outcome of test tasks, and whether an existing task definition fits a workload test.

use crate::agent_config::CreationPolicy;
use crate::provider::{Outcome, ProviderError, Resources, TestResults};
use crate::text::{decimal, owned, push_decimal, str_eq};
use vstd::prelude::*;

verus! {

/// The default region for the cluster.
pub const DEFAULT_REGION: &'static str = "us-west-2";

/// The ecs instance profile name.
pub const IAM_INSTANCE_PROFILE_NAME: &'static str = "testsys-bottlerocket-aws-ecsInstanceRole";

/// The task definition run by the ECS smoke test when no other is configured.
pub const DEFAULT_TASK_DEFINITION: &'static str =
    "testsys-bottlerocket-aws-default-ecs-smoke-test-v1";

/// The prefix of the task definitions of workload tests.
pub const DEFAULT_TASK_DEFINITION_PREFIX: &'static str = "testsys-bottlerocket-";

/// Once the cluster is created, what the agent reports about it.
#[derive(Clone, Debug, Eq, PartialEq, Default)]
pub struct CreatedCluster {
    /// The name of the cluster we created.
    pub cluster_name: String,
    /// The region of the cluster.
    pub region: String,
    /// A public subnet id for this cluster.
    pub public_subnet_id: Option<String>,
    /// A private subnet id for this cluster.
    pub private_subnet_id: Option<String>,
    /// The iam instance role that was created for ecs
    pub iam_instance_profile_arn: Option<String>,
}

/// The first of the subnet ids, if there is one.
pub fn first_subnet_id(subnet_ids: &[String]) -> (r: Option<String>)
    ensures
        subnet_ids@.len() == 0 ==> r is None,
        subnet_ids@.len() > 0 ==> (r matches Some(id) && id@ == subnet_ids@[0]@),
{
    if subnet_ids.len() == 0 {
        None
    } else {
        Some(subnet_ids[0].clone())
    }
}

/// The trust policy of the ECS instance role: EC2 may assume it.
pub open spec fn ecs_role_policy_text() -> Seq<char> {
    "{\n    \"Version\": \"2008-10-17\",\n    \"Statement\": [\n        {\n        \"Sid\": \"\",\n        \"Effect\": \"Allow\",\n        \"Principal\": {\n            \"Service\": \"ec2.amazonaws.com\"\n        },\n        \"Action\": \"sts:AssumeRole\"\n        }\n    ]\n}"@
}

/// The assume-role policy document of the ECS instance role.
pub fn ecs_role_policy_document() -> (r: String)
    ensures
        r@ == ecs_role_policy_text(),
{
    let mut s = String::new();
    s.append(
        "{\n    \"Version\": \"2008-10-17\",\n    \"Statement\": [\n        {\n        \"Sid\": \"\",\n        \"Effect\": \"Allow\",\n        \"Principal\": {\n            \"Service\": \"ec2.amazonaws.com\"\n        },\n        \"Action\": \"sts:AssumeRole\"\n        }\n    ]\n}",
    );
    s
}

/// The region of the cluster: the configured one, else `us-west-2`.
pub fn region_or_default(region: &Option<String>) -> (r: String)
    ensures
        r@ == match region {
            Some(g) => g@,
            None => DEFAULT_REGION@,
        },
{
    match region {
        Some(g) => g.clone(),
        None => {
            let mut s = String::new();
            s.append(DEFAULT_REGION);
            s
        },
    }
}

/// What the ECS smoke test reads of a task: its last status.
#[derive(Clone, Debug, PartialEq, Eq)]
pub struct TaskStatus {
    pub last_status: Option<String>,
}

pub open spec fn is_running(t: TaskStatus) -> bool {
    match t.last_status {
        Some(s) => s@ == "Running"@,
        None => false,
    }
}

/// The number of tasks among `ts` whose last status is `Running`.
pub open spec fn running_count(ts: Seq<TaskStatus>) -> nat
    decreases ts.len(),
{
    if ts.len() == 0 {
        0
    } else {
        running_count(ts.drop_last()) + if is_running(ts.last()) {
            1nat
        } else {
            0nat
        }
    }
}

proof fn lemma_running_count_bound(ts: Seq<TaskStatus>)
    ensures
        running_count(ts) <= ts.len(),
    decreases ts.len(),
{
    if ts.len() > 0 {
        lemma_running_count_bound(ts.drop_last());
    }
}

/// The smoke test passes when all `task_count` tasks run; the tasks not running are failures.
pub fn test_results(tasks: &Vec<TaskStatus>, task_count: i32) -> (r: TestResults)
    requires
        tasks@.len() <= i32::MAX,
        i32::MIN <= task_count - running_count(tasks@) <= i32::MAX,
    ensures
        r.outcome == if task_count == running_count(tasks@) {
            Outcome::Pass
        } else {
            Outcome::Fail
        },
        r.num_passed == running_count(tasks@),
        r.num_failed == (task_count - running_count(tasks@)) as u64,
        r.num_skipped == 0,
        r.other_info is None,
{
    let mut running: i32 = 0;
    let mut i: usize = 0;
    while i < tasks.len()
        invariant
            0 <= i <= tasks.len(),
            tasks@.len() <= i32::MAX,
            running == running_count(tasks@.take(i as int)),
            running <= i,
        decreases tasks.len() - i,
    {
        let t = &tasks[i];
        let r = match &t.last_status {
            Some(s) => str_eq(s.as_str(), "Running"),
            None => false,
        };
        assert(tasks@.take(i + 1).drop_last() =~= tasks@.take(i as int));
        if r {
            running = running + 1;
        }
        i = i + 1;
    }
    assert(tasks@.take(i as int) =~= tasks@);
    TestResults {
        outcome: if task_count == running {
            Outcome::Pass
        } else {
            Outcome::Fail
        },
        num_passed: running as u64,
        num_failed: (task_count - running) as u64,
        num_skipped: 0,
        other_info: None,
    }
}

/// What the ECS workload test reads of a task: its last status, whether it stopped because its
/// essential container exited, and the exit codes of its containers.
#[derive(Clone, Debug, PartialEq, Eq)]
pub struct WorkloadTaskStatus {
    pub last_status: Option<String>,
    pub essential_container_exited: bool,
    pub container_exit_codes: Vec<Option<i32>>,
}

/// A task that stopped because its essential container exited.
pub open spec fn task_finished(t: WorkloadTaskStatus) -> bool {
    &&& t.last_status matches Some(s) && s@ == "STOPPED"@
    &&& t.essential_container_exited
}

/// A finished task all of whose containers exited with 0.
pub open spec fn task_passed(t: WorkloadTaskStatus) -> bool {
    &&& task_finished(t)
    &&& forall|i: int| 0 <= i < t.container_exit_codes@.len() ==> #[trigger] t.container_exit_codes@[i] == Some(0i32)
}

/// A finished task with a container that did not exit with 0.
pub open spec fn task_failed(t: WorkloadTaskStatus) -> bool {
    task_finished(t) && !task_passed(t)
}

pub open spec fn count_passed(ts: Seq<WorkloadTaskStatus>) -> nat
    decreases ts.len(),
{
    if ts.len() == 0 {
        0
    } else {
        count_passed(ts.drop_last()) + if task_passed(ts.last()) {
            1nat
        } else {
            0nat
        }
    }
}

pub open spec fn count_failed(ts: Seq<WorkloadTaskStatus>) -> nat
    decreases ts.len(),
{
    if ts.len() == 0 {
        0
    } else {
        count_failed(ts.drop_last()) + if task_failed(ts.last()) {
            1nat
        } else {
            0nat
        }
    }
}

proof fn lemma_counts_bound(ts: Seq<WorkloadTaskStatus>)
    ensures
        count_passed(ts) + count_failed(ts) <= ts.len(),
    decreases ts.len(),
{
    if ts.len() > 0 {
        lemma_counts_bound(ts.drop_last());
    }
}

fn all_exited_zero(codes: &Vec<Option<i32>>) -> (r: bool)
    ensures
        r == forall|i: int| 0 <= i < codes@.len() ==> #[trigger] codes@[i] == Some(0i32),
{
    let mut i: usize = 0;
    while i < codes.len()
        invariant
            0 <= i <= codes.len(),
            forall|j: int| 0 <= j < i ==> #[trigger] codes@[j] == Some(0i32),
        decreases codes.len() - i,
    {
        match codes[i] {
            Some(0) => {},
            _ => {
                return false;
            },
        }
        i = i + 1;
    }
    true
}

/// The workload test's results from its tasks: it passes when all `task_count` tasks passed, it
/// fails when all finished but some failed, and it is in progress otherwise.
pub fn workload_test_results(tasks: &Vec<WorkloadTaskStatus>, task_count: i32) -> (r: TestResults)
    requires
        tasks@.len() <= i32::MAX,
    ensures
        r.num_passed == count_passed(tasks@),
        r.num_failed == count_failed(tasks@),
        r.outcome == if task_count == count_passed(tasks@) {
            Outcome::Pass
        } else if task_count == count_passed(tasks@) + count_failed(tasks@) {
            Outcome::Fail
        } else {
            Outcome::InProgress
        },
        r.num_skipped == 0,
        r.other_info is None,
{
    let mut passed: i32 = 0;
    let mut failed: i32 = 0;
    let mut i: usize = 0;
    while i < tasks.len()
        invariant
            0 <= i <= tasks.len(),
            tasks@.len() <= i32::MAX,
            passed == count_passed(tasks@.take(i as int)),
            failed == count_failed(tasks@.take(i as int)),
            passed + failed <= i,
        decreases tasks.len() - i,
    {
        let t = &tasks[i];
        let finished = match &t.last_status {
            Some(s) => str_eq(s.as_str(), "STOPPED"),
            None => false,
        } && t.essential_container_exited;
        let zero = all_exited_zero(&t.container_exit_codes);
        assert(tasks@.take(i + 1).drop_last() =~= tasks@.take(i as int));
        if finished && zero {
            passed = passed + 1;
        } else if finished {
            failed = failed + 1;
        }
        i = i + 1;
    }
    assert(tasks@.take(i as int) =~= tasks@);
    TestResults {
        outcome: if task_count == passed {
            Outcome::Pass
        } else if task_count as i64 == passed as i64 + failed as i64 {
            Outcome::Fail
        } else {
            Outcome::InProgress
        },
        num_passed: passed as u64,
        num_failed: failed as u64,
        num_skipped: 0,
        other_info: None,
    }
}

/// A workload test: a container image to run, optionally on a GPU.
#[derive(Clone, Debug, PartialEq, Eq, Default)]
pub struct WorkloadTest {
    pub name: String,
    pub image: String,
    pub gpu: bool,
}

/// A resource requirement of a container definition: whether it asks for GPUs, and its value.
#[derive(Clone, Debug, PartialEq, Eq)]
pub struct ResourceRequirement {
    pub gpu: bool,
    pub value: Option<String>,
}

/// What a workload test compares of a container definition.
#[derive(Clone, Debug, PartialEq, Eq)]
pub struct ContainerDefinition {
    pub name: Option<String>,
    pub image: Option<String>,
    pub resource_requirements: Option<Vec<ResourceRequirement>>,
}

/// What a workload test compares of a task definition: its container definitions.
#[derive(Clone, Debug, PartialEq, Eq)]
pub struct TaskDefinition {
    pub container_definitions: Option<Vec<ContainerDefinition>>,
}

pub open spec fn text_or_empty(o: Option<String>) -> Seq<char> {
    match o {
        Some(s) => s@,
        None => Seq::empty(),
    }
}

/// A requirement of exactly one GPU.
pub open spec fn one_gpu(r: ResourceRequirement) -> bool {
    r.gpu && text_or_empty(r.value) == "1"@
}

/// Whether a task definition runs a workload test as it is configured now: a single container
/// with the test's name and image, asking for one GPU exactly when the test wants a GPU.
pub open spec fn matches_definition(test_def: WorkloadTest, task_def: TaskDefinition) -> bool {
    match task_def.container_definitions {
        Some(containers) => {
            &&& containers@.len() == 1
            &&& text_or_empty(containers@[0].name) == test_def.name@
            &&& text_or_empty(containers@[0].image) == test_def.image@
            &&& match containers@[0].resource_requirements {
                Some(reqs) => test_def.gpu == exists|i: int|
                    0 <= i < reqs@.len() && one_gpu(#[trigger] reqs@[i]),
                None => !test_def.gpu,
            }
        },
        None => false,
    }
}

fn text_eq(o: &Option<String>, s: &String) -> (r: bool)
    ensures
        r == (text_or_empty(*o) == s@),
{
    match o {
        Some(t) => str_eq(t.as_str(), s.as_str()),
        None => {
            let n = s.as_str().unicode_len();
            assert(n == 0 ==> s@ =~= Seq::<char>::empty());
            n == 0
        },
    }
}

/// Compares an individual task definition to see if its settings match the test settings.
pub fn is_matching_definition(test_def: &WorkloadTest, task_def: &TaskDefinition) -> (r: bool)
    ensures
        r == matches_definition(*test_def, *task_def),
{
    if let Some(containers) = &task_def.container_definitions {
        if containers.len() != 1 {
            return false;
        }
        let container_def = &containers[0];
        if text_eq(&container_def.name, &test_def.name) && text_eq(
            &container_def.image,
            &test_def.image,
        ) {
            match &container_def.resource_requirements {
                Some(reqs) => {
                    let mut gpu_set = false;
                    let mut i: usize = 0;
                    while i < reqs.len()
                        invariant
                            0 <= i <= reqs.len(),
                            gpu_set == exists|j: int| 0 <= j < i && one_gpu(#[trigger] reqs@[j]),
                        decreases reqs.len() - i,
                    {
                        let req = &reqs[i];
                        proof {
                            reveal_strlit("1");
                        }
                        let one = match &req.value {
                            Some(v) => str_eq(v.as_str(), "1"),
                            None => {
                                assert(text_or_empty(req.value) =~= Seq::<char>::empty());
                                false
                            },
                        };
                        if req.gpu && one {
                            gpu_set = true;
                        }
                        i = i + 1;
                    }
                    if test_def.gpu != gpu_set {
                        return false;
                    }
                },
                None => {
                    if test_def.gpu {
                        return false;
                    }
                },
            }
            return true;
        }
    }
    false
}

/// The name of the task definition of a workload test.
pub fn task_definition_name(test_def: &WorkloadTest) -> (r: String)
    ensures
        r@ == DEFAULT_TASK_DEFINITION_PREFIX@ + test_def.name@,
{
    let mut s = String::new();
    s.append(DEFAULT_TASK_DEFINITION_PREFIX);
    s.append(test_def.name.as_str());
    s
}

/// The container definition the agent registers for a workload test: the test's name and
/// image, essential, 300 MiB reserved, and one GPU when the test wants a GPU.
pub fn create_container_definition(test_def: &WorkloadTest) -> (r: ContainerDefinition)
    ensures
        is_created_definition(*test_def, r),
{
    let resource_requirements = if test_def.gpu {
        let mut reqs: Vec<ResourceRequirement> = Vec::new();
        let mut one = String::new();
        one.append("1");
        reqs.push(ResourceRequirement { gpu: true, value: Some(one) });
        Some(reqs)
    } else {
        None
    };
    ContainerDefinition {
        name: Some(test_def.name.clone()),
        image: Some(test_def.image.clone()),
        resource_requirements,
    }
}

/// Whether `c` is the container definition that `create_container_definition` gives for
/// `test_def`.
pub open spec fn is_created_definition(test_def: WorkloadTest, c: ContainerDefinition) -> bool {
    &&& c.name == Some(test_def.name)
    &&& c.image == Some(test_def.image)
    &&& test_def.gpu ==> (c.resource_requirements matches Some(reqs) && reqs@.len() == 1
        && one_gpu(reqs@[0]))
    &&& !test_def.gpu ==> c.resource_requirements is None
}

/// A task definition registered for a workload test, with the single container definition the
/// agent creates for it, is found again as a match for that test.
pub proof fn lemma_registered_definition_matches(
    test_def: WorkloadTest,
    c: ContainerDefinition,
    task_def: TaskDefinition,
)
    requires
        is_created_definition(test_def, c),
        task_def.container_definitions matches Some(v) && v@ == seq![c],
    ensures
        matches_definition(test_def, task_def),
{
    let v = task_def.container_definitions->0;
    assert(v@[0] == c);
    if test_def.gpu {
        let reqs = c.resource_requirements->0;
        assert(one_gpu(reqs@[0]));
    }
}

/// Creates an ECS cluster and the instance profile of its container instances.
#[derive(Clone, Copy, Debug, Default)]
pub struct EcsCreator {}

/// Removes what the creator made.
#[derive(Clone, Copy, Debug, Default)]
pub struct EcsDestroyer {}

/// One step of removing an ECS cluster.
#[derive(Clone, Copy, Debug, PartialEq, Eq, Structural)]
pub enum EcsTeardownStep {
    /// Remove the role from the instance profile.
    RemoveRoleFromInstanceProfile,
    /// Delete the instance profile.
    DeleteInstanceProfile,
    /// Detach the `AmazonEC2ContainerServiceforEC2Role` policy from the role.
    DetachContainerServicePolicy,
    /// Detach the `AmazonSSMManagedInstanceCore` policy from the role.
    DetachSsmPolicy,
    /// Delete the role.
    DeleteRole,
    /// Delete the cluster.
    DeleteCluster,
}

/// The teardown: the instance profile and its role only when the agent created them, then the
/// cluster when the memo names one.
pub open spec fn ecs_teardown_plan(
    iam_instance_creation_policy: Option<CreationPolicy>,
    has_cluster: bool,
) -> Seq<EcsTeardownStep> {
    (if iam_instance_creation_policy == Some(CreationPolicy::Create) {
        seq![
            EcsTeardownStep::RemoveRoleFromInstanceProfile,
            EcsTeardownStep::DeleteInstanceProfile,
            EcsTeardownStep::DetachContainerServicePolicy,
            EcsTeardownStep::DetachSsmPolicy,
            EcsTeardownStep::DeleteRole,
        ]
    } else {
        Seq::empty()
    }) + (if has_cluster {
        seq![EcsTeardownStep::DeleteCluster]
    } else {
        Seq::empty()
    })
}

/// What remains, and what is said, when a step fails.
pub open spec fn ecs_step_failure(step: EcsTeardownStep) -> (Resources, Seq<char>) {
    match step {
        EcsTeardownStep::RemoveRoleFromInstanceProfile => (
            Resources::Remaining,
            "Unable to remove role from instance profile."@,
        ),
        EcsTeardownStep::DeleteInstanceProfile => (
            Resources::Remaining,
            "Unable to delete instance profile."@,
        ),
        EcsTeardownStep::DetachContainerServicePolicy => (
            Resources::Remaining,
            "Unable to detach AmazonEC2ContainerServiceforEC2Role"@,
        ),
        EcsTeardownStep::DetachSsmPolicy => (
            Resources::Remaining,
            "Unable to detach AmazonSSMManagedInstanceCore"@,
        ),
        EcsTeardownStep::DeleteRole => (Resources::Remaining, "Unable to delete iam role."@),
        EcsTeardownStep::DeleteCluster => (Resources::Unknown, "The cluster could not be deleted."@),
    }
}

impl EcsDestroyer {
    /// The steps, in order, with which the destroyer removes what the memo records.
    pub fn teardown_steps(
        &self,
        iam_instance_creation_policy: Option<CreationPolicy>,
        cluster_name: &Option<String>,
    ) -> (r: Vec<EcsTeardownStep>)
        ensures
            r@ == ecs_teardown_plan(iam_instance_creation_policy, cluster_name is Some),
    {
        let mut v: Vec<EcsTeardownStep> = Vec::new();
        let created = match iam_instance_creation_policy {
            Some(CreationPolicy::Create) => true,
            _ => false,
        };
        if created {
            v.push(EcsTeardownStep::RemoveRoleFromInstanceProfile);
            v.push(EcsTeardownStep::DeleteInstanceProfile);
            v.push(EcsTeardownStep::DetachContainerServicePolicy);
            v.push(EcsTeardownStep::DetachSsmPolicy);
            v.push(EcsTeardownStep::DeleteRole);
        }
        if cluster_name.is_some() {
            v.push(EcsTeardownStep::DeleteCluster);
        }
        assert(v@ =~= ecs_teardown_plan(iam_instance_creation_policy, cluster_name is Some));
        v
    }

    /// What remains when `step` fails, and the context of the error.
    pub fn step_failure(&self, step: EcsTeardownStep) -> (r: (Resources, &'static str))
        ensures
            (r.0, r.1@) == ecs_step_failure(step),
    {
        match step {
            EcsTeardownStep::RemoveRoleFromInstanceProfile => (
                Resources::Remaining,
                "Unable to remove role from instance profile.",
            ),
            EcsTeardownStep::DeleteInstanceProfile => (
                Resources::Remaining,
                "Unable to delete instance profile.",
            ),
            EcsTeardownStep::DetachContainerServicePolicy => (
                Resources::Remaining,
                "Unable to detach AmazonEC2ContainerServiceforEC2Role",
            ),
            EcsTeardownStep::DetachSsmPolicy => (
                Resources::Remaining,
                "Unable to detach AmazonSSMManagedInstanceCore",
            ),
            EcsTeardownStep::DeleteRole => (Resources::Remaining, "Unable to delete iam role."),
            EcsTeardownStep::DeleteCluster => (Resources::Unknown, "The cluster could not be deleted."),
        }
    }
}

/// Only what the agent created is removed: the instance profile and its role are left alone
/// unless the agent created them, and no cluster is deleted unless the memo names one.
pub proof fn lemma_ecs_teardown_only_what_was_created(
    iam_instance_creation_policy: Option<CreationPolicy>,
    has_cluster: bool,
)
    ensures
        iam_instance_creation_policy != Some(CreationPolicy::Create) ==> !ecs_teardown_plan(
            iam_instance_creation_policy,
            has_cluster,
        ).contains(EcsTeardownStep::DeleteRole) && !ecs_teardown_plan(
            iam_instance_creation_policy,
            has_cluster,
        ).contains(EcsTeardownStep::DeleteInstanceProfile),
        ecs_teardown_plan(iam_instance_creation_policy, has_cluster).contains(
            EcsTeardownStep::DeleteCluster,
        ) == has_cluster,
{
    let p = ecs_teardown_plan(iam_instance_creation_policy, has_cluster);
    if iam_instance_creation_policy != Some(CreationPolicy::Create) {
        if p.contains(EcsTeardownStep::DeleteRole) {
            let j = choose|j: int| 0 <= j < p.len() && p[j] == EcsTeardownStep::DeleteRole;
            assert(false);
        }
        if p.contains(EcsTeardownStep::DeleteInstanceProfile) {
            let j = choose|j: int| 0 <= j < p.len() && p[j] == EcsTeardownStep::DeleteInstanceProfile;
            assert(false);
        }
    }
    if has_cluster {
        assert(p[p.len() - 1] == EcsTeardownStep::DeleteCluster);
    } else if p.contains(EcsTeardownStep::DeleteCluster) {
        let j = choose|j: int| 0 <= j < p.len() && p[j] == EcsTeardownStep::DeleteCluster;
        assert(false);
    }
}

/// The first of the listed revisions, in the order listed, whose definition could be read and
/// matches the workload test.
pub open spec fn first_matching_revision_spec(
    revisions: Seq<Option<TaskDefinition>>,
    test_def: WorkloadTest,
) -> nat
    decreases revisions.len(),
{
    if revisions.len() == 0 {
        0
    } else if revisions[0] matches Some(d) && matches_definition(test_def, d) {
        0
    } else {
        1 + first_matching_revision_spec(revisions.drop_first(), test_def)
    }
}

proof fn lemma_first_matching_revision(
    revisions: Seq<Option<TaskDefinition>>,
    test_def: WorkloadTest,
    i: nat,
)
    requires
        i <= revisions.len(),
        forall|j: int|
            0 <= j < i ==> !(#[trigger] revisions[j] matches Some(d) && matches_definition(test_def, d)),
    ensures
        first_matching_revision_spec(revisions, test_def) == i + first_matching_revision_spec(
            revisions.subrange(i as int, revisions.len() as int),
            test_def,
        ),
    decreases i,
{
    if i > 0 {
        let rest = revisions.drop_first();
        assert(!(revisions[0] matches Some(d) && matches_definition(test_def, d)));
        assert forall|j: int|
            0 <= j < i - 1 implies !(#[trigger] rest[j] matches Some(d) && matches_definition(
            test_def,
            d,
        )) by {
            assert(rest[j] == revisions[j + 1]);
        }
        lemma_first_matching_revision(rest, test_def, (i - 1) as nat);
        assert(rest.subrange(i - 1, rest.len() as int) =~= revisions.subrange(
            i as int,
            revisions.len() as int,
        ));
    } else {
        assert(revisions.subrange(0, revisions.len() as int) =~= revisions);
    }
}

/// The revision to reuse for a workload test: the first listed one (newest first) whose
/// definition could be read and matches the test; `None` when none does, and a new revision
/// is registered.
pub fn first_matching_revision(revisions: &Vec<Option<TaskDefinition>>, test_def: &WorkloadTest) -> (r:
    Option<usize>)
    ensures
        match r {
            Some(i) => i == first_matching_revision_spec(revisions@, *test_def) && i
                < revisions@.len(),
            None => first_matching_revision_spec(revisions@, *test_def) == revisions@.len(),
        },
{
    let mut i: usize = 0;
    while i < revisions.len()
        invariant
            0 <= i <= revisions@.len(),
            forall|j: int|
                0 <= j < i ==> !(#[trigger] revisions@[j] matches Some(d) && matches_definition(
                    *test_def,
                    d,
                )),
        decreases revisions.len() - i,
    {
        let hit = match &revisions[i] {
            Some(d) => is_matching_definition(test_def, d),
            None => false,
        };
        if hit {
            proof {
                lemma_first_matching_revision(revisions@, *test_def, i as nat);
                let rest = revisions@.subrange(i as int, revisions@.len() as int);
                assert(rest[0] == revisions@[i as int]);
            }
            return Some(i);
        }
        i = i + 1;
    }
    proof {
        lemma_first_matching_revision(revisions@, *test_def, i as nat);
    }
    None
}

/// Whether the wait for the workload tasks is over: they all passed, or all finished and some
/// failed.
pub fn completion_reached(outcome: Outcome) -> (r: bool)
    ensures
        r == (outcome == Outcome::Pass || outcome == Outcome::Fail),
{
    match outcome {
        Outcome::Pass => true,
        Outcome::Fail => true,
        _ => false,
    }
}

/// The progress note of the `attempt`-th check for completion.
pub fn waiting_message(attempt: u64) -> (r: String)
    ensures
        r@ == "Waiting for test completion: attempt "@ + decimal(attempt as nat),
{
    let mut r = owned("Waiting for test completion: attempt ");
    push_decimal(&mut r, attempt as u128);
    r
}

/// The results once the wait timed out: tasks still in progress make it a time-out; a final
/// check that found them finished stands.
pub fn timed_out_results(results: TestResults) -> (r: TestResults)
    ensures
        r.outcome == if results.outcome == Outcome::InProgress {
            Outcome::Timeout
        } else {
            results.outcome
        },
        r.num_passed == results.num_passed,
        r.num_failed == results.num_failed,
        r.num_skipped == results.num_skipped,
        r.other_info == results.other_info,
{
    let outcome = match results.outcome {
        Outcome::InProgress => Outcome::Timeout,
        o => o,
    };
    TestResults { outcome, ..results }
}


/// What the ECS creator does about the instance profile of its container instances.
#[derive(Clone, Debug, PartialEq, Eq)]
pub enum InstanceProfileAction {
    /// Create the role and the instance profile (`instance_profile_steps`), then use it.
    Create,
    /// Use the instance profile that exists.
    UseExisting,
    /// Stop with this error.
    Refuse(ProviderError),
}

/// What the creation policy asks of the instance profile, given whether it `exists`: it is
/// created when it does not exist and the policy allows creating it, used when it exists and the
/// policy does not insist on creating it, and the creation stops otherwise.
pub open spec fn instance_profile_action_spec(policy: CreationPolicy, exists: bool) -> Result<
    bool,
    Seq<char>,
> {
    match (policy, exists) {
        (CreationPolicy::Never, false) => Err(
            "Instance profile creation policy is `Never`, but profile doesn't exist."@,
        ),
        (CreationPolicy::Create, true) => Err(
            "Instance profile creation policy is `Create`, but profile already exists."@,
        ),
        (_, false) => Ok(true),
        (_, true) => Ok(false),
    }
}

/// Decides what to do about the instance profile under the creation policy `policy`, when it
/// `exists` or not; a refusal leaves the cluster behind.
pub fn instance_profile_action(policy: CreationPolicy, exists: bool) -> (r: InstanceProfileAction)
    ensures
        match instance_profile_action_spec(policy, exists) {
            Ok(true) => r == InstanceProfileAction::Create,
            Ok(false) => r == InstanceProfileAction::UseExisting,
            Err(m) => r matches InstanceProfileAction::Refuse(e) && e.resources == Resources::Remaining
                && e.context@ == m,
        },
{
    match (policy, exists) {
        (CreationPolicy::Never, false) => InstanceProfileAction::Refuse(
            ProviderError::new_with_context(
                Resources::Remaining,
                owned("Instance profile creation policy is `Never`, but profile doesn't exist."),
            ),
        ),
        (CreationPolicy::Create, true) => InstanceProfileAction::Refuse(
            ProviderError::new_with_context(
                Resources::Remaining,
                owned("Instance profile creation policy is `Create`, but profile already exists."),
            ),
        ),
        (_, false) => InstanceProfileAction::Create,
        (_, true) => InstanceProfileAction::UseExisting,
    }
}

/// The policies attached to the role of the instance profile, in order.
pub open spec fn instance_profile_policies_spec() -> Seq<Seq<char>> {
    seq![
        "arn:aws:iam::aws:policy/AmazonSSMManagedInstanceCore"@,
        "arn:aws:iam::aws:policy/service-role/AmazonEC2ContainerServiceforEC2Role"@,
    ]
}

/// One step of creating the instance profile.
#[derive(Clone, Copy, Debug, PartialEq, Eq, Structural)]
pub enum InstanceProfileStep {
    /// Create the role `IAM_INSTANCE_PROFILE_NAME` with `ecs_role_policy_document`.
    CreateRole,
    /// Attach the SSM managed instance policy to the role.
    AttachSsmPolicy,
    /// Attach the ECS container instance policy to the role.
    AttachEcsPolicy,
    /// Create the instance profile.
    CreateInstanceProfile,
    /// Add the role to the instance profile.
    AddRole,
    /// Wait for the instance profile to propagate.
    WaitForPropagation,
}

/// The steps of creating the instance profile, each failure leaving the cluster behind; the
/// creator then waits 60 seconds for the profile to propagate.
pub open spec fn instance_profile_steps_spec() -> Seq<(InstanceProfileStep, Option<Seq<char>>)> {
    seq![
        (InstanceProfileStep::CreateRole, Some("Unable to create new role."@)),
        (InstanceProfileStep::AttachSsmPolicy, Some("Unable to attach AmazonSSM policy"@)),
        (
            InstanceProfileStep::AttachEcsPolicy,
            Some("Unable to attach AmazonEC2ContainerServiceforEC2Role policy"@),
        ),
        (InstanceProfileStep::CreateInstanceProfile, Some("Unable to create instance profile"@)),
        (InstanceProfileStep::AddRole, Some("Unable to add role to instance profile"@)),
        (InstanceProfileStep::WaitForPropagation, None),
    ]
}

/// How long the creator waits for a new instance profile to propagate, in seconds.
pub const INSTANCE_PROFILE_PROPAGATION_SECS: u64 = 60;

/// The policy ARNs attached to the role of the instance profile, in order.
pub fn instance_profile_policies() -> (r: Vec<String>)
    ensures
        r@.map_values(|s: String| s@) == instance_profile_policies_spec(),
{
    let mut v: Vec<String> = Vec::new();
    v.push(owned("arn:aws:iam::aws:policy/AmazonSSMManagedInstanceCore"));
    v.push(owned("arn:aws:iam::aws:policy/service-role/AmazonEC2ContainerServiceforEC2Role"));
    assert(v@.map_values(|s: String| s@) =~= instance_profile_policies_spec());
    v
}

/// The steps of creating the instance profile, each with the message its failure reports.
pub fn instance_profile_steps() -> (r: Vec<(InstanceProfileStep, Option<&'static str>)>)
    ensures
        r@.map_values(
            |p: (InstanceProfileStep, Option<&'static str>)|
                (
                    p.0,
                    match p.1 {
                        Some(m) => Some(m@),
                        None => None,
                    },
                ),
        ) == instance_profile_steps_spec(),
{
    let mut v: Vec<(InstanceProfileStep, Option<&'static str>)> = Vec::new();
    v.push((InstanceProfileStep::CreateRole, Some("Unable to create new role.")));
    v.push((InstanceProfileStep::AttachSsmPolicy, Some("Unable to attach AmazonSSM policy")));
    v.push(
        (
            InstanceProfileStep::AttachEcsPolicy,
            Some("Unable to attach AmazonEC2ContainerServiceforEC2Role policy"),
        ),
    );
    v.push((InstanceProfileStep::CreateInstanceProfile, Some("Unable to create instance profile")));
    v.push((InstanceProfileStep::AddRole, Some("Unable to add role to instance profile")));
    v.push((InstanceProfileStep::WaitForPropagation, None));
    assert(v@.map_values(
        |p: (InstanceProfileStep, Option<&'static str>)|
            (
                p.0,
                match p.1 {
                    Some(m) => Some(m@),
                    None => None,
                },
            ),
    ) =~= instance_profile_steps_spec());
    v
}

} // verus!
