//! What the EC2 resource agent decides about the instances it launches and terminates.

use crate::agent_config::ClusterType;
use crate::plan::PlannedStep;
use crate::provider::{ProviderError, Resources};
use std::collections::HashSet;
use crate::text::{hex_text, contains_text, owned, push_string, str_eq, string_views};
use vstd::prelude::*;

verus! {

/// The default number of instances to spin up.
pub const DEFAULT_INSTANCE_COUNT: i32 = 2;

/// The tag name for the uuid used to create instances.
pub const INSTANCE_UUID_TAG_NAME: &'static str = "testsys-ec2-uuid";

/// Once we have fulfilled the `Create` request, we return information about the batch of ec2
/// instances we created.
#[derive(Debug, Default)]
pub struct CreatedEc2Instances {
    /// The ids of all created instances
    pub ids: HashSet<String>,
}

/// The number of instances to launch: the configured count, else the default.
pub fn instance_count(configured: Option<i32>) -> (r: i32)
    ensures
        r == match configured {
            Some(n) => n,
            None => DEFAULT_INSTANCE_COUNT,
        },
{
    match configured {
        Some(n) => n,
        None => DEFAULT_INSTANCE_COUNT,
    }
}

/// The architecture of an AMI.
#[derive(Clone, Copy, Debug, PartialEq, Eq, Structural)]
pub enum Architecture {
    X8664,
    Arm64,
    Other,
}

/// The instance type recommended for an AMI of architecture `arch`: `m5.large` for `x86_64`,
/// `m6g.large` otherwise.
pub fn instance_type(arch: Architecture) -> (r: String)
    ensures
        r@ == if arch == Architecture::X8664 {
            "m5.large"@
        } else {
            "m6g.large"@
        },
{
    let mut s = String::new();
    match arch {
        Architecture::X8664 => s.append("m5.large"),
        _ => s.append("m6g.large"),
    }
    s
}

/// The first subnet id, or an error when there is none.
pub fn first_subnet_id(subnet_ids: &[String], resources: Resources) -> (r: Result<
    String,
    ProviderError,
>)
    ensures
        subnet_ids@.len() > 0 ==> (r matches Ok(id) && id@ == subnet_ids@[0]@),
        subnet_ids@.len() == 0 ==> (r matches Err(e) && e.resources == resources && e.context@
            == "There are no private subnet ids"@),
{
    if subnet_ids.len() == 0 {
        let mut msg = String::new();
        msg.append("There are no private subnet ids");
        Err(ProviderError::new_with_context(resources, msg))
    } else {
        Ok(subnet_ids[0].clone())
    }
}

/// The state the agent waits for the instances to reach.
#[derive(Clone, Copy, Debug, PartialEq, Eq, Structural)]
pub enum DesiredInstanceState {
    Running,
    Terminated,
}

/// The instance states that do not conform to the desired state.
pub open spec fn nonconforming_states(d: DesiredInstanceState) -> Seq<Seq<char>> {
    seq!["pending"@, "shutting-down"@, "stopping"@, "stopped"@, match d {
        DesiredInstanceState::Running => "terminated"@,
        DesiredInstanceState::Terminated => "running"@,
    }]
}

impl DesiredInstanceState {
    /// The name of the filter that selects instances by state.
    pub fn filter_name(&self) -> (r: &'static str)
        ensures
            r@ == "instance-state-name"@,
    {
        "instance-state-name"
    }

    /// The values of the `instance-state-name` filter that selects the instances that are not
    /// (yet) in the desired state.
    pub fn filter(&self) -> (r: Vec<String>)
        ensures
            r@.map_values(|s: String| s@) == nonconforming_states(*self),
    {
        let mut v: Vec<String> = Vec::new();
        v.push(owned("pending"));
        v.push(owned("shutting-down"));
        v.push(owned("stopping"));
        v.push(owned("stopped"));
        match self {
            DesiredInstanceState::Running => v.push(owned("terminated")),
            DesiredInstanceState::Terminated => v.push(owned("running")),
        }
        assert(v@.map_values(|s: String| s@) =~= nonconforming_states(*self));
        v
    }
}

/// The tags of the instances launched for a cluster: its name and ownership for EKS, and for all
/// clusters the UUID by which the agent finds its instances again.
pub open spec fn instance_tags(
    cluster_type: ClusterType,
    cluster_name: Seq<char>,
    instance_uuid: Seq<char>,
) -> Seq<(Seq<char>, Seq<char>)> {
    match cluster_type {
        ClusterType::Eks => seq![
            ("Name"@, cluster_name + "_node"@),
            ("kubernetes.io/cluster/"@ + cluster_name, "owned"@),
            (INSTANCE_UUID_TAG_NAME@, instance_uuid),
        ],
        ClusterType::Ecs => seq![(INSTANCE_UUID_TAG_NAME@, instance_uuid)],
    }
}

pub open spec fn tag_views(tags: Seq<(String, String)>) -> Seq<(Seq<char>, Seq<char>)> {
    tags.map_values(|t: (String, String)| (t.0@, t.1@))
}

/// The tags (key, value) that the agent puts on the instances it launches.
pub fn tag_specifications(cluster_type: &ClusterType, cluster_name: &str, instance_uuid: &str) -> (r:
    Vec<(String, String)>)
    ensures
        tag_views(r@) == instance_tags(*cluster_type, cluster_name@, instance_uuid@),
{
    let mut v: Vec<(String, String)> = Vec::new();
    match cluster_type {
        ClusterType::Eks => {
            let mut name = owned(cluster_name);
            name.append("_node");
            v.push((owned("Name"), name));
            let mut key = owned("kubernetes.io/cluster/");
            key.append(cluster_name);
            v.push((key, owned("owned")));
            v.push((owned(INSTANCE_UUID_TAG_NAME), owned(instance_uuid)));
        },
        ClusterType::Ecs => {
            v.push((owned(INSTANCE_UUID_TAG_NAME), owned(instance_uuid)));
        },
    }
    assert(tag_views(v@) =~= instance_tags(*cluster_type, cluster_name@, instance_uuid@));
    v
}

/// The value of the `tag` filter that finds the instances launched with `uuid`.
pub fn uuid_tag_filter(uuid: &str) -> (r: String)
    ensures
        r@ == INSTANCE_UUID_TAG_NAME@ + "="@ + uuid@,
{
    let mut s = owned(INSTANCE_UUID_TAG_NAME);
    s.append("=");
    s.append(uuid);
    s
}

/// The instance types to try, in order: the configured ones, or else the one recommended for
/// the AMI.
pub fn instance_types_to_try(configured: &Vec<String>, recommended: String) -> (r: Vec<String>)
    ensures
        configured@.len() > 0 ==> r@ == configured@,
        configured@.len() == 0 ==> r@ == seq![recommended],
{
    if configured.len() > 0 {
        configured.clone()
    } else {
        let mut v: Vec<String> = Vec::new();
        v.push(recommended);
        v
    }
}

/// The security groups to put the instances in: none given means no explicit groups.
pub fn security_group_ids(security_groups: &Vec<String>) -> (r: Option<Vec<String>>)
    ensures
        security_groups@.len() == 0 ==> r is None,
        security_groups@.len() > 0 ==> (r matches Some(v) && v@ == security_groups@),
{
    if security_groups.len() == 0 {
        None
    } else {
        Some(security_groups.clone())
    }
}

/// When something goes wrong, whether the instances the agent knows of still need destroying.
pub fn resources_situation(instance_ids: &HashSet<String>) -> (r: Resources)
    ensures
        r == if instance_ids@.is_empty() {
            Resources::Clear
        } else {
            Resources::Remaining
        },
{
    if instance_ids.is_empty() {
        Resources::Clear
    } else {
        Resources::Remaining
    }
}

/// Launches the EC2 instances of a cluster.
#[derive(Clone, Copy, Debug, Default)]
pub struct Ec2Creator {}

/// Terminates the instances the creator launched.
#[derive(Clone, Copy, Debug, Default)]
pub struct Ec2Destroyer {}

/// What the destroyer does next.
#[derive(Clone, Debug)]
pub enum Ec2DestroyAction {
    /// Look the instances up by the UUID tag they were launched with.
    LookUpByUuid(String),
    /// Nothing is left to terminate.
    Done,
    /// Terminate these instances, after deregistering them from their ECS cluster where asked.
    Terminate { ids: Vec<String>, deregister_from_ecs: bool },
}

/// The action for the instances `ids`: nothing when there are none, else their termination,
/// deregistering them first when they are container instances of an ECS cluster.
pub open spec fn terminate_or_done(ids: Seq<Seq<char>>, cluster_type: ClusterType) -> (Option<
    Seq<Seq<char>>,
>, bool) {
    if ids.len() == 0 {
        (None, false)
    } else {
        (Some(ids), cluster_type == ClusterType::Ecs)
    }
}

/// Whether `a` is the action `terminate_or_done` describes.
pub open spec fn is_terminate_or_done(
    a: Ec2DestroyAction,
    ids: Seq<Seq<char>>,
    cluster_type: ClusterType,
) -> bool {
    match terminate_or_done(ids, cluster_type) {
        (None, _) => a is Done,
        (Some(v), d) => a matches Ec2DestroyAction::Terminate { ids: t, deregister_from_ecs }
            && string_views(t@) == v && deregister_from_ecs == d,
    }
}

fn terminate_or_done_action(ids: Vec<String>, cluster_type: ClusterType) -> (r: Ec2DestroyAction)
    ensures
        is_terminate_or_done(r, string_views(ids@), cluster_type),
{
    if ids.len() == 0 {
        Ec2DestroyAction::Done
    } else {
        let deregister_from_ecs = match cluster_type {
            ClusterType::Ecs => true,
            ClusterType::Eks => false,
        };
        Ec2DestroyAction::Terminate { ids, deregister_from_ecs }
    }
}

impl Ec2Destroyer {
    /// The first action of the destroyer: it terminates the instances of the created resource,
    /// else those of the memo; when there are none and the memo has the UUID they were launched
    /// with, it first looks for instances with that tag.
    pub fn first_action(
        &self,
        resource_ids: Option<Vec<String>>,
        memo_ids: Vec<String>,
        uuid_tag: Option<String>,
        cluster_type: ClusterType,
    ) -> (r: Ec2DestroyAction)
        ensures
            ({
                let ids = match resource_ids {
                    Some(v) => string_views(v@),
                    None => string_views(memo_ids@),
                };
                if ids.len() == 0 && uuid_tag is Some {
                    r matches Ec2DestroyAction::LookUpByUuid(u) && u@ == uuid_tag->0@
                } else {
                    is_terminate_or_done(r, ids, cluster_type)
                }
            }),
    {
        let ids = match resource_ids {
            Some(v) => v,
            None => memo_ids,
        };
        if ids.len() == 0 {
            match uuid_tag {
                Some(u) => {
                    return Ec2DestroyAction::LookUpByUuid(u);
                },
                None => {},
            }
        }
        terminate_or_done_action(ids, cluster_type)
    }

    /// The action once the lookup by UUID found `found`.
    pub fn after_lookup(&self, found: Vec<String>, cluster_type: ClusterType) -> (r:
        Ec2DestroyAction)
        ensures
            is_terminate_or_done(r, string_views(found@), cluster_type),
    {
        terminate_or_done_action(found, cluster_type)
    }

    /// The instance ids the memo still records once `terminated` are gone, in their order.
    pub fn remaining_ids(&self, memo_ids: &Vec<String>, terminated: &Vec<String>) -> (r: Vec<
        String,
    >)
        ensures
            string_views(r@) == string_views(memo_ids@).filter(
                |id: Seq<char>| !string_views(terminated@).contains(id),
            ),
    {
        let ghost gone = string_views(terminated@);
        let mut v: Vec<String> = Vec::new();
        let mut i: usize = 0;
        while i < memo_ids.len()
            invariant
                0 <= i <= memo_ids@.len(),
                gone == string_views(terminated@),
                string_views(v@) == string_views(memo_ids@).take(i as int).filter(
                    |id: Seq<char>| !gone.contains(id),
                ),
            decreases memo_ids.len() - i,
        {
            let id = &memo_ids[i];
            let mut found = false;
            let mut j: usize = 0;
            while j < terminated.len()
                invariant
                    0 <= j <= terminated@.len(),
                    gone == string_views(terminated@),
                    found == exists|k: int| 0 <= k < j && gone[k] == id@,
                decreases terminated.len() - j,
            {
                let same = str_eq(terminated[j].as_str(), id.as_str());
                proof {
                    assert(gone[j as int] == terminated@[j as int]@);
                }
                if same {
                    found = true;
                }
                j = j + 1;
            }
            proof {
                let all = string_views(memo_ids@);
                assert(all.take(i + 1).drop_last() =~= all.take(i as int));
                assert(all.take(i + 1).last() == id@);
                if found {
                    let k = choose|k: int| 0 <= k < j && gone[k] == id@;
                    assert(gone.contains(id@));
                } else {
                    assert(!gone.contains(id@)) by {
                        if gone.contains(id@) {
                            let k = choose|k: int| 0 <= k < gone.len() && gone[k] == id@;
                            assert(gone[k] == id@);
                        }
                    }
                }
                assert(all.take(i + 1) =~= all.take(i as int).push(id@));
                all.take(i as int).lemma_filter_push(id@, |x: Seq<char>| !gone.contains(x));
            }
            if !found {
                let ghost before = string_views(v@);
                v.push(id.clone());
                assert(string_views(v@) =~= before.push(id@));
            }
            i = i + 1;
        }
        assert(string_views(memo_ids@).take(i as int) =~= string_views(memo_ids@));
        v
    }
}

/// The (instance type, subnet) pairs to try, in order: every subnet for the first type, then
/// every subnet for the next, and so on.
pub open spec fn launch_attempts_spec(types: Seq<Seq<char>>, subnets: Seq<Seq<char>>) -> Seq<
    (Seq<char>, Seq<char>),
>
    decreases types.len(),
{
    if types.len() == 0 {
        Seq::empty()
    } else {
        launch_attempts_spec(types.drop_last(), subnets) + subnets.map_values(
            |s: Seq<char>| (types.last(), s),
        )
    }
}

/// The 16 bytes of the version 4 (random) UUID made of `random`: its version nibble set to `4`
/// and its variant bits to those of RFC 4122.
pub open spec fn uuid_v4_bytes(random: Seq<u8>) -> Seq<u8> {
    random.update(6, (random[6] & 0x0f) | 0x40).update(8, (random[8] & 0x3f) | 0x80)
}

/// The hyphenated lowercase text of the UUID with the 16 bytes `b`: groups of 8, 4, 4, 4 and 12
/// hexadecimal digits.
pub open spec fn uuid_text(b: Seq<u8>) -> Seq<char> {
    let h = hex_text(b);
    h.subrange(0, 8) + "-"@ + h.subrange(8, 12) + "-"@ + h.subrange(12, 16) + "-"@ + h.subrange(
        16,
        20,
    ) + "-"@ + h.subrange(20, 32)
}

/// `uuid::Builder::from_random_bytes` made into a `uuid::Uuid` and written with `to_string`:
/// the version 4 UUID of the random bytes `random`, hyphenated, in lowercase.
#[verifier::external_body]
fn uuid_from_random_bytes(random: [u8; 16]) -> (r: String)
    ensures
        r@ == uuid_text(uuid_v4_bytes(random@)),
{
    uuid::Builder::from_random_bytes(random).into_uuid().to_string()
}

impl Ec2Creator {
    /// The UUID to tag the instances with, so that the destroyer finds them again even when it
    /// lost their ids: the version 4 UUID of the 16 random bytes `random`.
    pub fn new_instance_uuid(&self, random: [u8; 16]) -> (r: String)
        ensures
            r@ == uuid_text(uuid_v4_bytes(random@)),
    {
        uuid_from_random_bytes(random)
    }

    /// The order in which the creator tries to launch the instances: each configured instance
    /// type in every subnet, the first success ending the search.
    pub fn launch_attempts(&self, instance_types: &Vec<String>, subnet_ids: &Vec<String>) -> (r: Vec<
        (String, String),
    >)
        ensures
            tag_views(r@) == launch_attempts_spec(string_views(instance_types@), string_views(subnet_ids@)),
    {
        let ghost ts = string_views(instance_types@);
        let ghost ss = string_views(subnet_ids@);
        let mut v: Vec<(String, String)> = Vec::new();
        let mut i: usize = 0;
        while i < instance_types.len()
            invariant
                0 <= i <= instance_types@.len(),
                ts == string_views(instance_types@),
                ss == string_views(subnet_ids@),
                tag_views(v@) == launch_attempts_spec(ts.take(i as int), ss),
            decreases instance_types.len() - i,
        {
            let ghost before = tag_views(v@);
            let mut j: usize = 0;
            while j < subnet_ids.len()
                invariant
                    0 <= i < instance_types@.len(),
                    0 <= j <= subnet_ids@.len(),
                    ts == string_views(instance_types@),
                    ss == string_views(subnet_ids@),
                    tag_views(v@) == before + ss.take(j as int).map_values(
                        |s: Seq<char>| (ts[i as int], s),
                    ),
                decreases subnet_ids.len() - j,
            {
                let ghost prev = tag_views(v@);
                v.push((instance_types[i].clone(), subnet_ids[j].clone()));
                assert(tag_views(v@) =~= prev.push((ts[i as int], ss[j as int])));
                assert(ss.take(j + 1).map_values(|s: Seq<char>| (ts[i as int], s)) =~= ss.take(
                    j as int,
                ).map_values(|s: Seq<char>| (ts[i as int], s)).push((ts[i as int], ss[j as int])));
                j = j + 1;
            }
            proof {
                assert(ss.take(j as int) =~= ss);
                let next = ts.take(i + 1);
                assert(next.drop_last() =~= ts.take(i as int));
                assert(next.last() == ts[i as int]);
            }
            i = i + 1;
        }
        assert(ts.take(i as int) =~= ts);
        v
    }

    /// The error when no attempt launched the instances.
    pub fn no_launch_error(&self) -> (e: ProviderError)
        ensures
            e.resources == Resources::Clear,
            e.context@
                == "Failed to create instances of any of the provided types in any of the provided subnets"@,
    {
        ProviderError::new_with_context(
            Resources::Clear,
            owned(
                "Failed to create instances of any of the provided types in any of the provided subnets",
            ),
        )
    }
}

/// How long one launch attempt may run, in seconds.
pub const LAUNCH_ATTEMPT_SECS: u64 = 360;

/// How a launch attempt came out.
#[derive(Clone, Copy, Debug, PartialEq, Eq, Structural)]
pub enum LaunchOutcome {
    /// The instances were launched.
    Launched,
    /// `RunInstances` failed; the next attempt is tried.
    Failed,
    /// The attempt ran past `LAUNCH_ATTEMPT_SECS`.
    TimedOut,
}

/// What the creator does after a launch attempt.
#[derive(Clone, Debug, PartialEq, Eq)]
pub enum LaunchDecision {
    /// Keep the instances of this attempt: no later attempt is made.
    Keep,
    /// Try the attempt at this position next.
    Try(usize),
    /// Stop with this error.
    Fail(ProviderError),
}

impl Ec2Creator {
    /// What follows the attempt at `index` (of `count` attempts, in the order of
    /// `launch_attempts`) coming out as `outcome`: the first launch is kept and ends the search; a
    /// failed attempt moves on to the next, and after the last one the creator gives up with
    /// `no_launch_error`; an attempt that runs out of time ends the search with nothing left.
    pub fn after_launch_attempt(&self, count: usize, index: usize, outcome: LaunchOutcome) -> (r:
        LaunchDecision)
        requires
            index < count,
        ensures
            outcome == LaunchOutcome::Launched ==> r == LaunchDecision::Keep,
            outcome == LaunchOutcome::Failed && index + 1 < count ==> r == LaunchDecision::Try(
                (index + 1) as usize,
            ),
            outcome == LaunchOutcome::Failed && index + 1 == count ==> (r matches LaunchDecision::Fail(
                e,
            ) && e.resources == Resources::Clear && e.context@
                == "Failed to create instances of any of the provided types in any of the provided subnets"@),
            outcome == LaunchOutcome::TimedOut ==> (r matches LaunchDecision::Fail(e) && e.resources
                == Resources::Clear && e.context@
                == "Failed to run instances within the time limit"@),
    {
        match outcome {
            LaunchOutcome::Launched => LaunchDecision::Keep,
            LaunchOutcome::Failed => if index + 1 < count {
                LaunchDecision::Try(index + 1)
            } else {
                LaunchDecision::Fail(self.no_launch_error())
            },
            LaunchOutcome::TimedOut => LaunchDecision::Fail(
                ProviderError::new_with_context(
                    Resources::Clear,
                    owned("Failed to run instances within the time limit"),
                ),
            ),
        }
    }

    /// Where the launch search starts: at the first attempt, or, without any attempt (no subnet),
    /// with `no_launch_error`.
    pub fn first_launch_attempt(&self, count: usize) -> (r: LaunchDecision)
        ensures
            count > 0 ==> r == LaunchDecision::Try(0),
            count == 0 ==> (r matches LaunchDecision::Fail(e) && e.resources == Resources::Clear
                && e.context@
                == "Failed to create instances of any of the provided types in any of the provided subnets"@),
    {
        if count > 0 {
            LaunchDecision::Try(0)
        } else {
            LaunchDecision::Fail(self.no_launch_error())
        }
    }
}

/// An instance as `DescribeInstances` reports it, as far as the agent reads it.
#[derive(Clone, Debug)]
pub struct DescribedInstance {
    pub instance_id: Option<String>,
}

/// A reservation as `DescribeInstances` reports it: the instances launched together.
#[derive(Clone, Debug)]
pub struct Reservation {
    pub instances: Option<Vec<DescribedInstance>>,
}

/// The status of an instance as `DescribeInstanceStatus` reports it, as far as the agent reads
/// it.
#[derive(Clone, Debug)]
pub struct InstanceStatus {
    pub instance_id: Option<String>,
}

/// The ids that are present among `ids`, in their order.
pub open spec fn present_ids(ids: Seq<Option<String>>) -> Seq<Seq<char>>
    decreases ids.len(),
{
    if ids.len() == 0 {
        Seq::empty()
    } else {
        let rest = present_ids(ids.drop_last());
        match ids.last() {
            Some(id) => rest.push(id@),
            None => rest,
        }
    }
}

/// The ids of the instances `is`, where they have one.
pub open spec fn described_ids(is: Seq<DescribedInstance>) -> Seq<Seq<char>> {
    present_ids(is.map_values(|i: DescribedInstance| i.instance_id))
}

/// The ids of the instances of all reservations `rs`, reservation after reservation.
pub open spec fn reserved_ids(rs: Seq<Reservation>) -> Seq<Seq<char>>
    decreases rs.len(),
{
    if rs.len() == 0 {
        Seq::empty()
    } else {
        reserved_ids(rs.drop_last()) + match rs.last().instances {
            Some(is) => described_ids(is@),
            None => Seq::empty(),
        }
    }
}

/// The first occurrence of each element of `s`, in their order.
pub open spec fn first_occurrences(s: Seq<Seq<char>>) -> Seq<Seq<char>>
    decreases s.len(),
{
    if s.len() == 0 {
        Seq::empty()
    } else if s.drop_last().contains(s.last()) {
        first_occurrences(s.drop_last())
    } else {
        first_occurrences(s.drop_last()).push(s.last())
    }
}

/// `first_occurrences` holds every element of `s` once and nothing else.
pub proof fn lemma_first_occurrences(s: Seq<Seq<char>>)
    ensures
        first_occurrences(s).no_duplicates(),
        forall|x: Seq<char>| first_occurrences(s).contains(x) <==> s.contains(x),
    decreases s.len(),
{
    if s.len() > 0 {
        let p = s.drop_last();
        lemma_first_occurrences(p);
        assert forall|x: Seq<char>| s.contains(x) <==> (p.contains(x) || x == s.last()) by {
            if s.contains(x) {
                let k = choose|k: int| 0 <= k < s.len() && s[k] == x;
                if k < s.len() - 1 {
                    assert(p[k] == x);
                }
            }
            if p.contains(x) {
                let k = choose|k: int| 0 <= k < p.len() && p[k] == x;
                assert(s[k] == x);
            }
            if x == s.last() {
                assert(s[s.len() - 1] == x);
            }
        }
        if !p.contains(s.last()) {
            let d = first_occurrences(p);
            assert forall|x: Seq<char>| d.push(s.last()).contains(x) <==> (d.contains(x) || x
                == s.last()) by {
                if d.push(s.last()).contains(x) {
                    let k = choose|k: int|
                        0 <= k < d.push(s.last()).len() && d.push(s.last())[k] == x;
                    if k < d.len() {
                        assert(d[k] == x);
                    }
                }
                if d.contains(x) {
                    let k = choose|k: int| 0 <= k < d.len() && d[k] == x;
                    assert(d.push(s.last())[k] == x);
                }
                if x == s.last() {
                    assert(d.push(s.last())[d.len() as int] == x);
                }
            }
            assert forall|i: int, j: int|
                0 <= i < d.push(s.last()).len() && 0 <= j < d.push(s.last()).len() && i
                    != j implies d.push(s.last())[i] != d.push(s.last())[j] by {
                if i < d.len() && j < d.len() {
                } else if i < d.len() {
                    assert(d.contains(d[i]));
                } else if j < d.len() {
                    assert(d.contains(d[j]));
                }
            }
        }
    }
}

/// Appends the ids that `is` holds to `out`.
fn push_described_ids(out: &mut Vec<String>, is: &Vec<DescribedInstance>)
    ensures
        string_views(final(out)@) == string_views(old(out)@) + described_ids(is@),
{
    let ghost start = string_views(out@);
    let mut i: usize = 0;
    while i < is.len()
        invariant
            0 <= i <= is@.len(),
            string_views(out@) == start + described_ids(is@.take(i as int)),
        decreases is.len() - i,
    {
        proof {
            let m = is@.take(i as int + 1).map_values(|d: DescribedInstance| d.instance_id);
            assert(m.drop_last() =~= is@.take(i as int).map_values(
                |d: DescribedInstance| d.instance_id,
            ));
            assert(m.last() == is@[i as int].instance_id);
        }
        match &is[i].instance_id {
            Some(id) => {
                push_string(out, id.clone());
                assert(string_views(out@) =~= start + described_ids(is@.take(i as int + 1)));
            },
            None => {},
        }
        i = i + 1;
    }
    assert(is@.take(is@.len() as int) =~= is@);
}

/// Keeps the first occurrence of each id of `ids`, in their order.
fn first_occurrences_of(ids: &Vec<String>) -> (r: Vec<String>)
    ensures
        string_views(r@) == first_occurrences(string_views(ids@)),
{
    let ghost all = string_views(ids@);
    let mut out: Vec<String> = Vec::new();
    let mut i: usize = 0;
    while i < ids.len()
        invariant
            0 <= i <= ids@.len(),
            all == string_views(ids@),
            string_views(out@) == first_occurrences(all.take(i as int)),
        decreases ids.len() - i,
    {
        proof {
            assert(all.take(i as int + 1).drop_last() =~= all.take(i as int));
            assert(all.take(i as int + 1).last() == ids@[i as int]@);
            lemma_first_occurrences(all.take(i as int));
        }
        if !contains_text(&out, ids[i].as_str()) {
            push_string(&mut out, ids[i].clone());
        }
        i = i + 1;
    }
    assert(all.take(ids@.len() as int) =~= all);
    out
}

/// The ids of the instances that `DescribeInstances` found, each once; an error when it
/// reported no reservations.
pub fn described_instance_ids(reservations: &Option<Vec<Reservation>>, resources: Resources) -> (r:
    Result<Vec<String>, ProviderError>)
    ensures
        match reservations {
            Some(rs) => r matches Ok(ids) && string_views(ids@) == first_occurrences(
                reserved_ids(rs@),
            ),
            None => r matches Err(e) && e.resources == resources && e.context@
                == "No instances were provided."@,
        },
        r matches Ok(ids) ==> string_views(ids@).no_duplicates(),
{
    match reservations {
        None => Err(ProviderError::new_with_context(resources, owned("No instances were provided."))),
        Some(rs) => {
            let mut all: Vec<String> = Vec::new();
            let mut i: usize = 0;
            while i < rs.len()
                invariant
                    0 <= i <= rs@.len(),
                    string_views(all@) == reserved_ids(rs@.take(i as int)),
                decreases rs.len() - i,
            {
                proof {
                    assert(rs@.take(i as int + 1).drop_last() =~= rs@.take(i as int));
                }
                match &rs[i].instances {
                    Some(is) => push_described_ids(&mut all, is),
                    None => {
                        assert(string_views(all@) =~= reserved_ids(rs@.take(i as int))
                            + Seq::empty());
                    },
                }
                i = i + 1;
            }
            assert(rs@.take(rs@.len() as int) =~= rs@);
            let ids = first_occurrences_of(&all);
            proof {
                lemma_first_occurrences(reserved_ids(rs@));
            }
            Ok(ids)
        },
    }
}

/// The ids of the instances whose status `DescribeInstanceStatus` reported, where they have
/// one; an error when it reported no statuses.
pub fn reported_instance_ids(statuses: &Option<Vec<InstanceStatus>>, resources: Resources) -> (r:
    Result<Vec<String>, ProviderError>)
    ensures
        match statuses {
            Some(st) => r matches Ok(ids) && string_views(ids@) == present_ids(
                st@.map_values(|s: InstanceStatus| s.instance_id),
            ),
            None => r matches Err(e) && e.resources == resources && e.context@
                == "No instance statuses were provided."@,
        },
{
    match statuses {
        None => Err(
            ProviderError::new_with_context(resources, owned("No instance statuses were provided.")),
        ),
        Some(st) => {
            let ghost all = st@.map_values(|s: InstanceStatus| s.instance_id);
            let mut out: Vec<String> = Vec::new();
            let mut i: usize = 0;
            while i < st.len()
                invariant
                    0 <= i <= st@.len(),
                    all == st@.map_values(|s: InstanceStatus| s.instance_id),
                    string_views(out@) == present_ids(all.take(i as int)),
                decreases st.len() - i,
            {
                proof {
                    assert(all.take(i as int + 1).drop_last() =~= all.take(i as int));
                    assert(all.take(i as int + 1).last() == st@[i as int].instance_id);
                }
                match &st[i].instance_id {
                    Some(id) => push_string(&mut out, id.clone()),
                    None => {},
                }
                i = i + 1;
            }
            assert(all.take(st@.len() as int) =~= all);
            Ok(out)
        },
    }
}

/// Whether the wait for the instances to reach the desired state is over, given the ids of the
/// instances not in it yet: over when there are none, and also when they could not be learned
/// (`None`).
pub fn conforming_wait_over(non_conforming: &Option<Vec<String>>) -> (r: bool)
    ensures
        r == match non_conforming {
            Some(ids) => ids@.len() == 0,
            None => true,
        },
{
    match non_conforming {
        Some(ids) => ids.len() == 0,
        None => true,
    }
}

/// The filter that lists the ECS container instance of the EC2 instance `instance_id`.
pub fn container_instance_filter(instance_id: &str) -> (r: String)
    ensures
        r@ == "ec2InstanceId=="@ + instance_id@,
{
    let mut s = String::new();
    s.append("ec2InstanceId==");
    s.append(instance_id);
    s
}

/// Whether none of the strings `ours` is among `listed`.
pub open spec fn none_listed(ours: Seq<String>, listed: Seq<String>) -> bool {
    forall|i: int| 0 <= i < ours.len() ==> !string_views(listed).contains(#[trigger] ours[i]@)
}

/// Whether the wait for the container instances `ours` to deregister is over, given what the
/// cluster still lists: over when none of them is listed, and also when the listing failed
/// (`None`).
pub fn deregistration_wait_over(ours: &Vec<String>, listed: &Option<Vec<String>>) -> (r: bool)
    ensures
        r == match listed {
            Some(l) => none_listed(ours@, l@),
            None => true,
        },
{
    match listed {
        None => true,
        Some(l) => {
            let mut i: usize = 0;
            while i < ours.len()
                invariant
                    0 <= i <= ours@.len(),
                    *listed == Some(*l),
                    forall|k: int| 0 <= k < i ==> !string_views(l@).contains(#[trigger] ours@[k]@),
                decreases ours.len() - i,
            {
                if contains_text(l, ours[i].as_str()) {
                    assert(string_views(l@).contains(ours@[i as int]@));
                    return false;
                }
                i = i + 1;
            }
            true
        },
    }
}

/// A step of the EC2 agent's launch of instances.
#[derive(Clone, Copy, Debug, PartialEq, Eq, Structural)]
pub enum Ec2CreateStep {
    /// Read the memo from the controller.
    GetInfo,
    /// Send the memo with the UUID the instances are tagged with.
    StoreUuid,
    /// Send the memo with its new status to the controller.
    SendStatus,
    /// Make the AWS configuration.
    CreateAwsConfig,
    /// Launch the instances, trying each instance type in each subnet (`launch_attempts`), each try waiting 360 seconds at most.
    LaunchInstances,
    /// Read the instances that were launched.
    ReadInstances,
    /// Read the id of each instance.
    ReadInstanceIds,
    /// Wait for the instances to be running.
    WaitForRunning,
}

/// The EC2 creator's steps, with the memo sent before each and what a failure reports: nothing is left behind until instances were launched; while it waits for them to run the memo does not yet record them, so a time-out reports nothing left.
pub open spec fn ec2_create_plan_spec() -> Seq<PlannedStep<Ec2CreateStep>> {
    seq![
        PlannedStep { step: Ec2CreateStep::GetInfo, status: None, on_failure: Resources::Unknown, failure: Some("Unable to get info from info client"), wait_secs: None, fatal: true },
        PlannedStep { step: Ec2CreateStep::StoreUuid, status: None, on_failure: Resources::Clear, failure: Some("Error storing uuid in info client"), wait_secs: None, fatal: true },
        PlannedStep { step: Ec2CreateStep::SendStatus, status: Some("Getting AWS secret"), on_failure: Resources::Clear, failure: Some("Error sending cluster creation message"), wait_secs: None, fatal: true },
        PlannedStep { step: Ec2CreateStep::SendStatus, status: Some("Creating AWS config"), on_failure: Resources::Clear, failure: Some("Error sending cluster creation message"), wait_secs: None, fatal: true },
        PlannedStep { step: Ec2CreateStep::CreateAwsConfig, status: None, on_failure: Resources::Clear, failure: Some("Error creating config"), wait_secs: None, fatal: true },
        PlannedStep { step: Ec2CreateStep::SendStatus, status: Some("Launching instance(s)"), on_failure: Resources::Clear, failure: Some("Error sending cluster creation message"), wait_secs: None, fatal: true },
        PlannedStep { step: Ec2CreateStep::LaunchInstances, status: None, on_failure: Resources::Clear, failure: None, wait_secs: Some(360u64), fatal: true },
        PlannedStep { step: Ec2CreateStep::ReadInstances, status: None, on_failure: Resources::Remaining, failure: Some("Results missing instances field"), wait_secs: None, fatal: true },
        PlannedStep { step: Ec2CreateStep::ReadInstanceIds, status: None, on_failure: Resources::Remaining, failure: Some("Instance missing instance_id field"), wait_secs: None, fatal: true },
        PlannedStep { step: Ec2CreateStep::SendStatus, status: Some("Waiting for instance(s)"), on_failure: Resources::Remaining, failure: Some("Error sending cluster creation message"), wait_secs: None, fatal: true },
        PlannedStep { step: Ec2CreateStep::WaitForRunning, status: None, on_failure: Resources::Clear, failure: Some("Timed-out waiting for instances to reach the `running` state."), wait_secs: Some(300u64), fatal: true },
        PlannedStep { step: Ec2CreateStep::SendStatus, status: Some("Instance(s) created"), on_failure: Resources::Remaining, failure: Some("Error sending final creation message"), wait_secs: None, fatal: true },
    ]
}

/// The EC2 creator's steps, with the memo sent before each and what a failure reports: nothing is left behind until instances were launched; while it waits for them to run the memo does not yet record them, so a time-out reports nothing left.
pub fn ec2_create_plan() -> (r: Vec<PlannedStep<Ec2CreateStep>>)
    ensures
        r@ == ec2_create_plan_spec(),
{
    let mut v: Vec<PlannedStep<Ec2CreateStep>> = Vec::new();
    v.push(PlannedStep { step: Ec2CreateStep::GetInfo, status: None, on_failure: Resources::Unknown, failure: Some("Unable to get info from info client"), wait_secs: None, fatal: true });
    v.push(PlannedStep { step: Ec2CreateStep::StoreUuid, status: None, on_failure: Resources::Clear, failure: Some("Error storing uuid in info client"), wait_secs: None, fatal: true });
    v.push(PlannedStep { step: Ec2CreateStep::SendStatus, status: Some("Getting AWS secret"), on_failure: Resources::Clear, failure: Some("Error sending cluster creation message"), wait_secs: None, fatal: true });
    v.push(PlannedStep { step: Ec2CreateStep::SendStatus, status: Some("Creating AWS config"), on_failure: Resources::Clear, failure: Some("Error sending cluster creation message"), wait_secs: None, fatal: true });
    v.push(PlannedStep { step: Ec2CreateStep::CreateAwsConfig, status: None, on_failure: Resources::Clear, failure: Some("Error creating config"), wait_secs: None, fatal: true });
    v.push(PlannedStep { step: Ec2CreateStep::SendStatus, status: Some("Launching instance(s)"), on_failure: Resources::Clear, failure: Some("Error sending cluster creation message"), wait_secs: None, fatal: true });
    v.push(PlannedStep { step: Ec2CreateStep::LaunchInstances, status: None, on_failure: Resources::Clear, failure: None, wait_secs: Some(360u64), fatal: true });
    v.push(PlannedStep { step: Ec2CreateStep::ReadInstances, status: None, on_failure: Resources::Remaining, failure: Some("Results missing instances field"), wait_secs: None, fatal: true });
    v.push(PlannedStep { step: Ec2CreateStep::ReadInstanceIds, status: None, on_failure: Resources::Remaining, failure: Some("Instance missing instance_id field"), wait_secs: None, fatal: true });
    v.push(PlannedStep { step: Ec2CreateStep::SendStatus, status: Some("Waiting for instance(s)"), on_failure: Resources::Remaining, failure: Some("Error sending cluster creation message"), wait_secs: None, fatal: true });
    v.push(PlannedStep { step: Ec2CreateStep::WaitForRunning, status: None, on_failure: Resources::Clear, failure: Some("Timed-out waiting for instances to reach the `running` state."), wait_secs: Some(300u64), fatal: true });
    v.push(PlannedStep { step: Ec2CreateStep::SendStatus, status: Some("Instance(s) created"), on_failure: Resources::Remaining, failure: Some("Error sending final creation message"), wait_secs: None, fatal: true });
    assert(v@ =~= ec2_create_plan_spec());
    v
}

} // verus!
