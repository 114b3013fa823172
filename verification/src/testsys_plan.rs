//! What the `testsys run` commands decide before they create any object: the names of the
//! resources, the custom user data they pass on, and the tests they run, one after the other,
//! when a run upgrades and downgrades the hosts.

use crate::text::{owned, push_string, string_views};
use crate::agent_config::{SonobuoyMode, TufRepoConfig};
use crate::userdata::{encode_text, encoded_text, CustomUserData};
use vstd::utf8::encode_utf8;
use vstd::prelude::*;

verus! {

/// Why a `testsys run` command refused its arguments (from the Kubernetes and vSphere runs).
pub const MISSING_VERSIONS: &'static str =
    "If performing an upgrade/downgrade test,`starting-version`, `upgrade-version` must be provided.";

/// Why the ECS run refused its arguments for an upgrade/downgrade test.
pub const MISSING_VERSIONS_ECS: &'static str =
    "If performing an upgrade/downgrade test, `starting-version`, `upgrade-version` must be provided.";

/// An error of a `testsys` command.
#[derive(Clone, Debug)]
pub enum TestsysError {
    /// The arguments given do not go together.
    InvalidArguments { why: String },
}

/// How custom user data meets the default user data.
#[derive(Clone, Copy, Debug, PartialEq, Eq, Structural)]
pub enum CustomUserDataMode {
    Merge,
    Replace,
}

impl CustomUserDataMode {
    /// The mode named `merge` or `replace`; any other name is refused.
    pub fn from_str(custom_user_data_mode: &str) -> (r: Result<Self, TestsysError>)
        ensures
            custom_user_data_mode@ == "merge"@ ==> r == Ok::<Self, TestsysError>(
                CustomUserDataMode::Merge,
            ),
            custom_user_data_mode@ == "replace"@ ==> r == Ok::<Self, TestsysError>(
                CustomUserDataMode::Replace,
            ),
            custom_user_data_mode@ != "merge"@ && custom_user_data_mode@ != "replace"@ ==> (
            r matches Err(TestsysError::InvalidArguments { why }) && why@
                == "Invalid user data mode"@),
    {
        proof {
            reveal_strlit("merge");
            reveal_strlit("replace");
            assert("merge"@[0] != "replace"@[0]);
        }
        if crate::text::str_eq(custom_user_data_mode, "merge") {
            Ok(CustomUserDataMode::Merge)
        } else if crate::text::str_eq(custom_user_data_mode, "replace") {
            Ok(CustomUserDataMode::Replace)
        } else {
            Err(TestsysError::InvalidArguments { why: owned("Invalid user data mode") })
        }
    }
}

/// The custom user data of the instances: given with its mode, or not at all; a mode without
/// user data, or user data without a mode, is refused.
pub fn custom_user_data(mode: Option<CustomUserDataMode>, encoded_userdata: Option<String>) -> (r:
    Result<Option<CustomUserData>, TestsysError>)
    ensures
        match (mode, encoded_userdata) {
            (None, None) => r matches Ok(None),
            (Some(CustomUserDataMode::Merge), Some(u)) => r matches Ok(
                Some(CustomUserData::Merge { encoded_userdata }),
            ) && encoded_userdata@ == u@,
            (Some(CustomUserDataMode::Replace), Some(u)) => r matches Ok(
                Some(CustomUserData::Replace { encoded_userdata }),
            ) && encoded_userdata@ == u@,
            _ => r matches Err(TestsysError::InvalidArguments { why }) && why@
                == "Either both or neither of custom-user-data-mode and custom-user-data must be provided."@,
        },
{
    match (mode, encoded_userdata) {
        (None, None) => Ok(None),
        (Some(CustomUserDataMode::Merge), Some(u)) => Ok(
            Some(CustomUserData::Merge { encoded_userdata: u }),
        ),
        (Some(CustomUserDataMode::Replace), Some(u)) => Ok(
            Some(CustomUserData::Replace { encoded_userdata: u }),
        ),
        _ => Err(
            TestsysError::InvalidArguments {
                why: owned(
                    "Either both or neither of custom-user-data-mode and custom-user-data must be provided.",
                ),
            },
        ),
    }
}

/// The name of the cluster resource: the one given, else the cluster's name, else `cluster`.
pub fn cluster_resource_name(resource_name: Option<String>, cluster_name: Option<String>) -> (r:
    String)
    ensures
        r@ == match (resource_name, cluster_name) {
            (Some(n), _) => n@,
            (None, Some(c)) => c@,
            (None, None) => "cluster"@,
        },
{
    match (resource_name, cluster_name) {
        (Some(n), _) => n,
        (None, Some(c)) => c,
        (None, None) => owned("cluster"),
    }
}

/// The name of the instances resource: the one given, else `base` with `suffix`, as in
/// `cluster-instances` or `cluster-vms`.
pub fn instances_resource_name(given: Option<String>, base: &str, suffix: &str) -> (r: String)
    ensures
        r@ == match given {
            Some(n) => n@,
            None => base@ + suffix@,
        },
{
    match given {
        Some(n) => n,
        None => {
            let mut r = owned(base);
            r.append(suffix);
            r
        },
    }
}

/// The name of the cluster for `eksctl`, or the error when neither it nor a configuration file
/// was given.
pub fn eksctl_cluster_name(cluster_name: Option<String>) -> (r: Result<String, TestsysError>)
    ensures
        match cluster_name {
            Some(n) => r matches Ok(s) && s@ == n@,
            None => r matches Err(TestsysError::InvalidArguments { why }) && why@
                == "One of `cluster-name` or `cluster-config` must be provided."@,
        },
{
    match cluster_name {
        Some(n) => Ok(n),
        None => Err(
            TestsysError::InvalidArguments {
                why: owned("One of `cluster-name` or `cluster-config` must be provided."),
            },
        ),
    }
}

/// A reference to the field `field` of what the resource `resource` created: `${resource.field}`.
pub open spec fn template_ref_text(resource: Seq<char>, field: Seq<char>) -> Seq<char> {
    "${"@ + resource + "."@ + field + "}"@
}

/// A value that the controller fills in from a field of a created resource.
pub fn template_ref(resource: &str, field: &str) -> (r: String)
    ensures
        r@ == template_ref_text(resource@, field@),
{
    let mut r = owned("${");
    r.append(resource);
    r.append(".");
    r.append(field);
    r.append("}");
    r
}

/// The instance types of the EC2 resource: the one given, or none.
pub fn instance_types(instance_type: Option<String>) -> (r: Vec<String>)
    ensures
        match instance_type {
            Some(t) => string_views(r@) == seq![t@],
            None => r@.len() == 0,
        },
{
    let mut v: Vec<String> = Vec::new();
    match instance_type {
        Some(t) => {
            push_string(&mut v, t);
        },
        None => {},
    }
    v
}

/// A test of a run: a regular test, or a migration of the hosts to a version, with the tests it
/// waits for.
#[derive(Clone, Debug)]
pub struct PlannedTest {
    pub name: String,
    /// The version the hosts are migrated to, for a migration.
    pub migrate_to: Option<String>,
    /// The tests that must be done first.
    pub depends_on: Option<Vec<String>>,
}

/// The suffix of the name of the `k`-th test of an upgrade/downgrade run.
pub open spec fn plan_suffix(k: int) -> Seq<char> {
    if k == 0 {
        "-1-initial"@
    } else if k == 1 {
        "-2-migrate"@
    } else if k == 2 {
        "-3-migrated"@
    } else if k == 3 {
        "-4-migrate"@
    } else {
        "-5-final"@
    }
}

/// The names of the tests of an upgrade/downgrade run named `name`.
pub open spec fn plan_names(name: Seq<char>) -> Seq<Seq<char>> {
    Seq::new(5, |k: int| name + plan_suffix(k))
}

/// The upgrade/downgrade plan: test, upgrade to `upgrade`, test, downgrade to `starting`, test.
/// Each test waits for all those before it.
pub open spec fn is_upgrade_downgrade_plan(
    plan: Seq<PlannedTest>,
    name: Seq<char>,
    starting: Seq<char>,
    upgrade: Seq<char>,
) -> bool {
    &&& plan.len() == 5
    &&& forall|k: int| 0 <= k < 5 ==> (#[trigger] plan[k]).name@ == plan_names(name)[k]
    &&& plan[0].depends_on is None
    &&& forall|k: int|
        1 <= k < 5 ==> ((#[trigger] plan[k]).depends_on matches Some(d) && string_views(d@)
            == plan_names(name).take(k))
    &&& plan[0].migrate_to is None
    &&& plan[1].migrate_to matches Some(v) && v@ == upgrade
    &&& plan[2].migrate_to is None
    &&& plan[3].migrate_to matches Some(v) && v@ == starting
    &&& plan[4].migrate_to is None
}

fn prefix_names(names: &Vec<String>, k: usize) -> (r: Vec<String>)
    requires
        k <= names@.len(),
    ensures
        string_views(r@) == string_views(names@).take(k as int),
{
    let mut v: Vec<String> = Vec::new();
    let mut i: usize = 0;
    while i < k
        invariant
            0 <= i <= k <= names@.len(),
            string_views(v@) == string_views(names@).take(i as int),
        decreases k - i,
    {
        push_string(&mut v, names[i].clone());
        assert(string_views(names@).take(i + 1) =~= string_views(names@).take(i as int).push(
            names@[i as int]@,
        ));
        i = i + 1;
    }
    v
}

/// The five tests of a run named `name` that upgrades the hosts from `starting` to `upgrade` and
/// back.
pub fn upgrade_downgrade_plan(name: &str, starting: &str, upgrade: &str) -> (r: Vec<PlannedTest>)
    ensures
        is_upgrade_downgrade_plan(r@, name@, starting@, upgrade@),
{
    let mut names: Vec<String> = Vec::new();
    let mut n0 = owned(name);
    n0.append("-1-initial");
    push_string(&mut names, n0);
    let mut n1 = owned(name);
    n1.append("-2-migrate");
    push_string(&mut names, n1);
    let mut n2 = owned(name);
    n2.append("-3-migrated");
    push_string(&mut names, n2);
    let mut n3 = owned(name);
    n3.append("-4-migrate");
    push_string(&mut names, n3);
    let mut n4 = owned(name);
    n4.append("-5-final");
    push_string(&mut names, n4);
    assert(string_views(names@) =~= plan_names(name@));
    let ghost all = string_views(names@);
    assert(all[0] == names@[0]@ && all[1] == names@[1]@ && all[2] == names@[2]@ && all[3]
        == names@[3]@ && all[4] == names@[4]@);
    let mut plan: Vec<PlannedTest> = Vec::new();
    plan.push(PlannedTest { name: names[0].clone(), migrate_to: None, depends_on: None });
    plan.push(
        PlannedTest {
            name: names[1].clone(),
            migrate_to: Some(owned(upgrade)),
            depends_on: Some(prefix_names(&names, 1)),
        },
    );
    plan.push(
        PlannedTest {
            name: names[2].clone(),
            migrate_to: None,
            depends_on: Some(prefix_names(&names, 2)),
        },
    );
    plan.push(
        PlannedTest {
            name: names[3].clone(),
            migrate_to: Some(owned(starting)),
            depends_on: Some(prefix_names(&names, 3)),
        },
    );
    plan.push(
        PlannedTest {
            name: names[4].clone(),
            migrate_to: None,
            depends_on: Some(prefix_names(&names, 4)),
        },
    );
    plan
}

/// The tests of a run named `name`: the one test; or, for a run that upgrades and downgrades the
/// hosts, the five tests of the plan, refused with `why` unless both versions and the migration
/// agent's image are given.
pub fn test_plan(
    name: &str,
    upgrade_downgrade: bool,
    starting_version: &Option<String>,
    upgrade_version: &Option<String>,
    migration_agent_image: &Option<String>,
    why: &str,
) -> (r: Result<Vec<PlannedTest>, TestsysError>)
    ensures
        !upgrade_downgrade ==> (r matches Ok(plan) && plan@.len() == 1 && plan@[0].name@ == name@
            && plan@[0].migrate_to is None && plan@[0].depends_on is None),
        upgrade_downgrade ==> match (starting_version, upgrade_version, migration_agent_image) {
            (Some(s), Some(u), Some(_)) => r matches Ok(plan) && is_upgrade_downgrade_plan(
                plan@,
                name@,
                s@,
                u@,
            ),
            _ => r matches Err(TestsysError::InvalidArguments { why: w }) && w@ == why@,
        },
{
    if !upgrade_downgrade {
        let mut plan: Vec<PlannedTest> = Vec::new();
        plan.push(PlannedTest { name: owned(name), migrate_to: None, depends_on: None });
        return Ok(plan);
    }
    match (starting_version, upgrade_version, migration_agent_image) {
        (Some(s), Some(u), Some(_)) => Ok(upgrade_downgrade_plan(name, s.as_str(), u.as_str())),
        _ => Err(TestsysError::InvalidArguments { why: owned(why) }),
    }
}

/// How the results of a custom sonobuoy plugin are read.
#[derive(Clone, Debug)]
pub enum ResultFormat {
    Junit,
    Raw,
    /// Read from these files.
    Manual(Vec<String>),
}

/// The sonobuoy plugin a test runs.
#[derive(Clone, Debug)]
pub enum SonobuoyPluginConfig {
    /// The e2e plugin, in this mode.
    E2E(SonobuoyMode),
    /// A plugin known to sonobuoy by this name or path.
    Path(String),
    /// A plugin given by its base64 encoded YAML definition.
    EncodedYaml { name: String, encoded_yaml: String },
    /// A plugin built from an image.
    CustomPlugin { name: String, image: String, result_format: ResultFormat },
}

/// The arguments of `testsys` that choose the sonobuoy plugin.
#[derive(Clone, Debug, Default)]
pub struct SonobuoyPluginArgs {
    pub plugin_name: Option<String>,
    pub plugin_encoded_yaml: Option<String>,
    pub plugin_image: Option<String>,
    pub plugin_file_path: Option<String>,
    pub sonobuoy_mode: Option<SonobuoyMode>,
    pub plugin_result_format: Option<String>,
    pub plugin_result_files: Vec<String>,
}

/// The plugin the arguments choose, or the file whose YAML defines it.
#[derive(Clone, Debug)]
pub enum PluginChoice {
    Ready(SonobuoyPluginConfig),
    /// The plugin named `name` is defined by the YAML in the file at `path`.
    FromFile { name: String, path: String },
}

/// Why the plugin arguments were refused.
pub open spec fn unrecognized_plugin_message() -> Seq<char> {
    "The arguments provided for the custom sonobuoy config were not a recognized configuration."@
}

/// Whether `n` is the name `e2e`.
pub open spec fn is_e2e(n: Option<String>) -> bool {
    n matches Some(s) && s@ == "e2e"@
}

/// The result format named by `format`: `junit`, `manual` (with `files`), or raw for anything
/// else.
pub open spec fn result_format_is(r: ResultFormat, format: Option<String>, files: Seq<Seq<char>>) -> bool {
    if format matches Some(f) && f@ == "junit"@ {
        r is Junit
    } else if format matches Some(f) && f@ == "manual"@ {
        r matches ResultFormat::Manual(v) && string_views(v@) == files
    } else {
        r is Raw
    }
}

fn result_format(format: &Option<String>, files: &Vec<String>) -> (r: ResultFormat)
    ensures
        result_format_is(r, *format, string_views(files@)),
{
    match format {
        Some(f) => {
            if crate::text::str_eq(f.as_str(), "junit") {
                ResultFormat::Junit
            } else if crate::text::str_eq(f.as_str(), "manual") {
                let mut v: Vec<String> = Vec::new();
                let mut i: usize = 0;
                while i < files.len()
                    invariant
                        0 <= i <= files@.len(),
                        string_views(v@) == string_views(files@).take(i as int),
                    decreases files.len() - i,
                {
                    push_string(&mut v, files[i].clone());
                    assert(string_views(files@).take(i + 1) =~= string_views(files@).take(
                        i as int,
                    ).push(files@[i as int]@));
                    i = i + 1;
                }
                assert(string_views(files@).take(files@.len() as int) =~= string_views(files@));
                ResultFormat::Manual(v)
            } else {
                ResultFormat::Raw
            }
        },
        None => ResultFormat::Raw,
    }
}

/// The plugin chosen by the arguments: with no plugin argument, or only the name `e2e`, the e2e
/// plugin in the given mode (`quick` by default); a name alone, a plugin by path; a name with
/// encoded YAML, that YAML; a name with an image, a custom plugin whose results are read in the
/// given format; a name with a file, the YAML of that file. Any other combination is refused.
pub fn create_plugin_config(args: &SonobuoyPluginArgs) -> (r: Result<PluginChoice, TestsysError>)
    ensures
        ({
            let n = args.plugin_name;
            let y = args.plugin_encoded_yaml;
            let i = args.plugin_image;
            let f = args.plugin_file_path;
            let m = args.sonobuoy_mode;
            if (n is None || is_e2e(n)) && y is None && i is None && f is None {
                r matches Ok(PluginChoice::Ready(SonobuoyPluginConfig::E2E(mode))) && mode == match m {
                    Some(x) => x,
                    None => SonobuoyMode::Quick,
                }
            } else if n is Some && y is None && i is None && f is None && m is None {
                r matches Ok(PluginChoice::Ready(SonobuoyPluginConfig::Path(p))) && p@ == n->0@
            } else if n is Some && y is Some && i is None && f is None && m is None {
                r matches Ok(PluginChoice::Ready(SonobuoyPluginConfig::EncodedYaml { name, encoded_yaml }))
                    && name@ == n->0@ && encoded_yaml@ == y->0@
            } else if n is Some && y is None && i is Some && f is None && m is None {
                r matches Ok(
                    PluginChoice::Ready(SonobuoyPluginConfig::CustomPlugin { name, image, result_format }),
                ) && name@ == n->0@ && image@ == i->0@ && result_format_is(
                    result_format,
                    args.plugin_result_format,
                    string_views(args.plugin_result_files@),
                )
            } else if n is Some && y is None && i is None && f is Some && m is None {
                r matches Ok(PluginChoice::FromFile { name, path }) && name@ == n->0@ && path@
                    == f->0@
            } else {
                r matches Err(TestsysError::InvalidArguments { why }) && why@
                    == unrecognized_plugin_message()
            }
        }),
{
    let e2e = match &args.plugin_name {
        Some(n) => crate::text::str_eq(n.as_str(), "e2e"),
        None => true,
    };
    let no_yaml = args.plugin_encoded_yaml.is_none();
    let no_image = args.plugin_image.is_none();
    let no_file = args.plugin_file_path.is_none();
    if e2e && no_yaml && no_image && no_file {
        let mode = match args.sonobuoy_mode {
            Some(x) => x,
            None => SonobuoyMode::Quick,
        };
        return Ok(PluginChoice::Ready(SonobuoyPluginConfig::E2E(mode)));
    }
    match (
        &args.plugin_name,
        &args.plugin_encoded_yaml,
        &args.plugin_image,
        &args.plugin_file_path,
        &args.sonobuoy_mode,
    ) {
        (Some(name), None, None, None, None) => Ok(
            PluginChoice::Ready(SonobuoyPluginConfig::Path(name.clone())),
        ),
        (Some(name), Some(yaml), None, None, None) => Ok(
            PluginChoice::Ready(
                SonobuoyPluginConfig::EncodedYaml { name: name.clone(), encoded_yaml: yaml.clone() },
            ),
        ),
        (Some(name), None, Some(image), None, None) => Ok(
            PluginChoice::Ready(
                SonobuoyPluginConfig::CustomPlugin {
                    name: name.clone(),
                    image: image.clone(),
                    result_format: result_format(
                        &args.plugin_result_format,
                        &args.plugin_result_files,
                    ),
                },
            ),
        ),
        (Some(name), None, None, Some(path), None) => Ok(
            PluginChoice::FromFile { name: name.clone(), path: path.clone() },
        ),
        _ => Err(
            TestsysError::InvalidArguments {
                why: owned(
                    "The arguments provided for the custom sonobuoy config were not a recognized configuration.",
                ),
            },
        ),
    }
}

/// The plugin named `name` defined by the YAML `contents` of a file: the YAML is base64 encoded.
pub fn plugin_from_file(name: String, contents: &str) -> (r: SonobuoyPluginConfig)
    requires
        (encode_utf8(contents@).len() / 3 + 1) * 4 <= usize::MAX,
    ensures
        r matches SonobuoyPluginConfig::EncodedYaml { name: n, encoded_yaml } && n@ == name@
            && encoded_yaml@ == encoded_text(contents@),
{
    SonobuoyPluginConfig::EncodedYaml { name, encoded_yaml: encode_text(contents) }
}


/// The TUF repository the migrations of an upgrade/downgrade run use: the one given by both of
/// its URLs, or none (the default repository) when either is missing.
pub fn tuf_repo_choice(metadata_url: &Option<String>, targets_url: &Option<String>) -> (r: Option<
    TufRepoConfig,
>)
    ensures
        (metadata_url is Some && targets_url is Some) <==> r is Some,
        r matches Some(t) ==> t.metadata_url == metadata_url->0 && t.targets_url == targets_url->0,
{
    match (metadata_url, targets_url) {
        (Some(m), Some(t)) => Some(TufRepoConfig { metadata_url: m.clone(), targets_url: t.clone() }),
        _ => None,
    }
}

} // verus!
