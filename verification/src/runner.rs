//! Cloud runners from the command line: validating an OS configuration,
//! resolving which runner a command means, building the create and update
//! requests, and the rows of the runner table.

use vstd::prelude::*;

use crate::localization::{fill_spec, text_spec, CatalogBundle, LocaleId, LocalizedMessage, PlaceholderError};
use crate::output::{args0, args1, args2};
use crate::template::pairs_view;
use crate::text::{chars_eq, chars_of, decimal_spec, i64_to_decimal};

verus! {

#[derive(Clone, Copy, Debug, PartialEq, Eq, Structural)]
pub enum RunnerOsArg {
    Linux,
    Macos,
}

#[derive(Clone, Copy, Debug, PartialEq, Eq, Structural)]
pub enum RunnerArchArg {
    X8664,
    Aarch64,
    Auto,
}

#[derive(Clone, Copy, Debug, PartialEq, Eq, Structural)]
pub enum RunnerMacosVersionArg {
    Macos14,
    Macos15,
    Macos26,
    Macos27,
}

#[derive(Clone, Copy, Debug, PartialEq, Eq, Structural)]
pub enum RunnerSortByArg {
    Name,
    LastUpdated,
}

#[derive(Clone, Copy, Debug, PartialEq, Eq, Structural)]
pub enum RunnerOs {
    Linux,
    Macos,
}

#[derive(Clone, Copy, Debug, PartialEq, Eq, Structural)]
pub enum RunnerArch {
    X8664,
    Aarch64,
}

#[derive(Clone, Copy, Debug, PartialEq, Eq, Structural)]
pub enum RunnerMacOsVersion {
    Macos14,
    Macos15,
    Macos26,
    Macos27,
}

#[derive(Clone, Copy, Debug, PartialEq, Eq, Structural)]
pub enum RunnerSortBy {
    Name,
    LastUpdated,
}

/// Whose space a runner belongs to.
#[derive(Clone, Copy, Debug, PartialEq, Eq, Structural)]
pub enum SpaceType {
    Team,
    User,
}

/// The machine size of a runner.
#[derive(Clone, Copy, Debug, PartialEq, Eq, Structural)]
pub struct InstanceShape {
    pub vcpus: i32,
    pub memory_gb: i32,
}

#[derive(Clone, Debug)]
pub struct LinuxConfig {
    pub docker_image: String,
}

#[derive(Clone, Copy, Debug, PartialEq, Eq, Structural)]
pub struct MacOsConfig {
    pub version: Option<RunnerMacOsVersion>,
}

/// A runner's configuration as the server holds it.
#[derive(Clone, Debug)]
pub struct RunnerConfig {
    pub name: String,
    pub description: Option<String>,
    pub setup_commands: Option<Vec<String>>,
    pub instance_shape: Option<InstanceShape>,
    pub os: RunnerOs,
    pub arch: RunnerArch,
    pub mac: Option<MacOsConfig>,
    pub linux: Option<LinuxConfig>,
}

/// A runner as the server lists it, with when it was last updated (RFC 3339, UTC).
#[derive(Clone, Debug)]
pub struct Runner {
    pub uid: String,
    pub config: RunnerConfig,
    pub scope: SpaceType,
    pub last_updated: String,
}

/// The owner a new runner is created for.
#[derive(Clone, Debug)]
pub struct Owner {
    pub space: SpaceType,
    pub uid: String,
}

/// A runner configuration to send.
#[derive(Clone, Debug)]
pub struct RunnerInput {
    pub name: String,
    pub description: Option<String>,
    pub setup_commands: Option<Vec<String>>,
    pub instance_shape: Option<InstanceShape>,
    pub os: Option<RunnerOs>,
    pub arch: Option<RunnerArch>,
    pub mac: Option<MacOsConfig>,
    pub linux: Option<LinuxConfig>,
}

/// A create (no `uid`) or update (with the runner's `uid`) request.
#[derive(Clone, Debug)]
pub struct UpsertRunnerInput {
    pub uid: Option<String>,
    pub owner: Option<Owner>,
    pub runner: RunnerInput,
}

/// The arguments of `runner create`.
#[derive(Clone, Debug)]
pub struct CreateRunnerArgs {
    pub name: String,
    pub description: Option<String>,
    pub os: RunnerOsArg,
    pub arch: RunnerArchArg,
    pub docker_image: Option<String>,
    pub macos_version: Option<RunnerMacosVersionArg>,
    pub vcpus: Option<i32>,
    pub memory_gb: Option<i32>,
    pub setup_command: Vec<String>,
}

/// The arguments of `runner update`: the runner by `id` or `name`, and what to change.
#[derive(Clone, Debug)]
pub struct UpdateRunnerArgs {
    pub id: Option<String>,
    pub name: Option<String>,
    pub description: Option<String>,
    pub os: Option<RunnerOsArg>,
    pub arch: Option<RunnerArchArg>,
    pub docker_image: Option<String>,
    pub macos_version: Option<RunnerMacosVersionArg>,
    pub vcpus: Option<i32>,
    pub memory_gb: Option<i32>,
    pub setup_command: Vec<String>,
}

/// Why a runner configuration cannot be sent.
#[derive(Clone, Copy, Debug, PartialEq, Eq, Structural)]
pub enum RunnerConfigError {
    MacosVersionRequiresMacos,
    DockerImageRequiresLinux,
    InvalidOsConfiguration,
    VcpusRequired,
    MemoryRequired,
}

/// Why a command could not tell which runner it means.
#[derive(Clone, Debug)]
pub enum RunnerLookupError {
    NotFound { identifier: String },
    IdentifierRequired,
    MultipleMatches { name: String },
}

// ---------------------------------------------------------------------------
// Views
// ---------------------------------------------------------------------------

pub open spec fn opt_view(o: Option<String>) -> Option<Seq<char>> {
    match o {
        Some(s) => Some(s@),
        None => None,
    }
}

pub open spec fn strings_view(v: Seq<String>) -> Seq<Seq<char>> {
    v.map_values(|s: String| s@)
}

pub open spec fn opt_strings_view(o: Option<Vec<String>>) -> Option<Seq<Seq<char>>> {
    match o {
        Some(v) => Some(strings_view(v@)),
        None => None,
    }
}

pub open spec fn linux_view(o: Option<LinuxConfig>) -> Option<Seq<char>> {
    match o {
        Some(l) => Some(l.docker_image@),
        None => None,
    }
}

fn clone_opt_string(o: &Option<String>) -> (r: Option<String>)
    ensures
        opt_view(r) == opt_view(*o),
{
    match o {
        Some(s) => Some(s.clone()),
        None => None,
    }
}

fn clone_strings(v: &Vec<String>) -> (r: Vec<String>)
    ensures
        strings_view(r@) == strings_view(v@),
{
    let mut r: Vec<String> = Vec::new();
    let mut i: usize = 0;
    while i < v.len()
        invariant
            i <= v@.len(),
            strings_view(r@) == strings_view(v@).take(i as int),
        decreases v@.len() - i,
    {
        let ghost before = r@;
        r.push(v[i].clone());
        assert(strings_view(r@) =~= strings_view(before).push(v@[i as int]@));
        assert(strings_view(v@).take(i + 1) =~= strings_view(v@).take(i as int).push(v@[i as int]@));
        i = i + 1;
    }
    assert(strings_view(v@).take(v@.len() as int) =~= strings_view(v@));
    r
}

fn clone_opt_strings(o: &Option<Vec<String>>) -> (r: Option<Vec<String>>)
    ensures
        opt_strings_view(r) == opt_strings_view(*o),
{
    match o {
        Some(v) => Some(clone_strings(v)),
        None => None,
    }
}

// ---------------------------------------------------------------------------
// Conversions
// ---------------------------------------------------------------------------

pub open spec fn os_to_gql_spec(os: RunnerOsArg) -> RunnerOs {
    match os {
        RunnerOsArg::Linux => RunnerOs::Linux,
        RunnerOsArg::Macos => RunnerOs::Macos,
    }
}

pub fn os_to_gql(os: RunnerOsArg) -> (r: RunnerOs)
    ensures
        r == os_to_gql_spec(os),
{
    match os {
        RunnerOsArg::Linux => RunnerOs::Linux,
        RunnerOsArg::Macos => RunnerOs::Macos,
    }
}

pub open spec fn os_arg_of(os: RunnerOs) -> RunnerOsArg {
    match os {
        RunnerOs::Linux => RunnerOsArg::Linux,
        RunnerOs::Macos => RunnerOsArg::Macos,
    }
}

/// A concrete architecture: `auto` means x86-64 on Linux and aarch64 on macOS.
pub open spec fn resolve_arch_spec(arch: RunnerArchArg, os: RunnerOsArg) -> RunnerArch {
    match arch {
        RunnerArchArg::X8664 => RunnerArch::X8664,
        RunnerArchArg::Aarch64 => RunnerArch::Aarch64,
        RunnerArchArg::Auto => match os {
            RunnerOsArg::Linux => RunnerArch::X8664,
            RunnerOsArg::Macos => RunnerArch::Aarch64,
        },
    }
}

pub fn resolve_arch(arch: RunnerArchArg, os: RunnerOsArg) -> (r: RunnerArch)
    ensures
        r == resolve_arch_spec(arch, os),
{
    match arch {
        RunnerArchArg::X8664 => RunnerArch::X8664,
        RunnerArchArg::Aarch64 => RunnerArch::Aarch64,
        RunnerArchArg::Auto => match os {
            RunnerOsArg::Linux => RunnerArch::X8664,
            RunnerOsArg::Macos => RunnerArch::Aarch64,
        },
    }
}

pub open spec fn macos_version_to_gql_spec(v: RunnerMacosVersionArg) -> RunnerMacOsVersion {
    match v {
        RunnerMacosVersionArg::Macos14 => RunnerMacOsVersion::Macos14,
        RunnerMacosVersionArg::Macos15 => RunnerMacOsVersion::Macos15,
        RunnerMacosVersionArg::Macos26 => RunnerMacOsVersion::Macos26,
        RunnerMacosVersionArg::Macos27 => RunnerMacOsVersion::Macos27,
    }
}

pub fn macos_version_to_gql(v: RunnerMacosVersionArg) -> (r: RunnerMacOsVersion)
    ensures
        r == macos_version_to_gql_spec(v),
{
    match v {
        RunnerMacosVersionArg::Macos14 => RunnerMacOsVersion::Macos14,
        RunnerMacosVersionArg::Macos15 => RunnerMacOsVersion::Macos15,
        RunnerMacosVersionArg::Macos26 => RunnerMacOsVersion::Macos26,
        RunnerMacosVersionArg::Macos27 => RunnerMacOsVersion::Macos27,
    }
}

pub fn sort_by_to_gql(s: RunnerSortByArg) -> (r: RunnerSortBy)
    ensures
        s == RunnerSortByArg::Name ==> r == RunnerSortBy::Name,
        s == RunnerSortByArg::LastUpdated ==> r == RunnerSortBy::LastUpdated,
{
    match s {
        RunnerSortByArg::Name => RunnerSortBy::Name,
        RunnerSortByArg::LastUpdated => RunnerSortBy::LastUpdated,
    }
}

/// How a space is shown: `Team` or `Personal`.
pub fn space_display(space: SpaceType) -> (r: &'static str)
    ensures
        space == SpaceType::Team ==> r@ == "Team"@,
        space == SpaceType::User ==> r@ == "Personal"@,
{
    match space {
        SpaceType::Team => "Team",
        SpaceType::User => "Personal",
    }
}

// ---------------------------------------------------------------------------
// Validation
// ---------------------------------------------------------------------------

/// The OS rule: a macOS version only with macOS, a Docker image only with Linux.
pub open spec fn os_config_valid(os: RunnerOsArg, has_docker_image: bool, has_macos_version: bool) -> bool {
    match os {
        RunnerOsArg::Linux => !has_macos_version,
        RunnerOsArg::Macos => !has_docker_image,
    }
}

/// The error for an OS configuration that breaks the rule.
pub open spec fn os_config_error(os: RunnerOsArg, has_docker_image: bool, has_macos_version: bool) -> RunnerConfigError {
    match os {
        RunnerOsArg::Linux => if has_macos_version {
            RunnerConfigError::MacosVersionRequiresMacos
        } else {
            RunnerConfigError::InvalidOsConfiguration
        },
        RunnerOsArg::Macos => if has_docker_image {
            RunnerConfigError::DockerImageRequiresLinux
        } else {
            RunnerConfigError::InvalidOsConfiguration
        },
    }
}

/// Checks the OS rule (see [`os_config_valid`]).
pub fn validate_os_config(
    os: RunnerOsArg,
    docker_image: &Option<String>,
    macos_version: Option<RunnerMacosVersionArg>,
) -> (r: bool)
    ensures
        r == os_config_valid(os, docker_image is Some, macos_version is Some),
{
    match os {
        RunnerOsArg::Linux => macos_version.is_none(),
        RunnerOsArg::Macos => docker_image.is_none(),
    }
}

/// Checks the OS rule and names what is wrong.
pub fn validate_os_config_for_locale(
    os: RunnerOsArg,
    docker_image: &Option<String>,
    macos_version: Option<RunnerMacosVersionArg>,
) -> (r: Result<(), RunnerConfigError>)
    ensures
        r is Ok <==> os_config_valid(os, docker_image is Some, macos_version is Some),
        r matches Err(e) ==> e == os_config_error(os, docker_image is Some, macos_version is Some),
{
    if validate_os_config(os, docker_image, macos_version) {
        Ok(())
    } else {
        let key = match os {
            RunnerOsArg::Linux => if macos_version.is_some() {
                RunnerConfigError::MacosVersionRequiresMacos
            } else {
                RunnerConfigError::InvalidOsConfiguration
            },
            RunnerOsArg::Macos => if docker_image.is_some() {
                RunnerConfigError::DockerImageRequiresLinux
            } else {
                RunnerConfigError::InvalidOsConfiguration
            },
        };
        Err(key)
    }
}

/// The shape to set: the existing one where neither dimension is given,
/// else each given dimension over the existing one; an error names the
/// first dimension that neither supplies.
pub open spec fn merge_instance_shape_spec(
    new_vcpus: Option<i32>,
    new_memory_gb: Option<i32>,
    existing: Option<(i32, i32)>,
) -> Result<Option<(i32, i32)>, RunnerConfigError> {
    if new_vcpus is None && new_memory_gb is None {
        Ok(existing)
    } else {
        let vcpus = match new_vcpus {
            Some(v) => Some(v),
            None => match existing {
                Some(e) => Some(e.0),
                None => None,
            },
        };
        let memory = match new_memory_gb {
            Some(m) => Some(m),
            None => match existing {
                Some(e) => Some(e.1),
                None => None,
            },
        };
        match (vcpus, memory) {
            (Some(v), Some(m)) => Ok(Some((v, m))),
            (None, _) => Err(RunnerConfigError::VcpusRequired),
            (Some(_), None) => Err(RunnerConfigError::MemoryRequired),
        }
    }
}

/// Merges instance-shape overrides with the existing shape (see [`merge_instance_shape_spec`]).
pub fn merge_instance_shape(
    new_vcpus: Option<i32>,
    new_memory_gb: Option<i32>,
    existing: Option<(i32, i32)>,
) -> (r: Result<Option<(i32, i32)>, RunnerConfigError>)
    ensures
        r == merge_instance_shape_spec(new_vcpus, new_memory_gb, existing),
{
    if new_vcpus.is_none() && new_memory_gb.is_none() {
        return Ok(existing);
    }
    let vcpus = match new_vcpus {
        Some(v) => v,
        None => match existing {
            Some(e) => e.0,
            None => return Err(RunnerConfigError::VcpusRequired),
        },
    };
    let memory_gb = match new_memory_gb {
        Some(m) => m,
        None => match existing {
            Some(e) => e.1,
            None => return Err(RunnerConfigError::MemoryRequired),
        },
    };
    Ok(Some((vcpus, memory_gb)))
}

/// The name after an update: with a UID the runner is known, so a given name
/// renames it; without one the name selected the runner and stays.
pub open spec fn resolve_updated_name_spec(
    has_uid: bool,
    new_name: Option<Seq<char>>,
    existing_name: Seq<char>,
) -> Seq<char> {
    match new_name {
        Some(n) => if has_uid {
            n
        } else {
            existing_name
        },
        None => existing_name,
    }
}

pub fn resolve_updated_name(has_uid: bool, new_name: Option<&str>, existing_name: &str) -> (r: String)
    ensures
        r@ == resolve_updated_name_spec(
            has_uid,
            match new_name {
                Some(n) => Some(n@),
                None => None,
            },
            existing_name@,
        ),
{
    match new_name {
        Some(name) => if has_uid {
            name.to_owned()
        } else {
            existing_name.to_owned()
        },
        None => existing_name.to_owned(),
    }
}

// ---------------------------------------------------------------------------
// Requests
// ---------------------------------------------------------------------------

/// A create request for `owner`: the OS with its own settings only (a Linux
/// Docker image, or a macOS version), the shape only when both dimensions are
/// given, setup commands only when there are any, and the architecture resolved.
pub fn build_create_input(args: CreateRunnerArgs, owner: Owner) -> (r: UpsertRunnerInput)
    ensures
        r.uid is None,
        r.owner == Some(owner),
        r.runner.name@ == args.name@,
        opt_view(r.runner.description) == opt_view(args.description),
        r.runner.os == Some(os_to_gql_spec(args.os)),
        r.runner.arch == Some(resolve_arch_spec(args.arch, args.os)),
        args.os == RunnerOsArg::Linux ==> r.runner.mac is None && linux_view(r.runner.linux) == opt_view(
            args.docker_image,
        ),
        args.os == RunnerOsArg::Macos ==> r.runner.linux is None && r.runner.mac == Some(
            MacOsConfig {
                version: match args.macos_version {
                    Some(v) => Some(macos_version_to_gql_spec(v)),
                    None => None,
                },
            },
        ),
        r.runner.instance_shape == match (args.vcpus, args.memory_gb) {
            (Some(v), Some(m)) => Some(InstanceShape { vcpus: v, memory_gb: m }),
            _ => None,
        },
        opt_strings_view(r.runner.setup_commands) == if args.setup_command@.len() == 0 {
            None
        } else {
            Some(strings_view(args.setup_command@))
        },
{
    let os = os_to_gql(args.os);
    let arch = resolve_arch(args.arch, args.os);
    let (linux, mac) = match args.os {
        RunnerOsArg::Linux => (
            match args.docker_image {
                Some(docker_image) => Some(LinuxConfig { docker_image }),
                None => None,
            },
            None,
        ),
        RunnerOsArg::Macos => (
            None,
            Some(
                MacOsConfig {
                    version: match args.macos_version {
                        Some(v) => Some(macos_version_to_gql(v)),
                        None => None,
                    },
                },
            ),
        ),
    };
    let instance_shape = match (args.vcpus, args.memory_gb) {
        (Some(vcpus), Some(memory_gb)) => Some(InstanceShape { vcpus, memory_gb }),
        _ => None,
    };
    let setup_commands = if args.setup_command.len() == 0 {
        None
    } else {
        Some(args.setup_command)
    };
    UpsertRunnerInput {
        uid: None,
        owner: Some(owner),
        runner: RunnerInput {
            name: args.name,
            description: args.description,
            setup_commands,
            instance_shape,
            os: Some(os),
            arch: Some(arch),
            mac,
            linux,
        },
    }
}

pub open spec fn existing_shape(existing: RunnerConfig) -> Option<(i32, i32)> {
    match existing.instance_shape {
        Some(s) => Some((s.vcpus, s.memory_gb)),
        None => None,
    }
}

/// The OS after an update: the given one, else the runner's.
pub open spec fn effective_os(args: UpdateRunnerArgs, existing: RunnerConfig) -> RunnerOs {
    match args.os {
        Some(os) => os_to_gql_spec(os),
        None => existing.os,
    }
}

/// Why an update cannot be sent, if it cannot: the OS rule checked against
/// the OS after the update, then the shape.
pub open spec fn update_error(args: UpdateRunnerArgs, existing: RunnerConfig) -> Option<RunnerConfigError> {
    let os = os_arg_of(effective_os(args, existing));
    if !os_config_valid(os, args.docker_image is Some, args.macos_version is Some) {
        Some(os_config_error(os, args.docker_image is Some, args.macos_version is Some))
    } else {
        match merge_instance_shape_spec(args.vcpus, args.memory_gb, existing_shape(existing)) {
            Err(e) => Some(e),
            Ok(_) => None,
        }
    }
}

pub open spec fn shape_of(s: Option<(i32, i32)>) -> Option<InstanceShape> {
    match s {
        Some(p) => Some(InstanceShape { vcpus: p.0, memory_gb: p.1 }),
        None => None,
    }
}

/// The full configuration an update sends: every field not being changed is
/// kept from the runner's existing configuration.
pub open spec fn update_input_ok(args: UpdateRunnerArgs, existing: RunnerConfig, r: RunnerInput) -> bool {
    let os = effective_os(args, existing);
    &&& r.name@ == resolve_updated_name_spec(args.id is Some, opt_view(args.name), existing.name@)
    &&& opt_view(r.description) == match args.description {
        Some(d) => Some(d@),
        None => opt_view(existing.description),
    }
    &&& opt_strings_view(r.setup_commands) == if args.setup_command@.len() == 0 {
        opt_strings_view(existing.setup_commands)
    } else {
        Some(strings_view(args.setup_command@))
    }
    &&& merge_instance_shape_spec(args.vcpus, args.memory_gb, existing_shape(existing)) matches Ok(
        shape,
    ) && r.instance_shape == shape_of(shape)
    &&& r.os == Some(os)
    &&& r.arch == Some(
        match args.arch {
            Some(a) => resolve_arch_spec(a, os_arg_of(os)),
            None => existing.arch,
        },
    )
    &&& os == RunnerOs::Linux ==> r.mac is None && linux_view(r.linux) == match args.docker_image {
        Some(d) => Some(d@),
        None => linux_view(existing.linux),
    }
    &&& os == RunnerOs::Macos ==> r.linux is None && r.mac == Some(
        MacOsConfig {
            version: match args.macos_version {
                Some(v) => Some(macos_version_to_gql_spec(v)),
                None => match existing.mac {
                    Some(m) => m.version,
                    None => None,
                },
            },
        },
    )
}

/// Builds the configuration for an update (see [`update_input_ok`] and [`update_error`]).
pub fn build_update_input(args: &UpdateRunnerArgs, existing: &RunnerConfig) -> (r: Result<
    RunnerInput,
    RunnerConfigError,
>)
    ensures
        r is Err <==> update_error(*args, *existing) is Some,
        r matches Err(e) ==> update_error(*args, *existing) == Some(e),
        r matches Ok(input) ==> update_input_ok(*args, *existing, input),
{
    let effective_os = match args.os {
        Some(os) => os_to_gql(os),
        None => existing.os,
    };
    let effective_os_arg = match effective_os {
        RunnerOs::Linux => RunnerOsArg::Linux,
        RunnerOs::Macos => RunnerOsArg::Macos,
    };
    match validate_os_config_for_locale(effective_os_arg, &args.docker_image, args.macos_version) {
        Ok(()) => {},
        Err(e) => return Err(e),
    }
    let (linux, mac) = match effective_os {
        RunnerOs::Linux => {
            let docker_image = match &args.docker_image {
                Some(d) => Some(d.clone()),
                None => match &existing.linux {
                    Some(l) => Some(l.docker_image.clone()),
                    None => None,
                },
            };
            (
                match docker_image {
                    Some(docker_image) => Some(LinuxConfig { docker_image }),
                    None => None,
                },
                None,
            )
        },
        RunnerOs::Macos => {
            let version = match args.macos_version {
                Some(v) => Some(macos_version_to_gql(v)),
                None => match &existing.mac {
                    Some(m) => m.version,
                    None => None,
                },
            };
            (None, Some(MacOsConfig { version }))
        },
    };
    let existing_shape = match &existing.instance_shape {
        Some(s) => Some((s.vcpus, s.memory_gb)),
        None => None,
    };
    let shape = match merge_instance_shape(args.vcpus, args.memory_gb, existing_shape) {
        Ok(s) => s,
        Err(e) => return Err(e),
    };
    let instance_shape = match shape {
        Some((vcpus, memory_gb)) => Some(InstanceShape { vcpus, memory_gb }),
        None => None,
    };
    let setup_commands = if args.setup_command.len() == 0 {
        clone_opt_strings(&existing.setup_commands)
    } else {
        Some(clone_strings(&args.setup_command))
    };
    let description = match &args.description {
        Some(d) => Some(d.clone()),
        None => clone_opt_string(&existing.description),
    };
    let name = resolve_updated_name(
        args.id.is_some(),
        match &args.name {
            Some(n) => Some(n.as_str()),
            None => None,
        },
        existing.name.as_str(),
    );
    let arch = match args.arch {
        Some(a) => resolve_arch(a, effective_os_arg),
        None => existing.arch,
    };
    Ok(
        RunnerInput {
            name,
            description,
            setup_commands,
            instance_shape,
            os: Some(effective_os),
            arch: Some(arch),
            mac,
            linux,
        },
    )
}

// ---------------------------------------------------------------------------
// Which runner
// ---------------------------------------------------------------------------

/// Finds the runner a command means: by UID when one is given (the first with
/// it), else by name, which must match exactly one runner.
pub fn resolve_runner(runners: &Vec<Runner>, id: Option<&str>, name: Option<&str>) -> (r: Result<
    usize,
    RunnerLookupError,
>)
    ensures
        match id {
            Some(i) => match r {
                Ok(k) => k < runners@.len() && runners@[k as int].uid@ == i@ && forall|j: int|
                    0 <= j < k ==> runners@[j].uid@ != i@,
                Err(e) => (e matches RunnerLookupError::NotFound { identifier } && identifier@ == i@)
                    && forall|j: int| 0 <= j < runners@.len() ==> runners@[j].uid@ != i@,
            },
            None => match name {
                None => r matches Err(RunnerLookupError::IdentifierRequired),
                Some(n) => match r {
                    Ok(k) => k < runners@.len() && runners@[k as int].config.name@ == n@ && forall|j: int|
                        0 <= j < runners@.len() && j != k ==> runners@[j].config.name@ != n@,
                    Err(RunnerLookupError::NotFound { identifier }) => identifier@ == n@ && forall|j: int|
                        0 <= j < runners@.len() ==> runners@[j].config.name@ != n@,
                    Err(RunnerLookupError::MultipleMatches { name: m }) => m@ == n@ && exists|j1: int, j2: int|
                        0 <= j1 < j2 < runners@.len() && runners@[j1].config.name@ == n@
                            && runners@[j2].config.name@ == n@,
                    Err(RunnerLookupError::IdentifierRequired) => false,
                },
            },
        },
{
    match id {
        Some(i) => {
            let ic = chars_of(i);
            let mut k: usize = 0;
            while k < runners.len()
                invariant
                    id == Some(i),
                    ic@ == i@,
                    k <= runners@.len(),
                    forall|j: int| 0 <= j < k ==> runners@[j].uid@ != i@,
                decreases runners@.len() - k,
            {
                let u = chars_of(runners[k].uid.as_str());
                if chars_eq(u.as_slice(), ic.as_slice()) {
                    return Ok(k);
                }
                k = k + 1;
            }
            Err(RunnerLookupError::NotFound { identifier: i.to_owned() })
        },
        None => match name {
            None => Err(RunnerLookupError::IdentifierRequired),
            Some(n) => {
                let nc = chars_of(n);
                let mut found: Option<usize> = None;
                let mut k: usize = 0;
                while k < runners.len()
                    invariant
                        id is None,
                        name == Some(n),
                        nc@ == n@,
                        k <= runners@.len(),
                        match found {
                            Some(f) => f < k && runners@[f as int].config.name@ == n@ && forall|j: int|
                                0 <= j < k && j != f ==> runners@[j].config.name@ != n@,
                            None => forall|j: int| 0 <= j < k ==> runners@[j].config.name@ != n@,
                        },
                    decreases runners@.len() - k,
                {
                    let c = chars_of(runners[k].config.name.as_str());
                    if chars_eq(c.as_slice(), nc.as_slice()) {
                        match found {
                            Some(f) => {
                                assert(runners@[f as int].config.name@ == n@);
                                assert(runners@[k as int].config.name@ == n@);
                                return Err(RunnerLookupError::MultipleMatches { name: n.to_owned() });
                            },
                            None => {
                                found = Some(k);
                            },
                        }
                    }
                    k = k + 1;
                }
                match found {
                    Some(f) => Ok(f),
                    None => Err(RunnerLookupError::NotFound { identifier: n.to_owned() }),
                }
            },
        },
    }
}

// ---------------------------------------------------------------------------
// Messages
// ---------------------------------------------------------------------------

impl RunnerConfigError {
    /// The catalog key of the error.
    pub fn key(&self) -> (k: &'static str)
        ensures
            k@ == runner_config_error_key(*self),
    {
        match self {
            RunnerConfigError::MacosVersionRequiresMacos => "agent_sdk.runner.error.macos_version_requires_macos",
            RunnerConfigError::DockerImageRequiresLinux => "agent_sdk.runner.error.docker_image_requires_linux",
            RunnerConfigError::InvalidOsConfiguration => "agent_sdk.runner.error.invalid_os_configuration",
            RunnerConfigError::VcpusRequired => "agent_sdk.runner.error.vcpus_required",
            RunnerConfigError::MemoryRequired => "agent_sdk.runner.error.memory_required",
        }
    }
}

pub open spec fn runner_config_error_key(e: RunnerConfigError) -> Seq<char> {
    match e {
        RunnerConfigError::MacosVersionRequiresMacos => "agent_sdk.runner.error.macos_version_requires_macos"@,
        RunnerConfigError::DockerImageRequiresLinux => "agent_sdk.runner.error.docker_image_requires_linux"@,
        RunnerConfigError::InvalidOsConfiguration => "agent_sdk.runner.error.invalid_os_configuration"@,
        RunnerConfigError::VcpusRequired => "agent_sdk.runner.error.vcpus_required"@,
        RunnerConfigError::MemoryRequired => "agent_sdk.runner.error.memory_required"@,
    }
}

impl RunnerLookupError {
    /// The message of the error: its catalog key and arguments.
    pub fn message(&self) -> (m: LocalizedMessage)
        ensures
            match *self {
                RunnerLookupError::NotFound { identifier } => m.key@
                    == "agent_sdk.runner.error.not_found"@ && pairs_view(m.args@) == seq![
                    ("identifier"@, identifier@),
                ],
                RunnerLookupError::IdentifierRequired => m.key@
                    == "agent_sdk.runner.error.identifier_required"@ && pairs_view(m.args@)
                    == Seq::<(Seq<char>, Seq<char>)>::empty(),
                RunnerLookupError::MultipleMatches { name } => m.key@
                    == "agent_sdk.runner.error.multiple_matches_specify_uid"@ && pairs_view(m.args@)
                    == seq![("name"@, name@)],
            },
    {
        match self {
            RunnerLookupError::NotFound { identifier } => LocalizedMessage {
                key: "agent_sdk.runner.error.not_found".to_owned(),
                args: args1("identifier", identifier.as_str()),
            },
            RunnerLookupError::IdentifierRequired => LocalizedMessage {
                key: "agent_sdk.runner.error.identifier_required".to_owned(),
                args: args0(),
            },
            RunnerLookupError::MultipleMatches { name } => LocalizedMessage {
                key: "agent_sdk.runner.error.multiple_matches_specify_uid".to_owned(),
                args: args1("name", name.as_str()),
            },
        }
    }
}

/// What deleting a runner asks first. Without a terminal to ask on, the delete
/// is refused (`Err`, the message telling to pass `--force`); with one, the
/// question to confirm.
pub fn confirm_delete(uid: &str, is_terminal: bool) -> (r: Result<LocalizedMessage, LocalizedMessage>)
    ensures
        match r {
            Ok(q) => is_terminal && q.key@ == "agent_sdk.runner.confirm.delete"@ && pairs_view(q.args@)
                == seq![("uid"@, uid@)],
            Err(m) => !is_terminal && m.key@
                == "agent_sdk.runner.error.delete_non_interactive_requires_force"@ && pairs_view(m.args@)
                == seq![("uid"@, uid@)],
        },
{
    if !is_terminal {
        return Err(
            LocalizedMessage {
                key: "agent_sdk.runner.error.delete_non_interactive_requires_force".to_owned(),
                args: args1("uid", uid),
            },
        );
    }
    Ok(LocalizedMessage { key: "agent_sdk.runner.confirm.delete".to_owned(), args: args1("uid", uid) })
}

/// The text line after a create or update.
pub fn upsert_result_message(uid: &str, is_update: bool) -> (m: LocalizedMessage)
    ensures
        m.key@ == if is_update {
            "agent_sdk.runner.output.updated"@
        } else {
            "agent_sdk.runner.output.created"@
        },
        pairs_view(m.args@) == seq![("uid"@, uid@)],
{
    let key = if is_update {
        "agent_sdk.runner.output.updated"
    } else {
        "agent_sdk.runner.output.created"
    };
    LocalizedMessage { key: key.to_owned(), args: args1("uid", uid) }
}

/// The text line after a delete.
pub fn deleted_message(uid: &str) -> (m: LocalizedMessage)
    ensures
        m.key@ == "agent_sdk.runner.output.deleted"@,
        pairs_view(m.args@) == seq![("uid"@, uid@)],
{
    LocalizedMessage { key: "agent_sdk.runner.output.deleted".to_owned(), args: args1("uid", uid) }
}


// ---------------------------------------------------------------------------
// The runner table
// ---------------------------------------------------------------------------

/// How an OS is shown.
pub open spec fn os_display_spec(os: RunnerOs) -> Seq<char> {
    match os {
        RunnerOs::Linux => "Linux"@,
        RunnerOs::Macos => "macOS"@,
    }
}

pub fn os_display(os: RunnerOs) -> (r: &'static str)
    ensures
        r@ == os_display_spec(os),
{
    match os {
        RunnerOs::Linux => "Linux",
        RunnerOs::Macos => "macOS",
    }
}

/// How an architecture is shown.
pub open spec fn arch_display_spec(arch: RunnerArch) -> Seq<char> {
    match arch {
        RunnerArch::X8664 => "x86-64"@,
        RunnerArch::Aarch64 => "aarch64"@,
    }
}

pub fn arch_display(arch: RunnerArch) -> (r: &'static str)
    ensures
        r@ == arch_display_spec(arch),
{
    match arch {
        RunnerArch::X8664 => "x86-64",
        RunnerArch::Aarch64 => "aarch64",
    }
}

/// How a macOS version is shown.
pub open spec fn macos_version_display_spec(v: RunnerMacOsVersion) -> Seq<char> {
    match v {
        RunnerMacOsVersion::Macos14 => "macOS 14"@,
        RunnerMacOsVersion::Macos15 => "macOS 15"@,
        RunnerMacOsVersion::Macos26 => "macOS 26"@,
        RunnerMacOsVersion::Macos27 => "macOS 27"@,
    }
}

pub fn macos_version_display(v: RunnerMacOsVersion) -> (r: &'static str)
    ensures
        r@ == macos_version_display_spec(v),
{
    match v {
        RunnerMacOsVersion::Macos14 => "macOS 14",
        RunnerMacOsVersion::Macos15 => "macOS 15",
        RunnerMacOsVersion::Macos26 => "macOS 26",
        RunnerMacOsVersion::Macos27 => "macOS 27",
    }
}

/// A runner as the `list` command and the JSON output show it.
#[derive(Clone, Debug)]
pub struct RunnerInfo {
    pub uid: String,
    pub name: String,
    pub description: Option<String>,
    pub os: String,
    pub arch: String,
    pub vcpus: Option<i32>,
    pub memory_gb: Option<i32>,
    pub docker_image: Option<String>,
    pub macos_version: Option<String>,
    pub scope: String,
    pub setup_commands: Vec<String>,
    /// How long ago the runner was updated, for the table.
    pub last_updated_display: String,
    /// When the runner was updated, for the JSON output.
    pub last_updated_utc: String,
}

impl RunnerInfo {
    /// The runner's row data; `last_updated_display` says how long ago it was updated.
    pub fn from_ref(runner: &Runner, last_updated_display: String) -> (info: RunnerInfo)
        ensures
            info.uid@ == runner.uid@,
            info.name@ == runner.config.name@,
            opt_view(info.description) == opt_view(runner.config.description),
            info.os@ == os_display_spec(runner.config.os),
            info.arch@ == arch_display_spec(runner.config.arch),
            info.vcpus == match runner.config.instance_shape {
                Some(s) => Some(s.vcpus),
                None => None,
            },
            info.memory_gb == match runner.config.instance_shape {
                Some(s) => Some(s.memory_gb),
                None => None,
            },
            opt_view(info.docker_image) == linux_view(runner.config.linux),
            opt_view(info.macos_version) == match runner.config.mac {
                Some(m) => match m.version {
                    Some(v) => Some(macos_version_display_spec(v)),
                    None => None,
                },
                None => None,
            },
            info.scope@ == (if runner.scope == SpaceType::Team {
                "Team"@
            } else {
                "Personal"@
            }),
            strings_view(info.setup_commands@) == match runner.config.setup_commands {
                Some(v) => strings_view(v@),
                None => Seq::empty(),
            },
            info.last_updated_display@ == last_updated_display@,
            info.last_updated_utc@ == runner.last_updated@,
    {
        let config = &runner.config;
        let (vcpus, memory_gb) = match &config.instance_shape {
            Some(s) => (Some(s.vcpus), Some(s.memory_gb)),
            None => (None, None),
        };
        let setup_commands = match &config.setup_commands {
            Some(v) => clone_strings(v),
            None => {
                let v: Vec<String> = Vec::new();
                assert(strings_view(v@) =~= Seq::<Seq<char>>::empty());
                v
            },
        };
        RunnerInfo {
            uid: runner.uid.clone(),
            name: config.name.clone(),
            description: clone_opt_string(&config.description),
            os: os_display(config.os).to_owned(),
            arch: arch_display(config.arch).to_owned(),
            vcpus,
            memory_gb,
            docker_image: match &config.linux {
                Some(l) => Some(l.docker_image.clone()),
                None => None,
            },
            macos_version: match &config.mac {
                Some(m) => match m.version {
                    Some(v) => Some(macos_version_display(v).to_owned()),
                    None => None,
                },
                None => None,
            },
            scope: space_display(runner.scope).to_owned(),
            setup_commands,
            last_updated_display,
            last_updated_utc: runner.last_updated.clone(),
        }
    }

    /// The "OS settings" cell: the Docker image or the macOS version, labeled,
    /// or nothing when neither is set.
    pub fn os_specific_display_for_locale(&self, catalogs: &CatalogBundle, locale: LocaleId) -> (r:
        Result<String, PlaceholderError>)
        ensures
            match r {
                Ok(s) => os_settings_cell(*catalogs, locale, *self) == Some(s@),
                Err(_) => os_settings_cell(*catalogs, locale, *self) is None,
            },
    {
        match &self.docker_image {
            Some(image) => catalogs.render(
                locale,
                &LocalizedMessage {
                    key: "agent_sdk.runner.value.docker_image".to_owned(),
                    args: args1("image", image.as_str()),
                },
            ),
            None => match &self.macos_version {
                Some(version) => catalogs.render(
                    locale,
                    &LocalizedMessage {
                        key: "agent_sdk.runner.value.macos_version".to_owned(),
                        args: args1("version", version.as_str()),
                    },
                ),
                None => Ok(String::new()),
            },
        }
    }

    /// The "shape" cell: the vCPUs and memory when both are known, else the
    /// catalog's word for the default shape.
    pub fn shape_display_for_locale(&self, catalogs: &CatalogBundle, locale: LocaleId) -> (r: Result<
        String,
        PlaceholderError,
    >)
        ensures
            match r {
                Ok(s) => shape_cell(*catalogs, locale, *self) == Some(s@),
                Err(_) => shape_cell(*catalogs, locale, *self) is None,
            },
    {
        match (self.vcpus, self.memory_gb) {
            (Some(vcpus), Some(memory_gb)) => {
                let v = i64_to_decimal(vcpus as i64);
                let m = i64_to_decimal(memory_gb as i64);
                catalogs.render(
                    locale,
                    &LocalizedMessage {
                        key: "agent_sdk.runner.value.shape".to_owned(),
                        args: args2("vcpus", v.as_str(), "memory_gb", m.as_str()),
                    },
                )
            },
            _ => Ok(catalogs.text(locale, "agent_sdk.runner.value.default")),
        }
    }

    /// The table row: UID, name, description, shape, OS, architecture, OS
    /// settings, scope and last update.
    pub fn row_for_locale(&self, catalogs: &CatalogBundle, locale: LocaleId) -> (r: Result<
        Vec<String>,
        PlaceholderError,
    >)
        ensures
            match r {
                Ok(cells) => shape_cell(*catalogs, locale, *self) is Some && os_settings_cell(
                    *catalogs,
                    locale,
                    *self,
                ) is Some && strings_view(cells@) == seq![
                    self.uid@,
                    self.name@,
                    match self.description {
                        Some(d) => d@,
                        None => Seq::empty(),
                    },
                    shape_cell(*catalogs, locale, *self)->Some_0,
                    localized_runner_os_spec(*catalogs, locale, self.os@),
                    localized_runner_arch_spec(*catalogs, locale, self.arch@),
                    os_settings_cell(*catalogs, locale, *self)->Some_0,
                    localized_scope_spec(*catalogs, locale, self.scope@),
                    self.last_updated_display@,
                ],
                Err(_) => shape_cell(*catalogs, locale, *self) is None || os_settings_cell(
                    *catalogs,
                    locale,
                    *self,
                ) is None,
            },
    {
        let shape = match self.shape_display_for_locale(catalogs, locale) {
            Ok(s) => s,
            Err(e) => return Err(e),
        };
        let os_settings = match self.os_specific_display_for_locale(catalogs, locale) {
            Ok(s) => s,
            Err(e) => return Err(e),
        };
        let mut cells: Vec<String> = Vec::new();
        cells.push(self.uid.clone());
        cells.push(self.name.clone());
        cells.push(
            match &self.description {
                Some(d) => d.clone(),
                None => String::new(),
            },
        );
        cells.push(shape);
        cells.push(localized_runner_os(catalogs, locale, self.os.as_str()));
        cells.push(localized_runner_arch(catalogs, locale, self.arch.as_str()));
        cells.push(os_settings);
        cells.push(localized_scope(catalogs, locale, self.scope.as_str()));
        cells.push(self.last_updated_display.clone());
        assert(strings_view(cells@) =~= seq![
            self.uid@,
            self.name@,
            match self.description {
                Some(d) => d@,
                None => Seq::empty(),
            },
            shape_cell(*catalogs, locale, *self)->Some_0,
            localized_runner_os_spec(*catalogs, locale, self.os@),
            localized_runner_arch_spec(*catalogs, locale, self.arch@),
            os_settings_cell(*catalogs, locale, *self)->Some_0,
            localized_scope_spec(*catalogs, locale, self.scope@),
            self.last_updated_display@,
        ]);
        Ok(cells)
    }
}

pub open spec fn os_settings_cell(b: CatalogBundle, locale: LocaleId, info: RunnerInfo) -> Option<Seq<char>> {
    match info.docker_image {
        Some(image) => fill_spec(
            text_spec(b, locale, "agent_sdk.runner.value.docker_image"@),
            seq![("image"@, image@)],
        ),
        None => match info.macos_version {
            Some(version) => fill_spec(
                text_spec(b, locale, "agent_sdk.runner.value.macos_version"@),
                seq![("version"@, version@)],
            ),
            None => Some(Seq::empty()),
        },
    }
}

pub open spec fn shape_cell(b: CatalogBundle, locale: LocaleId, info: RunnerInfo) -> Option<Seq<char>> {
    match (info.vcpus, info.memory_gb) {
        (Some(v), Some(m)) => fill_spec(
            text_spec(b, locale, "agent_sdk.runner.value.shape"@),
            seq![("vcpus"@, decimal_spec(v as int)), ("memory_gb"@, decimal_spec(m as int))],
        ),
        _ => Some(text_spec(b, locale, "agent_sdk.runner.value.default"@)),
    }
}

/// The column titles of the runner table.
pub open spec fn runner_header_keys() -> Seq<Seq<char>> {
    seq![
        "agent_sdk.runner.table.uid"@,
        "agent_sdk.runner.table.name"@,
        "agent_sdk.runner.table.description"@,
        "agent_sdk.runner.table.shape"@,
        "agent_sdk.runner.table.os"@,
        "agent_sdk.runner.table.arch"@,
        "agent_sdk.runner.table.os_settings"@,
        "agent_sdk.runner.table.scope"@,
        "agent_sdk.runner.table.last_updated"@,
    ]
}

/// The header of the runner table: the catalog text of each column title.
pub fn runner_info_header_for_locale(catalogs: &CatalogBundle, locale: LocaleId) -> (cells: Vec<String>)
    ensures
        cells@.len() == runner_header_keys().len(),
        forall|i: int|
            0 <= i < cells@.len() ==> #[trigger] cells@[i]@ == text_spec(
                *catalogs,
                locale,
                runner_header_keys()[i],
            ),
{
    let mut cells: Vec<String> = Vec::new();
    cells.push(catalogs.text(locale, "agent_sdk.runner.table.uid"));
    cells.push(catalogs.text(locale, "agent_sdk.runner.table.name"));
    cells.push(catalogs.text(locale, "agent_sdk.runner.table.description"));
    cells.push(catalogs.text(locale, "agent_sdk.runner.table.shape"));
    cells.push(catalogs.text(locale, "agent_sdk.runner.table.os"));
    cells.push(catalogs.text(locale, "agent_sdk.runner.table.arch"));
    cells.push(catalogs.text(locale, "agent_sdk.runner.table.os_settings"));
    cells.push(catalogs.text(locale, "agent_sdk.runner.table.scope"));
    cells.push(catalogs.text(locale, "agent_sdk.runner.table.last_updated"));
    cells
}

/// A scope in the user's language: `Personal` and `Team` translated, any other as it is.
pub open spec fn localized_scope_spec(b: CatalogBundle, locale: LocaleId, scope: Seq<char>) -> Seq<char> {
    if scope == "Personal"@ {
        text_spec(b, locale, "agent_sdk.secret.scope.personal"@)
    } else if scope == "Team"@ {
        text_spec(b, locale, "agent_sdk.secret.scope.team"@)
    } else {
        scope
    }
}

fn str_is(s: &str, lit: &str) -> (b: bool)
    ensures
        b == (s@ == lit@),
{
    let a = chars_of(s);
    let l = chars_of(lit);
    chars_eq(a.as_slice(), l.as_slice())
}

pub fn localized_scope(catalogs: &CatalogBundle, locale: LocaleId, scope: &str) -> (r: String)
    ensures
        r@ == localized_scope_spec(*catalogs, locale, scope@),
{
    if str_is(scope, "Personal") {
        catalogs.text(locale, "agent_sdk.secret.scope.personal")
    } else if str_is(scope, "Team") {
        catalogs.text(locale, "agent_sdk.secret.scope.team")
    } else {
        scope.to_owned()
    }
}

/// An OS in the user's language: `Linux` and `macOS` translated, any other as it is.
pub open spec fn localized_runner_os_spec(b: CatalogBundle, locale: LocaleId, os: Seq<char>) -> Seq<char> {
    if os == "Linux"@ {
        text_spec(b, locale, "agent_sdk.runner.value.os.linux"@)
    } else if os == "macOS"@ {
        text_spec(b, locale, "agent_sdk.runner.value.os.macos"@)
    } else {
        os
    }
}

pub fn localized_runner_os(catalogs: &CatalogBundle, locale: LocaleId, os: &str) -> (r: String)
    ensures
        r@ == localized_runner_os_spec(*catalogs, locale, os@),
{
    if str_is(os, "Linux") {
        catalogs.text(locale, "agent_sdk.runner.value.os.linux")
    } else if str_is(os, "macOS") {
        catalogs.text(locale, "agent_sdk.runner.value.os.macos")
    } else {
        os.to_owned()
    }
}

/// An architecture in the user's language: `x86-64` and `aarch64` translated, any other as it is.
pub open spec fn localized_runner_arch_spec(b: CatalogBundle, locale: LocaleId, arch: Seq<char>) -> Seq<char> {
    if arch == "x86-64"@ {
        text_spec(b, locale, "agent_sdk.runner.value.arch.x86_64"@)
    } else if arch == "aarch64"@ {
        text_spec(b, locale, "agent_sdk.runner.value.arch.aarch64"@)
    } else {
        arch
    }
}

pub fn localized_runner_arch(catalogs: &CatalogBundle, locale: LocaleId, arch: &str) -> (r: String)
    ensures
        r@ == localized_runner_arch_spec(*catalogs, locale, arch@),
{
    if str_is(arch, "x86-64") {
        catalogs.text(locale, "agent_sdk.runner.value.arch.x86_64")
    } else if str_is(arch, "aarch64") {
        catalogs.text(locale, "agent_sdk.runner.value.arch.aarch64")
    } else {
        arch.to_owned()
    }
}

} // verus!
