//! The build plan: the compiler's intermediate representation. Phases
//! hold commands, package sets, copy scopes and cache directories; the
//! plan aggregates the phases with global variables and static assets.
use vstd::prelude::*;

use crate::environment::EnvVar;
use crate::nix::Pkg;
use crate::strutil::clone_string_vec;

verus! {

/// The base image a setup phase starts from when a provider does not
/// choose another.
pub const DEFAULT_BASE_IMAGE: &'static str = "ghcr.io/railwayapp/nix";

/// The first build stage: base image, OS and language packages, and any
/// extra setup commands.
#[derive(Clone, Debug, PartialEq, Eq)]
pub struct SetupPhase {
    pub pkgs: Vec<Pkg>,
    pub apt_pkgs: Option<Vec<String>>,
    pub cmds: Option<Vec<String>>,
    pub only_include_files: Option<Vec<String>>,
    pub base_image: String,
}

impl SetupPhase {
    /// A setup phase installing `pkgs` on the default base image.
    pub fn new(pkgs: Vec<Pkg>) -> (p: SetupPhase)
        ensures
            p.pkgs == pkgs,
            p.apt_pkgs is None,
            p.cmds is None,
            p.only_include_files is None,
            p.base_image@ == "ghcr.io/railwayapp/nix"@,
    {
        SetupPhase {
            pkgs,
            apt_pkgs: None,
            cmds: None,
            only_include_files: None,
            base_image: DEFAULT_BASE_IMAGE.to_owned(),
        }
    }
}

/// The dependency-installation stage.
#[derive(Clone, Debug, PartialEq, Eq)]
pub struct InstallPhase {
    pub cmds: Option<Vec<String>>,
    pub only_include_files: Option<Vec<String>>,
    pub cache_directories: Option<Vec<String>>,
    pub paths: Option<Vec<String>>,
}

impl InstallPhase {
    /// An install phase running the single command `cmd`.
    pub fn new(cmd: &str) -> (p: InstallPhase)
        ensures
            p.cmds matches Some(c) && c.deep_view() == seq![cmd@],
            p.only_include_files is None,
            p.cache_directories is None,
            p.paths is None,
    {
        let mut cmds: Vec<String> = Vec::new();
        cmds.push(cmd.to_owned());
        assert(cmds.deep_view() =~= seq![cmd@]);
        InstallPhase { cmds: Some(cmds), only_include_files: None, cache_directories: None, paths: None }
    }
}

/// The application-build stage.
#[derive(Clone, Debug, PartialEq, Eq)]
pub struct BuildPhase {
    pub cmds: Option<Vec<String>>,
    pub only_include_files: Option<Vec<String>>,
    pub cache_directories: Option<Vec<String>>,
}

impl BuildPhase {
    /// A build phase running the single command `cmd`.
    pub fn new(cmd: &str) -> (p: BuildPhase)
        ensures
            p.cmds matches Some(c) && c.deep_view() == seq![cmd@],
            p.only_include_files is None,
            p.cache_directories is None,
    {
        let mut cmds: Vec<String> = Vec::new();
        cmds.push(cmd.to_owned());
        assert(cmds.deep_view() =~= seq![cmd@]);
        BuildPhase { cmds: Some(cmds), only_include_files: None, cache_directories: None }
    }
}

/// The runtime stage: the entry-point command, an optional alternate run
/// image, and the files carried into the final layer. A start phase whose
/// command is `None` means no runnable entry point was detected, which is
/// fatal unless explicitly overridden.
#[derive(Clone, Debug, PartialEq, Eq)]
pub struct StartPhase {
    pub cmd: Option<String>,
    pub run_image: Option<String>,
    pub only_include_files: Option<Vec<String>>,
}

impl StartPhase {
    /// A start phase running `cmd` in the build image.
    pub fn new(cmd: &str) -> (p: StartPhase)
        ensures
            p.cmd matches Some(c) && c@ == cmd@,
            p.run_image is None,
            p.only_include_files is None,
    {
        StartPhase { cmd: Some(cmd.to_owned()), run_image: None, only_include_files: None }
    }
}

/// A generated file contributed by a provider, staged under the build
/// context's reserved `assets/` directory.
#[derive(Clone, Debug, PartialEq, Eq)]
pub struct StaticAsset {
    pub name: String,
    pub content: String,
}

/// The compiler's output artifact: the ordered phases plus global
/// environment variables and static assets. Phases a provider did not
/// contribute are `None`, never empty phases.
#[derive(Clone, Debug, PartialEq, Eq)]
pub struct BuildPlan {
    pub setup: Option<SetupPhase>,
    pub install: Option<InstallPhase>,
    pub build: Option<BuildPhase>,
    pub start: Option<StartPhase>,
    pub variables: Option<Vec<EnvVar>>,
    pub static_assets: Option<Vec<StaticAsset>>,
}

impl BuildPlan {
    /// A plan holding exactly the given phases, with no variables and no
    /// static assets.
    pub fn new(
        setup: Option<SetupPhase>,
        install: Option<InstallPhase>,
        build: Option<BuildPhase>,
        start: Option<StartPhase>,
    ) -> (p: BuildPlan)
        ensures
            p.setup == setup,
            p.install == install,
            p.build == build,
            p.start == start,
            p.variables is None,
            p.static_assets is None,
    {
        BuildPlan { setup, install, build, start, variables: None, static_assets: None }
    }
}

/// The copy-scope merge rule for two phases of the same kind: `None`
/// merged with `None` stays `None`; if either side restricts the copied
/// files, the result is the union of both lists, order preserved and
/// duplicates allowed.
pub open spec fn spec_merge_file_lists(
    a: Option<Seq<Seq<char>>>,
    b: Option<Seq<Seq<char>>>,
) -> Option<Seq<Seq<char>>> {
    match (a, b) {
        (Option::None, Option::None) => Option::None,
        (Option::Some(x), Option::None) => Option::Some(x),
        (Option::None, Option::Some(y)) => Option::Some(y),
        (Option::Some(x), Option::Some(y)) => Option::Some(x + y),
    }
}

/// Merges the `only_include_files` scopes of two phases of the same kind.
pub fn merge_file_lists(a: &Option<Vec<String>>, b: &Option<Vec<String>>) -> (r: Option<
    Vec<String>,
>)
    ensures
        r.deep_view() == spec_merge_file_lists(a.deep_view(), b.deep_view()),
{
    match (a, b) {
        (Option::None, Option::None) => Option::None,
        (Option::Some(x), Option::None) => {
            let r = clone_string_vec(x);
            assert(r.deep_view() =~= x.deep_view());
            Option::Some(r)
        },
        (Option::None, Option::Some(y)) => {
            let r = clone_string_vec(y);
            assert(r.deep_view() =~= y.deep_view());
            Option::Some(r)
        },
        (Option::Some(x), Option::Some(y)) => {
            let mut r = clone_string_vec(x);
            let mut rest = clone_string_vec(y);
            r.append(&mut rest);
            assert(r@ == x@ + y@);
            assert(r.deep_view() =~= x.deep_view() + y.deep_view());
            Option::Some(r)
        },
    }
}

} // verus!
