//! The F# provider: detects a `.fsproj` project and contributes a
//! dotnet restore/publish pipeline.
use vstd::prelude::*;

use crate::app::{spec_find_files, App};
use crate::environment::{EnvVar, Environment};
use crate::nix::Pkg;
use crate::plan::{BuildPhase, InstallPhase, SetupPhase, StartPhase};
use crate::strutil::{lemma_rfind_absent, lemma_rfind_at, rfind_char, spec_rfind};

verus! {

/// The directory the build phase publishes the application into.
pub const ARTIFACT_DIR: &'static str = "out";

/// The part of a path after its last `/`; the whole path without one.
pub open spec fn spec_basename(s: Seq<char>) -> Seq<char> {
    match spec_rfind(s, '/') {
        Option::Some(i) => s.skip(i + 1),
        Option::None => s,
    }
}

/// A file name without its final extension; a name whose only `.` is
/// its first character keeps it.
pub open spec fn spec_stem(b: Seq<char>) -> Seq<char> {
    match spec_rfind(b, '.') {
        Option::Some(i) => if i >= 1 {
            b.take(i)
        } else {
            b
        },
        Option::None => b,
    }
}

/// The tree holds at least one `.fsproj` file.
pub open spec fn spec_fsharp_detects(app: App) -> bool {
    spec_find_files(app.files@, ".fsproj"@).len() > 0
}

/// The project name: the stem of the first `.fsproj` file found.
pub open spec fn spec_fsharp_project_name(app: App) -> Seq<char> {
    spec_stem(spec_basename(spec_find_files(app.files@, ".fsproj"@)[0]))
}

/// The full F# contribution: dotnet SDK setup, restore, release
/// publish, the published binary as entry point, and the ASP.NET
/// runtime variables.
pub open spec fn spec_fsharp_plan(plan: crate::plan::BuildPlan, app: App) -> bool {
    &&& plan.setup matches Some(s) && {
        &&& s.pkgs@.len() == 1
        &&& s.pkgs@[0].name@ == "dotnet-sdk"@ && s.pkgs@[0].version is None
        &&& s.apt_pkgs is None
        &&& s.cmds is None
        &&& s.only_include_files is None
        &&& s.base_image@ == "ghcr.io/railwayapp/nix"@
    }
    &&& plan.install matches Some(ip) && {
        &&& ip.cmds matches Some(c) && c.deep_view() == seq!["dotnet restore"@]
        &&& ip.only_include_files is None
        &&& ip.cache_directories is None
        &&& ip.paths is None
    }
    &&& plan.build matches Some(b) && {
        &&& b.cmds matches Some(c) && c.deep_view() == seq![
            "dotnet publish --no-restore -c Release -o out"@,
        ]
        &&& b.only_include_files is None
        &&& b.cache_directories is None
    }
    &&& plan.start matches Some(st) && {
        &&& st.cmd matches Some(c) && c@ == "./out/"@ + spec_fsharp_project_name(app)
        &&& st.run_image is None
        &&& st.only_include_files is None
    }
    &&& plan.variables matches Some(v) && {
        &&& v@.len() == 3
        &&& v@[0].name@ == "ASPNETCORE_ENVIRONMENT"@ && v@[0].value@ == "Production"@
        &&& v@[1].name@ == "ASPNETCORE_URLS"@ && v@[1].value@ == "http://0.0.0.0:3000"@
        &&& v@[2].name@ == "DOTNET_ROOT"@ && v@[2].value@ == "/nix/var/nix/profiles/default/"@
    }
    &&& plan.static_assets is None
}

/// The F# language strategy.
pub struct FSharpProvider {}

impl FSharpProvider {
    /// The provider's registry name.
    pub fn name(&self) -> (r: &'static str)
        ensures
            r@ == "fsharp"@,
    {
        "fsharp"
    }

    /// Detects an F# project: any `.fsproj` file in the tree.
    pub fn detect(&self, app: &App, _env: &Environment) -> (r: bool)
        ensures
            r == spec_fsharp_detects(*app),
    {
        proof {
            reveal_strlit("*.fsproj");
            reveal_strlit(".fsproj");
            assert("*.fsproj"@.skip(1) =~= ".fsproj"@);
        }
        let found = app.find_files("*.fsproj");
        assert(found.deep_view().len() == found@.len());
        found.len() > 0
    }

    /// The setup phase: the dotnet SDK.
    pub fn setup(&self, _app: &App, _env: &Environment) -> (r: Option<SetupPhase>)
        ensures
            r matches Some(p) && {
                &&& p.pkgs@.len() == 1
                &&& p.pkgs@[0].name@ == "dotnet-sdk"@
                &&& p.pkgs@[0].version is None
                &&& p.apt_pkgs is None
                &&& p.cmds is None
                &&& p.only_include_files is None
                &&& p.base_image@ == "ghcr.io/railwayapp/nix"@
            },
    {
        let mut pkgs: Vec<Pkg> = Vec::new();
        pkgs.push(Pkg::new("dotnet-sdk"));
        Option::Some(SetupPhase::new(pkgs))
    }

    /// The install phase: restore the project's dependencies.
    pub fn install(&self, _app: &App, _env: &Environment) -> (r: Option<InstallPhase>)
        ensures
            r matches Some(p) && {
                &&& p.cmds matches Some(c) && c.deep_view() == seq!["dotnet restore"@]
                &&& p.only_include_files is None
                &&& p.cache_directories is None
                &&& p.paths is None
            },
    {
        Option::Some(InstallPhase::new("dotnet restore"))
    }

    /// The build phase: publish a release build into the artifact
    /// directory.
    pub fn build(&self, _app: &App, _env: &Environment) -> (r: Option<BuildPhase>)
        ensures
            r matches Some(p) && {
                &&& p.cmds matches Some(c) && c.deep_view() == seq![
                    "dotnet publish --no-restore -c Release -o out"@,
                ]
                &&& p.only_include_files is None
                &&& p.cache_directories is None
            },
    {
        Option::Some(BuildPhase::new("dotnet publish --no-restore -c Release -o out"))
    }

    /// The start phase: run the published binary named after the first
    /// `.fsproj` project file.
    pub fn start(&self, app: &App, _env: &Environment) -> (r: Option<StartPhase>)
        requires
            spec_fsharp_detects(*app),
        ensures
            r matches Some(p) && {
                &&& p.cmd matches Some(c) && c@ == "./out/"@ + spec_fsharp_project_name(*app)
                &&& p.run_image is None
                &&& p.only_include_files is None
            },
    {
        proof {
            reveal_strlit("*.fsproj");
            reveal_strlit(".fsproj");
            assert("*.fsproj"@.skip(1) =~= ".fsproj"@);
        }
        let found = app.find_files("*.fsproj");
        assert(found.deep_view().len() == found@.len());
        let path: &str = found[0].as_str();
        assert(path@ == spec_find_files(app.files@, ".fsproj"@)[0]);
        let plen = path.unicode_len();
        let b_start: usize = match rfind_char(path, '/') {
            Option::Some(i) => {
                proof {
                    lemma_rfind_at(path@, '/', i as int);
                }
                i + 1
            },
            Option::None => {
                proof {
                    lemma_rfind_absent(path@, '/');
                }
                0
            },
        };
        let base = path.substring_char(b_start, plen);
        assert(base@ =~= spec_basename(path@));
        let stem: &str = match rfind_char(base, '.') {
            Option::Some(i) => {
                proof {
                    lemma_rfind_at(base@, '.', i as int);
                }
                if i >= 1 {
                    base.substring_char(0, i)
                } else {
                    base
                }
            },
            Option::None => {
                proof {
                    lemma_rfind_absent(base@, '.');
                }
                base
            },
        };
        assert(stem@ =~= spec_stem(base@));
        let mut cmd: String = String::from_str("./out/");
        cmd.append(stem);
        Option::Some(StartPhase::new(cmd.as_str()))
    }

    /// The environment the runtime container starts with: production
    /// ASP.NET settings and the dotnet root under the Nix profile.
    pub fn environment_variables(&self, _app: &App, _env: &Environment) -> (r: Option<Vec<EnvVar>>)
        ensures
            r matches Some(v) && {
                &&& v@.len() == 3
                &&& v@[0].name@ == "ASPNETCORE_ENVIRONMENT"@ && v@[0].value@ == "Production"@
                &&& v@[1].name@ == "ASPNETCORE_URLS"@ && v@[1].value@ == "http://0.0.0.0:3000"@
                &&& v@[2].name@ == "DOTNET_ROOT"@ && v@[2].value@
                    == "/nix/var/nix/profiles/default/"@
            },
    {
        let mut vars: Vec<EnvVar> = Vec::new();
        vars.push(
            EnvVar {
                name: "ASPNETCORE_ENVIRONMENT".to_owned(),
                value: "Production".to_owned(),
            },
        );
        vars.push(
            EnvVar { name: "ASPNETCORE_URLS".to_owned(), value: "http://0.0.0.0:3000".to_owned() },
        );
        vars.push(
            EnvVar {
                name: "DOTNET_ROOT".to_owned(),
                value: "/nix/var/nix/profiles/default/".to_owned(),
            },
        );
        Option::Some(vars)
    }
}

} // verus!
