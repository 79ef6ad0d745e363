//! The Clojure provider: detects a Leiningen project and contributes an
//! uberjar build, with an advisory JDK version inference.
use vstd::prelude::*;

use crate::app::{lemma_read_file_some_iff_includes, spec_includes_file, spec_read_file, App};
use crate::environment::{spec_env_lookup, Environment};
use crate::errors::NixpacksError;
use crate::nix::Pkg;
use crate::plan::{BuildPhase, SetupPhase, StartPhase};
use crate::strutil::{spec_is_digit, spec_trim, str_eq, trim_str};

verus! {

/// The package a free-form version string resolves to: `jdk11` exactly
/// for a trimmed `11`, the default `jdk8` for everything else.
pub open spec fn spec_jdk_pkg_from_version(v: Seq<char>) -> Seq<char> {
    if spec_trim(v) == "11"@ {
        "jdk11"@
    } else {
        "jdk8"@
    }
}

/// The JDK package the provider infers: an explicit override wins, then
/// the `.jdk-version` file, then the default.
pub open spec fn spec_clojure_jdk_name(app: App, env: Environment) -> Seq<char> {
    match spec_env_lookup(env.variables@, "NIXPACKS_"@ + "JDK_VERSION"@) {
        Option::Some(v) => spec_jdk_pkg_from_version(v),
        Option::None => match spec_read_file(app.files@, ".jdk-version"@) {
            Option::Some(c) => spec_jdk_pkg_from_version(c),
            Option::None => "jdk8"@,
        },
    }
}

/// Override-precedence law: when the `NIXPACKS_JDK_VERSION` override is
/// set, the inferred package follows the override alone — a tree's
/// `.jdk-version` file, or its absence, changes nothing. An override
/// that trims to `11` resolves to `jdk11`. The law speaks of the
/// trimmed override because Unicode whitespace is uninterpreted in the
/// model.
pub proof fn lemma_jdk_override_wins(app: App, env: Environment, v: Seq<char>)
    requires
        spec_env_lookup(env.variables@, "NIXPACKS_"@ + "JDK_VERSION"@) == Option::Some(v),
        spec_trim(v) == "11"@,
    ensures
        spec_clojure_jdk_name(app, env) == "jdk11"@,
{
}

/// Relies on regex::Regex::is_match with the anchored pattern
/// `^[0-9][0-9]?$`: true exactly when the whole string is one or two
/// ASCII digits.
#[verifier::external_body]
fn is_one_or_two_digits(s: &str) -> (r: bool)
    ensures
        r == (1 <= s@.len() <= 2 && (forall|i: int|
            0 <= i < s@.len() ==> spec_is_digit(#[trigger] s@[i]))),
{
    regex::Regex::new(r"^[0-9][0-9]?$").map(|re| re.is_match(s)).unwrap_or(false)
}

/// The full Clojure contribution: Leiningen with the default JDK, the
/// uberjar build, and the standalone jar as entry point.
pub open spec fn spec_clojure_plan(plan: crate::plan::BuildPlan) -> bool {
    &&& plan.setup matches Some(s) && {
        &&& s.pkgs@.len() == 2
        &&& s.pkgs@[0].name@ == "leiningen"@ && s.pkgs@[0].version is None
        &&& s.pkgs@[1].name@ == "jdk8"@ && s.pkgs@[1].version is None
        &&& s.apt_pkgs is None
        &&& s.cmds is None
        &&& s.only_include_files is None
        &&& s.base_image@ == "ghcr.io/railwayapp/nix"@
    }
    &&& plan.install is None
    &&& plan.build matches Some(b) && {
        &&& b.cmds matches Some(c) && c.deep_view() == seq!["lein uberjar"@]
        &&& b.only_include_files is None
        &&& b.cache_directories is None
    }
    &&& plan.start matches Some(st) && {
        &&& st.cmd matches Some(c) && c@ == "java $JAVA_OPTS -jar target/uberjar/*standalone.jar"@
        &&& st.run_image is None
        &&& st.only_include_files is None
    }
    &&& plan.variables is None
    &&& plan.static_assets is None
}

/// The Clojure language strategy.
pub struct ClojureProvider {}

impl ClojureProvider {
    /// The provider's registry name.
    pub fn name(&self) -> (r: &'static str)
        ensures
            r@ == "clojure"@,
    {
        "clojure"
    }

    /// Detects a Leiningen project: a `project.clj` at the tree root.
    pub fn detect(&self, app: &App, _env: &Environment) -> (r: bool)
        ensures
            r == spec_includes_file(app.files@, "project.clj"@),
    {
        app.includes_file("project.clj")
    }

    /// The setup phase: Leiningen and the default JDK.
    pub fn setup(&self, _app: &App, _env: &Environment) -> (r: Option<SetupPhase>)
        ensures
            r matches Some(p) && {
                &&& p.pkgs@.len() == 2
                &&& p.pkgs@[0].name@ == "leiningen"@ && p.pkgs@[0].version is None
                &&& p.pkgs@[1].name@ == "jdk8"@ && p.pkgs@[1].version is None
                &&& p.apt_pkgs is None
                &&& p.cmds is None
                &&& p.only_include_files is None
                &&& p.base_image@ == "ghcr.io/railwayapp/nix"@
            },
    {
        let mut pkgs: Vec<Pkg> = Vec::new();
        pkgs.push(Pkg::new("leiningen"));
        pkgs.push(Pkg::new("jdk8"));
        Option::Some(SetupPhase::new(pkgs))
    }

    /// The build phase: produce the standalone uberjar.
    pub fn build(&self, _app: &App, _env: &Environment) -> (r: Option<BuildPhase>)
        ensures
            r matches Some(p) && {
                &&& p.cmds matches Some(c) && c.deep_view() == seq!["lein uberjar"@]
                &&& p.only_include_files is None
                &&& p.cache_directories is None
            },
    {
        Option::Some(BuildPhase::new("lein uberjar"))
    }

    /// The start phase: run the standalone jar.
    pub fn start(&self, _app: &App, _env: &Environment) -> (r: Option<StartPhase>)
        ensures
            r matches Some(p) && {
                &&& p.cmd matches Some(c) && c@
                    == "java $JAVA_OPTS -jar target/uberjar/*standalone.jar"@
                &&& p.run_image is None
                &&& p.only_include_files is None
            },
    {
        Option::Some(StartPhase::new("java $JAVA_OPTS -jar target/uberjar/*standalone.jar"))
    }

    /// Resolves the JDK package by priority: the `NIXPACKS_JDK_VERSION`
    /// override, then the `.jdk-version` file, then the default.
    /// Unparsable versions fall back to the default and never fail.
    pub fn get_nix_jdk_package(app: &App, env: &Environment) -> (r: Result<Pkg, NixpacksError>)
        ensures
            r matches Ok(p) && p.name@ == spec_clojure_jdk_name(*app, *env) && p.version is None,
    {
        proof {
            lemma_read_file_some_iff_includes(app.files@, ".jdk-version"@);
        }
        let from_env: Option<String> = env.get_config_variable("JDK_VERSION");
        let custom: Option<String> = match from_env {
            Option::Some(v) => Option::Some(v),
            Option::None => {
                if app.includes_file(".jdk-version") {
                    match app.read_file(".jdk-version") {
                        Result::Ok(c) => Option::Some(c),
                        Result::Err(e) => {
                            assert(false);
                            return Result::Err(e);
                        },
                    }
                } else {
                    Option::None
                }
            },
        };
        match custom {
            Option::None => Result::Ok(Pkg::new("jdk8")),
            Option::Some(v) => {
                let trimmed = trim_str(v.as_str());
                proof {
                    reveal_strlit("11");
                }
                if is_one_or_two_digits(trimmed) && str_eq(trimmed, "11") {
                    Result::Ok(Pkg::new("jdk11"))
                } else {
                    Result::Ok(Pkg::new("jdk8"))
                }
            },
        }
    }
}

} // verus!
