//! The language providers: detection plus plan contribution, one
//! strategy per language, dispatched over a closed, compiled-in set.
use vstd::prelude::*;

pub mod clojure;
pub mod fsharp;
pub mod java;

use crate::app::App;
use crate::environment::Environment;
use crate::errors::NixpacksError;
use crate::plan::BuildPlan;
use crate::providers::clojure::{spec_clojure_plan, ClojureProvider};
use crate::providers::fsharp::{spec_fsharp_detects, spec_fsharp_plan, FSharpProvider};
use crate::providers::java::{
    spec_gradle_invalid, spec_gradle_plan, spec_gradle_structure_err_msg, spec_is_gradle_app,
    spec_is_maven_app, spec_maven_plan, JavaProvider,
};
use crate::app::spec_includes_file;

verus! {

/// One registered language strategy. The registry is a fixed,
/// compiled-in list of these, so dispatch is a closed sum, not dynamic
/// loading.
pub enum Provider {
    FSharp(FSharpProvider),
    Clojure(ClojureProvider),
    Java(JavaProvider),
}

/// The provider's detection predicate over the source tree.
pub open spec fn spec_provider_detects(p: Provider, app: App) -> bool {
    match p {
        Provider::FSharp(_) => spec_fsharp_detects(app),
        Provider::Clojure(_) => spec_includes_file(app.files@, "project.clj"@),
        Provider::Java(_) => spec_is_maven_app(app) || spec_is_gradle_app(app),
    }
}

/// Detection fails loudly: a partially detected project that must not
/// fall through to the next strategy.
pub open spec fn spec_provider_detect_errs(p: Provider, app: App) -> bool {
    match p {
        Provider::Java(_) => !spec_is_maven_app(app) && spec_gradle_invalid(app),
        _ => false,
    }
}

/// The error a loud detection failure carries.
pub open spec fn spec_provider_detect_err_matches(p: Provider, app: App, e: NixpacksError) -> bool {
    match p {
        Provider::Java(_) => e matches NixpacksError::InvalidProjectStructure(m) && m@
            == spec_gradle_structure_err_msg(app),
        _ => false,
    }
}

/// Plan contribution fails for this provider on this tree.
pub open spec fn spec_provider_plan_errs(p: Provider, app: App, env: Environment) -> bool {
    match p {
        Provider::Java(_) => spec_gradle_invalid(app),
        _ => false,
    }
}

/// The error a failing plan contribution carries.
pub open spec fn spec_provider_plan_err_matches(
    p: Provider,
    app: App,
    env: Environment,
    e: NixpacksError,
) -> bool {
    match p {
        Provider::Java(_) => e matches NixpacksError::InvalidProjectStructure(m) && m@
            == spec_gradle_structure_err_msg(app),
        _ => false,
    }
}

/// The plan the provider contributes for this tree and environment.
pub open spec fn spec_provider_plan(
    p: Provider,
    app: App,
    env: Environment,
    plan: BuildPlan,
) -> bool {
    match p {
        Provider::FSharp(_) => spec_fsharp_plan(plan, app),
        Provider::Clojure(_) => spec_clojure_plan(plan),
        Provider::Java(_) => if spec_is_gradle_app(app) {
            spec_gradle_plan(plan, app, env)
        } else {
            spec_maven_plan(plan, app)
        },
    }
}

impl Provider {
    /// The provider's registry name.
    pub fn name(&self) -> (r: &'static str)
        ensures
            r@ == match *self {
                Provider::FSharp(_) => "fsharp"@,
                Provider::Clojure(_) => "clojure"@,
                Provider::Java(_) => "Java"@,
            },
    {
        match self {
            Provider::FSharp(p) => p.name(),
            Provider::Clojure(p) => p.name(),
            Provider::Java(p) => p.name(),
        }
    }

    /// The detection predicate, run against every provider on every
    /// invocation; pure over the tree and environment.
    pub fn detect(&self, app: &App, env: &Environment) -> (r: Result<bool, NixpacksError>)
        ensures
            r matches Ok(b) ==> b == spec_provider_detects(*self, *app),
            r is Ok <==> !spec_provider_detect_errs(*self, *app),
            r matches Err(e) ==> spec_provider_detect_err_matches(*self, *app, e),
    {
        match self {
            Provider::FSharp(p) => Result::Ok(p.detect(app, env)),
            Provider::Clojure(p) => Result::Ok(p.detect(app, env)),
            Provider::Java(p) => p.detect(app, env),
        }
    }

    /// The selected provider's contribution, folded into one plan:
    /// capabilities the provider lacks become absent phases, never
    /// empty ones.
    pub fn get_build_plan(&self, app: &App, env: &Environment) -> (r: Result<
        Option<BuildPlan>,
        NixpacksError,
    >)
        requires
            *self matches Provider::FSharp(_) ==> spec_fsharp_detects(*app),
        ensures
            r is Ok <==> !spec_provider_plan_errs(*self, *app, *env),
            r matches Ok(o) ==> o matches Some(plan) && spec_provider_plan(
                *self,
                *app,
                *env,
                plan,
            ),
            r matches Err(e) ==> spec_provider_plan_err_matches(*self, *app, *env, e),
    {
        match self {
            Provider::FSharp(p) => {
                let setup = p.setup(app, env);
                let install = p.install(app, env);
                let build = p.build(app, env);
                let start = p.start(app, env);
                let vars = p.environment_variables(app, env);
                let mut plan = BuildPlan::new(setup, install, build, start);
                plan.variables = vars;
                Result::Ok(Option::Some(plan))
            },
            Provider::Clojure(p) => {
                let setup = p.setup(app, env);
                let build = p.build(app, env);
                let start = p.start(app, env);
                let plan = BuildPlan::new(setup, Option::None, build, start);
                Result::Ok(Option::Some(plan))
            },
            Provider::Java(p) => p.get_build_plan(app, env),
        }
    }
}

} // verus!
