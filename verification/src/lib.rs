//! A small compiler from application source trees to container build recipes.
//!
//! The library inspects a modelled source tree, selects a language provider,
//! assembles a declarative build plan (setup, install, build, start phases,
//! environment variables, static assets), and synthesizes the plan into a
//! deterministic Dockerfile-equivalent recipe text.
#![allow(unused_imports)]
#![verifier::loop_isolation(false)]

use vstd::prelude::*;

pub mod app;
pub mod cache;
pub mod chain;
pub mod docker;
pub mod environment;
pub mod errors;
pub mod nix;
pub mod plan;
pub mod providers;
pub mod strutil;

use crate::app::App;
use crate::chain::{
    spec_chain, spec_plan_outcome, ChainOutcome, GeneratePlanOptions, NixpacksBuildPlanGenerator,
};
use crate::docker::{
    spec_dockerfile, spec_dockerfile_lines, spec_effective_cache_key, DockerBuilder,
    DockerBuilderOptions, ImageArtifacts,
};
use crate::environment::{spec_all_envs_parse, spec_env_parses, spec_split_eq, Environment};
use crate::errors::NixpacksError;
use crate::plan::BuildPlan;
use crate::providers::clojure::ClojureProvider;
use crate::providers::fsharp::FSharpProvider;
use crate::providers::java::JavaProvider;
use crate::providers::{
    spec_provider_detect_err_matches, spec_provider_plan, spec_provider_plan_err_matches,
    spec_provider_plan_errs, Provider,
};

verus! {

/// The fixed provider registry, in priority order: more specific
/// detectors are consulted before generic ones, and registration order
/// is the tie-break policy.
pub open spec fn spec_default_providers() -> Seq<Provider> {
    seq![
        Provider::FSharp(FSharpProvider {  }),
        Provider::Clojure(ClojureProvider {  }),
        Provider::Java(JavaProvider {  }),
    ]
}

/// The process-wide registry: constructed once, walked in this order
/// on every compilation.
pub fn get_providers() -> (r: Vec<Provider>)
    ensures
        r@ == spec_default_providers(),
{
    let mut v: Vec<Provider> = Vec::new();
    v.push(Provider::FSharp(FSharpProvider {  }));
    v.push(Provider::Clojure(ClojureProvider {  }));
    v.push(Provider::Java(JavaProvider {  }));
    assert(v@ =~= spec_default_providers());
    v
}

/// Compiles a source tree and a flat override list into a build plan:
/// the selected provider's contribution, or a single structured error.
pub fn generate_build_plan(app: &App, envs: Vec<&str>, options: &GeneratePlanOptions) -> (r:
    Result<BuildPlan, NixpacksError>)
    ensures
        !spec_all_envs_parse(envs.deep_view()) ==> (r matches Err(e) && (e
            matches NixpacksError::InvalidEnvironmentVariable(v) && exists|i: int|
            0 <= i < envs.deep_view().len() && spec_split_eq(
                #[trigger] envs.deep_view()[i],
            ) is None && v@ == envs.deep_view()[i])),
        spec_all_envs_parse(envs.deep_view()) ==> exists|env: Environment|
            #[trigger] spec_env_parses(envs.deep_view(), env) && spec_plan_outcome(
                spec_default_providers(),
                *app,
                env,
                r,
            ),
{
    let environment = match Environment::from_envs(envs) {
        Result::Ok(e) => e,
        Result::Err(e) => {
            return Result::Err(e);
        },
    };
    let generator = NixpacksBuildPlanGenerator::new(get_providers(), options.clone());
    generator.generate_plan(app, &environment)
}

/// A plan whose start phase exists but names no command: no runnable
/// entry point was detected.
pub open spec fn spec_missing_start(plan: BuildPlan) -> bool {
    plan.start matches Some(sp) && sp.cmd is None
}

/// What compiling and synthesizing must yield for a tree, a parsed
/// environment and build options: the named artifacts, or the single
/// structured error the pipeline surfaced — a missing start command is
/// fatal unless the options allow it.
pub open spec fn spec_image_outcome(
    app: App,
    env: Environment,
    opts: DockerBuilderOptions,
    r: Result<ImageArtifacts, NixpacksError>,
) -> bool {
    match spec_chain(spec_default_providers(), app) {
        ChainOutcome::NoneDetected => r matches Err(e) && e
            == NixpacksError::NoProviderDetected,
        ChainOutcome::Failed(i) => r matches Err(e) && spec_provider_detect_err_matches(
            spec_default_providers()[i],
            app,
            e,
        ),
        ChainOutcome::Selected(i) => if spec_provider_plan_errs(
            spec_default_providers()[i],
            app,
            env,
        ) {
            r matches Err(e) && spec_provider_plan_err_matches(
                spec_default_providers()[i],
                app,
                env,
                e,
            )
        } else {
            exists|plan: BuildPlan|
                #[trigger] spec_provider_plan(spec_default_providers()[i], app, env, plan) && (
                if spec_missing_start(plan) && !opts.no_error_without_start {
                    r matches Err(e) && e == NixpacksError::NoStartCommand
                } else {
                    r matches Ok(a) && a.plan == plan && a.dockerfile@ == spec_dockerfile(
                        plan,
                        opts,
                        env,
                    ) && (opts.name matches Some(n) ==> a.name@ == n@) && (opts.name is None
                        ==> a.name@.len() == 36)
                })
        },
    }
}

/// Fatal start validation: a plan whose start phase names no command
/// is rejected with `NoStartCommand`, unless the caller explicitly
/// accepts a recipe without an entry point. Runs before synthesis, so
/// the synthesizer itself stays total.
pub fn validate_start_phase(plan: &BuildPlan, no_error_without_start: bool) -> (r: Result<
    (),
    NixpacksError,
>)
    ensures
        r is Ok <==> !(spec_missing_start(*plan) && !no_error_without_start),
        r matches Err(e) ==> e == NixpacksError::NoStartCommand,
{
    let missing_start: bool = match &plan.start {
        Option::Some(sp) => sp.cmd.is_none(),
        Option::None => false,
    };
    if missing_start && !no_error_without_start {
        Result::Err(NixpacksError::NoStartCommand)
    } else {
        Result::Ok(())
    }
}

/// Relies on uuid::Uuid::new_v4 and its hyphenated `Display` form: a
/// fresh random identifier rendered as 36 characters. The value is
/// random, so nothing beyond its length is relied on.
#[verifier::external_body]
fn fresh_image_id() -> (r: String)
    ensures
        r@.len() == 36,
{
    uuid::Uuid::new_v4().to_string()
}

/// Compiles a source tree into a plan, validates the start phase, and
/// synthesizes the recipe and image name for the invoking layer to
/// write and build.
pub fn create_docker_image(
    app: &App,
    envs: Vec<&str>,
    plan_options: &GeneratePlanOptions,
    build_options: &DockerBuilderOptions,
) -> (r: Result<ImageArtifacts, NixpacksError>)
    ensures
        !spec_all_envs_parse(envs.deep_view()) ==> (r matches Err(e) && (e
            matches NixpacksError::InvalidEnvironmentVariable(v) && exists|i: int|
            0 <= i < envs.deep_view().len() && spec_split_eq(
                #[trigger] envs.deep_view()[i],
            ) is None && v@ == envs.deep_view()[i])),
        spec_all_envs_parse(envs.deep_view()) ==> exists|env: Environment|
            #[trigger] spec_env_parses(envs.deep_view(), env) && spec_image_outcome(
                *app,
                env,
                *build_options,
                r,
            ),
{
    let environment = match Environment::from_envs(envs) {
        Result::Ok(e) => e,
        Result::Err(e) => {
            return Result::Err(e);
        },
    };
    let generator = NixpacksBuildPlanGenerator::new(get_providers(), plan_options.clone());
    let plan = match generator.generate_plan(app, &environment) {
        Result::Ok(p) => p,
        Result::Err(e) => {
            assert(spec_env_parses(envs.deep_view(), environment));
            return Result::Err(e);
        },
    };
    match validate_start_phase(&plan, build_options.no_error_without_start) {
        Result::Ok(()) => {},
        Result::Err(e) => {
            assert(spec_env_parses(envs.deep_view(), environment));
            return Result::Err(e);
        },
    }
    let name: String = match &build_options.name {
        Option::Some(n) => n.clone(),
        Option::None => fresh_image_id(),
    };
    let builder = DockerBuilder::new(build_options.duplicate());
    let dockerfile = builder.create_dockerfile(&plan, &environment);
    proof {
        assert(spec_effective_cache_key(builder.options, environment)
            == spec_effective_cache_key(*build_options, environment));
        assert(spec_dockerfile_lines(plan, builder.options, environment)
            =~= spec_dockerfile_lines(plan, *build_options, environment));
        assert(spec_env_parses(envs.deep_view(), environment));
    }
    Result::Ok(ImageArtifacts { name, dockerfile, plan })
}

} // verus!
