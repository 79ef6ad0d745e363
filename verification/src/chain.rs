//! The provider chain: iterate the fixed registry in declared order,
//! select the first provider that detects, and fold its contribution
//! into one build plan.
use vstd::prelude::*;

use crate::app::App;
use crate::environment::Environment;
use crate::errors::NixpacksError;
use crate::plan::BuildPlan;
use crate::providers::{
    spec_provider_detect_err_matches, spec_provider_detect_errs, spec_provider_detects,
    spec_provider_plan, spec_provider_plan_err_matches, spec_provider_plan_errs, Provider,
};

verus! {

/// What running the detection chain over a registry yields: the index
/// of the selected provider, the index of one that failed loudly, or
/// no detection at all.
pub enum ChainOutcome {
    Selected(int),
    Failed(int),
    NoneDetected,
}

/// The chain algorithm over a registry: walk in declared order; a loud
/// detection failure stops the walk; the first detecting provider is
/// selected; otherwise nothing is.
pub open spec fn spec_chain(ps: Seq<Provider>, app: App) -> ChainOutcome
    decreases ps.len(),
{
    if ps.len() == 0 {
        ChainOutcome::NoneDetected
    } else if spec_provider_detect_errs(ps[0], app) {
        ChainOutcome::Failed(0)
    } else if spec_provider_detects(ps[0], app) {
        ChainOutcome::Selected(0)
    } else {
        match spec_chain(ps.skip(1), app) {
            ChainOutcome::Selected(i) => ChainOutcome::Selected(i + 1),
            ChainOutcome::Failed(i) => ChainOutcome::Failed(i + 1),
            ChainOutcome::NoneDetected => ChainOutcome::NoneDetected,
        }
    }
}

/// Skipping providers that neither detect nor fail shifts the chain's
/// outcome by their number.
pub proof fn lemma_chain_skip(ps: Seq<Provider>, app: App, i: int)
    requires
        0 <= i <= ps.len(),
        forall|j: int|
            0 <= j < i ==> !spec_provider_detects(ps[j], app) && !spec_provider_detect_errs(
                ps[j],
                app,
            ),
    ensures
        spec_chain(ps, app) == match spec_chain(ps.skip(i), app) {
            ChainOutcome::Selected(k) => ChainOutcome::Selected(k + i),
            ChainOutcome::Failed(k) => ChainOutcome::Failed(k + i),
            ChainOutcome::NoneDetected => ChainOutcome::NoneDetected,
        },
    decreases i,
{
    if i == 0 {
        assert(ps.skip(0) =~= ps);
    } else {
        let t = ps.skip(1);
        assert(forall|j: int|
            0 <= j < i - 1 ==> t[j] == ps[j + 1] && !spec_provider_detects(t[j], app)
                && !spec_provider_detect_errs(t[j], app));
        lemma_chain_skip(t, app, i - 1);
        assert(t.skip(i - 1) =~= ps.skip(i));
    }
}

/// Chain priority law: when a provider's detection predicate matches
/// and every provider registered before it neither detects nor fails
/// loudly, the chain selects exactly that provider — registration
/// order is the tie-break policy.
pub proof fn lemma_chain_priority(ps: Seq<Provider>, app: App, i: int)
    requires
        0 <= i < ps.len(),
        !spec_provider_detect_errs(ps[i], app),
        spec_provider_detects(ps[i], app),
        forall|j: int|
            0 <= j < i ==> !spec_provider_detects(ps[j], app) && !spec_provider_detect_errs(
                ps[j],
                app,
            ),
    ensures
        spec_chain(ps, app) == ChainOutcome::Selected(i),
{
    lemma_chain_skip(ps, app, i);
    assert(ps.skip(i)[0] == ps[i]);
}

/// Options steering plan generation; the base compiler defines none,
/// and the struct reserves the surface callers pass through.
#[derive(Clone, Debug, Default, PartialEq, Eq)]
pub struct GeneratePlanOptions {}

/// What generating a plan must yield for a registry, tree and
/// environment: the selected provider's plan, or the single structured
/// error the walk surfaced.
pub open spec fn spec_plan_outcome(
    ps: Seq<Provider>,
    app: App,
    env: Environment,
    r: Result<BuildPlan, NixpacksError>,
) -> bool {
    match spec_chain(ps, app) {
        ChainOutcome::NoneDetected => r matches Err(e) && e
            == NixpacksError::NoProviderDetected,
        ChainOutcome::Failed(i) => r matches Err(e) && spec_provider_detect_err_matches(
            ps[i],
            app,
            e,
        ),
        ChainOutcome::Selected(i) => if spec_provider_plan_errs(ps[i], app, env) {
            r matches Err(e) && spec_provider_plan_err_matches(ps[i], app, env, e)
        } else {
            r matches Ok(plan) && spec_provider_plan(ps[i], app, env, plan)
        },
    }
}

/// The plan generator: a registry walked in declared order plus the
/// caller's generation options.
pub struct NixpacksBuildPlanGenerator {
    pub providers: Vec<Provider>,
    pub options: GeneratePlanOptions,
}

impl NixpacksBuildPlanGenerator {
    /// A generator over the given registry.
    pub fn new(providers: Vec<Provider>, options: GeneratePlanOptions) -> (r:
        NixpacksBuildPlanGenerator)
        ensures
            r.providers == providers,
            r.options == options,
    {
        NixpacksBuildPlanGenerator { providers, options }
    }

    /// Runs the chain: the first provider that detects contributes the
    /// plan; a loud detection failure or a missing detection is
    /// surfaced as a single structured error, never a partial plan.
    pub fn generate_plan(&self, app: &App, env: &Environment) -> (r: Result<
        BuildPlan,
        NixpacksError,
    >)
        ensures
            spec_plan_outcome(self.providers@, *app, *env, r),
    {
        let ghost ps = self.providers@;
        let mut i: usize = 0;
        while i < self.providers.len()
            invariant
                0 <= i <= ps.len(),
                forall|j: int|
                    0 <= j < i ==> !spec_provider_detects(ps[j], *app)
                        && !spec_provider_detect_errs(ps[j], *app),
            decreases ps.len() - i,
        {
            match self.providers[i].detect(app, env) {
                Result::Err(e) => {
                    proof {
                        lemma_chain_skip(ps, *app, i as int);
                        assert(ps.skip(i as int)[0] == ps[i as int]);
                    }
                    return Result::Err(e);
                },
                Result::Ok(true) => {
                    proof {
                        lemma_chain_skip(ps, *app, i as int);
                        assert(ps.skip(i as int)[0] == ps[i as int]);
                    }
                    match self.providers[i].get_build_plan(app, env) {
                        Result::Ok(Option::Some(plan)) => {
                            return Result::Ok(plan);
                        },
                        Result::Ok(Option::None) => {
                            assert(false);
                            return Result::Err(NixpacksError::NoProviderDetected);
                        },
                        Result::Err(e) => {
                            return Result::Err(e);
                        },
                    }
                },
                Result::Ok(false) => {},
            }
            i = i + 1;
        }
        proof {
            lemma_chain_skip(ps, *app, ps.len() as int);
        }
        Result::Err(NixpacksError::NoProviderDetected)
    }
}

} // verus!
