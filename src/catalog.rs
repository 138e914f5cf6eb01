//! The ordered catalog of scenarios, each with the platforms it needs, and
//! the plan of steps that a run on one platform carries out.
use vstd::prelude::*;
use crate::platform::{applies_spec, Platform, Requirement};

verus! {

/// One scenario of the catalog.
#[derive(Clone, Copy, Debug, PartialEq, Eq, Structural)]
pub enum Scenario {
    Tools,
    PantsBinNameHandling,
    PantsBootstrapHandling,
    ToolsPexReproducibility,
    PantsBootstrapTools,
    PantsShas,
    PythonReposRepos,
    InitializeNewPantsProject,
    SetPantsVersion,
    UseInRepoWithPantsScript,
    DotEnvLoading,
    PantsSourceMode,
    PantsFromSourcesMode,
    DelegatePantsInPantsRepo,
    UsePantsReleaseInPantsRepo,
    CachingIssue129,
    CustomPantsTomlIssue153,
    PantsNativeClientPermsIssue182,
    Python38UsedForOldPants,
    SelfUpdate,
    SelfDowngrade,
}

/// One step of a run: a scenario, or the one process-wide toggle that turns
/// the build tool's daemon off for every later scenario.
#[derive(Clone, Copy, Debug, PartialEq, Eq, Structural)]
pub enum Step {
    Run(Scenario),
    DisableDaemon,
}

/// The platforms a step needs.
pub open spec fn requirement_of(s: Step) -> Requirement {
    match s {
        Step::DisableDaemon => Requirement::LinuxX86_64Only,
        Step::Run(Scenario::Python38UsedForOldPants) => Requirement::LegacyWheels,
        Step::Run(Scenario::SelfUpdate) => Requirement::Any,
        Step::Run(Scenario::SelfDowngrade) => Requirement::Any,
        Step::Run(_) => Requirement::ModernWheels,
    }
}

/// Every step, in the order a run takes them.
pub open spec fn catalog_spec() -> Seq<Step> {
    seq![
        Step::Run(Scenario::Tools),
        Step::Run(Scenario::PantsBinNameHandling),
        Step::Run(Scenario::PantsBootstrapHandling),
        Step::Run(Scenario::ToolsPexReproducibility),
        Step::Run(Scenario::PantsBootstrapTools),
        Step::DisableDaemon,
        Step::Run(Scenario::PantsShas),
        Step::Run(Scenario::PythonReposRepos),
        Step::Run(Scenario::InitializeNewPantsProject),
        Step::Run(Scenario::SetPantsVersion),
        Step::Run(Scenario::UseInRepoWithPantsScript),
        Step::Run(Scenario::DotEnvLoading),
        Step::Run(Scenario::PantsSourceMode),
        Step::Run(Scenario::PantsFromSourcesMode),
        Step::Run(Scenario::DelegatePantsInPantsRepo),
        Step::Run(Scenario::UsePantsReleaseInPantsRepo),
        Step::Run(Scenario::CachingIssue129),
        Step::Run(Scenario::CustomPantsTomlIssue153),
        Step::Run(Scenario::PantsNativeClientPermsIssue182),
        Step::Run(Scenario::Python38UsedForOldPants),
        Step::Run(Scenario::SelfUpdate),
        Step::Run(Scenario::SelfDowngrade),
    ]
}

/// The steps of `steps` that apply on `p`, in their order.
pub open spec fn applicable(steps: Seq<Step>, p: Platform) -> Seq<Step>
    decreases steps.len(),
{
    if steps.len() == 0 {
        Seq::empty()
    } else {
        let rest = applicable(steps.drop_last(), p);
        if applies_spec(requirement_of(steps.last()), p) {
            rest.push(steps.last())
        } else {
            rest
        }
    }
}

impl Step {
    /// The platforms this step needs.
    pub fn requirement(&self) -> (r: Requirement)
        ensures
            r == requirement_of(*self),
    {
        match self {
            Step::DisableDaemon => Requirement::LinuxX86_64Only,
            Step::Run(Scenario::Python38UsedForOldPants) => Requirement::LegacyWheels,
            Step::Run(Scenario::SelfUpdate) => Requirement::Any,
            Step::Run(Scenario::SelfDowngrade) => Requirement::Any,
            Step::Run(_) => Requirement::ModernWheels,
        }
    }
}

/// Every step, in the order a run takes them.
pub fn catalog() -> (r: Vec<Step>)
    ensures
        r@ == catalog_spec(),
{
    let mut v: Vec<Step> = Vec::new();
    v.push(Step::Run(Scenario::Tools));
    v.push(Step::Run(Scenario::PantsBinNameHandling));
    v.push(Step::Run(Scenario::PantsBootstrapHandling));
    v.push(Step::Run(Scenario::ToolsPexReproducibility));
    v.push(Step::Run(Scenario::PantsBootstrapTools));
    v.push(Step::DisableDaemon);
    v.push(Step::Run(Scenario::PantsShas));
    v.push(Step::Run(Scenario::PythonReposRepos));
    v.push(Step::Run(Scenario::InitializeNewPantsProject));
    v.push(Step::Run(Scenario::SetPantsVersion));
    v.push(Step::Run(Scenario::UseInRepoWithPantsScript));
    v.push(Step::Run(Scenario::DotEnvLoading));
    v.push(Step::Run(Scenario::PantsSourceMode));
    v.push(Step::Run(Scenario::PantsFromSourcesMode));
    v.push(Step::Run(Scenario::DelegatePantsInPantsRepo));
    v.push(Step::Run(Scenario::UsePantsReleaseInPantsRepo));
    v.push(Step::Run(Scenario::CachingIssue129));
    v.push(Step::Run(Scenario::CustomPantsTomlIssue153));
    v.push(Step::Run(Scenario::PantsNativeClientPermsIssue182));
    v.push(Step::Run(Scenario::Python38UsedForOldPants));
    v.push(Step::Run(Scenario::SelfUpdate));
    v.push(Step::Run(Scenario::SelfDowngrade));
    assert(v@ =~= catalog_spec());
    v
}

/// The steps that run on `p`: the catalog's order, keeping exactly those
/// whose requirement `p` meets.
pub fn plan(p: Platform) -> (r: Vec<Step>)
    ensures
        r@ == applicable(catalog_spec(), p),
{
    let all = catalog();
    let mut out: Vec<Step> = Vec::new();
    let mut i: usize = 0;
    while i < all.len()
        invariant
            i <= all@.len(),
            all@ == catalog_spec(),
            out@ == applicable(all@.take(i as int), p),
        decreases all@.len() - i,
    {
        assert(all@.take(i + 1).drop_last() =~= all@.take(i as int));
        let s = all[i];
        if s.requirement().applies(p) {
            out.push(s);
        }
        i = i + 1;
    }
    assert(all@.take(i as int) =~= all@);
    out
}

/// A step is among the applicable ones exactly when it is among the given
/// steps and its requirement holds on the platform.
pub proof fn lemma_applicable_membership(steps: Seq<Step>, p: Platform, s: Step)
    ensures
        applicable(steps, p).contains(s) <==> steps.contains(s) && applies_spec(
            requirement_of(s),
            p,
        ),
    decreases steps.len(),
{
    if steps.len() > 0 {
        let front = steps.drop_last();
        lemma_applicable_membership(front, p, s);
        assert(steps =~= front.push(steps.last()));
        if steps.contains(s) && s != steps.last() {
            let k = choose|k: int| 0 <= k < steps.len() && steps[k] == s;
            assert(front[k] == s);
        }
        if front.contains(s) {
            let k = choose|k: int| 0 <= k < front.len() && front[k] == s;
            assert(steps[k] == s);
        }
        let rest = applicable(front, p);
        if applies_spec(requirement_of(steps.last()), p) {
            assert(rest.push(steps.last())[rest.len() as int] == steps.last());
            if rest.contains(s) {
                let k = choose|k: int| 0 <= k < rest.len() && rest[k] == s;
                assert(rest.push(steps.last())[k] == s);
            }
            if rest.push(steps.last()).contains(s) && s != steps.last() {
                let k = choose|k: int|
                    0 <= k < rest.len() + 1 && #[trigger] rest.push(steps.last())[k] == s;
                assert(rest[k] == s);
            }
        }
        assert(steps[steps.len() - 1] == steps.last());
    }
}

/// A run on platform `p` carries out a step of the catalog if and only if the
/// step's platform requirement holds for `p`.
pub proof fn lemma_plan_runs_exactly_applicable(p: Platform, s: Step)
    requires
        catalog_spec().contains(s),
    ensures
        applicable(catalog_spec(), p).contains(s) <==> applies_spec(requirement_of(s), p),
{
    lemma_applicable_membership(catalog_spec(), p, s);
}

/// Whether the old-interpreter scenario must also turn the daemon off on its
/// command line: on macOS x86_64 alone.
pub fn legacy_run_disables_daemon(p: Platform) -> (r: bool)
    ensures
        r == (p == Platform::MacOSX86_64),
{
    match p {
        Platform::MacOSX86_64 => true,
        _ => false,
    }
}

} // verus!
