//! Composite targets: the order in which their sub-targets are built, and
//! the run that stops at the first of them that fails.

use vstd::prelude::*;
use crate::backend::{
    clean_set_key, clean_set_key_for, generic_plan, mingw_plan, msvc_plan, prefer, preferred,
    text_of, BuildContext, BuildPlan, PlanModel,
};
use crate::error::NuMakeError;
use crate::plan::hash_pairs;
use crate::run::{law_fail_fast, pending, run, Progress, RunState};
use crate::target::{GenericTarget, MINGWTarget, MSVCTarget, Target, TargetSettings};
use crate::text::views;

verus! {

/// A target that has a toolchain of its own.
#[derive(Debug)]
pub enum Leaf<'a> {
    Generic(&'a GenericTarget),
    MSVC(&'a MSVCTarget),
    MinGW(&'a MINGWTarget),
}

/// The targets that the build of `t` builds, in order: `t` itself where it
/// has a toolchain, else those of its sub-targets, one sub-target after the
/// other.
pub open spec fn leaves(t: Target) -> Seq<Target>
    decreases t, 0nat,
{
    match t {
        Target::Custom(c) => leaves_in(c.sub_targets@, c.sub_targets@.len()),
        _ => seq![t],
    }
}

/// The targets that the builds of the first `n` of `ts` build, in order.
pub open spec fn leaves_in(ts: Seq<Target>, n: nat) -> Seq<Target>
    decreases ts, n,
{
    if n == 0 || n > ts.len() {
        Seq::empty()
    } else {
        leaves_in(ts, (n - 1) as nat) + leaves(ts[n - 1])
    }
}

/// None of the targets that a build builds is composite: a composite
/// target only delegates, however deep it is nested.
pub proof fn law_leaves_have_toolchains(t: Target)
    ensures
        forall|i: int| 0 <= i < leaves(t).len() ==> !((#[trigger] leaves(t)[i]) is Custom),
    decreases t, 0nat,
{
    match t {
        Target::Custom(c) => {
            lemma_leaves_in_have_toolchains(c.sub_targets@, c.sub_targets@.len());
        },
        _ => {},
    }
}

/// The same for the first `n` of a list of targets.
pub proof fn lemma_leaves_in_have_toolchains(ts: Seq<Target>, n: nat)
    ensures
        forall|i: int|
            0 <= i < leaves_in(ts, n).len() ==> !((#[trigger] leaves_in(ts, n)[i]) is Custom),
    decreases ts, n,
{
    if n > 0 && n <= ts.len() {
        lemma_leaves_in_have_toolchains(ts, (n - 1) as nat);
        law_leaves_have_toolchains(ts[n - 1]);
        let before = leaves_in(ts, (n - 1) as nat);
        let last = leaves(ts[n - 1]);
        assert forall|i: int| 0 <= i < leaves_in(ts, n).len() implies !((#[trigger] leaves_in(
            ts,
            n,
        )[i]) is Custom) by {
            if i < before.len() {
                assert(leaves_in(ts, n)[i] == before[i]);
            } else {
                assert(leaves_in(ts, n)[i] == last[i - before.len()]);
            }
        }
    }
}

impl<'a> Leaf<'a> {
    /// The leaf as a target.
    pub open spec fn target(self) -> Target {
        match self {
            Leaf::Generic(t) => Target::Generic(*t),
            Leaf::MSVC(t) => Target::MSVC(*t),
            Leaf::MinGW(t) => Target::MinGW(*t),
        }
    }
}

/// The leaves as targets, one by one.
pub open spec fn targets_of(ls: Seq<Leaf<'_>>) -> Seq<Target> {
    Seq::new(ls.len(), |i: int| ls[i].target())
}

/// The plan of a target with a toolchain of its own.
pub open spec fn leaf_plan(
    t: Target,
    ctx: &BuildContext,
    hashes: Seq<(Seq<char>, Seq<char>)>,
    clean: Seq<Seq<char>>,
) -> Result<PlanModel, NuMakeError>
    recommends
        !(t is Custom),
{
    match t {
        Target::Generic(g) => generic_plan(&g, ctx, hashes, clean),
        Target::MinGW(m) => mingw_plan(&m, ctx, hashes, clean),
        Target::MSVC(m) => msvc_plan(&m, ctx),
        Target::Custom(_) => Err(NuMakeError::TargetNotFound),
    }
}

/// The key of the clean-set that the build of a target reads and stores:
/// that of its compiler and its name for a generic target with a compiler,
/// that of the cross toolchain and its name for a target of the cross
/// toolchain, none for the others.
pub open spec fn clean_set_of(t: Target, ctx: &BuildContext) -> Option<Seq<char>> {
    match t {
        Target::Generic(g) => match preferred(
            text_of(ctx.toolset_compiler),
            text_of(g.toolset_compiler),
        ) {
            Some(compiler) => Some(clean_set_key(compiler, g.settings.name@)),
            None => None,
        },
        Target::MinGW(m) => Some(clean_set_key("mingw"@, m.settings.name@)),
        _ => None,
    }
}

impl<'a> Leaf<'a> {
    /// The settings of the leaf.
    pub fn settings(&self) -> (s: &TargetSettings)
        ensures
            *s == match *self {
                Leaf::Generic(t) => t.settings,
                Leaf::MSVC(t) => t.settings,
                Leaf::MinGW(t) => t.settings,
            },
    {
        match self {
            Leaf::Generic(t) => &t.settings,
            Leaf::MSVC(t) => &t.settings,
            Leaf::MinGW(t) => &t.settings,
        }
    }

    /// The key of the clean-set that the build of the leaf reads and stores.
    pub fn clean_set_name(&self, ctx: &BuildContext) -> (r: Option<String>)
        ensures
            match r {
                Some(key) => clean_set_of(self.target(), ctx) == Some(key@),
                None => clean_set_of(self.target(), ctx) is None,
            },
    {
        match self {
            Leaf::Generic(t) => match prefer(&ctx.toolset_compiler, &t.toolset_compiler) {
                Some(compiler) => Some(
                    clean_set_key_for(compiler.as_str(), t.settings.name.as_str()),
                ),
                None => None,
            },
            Leaf::MinGW(t) => Some(clean_set_key_for("mingw", t.settings.name.as_str())),
            Leaf::MSVC(_) => None,
        }
    }

    /// Lays out the build of the leaf, by its backend.
    pub fn build(
        &self,
        ctx: &BuildContext,
        hashes: &Vec<(String, String)>,
        clean: &Vec<String>,
    ) -> (r: Result<BuildPlan, NuMakeError>)
        ensures
            match r {
                Ok(plan) => leaf_plan(self.target(), ctx, hash_pairs(hashes@), views(clean@))
                    == Ok::<PlanModel, NuMakeError>(plan@),
                Err(e) => leaf_plan(self.target(), ctx, hash_pairs(hashes@), views(clean@))
                    == Err::<PlanModel, NuMakeError>(e),
            },
    {
        match self {
            Leaf::Generic(t) => t.build(ctx, hashes, clean),
            Leaf::MinGW(t) => t.build(ctx, hashes, clean),
            Leaf::MSVC(t) => t.build(ctx),
        }
    }
}

/// Puts the leaves of `t` at the end of `out`.
fn collect_leaves<'a>(t: &'a Target, out: &mut Vec<Leaf<'a>>)
    ensures
        targets_of(final(out)@) == targets_of(old(out)@) + leaves(*t),
    decreases *t,
{
    match t {
        Target::Generic(g) => {
            out.push(Leaf::Generic(g));
            assert(targets_of(out@) =~= targets_of(old(out)@) + leaves(*t));
        },
        Target::MSVC(m) => {
            out.push(Leaf::MSVC(m));
            assert(targets_of(out@) =~= targets_of(old(out)@) + leaves(*t));
        },
        Target::MinGW(m) => {
            out.push(Leaf::MinGW(m));
            assert(targets_of(out@) =~= targets_of(old(out)@) + leaves(*t));
        },
        Target::Custom(c) => {
            let mut i: usize = 0;
            assert(targets_of(out@) =~= targets_of(old(out)@) + leaves_in(c.sub_targets@, 0));
            while i < c.sub_targets.len()
                invariant
                    i <= c.sub_targets.len(),
                    *t == Target::Custom(*c),
                    targets_of(out@) == targets_of(old(out)@) + leaves_in(
                        c.sub_targets@,
                        i as nat,
                    ),
                decreases c.sub_targets.len() - i,
            {
                proof {
                    assert(decreases_to!(*t => t->Custom_0));
                    assert(decreases_to!(t->Custom_0 => t->Custom_0.sub_targets));
                    assert(decreases_to!(t->Custom_0.sub_targets => t->Custom_0.sub_targets@));
                    assert(decreases_to!(t->Custom_0.sub_targets@ => t->Custom_0.sub_targets@[i as int]));
                }
                collect_leaves(&c.sub_targets[i], out);
                assert(targets_of(out@) =~= targets_of(old(out)@) + leaves_in(
                    c.sub_targets@,
                    (i + 1) as nat,
                ));
                i += 1;
            }
        },
    }
}

impl Target {
    /// The targets with a toolchain that the build of this target builds,
    /// in the order in which it builds them.
    pub fn build_order(&self) -> (order: Vec<Leaf<'_>>)
        ensures
            targets_of(order@) == leaves(*self),
    {
        let mut order: Vec<Leaf<'_>> = Vec::new();
        assert(targets_of(order@) =~= Seq::<Target>::empty());
        collect_leaves(self, &mut order);
        assert(targets_of(order@) =~= leaves(*self));
        order
    }
}

/// No sub-target is refused before it is built.
pub open spec fn open_steps(n: nat) -> Seq<bool> {
    Seq::new(n, |i: int| false)
}

/// The build of a composite target in progress: which of its leaves is
/// being built, and whether one has failed.
#[derive(Debug)]
pub struct Delegation {
    progress: Progress,
}

impl Delegation {
    /// The number of leaves.
    pub closed spec fn total(&self) -> nat {
        self.progress.blocked().len()
    }

    /// Where the delegation stands.
    pub closed spec fn state(&self) -> RunState {
        self.progress.state()
    }

    /// The progress is one over open steps.
    pub closed spec fn wf(&self) -> bool {
        &&& self.progress.wf()
        &&& self.progress.blocked() == open_steps(self.progress.blocked().len())
    }

    /// A delegation about to build the first of `total` leaves.
    pub fn new(total: usize) -> (d: Delegation)
        ensures
            d.wf(),
            d.total() == total,
            d.state() == (RunState { position: 0, failed: false }),
    {
        let mut blocked: Vec<bool> = Vec::new();
        let mut i: usize = 0;
        while i < total
            invariant
                i <= total,
                blocked@ == open_steps(i as nat),
            decreases total - i,
        {
            blocked.push(false);
            assert(blocked@ =~= open_steps((i + 1) as nat));
            i += 1;
        }
        Delegation { progress: Progress::new(blocked) }
    }

    /// The leaf to build now; none once a leaf has failed or all are built.
    pub fn current(&self) -> (r: Option<usize>)
        requires
            self.wf(),
        ensures
            match r {
                Some(i) => pending(open_steps(self.total()), self.state()) == Some(i as nat),
                None => pending(open_steps(self.total()), self.state()) is None,
            },
    {
        self.progress.current()
    }

    /// Takes the report on the build of the leaf at hand.
    pub fn report(&mut self, success: bool)
        requires
            old(self).wf(),
        ensures
            final(self).wf(),
            final(self).total() == old(self).total(),
            final(self).state() == crate::run::step(
                open_steps(old(self).total()),
                old(self).state(),
                success,
            ),
    {
        self.progress.report(success);
    }

    /// Whether a leaf has failed.
    pub fn has_failed(&self) -> (r: bool)
        ensures
            r == self.state().failed,
    {
        self.progress.has_failed()
    }

    /// Whether every leaf has been built.
    pub fn is_done(&self) -> (r: bool)
        ensures
            r == (!self.state().failed && self.state().position >= self.total()),
    {
        self.progress.is_done()
    }
}

/// A composite target whose sub-target number `j` fails, after the ones
/// before it have succeeded, builds no sub-target after it: the delegation
/// stays at `j`, failed, and hands out nothing more.
pub proof fn law_composite_stops_at_first_failure(t: Target, outcomes: Seq<bool>, j: int)
    requires
        0 <= j < outcomes.len(),
        j < leaves(t).len(),
        forall|i: int| 0 <= i < j ==> outcomes[i],
        !outcomes[j],
    ensures
        run(open_steps(leaves(t).len()), outcomes) == (RunState {
            position: j as nat,
            failed: true,
        }),
        pending(open_steps(leaves(t).len()), run(open_steps(leaves(t).len()), outcomes)) is None,
{
    law_fail_fast(open_steps(leaves(t).len()), outcomes, j);
}

} // verus!
