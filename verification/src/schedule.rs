//! Where the two passes run: in which of the host's stages, and on which
//! side of the host's own propagation of global transforms.

use vstd::prelude::*;

verus! {

/// The host stages in which the passes run.
#[derive(Clone, Copy, Debug, PartialEq, Eq, Structural)]
pub enum Stage {
    /// Once, after the application's startup code and before the first
    /// frame.
    PostStartup,
    /// Every frame, after the application's update code.
    PostUpdate,
}

/// The two passes.
#[derive(Clone, Copy, Debug, PartialEq, Eq, Structural)]
pub enum Pass {
    /// Changed poses into the host's local transforms.
    LocalSync,
    /// Changed global transforms of the host into global poses.
    GlobalSync,
}

/// The side of the host's propagation on which a pass runs.
#[derive(Clone, Copy, Debug, PartialEq, Eq, Structural)]
pub enum Anchor {
    BeforePropagate,
    AfterPropagate,
}

/// One thing that happens in a stage.
#[derive(Clone, Copy, Debug, PartialEq, Eq, Structural)]
pub enum Step {
    LocalSync,
    HostPropagate,
    GlobalSync,
}

/// One pass, placed in a stage on one side of the host's propagation.
#[derive(Clone, Copy, Debug, PartialEq, Eq, Structural)]
pub struct Registration {
    pub stage: Stage,
    pub pass: Pass,
    pub anchor: Anchor,
}

impl Pass {
    pub open spec fn spec_step(self) -> Step {
        match self {
            Pass::LocalSync => Step::LocalSync,
            Pass::GlobalSync => Step::GlobalSync,
        }
    }

    /// The step that runs this pass.
    #[verifier::when_used_as_spec(spec_step)]
    pub fn step(self) -> (s: Step)
        ensures
            s == self.spec_step(),
    {
        match self {
            Pass::LocalSync => Step::LocalSync,
            Pass::GlobalSync => Step::GlobalSync,
        }
    }
}

/// Installs the two passes around the host's propagation.
#[derive(Clone, Copy, Debug)]
pub struct Transform2Plugin;

impl Transform2Plugin {
    /// The four registrations: in each of the two stages the local pass
    /// before the host's propagation and the global pass after it.
    pub open spec fn plan() -> Seq<Registration> {
        seq![
            Registration {
                stage: Stage::PostStartup,
                pass: Pass::LocalSync,
                anchor: Anchor::BeforePropagate,
            },
            Registration {
                stage: Stage::PostStartup,
                pass: Pass::GlobalSync,
                anchor: Anchor::AfterPropagate,
            },
            Registration {
                stage: Stage::PostUpdate,
                pass: Pass::LocalSync,
                anchor: Anchor::BeforePropagate,
            },
            Registration {
                stage: Stage::PostUpdate,
                pass: Pass::GlobalSync,
                anchor: Anchor::AfterPropagate,
            },
        ]
    }

    /// What the host has to register, in this order.
    pub fn build(&self) -> (plan: Vec<Registration>)
        ensures
            plan@ == Transform2Plugin::plan(),
    {
        let mut plan: Vec<Registration> = Vec::new();
        plan.push(
            Registration {
                stage: Stage::PostStartup,
                pass: Pass::LocalSync,
                anchor: Anchor::BeforePropagate,
            },
        );
        plan.push(
            Registration {
                stage: Stage::PostStartup,
                pass: Pass::GlobalSync,
                anchor: Anchor::AfterPropagate,
            },
        );
        plan.push(
            Registration {
                stage: Stage::PostUpdate,
                pass: Pass::LocalSync,
                anchor: Anchor::BeforePropagate,
            },
        );
        plan.push(
            Registration {
                stage: Stage::PostUpdate,
                pass: Pass::GlobalSync,
                anchor: Anchor::AfterPropagate,
            },
        );
        assert(plan@ =~= Transform2Plugin::plan());
        plan
    }
}

/// The passes that `plan` places in `stage` on the side `anchor`, in the
/// order of their registration.
pub open spec fn steps_at(plan: Seq<Registration>, stage: Stage, anchor: Anchor) -> Seq<Step>
    decreases plan.len(),
{
    if plan.len() == 0 {
        Seq::empty()
    } else {
        let earlier = steps_at(plan.drop_last(), stage, anchor);
        if plan.last().stage == stage && plan.last().anchor == anchor {
            earlier.push(plan.last().pass.step())
        } else {
            earlier
        }
    }
}

/// Everything that happens in `stage`: the passes placed before the host's
/// propagation, the propagation itself, the passes placed after it.
pub open spec fn stage_steps(plan: Seq<Registration>, stage: Stage) -> Seq<Step> {
    steps_at(plan, stage, Anchor::BeforePropagate).push(Step::HostPropagate) + steps_at(
        plan,
        stage,
        Anchor::AfterPropagate,
    )
}

/// Appends to `steps` the passes that `plan` places in `stage` on the side
/// `anchor`.
fn push_steps_at(steps: &mut Vec<Step>, plan: &Vec<Registration>, stage: Stage, anchor: Anchor)
    ensures
        final(steps)@ == old(steps)@ + steps_at(plan@, stage, anchor),
{
    let ghost before = steps@;
    let mut i: usize = 0;
    while i < plan.len()
        invariant
            i <= plan.len(),
            steps@ == before + steps_at(plan@.subrange(0, i as int), stage, anchor),
        decreases plan.len() - i,
    {
        let entry: Registration = plan[i];
        proof {
            assert(plan@.subrange(0, i + 1).drop_last() =~= plan@.subrange(0, i as int));
            let earlier = steps_at(plan@.subrange(0, i as int), stage, anchor);
            assert((before + earlier).push(entry.pass.step()) =~= before + earlier.push(
                entry.pass.step(),
            ));
        }
        if entry.stage == stage && entry.anchor == anchor {
            steps.push(entry.pass.step());
        }
        i = i + 1;
    }
    assert(plan@.subrange(0, i as int) =~= plan@);
}

/// The order in which the host runs `stage` under `plan`.
pub fn stage_order(plan: &Vec<Registration>, stage: Stage) -> (steps: Vec<Step>)
    ensures
        steps@ == stage_steps(plan@, stage),
{
    let mut steps: Vec<Step> = Vec::new();
    push_steps_at(&mut steps, plan, stage, Anchor::BeforePropagate);
    steps.push(Step::HostPropagate);
    push_steps_at(&mut steps, plan, stage, Anchor::AfterPropagate);
    assert(steps@ =~= stage_steps(plan@, stage));
    steps
}

/// Under the plugin's plan each of the two stages runs the local pass, then
/// the host's propagation, then the global pass, and nothing else.
pub proof fn lemma_plan_order(stage: Stage)
    ensures
        stage_steps(Transform2Plugin::plan(), stage) == seq![
            Step::LocalSync,
            Step::HostPropagate,
            Step::GlobalSync,
        ],
{
    let p4 = Transform2Plugin::plan();
    let p3 = p4.drop_last();
    let p2 = p3.drop_last();
    let p1 = p2.drop_last();
    let p0 = p1.drop_last();
    assert(p0.len() == 0);
    let before = Anchor::BeforePropagate;
    let after = Anchor::AfterPropagate;
    assert(steps_at(p0, stage, before) =~= Seq::empty());
    assert(steps_at(p0, stage, after) =~= Seq::empty());
    assert(steps_at(p1, stage, after) =~= Seq::empty());
    assert(steps_at(p2, stage, before) == steps_at(p1, stage, before));
    assert(steps_at(p3, stage, after) == steps_at(p2, stage, after));
    assert(steps_at(p4, stage, before) == steps_at(p3, stage, before));
    match stage {
        Stage::PostStartup => {
            assert(steps_at(p1, stage, before) =~= seq![Step::LocalSync]);
            assert(steps_at(p2, stage, after) =~= seq![Step::GlobalSync]);
            assert(steps_at(p3, stage, before) =~= seq![Step::LocalSync]);
            assert(steps_at(p4, stage, after) =~= seq![Step::GlobalSync]);
        },
        Stage::PostUpdate => {
            assert(steps_at(p1, stage, before) =~= Seq::empty());
            assert(steps_at(p2, stage, after) =~= Seq::empty());
            assert(steps_at(p3, stage, before) =~= seq![Step::LocalSync]);
            assert(steps_at(p4, stage, after) =~= seq![Step::GlobalSync]);
        },
    }
    assert(stage_steps(p4, stage) =~= seq![Step::LocalSync, Step::HostPropagate, Step::GlobalSync]);
}

} // verus!
