//! Making a node: the script that says which scalars are made for it and which
//! parameters are set, and the steps that carry a script out.
//!
//! Scalars, kernels and nodes are made by the host.  A [`Builder`] says what the
//! host is to do next and is told what came of it.
use vstd::prelude::*;
use crate::kernels::Kernel;
use crate::scalar::to_bits32;
use crate::types::{VX_SUCCESS, VX_TYPE_ENUM, VX_TYPE_SIZE, vx_enum, vx_status};

verus! {

/// The value of a scalar that is made for a node.
#[derive(Debug, Clone, Copy, PartialEq, Eq, Structural)]
pub struct Seed {
    pub data_type: vx_enum,
    /// How many bytes the value takes.
    pub size: usize,
    /// The value; its low bytes come first.
    pub bits: u64,
    /// Whether the scalar stays when the node is made.
    pub kept: bool,
}

/// Where the value of a parameter comes from.
#[derive(Debug, Clone, Copy, PartialEq, Eq, Structural)]
pub enum Source {
    /// A reference of the caller.
    Given(u64),
    /// A scalar made for the node, by its position among them.
    Made(usize),
}

/// One step of a script.
#[derive(Debug, Clone, Copy, PartialEq, Eq, Structural)]
pub enum Step {
    /// A scalar is made.
    Make(Seed),
    /// Give up where one of the last so many scalars is missing.
    Gate(usize),
    /// The kernel is looked up and the node is made.
    Build,
    /// A parameter is set; give up where that fails.
    Fill(u32, Source),
    /// A parameter is set, whatever comes of it; a missing scalar is passed over.
    Try(u32, Source),
    /// A scalar is released.
    Drop(usize),
    /// Give up.
    GiveUp,
}

/// How a node is made.
pub struct NodePlan {
    /// The name of its kernel.
    pub kernel: String,
    pub steps: Vec<Step>,
    /// Whether the kernel is released in the end.
    pub releases_kernel: bool,
}

/// The mathematical value of [`NodePlan`].
#[verifier::ext_equal]
pub struct ScriptSpec {
    pub kernel: Seq<char>,
    pub steps: Seq<Step>,
    pub releases_kernel: bool,
}

impl View for NodePlan {
    type V = ScriptSpec;

    open spec fn view(&self) -> ScriptSpec {
        ScriptSpec {
            kernel: self.kernel@,
            steps: self.steps@,
            releases_kernel: self.releases_kernel,
        }
    }
}

/// What a constructor answers, by value: no plan where it refuses its arguments.
pub open spec fn plan_value(plan: Option<NodePlan>) -> Option<ScriptSpec> {
    match plan {
        Some(p) => Some(p@),
        None => None,
    }
}

/// An enumeration as a scalar.
pub open spec fn enum_seed(v: vx_enum) -> Seed {
    Seed { data_type: VX_TYPE_ENUM, size: 4, bits: crate::scalar::bits32(v) as u64, kept: false }
}

/// A number of four bytes as a scalar of a type.
pub open spec fn word_seed(data_type: vx_enum, bits: u32) -> Seed {
    Seed { data_type, size: 4, bits: bits as u64, kept: false }
}

/// A size as a scalar.
pub open spec fn size_seed(v: usize) -> Seed {
    Seed { data_type: VX_TYPE_SIZE, size: 8, bits: v as u64, kept: false }
}

/// Makes an enumeration a scalar.
pub fn seed_enum(v: vx_enum) -> (r: Seed)
    ensures
        r == enum_seed(v),
{
    Seed { data_type: VX_TYPE_ENUM, size: 4, bits: to_bits32(v) as u64, kept: false }
}

/// Makes a number of four bytes a scalar of a type.
pub fn seed_word(data_type: vx_enum, bits: u32) -> (r: Seed)
    ensures
        r == word_seed(data_type, bits),
{
    Seed { data_type, size: 4, bits: bits as u64, kept: false }
}

/// Makes a size a scalar.
pub fn seed_size(v: usize) -> (r: Seed)
    ensures
        r == size_seed(v),
{
    Seed { data_type: VX_TYPE_SIZE, size: 8, bits: v as u64, kept: false }
}

/// One step for each scalar.
pub open spec fn makes(seeds: Seq<Seed>) -> Seq<Step> {
    seeds.map_values(|s: Seed| Step::Make(s))
}

/// One step for each parameter, by position.
pub open spec fn sets(slots: Seq<Source>) -> Seq<Step> {
    Seq::new(slots.len(), |i: int| Step::Fill(i as u32, slots[i]))
}

/// The slots of references of the caller.
pub open spec fn given(refs: Seq<u64>) -> Seq<Source> {
    refs.map_values(|r: u64| Source::Given(r))
}

/// A node whose parameters are all set, one after the other.
pub open spec fn plain_plan(kernel: Seq<char>, refs: Seq<u64>) -> ScriptSpec {
    ScriptSpec {
        kernel,
        steps: seq![Step::Build] + sets(given(refs)),
        releases_kernel: false,
    }
}

/// A node for which scalars are made first, all of which are needed.
pub open spec fn seeded_plan(kernel: Seq<char>, seeds: Seq<Seed>, slots: Seq<Source>) -> ScriptSpec {
    ScriptSpec {
        kernel,
        steps: makes(seeds) + seq![Step::Gate(seeds.len() as usize), Step::Build] + sets(slots),
        releases_kernel: false,
    }
}

/// One step for each reference that is there, and for the first `needed` whether
/// they are there or not.
pub open spec fn present(refs: Seq<u64>, needed: nat) -> Seq<Step>
    decreases refs.len(),
{
    if refs.len() == 0 {
        Seq::empty()
    } else {
        let i = refs.len() - 1;
        let before = present(refs.drop_last(), needed);
        if i < needed || refs.last() != 0 {
            before.push(Step::Fill(i as u32, Source::Given(refs.last())))
        } else {
            before
        }
    }
}

/// A node of which only the first `needed` parameters are set where they are
/// null.
pub open spec fn sparse_plan(kernel: Seq<char>, refs: Seq<u64>, needed: nat) -> ScriptSpec {
    ScriptSpec {
        kernel,
        steps: seq![Step::Build] + present(refs, needed),
        releases_kernel: false,
    }
}

/// Writes the script of a node whose parameters are all set.
pub fn create_node_with_params(kernel_name: &str, params: &Vec<u64>) -> (r: NodePlan)
    requires
        params@.len() <= u32::MAX,
    ensures
        r@ == plain_plan(kernel_name@, params@),
{
    let mut steps: Vec<Step> = Vec::new();
    steps.push(Step::Build);
    for i in 0..params.len()
        invariant
            params@.len() <= u32::MAX,
            steps@ == seq![Step::Build] + sets(given(params@.take(i as int))),
    {
        steps.push(Step::Fill(i as u32, Source::Given(params[i])));
        assert(steps@ =~= seq![Step::Build] + sets(given(params@.take(i + 1))));
    }
    assert(params@.take(params@.len() as int) =~= params@);
    NodePlan { kernel: kernel_name.to_owned(), steps, releases_kernel: false }
}

/// Writes the script of a node for which scalars are made first.
pub fn plan_with_scalars(kernel_name: &str, seeds: &Vec<Seed>, slots: &Vec<Source>) -> (r: NodePlan)
    requires
        slots@.len() <= u32::MAX,
    ensures
        r@ == seeded_plan(kernel_name@, seeds@, slots@),
{
    let mut steps: Vec<Step> = Vec::new();
    assert(steps@ =~= makes(seeds@.take(0)));
    for i in 0..seeds.len()
        invariant
            steps@ == makes(seeds@.take(i as int)),
    {
        steps.push(Step::Make(seeds[i]));
        assert(steps@ =~= makes(seeds@.take(i + 1)));
    }
    assert(seeds@.take(seeds@.len() as int) =~= seeds@);
    steps.push(Step::Gate(seeds.len()));
    steps.push(Step::Build);
    let ghost head = makes(seeds@) + seq![Step::Gate(seeds@.len() as usize), Step::Build];
    assert(steps@ =~= head + sets(slots@.take(0)));
    for i in 0..slots.len()
        invariant
            slots@.len() <= u32::MAX,
            steps@ == head + sets(slots@.take(i as int)),
    {
        steps.push(Step::Fill(i as u32, slots[i]));
        assert(steps@ =~= head + sets(slots@.take(i + 1)));
    }
    assert(slots@.take(slots@.len() as int) =~= slots@);
    NodePlan { kernel: kernel_name.to_owned(), steps, releases_kernel: false }
}

/// Appends a step for each reference that is there, and for the first `needed`.
pub fn push_present(steps: &mut Vec<Step>, refs: &Vec<u64>, needed: usize)
    requires
        refs@.len() <= u32::MAX,
    ensures
        final(steps)@ == old(steps)@ + present(refs@, needed as nat),
{
    assert(steps@ =~= old(steps)@ + present(refs@.take(0), needed as nat));
    for i in 0..refs.len()
        invariant
            refs@.len() <= u32::MAX,
            steps@ == old(steps)@ + present(refs@.take(i as int), needed as nat),
    {
        proof {
            assert(refs@.take(i + 1).drop_last() =~= refs@.take(i as int));
            assert(refs@.take(i + 1).last() == refs@[i as int]);
        }
        if i < needed || refs[i] != 0 {
            steps.push(Step::Fill(i as u32, Source::Given(refs[i])));
        }
        assert(steps@ =~= old(steps)@ + present(refs@.take(i + 1), needed as nat));
    }
    assert(refs@.take(refs@.len() as int) =~= refs@);
}

/// Writes the script of a node with optional parameters.
pub fn plan_with_options(kernel_name: &str, refs: &Vec<u64>, needed: usize) -> (r: NodePlan)
    requires
        refs@.len() <= u32::MAX,
    ensures
        r@ == sparse_plan(kernel_name@, refs@, needed as nat),
{
    let mut steps: Vec<Step> = Vec::new();
    steps.push(Step::Build);
    push_present(&mut steps, refs, needed);
    assert(steps@ =~= seq![Step::Build] + present(refs@, needed as nat));
    NodePlan { kernel: kernel_name.to_owned(), steps, releases_kernel: false }
}

/// What the host is doing for a builder.
#[derive(Debug, Clone, Copy, PartialEq, Eq, Structural)]
pub enum Awaited {
    /// Nothing was asked for yet.
    Start,
    /// The context of the graph.
    Context,
    /// A scalar.
    Scalar,
    /// The kernel.
    Kernel,
    /// The node.
    Node,
    /// A parameter is set and must be.
    Parameter,
    /// A parameter is set, or a scalar is released, whatever comes of it.
    Passing,
    /// Something is released at the end.
    Sweep,
    /// Everything is done.
    Done,
}

/// What the host is to do next.
#[derive(Debug, Clone, Copy, PartialEq, Eq, Structural)]
pub enum BuildAction {
    /// Answer the context of a graph.
    GetContext(u64),
    /// Make a scalar in a context.
    MakeScalar(u64, Seed),
    /// Look the kernel of the plan up in a context.
    GetKernel(u64),
    /// Make a node of a graph with a kernel.
    MakeNode(u64, u64),
    /// Set a parameter of a node.
    SetParameter(u64, u32, u64),
    ReleaseNode(u64),
    ReleaseScalar(u64),
    ReleaseKernel(u64),
    /// The node is made; null where it could not be.
    Finished(u64),
}

/// What came of the host's doing.
#[derive(Debug, Clone, Copy, PartialEq, Eq, Structural)]
pub struct Reply {
    /// The handle of what was asked for, null where there is none.
    pub handle: u64,
    pub status: vx_status,
}

/// How far the making of a node has come.
pub struct Builder {
    pub graph: u64,
    pub plan: NodePlan,
    pub waiting: Awaited,
    /// The step that is carried out.
    pub next: usize,
    pub context: u64,
    pub kernel: u64,
    pub node: u64,
    /// The scalars made so far; null where one is missing or was released.
    pub scalars: Vec<u64>,
    /// Which of the scalars stay.
    pub kept: Vec<bool>,
}

/// The mathematical value of [`Builder`].
#[verifier::ext_equal]
pub struct BuilderSpec {
    pub graph: u64,
    pub plan: ScriptSpec,
    pub waiting: Awaited,
    pub next: nat,
    pub context: u64,
    pub kernel: u64,
    pub node: u64,
    pub scalars: Seq<u64>,
    pub kept: Seq<bool>,
}

impl View for Builder {
    type V = BuilderSpec;

    open spec fn view(&self) -> BuilderSpec {
        BuilderSpec {
            graph: self.graph,
            plan: self.plan@,
            waiting: self.waiting,
            next: self.next as nat,
            context: self.context,
            kernel: self.kernel,
            node: self.node,
            scalars: self.scalars@,
            kept: self.kept@,
        }
    }
}

/// The handle behind a slot.
pub open spec fn slot_value(scalars: Seq<u64>, slot: Source) -> u64 {
    match slot {
        Source::Given(r) => r,
        Source::Made(k) => if k < scalars.len() {
            scalars[k as int]
        } else {
            0
        },
    }
}

/// Whether the last `n` scalars were all made.
pub open spec fn all_made(scalars: Seq<u64>, n: nat) -> bool {
    forall|i: int| 0 <= i && scalars.len() - n <= i < scalars.len() ==> #[trigger] scalars[i] != 0
}

/// Whether a scalar is still to be released.
pub open spec fn is_owed(b: BuilderSpec) -> spec_fn(int) -> bool {
    |i: int| b.scalars[i] != 0 && !b.kept[i]
}

/// Releases what is left: the scalars that do not stay, and the kernel where
/// the plan says so.
pub open spec fn swept(b: BuilderSpec) -> (BuilderSpec, BuildAction) {
    match crate::search::first_where(b.scalars.len(), is_owed(b)) {
        Some(i) => (
            BuilderSpec { waiting: Awaited::Sweep, scalars: b.scalars.update(i as int, 0), ..b },
            BuildAction::ReleaseScalar(b.scalars[i as int]),
        ),
        None => if b.plan.releases_kernel && b.kernel != 0 {
            (
                BuilderSpec { waiting: Awaited::Sweep, kernel: 0, ..b },
                BuildAction::ReleaseKernel(b.kernel),
            )
        } else {
            (BuilderSpec { waiting: Awaited::Done, ..b }, BuildAction::Finished(b.node))
        },
    }
}

/// Gives the node up.
pub open spec fn given_up(b: BuilderSpec) -> (BuilderSpec, BuildAction) {
    if b.node != 0 {
        (
            BuilderSpec { waiting: Awaited::Sweep, node: 0, ..b },
            BuildAction::ReleaseNode(b.node),
        )
    } else {
        swept(b)
    }
}

/// Carries out the next step.
pub open spec fn proceeded(b: BuilderSpec) -> (BuilderSpec, BuildAction)
    decreases b.plan.steps.len() - b.next,
{
    if b.next >= b.plan.steps.len() {
        swept(b)
    } else {
        let passed = BuilderSpec { next: b.next + 1, ..b };
        match b.plan.steps[b.next as int] {
            Step::Make(seed) => (
                BuilderSpec { waiting: Awaited::Scalar, ..b },
                BuildAction::MakeScalar(b.context, seed),
            ),
            Step::Gate(n) => if all_made(b.scalars, n as nat) {
                proceeded(passed)
            } else {
                given_up(b)
            },
            Step::Build => (
                BuilderSpec { waiting: Awaited::Kernel, ..b },
                BuildAction::GetKernel(b.context),
            ),
            Step::Fill(index, slot) => (
                BuilderSpec { waiting: Awaited::Parameter, ..b },
                BuildAction::SetParameter(b.node, index, slot_value(b.scalars, slot)),
            ),
            Step::Try(index, slot) => if slot is Made && slot_value(b.scalars, slot) == 0 {
                proceeded(passed)
            } else {
                (
                    BuilderSpec { waiting: Awaited::Passing, ..b },
                    BuildAction::SetParameter(b.node, index, slot_value(b.scalars, slot)),
                )
            },
            Step::Drop(k) => if k < b.scalars.len() && b.scalars[k as int] != 0 {
                (
                    BuilderSpec {
                        waiting: Awaited::Passing,
                        scalars: b.scalars.update(k as int, 0),
                        ..b
                    },
                    BuildAction::ReleaseScalar(b.scalars[k as int]),
                )
            } else {
                proceeded(passed)
            },
            Step::GiveUp => given_up(b),
        }
    }
}

/// Whether the scalar made by a step stays.
pub open spec fn stays(step: Step) -> bool {
    match step {
        Step::Make(seed) => seed.kept,
        _ => false,
    }
}

/// What comes next, given what came of the last action.
pub open spec fn advanced(b: BuilderSpec, reply: Reply) -> (BuilderSpec, BuildAction) {
    let passed = BuilderSpec { next: b.next + 1, ..b };
    match b.waiting {
        Awaited::Start => (
            BuilderSpec { waiting: Awaited::Context, ..b },
            BuildAction::GetContext(b.graph),
        ),
        Awaited::Context => if reply.handle == 0 {
            given_up(b)
        } else {
            proceeded(BuilderSpec { context: reply.handle, ..b })
        },
        Awaited::Scalar => proceeded(
            BuilderSpec {
                scalars: b.scalars.push(reply.handle),
                kept: b.kept.push(stays(b.plan.steps[b.next as int])),
                ..passed
            },
        ),
        Awaited::Kernel => if reply.handle == 0 {
            given_up(b)
        } else {
            (
                BuilderSpec { waiting: Awaited::Node, kernel: reply.handle, ..b },
                BuildAction::MakeNode(b.graph, reply.handle),
            )
        },
        Awaited::Node => if reply.handle == 0 {
            given_up(b)
        } else {
            proceeded(BuilderSpec { node: reply.handle, ..passed })
        },
        Awaited::Parameter => if reply.status != VX_SUCCESS {
            given_up(b)
        } else {
            proceeded(passed)
        },
        Awaited::Passing => proceeded(passed),
        Awaited::Sweep => swept(b),
        Awaited::Done => (b, BuildAction::Finished(b.node)),
    }
}

impl BuilderSpec {
    /// Whether a builder is in a state that can come about.
    pub open spec fn wf(self) -> bool {
        &&& self.kept.len() == self.scalars.len()
        &&& self.next <= self.plan.steps.len()
        &&& self.waiting is Scalar || self.waiting is Kernel || self.waiting is Node
            || self.waiting is Parameter || self.waiting is Passing ==> self.next
            < self.plan.steps.len()
        &&& (self.waiting is Sweep || self.waiting is Done) && self.node != 0 ==> self.next
            == self.plan.steps.len()
    }
}

impl Builder {
    /// Starts to make a node of a graph.
    pub fn new(graph: u64, plan: NodePlan) -> (r: Self)
        ensures
            r@.wf(),
            r@ == (BuilderSpec {
                graph,
                plan: plan@,
                waiting: Awaited::Start,
                next: 0,
                context: 0,
                kernel: 0,
                node: 0,
                scalars: Seq::empty(),
                kept: Seq::empty(),
            }),
    {
        Builder {
            graph,
            plan,
            waiting: Awaited::Start,
            next: 0,
            context: 0,
            kernel: 0,
            node: 0,
            scalars: Vec::new(),
            kept: Vec::new(),
        }
    }

    /// Releases what is left.
    fn sweep(&mut self) -> (action: BuildAction)
        requires
            old(self)@.kept.len() == old(self)@.scalars.len(),
            old(self)@.next <= old(self)@.plan.steps.len(),
            old(self)@.node != 0 ==> old(self)@.next == old(self)@.plan.steps.len(),
        ensures
            (final(self)@, action) == swept(old(self)@),
            final(self)@.wf(),
    {
        let ghost before = self@;
        let count = self.scalars.len();
        for i in 0..count
            invariant
                self@ == before,
                *self == *old(self),
                before == old(self)@,
                count == before.scalars.len(),
                before.kept.len() == before.scalars.len(),
                before.next <= before.plan.steps.len(),
                before.node != 0 ==> before.next == before.plan.steps.len(),
                forall|j: int| 0 <= j < i ==> !#[trigger] is_owed(before)(j),
        {
            if self.scalars[i] != 0 && !self.kept[i] {
                let handle: u64 = self.scalars[i];
                proof {
                    assert(is_owed(before)(i as int));
                    crate::search::lemma_is_first(
                        before.scalars.len(),
                        is_owed(before),
                        i as nat,
                    );
                }
                self.scalars.set(i, 0);
                self.waiting = Awaited::Sweep;
                return BuildAction::ReleaseScalar(handle);
            }
        }
        proof {
            crate::search::lemma_is_nowhere(before.scalars.len(), is_owed(before));
        }
        if self.plan.releases_kernel && self.kernel != 0 {
            let kernel: u64 = self.kernel;
            self.kernel = 0;
            self.waiting = Awaited::Sweep;
            return BuildAction::ReleaseKernel(kernel);
        }
        self.waiting = Awaited::Done;
        BuildAction::Finished(self.node)
    }

    /// Gives the node up.
    fn give_up(&mut self) -> (action: BuildAction)
        requires
            old(self)@.kept.len() == old(self)@.scalars.len(),
            old(self)@.next <= old(self)@.plan.steps.len(),
        ensures
            (final(self)@, action) == given_up(old(self)@),
            final(self)@.wf(),
    {
        if self.node != 0 {
            let node: u64 = self.node;
            self.node = 0;
            self.waiting = Awaited::Sweep;
            return BuildAction::ReleaseNode(node);
        }
        self.sweep()
    }

    /// The handle behind a slot.
    fn value_of(&self, slot: Source) -> (r: u64)
        ensures
            r == slot_value(self@.scalars, slot),
    {
        match slot {
            Source::Given(r) => r,
            Source::Made(k) => if k < self.scalars.len() {
                self.scalars[k]
            } else {
                0
            },
        }
    }

    /// Whether the last `n` scalars were all made.
    fn has_made(&self, n: usize) -> (r: bool)
        ensures
            r == all_made(self@.scalars, n as nat),
    {
        let count = self.scalars.len();
        let first: usize = if n < count {
            count - n
        } else {
            0
        };
        for i in first..count
            invariant
                count == self.scalars@.len(),
                first <= count,
                first == if n < count {
                    count - n
                } else {
                    0
                },
                forall|j: int| first <= j < i ==> #[trigger] self.scalars@[j] != 0,
        {
            if self.scalars[i] == 0 {
                assert(self@.scalars[i as int] == 0);
                return false;
            }
        }
        true
    }

    /// Carries out the next step.
    fn proceed(&mut self) -> (action: BuildAction)
        requires
            old(self)@.kept.len() == old(self)@.scalars.len(),
            old(self)@.next <= old(self)@.plan.steps.len(),
        ensures
            (final(self)@, action) == proceeded(old(self)@),
            final(self)@.wf(),
    {
        while self.next < self.plan.steps.len()
            invariant
                self@.kept.len() == self@.scalars.len(),
                self@.next <= self@.plan.steps.len(),
                proceeded(self@) == proceeded(old(self)@),
            decreases self.plan.steps.len() - self.next,
        {
            let ghost before = self@;
            let step: Step = self.plan.steps[self.next];
            match step {
                Step::Make(seed) => {
                    self.waiting = Awaited::Scalar;
                    return BuildAction::MakeScalar(self.context, seed);
                },
                Step::Gate(n) => {
                    if !self.has_made(n) {
                        return self.give_up();
                    }
                },
                Step::Build => {
                    self.waiting = Awaited::Kernel;
                    return BuildAction::GetKernel(self.context);
                },
                Step::Fill(index, slot) => {
                    let value: u64 = self.value_of(slot);
                    self.waiting = Awaited::Parameter;
                    return BuildAction::SetParameter(self.node, index, value);
                },
                Step::Try(index, slot) => {
                    let value: u64 = self.value_of(slot);
                    let made = match slot {
                        Source::Made(k) => true,
                        Source::Given(r) => false,
                    };
                    if !(made && value == 0) {
                        self.waiting = Awaited::Passing;
                        return BuildAction::SetParameter(self.node, index, value);
                    }
                },
                Step::Drop(k) => {
                    if k < self.scalars.len() && self.scalars[k] != 0 {
                        let handle: u64 = self.scalars[k];
                        self.scalars.set(k, 0);
                        self.waiting = Awaited::Passing;
                        return BuildAction::ReleaseScalar(handle);
                    }
                },
                Step::GiveUp => {
                    return self.give_up();
                },
            }
            self.next = self.next + 1;
            assert(self@ == (BuilderSpec { next: before.next + 1, ..before }));
        }
        self.sweep()
    }

    /// Tells a builder what came of the last action, and answers what the host is
    /// to do next.
    pub fn advance(&mut self, reply: Reply) -> (action: BuildAction)
        requires
            old(self)@.wf(),
        ensures
            (final(self)@, action) == advanced(old(self)@, reply),
            final(self)@.wf(),
    {
        assert(self.plan.steps@.len() == self.plan.steps.len());
        match self.waiting {
            Awaited::Start => {
                self.waiting = Awaited::Context;
                BuildAction::GetContext(self.graph)
            },
            Awaited::Context => {
                if reply.handle == 0 {
                    return self.give_up();
                }
                self.context = reply.handle;
                self.proceed()
            },
            Awaited::Scalar => {
                let stays = match self.plan.steps[self.next] {
                    Step::Make(seed) => seed.kept,
                    _ => false,
                };
                self.scalars.push(reply.handle);
                self.kept.push(stays);
                self.next = self.next + 1;
                self.proceed()
            },
            Awaited::Kernel => {
                if reply.handle == 0 {
                    return self.give_up();
                }
                self.kernel = reply.handle;
                self.waiting = Awaited::Node;
                BuildAction::MakeNode(self.graph, reply.handle)
            },
            Awaited::Node => {
                if reply.handle == 0 {
                    return self.give_up();
                }
                self.node = reply.handle;
                self.next = self.next + 1;
                self.proceed()
            },
            Awaited::Parameter => {
                if reply.status != VX_SUCCESS {
                    return self.give_up();
                }
                self.next = self.next + 1;
                self.proceed()
            },
            Awaited::Passing => {
                self.next = self.next + 1;
                self.proceed()
            },
            Awaited::Sweep => self.sweep(),
            Awaited::Done => BuildAction::Finished(self.node),
        }
    }
}

/// Whether nothing is owed any more.
pub open spec fn is_settled(b: BuilderSpec) -> bool {
    &&& forall|i: int| 0 <= i < b.scalars.len() ==> (#[trigger] b.scalars[i] == 0 || b.kept[i])
    &&& b.plan.releases_kernel ==> b.kernel == 0
}

proof fn lemma_sweep_settles(b: BuilderSpec)
    requires
        b.kept.len() == b.scalars.len(),
    ensures
        swept(b).1 is Finished ==> is_settled(swept(b).0) && swept(b).1 == BuildAction::Finished(
            b.node,
        ),
        swept(b).0.node == b.node,
        swept(b).0.next == b.next,
        swept(b).0.plan == b.plan,
{
    crate::search::lemma_first_where(b.scalars.len(), is_owed(b));
    if swept(b).1 is Finished {
        assert forall|i: int| 0 <= i < b.scalars.len() implies (#[trigger] b.scalars[i] == 0
            || b.kept[i]) by {
            assert(!is_owed(b)(i));
        }
    }
}

proof fn lemma_proceed_settles(b: BuilderSpec)
    requires
        b.kept.len() == b.scalars.len(),
        b.next <= b.plan.steps.len(),
    ensures
        proceeded(b).1 is Finished ==> {
            &&& is_settled(proceeded(b).0)
            &&& proceeded(b).1 == BuildAction::Finished(proceeded(b).0.node)
            &&& proceeded(b).0.node != 0 ==> proceeded(b).0.next == b.plan.steps.len()
        },
    decreases b.plan.steps.len() - b.next,
{
    lemma_sweep_settles(b);
    if b.next < b.plan.steps.len() {
        lemma_proceed_settles(BuilderSpec { next: b.next + 1, ..b });
    }
}

/// When a builder is finished, every scalar that was made for the node and does
/// not stay has been released, and a node is answered only where every step of
/// the script was carried out.
pub proof fn law_finished_is_settled(b: BuilderSpec, reply: Reply)
    requires
        b.wf(),
        !(b.waiting is Done),
        advanced(b, reply).1 is Finished,
    ensures
        is_settled(advanced(b, reply).0),
        advanced(b, reply).1 == BuildAction::Finished(advanced(b, reply).0.node),
        advanced(b, reply).0.node != 0 ==> advanced(b, reply).0.next == b.plan.steps.len(),
{
    lemma_sweep_settles(b);
    let passed = BuilderSpec { next: b.next + 1, ..b };
    match b.waiting {
        Awaited::Context => {
            lemma_proceed_settles(BuilderSpec { context: reply.handle, ..b });
        },
        Awaited::Scalar => {
            lemma_proceed_settles(
                BuilderSpec {
                    scalars: b.scalars.push(reply.handle),
                    kept: b.kept.push(stays(b.plan.steps[b.next as int])),
                    ..passed
                },
            );
        },
        Awaited::Node => {
            lemma_proceed_settles(BuilderSpec { node: reply.handle, ..passed });
        },
        Awaited::Parameter => {
            lemma_proceed_settles(passed);
        },
        Awaited::Passing => {
            lemma_proceed_settles(passed);
        },
        _ => {},
    }
}

/// A parameter that cannot be set costs the node: it is released, and whatever
/// is answered in the end is null.
pub proof fn law_failed_parameter_costs_the_node(b: BuilderSpec, reply: Reply)
    requires
        b.wf(),
        b.waiting is Parameter,
        reply.status != VX_SUCCESS,
        b.node != 0,
    ensures
        advanced(b, reply).1 == BuildAction::ReleaseNode(b.node),
        advanced(b, reply).0.waiting is Sweep,
        advanced(b, reply).0.node == 0,
{
}

/// What is released at the end leaves the answer as it is.
pub proof fn law_sweeping_keeps_the_answer(b: BuilderSpec, reply: Reply)
    requires
        b.wf(),
        b.waiting is Sweep || b.waiting is Done,
    ensures
        advanced(b, reply).0.node == b.node,
        advanced(b, reply).0.waiting is Sweep || advanced(b, reply).0.waiting is Done,
{
    lemma_sweep_settles(b);
}

/// A plain node gets its references as parameters, in order, and is answered
/// once the last is set.
pub proof fn law_plain_node_gets_its_parameters(
    b: BuilderSpec,
    kernel: Seq<char>,
    refs: Seq<u64>,
    i: nat,
)
    requires
        b.plan == plain_plan(kernel, refs),
        b.next == i + 1,
        b.scalars.len() == 0,
        i <= refs.len() <= u32::MAX,
    ensures
        proceeded(b).1 == if i < refs.len() {
            BuildAction::SetParameter(b.node, i as u32, refs[i as int])
        } else {
            BuildAction::Finished(b.node)
        },
{
    if i < refs.len() {
        assert(b.plan.steps[b.next as int] == Step::Fill(i as u32, Source::Given(refs[i as int])));
    }
}

/// How a builder goes about its work: it asks for the context of its graph, makes
/// scalars in that context, looks the kernel up there, makes a node of the graph
/// with the kernel, and sets each parameter of the node to what its slot holds.
pub proof fn law_builder_actions(b: BuilderSpec, reply: Reply, seed: Seed, index: u32, slot: Source)
    requires
        reply.handle != 0,
        b.next < b.plan.steps.len(),
    ensures
        b.waiting is Start ==> advanced(b, reply).1 == BuildAction::GetContext(b.graph),
        b.waiting is Context && b.plan.steps[b.next as int] == Step::Make(seed) ==> advanced(
            b,
            reply,
        ).1 == BuildAction::MakeScalar(reply.handle, seed),
        b.waiting is Context && b.plan.steps[b.next as int] == Step::Build ==> advanced(b, reply).1
            == BuildAction::GetKernel(reply.handle),
        b.waiting is Kernel ==> advanced(b, reply).1 == BuildAction::MakeNode(
            b.graph,
            reply.handle,
        ),
        b.plan.steps[b.next as int] == Step::Fill(index, slot) ==> proceeded(b).1
            == BuildAction::SetParameter(b.node, index, slot_value(b.scalars, slot)),
{
}

/// A slot holds the reference that was given, or the handle of the scalar that was
/// made for it.
pub proof fn law_slots_hold(scalars: Seq<u64>, reference: u64, k: usize)
    ensures
        slot_value(scalars, Source::Given(reference)) == reference,
        k < scalars.len() ==> slot_value(scalars, Source::Made(k)) == scalars[k as int],
        k >= scalars.len() ==> slot_value(scalars, Source::Made(k)) == 0,
{
}

/// Where a scalar that is needed could not be made, the node is given up: what was
/// made is released and null is answered.
pub proof fn law_missing_scalars_cost_the_node(b: BuilderSpec, n: usize, i: int)
    requires
        b.kept.len() == b.scalars.len(),
        b.next < b.plan.steps.len(),
        b.plan.steps[b.next as int] == Step::Gate(n),
        0 <= i < b.scalars.len(),
        b.scalars.len() - n <= i,
        b.scalars[i] == 0,
        b.node == 0,
    ensures
        proceeded(b).0.node == 0,
        proceeded(b).1 is ReleaseScalar || proceeded(b).1 is ReleaseKernel || proceeded(b).1
            == BuildAction::Finished(0),
{
    assert(!all_made(b.scalars, n as nat));
    lemma_sweep_settles(b);
}

/// A scalar that is to stay is never released at the end, and one that is released
/// is released once.
pub proof fn law_kept_scalars_stay(b: BuilderSpec, i: int)
    requires
        b.kept.len() == b.scalars.len(),
        0 <= i < b.scalars.len(),
        b.kept[i],
    ensures
        swept(b).0.scalars[i] == b.scalars[i],
        swept(b).0.kept == b.kept,
{
    crate::search::lemma_first_where(b.scalars.len(), is_owed(b));
}

/// A seed is a number low byte first: four bytes for an enumeration or a word, eight
/// for a size, and what it holds is its bit pattern.
pub proof fn law_seeds(v: vx_enum, data_type: vx_enum, bits: u32, n: usize)
    ensures
        enum_seed(v).data_type == VX_TYPE_ENUM && enum_seed(v).size == 4,
        v >= 0 ==> enum_seed(v).bits == v,
        v < 0 ==> enum_seed(v).bits == v + 0x1_0000_0000,
        word_seed(data_type, bits).data_type == data_type && word_seed(data_type, bits).size == 4
            && word_seed(data_type, bits).bits == bits,
        size_seed(n).data_type == VX_TYPE_SIZE && size_seed(n).size == 8 && size_seed(n).bits == n,
        !enum_seed(v).kept && !word_seed(data_type, bits).kept && !size_seed(n).kept,
{
}

/// Only a scalar whose seed says so stays when the node is made.
pub proof fn law_scalars_that_stay(seed: Seed, index: u32, slot: Source, n: usize)
    ensures
        stays(Step::Make(seed)) == seed.kept,
        !stays(Step::Build) && !stays(Step::GiveUp),
        !stays(Step::Gate(n)) && !stays(Step::Drop(n)),
        !stays(Step::Fill(index, slot)) && !stays(Step::Try(index, slot)),
{
}

} // verus!
