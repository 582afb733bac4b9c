//! Kernels supplied by the application, and the dispatch that falls back to them.
use vstd::prelude::*;
use crate::arith::sign_extend;
use crate::dispatch::{
    Dispatch, Outcome, VX_NODE_STATE_PIPEUP, VX_NODE_STATE_STEADY, dispatch_builtin,
};
use crate::kernels::kernel_from_name;
use crate::records::{NodeData, UserKernelParam, VxCUserKernel};
use crate::scalar::{VxCScalar, to_signed32};
use crate::types::{VX_ERROR_INVALID_KERNEL, VX_SUCCESS, vx_border_t, vx_enum, vx_status};
use std::collections::HashMap;

verus! {

broadcast use vstd::std_specs::hash::group_hash_axioms;

/// The first kernel number of the application's own kernels.
pub const USER_KERNEL_BASE: u64 = 0xFFE00000;

/// How many kernel numbers are handed out before they start again.
pub const USER_KERNEL_IDS: u64 = 4096;

/// The application's kernels, each under its own number, and what is handed out
/// next.
pub struct UserKernels {
    pub kernels: Vec<VxCUserKernel>,
    /// The declared parameters of each kernel.
    pub params: HashMap<i32, Vec<UserKernelParam>>,
    /// The next kernel number.
    pub next_id: u64,
    /// The next library number.
    pub next_library_id: u64,
}

/// The handle of a kernel: its number, sign-extended.
pub open spec fn handle_of(enumeration: vx_enum) -> u64 {
    crate::arith::sign_extended(enumeration)
}

/// The number in the low half of a handle.
pub open spec fn enum_of(handle: u64) -> vx_enum {
    crate::scalar::signed32((handle % 0x1_0000_0000) as nat) as vx_enum
}

/// The position of the kernel with a number.
pub open spec fn position_of(kernels: Seq<VxCUserKernel>, enumeration: vx_enum) -> Option<nat> {
    crate::search::first_where(
        kernels.len(),
        |i: int| kernels[i].enumeration == enumeration,
    )
}

/// Whether the kernel at a position has a name.
pub open spec fn has_name(kernels: Seq<VxCUserKernel>, name: Seq<char>) -> spec_fn(int) -> bool {
    |i: int| kernels[i].name@ == name
}

/// The position of the first kernel with a name.
pub open spec fn position_named(kernels: Seq<VxCUserKernel>, name: Seq<char>) -> Option<nat> {
    crate::search::first_where(kernels.len(), has_name(kernels, name))
}

/// How many runs a node with this kernel needs to produce output.
pub open spec fn output_depth(kernels: Seq<VxCUserKernel>, kernel_id: u64) -> u32 {
    match position_of(kernels, enum_of(kernel_id)) {
        Some(i) => kernels[i as int].pipeup_output_depth,
        None => 1,
    }
}

/// Whether a node that has run `executions` times is still filling its pipeline.
pub open spec fn filling(executions: u32, depth: u32) -> bool {
    executions + 1 < depth
}

/// The number in the low half of a handle.
pub fn kernel_key(handle: u64) -> (r: vx_enum)
    ensures
        r == enum_of(handle),
{
    to_signed32((handle % 0x1_0000_0000) as u32)
}

/// The handle of a kernel.
pub fn kernel_handle(enumeration: vx_enum) -> (r: u64)
    ensures
        r == handle_of(enumeration),
{
    sign_extend(enumeration)
}

impl UserKernels {
    /// Whether no two kernels share a number.
    pub open spec fn wf(&self) -> bool {
        &&& forall|i: int, j: int|
            0 <= i < j < self.kernels@.len() ==> #[trigger] self.kernels@[i].enumeration
                != #[trigger] self.kernels@[j].enumeration
        &&& USER_KERNEL_BASE <= self.next_id <= USER_KERNEL_BASE + USER_KERNEL_IDS
    }

    /// No kernels.
    pub fn new() -> (r: Self)
        ensures
            r.wf(),
            r.kernels@.len() == 0,
            r.params@ == Map::<i32, Vec<UserKernelParam>>::empty(),
            r.next_id == USER_KERNEL_BASE,
            r.next_library_id == 1,
    {
        UserKernels {
            kernels: Vec::new(),
            params: HashMap::new(),
            next_id: USER_KERNEL_BASE,
            next_library_id: 1,
        }
    }

    /// Finds the kernel with a number.
    pub fn find(&self, enumeration: vx_enum) -> (r: Option<usize>)
        ensures
            match r {
                Some(i) => position_of(self.kernels@, enumeration) == Some(i as nat) && i
                    < self.kernels@.len() && self.kernels@[i as int].enumeration == enumeration,
                None => position_of(self.kernels@, enumeration) is None,
            },
    {
        let ghost holds = |i: int| self.kernels@[i].enumeration == enumeration;
        for i in 0..self.kernels.len()
            invariant
                holds == (|i: int| self.kernels@[i].enumeration == enumeration),
                forall|j: int| 0 <= j < i ==> !#[trigger] holds(j),
        {
            if self.kernels[i].enumeration == enumeration {
                proof {
                    crate::search::lemma_is_first(self.kernels@.len(), holds, i as nat);
                }
                return Some(i);
            }
        }
        proof {
            crate::search::lemma_is_nowhere(self.kernels@.len(), holds);
        }
        None
    }

    /// Finds the first kernel with a name.
    pub fn find_named(&self, name: &str) -> (r: Option<usize>)
        ensures
            match r {
                Some(i) => position_named(self.kernels@, name@) == Some(i as nat) && i
                    < self.kernels@.len(),
                None => position_named(self.kernels@, name@) is None,
            },
    {
        let wanted = name.to_owned();
        let ghost holds = has_name(self.kernels@, name@);
        for i in 0..self.kernels.len()
            invariant
                wanted@ == name@,
                holds == has_name(self.kernels@, name@),
                forall|j: int| 0 <= j < i ==> !#[trigger] holds(j),
        {
            if self.kernels[i].name == wanted {
                proof {
                    crate::search::lemma_is_first(self.kernels@.len(), holds, i as nat);
                }
                return Some(i);
            }
        }
        proof {
            crate::search::lemma_is_nowhere(self.kernels@.len(), holds);
        }
        None
    }

    /// How many runs a node with this kernel needs to produce output.
    pub fn pipeup_output_depth(&self, kernel_id: u64) -> (r: u32)
        ensures
            r == output_depth(self.kernels@, kernel_id),
    {
        match self.find(kernel_key(kernel_id)) {
            Some(i) => self.kernels[i].pipeup_output_depth,
            None => 1,
        }
    }
}

/// A node's record with another state and execution count.
pub open spec fn with_execution(node: NodeData, node_state: u32, execution_count: u32) -> NodeData {
    NodeData { node_state, execution_count, ..node }
}

/// The state a node takes before it runs.
pub open spec fn state_before_run(node: NodeData, kernels: Seq<VxCUserKernel>) -> u32 {
    if filling(node.execution_count, output_depth(kernels, node.kernel_id)) {
        VX_NODE_STATE_PIPEUP
    } else {
        VX_NODE_STATE_STEADY
    }
}

/// Records, before a node runs, whether it is filling its pipeline or steady.
pub fn update_node_state_for_execution(
    nodes: &mut HashMap<u64, NodeData>,
    user_kernels: &UserKernels,
    node_id: u64,
)
    requires
        old(nodes)@.contains_key(node_id) ==> old(nodes)@[node_id].execution_count < u32::MAX,
    ensures
        final(nodes)@ == if old(nodes)@.contains_key(node_id) {
            old(nodes)@.insert(
                node_id,
                with_execution(
                    old(nodes)@[node_id],
                    state_before_run(old(nodes)@[node_id], user_kernels.kernels@),
                    old(nodes)@[node_id].execution_count,
                ),
            )
        } else {
            old(nodes)@
        },
{
    if let Some(mut node) = nodes.remove(&node_id) {
        let depth = user_kernels.pipeup_output_depth(node.kernel_id);
        node.node_state = if node.execution_count + 1 < depth {
            VX_NODE_STATE_PIPEUP
        } else {
            VX_NODE_STATE_STEADY
        };
        nodes.insert(node_id, node);
        assert(nodes@ =~= old(nodes)@.insert(
            node_id,
            with_execution(
                old(nodes)@[node_id],
                state_before_run(old(nodes)@[node_id], user_kernels.kernels@),
                old(nodes)@[node_id].execution_count,
            ),
        ));
    } else {
        assert(nodes@ =~= old(nodes)@);
    }
}

/// Whether a name is that of one of the application's kernels and not built in.
pub open spec fn leads_to_user_kernel(name: Seq<char>, kernels: Seq<VxCUserKernel>) -> bool {
    crate::kernels::kernel_named(name) is None && position_named(kernels, name) is Some
}

/// What dispatching a kernel by name leads to.
pub open spec fn dispatched_by_name(
    name: Seq<char>,
    params: Seq<u64>,
    scalars: Map<u64, VxCScalar>,
    border: Option<vx_border_t>,
    kernels: Seq<VxCUserKernel>,
) -> Outcome {
    match crate::kernels::kernel_named(name) {
        Some(kernel) => crate::dispatch::dispatched(kernel, params, scalars, border),
        None => match position_named(kernels, name) {
            Some(i) => Outcome::User(kernels[i as int].kernel),
            None => Outcome::Fail(VX_ERROR_INVALID_KERNEL),
        },
    }
}

/// Dispatches a kernel by name.  A name that is not built in is looked up among
/// the application's kernels, and the node's state is recorded before its run.
pub fn dispatch_kernel_with_border_impl(
    kernel_name: &str,
    params: &Vec<u64>,
    border: Option<vx_border_t>,
    node_id: u64,
    scalars: &HashMap<u64, VxCScalar>,
    user_kernels: &UserKernels,
    nodes: &mut HashMap<u64, NodeData>,
) -> (r: Dispatch)
    requires
        leads_to_user_kernel(kernel_name@, user_kernels.kernels@) && old(nodes)@.contains_key(
            node_id,
        ) ==> old(nodes)@[node_id].execution_count < u32::MAX,
    ensures
        r@ == dispatched_by_name(kernel_name@, params@, scalars@, border, user_kernels.kernels@),
        final(nodes)@ == if r@ is User && old(nodes)@.contains_key(node_id) {
            old(nodes)@.insert(
                node_id,
                with_execution(
                    old(nodes)@[node_id],
                    state_before_run(old(nodes)@[node_id], user_kernels.kernels@),
                    old(nodes)@[node_id].execution_count,
                ),
            )
        } else {
            old(nodes)@
        },
{
    match kernel_from_name(kernel_name) {
        Some(kernel) => dispatch_builtin(kernel, params, scalars, border),
        None => match user_kernels.find_named(kernel_name) {
            Some(i) => {
                update_node_state_for_execution(nodes, user_kernels, node_id);
                Dispatch::User(user_kernels.kernels[i].kernel)
            },
            None => Dispatch::Fail(VX_ERROR_INVALID_KERNEL),
        },
    }
}

/// Dispatches a kernel outside any graph.
pub fn dispatch_kernel_with_border(
    kernel_name: &str,
    params: &Vec<u64>,
    border: Option<vx_border_t>,
    scalars: &HashMap<u64, VxCScalar>,
    user_kernels: &UserKernels,
) -> (r: Dispatch)
    ensures
        r@ == dispatched_by_name(kernel_name@, params@, scalars@, border, user_kernels.kernels@),
{
    let mut none: HashMap<u64, NodeData> = HashMap::new();
    dispatch_kernel_with_border_impl(
        kernel_name,
        params,
        border,
        0,
        scalars,
        user_kernels,
        &mut none,
    )
}

/// Dispatches a kernel for a node.
pub fn dispatch_kernel_with_border_ex(
    kernel_name: &str,
    params: &Vec<u64>,
    border: Option<vx_border_t>,
    node_id: u64,
    scalars: &HashMap<u64, VxCScalar>,
    user_kernels: &UserKernels,
    nodes: &mut HashMap<u64, NodeData>,
) -> (r: Dispatch)
    requires
        leads_to_user_kernel(kernel_name@, user_kernels.kernels@) && old(nodes)@.contains_key(
            node_id,
        ) ==> old(nodes)@[node_id].execution_count < u32::MAX,
    ensures
        r@ == dispatched_by_name(kernel_name@, params@, scalars@, border, user_kernels.kernels@),
        final(nodes)@ == if r@ is User && old(nodes)@.contains_key(node_id) {
            old(nodes)@.insert(
                node_id,
                with_execution(
                    old(nodes)@[node_id],
                    state_before_run(old(nodes)@[node_id], user_kernels.kernels@),
                    old(nodes)@[node_id].execution_count,
                ),
            )
        } else {
            old(nodes)@
        },
{
    dispatch_kernel_with_border_impl(
        kernel_name,
        params,
        border,
        node_id,
        scalars,
        user_kernels,
        nodes,
    )
}

/// The status of a user kernel's run: what its function answered, success where
/// it has none.  A successful run counts.
pub fn finish_user_kernel(
    nodes: &mut HashMap<u64, NodeData>,
    node_id: u64,
    answer: Option<vx_status>,
) -> (status: vx_status)
    ensures
        status == match answer {
            Some(s) => s,
            None => VX_SUCCESS,
        },
        final(nodes)@ == if status == VX_SUCCESS && old(nodes)@.contains_key(node_id) {
            let node = old(nodes)@[node_id];
            old(nodes)@.insert(
                node_id,
                with_execution(
                    node,
                    node.node_state,
                    if node.execution_count == u32::MAX {
                        0
                    } else {
                        (node.execution_count + 1) as u32
                    },
                ),
            )
        } else {
            old(nodes)@
        },
{
    let status: vx_status = match answer {
        Some(s) => s,
        None => VX_SUCCESS,
    };
    if status == VX_SUCCESS {
        if let Some(mut node) = nodes.remove(&node_id) {
            node.execution_count = if node.execution_count == u32::MAX {
                0
            } else {
                node.execution_count + 1
            };
            nodes.insert(node_id, node);
        }
        assert(nodes@ =~= if old(nodes)@.contains_key(node_id) {
            let node = old(nodes)@[node_id];
            old(nodes)@.insert(
                node_id,
                with_execution(
                    node,
                    node.node_state,
                    if node.execution_count == u32::MAX {
                        0
                    } else {
                        (node.execution_count + 1) as u32
                    },
                ),
            )
        } else {
            old(nodes)@
        });
    }
    status
}

/// A kernel's handle leads back to its number.
pub proof fn law_handle_keeps_number(enumeration: vx_enum)
    ensures
        enum_of(handle_of(enumeration)) == enumeration,
{
}

/// A node with a pipeline of depth one or less is never filling it, and one that
/// has run often enough is not filling it any more.
pub proof fn law_pipeline_fills_once(executions: u32, later: u32, depth: u32)
    requires
        executions <= later,
        !filling(executions, depth),
    ensures
        !filling(later, depth),
        depth <= 1 ==> !filling(0, depth),
{
}

/// A node whose kernel needs a number of runs to produce output fills its pipeline
/// for all of them but the last, and is steady from then on.
pub proof fn law_output_comes_after_the_depth(executions: u32, depth: u32)
    ensures
        filling(executions, depth) <==> executions < depth - 1,
        depth >= 2 ==> filling(0, depth) && filling((depth - 2) as u32, depth) && !filling(
            (depth - 1) as u32,
            depth,
        ),
        !filling(executions, 1) && !filling(executions, 0),
{
}

/// The state that a node takes before it runs says whether it is filling its
/// pipeline; a kernel that the application did not supply has no pipeline.
pub proof fn law_states_before_a_run(node: NodeData, kernels: Seq<VxCUserKernel>)
    ensures
        position_of(kernels, enum_of(node.kernel_id)) is None ==> output_depth(
            kernels,
            node.kernel_id,
        ) == 1 && state_before_run(node, kernels) == VX_NODE_STATE_STEADY,
        position_of(kernels, enum_of(node.kernel_id)) matches Some(i) ==> {
            let depth = kernels[i as int].pipeup_output_depth;
            &&& node.execution_count + 1 < depth ==> state_before_run(node, kernels)
                == VX_NODE_STATE_PIPEUP
            &&& node.execution_count + 1 >= depth ==> state_before_run(node, kernels)
                == VX_NODE_STATE_STEADY
        },
        VX_NODE_STATE_PIPEUP != VX_NODE_STATE_STEADY,
{
}

/// A built-in kernel is run though the application has one of the same name; a name
/// that neither knows is refused.
pub proof fn law_built_in_kernels_come_first(
    name: Seq<char>,
    params: Seq<u64>,
    scalars: Map<u64, VxCScalar>,
    border: Option<vx_border_t>,
    kernels: Seq<VxCUserKernel>,
)
    ensures
        crate::kernels::kernel_named(name) matches Some(k) ==> dispatched_by_name(
            name,
            params,
            scalars,
            border,
            kernels,
        ) == crate::dispatch::dispatched(k, params, scalars, border),
        crate::kernels::kernel_named(name) is None && position_named(kernels, name) is None
            ==> dispatched_by_name(name, params, scalars, border, kernels) == Outcome::Fail(
            VX_ERROR_INVALID_KERNEL,
        ),
        crate::kernels::kernel_named(name) is None && position_named(kernels, name) is Some
            ==> dispatched_by_name(name, params, scalars, border, kernels) == Outcome::User(
            kernels[position_named(kernels, name)->0 as int].kernel,
        ),
{
}

/// The state and the runs of a node change without anything else of it.
pub proof fn law_runs_are_recorded_alone(node: NodeData, node_state: u32, execution_count: u32)
    ensures
        ({
            let after = with_execution(node, node_state, execution_count);
            &&& after.node_state == node_state
            &&& after.execution_count == execution_count
            &&& after.kernel_id == node.kernel_id
            &&& after.graph_id == node.graph_id
            &&& after.parameters == node.parameters
        }),
{
}

/// A name leads to a user kernel only where it is not that of a built-in one.
pub proof fn law_names_lead_to_user_kernels_last(
    name: Seq<char>,
    kernels: Seq<VxCUserKernel>,
    kernel: crate::kernels::Kernel,
)
    ensures
        crate::kernels::kernel_named(name) == Some(kernel) ==> !leads_to_user_kernel(name, kernels),
        crate::kernels::kernel_named(name) is None ==> (leads_to_user_kernel(name, kernels)
            <==> position_named(kernels, name) is Some),
{
}

/// A user kernel is found by its number or by its name, the one that was added first
/// before the others.
pub proof fn law_first_kernel_is_found(
    kernels: Seq<VxCUserKernel>,
    enumeration: vx_enum,
    name: Seq<char>,
)
    ensures
        match position_of(kernels, enumeration) {
            Some(i) => i < kernels.len() && kernels[i as int].enumeration == enumeration
                && forall|j: int|
                0 <= j < i ==> (#[trigger] kernels[j]).enumeration != enumeration,
            None => forall|j: int|
                0 <= j < kernels.len() ==> (#[trigger] kernels[j]).enumeration != enumeration,
        },
        match position_named(kernels, name) {
            Some(i) => i < kernels.len() && kernels[i as int].name@ == name && forall|j: int|
                0 <= j < i ==> (#[trigger] kernels[j]).name@ != name,
            None => forall|j: int|
                0 <= j < kernels.len() ==> (#[trigger] kernels[j]).name@ != name,
        },
{
    let numbered = |i: int| kernels[i].enumeration == enumeration;
    let named = has_name(kernels, name);
    crate::search::lemma_first_where(kernels.len(), numbered);
    crate::search::lemma_first_where(kernels.len(), named);
    assert forall|j: int| 0 <= j < kernels.len() implies numbered(j) == ((
    #[trigger] kernels[j]).enumeration == enumeration) by {}
    assert forall|j: int| 0 <= j < kernels.len() implies named(j) == ((
    #[trigger] kernels[j]).name@ == name) by {}
}

} // verus!
