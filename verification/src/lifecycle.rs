//! The life of a user kernel's node: tearing down, validating, providing local
//! data and initializing, one callback at a time.
use vstd::prelude::*;
use crate::records::{NodeData, VxCUserKernel};
use crate::types::{VX_SUCCESS, vx_status};
use crate::user_kernels::{USER_KERNEL_BASE, UserKernels, kernel_key};
use std::collections::HashMap;

verus! {

broadcast use vstd::std_specs::hash::group_hash_axioms;

/// Marks a node as inside an initializer or deinitializer.
pub fn push_user_kernel_in_init(stack: &mut Vec<u64>, node_id: u64)
    ensures
        final(stack)@ == old(stack)@.push(node_id),
{
    stack.push(node_id);
}

/// Some nodes without the last one.
pub open spec fn popped(stack: Seq<u64>) -> Seq<u64> {
    if stack.len() == 0 {
        stack
    } else {
        stack.drop_last()
    }
}

/// Leaves the innermost initializer or deinitializer.
pub fn pop_user_kernel_in_init(stack: &mut Vec<u64>)
    ensures
        final(stack)@ == popped(old(stack)@),
{
    let _ = stack.pop();
    assert(stack@ =~= popped(old(stack)@));
}

/// Whether an initializer or deinitializer of a node runs, be it with others nested
/// inside.
pub fn is_user_kernel_in_init(stack: &Vec<u64>, node_id: u64) -> (r: bool)
    ensures
        r == stack@.contains(node_id),
{
    for i in 0..stack.len()
        invariant
            forall|k: int| 0 <= k < i ==> stack@[k] != node_id,
    {
        if stack[i] == node_id {
            assert(stack@[i as int] == node_id);
            return true;
        }
    }
    false
}

/// What verifying a graph does for the node of a user kernel.
pub struct UserKernelHook {
    pub node_id: u64,
    /// The parameters handed to the callbacks, `0` where none was set.
    pub param_refs: Vec<u64>,
    pub validate: Option<u64>,
    pub init: Option<u64>,
    pub deinit: Option<u64>,
    /// The local data to provide, none if `0`.
    pub auto_local_size: usize,
}

/// The mathematical value of a [`UserKernelHook`].
pub struct HookSpec {
    pub node_id: u64,
    pub param_refs: Seq<u64>,
    pub validate: Option<u64>,
    pub init: Option<u64>,
    pub deinit: Option<u64>,
    pub auto_local_size: usize,
}

impl View for UserKernelHook {
    type V = HookSpec;

    open spec fn view(&self) -> HookSpec {
        HookSpec {
            node_id: self.node_id,
            param_refs: self.param_refs@,
            validate: self.validate,
            init: self.init,
            deinit: self.deinit,
            auto_local_size: self.auto_local_size,
        }
    }
}

/// Parameters as they are handed to a callback.
pub open spec fn handed(params: Seq<Option<u64>>) -> Seq<u64> {
    params.map_values(
        |p: Option<u64>|
            match p {
                Some(r) => r,
                None => 0,
            },
    )
}

/// Lists parameters as they are handed to a callback.
pub fn hand_over(params: &Vec<Option<u64>>) -> (r: Vec<u64>)
    ensures
        r@ == handed(params@),
{
    let mut list: Vec<u64> = Vec::new();
    for i in 0..params.len()
        invariant
            list@.len() == i,
            forall|k: int| 0 <= k < i ==> list@[k] == handed(params@)[k],
    {
        let r: u64 = match params[i] {
            Some(r) => r,
            None => 0,
        };
        list.push(r);
    }
    assert(list@ =~= handed(params@));
    list
}

/// The hook of a node, where it runs a kernel of the application.
pub open spec fn hook_of(
    nodes: Map<u64, NodeData>,
    kernels: Seq<VxCUserKernel>,
    node_id: u64,
) -> Option<HookSpec> {
    if nodes.contains_key(node_id) && nodes[node_id].kernel_id >= USER_KERNEL_BASE {
        match crate::user_kernels::position_of(
            kernels,
            crate::user_kernels::enum_of(nodes[node_id].kernel_id),
        ) {
            Some(i) => Some(
                HookSpec {
                    node_id,
                    param_refs: handed(nodes[node_id].parameters@),
                    validate: kernels[i as int].validate,
                    init: kernels[i as int].init,
                    deinit: kernels[i as int].deinit,
                    auto_local_size: kernels[i as int].local_data_size,
                },
            ),
            None => None,
        }
    } else {
        None
    }
}

/// The hooks of some nodes, in order.
pub open spec fn hooks_of(
    nodes: Map<u64, NodeData>,
    kernels: Seq<VxCUserKernel>,
    ids: Seq<u64>,
) -> Seq<HookSpec>
    decreases ids.len(),
{
    if ids.len() == 0 {
        Seq::empty()
    } else {
        let before = hooks_of(nodes, kernels, ids.drop_last());
        match hook_of(nodes, kernels, ids.last()) {
            Some(hook) => before.push(hook),
            None => before,
        }
    }
}

/// Finds the hook of a node.
pub fn find_hook(
    nodes: &HashMap<u64, NodeData>,
    user_kernels: &UserKernels,
    node_id: u64,
) -> (r: Option<UserKernelHook>)
    ensures
        match r {
            Some(hook) => hook_of(nodes@, user_kernels.kernels@, node_id) == Some(hook@),
            None => hook_of(nodes@, user_kernels.kernels@, node_id) is None,
        },
{
    match nodes.get(&node_id) {
        Some(node) => if node.kernel_id >= USER_KERNEL_BASE {
            match user_kernels.find(kernel_key(node.kernel_id)) {
                Some(i) => {
                    let kernel = &user_kernels.kernels[i];
                    Some(
                        UserKernelHook {
                            node_id,
                            param_refs: hand_over(&node.parameters),
                            validate: kernel.validate,
                            init: kernel.init,
                            deinit: kernel.deinit,
                            auto_local_size: kernel.local_data_size,
                        },
                    )
                },
                None => None,
            }
        } else {
            None
        },
        None => None,
    }
}

/// Collects the hooks of some nodes.
pub fn collect_hooks(
    nodes: &HashMap<u64, NodeData>,
    user_kernels: &UserKernels,
    ids: &Vec<u64>,
) -> (r: Vec<UserKernelHook>)
    ensures
        r@.map_values(|h: UserKernelHook| h@) == hooks_of(
            nodes@,
            user_kernels.kernels@,
            ids@,
        ),
{
    let mut hooks: Vec<UserKernelHook> = Vec::new();
    assert(hooks@.map_values(|h: UserKernelHook| h@) =~= hooks_of(
        nodes@,
        user_kernels.kernels@,
        ids@.take(0),
    ));
    for i in 0..ids.len()
        invariant
            hooks@.map_values(|h: UserKernelHook| h@) == hooks_of(
                nodes@,
                user_kernels.kernels@,
                ids@.take(i as int),
            ),
    {
        let ghost before = hooks@;
        proof {
            assert(ids@.take(i + 1).drop_last() =~= ids@.take(i as int));
            assert(ids@.take(i + 1).last() == ids@[i as int]);
        }
        if let Some(hook) = find_hook(nodes, user_kernels, ids[i]) {
            hooks.push(hook);
            assert(hooks@.map_values(|h: UserKernelHook| h@) =~= before.map_values(
                |h: UserKernelHook| h@,
            ).push(hook@));
        }
    }
    assert(ids@.take(ids@.len() as int) =~= ids@);
    hooks
}

/// How far a hook has come.
#[derive(Debug, Clone, Copy, PartialEq, Eq, Structural)]
pub enum HookStage {
    /// Nothing has been done.
    Begin,
    /// The deinitializer is running.
    Deinitializing,
    /// What an earlier verification left is gone.
    TornDown,
    /// The validator is running.
    Validating,
    /// The validator agreed.
    Validated,
    /// Local data is being allocated.
    Allocating,
    /// The initializer is running.
    Initializing,
    /// Nothing is left to do.
    Over,
}

/// What the host has to do for a hook.
#[derive(Debug, Clone, Copy, PartialEq, Eq, Structural)]
pub enum HookAction {
    CallDeinit(u64),
    /// Free local data at an address, of a size.
    Free(u64, usize),
    CallValidate(u64),
    /// Run the valid rectangle callbacks.
    ApplyValidRects,
    /// Allocate local data of a size.
    Allocate(usize),
    CallInit(u64),
    Done,
    Fail(vx_status),
}

/// A hook under way: the node's record, the nodes inside an initializer, and how
/// far it has come.
pub struct HookState {
    pub node: Option<NodeData>,
    pub stack: Seq<u64>,
    pub stage: HookStage,
}

/// A hook whose initializer has run.
pub open spec fn initialized(s: HookState) -> (HookState, HookAction) {
    (
        HookState {
            node: match s.node {
                Some(n) => Some(NodeData { user_kernel_initialized: true, ..n }),
                None => None,
            },
            stage: HookStage::Over,
            ..s
        },
        HookAction::Done,
    )
}

/// A hook that goes on to the initializer.
pub open spec fn to_init(s: HookState, hook: HookSpec) -> (HookState, HookAction) {
    match hook.init {
        Some(callback) => (
            HookState {
                stack: s.stack.push(hook.node_id),
                stage: HookStage::Initializing,
                ..s
            },
            HookAction::CallInit(callback),
        ),
        None => initialized(s),
    }
}

/// A hook that goes on to local data.
pub open spec fn to_allocate(s: HookState, hook: HookSpec) -> (HookState, HookAction) {
    if hook.auto_local_size > 0 {
        (
            HookState { stage: HookStage::Allocating, ..s },
            HookAction::Allocate(hook.auto_local_size),
        )
    } else {
        to_init(
            HookState {
                node: match s.node {
                    Some(n) => Some(NodeData { local_data_auto_alloc: false, ..n }),
                    None => None,
                },
                ..s
            },
            hook,
        )
    }
}

/// A hook that goes on to the validator.
pub open spec fn to_validate(s: HookState, hook: HookSpec) -> (HookState, HookAction) {
    match hook.validate {
        Some(callback) => (
            HookState { stage: HookStage::Validating, ..s },
            HookAction::CallValidate(callback),
        ),
        None => to_allocate(s, hook),
    }
}

/// A node once its deinitializer has run: local data that the runtime owns is gone.
pub open spec fn torn_down(node: NodeData) -> NodeData {
    NodeData {
        user_kernel_initialized: false,
        local_data_ptr: if node.local_data_auto_alloc {
            0
        } else {
            node.local_data_ptr
        },
        ..node
    }
}

/// Whether a node has local data that the runtime owns.
pub open spec fn owns_data(node: NodeData) -> bool {
    node.local_data_auto_alloc && node.local_data_ptr != 0 && node.local_data_size > 0
}

/// A hook whose deinitializer has run.
pub open spec fn to_teardown(s: HookState, hook: HookSpec) -> (HookState, HookAction) {
    match s.node {
        Some(node) => {
            let after = HookState { node: Some(torn_down(node)), stage: HookStage::TornDown, ..s };
            if owns_data(node) {
                (after, HookAction::Free(node.local_data_ptr, node.local_data_size))
            } else {
                to_validate(after, hook)
            }
        },
        None => to_validate(s, hook),
    }
}

/// One step of a hook, given what the last action answered: a status, or the
/// address of allocated data.
pub open spec fn hook_step(
    s: HookState,
    hook: HookSpec,
    status: vx_status,
    address: u64,
) -> (HookState, HookAction) {
    match s.stage {
        HookStage::Begin => match s.node {
            Some(node) => if node.user_kernel_initialized {
                match hook.deinit {
                    Some(callback) => (
                        HookState {
                            stack: s.stack.push(hook.node_id),
                            stage: HookStage::Deinitializing,
                            ..s
                        },
                        HookAction::CallDeinit(callback),
                    ),
                    None => to_teardown(s, hook),
                }
            } else {
                to_validate(s, hook)
            },
            None => to_validate(s, hook),
        },
        HookStage::Deinitializing => to_teardown(
            HookState { stack: popped(s.stack), ..s },
            hook,
        ),
        HookStage::TornDown => to_validate(s, hook),
        HookStage::Validating => if status != VX_SUCCESS {
            (HookState { stage: HookStage::Over, ..s }, HookAction::Fail(status))
        } else {
            (HookState { stage: HookStage::Validated, ..s }, HookAction::ApplyValidRects)
        },
        HookStage::Validated => to_allocate(s, hook),
        HookStage::Allocating => to_init(
            HookState {
                node: match s.node {
                    Some(n) => Some(
                        NodeData {
                            local_data_size: hook.auto_local_size,
                            local_data_ptr: address,
                            local_data_auto_alloc: true,
                            ..n
                        },
                    ),
                    None => None,
                },
                ..s
            },
            hook,
        ),
        HookStage::Initializing => if status != VX_SUCCESS {
            (
                HookState { stack: popped(s.stack), stage: HookStage::Over, ..s },
                HookAction::Fail(status),
            )
        } else {
            initialized(HookState { stack: popped(s.stack), ..s })
        },
        HookStage::Over => (s, HookAction::Done),
    }
}

/// A hook as it is carried out.
pub struct HookRun {
    pub node: Option<NodeData>,
    pub stack: Vec<u64>,
    pub stage: HookStage,
}

impl View for HookRun {
    type V = HookState;

    open spec fn view(&self) -> HookState {
        HookState { node: self.node, stack: self.stack@, stage: self.stage }
    }
}

fn go_initialized(run: HookRun) -> (r: (HookRun, HookAction))
    ensures
        (r.0@, r.1) == initialized(run@),
{
    let mut run = run;
    run.node = match run.node {
        Some(mut n) => {
            n.user_kernel_initialized = true;
            Some(n)
        },
        None => None,
    };
    run.stage = HookStage::Over;
    (run, HookAction::Done)
}

fn go_init(run: HookRun, hook: &UserKernelHook) -> (r: (HookRun, HookAction))
    ensures
        (r.0@, r.1) == to_init(run@, hook@),
{
    match hook.init {
        Some(callback) => {
            let mut run = run;
            push_user_kernel_in_init(&mut run.stack, hook.node_id);
            run.stage = HookStage::Initializing;
            (run, HookAction::CallInit(callback))
        },
        None => go_initialized(run),
    }
}

fn go_allocate(run: HookRun, hook: &UserKernelHook) -> (r: (HookRun, HookAction))
    ensures
        (r.0@, r.1) == to_allocate(run@, hook@),
{
    let mut run = run;
    if hook.auto_local_size > 0 {
        run.stage = HookStage::Allocating;
        (run, HookAction::Allocate(hook.auto_local_size))
    } else {
        run.node = match run.node {
            Some(mut n) => {
                n.local_data_auto_alloc = false;
                Some(n)
            },
            None => None,
        };
        go_init(run, hook)
    }
}

fn go_validate(run: HookRun, hook: &UserKernelHook) -> (r: (HookRun, HookAction))
    ensures
        (r.0@, r.1) == to_validate(run@, hook@),
{
    match hook.validate {
        Some(callback) => {
            let mut run = run;
            run.stage = HookStage::Validating;
            (run, HookAction::CallValidate(callback))
        },
        None => go_allocate(run, hook),
    }
}

fn go_teardown(run: HookRun, hook: &UserKernelHook) -> (r: (HookRun, HookAction))
    ensures
        (r.0@, r.1) == to_teardown(run@, hook@),
{
    let HookRun { node, stack, stage } = run;
    match node {
        Some(mut n) => {
            let address = n.local_data_ptr;
            let size = n.local_data_size;
            let owned = n.local_data_auto_alloc && address != 0 && size > 0;
            n.user_kernel_initialized = false;
            if n.local_data_auto_alloc {
                n.local_data_ptr = 0;
            }
            let after = HookRun { node: Some(n), stack, stage: HookStage::TornDown };
            if owned {
                (after, HookAction::Free(address, size))
            } else {
                go_validate(after, hook)
            }
        },
        None => go_validate(HookRun { node: None, stack, stage }, hook),
    }
}

/// Takes one step of a hook.  `status` and `address` are what the last action
/// answered; the answer says what to do next.
pub fn advance_hook(
    run: HookRun,
    hook: &UserKernelHook,
    status: vx_status,
    address: u64,
) -> (r: (HookRun, HookAction))
    ensures
        (r.0@, r.1) == hook_step(run@, hook@, status, address),
{
    let mut run = run;
    match run.stage {
        HookStage::Begin => {
            let was_initialized = match &run.node {
                Some(n) => n.user_kernel_initialized,
                None => false,
            };
            if was_initialized {
                match hook.deinit {
                    Some(callback) => {
                        push_user_kernel_in_init(&mut run.stack, hook.node_id);
                        run.stage = HookStage::Deinitializing;
                        (run, HookAction::CallDeinit(callback))
                    },
                    None => go_teardown(run, hook),
                }
            } else {
                go_validate(run, hook)
            }
        },
        HookStage::Deinitializing => {
            pop_user_kernel_in_init(&mut run.stack);
            go_teardown(run, hook)
        },
        HookStage::TornDown => go_validate(run, hook),
        HookStage::Validating => if status != VX_SUCCESS {
            run.stage = HookStage::Over;
            (run, HookAction::Fail(status))
        } else {
            run.stage = HookStage::Validated;
            (run, HookAction::ApplyValidRects)
        },
        HookStage::Validated => go_allocate(run, hook),
        HookStage::Allocating => {
            run.node = match run.node {
                Some(mut n) => {
                    n.local_data_size = hook.auto_local_size;
                    n.local_data_ptr = address;
                    n.local_data_auto_alloc = true;
                    Some(n)
                },
                None => None,
            };
            go_init(run, hook)
        },
        HookStage::Initializing => {
            pop_user_kernel_in_init(&mut run.stack);
            if status != VX_SUCCESS {
                run.stage = HookStage::Over;
                (run, HookAction::Fail(status))
            } else {
                go_initialized(run)
            }
        },
        HookStage::Over => (run, HookAction::Done),
    }
}

/// What taking a node of a user kernel out of use asks of the host.
pub struct Teardown {
    /// The parameters handed to the deinitializer.
    pub param_refs: Vec<u64>,
    /// The deinitializer to call.
    pub deinit: Option<u64>,
    /// Local data to free, with its size.
    pub free: Option<(u64, usize)>,
}

/// Whether a node has to be taken out of use: it runs a kernel of the application
/// and its initializer has run.
pub open spec fn needs_teardown(nodes: Map<u64, NodeData>, node_id: u64) -> bool {
    nodes.contains_key(node_id) && nodes[node_id].user_kernel_initialized
        && nodes[node_id].kernel_id >= USER_KERNEL_BASE
}

/// The deinitializer of a kernel.
pub open spec fn deinitializer(kernels: Seq<VxCUserKernel>, kernel_id: u64) -> Option<u64> {
    match crate::user_kernels::position_of(kernels, crate::user_kernels::enum_of(kernel_id)) {
        Some(i) => kernels[i as int].deinit,
        None => None,
    }
}

/// Begins to take the node of a user kernel out of use.  `None` where nothing has
/// to be done.
pub fn deinit_user_kernel_node(
    nodes: &HashMap<u64, NodeData>,
    user_kernels: &UserKernels,
    node_id: u64,
) -> (r: Option<Teardown>)
    ensures
        match r {
            Some(teardown) => {
                &&& needs_teardown(nodes@, node_id)
                &&& teardown.param_refs@ == handed(nodes@[node_id].parameters@)
                &&& teardown.deinit == deinitializer(
                    user_kernels.kernels@,
                    nodes@[node_id].kernel_id,
                )
                &&& teardown.free == if owns_data(nodes@[node_id]) {
                    Some((nodes@[node_id].local_data_ptr, nodes@[node_id].local_data_size))
                } else {
                    None
                }
            },
            None => !needs_teardown(nodes@, node_id),
        },
{
    match nodes.get(&node_id) {
        Some(node) => {
            if !node.user_kernel_initialized || node.kernel_id < USER_KERNEL_BASE {
                return None;
            }
            let deinit: Option<u64> = match user_kernels.find(kernel_key(node.kernel_id)) {
                Some(i) => user_kernels.kernels[i].deinit,
                None => None,
            };
            let free: Option<(u64, usize)> = if node.local_data_auto_alloc && node.local_data_ptr
                != 0 && node.local_data_size > 0 {
                Some((node.local_data_ptr, node.local_data_size))
            } else {
                None
            };
            Some(Teardown { param_refs: hand_over(&node.parameters), deinit, free })
        },
        None => None,
    }
}

/// Some nodes once one of them is out of use.
pub open spec fn with_teardown(nodes: Map<u64, NodeData>, node_id: u64) -> Map<u64, NodeData> {
    if nodes.contains_key(node_id) {
        nodes.insert(
            node_id,
            NodeData { user_kernel_initialized: false, local_data_ptr: 0, ..nodes[node_id] },
        )
    } else {
        nodes
    }
}

/// Records that a node is out of use.
pub fn finish_deinit(nodes: &mut HashMap<u64, NodeData>, node_id: u64)
    ensures
        final(nodes)@ == with_teardown(old(nodes)@, node_id),
{
    if let Some(mut node) = nodes.remove(&node_id) {
        node.user_kernel_initialized = false;
        node.local_data_ptr = 0;
        nodes.insert(node_id, node);
    }
    assert(nodes@ =~= with_teardown(old(nodes)@, node_id));
}

/// Taking a node out of use twice is taking it out of use once.
pub proof fn law_teardown_is_idempotent(nodes: Map<u64, NodeData>, node_id: u64)
    ensures
        !needs_teardown(with_teardown(nodes, node_id), node_id),
        with_teardown(with_teardown(nodes, node_id), node_id) == with_teardown(nodes, node_id),
{
    assert(with_teardown(with_teardown(nodes, node_id), node_id) =~= with_teardown(
        nodes,
        node_id,
    ));
}

/// Entering and leaving an initializer restores the nodes that were inside one.
pub proof fn law_push_then_pop(stack: Seq<u64>, node_id: u64)
    ensures
        popped(stack.push(node_id)) == stack,
{
    assert(popped(stack.push(node_id)) =~= stack);
}

/// A hook that is done leaves its node initialized, and one that fails leaves it
/// as it was before the initializer.
pub proof fn law_hook_outcome(s: HookState, hook: HookSpec, status: vx_status, address: u64)
    requires
        s.stage != HookStage::Over,
    ensures
        hook_step(s, hook, status, address).1 == HookAction::Done ==> (hook_step(
            s,
            hook,
            status,
            address,
        ).0.node matches Some(n) ==> n.user_kernel_initialized),
        hook_step(s, hook, status, address).1 is Fail ==> status != VX_SUCCESS && hook_step(
            s,
            hook,
            status,
            address,
        ).1 == HookAction::Fail(status) && hook_step(s, hook, status, address).0.node == s.node,
{
}

/// A callback is handed each parameter in its place, and null for one that was not
/// set.
pub proof fn law_parameters_are_handed_in_place(params: Seq<Option<u64>>, i: int)
    requires
        0 <= i < params.len(),
    ensures
        handed(params).len() == params.len(),
        params[i] matches Some(r) ==> handed(params)[i] == r,
        params[i] is None ==> handed(params)[i] == 0,
{
}

/// The hook of a node has the callbacks and the local data of the kernel that the
/// node runs, each under its own name; a node of a built-in kernel has none.
pub proof fn law_hooks_have_the_kernels_callbacks(
    nodes: Map<u64, NodeData>,
    kernels: Seq<VxCUserKernel>,
    node_id: u64,
)
    requires
        nodes.contains_key(node_id),
    ensures
        nodes[node_id].kernel_id < USER_KERNEL_BASE ==> hook_of(nodes, kernels, node_id) is None,
        crate::user_kernels::position_of(
            kernels,
            crate::user_kernels::enum_of(nodes[node_id].kernel_id),
        ) is None ==> hook_of(nodes, kernels, node_id) is None,
        hook_of(nodes, kernels, node_id) matches Some(h) ==> {
            let i = crate::user_kernels::position_of(
                kernels,
                crate::user_kernels::enum_of(nodes[node_id].kernel_id),
            )->0;
            let k = kernels[i as int];
            &&& h.node_id == node_id
            &&& h.param_refs == handed(nodes[node_id].parameters@)
            &&& h.validate == k.validate
            &&& h.init == k.init
            &&& h.deinit == k.deinit
            &&& h.auto_local_size == k.local_data_size
        },
{
}

/// The hooks of some nodes are those of the nodes that have one, each once and in
/// the order of the nodes.
pub proof fn law_hooks_follow_the_nodes(
    nodes: Map<u64, NodeData>,
    kernels: Seq<VxCUserKernel>,
    ids: Seq<u64>,
    more: u64,
)
    ensures
        hooks_of(nodes, kernels, Seq::empty()).len() == 0,
        hook_of(nodes, kernels, more) matches Some(h) ==> hooks_of(nodes, kernels, ids.push(more))
            == hooks_of(nodes, kernels, ids).push(h),
        hook_of(nodes, kernels, more) is None ==> hooks_of(nodes, kernels, ids.push(more))
            == hooks_of(nodes, kernels, ids),
{
    assert(ids.push(more).drop_last() =~= ids);
}

/// The steps of a hook come in one order: what an earlier verification left is torn
/// down, the validator is asked, local data is provided, the initializer is called.
pub proof fn law_hook_steps_come_in_order(
    node: NodeData,
    stack: Seq<u64>,
    hook: HookSpec,
    address: u64,
    failure: vx_status,
)
    requires
        hook.deinit is Some,
        hook.validate is Some,
        hook.init is Some,
        hook.auto_local_size > 0,
        failure != VX_SUCCESS,
    ensures
        ({
            let at = |stage: HookStage| HookState { node: Some(node), stack, stage };
            let ok = |stage: HookStage| hook_step(at(stage), hook, VX_SUCCESS, address);
            &&& node.user_kernel_initialized ==> ok(HookStage::Begin).1 == HookAction::CallDeinit(
                hook.deinit->0,
            ) && ok(HookStage::Begin).0.stage is Deinitializing && ok(HookStage::Begin).0.stack
                == stack.push(hook.node_id)
            &&& !node.user_kernel_initialized ==> ok(HookStage::Begin).1
                == HookAction::CallValidate(hook.validate->0)
            &&& node.local_data_auto_alloc && node.local_data_ptr != 0 && node.local_data_size > 0
                ==> ok(HookStage::Deinitializing).1 == HookAction::Free(
                node.local_data_ptr,
                node.local_data_size,
            )
            &&& !node.local_data_auto_alloc ==> ok(HookStage::Deinitializing).1
                == HookAction::CallValidate(hook.validate->0)
            &&& ok(HookStage::TornDown).1 == HookAction::CallValidate(hook.validate->0)
            &&& ok(HookStage::Validating).1 == HookAction::ApplyValidRects
            &&& hook_step(at(HookStage::Validating), hook, failure, address).1 == HookAction::Fail(
                failure,
            )
            &&& ok(HookStage::Validated).1 == HookAction::Allocate(hook.auto_local_size)
            &&& ok(HookStage::Allocating).1 == HookAction::CallInit(hook.init->0)
            &&& ok(HookStage::Allocating).0.node->0.local_data_ptr == address
            &&& ok(HookStage::Allocating).0.node->0.local_data_size == hook.auto_local_size
            &&& ok(HookStage::Allocating).0.node->0.local_data_auto_alloc
            &&& ok(HookStage::Allocating).0.stack == stack.push(hook.node_id)
            &&& ok(HookStage::Initializing).1 == HookAction::Done
            &&& hook_step(at(HookStage::Initializing), hook, failure, address).1
                == HookAction::Fail(failure)
        }),
{
}

/// Tearing a node down takes away what its initializer left and nothing else, and
/// leaves local data that the application set.
pub proof fn law_teardown_takes_the_local_data(
    node: NodeData,
    nodes: Map<u64, NodeData>,
    node_id: u64,
    other: u64,
)
    requires
        nodes.contains_key(node_id),
        other != node_id,
    ensures
        !torn_down(node).user_kernel_initialized,
        node.local_data_auto_alloc ==> torn_down(node).local_data_ptr == 0,
        !node.local_data_auto_alloc ==> torn_down(node).local_data_ptr == node.local_data_ptr,
        torn_down(node).parameters == node.parameters,
        torn_down(node).kernel_id == node.kernel_id,
        with_teardown(nodes, node_id)[node_id].local_data_ptr == 0,
        with_teardown(nodes, node_id)[node_id].parameters == nodes[node_id].parameters,
        nodes.contains_key(other) ==> with_teardown(nodes, node_id)[other] == nodes[other],
        owns_data(node) ==> node.local_data_auto_alloc && node.local_data_ptr != 0
            && node.local_data_size > 0,
{
}

/// A node is taken down by the callback of the first user kernel with its number; a
/// node of another kernel is not taken down at all.
pub proof fn law_kernels_are_taken_down(kernels: Seq<VxCUserKernel>, kernel_id: u64)
    ensures
        match crate::user_kernels::position_of(kernels, crate::user_kernels::enum_of(kernel_id)) {
            Some(i) => i < kernels.len() && kernels[i as int].enumeration
                == crate::user_kernels::enum_of(kernel_id) && deinitializer(kernels, kernel_id)
                == kernels[i as int].deinit,
            None => deinitializer(kernels, kernel_id) is None,
        },
{
    crate::search::lemma_first_where(
        kernels.len(),
        |i: int| kernels[i].enumeration == crate::user_kernels::enum_of(kernel_id),
    );
}

/// A node is taken out of use where its kernel is one of the application and was
/// initialized, and not otherwise.
pub proof fn law_nodes_to_take_out_of_use(nodes: Map<u64, NodeData>, node_id: u64)
    ensures
        nodes.contains_key(node_id) && nodes[node_id].user_kernel_initialized
            && nodes[node_id].kernel_id >= USER_KERNEL_BASE ==> needs_teardown(nodes, node_id),
        !nodes.contains_key(node_id) ==> !needs_teardown(nodes, node_id),
        !nodes[node_id].user_kernel_initialized ==> !needs_teardown(nodes, node_id),
        nodes[node_id].kernel_id < USER_KERNEL_BASE ==> !needs_teardown(nodes, node_id),
        nodes.contains_key(node_id) ==> !needs_teardown(with_teardown(nodes, node_id), node_id),
{
}

} // verus!
