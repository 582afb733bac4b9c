//! Registration of the application's kernels and kernel libraries.
use vstd::prelude::*;
use crate::constants::{
    VX_KERNEL_LOCAL_DATA_SIZE, VX_KERNEL_PIPEUP_INPUT_DEPTH, VX_KERNEL_PIPEUP_OUTPUT_DEPTH,
};
use crate::records::{UserKernelParam, VxCUserKernel, VxKernelLibraryRegistration};
use crate::refs::References;
use crate::types::{
    VX_BIDIRECTIONAL, VX_ERROR_INVALID_PARAMETERS, VX_ERROR_INVALID_REFERENCE, VX_FAILURE,
    VX_INPUT, VX_OUTPUT, VX_SUCCESS, VX_TYPE_DELAY, VX_TYPE_KERNEL, vx_enum, vx_status,
};
use crate::user_kernels::{
    USER_KERNEL_BASE, USER_KERNEL_IDS, UserKernels, kernel_handle, kernel_key,
};
use crate::values::{NUMBER_BYTES, SIZE_BYTES};
use std::collections::HashMap;

verus! {

broadcast use vstd::std_specs::hash::group_hash_axioms;

/// The full attribute of a kernel's local data size.
pub const KERNEL_LOCAL_DATA_SIZE_FULL: vx_enum = 0x80403;

/// The functions of a user kernel.
#[derive(Debug, Clone, Copy, PartialEq, Eq, Structural)]
pub struct KernelFunctions {
    pub kernel: Option<u64>,
    pub validate: Option<u64>,
    pub init: Option<u64>,
    pub deinit: Option<u64>,
}

/// The kernels with one more; one with the same number is replaced.
pub open spec fn with_kernel(kernels: Seq<VxCUserKernel>, added: VxCUserKernel) -> Seq<
    VxCUserKernel,
> {
    match crate::user_kernels::position_of(kernels, added.enumeration) {
        Some(i) => kernels.update(i as int, added),
        None => kernels.push(added),
    }
}

/// A kernel as it is added.
pub open spec fn added_kernel(
    name: String,
    enumeration: vx_enum,
    functions: KernelFunctions,
    num_params: u32,
    context: u64,
) -> VxCUserKernel {
    VxCUserKernel {
        name,
        enumeration,
        kernel: functions.kernel,
        validate: functions.validate,
        init: functions.init,
        deinit: functions.deinit,
        num_params,
        context_id: context,
        local_data_size: 0,
        pipeup_output_depth: 1,
        pipeup_input_depth: 1,
    }
}

/// Adds a kernel and answers its handle, null where the context or the name is
/// missing.  `None` stands for a null name or one that is not text.
pub fn vxAddUserKernel(
    user_kernels: &mut UserKernels,
    refs: &mut References,
    context: u64,
    name: Option<String>,
    enumeration: vx_enum,
    functions: KernelFunctions,
    num_params: u32,
) -> (kernel: u64)
    requires
        old(user_kernels).wf(),
    ensures
        final(user_kernels).wf(),
        final(user_kernels).params@ == old(user_kernels).params@,
        final(user_kernels).next_id == old(user_kernels).next_id,
        final(user_kernels).next_library_id == old(user_kernels).next_library_id,
        if context == 0 || name is None {
            &&& kernel == 0
            &&& final(user_kernels).kernels@ == old(user_kernels).kernels@
            &&& *final(refs) == *old(refs)
        } else {
            &&& kernel == crate::user_kernels::handle_of(enumeration)
            &&& final(user_kernels).kernels@ == with_kernel(
                old(user_kernels).kernels@,
                added_kernel(name->0, enumeration, functions, num_params, context),
            )
            &&& final(refs).counts@ == old(refs).counts@.insert(kernel, 1)
            &&& final(refs).types@ == old(refs).types@.insert(kernel, VX_TYPE_KERNEL)
            &&& final(refs).names@.dom() == old(refs).names@.dom().insert(kernel)
            &&& final(refs).names@[kernel]@ == Seq::<u8>::empty()
            &&& final(refs).names@.remove(kernel) == old(refs).names@.remove(kernel)
        },
{
    if context == 0 {
        return 0;
    }
    let text = match name {
        Some(n) => n,
        None => return 0,
    };
    let ghost kernels = user_kernels.kernels@;
    let added = VxCUserKernel {
        name: text,
        enumeration,
        kernel: functions.kernel,
        validate: functions.validate,
        init: functions.init,
        deinit: functions.deinit,
        num_params,
        context_id: context,
        local_data_size: 0,
        pipeup_output_depth: 1,
        pipeup_input_depth: 1,
    };
    match user_kernels.find(enumeration) {
        Some(i) => {
            user_kernels.kernels.set(i, added);
        },
        None => {
            proof {
                crate::search::lemma_first_where(
                    kernels.len(),
                    |i: int| kernels[i].enumeration == enumeration,
                );
                assert forall|i: int| 0 <= i < kernels.len() implies (
                #[trigger] kernels[i]).enumeration != enumeration by {
                    assert(!(|i: int| kernels[i].enumeration == enumeration)(i));
                }
            }
            user_kernels.kernels.push(added);
        },
    }
    let handle: u64 = kernel_handle(enumeration);
    refs.register(handle, VX_TYPE_KERNEL);
    let none: Vec<u8> = Vec::new();
    refs.names.insert(handle, none);
    proof {
        assert(refs.names@ == old(refs).names@.insert(handle, none));
        assert(refs.names@.remove(handle) =~= old(refs).names@.remove(handle));
        assert(refs.names@.dom() =~= old(refs).names@.dom().insert(handle));
    }
    handle
}

/// The kernel number handed out next: the numbers start again once they are
/// used up.
pub open spec fn fresh_kernel_id(next_id: u64) -> u64 {
    if next_id >= USER_KERNEL_BASE + USER_KERNEL_IDS {
        USER_KERNEL_BASE
    } else {
        next_id
    }
}

/// Hands out a kernel number.  It goes to `id`.
pub fn vxAllocateUserKernelId(user_kernels: &mut UserKernels, context: u64, id: u64) -> (r: Result<
    vx_enum,
    vx_status,
>)
    requires
        old(user_kernels).wf(),
    ensures
        final(user_kernels).wf(),
        final(user_kernels).kernels@ == old(user_kernels).kernels@,
        final(user_kernels).params@ == old(user_kernels).params@,
        final(user_kernels).next_library_id == old(user_kernels).next_library_id,
        r == if context == 0 {
            Err::<vx_enum, vx_status>(VX_ERROR_INVALID_REFERENCE)
        } else if id == 0 {
            Err::<vx_enum, vx_status>(VX_ERROR_INVALID_PARAMETERS)
        } else {
            Ok::<vx_enum, vx_status>(
                crate::user_kernels::enum_of(fresh_kernel_id(old(user_kernels).next_id)),
            )
        },
        final(user_kernels).next_id == if r is Ok {
            (fresh_kernel_id(old(user_kernels).next_id) + 1) as u64
        } else {
            old(user_kernels).next_id
        },
{
    if context == 0 {
        return Err(VX_ERROR_INVALID_REFERENCE);
    }
    if id == 0 {
        return Err(VX_ERROR_INVALID_PARAMETERS);
    }
    let current: u64 = if user_kernels.next_id >= USER_KERNEL_BASE + USER_KERNEL_IDS {
        USER_KERNEL_BASE
    } else {
        user_kernels.next_id
    };
    user_kernels.next_id = current + 1;
    Ok(kernel_key(current))
}

/// Hands out a library number.  It goes to `id`.
pub fn vxAllocateUserKernelLibraryId(
    user_kernels: &mut UserKernels,
    context: u64,
    id: u64,
) -> (r: Result<vx_enum, vx_status>)
    ensures
        final(user_kernels).kernels@ == old(user_kernels).kernels@,
        final(user_kernels).params@ == old(user_kernels).params@,
        final(user_kernels).next_id == old(user_kernels).next_id,
        r == if context == 0 {
            Err::<vx_enum, vx_status>(VX_ERROR_INVALID_REFERENCE)
        } else if id == 0 {
            Err::<vx_enum, vx_status>(VX_ERROR_INVALID_PARAMETERS)
        } else {
            Ok::<vx_enum, vx_status>(
                crate::user_kernels::enum_of(old(user_kernels).next_library_id),
            )
        },
        final(user_kernels).next_library_id == if r is Ok {
            crate::user_structs::next_after(old(user_kernels).next_library_id)
        } else {
            old(user_kernels).next_library_id
        },
{
    if context == 0 {
        return Err(VX_ERROR_INVALID_REFERENCE);
    }
    if id == 0 {
        return Err(VX_ERROR_INVALID_PARAMETERS);
    }
    let current: u64 = user_kernels.next_library_id;
    user_kernels.next_library_id = if current == u64::MAX {
        0
    } else {
        current + 1
    };
    Ok(kernel_key(current))
}

/// A kernel parameter that nobody declared.
pub open spec fn blank_param() -> UserKernelParam {
    UserKernelParam { direction: 0, data_type: 0, state: 0 }
}

/// A parameter list with the parameter at a position declared; the list grows
/// by blank parameters where it is too short.
pub open spec fn with_param(
    params: Seq<UserKernelParam>,
    index: nat,
    param: UserKernelParam,
) -> Seq<UserKernelParam> {
    Seq::new(
        if params.len() > index {
            params.len()
        } else {
            index + 1
        },
        |i: int|
            if i == index {
                param
            } else if i < params.len() {
                params[i]
            } else {
                blank_param()
            },
    )
}

/// The declared parameters of a kernel.
pub open spec fn declared(params: Map<i32, Vec<UserKernelParam>>, enumeration: vx_enum) -> Seq<
    UserKernelParam,
> {
    if params.contains_key(enumeration) {
        params[enumeration]@
    } else {
        Seq::empty()
    }
}

/// Whether a parameter may not be declared: a delay is never written.
pub open spec fn is_written_delay(direction: vx_enum, data_type: vx_enum) -> bool {
    data_type == VX_TYPE_DELAY && (direction == VX_OUTPUT || direction == VX_BIDIRECTIONAL)
}

/// Declares a parameter of a kernel.
pub fn vxAddParameterToKernel(
    user_kernels: &mut UserKernels,
    kernel: u64,
    index: u32,
    direction: vx_enum,
    data_type: vx_enum,
    state: vx_enum,
) -> (status: vx_status)
    ensures
        final(user_kernels).kernels@ == old(user_kernels).kernels@,
        final(user_kernels).next_id == old(user_kernels).next_id,
        final(user_kernels).next_library_id == old(user_kernels).next_library_id,
        status == if kernel == 0 {
            VX_ERROR_INVALID_REFERENCE
        } else if is_written_delay(direction, data_type) {
            VX_ERROR_INVALID_PARAMETERS
        } else {
            VX_SUCCESS
        },
        ({
            let key = crate::user_kernels::enum_of(kernel);
            if status == VX_SUCCESS {
                &&& declared(final(user_kernels).params@, key) == with_param(
                    declared(old(user_kernels).params@, key),
                    index as nat,
                    UserKernelParam { direction, data_type, state },
                )
                &&& final(user_kernels).params@.dom() == old(user_kernels).params@.dom().insert(
                    key,
                )
                &&& final(user_kernels).params@.remove(key) == old(user_kernels).params@.remove(
                    key,
                )
            } else {
                final(user_kernels).params@ == old(user_kernels).params@
            }
        }),
{
    if kernel == 0 {
        return VX_ERROR_INVALID_REFERENCE;
    }
    if data_type == VX_TYPE_DELAY && (direction == VX_OUTPUT || direction == VX_BIDIRECTIONAL) {
        return VX_ERROR_INVALID_PARAMETERS;
    }
    let key: vx_enum = kernel_key(kernel);
    let mut list = match user_kernels.params.remove(&key) {
        Some(l) => l,
        None => Vec::new(),
    };
    let ghost before = list@;
    assert(before =~= declared(old(user_kernels).params@, key));
    let at: usize = index as usize;
    while list.len() <= at
        invariant
            at == index,
            before.len() <= list@.len(),
            list@.len() <= before.len() || list@.len() <= at + 1,
            forall|i: int| 0 <= i < before.len() ==> list@[i] == before[i],
            forall|i: int| before.len() <= i < list@.len() ==> list@[i] == blank_param(),
        decreases at + 1 - list.len(),
    {
        list.push(UserKernelParam { direction: 0, data_type: 0, state: 0 });
    }
    let param = UserKernelParam { direction, data_type, state };
    list.set(at, param);
    assert(list@ =~= with_param(before, index as nat, param));
    user_kernels.params.insert(key, list);
    proof {
        assert(user_kernels.params@.dom() =~= old(user_kernels).params@.dom().insert(key));
        assert(user_kernels.params@.remove(key) =~= old(user_kernels).params@.remove(key));
    }
    VX_SUCCESS
}

/// What a kernel attribute is set to.
#[derive(Debug, Clone, Copy, PartialEq, Eq, Structural)]
pub struct KernelSetting {
    /// The value, read as a size.
    pub size: usize,
    /// The value, read as a number.
    pub depth: u32,
}

/// Whether an attribute is the local data size of a kernel.
pub open spec fn is_local_data_size(attribute: vx_enum) -> bool {
    attribute == KERNEL_LOCAL_DATA_SIZE_FULL || attribute == VX_KERNEL_LOCAL_DATA_SIZE
}

/// The kernels after an attribute of one of them was set.
pub open spec fn with_attribute(
    kernels: Seq<VxCUserKernel>,
    kernel: u64,
    attribute: vx_enum,
    setting: KernelSetting,
) -> Seq<VxCUserKernel> {
    match crate::user_kernels::position_of(kernels, crate::user_kernels::enum_of(kernel)) {
        Some(i) => {
            let k = kernels[i as int];
            if is_local_data_size(attribute) {
                kernels.update(i as int, VxCUserKernel { local_data_size: setting.size, ..k })
            } else if attribute == VX_KERNEL_PIPEUP_OUTPUT_DEPTH {
                kernels.update(i as int, VxCUserKernel { pipeup_output_depth: setting.depth, ..k })
            } else if attribute == VX_KERNEL_PIPEUP_INPUT_DEPTH {
                kernels.update(i as int, VxCUserKernel { pipeup_input_depth: setting.depth, ..k })
            } else {
                kernels
            }
        },
        None => kernels,
    }
}

/// The status of setting a kernel attribute.  Attributes that no kernel keeps
/// are accepted.
pub open spec fn kernel_set_status(kernel: u64, attribute: vx_enum, ptr: u64, size: usize) -> vx_status {
    if kernel == 0 {
        VX_ERROR_INVALID_REFERENCE
    } else if is_local_data_size(attribute) && (ptr == 0 || size < SIZE_BYTES) {
        VX_ERROR_INVALID_PARAMETERS
    } else if (attribute == VX_KERNEL_PIPEUP_OUTPUT_DEPTH || attribute
        == VX_KERNEL_PIPEUP_INPUT_DEPTH) && (ptr == 0 || size < NUMBER_BYTES) {
        VX_ERROR_INVALID_PARAMETERS
    } else {
        VX_SUCCESS
    }
}

/// Sets an attribute of a kernel.  Built-in kernels accept it and keep nothing.
pub fn vxSetKernelAttribute(
    user_kernels: &mut UserKernels,
    kernel: u64,
    attribute: vx_enum,
    ptr: u64,
    setting: KernelSetting,
    size: usize,
) -> (status: vx_status)
    requires
        old(user_kernels).wf(),
    ensures
        final(user_kernels).wf(),
        status == kernel_set_status(kernel, attribute, ptr, size),
        final(user_kernels).params@ == old(user_kernels).params@,
        final(user_kernels).next_id == old(user_kernels).next_id,
        final(user_kernels).next_library_id == old(user_kernels).next_library_id,
        final(user_kernels).kernels@ == if status == VX_SUCCESS {
            with_attribute(old(user_kernels).kernels@, kernel, attribute, setting)
        } else {
            old(user_kernels).kernels@
        },
{
    if kernel == 0 {
        return VX_ERROR_INVALID_REFERENCE;
    }
    let key: vx_enum = kernel_key(kernel);
    if attribute == KERNEL_LOCAL_DATA_SIZE_FULL || attribute == VX_KERNEL_LOCAL_DATA_SIZE {
        if ptr == 0 || size < SIZE_BYTES {
            return VX_ERROR_INVALID_PARAMETERS;
        }
        if let Some(i) = user_kernels.find(key) {
            user_kernels.kernels[i].local_data_size = setting.size;
        }
        return VX_SUCCESS;
    }
    if attribute == VX_KERNEL_PIPEUP_OUTPUT_DEPTH || attribute == VX_KERNEL_PIPEUP_INPUT_DEPTH {
        if ptr == 0 || size < NUMBER_BYTES {
            return VX_ERROR_INVALID_PARAMETERS;
        }
        if let Some(i) = user_kernels.find(key) {
            if attribute == VX_KERNEL_PIPEUP_OUTPUT_DEPTH {
                user_kernels.kernels[i].pipeup_output_depth = setting.depth;
            } else {
                user_kernels.kernels[i].pipeup_input_depth = setting.depth;
            }
        }
        return VX_SUCCESS;
    }
    VX_SUCCESS
}

/// Declares a kernel complete.
pub fn vxFinalizeKernel(kernel: u64) -> (status: vx_status)
    ensures
        status == if kernel == 0 {
            VX_FAILURE
        } else {
            VX_SUCCESS
        },
{
    if kernel == 0 {
        return VX_FAILURE;
    }
    VX_SUCCESS
}

/// Removes a kernel of the application, with its parameters and everything that
/// is recorded of its handle.  Built-in kernels stay.
pub fn vxRemoveKernel(user_kernels: &mut UserKernels, refs: &mut References, kernel: u64) -> (status:
    vx_status)
    requires
        old(user_kernels).wf(),
    ensures
        final(user_kernels).wf(),
        final(user_kernels).next_id == old(user_kernels).next_id,
        final(user_kernels).next_library_id == old(user_kernels).next_library_id,
        ({
            let key = crate::user_kernels::enum_of(kernel);
            let kernels = old(user_kernels).kernels@;
            match crate::user_kernels::position_of(kernels, key) {
                Some(i) if kernel != 0 => {
                    &&& status == VX_SUCCESS
                    &&& final(user_kernels).kernels@ == kernels.remove(i as int)
                    &&& final(user_kernels).params@ == old(user_kernels).params@.remove(key)
                    &&& final(refs).counts@ == old(refs).counts@.remove(kernel)
                    &&& final(refs).types@ == old(refs).types@.remove(kernel)
                    &&& final(refs).names@ == old(refs).names@.remove(kernel)
                },
                _ => {
                    &&& status == if kernel == 0 {
                        VX_ERROR_INVALID_REFERENCE
                    } else {
                        VX_ERROR_INVALID_PARAMETERS
                    }
                    &&& *final(user_kernels) == *old(user_kernels)
                    &&& *final(refs) == *old(refs)
                },
            }
        }),
{
    if kernel == 0 {
        return VX_ERROR_INVALID_REFERENCE;
    }
    let key: vx_enum = kernel_key(kernel);
    match user_kernels.find(key) {
        Some(i) => {
            user_kernels.kernels.remove(i);
            user_kernels.params.remove(&key);
            refs.unregister(kernel);
            refs.names.remove(&kernel);
            VX_SUCCESS
        },
        None => VX_ERROR_INVALID_PARAMETERS,
    }
}

/// A kernel library known to a context under a module name.
pub struct KernelLibrary {
    pub context: u64,
    pub module: String,
    pub functions: VxKernelLibraryRegistration,
}

/// The known kernel libraries.
pub struct KernelLibraries {
    pub libraries: Vec<KernelLibrary>,
}

/// Whether the library at a position has a context and a module name.
pub open spec fn library_at(libraries: Seq<KernelLibrary>, context: u64, module: Seq<char>) -> spec_fn(
    int,
) -> bool {
    |i: int| libraries[i].context == context && libraries[i].module@ == module
}

/// The functions of the library that a context knows under a module name.
pub open spec fn library_of(libraries: Seq<KernelLibrary>, context: u64, module: Seq<char>) -> Option<
    VxKernelLibraryRegistration,
> {
    match crate::search::first_where(libraries.len(), library_at(libraries, context, module)) {
        Some(i) => Some(libraries[i as int].functions),
        None => None,
    }
}

impl KernelLibraries {
    /// Finds the library that a context knows under a module name.
    pub fn find(&self, context: u64, module: &String) -> (r: Option<usize>)
        ensures
            match r {
                Some(i) => i < self.libraries@.len() && crate::search::first_where(
                    self.libraries@.len(),
                    library_at(self.libraries@, context, module@),
                ) == Some(i as nat),
                None => crate::search::first_where(
                    self.libraries@.len(),
                    library_at(self.libraries@, context, module@),
                ) is None,
            },
    {
        let ghost holds = library_at(self.libraries@, context, module@);
        for i in 0..self.libraries.len()
            invariant
                holds == library_at(self.libraries@, context, module@),
                forall|j: int| 0 <= j < i ==> !#[trigger] holds(j),
        {
            if self.libraries[i].context == context && self.libraries[i].module == *module {
                proof {
                    assert(holds(i as int));
                    crate::search::lemma_is_first(self.libraries@.len(), holds, i as nat);
                }
                return Some(i);
            }
        }
        proof {
            crate::search::lemma_is_nowhere(self.libraries@.len(), holds);
        }
        None
    }
}

/// The status of making a kernel library known.
pub open spec fn library_status(context: u64, module: Option<Seq<char>>) -> vx_status {
    if context == 0 {
        VX_ERROR_INVALID_REFERENCE
    } else {
        match module {
            Some(m) if m.len() > 0 => VX_SUCCESS,
            _ => VX_ERROR_INVALID_PARAMETERS,
        }
    }
}

/// Makes a kernel library known to a context under a module name.  Its publisher
/// is not called before the module is loaded.  `None` stands for a null name or
/// one that is not text.
pub fn vxRegisterKernelLibrary(
    known: &mut KernelLibraries,
    context: u64,
    module: Option<String>,
    publish: Option<u64>,
    unpublish: Option<u64>,
) -> (status: vx_status)
    ensures
        status == library_status(
            context,
            match module {
                Some(m) => Some(m@),
                None => None,
            },
        ),
        status != VX_SUCCESS ==> final(known).libraries@ == old(known).libraries@,
        status == VX_SUCCESS ==> {
            &&& library_of(final(known).libraries@, context, module->0@) == Some(
                VxKernelLibraryRegistration { publish, unpublish },
            )
            &&& forall|c: u64, m: Seq<char>|
                c != context || m != module->0@ ==> #[trigger] library_of(
                    final(known).libraries@,
                    c,
                    m,
                ) == library_of(old(known).libraries@, c, m)
        },
{
    if context == 0 {
        return VX_ERROR_INVALID_REFERENCE;
    }
    let name = match module {
        Some(m) => m,
        None => return VX_ERROR_INVALID_PARAMETERS,
    };
    if name.as_str().unicode_len() == 0 {
        return VX_ERROR_INVALID_PARAMETERS;
    }
    let ghost text = name@;
    let ghost before = known.libraries@;
    let functions = VxKernelLibraryRegistration { publish, unpublish };
    match known.find(context, &name) {
        Some(i) => {
            proof {
                crate::search::lemma_first_where(before.len(), library_at(before, context, text));
                assert(library_at(before, context, text)(i as int));
            }
            known.libraries.set(i, KernelLibrary { context, module: name, functions });
            proof {
                lemma_library_changed(before, known.libraries@, i as nat, context, text);
            }
        },
        None => {
            known.libraries.push(KernelLibrary { context, module: name, functions });
            proof {
                assert(known.libraries@.take(before.len() as int) =~= before);
                lemma_library_added(before, known.libraries@, context, text);
            }
        },
    }
    VX_SUCCESS
}

proof fn lemma_library_changed(
    before: Seq<KernelLibrary>,
    after: Seq<KernelLibrary>,
    i: nat,
    context: u64,
    module: Seq<char>,
)
    requires
        i < before.len(),
        after == before.update(i as int, after[i as int]),
        before[i as int].context == context,
        before[i as int].module@ == module,
        after[i as int].context == context,
        after[i as int].module@ == module,
        crate::search::first_where(before.len(), library_at(before, context, module)) == Some(i),
    ensures
        library_of(after, context, module) == Some(after[i as int].functions),
        forall|c: u64, m: Seq<char>|
            c != context || m != module ==> #[trigger] library_of(after, c, m) == library_of(
                before,
                c,
                m,
            ),
{
    assert(library_of(after, context, module) == Some(after[i as int].functions)) by {
        lemma_same_places(before, after, context, module);
    }
    assert forall|c: u64, m: Seq<char>| c != context || m != module implies #[trigger] library_of(
        after,
        c,
        m,
    ) == library_of(before, c, m) by {
        lemma_same_places(before, after, c, m);
        crate::search::lemma_first_where(before.len(), library_at(before, c, m));
    }
}

proof fn lemma_same_places(
    before: Seq<KernelLibrary>,
    after: Seq<KernelLibrary>,
    c: u64,
    m: Seq<char>,
)
    requires
        before.len() <= after.len(),
        forall|j: int|
            0 <= j < before.len() ==> (#[trigger] after[j]).context == before[j].context
                && after[j].module@ == before[j].module@,
    ensures
        crate::search::first_where(before.len(), library_at(after, c, m))
            == crate::search::first_where(before.len(), library_at(before, c, m)),
{
    let n = before.len();
    let old_holds = library_at(before, c, m);
    let new_holds = library_at(after, c, m);
    crate::search::lemma_first_where(n, old_holds);
    assert forall|j: int| 0 <= j < n implies #[trigger] new_holds(j) == old_holds(j) by {
        assert(after[j].context == before[j].context);
    }
    match crate::search::first_where(n, old_holds) {
        Some(i) => {
            assert forall|j: int| 0 <= j < i implies !#[trigger] new_holds(j) by {
                assert(!old_holds(j));
            }
            assert(new_holds(i as int));
            crate::search::lemma_is_first(n, new_holds, i);
        },
        None => {
            assert forall|j: int| 0 <= j < n implies !#[trigger] new_holds(j) by {
                assert(!old_holds(j));
            }
            crate::search::lemma_is_nowhere(n, new_holds);
        },
    }
}

proof fn lemma_library_added(
    before: Seq<KernelLibrary>,
    after: Seq<KernelLibrary>,
    context: u64,
    module: Seq<char>,
)
    requires
        after.len() == before.len() + 1,
        after.take(before.len() as int) == before,
        after.last().context == context,
        after.last().module@ == module,
        crate::search::first_where(before.len(), library_at(before, context, module)) is None,
    ensures
        library_of(after, context, module) == Some(after.last().functions),
        forall|c: u64, m: Seq<char>|
            c != context || m != module ==> #[trigger] library_of(after, c, m) == library_of(
                before,
                c,
                m,
            ),
{
    assert forall|j: int| 0 <= j < before.len() implies #[trigger] after[j] == before[j] by {
        assert(after.take(before.len() as int)[j] == after[j]);
    }
    lemma_same_places(before, after, context, module);
    assert(library_at(after, context, module)(after.len() - 1));
    assert forall|c: u64, m: Seq<char>| c != context || m != module implies #[trigger] library_of(
        after,
        c,
        m,
    ) == library_of(before, c, m) by {
        lemma_same_places(before, after, c, m);
        assert(!library_at(after, c, m)(after.len() - 1));
        crate::search::lemma_first_where(before.len(), library_at(before, c, m));
    }
}

/// A kernel that was added is found under its number.
pub proof fn law_added_kernel_is_found(kernels: Seq<VxCUserKernel>, added: VxCUserKernel)
    ensures
        match crate::user_kernels::position_of(with_kernel(kernels, added), added.enumeration) {
            Some(i) => with_kernel(kernels, added)[i as int] == added,
            None => false,
        },
{
    let after = with_kernel(kernels, added);
    let e = added.enumeration;
    let old_holds = |i: int| kernels[i].enumeration == e;
    let holds = |i: int| after[i].enumeration == e;
    crate::search::lemma_first_where(kernels.len(), old_holds);
    let spot = match crate::user_kernels::position_of(kernels, e) {
        Some(i) => i,
        None => kernels.len(),
    };
    assert(after[spot as int] == added);
    assert(holds(spot as int));
    assert forall|j: int| 0 <= j < spot implies !#[trigger] holds(j) by {
        assert(!old_holds(j));
        assert(after[j] == kernels[j]);
    }
    crate::search::lemma_is_first(after.len(), holds, spot);
}

/// A kernel that was removed is no longer found, as long as no two kernels share
/// a number.
pub proof fn law_removed_kernel_is_gone(kernels: UserKernels, enumeration: vx_enum, i: nat)
    requires
        kernels.wf(),
        crate::user_kernels::position_of(kernels.kernels@, enumeration) == Some(i),
    ensures
        crate::user_kernels::position_of(kernels.kernels@.remove(i as int), enumeration) is None,
{
    let before = kernels.kernels@;
    let after = before.remove(i as int);
    crate::search::lemma_first_where(
        before.len(),
        |j: int| before[j].enumeration == enumeration,
    );
    let holds = |j: int| after[j].enumeration == enumeration;
    assert forall|j: int| 0 <= j < after.len() implies !#[trigger] holds(j) by {
        if j < i {
            assert(after[j] == before[j]);
            assert(before[j].enumeration != before[i as int].enumeration);
        } else {
            assert(after[j] == before[j + 1]);
            assert(before[i as int].enumeration != before[j + 1].enumeration);
        }
    }
    crate::search::lemma_is_nowhere(after.len(), holds);
}

/// The kernel numbers handed out lie in the application's range, and two handed
/// out one after the other differ.
pub proof fn law_kernel_ids(kernels: UserKernels)
    requires
        kernels.wf(),
    ensures
        USER_KERNEL_BASE <= fresh_kernel_id(kernels.next_id) < USER_KERNEL_BASE + USER_KERNEL_IDS,
        fresh_kernel_id((fresh_kernel_id(kernels.next_id) + 1) as u64) != fresh_kernel_id(
            kernels.next_id,
        ),
{
}

/// The kernel number that is handed out after a number of others.
pub open spec fn kernel_id_after(next_id: u64, others: nat) -> u64
    decreases others,
{
    if others == 0 {
        fresh_kernel_id(next_id)
    } else {
        kernel_id_after((fresh_kernel_id(next_id) + 1) as u64, (others - 1) as nat)
    }
}

proof fn lemma_kernel_id_after(next_id: u64, others: nat)
    requires
        USER_KERNEL_BASE <= next_id <= USER_KERNEL_BASE + USER_KERNEL_IDS,
        others < 2 * USER_KERNEL_IDS,
    ensures
        ({
            let id = fresh_kernel_id(next_id) + others;
            let end = USER_KERNEL_BASE + USER_KERNEL_IDS;
            kernel_id_after(next_id, others) == if id < end {
                id
            } else if id < end + USER_KERNEL_IDS {
                id - USER_KERNEL_IDS
            } else {
                id - 2 * USER_KERNEL_IDS
            }
        }),
    decreases others,
{
    if others > 0 {
        lemma_kernel_id_after((fresh_kernel_id(next_id) + 1) as u64, (others - 1) as nat);
    }
}

/// Kernel numbers are unique: of those handed out in a row, as many as there are
/// numbers in the application's range, no two are the same.  The one after them is
/// the first of them again.
pub proof fn law_kernel_ids_are_unique(kernels: UserKernels, i: nat, j: nat)
    requires
        kernels.wf(),
        i < j < USER_KERNEL_IDS,
    ensures
        kernel_id_after(kernels.next_id, i) != kernel_id_after(kernels.next_id, j),
        crate::user_kernels::enum_of(kernel_id_after(kernels.next_id, i))
            != crate::user_kernels::enum_of(kernel_id_after(kernels.next_id, j)),
        kernel_id_after(kernels.next_id, USER_KERNEL_IDS as nat) == kernel_id_after(
            kernels.next_id,
            0,
        ),
{
    lemma_kernel_id_after(kernels.next_id, i);
    lemma_kernel_id_after(kernels.next_id, j);
    lemma_kernel_id_after(kernels.next_id, USER_KERNEL_IDS as nat);
    lemma_kernel_id_after(kernels.next_id, 0);
}

/// The library number that is handed out after a number of others.
pub open spec fn library_id_after(next_id: u64, others: nat) -> u64
    decreases others,
{
    if others == 0 {
        next_id
    } else {
        library_id_after(crate::user_structs::next_after(next_id), (others - 1) as nat)
    }
}

proof fn lemma_library_id_after(next_id: u64, others: nat)
    ensures
        library_id_after(next_id, others) as int % 0x1_0000_0000 == (next_id + others)
            % 0x1_0000_0000,
    decreases others,
{
    if others > 0 {
        lemma_library_id_after(crate::user_structs::next_after(next_id), (others - 1) as nat);
    }
}

/// Library numbers are unique: no two are the same of as many in a row as a number
/// can tell apart.
pub proof fn law_library_ids_are_unique(kernels: UserKernels, i: nat, j: nat)
    requires
        i < j < i + 0x1_0000_0000,
    ensures
        crate::user_kernels::enum_of(library_id_after(kernels.next_library_id, i))
            != crate::user_kernels::enum_of(library_id_after(kernels.next_library_id, j)),
{
    lemma_library_id_after(kernels.next_library_id, i);
    lemma_library_id_after(kernels.next_library_id, j);
}

/// A kernel as it is added has its own functions, each under its own name, no local
/// data and pipelines of depth one.
pub proof fn law_added_kernels(
    name: String,
    enumeration: vx_enum,
    functions: KernelFunctions,
    num_params: u32,
    context: u64,
)
    ensures
        ({
            let k = added_kernel(name, enumeration, functions, num_params, context);
            &&& k.name == name
            &&& k.enumeration == enumeration
            &&& k.kernel == functions.kernel
            &&& k.validate == functions.validate
            &&& k.init == functions.init
            &&& k.deinit == functions.deinit
            &&& k.num_params == num_params
            &&& k.context_id == context
            &&& k.local_data_size == 0
            &&& k.pipeup_output_depth == 1
            &&& k.pipeup_input_depth == 1
        }),
{
}

/// A declared parameter stands at its position; those declared before stay, and
/// those skipped are blank.
pub proof fn law_declared_parameters_stand_in_place(
    params: Seq<UserKernelParam>,
    index: nat,
    param: UserKernelParam,
    i: int,
)
    requires
        0 <= i,
    ensures
        with_param(params, index, param).len() > index,
        with_param(params, index, param).len() >= params.len(),
        with_param(params, index, param).len() <= params.len() || with_param(
            params,
            index,
            param,
        ).len() == index + 1,
        with_param(params, index, param)[index as int] == param,
        i < params.len() && i != index ==> with_param(params, index, param)[i] == params[i],
        params.len() <= i < index ==> with_param(params, index, param)[i].direction == 0
            && with_param(params, index, param)[i].data_type == 0 && with_param(
            params,
            index,
            param,
        )[i].state == 0,
{
}

/// A delay can be declared as an input alone; anything else can be declared in any
/// direction.
pub proof fn law_delays_are_only_read(direction: vx_enum, data_type: vx_enum)
    ensures
        !is_written_delay(VX_INPUT, data_type),
        is_written_delay(VX_OUTPUT, VX_TYPE_DELAY),
        is_written_delay(VX_BIDIRECTIONAL, VX_TYPE_DELAY),
        data_type != VX_TYPE_DELAY ==> !is_written_delay(direction, data_type),
{
}

/// Setting an attribute of a kernel changes that attribute of that kernel alone.
pub proof fn law_attributes_are_set_alone(
    kernels: Seq<VxCUserKernel>,
    kernel: u64,
    setting: KernelSetting,
    i: nat,
    j: int,
)
    requires
        crate::user_kernels::position_of(kernels, crate::user_kernels::enum_of(kernel)) == Some(i),
        i < kernels.len(),
        0 <= j < kernels.len(),
        j != i,
    ensures
        ({
            let before = kernels[i as int];
            let a = with_attribute(kernels, kernel, VX_KERNEL_LOCAL_DATA_SIZE, setting);
            let b = with_attribute(kernels, kernel, VX_KERNEL_PIPEUP_OUTPUT_DEPTH, setting);
            let c = with_attribute(kernels, kernel, VX_KERNEL_PIPEUP_INPUT_DEPTH, setting);
            &&& a.len() == kernels.len() && b.len() == kernels.len() && c.len() == kernels.len()
            &&& a[j] == kernels[j] && b[j] == kernels[j] && c[j] == kernels[j]
            &&& a[i as int].local_data_size == setting.size
            &&& a[i as int].pipeup_output_depth == before.pipeup_output_depth
            &&& a[i as int].pipeup_input_depth == before.pipeup_input_depth
            &&& b[i as int].pipeup_output_depth == setting.depth
            &&& b[i as int].pipeup_input_depth == before.pipeup_input_depth
            &&& b[i as int].local_data_size == before.local_data_size
            &&& c[i as int].pipeup_input_depth == setting.depth
            &&& c[i as int].pipeup_output_depth == before.pipeup_output_depth
            &&& c[i as int].local_data_size == before.local_data_size
            &&& with_attribute(kernels, kernel, KERNEL_LOCAL_DATA_SIZE_FULL, setting) == a
        }),
{
}

/// An attribute that a kernel keeps is refused without a place or the room for its
/// value; any other is accepted.
pub proof fn law_kernel_attributes_need_room(
    kernel: u64,
    attribute: vx_enum,
    ptr: u64,
    size: usize,
)
    requires
        kernel != 0,
    ensures
        kernel_set_status(kernel, VX_KERNEL_LOCAL_DATA_SIZE, ptr, size) == VX_SUCCESS <==> ptr != 0
            && size >= 8,
        kernel_set_status(kernel, VX_KERNEL_PIPEUP_OUTPUT_DEPTH, ptr, size) == VX_SUCCESS <==> ptr
            != 0 && size >= 4,
        kernel_set_status(kernel, VX_KERNEL_PIPEUP_INPUT_DEPTH, ptr, size) == VX_SUCCESS <==> ptr
            != 0 && size >= 4,
        attribute != VX_KERNEL_LOCAL_DATA_SIZE && attribute != KERNEL_LOCAL_DATA_SIZE_FULL
            && attribute != VX_KERNEL_PIPEUP_OUTPUT_DEPTH && attribute
            != VX_KERNEL_PIPEUP_INPUT_DEPTH ==> kernel_set_status(kernel, attribute, ptr, size)
            == VX_SUCCESS,
        kernel_set_status(0, attribute, ptr, size) == VX_ERROR_INVALID_REFERENCE,
{
}

/// A library needs a context and a module name that is not empty.
pub proof fn law_libraries_need_a_name(context: u64, module: Seq<char>)
    ensures
        library_status(context, Some(module)) == VX_SUCCESS <==> context != 0 && module.len() > 0,
        library_status(context, None) != VX_SUCCESS,
        library_status(0, Some(module)) == VX_ERROR_INVALID_REFERENCE,
{
}

/// The functions of a library are those that the context registered it with first;
/// a library of another name or context is another library.
pub proof fn law_libraries_are_found(
    libraries: Seq<KernelLibrary>,
    context: u64,
    module: Seq<char>,
    k: int,
)
    requires
        0 <= k < libraries.len(),
        libraries[k].context == context,
        libraries[k].module@ == module,
        forall|j: int|
            0 <= j < k ==> (#[trigger] libraries[j]).context != context || libraries[j].module@
                != module,
    ensures
        library_of(libraries, context, module) == Some(libraries[k].functions),
{
    let holds = library_at(libraries, context, module);
    assert forall|j: int| 0 <= j < k implies !#[trigger] holds(j) by {
        assert(libraries[j].context != context || libraries[j].module@ != module);
    }
    assert(holds(k));
    crate::search::lemma_is_first(libraries.len(), holds, k as nat);
}

/// A library that was not registered in a context has no functions there.
pub proof fn law_unknown_libraries(libraries: Seq<KernelLibrary>, context: u64, module: Seq<char>)
    requires
        forall|j: int|
            0 <= j < libraries.len() ==> (#[trigger] libraries[j]).context != context
                || libraries[j].module@ != module,
    ensures
        library_of(libraries, context, module) is None,
{
    let holds = library_at(libraries, context, module);
    assert forall|j: int| 0 <= j < libraries.len() implies !#[trigger] holds(j) by {
        assert(libraries[j].context != context || libraries[j].module@ != module);
    }
    crate::search::lemma_is_nowhere(libraries.len(), holds);
}

/// A kernel without declared parameters has none.
pub proof fn law_declared_parameters(params: Map<i32, Vec<UserKernelParam>>, enumeration: vx_enum)
    ensures
        params.contains_key(enumeration) ==> declared(params, enumeration)
            == params[enumeration]@,
        !params.contains_key(enumeration) ==> declared(params, enumeration).len() == 0,
{
}

/// Every kernel but null can be finalized.
pub proof fn law_kernels_are_finalized(kernel: u64, status: vx_status)
    requires
        call_ensures(vxFinalizeKernel, (kernel,), status),
    ensures
        status == VX_SUCCESS <==> kernel != 0,
        kernel == 0 ==> status == VX_FAILURE,
{
}

} // verus!
