//! Contexts: their attributes, and the log.
use vstd::prelude::*;
use crate::constants::{
    VX_BORDER_POLICY_DEFAULT_TO_UNDEFINED, VX_CONTEXT_ATTRIBUTE_CONVOLUTION_MAX_DIMENSION,
    VX_CONTEXT_ATTRIBUTE_EXTENSIONS, VX_CONTEXT_ATTRIBUTE_EXTENSIONS_SIZE,
    VX_CONTEXT_ATTRIBUTE_IMMEDIATE_BORDER, VX_CONTEXT_ATTRIBUTE_IMMEDIATE_BORDER_POLICY,
    VX_CONTEXT_ATTRIBUTE_IMPLEMENTATION, VX_CONTEXT_ATTRIBUTE_MAX_TENSOR_DIMS,
    VX_CONTEXT_ATTRIBUTE_MODULES, VX_CONTEXT_ATTRIBUTE_OPTICAL_FLOW_MAX_WINDOW,
    VX_CONTEXT_ATTRIBUTE_REFERENCES, VX_CONTEXT_ATTRIBUTE_UNIQUE_KERNELS,
    VX_CONTEXT_ATTRIBUTE_VENDOR_ID, VX_CONTEXT_ATTRIBUTE_VERSION, VX_DIRECTIVE_DISABLE_LOGGING,
    VX_DIRECTIVE_DISABLE_PERFORMANCE, VX_DIRECTIVE_ENABLE_LOGGING,
    VX_DIRECTIVE_ENABLE_PERFORMANCE, VX_ID_KHRONOS, VX_VERSION_1_3_1,
};
use crate::dispatch::VX_BORDER_UNDEFINED;
use crate::naming::KernelTables;
use crate::records::VxCContext;
use crate::refs::References;
use crate::scalar::to_signed32;
use crate::types::{
    VX_ERROR_INVALID_PARAMETERS, VX_ERROR_INVALID_REFERENCE, VX_ERROR_NOT_IMPLEMENTED,
    VX_ERROR_NOT_SUPPORTED, VX_SUCCESS, vx_bool, vx_border_t, vx_enum, vx_pixel_value_t,
    vx_status,
};
use crate::user_kernels::UserKernels;
use crate::values::{BORDER_BYTES, ENUM_BYTES, NUMBER_BYTES, SIZE_BYTES, Value};
use std::collections::{HashMap, HashSet};

verus! {

broadcast use vstd::std_specs::hash::group_hash_axioms;

/// The largest convolution, in rows or columns.
pub const MAX_CONVOLUTION: usize = 15;

/// The largest window of the optical flow.
pub const MAX_FLOW_WINDOW: usize = 15;

/// The most dimensions a tensor has.
pub const MAX_TENSOR_DIMS: usize = 4;

/// A pixel value of all zeros.
pub open spec fn no_value() -> vx_pixel_value_t {
    vx_pixel_value_t {
        b0: 0,
        b1: 0,
        b2: 0,
        b3: 0,
        reserved_1: 0,
        reserved_2: 0,
        reserved_3: 0,
    }
}

/// The name of the implementation with its closing zero:
/// "RustVX OpenVX Implementation".
pub open spec fn implementation_name() -> Seq<u8> {
    seq![
        82u8,
        117,
        115,
        116,
        86,
        88,
        32,
        79,
        112,
        101,
        110,
        86,
        88,
        32,
        73,
        109,
        112,
        108,
        101,
        109,
        101,
        110,
        116,
        97,
        116,
        105,
        111,
        110,
        0,
    ]
}

/// A context as it is created.
pub open spec fn new_context(id: u64) -> VxCContext {
    VxCContext {
        id,
        ref_count: 1,
        border_mode: vx_border_t { mode: VX_BORDER_UNDEFINED, constant_value: no_value() },
        border_policy: VX_BORDER_POLICY_DEFAULT_TO_UNDEFINED as u32,
        log_callback: None,
        log_reentrant: false,
        logging_enabled: false,
        performance_enabled: false,
    }
}

/// A pixel value of all zeros.
pub fn zero_value() -> (r: vx_pixel_value_t)
    ensures
        r == no_value(),
{
    vx_pixel_value_t {
        b0: 0,
        b1: 0,
        b2: 0,
        b3: 0,
        reserved_1: 0,
        reserved_2: 0,
        reserved_3: 0,
    }
}

/// Records a fresh context under its handle.
pub fn register_context(contexts: &mut HashMap<u64, VxCContext>, id: u64, ptr: u64)
    ensures
        final(contexts)@ == old(contexts)@.insert(ptr, new_context(id)),
{
    contexts.insert(
        ptr,
        VxCContext {
            id,
            ref_count: 1,
            border_mode: vx_border_t { mode: VX_BORDER_UNDEFINED, constant_value: zero_value() },
            border_policy: VX_BORDER_POLICY_DEFAULT_TO_UNDEFINED as u32,
            log_callback: None,
            log_reentrant: false,
            logging_enabled: false,
            performance_enabled: false,
        },
    );
}

/// The contexts that do not have the given number.
pub open spec fn without_id(contexts: Map<u64, VxCContext>, id: u64) -> Map<u64, VxCContext> {
    contexts.restrict(contexts.dom().filter(|h: u64| contexts[h].id != id))
}

/// Forgets every context with the given number.
pub fn unregister_context(contexts: &mut HashMap<u64, VxCContext>, id: u64)
    ensures
        final(contexts)@ == without_id(old(contexts)@, id),
{
    let mut doomed: Vec<u64> = Vec::new();
    for h in it: contexts.keys()
        invariant
            contexts@ == old(contexts)@,
            it.seq().unref().to_set() == contexts@.dom(),
            forall|i: int|
                0 <= i < it.index() ==> (contexts@[*#[trigger] it.seq()[i]].id == id ==> doomed@.contains(
                    *it.seq()[i],
                )),
            forall|j: int|
                0 <= j < doomed@.len() ==> contexts@.contains_key(#[trigger] doomed@[j])
                    && contexts@[doomed@[j]].id == id,
    {
        proof {
            assert(it.seq().unref()[it.index()] == *h);
            assert(it.seq().unref().to_set().contains(*h));
        }
        let ghost before = doomed@;
        match contexts.get(h) {
            Some(c) => if c.id == id {
                doomed.push(*h);
                proof {
                    assert(doomed@[before.len() as int] == *h);
                    assert forall|x: u64| before.contains(x) implies doomed@.contains(x) by {
                        let k = choose|k: int| 0 <= k < before.len() && before[k] == x;
                        assert(doomed@[k] == x);
                    }
                }
            },
            None => {},
        }
    }
    proof {
        assert forall|h: u64| contexts@.contains_key(h) && contexts@[h].id == id implies
            doomed@.contains(h) by {
            assert(contexts@.dom().contains(h));
        }
    }
    let count = doomed.len();
    let ghost whole = contexts@;
    for k in 0..count
        invariant
            count == doomed@.len(),
            whole == old(contexts)@,
            forall|h: u64| whole.contains_key(h) && whole[h].id == id ==> doomed@.contains(h),
            forall|j: int|
                0 <= j < doomed@.len() ==> whole.contains_key(#[trigger] doomed@[j])
                    && whole[doomed@[j]].id == id,
            forall|h: u64| #[trigger] contexts@.contains_key(h) ==> whole.contains_key(h),
            forall|h: u64| #[trigger] contexts@.contains_key(h) ==> contexts@[h] == whole[h],
            forall|h: u64|
                whole.contains_key(h) && !contexts@.contains_key(h) ==> whole[h].id == id,
            forall|j: int| 0 <= j < k ==> !contexts@.contains_key(#[trigger] doomed@[j]),
    {
        contexts.remove(&doomed[k]);
    }
    proof {
        assert forall|h: u64| contexts@.contains_key(h) implies whole[h].id != id by {
            if whole[h].id == id {
                assert(doomed@.contains(h));
                let j = choose|j: int| 0 <= j < doomed@.len() && doomed@[j] == h;
                assert(!contexts@.contains_key(doomed@[j]));
            }
        }
        assert(contexts@ =~= without_id(whole, id));
    }
}

/// What a question about a context is answered.
pub enum ContextAnswer {
    One(Value),
    Text(Vec<u8>),
}

/// The mathematical value of [`ContextAnswer`].
#[verifier::ext_equal]
pub enum ContextAnswerSpec {
    One(Value),
    Text(Seq<u8>),
}

impl View for ContextAnswer {
    type V = ContextAnswerSpec;

    open spec fn view(&self) -> ContextAnswerSpec {
        match *self {
            ContextAnswer::One(v) => ContextAnswerSpec::One(v),
            ContextAnswer::Text(t) => ContextAnswerSpec::Text(t@),
        }
    }
}

/// What the questions about a context draw on.
pub struct ContextTables {
    pub contexts: HashMap<u64, VxCContext>,
    /// The modules that each context has loaded.
    pub modules: HashMap<u64, Vec<String>>,
    pub kernels: KernelTables,
    pub user_kernels: UserKernels,
    pub refs: References,
}

/// How many kernels there are.
pub open spec fn kernel_count(t: ContextTables) -> nat {
    t.kernels.catalog@.len() + t.kernels.extra@.len() + t.user_kernels.kernels@.len()
}

/// A value where `size` is what it takes.
pub open spec fn sized_answer(size: usize, bytes: usize, value: Value) -> Result<
    ContextAnswerSpec,
    vx_status,
> {
    if size == bytes {
        Ok(ContextAnswerSpec::One(value))
    } else {
        Err(VX_ERROR_INVALID_PARAMETERS)
    }
}

/// As much of a text as there is room for.
pub open spec fn text_answer(size: usize, text: Seq<u8>) -> Result<ContextAnswerSpec, vx_status> {
    if size == 0 {
        Err(VX_ERROR_INVALID_PARAMETERS)
    } else if size < text.len() {
        Ok(ContextAnswerSpec::Text(text.take(size as int)))
    } else {
        Ok(ContextAnswerSpec::Text(text))
    }
}

/// The border of immediate mode.
pub open spec fn border_of(contexts: Map<u64, VxCContext>, context: u64) -> vx_border_t {
    if contexts.contains_key(context) {
        contexts[context].border_mode
    } else {
        vx_border_t { mode: VX_BORDER_UNDEFINED, constant_value: no_value() }
    }
}

/// What immediate mode does with an unsupported border.
pub open spec fn policy_of(contexts: Map<u64, VxCContext>, context: u64) -> vx_enum {
    if contexts.contains_key(context) {
        crate::scalar::signed32(contexts[context].border_policy as nat) as vx_enum
    } else {
        VX_BORDER_POLICY_DEFAULT_TO_UNDEFINED
    }
}

/// How many modules a context has loaded.
pub open spec fn module_count(modules: Map<u64, Vec<String>>, context: u64) -> u32 {
    if modules.contains_key(context) {
        modules[context]@.len() as u32
    } else {
        0
    }
}

/// What a question about a context is answered.
pub open spec fn context_answer(
    t: ContextTables,
    context: u64,
    attribute: vx_enum,
    ptr: u64,
    size: usize,
) -> Result<ContextAnswerSpec, vx_status> {
    if context == 0 {
        Err(VX_ERROR_INVALID_REFERENCE)
    } else if ptr == 0 {
        Err(VX_ERROR_INVALID_PARAMETERS)
    } else if attribute == VX_CONTEXT_ATTRIBUTE_VENDOR_ID {
        sized_answer(size, NUMBER_BYTES, Value::Number(VX_ID_KHRONOS))
    } else if attribute == VX_CONTEXT_ATTRIBUTE_VERSION {
        sized_answer(size, NUMBER_BYTES, Value::Number(VX_VERSION_1_3_1))
    } else if attribute == VX_CONTEXT_ATTRIBUTE_UNIQUE_KERNELS {
        sized_answer(size, NUMBER_BYTES, Value::Number(kernel_count(t) as u32))
    } else if attribute == VX_CONTEXT_ATTRIBUTE_MODULES {
        sized_answer(size, NUMBER_BYTES, Value::Number(module_count(t.modules@, context)))
    } else if attribute == VX_CONTEXT_ATTRIBUTE_REFERENCES {
        sized_answer(size, NUMBER_BYTES, Value::Number(t.refs.counts@.len() as u32))
    } else if attribute == VX_CONTEXT_ATTRIBUTE_IMPLEMENTATION {
        text_answer(size, implementation_name())
    } else if attribute == VX_CONTEXT_ATTRIBUTE_EXTENSIONS_SIZE {
        sized_answer(size, SIZE_BYTES, Value::Size(0))
    } else if attribute == VX_CONTEXT_ATTRIBUTE_EXTENSIONS {
        text_answer(size, seq![0u8])
    } else if attribute == VX_CONTEXT_ATTRIBUTE_CONVOLUTION_MAX_DIMENSION {
        sized_answer(size, SIZE_BYTES, Value::Size(MAX_CONVOLUTION))
    } else if attribute == VX_CONTEXT_ATTRIBUTE_OPTICAL_FLOW_MAX_WINDOW {
        sized_answer(size, SIZE_BYTES, Value::Size(MAX_FLOW_WINDOW))
    } else if attribute == VX_CONTEXT_ATTRIBUTE_IMMEDIATE_BORDER {
        sized_answer(size, BORDER_BYTES, Value::Border(border_of(t.contexts@, context)))
    } else if attribute == VX_CONTEXT_ATTRIBUTE_IMMEDIATE_BORDER_POLICY {
        sized_answer(size, ENUM_BYTES, Value::Enum(policy_of(t.contexts@, context)))
    } else if attribute == VX_CONTEXT_ATTRIBUTE_MAX_TENSOR_DIMS {
        sized_answer(size, SIZE_BYTES, Value::Size(MAX_TENSOR_DIMS))
    } else {
        Err(VX_ERROR_NOT_IMPLEMENTED)
    }
}

/// Hands out a value where `size` is what it takes.
pub fn answer_sized(size: usize, bytes: usize, value: Value) -> (r: Result<
    ContextAnswer,
    vx_status,
>)
    ensures
        match r {
            Ok(a) => sized_answer(size, bytes, value) == Ok::<ContextAnswerSpec, vx_status>(a@),
            Err(e) => sized_answer(size, bytes, value) == Err::<ContextAnswerSpec, vx_status>(e),
        },
{
    if size == bytes {
        Ok(ContextAnswer::One(value))
    } else {
        Err(VX_ERROR_INVALID_PARAMETERS)
    }
}

/// Hands out as much of a text as there is room for.
pub fn answer_text(size: usize, text: Vec<u8>) -> (r: Result<ContextAnswer, vx_status>)
    ensures
        match r {
            Ok(a) => text_answer(size, text@) == Ok::<ContextAnswerSpec, vx_status>(a@),
            Err(e) => text_answer(size, text@) == Err::<ContextAnswerSpec, vx_status>(e),
        },
{
    if size == 0 {
        return Err(VX_ERROR_INVALID_PARAMETERS);
    }
    let mut shown = text;
    shown.truncate(size);
    assert(shown@ =~= if size < text@.len() {
        text@.take(size as int)
    } else {
        text@
    });
    Ok(ContextAnswer::Text(shown))
}

/// Answers a question about a context.
pub fn vxQueryContext(
    t: &ContextTables,
    context: u64,
    attribute: vx_enum,
    ptr: u64,
    size: usize,
) -> (r: Result<ContextAnswer, vx_status>)
    requires
        attribute == VX_CONTEXT_ATTRIBUTE_UNIQUE_KERNELS ==> kernel_count(*t) <= u32::MAX,
    ensures
        match r {
            Ok(a) => context_answer(*t, context, attribute, ptr, size) == Ok::<
                ContextAnswerSpec,
                vx_status,
            >(a@),
            Err(e) => context_answer(*t, context, attribute, ptr, size) == Err::<
                ContextAnswerSpec,
                vx_status,
            >(e),
        },
{
    if context == 0 {
        return Err(VX_ERROR_INVALID_REFERENCE);
    }
    if ptr == 0 {
        return Err(VX_ERROR_INVALID_PARAMETERS);
    }
    match attribute {
        VX_CONTEXT_ATTRIBUTE_VENDOR_ID => answer_sized(
            size,
            NUMBER_BYTES,
            Value::Number(VX_ID_KHRONOS),
        ),
        VX_CONTEXT_ATTRIBUTE_VERSION => answer_sized(
            size,
            NUMBER_BYTES,
            Value::Number(VX_VERSION_1_3_1),
        ),
        VX_CONTEXT_ATTRIBUTE_UNIQUE_KERNELS => {
            let count: u32 = t.kernels.catalog.len() as u32 + t.kernels.extra.len() as u32
                + t.user_kernels.kernels.len() as u32;
            answer_sized(size, NUMBER_BYTES, Value::Number(count))
        },
        VX_CONTEXT_ATTRIBUTE_MODULES => {
            let count: u32 = match t.modules.get(&context) {
                Some(m) => m.len() as u32,
                None => 0,
            };
            answer_sized(size, NUMBER_BYTES, Value::Number(count))
        },
        VX_CONTEXT_ATTRIBUTE_REFERENCES => answer_sized(
            size,
            NUMBER_BYTES,
            Value::Number(t.refs.counts.len() as u32),
        ),
        VX_CONTEXT_ATTRIBUTE_IMPLEMENTATION => {
            let name: Vec<u8> = vec![
                82, 117, 115, 116, 86, 88, 32, 79, 112, 101, 110, 86, 88, 32, 73, 109, 112, 108,
                101, 109, 101, 110, 116, 97, 116, 105, 111, 110, 0,
            ];
            assert(name@ =~= implementation_name());
            answer_text(size, name)
        },
        VX_CONTEXT_ATTRIBUTE_EXTENSIONS_SIZE => answer_sized(size, SIZE_BYTES, Value::Size(0)),
        VX_CONTEXT_ATTRIBUTE_EXTENSIONS => {
            let none: Vec<u8> = vec![0];
            assert(none@ =~= seq![0u8]);
            answer_text(size, none)
        },
        VX_CONTEXT_ATTRIBUTE_CONVOLUTION_MAX_DIMENSION => answer_sized(
            size,
            SIZE_BYTES,
            Value::Size(MAX_CONVOLUTION),
        ),
        VX_CONTEXT_ATTRIBUTE_OPTICAL_FLOW_MAX_WINDOW => answer_sized(
            size,
            SIZE_BYTES,
            Value::Size(MAX_FLOW_WINDOW),
        ),
        VX_CONTEXT_ATTRIBUTE_IMMEDIATE_BORDER => {
            let border = match t.contexts.get(&context) {
                Some(c) => c.border_mode,
                None => vx_border_t {
                    mode: VX_BORDER_UNDEFINED,
                    constant_value: zero_value(),
                },
            };
            answer_sized(size, BORDER_BYTES, Value::Border(border))
        },
        VX_CONTEXT_ATTRIBUTE_IMMEDIATE_BORDER_POLICY => {
            let policy: vx_enum = match t.contexts.get(&context) {
                Some(c) => to_signed32(c.border_policy),
                None => VX_BORDER_POLICY_DEFAULT_TO_UNDEFINED,
            };
            answer_sized(size, ENUM_BYTES, Value::Enum(policy))
        },
        VX_CONTEXT_ATTRIBUTE_MAX_TENSOR_DIMS => answer_sized(
            size,
            SIZE_BYTES,
            Value::Size(MAX_TENSOR_DIMS),
        ),
        _ => Err(VX_ERROR_NOT_IMPLEMENTED),
    }
}

/// The status of setting a context attribute.
pub open spec fn set_status(
    contexts: Map<u64, VxCContext>,
    context: u64,
    attribute: vx_enum,
    ptr: u64,
    size: usize,
) -> vx_status {
    if context == 0 {
        VX_ERROR_INVALID_REFERENCE
    } else if ptr == 0 {
        VX_ERROR_INVALID_PARAMETERS
    } else if attribute == VX_CONTEXT_ATTRIBUTE_IMPLEMENTATION {
        VX_ERROR_NOT_SUPPORTED
    } else if attribute == VX_CONTEXT_ATTRIBUTE_IMMEDIATE_BORDER || attribute
        == VX_CONTEXT_ATTRIBUTE_IMMEDIATE_BORDER_POLICY {
        if size != (if attribute == VX_CONTEXT_ATTRIBUTE_IMMEDIATE_BORDER {
            BORDER_BYTES
        } else {
            ENUM_BYTES
        }) {
            VX_ERROR_INVALID_PARAMETERS
        } else if !contexts.contains_key(context) {
            VX_ERROR_INVALID_REFERENCE
        } else {
            VX_SUCCESS
        }
    } else {
        VX_ERROR_NOT_IMPLEMENTED
    }
}

/// The contexts after an attribute of one of them was set.  What is done with an
/// unsupported border is fixed when a context is made; setting it changes nothing.
pub open spec fn with_setting(
    contexts: Map<u64, VxCContext>,
    context: u64,
    attribute: vx_enum,
    border: vx_border_t,
) -> Map<u64, VxCContext> {
    if attribute == VX_CONTEXT_ATTRIBUTE_IMMEDIATE_BORDER {
        contexts.insert(context, VxCContext { border_mode: border, ..contexts[context] })
    } else {
        contexts
    }
}

/// Sets a context attribute.  `border` is the value, read as a border.
pub fn vxSetContextAttribute(
    contexts: &mut HashMap<u64, VxCContext>,
    context: u64,
    attribute: vx_enum,
    ptr: u64,
    border: vx_border_t,
    size: usize,
) -> (status: vx_status)
    ensures
        status == set_status(old(contexts)@, context, attribute, ptr, size),
        final(contexts)@ == if status == VX_SUCCESS {
            with_setting(old(contexts)@, context, attribute, border)
        } else {
            old(contexts)@
        },
{
    if context == 0 {
        return VX_ERROR_INVALID_REFERENCE;
    }
    if ptr == 0 {
        return VX_ERROR_INVALID_PARAMETERS;
    }
    if attribute == VX_CONTEXT_ATTRIBUTE_IMPLEMENTATION {
        return VX_ERROR_NOT_SUPPORTED;
    }
    if attribute == VX_CONTEXT_ATTRIBUTE_IMMEDIATE_BORDER {
        if size != BORDER_BYTES {
            return VX_ERROR_INVALID_PARAMETERS;
        }
        return match contexts.remove(&context) {
            Some(mut c) => {
                c.border_mode = border;
                contexts.insert(context, c);
                assert(contexts@ =~= old(contexts)@.insert(context, c));
                VX_SUCCESS
            },
            None => {
                assert(contexts@ =~= old(contexts)@);
                VX_ERROR_INVALID_REFERENCE
            },
        };
    }
    if attribute == VX_CONTEXT_ATTRIBUTE_IMMEDIATE_BORDER_POLICY {
        if size != ENUM_BYTES {
            return VX_ERROR_INVALID_PARAMETERS;
        }
        return if contexts.contains_key(&context) {
            VX_SUCCESS
        } else {
            VX_ERROR_INVALID_REFERENCE
        };
    }
    VX_ERROR_NOT_IMPLEMENTED
}

/// The log: who is told, and which references are silent.
pub struct Log {
    pub callback: Option<u64>,
    pub reentrant: vx_bool,
    pub silent: HashSet<u64>,
}

/// A message that is to be handed to the log callback.
#[derive(Debug, Clone, Copy, PartialEq, Eq, Structural)]
pub struct LogCall {
    pub callback: u64,
    pub reference: u64,
    pub status: vx_status,
}

/// Sets the log callback.
pub fn vxRegisterLogCallback(
    log: &mut Log,
    context: u64,
    callback: Option<u64>,
    reentrant: vx_bool,
) -> (status: vx_status)
    ensures
        status == if context == 0 {
            VX_ERROR_INVALID_REFERENCE
        } else {
            VX_SUCCESS
        },
        *final(log) == if context == 0 {
            *old(log)
        } else {
            Log { callback, reentrant, ..*old(log) }
        },
{
    if context == 0 {
        return VX_ERROR_INVALID_REFERENCE;
    }
    log.callback = callback;
    log.reentrant = reentrant;
    VX_SUCCESS
}

/// The call that a message leads to: none where there is no message or no
/// callback, or the reference is silent.
pub open spec fn log_call(log: Log, reference: u64, status: vx_status, message: u64) -> Option<
    LogCall,
> {
    if message == 0 || log.silent@.contains(reference) {
        None
    } else {
        match log.callback {
            Some(callback) => Some(LogCall { callback, reference, status }),
            None => None,
        }
    }
}

/// Hands a message to the log.
pub fn vxAddLogEntry(log: &Log, ref_: u64, status: vx_status, message: u64) -> (r: Option<LogCall>)
    ensures
        r == log_call(*log, ref_, status, message),
{
    if message == 0 {
        return None;
    }
    if log.silent.contains(&ref_) {
        return None;
    }
    match log.callback {
        Some(callback) => Some(LogCall { callback, reference: ref_, status }),
        None => None,
    }
}

/// Gives a directive about a reference.  Performance is always measured.
pub fn vxDirective(log: &mut Log, ref_: u64, directive: vx_enum) -> (status: vx_status)
    ensures
        status == if ref_ == 0 {
            VX_ERROR_INVALID_REFERENCE
        } else if directive == VX_DIRECTIVE_ENABLE_PERFORMANCE || directive
            == VX_DIRECTIVE_DISABLE_PERFORMANCE || directive == VX_DIRECTIVE_ENABLE_LOGGING
            || directive == VX_DIRECTIVE_DISABLE_LOGGING {
            VX_SUCCESS
        } else {
            VX_ERROR_NOT_IMPLEMENTED
        },
        final(log).callback == old(log).callback,
        final(log).reentrant == old(log).reentrant,
        final(log).silent@ == if ref_ != 0 && directive == VX_DIRECTIVE_ENABLE_LOGGING {
            old(log).silent@.remove(ref_)
        } else if ref_ != 0 && directive == VX_DIRECTIVE_DISABLE_LOGGING {
            old(log).silent@.insert(ref_)
        } else {
            old(log).silent@
        },
{
    if ref_ == 0 {
        return VX_ERROR_INVALID_REFERENCE;
    }
    match directive {
        VX_DIRECTIVE_ENABLE_PERFORMANCE => VX_SUCCESS,
        VX_DIRECTIVE_DISABLE_PERFORMANCE => VX_SUCCESS,
        VX_DIRECTIVE_ENABLE_LOGGING => {
            log.silent.remove(&ref_);
            VX_SUCCESS
        },
        VX_DIRECTIVE_DISABLE_LOGGING => {
            log.silent.insert(ref_);
            VX_SUCCESS
        },
        _ => VX_ERROR_NOT_IMPLEMENTED,
    }
}

/// The border that was set is the one that is answered, and the policy stays what it
/// was, whatever is set.
pub proof fn law_setting_round_trip(
    before: ContextTables,
    after: ContextTables,
    context: u64,
    border: vx_border_t,
    attribute: vx_enum,
    ptr: u64,
    size: usize,
)
    requires
        set_status(before.contexts@, context, attribute, ptr, size) == VX_SUCCESS,
        after.contexts@ == with_setting(before.contexts@, context, attribute, border),
    ensures
        attribute == VX_CONTEXT_ATTRIBUTE_IMMEDIATE_BORDER ==> context_answer(
            after,
            context,
            attribute,
            ptr,
            size,
        ) == Ok::<ContextAnswerSpec, vx_status>(ContextAnswerSpec::One(Value::Border(border))),
        attribute != VX_CONTEXT_ATTRIBUTE_IMMEDIATE_BORDER ==> border_of(
            after.contexts@,
            context,
        ) == border_of(before.contexts@, context),
        policy_of(after.contexts@, context) == policy_of(before.contexts@, context),
{
}

/// A silenced reference reaches no callback; a reference that may log again
/// does.
pub proof fn law_silence(
    before: Log,
    silenced: Log,
    restored: Log,
    r: u64,
    status: vx_status,
    message: u64,
)
    requires
        message != 0,
        silenced.callback == before.callback,
        silenced.silent@ == before.silent@.insert(r),
        restored.callback == before.callback,
        restored.silent@ == silenced.silent@.remove(r),
    ensures
        log_call(silenced, r, status, message) is None,
        log_call(restored, r, status, message) == match before.callback {
            Some(callback) => Some(LogCall { callback, reference: r, status }),
            None => None,
        },
{
}

/// A context is known until its number is forgotten.  Where neither its handle nor its
/// number was in use, the contexts are then as they were.
pub proof fn law_register_then_unregister(contexts: Map<u64, VxCContext>, id: u64, ptr: u64)
    ensures
        contexts.insert(ptr, new_context(id)).contains_key(ptr),
        !without_id(contexts.insert(ptr, new_context(id)), id).contains_key(ptr),
        !contexts.contains_key(ptr) && (forall|h: u64| #[trigger]
            contexts.contains_key(h) ==> contexts[h].id != id) ==> without_id(
            contexts.insert(ptr, new_context(id)),
            id,
        ) == contexts,
{
    if !contexts.contains_key(ptr) && (forall|h: u64| #[trigger]
        contexts.contains_key(h) ==> contexts[h].id != id) {
        assert(without_id(contexts.insert(ptr, new_context(id)), id) =~= contexts);
    }
}

/// A fresh context is held once, leaves the edges of images undefined, and neither
/// logs nor measures.
pub proof fn law_fresh_contexts(id: u64)
    ensures
        new_context(id).id == id,
        new_context(id).ref_count == 1,
        new_context(id).border_mode.mode == VX_BORDER_UNDEFINED,
        new_context(id).border_mode.constant_value.b0 == 0,
        new_context(id).border_mode.constant_value.b1 == 0,
        new_context(id).border_mode.constant_value.b2 == 0,
        new_context(id).border_mode.constant_value.b3 == 0,
        policy_of(map![id => new_context(id)], id) == VX_BORDER_POLICY_DEFAULT_TO_UNDEFINED,
        new_context(id).log_callback is None,
        !new_context(id).logging_enabled,
        !new_context(id).performance_enabled,
{
    crate::scalar::law_bits_round_trip(VX_BORDER_POLICY_DEFAULT_TO_UNDEFINED);
}

/// Forgetting a number forgets every context that bears it and no other.
pub proof fn law_contexts_are_forgotten_by_number(
    contexts: Map<u64, VxCContext>,
    id: u64,
    handle: u64,
)
    ensures
        without_id(contexts, id).contains_key(handle) <==> contexts.contains_key(handle)
            && contexts[handle].id != id,
        without_id(contexts, id).contains_key(handle) ==> without_id(contexts, id)[handle]
            == contexts[handle],
{
}

/// What can be asked of a context, in exactly the room for the answer.
pub proof fn law_context_answers(t: ContextTables, context: u64, ptr: u64)
    requires
        context != 0,
        ptr != 0,
    ensures
        context_answer(t, context, VX_CONTEXT_ATTRIBUTE_VENDOR_ID, ptr, 4) == Ok::<
            ContextAnswerSpec,
            vx_status,
        >(
            ContextAnswerSpec::One(Value::Number(VX_ID_KHRONOS)),
        ),
        context_answer(t, context, VX_CONTEXT_ATTRIBUTE_VERSION, ptr, 4) == Ok::<
            ContextAnswerSpec,
            vx_status,
        >(
            ContextAnswerSpec::One(Value::Number(VX_VERSION_1_3_1)),
        ),
        context_answer(t, context, VX_CONTEXT_ATTRIBUTE_UNIQUE_KERNELS, ptr, 4) == Ok::<
            ContextAnswerSpec,
            vx_status,
        >(
            ContextAnswerSpec::One(
                Value::Number(
                    (t.kernels.catalog@.len() + t.kernels.extra@.len() + t.user_kernels.kernels@.len()) as u32,
                ),
            ),
        ),
        context_answer(t, context, VX_CONTEXT_ATTRIBUTE_REFERENCES, ptr, 4) == Ok::<
            ContextAnswerSpec,
            vx_status,
        >(
            ContextAnswerSpec::One(Value::Number(t.refs.counts@.len() as u32)),
        ),
        t.modules@.contains_key(context) ==> context_answer(
            t,
            context,
            VX_CONTEXT_ATTRIBUTE_MODULES,
            ptr,
            4,
        ) == Ok::<ContextAnswerSpec, vx_status>(
            ContextAnswerSpec::One(Value::Number(t.modules@[context]@.len() as u32)),
        ),
        !t.modules@.contains_key(context) ==> context_answer(
            t,
            context,
            VX_CONTEXT_ATTRIBUTE_MODULES,
            ptr,
            4,
        ) == Ok::<ContextAnswerSpec, vx_status>(
            ContextAnswerSpec::One(Value::Number(0)),
        ),
        context_answer(t, context, VX_CONTEXT_ATTRIBUTE_EXTENSIONS_SIZE, ptr, 8) == Ok::<
            ContextAnswerSpec,
            vx_status,
        >(
            ContextAnswerSpec::One(Value::Size(0)),
        ),
        context_answer(t, context, VX_CONTEXT_ATTRIBUTE_CONVOLUTION_MAX_DIMENSION, ptr, 8) == Ok::<
            ContextAnswerSpec,
            vx_status,
        >(
            ContextAnswerSpec::One(Value::Size(15)),
        ),
        context_answer(t, context, VX_CONTEXT_ATTRIBUTE_OPTICAL_FLOW_MAX_WINDOW, ptr, 8) == Ok::<
            ContextAnswerSpec,
            vx_status,
        >(
            ContextAnswerSpec::One(Value::Size(15)),
        ),
        context_answer(t, context, VX_CONTEXT_ATTRIBUTE_MAX_TENSOR_DIMS, ptr, 8) == Ok::<
            ContextAnswerSpec,
            vx_status,
        >(
            ContextAnswerSpec::One(Value::Size(4)),
        ),
        t.contexts@.contains_key(context) ==> context_answer(
            t,
            context,
            VX_CONTEXT_ATTRIBUTE_IMMEDIATE_BORDER,
            ptr,
            20,
        ) == Ok::<ContextAnswerSpec, vx_status>(
            ContextAnswerSpec::One(Value::Border(t.contexts@[context].border_mode)),
        ),
        forall|size: usize|
            size != 4 ==> !(#[trigger] context_answer(
                t,
                context,
                VX_CONTEXT_ATTRIBUTE_VERSION,
                ptr,
                size,
            ) is Ok),
        forall|size: usize|
            size != 8 ==> !(#[trigger] context_answer(
                t,
                context,
                VX_CONTEXT_ATTRIBUTE_MAX_TENSOR_DIMS,
                ptr,
                size,
            ) is Ok),
{
}

/// A text is handed out from its beginning, as far as there is room; without room
/// it is refused.
pub proof fn law_texts_are_cut_to_the_room(size: usize, text: Seq<u8>)
    ensures
        size == 0 ==> text_answer(size, text) is Err,
        size > 0 ==> {
            &&& text_answer(size, text) is Ok
            &&& text_answer(size, text)->Ok_0 is Text
            &&& text_answer(size, text)->Ok_0->Text_0.len() == if size < text.len() {
                size as nat
            } else {
                text.len()
            }
            &&& forall|i: int|
                0 <= i < text_answer(size, text)->Ok_0->Text_0.len()
                    ==> #[trigger] text_answer(size, text)->Ok_0->Text_0[i] == text[i]
        },
{
}

/// Setting the border of a context changes no other context and nothing else of it.
pub proof fn law_borders_are_set_alone(
    contexts: Map<u64, VxCContext>,
    context: u64,
    border: vx_border_t,
    other: u64,
)
    requires
        contexts.contains_key(context),
    ensures
        ({
            let after = with_setting(
                contexts,
                context,
                VX_CONTEXT_ATTRIBUTE_IMMEDIATE_BORDER,
                border,
            );
            &&& after.dom() == contexts.dom()
            &&& border_of(after, context) == border
            &&& other != context && contexts.contains_key(other) ==> after[other]
                == contexts[other]
            &&& after[context].id == contexts[context].id
            &&& after[context].ref_count == contexts[context].ref_count
            &&& after[context].border_policy == contexts[context].border_policy
        }),
{
    let after = with_setting(contexts, context, VX_CONTEXT_ATTRIBUTE_IMMEDIATE_BORDER, border);
    assert(after.dom() =~= contexts.dom());
}

} // verus!
