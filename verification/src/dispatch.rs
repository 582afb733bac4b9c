//! Kernel dispatch: from a kernel name and parameters to the routine to run and
//! its arguments, or to the status that refuses them.
use vstd::prelude::*;
use crate::arith::sign_extend;
use crate::kernels::{
    ArgRule, BorderRule, Kernel, MAX_PARAMETERS, argument_rule, border_rule, context_parameter,
    is_checked_image, is_required, min_parameters,
};
use crate::scalar::{VxCScalar, overlay, read4, split4, split8, to_bits32, to_signed32};
use crate::types::{
    VX_ERROR_INVALID_PARAMETERS, VX_ERROR_INVALID_REFERENCE, vx_border_t, vx_enum, vx_status,
};
use std::collections::HashMap;

verus! {

broadcast use vstd::std_specs::hash::group_hash_axioms;

// Border modes.
pub const VX_BORDER_UNDEFINED: vx_enum = 0xC000;
pub const VX_BORDER_CONSTANT: vx_enum = 0xC001;
pub const VX_BORDER_REPLICATE: vx_enum = 0xC002;

// Node states.
pub const VX_NODE_STATE_STEADY: u32 = 0x23000;
pub const VX_NODE_STATE_PIPEUP: u32 = 0x23001;

/// How a routine treats the pixels outside an image.
#[derive(Debug, Clone, Copy, PartialEq, Eq, Structural)]
pub enum BorderMode {
    Undefined,
    Constant(u8),
    Replicate,
}

/// One argument of a kernel routine.
#[derive(Debug, Clone, Copy, PartialEq, Eq, Structural)]
pub enum KernelArg {
    Ref(u64),
    Int(i32),
    Bits(u32),
    Size(u64),
    Flag(bool),
}

/// The border a kernel routine is handed.
#[derive(Debug, Clone, Copy, PartialEq, Eq, Structural)]
pub enum BorderArg {
    Unused,
    AsGiven(Option<vx_border_t>),
    Mode(BorderMode),
}

/// A routine to run.
pub struct KernelCall {
    pub kernel: Kernel,
    /// The reference whose context the routine runs in.
    pub context_of: Option<u64>,
    pub border: BorderArg,
    pub args: Vec<KernelArg>,
}

/// What a dispatch leads to.
pub enum Dispatch {
    /// The parameters are refused.
    Fail(vx_status),
    /// A built-in routine is to run.
    Call(KernelCall),
    /// A user kernel is to run; `None` where it has no function.
    User(Option<u64>),
}

/// The mathematical value of a [`Dispatch`].
pub enum Outcome {
    Fail(vx_status),
    Call { kernel: Kernel, context_of: Option<u64>, border: BorderArg, args: Seq<KernelArg> },
    User(Option<u64>),
}

impl View for Dispatch {
    type V = Outcome;

    open spec fn view(&self) -> Outcome {
        match self {
            Dispatch::Fail(status) => Outcome::Fail(*status),
            Dispatch::Call(call) => Outcome::Call {
                kernel: call.kernel,
                context_of: call.context_of,
                border: call.border,
                args: call.args@,
            },
            Dispatch::User(function) => Outcome::User(*function),
        }
    }
}

/// The border mode that a border asks for; an unknown or missing one is undefined.
pub open spec fn border_mode_of(border: Option<vx_border_t>) -> BorderMode {
    match border {
        Some(b) => if b.mode == VX_BORDER_CONSTANT {
            BorderMode::Constant(b.constant_value.b0)
        } else if b.mode == VX_BORDER_REPLICATE {
            BorderMode::Replicate
        } else {
            BorderMode::Undefined
        },
        None => BorderMode::Undefined,
    }
}

/// Converts a border for the image routines.
pub fn border_from_vx(border: &Option<vx_border_t>) -> (r: BorderMode)
    ensures
        r == border_mode_of(*border),
{
    match border {
        Some(b) => match b.mode {
            VX_BORDER_UNDEFINED => BorderMode::Undefined,
            VX_BORDER_CONSTANT => BorderMode::Constant(b.constant_value.b0),
            VX_BORDER_REPLICATE => BorderMode::Replicate,
            _ => BorderMode::Undefined,
        },
        None => BorderMode::Undefined,
    }
}

/// The parameter at an index, null where there is none.
pub open spec fn parameter(params: Seq<u64>, index: usize) -> u64 {
    if index < params.len() {
        params[index as int]
    } else {
        0
    }
}

fn parameter_at(params: &Vec<u64>, index: usize) -> (r: u64)
    ensures
        r == parameter(params@, index),
{
    if index < params.len() {
        params[index]
    } else {
        0
    }
}

/// The bytes of the scalar behind a reference.
pub open spec fn scalar_bytes(scalars: Map<u64, VxCScalar>, reference: u64) -> Option<Seq<u8>> {
    if reference != 0 && scalars.contains_key(reference) {
        Some(scalars[reference].data@)
    } else {
        None
    }
}

/// The integer behind a scalar reference.
pub open spec fn scalar_enum(scalars: Map<u64, VxCScalar>, reference: u64) -> Option<i32> {
    match scalar_bytes(scalars, reference) {
        Some(data) => crate::scalar::scalar_int(data),
        None => None,
    }
}

/// The scalar behind a reference.
pub fn find_scalar<'a>(scalars: &'a HashMap<u64, VxCScalar>, reference: u64) -> (r: Option<
    &'a VxCScalar,
>)
    ensures
        match r {
            Some(s) => scalar_bytes(scalars@, reference) == Some(s.data@),
            None => scalar_bytes(scalars@, reference) is None,
        },
{
    if reference == 0 {
        return None;
    }
    scalars.get(&reference)
}

/// Reads the integer that a scalar holds.
pub fn read_scalar_enum(scalars: &HashMap<u64, VxCScalar>, reference: u64) -> (r: Option<vx_enum>)
    ensures
        r == scalar_enum(scalars@, reference),
{
    match find_scalar(scalars, reference) {
        Some(s) => s.get_i32(),
        None => None,
    }
}

/// Four bytes of a number with a scalar copied over them.
pub open spec fn patched32(base: u32, data: Option<Seq<u8>>) -> u32 {
    match data {
        Some(d) => crate::scalar::number4(
            crate::scalar::overlaid(crate::scalar::bytes4(base), d),
        ) as u32,
        None => base,
    }
}

/// Eight bytes of a number with a scalar copied over them.
pub open spec fn patched64(base: u64, data: Option<Seq<u8>>) -> u64 {
    match data {
        Some(d) => crate::scalar::number8(
            crate::scalar::overlaid(crate::scalar::bytes8(base), d),
        ) as u64,
        None => base,
    }
}

/// Copies a scalar over the four bytes of a number.
pub fn patch32(base: u32, scalar: Option<&VxCScalar>) -> (r: u32)
    ensures
        r == patched32(base, match scalar {
            Some(s) => Some(s.data@),
            None => None,
        }),
{
    match scalar {
        Some(s) => {
            let b = overlay(split4(base), &s.data);
            read4(b[0], b[1], b[2], b[3])
        },
        None => base,
    }
}

fn patch64(base: u64, scalar: Option<&VxCScalar>) -> (r: u64)
    ensures
        r == patched64(base, match scalar {
            Some(s) => Some(s.data@),
            None => None,
        }),
{
    match scalar {
        Some(s) => {
            let b = overlay(split8(base), &s.data);
            let low = read4(b[0], b[1], b[2], b[3]);
            let high = read4(b[4], b[5], b[6], b[7]);
            low as u64 + 4294967296 * (high as u64)
        },
        None => base,
    }
}

/// The integer behind a scalar reference, `default` where there is none.
pub open spec fn enum_or(scalars: Map<u64, VxCScalar>, reference: u64, default: i32) -> i32 {
    match scalar_enum(scalars, reference) {
        Some(v) => v,
        None => default,
    }
}

fn read_enum_or(scalars: &HashMap<u64, VxCScalar>, reference: u64, default: i32) -> (r: i32)
    ensures
        r == enum_or(scalars@, reference, default),
{
    match read_scalar_enum(scalars, reference) {
        Some(v) => v,
        None => default,
    }
}

/// A number with a scalar copied over it, `default` where there is no scalar.
pub open spec fn word_or(
    scalars: Map<u64, VxCScalar>,
    reference: u64,
    base: i32,
    default: i32,
) -> i32 {
    match scalar_bytes(scalars, reference) {
        Some(data) => crate::scalar::signed32(
            patched32(crate::scalar::bits32(base), Some(data)) as nat,
        ) as i32,
        None => default,
    }
}

fn read_word_or(
    scalars: &HashMap<u64, VxCScalar>,
    reference: u64,
    base: i32,
    default: i32,
) -> (r: i32)
    ensures
        r == word_or(scalars@, reference, base, default),
{
    match find_scalar(scalars, reference) {
        Some(s) => to_signed32(patch32(to_bits32(base), Some(s))),
        None => default,
    }
}

/// The argument that a rule finds, or nothing where a scalar it needs is missing
/// or too short.
pub open spec fn found_argument(
    rule: ArgRule,
    params: Seq<u64>,
    scalars: Map<u64, VxCScalar>,
) -> Option<KernelArg> {
    match rule {
        ArgRule::Ref(i) => Some(KernelArg::Ref(parameter(params, i))),
        ArgRule::Null => Some(KernelArg::Ref(0)),
        ArgRule::Enum(i, default) => Some(
            KernelArg::Int(enum_or(scalars, parameter(params, i), default)),
        ),
        ArgRule::Word(i, base, default) => Some(
            KernelArg::Int(word_or(scalars, parameter(params, i), base, default)),
        ),
        ArgRule::NeedInt(i) => match scalar_bytes(scalars, parameter(params, i)) {
            Some(data) => if data.len() >= 4 {
                Some(
                    KernelArg::Int(crate::scalar::signed32(crate::scalar::number4(data)) as i32),
                )
            } else {
                None
            },
            None => None,
        },
        ArgRule::NeedBits(i) => match scalar_bytes(scalars, parameter(params, i)) {
            Some(data) => if data.len() >= 4 {
                Some(KernelArg::Bits(crate::scalar::number4(data) as u32))
            } else {
                None
            },
            None => None,
        },
        ArgRule::NeedSize(i, default) => match scalar_bytes(scalars, parameter(params, i)) {
            Some(data) => if data.len() >= 8 {
                Some(KernelArg::Size(crate::scalar::number8(data) as u64))
            } else if data.len() >= 4 {
                Some(KernelArg::Size(crate::scalar::number4(data) as u64))
            } else {
                None
            },
            None => Some(KernelArg::Size(default)),
        },
        ArgRule::Bits(i, base) => Some(
            KernelArg::Bits(patched32(base, scalar_bytes(scalars, parameter(params, i)))),
        ),
        ArgRule::Flag(i) => Some(
            KernelArg::Flag(patched32(0, scalar_bytes(scalars, parameter(params, i))) != 0),
        ),
        ArgRule::Wide(i, base) => Some(
            KernelArg::Size(patched64(base, scalar_bytes(scalars, parameter(params, i)))),
        ),
        ArgRule::SizeEnum(i, default) => Some(
            KernelArg::Size(
                crate::arith::sign_extended(enum_or(scalars, parameter(params, i), default)),
            ),
        ),
        ArgRule::SizeWord(i, base, default) => Some(
            KernelArg::Size(
                crate::arith::sign_extended(word_or(scalars, parameter(params, i), base, default)),
            ),
        ),
        ArgRule::SizeBits(i, base) => Some(
            KernelArg::Size(patched32(base, scalar_bytes(scalars, parameter(params, i))) as u64),
        ),
    }
}

fn find_argument(rule: ArgRule, params: &Vec<u64>, scalars: &HashMap<u64, VxCScalar>) -> (r: Option<
    KernelArg,
>)
    ensures
        r == found_argument(rule, params@, scalars@),
{
    match rule {
        ArgRule::Ref(i) => Some(KernelArg::Ref(parameter_at(params, i))),
        ArgRule::Null => Some(KernelArg::Ref(0)),
        ArgRule::Enum(i, default) => Some(
            KernelArg::Int(read_enum_or(scalars, parameter_at(params, i), default)),
        ),
        ArgRule::Word(i, base, default) => Some(
            KernelArg::Int(read_word_or(scalars, parameter_at(params, i), base, default)),
        ),
        ArgRule::NeedInt(i) => match find_scalar(scalars, parameter_at(params, i)) {
            Some(s) => if s.data.len() >= 4 {
                Some(
                    KernelArg::Int(
                        to_signed32(read4(s.data[0], s.data[1], s.data[2], s.data[3])),
                    ),
                )
            } else {
                None
            },
            None => None,
        },
        ArgRule::NeedBits(i) => match find_scalar(scalars, parameter_at(params, i)) {
            Some(s) => if s.data.len() >= 4 {
                Some(KernelArg::Bits(read4(s.data[0], s.data[1], s.data[2], s.data[3])))
            } else {
                None
            },
            None => None,
        },
        ArgRule::NeedSize(i, default) => match find_scalar(scalars, parameter_at(params, i)) {
            Some(s) => if s.data.len() >= 8 {
                let low = read4(s.data[0], s.data[1], s.data[2], s.data[3]);
                let high = read4(s.data[4], s.data[5], s.data[6], s.data[7]);
                Some(KernelArg::Size(low as u64 + 4294967296 * (high as u64)))
            } else if s.data.len() >= 4 {
                Some(KernelArg::Size(read4(s.data[0], s.data[1], s.data[2], s.data[3]) as u64))
            } else {
                None
            },
            None => Some(KernelArg::Size(default)),
        },
        ArgRule::Bits(i, base) => Some(
            KernelArg::Bits(patch32(base, find_scalar(scalars, parameter_at(params, i)))),
        ),
        ArgRule::Flag(i) => Some(
            KernelArg::Flag(patch32(0, find_scalar(scalars, parameter_at(params, i))) != 0),
        ),
        ArgRule::Wide(i, base) => Some(
            KernelArg::Size(patch64(base, find_scalar(scalars, parameter_at(params, i)))),
        ),
        ArgRule::SizeEnum(i, default) => Some(
            KernelArg::Size(sign_extend(read_enum_or(scalars, parameter_at(params, i), default))),
        ),
        ArgRule::SizeWord(i, base, default) => Some(
            KernelArg::Size(
                sign_extend(read_word_or(scalars, parameter_at(params, i), base, default)),
            ),
        ),
        ArgRule::SizeBits(i, base) => Some(
            KernelArg::Size(patch32(base, find_scalar(scalars, parameter_at(params, i))) as u64),
        ),
    }
}

/// How many arguments a kernel routine takes, from `position` on.
pub open spec fn argument_count(kernel: Kernel, count: usize, position: nat) -> nat
    decreases crate::kernels::MAX_PARAMETERS - position,
{
    if position >= crate::kernels::MAX_PARAMETERS {
        0
    } else if crate::kernels::argument(kernel, count, position as usize) is None {
        0
    } else {
        1 + argument_count(kernel, count, position + 1)
    }
}

/// Whether some image that a kernel looks at first is null.
pub open spec fn lacks_image(kernel: Kernel, params: Seq<u64>) -> bool {
    exists|i: usize|
        i < crate::kernels::MAX_PARAMETERS && #[trigger] crate::kernels::checked_image(kernel, i)
            && parameter(params, i) == 0
}

/// Whether some parameter that a kernel requires is null.
pub open spec fn lacks_parameter(kernel: Kernel, params: Seq<u64>) -> bool {
    exists|i: usize|
        i < crate::kernels::MAX_PARAMETERS && #[trigger] crate::kernels::required(
            kernel,
            params.len() as usize,
            i,
        ) && parameter(params, i) == 0
}

/// The argument at a position, or nothing where a scalar it needs is missing.
pub open spec fn argument_at(
    kernel: Kernel,
    params: Seq<u64>,
    scalars: Map<u64, VxCScalar>,
    position: int,
) -> Option<KernelArg> {
    match crate::kernels::argument(kernel, params.len() as usize, position as usize) {
        Some(rule) => found_argument(rule, params, scalars),
        None => None,
    }
}

/// Whether some scalar that a kernel needs is missing or too short.
pub open spec fn lacks_scalar(
    kernel: Kernel,
    params: Seq<u64>,
    scalars: Map<u64, VxCScalar>,
) -> bool {
    exists|j: int|
        0 <= j < argument_count(kernel, params.len() as usize, 0) && #[trigger] argument_at(
            kernel,
            params,
            scalars,
            j,
        ) is None
}

/// What dispatching a built-in kernel leads to: too few parameters, a missing
/// image, a missing parameter and a missing scalar are refused in that order.
pub open spec fn dispatched(
    kernel: Kernel,
    params: Seq<u64>,
    scalars: Map<u64, VxCScalar>,
    border: Option<vx_border_t>,
) -> Outcome {
    if params.len() < crate::kernels::fewest(kernel) {
        Outcome::Fail(VX_ERROR_INVALID_PARAMETERS)
    } else if lacks_image(kernel, params) {
        Outcome::Fail(VX_ERROR_INVALID_REFERENCE)
    } else if lacks_parameter(kernel, params) || lacks_scalar(kernel, params, scalars) {
        Outcome::Fail(VX_ERROR_INVALID_PARAMETERS)
    } else {
        Outcome::Call {
            kernel,
            context_of: match crate::kernels::context_index(kernel) {
                Some(i) => Some(parameter(params, i)),
                None => None,
            },
            border: match crate::kernels::border_form(kernel) {
                BorderRule::Unused => BorderArg::Unused,
                BorderRule::AsGiven => BorderArg::AsGiven(border),
                BorderRule::Converted => BorderArg::Mode(border_mode_of(border)),
            },
            args: Seq::new(
                argument_count(kernel, params.len() as usize, 0),
                |j: int| argument_at(kernel, params, scalars, j)->0,
            ),
        }
    }
}

/// Arguments are counted up to the first that a routine does not take.
pub proof fn lemma_count_stops(kernel: Kernel, count: usize, from: nat, n: nat)
    requires
        from + n <= crate::kernels::MAX_PARAMETERS,
        forall|p: nat|
            from <= p < from + n ==> #[trigger] crate::kernels::argument(
                kernel,
                count,
                p as usize,
            ) is Some,
        from + n == crate::kernels::MAX_PARAMETERS || crate::kernels::argument(
            kernel,
            count,
            (from + n) as usize,
        ) is None,
    ensures
        argument_count(kernel, count, from) == n,
    decreases n,
{
    if n > 0 {
        assert(crate::kernels::argument(kernel, count, from as usize) is Some);
        lemma_count_stops(kernel, count, from + 1, (n - 1) as nat);
    }
}

/// Dispatches a built-in kernel.
pub fn dispatch_builtin(
    kernel: Kernel,
    params: &Vec<u64>,
    scalars: &HashMap<u64, VxCScalar>,
    border: Option<vx_border_t>,
) -> (r: Dispatch)
    ensures
        r@ == dispatched(kernel, params@, scalars@, border),
{
    if params.len() < min_parameters(kernel) {
        return Dispatch::Fail(VX_ERROR_INVALID_PARAMETERS);
    }
    for i in 0..MAX_PARAMETERS
        invariant
            params.len() >= crate::kernels::fewest(kernel),
            forall|j: usize|
                j < i && #[trigger] crate::kernels::checked_image(kernel, j) ==> parameter(
                    params@,
                    j,
                ) != 0,
    {
        if is_checked_image(kernel, i) && parameter_at(params, i) == 0 {
            assert(lacks_image(kernel, params@));
            return Dispatch::Fail(VX_ERROR_INVALID_REFERENCE);
        }
    }
    for i in 0..MAX_PARAMETERS
        invariant
            params.len() >= crate::kernels::fewest(kernel),
            !lacks_image(kernel, params@),
            forall|j: usize|
                j < i && #[trigger] crate::kernels::required(kernel, params.len(), j)
                    ==> parameter(params@, j) != 0,
    {
        if is_required(kernel, params.len(), i) && parameter_at(params, i) == 0 {
            assert(lacks_parameter(kernel, params@));
            return Dispatch::Fail(VX_ERROR_INVALID_PARAMETERS);
        }
    }
    let mut args: Vec<KernelArg> = Vec::new();
    let mut lacking = false;
    let mut position: usize = 0;
    while position < MAX_PARAMETERS
        invariant
            position <= MAX_PARAMETERS,
            forall|p: nat|
                p < position ==> #[trigger] crate::kernels::argument(
                    kernel,
                    params.len(),
                    p as usize,
                ) is Some,
            !lacking ==> args@.len() == position,
            !lacking ==> forall|j: int|
                0 <= j < position ==> #[trigger] argument_at(kernel, params@, scalars@, j) == Some(
                    args@[j],
                ),
            lacking ==> exists|j: int|
                0 <= j < position && #[trigger] argument_at(kernel, params@, scalars@, j) is None,
            position == MAX_PARAMETERS ==> argument_count(kernel, params.len(), 0) == position,
        ensures
            argument_count(kernel, params.len(), 0) == position,
        decreases MAX_PARAMETERS - position,
    {
        match argument_rule(kernel, params.len(), position) {
            Some(rule) => {
                match find_argument(rule, params, scalars) {
                    Some(arg) => {
                        assert(argument_at(kernel, params@, scalars@, position as int) == Some(
                            arg,
                        ));
                        args.push(arg);
                    },
                    None => {
                        assert(argument_at(kernel, params@, scalars@, position as int) is None);
                        lacking = true;
                    },
                }
                position = position + 1;
                proof {
                    if position == MAX_PARAMETERS {
                        lemma_count_stops(kernel, params.len(), 0, position as nat);
                    }
                }
            },
            None => {
                proof {
                    lemma_count_stops(kernel, params.len(), 0, position as nat);
                }
                break;
            },
        }
    }
    if lacking {
        assert(lacks_scalar(kernel, params@, scalars@));
        return Dispatch::Fail(VX_ERROR_INVALID_PARAMETERS);
    }
    let context_of: Option<u64> = match context_parameter(kernel) {
        Some(i) => Some(parameter_at(params, i)),
        None => None,
    };
    let border_arg = match border_rule(kernel) {
        BorderRule::Unused => BorderArg::Unused,
        BorderRule::AsGiven => BorderArg::AsGiven(border),
        BorderRule::Converted => BorderArg::Mode(border_from_vx(&border)),
    };
    assert(args@ =~= Seq::new(
        argument_count(kernel, params.len(), 0),
        |j: int| argument_at(kernel, params@, scalars@, j)->0,
    ));
    Dispatch::Call(KernelCall { kernel, context_of, border: border_arg, args })
}

/// A border that asks for a constant gives its first byte, one that repeats the
/// edge repeats it, and every other border leaves the edge undefined.
pub proof fn law_border_modes(border: vx_border_t)
    ensures
        border.mode == VX_BORDER_CONSTANT ==> border_mode_of(Some(border)) == BorderMode::Constant(
            border.constant_value.b0,
        ),
        border.mode == VX_BORDER_REPLICATE ==> border_mode_of(Some(border)) == BorderMode::Replicate,
        border.mode != VX_BORDER_CONSTANT && border.mode != VX_BORDER_REPLICATE ==> border_mode_of(
            Some(border),
        ) == BorderMode::Undefined,
        border_mode_of(None) == BorderMode::Undefined,
{
}

/// A scalar of four bytes is copied over the whole number, a shorter one over its
/// low bytes; a missing one leaves the number as it is.
pub proof fn law_scalars_are_copied_over(base: u32, value: u32, low: u8)
    ensures
        patched32(base, Some(crate::scalar::bytes4(value))) == value,
        patched32(base, Some(seq![low])) == base - base % 256 + low,
        patched32(base, None) == base,
{
    crate::scalar::law_bytes_round_trip(value);
    assert(crate::scalar::overlaid(crate::scalar::bytes4(base), crate::scalar::bytes4(value))
        =~= crate::scalar::bytes4(value));
    let patched = crate::scalar::overlaid(crate::scalar::bytes4(base), seq![low]);
    crate::scalar::law_bytes_round_trip(base);
    assert(crate::scalar::number4(patched) == base - base % 256 + low);
}

proof fn lemma_counted(kernel: Kernel, count: usize, from: nat, j: nat)
    requires
        from <= j < from + argument_count(kernel, count, from),
    ensures
        crate::kernels::argument(kernel, count, j as usize) is Some,
    decreases crate::kernels::MAX_PARAMETERS - from,
{
    if from < j {
        lemma_counted(kernel, count, from + 1, j);
    }
}

proof fn lemma_no_scalar_needed(kernel: Kernel, params: Seq<u64>, scalars: Map<u64, VxCScalar>)
    requires
        kernel !is HogCells,
        kernel !is HogFeatures,
        kernel !is BilateralFilter,
    ensures
        !lacks_scalar(kernel, params, scalars),
{
    let count = params.len() as usize;
    assert forall|j: int| 0 <= j < argument_count(kernel, count, 0) implies #[trigger] argument_at(
        kernel,
        params,
        scalars,
        j,
    ) is Some by {
        lemma_counted(kernel, count, 0, j as nat);
    }
}

/// Whether a kernel runs exactly on enough parameters of which some are not null,
/// and refuses all others: where one of its images is null with an invalid
/// reference, and else with invalid parameters.
pub open spec fn takes(
    kernel: Kernel,
    params: Seq<u64>,
    scalars: Map<u64, VxCScalar>,
    border: Option<vx_border_t>,
    least: nat,
    images_there: bool,
    others_there: bool,
) -> bool {
    let outcome = dispatched(kernel, params, scalars, border);
    &&& outcome is Call <==> params.len() >= least && images_there && others_there
    &&& outcome == Outcome::Fail(VX_ERROR_INVALID_REFERENCE) <==> params.len() >= least
        && !images_there
    &&& outcome == Outcome::Fail(VX_ERROR_INVALID_PARAMETERS) <==> params.len() < least || (
    images_there && !others_there)
}

/// What a filter or a colour conversion takes: so many parameters, of which those
/// must not be null that it cannot do without.
pub proof fn law_parameters_of_filters(
    params: Seq<u64>,
    scalars: Map<u64, VxCScalar>,
    border: Option<vx_border_t>,
)
    requires
        params.len() <= usize::MAX,
    ensures
        takes(
            Kernel::Box3x3,
            params,
            scalars,
            border,
            2,
            params[0] != 0 && params[1] != 0,
            true,
        ),
        takes(
            Kernel::Median3x3,
            params,
            scalars,
            border,
            2,
            params[0] != 0 && params[1] != 0,
            true,
        ),
        takes(
            Kernel::Gaussian3x3,
            params,
            scalars,
            border,
            2,
            params[0] != 0 && params[1] != 0,
            true,
        ),
        takes(
            Kernel::Gaussian5x5,
            params,
            scalars,
            border,
            2,
            params[0] != 0 && params[1] != 0,
            true,
        ),
        takes(
            Kernel::Dilate3x3,
            params,
            scalars,
            border,
            2,
            params[0] != 0 && params[1] != 0,
            true,
        ),
        takes(
            Kernel::Erode3x3,
            params,
            scalars,
            border,
            2,
            params[0] != 0 && params[1] != 0,
            true,
        ),
        takes(
            Kernel::ColorConvert,
            params,
            scalars,
            border,
            2,
            params[0] != 0 && params[1] != 0,
            true,
        ),
{
    let count = params.len() as usize;
    lemma_no_scalar_needed(Kernel::Box3x3, params, scalars);
    assert(crate::kernels::required(Kernel::Box3x3, count, 0));
    assert(crate::kernels::required(Kernel::Box3x3, count, 1));
    assert(crate::kernels::checked_image(Kernel::Box3x3, 0));
    assert(crate::kernels::checked_image(Kernel::Box3x3, 1));
    lemma_no_scalar_needed(Kernel::Median3x3, params, scalars);
    assert(crate::kernels::required(Kernel::Median3x3, count, 0));
    assert(crate::kernels::required(Kernel::Median3x3, count, 1));
    assert(crate::kernels::checked_image(Kernel::Median3x3, 0));
    assert(crate::kernels::checked_image(Kernel::Median3x3, 1));
    lemma_no_scalar_needed(Kernel::Gaussian3x3, params, scalars);
    assert(crate::kernels::required(Kernel::Gaussian3x3, count, 0));
    assert(crate::kernels::required(Kernel::Gaussian3x3, count, 1));
    assert(crate::kernels::checked_image(Kernel::Gaussian3x3, 0));
    assert(crate::kernels::checked_image(Kernel::Gaussian3x3, 1));
    lemma_no_scalar_needed(Kernel::Gaussian5x5, params, scalars);
    assert(crate::kernels::required(Kernel::Gaussian5x5, count, 0));
    assert(crate::kernels::required(Kernel::Gaussian5x5, count, 1));
    assert(crate::kernels::checked_image(Kernel::Gaussian5x5, 0));
    assert(crate::kernels::checked_image(Kernel::Gaussian5x5, 1));
    lemma_no_scalar_needed(Kernel::Dilate3x3, params, scalars);
    assert(crate::kernels::required(Kernel::Dilate3x3, count, 0));
    assert(crate::kernels::required(Kernel::Dilate3x3, count, 1));
    assert(crate::kernels::checked_image(Kernel::Dilate3x3, 0));
    assert(crate::kernels::checked_image(Kernel::Dilate3x3, 1));
    lemma_no_scalar_needed(Kernel::Erode3x3, params, scalars);
    assert(crate::kernels::required(Kernel::Erode3x3, count, 0));
    assert(crate::kernels::required(Kernel::Erode3x3, count, 1));
    assert(crate::kernels::checked_image(Kernel::Erode3x3, 0));
    assert(crate::kernels::checked_image(Kernel::Erode3x3, 1));
    lemma_no_scalar_needed(Kernel::ColorConvert, params, scalars);
    assert(crate::kernels::required(Kernel::ColorConvert, count, 0));
    assert(crate::kernels::required(Kernel::ColorConvert, count, 1));
    assert(crate::kernels::checked_image(Kernel::ColorConvert, 0));
    assert(crate::kernels::checked_image(Kernel::ColorConvert, 1));
}

/// What a perspective warp or a threshold takes: so many parameters, of which those
/// must not be null that it cannot do without.
pub proof fn law_parameters_of_warps_and_thresholds(
    params: Seq<u64>,
    scalars: Map<u64, VxCScalar>,
    border: Option<vx_border_t>,
)
    requires
        params.len() <= usize::MAX,
    ensures
        takes(
            Kernel::WarpPerspective,
            params,
            scalars,
            border,
            4,
            params[0] != 0 && params[3] != 0,
            params[1] != 0,
        ),
        takes(
            Kernel::Threshold,
            params,
            scalars,
            border,
            3,
            params[0] != 0 && params[2] != 0,
            params[1] != 0,
        ),
{
    let count = params.len() as usize;
    lemma_no_scalar_needed(Kernel::WarpPerspective, params, scalars);
    assert(crate::kernels::required(Kernel::WarpPerspective, count, 0));
    assert(crate::kernels::required(Kernel::WarpPerspective, count, 1));
    assert(crate::kernels::required(Kernel::WarpPerspective, count, 3));
    assert(crate::kernels::checked_image(Kernel::WarpPerspective, 0));
    assert(crate::kernels::checked_image(Kernel::WarpPerspective, 3));
    lemma_no_scalar_needed(Kernel::Threshold, params, scalars);
    assert(crate::kernels::required(Kernel::Threshold, count, 0));
    assert(crate::kernels::required(Kernel::Threshold, count, 1));
    assert(crate::kernels::required(Kernel::Threshold, count, 2));
    assert(crate::kernels::checked_image(Kernel::Threshold, 0));
    assert(crate::kernels::checked_image(Kernel::Threshold, 2));
}

/// What a kernel that reads one object and writes another takes: so many parameters,
/// of which those must not be null that it cannot do without.
pub proof fn law_parameters_of_pairs_of_objects(
    params: Seq<u64>,
    scalars: Map<u64, VxCScalar>,
    border: Option<vx_border_t>,
)
    requires
        params.len() <= usize::MAX,
    ensures
        takes(
            Kernel::IntegralImage,
            params,
            scalars,
            border,
            2,
            true,
            params[0] != 0 && params[1] != 0,
        ),
        takes(
            Kernel::Copy,
            params,
            scalars,
            border,
            2,
            true,
            params[0] != 0 && params[1] != 0,
        ),
        takes(
            Kernel::Not,
            params,
            scalars,
            border,
            2,
            true,
            params[0] != 0 && params[1] != 0,
        ),
        takes(
            Kernel::Histogram,
            params,
            scalars,
            border,
            2,
            true,
            params[0] != 0 && params[1] != 0,
        ),
        takes(
            Kernel::EqualizeHistogram,
            params,
            scalars,
            border,
            2,
            true,
            params[0] != 0 && params[1] != 0,
        ),
        takes(
            Kernel::GaussianPyramid,
            params,
            scalars,
            border,
            2,
            true,
            params[0] != 0 && params[1] != 0,
        ),
        takes(
            Kernel::ConvertDepth,
            params,
            scalars,
            border,
            4,
            true,
            params[0] != 0 && params[1] != 0,
        ),
        takes(
            Kernel::HalfScaleGaussian,
            params,
            scalars,
            border,
            3,
            true,
            params[0] != 0 && params[1] != 0,
        ),
{
    let count = params.len() as usize;
    lemma_no_scalar_needed(Kernel::IntegralImage, params, scalars);
    assert(crate::kernels::required(Kernel::IntegralImage, count, 0));
    assert(crate::kernels::required(Kernel::IntegralImage, count, 1));
    lemma_no_scalar_needed(Kernel::Copy, params, scalars);
    assert(crate::kernels::required(Kernel::Copy, count, 0));
    assert(crate::kernels::required(Kernel::Copy, count, 1));
    lemma_no_scalar_needed(Kernel::Not, params, scalars);
    assert(crate::kernels::required(Kernel::Not, count, 0));
    assert(crate::kernels::required(Kernel::Not, count, 1));
    lemma_no_scalar_needed(Kernel::Histogram, params, scalars);
    assert(crate::kernels::required(Kernel::Histogram, count, 0));
    assert(crate::kernels::required(Kernel::Histogram, count, 1));
    lemma_no_scalar_needed(Kernel::EqualizeHistogram, params, scalars);
    assert(crate::kernels::required(Kernel::EqualizeHistogram, count, 0));
    assert(crate::kernels::required(Kernel::EqualizeHistogram, count, 1));
    lemma_no_scalar_needed(Kernel::GaussianPyramid, params, scalars);
    assert(crate::kernels::required(Kernel::GaussianPyramid, count, 0));
    assert(crate::kernels::required(Kernel::GaussianPyramid, count, 1));
    lemma_no_scalar_needed(Kernel::ConvertDepth, params, scalars);
    assert(crate::kernels::required(Kernel::ConvertDepth, count, 0));
    assert(crate::kernels::required(Kernel::ConvertDepth, count, 1));
    lemma_no_scalar_needed(Kernel::HalfScaleGaussian, params, scalars);
    assert(crate::kernels::required(Kernel::HalfScaleGaussian, count, 0));
    assert(crate::kernels::required(Kernel::HalfScaleGaussian, count, 1));
}

/// What arithmetic on two objects takes: so many parameters, of which those must not
/// be null that it cannot do without.
pub proof fn law_parameters_of_arithmetic(
    params: Seq<u64>,
    scalars: Map<u64, VxCScalar>,
    border: Option<vx_border_t>,
)
    requires
        params.len() <= usize::MAX,
    ensures
        takes(
            Kernel::Add,
            params,
            scalars,
            border,
            4,
            true,
            params[0] != 0 && params[1] != 0 && params[3] != 0,
        ),
        takes(
            Kernel::Subtract,
            params,
            scalars,
            border,
            4,
            true,
            params[0] != 0 && params[1] != 0 && params[3] != 0,
        ),
        takes(
            Kernel::TensorAdd,
            params,
            scalars,
            border,
            4,
            true,
            params[0] != 0 && params[1] != 0 && params[3] != 0,
        ),
        takes(
            Kernel::TensorSubtract,
            params,
            scalars,
            border,
            4,
            true,
            params[0] != 0 && params[1] != 0 && params[3] != 0,
        ),
        takes(
            Kernel::Multiply,
            params,
            scalars,
            border,
            6,
            true,
            params[0] != 0 && params[1] != 0 && params[2] != 0 && params[5] != 0,
        ),
        takes(
            Kernel::TensorMultiply,
            params,
            scalars,
            border,
            6,
            true,
            params[0] != 0 && params[1] != 0 && params[2] != 0 && params[5] != 0,
        ),
        takes(
            Kernel::Min,
            params,
            scalars,
            border,
            3,
            true,
            params[0] != 0 && params[1] != 0 && params[2] != 0,
        ),
        takes(
            Kernel::Max,
            params,
            scalars,
            border,
            3,
            true,
            params[0] != 0 && params[1] != 0 && params[2] != 0,
        ),
        takes(
            Kernel::AbsDiff,
            params,
            scalars,
            border,
            3,
            true,
            params[0] != 0 && params[1] != 0 && params[2] != 0,
        ),
        takes(
            Kernel::Magnitude,
            params,
            scalars,
            border,
            3,
            true,
            params[0] != 0 && params[1] != 0 && params[2] != 0,
        ),
        takes(
            Kernel::Phase,
            params,
            scalars,
            border,
            3,
            true,
            params[0] != 0 && params[1] != 0 && params[2] != 0,
        ),
        takes(
            Kernel::And,
            params,
            scalars,
            border,
            3,
            true,
            params[0] != 0 && params[1] != 0 && params[2] != 0,
        ),
        takes(
            Kernel::Or,
            params,
            scalars,
            border,
            3,
            true,
            params[0] != 0 && params[1] != 0 && params[2] != 0,
        ),
        takes(
            Kernel::Xor,
            params,
            scalars,
            border,
            3,
            true,
            params[0] != 0 && params[1] != 0 && params[2] != 0,
        ),
        takes(
            Kernel::WeightedAverage,
            params,
            scalars,
            border,
            4,
            true,
            params[0] != 0 && params[1] != 0 && params[2] != 0 && params[3] != 0,
        ),
        takes(
            Kernel::ScalarOperation,
            params,
            scalars,
            border,
            4,
            true,
            params[0] != 0 && params[1] != 0 && params[2] != 0 && params[3] != 0,
        ),
        takes(
            Kernel::Select,
            params,
            scalars,
            border,
            4,
            true,
            params[0] != 0 && params[1] != 0 && params[2] != 0 && params[3] != 0,
        ),
{
    let count = params.len() as usize;
    lemma_no_scalar_needed(Kernel::Add, params, scalars);
    assert(crate::kernels::required(Kernel::Add, count, 0));
    assert(crate::kernels::required(Kernel::Add, count, 1));
    assert(crate::kernels::required(Kernel::Add, count, 3));
    lemma_no_scalar_needed(Kernel::Subtract, params, scalars);
    assert(crate::kernels::required(Kernel::Subtract, count, 0));
    assert(crate::kernels::required(Kernel::Subtract, count, 1));
    assert(crate::kernels::required(Kernel::Subtract, count, 3));
    lemma_no_scalar_needed(Kernel::TensorAdd, params, scalars);
    assert(crate::kernels::required(Kernel::TensorAdd, count, 0));
    assert(crate::kernels::required(Kernel::TensorAdd, count, 1));
    assert(crate::kernels::required(Kernel::TensorAdd, count, 3));
    lemma_no_scalar_needed(Kernel::TensorSubtract, params, scalars);
    assert(crate::kernels::required(Kernel::TensorSubtract, count, 0));
    assert(crate::kernels::required(Kernel::TensorSubtract, count, 1));
    assert(crate::kernels::required(Kernel::TensorSubtract, count, 3));
    lemma_no_scalar_needed(Kernel::Multiply, params, scalars);
    assert(crate::kernels::required(Kernel::Multiply, count, 0));
    assert(crate::kernels::required(Kernel::Multiply, count, 1));
    assert(crate::kernels::required(Kernel::Multiply, count, 2));
    assert(crate::kernels::required(Kernel::Multiply, count, 5));
    lemma_no_scalar_needed(Kernel::TensorMultiply, params, scalars);
    assert(crate::kernels::required(Kernel::TensorMultiply, count, 0));
    assert(crate::kernels::required(Kernel::TensorMultiply, count, 1));
    assert(crate::kernels::required(Kernel::TensorMultiply, count, 2));
    assert(crate::kernels::required(Kernel::TensorMultiply, count, 5));
    lemma_no_scalar_needed(Kernel::Min, params, scalars);
    assert(crate::kernels::required(Kernel::Min, count, 0));
    assert(crate::kernels::required(Kernel::Min, count, 1));
    assert(crate::kernels::required(Kernel::Min, count, 2));
    lemma_no_scalar_needed(Kernel::Max, params, scalars);
    assert(crate::kernels::required(Kernel::Max, count, 0));
    assert(crate::kernels::required(Kernel::Max, count, 1));
    assert(crate::kernels::required(Kernel::Max, count, 2));
    lemma_no_scalar_needed(Kernel::AbsDiff, params, scalars);
    assert(crate::kernels::required(Kernel::AbsDiff, count, 0));
    assert(crate::kernels::required(Kernel::AbsDiff, count, 1));
    assert(crate::kernels::required(Kernel::AbsDiff, count, 2));
    lemma_no_scalar_needed(Kernel::Magnitude, params, scalars);
    assert(crate::kernels::required(Kernel::Magnitude, count, 0));
    assert(crate::kernels::required(Kernel::Magnitude, count, 1));
    assert(crate::kernels::required(Kernel::Magnitude, count, 2));
    lemma_no_scalar_needed(Kernel::Phase, params, scalars);
    assert(crate::kernels::required(Kernel::Phase, count, 0));
    assert(crate::kernels::required(Kernel::Phase, count, 1));
    assert(crate::kernels::required(Kernel::Phase, count, 2));
    lemma_no_scalar_needed(Kernel::And, params, scalars);
    assert(crate::kernels::required(Kernel::And, count, 0));
    assert(crate::kernels::required(Kernel::And, count, 1));
    assert(crate::kernels::required(Kernel::And, count, 2));
    lemma_no_scalar_needed(Kernel::Or, params, scalars);
    assert(crate::kernels::required(Kernel::Or, count, 0));
    assert(crate::kernels::required(Kernel::Or, count, 1));
    assert(crate::kernels::required(Kernel::Or, count, 2));
    lemma_no_scalar_needed(Kernel::Xor, params, scalars);
    assert(crate::kernels::required(Kernel::Xor, count, 0));
    assert(crate::kernels::required(Kernel::Xor, count, 1));
    assert(crate::kernels::required(Kernel::Xor, count, 2));
    lemma_no_scalar_needed(Kernel::WeightedAverage, params, scalars);
    assert(crate::kernels::required(Kernel::WeightedAverage, count, 0));
    assert(crate::kernels::required(Kernel::WeightedAverage, count, 1));
    assert(crate::kernels::required(Kernel::WeightedAverage, count, 2));
    assert(crate::kernels::required(Kernel::WeightedAverage, count, 3));
    lemma_no_scalar_needed(Kernel::ScalarOperation, params, scalars);
    assert(crate::kernels::required(Kernel::ScalarOperation, count, 0));
    assert(crate::kernels::required(Kernel::ScalarOperation, count, 1));
    assert(crate::kernels::required(Kernel::ScalarOperation, count, 2));
    assert(crate::kernels::required(Kernel::ScalarOperation, count, 3));
    lemma_no_scalar_needed(Kernel::Select, params, scalars);
    assert(crate::kernels::required(Kernel::Select, count, 0));
    assert(crate::kernels::required(Kernel::Select, count, 1));
    assert(crate::kernels::required(Kernel::Select, count, 2));
    assert(crate::kernels::required(Kernel::Select, count, 3));
}

/// What a kernel that moves pixels takes: so many parameters, of which those must not
/// be null that it cannot do without.
pub proof fn law_parameters_of_geometry(
    params: Seq<u64>,
    scalars: Map<u64, VxCScalar>,
    border: Option<vx_border_t>,
)
    requires
        params.len() <= usize::MAX,
    ensures
        takes(
            Kernel::WarpAffine,
            params,
            scalars,
            border,
            4,
            true,
            params[0] != 0 && params[1] != 0 && params[3] != 0,
        ),
        takes(
            Kernel::Remap,
            params,
            scalars,
            border,
            4,
            true,
            params[0] != 0 && params[1] != 0 && params[3] != 0,
        ),
        takes(
            Kernel::ScaleImage,
            params,
            scalars,
            border,
            3,
            true,
            params[0] != 0 && params[2] != 0,
        ),
        takes(
            Kernel::ChannelExtract,
            params,
            scalars,
            border,
            3,
            true,
            params[0] != 0 && params[2] != 0,
        ),
{
    let count = params.len() as usize;
    lemma_no_scalar_needed(Kernel::WarpAffine, params, scalars);
    assert(crate::kernels::required(Kernel::WarpAffine, count, 0));
    assert(crate::kernels::required(Kernel::WarpAffine, count, 1));
    assert(crate::kernels::required(Kernel::WarpAffine, count, 3));
    lemma_no_scalar_needed(Kernel::Remap, params, scalars);
    assert(crate::kernels::required(Kernel::Remap, count, 0));
    assert(crate::kernels::required(Kernel::Remap, count, 1));
    assert(crate::kernels::required(Kernel::Remap, count, 3));
    lemma_no_scalar_needed(Kernel::ScaleImage, params, scalars);
    assert(crate::kernels::required(Kernel::ScaleImage, count, 0));
    assert(crate::kernels::required(Kernel::ScaleImage, count, 2));
    lemma_no_scalar_needed(Kernel::ChannelExtract, params, scalars);
    assert(crate::kernels::required(Kernel::ChannelExtract, count, 0));
    assert(crate::kernels::required(Kernel::ChannelExtract, count, 2));
}

/// What a convolution, a table or a pyramid takes: so many parameters, of which those
/// must not be null that it cannot do without.
pub proof fn law_parameters_of_tables_and_pyramids(
    params: Seq<u64>,
    scalars: Map<u64, VxCScalar>,
    border: Option<vx_border_t>,
)
    requires
        params.len() <= usize::MAX,
    ensures
        takes(
            Kernel::Convolve,
            params,
            scalars,
            border,
            3,
            true,
            params[0] != 0 && params[1] != 0 && params[2] != 0,
        ),
        takes(
            Kernel::TableLookup,
            params,
            scalars,
            border,
            3,
            true,
            params[0] != 0 && params[1] != 0 && params[2] != 0,
        ),
        takes(
            Kernel::LaplacianPyramid,
            params,
            scalars,
            border,
            3,
            true,
            params[0] != 0 && params[1] != 0 && params[2] != 0,
        ),
        takes(
            Kernel::LaplacianReconstruct,
            params,
            scalars,
            border,
            3,
            true,
            params[0] != 0 && params[1] != 0 && params[2] != 0,
        ),
        takes(
            Kernel::TensorTableLookup,
            params,
            scalars,
            border,
            3,
            true,
            params[0] != 0 && params[1] != 0 && params[2] != 0,
        ),
        takes(
            Kernel::NonLinearFilter,
            params,
            scalars,
            border,
            4,
            true,
            params[1] != 0 && params[2] != 0 && params[3] != 0,
        ),
{
    let count = params.len() as usize;
    lemma_no_scalar_needed(Kernel::Convolve, params, scalars);
    assert(crate::kernels::required(Kernel::Convolve, count, 0));
    assert(crate::kernels::required(Kernel::Convolve, count, 1));
    assert(crate::kernels::required(Kernel::Convolve, count, 2));
    lemma_no_scalar_needed(Kernel::TableLookup, params, scalars);
    assert(crate::kernels::required(Kernel::TableLookup, count, 0));
    assert(crate::kernels::required(Kernel::TableLookup, count, 1));
    assert(crate::kernels::required(Kernel::TableLookup, count, 2));
    lemma_no_scalar_needed(Kernel::LaplacianPyramid, params, scalars);
    assert(crate::kernels::required(Kernel::LaplacianPyramid, count, 0));
    assert(crate::kernels::required(Kernel::LaplacianPyramid, count, 1));
    assert(crate::kernels::required(Kernel::LaplacianPyramid, count, 2));
    lemma_no_scalar_needed(Kernel::LaplacianReconstruct, params, scalars);
    assert(crate::kernels::required(Kernel::LaplacianReconstruct, count, 0));
    assert(crate::kernels::required(Kernel::LaplacianReconstruct, count, 1));
    assert(crate::kernels::required(Kernel::LaplacianReconstruct, count, 2));
    lemma_no_scalar_needed(Kernel::TensorTableLookup, params, scalars);
    assert(crate::kernels::required(Kernel::TensorTableLookup, count, 0));
    assert(crate::kernels::required(Kernel::TensorTableLookup, count, 1));
    assert(crate::kernels::required(Kernel::TensorTableLookup, count, 2));
    lemma_no_scalar_needed(Kernel::NonLinearFilter, params, scalars);
    assert(crate::kernels::required(Kernel::NonLinearFilter, count, 1));
    assert(crate::kernels::required(Kernel::NonLinearFilter, count, 2));
    assert(crate::kernels::required(Kernel::NonLinearFilter, count, 3));
}

/// What a gradient or a statistic takes: so many parameters, of which those must not
/// be null that it cannot do without.
pub proof fn law_parameters_of_statistics(
    params: Seq<u64>,
    scalars: Map<u64, VxCScalar>,
    border: Option<vx_border_t>,
)
    requires
        params.len() <= usize::MAX,
    ensures
        takes(
            Kernel::Sobel3x3,
            params,
            scalars,
            border,
            3,
            true,
            params[0] != 0,
        ),
        takes(
            Kernel::MeanStdDev,
            params,
            scalars,
            border,
            3,
            true,
            params[0] != 0,
        ),
        takes(
            Kernel::MinMaxLoc,
            params,
            scalars,
            border,
            1,
            true,
            params[0] != 0,
        ),
{
    let count = params.len() as usize;
    lemma_no_scalar_needed(Kernel::Sobel3x3, params, scalars);
    assert(crate::kernels::required(Kernel::Sobel3x3, count, 0));
    lemma_no_scalar_needed(Kernel::MeanStdDev, params, scalars);
    assert(crate::kernels::required(Kernel::MeanStdDev, count, 0));
    lemma_no_scalar_needed(Kernel::MinMaxLoc, params, scalars);
    assert(crate::kernels::required(Kernel::MinMaxLoc, count, 0));
}

/// What a search for features takes: so many parameters, of which those must not be
/// null that it cannot do without.
pub proof fn law_parameters_of_features(
    params: Seq<u64>,
    scalars: Map<u64, VxCScalar>,
    border: Option<vx_border_t>,
)
    requires
        params.len() <= usize::MAX,
    ensures
        takes(
            Kernel::HarrisCorners,
            params,
            scalars,
            border,
            7,
            true,
            params[0] != 0,
        ),
        takes(
            Kernel::FastCorners,
            params,
            scalars,
            border,
            5,
            true,
            params[0] != 0 && params[3] != 0,
        ),
        takes(
            Kernel::CannyEdgeDetector,
            params,
            scalars,
            border,
            5,
            true,
            params[0] != 0 && params[1] != 0 && params[4] != 0,
        ),
        takes(
            Kernel::OpticalFlowPyrLK,
            params,
            scalars,
            border,
            5,
            true,
            params[0] != 0 && params[1] != 0 && params[2] != 0 && params[4] != 0,
        ),
        takes(
            Kernel::HoughLinesP,
            params,
            scalars,
            border,
            7,
            true,
            params[0] != 0 && params[6] != 0,
        ),
        takes(
            Kernel::MatchTemplate,
            params,
            scalars,
            border,
            4,
            true,
            params[0] != 0 && params[1] != 0 && params[3] != 0,
        ),
        takes(
            Kernel::NonMaxSuppression,
            params,
            scalars,
            border,
            4,
            true,
            params[0] != 0 && params[3] != 0,
        ),
        takes(
            Kernel::Lbp,
            params,
            scalars,
            border,
            4,
            true,
            params[0] != 0 && params[3] != 0,
        ),
{
    let count = params.len() as usize;
    lemma_no_scalar_needed(Kernel::HarrisCorners, params, scalars);
    assert(crate::kernels::required(Kernel::HarrisCorners, count, 0));
    lemma_no_scalar_needed(Kernel::FastCorners, params, scalars);
    assert(crate::kernels::required(Kernel::FastCorners, count, 0));
    assert(crate::kernels::required(Kernel::FastCorners, count, 3));
    lemma_no_scalar_needed(Kernel::CannyEdgeDetector, params, scalars);
    assert(crate::kernels::required(Kernel::CannyEdgeDetector, count, 0));
    assert(crate::kernels::required(Kernel::CannyEdgeDetector, count, 1));
    assert(crate::kernels::required(Kernel::CannyEdgeDetector, count, 4));
    lemma_no_scalar_needed(Kernel::OpticalFlowPyrLK, params, scalars);
    assert(crate::kernels::required(Kernel::OpticalFlowPyrLK, count, 0));
    assert(crate::kernels::required(Kernel::OpticalFlowPyrLK, count, 1));
    assert(crate::kernels::required(Kernel::OpticalFlowPyrLK, count, 2));
    assert(crate::kernels::required(Kernel::OpticalFlowPyrLK, count, 4));
    lemma_no_scalar_needed(Kernel::HoughLinesP, params, scalars);
    assert(crate::kernels::required(Kernel::HoughLinesP, count, 0));
    assert(crate::kernels::required(Kernel::HoughLinesP, count, 6));
    lemma_no_scalar_needed(Kernel::MatchTemplate, params, scalars);
    assert(crate::kernels::required(Kernel::MatchTemplate, count, 0));
    assert(crate::kernels::required(Kernel::MatchTemplate, count, 1));
    assert(crate::kernels::required(Kernel::MatchTemplate, count, 3));
    lemma_no_scalar_needed(Kernel::NonMaxSuppression, params, scalars);
    assert(crate::kernels::required(Kernel::NonMaxSuppression, count, 0));
    assert(crate::kernels::required(Kernel::NonMaxSuppression, count, 3));
    lemma_no_scalar_needed(Kernel::Lbp, params, scalars);
    assert(crate::kernels::required(Kernel::Lbp, count, 0));
    assert(crate::kernels::required(Kernel::Lbp, count, 3));
}

/// What a kernel on tensors takes: so many parameters, of which those must not be
/// null that it cannot do without.
pub proof fn law_parameters_of_tensors(
    params: Seq<u64>,
    scalars: Map<u64, VxCScalar>,
    border: Option<vx_border_t>,
)
    requires
        params.len() <= usize::MAX,
    ensures
        takes(
            Kernel::TensorTranspose,
            params,
            scalars,
            border,
            4,
            true,
            params[0] != 0 && params[3] != 0,
        ),
        takes(
            Kernel::TensorConvertDepth,
            params,
            scalars,
            border,
            5,
            true,
            params[0] != 0 && params[2] != 0 && params[3] != 0 && params[4] != 0,
        ),
        takes(
            Kernel::TensorMatrixMultiply,
            params,
            scalars,
            border,
            5,
            true,
            params[0] != 0 && params[1] != 0 && params[4] != 0,
        ),
{
    let count = params.len() as usize;
    lemma_no_scalar_needed(Kernel::TensorTranspose, params, scalars);
    assert(crate::kernels::required(Kernel::TensorTranspose, count, 0));
    assert(crate::kernels::required(Kernel::TensorTranspose, count, 3));
    lemma_no_scalar_needed(Kernel::TensorConvertDepth, params, scalars);
    assert(crate::kernels::required(Kernel::TensorConvertDepth, count, 0));
    assert(crate::kernels::required(Kernel::TensorConvertDepth, count, 2));
    assert(crate::kernels::required(Kernel::TensorConvertDepth, count, 3));
    assert(crate::kernels::required(Kernel::TensorConvertDepth, count, 4));
    lemma_no_scalar_needed(Kernel::TensorMatrixMultiply, params, scalars);
    assert(crate::kernels::required(Kernel::TensorMatrixMultiply, count, 0));
    assert(crate::kernels::required(Kernel::TensorMatrixMultiply, count, 1));
    assert(crate::kernels::required(Kernel::TensorMatrixMultiply, count, 4));
}

/// What combining channels takes: a plane and an output, which stands fifth, or
/// fourth where there are only four parameters; the plane that is missing then is
/// handed over as null.
pub proof fn law_parameters_of_combined_channels(
    params: Seq<u64>,
    scalars: Map<u64, VxCScalar>,
    border: Option<vx_border_t>,
)
    requires
        params.len() <= usize::MAX,
    ensures
        takes(
            Kernel::ChannelCombine,
            params,
            scalars,
            border,
            4,
            true,
            params[0] != 0 && if params.len() >= 5 {
                params[4] != 0
            } else {
                params[3] != 0
            },
        ),
        params.len() == 4 && params[0] != 0 && params[3] != 0 ==> dispatched(
            Kernel::ChannelCombine,
            params,
            scalars,
            border,
        )->args == seq![
            KernelArg::Ref(params[0]),
            KernelArg::Ref(params[1]),
            KernelArg::Ref(params[2]),
            KernelArg::Ref(0),
            KernelArg::Ref(params[3]),
        ],
{
    let count = params.len() as usize;
    let kernel = Kernel::ChannelCombine;
    lemma_no_scalar_needed(kernel, params, scalars);
    assert(crate::kernels::required(kernel, count, 0));
    if count >= 5 {
        assert(crate::kernels::required(kernel, count, 4));
    } else {
        assert(crate::kernels::required(kernel, count, 3));
    }
    if params.len() == 4 && params[0] != 0 && params[3] != 0 {
        assert forall|p: nat| 0 <= p < 5 implies #[trigger] crate::kernels::argument(
            kernel,
            count,
            p as usize,
        ) is Some by {}
        lemma_count_stops(kernel, count, 0, 5);
    }
}

/// Whether a scalar has at least four bytes.
pub open spec fn holds_a_word(scalars: Map<u64, VxCScalar>, reference: u64) -> bool {
    reference != 0 && scalars.contains_key(reference) && scalars[reference].data@.len() >= 4
}

/// What the kernels take that cannot do without scalars: a scalar that they need is
/// there and holds four bytes at least; the size of the parameters of a histogram
/// of gradients may be missing altogether.
pub proof fn law_kernels_that_need_scalars(
    params: Seq<u64>,
    scalars: Map<u64, VxCScalar>,
    border: Option<vx_border_t>,
)
    requires
        params.len() <= usize::MAX,
    ensures
        takes(
            Kernel::HogCells,
            params,
            scalars,
            border,
            6,
            true,
            params[0] != 0 && params[4] != 0 && params[5] != 0 && holds_a_word(scalars, params[1])
                && holds_a_word(scalars, params[2]) && holds_a_word(scalars, params[3]),
        ),
        takes(
            Kernel::BilateralFilter,
            params,
            scalars,
            border,
            5,
            true,
            params[0] != 0 && params[4] != 0 && holds_a_word(scalars, params[1]) && holds_a_word(
                scalars,
                params[2],
            ) && holds_a_word(scalars, params[3]),
        ),
        takes(
            Kernel::HogFeatures,
            params,
            scalars,
            border,
            6,
            true,
            params[0] != 0 && params[1] != 0 && params[2] != 0 && params[3] != 0 && params[5] != 0
                && (holds_a_word(scalars, params[4]) || params[4] == 0 || !scalars.contains_key(
                params[4],
            )),
        ),
{
    let count = params.len() as usize;
    assert(crate::kernels::required(Kernel::HogCells, count, 0));
    assert(crate::kernels::required(Kernel::HogCells, count, 4));
    assert(crate::kernels::required(Kernel::HogCells, count, 5));
    assert forall|p: nat| 0 <= p < 6 implies #[trigger] crate::kernels::argument(
        Kernel::HogCells,
        count,
        p as usize,
    ) is Some by {}
    lemma_count_stops(Kernel::HogCells, count, 0, 6);
    if params.len() >= 6 {
        assert(argument_at(Kernel::HogCells, params, scalars, 1) is Some <==> holds_a_word(
            scalars,
            params[1],
        ));
        assert(argument_at(Kernel::HogCells, params, scalars, 2) is Some <==> holds_a_word(
            scalars,
            params[2],
        ));
        assert(argument_at(Kernel::HogCells, params, scalars, 3) is Some <==> holds_a_word(
            scalars,
            params[3],
        ));
    }
    assert(crate::kernels::required(Kernel::BilateralFilter, count, 0));
    assert(crate::kernels::required(Kernel::BilateralFilter, count, 4));
    assert forall|p: nat| 0 <= p < 5 implies #[trigger] crate::kernels::argument(
        Kernel::BilateralFilter,
        count,
        p as usize,
    ) is Some by {}
    lemma_count_stops(Kernel::BilateralFilter, count, 0, 5);
    if params.len() >= 5 {
        assert(argument_at(Kernel::BilateralFilter, params, scalars, 1) is Some <==> holds_a_word(
            scalars,
            params[1],
        ));
        assert(argument_at(Kernel::BilateralFilter, params, scalars, 2) is Some <==> holds_a_word(
            scalars,
            params[2],
        ));
        assert(argument_at(Kernel::BilateralFilter, params, scalars, 3) is Some <==> holds_a_word(
            scalars,
            params[3],
        ));
    }
    assert(crate::kernels::required(Kernel::HogFeatures, count, 0));
    assert(crate::kernels::required(Kernel::HogFeatures, count, 1));
    assert(crate::kernels::required(Kernel::HogFeatures, count, 2));
    assert(crate::kernels::required(Kernel::HogFeatures, count, 3));
    assert(crate::kernels::required(Kernel::HogFeatures, count, 5));
    assert forall|p: nat| 0 <= p < 6 implies #[trigger] crate::kernels::argument(
        Kernel::HogFeatures,
        count,
        p as usize,
    ) is Some by {}
    lemma_count_stops(Kernel::HogFeatures, count, 0, 6);
    if params.len() >= 6 {
        assert(argument_at(Kernel::HogFeatures, params, scalars, 4) is Some <==> holds_a_word(
            scalars,
            params[4],
        ) || params[4] == 0 || !scalars.contains_key(params[4]));
    }
}

/// What stands in for a scalar that is missing: the policies default to the first
/// of their kind, warps and scaling to the bilinear mix, sizes to the smallest that
/// makes sense, and the search for moved points to its own accuracy, rounds and
/// window.
pub proof fn law_missing_scalars_have_defaults(params: Seq<u64>, scalars: Map<u64, VxCScalar>)
    ensures
        missing(params, scalars, 2) ==> argument_at(Kernel::WarpPerspective, params, scalars, 2) == Some(
            KernelArg::Int(0x4001),
        ),
        missing(params, scalars, 2) ==> argument_at(Kernel::WarpAffine, params, scalars, 2) == Some(
            KernelArg::Int(0x4001),
        ),
        missing(params, scalars, 2) ==> argument_at(Kernel::Remap, params, scalars, 2) == Some(
            KernelArg::Int(0x4001),
        ),
        missing(params, scalars, 2) ==> argument_at(Kernel::Add, params, scalars, 2) == Some(
            KernelArg::Int(0),
        ),
        missing(params, scalars, 2) ==> argument_at(Kernel::Subtract, params, scalars, 2) == Some(
            KernelArg::Int(0),
        ),
        missing(params, scalars, 2) ==> argument_at(Kernel::TensorAdd, params, scalars, 2) == Some(
            KernelArg::Int(0),
        ),
        missing(params, scalars, 2) ==> argument_at(Kernel::TensorSubtract, params, scalars, 2) == Some(
            KernelArg::Int(0),
        ),
        missing(params, scalars, 3) ==> argument_at(Kernel::Multiply, params, scalars, 3) == Some(
            KernelArg::Int(0),
        ),
        missing(params, scalars, 4) ==> argument_at(Kernel::Multiply, params, scalars, 4) == Some(
            KernelArg::Int(0),
        ),
        missing(params, scalars, 3) ==> argument_at(Kernel::TensorMultiply, params, scalars, 3) == Some(
            KernelArg::Int(0),
        ),
        missing(params, scalars, 4) ==> argument_at(Kernel::TensorMultiply, params, scalars, 4) == Some(
            KernelArg::Int(0),
        ),
        missing(params, scalars, 1) ==> argument_at(Kernel::ScaleImage, params, scalars, 2) == Some(
            KernelArg::Int(0x4001),
        ),
        missing(params, scalars, 1) ==> argument_at(Kernel::ChannelExtract, params, scalars, 1) == Some(
            KernelArg::Int(0),
        ),
        missing(params, scalars, 4) ==> argument_at(Kernel::HarrisCorners, params, scalars, 4) == Some(
            KernelArg::Int(3),
        ),
        missing(params, scalars, 5) ==> argument_at(Kernel::HarrisCorners, params, scalars, 5) == Some(
            KernelArg::Int(3),
        ),
        missing(params, scalars, 2) ==> argument_at(Kernel::FastCorners, params, scalars, 2) == Some(
            KernelArg::Int(1),
        ),
        missing(params, scalars, 2) ==> argument_at(Kernel::CannyEdgeDetector, params, scalars, 2) == Some(
            KernelArg::Int(3),
        ),
        missing(params, scalars, 3) ==> argument_at(Kernel::CannyEdgeDetector, params, scalars, 3) == Some(
            KernelArg::Int(0x10000),
        ),
        missing(params, scalars, 2) ==> argument_at(Kernel::ConvertDepth, params, scalars, 2) == Some(
            KernelArg::Int(0xA001),
        ),
        missing(params, scalars, 3) ==> argument_at(Kernel::ConvertDepth, params, scalars, 3) == Some(
            KernelArg::Int(0),
        ),
        missing(params, scalars, 2) ==> argument_at(Kernel::HalfScaleGaussian, params, scalars, 2) == Some(
            KernelArg::Size(5),
        ),
        missing(params, scalars, 4) ==> argument_at(Kernel::HogFeatures, params, scalars, 4) == Some(
            KernelArg::Size(40),
        ),
        missing(params, scalars, 6) ==> argument_at(Kernel::OpticalFlowPyrLK, params, scalars, 5) == Some(
            KernelArg::Bits(0x3A83126F),
        ),
        missing(params, scalars, 7) ==> argument_at(Kernel::OpticalFlowPyrLK, params, scalars, 6) == Some(
            KernelArg::Size(10),
        ),
        missing(params, scalars, 8) ==> argument_at(Kernel::OpticalFlowPyrLK, params, scalars, 7) == Some(
            KernelArg::Flag(false),
        ),
        missing(params, scalars, 9) ==> argument_at(Kernel::OpticalFlowPyrLK, params, scalars, 8) == Some(
            KernelArg::Size(9),
        ),
        missing(params, scalars, 0) ==> argument_at(Kernel::NonLinearFilter, params, scalars, 1) == Some(
            KernelArg::Int(0),
        ),
        missing(params, scalars, 1) ==> argument_at(Kernel::TensorConvertDepth, params, scalars, 1) == Some(
            KernelArg::Int(0),
        ),
        missing(params, scalars, 1) ==> argument_at(Kernel::TensorTranspose, params, scalars, 2) == Some(
            KernelArg::Size(0),
        ),
        missing(params, scalars, 2) ==> argument_at(Kernel::TensorTranspose, params, scalars, 3) == Some(
            KernelArg::Size(0),
        ),
{
}

/// Whether there is no scalar at a parameter.
pub open spec fn missing(params: Seq<u64>, scalars: Map<u64, VxCScalar>, index: usize) -> bool {
    !(parameter(params, index) != 0 && scalars.contains_key(parameter(params, index)))
}

} // verus!
