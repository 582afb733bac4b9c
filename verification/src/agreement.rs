//! A node in a graph and the function that runs the same routine at once: what
//! the routine is handed either way.
use vstd::prelude::*;
use crate::construction::{NodePlan, ScriptSpec, Seed, Source, Step};
use crate::dispatch::{BorderArg, KernelArg, Outcome};
use crate::feature_nodes::HoughLines;
use crate::immediate::{
    Aftermath, CallArg, CallSpec, ContextArg, FilterCall, ImmediateCall, Routine,
};
use crate::kernels::{ArgRule, BorderRule, Kernel};
use crate::records::{VxCContext, VxCMatrix};
use crate::scalar::VxCScalar;
use crate::types::{
    VX_ERROR_INVALID_PARAMETERS, VX_ERROR_INVALID_REFERENCE, VX_ERROR_NOT_IMPLEMENTED,
    VX_SUCCESS, VX_TYPE_BOOL, VX_TYPE_ENUM, VX_TYPE_FLOAT32, VX_TYPE_INT32, VX_TYPE_UINT32,
    vx_border_t, vx_enum, vx_status,
};
use std::collections::HashMap;

verus! {

/// The bytes of a scalar that was made from a seed.
#[verifier::opaque]
pub open spec fn seed_bytes(seed: Seed) -> Seq<u8> {
    if seed.size == 1 {
        seq![seed.bits as u8]
    } else if seed.size == 4 {
        crate::scalar::bytes4(seed.bits as u32)
    } else {
        crate::scalar::bytes8(seed.bits)
    }
}

/// Whether a handle is that of a scalar that was made from a seed.
pub open spec fn grown_from(scalars: Map<u64, VxCScalar>, handle: u64, seed: Seed) -> bool {
    &&& handle != 0
    &&& scalars.contains_key(handle)
    &&& scalars[handle].data@ == seed_bytes(seed)
}

/// How many scalars the first steps of a script make.
pub open spec fn made_before(steps: Seq<Step>, n: int) -> nat
    decreases n,
{
    if n <= 0 {
        0
    } else if steps[n - 1] is Make {
        made_before(steps, n - 1) + 1
    } else {
        made_before(steps, n - 1)
    }
}

/// Whether a step was carried out: a scalar stands where it was to be made, and
/// a parameter holds what it was to be set to.
pub open spec fn is_done(
    steps: Seq<Step>,
    k: int,
    made: Seq<u64>,
    params: Seq<u64>,
    scalars: Map<u64, VxCScalar>,
) -> bool {
    match steps[k] {
        Step::Make(seed) => {
            &&& made_before(steps, k) < made.len()
            &&& grown_from(scalars, made[made_before(steps, k) as int], seed)
        },
        Step::Fill(i, slot) => i < params.len() && params[i as int]
            == crate::construction::slot_value(made, slot),
        Step::Try(i, slot) => i < params.len() && params[i as int]
            == crate::construction::slot_value(made, slot),
        Step::GiveUp => false,
        _ => true,
    }
}

/// The parameter that a step sets.
pub open spec fn set_by(step: Step) -> Option<u32> {
    match step {
        Step::Fill(i, _) => Some(i),
        Step::Try(i, _) => Some(i),
        _ => None,
    }
}

/// Whether the parameters of a node are those that a script leaves behind, with
/// the scalars that it made: every step was carried out, and a parameter that no
/// step set is null.
pub open spec fn is_carried_out(
    plan: ScriptSpec,
    made: Seq<u64>,
    params: Seq<u64>,
    scalars: Map<u64, VxCScalar>,
) -> bool {
    &&& forall|k: int|
        0 <= k < plan.steps.len() ==> #[trigger] is_done(plan.steps, k, made, params, scalars)
    &&& forall|i: int|
        0 <= i < params.len() && #[trigger] params[i] != 0 ==> exists|k: int|
            0 <= k < plan.steps.len() && set_by(#[trigger] plan.steps[k]) == Some(i as u32)
}

proof fn lemma_leading_makes(steps: Seq<Step>, n: int)
    requires
        0 <= n <= steps.len(),
        forall|k: int| 0 <= k < n ==> #[trigger] steps[k] is Make,
    ensures
        made_before(steps, n) == n,
    decreases n,
{
    if n > 0 {
        lemma_leading_makes(steps, n - 1);
    }
}

proof fn lemma_seeded(
    kernel: Seq<char>,
    seeds: Seq<Seed>,
    slots: Seq<Source>,
    made: Seq<u64>,
    params: Seq<u64>,
    scalars: Map<u64, VxCScalar>,
)
    requires
        slots.len() <= u32::MAX,
        is_carried_out(
            crate::construction::seeded_plan(kernel, seeds, slots),
            made,
            params,
            scalars,
        ),
    ensures
        slots.len() <= params.len(),
        seeds.len() <= made.len(),
        forall|i: int|
            0 <= i < slots.len() ==> #[trigger] params[i] == crate::construction::slot_value(
                made,
                slots[i],
            ),
        forall|k: int|
            0 <= k < seeds.len() ==> grown_from(scalars, #[trigger] made[k], seeds[k]),
{
    let plan = crate::construction::seeded_plan(kernel, seeds, slots);
    let steps = plan.steps;
    assert forall|k: int| 0 <= k < seeds.len() implies k < made.len() && grown_from(
        scalars,
        #[trigger] made[k],
        seeds[k],
    ) by {
        assert(steps[k] == Step::Make(seeds[k]));
        assert forall|j: int| 0 <= j < k implies #[trigger] steps[j] is Make by {
            assert(steps[j] == Step::Make(seeds[j]));
        }
        lemma_leading_makes(steps, k);
        assert(is_done(steps, k, made, params, scalars));
    }
    if seeds.len() > 0 {
        let last = seeds.len() - 1;
        assert(grown_from(scalars, made[last], seeds[last]));
    }
    assert forall|i: int| 0 <= i < slots.len() implies i < params.len() && #[trigger] params[i]
        == crate::construction::slot_value(made, slots[i]) by {
        let k = seeds.len() + 2 + i;
        assert(steps[k] == Step::Fill(i as u32, slots[i]));
        assert(is_done(steps, k, made, params, scalars));
    }
    if slots.len() > 0 {
        let last = slots.len() - 1;
        assert(params[last] == crate::construction::slot_value(made, slots[last]));
    }
}

proof fn lemma_plain(
    kernel: Seq<char>,
    refs: Seq<u64>,
    held: Seq<u64>,
    scalars: Map<u64, VxCScalar>,
)
    requires
        held.len() == refs.len() <= u32::MAX,
        is_carried_out(
            crate::construction::plain_plan(kernel, refs),
            Seq::empty(),
            held,
            scalars,
        ),
    ensures
        held == refs,
{
    let steps = crate::construction::plain_plan(kernel, refs).steps;
    assert forall|i: int| 0 <= i < refs.len() implies #[trigger] held[i] == refs[i] by {
        assert(steps[i + 1] == Step::Fill(i as u32, Source::Given(refs[i])));
        assert(is_done(steps, i + 1, Seq::empty(), held, scalars));
    }
    assert(held =~= refs);
}

proof fn lemma_present(refs: Seq<u64>, needed: nat)
    requires
        refs.len() <= u32::MAX,
    ensures
        forall|k: int|
            #![trigger crate::construction::present(refs, needed)[k]]
            0 <= k < crate::construction::present(refs, needed).len() ==> {
                let step = crate::construction::present(refs, needed)[k];
                &&& step is Fill
                &&& step->Fill_0 < refs.len()
                &&& step->Fill_1 == Source::Given(refs[step->Fill_0 as int])
                &&& step->Fill_0 < needed || refs[step->Fill_0 as int] != 0
            },
        forall|i: int|
            #![trigger refs[i]]
            0 <= i < refs.len() && (i < needed || refs[i] != 0) ==> exists|k: int|
                0 <= k < crate::construction::present(refs, needed).len()
                    && #[trigger] crate::construction::present(refs, needed)[k] == Step::Fill(
                    i as u32,
                    Source::Given(refs[i]),
                ),
    decreases refs.len(),
{
    if refs.len() > 0 {
        let rest = refs.drop_last();
        let before = crate::construction::present(rest, needed);
        let all = crate::construction::present(refs, needed);
        lemma_present(rest, needed);
        assert forall|k: int| #![trigger all[k]] 0 <= k < all.len() implies {
            let step = all[k];
            &&& step is Fill
            &&& step->Fill_0 < refs.len()
            &&& step->Fill_1 == Source::Given(refs[step->Fill_0 as int])
            &&& step->Fill_0 < needed || refs[step->Fill_0 as int] != 0
        } by {
            if k < before.len() {
                assert(all[k] == before[k]);
            }
        }
        assert forall|i: int|
            #![trigger refs[i]]
            0 <= i < refs.len() && (i < needed || refs[i] != 0) implies exists|k: int|
            0 <= k < all.len() && #[trigger] all[k] == Step::Fill(
                i as u32,
                Source::Given(refs[i]),
            ) by {
            if i < rest.len() {
                assert(rest[i] == refs[i]);
                let k = choose|k: int|
                    0 <= k < before.len() && #[trigger] before[k] == Step::Fill(
                        i as u32,
                        Source::Given(rest[i]),
                    );
                assert(all[k] == before[k]);
            } else {
                assert(all[before.len() as int] == Step::Fill(i as u32, Source::Given(refs[i])));
            }
        }
    }
}

proof fn lemma_sparse(
    kernel: Seq<char>,
    refs: Seq<u64>,
    needed: nat,
    held: Seq<u64>,
    scalars: Map<u64, VxCScalar>,
)
    requires
        held.len() == refs.len() <= u32::MAX,
        is_carried_out(
            crate::construction::sparse_plan(kernel, refs, needed),
            Seq::empty(),
            held,
            scalars,
        ),
    ensures
        held == refs,
{
    let steps = crate::construction::sparse_plan(kernel, refs, needed).steps;
    let sets = crate::construction::present(refs, needed);
    lemma_present(refs, needed);
    assert forall|i: int| 0 <= i < refs.len() implies #[trigger] held[i] == refs[i] by {
        if i < needed || refs[i] != 0 {
            let k = choose|k: int|
                0 <= k < sets.len() && #[trigger] sets[k] == Step::Fill(
                    i as u32,
                    Source::Given(refs[i]),
                );
            assert(steps[k + 1] == sets[k]);
            assert(is_done(steps, k + 1, Seq::empty(), held, scalars));
        } else if held[i] != 0 {
            let k = choose|k: int|
                0 <= k < steps.len() && set_by(#[trigger] steps[k]) == Some(i as u32);
            assert(steps[k] == sets[k - 1]);
        }
    }
    assert(held =~= refs);
}

proof fn lemma_word(scalars: Map<u64, VxCScalar>, handle: u64, bits: u32, seed: Seed)
    requires
        grown_from(scalars, handle, seed),
        seed.size == 4,
        seed.bits == bits,
    ensures
        forall|params: Seq<u64>, i: usize|
            crate::dispatch::parameter(params, i) == handle
                ==> #[trigger] crate::dispatch::found_argument(
                ArgRule::NeedBits(i),
                params,
                scalars,
            ) == Some(KernelArg::Bits(bits)),
{
    reveal(seed_bytes);
    crate::scalar::law_bytes_round_trip(bits);
}

proof fn lemma_integer(scalars: Map<u64, VxCScalar>, handle: u64, v: i32, seed: Seed)
    requires
        grown_from(scalars, handle, seed),
        seed.size == 4,
        seed.bits == crate::scalar::bits32(v),
    ensures
        forall|params: Seq<u64>, i: usize, default: i32|
            crate::dispatch::parameter(params, i) == handle
                ==> #[trigger] crate::dispatch::found_argument(
                ArgRule::Enum(i, default),
                params,
                scalars,
            ) == Some(KernelArg::Int(v)),
        forall|params: Seq<u64>, i: usize, base: i32, default: i32|
            crate::dispatch::parameter(params, i) == handle
                ==> #[trigger] crate::dispatch::found_argument(
                ArgRule::Word(i, base, default),
                params,
                scalars,
            ) == Some(KernelArg::Int(v)),
        forall|params: Seq<u64>, i: usize|
            crate::dispatch::parameter(params, i) == handle
                ==> #[trigger] crate::dispatch::found_argument(
                ArgRule::NeedInt(i),
                params,
                scalars,
            ) == Some(KernelArg::Int(v)),
{
    reveal(seed_bytes);
    let bits = crate::scalar::bits32(v);
    let bytes = crate::scalar::bytes4(bits);
    crate::scalar::law_bytes_round_trip(bits);
    crate::scalar::law_bits_round_trip(v);
    assert(crate::dispatch::scalar_bytes(scalars, handle) == Some(bytes));
    assert forall|base: i32, default: i32| #[trigger]
        crate::dispatch::word_or(scalars, handle, base, default) == v by {
        assert(crate::scalar::overlaid(
            crate::scalar::bytes4(crate::scalar::bits32(base)),
            bytes,
        ) =~= bytes);
    }
}

proof fn lemma_small_size(scalars: Map<u64, VxCScalar>, handle: u64, v: usize, seed: Seed)
    requires
        grown_from(scalars, handle, seed),
        seed.size == 8,
        seed.bits == v,
        v < 0x8000_0000,
    ensures
        forall|params: Seq<u64>, i: usize, default: i32|
            crate::dispatch::parameter(params, i) == handle
                ==> #[trigger] crate::dispatch::found_argument(
                ArgRule::SizeEnum(i, default),
                params,
                scalars,
            ) == Some(KernelArg::Size(v as u64)),
{
    reveal(seed_bytes);
    let bytes = crate::scalar::bytes8(v as u64);
    let low = crate::scalar::bytes4(v as u32);
    assert(v as u64 % 4294967296 == v);
    assert(forall|i: int| 0 <= i < 4 ==> bytes[i] == low[i]);
    assert(crate::scalar::number4(bytes) == crate::scalar::number4(low));
    crate::scalar::law_bytes_round_trip(v as u32);
}

/// Whether a node whose kernel has a name leads to a routine that is run in a
/// context with a border and arguments.
pub open spec fn runs_as(
    name: Seq<char>,
    held: Seq<u64>,
    scalars: Map<u64, VxCScalar>,
    border: Option<vx_border_t>,
    kernel: Kernel,
    context_of: Option<u64>,
    border_arg: BorderArg,
    args: Seq<KernelArg>,
) -> bool {
    &&& crate::kernels::kernel_named(name) == Some(kernel)
    &&& crate::dispatch::dispatched(kernel, held, scalars, border) == (Outcome::Call {
        kernel,
        context_of,
        border: border_arg,
        args,
    })
}

/// Whether a call hands a routine arguments as they are, without a scalar of its
/// own.
pub open spec fn hands_over(
    call: CallSpec,
    routine: Routine,
    context: ContextArg,
    border: BorderArg,
    args: Seq<KernelArg>,
) -> bool {
    &&& call.routine == routine
    &&& call.context == context
    &&& call.border == border
    &&& call.seeds.len() == 0
    &&& call.results.len() == 0
    &&& call.args.len() == args.len()
    &&& forall|j: int| 0 <= j < args.len() ==> #[trigger] call.args[j] == CallArg::Plain(args[j])
}

proof fn lemma_runs(
    kernel: Kernel,
    held: Seq<u64>,
    scalars: Map<u64, VxCScalar>,
    border: Option<vx_border_t>,
    args: Seq<KernelArg>,
)
    requires
        crate::kernels::fewest(kernel) <= held.len() <= crate::kernels::MAX_PARAMETERS,
        !crate::dispatch::lacks_image(kernel, held),
        !crate::dispatch::lacks_parameter(kernel, held),
        args.len() < crate::kernels::MAX_PARAMETERS,
        crate::kernels::argument(kernel, held.len() as usize, args.len() as usize) is None,
        forall|j: int|
            0 <= j < args.len() ==> #[trigger] crate::dispatch::argument_at(
                kernel,
                held,
                scalars,
                j,
            ) == Some(args[j]),
    ensures
        crate::dispatch::dispatched(kernel, held, scalars, border) == (Outcome::Call {
            kernel,
            context_of: match crate::kernels::context_index(kernel) {
                Some(i) => Some(crate::dispatch::parameter(held, i)),
                None => None,
            },
            border: match crate::kernels::border_form(kernel) {
                BorderRule::Unused => BorderArg::Unused,
                BorderRule::AsGiven => BorderArg::AsGiven(border),
                BorderRule::Converted => BorderArg::Mode(
                    crate::dispatch::border_mode_of(border),
                ),
            },
            args,
        }),
{
    let count = held.len() as usize;
    assert forall|p: nat| 0 <= p < args.len() implies #[trigger] crate::kernels::argument(
        kernel,
        count,
        p as usize,
    ) is Some by {
        assert(crate::dispatch::argument_at(kernel, held, scalars, p as int) is Some);
    }
    crate::dispatch::lemma_count_stops(kernel, count, 0, args.len());
    assert(!crate::dispatch::lacks_scalar(kernel, held, scalars));
    assert(args =~= Seq::new(
        crate::dispatch::argument_count(kernel, held.len() as usize, 0),
        |j: int| crate::dispatch::argument_at(kernel, held, scalars, j)->0,
    ));
}

/// A node that inverts the bits of pixels: its routine is handed what the node was
/// planned with, which is what it is handed when it runs at once.
pub proof fn law_not_node(
    graph: u64,
    context: u64,
    input: u64,
    output: u64,
    plan: NodePlan,
    call: Result<ImmediateCall, vx_status>,
    held: Seq<u64>,
    scalars: Map<u64, VxCScalar>,
    border: Option<vx_border_t>,
)
    requires
        call_ensures(crate::image_nodes::vxNotNode, (graph, input, output), plan),
        call_ensures(crate::immediate::vxuNot, (context, input, output), call),
        held.len() == 2,
        is_carried_out(plan@, Seq::empty(), held, scalars),
    ensures
        call is Ok,
        input != 0 && output != 0 ==> {
            let args = seq![KernelArg::Ref(input), KernelArg::Ref(output)];
            &&& held == seq![input, output]
            &&& runs_as(
                plan@.kernel,
                held,
                scalars,
                border,
                Kernel::Not,
                Some(input),
                BorderArg::Unused,
                args,
            )
        },
        forall|i: int| crate::outputs::is_output(plan@.kernel, None, i) <==> i == 1,
        hands_over(
            call->Ok_0@,
            Routine::Of(Kernel::Not),
            ContextArg::Given(context),
            BorderArg::Unused,
            seq![KernelArg::Ref(input), KernelArg::Ref(output)],
        ),
{
    assert forall|i: int|
        crate::outputs::is_output("org.khronos.openvx.not"@, None, i) <==> i == 1 by {
        crate::outputs::law_outputs_of_built_in_kernels(None, i);
    }
    if input != 0 && output != 0 {
        lemma_plain("org.khronos.openvx.not"@, seq![input, output], held, scalars);
        assert(held[0] == input);
        assert(held[1] == output);
        crate::kernels::law_kernel_names(Kernel::Not, "org.khronos.openvx.not"@);
        let args = seq![KernelArg::Ref(input), KernelArg::Ref(output)];
        assert(crate::dispatch::argument_at(Kernel::Not, held, scalars, 0) == Some(args[0]));
        assert(crate::dispatch::argument_at(Kernel::Not, held, scalars, 1) == Some(args[1]));
        lemma_runs(Kernel::Not, held, scalars, border, args);
    }
}

/// A node that evens the histogram of an image: its routine is handed what the node was
/// planned with, which is what it is handed when it runs at once.
pub proof fn law_equalize_hist_node(
    graph: u64,
    context: u64,
    input: u64,
    output: u64,
    plan: NodePlan,
    call: Result<ImmediateCall, vx_status>,
    held: Seq<u64>,
    scalars: Map<u64, VxCScalar>,
    border: Option<vx_border_t>,
)
    requires
        call_ensures(crate::image_nodes::vxEqualizeHistNode, (graph, input, output), plan),
        call_ensures(crate::immediate::vxuEqualizeHist, (context, input, output), call),
        held.len() == 2,
        is_carried_out(plan@, Seq::empty(), held, scalars),
    ensures
        call is Ok <==> context != 0 && input != 0 && output != 0,
        call is Err ==> call->Err_0 == VX_ERROR_INVALID_REFERENCE,
        input != 0 && output != 0 ==> {
            let args = seq![KernelArg::Ref(input), KernelArg::Ref(output)];
            &&& held == seq![input, output]
            &&& runs_as(
                plan@.kernel,
                held,
                scalars,
                border,
                Kernel::EqualizeHistogram,
                Some(input),
                BorderArg::Unused,
                args,
            )
        },
        forall|i: int| crate::outputs::is_output(plan@.kernel, None, i) <==> i == 1,
        call is Ok ==> hands_over(
            call->Ok_0@,
            Routine::Of(Kernel::EqualizeHistogram),
            ContextArg::Given(context),
            BorderArg::Unused,
            seq![KernelArg::Ref(input), KernelArg::Ref(output)],
        ),
{
    assert forall|i: int|
        crate::outputs::is_output("org.khronos.openvx.equalize_histogram"@, None, i) <==> i == 1 by {
        crate::outputs::law_outputs_of_built_in_kernels(None, i);
    }
    if input != 0 && output != 0 {
        lemma_plain("org.khronos.openvx.equalize_histogram"@, seq![input, output], held, scalars);
        assert(held[0] == input);
        assert(held[1] == output);
        crate::kernels::law_kernel_names(
            Kernel::EqualizeHistogram,
            "org.khronos.openvx.equalize_histogram"@,
        );
        let args = seq![KernelArg::Ref(input), KernelArg::Ref(output)];
        assert(
            crate::dispatch::argument_at(
                Kernel::EqualizeHistogram,
                held,
                scalars,
                0,
            ) == Some(args[0])
        );
        assert(
            crate::dispatch::argument_at(
                Kernel::EqualizeHistogram,
                held,
                scalars,
                1,
            ) == Some(args[1])
        );
        lemma_runs(Kernel::EqualizeHistogram, held, scalars, border, args);
    }
}

/// A node that copies an object: its routine is handed what the node was planned with,
/// which is what it is handed when it runs at once.
pub proof fn law_copy_node(
    graph: u64,
    context: u64,
    input: u64,
    output: u64,
    plan: NodePlan,
    call: Result<ImmediateCall, vx_status>,
    held: Seq<u64>,
    scalars: Map<u64, VxCScalar>,
    border: Option<vx_border_t>,
)
    requires
        call_ensures(crate::image_nodes::vxCopyNode, (graph, input, output), plan),
        call_ensures(crate::immediate::vxuCopy, (context, input, output), call),
        held.len() == 2,
        is_carried_out(plan@, Seq::empty(), held, scalars),
    ensures
        call is Ok,
        input != 0 && output != 0 ==> {
            let args = seq![KernelArg::Ref(input), KernelArg::Ref(output)];
            &&& held == seq![input, output]
            &&& runs_as(
                plan@.kernel,
                held,
                scalars,
                border,
                Kernel::Copy,
                None,
                BorderArg::Unused,
                args,
            )
        },
        forall|i: int| crate::outputs::is_output(plan@.kernel, None, i) <==> i == 1,
        hands_over(
            call->Ok_0@,
            Routine::Of(Kernel::Copy),
            ContextArg::Nothing,
            BorderArg::Unused,
            seq![KernelArg::Ref(input), KernelArg::Ref(output)],
        ),
{
    assert forall|i: int|
        crate::outputs::is_output("org.khronos.openvx.copy"@, None, i) <==> i == 1 by {
        crate::outputs::law_outputs_of_built_in_kernels(None, i);
    }
    if input != 0 && output != 0 {
        lemma_plain("org.khronos.openvx.copy"@, seq![input, output], held, scalars);
        assert(held[0] == input);
        assert(held[1] == output);
        crate::kernels::law_kernel_names(Kernel::Copy, "org.khronos.openvx.copy"@);
        let args = seq![KernelArg::Ref(input), KernelArg::Ref(output)];
        assert(crate::dispatch::argument_at(Kernel::Copy, held, scalars, 0) == Some(args[0]));
        assert(crate::dispatch::argument_at(Kernel::Copy, held, scalars, 1) == Some(args[1]));
        lemma_runs(Kernel::Copy, held, scalars, border, args);
    }
}

/// A node that converts between colour formats: its routine is handed what the node was
/// planned with, which is what it is handed when it runs at once.
pub proof fn law_color_convert_node(
    graph: u64,
    context: u64,
    input: u64,
    output: u64,
    plan: Option<NodePlan>,
    call: Result<ImmediateCall, vx_status>,
    held: Seq<u64>,
    scalars: Map<u64, VxCScalar>,
    border: Option<vx_border_t>,
)
    requires
        call_ensures(crate::image_nodes::vxColorConvertNode, (graph, input, output), plan),
        call_ensures(crate::immediate::vxuColorConvert, (context, input, output), call),
        held.len() == 2,
        plan is Some ==> is_carried_out(plan->0@, Seq::empty(), held, scalars),
    ensures
        plan is Some <==> graph != 0 && input != 0 && output != 0,
        call is Ok,
        plan is Some ==> {
            let args = seq![KernelArg::Ref(input), KernelArg::Ref(output)];
            &&& held == seq![input, output]
            &&& runs_as(
                plan->0@.kernel,
                held,
                scalars,
                border,
                Kernel::ColorConvert,
                Some(input),
                BorderArg::Unused,
                args,
            )
        },
        plan is Some ==> forall|i: int| crate::outputs::is_output(
            plan->0@.kernel,
            None,
            i,
        ) <==> i == 1,
        hands_over(
            call->Ok_0@,
            Routine::Of(Kernel::ColorConvert),
            ContextArg::Given(context),
            BorderArg::Unused,
            seq![KernelArg::Ref(input), KernelArg::Ref(output)],
        ),
{
    assert forall|i: int|
        crate::outputs::is_output("org.khronos.openvx.color_convert"@, None, i) <==> i == 1 by {
        crate::outputs::law_outputs_of_built_in_kernels(None, i);
    }
    if plan is Some {
        lemma_plain("org.khronos.openvx.color_convert"@, seq![input, output], held, scalars);
        assert(held[0] == input);
        assert(held[1] == output);
        crate::kernels::law_kernel_names(
            Kernel::ColorConvert,
            "org.khronos.openvx.color_convert"@,
        );
        let args = seq![KernelArg::Ref(input), KernelArg::Ref(output)];
        assert(
            crate::dispatch::argument_at(Kernel::ColorConvert, held, scalars, 0) == Some(args[0])
        );
        assert(
            crate::dispatch::argument_at(Kernel::ColorConvert, held, scalars, 1) == Some(args[1])
        );
        lemma_runs(Kernel::ColorConvert, held, scalars, border, args);
    }
}

/// A node that extracts a channel: its routine is handed what the node was planned
/// with, which is what it is handed when it runs at once; what a scalar carries comes
/// out of it again.
#[verifier::rlimit(100)]
pub proof fn law_channel_extract_node(
    graph: u64,
    context: u64,
    input: u64,
    channel: vx_enum,
    output: u64,
    plan: Option<NodePlan>,
    call: Result<ImmediateCall, vx_status>,
    made: Seq<u64>,
    held: Seq<u64>,
    scalars: Map<u64, VxCScalar>,
    border: Option<vx_border_t>,
)
    requires
        call_ensures(
            crate::image_nodes::vxChannelExtractNode,
            (graph, input, channel, output),
            plan,
        ),
        call_ensures(
            crate::immediate::vxuChannelExtract,
            (context, input, channel, output),
            call,
        ),
        held.len() == 3,
        plan is Some ==> is_carried_out(plan->0@, made, held, scalars),
    ensures
        plan is Some <==> graph != 0 && input != 0 && output != 0,
        call is Ok,
        plan is Some ==> {
            let args = seq![
                KernelArg::Ref(input),
                KernelArg::Int(channel),
                KernelArg::Ref(output),
            ];
            &&& held == seq![input, made[0], output]
            &&& runs_as(
                plan->0@.kernel,
                held,
                scalars,
                border,
                Kernel::ChannelExtract,
                Some(input),
                BorderArg::Unused,
                args,
            )
        },
        plan is Some ==> forall|i: int| crate::outputs::is_output(
            plan->0@.kernel,
            None,
            i,
        ) <==> i == 2,
        hands_over(
            call->Ok_0@,
            Routine::Of(Kernel::ChannelExtract),
            ContextArg::Given(context),
            BorderArg::Unused,
            seq![KernelArg::Ref(input), KernelArg::Int(channel), KernelArg::Ref(output)],
        ),
{
    assert forall|i: int|
        crate::outputs::is_output("org.khronos.openvx.channel_extract"@, None, i) <==> i == 2 by {
        crate::outputs::law_outputs_of_built_in_kernels(None, i);
    }
    if plan is Some {
        lemma_seeded(
            "org.khronos.openvx.channel_extract"@,
            seq![crate::construction::enum_seed(channel)],
            seq![Source::Given(input), Source::Made(0), Source::Given(output)],
            made,
            held,
            scalars,
        );
        assert(held[0] == input);
        assert(held[1] == made[0]);
        assert(held[2] == output);
        lemma_integer(scalars, made[0], channel, crate::construction::enum_seed(channel));
        crate::kernels::law_kernel_names(
            Kernel::ChannelExtract,
            "org.khronos.openvx.channel_extract"@,
        );
        let args = seq![KernelArg::Ref(input), KernelArg::Int(channel), KernelArg::Ref(output)];
        assert(
            crate::dispatch::argument_at(
                Kernel::ChannelExtract,
                held,
                scalars,
                0,
            ) == Some(args[0])
        );
        assert(
            crate::dispatch::argument_at(
                Kernel::ChannelExtract,
                held,
                scalars,
                1,
            ) == Some(args[1])
        );
        assert(
            crate::dispatch::argument_at(
                Kernel::ChannelExtract,
                held,
                scalars,
                2,
            ) == Some(args[2])
        );
        lemma_runs(Kernel::ChannelExtract, held, scalars, border, args);
    }
}

/// A node that combines channels: its routine is handed what the node was planned with,
/// which is what it is handed when it runs at once.
pub proof fn law_channel_combine_node(
    graph: u64,
    context: u64,
    plane0: u64,
    plane1: u64,
    plane2: u64,
    plane3: u64,
    output: u64,
    plan: Option<NodePlan>,
    call: Result<ImmediateCall, vx_status>,
    held: Seq<u64>,
    scalars: Map<u64, VxCScalar>,
    border: Option<vx_border_t>,
)
    requires
        call_ensures(
            crate::image_nodes::vxChannelCombineNode,
            (graph, plane0, plane1, plane2, plane3, output),
            plan,
        ),
        call_ensures(
            crate::immediate::vxuChannelCombine,
            (context, plane0, plane1, plane2, plane3, output),
            call,
        ),
        held.len() == 5,
        plan is Some ==> is_carried_out(plan->0@, Seq::empty(), held, scalars),
    ensures
        plan is Some <==> graph != 0 && output != 0,
        call is Ok,
        plan is Some && plane0 != 0 ==> {
            let args = seq![
                KernelArg::Ref(plane0),
                KernelArg::Ref(plane1),
                KernelArg::Ref(plane2),
                KernelArg::Ref(plane3),
                KernelArg::Ref(output),
            ];
            &&& held == seq![plane0, plane1, plane2, plane3, output]
            &&& runs_as(
                plan->0@.kernel,
                held,
                scalars,
                border,
                Kernel::ChannelCombine,
                Some(plane0),
                BorderArg::Unused,
                args,
            )
        },
        plan is Some ==> forall|i: int| crate::outputs::is_output(
            plan->0@.kernel,
            None,
            i,
        ) <==> i == 4,
        hands_over(
            call->Ok_0@,
            Routine::Of(Kernel::ChannelCombine),
            ContextArg::Given(context),
            BorderArg::Unused,
            seq![
                KernelArg::Ref(plane0),
                KernelArg::Ref(plane1),
                KernelArg::Ref(plane2),
                KernelArg::Ref(plane3),
                KernelArg::Ref(output),
            ],
        ),
{
    assert forall|i: int|
        crate::outputs::is_output("org.khronos.openvx.channel_combine"@, None, i) <==> i == 4 by {
        crate::outputs::law_outputs_of_built_in_kernels(None, i);
    }
    if plan is Some && plane0 != 0 {
        lemma_plain(
            "org.khronos.openvx.channel_combine"@,
            seq![plane0, plane1, plane2, plane3, output],
            held,
            scalars,
        );
        assert(held[0] == plane0);
        assert(held[1] == plane1);
        assert(held[2] == plane2);
        assert(held[3] == plane3);
        assert(held[4] == output);
        crate::kernels::law_kernel_names(
            Kernel::ChannelCombine,
            "org.khronos.openvx.channel_combine"@,
        );
        let args = seq![
            KernelArg::Ref(plane0),
            KernelArg::Ref(plane1),
            KernelArg::Ref(plane2),
            KernelArg::Ref(plane3),
            KernelArg::Ref(output),
        ];
        assert(
            crate::dispatch::argument_at(
                Kernel::ChannelCombine,
                held,
                scalars,
                0,
            ) == Some(args[0])
        );
        assert(
            crate::dispatch::argument_at(
                Kernel::ChannelCombine,
                held,
                scalars,
                1,
            ) == Some(args[1])
        );
        assert(
            crate::dispatch::argument_at(
                Kernel::ChannelCombine,
                held,
                scalars,
                2,
            ) == Some(args[2])
        );
        assert(
            crate::dispatch::argument_at(
                Kernel::ChannelCombine,
                held,
                scalars,
                3,
            ) == Some(args[3])
        );
        assert(
            crate::dispatch::argument_at(
                Kernel::ChannelCombine,
                held,
                scalars,
                4,
            ) == Some(args[4])
        );
        lemma_runs(Kernel::ChannelCombine, held, scalars, border, args);
    }
}

/// A node that smooths an image with a Gaussian of three by three: its routine is
/// handed what the node was planned with, which is what it is handed when it runs at
/// once.
pub proof fn law_gaussian3x3_node(
    graph: u64,
    context: u64,
    input: u64,
    output: u64,
    plan: Option<NodePlan>,
    call: Result<ImmediateCall, vx_status>,
    held: Seq<u64>,
    scalars: Map<u64, VxCScalar>,
    border: Option<vx_border_t>,
)
    requires
        call_ensures(crate::image_nodes::vxGaussian3x3Node, (graph, input, output), plan),
        call_ensures(crate::immediate::vxuGaussian3x3, (context, input, output), call),
        held.len() == 2,
        plan is Some ==> is_carried_out(plan->0@, Seq::empty(), held, scalars),
    ensures
        plan is Some <==> graph != 0 && input != 0 && output != 0,
        call is Ok,
        plan is Some ==> {
            let args = seq![KernelArg::Ref(input), KernelArg::Ref(output)];
            &&& held == seq![input, output]
            &&& runs_as(
                plan->0@.kernel,
                held,
                scalars,
                border,
                Kernel::Gaussian3x3,
                Some(input),
                BorderArg::AsGiven(border),
                args,
            )
        },
        plan is Some ==> forall|i: int| crate::outputs::is_output(
            plan->0@.kernel,
            None,
            i,
        ) <==> i == 1,
        hands_over(
            call->Ok_0@,
            Routine::Of(Kernel::Gaussian3x3),
            ContextArg::Given(context),
            BorderArg::Unused,
            seq![KernelArg::Ref(input), KernelArg::Ref(output)],
        ),
{
    assert forall|i: int|
        crate::outputs::is_output("org.khronos.openvx.gaussian_3x3"@, None, i) <==> i == 1 by {
        crate::outputs::law_outputs_of_built_in_kernels(None, i);
    }
    if plan is Some {
        lemma_plain("org.khronos.openvx.gaussian_3x3"@, seq![input, output], held, scalars);
        assert(held[0] == input);
        assert(held[1] == output);
        crate::kernels::law_kernel_names(Kernel::Gaussian3x3, "org.khronos.openvx.gaussian_3x3"@);
        let args = seq![KernelArg::Ref(input), KernelArg::Ref(output)];
        assert(
            crate::dispatch::argument_at(Kernel::Gaussian3x3, held, scalars, 0) == Some(args[0])
        );
        assert(
            crate::dispatch::argument_at(Kernel::Gaussian3x3, held, scalars, 1) == Some(args[1])
        );
        lemma_runs(Kernel::Gaussian3x3, held, scalars, border, args);
    }
}

/// A node that smooths an image with a Gaussian of five by five: its routine is handed
/// what the node was planned with, which is what it is handed when it runs at once.
pub proof fn law_gaussian5x5_node(
    graph: u64,
    context: u64,
    input: u64,
    output: u64,
    plan: Option<NodePlan>,
    call: Result<ImmediateCall, vx_status>,
    held: Seq<u64>,
    scalars: Map<u64, VxCScalar>,
    border: Option<vx_border_t>,
)
    requires
        call_ensures(crate::image_nodes::vxGaussian5x5Node, (graph, input, output), plan),
        call_ensures(crate::immediate::vxuGaussian5x5, (context, input, output), call),
        held.len() == 2,
        plan is Some ==> is_carried_out(plan->0@, Seq::empty(), held, scalars),
    ensures
        plan is Some <==> graph != 0 && input != 0 && output != 0,
        call is Ok,
        plan is Some ==> {
            let args = seq![KernelArg::Ref(input), KernelArg::Ref(output)];
            &&& held == seq![input, output]
            &&& runs_as(
                plan->0@.kernel,
                held,
                scalars,
                border,
                Kernel::Gaussian5x5,
                Some(input),
                BorderArg::AsGiven(border),
                args,
            )
        },
        plan is Some ==> forall|i: int| crate::outputs::is_output(
            plan->0@.kernel,
            None,
            i,
        ) <==> i == 1,
        hands_over(
            call->Ok_0@,
            Routine::Of(Kernel::Gaussian5x5),
            ContextArg::Given(context),
            BorderArg::Unused,
            seq![KernelArg::Ref(input), KernelArg::Ref(output)],
        ),
{
    assert forall|i: int|
        crate::outputs::is_output("org.khronos.openvx.gaussian_5x5"@, None, i) <==> i == 1 by {
        crate::outputs::law_outputs_of_built_in_kernels(None, i);
    }
    if plan is Some {
        lemma_plain("org.khronos.openvx.gaussian_5x5"@, seq![input, output], held, scalars);
        assert(held[0] == input);
        assert(held[1] == output);
        crate::kernels::law_kernel_names(Kernel::Gaussian5x5, "org.khronos.openvx.gaussian_5x5"@);
        let args = seq![KernelArg::Ref(input), KernelArg::Ref(output)];
        assert(
            crate::dispatch::argument_at(Kernel::Gaussian5x5, held, scalars, 0) == Some(args[0])
        );
        assert(
            crate::dispatch::argument_at(Kernel::Gaussian5x5, held, scalars, 1) == Some(args[1])
        );
        lemma_runs(Kernel::Gaussian5x5, held, scalars, border, args);
    }
}

/// A node that convolves an image: its routine is handed what the node was planned
/// with, which is what it is handed when it runs at once.
pub proof fn law_convolve_node(
    graph: u64,
    context: u64,
    input: u64,
    conv: u64,
    output: u64,
    plan: Option<NodePlan>,
    call: Result<ImmediateCall, vx_status>,
    held: Seq<u64>,
    scalars: Map<u64, VxCScalar>,
    border: Option<vx_border_t>,
)
    requires
        call_ensures(crate::image_nodes::vxConvolveNode, (graph, input, conv, output), plan),
        call_ensures(crate::immediate::vxuConvolve, (context, input, conv, output), call),
        held.len() == 3,
        plan is Some ==> is_carried_out(plan->0@, Seq::empty(), held, scalars),
    ensures
        plan is Some <==> graph != 0 && input != 0 && conv != 0 && output != 0,
        call is Ok,
        plan is Some ==> {
            let args = seq![KernelArg::Ref(input), KernelArg::Ref(conv), KernelArg::Ref(output)];
            &&& held == seq![input, conv, output]
            &&& runs_as(
                plan->0@.kernel,
                held,
                scalars,
                border,
                Kernel::Convolve,
                Some(input),
                BorderArg::AsGiven(border),
                args,
            )
        },
        plan is Some ==> forall|i: int| crate::outputs::is_output(
            plan->0@.kernel,
            None,
            i,
        ) <==> i == 2,
        hands_over(
            call->Ok_0@,
            Routine::Of(Kernel::Convolve),
            ContextArg::Given(context),
            BorderArg::AsGiven(None),
            seq![KernelArg::Ref(input), KernelArg::Ref(conv), KernelArg::Ref(output)],
        ),
{
    assert forall|i: int|
        crate::outputs::is_output("org.khronos.openvx.convolve"@, None, i) <==> i == 2 by {
        crate::outputs::law_outputs_of_built_in_kernels(None, i);
    }
    if plan is Some {
        lemma_plain("org.khronos.openvx.convolve"@, seq![input, conv, output], held, scalars);
        assert(held[0] == input);
        assert(held[1] == conv);
        assert(held[2] == output);
        crate::kernels::law_kernel_names(Kernel::Convolve, "org.khronos.openvx.convolve"@);
        let args = seq![KernelArg::Ref(input), KernelArg::Ref(conv), KernelArg::Ref(output)];
        assert(crate::dispatch::argument_at(Kernel::Convolve, held, scalars, 0) == Some(args[0]));
        assert(crate::dispatch::argument_at(Kernel::Convolve, held, scalars, 1) == Some(args[1]));
        assert(crate::dispatch::argument_at(Kernel::Convolve, held, scalars, 2) == Some(args[2]));
        lemma_runs(Kernel::Convolve, held, scalars, border, args);
    }
}

/// A node that averages over three by three pixels: its routine is handed what the node
/// was planned with, which is what it is handed when it runs at once.
pub proof fn law_box3x3_node(
    graph: u64,
    context: u64,
    input: u64,
    output: u64,
    plan: Option<NodePlan>,
    call: Result<ImmediateCall, vx_status>,
    held: Seq<u64>,
    scalars: Map<u64, VxCScalar>,
    border: Option<vx_border_t>,
)
    requires
        call_ensures(crate::image_nodes::vxBox3x3Node, (graph, input, output), plan),
        call_ensures(crate::immediate::vxuBox3x3, (context, input, output), call),
        held.len() == 2,
        plan is Some ==> is_carried_out(plan->0@, Seq::empty(), held, scalars),
    ensures
        plan is Some <==> graph != 0 && input != 0 && output != 0,
        call is Ok,
        plan is Some ==> {
            let args = seq![KernelArg::Ref(input), KernelArg::Ref(output)];
            &&& held == seq![input, output]
            &&& runs_as(
                plan->0@.kernel,
                held,
                scalars,
                border,
                Kernel::Box3x3,
                Some(input),
                BorderArg::AsGiven(border),
                args,
            )
        },
        plan is Some ==> forall|i: int| crate::outputs::is_output(
            plan->0@.kernel,
            None,
            i,
        ) <==> i == 1,
        hands_over(
            call->Ok_0@,
            Routine::Of(Kernel::Box3x3),
            ContextArg::Given(context),
            BorderArg::Unused,
            seq![KernelArg::Ref(input), KernelArg::Ref(output)],
        ),
{
    assert forall|i: int|
        crate::outputs::is_output("org.khronos.openvx.box_3x3"@, None, i) <==> i == 1 by {
        crate::outputs::law_outputs_of_built_in_kernels(None, i);
    }
    if plan is Some {
        lemma_plain("org.khronos.openvx.box_3x3"@, seq![input, output], held, scalars);
        assert(held[0] == input);
        assert(held[1] == output);
        crate::kernels::law_kernel_names(Kernel::Box3x3, "org.khronos.openvx.box_3x3"@);
        let args = seq![KernelArg::Ref(input), KernelArg::Ref(output)];
        assert(crate::dispatch::argument_at(Kernel::Box3x3, held, scalars, 0) == Some(args[0]));
        assert(crate::dispatch::argument_at(Kernel::Box3x3, held, scalars, 1) == Some(args[1]));
        lemma_runs(Kernel::Box3x3, held, scalars, border, args);
    }
}

/// A node that takes the median of three by three pixels: its routine is handed what
/// the node was planned with, which is what it is handed when it runs at once.
pub proof fn law_median3x3_node(
    graph: u64,
    context: u64,
    input: u64,
    output: u64,
    plan: Option<NodePlan>,
    call: Result<ImmediateCall, vx_status>,
    held: Seq<u64>,
    scalars: Map<u64, VxCScalar>,
    border: Option<vx_border_t>,
)
    requires
        call_ensures(crate::image_nodes::vxMedian3x3Node, (graph, input, output), plan),
        call_ensures(crate::immediate::vxuMedian3x3, (context, input, output), call),
        held.len() == 2,
        plan is Some ==> is_carried_out(plan->0@, Seq::empty(), held, scalars),
    ensures
        plan is Some <==> graph != 0 && input != 0 && output != 0,
        call is Ok,
        plan is Some ==> {
            let args = seq![KernelArg::Ref(input), KernelArg::Ref(output)];
            &&& held == seq![input, output]
            &&& runs_as(
                plan->0@.kernel,
                held,
                scalars,
                border,
                Kernel::Median3x3,
                Some(input),
                BorderArg::AsGiven(border),
                args,
            )
        },
        plan is Some ==> forall|i: int| crate::outputs::is_output(
            plan->0@.kernel,
            None,
            i,
        ) <==> i == 1,
        hands_over(
            call->Ok_0@,
            Routine::Of(Kernel::Median3x3),
            ContextArg::Given(context),
            BorderArg::Unused,
            seq![KernelArg::Ref(input), KernelArg::Ref(output)],
        ),
{
    assert forall|i: int|
        crate::outputs::is_output("org.khronos.openvx.median_3x3"@, None, i) <==> i == 1 by {
        crate::outputs::law_outputs_of_built_in_kernels(None, i);
    }
    if plan is Some {
        lemma_plain("org.khronos.openvx.median_3x3"@, seq![input, output], held, scalars);
        assert(held[0] == input);
        assert(held[1] == output);
        crate::kernels::law_kernel_names(Kernel::Median3x3, "org.khronos.openvx.median_3x3"@);
        let args = seq![KernelArg::Ref(input), KernelArg::Ref(output)];
        assert(
            crate::dispatch::argument_at(Kernel::Median3x3, held, scalars, 0) == Some(args[0])
        );
        assert(
            crate::dispatch::argument_at(Kernel::Median3x3, held, scalars, 1) == Some(args[1])
        );
        lemma_runs(Kernel::Median3x3, held, scalars, border, args);
    }
}

/// A node that takes gradients over three by three pixels: its routine is handed what
/// the node was planned with, which is what it is handed when it runs at once.
pub proof fn law_sobel3x3_node(
    graph: u64,
    context: u64,
    input: u64,
    output_x: u64,
    output_y: u64,
    plan: Option<NodePlan>,
    call: Result<ImmediateCall, vx_status>,
    held: Seq<u64>,
    scalars: Map<u64, VxCScalar>,
    border: Option<vx_border_t>,
)
    requires
        call_ensures(
            crate::image_nodes::vxSobel3x3Node,
            (graph, input, output_x, output_y),
            plan,
        ),
        call_ensures(crate::immediate::vxuSobel3x3, (context, input, output_x, output_y), call),
        held.len() == 3,
        plan is Some ==> is_carried_out(plan->0@, Seq::empty(), held, scalars),
    ensures
        plan is Some <==> graph != 0 && input != 0,
        call is Ok,
        plan is Some ==> {
            let args = seq![
                KernelArg::Ref(input),
                KernelArg::Ref(output_x),
                KernelArg::Ref(output_y),
            ];
            &&& held == seq![input, output_x, output_y]
            &&& runs_as(
                plan->0@.kernel,
                held,
                scalars,
                border,
                Kernel::Sobel3x3,
                Some(input),
                BorderArg::Unused,
                args,
            )
        },
        plan is Some ==> forall|i: int| crate::outputs::is_output(
            plan->0@.kernel,
            None,
            i,
        ) <==> 1 <= i <= 2,
        hands_over(
            call->Ok_0@,
            Routine::Of(Kernel::Sobel3x3),
            ContextArg::Given(context),
            BorderArg::Unused,
            seq![KernelArg::Ref(input), KernelArg::Ref(output_x), KernelArg::Ref(output_y)],
        ),
{
    assert forall|i: int|
        crate::outputs::is_output("org.khronos.openvx.sobel_3x3"@, None, i) <==> 1 <= i <= 2 by {
        crate::outputs::law_outputs_of_built_in_kernels(None, i);
    }
    if plan is Some {
        lemma_sparse(
            "org.khronos.openvx.sobel_3x3"@,
            seq![input, output_x, output_y],
            1,
            held,
            scalars,
        );
        assert(held[0] == input);
        assert(held[1] == output_x);
        assert(held[2] == output_y);
        crate::kernels::law_kernel_names(Kernel::Sobel3x3, "org.khronos.openvx.sobel_3x3"@);
        let args = seq![
            KernelArg::Ref(input),
            KernelArg::Ref(output_x),
            KernelArg::Ref(output_y),
        ];
        assert(crate::dispatch::argument_at(Kernel::Sobel3x3, held, scalars, 0) == Some(args[0]));
        assert(crate::dispatch::argument_at(Kernel::Sobel3x3, held, scalars, 1) == Some(args[1]));
        assert(crate::dispatch::argument_at(Kernel::Sobel3x3, held, scalars, 2) == Some(args[2]));
        lemma_runs(Kernel::Sobel3x3, held, scalars, border, args);
    }
}

/// A node that takes gradients over five by five pixels: its parameters are the
/// references it was planned with, and the scalars made for it, in their order.
pub proof fn law_sobel5x5_node(
    graph: u64,
    input: u64,
    output_x: u64,
    output_y: u64,
    plan: Option<NodePlan>,
    held: Seq<u64>,
    scalars: Map<u64, VxCScalar>,
)
    requires
        call_ensures(
            crate::image_nodes::vxSobel5x5Node,
            (graph, input, output_x, output_y),
            plan,
        ),
        held.len() == 3,
        plan is Some ==> is_carried_out(plan->0@, Seq::empty(), held, scalars),
    ensures
        plan is Some <==> graph != 0 && input != 0,
        plan is Some ==> {
            &&& held == seq![input, output_x, output_y]
            &&& plan->0@.kernel == "org.khronos.openvx.sobel_5x5"@
        },
{
    if plan is Some {
        lemma_sparse(
            "org.khronos.openvx.sobel_5x5"@,
            seq![input, output_x, output_y],
            1,
            held,
            scalars,
        );
        assert(held[0] == input);
        assert(held[1] == output_x);
        assert(held[2] == output_y);
    }
}

/// A node that takes the magnitude of gradients: its routine is handed what the node
/// was planned with, which is what it is handed when it runs at once.
pub proof fn law_magnitude_node(
    graph: u64,
    context: u64,
    grad_x: u64,
    grad_y: u64,
    output: u64,
    plan: Option<NodePlan>,
    call: Result<ImmediateCall, vx_status>,
    held: Seq<u64>,
    scalars: Map<u64, VxCScalar>,
    border: Option<vx_border_t>,
)
    requires
        call_ensures(crate::image_nodes::vxMagnitudeNode, (graph, grad_x, grad_y, output), plan),
        call_ensures(crate::immediate::vxuMagnitude, (context, grad_x, grad_y, output), call),
        held.len() == 3,
        plan is Some ==> is_carried_out(plan->0@, Seq::empty(), held, scalars),
    ensures
        plan is Some <==> graph != 0 && grad_x != 0 && grad_y != 0 && output != 0,
        call is Ok,
        plan is Some ==> {
            let args = seq![
                KernelArg::Ref(grad_x),
                KernelArg::Ref(grad_y),
                KernelArg::Ref(output),
            ];
            &&& held == seq![grad_x, grad_y, output]
            &&& runs_as(
                plan->0@.kernel,
                held,
                scalars,
                border,
                Kernel::Magnitude,
                Some(grad_x),
                BorderArg::Unused,
                args,
            )
        },
        plan is Some ==> forall|i: int| crate::outputs::is_output(
            plan->0@.kernel,
            None,
            i,
        ) <==> i == 2,
        hands_over(
            call->Ok_0@,
            Routine::Of(Kernel::Magnitude),
            ContextArg::Given(context),
            BorderArg::Unused,
            seq![KernelArg::Ref(grad_x), KernelArg::Ref(grad_y), KernelArg::Ref(output)],
        ),
{
    assert forall|i: int|
        crate::outputs::is_output("org.khronos.openvx.magnitude"@, None, i) <==> i == 2 by {
        crate::outputs::law_outputs_of_built_in_kernels(None, i);
    }
    if plan is Some {
        lemma_plain("org.khronos.openvx.magnitude"@, seq![grad_x, grad_y, output], held, scalars);
        assert(held[0] == grad_x);
        assert(held[1] == grad_y);
        assert(held[2] == output);
        crate::kernels::law_kernel_names(Kernel::Magnitude, "org.khronos.openvx.magnitude"@);
        let args = seq![KernelArg::Ref(grad_x), KernelArg::Ref(grad_y), KernelArg::Ref(output)];
        assert(
            crate::dispatch::argument_at(Kernel::Magnitude, held, scalars, 0) == Some(args[0])
        );
        assert(
            crate::dispatch::argument_at(Kernel::Magnitude, held, scalars, 1) == Some(args[1])
        );
        assert(
            crate::dispatch::argument_at(Kernel::Magnitude, held, scalars, 2) == Some(args[2])
        );
        lemma_runs(Kernel::Magnitude, held, scalars, border, args);
    }
}

/// A node that takes the phase of gradients: its routine is handed what the node was
/// planned with, which is what it is handed when it runs at once.
pub proof fn law_phase_node(
    graph: u64,
    context: u64,
    grad_x: u64,
    grad_y: u64,
    output: u64,
    plan: Option<NodePlan>,
    call: Result<ImmediateCall, vx_status>,
    held: Seq<u64>,
    scalars: Map<u64, VxCScalar>,
    border: Option<vx_border_t>,
)
    requires
        call_ensures(crate::image_nodes::vxPhaseNode, (graph, grad_x, grad_y, output), plan),
        call_ensures(crate::immediate::vxuPhase, (context, grad_x, grad_y, output), call),
        held.len() == 3,
        plan is Some ==> is_carried_out(plan->0@, Seq::empty(), held, scalars),
    ensures
        plan is Some <==> graph != 0 && grad_x != 0 && grad_y != 0 && output != 0,
        call is Ok,
        plan is Some ==> {
            let args = seq![
                KernelArg::Ref(grad_x),
                KernelArg::Ref(grad_y),
                KernelArg::Ref(output),
            ];
            &&& held == seq![grad_x, grad_y, output]
            &&& runs_as(
                plan->0@.kernel,
                held,
                scalars,
                border,
                Kernel::Phase,
                Some(grad_x),
                BorderArg::Unused,
                args,
            )
        },
        plan is Some ==> forall|i: int| crate::outputs::is_output(
            plan->0@.kernel,
            None,
            i,
        ) <==> i == 2,
        hands_over(
            call->Ok_0@,
            Routine::Of(Kernel::Phase),
            ContextArg::Given(context),
            BorderArg::Unused,
            seq![KernelArg::Ref(grad_x), KernelArg::Ref(grad_y), KernelArg::Ref(output)],
        ),
{
    assert forall|i: int|
        crate::outputs::is_output("org.khronos.openvx.phase"@, None, i) <==> i == 2 by {
        crate::outputs::law_outputs_of_built_in_kernels(None, i);
    }
    if plan is Some {
        lemma_plain("org.khronos.openvx.phase"@, seq![grad_x, grad_y, output], held, scalars);
        assert(held[0] == grad_x);
        assert(held[1] == grad_y);
        assert(held[2] == output);
        crate::kernels::law_kernel_names(Kernel::Phase, "org.khronos.openvx.phase"@);
        let args = seq![KernelArg::Ref(grad_x), KernelArg::Ref(grad_y), KernelArg::Ref(output)];
        assert(crate::dispatch::argument_at(Kernel::Phase, held, scalars, 0) == Some(args[0]));
        assert(crate::dispatch::argument_at(Kernel::Phase, held, scalars, 1) == Some(args[1]));
        assert(crate::dispatch::argument_at(Kernel::Phase, held, scalars, 2) == Some(args[2]));
        lemma_runs(Kernel::Phase, held, scalars, border, args);
    }
}

/// A node that dilates over three by three pixels: its routine is handed what the node
/// was planned with, which is what it is handed when it runs at once.
pub proof fn law_dilate3x3_node(
    graph: u64,
    context: u64,
    input: u64,
    output: u64,
    plan: Option<NodePlan>,
    call: Result<ImmediateCall, vx_status>,
    held: Seq<u64>,
    scalars: Map<u64, VxCScalar>,
    border: Option<vx_border_t>,
)
    requires
        call_ensures(crate::image_nodes::vxDilate3x3Node, (graph, input, output), plan),
        call_ensures(crate::immediate::vxuDilate3x3, (context, input, output), call),
        held.len() == 2,
        plan is Some ==> is_carried_out(plan->0@, Seq::empty(), held, scalars),
    ensures
        plan is Some <==> graph != 0 && input != 0 && output != 0,
        call is Ok,
        plan is Some ==> {
            let args = seq![KernelArg::Ref(input), KernelArg::Ref(output)];
            &&& held == seq![input, output]
            &&& runs_as(
                plan->0@.kernel,
                held,
                scalars,
                border,
                Kernel::Dilate3x3,
                Some(input),
                BorderArg::AsGiven(border),
                args,
            )
        },
        plan is Some ==> forall|i: int| crate::outputs::is_output(
            plan->0@.kernel,
            None,
            i,
        ) <==> i == 1,
        hands_over(
            call->Ok_0@,
            Routine::Of(Kernel::Dilate3x3),
            ContextArg::Given(context),
            BorderArg::Unused,
            seq![KernelArg::Ref(input), KernelArg::Ref(output)],
        ),
{
    assert forall|i: int|
        crate::outputs::is_output("org.khronos.openvx.dilate_3x3"@, None, i) <==> i == 1 by {
        crate::outputs::law_outputs_of_built_in_kernels(None, i);
    }
    if plan is Some {
        lemma_plain("org.khronos.openvx.dilate_3x3"@, seq![input, output], held, scalars);
        assert(held[0] == input);
        assert(held[1] == output);
        crate::kernels::law_kernel_names(Kernel::Dilate3x3, "org.khronos.openvx.dilate_3x3"@);
        let args = seq![KernelArg::Ref(input), KernelArg::Ref(output)];
        assert(
            crate::dispatch::argument_at(Kernel::Dilate3x3, held, scalars, 0) == Some(args[0])
        );
        assert(
            crate::dispatch::argument_at(Kernel::Dilate3x3, held, scalars, 1) == Some(args[1])
        );
        lemma_runs(Kernel::Dilate3x3, held, scalars, border, args);
    }
}

/// A node that erodes over three by three pixels: its routine is handed what the node
/// was planned with, which is what it is handed when it runs at once.
pub proof fn law_erode3x3_node(
    graph: u64,
    context: u64,
    input: u64,
    output: u64,
    plan: Option<NodePlan>,
    call: Result<ImmediateCall, vx_status>,
    held: Seq<u64>,
    scalars: Map<u64, VxCScalar>,
    border: Option<vx_border_t>,
)
    requires
        call_ensures(crate::image_nodes::vxErode3x3Node, (graph, input, output), plan),
        call_ensures(crate::immediate::vxuErode3x3, (context, input, output), call),
        held.len() == 2,
        plan is Some ==> is_carried_out(plan->0@, Seq::empty(), held, scalars),
    ensures
        plan is Some <==> graph != 0 && input != 0 && output != 0,
        call is Ok,
        plan is Some ==> {
            let args = seq![KernelArg::Ref(input), KernelArg::Ref(output)];
            &&& held == seq![input, output]
            &&& runs_as(
                plan->0@.kernel,
                held,
                scalars,
                border,
                Kernel::Erode3x3,
                Some(input),
                BorderArg::AsGiven(border),
                args,
            )
        },
        plan is Some ==> forall|i: int| crate::outputs::is_output(
            plan->0@.kernel,
            None,
            i,
        ) <==> i == 1,
        hands_over(
            call->Ok_0@,
            Routine::Of(Kernel::Erode3x3),
            ContextArg::Given(context),
            BorderArg::Unused,
            seq![KernelArg::Ref(input), KernelArg::Ref(output)],
        ),
{
    assert forall|i: int|
        crate::outputs::is_output("org.khronos.openvx.erode_3x3"@, None, i) <==> i == 1 by {
        crate::outputs::law_outputs_of_built_in_kernels(None, i);
    }
    if plan is Some {
        lemma_plain("org.khronos.openvx.erode_3x3"@, seq![input, output], held, scalars);
        assert(held[0] == input);
        assert(held[1] == output);
        crate::kernels::law_kernel_names(Kernel::Erode3x3, "org.khronos.openvx.erode_3x3"@);
        let args = seq![KernelArg::Ref(input), KernelArg::Ref(output)];
        assert(crate::dispatch::argument_at(Kernel::Erode3x3, held, scalars, 0) == Some(args[0]));
        assert(crate::dispatch::argument_at(Kernel::Erode3x3, held, scalars, 1) == Some(args[1]));
        lemma_runs(Kernel::Erode3x3, held, scalars, border, args);
    }
}

/// A node that dilates over five by five pixels: its parameters are the references it
/// was planned with, and the scalars made for it, in their order.
pub proof fn law_dilate5x5_node(
    graph: u64,
    context: u64,
    input: u64,
    output: u64,
    plan: Option<NodePlan>,
    call: Result<ImmediateCall, vx_status>,
    held: Seq<u64>,
    scalars: Map<u64, VxCScalar>,
)
    requires
        call_ensures(crate::image_nodes::vxDilate5x5Node, (graph, input, output), plan),
        call_ensures(crate::immediate::vxuDilate5x5, (context, input, output), call),
        held.len() == 2,
        plan is Some ==> is_carried_out(plan->0@, Seq::empty(), held, scalars),
    ensures
        plan is Some <==> graph != 0 && input != 0 && output != 0,
        call is Ok,
        plan is Some ==> {
            &&& held == seq![input, output]
            &&& plan->0@.kernel == "org.khronos.openvx.dilate_5x5"@
        },
        plan is Some ==> forall|i: int| crate::outputs::is_output(
            plan->0@.kernel,
            None,
            i,
        ) <==> i == 1,
        hands_over(
            call->Ok_0@,
            Routine::Dilate5x5,
            ContextArg::Given(context),
            BorderArg::Unused,
            seq![KernelArg::Ref(input), KernelArg::Ref(output)],
        ),
{
    assert forall|i: int|
        crate::outputs::is_output("org.khronos.openvx.dilate_5x5"@, None, i) <==> i == 1 by {
        crate::outputs::law_outputs_of_built_in_kernels(None, i);
    }
    if plan is Some {
        lemma_plain("org.khronos.openvx.dilate_5x5"@, seq![input, output], held, scalars);
        assert(held[0] == input);
        assert(held[1] == output);
    }
}

/// A node that erodes over five by five pixels: its parameters are the references it
/// was planned with, and the scalars made for it, in their order.
pub proof fn law_erode5x5_node(
    graph: u64,
    context: u64,
    input: u64,
    output: u64,
    plan: Option<NodePlan>,
    call: Result<ImmediateCall, vx_status>,
    held: Seq<u64>,
    scalars: Map<u64, VxCScalar>,
)
    requires
        call_ensures(crate::image_nodes::vxErode5x5Node, (graph, input, output), plan),
        call_ensures(crate::immediate::vxuErode5x5, (context, input, output), call),
        held.len() == 2,
        plan is Some ==> is_carried_out(plan->0@, Seq::empty(), held, scalars),
    ensures
        plan is Some <==> graph != 0 && input != 0 && output != 0,
        call is Ok,
        plan is Some ==> {
            &&& held == seq![input, output]
            &&& plan->0@.kernel == "org.khronos.openvx.erode_5x5"@
        },
        plan is Some ==> forall|i: int| crate::outputs::is_output(
            plan->0@.kernel,
            None,
            i,
        ) <==> i == 1,
        hands_over(
            call->Ok_0@,
            Routine::Erode5x5,
            ContextArg::Given(context),
            BorderArg::Unused,
            seq![KernelArg::Ref(input), KernelArg::Ref(output)],
        ),
{
    assert forall|i: int|
        crate::outputs::is_output("org.khronos.openvx.erode_5x5"@, None, i) <==> i == 1 by {
        crate::outputs::law_outputs_of_built_in_kernels(None, i);
    }
    if plan is Some {
        lemma_plain("org.khronos.openvx.erode_5x5"@, seq![input, output], held, scalars);
        assert(held[0] == input);
        assert(held[1] == output);
    }
}

/// A node that adds images: its routine is handed what the node was planned with, which
/// is what it is handed when it runs at once; what a scalar carries comes out of it
/// again.
#[verifier::rlimit(100)]
pub proof fn law_add_node(
    graph: u64,
    context: u64,
    in1: u64,
    in2: u64,
    policy: vx_enum,
    output: u64,
    plan: Option<NodePlan>,
    call: Result<ImmediateCall, vx_status>,
    made: Seq<u64>,
    held: Seq<u64>,
    scalars: Map<u64, VxCScalar>,
    border: Option<vx_border_t>,
)
    requires
        call_ensures(crate::image_nodes::vxAddNode, (graph, in1, in2, policy, output), plan),
        call_ensures(crate::immediate::vxuAdd, (context, in1, in2, policy, output), call),
        held.len() == 4,
        plan is Some ==> is_carried_out(plan->0@, made, held, scalars),
    ensures
        plan is Some <==> graph != 0 && in1 != 0 && in2 != 0 && output != 0,
        call is Ok,
        plan is Some ==> {
            let args = seq![
                KernelArg::Ref(in1),
                KernelArg::Ref(in2),
                KernelArg::Int(policy),
                KernelArg::Ref(output),
            ];
            &&& held == seq![in1, in2, made[0], output]
            &&& runs_as(
                plan->0@.kernel,
                held,
                scalars,
                border,
                Kernel::Add,
                Some(in1),
                BorderArg::Unused,
                args,
            )
        },
        plan is Some ==> forall|i: int| crate::outputs::is_output(
            plan->0@.kernel,
            None,
            i,
        ) <==> i == 3,
        hands_over(
            call->Ok_0@,
            Routine::Of(Kernel::Add),
            ContextArg::Given(context),
            BorderArg::Unused,
            seq![
                KernelArg::Ref(in1),
                KernelArg::Ref(in2),
                KernelArg::Int(policy),
                KernelArg::Ref(output),
            ],
        ),
{
    assert forall|i: int|
        crate::outputs::is_output("org.khronos.openvx.add"@, None, i) <==> i == 3 by {
        crate::outputs::law_outputs_of_built_in_kernels(None, i);
    }
    if plan is Some {
        lemma_seeded(
            "org.khronos.openvx.add"@,
            seq![crate::construction::enum_seed(policy)],
            seq![Source::Given(in1), Source::Given(in2), Source::Made(0), Source::Given(output)],
            made,
            held,
            scalars,
        );
        assert(held[0] == in1);
        assert(held[1] == in2);
        assert(held[2] == made[0]);
        assert(held[3] == output);
        lemma_integer(scalars, made[0], policy, crate::construction::enum_seed(policy));
        crate::kernels::law_kernel_names(Kernel::Add, "org.khronos.openvx.add"@);
        let args = seq![
            KernelArg::Ref(in1),
            KernelArg::Ref(in2),
            KernelArg::Int(policy),
            KernelArg::Ref(output),
        ];
        assert(crate::dispatch::argument_at(Kernel::Add, held, scalars, 0) == Some(args[0]));
        assert(crate::dispatch::argument_at(Kernel::Add, held, scalars, 1) == Some(args[1]));
        assert(crate::dispatch::argument_at(Kernel::Add, held, scalars, 2) == Some(args[2]));
        assert(crate::dispatch::argument_at(Kernel::Add, held, scalars, 3) == Some(args[3]));
        lemma_runs(Kernel::Add, held, scalars, border, args);
    }
}

/// A node that subtracts images: its routine is handed what the node was planned with,
/// which is what it is handed when it runs at once; what a scalar carries comes out of
/// it again.
#[verifier::rlimit(100)]
pub proof fn law_subtract_node(
    graph: u64,
    context: u64,
    in1: u64,
    in2: u64,
    policy: vx_enum,
    output: u64,
    plan: Option<NodePlan>,
    call: Result<ImmediateCall, vx_status>,
    made: Seq<u64>,
    held: Seq<u64>,
    scalars: Map<u64, VxCScalar>,
    border: Option<vx_border_t>,
)
    requires
        call_ensures(crate::image_nodes::vxSubtractNode, (graph, in1, in2, policy, output), plan),
        call_ensures(crate::immediate::vxuSubtract, (context, in1, in2, policy, output), call),
        held.len() == 4,
        plan is Some ==> is_carried_out(plan->0@, made, held, scalars),
    ensures
        plan is Some <==> graph != 0 && in1 != 0 && in2 != 0 && output != 0,
        call is Ok,
        plan is Some ==> {
            let args = seq![
                KernelArg::Ref(in1),
                KernelArg::Ref(in2),
                KernelArg::Int(policy),
                KernelArg::Ref(output),
            ];
            &&& held == seq![in1, in2, made[0], output]
            &&& runs_as(
                plan->0@.kernel,
                held,
                scalars,
                border,
                Kernel::Subtract,
                Some(in1),
                BorderArg::Unused,
                args,
            )
        },
        plan is Some ==> forall|i: int| crate::outputs::is_output(
            plan->0@.kernel,
            None,
            i,
        ) <==> i == 3,
        hands_over(
            call->Ok_0@,
            Routine::Of(Kernel::Subtract),
            ContextArg::Given(context),
            BorderArg::Unused,
            seq![
                KernelArg::Ref(in1),
                KernelArg::Ref(in2),
                KernelArg::Int(policy),
                KernelArg::Ref(output),
            ],
        ),
{
    assert forall|i: int|
        crate::outputs::is_output("org.khronos.openvx.subtract"@, None, i) <==> i == 3 by {
        crate::outputs::law_outputs_of_built_in_kernels(None, i);
    }
    if plan is Some {
        lemma_seeded(
            "org.khronos.openvx.subtract"@,
            seq![crate::construction::enum_seed(policy)],
            seq![Source::Given(in1), Source::Given(in2), Source::Made(0), Source::Given(output)],
            made,
            held,
            scalars,
        );
        assert(held[0] == in1);
        assert(held[1] == in2);
        assert(held[2] == made[0]);
        assert(held[3] == output);
        lemma_integer(scalars, made[0], policy, crate::construction::enum_seed(policy));
        crate::kernels::law_kernel_names(Kernel::Subtract, "org.khronos.openvx.subtract"@);
        let args = seq![
            KernelArg::Ref(in1),
            KernelArg::Ref(in2),
            KernelArg::Int(policy),
            KernelArg::Ref(output),
        ];
        assert(crate::dispatch::argument_at(Kernel::Subtract, held, scalars, 0) == Some(args[0]));
        assert(crate::dispatch::argument_at(Kernel::Subtract, held, scalars, 1) == Some(args[1]));
        assert(crate::dispatch::argument_at(Kernel::Subtract, held, scalars, 2) == Some(args[2]));
        assert(crate::dispatch::argument_at(Kernel::Subtract, held, scalars, 3) == Some(args[3]));
        lemma_runs(Kernel::Subtract, held, scalars, border, args);
    }
}

/// A node that multiplies images: its routine is handed what the node was planned with;
/// what a scalar carries comes out of it again.
#[verifier::spinoff_prover]
#[verifier::rlimit(100)]
pub proof fn law_multiply_node(
    graph: u64,
    in1: u64,
    in2: u64,
    scale: u64,
    overflow_policy: vx_enum,
    rounding_policy: vx_enum,
    output: u64,
    plan: Option<NodePlan>,
    made: Seq<u64>,
    held: Seq<u64>,
    scalars: Map<u64, VxCScalar>,
    border: Option<vx_border_t>,
)
    requires
        call_ensures(
            crate::image_nodes::vxMultiplyNode,
            (graph, in1, in2, scale, overflow_policy, rounding_policy, output),
            plan,
        ),
        held.len() == 6,
        plan is Some ==> is_carried_out(plan->0@, made, held, scalars),
    ensures
        plan is Some <==> graph != 0 && in1 != 0 && in2 != 0 && output != 0,
        plan is Some && scale != 0 ==> {
            let args = seq![
                KernelArg::Ref(in1),
                KernelArg::Ref(in2),
                KernelArg::Ref(scale),
                KernelArg::Int(overflow_policy),
                KernelArg::Int(rounding_policy),
                KernelArg::Ref(output),
            ];
            &&& held == seq![in1, in2, scale, made[0], made[1], output]
            &&& runs_as(
                plan->0@.kernel,
                held,
                scalars,
                border,
                Kernel::Multiply,
                Some(in1),
                BorderArg::Unused,
                args,
            )
        },
        plan is Some ==> forall|i: int| crate::outputs::is_output(
            plan->0@.kernel,
            None,
            i,
        ) <==> i == 5,
{
    assert forall|i: int|
        crate::outputs::is_output("org.khronos.openvx.multiply"@, None, i) <==> i == 5 by {
        crate::outputs::law_outputs_of_built_in_kernels(None, i);
    }
    if plan is Some && scale != 0 {
        lemma_seeded(
            "org.khronos.openvx.multiply"@,
            seq![
                crate::construction::enum_seed(overflow_policy),
                crate::construction::enum_seed(rounding_policy),
            ],
            seq![
                Source::Given(in1),
                Source::Given(in2),
                Source::Given(scale),
                Source::Made(0),
                Source::Made(1),
                Source::Given(output),
            ],
            made,
            held,
            scalars,
        );
        assert(held[0] == in1);
        assert(held[1] == in2);
        assert(held[2] == scale);
        assert(held[3] == made[0]);
        assert(held[4] == made[1]);
        assert(held[5] == output);
        lemma_integer(
            scalars,
            made[0],
            overflow_policy,
            crate::construction::enum_seed(overflow_policy),
        );
        lemma_integer(
            scalars,
            made[1],
            rounding_policy,
            crate::construction::enum_seed(rounding_policy),
        );
        crate::kernels::law_kernel_names(Kernel::Multiply, "org.khronos.openvx.multiply"@);
        let args = seq![
            KernelArg::Ref(in1),
            KernelArg::Ref(in2),
            KernelArg::Ref(scale),
            KernelArg::Int(overflow_policy),
            KernelArg::Int(rounding_policy),
            KernelArg::Ref(output),
        ];
        assert(crate::dispatch::argument_at(Kernel::Multiply, held, scalars, 0) == Some(args[0]));
        assert(crate::dispatch::argument_at(Kernel::Multiply, held, scalars, 1) == Some(args[1]));
        assert(crate::dispatch::argument_at(Kernel::Multiply, held, scalars, 2) == Some(args[2]));
        assert(crate::dispatch::argument_at(Kernel::Multiply, held, scalars, 3) == Some(args[3]));
        assert(crate::dispatch::argument_at(Kernel::Multiply, held, scalars, 4) == Some(args[4]));
        assert(crate::dispatch::argument_at(Kernel::Multiply, held, scalars, 5) == Some(args[5]));
        lemma_runs(Kernel::Multiply, held, scalars, border, args);
    }
}

/// A node that takes the smaller of two pixels: its routine is handed what the node was
/// planned with, which is what it is handed when it runs at once.
pub proof fn law_min_node(
    graph: u64,
    context: u64,
    in1: u64,
    in2: u64,
    out: u64,
    plan: Option<NodePlan>,
    call: Result<ImmediateCall, vx_status>,
    held: Seq<u64>,
    scalars: Map<u64, VxCScalar>,
    border: Option<vx_border_t>,
)
    requires
        call_ensures(crate::image_nodes::vxMinNode, (graph, in1, in2, out), plan),
        call_ensures(crate::immediate::vxuMin, (context, in1, in2, out), call),
        held.len() == 3,
        plan is Some ==> is_carried_out(plan->0@, Seq::empty(), held, scalars),
    ensures
        plan is Some <==> graph != 0 && in1 != 0 && in2 != 0 && out != 0,
        call is Ok,
        plan is Some ==> {
            let args = seq![KernelArg::Ref(in1), KernelArg::Ref(in2), KernelArg::Ref(out)];
            &&& held == seq![in1, in2, out]
            &&& runs_as(
                plan->0@.kernel,
                held,
                scalars,
                border,
                Kernel::Min,
                Some(in1),
                BorderArg::Unused,
                args,
            )
        },
        plan is Some ==> forall|i: int| crate::outputs::is_output(
            plan->0@.kernel,
            None,
            i,
        ) <==> i == 2,
        hands_over(
            call->Ok_0@,
            Routine::Of(Kernel::Min),
            ContextArg::Given(context),
            BorderArg::Unused,
            seq![KernelArg::Ref(in1), KernelArg::Ref(in2), KernelArg::Ref(out)],
        ),
{
    assert forall|i: int|
        crate::outputs::is_output("org.khronos.openvx.min"@, None, i) <==> i == 2 by {
        crate::outputs::law_outputs_of_built_in_kernels(None, i);
    }
    if plan is Some {
        lemma_plain("org.khronos.openvx.min"@, seq![in1, in2, out], held, scalars);
        assert(held[0] == in1);
        assert(held[1] == in2);
        assert(held[2] == out);
        crate::kernels::law_kernel_names(Kernel::Min, "org.khronos.openvx.min"@);
        let args = seq![KernelArg::Ref(in1), KernelArg::Ref(in2), KernelArg::Ref(out)];
        assert(crate::dispatch::argument_at(Kernel::Min, held, scalars, 0) == Some(args[0]));
        assert(crate::dispatch::argument_at(Kernel::Min, held, scalars, 1) == Some(args[1]));
        assert(crate::dispatch::argument_at(Kernel::Min, held, scalars, 2) == Some(args[2]));
        lemma_runs(Kernel::Min, held, scalars, border, args);
    }
}

/// A node that takes the larger of two pixels: its routine is handed what the node was
/// planned with, which is what it is handed when it runs at once.
pub proof fn law_max_node(
    graph: u64,
    context: u64,
    in1: u64,
    in2: u64,
    out: u64,
    plan: Option<NodePlan>,
    call: Result<ImmediateCall, vx_status>,
    held: Seq<u64>,
    scalars: Map<u64, VxCScalar>,
    border: Option<vx_border_t>,
)
    requires
        call_ensures(crate::image_nodes::vxMaxNode, (graph, in1, in2, out), plan),
        call_ensures(crate::immediate::vxuMax, (context, in1, in2, out), call),
        held.len() == 3,
        plan is Some ==> is_carried_out(plan->0@, Seq::empty(), held, scalars),
    ensures
        plan is Some <==> graph != 0 && in1 != 0 && in2 != 0 && out != 0,
        call is Ok,
        plan is Some ==> {
            let args = seq![KernelArg::Ref(in1), KernelArg::Ref(in2), KernelArg::Ref(out)];
            &&& held == seq![in1, in2, out]
            &&& runs_as(
                plan->0@.kernel,
                held,
                scalars,
                border,
                Kernel::Max,
                Some(in1),
                BorderArg::Unused,
                args,
            )
        },
        plan is Some ==> forall|i: int| crate::outputs::is_output(
            plan->0@.kernel,
            None,
            i,
        ) <==> i == 2,
        hands_over(
            call->Ok_0@,
            Routine::Of(Kernel::Max),
            ContextArg::Given(context),
            BorderArg::Unused,
            seq![KernelArg::Ref(in1), KernelArg::Ref(in2), KernelArg::Ref(out)],
        ),
{
    assert forall|i: int|
        crate::outputs::is_output("org.khronos.openvx.max"@, None, i) <==> i == 2 by {
        crate::outputs::law_outputs_of_built_in_kernels(None, i);
    }
    if plan is Some {
        lemma_plain("org.khronos.openvx.max"@, seq![in1, in2, out], held, scalars);
        assert(held[0] == in1);
        assert(held[1] == in2);
        assert(held[2] == out);
        crate::kernels::law_kernel_names(Kernel::Max, "org.khronos.openvx.max"@);
        let args = seq![KernelArg::Ref(in1), KernelArg::Ref(in2), KernelArg::Ref(out)];
        assert(crate::dispatch::argument_at(Kernel::Max, held, scalars, 0) == Some(args[0]));
        assert(crate::dispatch::argument_at(Kernel::Max, held, scalars, 1) == Some(args[1]));
        assert(crate::dispatch::argument_at(Kernel::Max, held, scalars, 2) == Some(args[2]));
        lemma_runs(Kernel::Max, held, scalars, border, args);
    }
}

/// A node that finds the smallest and largest pixels: its routine is handed what the
/// node was planned with, which is what it is handed when it runs at once.
pub proof fn law_min_max_loc_node(
    graph: u64,
    context: u64,
    input: u64,
    min_val: u64,
    max_val: u64,
    min_loc: u64,
    max_loc: u64,
    min_count: u64,
    max_count: u64,
    plan: Option<NodePlan>,
    call: Result<ImmediateCall, vx_status>,
    held: Seq<u64>,
    scalars: Map<u64, VxCScalar>,
    border: Option<vx_border_t>,
)
    requires
        call_ensures(
            crate::image_nodes::vxMinMaxLocNode,
            (graph, input, min_val, max_val, min_loc, max_loc, min_count, max_count),
            plan,
        ),
        call_ensures(
            crate::immediate::vxuMinMaxLoc,
            (context, input, min_val, max_val, min_loc, max_loc, min_count, max_count),
            call,
        ),
        held.len() == 7,
        plan is Some ==> is_carried_out(plan->0@, Seq::empty(), held, scalars),
    ensures
        plan is Some <==> graph != 0 && input != 0,
        call is Ok,
        plan is Some ==> {
            let args = seq![
                KernelArg::Ref(input),
                KernelArg::Ref(min_val),
                KernelArg::Ref(max_val),
                KernelArg::Ref(min_loc),
                KernelArg::Ref(max_loc),
                KernelArg::Ref(min_count),
                KernelArg::Ref(max_count),
            ];
            &&& held == seq![input, min_val, max_val, min_loc, max_loc, min_count, max_count]
            &&& runs_as(
                plan->0@.kernel,
                held,
                scalars,
                border,
                Kernel::MinMaxLoc,
                Some(input),
                BorderArg::Unused,
                args,
            )
        },
        plan is Some ==> forall|i: int| crate::outputs::is_output(
            plan->0@.kernel,
            None,
            i,
        ) <==> 1 <= i <= 6,
        hands_over(
            call->Ok_0@,
            Routine::Of(Kernel::MinMaxLoc),
            ContextArg::Given(context),
            BorderArg::Unused,
            seq![
                KernelArg::Ref(input),
                KernelArg::Ref(min_val),
                KernelArg::Ref(max_val),
                KernelArg::Ref(min_loc),
                KernelArg::Ref(max_loc),
                KernelArg::Ref(min_count),
                KernelArg::Ref(max_count),
            ],
        ),
{
    assert forall|i: int|
        crate::outputs::is_output("org.khronos.openvx.minmaxloc"@, None, i) <==> 1 <= i <= 6 by {
        crate::outputs::law_outputs_of_built_in_kernels(None, i);
    }
    if plan is Some {
        lemma_sparse(
            "org.khronos.openvx.minmaxloc"@,
            seq![input, min_val, max_val, min_loc, max_loc, min_count, max_count],
            1,
            held,
            scalars,
        );
        assert(held[0] == input);
        assert(held[1] == min_val);
        assert(held[2] == max_val);
        assert(held[3] == min_loc);
        assert(held[4] == max_loc);
        assert(held[5] == min_count);
        assert(held[6] == max_count);
        crate::kernels::law_kernel_names(Kernel::MinMaxLoc, "org.khronos.openvx.minmaxloc"@);
        let args = seq![
            KernelArg::Ref(input),
            KernelArg::Ref(min_val),
            KernelArg::Ref(max_val),
            KernelArg::Ref(min_loc),
            KernelArg::Ref(max_loc),
            KernelArg::Ref(min_count),
            KernelArg::Ref(max_count),
        ];
        assert(
            crate::dispatch::argument_at(Kernel::MinMaxLoc, held, scalars, 0) == Some(args[0])
        );
        assert(
            crate::dispatch::argument_at(Kernel::MinMaxLoc, held, scalars, 1) == Some(args[1])
        );
        assert(
            crate::dispatch::argument_at(Kernel::MinMaxLoc, held, scalars, 2) == Some(args[2])
        );
        assert(
            crate::dispatch::argument_at(Kernel::MinMaxLoc, held, scalars, 3) == Some(args[3])
        );
        assert(
            crate::dispatch::argument_at(Kernel::MinMaxLoc, held, scalars, 4) == Some(args[4])
        );
        assert(
            crate::dispatch::argument_at(Kernel::MinMaxLoc, held, scalars, 5) == Some(args[5])
        );
        assert(
            crate::dispatch::argument_at(Kernel::MinMaxLoc, held, scalars, 6) == Some(args[6])
        );
        lemma_runs(Kernel::MinMaxLoc, held, scalars, border, args);
    }
}

/// A node that takes the mean and standard deviation: its routine is handed what the
/// node was planned with.
pub proof fn law_mean_std_dev_node(
    graph: u64,
    input: u64,
    mean: u64,
    stddev: u64,
    plan: Option<NodePlan>,
    held: Seq<u64>,
    scalars: Map<u64, VxCScalar>,
    border: Option<vx_border_t>,
)
    requires
        call_ensures(crate::image_nodes::vxMeanStdDevNode, (graph, input, mean, stddev), plan),
        held.len() == 3,
        plan is Some ==> is_carried_out(plan->0@, Seq::empty(), held, scalars),
    ensures
        plan is Some <==> graph != 0 && input != 0,
        plan is Some ==> {
            let args = seq![KernelArg::Ref(input), KernelArg::Ref(mean), KernelArg::Ref(stddev)];
            &&& held == seq![input, mean, stddev]
            &&& runs_as(
                plan->0@.kernel,
                held,
                scalars,
                border,
                Kernel::MeanStdDev,
                Some(input),
                BorderArg::Unused,
                args,
            )
        },
        plan is Some ==> forall|i: int| crate::outputs::is_output(
            plan->0@.kernel,
            None,
            i,
        ) <==> 2 <= i <= 3,
{
    assert forall|i: int|
        crate::outputs::is_output("org.khronos.openvx.mean_stddev"@, None, i) <==> 2 <= i <= 3 by {
        crate::outputs::law_outputs_of_built_in_kernels(None, i);
    }
    if plan is Some {
        lemma_sparse(
            "org.khronos.openvx.mean_stddev"@,
            seq![input, mean, stddev],
            1,
            held,
            scalars,
        );
        assert(held[0] == input);
        assert(held[1] == mean);
        assert(held[2] == stddev);
        crate::kernels::law_kernel_names(Kernel::MeanStdDev, "org.khronos.openvx.mean_stddev"@);
        let args = seq![KernelArg::Ref(input), KernelArg::Ref(mean), KernelArg::Ref(stddev)];
        assert(
            crate::dispatch::argument_at(Kernel::MeanStdDev, held, scalars, 0) == Some(args[0])
        );
        assert(
            crate::dispatch::argument_at(Kernel::MeanStdDev, held, scalars, 1) == Some(args[1])
        );
        assert(
            crate::dispatch::argument_at(Kernel::MeanStdDev, held, scalars, 2) == Some(args[2])
        );
        lemma_runs(Kernel::MeanStdDev, held, scalars, border, args);
    }
}

/// A node that counts pixels: its routine is handed what the node was planned with,
/// which is what it is handed when it runs at once.
pub proof fn law_histogram_node(
    graph: u64,
    context: u64,
    input: u64,
    distribution: u64,
    plan: Option<NodePlan>,
    call: Result<ImmediateCall, vx_status>,
    held: Seq<u64>,
    scalars: Map<u64, VxCScalar>,
    border: Option<vx_border_t>,
)
    requires
        call_ensures(crate::image_nodes::vxHistogramNode, (graph, input, distribution), plan),
        call_ensures(crate::immediate::vxuHistogram, (context, input, distribution), call),
        held.len() == 2,
        plan is Some ==> is_carried_out(plan->0@, Seq::empty(), held, scalars),
    ensures
        plan is Some <==> graph != 0 && input != 0 && distribution != 0,
        call is Ok,
        plan is Some ==> {
            let args = seq![KernelArg::Ref(input), KernelArg::Ref(distribution)];
            &&& held == seq![input, distribution]
            &&& runs_as(
                plan->0@.kernel,
                held,
                scalars,
                border,
                Kernel::Histogram,
                Some(input),
                BorderArg::Unused,
                args,
            )
        },
        plan is Some ==> forall|i: int| crate::outputs::is_output(
            plan->0@.kernel,
            None,
            i,
        ) <==> i == 1,
        hands_over(
            call->Ok_0@,
            Routine::Of(Kernel::Histogram),
            ContextArg::Given(context),
            BorderArg::Unused,
            seq![KernelArg::Ref(input), KernelArg::Ref(distribution)],
        ),
{
    assert forall|i: int|
        crate::outputs::is_output("org.khronos.openvx.histogram"@, None, i) <==> i == 1 by {
        crate::outputs::law_outputs_of_built_in_kernels(None, i);
    }
    if plan is Some {
        lemma_plain("org.khronos.openvx.histogram"@, seq![input, distribution], held, scalars);
        assert(held[0] == input);
        assert(held[1] == distribution);
        crate::kernels::law_kernel_names(Kernel::Histogram, "org.khronos.openvx.histogram"@);
        let args = seq![KernelArg::Ref(input), KernelArg::Ref(distribution)];
        assert(
            crate::dispatch::argument_at(Kernel::Histogram, held, scalars, 0) == Some(args[0])
        );
        assert(
            crate::dispatch::argument_at(Kernel::Histogram, held, scalars, 1) == Some(args[1])
        );
        lemma_runs(Kernel::Histogram, held, scalars, border, args);
    }
}

/// A node that scales an image: its routine is handed what the node was planned with,
/// which is what it is handed when it runs at once; what a scalar carries comes out of
/// it again.
#[verifier::rlimit(100)]
pub proof fn law_scale_image_node(
    graph: u64,
    context: u64,
    input: u64,
    output: u64,
    interpolation: vx_enum,
    plan: Option<NodePlan>,
    call: Result<ImmediateCall, vx_status>,
    made: Seq<u64>,
    held: Seq<u64>,
    scalars: Map<u64, VxCScalar>,
    border: Option<vx_border_t>,
)
    requires
        call_ensures(
            crate::image_nodes::vxScaleImageNode,
            (graph, input, output, interpolation),
            plan,
        ),
        call_ensures(
            crate::immediate::vxuScaleImage,
            (context, input, output, interpolation),
            call,
        ),
        held.len() == 3,
        plan is Some ==> is_carried_out(plan->0@, made, held, scalars),
    ensures
        plan is Some <==> graph != 0 && input != 0 && output != 0,
        call is Ok,
        plan is Some ==> {
            let args = seq![
                KernelArg::Ref(input),
                KernelArg::Ref(output),
                KernelArg::Int(interpolation),
            ];
            &&& held == seq![input, made[0], output]
            &&& runs_as(
                plan->0@.kernel,
                held,
                scalars,
                border,
                Kernel::ScaleImage,
                Some(input),
                BorderArg::Mode(crate::dispatch::border_mode_of(border)),
                args,
            )
        },
        plan is Some ==> forall|i: int| crate::outputs::is_output(
            plan->0@.kernel,
            None,
            i,
        ) <==> i == 2,
        hands_over(
            call->Ok_0@,
            Routine::Of(Kernel::ScaleImage),
            ContextArg::Given(context),
            BorderArg::AsGiven(None),
            seq![KernelArg::Ref(input), KernelArg::Ref(output), KernelArg::Int(interpolation)],
        ),
{
    assert forall|i: int|
        crate::outputs::is_output("org.khronos.openvx.scale_image"@, None, i) <==> i == 2 by {
        crate::outputs::law_outputs_of_built_in_kernels(None, i);
    }
    if plan is Some {
        lemma_seeded(
            "org.khronos.openvx.scale_image"@,
            seq![crate::construction::enum_seed(interpolation)],
            seq![Source::Given(input), Source::Made(0), Source::Given(output)],
            made,
            held,
            scalars,
        );
        assert(held[0] == input);
        assert(held[1] == made[0]);
        assert(held[2] == output);
        lemma_integer(
            scalars,
            made[0],
            interpolation,
            crate::construction::enum_seed(interpolation),
        );
        crate::kernels::law_kernel_names(Kernel::ScaleImage, "org.khronos.openvx.scale_image"@);
        let args = seq![
            KernelArg::Ref(input),
            KernelArg::Ref(output),
            KernelArg::Int(interpolation),
        ];
        assert(
            crate::dispatch::argument_at(Kernel::ScaleImage, held, scalars, 0) == Some(args[0])
        );
        assert(
            crate::dispatch::argument_at(Kernel::ScaleImage, held, scalars, 1) == Some(args[1])
        );
        assert(
            crate::dispatch::argument_at(Kernel::ScaleImage, held, scalars, 2) == Some(args[2])
        );
        lemma_runs(Kernel::ScaleImage, held, scalars, border, args);
    }
}

/// A node that warps an image by an affine map: its routine is handed what the node was
/// planned with, which is what it is handed when it runs at once; what a scalar carries
/// comes out of it again.
#[verifier::rlimit(100)]
pub proof fn law_warp_affine_node(
    graph: u64,
    context: u64,
    input: u64,
    matrix: u64,
    interpolation: vx_enum,
    output: u64,
    plan: Option<NodePlan>,
    call: Result<ImmediateCall, vx_status>,
    made: Seq<u64>,
    held: Seq<u64>,
    scalars: Map<u64, VxCScalar>,
    border: Option<vx_border_t>,
)
    requires
        call_ensures(
            crate::image_nodes::vxWarpAffineNode,
            (graph, input, matrix, interpolation, output),
            plan,
        ),
        call_ensures(
            crate::immediate::vxuWarpAffine,
            (context, input, matrix, interpolation, output),
            call,
        ),
        held.len() == 4,
        plan is Some ==> is_carried_out(plan->0@, made, held, scalars),
    ensures
        plan is Some <==> graph != 0 && input != 0 && matrix != 0 && output != 0,
        call is Ok,
        plan is Some ==> {
            let args = seq![
                KernelArg::Ref(input),
                KernelArg::Ref(matrix),
                KernelArg::Int(interpolation),
                KernelArg::Ref(output),
            ];
            &&& held == seq![input, matrix, made[0], output]
            &&& runs_as(
                plan->0@.kernel,
                held,
                scalars,
                border,
                Kernel::WarpAffine,
                Some(input),
                BorderArg::Mode(crate::dispatch::border_mode_of(border)),
                args,
            )
        },
        plan is Some ==> forall|i: int| crate::outputs::is_output(
            plan->0@.kernel,
            None,
            i,
        ) <==> i == 3,
        hands_over(
            call->Ok_0@,
            Routine::Of(Kernel::WarpAffine),
            ContextArg::Given(context),
            BorderArg::AsGiven(None),
            seq![
                KernelArg::Ref(input),
                KernelArg::Ref(matrix),
                KernelArg::Int(interpolation),
                KernelArg::Ref(output),
            ],
        ),
{
    assert forall|i: int|
        crate::outputs::is_output("org.khronos.openvx.warp_affine"@, None, i) <==> i == 3 by {
        crate::outputs::law_outputs_of_built_in_kernels(None, i);
    }
    if plan is Some {
        lemma_seeded(
            "org.khronos.openvx.warp_affine"@,
            seq![crate::construction::enum_seed(interpolation)],
            seq![
                Source::Given(input),
                Source::Given(matrix),
                Source::Made(0),
                Source::Given(output),
            ],
            made,
            held,
            scalars,
        );
        assert(held[0] == input);
        assert(held[1] == matrix);
        assert(held[2] == made[0]);
        assert(held[3] == output);
        lemma_integer(
            scalars,
            made[0],
            interpolation,
            crate::construction::enum_seed(interpolation),
        );
        crate::kernels::law_kernel_names(Kernel::WarpAffine, "org.khronos.openvx.warp_affine"@);
        let args = seq![
            KernelArg::Ref(input),
            KernelArg::Ref(matrix),
            KernelArg::Int(interpolation),
            KernelArg::Ref(output),
        ];
        assert(
            crate::dispatch::argument_at(Kernel::WarpAffine, held, scalars, 0) == Some(args[0])
        );
        assert(
            crate::dispatch::argument_at(Kernel::WarpAffine, held, scalars, 1) == Some(args[1])
        );
        assert(
            crate::dispatch::argument_at(Kernel::WarpAffine, held, scalars, 2) == Some(args[2])
        );
        assert(
            crate::dispatch::argument_at(Kernel::WarpAffine, held, scalars, 3) == Some(args[3])
        );
        lemma_runs(Kernel::WarpAffine, held, scalars, border, args);
    }
}

/// A node that warps an image by a perspective map: its routine is handed what the node
/// was planned with, which is what it is handed when it runs at once; what a scalar
/// carries comes out of it again.
#[verifier::rlimit(100)]
pub proof fn law_warp_perspective_node(
    graph: u64,
    context: u64,
    input: u64,
    matrix: u64,
    interpolation: vx_enum,
    output: u64,
    plan: Option<NodePlan>,
    call: Result<ImmediateCall, vx_status>,
    made: Seq<u64>,
    held: Seq<u64>,
    scalars: Map<u64, VxCScalar>,
    border: Option<vx_border_t>,
)
    requires
        call_ensures(
            crate::image_nodes::vxWarpPerspectiveNode,
            (graph, input, matrix, interpolation, output),
            plan,
        ),
        call_ensures(
            crate::immediate::vxuWarpPerspective,
            (context, input, matrix, interpolation, output),
            call,
        ),
        held.len() == 4,
        plan is Some ==> is_carried_out(plan->0@, made, held, scalars),
    ensures
        plan is Some <==> graph != 0 && input != 0 && matrix != 0 && output != 0,
        call is Ok,
        plan is Some ==> {
            let args = seq![
                KernelArg::Ref(input),
                KernelArg::Ref(matrix),
                KernelArg::Int(interpolation),
                KernelArg::Ref(output),
            ];
            &&& held == seq![input, matrix, made[0], output]
            &&& runs_as(
                plan->0@.kernel,
                held,
                scalars,
                border,
                Kernel::WarpPerspective,
                Some(input),
                BorderArg::Mode(crate::dispatch::border_mode_of(border)),
                args,
            )
        },
        plan is Some ==> forall|i: int| crate::outputs::is_output(
            plan->0@.kernel,
            None,
            i,
        ) <==> i == 3,
        hands_over(
            call->Ok_0@,
            Routine::Of(Kernel::WarpPerspective),
            ContextArg::Given(context),
            BorderArg::AsGiven(None),
            seq![
                KernelArg::Ref(input),
                KernelArg::Ref(matrix),
                KernelArg::Int(interpolation),
                KernelArg::Ref(output),
            ],
        ),
{
    assert forall|i: int|
        crate::outputs::is_output("org.khronos.openvx.warp_perspective"@, None, i) <==> i == 3 by {
        crate::outputs::law_outputs_of_built_in_kernels(None, i);
    }
    if plan is Some {
        lemma_seeded(
            "org.khronos.openvx.warp_perspective"@,
            seq![crate::construction::enum_seed(interpolation)],
            seq![
                Source::Given(input),
                Source::Given(matrix),
                Source::Made(0),
                Source::Given(output),
            ],
            made,
            held,
            scalars,
        );
        assert(held[0] == input);
        assert(held[1] == matrix);
        assert(held[2] == made[0]);
        assert(held[3] == output);
        lemma_integer(
            scalars,
            made[0],
            interpolation,
            crate::construction::enum_seed(interpolation),
        );
        crate::kernels::law_kernel_names(
            Kernel::WarpPerspective,
            "org.khronos.openvx.warp_perspective"@,
        );
        let args = seq![
            KernelArg::Ref(input),
            KernelArg::Ref(matrix),
            KernelArg::Int(interpolation),
            KernelArg::Ref(output),
        ];
        assert(
            crate::dispatch::argument_at(
                Kernel::WarpPerspective,
                held,
                scalars,
                0,
            ) == Some(args[0])
        );
        assert(
            crate::dispatch::argument_at(
                Kernel::WarpPerspective,
                held,
                scalars,
                1,
            ) == Some(args[1])
        );
        assert(
            crate::dispatch::argument_at(
                Kernel::WarpPerspective,
                held,
                scalars,
                2,
            ) == Some(args[2])
        );
        assert(
            crate::dispatch::argument_at(
                Kernel::WarpPerspective,
                held,
                scalars,
                3,
            ) == Some(args[3])
        );
        lemma_runs(Kernel::WarpPerspective, held, scalars, border, args);
    }
}

/// A node that moves pixels by a coordinate map: its routine is handed what the node
/// was planned with, which is what it is handed when it runs at once; what a scalar
/// carries comes out of it again.
#[verifier::rlimit(100)]
pub proof fn law_remap_node(
    graph: u64,
    context: u64,
    input: u64,
    table: u64,
    policy: vx_enum,
    output: u64,
    plan: Option<NodePlan>,
    call: Result<ImmediateCall, vx_status>,
    made: Seq<u64>,
    held: Seq<u64>,
    scalars: Map<u64, VxCScalar>,
    border: Option<vx_border_t>,
)
    requires
        call_ensures(
            crate::image_nodes::vxRemapNode,
            (graph, input, table, policy, output),
            plan,
        ),
        call_ensures(crate::immediate::vxuRemap, (context, input, table, policy, output), call),
        held.len() == 4,
        plan is Some ==> is_carried_out(plan->0@, made, held, scalars),
    ensures
        plan is Some <==> graph != 0 && input != 0 && table != 0 && output != 0,
        call is Ok,
        plan is Some ==> {
            let args = seq![
                KernelArg::Ref(input),
                KernelArg::Ref(table),
                KernelArg::Int(policy),
                KernelArg::Ref(output),
            ];
            &&& held == seq![input, table, made[0], output]
            &&& runs_as(
                plan->0@.kernel,
                held,
                scalars,
                border,
                Kernel::Remap,
                Some(input),
                BorderArg::Mode(crate::dispatch::border_mode_of(border)),
                args,
            )
        },
        plan is Some ==> forall|i: int| crate::outputs::is_output(
            plan->0@.kernel,
            None,
            i,
        ) <==> i == 3,
        hands_over(
            call->Ok_0@,
            Routine::Of(Kernel::Remap),
            ContextArg::Given(context),
            BorderArg::AsGiven(None),
            seq![
                KernelArg::Ref(input),
                KernelArg::Ref(table),
                KernelArg::Int(policy),
                KernelArg::Ref(output),
            ],
        ),
{
    assert forall|i: int|
        crate::outputs::is_output("org.khronos.openvx.remap"@, None, i) <==> i == 3 by {
        crate::outputs::law_outputs_of_built_in_kernels(None, i);
    }
    if plan is Some {
        lemma_seeded(
            "org.khronos.openvx.remap"@,
            seq![crate::construction::enum_seed(policy)],
            seq![
                Source::Given(input),
                Source::Given(table),
                Source::Made(0),
                Source::Given(output),
            ],
            made,
            held,
            scalars,
        );
        assert(held[0] == input);
        assert(held[1] == table);
        assert(held[2] == made[0]);
        assert(held[3] == output);
        lemma_integer(scalars, made[0], policy, crate::construction::enum_seed(policy));
        crate::kernels::law_kernel_names(Kernel::Remap, "org.khronos.openvx.remap"@);
        let args = seq![
            KernelArg::Ref(input),
            KernelArg::Ref(table),
            KernelArg::Int(policy),
            KernelArg::Ref(output),
        ];
        assert(crate::dispatch::argument_at(Kernel::Remap, held, scalars, 0) == Some(args[0]));
        assert(crate::dispatch::argument_at(Kernel::Remap, held, scalars, 1) == Some(args[1]));
        assert(crate::dispatch::argument_at(Kernel::Remap, held, scalars, 2) == Some(args[2]));
        assert(crate::dispatch::argument_at(Kernel::Remap, held, scalars, 3) == Some(args[3]));
        lemma_runs(Kernel::Remap, held, scalars, border, args);
    }
}

/// A node that finds edges: its routine is handed what the node was planned with, which
/// is what it is handed when it runs at once; what a scalar carries comes out of it
/// again.
#[verifier::spinoff_prover]
#[verifier::rlimit(100)]
pub proof fn law_canny_edge_detector_node(
    graph: u64,
    context: u64,
    input: u64,
    hyst_threshold: u64,
    gradient_size: vx_enum,
    norm_type: vx_enum,
    output: u64,
    plan: Option<NodePlan>,
    call: Result<ImmediateCall, vx_status>,
    made: Seq<u64>,
    held: Seq<u64>,
    scalars: Map<u64, VxCScalar>,
    border: Option<vx_border_t>,
)
    requires
        call_ensures(
            crate::image_nodes::vxCannyEdgeDetectorNode,
            (graph, input, hyst_threshold, gradient_size, norm_type, output),
            plan,
        ),
        call_ensures(
            crate::immediate::vxuCannyEdgeDetector,
            (context, input, hyst_threshold, gradient_size, norm_type, output),
            call,
        ),
        held.len() == 5,
        plan is Some ==> is_carried_out(plan->0@, made, held, scalars),
    ensures
        plan is Some <==> graph != 0 && input != 0 && hyst_threshold != 0 && output != 0,
        call is Ok,
        plan is Some ==> {
            let args = seq![
                KernelArg::Ref(input),
                KernelArg::Ref(hyst_threshold),
                KernelArg::Int(gradient_size),
                KernelArg::Int(norm_type),
                KernelArg::Ref(output),
            ];
            &&& held == seq![input, hyst_threshold, made[0], made[1], output]
            &&& runs_as(
                plan->0@.kernel,
                held,
                scalars,
                border,
                Kernel::CannyEdgeDetector,
                Some(input),
                BorderArg::Unused,
                args,
            )
        },
        plan is Some ==> forall|i: int| crate::outputs::is_output(
            plan->0@.kernel,
            None,
            i,
        ) <==> i == 4,
        hands_over(
            call->Ok_0@,
            Routine::Of(Kernel::CannyEdgeDetector),
            ContextArg::Given(context),
            BorderArg::Unused,
            seq![
                KernelArg::Ref(input),
                KernelArg::Ref(hyst_threshold),
                KernelArg::Int(gradient_size),
                KernelArg::Int(norm_type),
                KernelArg::Ref(output),
            ],
        ),
{
    assert forall|i: int|
        crate::outputs::is_output("org.khronos.openvx.canny_edge_detector"@, None, i) <==> i == 4 by {
        crate::outputs::law_outputs_of_built_in_kernels(None, i);
    }
    if plan is Some {
        lemma_seeded(
            "org.khronos.openvx.canny_edge_detector"@,
            seq![
                crate::construction::enum_seed(gradient_size),
                crate::construction::enum_seed(norm_type),
            ],
            seq![
                Source::Given(input),
                Source::Given(hyst_threshold),
                Source::Made(0),
                Source::Made(1),
                Source::Given(output),
            ],
            made,
            held,
            scalars,
        );
        assert(held[0] == input);
        assert(held[1] == hyst_threshold);
        assert(held[2] == made[0]);
        assert(held[3] == made[1]);
        assert(held[4] == output);
        lemma_integer(
            scalars,
            made[0],
            gradient_size,
            crate::construction::enum_seed(gradient_size),
        );
        lemma_integer(scalars, made[1], norm_type, crate::construction::enum_seed(norm_type));
        crate::kernels::law_kernel_names(
            Kernel::CannyEdgeDetector,
            "org.khronos.openvx.canny_edge_detector"@,
        );
        let args = seq![
            KernelArg::Ref(input),
            KernelArg::Ref(hyst_threshold),
            KernelArg::Int(gradient_size),
            KernelArg::Int(norm_type),
            KernelArg::Ref(output),
        ];
        assert(
            crate::dispatch::argument_at(
                Kernel::CannyEdgeDetector,
                held,
                scalars,
                0,
            ) == Some(args[0])
        );
        assert(
            crate::dispatch::argument_at(
                Kernel::CannyEdgeDetector,
                held,
                scalars,
                1,
            ) == Some(args[1])
        );
        assert(
            crate::dispatch::argument_at(
                Kernel::CannyEdgeDetector,
                held,
                scalars,
                2,
            ) == Some(args[2])
        );
        assert(
            crate::dispatch::argument_at(
                Kernel::CannyEdgeDetector,
                held,
                scalars,
                3,
            ) == Some(args[3])
        );
        assert(
            crate::dispatch::argument_at(
                Kernel::CannyEdgeDetector,
                held,
                scalars,
                4,
            ) == Some(args[4])
        );
        lemma_runs(Kernel::CannyEdgeDetector, held, scalars, border, args);
    }
}

/// A node that sums pixels up from the origin: its routine is handed what the node was
/// planned with, which is what it is handed when it runs at once.
pub proof fn law_integral_image_node(
    graph: u64,
    context: u64,
    input: u64,
    output: u64,
    plan: Option<NodePlan>,
    call: Result<ImmediateCall, vx_status>,
    held: Seq<u64>,
    scalars: Map<u64, VxCScalar>,
    border: Option<vx_border_t>,
)
    requires
        call_ensures(crate::image_nodes::vxIntegralImageNode, (graph, input, output), plan),
        call_ensures(crate::immediate::vxuIntegralImage, (context, input, output), call),
        held.len() == 2,
        plan is Some ==> is_carried_out(plan->0@, Seq::empty(), held, scalars),
    ensures
        plan is Some <==> graph != 0 && input != 0 && output != 0,
        call is Ok,
        plan is Some ==> {
            let args = seq![KernelArg::Ref(input), KernelArg::Ref(output)];
            &&& held == seq![input, output]
            &&& runs_as(
                plan->0@.kernel,
                held,
                scalars,
                border,
                Kernel::IntegralImage,
                Some(input),
                BorderArg::Unused,
                args,
            )
        },
        plan is Some ==> forall|i: int| crate::outputs::is_output(
            plan->0@.kernel,
            None,
            i,
        ) <==> i == 1,
        hands_over(
            call->Ok_0@,
            Routine::Of(Kernel::IntegralImage),
            ContextArg::Given(context),
            BorderArg::Unused,
            seq![KernelArg::Ref(input), KernelArg::Ref(output)],
        ),
{
    assert forall|i: int|
        crate::outputs::is_output("org.khronos.openvx.integral_image"@, None, i) <==> i == 1 by {
        crate::outputs::law_outputs_of_built_in_kernels(None, i);
    }
    if plan is Some {
        lemma_plain("org.khronos.openvx.integral_image"@, seq![input, output], held, scalars);
        assert(held[0] == input);
        assert(held[1] == output);
        crate::kernels::law_kernel_names(
            Kernel::IntegralImage,
            "org.khronos.openvx.integral_image"@,
        );
        let args = seq![KernelArg::Ref(input), KernelArg::Ref(output)];
        assert(
            crate::dispatch::argument_at(Kernel::IntegralImage, held, scalars, 0) == Some(args[0])
        );
        assert(
            crate::dispatch::argument_at(Kernel::IntegralImage, held, scalars, 1) == Some(args[1])
        );
        lemma_runs(Kernel::IntegralImage, held, scalars, border, args);
    }
}

/// A node that shifts windows to the mean: its parameters are the references it was
/// planned with, and the scalars made for it, in their order.
#[verifier::rlimit(100)]
pub proof fn law_mean_shift_node(
    graph: u64,
    input: u64,
    window_width: usize,
    window_height: usize,
    criteria: vx_enum,
    output: u64,
    plan: Option<NodePlan>,
    made: Seq<u64>,
    held: Seq<u64>,
    scalars: Map<u64, VxCScalar>,
)
    requires
        call_ensures(
            crate::image_nodes::vxMeanShiftNode,
            (graph, input, window_width, window_height, criteria, output),
            plan,
        ),
        held.len() == 5,
        plan is Some ==> is_carried_out(plan->0@, made, held, scalars),
    ensures
        plan is Some <==> graph != 0 && input != 0 && output != 0,
        plan is Some ==> {
            &&& held == seq![input, made[0], made[1], made[2], output]
            &&& plan->0@.kernel == "org.khronos.openvx.mean_shift"@
        },
{
    if plan is Some {
        lemma_seeded(
            "org.khronos.openvx.mean_shift"@,
            seq![
                crate::construction::size_seed(window_width),
                crate::construction::size_seed(window_height),
                crate::construction::enum_seed(criteria),
            ],
            seq![
                Source::Given(input),
                Source::Made(0),
                Source::Made(1),
                Source::Made(2),
                Source::Given(output),
            ],
            made,
            held,
            scalars,
        );
        assert(held[0] == input);
        assert(held[1] == made[0]);
        assert(held[2] == made[1]);
        assert(held[3] == made[2]);
        assert(held[4] == output);
        lemma_integer(scalars, made[2], criteria, crate::construction::enum_seed(criteria));
    }
}

/// A node that averages two images with weights: its routine is handed what the node
/// was planned with, which is what it is handed when it runs at once.
pub proof fn law_weighted_average_node(
    graph: u64,
    context: u64,
    img1: u64,
    alpha: u64,
    img2: u64,
    output: u64,
    plan: Option<NodePlan>,
    call: Result<ImmediateCall, vx_status>,
    held: Seq<u64>,
    scalars: Map<u64, VxCScalar>,
    border: Option<vx_border_t>,
)
    requires
        call_ensures(
            crate::image_nodes::vxWeightedAverageNode,
            (graph, img1, alpha, img2, output),
            plan,
        ),
        call_ensures(
            crate::immediate::vxuWeightedAverage,
            (context, img1, alpha, img2, output),
            call,
        ),
        held.len() == 4,
        plan is Some ==> is_carried_out(plan->0@, Seq::empty(), held, scalars),
    ensures
        plan is Some <==> graph != 0 && img1 != 0 && alpha != 0 && img2 != 0 && output != 0,
        call is Ok,
        plan is Some ==> {
            let args = seq![
                KernelArg::Ref(img1),
                KernelArg::Ref(alpha),
                KernelArg::Ref(img2),
                KernelArg::Ref(output),
            ];
            &&& held == seq![img1, alpha, img2, output]
            &&& runs_as(
                plan->0@.kernel,
                held,
                scalars,
                border,
                Kernel::WeightedAverage,
                Some(img1),
                BorderArg::Unused,
                args,
            )
        },
        plan is Some ==> forall|i: int| crate::outputs::is_output(
            plan->0@.kernel,
            None,
            i,
        ) <==> i == 3,
        hands_over(
            call->Ok_0@,
            Routine::Of(Kernel::WeightedAverage),
            ContextArg::Given(context),
            BorderArg::Unused,
            seq![
                KernelArg::Ref(img1),
                KernelArg::Ref(alpha),
                KernelArg::Ref(img2),
                KernelArg::Ref(output),
            ],
        ),
{
    assert forall|i: int|
        crate::outputs::is_output("org.khronos.openvx.weighted_average"@, None, i) <==> i == 3 by {
        crate::outputs::law_outputs_of_built_in_kernels(None, i);
    }
    if plan is Some {
        lemma_plain(
            "org.khronos.openvx.weighted_average"@,
            seq![img1, alpha, img2, output],
            held,
            scalars,
        );
        assert(held[0] == img1);
        assert(held[1] == alpha);
        assert(held[2] == img2);
        assert(held[3] == output);
        crate::kernels::law_kernel_names(
            Kernel::WeightedAverage,
            "org.khronos.openvx.weighted_average"@,
        );
        let args = seq![
            KernelArg::Ref(img1),
            KernelArg::Ref(alpha),
            KernelArg::Ref(img2),
            KernelArg::Ref(output),
        ];
        assert(
            crate::dispatch::argument_at(
                Kernel::WeightedAverage,
                held,
                scalars,
                0,
            ) == Some(args[0])
        );
        assert(
            crate::dispatch::argument_at(
                Kernel::WeightedAverage,
                held,
                scalars,
                1,
            ) == Some(args[1])
        );
        assert(
            crate::dispatch::argument_at(
                Kernel::WeightedAverage,
                held,
                scalars,
                2,
            ) == Some(args[2])
        );
        assert(
            crate::dispatch::argument_at(
                Kernel::WeightedAverage,
                held,
                scalars,
                3,
            ) == Some(args[3])
        );
        lemma_runs(Kernel::WeightedAverage, held, scalars, border, args);
    }
}

/// A node that takes the distance of pixels: its routine is handed what the node was
/// planned with.
pub proof fn law_abs_diff_node(
    graph: u64,
    in1: u64,
    in2: u64,
    output: u64,
    plan: Option<NodePlan>,
    held: Seq<u64>,
    scalars: Map<u64, VxCScalar>,
    border: Option<vx_border_t>,
)
    requires
        call_ensures(crate::image_nodes::vxAbsDiffNode, (graph, in1, in2, output), plan),
        held.len() == 3,
        plan is Some ==> is_carried_out(plan->0@, Seq::empty(), held, scalars),
    ensures
        plan is Some <==> graph != 0 && in1 != 0 && in2 != 0 && output != 0,
        plan is Some ==> {
            let args = seq![KernelArg::Ref(in1), KernelArg::Ref(in2), KernelArg::Ref(output)];
            &&& held == seq![in1, in2, output]
            &&& runs_as(
                plan->0@.kernel,
                held,
                scalars,
                border,
                Kernel::AbsDiff,
                Some(in1),
                BorderArg::Unused,
                args,
            )
        },
        plan is Some ==> forall|i: int| crate::outputs::is_output(
            plan->0@.kernel,
            None,
            i,
        ) <==> i == 2,
{
    assert forall|i: int|
        crate::outputs::is_output("org.khronos.openvx.absdiff"@, None, i) <==> i == 2 by {
        crate::outputs::law_outputs_of_built_in_kernels(None, i);
    }
    if plan is Some {
        lemma_plain("org.khronos.openvx.absdiff"@, seq![in1, in2, output], held, scalars);
        assert(held[0] == in1);
        assert(held[1] == in2);
        assert(held[2] == output);
        crate::kernels::law_kernel_names(Kernel::AbsDiff, "org.khronos.openvx.absdiff"@);
        let args = seq![KernelArg::Ref(in1), KernelArg::Ref(in2), KernelArg::Ref(output)];
        assert(crate::dispatch::argument_at(Kernel::AbsDiff, held, scalars, 0) == Some(args[0]));
        assert(crate::dispatch::argument_at(Kernel::AbsDiff, held, scalars, 1) == Some(args[1]));
        assert(crate::dispatch::argument_at(Kernel::AbsDiff, held, scalars, 2) == Some(args[2]));
        lemma_runs(Kernel::AbsDiff, held, scalars, border, args);
    }
}

/// A node that takes an image apart into a Laplacian pyramid: its routine is handed
/// what the node was planned with, which is what it is handed when it runs at once.
pub proof fn law_laplacian_pyramid_node(
    graph: u64,
    context: u64,
    input: u64,
    laplacian: u64,
    output: u64,
    plan: Option<NodePlan>,
    call: Result<ImmediateCall, vx_status>,
    held: Seq<u64>,
    scalars: Map<u64, VxCScalar>,
    border: Option<vx_border_t>,
)
    requires
        call_ensures(
            crate::image_nodes::vxLaplacianPyramidNode,
            (graph, input, laplacian, output),
            plan,
        ),
        call_ensures(
            crate::immediate::vxuLaplacianPyramid,
            (context, input, laplacian, output),
            call,
        ),
        held.len() == 3,
        plan is Some ==> is_carried_out(plan->0@, Seq::empty(), held, scalars),
    ensures
        plan is Some <==> graph != 0 && input != 0 && laplacian != 0 && output != 0,
        call is Ok,
        plan is Some ==> {
            let args = seq![
                KernelArg::Ref(input),
                KernelArg::Ref(laplacian),
                KernelArg::Ref(output),
            ];
            &&& held == seq![input, laplacian, output]
            &&& runs_as(
                plan->0@.kernel,
                held,
                scalars,
                border,
                Kernel::LaplacianPyramid,
                Some(input),
                BorderArg::Unused,
                args,
            )
        },
        plan is Some ==> forall|i: int| crate::outputs::is_output(
            plan->0@.kernel,
            None,
            i,
        ) <==> i == 1,
        hands_over(
            call->Ok_0@,
            Routine::Of(Kernel::LaplacianPyramid),
            ContextArg::Given(context),
            BorderArg::Unused,
            seq![KernelArg::Ref(input), KernelArg::Ref(laplacian), KernelArg::Ref(output)],
        ),
{
    assert forall|i: int|
        crate::outputs::is_output("org.khronos.openvx.laplacian_pyramid"@, None, i) <==> i == 1 by {
        crate::outputs::law_outputs_of_built_in_kernels(None, i);
    }
    if plan is Some {
        lemma_plain(
            "org.khronos.openvx.laplacian_pyramid"@,
            seq![input, laplacian, output],
            held,
            scalars,
        );
        assert(held[0] == input);
        assert(held[1] == laplacian);
        assert(held[2] == output);
        crate::kernels::law_kernel_names(
            Kernel::LaplacianPyramid,
            "org.khronos.openvx.laplacian_pyramid"@,
        );
        let args = seq![KernelArg::Ref(input), KernelArg::Ref(laplacian), KernelArg::Ref(output)];
        assert(
            crate::dispatch::argument_at(
                Kernel::LaplacianPyramid,
                held,
                scalars,
                0,
            ) == Some(args[0])
        );
        assert(
            crate::dispatch::argument_at(
                Kernel::LaplacianPyramid,
                held,
                scalars,
                1,
            ) == Some(args[1])
        );
        assert(
            crate::dispatch::argument_at(
                Kernel::LaplacianPyramid,
                held,
                scalars,
                2,
            ) == Some(args[2])
        );
        lemma_runs(Kernel::LaplacianPyramid, held, scalars, border, args);
    }
}

/// A node that puts an image together from a Laplacian pyramid: its routine is handed
/// what the node was planned with, which is what it is handed when it runs at once.
pub proof fn law_laplacian_reconstruct_node(
    graph: u64,
    context: u64,
    laplacian: u64,
    input: u64,
    output: u64,
    plan: Option<NodePlan>,
    call: Result<ImmediateCall, vx_status>,
    held: Seq<u64>,
    scalars: Map<u64, VxCScalar>,
    border: Option<vx_border_t>,
)
    requires
        call_ensures(
            crate::image_nodes::vxLaplacianReconstructNode,
            (graph, laplacian, input, output),
            plan,
        ),
        call_ensures(
            crate::immediate::vxuLaplacianReconstruct,
            (context, laplacian, input, output),
            call,
        ),
        held.len() == 3,
        plan is Some ==> is_carried_out(plan->0@, Seq::empty(), held, scalars),
    ensures
        plan is Some <==> graph != 0 && laplacian != 0 && input != 0 && output != 0,
        call is Ok,
        plan is Some ==> {
            let args = seq![
                KernelArg::Ref(laplacian),
                KernelArg::Ref(input),
                KernelArg::Ref(output),
            ];
            &&& held == seq![laplacian, input, output]
            &&& runs_as(
                plan->0@.kernel,
                held,
                scalars,
                border,
                Kernel::LaplacianReconstruct,
                Some(input),
                BorderArg::Unused,
                args,
            )
        },
        plan is Some ==> forall|i: int| crate::outputs::is_output(
            plan->0@.kernel,
            None,
            i,
        ) <==> i == 2,
        hands_over(
            call->Ok_0@,
            Routine::Of(Kernel::LaplacianReconstruct),
            ContextArg::Given(context),
            BorderArg::Unused,
            seq![KernelArg::Ref(laplacian), KernelArg::Ref(input), KernelArg::Ref(output)],
        ),
{
    assert forall|i: int|
        crate::outputs::is_output("org.khronos.openvx.laplacian_reconstruct"@, None, i) <==> i == 2 by {
        crate::outputs::law_outputs_of_built_in_kernels(None, i);
    }
    if plan is Some {
        lemma_plain(
            "org.khronos.openvx.laplacian_reconstruct"@,
            seq![laplacian, input, output],
            held,
            scalars,
        );
        assert(held[0] == laplacian);
        assert(held[1] == input);
        assert(held[2] == output);
        crate::kernels::law_kernel_names(
            Kernel::LaplacianReconstruct,
            "org.khronos.openvx.laplacian_reconstruct"@,
        );
        let args = seq![KernelArg::Ref(laplacian), KernelArg::Ref(input), KernelArg::Ref(output)];
        assert(
            crate::dispatch::argument_at(
                Kernel::LaplacianReconstruct,
                held,
                scalars,
                0,
            ) == Some(args[0])
        );
        assert(
            crate::dispatch::argument_at(
                Kernel::LaplacianReconstruct,
                held,
                scalars,
                1,
            ) == Some(args[1])
        );
        assert(
            crate::dispatch::argument_at(
                Kernel::LaplacianReconstruct,
                held,
                scalars,
                2,
            ) == Some(args[2])
        );
        lemma_runs(Kernel::LaplacianReconstruct, held, scalars, border, args);
    }
}

/// A node that evens the histogram of an image: its routine is handed what the node was
/// planned with, which is what it is handed when it runs at once.
pub proof fn law_equalize_histogram_node(
    graph: u64,
    context: u64,
    input: u64,
    output: u64,
    plan: Option<NodePlan>,
    call: Result<ImmediateCall, vx_status>,
    held: Seq<u64>,
    scalars: Map<u64, VxCScalar>,
    border: Option<vx_border_t>,
)
    requires
        call_ensures(crate::image_nodes::vxEqualizeHistogramNode, (graph, input, output), plan),
        call_ensures(crate::immediate::vxuEqualizeHist, (context, input, output), call),
        held.len() == 2,
        plan is Some ==> is_carried_out(plan->0@, Seq::empty(), held, scalars),
    ensures
        plan is Some <==> graph != 0 && input != 0 && output != 0,
        call is Ok <==> context != 0 && input != 0 && output != 0,
        call is Err ==> call->Err_0 == VX_ERROR_INVALID_REFERENCE,
        plan is Some ==> {
            let args = seq![KernelArg::Ref(input), KernelArg::Ref(output)];
            &&& held == seq![input, output]
            &&& runs_as(
                plan->0@.kernel,
                held,
                scalars,
                border,
                Kernel::EqualizeHistogram,
                Some(input),
                BorderArg::Unused,
                args,
            )
        },
        plan is Some ==> forall|i: int| crate::outputs::is_output(
            plan->0@.kernel,
            None,
            i,
        ) <==> i == 1,
        call is Ok ==> hands_over(
            call->Ok_0@,
            Routine::Of(Kernel::EqualizeHistogram),
            ContextArg::Given(context),
            BorderArg::Unused,
            seq![KernelArg::Ref(input), KernelArg::Ref(output)],
        ),
{
    assert forall|i: int|
        crate::outputs::is_output("org.khronos.openvx.equalize_histogram"@, None, i) <==> i == 1 by {
        crate::outputs::law_outputs_of_built_in_kernels(None, i);
    }
    if plan is Some {
        lemma_plain("org.khronos.openvx.equalize_histogram"@, seq![input, output], held, scalars);
        assert(held[0] == input);
        assert(held[1] == output);
        crate::kernels::law_kernel_names(
            Kernel::EqualizeHistogram,
            "org.khronos.openvx.equalize_histogram"@,
        );
        let args = seq![KernelArg::Ref(input), KernelArg::Ref(output)];
        assert(
            crate::dispatch::argument_at(
                Kernel::EqualizeHistogram,
                held,
                scalars,
                0,
            ) == Some(args[0])
        );
        assert(
            crate::dispatch::argument_at(
                Kernel::EqualizeHistogram,
                held,
                scalars,
                1,
            ) == Some(args[1])
        );
        lemma_runs(Kernel::EqualizeHistogram, held, scalars, border, args);
    }
}

/// A node that makes a Gaussian pyramid: its routine is handed what the node was
/// planned with, which is what it is handed when it runs at once.
pub proof fn law_gaussian_pyramid_node(
    graph: u64,
    context: u64,
    input: u64,
    output: u64,
    plan: Option<NodePlan>,
    call: Result<ImmediateCall, vx_status>,
    held: Seq<u64>,
    scalars: Map<u64, VxCScalar>,
    border: Option<vx_border_t>,
)
    requires
        call_ensures(crate::image_nodes::vxGaussianPyramidNode, (graph, input, output), plan),
        call_ensures(crate::immediate::vxuGaussianPyramid, (context, input, output), call),
        held.len() == 2,
        plan is Some ==> is_carried_out(plan->0@, Seq::empty(), held, scalars),
    ensures
        plan is Some <==> graph != 0 && input != 0 && output != 0,
        call is Ok,
        plan is Some ==> {
            let args = seq![KernelArg::Ref(input), KernelArg::Ref(output)];
            &&& held == seq![input, output]
            &&& runs_as(
                plan->0@.kernel,
                held,
                scalars,
                border,
                Kernel::GaussianPyramid,
                Some(input),
                BorderArg::Unused,
                args,
            )
        },
        plan is Some ==> forall|i: int| crate::outputs::is_output(
            plan->0@.kernel,
            None,
            i,
        ) <==> i == 1,
        hands_over(
            call->Ok_0@,
            Routine::Of(Kernel::GaussianPyramid),
            ContextArg::Given(context),
            BorderArg::Unused,
            seq![KernelArg::Ref(input), KernelArg::Ref(output)],
        ),
{
    assert forall|i: int|
        crate::outputs::is_output("org.khronos.openvx.gaussian_pyramid"@, None, i) <==> i == 1 by {
        crate::outputs::law_outputs_of_built_in_kernels(None, i);
    }
    if plan is Some {
        lemma_plain("org.khronos.openvx.gaussian_pyramid"@, seq![input, output], held, scalars);
        assert(held[0] == input);
        assert(held[1] == output);
        crate::kernels::law_kernel_names(
            Kernel::GaussianPyramid,
            "org.khronos.openvx.gaussian_pyramid"@,
        );
        let args = seq![KernelArg::Ref(input), KernelArg::Ref(output)];
        assert(
            crate::dispatch::argument_at(
                Kernel::GaussianPyramid,
                held,
                scalars,
                0,
            ) == Some(args[0])
        );
        assert(
            crate::dispatch::argument_at(
                Kernel::GaussianPyramid,
                held,
                scalars,
                1,
            ) == Some(args[1])
        );
        lemma_runs(Kernel::GaussianPyramid, held, scalars, border, args);
    }
}

/// A node that filters an image with a mask: its routine is handed what the node was
/// planned with; what a scalar carries comes out of it again.
#[verifier::rlimit(100)]
pub proof fn law_non_linear_filter_node(
    graph: u64,
    function: vx_enum,
    input: u64,
    matrix: u64,
    output: u64,
    plan: Option<NodePlan>,
    made: Seq<u64>,
    held: Seq<u64>,
    scalars: Map<u64, VxCScalar>,
    border: Option<vx_border_t>,
)
    requires
        call_ensures(
            crate::image_nodes::vxNonLinearFilterNode,
            (graph, function, input, matrix, output),
            plan,
        ),
        held.len() == 4,
        plan is Some ==> is_carried_out(plan->0@, made, held, scalars),
    ensures
        plan is Some <==> graph != 0 && input != 0 && matrix != 0 && output != 0,
        plan is Some ==> {
            let args = seq![
                KernelArg::Ref(input),
                KernelArg::Int(function),
                KernelArg::Ref(matrix),
                KernelArg::Ref(output),
            ];
            &&& held == seq![made[0], input, matrix, output]
            &&& runs_as(
                plan->0@.kernel,
                held,
                scalars,
                border,
                Kernel::NonLinearFilter,
                Some(input),
                BorderArg::AsGiven(border),
                args,
            )
        },
        plan is Some ==> forall|i: int| crate::outputs::is_output(
            plan->0@.kernel,
            None,
            i,
        ) <==> i == 3,
{
    assert forall|i: int|
        crate::outputs::is_output("org.khronos.openvx.non_linear_filter"@, None, i) <==> i == 3 by {
        crate::outputs::law_outputs_of_built_in_kernels(None, i);
    }
    if plan is Some {
        lemma_seeded(
            "org.khronos.openvx.non_linear_filter"@,
            seq![crate::construction::enum_seed(function)],
            seq![
                Source::Made(0),
                Source::Given(input),
                Source::Given(matrix),
                Source::Given(output),
            ],
            made,
            held,
            scalars,
        );
        assert(held[0] == made[0]);
        assert(held[1] == input);
        assert(held[2] == matrix);
        assert(held[3] == output);
        lemma_integer(scalars, made[0], function, crate::construction::enum_seed(function));
        crate::kernels::law_kernel_names(
            Kernel::NonLinearFilter,
            "org.khronos.openvx.non_linear_filter"@,
        );
        let args = seq![
            KernelArg::Ref(input),
            KernelArg::Int(function),
            KernelArg::Ref(matrix),
            KernelArg::Ref(output),
        ];
        assert(
            crate::dispatch::argument_at(
                Kernel::NonLinearFilter,
                held,
                scalars,
                0,
            ) == Some(args[0])
        );
        assert(
            crate::dispatch::argument_at(
                Kernel::NonLinearFilter,
                held,
                scalars,
                1,
            ) == Some(args[1])
        );
        assert(
            crate::dispatch::argument_at(
                Kernel::NonLinearFilter,
                held,
                scalars,
                2,
            ) == Some(args[2])
        );
        assert(
            crate::dispatch::argument_at(
                Kernel::NonLinearFilter,
                held,
                scalars,
                3,
            ) == Some(args[3])
        );
        lemma_runs(Kernel::NonLinearFilter, held, scalars, border, args);
    }
}

/// A node that compares pixels with a threshold: its routine is handed what the node
/// was planned with, which is what it is handed when it runs at once.
pub proof fn law_threshold_node(
    graph: u64,
    context: u64,
    input: u64,
    thresh: u64,
    output: u64,
    plan: Option<NodePlan>,
    call: Result<ImmediateCall, vx_status>,
    held: Seq<u64>,
    scalars: Map<u64, VxCScalar>,
    border: Option<vx_border_t>,
)
    requires
        call_ensures(crate::image_nodes::vxThresholdNode, (graph, input, thresh, output), plan),
        call_ensures(crate::immediate::vxuThreshold, (context, input, thresh, output), call),
        held.len() == 3,
        plan is Some ==> is_carried_out(plan->0@, Seq::empty(), held, scalars),
    ensures
        plan is Some <==> graph != 0 && input != 0 && thresh != 0 && output != 0,
        call is Ok,
        plan is Some ==> {
            let args = seq![
                KernelArg::Ref(input),
                KernelArg::Ref(thresh),
                KernelArg::Ref(output),
            ];
            &&& held == seq![input, thresh, output]
            &&& runs_as(
                plan->0@.kernel,
                held,
                scalars,
                border,
                Kernel::Threshold,
                Some(input),
                BorderArg::Unused,
                args,
            )
        },
        plan is Some ==> forall|i: int| crate::outputs::is_output(
            plan->0@.kernel,
            None,
            i,
        ) <==> i == 2,
        hands_over(
            call->Ok_0@,
            Routine::Of(Kernel::Threshold),
            ContextArg::Given(context),
            BorderArg::Unused,
            seq![KernelArg::Ref(input), KernelArg::Ref(thresh), KernelArg::Ref(output)],
        ),
{
    assert forall|i: int|
        crate::outputs::is_output("org.khronos.openvx.threshold"@, None, i) <==> i == 2 by {
        crate::outputs::law_outputs_of_built_in_kernels(None, i);
    }
    if plan is Some {
        lemma_plain("org.khronos.openvx.threshold"@, seq![input, thresh, output], held, scalars);
        assert(held[0] == input);
        assert(held[1] == thresh);
        assert(held[2] == output);
        crate::kernels::law_kernel_names(Kernel::Threshold, "org.khronos.openvx.threshold"@);
        let args = seq![KernelArg::Ref(input), KernelArg::Ref(thresh), KernelArg::Ref(output)];
        assert(
            crate::dispatch::argument_at(Kernel::Threshold, held, scalars, 0) == Some(args[0])
        );
        assert(
            crate::dispatch::argument_at(Kernel::Threshold, held, scalars, 1) == Some(args[1])
        );
        assert(
            crate::dispatch::argument_at(Kernel::Threshold, held, scalars, 2) == Some(args[2])
        );
        lemma_runs(Kernel::Threshold, held, scalars, border, args);
    }
}

/// A node that combines the bits of pixels with and: its routine is handed what the
/// node was planned with, which is what it is handed when it runs at once.
pub proof fn law_and_node(
    graph: u64,
    context: u64,
    in1: u64,
    in2: u64,
    output: u64,
    plan: Option<NodePlan>,
    call: Result<ImmediateCall, vx_status>,
    held: Seq<u64>,
    scalars: Map<u64, VxCScalar>,
    border: Option<vx_border_t>,
)
    requires
        call_ensures(crate::image_nodes::vxAndNode, (graph, in1, in2, output), plan),
        call_ensures(crate::immediate::vxuAnd, (context, in1, in2, output), call),
        held.len() == 3,
        plan is Some ==> is_carried_out(plan->0@, Seq::empty(), held, scalars),
    ensures
        plan is Some <==> graph != 0 && in1 != 0 && in2 != 0 && output != 0,
        call is Ok,
        plan is Some ==> {
            let args = seq![KernelArg::Ref(in1), KernelArg::Ref(in2), KernelArg::Ref(output)];
            &&& held == seq![in1, in2, output]
            &&& runs_as(
                plan->0@.kernel,
                held,
                scalars,
                border,
                Kernel::And,
                Some(in1),
                BorderArg::Unused,
                args,
            )
        },
        plan is Some ==> forall|i: int| crate::outputs::is_output(
            plan->0@.kernel,
            None,
            i,
        ) <==> i == 2,
        hands_over(
            call->Ok_0@,
            Routine::Of(Kernel::And),
            ContextArg::Given(context),
            BorderArg::Unused,
            seq![KernelArg::Ref(in1), KernelArg::Ref(in2), KernelArg::Ref(output)],
        ),
{
    assert forall|i: int|
        crate::outputs::is_output("org.khronos.openvx.and"@, None, i) <==> i == 2 by {
        crate::outputs::law_outputs_of_built_in_kernels(None, i);
    }
    if plan is Some {
        lemma_plain("org.khronos.openvx.and"@, seq![in1, in2, output], held, scalars);
        assert(held[0] == in1);
        assert(held[1] == in2);
        assert(held[2] == output);
        crate::kernels::law_kernel_names(Kernel::And, "org.khronos.openvx.and"@);
        let args = seq![KernelArg::Ref(in1), KernelArg::Ref(in2), KernelArg::Ref(output)];
        assert(crate::dispatch::argument_at(Kernel::And, held, scalars, 0) == Some(args[0]));
        assert(crate::dispatch::argument_at(Kernel::And, held, scalars, 1) == Some(args[1]));
        assert(crate::dispatch::argument_at(Kernel::And, held, scalars, 2) == Some(args[2]));
        lemma_runs(Kernel::And, held, scalars, border, args);
    }
}

/// A node that combines the bits of pixels with or: its routine is handed what the node
/// was planned with, which is what it is handed when it runs at once.
pub proof fn law_or_node(
    graph: u64,
    context: u64,
    in1: u64,
    in2: u64,
    output: u64,
    plan: Option<NodePlan>,
    call: Result<ImmediateCall, vx_status>,
    held: Seq<u64>,
    scalars: Map<u64, VxCScalar>,
    border: Option<vx_border_t>,
)
    requires
        call_ensures(crate::image_nodes::vxOrNode, (graph, in1, in2, output), plan),
        call_ensures(crate::immediate::vxuOr, (context, in1, in2, output), call),
        held.len() == 3,
        plan is Some ==> is_carried_out(plan->0@, Seq::empty(), held, scalars),
    ensures
        plan is Some <==> graph != 0 && in1 != 0 && in2 != 0 && output != 0,
        call is Ok,
        plan is Some ==> {
            let args = seq![KernelArg::Ref(in1), KernelArg::Ref(in2), KernelArg::Ref(output)];
            &&& held == seq![in1, in2, output]
            &&& runs_as(
                plan->0@.kernel,
                held,
                scalars,
                border,
                Kernel::Or,
                Some(in1),
                BorderArg::Unused,
                args,
            )
        },
        plan is Some ==> forall|i: int| crate::outputs::is_output(
            plan->0@.kernel,
            None,
            i,
        ) <==> i == 2,
        hands_over(
            call->Ok_0@,
            Routine::Of(Kernel::Or),
            ContextArg::Given(context),
            BorderArg::Unused,
            seq![KernelArg::Ref(in1), KernelArg::Ref(in2), KernelArg::Ref(output)],
        ),
{
    assert forall|i: int|
        crate::outputs::is_output("org.khronos.openvx.or"@, None, i) <==> i == 2 by {
        crate::outputs::law_outputs_of_built_in_kernels(None, i);
    }
    if plan is Some {
        lemma_plain("org.khronos.openvx.or"@, seq![in1, in2, output], held, scalars);
        assert(held[0] == in1);
        assert(held[1] == in2);
        assert(held[2] == output);
        crate::kernels::law_kernel_names(Kernel::Or, "org.khronos.openvx.or"@);
        let args = seq![KernelArg::Ref(in1), KernelArg::Ref(in2), KernelArg::Ref(output)];
        assert(crate::dispatch::argument_at(Kernel::Or, held, scalars, 0) == Some(args[0]));
        assert(crate::dispatch::argument_at(Kernel::Or, held, scalars, 1) == Some(args[1]));
        assert(crate::dispatch::argument_at(Kernel::Or, held, scalars, 2) == Some(args[2]));
        lemma_runs(Kernel::Or, held, scalars, border, args);
    }
}

/// A node that combines the bits of pixels with xor: its routine is handed what the
/// node was planned with, which is what it is handed when it runs at once.
pub proof fn law_xor_node(
    graph: u64,
    context: u64,
    in1: u64,
    in2: u64,
    output: u64,
    plan: Option<NodePlan>,
    call: Result<ImmediateCall, vx_status>,
    held: Seq<u64>,
    scalars: Map<u64, VxCScalar>,
    border: Option<vx_border_t>,
)
    requires
        call_ensures(crate::image_nodes::vxXorNode, (graph, in1, in2, output), plan),
        call_ensures(crate::immediate::vxuXor, (context, in1, in2, output), call),
        held.len() == 3,
        plan is Some ==> is_carried_out(plan->0@, Seq::empty(), held, scalars),
    ensures
        plan is Some <==> graph != 0 && in1 != 0 && in2 != 0 && output != 0,
        call is Ok,
        plan is Some ==> {
            let args = seq![KernelArg::Ref(in1), KernelArg::Ref(in2), KernelArg::Ref(output)];
            &&& held == seq![in1, in2, output]
            &&& runs_as(
                plan->0@.kernel,
                held,
                scalars,
                border,
                Kernel::Xor,
                Some(in1),
                BorderArg::Unused,
                args,
            )
        },
        plan is Some ==> forall|i: int| crate::outputs::is_output(
            plan->0@.kernel,
            None,
            i,
        ) <==> i == 2,
        hands_over(
            call->Ok_0@,
            Routine::Of(Kernel::Xor),
            ContextArg::Given(context),
            BorderArg::Unused,
            seq![KernelArg::Ref(in1), KernelArg::Ref(in2), KernelArg::Ref(output)],
        ),
{
    assert forall|i: int|
        crate::outputs::is_output("org.khronos.openvx.xor"@, None, i) <==> i == 2 by {
        crate::outputs::law_outputs_of_built_in_kernels(None, i);
    }
    if plan is Some {
        lemma_plain("org.khronos.openvx.xor"@, seq![in1, in2, output], held, scalars);
        assert(held[0] == in1);
        assert(held[1] == in2);
        assert(held[2] == output);
        crate::kernels::law_kernel_names(Kernel::Xor, "org.khronos.openvx.xor"@);
        let args = seq![KernelArg::Ref(in1), KernelArg::Ref(in2), KernelArg::Ref(output)];
        assert(crate::dispatch::argument_at(Kernel::Xor, held, scalars, 0) == Some(args[0]));
        assert(crate::dispatch::argument_at(Kernel::Xor, held, scalars, 1) == Some(args[1]));
        assert(crate::dispatch::argument_at(Kernel::Xor, held, scalars, 2) == Some(args[2]));
        lemma_runs(Kernel::Xor, held, scalars, border, args);
    }
}

/// A node that looks pixels up in a table: its routine is handed what the node was
/// planned with.
pub proof fn law_table_lookup_node(
    graph: u64,
    input: u64,
    lut: u64,
    output: u64,
    plan: Option<NodePlan>,
    held: Seq<u64>,
    scalars: Map<u64, VxCScalar>,
    border: Option<vx_border_t>,
)
    requires
        call_ensures(crate::image_nodes::vxTableLookupNode, (graph, input, lut, output), plan),
        held.len() == 3,
        plan is Some ==> is_carried_out(plan->0@, Seq::empty(), held, scalars),
    ensures
        plan is Some <==> graph != 0 && input != 0 && lut != 0 && output != 0,
        plan is Some ==> {
            let args = seq![KernelArg::Ref(input), KernelArg::Ref(lut), KernelArg::Ref(output)];
            &&& held == seq![input, lut, output]
            &&& runs_as(
                plan->0@.kernel,
                held,
                scalars,
                border,
                Kernel::TableLookup,
                None,
                BorderArg::Unused,
                args,
            )
        },
        plan is Some ==> forall|i: int| crate::outputs::is_output(
            plan->0@.kernel,
            None,
            i,
        ) <==> i == 2,
{
    assert forall|i: int|
        crate::outputs::is_output("org.khronos.openvx.table_lookup"@, None, i) <==> i == 2 by {
        crate::outputs::law_outputs_of_built_in_kernels(None, i);
    }
    if plan is Some {
        lemma_plain("org.khronos.openvx.table_lookup"@, seq![input, lut, output], held, scalars);
        assert(held[0] == input);
        assert(held[1] == lut);
        assert(held[2] == output);
        crate::kernels::law_kernel_names(Kernel::TableLookup, "org.khronos.openvx.table_lookup"@);
        let args = seq![KernelArg::Ref(input), KernelArg::Ref(lut), KernelArg::Ref(output)];
        assert(
            crate::dispatch::argument_at(Kernel::TableLookup, held, scalars, 0) == Some(args[0])
        );
        assert(
            crate::dispatch::argument_at(Kernel::TableLookup, held, scalars, 1) == Some(args[1])
        );
        assert(
            crate::dispatch::argument_at(Kernel::TableLookup, held, scalars, 2) == Some(args[2])
        );
        lemma_runs(Kernel::TableLookup, held, scalars, border, args);
    }
}

/// A node that looks for a template: its routine is handed what the node was planned
/// with; what a scalar carries comes out of it again.
#[verifier::rlimit(100)]
pub proof fn law_match_template_node(
    graph: u64,
    src: u64,
    templ: u64,
    matching_method: vx_enum,
    output: u64,
    plan: Option<NodePlan>,
    made: Seq<u64>,
    held: Seq<u64>,
    scalars: Map<u64, VxCScalar>,
    border: Option<vx_border_t>,
)
    requires
        call_ensures(
            crate::image_nodes::vxMatchTemplateNode,
            (graph, src, templ, matching_method, output),
            plan,
        ),
        held.len() == 4,
        plan is Some ==> is_carried_out(plan->0@, made, held, scalars),
    ensures
        plan is Some <==> graph != 0 && src != 0 && templ != 0 && output != 0,
        plan is Some ==> {
            let args = seq![
                KernelArg::Ref(src),
                KernelArg::Ref(templ),
                KernelArg::Ref(made[0]),
                KernelArg::Ref(output),
            ];
            &&& held == seq![src, templ, made[0], output]
            &&& runs_as(
                plan->0@.kernel,
                held,
                scalars,
                border,
                Kernel::MatchTemplate,
                Some(src),
                BorderArg::Unused,
                args,
            )
        },
        plan is Some ==> forall|i: int| crate::outputs::is_output(
            plan->0@.kernel,
            None,
            i,
        ) <==> i == 3,
{
    assert forall|i: int|
        crate::outputs::is_output("org.khronos.openvx.match_template"@, None, i) <==> i == 3 by {
        crate::outputs::law_outputs_of_built_in_kernels(None, i);
    }
    if plan is Some {
        lemma_seeded(
            "org.khronos.openvx.match_template"@,
            seq![crate::construction::enum_seed(matching_method)],
            seq![
                Source::Given(src),
                Source::Given(templ),
                Source::Made(0),
                Source::Given(output),
            ],
            made,
            held,
            scalars,
        );
        assert(held[0] == src);
        assert(held[1] == templ);
        assert(held[2] == made[0]);
        assert(held[3] == output);
        lemma_integer(
            scalars,
            made[0],
            matching_method,
            crate::construction::enum_seed(matching_method),
        );
        crate::kernels::law_kernel_names(
            Kernel::MatchTemplate,
            "org.khronos.openvx.match_template"@,
        );
        let args = seq![
            KernelArg::Ref(src),
            KernelArg::Ref(templ),
            KernelArg::Ref(made[0]),
            KernelArg::Ref(output),
        ];
        assert(
            crate::dispatch::argument_at(Kernel::MatchTemplate, held, scalars, 0) == Some(args[0])
        );
        assert(
            crate::dispatch::argument_at(Kernel::MatchTemplate, held, scalars, 1) == Some(args[1])
        );
        assert(
            crate::dispatch::argument_at(Kernel::MatchTemplate, held, scalars, 2) == Some(args[2])
        );
        assert(
            crate::dispatch::argument_at(Kernel::MatchTemplate, held, scalars, 3) == Some(args[3])
        );
        lemma_runs(Kernel::MatchTemplate, held, scalars, border, args);
    }
}

/// A node that keeps only the largest pixels of a window: its routine is handed what
/// the node was planned with; what a scalar carries comes out of it again.
#[verifier::rlimit(100)]
pub proof fn law_non_max_suppression_node(
    graph: u64,
    input: u64,
    mask: u64,
    win_size: i32,
    output: u64,
    plan: Option<NodePlan>,
    made: Seq<u64>,
    held: Seq<u64>,
    scalars: Map<u64, VxCScalar>,
    border: Option<vx_border_t>,
)
    requires
        call_ensures(
            crate::image_nodes::vxNonMaxSuppressionNode,
            (graph, input, mask, win_size, output),
            plan,
        ),
        held.len() == 4,
        plan is Some ==> is_carried_out(plan->0@, made, held, scalars),
    ensures
        plan is Some <==> graph != 0 && input != 0 && output != 0,
        plan is Some ==> {
            let args = seq![
                KernelArg::Ref(input),
                KernelArg::Ref(mask),
                KernelArg::Ref(made[0]),
                KernelArg::Ref(output),
            ];
            &&& held == seq![input, mask, made[0], output]
            &&& runs_as(
                plan->0@.kernel,
                held,
                scalars,
                border,
                Kernel::NonMaxSuppression,
                Some(input),
                BorderArg::Unused,
                args,
            )
        },
        plan is Some ==> forall|i: int| crate::outputs::is_output(
            plan->0@.kernel,
            None,
            i,
        ) <==> i == 3,
{
    assert forall|i: int|
        crate::outputs::is_output("org.khronos.openvx.non_max_suppression"@, None, i) <==> i == 3 by {
        crate::outputs::law_outputs_of_built_in_kernels(None, i);
    }
    if plan is Some {
        lemma_seeded(
            "org.khronos.openvx.non_max_suppression"@,
            seq![crate::construction::word_seed(VX_TYPE_INT32, crate::scalar::bits32(win_size))],
            seq![
                Source::Given(input),
                Source::Given(mask),
                Source::Made(0),
                Source::Given(output),
            ],
            made,
            held,
            scalars,
        );
        assert(held[0] == input);
        assert(held[1] == mask);
        assert(held[2] == made[0]);
        assert(held[3] == output);
        lemma_integer(
            scalars,
            made[0],
            win_size,
            crate::construction::word_seed(VX_TYPE_INT32, crate::scalar::bits32(win_size)),
        );
        crate::kernels::law_kernel_names(
            Kernel::NonMaxSuppression,
            "org.khronos.openvx.non_max_suppression"@,
        );
        let args = seq![
            KernelArg::Ref(input),
            KernelArg::Ref(mask),
            KernelArg::Ref(made[0]),
            KernelArg::Ref(output),
        ];
        assert(
            crate::dispatch::argument_at(
                Kernel::NonMaxSuppression,
                held,
                scalars,
                0,
            ) == Some(args[0])
        );
        assert(
            crate::dispatch::argument_at(
                Kernel::NonMaxSuppression,
                held,
                scalars,
                1,
            ) == Some(args[1])
        );
        assert(
            crate::dispatch::argument_at(
                Kernel::NonMaxSuppression,
                held,
                scalars,
                2,
            ) == Some(args[2])
        );
        assert(
            crate::dispatch::argument_at(
                Kernel::NonMaxSuppression,
                held,
                scalars,
                3,
            ) == Some(args[3])
        );
        lemma_runs(Kernel::NonMaxSuppression, held, scalars, border, args);
    }
}

/// A node that combines two scalars: its routine is handed what the node was planned
/// with; what a scalar carries comes out of it again.
#[verifier::spinoff_prover]
#[verifier::rlimit(100)]
pub proof fn law_scalar_operation_node(
    graph: u64,
    op: vx_enum,
    a: u64,
    b: u64,
    output: u64,
    plan: Option<NodePlan>,
    made: Seq<u64>,
    held: Seq<u64>,
    scalars: Map<u64, VxCScalar>,
    border: Option<vx_border_t>,
)
    requires
        call_ensures(crate::image_nodes::vxScalarOperationNode, (graph, op, a, b, output), plan),
        held.len() == 4,
        plan is Some ==> is_carried_out(plan->0@, made, held, scalars),
    ensures
        plan is Some <==> graph != 0 && a != 0 && b != 0 && output != 0,
        plan is Some ==> {
            let args = seq![
                KernelArg::Ref(a),
                KernelArg::Ref(b),
                KernelArg::Ref(made[0]),
                KernelArg::Ref(output),
            ];
            &&& held == seq![a, b, made[0], output]
            &&& runs_as(
                plan->0@.kernel,
                held,
                scalars,
                border,
                Kernel::ScalarOperation,
                None,
                BorderArg::Unused,
                args,
            )
        },
{
    if plan is Some {
        lemma_seeded(
            "org.khronos.openvx.scalar_operation"@,
            seq![crate::construction::enum_seed(op)],
            seq![Source::Given(a), Source::Given(b), Source::Made(0), Source::Given(output)],
            made,
            held,
            scalars,
        );
        assert(held[0] == a);
        assert(held[1] == b);
        assert(held[2] == made[0]);
        assert(held[3] == output);
        lemma_integer(scalars, made[0], op, crate::construction::enum_seed(op));
        crate::kernels::law_kernel_names(
            Kernel::ScalarOperation,
            "org.khronos.openvx.scalar_operation"@,
        );
        let args = seq![
            KernelArg::Ref(a),
            KernelArg::Ref(b),
            KernelArg::Ref(made[0]),
            KernelArg::Ref(output),
        ];
        assert(
            crate::dispatch::argument_at(
                Kernel::ScalarOperation,
                held,
                scalars,
                0,
            ) == Some(args[0])
        );
        assert(
            crate::dispatch::argument_at(
                Kernel::ScalarOperation,
                held,
                scalars,
                1,
            ) == Some(args[1])
        );
        assert(
            crate::dispatch::argument_at(
                Kernel::ScalarOperation,
                held,
                scalars,
                2,
            ) == Some(args[2])
        );
        assert(
            crate::dispatch::argument_at(
                Kernel::ScalarOperation,
                held,
                scalars,
                3,
            ) == Some(args[3])
        );
        lemma_runs(Kernel::ScalarOperation, held, scalars, border, args);
    }
}

/// A node that copies one of two objects: its routine is handed what the node was
/// planned with.
pub proof fn law_select_node(
    graph: u64,
    condition: u64,
    true_value: u64,
    false_value: u64,
    output: u64,
    plan: Option<NodePlan>,
    held: Seq<u64>,
    scalars: Map<u64, VxCScalar>,
    border: Option<vx_border_t>,
)
    requires
        call_ensures(
            crate::image_nodes::vxSelectNode,
            (graph, condition, true_value, false_value, output),
            plan,
        ),
        held.len() == 4,
        plan is Some ==> is_carried_out(plan->0@, Seq::empty(), held, scalars),
    ensures
        plan is Some <==> graph != 0 && condition != 0 && true_value != 0 && false_value != 0 && output != 0,
        plan is Some ==> {
            let args = seq![
                KernelArg::Ref(condition),
                KernelArg::Ref(true_value),
                KernelArg::Ref(false_value),
                KernelArg::Ref(output),
            ];
            &&& held == seq![condition, true_value, false_value, output]
            &&& runs_as(
                plan->0@.kernel,
                held,
                scalars,
                border,
                Kernel::Select,
                None,
                BorderArg::Unused,
                args,
            )
        },
{
    if plan is Some {
        lemma_plain(
            "org.khronos.openvx.select"@,
            seq![condition, true_value, false_value, output],
            held,
            scalars,
        );
        assert(held[0] == condition);
        assert(held[1] == true_value);
        assert(held[2] == false_value);
        assert(held[3] == output);
        crate::kernels::law_kernel_names(Kernel::Select, "org.khronos.openvx.select"@);
        let args = seq![
            KernelArg::Ref(condition),
            KernelArg::Ref(true_value),
            KernelArg::Ref(false_value),
            KernelArg::Ref(output),
        ];
        assert(crate::dispatch::argument_at(Kernel::Select, held, scalars, 0) == Some(args[0]));
        assert(crate::dispatch::argument_at(Kernel::Select, held, scalars, 1) == Some(args[1]));
        assert(crate::dispatch::argument_at(Kernel::Select, held, scalars, 2) == Some(args[2]));
        assert(crate::dispatch::argument_at(Kernel::Select, held, scalars, 3) == Some(args[3]));
        lemma_runs(Kernel::Select, held, scalars, border, args);
    }
}

/// A node that takes local binary patterns: its routine is handed what the node was
/// planned with; what a scalar carries comes out of it again.
#[verifier::spinoff_prover]
#[verifier::rlimit(100)]
pub proof fn law_lbp_node(
    graph: u64,
    input: u64,
    format: vx_enum,
    kernel_size: i8,
    output: u64,
    plan: Option<NodePlan>,
    made: Seq<u64>,
    held: Seq<u64>,
    scalars: Map<u64, VxCScalar>,
    border: Option<vx_border_t>,
)
    requires
        call_ensures(
            crate::image_nodes::vxLBPNode,
            (graph, input, format, kernel_size, output),
            plan,
        ),
        held.len() == 4,
        plan is Some ==> is_carried_out(plan->0@, made, held, scalars),
    ensures
        plan is Some <==> graph != 0 && input != 0 && output != 0,
        plan is Some ==> {
            let args = seq![
                KernelArg::Ref(input),
                KernelArg::Ref(made[0]),
                KernelArg::Ref(made[1]),
                KernelArg::Ref(output),
            ];
            &&& held == seq![input, made[0], made[1], output]
            &&& runs_as(
                plan->0@.kernel,
                held,
                scalars,
                border,
                Kernel::Lbp,
                Some(input),
                BorderArg::Unused,
                args,
            )
        },
        plan is Some ==> forall|i: int| crate::outputs::is_output(
            plan->0@.kernel,
            None,
            i,
        ) <==> i == 3,
{
    assert forall|i: int|
        crate::outputs::is_output("org.khronos.openvx.lbp"@, None, i) <==> i == 3 by {
        crate::outputs::law_outputs_of_built_in_kernels(None, i);
    }
    if plan is Some {
        lemma_seeded(
            "org.khronos.openvx.lbp"@,
            seq![
                crate::construction::enum_seed(format),
                crate::image_nodes::small_seed(kernel_size),
            ],
            seq![Source::Given(input), Source::Made(0), Source::Made(1), Source::Given(output)],
            made,
            held,
            scalars,
        );
        assert(held[0] == input);
        assert(held[1] == made[0]);
        assert(held[2] == made[1]);
        assert(held[3] == output);
        lemma_integer(scalars, made[0], format, crate::construction::enum_seed(format));
        crate::kernels::law_kernel_names(Kernel::Lbp, "org.khronos.openvx.lbp"@);
        let args = seq![
            KernelArg::Ref(input),
            KernelArg::Ref(made[0]),
            KernelArg::Ref(made[1]),
            KernelArg::Ref(output),
        ];
        assert(crate::dispatch::argument_at(Kernel::Lbp, held, scalars, 0) == Some(args[0]));
        assert(crate::dispatch::argument_at(Kernel::Lbp, held, scalars, 1) == Some(args[1]));
        assert(crate::dispatch::argument_at(Kernel::Lbp, held, scalars, 2) == Some(args[2]));
        assert(crate::dispatch::argument_at(Kernel::Lbp, held, scalars, 3) == Some(args[3]));
        lemma_runs(Kernel::Lbp, held, scalars, border, args);
    }
}

/// A node that smooths a tensor and keeps its edges: its routine is handed what the
/// node was planned with; what a scalar carries comes out of it again.
#[verifier::spinoff_prover]
#[verifier::rlimit(100)]
pub proof fn law_bilateral_filter_node(
    graph: u64,
    src: u64,
    diameter: i32,
    sigma_space: u32,
    sigma_values: u32,
    dst: u64,
    plan: Option<NodePlan>,
    made: Seq<u64>,
    held: Seq<u64>,
    scalars: Map<u64, VxCScalar>,
    border: Option<vx_border_t>,
)
    requires
        call_ensures(
            crate::tensor_nodes::vxBilateralFilterNode,
            (graph, src, diameter, sigma_space, sigma_values, dst),
            plan,
        ),
        held.len() == 5,
        plan is Some ==> is_carried_out(plan->0@, made, held, scalars),
    ensures
        plan is Some <==> graph != 0 && src != 0 && dst != 0,
        plan is Some ==> {
            let args = seq![
                KernelArg::Ref(src),
                KernelArg::Int(diameter),
                KernelArg::Bits(sigma_space),
                KernelArg::Bits(sigma_values),
                KernelArg::Ref(dst),
            ];
            &&& held == seq![src, made[0], made[1], made[2], dst]
            &&& runs_as(
                plan->0@.kernel,
                held,
                scalars,
                border,
                Kernel::BilateralFilter,
                Some(src),
                BorderArg::AsGiven(border),
                args,
            )
        },
        plan is Some ==> forall|i: int| crate::outputs::is_output(
            plan->0@.kernel,
            None,
            i,
        ) <==> i == 4,
{
    assert forall|i: int|
        crate::outputs::is_output("org.khronos.openvx.bilateral_filter"@, None, i) <==> i == 4 by {
        crate::outputs::law_outputs_of_built_in_kernels(None, i);
    }
    if plan is Some {
        lemma_seeded(
            "org.khronos.openvx.bilateral_filter"@,
            seq![
                crate::construction::word_seed(VX_TYPE_INT32, crate::scalar::bits32(diameter)),
                crate::construction::word_seed(VX_TYPE_FLOAT32, sigma_space),
                crate::construction::word_seed(VX_TYPE_FLOAT32, sigma_values),
            ],
            seq![
                Source::Given(src),
                Source::Made(0),
                Source::Made(1),
                Source::Made(2),
                Source::Given(dst),
            ],
            made,
            held,
            scalars,
        );
        assert(held[0] == src);
        assert(held[1] == made[0]);
        assert(held[2] == made[1]);
        assert(held[3] == made[2]);
        assert(held[4] == dst);
        lemma_integer(
            scalars,
            made[0],
            diameter,
            crate::construction::word_seed(VX_TYPE_INT32, crate::scalar::bits32(diameter)),
        );
        lemma_word(
            scalars,
            made[1],
            sigma_space,
            crate::construction::word_seed(VX_TYPE_FLOAT32, sigma_space),
        );
        lemma_word(
            scalars,
            made[2],
            sigma_values,
            crate::construction::word_seed(VX_TYPE_FLOAT32, sigma_values),
        );
        crate::kernels::law_kernel_names(
            Kernel::BilateralFilter,
            "org.khronos.openvx.bilateral_filter"@,
        );
        let args = seq![
            KernelArg::Ref(src),
            KernelArg::Int(diameter),
            KernelArg::Bits(sigma_space),
            KernelArg::Bits(sigma_values),
            KernelArg::Ref(dst),
        ];
        assert(
            crate::dispatch::argument_at(
                Kernel::BilateralFilter,
                held,
                scalars,
                0,
            ) == Some(args[0])
        );
        assert(
            crate::dispatch::argument_at(
                Kernel::BilateralFilter,
                held,
                scalars,
                1,
            ) == Some(args[1])
        );
        assert(
            crate::dispatch::argument_at(
                Kernel::BilateralFilter,
                held,
                scalars,
                2,
            ) == Some(args[2])
        );
        assert(
            crate::dispatch::argument_at(
                Kernel::BilateralFilter,
                held,
                scalars,
                3,
            ) == Some(args[3])
        );
        assert(
            crate::dispatch::argument_at(
                Kernel::BilateralFilter,
                held,
                scalars,
                4,
            ) == Some(args[4])
        );
        lemma_runs(Kernel::BilateralFilter, held, scalars, border, args);
    }
}

/// A node that sums gradients up by cells: its routine is handed what the node was
/// planned with, which is what it is handed when it runs at once; what a scalar carries
/// comes out of it again.
#[verifier::spinoff_prover]
#[verifier::rlimit(100)]
pub proof fn law_hog_cells_node(
    graph: u64,
    context: u64,
    input: u64,
    cell_width: i32,
    cell_height: i32,
    num_bins: i32,
    magnitudes: u64,
    bins: u64,
    plan: Option<NodePlan>,
    call: Result<ImmediateCall, vx_status>,
    made: Seq<u64>,
    held: Seq<u64>,
    scalars: Map<u64, VxCScalar>,
    border: Option<vx_border_t>,
)
    requires
        call_ensures(
            crate::tensor_nodes::vxHOGCellsNode,
            (graph, input, cell_width, cell_height, num_bins, magnitudes, bins),
            plan,
        ),
        call_ensures(
            crate::immediate::vxuHOGCells,
            (context, input, cell_width, cell_height, num_bins, magnitudes, bins),
            call,
        ),
        held.len() == 6,
        plan is Some ==> is_carried_out(plan->0@, made, held, scalars),
    ensures
        plan is Some <==> graph != 0 && input != 0 && magnitudes != 0 && bins != 0,
        call is Ok <==> context != 0 && input != 0 && magnitudes != 0 && bins != 0,
        call is Err ==> call->Err_0 == VX_ERROR_INVALID_PARAMETERS,
        plan is Some ==> {
            let args = seq![
                KernelArg::Ref(input),
                KernelArg::Int(cell_width),
                KernelArg::Int(cell_height),
                KernelArg::Int(num_bins),
                KernelArg::Ref(magnitudes),
                KernelArg::Ref(bins),
            ];
            &&& held == seq![input, made[0], made[1], made[2], magnitudes, bins]
            &&& runs_as(
                plan->0@.kernel,
                held,
                scalars,
                border,
                Kernel::HogCells,
                Some(input),
                BorderArg::Unused,
                args,
            )
        },
        plan is Some ==> forall|i: int| crate::outputs::is_output(
            plan->0@.kernel,
            None,
            i,
        ) <==> 4 <= i <= 5,
        call is Ok ==> hands_over(
            call->Ok_0@,
            Routine::Of(Kernel::HogCells),
            ContextArg::Given(context),
            BorderArg::Unused,
            seq![
                KernelArg::Ref(input),
                KernelArg::Int(cell_width),
                KernelArg::Int(cell_height),
                KernelArg::Int(num_bins),
                KernelArg::Ref(magnitudes),
                KernelArg::Ref(bins),
            ],
        ),
{
    assert forall|i: int|
        crate::outputs::is_output("org.khronos.openvx.hog_cells"@, None, i) <==> 4 <= i <= 5 by {
        crate::outputs::law_outputs_of_built_in_kernels(None, i);
    }
    if plan is Some {
        lemma_seeded(
            "org.khronos.openvx.hog_cells"@,
            seq![
                crate::construction::word_seed(VX_TYPE_INT32, crate::scalar::bits32(cell_width)),
                crate::construction::word_seed(VX_TYPE_INT32, crate::scalar::bits32(cell_height)),
                crate::construction::word_seed(VX_TYPE_INT32, crate::scalar::bits32(num_bins)),
            ],
            seq![
                Source::Given(input),
                Source::Made(0),
                Source::Made(1),
                Source::Made(2),
                Source::Given(magnitudes),
                Source::Given(bins),
            ],
            made,
            held,
            scalars,
        );
        assert(held[0] == input);
        assert(held[1] == made[0]);
        assert(held[2] == made[1]);
        assert(held[3] == made[2]);
        assert(held[4] == magnitudes);
        assert(held[5] == bins);
        lemma_integer(
            scalars,
            made[0],
            cell_width,
            crate::construction::word_seed(VX_TYPE_INT32, crate::scalar::bits32(cell_width)),
        );
        lemma_integer(
            scalars,
            made[1],
            cell_height,
            crate::construction::word_seed(VX_TYPE_INT32, crate::scalar::bits32(cell_height)),
        );
        lemma_integer(
            scalars,
            made[2],
            num_bins,
            crate::construction::word_seed(VX_TYPE_INT32, crate::scalar::bits32(num_bins)),
        );
        crate::kernels::law_kernel_names(Kernel::HogCells, "org.khronos.openvx.hog_cells"@);
        let args = seq![
            KernelArg::Ref(input),
            KernelArg::Int(cell_width),
            KernelArg::Int(cell_height),
            KernelArg::Int(num_bins),
            KernelArg::Ref(magnitudes),
            KernelArg::Ref(bins),
        ];
        assert(crate::dispatch::argument_at(Kernel::HogCells, held, scalars, 0) == Some(args[0]));
        assert(crate::dispatch::argument_at(Kernel::HogCells, held, scalars, 1) == Some(args[1]));
        assert(crate::dispatch::argument_at(Kernel::HogCells, held, scalars, 2) == Some(args[2]));
        assert(crate::dispatch::argument_at(Kernel::HogCells, held, scalars, 3) == Some(args[3]));
        assert(crate::dispatch::argument_at(Kernel::HogCells, held, scalars, 4) == Some(args[4]));
        assert(crate::dispatch::argument_at(Kernel::HogCells, held, scalars, 5) == Some(args[5]));
        lemma_runs(Kernel::HogCells, held, scalars, border, args);
    }
}

/// A node that turns cells into features: its routine is handed what the node was
/// planned with.
pub proof fn law_hog_features_node(
    graph: u64,
    input: u64,
    magnitudes: u64,
    bins: u64,
    hog_params: u64,
    hog_param_size: usize,
    features: u64,
    plan: Option<NodePlan>,
    held: Seq<u64>,
    scalars: Map<u64, VxCScalar>,
    border: Option<vx_border_t>,
)
    requires
        call_ensures(
            crate::tensor_nodes::vxHOGFeaturesNode,
            (graph, input, magnitudes, bins, hog_params, hog_param_size, features),
            plan,
        ),
        held.len() == 6,
        plan is Some ==> is_carried_out(plan->0@, Seq::empty(), held, scalars),
    ensures
        plan is Some <==> graph != 0 && input != 0 && magnitudes != 0 && bins != 0 && features != 0,
        plan is Some && hog_params != 0 ==> {
            let args = seq![
                KernelArg::Ref(input),
                KernelArg::Ref(magnitudes),
                KernelArg::Ref(bins),
                KernelArg::Ref(hog_params),
                KernelArg::Size(40),
                KernelArg::Ref(features),
            ];
            &&& held == seq![input, magnitudes, bins, hog_params, 0, features]
            &&& runs_as(
                plan->0@.kernel,
                held,
                scalars,
                border,
                Kernel::HogFeatures,
                Some(input),
                BorderArg::Unused,
                args,
            )
        },
        plan is Some ==> forall|i: int| crate::outputs::is_output(
            plan->0@.kernel,
            None,
            i,
        ) <==> i == 5,
{
    assert forall|i: int|
        crate::outputs::is_output("org.khronos.openvx.hog_features"@, None, i) <==> i == 5 by {
        crate::outputs::law_outputs_of_built_in_kernels(None, i);
    }
    if plan is Some && hog_params != 0 {
        lemma_plain(
            "org.khronos.openvx.hog_features"@,
            seq![input, magnitudes, bins, hog_params, 0, features],
            held,
            scalars,
        );
        assert(held[0] == input);
        assert(held[1] == magnitudes);
        assert(held[2] == bins);
        assert(held[3] == hog_params);
        assert(held[4] == 0);
        assert(held[5] == features);
        crate::kernels::law_kernel_names(Kernel::HogFeatures, "org.khronos.openvx.hog_features"@);
        let args = seq![
            KernelArg::Ref(input),
            KernelArg::Ref(magnitudes),
            KernelArg::Ref(bins),
            KernelArg::Ref(hog_params),
            KernelArg::Size(40),
            KernelArg::Ref(features),
        ];
        assert(
            crate::dispatch::argument_at(Kernel::HogFeatures, held, scalars, 0) == Some(args[0])
        );
        assert(
            crate::dispatch::argument_at(Kernel::HogFeatures, held, scalars, 1) == Some(args[1])
        );
        assert(
            crate::dispatch::argument_at(Kernel::HogFeatures, held, scalars, 2) == Some(args[2])
        );
        assert(
            crate::dispatch::argument_at(Kernel::HogFeatures, held, scalars, 3) == Some(args[3])
        );
        assert(
            crate::dispatch::argument_at(Kernel::HogFeatures, held, scalars, 4) == Some(args[4])
        );
        assert(
            crate::dispatch::argument_at(Kernel::HogFeatures, held, scalars, 5) == Some(args[5])
        );
        lemma_runs(Kernel::HogFeatures, held, scalars, border, args);
    }
}

/// A node that adds tensors: its routine is handed what the node was planned with,
/// which is what it is handed when it runs at once; what a scalar carries comes out of
/// it again.
#[verifier::rlimit(100)]
pub proof fn law_tensor_add_node(
    graph: u64,
    context: u64,
    input1: u64,
    input2: u64,
    policy: vx_enum,
    output: u64,
    plan: Option<NodePlan>,
    call: Result<ImmediateCall, vx_status>,
    made: Seq<u64>,
    held: Seq<u64>,
    scalars: Map<u64, VxCScalar>,
    border: Option<vx_border_t>,
)
    requires
        call_ensures(
            crate::tensor_nodes::vxTensorAddNode,
            (graph, input1, input2, policy, output),
            plan,
        ),
        call_ensures(
            crate::immediate::vxuTensorAdd,
            (context, input1, input2, policy, output),
            call,
        ),
        held.len() == 4,
        plan is Some ==> is_carried_out(plan->0@, made, held, scalars),
    ensures
        plan is Some <==> graph != 0 && input1 != 0 && input2 != 0 && output != 0,
        call is Ok <==> context != 0 && input1 != 0 && input2 != 0 && output != 0,
        call is Err ==> call->Err_0 == VX_ERROR_INVALID_REFERENCE,
        plan is Some ==> {
            let args = seq![
                KernelArg::Ref(input1),
                KernelArg::Ref(input2),
                KernelArg::Int(policy),
                KernelArg::Ref(output),
            ];
            &&& held == seq![input1, input2, made[0], output]
            &&& runs_as(
                plan->0@.kernel,
                held,
                scalars,
                border,
                Kernel::TensorAdd,
                None,
                BorderArg::Unused,
                args,
            )
        },
        call is Ok ==> hands_over(
            call->Ok_0@,
            Routine::Of(Kernel::TensorAdd),
            ContextArg::Nothing,
            BorderArg::Unused,
            seq![
                KernelArg::Ref(input1),
                KernelArg::Ref(input2),
                KernelArg::Int(policy),
                KernelArg::Ref(output),
            ],
        ),
{
    if plan is Some {
        lemma_seeded(
            "org.khronos.openvx.tensor_add"@,
            seq![crate::construction::enum_seed(policy)],
            seq![
                Source::Given(input1),
                Source::Given(input2),
                Source::Made(0),
                Source::Given(output),
            ],
            made,
            held,
            scalars,
        );
        assert(held[0] == input1);
        assert(held[1] == input2);
        assert(held[2] == made[0]);
        assert(held[3] == output);
        lemma_integer(scalars, made[0], policy, crate::construction::enum_seed(policy));
        crate::kernels::law_kernel_names(Kernel::TensorAdd, "org.khronos.openvx.tensor_add"@);
        let args = seq![
            KernelArg::Ref(input1),
            KernelArg::Ref(input2),
            KernelArg::Int(policy),
            KernelArg::Ref(output),
        ];
        assert(
            crate::dispatch::argument_at(Kernel::TensorAdd, held, scalars, 0) == Some(args[0])
        );
        assert(
            crate::dispatch::argument_at(Kernel::TensorAdd, held, scalars, 1) == Some(args[1])
        );
        assert(
            crate::dispatch::argument_at(Kernel::TensorAdd, held, scalars, 2) == Some(args[2])
        );
        assert(
            crate::dispatch::argument_at(Kernel::TensorAdd, held, scalars, 3) == Some(args[3])
        );
        lemma_runs(Kernel::TensorAdd, held, scalars, border, args);
    }
}

/// A node that subtracts tensors: its routine is handed what the node was planned with,
/// which is what it is handed when it runs at once; what a scalar carries comes out of
/// it again.
#[verifier::rlimit(100)]
pub proof fn law_tensor_subtract_node(
    graph: u64,
    context: u64,
    input1: u64,
    input2: u64,
    policy: vx_enum,
    output: u64,
    plan: Option<NodePlan>,
    call: Result<ImmediateCall, vx_status>,
    made: Seq<u64>,
    held: Seq<u64>,
    scalars: Map<u64, VxCScalar>,
    border: Option<vx_border_t>,
)
    requires
        call_ensures(
            crate::tensor_nodes::vxTensorSubtractNode,
            (graph, input1, input2, policy, output),
            plan,
        ),
        call_ensures(
            crate::immediate::vxuTensorSubtract,
            (context, input1, input2, policy, output),
            call,
        ),
        held.len() == 4,
        plan is Some ==> is_carried_out(plan->0@, made, held, scalars),
    ensures
        plan is Some <==> graph != 0 && input1 != 0 && input2 != 0 && output != 0,
        call is Ok <==> context != 0 && input1 != 0 && input2 != 0 && output != 0,
        call is Err ==> call->Err_0 == VX_ERROR_INVALID_REFERENCE,
        plan is Some ==> {
            let args = seq![
                KernelArg::Ref(input1),
                KernelArg::Ref(input2),
                KernelArg::Int(policy),
                KernelArg::Ref(output),
            ];
            &&& held == seq![input1, input2, made[0], output]
            &&& runs_as(
                plan->0@.kernel,
                held,
                scalars,
                border,
                Kernel::TensorSubtract,
                None,
                BorderArg::Unused,
                args,
            )
        },
        call is Ok ==> hands_over(
            call->Ok_0@,
            Routine::Of(Kernel::TensorSubtract),
            ContextArg::Nothing,
            BorderArg::Unused,
            seq![
                KernelArg::Ref(input1),
                KernelArg::Ref(input2),
                KernelArg::Int(policy),
                KernelArg::Ref(output),
            ],
        ),
{
    if plan is Some {
        lemma_seeded(
            "org.khronos.openvx.tensor_subtract"@,
            seq![crate::construction::enum_seed(policy)],
            seq![
                Source::Given(input1),
                Source::Given(input2),
                Source::Made(0),
                Source::Given(output),
            ],
            made,
            held,
            scalars,
        );
        assert(held[0] == input1);
        assert(held[1] == input2);
        assert(held[2] == made[0]);
        assert(held[3] == output);
        lemma_integer(scalars, made[0], policy, crate::construction::enum_seed(policy));
        crate::kernels::law_kernel_names(
            Kernel::TensorSubtract,
            "org.khronos.openvx.tensor_subtract"@,
        );
        let args = seq![
            KernelArg::Ref(input1),
            KernelArg::Ref(input2),
            KernelArg::Int(policy),
            KernelArg::Ref(output),
        ];
        assert(
            crate::dispatch::argument_at(
                Kernel::TensorSubtract,
                held,
                scalars,
                0,
            ) == Some(args[0])
        );
        assert(
            crate::dispatch::argument_at(
                Kernel::TensorSubtract,
                held,
                scalars,
                1,
            ) == Some(args[1])
        );
        assert(
            crate::dispatch::argument_at(
                Kernel::TensorSubtract,
                held,
                scalars,
                2,
            ) == Some(args[2])
        );
        assert(
            crate::dispatch::argument_at(
                Kernel::TensorSubtract,
                held,
                scalars,
                3,
            ) == Some(args[3])
        );
        lemma_runs(Kernel::TensorSubtract, held, scalars, border, args);
    }
}

/// A node that multiplies tensors: its routine is handed what the node was planned
/// with, which is what it is handed when it runs at once; what a scalar carries comes
/// out of it again.
#[verifier::spinoff_prover]
#[verifier::rlimit(100)]
pub proof fn law_tensor_multiply_node(
    graph: u64,
    context: u64,
    input1: u64,
    input2: u64,
    scale: u64,
    overflow_policy: vx_enum,
    rounding_policy: vx_enum,
    output: u64,
    plan: Option<NodePlan>,
    call: Result<ImmediateCall, vx_status>,
    made: Seq<u64>,
    held: Seq<u64>,
    scalars: Map<u64, VxCScalar>,
    border: Option<vx_border_t>,
)
    requires
        call_ensures(
            crate::tensor_nodes::vxTensorMultiplyNode,
            (graph, input1, input2, scale, overflow_policy, rounding_policy, output),
            plan,
        ),
        call_ensures(
            crate::immediate::vxuTensorMultiply,
            (context, input1, input2, scale, overflow_policy, rounding_policy, output),
            call,
        ),
        held.len() == 6,
        plan is Some ==> is_carried_out(plan->0@, made, held, scalars),
    ensures
        plan is Some <==> graph != 0 && input1 != 0 && input2 != 0 && scale != 0 && output != 0,
        call is Ok <==> context != 0 && input1 != 0 && input2 != 0 && scale != 0 && output != 0,
        call is Err ==> call->Err_0 == VX_ERROR_INVALID_REFERENCE,
        plan is Some ==> {
            let args = seq![
                KernelArg::Ref(input1),
                KernelArg::Ref(input2),
                KernelArg::Ref(scale),
                KernelArg::Int(overflow_policy),
                KernelArg::Int(rounding_policy),
                KernelArg::Ref(output),
            ];
            &&& held == seq![input1, input2, scale, made[0], made[1], output]
            &&& runs_as(
                plan->0@.kernel,
                held,
                scalars,
                border,
                Kernel::TensorMultiply,
                None,
                BorderArg::Unused,
                args,
            )
        },
        call is Ok ==> hands_over(
            call->Ok_0@,
            Routine::Of(Kernel::TensorMultiply),
            ContextArg::Nothing,
            BorderArg::Unused,
            seq![
                KernelArg::Ref(input1),
                KernelArg::Ref(input2),
                KernelArg::Ref(scale),
                KernelArg::Int(overflow_policy),
                KernelArg::Int(rounding_policy),
                KernelArg::Ref(output),
            ],
        ),
{
    if plan is Some {
        lemma_seeded(
            "org.khronos.openvx.tensor_multiply"@,
            seq![
                crate::construction::enum_seed(overflow_policy),
                crate::construction::enum_seed(rounding_policy),
            ],
            seq![
                Source::Given(input1),
                Source::Given(input2),
                Source::Given(scale),
                Source::Made(0),
                Source::Made(1),
                Source::Given(output),
            ],
            made,
            held,
            scalars,
        );
        assert(held[0] == input1);
        assert(held[1] == input2);
        assert(held[2] == scale);
        assert(held[3] == made[0]);
        assert(held[4] == made[1]);
        assert(held[5] == output);
        lemma_integer(
            scalars,
            made[0],
            overflow_policy,
            crate::construction::enum_seed(overflow_policy),
        );
        lemma_integer(
            scalars,
            made[1],
            rounding_policy,
            crate::construction::enum_seed(rounding_policy),
        );
        crate::kernels::law_kernel_names(
            Kernel::TensorMultiply,
            "org.khronos.openvx.tensor_multiply"@,
        );
        let args = seq![
            KernelArg::Ref(input1),
            KernelArg::Ref(input2),
            KernelArg::Ref(scale),
            KernelArg::Int(overflow_policy),
            KernelArg::Int(rounding_policy),
            KernelArg::Ref(output),
        ];
        assert(
            crate::dispatch::argument_at(
                Kernel::TensorMultiply,
                held,
                scalars,
                0,
            ) == Some(args[0])
        );
        assert(
            crate::dispatch::argument_at(
                Kernel::TensorMultiply,
                held,
                scalars,
                1,
            ) == Some(args[1])
        );
        assert(
            crate::dispatch::argument_at(
                Kernel::TensorMultiply,
                held,
                scalars,
                2,
            ) == Some(args[2])
        );
        assert(
            crate::dispatch::argument_at(
                Kernel::TensorMultiply,
                held,
                scalars,
                3,
            ) == Some(args[3])
        );
        assert(
            crate::dispatch::argument_at(
                Kernel::TensorMultiply,
                held,
                scalars,
                4,
            ) == Some(args[4])
        );
        assert(
            crate::dispatch::argument_at(
                Kernel::TensorMultiply,
                held,
                scalars,
                5,
            ) == Some(args[5])
        );
        lemma_runs(Kernel::TensorMultiply, held, scalars, border, args);
    }
}

/// A node that multiplies matrices: its routine is handed what the node was planned
/// with, which is what it is handed when it runs at once.
pub proof fn law_tensor_matrix_multiply_node(
    graph: u64,
    context: u64,
    input1: u64,
    input2: u64,
    input3: u64,
    matrix_multiply_params: u64,
    output: u64,
    plan: Option<NodePlan>,
    call: Result<ImmediateCall, vx_status>,
    held: Seq<u64>,
    scalars: Map<u64, VxCScalar>,
    border: Option<vx_border_t>,
)
    requires
        call_ensures(
            crate::tensor_nodes::vxTensorMatrixMultiplyNode,
            (graph, input1, input2, input3, matrix_multiply_params, output),
            plan,
        ),
        call_ensures(
            crate::immediate::vxuTensorMatrixMultiply,
            (context, input1, input2, input3, matrix_multiply_params, output),
            call,
        ),
        held.len() == 5,
        plan is Some ==> is_carried_out(plan->0@, Seq::empty(), held, scalars),
    ensures
        plan is Some <==> graph != 0 && input1 != 0 && input2 != 0 && output != 0,
        call is Ok <==> context != 0 && input1 != 0 && input2 != 0 && output != 0,
        call is Err ==> call->Err_0 == VX_ERROR_INVALID_REFERENCE,
        plan is Some ==> {
            let args = seq![
                KernelArg::Ref(input1),
                KernelArg::Ref(input2),
                KernelArg::Ref(input3),
                KernelArg::Ref(matrix_multiply_params),
                KernelArg::Ref(output),
            ];
            &&& held == seq![input1, input2, input3, matrix_multiply_params, output]
            &&& runs_as(
                plan->0@.kernel,
                held,
                scalars,
                border,
                Kernel::TensorMatrixMultiply,
                None,
                BorderArg::Unused,
                args,
            )
        },
        call is Ok ==> hands_over(
            call->Ok_0@,
            Routine::Of(Kernel::TensorMatrixMultiply),
            ContextArg::Nothing,
            BorderArg::Unused,
            seq![
                KernelArg::Ref(input1),
                KernelArg::Ref(input2),
                KernelArg::Ref(input3),
                KernelArg::Ref(matrix_multiply_params),
                KernelArg::Ref(output),
            ],
        ),
{
    if plan is Some {
        lemma_plain(
            "org.khronos.openvx.tensor_matrix_multiply"@,
            seq![input1, input2, input3, matrix_multiply_params, output],
            held,
            scalars,
        );
        assert(held[0] == input1);
        assert(held[1] == input2);
        assert(held[2] == input3);
        assert(held[3] == matrix_multiply_params);
        assert(held[4] == output);
        crate::kernels::law_kernel_names(
            Kernel::TensorMatrixMultiply,
            "org.khronos.openvx.tensor_matrix_multiply"@,
        );
        let args = seq![
            KernelArg::Ref(input1),
            KernelArg::Ref(input2),
            KernelArg::Ref(input3),
            KernelArg::Ref(matrix_multiply_params),
            KernelArg::Ref(output),
        ];
        assert(
            crate::dispatch::argument_at(
                Kernel::TensorMatrixMultiply,
                held,
                scalars,
                0,
            ) == Some(args[0])
        );
        assert(
            crate::dispatch::argument_at(
                Kernel::TensorMatrixMultiply,
                held,
                scalars,
                1,
            ) == Some(args[1])
        );
        assert(
            crate::dispatch::argument_at(
                Kernel::TensorMatrixMultiply,
                held,
                scalars,
                2,
            ) == Some(args[2])
        );
        assert(
            crate::dispatch::argument_at(
                Kernel::TensorMatrixMultiply,
                held,
                scalars,
                3,
            ) == Some(args[3])
        );
        assert(
            crate::dispatch::argument_at(
                Kernel::TensorMatrixMultiply,
                held,
                scalars,
                4,
            ) == Some(args[4])
        );
        lemma_runs(Kernel::TensorMatrixMultiply, held, scalars, border, args);
    }
}

/// A node that looks the elements of a tensor up in a table: its routine is handed what
/// the node was planned with, which is what it is handed when it runs at once.
pub proof fn law_tensor_table_lookup_node(
    graph: u64,
    context: u64,
    input1: u64,
    lut: u64,
    output: u64,
    plan: Option<NodePlan>,
    call: Result<ImmediateCall, vx_status>,
    held: Seq<u64>,
    scalars: Map<u64, VxCScalar>,
    border: Option<vx_border_t>,
)
    requires
        call_ensures(
            crate::tensor_nodes::vxTensorTableLookupNode,
            (graph, input1, lut, output),
            plan,
        ),
        call_ensures(
            crate::immediate::vxuTensorTableLookup,
            (context, input1, lut, output),
            call,
        ),
        held.len() == 3,
        plan is Some ==> is_carried_out(plan->0@, Seq::empty(), held, scalars),
    ensures
        plan is Some <==> graph != 0 && input1 != 0 && lut != 0 && output != 0,
        call is Ok <==> context != 0 && input1 != 0 && lut != 0 && output != 0,
        call is Err ==> call->Err_0 == VX_ERROR_INVALID_REFERENCE,
        plan is Some ==> {
            let args = seq![KernelArg::Ref(input1), KernelArg::Ref(lut), KernelArg::Ref(output)];
            &&& held == seq![input1, lut, output]
            &&& runs_as(
                plan->0@.kernel,
                held,
                scalars,
                border,
                Kernel::TensorTableLookup,
                None,
                BorderArg::Unused,
                args,
            )
        },
        call is Ok ==> hands_over(
            call->Ok_0@,
            Routine::Of(Kernel::TensorTableLookup),
            ContextArg::Nothing,
            BorderArg::Unused,
            seq![KernelArg::Ref(input1), KernelArg::Ref(lut), KernelArg::Ref(output)],
        ),
{
    if plan is Some {
        lemma_plain(
            "org.khronos.openvx.tensor_table_lookup"@,
            seq![input1, lut, output],
            held,
            scalars,
        );
        assert(held[0] == input1);
        assert(held[1] == lut);
        assert(held[2] == output);
        crate::kernels::law_kernel_names(
            Kernel::TensorTableLookup,
            "org.khronos.openvx.tensor_table_lookup"@,
        );
        let args = seq![KernelArg::Ref(input1), KernelArg::Ref(lut), KernelArg::Ref(output)];
        assert(
            crate::dispatch::argument_at(
                Kernel::TensorTableLookup,
                held,
                scalars,
                0,
            ) == Some(args[0])
        );
        assert(
            crate::dispatch::argument_at(
                Kernel::TensorTableLookup,
                held,
                scalars,
                1,
            ) == Some(args[1])
        );
        assert(
            crate::dispatch::argument_at(
                Kernel::TensorTableLookup,
                held,
                scalars,
                2,
            ) == Some(args[2])
        );
        lemma_runs(Kernel::TensorTableLookup, held, scalars, border, args);
    }
}

/// A node that swaps two dimensions of a tensor: its routine is handed what the node
/// was planned with, which is what it is handed when it runs at once; what a scalar
/// carries comes out of it again.
#[verifier::spinoff_prover]
#[verifier::rlimit(100)]
pub proof fn law_tensor_transpose_node(
    graph: u64,
    context: u64,
    input: u64,
    output: u64,
    dimension1: usize,
    dimension2: usize,
    plan: Option<NodePlan>,
    call: Result<ImmediateCall, vx_status>,
    made: Seq<u64>,
    held: Seq<u64>,
    scalars: Map<u64, VxCScalar>,
    border: Option<vx_border_t>,
)
    requires
        call_ensures(
            crate::tensor_nodes::vxTensorTransposeNode,
            (graph, input, output, dimension1, dimension2),
            plan,
        ),
        call_ensures(
            crate::immediate::vxuTensorTranspose,
            (context, input, output, dimension1 as u64, dimension2 as u64),
            call,
        ),
        held.len() == 4,
        plan is Some ==> is_carried_out(plan->0@, made, held, scalars),
        dimension1 < 0x8000_0000,
        dimension2 < 0x8000_0000,
    ensures
        plan is Some <==> graph != 0 && input != 0 && output != 0,
        call is Ok <==> context != 0 && input != 0 && output != 0,
        call is Err ==> call->Err_0 == VX_ERROR_INVALID_REFERENCE,
        plan is Some ==> {
            let args = seq![
                KernelArg::Ref(input),
                KernelArg::Ref(output),
                KernelArg::Size(dimension1 as u64),
                KernelArg::Size(dimension2 as u64),
            ];
            &&& held == seq![input, made[0], made[1], output]
            &&& runs_as(
                plan->0@.kernel,
                held,
                scalars,
                border,
                Kernel::TensorTranspose,
                None,
                BorderArg::Unused,
                args,
            )
        },
        call is Ok ==> hands_over(
            call->Ok_0@,
            Routine::Of(Kernel::TensorTranspose),
            ContextArg::Nothing,
            BorderArg::Unused,
            seq![
                KernelArg::Ref(input),
                KernelArg::Ref(output),
                KernelArg::Size(dimension1 as u64),
                KernelArg::Size(dimension2 as u64),
            ],
        ),
{
    if plan is Some {
        lemma_seeded(
            "org.khronos.openvx.tensor_transpose"@,
            seq![
                crate::construction::size_seed(dimension1),
                crate::construction::size_seed(dimension2),
            ],
            seq![Source::Given(input), Source::Made(0), Source::Made(1), Source::Given(output)],
            made,
            held,
            scalars,
        );
        assert(held[0] == input);
        assert(held[1] == made[0]);
        assert(held[2] == made[1]);
        assert(held[3] == output);
        lemma_small_size(
            scalars,
            made[0],
            dimension1,
            crate::construction::size_seed(dimension1),
        );
        lemma_small_size(
            scalars,
            made[1],
            dimension2,
            crate::construction::size_seed(dimension2),
        );
        crate::kernels::law_kernel_names(
            Kernel::TensorTranspose,
            "org.khronos.openvx.tensor_transpose"@,
        );
        let args = seq![
            KernelArg::Ref(input),
            KernelArg::Ref(output),
            KernelArg::Size(dimension1 as u64),
            KernelArg::Size(dimension2 as u64),
        ];
        assert(
            crate::dispatch::argument_at(
                Kernel::TensorTranspose,
                held,
                scalars,
                0,
            ) == Some(args[0])
        );
        assert(
            crate::dispatch::argument_at(
                Kernel::TensorTranspose,
                held,
                scalars,
                1,
            ) == Some(args[1])
        );
        assert(
            crate::dispatch::argument_at(
                Kernel::TensorTranspose,
                held,
                scalars,
                2,
            ) == Some(args[2])
        );
        assert(
            crate::dispatch::argument_at(
                Kernel::TensorTranspose,
                held,
                scalars,
                3,
            ) == Some(args[3])
        );
        lemma_runs(Kernel::TensorTranspose, held, scalars, border, args);
    }
}

/// A node that converts the elements of a tensor: its routine is handed what the node
/// was planned with, which is what it is handed when it runs at once; what a scalar
/// carries comes out of it again.
#[verifier::rlimit(100)]
pub proof fn law_tensor_convert_depth_node(
    graph: u64,
    context: u64,
    input: u64,
    policy: vx_enum,
    norm: u64,
    offset: u64,
    output: u64,
    plan: Option<NodePlan>,
    call: Result<ImmediateCall, vx_status>,
    made: Seq<u64>,
    held: Seq<u64>,
    scalars: Map<u64, VxCScalar>,
    border: Option<vx_border_t>,
)
    requires
        call_ensures(
            crate::tensor_nodes::vxTensorConvertDepthNode,
            (graph, input, policy, norm, offset, output),
            plan,
        ),
        call_ensures(
            crate::immediate::vxuTensorConvertDepth,
            (context, input, policy, norm, offset, output),
            call,
        ),
        held.len() == 5,
        plan is Some ==> is_carried_out(plan->0@, made, held, scalars),
    ensures
        plan is Some <==> graph != 0 && input != 0 && norm != 0 && offset != 0 && output != 0,
        call is Ok <==> context != 0 && input != 0 && norm != 0 && offset != 0 && output != 0,
        call is Err ==> call->Err_0 == VX_ERROR_INVALID_REFERENCE,
        plan is Some ==> {
            let args = seq![
                KernelArg::Ref(input),
                KernelArg::Int(policy),
                KernelArg::Ref(norm),
                KernelArg::Ref(offset),
                KernelArg::Ref(output),
            ];
            &&& held == seq![input, made[0], norm, offset, output]
            &&& runs_as(
                plan->0@.kernel,
                held,
                scalars,
                border,
                Kernel::TensorConvertDepth,
                None,
                BorderArg::Unused,
                args,
            )
        },
        call is Ok ==> hands_over(
            call->Ok_0@,
            Routine::Of(Kernel::TensorConvertDepth),
            ContextArg::Nothing,
            BorderArg::Unused,
            seq![
                KernelArg::Ref(input),
                KernelArg::Int(policy),
                KernelArg::Ref(norm),
                KernelArg::Ref(offset),
                KernelArg::Ref(output),
            ],
        ),
{
    if plan is Some {
        lemma_seeded(
            "org.khronos.openvx.tensor_convert_depth"@,
            seq![crate::construction::enum_seed(policy)],
            seq![
                Source::Given(input),
                Source::Made(0),
                Source::Given(norm),
                Source::Given(offset),
                Source::Given(output),
            ],
            made,
            held,
            scalars,
        );
        assert(held[0] == input);
        assert(held[1] == made[0]);
        assert(held[2] == norm);
        assert(held[3] == offset);
        assert(held[4] == output);
        lemma_integer(scalars, made[0], policy, crate::construction::enum_seed(policy));
        crate::kernels::law_kernel_names(
            Kernel::TensorConvertDepth,
            "org.khronos.openvx.tensor_convert_depth"@,
        );
        let args = seq![
            KernelArg::Ref(input),
            KernelArg::Int(policy),
            KernelArg::Ref(norm),
            KernelArg::Ref(offset),
            KernelArg::Ref(output),
        ];
        assert(
            crate::dispatch::argument_at(
                Kernel::TensorConvertDepth,
                held,
                scalars,
                0,
            ) == Some(args[0])
        );
        assert(
            crate::dispatch::argument_at(
                Kernel::TensorConvertDepth,
                held,
                scalars,
                1,
            ) == Some(args[1])
        );
        assert(
            crate::dispatch::argument_at(
                Kernel::TensorConvertDepth,
                held,
                scalars,
                2,
            ) == Some(args[2])
        );
        assert(
            crate::dispatch::argument_at(
                Kernel::TensorConvertDepth,
                held,
                scalars,
                3,
            ) == Some(args[3])
        );
        assert(
            crate::dispatch::argument_at(
                Kernel::TensorConvertDepth,
                held,
                scalars,
                4,
            ) == Some(args[4])
        );
        lemma_runs(Kernel::TensorConvertDepth, held, scalars, border, args);
    }
}

proof fn lemma_no_makes(steps: Seq<Step>, n: int)
    requires
        0 <= n <= steps.len(),
        forall|k: int| 0 <= k < n ==> #[trigger] steps[k] !is Make,
    ensures
        made_before(steps, n) == 0,
    decreases n,
{
    if n > 0 {
        lemma_no_makes(steps, n - 1);
    }
}

/// A node that converts between depths: its routine is handed the policy that the
/// node was planned with and the shift that the scalar holds, as it is when it runs
/// at once with that shift.
#[verifier::rlimit(100)]
pub proof fn law_convert_depth_node(
    graph: u64,
    context: u64,
    input: u64,
    output: u64,
    policy: vx_enum,
    shift: u64,
    bits: i32,
    plan: Option<NodePlan>,
    call: Result<ImmediateCall, vx_status>,
    made: Seq<u64>,
    held: Seq<u64>,
    scalars: Map<u64, VxCScalar>,
    border: Option<vx_border_t>,
)
    requires
        call_ensures(
            crate::feature_nodes::vxConvertDepthNode,
            (graph, input, output, policy, shift),
            plan,
        ),
        call_ensures(
            crate::immediate::vxuConvertDepth,
            (context, input, output, policy, bits),
            call,
        ),
        grown_from(
            scalars,
            shift,
            crate::construction::word_seed(VX_TYPE_INT32, crate::scalar::bits32(bits)),
        ),
        held.len() == 4,
        plan is Some ==> is_carried_out(plan->0@, made, held, scalars),
    ensures
        plan is Some <==> graph != 0 && input != 0 && output != 0,
        call is Ok <==> context != 0 && input != 0 && output != 0,
        call is Err ==> call->Err_0 == VX_ERROR_INVALID_REFERENCE,
        plan is Some ==> {
            let args = seq![
                KernelArg::Ref(input),
                KernelArg::Ref(output),
                KernelArg::Int(policy),
                KernelArg::Int(bits),
            ];
            &&& held == seq![input, output, made[0], shift]
            &&& runs_as(
                plan->0@.kernel,
                held,
                scalars,
                border,
                Kernel::ConvertDepth,
                Some(input),
                BorderArg::Unused,
                args,
            )
        },
        call is Ok ==> hands_over(
            call->Ok_0@,
            Routine::Of(Kernel::ConvertDepth),
            ContextArg::Given(context),
            BorderArg::Unused,
            seq![
                KernelArg::Ref(input),
                KernelArg::Ref(output),
                KernelArg::Int(policy),
                KernelArg::Int(bits),
            ],
        ),
{
    if plan is Some {
        let steps = plan->0@.steps;
        reveal_with_fuel(made_before, 5);
        assert(is_done(steps, 1, made, held, scalars));
        assert(is_done(steps, 2, made, held, scalars));
        assert(is_done(steps, 3, made, held, scalars));
        assert(is_done(steps, 5, made, held, scalars));
        assert(is_done(steps, 6, made, held, scalars));
        let seed = crate::construction::word_seed(VX_TYPE_ENUM, crate::scalar::bits32(policy));
        assert(grown_from(scalars, made[0], seed));
        assert(held =~= seq![input, output, made[0], shift]);
        lemma_integer(scalars, made[0], policy, seed);
        lemma_integer(
            scalars,
            shift,
            bits,
            crate::construction::word_seed(VX_TYPE_INT32, crate::scalar::bits32(bits)),
        );
        crate::kernels::law_kernel_names(
            Kernel::ConvertDepth,
            "org.khronos.openvx.convertdepth"@,
        );
        let args = seq![
            KernelArg::Ref(input),
            KernelArg::Ref(output),
            KernelArg::Int(policy),
            KernelArg::Int(bits),
        ];
        assert(
            crate::dispatch::argument_at(Kernel::ConvertDepth, held, scalars, 0) == Some(args[0])
        );
        assert(
            crate::dispatch::argument_at(Kernel::ConvertDepth, held, scalars, 1) == Some(args[1])
        );
        assert(
            crate::dispatch::argument_at(Kernel::ConvertDepth, held, scalars, 2) == Some(args[2])
        );
        assert(
            crate::dispatch::argument_at(Kernel::ConvertDepth, held, scalars, 3) == Some(args[3])
        );
        lemma_runs(Kernel::ConvertDepth, held, scalars, border, args);
    }
}

/// A node that converts between depths is given up where it has no shift.
pub proof fn law_convert_depth_needs_a_shift(
    graph: u64,
    input: u64,
    output: u64,
    policy: vx_enum,
    plan: Option<NodePlan>,
)
    requires
        call_ensures(
            crate::feature_nodes::vxConvertDepthNode,
            (graph, input, output, policy, 0),
            plan,
        ),
        plan is Some,
    ensures
        plan->0@.steps.last() is GiveUp,
{
}

/// A node that smooths an image and halves it: its routine is handed the size of
/// the kernel that the node was planned with, as it is when it runs at once.
#[verifier::rlimit(100)]
pub proof fn law_half_scale_gaussian_node(
    graph: u64,
    context: u64,
    input: u64,
    output: u64,
    kernel_size: u64,
    plan: Option<NodePlan>,
    call: Result<ImmediateCall, vx_status>,
    made: Seq<u64>,
    held: Seq<u64>,
    scalars: Map<u64, VxCScalar>,
    border: Option<vx_border_t>,
)
    requires
        call_ensures(
            crate::feature_nodes::vxHalfScaleGaussianNode,
            (graph, input, output, kernel_size),
            plan,
        ),
        call_ensures(
            crate::immediate::vxuHalfScaleGaussian,
            (context, input, output, kernel_size),
            call,
        ),
        kernel_size < 0x8000_0000,
        held.len() == 3,
        plan is Some ==> is_carried_out(plan->0@, made, held, scalars),
    ensures
        plan is Some <==> graph != 0 && input != 0 && output != 0,
        call is Ok <==> context != 0 && input != 0 && output != 0,
        call is Err ==> call->Err_0 == VX_ERROR_INVALID_REFERENCE,
        plan is Some ==> {
            let args = seq![
                KernelArg::Ref(input),
                KernelArg::Ref(output),
                KernelArg::Size(kernel_size),
            ];
            &&& held == seq![input, output, made[0]]
            &&& runs_as(
                plan->0@.kernel,
                held,
                scalars,
                border,
                Kernel::HalfScaleGaussian,
                Some(input),
                BorderArg::Unused,
                args,
            )
        },
        plan is Some ==> forall|i: int|
            crate::outputs::is_output(plan->0@.kernel, None, i) <==> i == 2,
        call is Ok ==> hands_over(
            call->Ok_0@,
            Routine::Of(Kernel::HalfScaleGaussian),
            ContextArg::Given(context),
            BorderArg::Unused,
            seq![
                KernelArg::Ref(input),
                KernelArg::Ref(output),
                KernelArg::Size(kernel_size),
            ],
        ),
{
    assert forall|i: int|
        crate::outputs::is_output("org.khronos.openvx.halfscale_gaussian"@, None, i) <==> i == 2 by {
        crate::outputs::law_outputs_of_built_in_kernels(None, i);
    }
    if plan is Some {
        let steps = plan->0@.steps;
        reveal_with_fuel(made_before, 5);
        assert(is_done(steps, 1, made, held, scalars));
        assert(is_done(steps, 2, made, held, scalars));
        assert(is_done(steps, 3, made, held, scalars));
        assert(is_done(steps, 5, made, held, scalars));
        let seed = crate::construction::word_seed(VX_TYPE_ENUM, kernel_size as u32);
        assert(grown_from(scalars, made[0], seed));
        assert(held =~= seq![input, output, made[0]]);
        lemma_integer(scalars, made[0], kernel_size as i32, seed);
        assert(crate::dispatch::found_argument(ArgRule::Word(2, 0, 5), held, scalars) == Some(
            KernelArg::Int(kernel_size as i32),
        ));
        crate::kernels::law_kernel_names(
            Kernel::HalfScaleGaussian,
            "org.khronos.openvx.halfscale_gaussian"@,
        );
        let args = seq![
            KernelArg::Ref(input),
            KernelArg::Ref(output),
            KernelArg::Size(kernel_size),
        ];
        assert(
            crate::dispatch::argument_at(
                Kernel::HalfScaleGaussian,
                held,
                scalars,
                0,
            ) == Some(args[0])
        );
        assert(
            crate::dispatch::argument_at(
                Kernel::HalfScaleGaussian,
                held,
                scalars,
                1,
            ) == Some(args[1])
        );
        assert(
            crate::dispatch::argument_at(
                Kernel::HalfScaleGaussian,
                held,
                scalars,
                2,
            ) == Some(args[2])
        );
        lemma_runs(Kernel::HalfScaleGaussian, held, scalars, border, args);
    }
}

/// A node that finds FAST corners and is made whether or not its parameters can be
/// set: its routine is handed what the node was planned with, a number other than
/// zero as one; when it runs at once, the number goes over as it is.
#[verifier::spinoff_prover]
#[verifier::rlimit(100)]
pub proof fn law_fast_corners_node(
    graph: u64,
    context: u64,
    input: u64,
    strength_thresh: u64,
    nonmax_suppression: i32,
    corners: u64,
    num_corners: u64,
    plan: Option<NodePlan>,
    call: Result<ImmediateCall, vx_status>,
    other: Result<ImmediateCall, vx_status>,
    made: Seq<u64>,
    held: Seq<u64>,
    scalars: Map<u64, VxCScalar>,
    border: Option<vx_border_t>,
)
    requires
        call_ensures(
            crate::feature_nodes::vxFastCornersNode,
            (graph, input, strength_thresh, nonmax_suppression, corners, num_corners),
            plan,
        ),
        call_ensures(
            crate::immediate::vxuFastCorners,
            (context, input, strength_thresh, nonmax_suppression, corners, num_corners),
            call,
        ),
        call_ensures(
            crate::immediate::vxuFASTCorners,
            (context, input, strength_thresh, nonmax_suppression, corners, num_corners),
            other,
        ),
        held.len() == 5,
        plan is Some ==> is_carried_out(plan->0@, made, held, scalars),
    ensures
        plan is Some <==> graph != 0 && input != 0,
        call is Ok,
        other is Ok,
        plan is Some ==> held == seq![input, strength_thresh, made[0], corners, num_corners],
        plan is Some && corners != 0 ==> runs_as(
            plan->0@.kernel,
            held,
            scalars,
            border,
            Kernel::FastCorners,
            Some(input),
            BorderArg::Unused,
            seq![
                KernelArg::Ref(input),
                KernelArg::Ref(strength_thresh),
                KernelArg::Int(
                    if nonmax_suppression != 0 {
                        1i32
                    } else {
                        0i32
                    },
                ),
                KernelArg::Ref(corners),
                KernelArg::Ref(num_corners),
            ],
        ),
        plan is Some ==> forall|i: int|
            crate::outputs::is_output(plan->0@.kernel, None, i) <==> 3 <= i <= 4,
        hands_over(
            call->Ok_0@,
            Routine::Of(Kernel::FastCorners),
            ContextArg::Given(context),
            BorderArg::Unused,
            seq![
                KernelArg::Ref(input),
                KernelArg::Ref(strength_thresh),
                KernelArg::Int(nonmax_suppression),
                KernelArg::Ref(corners),
                KernelArg::Ref(num_corners),
            ],
        ),
        hands_over(
            other->Ok_0@,
            Routine::Of(Kernel::FastCorners),
            ContextArg::Given(context),
            BorderArg::Unused,
            seq![
                KernelArg::Ref(input),
                KernelArg::Ref(strength_thresh),
                KernelArg::Int(nonmax_suppression),
                KernelArg::Ref(corners),
                KernelArg::Ref(num_corners),
            ],
        ),
{
    assert forall|i: int|
        crate::outputs::is_output("org.khronos.openvx.fast_corners"@, None, i) <==> 3 <= i <= 4 by {
        crate::outputs::law_outputs_of_built_in_kernels(None, i);
    }
    if plan is Some {
        let steps = plan->0@.steps;
        let flag: i32 = if nonmax_suppression != 0 {
            1
        } else {
            0
        };
        reveal_with_fuel(made_before, 5);
        assert(is_done(steps, 1, made, held, scalars));
        assert(is_done(steps, 2, made, held, scalars));
        assert(is_done(steps, 3, made, held, scalars));
        assert(is_done(steps, 4, made, held, scalars));
        let seed = crate::construction::word_seed(VX_TYPE_BOOL, flag as u32);
        assert(grown_from(scalars, made[0], seed));
        if corners != 0 {
            assert(steps[6] == Step::Try(3, Source::Given(corners)));
            assert(is_done(steps, 6, made, held, scalars));
            if num_corners != 0 {
                assert(steps[7] == Step::Try(4, Source::Given(num_corners)));
                assert(is_done(steps, 7, made, held, scalars));
            }
        } else if num_corners != 0 {
            assert(steps[6] == Step::Try(4, Source::Given(num_corners)));
            assert(is_done(steps, 6, made, held, scalars));
        }
        assert(held[3] == corners);
        assert(held[4] == num_corners);
        assert(held =~= seq![input, strength_thresh, made[0], corners, num_corners]);
        if corners != 0 {
            lemma_integer(scalars, made[0], flag, seed);
            crate::kernels::law_kernel_names(
                Kernel::FastCorners,
                "org.khronos.openvx.fast_corners"@,
            );
            let args = seq![
                KernelArg::Ref(input),
                KernelArg::Ref(strength_thresh),
                KernelArg::Int(flag),
                KernelArg::Ref(corners),
                KernelArg::Ref(num_corners),
            ];
            assert(
                crate::dispatch::argument_at(Kernel::FastCorners, held, scalars, 0) == Some(args[0])
            );
            assert(
                crate::dispatch::argument_at(Kernel::FastCorners, held, scalars, 1) == Some(args[1])
            );
            assert(
                crate::dispatch::argument_at(Kernel::FastCorners, held, scalars, 2) == Some(args[2])
            );
            assert(
                crate::dispatch::argument_at(Kernel::FastCorners, held, scalars, 3) == Some(args[3])
            );
            assert(
                crate::dispatch::argument_at(Kernel::FastCorners, held, scalars, 4) == Some(args[4])
            );
            lemma_runs(Kernel::FastCorners, held, scalars, border, args);
        }
    }
}

/// A node that finds FAST corners with a threshold and a count: its routine is
/// handed what the node was planned with.  Without a threshold the parameters after
/// it move up.
#[verifier::spinoff_prover]
#[verifier::rlimit(100)]
pub proof fn law_compact_fast_corners_node(
    graph: u64,
    input: u64,
    strength_thresh: u64,
    nonmax_suppression: i32,
    corners: u64,
    num_corners: u64,
    plan: Option<NodePlan>,
    made: Seq<u64>,
    held: Seq<u64>,
    scalars: Map<u64, VxCScalar>,
    border: Option<vx_border_t>,
)
    requires
        call_ensures(
            crate::feature_nodes::vxFASTCornersNode,
            (graph, input, strength_thresh, nonmax_suppression, corners, num_corners),
            plan,
        ),
        held.len() == 5,
        plan is Some ==> is_carried_out(plan->0@, made, held, scalars),
    ensures
        plan is Some <==> graph != 0 && input != 0 && corners != 0,
        plan is Some && strength_thresh != 0 && num_corners != 0 ==> held == seq![
            input,
            strength_thresh,
            made[0],
            corners,
            num_corners,
        ] && runs_as(
            plan->0@.kernel,
            held,
            scalars,
            border,
            Kernel::FastCorners,
            Some(input),
            BorderArg::Unused,
            seq![
                KernelArg::Ref(input),
                KernelArg::Ref(strength_thresh),
                KernelArg::Int(nonmax_suppression),
                KernelArg::Ref(corners),
                KernelArg::Ref(num_corners),
            ],
        ),
        plan is Some && strength_thresh == 0 && num_corners != 0 ==> held.take(4) == seq![
            input,
            made[0],
            corners,
            num_corners,
        ],
        plan is Some && strength_thresh != 0 && num_corners == 0 ==> held.take(4) == seq![
            input,
            strength_thresh,
            made[0],
            corners,
        ],
        plan is Some && strength_thresh == 0 && num_corners == 0 ==> held.take(3) == seq![
            input,
            made[0],
            corners,
        ],
{
    if plan is Some {
        let seed = crate::construction::word_seed(
            VX_TYPE_BOOL,
            crate::scalar::bits32(nonmax_suppression),
        );
        let slots = seq![Source::Given(input)] + crate::feature_nodes::slot_if_there(
            strength_thresh,
        ) + seq![Source::Made(0), Source::Given(corners)] + crate::feature_nodes::slot_if_there(
            num_corners,
        );
        lemma_seeded("org.khronos.openvx.fast_corners"@, seq![seed], slots, made, held, scalars);
        assert(grown_from(scalars, made[0], seed));
        assert(held[0] == crate::construction::slot_value(made, slots[0]));
        assert(held[1] == crate::construction::slot_value(made, slots[1]));
        assert(held[2] == crate::construction::slot_value(made, slots[2]));
        if strength_thresh != 0 || num_corners != 0 {
            assert(held[3] == crate::construction::slot_value(made, slots[3]));
        }
        if strength_thresh == 0 && num_corners == 0 {
            assert(held.take(3) =~= seq![input, made[0], corners]);
        } else if strength_thresh == 0 {
            assert(held.take(4) =~= seq![input, made[0], corners, num_corners]);
        } else if num_corners == 0 {
            assert(held.take(4) =~= seq![input, strength_thresh, made[0], corners]);
        } else {
            assert(held[4] == crate::construction::slot_value(made, slots[4]));
            assert(held =~= seq![input, strength_thresh, made[0], corners, num_corners]);
            lemma_integer(scalars, made[0], nonmax_suppression, seed);
            crate::kernels::law_kernel_names(
                Kernel::FastCorners,
                "org.khronos.openvx.fast_corners"@,
            );
            let args = seq![
                KernelArg::Ref(input),
                KernelArg::Ref(strength_thresh),
                KernelArg::Int(nonmax_suppression),
                KernelArg::Ref(corners),
                KernelArg::Ref(num_corners),
            ];
            assert(
                crate::dispatch::argument_at(Kernel::FastCorners, held, scalars, 0) == Some(args[0])
            );
            assert(
                crate::dispatch::argument_at(Kernel::FastCorners, held, scalars, 1) == Some(args[1])
            );
            assert(
                crate::dispatch::argument_at(Kernel::FastCorners, held, scalars, 2) == Some(args[2])
            );
            assert(
                crate::dispatch::argument_at(Kernel::FastCorners, held, scalars, 3) == Some(args[3])
            );
            assert(
                crate::dispatch::argument_at(Kernel::FastCorners, held, scalars, 4) == Some(args[4])
            );
            lemma_runs(Kernel::FastCorners, held, scalars, border, args);
        }
    }
}

/// A node that finds corners by their smallest eigenvalue holds what it was planned
/// with, in the order of its parameters, and the size of its blocks in a scalar.
#[verifier::rlimit(100)]
pub proof fn law_corner_min_eigen_val_node(
    graph: u64,
    input: u64,
    min_distance: u64,
    sensitivity: u64,
    block_size: vx_enum,
    k: u64,
    corners: u64,
    num_corners: u64,
    plan: Option<NodePlan>,
    made: Seq<u64>,
    held: Seq<u64>,
    scalars: Map<u64, VxCScalar>,
)
    requires
        call_ensures(
            crate::feature_nodes::vxCornerMinEigenValNode,
            (graph, input, min_distance, sensitivity, block_size, k, corners, num_corners),
            plan,
        ),
        held.len() == 7,
        plan is Some ==> is_carried_out(plan->0@, made, held, scalars),
    ensures
        plan is Some <==> graph != 0 && input != 0 && corners != 0,
        plan is Some ==> crate::dispatch::scalar_enum(scalars, made[0]) == Some(block_size),
        plan is Some && min_distance != 0 && sensitivity != 0 && k != 0 && num_corners != 0
            ==> held == seq![
            input,
            min_distance,
            sensitivity,
            made[0],
            k,
            corners,
            num_corners,
        ],
        plan is Some && min_distance == 0 && sensitivity == 0 && k == 0 && num_corners == 0
            ==> held.take(3) == seq![input, made[0], corners],
{
    if plan is Some {
        let seed = crate::construction::enum_seed(block_size);
        let slots = seq![Source::Given(input)] + crate::feature_nodes::slot_if_there(min_distance)
            + crate::feature_nodes::slot_if_there(sensitivity) + seq![Source::Made(0)]
            + crate::feature_nodes::slot_if_there(k) + seq![Source::Given(corners)]
            + crate::feature_nodes::slot_if_there(num_corners);
        lemma_seeded(
            "org.khronos.openvx.corner_min_eigen_val"@,
            seq![seed],
            slots,
            made,
            held,
            scalars,
        );
        assert(grown_from(scalars, made[0], seed));
        lemma_integer(scalars, made[0], block_size, seed);
        assert(crate::dispatch::found_argument(
            ArgRule::Enum(0, 0),
            seq![made[0]],
            scalars,
        ) == Some(KernelArg::Int(block_size)));
        assert(crate::dispatch::found_argument(
            ArgRule::Enum(0, 1),
            seq![made[0]],
            scalars,
        ) == Some(KernelArg::Int(block_size)));
        assert(held[0] == crate::construction::slot_value(made, slots[0]));
        assert(held[1] == crate::construction::slot_value(made, slots[1]));
        assert(held[2] == crate::construction::slot_value(made, slots[2]));
        if min_distance != 0 && sensitivity != 0 && k != 0 && num_corners != 0 {
            assert(held[3] == crate::construction::slot_value(made, slots[3]));
            assert(held[4] == crate::construction::slot_value(made, slots[4]));
            assert(held[5] == crate::construction::slot_value(made, slots[5]));
            assert(held[6] == crate::construction::slot_value(made, slots[6]));
            assert(held =~= seq![
                input,
                min_distance,
                sensitivity,
                made[0],
                k,
                corners,
                num_corners,
            ]);
        }
        if min_distance == 0 && sensitivity == 0 && k == 0 && num_corners == 0 {
            assert(held.take(3) =~= seq![input, made[0], corners]);
        }
    }
}

/// A node that finds lines: its routine is handed scalars that hold the parameters
/// of the search in their order, and so it is when it runs at once.
#[verifier::spinoff_prover]
#[verifier::rlimit(100)]
pub proof fn law_hough_lines_p_node(
    graph: u64,
    context: u64,
    input: u64,
    given: Option<HoughLines>,
    params: HoughLines,
    lines_array: u64,
    num_lines: u64,
    plan: Option<NodePlan>,
    call: ImmediateCall,
    made: Seq<u64>,
    held: Seq<u64>,
    scalars: Map<u64, VxCScalar>,
    border: Option<vx_border_t>,
)
    requires
        call_ensures(
            crate::feature_nodes::vxHoughLinesPNode,
            (graph, input, given, lines_array, num_lines),
            plan,
        ),
        call_ensures(
            crate::immediate::vxuHoughLinesP,
            (context, input, params, lines_array, num_lines),
            call,
        ),
        given is Some ==> given == Some(params),
        held.len() == 7,
        plan is Some ==> is_carried_out(plan->0@, made, held, scalars),
    ensures
        plan is Some <==> graph != 0 && input != 0 && given is Some && lines_array != 0
            && num_lines != 0,
        plan is Some ==> {
            &&& held == seq![input, made[0], made[1], made[2], made[3], made[4], lines_array]
            &&& runs_as(
                plan->0@.kernel,
                held,
                scalars,
                border,
                Kernel::HoughLinesP,
                Some(input),
                BorderArg::Unused,
                seq![
                    KernelArg::Ref(input),
                    KernelArg::Ref(made[0]),
                    KernelArg::Ref(made[1]),
                    KernelArg::Ref(made[2]),
                    KernelArg::Ref(made[3]),
                    KernelArg::Ref(made[4]),
                    KernelArg::Ref(lines_array),
                ],
            )
            &&& forall|k: int|
                0 <= k < 5 ==> grown_from(scalars, #[trigger] made[k], call@.seeds[k])
        },
        call@.routine == Routine::Of(Kernel::HoughLinesP),
        call@.context == ContextArg::Of(input),
        call@.border == BorderArg::Unused,
        call@.results.len() == 0,
        call@.seeds.len() == 5,
        call@.seeds[0].bits == params.rho && call@.seeds[0].data_type == VX_TYPE_FLOAT32,
        call@.seeds[1].bits == params.theta && call@.seeds[1].data_type == VX_TYPE_FLOAT32,
        call@.seeds[2].bits == params.threshold && call@.seeds[2].data_type == VX_TYPE_UINT32,
        call@.seeds[3].bits == params.line_length && call@.seeds[3].data_type == VX_TYPE_UINT32,
        call@.seeds[4].bits == params.line_gap && call@.seeds[4].data_type == VX_TYPE_UINT32,
        call@.args == seq![
            CallArg::Plain(KernelArg::Ref(input)),
            CallArg::Made(0),
            CallArg::Made(1),
            CallArg::Made(2),
            CallArg::Made(3),
            CallArg::Made(4),
            CallArg::Plain(KernelArg::Ref(lines_array)),
        ],
{
    if plan is Some {
        let slots = seq![
            Source::Given(input),
            Source::Made(0),
            Source::Made(1),
            Source::Made(2),
            Source::Made(3),
            Source::Made(4),
            Source::Given(lines_array),
        ];
        let seeds = crate::feature_nodes::hough_seeds(params);
        lemma_seeded(
            "org.khronos.openvx.hough_lines_p"@,
            seeds,
            slots,
            made,
            held,
            scalars,
        );
        assert(held[0] == input);
        assert(held[1] == made[0]);
        assert(held[2] == made[1]);
        assert(held[3] == made[2]);
        assert(held[4] == made[3]);
        assert(held[5] == made[4]);
        assert(held[6] == lines_array);
        crate::kernels::law_kernel_names(
            Kernel::HoughLinesP,
            "org.khronos.openvx.hough_lines_p"@,
        );
        let args = seq![
            KernelArg::Ref(input),
            KernelArg::Ref(made[0]),
            KernelArg::Ref(made[1]),
            KernelArg::Ref(made[2]),
            KernelArg::Ref(made[3]),
            KernelArg::Ref(made[4]),
            KernelArg::Ref(lines_array),
        ];
        assert(crate::dispatch::argument_at(Kernel::HoughLinesP, held, scalars, 0) == Some(args[0]));
        assert(crate::dispatch::argument_at(Kernel::HoughLinesP, held, scalars, 1) == Some(args[1]));
        assert(crate::dispatch::argument_at(Kernel::HoughLinesP, held, scalars, 2) == Some(args[2]));
        assert(crate::dispatch::argument_at(Kernel::HoughLinesP, held, scalars, 3) == Some(args[3]));
        assert(crate::dispatch::argument_at(Kernel::HoughLinesP, held, scalars, 4) == Some(args[4]));
        assert(crate::dispatch::argument_at(Kernel::HoughLinesP, held, scalars, 5) == Some(args[5]));
        assert(crate::dispatch::argument_at(Kernel::HoughLinesP, held, scalars, 6) == Some(args[6]));
        lemma_runs(Kernel::HoughLinesP, held, scalars, border, args);
    }
}

/// A node that finds Harris corners: its routine is handed the sizes that the node
/// was planned with and its references, those that were missing as null, as it is
/// when it runs at once.
#[verifier::spinoff_prover]
#[verifier::rlimit(100)]
pub proof fn law_harris_corners_node(
    graph: u64,
    context: u64,
    input: u64,
    strength_thresh: u64,
    min_distance: u64,
    sensitivity: u64,
    gradient_size: i32,
    block_size: i32,
    corners: u64,
    num_corners: u64,
    plan: Option<NodePlan>,
    call: Result<ImmediateCall, vx_status>,
    made: Seq<u64>,
    held: Seq<u64>,
    scalars: Map<u64, VxCScalar>,
    border: Option<vx_border_t>,
)
    requires
        call_ensures(
            crate::feature_nodes::vxHarrisCornersNode,
            (
                graph,
                input,
                strength_thresh,
                min_distance,
                sensitivity,
                gradient_size,
                block_size,
                corners,
                num_corners,
            ),
            plan,
        ),
        call_ensures(
            crate::immediate::vxuHarrisCorners,
            (
                context,
                input,
                strength_thresh,
                min_distance,
                sensitivity,
                gradient_size,
                block_size,
                corners,
                num_corners,
            ),
            call,
        ),
        held.len() == 8,
        plan is Some ==> is_carried_out(plan->0@, made, held, scalars),
    ensures
        plan is Some <==> graph != 0 && input != 0 && corners != 0,
        call is Ok,
        plan is Some ==> {
            &&& held == seq![
                input,
                strength_thresh,
                min_distance,
                sensitivity,
                made[0],
                made[1],
                corners,
                num_corners,
            ]
            &&& runs_as(
                plan->0@.kernel,
                held,
                scalars,
                border,
                Kernel::HarrisCorners,
                Some(input),
                BorderArg::Unused,
                seq![
                    KernelArg::Ref(input),
                    KernelArg::Ref(strength_thresh),
                    KernelArg::Ref(min_distance),
                    KernelArg::Ref(sensitivity),
                    KernelArg::Int(gradient_size),
                    KernelArg::Int(block_size),
                    KernelArg::Ref(corners),
                    KernelArg::Ref(num_corners),
                ],
            )
        },
        plan is Some ==> forall|i: int|
            crate::outputs::is_output(plan->0@.kernel, None, i) <==> 6 <= i <= 7,
        hands_over(
            call->Ok_0@,
            Routine::Of(Kernel::HarrisCorners),
            ContextArg::Given(context),
            BorderArg::Unused,
            seq![
                KernelArg::Ref(input),
                KernelArg::Ref(strength_thresh),
                KernelArg::Ref(min_distance),
                KernelArg::Ref(sensitivity),
                KernelArg::Int(gradient_size),
                KernelArg::Int(block_size),
                KernelArg::Ref(corners),
                KernelArg::Ref(num_corners),
            ],
        ),
{
    assert forall|i: int|
        crate::outputs::is_output("org.khronos.openvx.harris_corners"@, None, i) <==> 6 <= i <= 7 by {
        crate::outputs::law_outputs_of_built_in_kernels(None, i);
    }
    if plan is Some {
        let steps = plan->0@.steps;
        let refs = seq![input, strength_thresh, min_distance, sensitivity];
        let sets = crate::construction::present(refs, 1);
        let base = (1 + sets.len()) as int;
        let first = crate::construction::word_seed(
            VX_TYPE_ENUM,
            crate::scalar::bits32(gradient_size),
        );
        let second = crate::construction::word_seed(
            VX_TYPE_ENUM,
            crate::scalar::bits32(block_size),
        );
        lemma_present(refs, 1);
        assert forall|k: int| 0 <= k < sets.len() implies #[trigger] steps[k + 1] == sets[k] by {}
        assert forall|k: int| 0 <= k < base implies #[trigger] steps[k] !is Make by {
            if k > 0 {
                assert(steps[(k - 1) + 1] == sets[k - 1]);
            }
        }
        lemma_no_makes(steps, base);
        assert(steps[base] == Step::Make(first));
        assert(steps[base + 1] == Step::Gate(1));
        assert(steps[base + 2] == Step::Fill(4, Source::Made(0)));
        assert(steps[base + 3] == Step::Drop(0));
        assert(steps[base + 4] == Step::Make(second));
        assert(steps[base + 6] == Step::Fill(5, Source::Made(1)));
        assert(steps[base + 8] == Step::Fill(6, Source::Given(corners)));
        assert(made_before(steps, base + 1) == 1);
        assert(made_before(steps, base + 2) == 1);
        assert(made_before(steps, base + 3) == 1);
        assert(made_before(steps, base + 4) == 1);
        assert(is_done(steps, base, made, held, scalars));
        assert(is_done(steps, base + 2, made, held, scalars));
        assert(is_done(steps, base + 4, made, held, scalars));
        assert(is_done(steps, base + 6, made, held, scalars));
        assert(is_done(steps, base + 8, made, held, scalars));
        assert(grown_from(scalars, made[0], first));
        assert(grown_from(scalars, made[1], second));
        assert forall|i: int| 0 <= i < 4 implies #[trigger] held[i] == refs[i] by {
            if i < 1 || refs[i] != 0 {
                let k = choose|k: int|
                    0 <= k < sets.len() && #[trigger] sets[k] == Step::Fill(
                        i as u32,
                        Source::Given(refs[i]),
                    );
                assert(steps[k + 1] == sets[k]);
                assert(is_done(steps, k + 1, made, held, scalars));
            } else if held[i] != 0 {
                let k = choose|k: int|
                    0 <= k < steps.len() && set_by(#[trigger] steps[k]) == Some(i as u32);
                if 0 < k < base {
                    assert(steps[(k - 1) + 1] == sets[k - 1]);
                }
            }
        }
        if num_corners != 0 {
            assert(steps[base + 9] == Step::Fill(7, Source::Given(num_corners)));
            assert(is_done(steps, base + 9, made, held, scalars));
        } else if held[7] != 0 {
            let k = choose|k: int|
                0 <= k < steps.len() && set_by(#[trigger] steps[k]) == Some(7u32);
            if 0 < k < base {
                assert(steps[(k - 1) + 1] == sets[k - 1]);
            }
        }
        assert(held[0] == input && held[1] == strength_thresh);
        assert(held[2] == min_distance && held[3] == sensitivity);
        assert(held =~= seq![
            input,
            strength_thresh,
            min_distance,
            sensitivity,
            made[0],
            made[1],
            corners,
            num_corners,
        ]);
        lemma_integer(scalars, made[0], gradient_size, first);
        lemma_integer(scalars, made[1], block_size, second);
        crate::kernels::law_kernel_names(
            Kernel::HarrisCorners,
            "org.khronos.openvx.harris_corners"@,
        );
        let args = seq![
            KernelArg::Ref(input),
            KernelArg::Ref(strength_thresh),
            KernelArg::Ref(min_distance),
            KernelArg::Ref(sensitivity),
            KernelArg::Int(gradient_size),
            KernelArg::Int(block_size),
            KernelArg::Ref(corners),
            KernelArg::Ref(num_corners),
        ];
        assert(
            crate::dispatch::argument_at(Kernel::HarrisCorners, held, scalars, 0) == Some(args[0])
        );
        assert(
            crate::dispatch::argument_at(Kernel::HarrisCorners, held, scalars, 1) == Some(args[1])
        );
        assert(
            crate::dispatch::argument_at(Kernel::HarrisCorners, held, scalars, 2) == Some(args[2])
        );
        assert(
            crate::dispatch::argument_at(Kernel::HarrisCorners, held, scalars, 3) == Some(args[3])
        );
        assert(
            crate::dispatch::argument_at(Kernel::HarrisCorners, held, scalars, 4) == Some(args[4])
        );
        assert(
            crate::dispatch::argument_at(Kernel::HarrisCorners, held, scalars, 5) == Some(args[5])
        );
        assert(
            crate::dispatch::argument_at(Kernel::HarrisCorners, held, scalars, 6) == Some(args[6])
        );
        assert(
            crate::dispatch::argument_at(Kernel::HarrisCorners, held, scalars, 7) == Some(args[7])
        );
        lemma_runs(Kernel::HarrisCorners, held, scalars, border, args);
    }
}

proof fn lemma_patched(scalars: Map<u64, VxCScalar>, handle: u64, bits: u32, seed: Seed)
    requires
        grown_from(scalars, handle, seed),
        seed.size == 4,
        seed.bits == bits,
    ensures
        forall|base: u32|
            #[trigger] crate::dispatch::patched32(
                base,
                crate::dispatch::scalar_bytes(scalars, handle),
            ) == bits,
{
    reveal(seed_bytes);
    let bytes = crate::scalar::bytes4(bits);
    crate::scalar::law_bytes_round_trip(bits);
    assert(crate::dispatch::scalar_bytes(scalars, handle) == Some(bytes));
    assert forall|base: u32| #[trigger]
        crate::dispatch::patched32(base, crate::dispatch::scalar_bytes(scalars, handle)) == bits by {
        assert(crate::scalar::overlaid(crate::scalar::bytes4(base), bytes) =~= bytes);
    }
}

proof fn lemma_wide(scalars: Map<u64, VxCScalar>, handle: u64, bits: u64, seed: Seed)
    requires
        grown_from(scalars, handle, seed),
        seed.size == 8,
        seed.bits == bits,
    ensures
        forall|base: u64|
            #[trigger] crate::dispatch::patched64(
                base,
                crate::dispatch::scalar_bytes(scalars, handle),
            ) == bits,
{
    reveal(seed_bytes);
    let bytes = crate::scalar::bytes8(bits);
    crate::scalar::law_long_bytes_round_trip(bits);
    assert(crate::dispatch::scalar_bytes(scalars, handle) == Some(bytes));
    assert forall|base: u64| #[trigger]
        crate::dispatch::patched64(base, crate::dispatch::scalar_bytes(scalars, handle)) == bits by {
        assert(crate::scalar::overlaid(crate::scalar::bytes8(base), bytes) =~= bytes);
    }
}

/// Whether a parameter of the search holds a number: the one that its scalar holds,
/// or the default where none was given.
pub open spec fn searches_with(
    scalars: Map<u64, VxCScalar>,
    scalar: u64,
    default: u32,
    number: u32,
) -> bool {
    if scalar == 0 {
        number == default
    } else {
        grown_from(
            scalars,
            scalar,
            crate::construction::word_seed(VX_TYPE_UINT32, number),
        )
    }
}

/// A node that follows points from one image to the next: its routine is handed the
/// accuracy, the rounds, the first guess and the window that the node was planned
/// with, each by default where it is missing.
#[verifier::spinoff_prover]
#[verifier::rlimit(100)]
pub proof fn law_optical_flow_node(
    graph: u64,
    old_images: u64,
    new_images: u64,
    old_points: u64,
    estimates: u64,
    new_points: u64,
    termination: vx_enum,
    epsilon: u64,
    iterations: u64,
    initial: u64,
    window: usize,
    accuracy: u32,
    rounds: u32,
    guess: u32,
    plan: Option<NodePlan>,
    made: Seq<u64>,
    held: Seq<u64>,
    scalars: Map<u64, VxCScalar>,
    border: Option<vx_border_t>,
)
    requires
        call_ensures(
            crate::feature_nodes::vxOpticalFlowPyrLKNode,
            (
                graph,
                old_images,
                new_images,
                old_points,
                estimates,
                new_points,
                termination,
                epsilon,
                iterations,
                initial,
                window,
            ),
            plan,
        ),
        searches_with(scalars, epsilon, 0x3A83126F, accuracy),
        searches_with(scalars, iterations, 10, rounds),
        searches_with(scalars, initial, 0, guess),
        held.len() == 10,
        plan is Some ==> is_carried_out(plan->0@, made, held, scalars),
    ensures
        plan is Some <==> graph != 0 && old_images != 0 && new_images != 0 && old_points != 0
            && new_points != 0,
        plan is Some ==> {
            &&& held.take(6) == seq![
                old_images,
                new_images,
                old_points,
                estimates,
                new_points,
                made[0],
            ]
            &&& crate::dispatch::patched32(
                0,
                crate::dispatch::scalar_bytes(scalars, made[0]),
            ) == crate::scalar::bits32(termination)
            &&& epsilon != 0 ==> held[6] == epsilon
            &&& iterations != 0 ==> held[7] == iterations
            &&& initial != 0 ==> held[8] == initial
            &&& runs_as(
                plan->0@.kernel,
                held,
                scalars,
                border,
                Kernel::OpticalFlowPyrLK,
                None,
                BorderArg::Unused,
                seq![
                    KernelArg::Ref(old_images),
                    KernelArg::Ref(new_images),
                    KernelArg::Ref(old_points),
                    KernelArg::Ref(estimates),
                    KernelArg::Ref(new_points),
                    KernelArg::Bits(accuracy),
                    KernelArg::Size(rounds as u64),
                    KernelArg::Flag(guess != 0),
                    KernelArg::Size(
                        if window == 0 {
                            9u64
                        } else {
                            window as u64
                        },
                    ),
                ],
            )
        },
        plan is Some ==> forall|i: int|
            crate::outputs::is_output(plan->0@.kernel, None, i) <==> i == 4,
{
    assert forall|i: int|
        crate::outputs::is_output("org.khronos.openvx.optical_flow_pyr_lk"@, None, i) <==> i
            == 4 by {
        crate::outputs::law_outputs_of_built_in_kernels(None, i);
    }
    if plan is Some {
        let steps = plan->0@.steps;
        let size: usize = if window == 0 {
            9
        } else {
            window
        };
        let seeds = crate::feature_nodes::flow_seeds(epsilon, iterations, initial, window);
        let b = 1 + crate::feature_nodes::count_missing(epsilon);
        let c = b + crate::feature_nodes::count_missing(iterations);
        let d = c + crate::feature_nodes::count_missing(initial);
        assert(seeds.len() == d);
        let start = crate::construction::enum_seed(termination);
        assert(steps[0] == Step::Make(start));
        assert(steps[1] == Step::Gate(1));
        assert forall|k: int| 0 <= k < seeds.len() implies #[trigger] steps[k + 2] == Step::Make(
            seeds[k],
        ) by {}
        reveal_with_fuel(made_before, 7);
        assert(made_before(steps, 2) == 1);
        assert(is_done(steps, 0, made, held, scalars));
        assert(grown_from(scalars, made[0], start));
        assert forall|k: int| 0 <= k < seeds.len() implies 1 + k < made.len() && grown_from(
            scalars,
            #[trigger] made[1 + k],
            seeds[k],
        ) by {
            assert(steps[0int + 2] == Step::Make(seeds[0]));
            if seeds.len() > 1 {
                assert(steps[1int + 2] == Step::Make(seeds[1]));
            }
            if seeds.len() > 2 {
                assert(steps[2int + 2] == Step::Make(seeds[2]));
            }
            if seeds.len() > 3 {
                assert(steps[3int + 2] == Step::Make(seeds[3]));
            }
            assert(made_before(steps, k + 2) == 1 + k);
            assert(is_done(steps, k + 2, made, held, scalars));
        }
        let slots = crate::construction::given(
            seq![old_images, new_images, old_points, estimates, new_points],
        ) + seq![
            Source::Made(0),
            crate::feature_nodes::given_or_made(epsilon, 1),
            crate::feature_nodes::given_or_made(iterations, b),
            crate::feature_nodes::given_or_made(initial, c),
            Source::Made(d as usize),
        ];
        assert forall|i: int| 0 <= i < 10 implies #[trigger] held[i]
            == crate::construction::slot_value(made, slots[i]) by {
            let k = seeds.len() + 3 + i;
            assert(steps[k] == Step::Fill(i as u32, slots[i]));
            assert(is_done(steps, k, made, held, scalars));
        }
        assert(held.take(6) =~= seq![
            old_images,
            new_images,
            old_points,
            estimates,
            new_points,
            made[0],
        ]);
        lemma_patched(scalars, made[0], crate::scalar::bits32(termination), start);
        let e = held[6];
        let n = held[7];
        let u = held[8];
        let w = held[9];
        if epsilon == 0 {
            assert(seeds[0].bits == accuracy);
            assert(made[1int + 0] == e);
            lemma_patched(scalars, e, accuracy, seeds[0]);
        } else {
            lemma_patched(
                scalars,
                e,
                accuracy,
                crate::construction::word_seed(VX_TYPE_UINT32, accuracy),
            );
        }
        if iterations == 0 {
            assert(seeds[b - 1].bits == rounds);
            assert(made[1 + (b - 1)] == n);
            lemma_patched(scalars, n, rounds, seeds[b - 1]);
        } else {
            lemma_patched(
                scalars,
                n,
                rounds,
                crate::construction::word_seed(VX_TYPE_UINT32, rounds),
            );
        }
        if initial == 0 {
            assert(seeds[c - 1].bits == guess);
            assert(made[1 + (c - 1)] == u);
            lemma_patched(scalars, u, guess, seeds[c - 1]);
        } else {
            lemma_patched(
                scalars,
                u,
                guess,
                crate::construction::word_seed(VX_TYPE_UINT32, guess),
            );
        }
        assert(seeds[d - 1] == crate::construction::size_seed(size));
        assert(made[1 + (d - 1)] == w);
        lemma_wide(scalars, w, size as u64, seeds[d - 1]);
        crate::kernels::law_kernel_names(
            Kernel::OpticalFlowPyrLK,
            "org.khronos.openvx.optical_flow_pyr_lk"@,
        );
        let args = seq![
            KernelArg::Ref(old_images),
            KernelArg::Ref(new_images),
            KernelArg::Ref(old_points),
            KernelArg::Ref(estimates),
            KernelArg::Ref(new_points),
            KernelArg::Bits(accuracy),
            KernelArg::Size(rounds as u64),
            KernelArg::Flag(guess != 0),
            KernelArg::Size(size as u64),
        ];
        assert(held[0] == old_images && held[1] == new_images && held[2] == old_points);
        assert(held[3] == estimates && held[4] == new_points);
        lemma_flow_arguments(held, scalars, args);
        lemma_runs(Kernel::OpticalFlowPyrLK, held, scalars, border, args);
    }
}

proof fn lemma_flow_arguments(held: Seq<u64>, scalars: Map<u64, VxCScalar>, args: Seq<KernelArg>)
    requires
        held.len() == 10,
        args.len() == 9,
        forall|j: int| 0 <= j < 5 ==> args[j] == KernelArg::Ref(#[trigger] held[j]),
        args[5] == KernelArg::Bits(
            crate::dispatch::patched32(
                0x3A83126F,
                crate::dispatch::scalar_bytes(scalars, held[6]),
            ),
        ),
        args[6] == KernelArg::Size(
            crate::dispatch::patched32(
                10,
                crate::dispatch::scalar_bytes(scalars, held[7]),
            ) as u64,
        ),
        args[7] == KernelArg::Flag(
            crate::dispatch::patched32(0, crate::dispatch::scalar_bytes(scalars, held[8])) != 0,
        ),
        args[8] == KernelArg::Size(
            crate::dispatch::patched64(9, crate::dispatch::scalar_bytes(scalars, held[9])),
        ),
    ensures
        forall|j: int|
            0 <= j < 9 ==> #[trigger] crate::dispatch::argument_at(
                Kernel::OpticalFlowPyrLK,
                held,
                scalars,
                j,
            ) == Some(args[j]),
{
    assert(args[0] == KernelArg::Ref(held[0]));
    assert(args[1] == KernelArg::Ref(held[1]));
    assert(args[2] == KernelArg::Ref(held[2]));
    assert(args[3] == KernelArg::Ref(held[3]));
    assert(args[4] == KernelArg::Ref(held[4]));
}

/// Following points at once hands the routine all its references in their order, the
/// way to end, what the scalars of the search hold, and the window.
pub proof fn law_optical_flow_at_once(
    table: &HashMap<u64, VxCScalar>,
    context: u64,
    old_images: u64,
    new_images: u64,
    old_points: u64,
    estimates: u64,
    new_points: u64,
    termination: vx_enum,
    epsilon: u64,
    iterations: u64,
    initial: u64,
    window: u64,
    accuracy: u32,
    rounds: u32,
    guess: u32,
    call: ImmediateCall,
)
    requires
        call_ensures(
            crate::immediate::vxuOpticalFlowPyrLK,
            (
                table,
                context,
                old_images,
                new_images,
                old_points,
                estimates,
                new_points,
                termination,
                epsilon,
                iterations,
                initial,
                window,
            ),
            call,
        ),
        searches_with(table@, epsilon, 0, accuracy),
        searches_with(table@, iterations, 0, rounds),
        searches_with(table@, initial, 0, guess),
    ensures
        hands_over(
            call@,
            Routine::Of(Kernel::OpticalFlowPyrLK),
            ContextArg::Given(context),
            BorderArg::Unused,
            seq![
                KernelArg::Ref(old_images),
                KernelArg::Ref(new_images),
                KernelArg::Ref(old_points),
                KernelArg::Ref(estimates),
                KernelArg::Ref(new_points),
                KernelArg::Int(termination),
                KernelArg::Bits(accuracy),
                KernelArg::Bits(rounds),
                KernelArg::Bits(guess),
                KernelArg::Size(window),
            ],
        ),
{
    if epsilon != 0 {
        lemma_patched(
            table@,
            epsilon,
            accuracy,
            crate::construction::word_seed(VX_TYPE_UINT32, accuracy),
        );
    }
    if iterations != 0 {
        lemma_patched(
            table@,
            iterations,
            rounds,
            crate::construction::word_seed(VX_TYPE_UINT32, rounds),
        );
    }
    if initial != 0 {
        lemma_patched(
            table@,
            initial,
            guess,
            crate::construction::word_seed(VX_TYPE_UINT32, guess),
        );
    }
}

/// Multiplying at once hands the routine the images, the bit pattern of the scale,
/// the two policies and the output, in that order.
pub proof fn law_multiply_at_once(
    context: u64,
    in1: u64,
    in2: u64,
    scale: u32,
    overflow_policy: i32,
    rounding_policy: i32,
    output: u64,
    call: Result<ImmediateCall, vx_status>,
)
    requires
        call_ensures(
            crate::immediate::vxuMultiply,
            (context, in1, in2, scale, overflow_policy, rounding_policy, output),
            call,
        ),
    ensures
        call is Ok,
        hands_over(
            call->Ok_0@,
            Routine::Of(Kernel::Multiply),
            ContextArg::Given(context),
            BorderArg::Unused,
            seq![
                KernelArg::Ref(in1),
                KernelArg::Ref(in2),
                KernelArg::Bits(scale),
                KernelArg::Int(overflow_policy),
                KernelArg::Int(rounding_policy),
                KernelArg::Ref(output),
            ],
        ),
{
}

/// Taking the features of a histogram of gradients at once hands the routine what was
/// given, in its order; an image may be missing, nothing else.
pub proof fn law_hog_features_at_once(
    context: u64,
    input: u64,
    magnitudes: u64,
    bins: u64,
    params: u64,
    size: u64,
    features: u64,
    call: Result<ImmediateCall, vx_status>,
)
    requires
        call_ensures(
            crate::immediate::vxuHOGFeatures,
            (context, input, magnitudes, bins, params, size, features),
            call,
        ),
    ensures
        call is Ok <==> context != 0 && magnitudes != 0 && bins != 0 && params != 0 && features
            != 0,
        call is Err ==> call->Err_0 == VX_ERROR_INVALID_PARAMETERS,
        call is Ok ==> hands_over(
            call->Ok_0@,
            Routine::Of(Kernel::HogFeatures),
            ContextArg::Given(context),
            BorderArg::Unused,
            seq![
                KernelArg::Ref(input),
                KernelArg::Ref(magnitudes),
                KernelArg::Ref(bins),
                KernelArg::Ref(params),
                KernelArg::Size(size),
                KernelArg::Ref(features),
            ],
        ),
{
}

/// The wide gradient taken at once goes to the routine of the narrow one.
pub proof fn law_sobel5x5_at_once(
    context: u64,
    input: u64,
    output_x: u64,
    output_y: u64,
    narrow: Result<ImmediateCall, vx_status>,
    wide: Result<ImmediateCall, vx_status>,
)
    requires
        call_ensures(crate::immediate::vxuSobel3x3, (context, input, output_x, output_y), narrow),
        call_ensures(crate::immediate::vxuSobel5x5, (context, input, output_x, output_y), wide),
    ensures
        narrow is Ok && wide is Ok,
        hands_over(
            wide->Ok_0@,
            Routine::Of(Kernel::Sobel3x3),
            ContextArg::Given(context),
            BorderArg::Unused,
            seq![KernelArg::Ref(input), KernelArg::Ref(output_x), KernelArg::Ref(output_y)],
        ),
        narrow->Ok_0@ == wide->Ok_0@,
{
}

/// The filter that keeps edges runs at once on a diameter that is odd and positive
/// and on sigmas above zero, with the border of the context.
pub proof fn law_bilateral_filter_at_once(
    contexts: &HashMap<u64, VxCContext>,
    context: u64,
    src: u64,
    half: i32,
    diameter: i32,
    sigma_space: u32,
    sigma_values: u32,
    dst: u64,
    call: Result<ImmediateCall, vx_status>,
)
    requires
        call_ensures(
            crate::immediate::vxuBilateralFilter,
            (contexts, context, src, diameter, sigma_space, sigma_values, dst),
            call,
        ),
        contexts@.contains_key(context),
    ensures
        context == 0 || src == 0 || dst == 0 ==> call == Err::<ImmediateCall, vx_status>(
            VX_ERROR_INVALID_REFERENCE,
        ),
        context != 0 && src != 0 && dst != 0 && (diameter <= 0 || diameter == 2 * half
            || sigma_space == 0 || sigma_values == 0 || 0x8000_0000 <= sigma_space <= 0xFF80_0000
            || 0x8000_0000 <= sigma_values <= 0xFF80_0000) ==> call == Err::<
            ImmediateCall,
            vx_status,
        >(VX_ERROR_INVALID_PARAMETERS),
        context != 0 && src != 0 && dst != 0 && diameter > 0 && diameter == 2 * half + 1 && 0
            < sigma_space < 0x8000_0000 && 0 < sigma_values < 0x8000_0000 ==> call is Ok
            && hands_over(
            call->Ok_0@,
            Routine::Of(Kernel::BilateralFilter),
            ContextArg::Given(context),
            BorderArg::AsGiven(Some(contexts@[context].border_mode)),
            seq![
                KernelArg::Ref(src),
                KernelArg::Int(diameter),
                KernelArg::Bits(sigma_space),
                KernelArg::Bits(sigma_values),
                KernelArg::Ref(dst),
            ],
        ),
{
}

/// What a routine is handed that gets its numbers in scalars: each scalar is made of
/// the number that was given, and stands where the number stood.
pub proof fn law_calls_with_scalars(
    context: u64,
    input: u64,
    template: u64,
    mask: u64,
    method: vx_enum,
    kernel_size: i8,
    win_size: i32,
    output: u64,
    patterns: ImmediateCall,
    found: Result<ImmediateCall, vx_status>,
    peaks: ImmediateCall,
)
    requires
        call_ensures(
            crate::immediate::vxuLBP,
            (context, input, method, kernel_size, output),
            patterns,
        ),
        call_ensures(
            crate::immediate::vxuMatchTemplate,
            (context, input, template, method, output),
            found,
        ),
        call_ensures(
            crate::immediate::vxuNonMaxSuppression,
            (context, input, mask, win_size, output),
            peaks,
        ),
    ensures
        patterns@.routine == Routine::Of(Kernel::Lbp),
        patterns@.context == ContextArg::Of(input),
        patterns@.border == BorderArg::Unused,
        patterns@.results.len() == 0,
        patterns@.seeds.len() == 2,
        patterns@.seeds[0].data_type == VX_TYPE_ENUM && patterns@.seeds[0].size == 4
            && patterns@.seeds[0].bits == crate::scalar::bits32(method),
        patterns@.seeds[1].size == 1,
        kernel_size >= 0 ==> patterns@.seeds[1].bits == kernel_size,
        kernel_size < 0 ==> patterns@.seeds[1].bits == kernel_size + 256,
        patterns@.args == seq![
            CallArg::Plain(KernelArg::Ref(input)),
            CallArg::Made(0),
            CallArg::Made(1),
            CallArg::Plain(KernelArg::Ref(output)),
        ],
        found is Ok <==> input != 0 && template != 0 && output != 0,
        found is Err ==> found->Err_0 == VX_ERROR_INVALID_PARAMETERS,
        found is Ok ==> {
            let c = found->Ok_0@;
            &&& c.routine == Routine::Of(Kernel::MatchTemplate)
            &&& c.context == ContextArg::Of(input)
            &&& c.border == BorderArg::Unused
            &&& c.results.len() == 0
            &&& c.seeds.len() == 1
            &&& c.seeds[0].data_type == VX_TYPE_ENUM && c.seeds[0].size == 4 && c.seeds[0].bits
                == crate::scalar::bits32(method)
            &&& c.args == seq![
                CallArg::Plain(KernelArg::Ref(input)),
                CallArg::Plain(KernelArg::Ref(template)),
                CallArg::Made(0),
                CallArg::Plain(KernelArg::Ref(output)),
            ]
        },
        peaks@.routine == Routine::Of(Kernel::NonMaxSuppression),
        peaks@.context == ContextArg::Of(input),
        peaks@.border == BorderArg::Unused,
        peaks@.results.len() == 0,
        peaks@.seeds.len() == 1,
        peaks@.seeds[0].data_type == VX_TYPE_INT32 && peaks@.seeds[0].size == 4
            && peaks@.seeds[0].bits == crate::scalar::bits32(win_size),
        peaks@.args == seq![
            CallArg::Plain(KernelArg::Ref(input)),
            CallArg::Plain(KernelArg::Ref(mask)),
            CallArg::Made(0),
            CallArg::Plain(KernelArg::Ref(output)),
        ],
{
}

/// The mean and the deviation are taken at once into two scalars of their own, which
/// start at zero; the first goes to the place of the mean, the second to that of the
/// deviation.
pub proof fn law_mean_std_dev_at_once(
    context: u64,
    input: u64,
    mean: u64,
    stddev: u64,
    call: Result<ImmediateCall, vx_status>,
)
    requires
        call_ensures(crate::immediate::vxuMeanStdDev, (context, input, mean, stddev), call),
    ensures
        call is Ok <==> context != 0 && input != 0,
        call is Err ==> call->Err_0 == VX_ERROR_INVALID_REFERENCE,
        call is Ok ==> {
            let c = call->Ok_0@;
            &&& c.routine == Routine::Of(Kernel::MeanStdDev)
            &&& c.context == ContextArg::Given(context)
            &&& c.border == BorderArg::Unused
            &&& c.seeds.len() == 2
            &&& forall|k: int|
                0 <= k < 2 ==> (#[trigger] c.seeds[k]).data_type == VX_TYPE_FLOAT32
                    && c.seeds[k].size == 4 && c.seeds[k].bits == 0
            &&& c.args == seq![
                CallArg::Plain(KernelArg::Ref(input)),
                CallArg::Made(0),
                CallArg::Made(1),
            ]
            &&& c.results == seq![(0usize, mean), (1usize, stddev)]
        },
{
}

/// What is left after the mean and the deviation were taken: each goes to its place,
/// where it has one, before both scalars are released; where the routine failed
/// they are only released.
pub proof fn law_results_go_first(
    results: &Vec<(usize, u64)>,
    scalars: &Vec<u64>,
    status: vx_status,
    todo: Vec<Aftermath>,
    first: u64,
    second: u64,
    mean: u64,
    stddev: u64,
)
    requires
        call_ensures(crate::immediate::finish_call, (results, scalars, status), todo),
        results@ == seq![(0usize, mean), (1usize, stddev)],
        scalars@ == seq![first, second],
        first != 0,
        second != 0,
    ensures
        status == VX_SUCCESS && mean != 0 && stddev != 0 ==> todo@ == seq![
            Aftermath::CopyOut(first, mean),
            Aftermath::CopyOut(second, stddev),
            Aftermath::Release(first),
            Aftermath::Release(second),
        ],
        status == VX_SUCCESS && mean == 0 && stddev != 0 ==> todo@ == seq![
            Aftermath::CopyOut(second, stddev),
            Aftermath::Release(first),
            Aftermath::Release(second),
        ],
        status != VX_SUCCESS ==> todo@ == seq![
            Aftermath::Release(first),
            Aftermath::Release(second),
        ],
{
    reveal_with_fuel(crate::immediate::copied_out, 3);
    reveal_with_fuel(crate::immediate::released, 3);
    assert(results@.drop_last() =~= seq![(0usize, mean)]);
    assert(results@.drop_last().drop_last() =~= Seq::empty());
    assert(scalars@.drop_last() =~= seq![first]);
    assert(scalars@.drop_last().drop_last() =~= Seq::empty());
}

/// A filter with a mask takes at once the bytes, the sides and the origin of the
/// matrix, and the border of a context that is known.
pub proof fn law_non_linear_filter_at_once(
    contexts: &HashMap<u64, VxCContext>,
    matrices: &HashMap<u64, VxCMatrix>,
    context: u64,
    function: vx_enum,
    input: u64,
    matrix: u64,
    output: u64,
    call: Result<FilterCall, vx_status>,
)
    requires
        call_ensures(
            crate::immediate::vxuNonLinearFilter,
            (contexts, matrices, context, function, input, matrix, output),
            call,
        ),
        contexts@.contains_key(context),
    ensures
        call is Ok <==> context != 0 && input != 0 && matrix != 0 && output != 0,
        call is Err ==> call->Err_0 == VX_ERROR_INVALID_REFERENCE,
        call is Ok ==> {
            let c = call->Ok_0;
            &&& c.context == context && c.input == input && c.output == output
            &&& c.function == function
            &&& c.mask@ == matrices@[matrix].data@
            &&& c.columns == matrices@[matrix].columns && c.rows == matrices@[matrix].rows
            &&& c.origin_x == matrices@[matrix].origin_x && c.origin_y
                == matrices@[matrix].origin_y
            &&& c.border == Some(contexts@[context].border_mode)
        },
{
}

/// Under one of its two names evening a histogram at once is not carried out.
pub proof fn law_equalize_histogram_at_once(
    context: u64,
    input: u64,
    output: u64,
    status: vx_status,
)
    requires
        call_ensures(crate::immediate::vxuEqualizeHistogram, (context, input, output), status),
    ensures
        context != 0 && input != 0 && output != 0 ==> status == VX_ERROR_NOT_IMPLEMENTED,
        context == 0 || input == 0 || output == 0 ==> status == VX_ERROR_INVALID_REFERENCE,
{
}

} // verus!
