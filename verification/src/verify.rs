//! Verifying a graph: checking its structure, putting its nodes in run order and
//! preparing its virtual images.
use vstd::prelude::*;
use crate::image::VxCImage;
use crate::lifecycle::{UserKernelHook, collect_hooks};
use crate::multimap::copied;
use crate::naming::{KernelTables, find_kernel_name};
use crate::order::find_cycle;
use crate::records::{
    NodeData, UserKernelParam, VirtualImageInfo, VxCGraphData, VxCKernel, VxCUserKernel,
    VxGraphState,
};
use crate::refs::References;
use crate::schedule::{list_ids, run_order};
use crate::types::{
    VX_ERROR_INVALID_GRAPH, VX_ERROR_INVALID_PARAMETERS, VX_ERROR_INVALID_REFERENCE, VX_SUCCESS,
    vx_enum, vx_status,
};
use crate::user_kernels::{UserKernels, kernel_key};
use crate::virtual_images::{Resolution, Surroundings, resolve_virtual_images};
use crate::waves::{find_predecessors, find_waves, group_waves};
use crate::wiring::{
    Wire, WireSpec, Wiring, WiringSpec, connect, list_levels, list_refs, list_regions, wire,
};
use std::collections::HashMap;

verus! {

broadcast use vstd::std_specs::hash::group_hash_axioms;

/// The parts of the runtime that say what a node reads and writes.
pub struct Scene {
    pub nodes: Map<u64, NodeData>,
    pub catalog: Map<u64, VxCKernel>,
    pub extra: Map<u64, VxCKernel>,
    pub user: Seq<VxCUserKernel>,
    pub declared: Map<i32, Vec<UserKernelParam>>,
    pub types: Map<u64, vx_enum>,
    pub images: Set<u64>,
}

/// The scene in some tables.
pub open spec fn scene_of(
    nodes: Map<u64, NodeData>,
    tables: KernelTables,
    user_kernels: UserKernels,
    types: Map<u64, vx_enum>,
    images: Set<u64>,
) -> Scene {
    Scene {
        nodes,
        catalog: tables.catalog@,
        extra: tables.extra@,
        user: user_kernels.kernels@,
        declared: user_kernels.params@,
        types,
        images,
    }
}

/// The name of a node's kernel, empty where it is not known.
pub open spec fn node_kernel_name(scene: Scene, node: u64) -> Seq<char> {
    match crate::naming::kernel_name(
        scene.catalog,
        scene.extra,
        scene.user,
        scene.nodes[node].kernel_id,
    ) {
        Some(name) => name,
        None => Seq::empty(),
    }
}

/// The declared parameters of a node's kernel.
pub open spec fn node_declared(scene: Scene, node: u64) -> Option<Seq<UserKernelParam>> {
    let key = crate::user_kernels::enum_of(scene.nodes[node].kernel_id);
    if scene.declared.contains_key(key) {
        Some(scene.declared[key]@)
    } else {
        None
    }
}

/// What a node reads and writes.
pub open spec fn node_wire(scene: Scene, node: u64) -> WireSpec {
    crate::wiring::wire_of(
        node,
        scene.nodes[node].parameters@,
        |r: u64| crate::refs::is_data(scene.types, scene.images, r),
        |i: int|
            crate::outputs::is_output(
                node_kernel_name(scene, node),
                node_declared(scene, node),
                i,
            ),
    )
}

/// The nodes of a list that exist.
pub open spec fn known_nodes(nodes: Map<u64, NodeData>, ids: Seq<u64>) -> Seq<u64> {
    ids.filter(|id: u64| nodes.contains_key(id))
}

/// Whether a node lacks its first parameter.
pub open spec fn lacks_input(node: NodeData) -> bool {
    node.parameters@.len() == 0 || node.parameters@[0] is None || node.parameters@[0] == Some(0u64)
}

/// Whether some node lacks its first parameter.
pub open spec fn some_lack_input(nodes: Map<u64, NodeData>, ids: Seq<u64>) -> bool {
    exists|k: int| 0 <= k < ids.len() && lacks_input(nodes[#[trigger] ids[k]])
}

/// What the nodes of a list read and write.
pub open spec fn scene_wires(scene: Scene, ids: Seq<u64>) -> Seq<WireSpec> {
    ids.map_values(|id: u64| node_wire(scene, id))
}

/// The kernel names of the nodes of a list.
pub open spec fn scene_names(scene: Scene, ids: Seq<u64>) -> Seq<Seq<char>> {
    ids.map_values(|id: u64| node_kernel_name(scene, id))
}

/// Lists the nodes that exist.
pub fn list_known_nodes(nodes: &HashMap<u64, NodeData>, ids: &Vec<u64>) -> (r: Vec<u64>)
    ensures
        r@ == known_nodes(nodes@, ids@),
{
    let ghost known = |id: u64| nodes@.contains_key(id);
    let mut list: Vec<u64> = Vec::new();
    assert(ids@.take(0).filter(known) =~= Seq::<u64>::empty()) by {
        reveal(Seq::filter);
    }
    for i in 0..ids.len()
        invariant
            known == (|id: u64| nodes@.contains_key(id)),
            list@ == ids@.take(i as int).filter(known),
    {
        proof {
            reveal(Seq::filter);
            assert(ids@.take(i + 1).drop_last() =~= ids@.take(i as int));
            assert(ids@.take(i + 1).last() == ids@[i as int]);
        }
        if nodes.contains_key(&ids[i]) {
            list.push(ids[i]);
        }
    }
    assert(ids@.take(ids@.len() as int) =~= ids@);
    list
}

/// Finds whether some node lacks its first parameter.
pub fn any_lacks_input(nodes: &HashMap<u64, NodeData>, ids: &Vec<u64>) -> (r: bool)
    requires
        forall|k: int| 0 <= k < ids@.len() ==> nodes@.contains_key(#[trigger] ids@[k]),
    ensures
        r == some_lack_input(nodes@, ids@),
{
    for i in 0..ids.len()
        invariant
            forall|k: int| 0 <= k < ids@.len() ==> nodes@.contains_key(#[trigger] ids@[k]),
            forall|k: int| 0 <= k < i ==> !lacks_input(nodes@[#[trigger] ids@[k]]),
    {
        assert(nodes@.contains_key(ids@[i as int]));
        let lacks = match nodes.get(&ids[i]) {
            Some(node) => node.parameters.len() == 0 || match node.parameters[0] {
                Some(r) => r == 0,
                None => true,
            },
            None => true,
        };
        if lacks {
            assert(lacks_input(nodes@[ids@[i as int]]));
            return true;
        }
    }
    false
}

/// Finds what the nodes of a list read and write, and the names of their kernels.
pub fn collect_wires(
    ids: &Vec<u64>,
    nodes: &HashMap<u64, NodeData>,
    tables: &KernelTables,
    user_kernels: &UserKernels,
    refs: &References,
    images: &HashMap<u64, VxCImage>,
) -> (r: (Vec<Wire>, Vec<String>))
    requires
        forall|k: int| 0 <= k < ids@.len() ==> nodes@.contains_key(#[trigger] ids@[k]),
    ensures
        crate::wiring::wires_of(r.0@) == scene_wires(
            scene_of(nodes@, *tables, *user_kernels, refs.types@, images@.dom()),
            ids@,
        ),
        r.1@.map_values(|name: String| name@) == scene_names(
            scene_of(nodes@, *tables, *user_kernels, refs.types@, images@.dom()),
            ids@,
        ),
{
    let ghost scene = scene_of(nodes@, *tables, *user_kernels, refs.types@, images@.dom());
    let mut wires: Vec<Wire> = Vec::new();
    let mut names: Vec<String> = Vec::new();
    for i in 0..ids.len()
        invariant
            forall|k: int| 0 <= k < ids@.len() ==> nodes@.contains_key(#[trigger] ids@[k]),
            scene == scene_of(nodes@, *tables, *user_kernels, refs.types@, images@.dom()),
            wires@.len() == i,
            names@.len() == i,
            forall|k: int| 0 <= k < i ==> (#[trigger] wires@[k])@ == node_wire(scene, ids@[k]),
            forall|k: int|
                0 <= k < i ==> (#[trigger] names@[k])@ == node_kernel_name(scene, ids@[k]),
    {
        let id = ids[i];
        assert(nodes@.contains_key(ids@[i as int]));
        if let Some(node) = nodes.get(&id) {
            let name: String = match find_kernel_name(tables, user_kernels, node.kernel_id) {
                Some(n) => n,
                None => String::new(),
            };
            assert(name@ =~= node_kernel_name(scene, id));
            let declared = user_kernels.params.get(&kernel_key(node.kernel_id));
            let w = wire(id, &node.parameters, name.as_str(), declared, refs, images);
            proof {
                let d = match declared {
                    Some(d) => Some(d@),
                    None => None,
                };
                assert(d == node_declared(scene, id));
                assert((|i: int| crate::outputs::is_output(name@, d, i)) =~= (|i: int|
                    crate::outputs::is_output(
                        node_kernel_name(scene, id),
                        node_declared(scene, id),
                        i,
                    )));
                assert((|i: int|
                    crate::outputs::is_output(
                        name@,
                        match declared {
                            Some(d) => Some(d@),
                            None => None,
                        },
                        i,
                    )) =~= (|i: int| crate::outputs::is_output(name@, d, i)));
            }
            wires.push(w);
            names.push(name);
        }
    }
    assert(crate::wiring::wires_of(wires@) =~= scene_wires(scene, ids@));
    assert(names@.map_values(|name: String| name@) =~= scene_names(scene, ids@));
    (wires, names)
}

/// How a graph will run.
pub struct Plan {
    /// The nodes in run order.
    pub order: Vec<u64>,
    /// The nodes grouped by wave.
    pub waves: Vec<Vec<u64>>,
    /// For each node, the nodes whose output it reads.
    pub predecessors: HashMap<u64, Vec<u64>>,
    /// Who writes what and who reads it.
    pub wiring: Wiring,
}

/// The mathematical value of a [`Plan`].
pub struct PlanSpec {
    pub order: Seq<u64>,
    pub waves: Seq<Seq<u64>>,
    pub predecessors: Map<u64, Seq<u64>>,
    pub wiring: WiringSpec,
}

impl View for Plan {
    type V = PlanSpec;

    open spec fn view(&self) -> PlanSpec {
        PlanSpec {
            order: self.order@,
            waves: self.waves@.map_values(|v: Vec<u64>| v@),
            predecessors: self.predecessors@.map_values(|v: Vec<u64>| v@),
            wiring: self.wiring@,
        }
    }
}

/// Where regions and pyramid levels belong.
pub struct Families {
    pub region: spec_fn(u64) -> Option<u64>,
    pub level: spec_fn(u64) -> Option<u64>,
}

/// Where regions and pyramid levels belong, according to some tables.
pub open spec fn families_of(
    types: Map<u64, vx_enum>,
    images: Map<u64, VxCImage>,
    levels: Map<u64, (u64, usize)>,
) -> Families {
    Families {
        region: |r: u64| crate::wiring::region_parent(types, images, r),
        level: |r: u64| crate::wiring::level_pyramid(types, levels, r),
    }
}

/// A wiring once the regions and pyramid levels that some nodes mention are
/// followed to what they belong to.
pub open spec fn fully_wired(
    direct: WiringSpec,
    wires: Seq<WireSpec>,
    families: Families,
) -> WiringSpec {
    crate::wiring::completed(
        direct,
        crate::wiring::family(crate::wiring::all_refs(wires), families.region),
        crate::wiring::family(crate::wiring::all_refs(wires), families.level),
    )
}

/// Whether a wiring is the complete wiring of some nodes.
pub open spec fn is_wiring(w: WiringSpec, wires: Seq<WireSpec>, families: Families) -> bool {
    exists|direct: WiringSpec| #[trigger]
        crate::wiring::direct(direct, wires) && w == fully_wired(direct, wires, families)
}

/// Whether the nodes lead back to one another in a circle.
pub open spec fn is_circular(wires: Seq<WireSpec>, families: Families) -> bool {
    exists|w: WiringSpec| #[trigger]
        is_wiring(w, wires, families) && crate::order::has_cycle(
            w,
            crate::schedule::ids_of(wires),
        )
}

/// The nodes that feed each node.
pub open spec fn all_predecessors(w: WiringSpec, ids: Seq<u64>) -> Map<u64, Seq<u64>> {
    Map::new(
        |node: u64| ids.contains(node),
        |node: u64| crate::waves::predecessors(w, ids, node),
    )
}

/// Whether a plan is one for some nodes.
pub open spec fn is_plan(plan: PlanSpec, wires: Seq<WireSpec>, families: Families) -> bool {
    &&& is_wiring(plan.wiring, wires, families)
    &&& !crate::order::has_cycle(plan.wiring, crate::schedule::ids_of(wires))
    &&& crate::schedule::is_run_order(plan.wiring, crate::schedule::ids_of(wires), plan.order)
    &&& plan.waves == crate::waves::grouped(
        plan.order,
        crate::waves::waves_of(plan.wiring, plan.order),
    )
    &&& plan.predecessors == all_predecessors(plan.wiring, crate::schedule::ids_of(wires))
}

fn map_predecessors(wiring: &Wiring, ids: &Vec<u64>) -> (r: HashMap<u64, Vec<u64>>)
    ensures
        r@.map_values(|v: Vec<u64>| v@) == all_predecessors(wiring@, ids@),
{
    let mut map: HashMap<u64, Vec<u64>> = HashMap::new();
    for i in 0..ids.len()
        invariant
            forall|n: u64| #[trigger]
                map@.contains_key(n) <==> ids@.take(i as int).contains(n),
            forall|n: u64| #[trigger]
                map@.contains_key(n) ==> map@[n]@ == crate::waves::predecessors(
                    wiring@,
                    ids@,
                    n,
                ),
    {
        let ghost before = map@;
        let list = find_predecessors(wiring, ids, ids[i]);
        map.insert(ids[i], list);
        proof {
            let part = ids@.take(i as int);
            let longer = ids@.take(i + 1);
            assert(longer =~= part.push(ids@[i as int]));
            assert forall|n: u64| #[trigger] map@.contains_key(n) <==> longer.contains(n) by {
                assert(before.contains_key(n) <==> part.contains(n));
                if part.contains(n) {
                    assert(longer[part.index_of(n)] == n);
                }
                if longer.contains(n) && n != ids@[i as int] {
                    assert(part[longer.index_of(n)] == n);
                }
                assert(longer[i as int] == ids@[i as int]);
            }
        }
    }
    proof {
        assert(ids@.take(ids@.len() as int) =~= ids@);
        assert(map@.map_values(|v: Vec<u64>| v@) =~= all_predecessors(wiring@, ids@));
    }
    map
}

/// Plans how some nodes run.  Fails where two nodes write the same data or where
/// the nodes lead back to one another in a circle.
pub fn plan_graph(
    wires: &Vec<Wire>,
    refs: &References,
    images: &HashMap<u64, VxCImage>,
    levels: &HashMap<u64, (u64, usize)>,
) -> (r: Option<Plan>)
    requires
        crate::wiring::distinct(crate::wiring::wires_of(wires@)),
    ensures
        match r {
            Some(plan) => !crate::wiring::has_two_writers(crate::wiring::wires_of(wires@))
                && !is_circular(
                crate::wiring::wires_of(wires@),
                families_of(refs.types@, images@, levels@),
            ) && is_plan(
                plan@,
                crate::wiring::wires_of(wires@),
                families_of(refs.types@, images@, levels@),
            ),
            None => crate::wiring::has_two_writers(crate::wiring::wires_of(wires@)) || is_circular(
                crate::wiring::wires_of(wires@),
                families_of(refs.types@, images@, levels@),
            ),
        },
{
    let ghost all = crate::wiring::wires_of(wires@);
    let ghost families = families_of(refs.types@, images@, levels@);
    let mut wiring = match connect(wires) {
        Some(w) => w,
        None => {
            return None;
        },
    };
    let ghost direct = wiring@;
    let ids = list_ids(wires);
    proof {
        lemma_ids_distinct(all);
        assert forall|n: u64| #[trigger] wiring@.outputs.contains_key(n) implies ids@.contains(
            n,
        ) by {
            if !ids@.contains(n) {
                assert forall|i: int| 0 <= i < all.len() implies (#[trigger] all[i]).id != n by {
                    assert(ids@[i] == all[i].id);
                }
            }
        }
    }
    let mentioned = list_refs(wires);
    let regions = list_regions(&mentioned, refs, images);
    let parts = list_levels(&mentioned, refs, levels);
    wiring.complete(&ids, &regions, &parts);
    assert(crate::wiring::direct(direct, all));
    assert(is_wiring(wiring@, all, families));
    if find_cycle(&wiring, &ids) {
        return None;
    }
    proof {
        if is_circular(all, families) {
            let w = choose|w: WiringSpec| #[trigger]
                is_wiring(w, all, families) && crate::order::has_cycle(
                    w,
                    crate::schedule::ids_of(all),
                );
            let d = choose|d: WiringSpec| #[trigger]
                crate::wiring::direct(d, all) && w == fully_wired(d, all, families);
            crate::wiring::lemma_direct_unique(d, direct, all);
        }
    }
    let order = run_order(&wiring, &ids);
    let waves = find_waves(&wiring, &order);
    proof {
        let spec_waves = waves@.map_values(|w: usize| w as nat);
        crate::waves::lemma_waves_bounded(wiring@, order@);
        assert(waves@.len() == order@.len());
        assert forall|k: int| 0 <= k < waves@.len() implies #[trigger] waves@[k] <= k by {
            assert(spec_waves[k] == waves@[k]);
        }
    }
    let groups = group_waves(&order, &waves);
    let predecessors = map_predecessors(&wiring, &ids);
    Some(Plan { order, waves: groups, predecessors, wiring })
}

/// What is left to do once a graph has been checked and planned.
pub struct Verification {
    /// The nodes with their parameters.
    pub wires: Vec<Wire>,
    /// The user kernels to prepare.
    pub hooks: Vec<UserKernelHook>,
}

/// The status of a graph's structure: every node has its first parameter, no two
/// nodes write the same data, and no node leads back to itself.
pub open spec fn structure_status(
    nodes: Map<u64, NodeData>,
    ids: Seq<u64>,
    wires: Seq<WireSpec>,
    families: Families,
) -> vx_status {
    if some_lack_input(nodes, ids) {
        VX_ERROR_INVALID_PARAMETERS
    } else if crate::wiring::has_two_writers(wires) || is_circular(wires, families) {
        VX_ERROR_INVALID_GRAPH
    } else {
        VX_SUCCESS
    }
}

/// Whether a graph has been given a plan and nothing else about it changed.
pub open spec fn planned(before: VxCGraphData, after: VxCGraphData, plan: PlanSpec) -> bool {
    &&& after.nodes@ == plan.order
    &&& after.topo_waves@.map_values(|v: Vec<u64>| v@) == plan.waves
    &&& after.node_predecessors@.map_values(|v: Vec<u64>| v@) == plan.predecessors
    &&& after == (VxCGraphData {
        nodes: after.nodes,
        topo_waves: after.topo_waves,
        node_predecessors: after.node_predecessors,
        ..before
    })
}

/// What the virtual images become, given who writes what.
pub open spec fn resolution_of(
    wires: Seq<WireSpec>,
    names: Seq<Seq<char>>,
    producer: Map<u64, u64>,
    types: Map<u64, vx_enum>,
    images: Map<u64, VxCImage>,
    infos: Map<u64, VirtualImageInfo>,
) -> Resolution {
    crate::virtual_images::resolved(
        Resolution {
            shapes: crate::virtual_images::shapes_of(images),
            infos,
            status: VX_SUCCESS,
        },
        Surroundings { wires, names, producer, types },
        wires.len(),
    )
}

/// Whether a graph with its images went through a successful structure check: the
/// graph has a plan, and the virtual images are what that plan makes of them.
pub open spec fn is_prepared(
    graphs0: Map<u64, VxCGraphData>,
    graphs1: Map<u64, VxCGraphData>,
    graph: u64,
    plan: PlanSpec,
    wires: Seq<WireSpec>,
    families: Families,
    resolution: Resolution,
    images0: Map<u64, VxCImage>,
    images1: Map<u64, VxCImage>,
    infos1: Map<u64, VirtualImageInfo>,
) -> bool {
    &&& is_plan(plan, wires, families)
    &&& graphs1.dom() == graphs0.dom()
    &&& graphs1.remove(graph) == graphs0.remove(graph)
    &&& planned(graphs0[graph], graphs1[graph], plan)
    &&& crate::virtual_images::shapes_of(images1) == resolution.shapes
    &&& infos1 == resolution.infos
    &&& crate::virtual_images::same_but_shapes(images1, images0)
}

proof fn lemma_filter_distinct(list: Seq<u64>, keep: spec_fn(u64) -> bool)
    requires
        list.no_duplicates(),
    ensures
        list.filter(keep).no_duplicates(),
        forall|v: u64| #[trigger] list.filter(keep).contains(v) ==> list.contains(v),
    decreases list.len(),
{
    reveal(Seq::filter);
    if list.len() > 0 {
        let rest = list.drop_last();
        lemma_filter_distinct(rest, keep);
        let kept = rest.filter(keep);
        assert(list[list.len() - 1] == list.last());
        assert(!rest.contains(list.last()));
        assert forall|v: u64| #[trigger] list.filter(keep).contains(v) implies list.contains(
            v,
        ) by {
            if v != list.last() {
                let k = list.filter(keep).index_of(v);
                assert(kept[k] == v);
                assert(kept.contains(v));
                assert(list[rest.index_of(v)] == v);
            }
        }
        if keep(list.last()) {
            assert forall|i: int, j: int|
                0 <= i < list.filter(keep).len() && 0 <= j < list.filter(keep).len() && i
                    != j implies list.filter(keep)[i] != list.filter(keep)[j] by {
                if i < kept.len() {
                    assert(kept.contains(kept[i]));
                }
                if j < kept.len() {
                    assert(kept.contains(kept[j]));
                }
            }
        }
    }
}

proof fn lemma_known_distinct(nodes: Map<u64, NodeData>, ids: Seq<u64>, scene: Scene)
    requires
        ids.no_duplicates(),
    ensures
        forall|k: int|
            0 <= k < known_nodes(nodes, ids).len() ==> nodes.contains_key(
                #[trigger] known_nodes(nodes, ids)[k],
            ),
        crate::wiring::distinct(scene_wires(scene, known_nodes(nodes, ids))),
{
    let known = |id: u64| nodes.contains_key(id);
    ids.lemma_filter_len(known);
    let list = known_nodes(nodes, ids);
    assert forall|k: int| 0 <= k < list.len() implies nodes.contains_key(#[trigger] list[k]) by {
        ids.lemma_filter_pred(known, k);
    }
    lemma_filter_distinct(ids, known);
    let wires = scene_wires(scene, list);
    assert forall|i: int, j: int| 0 <= i < j < wires.len() implies (#[trigger] wires[i]).id != (
    #[trigger] wires[j]).id by {
        assert(wires[i].id == list[i] && wires[j].id == list[j]);
    }
}

/// Verifies a graph as far as the runtime alone can: checks its structure, puts its
/// nodes in run order and gives its virtual images their storage.  What is left is
/// in the answer: virtual pyramids and the callbacks of user kernels.
pub fn vxVerifyGraph(
    graph: u64,
    graphs: &mut HashMap<u64, VxCGraphData>,
    nodes: &HashMap<u64, NodeData>,
    tables: &KernelTables,
    user_kernels: &UserKernels,
    refs: &References,
    images: &mut HashMap<u64, VxCImage>,
    infos: &mut HashMap<u64, VirtualImageInfo>,
    levels: &HashMap<u64, (u64, usize)>,
) -> (r: Result<Verification, vx_status>)
    requires
        old(graphs)@.contains_key(graph) ==> old(graphs)@[graph].nodes@.no_duplicates(),
    ensures
        ({
            let all = old(graphs)@[graph].nodes@;
            let ids = known_nodes(nodes@, all);
            let scene = scene_of(
                nodes@,
                *tables,
                *user_kernels,
                refs.types@,
                old(images)@.dom(),
            );
            let wires = scene_wires(scene, ids);
            let families = families_of(refs.types@, old(images)@, levels@);
            let status = structure_status(nodes@, ids, wires, families);
            let refused = if graph == 0 {
                VX_ERROR_INVALID_REFERENCE
            } else if !old(graphs)@.contains_key(graph) {
                VX_ERROR_INVALID_GRAPH
            } else {
                status
            };
            if refused != VX_SUCCESS {
                r == Err::<Verification, vx_status>(refused) && final(graphs)@ == old(graphs)@
                    && final(images)@ == old(images)@ && final(infos)@ == old(infos)@
            } else {
                exists|plan: PlanSpec| #[trigger]
                    is_prepared(
                        old(graphs)@,
                        final(graphs)@,
                        graph,
                        plan,
                        wires,
                        families,
                        resolution_of(
                            wires,
                            scene_names(scene, ids),
                            plan.wiring.producer,
                            refs.types@,
                            old(images)@,
                            old(infos)@,
                        ),
                        old(images)@,
                        final(images)@,
                        final(infos)@,
                    ) && resolution_of(
                        wires,
                        scene_names(scene, ids),
                        plan.wiring.producer,
                        refs.types@,
                        old(images)@,
                        old(infos)@,
                    ).status == (match r {
                        Ok(_) => VX_SUCCESS,
                        Err(s) => s,
                    }) && match r {
                        Ok(rest) => crate::wiring::wires_of(rest.wires@) == wires
                            && rest.hooks@.map_values(|h: UserKernelHook| h@)
                            == crate::lifecycle::hooks_of(nodes@, user_kernels.kernels@, all),
                        Err(s) => s != VX_SUCCESS,
                    }
            }
        }),
{
    if graph == 0 {
        return Err(VX_ERROR_INVALID_REFERENCE);
    }
    if !graphs.contains_key(&graph) {
        return Err(VX_ERROR_INVALID_GRAPH);
    }
    let all: Vec<u64> = match graphs.get(&graph) {
        Some(g) => copied(&g.nodes),
        None => Vec::new(),
    };
    let ids = list_known_nodes(nodes, &all);
    let ghost scene = scene_of(nodes@, *tables, *user_kernels, refs.types@, images@.dom());
    proof {
        lemma_known_distinct(nodes@, all@, scene);
    }
    if any_lacks_input(nodes, &ids) {
        return Err(VX_ERROR_INVALID_PARAMETERS);
    }
    let (wires, names) = collect_wires(&ids, nodes, tables, user_kernels, refs, images);
    let plan = match plan_graph(&wires, refs, images, levels) {
        Some(plan) => plan,
        None => {
            return Err(VX_ERROR_INVALID_GRAPH);
        },
    };
    let ghost the_plan = plan@;
    let Plan { order, waves, predecessors, wiring } = plan;
    let ghost graphs0 = graphs@;
    if let Some(mut g) = graphs.remove(&graph) {
        g.nodes = order;
        g.topo_waves = waves;
        g.node_predecessors = predecessors;
        graphs.insert(graph, g);
    }
    proof {
        assert(graphs@.dom() =~= graphs0.dom());
        assert(graphs@.remove(graph) =~= graphs0.remove(graph));
    }
    proof {
        assert(crate::wiring::wires_of(wires@).len() == wires@.len());
        assert(names@.map_values(|name: String| name@).len() == names@.len());
    }
    let status = resolve_virtual_images(&wires, &names, &wiring, refs, images, infos);
    let hooks = collect_hooks(nodes, user_kernels, &all);
    proof {
        let spec_wires = scene_wires(scene, ids@);
        let families = families_of(refs.types@, old(images)@, levels@);
        let spec_names = scene_names(scene, ids@);
        assert(crate::virtual_images::surroundings(wires@, names@, wiring@, refs.types@)
            == (Surroundings {
            wires: spec_wires,
            names: spec_names,
            producer: the_plan.wiring.producer,
            types: refs.types@,
        }));
        let resolution = resolution_of(
            spec_wires,
            spec_names,
            the_plan.wiring.producer,
            refs.types@,
            old(images)@,
            old(infos)@,
        );
        assert(is_prepared(
            old(graphs)@,
            graphs@,
            graph,
            the_plan,
            spec_wires,
            families,
            resolution,
            old(images)@,
            images@,
            infos@,
        ));
    }
    if status != VX_SUCCESS {
        return Err(status);
    }
    Ok(Verification { wires, hooks })
}

/// The graphs once one of them is verified.
pub open spec fn with_verified(
    graphs: Map<u64, VxCGraphData>,
    graph: u64,
) -> Map<u64, VxCGraphData> {
    if graphs.contains_key(graph) {
        graphs.insert(
            graph,
            VxCGraphData {
                verified: true,
                state: VxGraphState::VxGraphStateVerified,
                ..graphs[graph]
            },
        )
    } else {
        graphs
    }
}

/// Records that a graph is verified.
pub fn finish_verification(graphs: &mut HashMap<u64, VxCGraphData>, graph: u64)
    ensures
        final(graphs)@ == with_verified(old(graphs)@, graph),
{
    if let Some(mut g) = graphs.remove(&graph) {
        g.verified = true;
        g.state = VxGraphState::VxGraphStateVerified;
        graphs.insert(graph, g);
    }
    assert(graphs@ =~= with_verified(old(graphs)@, graph));
}

proof fn lemma_ids_distinct(wires: Seq<WireSpec>)
    requires
        crate::wiring::distinct(wires),
    ensures
        crate::schedule::ids_of(wires).no_duplicates(),
{
    let ids = crate::schedule::ids_of(wires);
    assert forall|i: int, j: int| 0 <= i < ids.len() && 0 <= j < ids.len() && i != j implies ids[i]
        != ids[j] by {
        assert(ids[i] == wires[i].id && ids[j] == wires[j].id);
        if i < j {
            assert(wires[i].id != wires[j].id);
        } else {
            assert(wires[j].id != wires[i].id);
        }
    }
}

/// A planned graph runs every one of its nodes, once.
pub proof fn law_plans_run_every_node(plan: PlanSpec, wires: Seq<WireSpec>, families: Families)
    requires
        crate::wiring::distinct(wires),
        is_plan(plan, wires, families),
    ensures
        plan.order.no_duplicates(),
        plan.order.len() == wires.len(),
        forall|i: int| 0 <= i < wires.len() ==> plan.order.contains((#[trigger] wires[i]).id),
{
    let ids = crate::schedule::ids_of(wires);
    lemma_ids_distinct(wires);
    assert forall|i: int| 0 <= i < wires.len() implies plan.order.contains(
        (#[trigger] wires[i]).id,
    ) by {
        assert(ids[i] == wires[i].id);
        assert(ids.contains(wires[i].id));
    }
    plan.order.unique_seq_to_set();
    ids.unique_seq_to_set();
    assert(plan.order.to_set() =~= ids.to_set()) by {
        assert forall|v: u64| plan.order.to_set().contains(v) <==> ids.to_set().contains(v) by {
            assert(plan.order.contains(v) <==> ids.contains(v));
        }
    }
}

/// A planned graph runs a node after every node that feeds it, and in a later wave:
/// each of the two is in one wave, and that of the feeding node comes first.
pub proof fn law_plans_follow_data(
    plan: PlanSpec,
    wires: Seq<WireSpec>,
    families: Families,
    from: int,
    to: int,
    early: int,
    late: int,
)
    requires
        crate::wiring::distinct(wires),
        is_plan(plan, wires, families),
        0 <= from < wires.len(),
        0 <= to < wires.len(),
        crate::order::feeds(plan.wiring, wires[from].id, wires[to].id),
        0 <= early < plan.waves.len(),
        0 <= late < plan.waves.len(),
        plan.waves[early].contains(wires[from].id),
        plan.waves[late].contains(wires[to].id),
    ensures
        plan.order.index_of(wires[from].id) < plan.order.index_of(wires[to].id),
        early < late,
{
    law_plans_run_every_node(plan, wires, families);
    let waves = crate::waves::waves_of(plan.wiring, plan.order);
    crate::waves::lemma_waves_bounded(plan.wiring, plan.order);
    let i = plan.order.index_of(wires[from].id);
    let j = plan.order.index_of(wires[to].id);
    assert(plan.order[i] == wires[from].id && plan.order[j] == wires[to].id);
    crate::waves::law_waves_follow_data(plan.wiring, plan.order, i, j);
    crate::waves::law_one_wave_each(plan.order, waves, i, early);
    crate::waves::law_one_wave_each(plan.order, waves, j, late);
}

/// Every node of a planned graph is in exactly one wave.
pub proof fn law_plans_put_each_node_in_one_wave(
    plan: PlanSpec,
    wires: Seq<WireSpec>,
    families: Families,
    i: int,
)
    requires
        crate::wiring::distinct(wires),
        is_plan(plan, wires, families),
        0 <= i < wires.len(),
    ensures
        exists|k: int|
            0 <= k < plan.waves.len() && (#[trigger] plan.waves[k]).contains(wires[i].id),
        forall|k: int, l: int|
            0 <= k < plan.waves.len() && 0 <= l < plan.waves.len() && (
            #[trigger] plan.waves[k]).contains(wires[i].id) && (#[trigger] plan.waves[l]).contains(
                wires[i].id,
            ) ==> k == l,
{
    law_plans_run_every_node(plan, wires, families);
    let waves = crate::waves::waves_of(plan.wiring, plan.order);
    crate::waves::lemma_waves_bounded(plan.wiring, plan.order);
    let at = plan.order.index_of(wires[i].id);
    assert(plan.order[at] == wires[i].id);
    crate::waves::law_one_wave_each(plan.order, waves, at, 0);
    crate::waves::law_one_wave_each(plan.order, waves, at, waves[at] as int);
    assert(plan.waves[waves[at] as int].contains(wires[i].id));
    assert forall|k: int, l: int|
        0 <= k < plan.waves.len() && 0 <= l < plan.waves.len() && (
        #[trigger] plan.waves[k]).contains(wires[i].id) && (#[trigger] plan.waves[l]).contains(
            wires[i].id,
        ) implies k == l by {
        crate::waves::law_one_wave_each(plan.order, waves, at, k);
        crate::waves::law_one_wave_each(plan.order, waves, at, l);
    }
}

proof fn lemma_node_wire_refs(scene: Scene, node: u64, reference: u64)
    ensures
        node_wire(scene, node).reads.contains(reference) || node_wire(
            scene,
            node,
        ).writes.contains(reference) ==> node_wire(scene, node).refs.contains(reference),
{
    crate::wiring::lemma_wire_refs(
        node,
        scene.nodes[node].parameters@,
        |r: u64| crate::refs::is_data(scene.types, scene.images, r),
        |i: int|
            crate::outputs::is_output(
                node_kernel_name(scene, node),
                node_declared(scene, node),
                i,
            ),
        reference,
    );
}

/// A node is fed by every other node that writes what shows in something it reads: the
/// same data, the image around a region, a region of the image, another region of
/// the same image, or the pyramid of a level.
pub proof fn law_readers_are_fed(
    plan: PlanSpec,
    scene: Scene,
    ids: Seq<u64>,
    families: Families,
    from: int,
    to: int,
    written: u64,
    read: u64,
)
    requires
        ids.no_duplicates(),
        is_plan(plan, scene_wires(scene, ids), families),
        0 <= from < ids.len(),
        0 <= to < ids.len(),
        from != to,
        scene_wires(scene, ids)[from].writes.contains(written),
        scene_wires(scene, ids)[to].reads.contains(read),
        crate::wiring::shows_in(written, read, families.region, families.level),
    ensures
        crate::order::feeds(plan.wiring, ids[from], ids[to]),
        plan.predecessors[ids[to]].contains(ids[from]),
        plan.order.index_of(ids[from]) < plan.order.index_of(ids[to]),
{
    let wires = scene_wires(scene, ids);
    assert(wires[from] == node_wire(scene, ids[from]) && wires[to] == node_wire(scene, ids[to]));
    assert(wires[from].id == ids[from] && wires[to].id == ids[to]);
    assert forall|a: int, b: int| 0 <= a < b < wires.len() implies (#[trigger] wires[a]).id != (
    #[trigger] wires[b]).id by {
        assert(wires[a].id == ids[a] && wires[b].id == ids[b]);
    }
    lemma_node_wire_refs(scene, ids[from], written);
    lemma_node_wire_refs(scene, ids[to], read);
    let d = choose|d: WiringSpec| #[trigger]
        crate::wiring::direct(d, wires) && plan.wiring == fully_wired(d, wires, families);
    let z = crate::wiring::lemma_connected(
        d,
        wires,
        families.region,
        families.level,
        from,
        to,
        written,
        read,
    );
    let outputs = crate::multimap::listed(plan.wiring.outputs, ids[from]);
    let k = outputs.index_of(z);
    assert(outputs[k] == z);
    assert(ids[from] != ids[to]);
    assert(crate::order::feeds(plan.wiring, ids[from], ids[to]));
    let all = crate::schedule::ids_of(wires);
    assert(all =~= ids);
    crate::waves::law_predecessors(plan.wiring, ids, ids[to], ids[from]);
    law_plans_run_every_node(plan, wires, families);
    let i = plan.order.index_of(ids[from]);
    let j = plan.order.index_of(ids[to]);
    assert(plan.order.contains(wires[from].id) && plan.order.contains(wires[to].id));
    assert(plan.order[i] == ids[from] && plan.order[j] == ids[to]);
}

/// A graph is refused for a node without its first parameter before anything else;
/// then for data with two writers or for nodes in a circle; and for nothing else.
pub proof fn law_structure_is_checked(
    nodes: Map<u64, NodeData>,
    ids: Seq<u64>,
    wires: Seq<WireSpec>,
    families: Families,
    k: int,
)
    ensures
        0 <= k < ids.len() && nodes[ids[k]].parameters@.len() == 0 ==> structure_status(
            nodes,
            ids,
            wires,
            families,
        ) == VX_ERROR_INVALID_PARAMETERS,
        0 <= k < ids.len() && nodes[ids[k]].parameters@.len() > 0 && (nodes[ids[k]].parameters@[0]
            is None || nodes[ids[k]].parameters@[0] == Some(0u64)) ==> structure_status(
            nodes,
            ids,
            wires,
            families,
        ) == VX_ERROR_INVALID_PARAMETERS,
        (forall|i: int|
            0 <= i < ids.len() ==> nodes[#[trigger] ids[i]].parameters@.len() > 0
                && nodes[ids[i]].parameters@[0] is Some && nodes[ids[i]].parameters@[0]->0 != 0)
            ==> structure_status(nodes, ids, wires, families) == if crate::wiring::has_two_writers(
            wires,
        ) || is_circular(wires, families) {
            VX_ERROR_INVALID_GRAPH
        } else {
            VX_SUCCESS
        },
{
    if 0 <= k < ids.len() && lacks_input(nodes[ids[k]]) {
        assert(some_lack_input(nodes, ids));
    }
}

/// A graph that is verified is recorded as such, in its state too; nothing else of
/// it changes, and no other graph.
pub proof fn law_verified_graphs(graphs: Map<u64, VxCGraphData>, graph: u64, other: u64)
    requires
        graphs.contains_key(graph),
        other != graph,
    ensures
        with_verified(graphs, graph)[graph].verified,
        with_verified(graphs, graph)[graph].state == VxGraphState::VxGraphStateVerified,
        with_verified(graphs, graph)[graph].nodes == graphs[graph].nodes,
        with_verified(graphs, graph)[graph].parameters == graphs[graph].parameters,
        with_verified(graphs, graph)[graph].run_count == graphs[graph].run_count,
        with_verified(graphs, graph).dom() == graphs.dom(),
        graphs.contains_key(other) ==> with_verified(graphs, graph)[other] == graphs[other],
{
    assert(with_verified(graphs, graph).dom() =~= graphs.dom());
}

/// What a node of a graph writes is the data at the output positions of its kernel,
/// and what it reads is the data at the others.
pub proof fn law_nodes_write_their_outputs(scene: Scene, node: u64, i: int, r: u64)
    requires
        0 <= i < scene.nodes[node].parameters@.len(),
        scene.nodes[node].parameters@[i] == Some(r),
        crate::refs::is_data(scene.types, scene.images, r),
    ensures
        crate::outputs::is_output(node_kernel_name(scene, node), node_declared(scene, node), i)
            ==> node_wire(scene, node).writes.contains(r),
        !crate::outputs::is_output(node_kernel_name(scene, node), node_declared(scene, node), i)
            ==> node_wire(scene, node).reads.contains(r),
{
    let data = |r: u64| crate::refs::is_data(scene.types, scene.images, r);
    let output = |i: int|
        crate::outputs::is_output(node_kernel_name(scene, node), node_declared(scene, node), i);
    let params = scene.nodes[node].parameters@;
    crate::wiring::law_positions_say_what_is_written(node, params, data, output, r);
    assert(node_wire(scene, node) == crate::wiring::wire_of(node, params, data, output));
    assert(data(r));
    assert(output(i) == crate::outputs::is_output(
        node_kernel_name(scene, node),
        node_declared(scene, node),
        i,
    ));
}

/// The nodes of a graph that are looked at are those that are known, in their order.
pub proof fn law_unknown_nodes_are_passed_over(
    nodes: Map<u64, NodeData>,
    ids: Seq<u64>,
    node: u64,
)
    ensures
        known_nodes(nodes, Seq::empty()).len() == 0,
        nodes.contains_key(node) ==> known_nodes(nodes, ids.push(node)) == known_nodes(
            nodes,
            ids,
        ).push(node),
        !nodes.contains_key(node) ==> known_nodes(nodes, ids.push(node)) == known_nodes(nodes, ids),
{
    reveal(Seq::filter);
    assert(ids.push(node).drop_last() =~= ids);
}

/// Preparing a graph reorders its nodes, groups them and records who goes before
/// whom; it changes nothing else of the graph, and no other graph.
pub proof fn law_prepared_graphs(
    graphs0: Map<u64, VxCGraphData>,
    graphs1: Map<u64, VxCGraphData>,
    graph: u64,
    plan: PlanSpec,
    wires: Seq<WireSpec>,
    families: Families,
    resolution: Resolution,
    images0: Map<u64, VxCImage>,
    images1: Map<u64, VxCImage>,
    infos1: Map<u64, VirtualImageInfo>,
    other: u64,
)
    requires
        is_prepared(
            graphs0,
            graphs1,
            graph,
            plan,
            wires,
            families,
            resolution,
            images0,
            images1,
            infos1,
        ),
        graphs0.contains_key(graph),
        graphs0.contains_key(other),
        other != graph,
    ensures
        graphs1.dom() == graphs0.dom(),
        graphs1[other] == graphs0[other],
        graphs1[graph].nodes@ == plan.order,
        graphs1[graph].verified == graphs0[graph].verified,
        graphs1[graph].state == graphs0[graph].state,
        graphs1[graph].parameters == graphs0[graph].parameters,
        graphs1[graph].topo_waves@.len() == plan.waves.len(),
        images1.dom() == images0.dom(),
        crate::virtual_images::shapes_of(images1) == resolution.shapes,
        infos1 == resolution.infos,
        is_plan(plan, wires, families),
{
    assert(graphs1.remove(graph)[other] == graphs0.remove(graph)[other]);
    let waves = graphs1[graph].topo_waves@;
    assert(waves.map_values(|v: Vec<u64>| v@).len() == waves.len());
}

/// Virtual images are resolved from what was recorded, starting with success.
pub proof fn law_resolution_starts_from_the_records(
    names: Seq<Seq<char>>,
    producer: Map<u64, u64>,
    types: Map<u64, vx_enum>,
    images: Map<u64, VxCImage>,
    infos: Map<u64, VirtualImageInfo>,
)
    ensures
        resolution_of(Seq::empty(), names, producer, types, images, infos).status == VX_SUCCESS,
        resolution_of(Seq::empty(), names, producer, types, images, infos).infos == infos,
        resolution_of(Seq::empty(), names, producer, types, images, infos).shapes
            == crate::virtual_images::shapes_of(images),
{
}

} // verus!
