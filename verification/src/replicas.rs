//! Replicated nodes: the parameter lists a node runs with when it runs once for each
//! object of an array or each level of a pyramid.
use vstd::prelude::*;
use crate::multimap::copied;
use crate::records::{NodeData, VxCGraphData, VxCObjectArray, VxCPyramid};
use crate::refs::References;
use crate::types::{VX_TYPE_OBJECT_ARRAY, VX_TYPE_PYRAMID, vx_bool, vx_enum};
use std::collections::HashMap;

verus! {

broadcast use vstd::std_specs::hash::group_hash_axioms;

/// The tables that say which container an object belongs to.
pub struct Containers {
    /// The array and position that an object was fetched from.
    pub item_parents: HashMap<u64, (u64, u32)>,
    /// The pyramid and level of a level image.
    pub levels: HashMap<u64, (u64, usize)>,
    pub object_arrays: HashMap<u64, VxCObjectArray>,
    pub pyramids: HashMap<u64, VxCPyramid>,
}

/// A container: how many objects it announces, and the objects.
pub struct Container {
    pub count: usize,
    pub items: Seq<u64>,
}

/// The live container that an object belongs to: the array it was fetched from, or
/// the pyramid it is a level of.
pub open spec fn container_of(
    c: Containers,
    types: Map<u64, vx_enum>,
    reference: u64,
) -> Option<Container> {
    let array = c.item_parents@[reference].0;
    let pyramid = c.levels@[reference].0;
    if c.item_parents@.contains_key(reference) && is_live(types, array, VX_TYPE_OBJECT_ARRAY)
        && c.object_arrays@.contains_key(array) {
        Some(
            Container { count: c.object_arrays@[array].count, items: c.object_arrays@[array].items@ },
        )
    } else if c.levels@.contains_key(reference) && is_live(types, pyramid, VX_TYPE_PYRAMID)
        && c.pyramids@.contains_key(pyramid) {
        Some(
            Container { count: c.pyramids@[pyramid].num_levels, items: c.pyramids@[pyramid].levels@ },
        )
    } else {
        None
    }
}

/// Whether a reference is live and of a type.
pub open spec fn is_live(types: Map<u64, vx_enum>, reference: u64, t: vx_enum) -> bool {
    reference != 0 && types.contains_key(reference) && types[reference] == t
}

/// Whether the parameter at a position is replicated.
pub open spec fn is_replicated(params: Seq<u64>, flags: Seq<vx_bool>, i: int) -> bool {
    i < flags.len() && flags[i] != 0 && params[i] != 0
}

/// Whether every replicated parameter among the first `n` has a container that is not
/// empty.
pub open spec fn have_containers(
    c: Containers,
    types: Map<u64, vx_enum>,
    params: Seq<u64>,
    flags: Seq<vx_bool>,
    n: int,
) -> bool {
    forall|i: int|
        0 <= i < n && is_replicated(params, flags, i) ==> (match container_of(
            c,
            types,
            #[trigger] params[i],
        ) {
            Some(k) => k.count > 0,
            None => false,
        })
}

/// How often a node runs: as often as the smallest container of a replicated
/// parameter among the first `n` announces; `None` without one.
pub open spec fn replica_count(
    c: Containers,
    types: Map<u64, vx_enum>,
    params: Seq<u64>,
    flags: Seq<vx_bool>,
    n: nat,
) -> Option<usize>
    decreases n,
{
    if n == 0 {
        None
    } else {
        let before = replica_count(c, types, params, flags, (n - 1) as nat);
        if is_replicated(params, flags, n - 1) {
            let count = container_of(c, types, params[n - 1]).unwrap().count;
            match before {
                Some(b) => Some(
                    if b < count {
                        b
                    } else {
                        count
                    },
                ),
                None => Some(count),
            }
        } else {
            before
        }
    }
}

/// The parameters of one run: each replicated one is the object of its container at
/// the run's position.
pub open spec fn replica(
    c: Containers,
    types: Map<u64, vx_enum>,
    params: Seq<u64>,
    flags: Seq<vx_bool>,
    run: int,
) -> Seq<u64> {
    Seq::new(
        params.len(),
        |i: int|
            if is_replicated(params, flags, i) {
                container_of(c, types, params[i]).unwrap().items[run]
            } else {
                params[i]
            },
    )
}

/// Whether every container of a replicated parameter has an object for each of
/// `count` runs.
pub open spec fn have_objects(
    c: Containers,
    types: Map<u64, vx_enum>,
    params: Seq<u64>,
    flags: Seq<vx_bool>,
    count: usize,
) -> bool {
    forall|i: int|
        0 <= i < params.len() && is_replicated(params, flags, i) ==> count <= container_of(
            c,
            types,
            #[trigger] params[i],
        ).unwrap().items.len()
}

/// Whether a node can run once for each object of the containers of its replicated
/// parameters.
pub open spec fn can_replicate(
    c: Containers,
    types: Map<u64, vx_enum>,
    params: Seq<u64>,
    flags: Seq<vx_bool>,
) -> bool {
    &&& have_containers(c, types, params, flags, params.len() as int)
    &&& replica_count(c, types, params, flags, params.len()) is Some
    &&& have_objects(
        c,
        types,
        params,
        flags,
        replica_count(c, types, params, flags, params.len()).unwrap(),
    )
}

fn find_container(c: &Containers, refs: &References, reference: u64) -> (r: Option<
    (usize, Vec<u64>),
>)
    ensures
        match r {
            Some(k) => container_of(*c, refs.types@, reference) == Some(
                Container { count: k.0, items: k.1@ },
            ),
            None => container_of(*c, refs.types@, reference) is None,
        },
{
    if let Some(parent) = c.item_parents.get(&reference) {
        if refs.is_reference_type(parent.0, VX_TYPE_OBJECT_ARRAY) {
            if let Some(a) = c.object_arrays.get(&parent.0) {
                return Some((a.count, copied(&a.items)));
            }
        }
    }
    if let Some(level) = c.levels.get(&reference) {
        if refs.is_reference_type(level.0, VX_TYPE_PYRAMID) {
            if let Some(p) = c.pyramids.get(&level.0) {
                return Some((p.num_levels, copied(&p.levels)));
            }
        }
    }
    None
}

/// Builds the parameter lists a replicated node runs with, one for each run.  `None`
/// where it cannot be replicated.
pub fn build_node_replicas(
    c: &Containers,
    refs: &References,
    params: &Vec<u64>,
    flags: &Vec<vx_bool>,
) -> (r: Option<Vec<Vec<u64>>>)
    ensures
        match r {
            Some(list) => {
                &&& can_replicate(*c, refs.types@, params@, flags@)
                &&& list@.len() == replica_count(
                    *c,
                    refs.types@,
                    params@,
                    flags@,
                    params@.len(),
                ).unwrap()
                &&& forall|run: int|
                    0 <= run < list@.len() ==> (#[trigger] list@[run])@ == replica(
                        *c,
                        refs.types@,
                        params@,
                        flags@,
                        run,
                    )
            },
            None => !can_replicate(*c, refs.types@, params@, flags@),
        },
{
    let ghost types = refs.types@;
    let mut count: Option<usize> = None;
    let mut sources: Vec<Option<Vec<u64>>> = Vec::new();
    for i in 0..params.len()
        invariant
            types == refs.types@,
            have_containers(*c, types, params@, flags@, i as int),
            count == replica_count(*c, types, params@, flags@, i as nat),
            sources@.len() == i,
            forall|k: int|
                0 <= k < i ==> (match #[trigger] sources@[k] {
                    Some(items) => is_replicated(params@, flags@, k) && items@ == container_of(
                        *c,
                        types,
                        params@[k],
                    ).unwrap().items,
                    None => !is_replicated(params@, flags@, k),
                }),
    {
        if i < flags.len() && flags[i] != 0 && params[i] != 0 {
            assert(is_replicated(params@, flags@, i as int));
            match find_container(c, refs, params[i]) {
                Some(k) => {
                    let (announced, items) = k;
                    if announced == 0 {
                        assert(!have_containers(
                            *c,
                            types,
                            params@,
                            flags@,
                            params@.len() as int,
                        )) by {
                            assert(container_of(*c, types, params@[i as int]).unwrap().count == 0);
                        }
                        return None;
                    }
                    count = match count {
                        Some(b) => if b < announced {
                            Some(b)
                        } else {
                            Some(announced)
                        },
                        None => Some(announced),
                    };
                    sources.push(Some(items));
                },
                None => {
                    assert(container_of(*c, types, params@[i as int]) is None);
                    return None;
                },
            }
        } else {
            assert(!is_replicated(params@, flags@, i as int));
            sources.push(None);
        }
    }
    let count: usize = match count {
        Some(n) => n,
        None => {
            return None;
        },
    };
    let mut list: Vec<Vec<u64>> = Vec::new();
    for i in 0..sources.len()
        invariant
            types == refs.types@,
            sources@.len() == params@.len(),
            Some(count) == replica_count(*c, types, params@, flags@, params@.len()),
            forall|k: int|
                0 <= k < params@.len() ==> (match #[trigger] sources@[k] {
                    Some(items) => is_replicated(params@, flags@, k) && items@ == container_of(
                        *c,
                        types,
                        params@[k],
                    ).unwrap().items,
                    None => !is_replicated(params@, flags@, k),
                }),
            forall|k: int|
                0 <= k < i && is_replicated(params@, flags@, k) ==> count <= container_of(
                    *c,
                    types,
                    #[trigger] params@[k],
                ).unwrap().items.len(),
    {
        assert(sources@[i as int] is Some == is_replicated(params@, flags@, i as int));
        if let Some(items) = &sources[i] {
            if items.len() < count {
                assert(!have_objects(*c, types, params@, flags@, count)) by {
                    assert(container_of(*c, types, params@[i as int]).unwrap().items.len() < count);
                }
                return None;
            }
        }
    }
    for run in 0..count
        invariant
            types == refs.types@,
            sources@.len() == params@.len(),
            have_objects(*c, types, params@, flags@, count),
            forall|k: int|
                0 <= k < params@.len() ==> (match #[trigger] sources@[k] {
                    Some(items) => is_replicated(params@, flags@, k) && items@ == container_of(
                        *c,
                        types,
                        params@[k],
                    ).unwrap().items,
                    None => !is_replicated(params@, flags@, k),
                }),
            list@.len() == run,
            forall|k: int|
                0 <= k < run ==> (#[trigger] list@[k])@ == replica(
                    *c,
                    types,
                    params@,
                    flags@,
                    k,
                ),
    {
        let mut one: Vec<u64> = Vec::new();
        for i in 0..params.len()
            invariant
                types == refs.types@,
                run < count,
                sources@.len() == params@.len(),
                have_objects(*c, types, params@, flags@, count),
                forall|k: int|
                    0 <= k < params@.len() ==> (match #[trigger] sources@[k] {
                        Some(items) => is_replicated(params@, flags@, k) && items@ == container_of(
                            *c,
                            types,
                            params@[k],
                        ).unwrap().items,
                        None => !is_replicated(params@, flags@, k),
                    }),
                one@.len() == i,
                forall|k: int|
                    0 <= k < i ==> one@[k] == replica(
                        *c,
                        types,
                        params@,
                        flags@,
                        run as int,
                    )[k],
        {
            assert(sources@[i as int] is Some == is_replicated(params@, flags@, i as int));
            assert(is_replicated(params@, flags@, i as int) ==> count <= container_of(
                *c,
                types,
                params@[i as int],
            ).unwrap().items.len());
            match &sources[i] {
                Some(items) => {
                    one.push(items[run]);
                },
                None => {
                    one.push(params[i]);
                },
            }
        }
        assert(one@ =~= replica(*c, types, params@, flags@, run as int));
        list.push(one);
    }
    Some(list)
}

/// The flags of a replicated node, where it is one.
pub open spec fn replication_flags(
    graphs: Map<u64, VxCGraphData>,
    nodes: Map<u64, NodeData>,
    node: u64,
) -> Option<Seq<vx_bool>> {
    let graph = nodes[node].graph_id;
    if nodes.contains_key(node) && graphs.contains_key(graph)
        && graphs[graph].replicated_nodes@.contains_key(node) {
        Some(graphs[graph].replicated_nodes@[node]@)
    } else {
        None
    }
}

/// Finds the graph that a node belongs to.
pub fn get_node_graph_id(nodes: &HashMap<u64, NodeData>, node_id: u64) -> (r: Result<u64, ()>)
    ensures
        r == if nodes@.contains_key(node_id) {
            Ok(nodes@[node_id].graph_id)
        } else {
            Err(())
        },
{
    match nodes.get(&node_id) {
        Some(n) => Ok(n.graph_id),
        None => Err(()),
    }
}

/// Finds the flags of a replicated node.
pub fn lookup_node_replication_flags(
    graphs: &HashMap<u64, VxCGraphData>,
    nodes: &HashMap<u64, NodeData>,
    node_id: u64,
) -> (r: Option<Vec<vx_bool>>)
    ensures
        match r {
            Some(flags) => replication_flags(graphs@, nodes@, node_id) == Some(flags@),
            None => replication_flags(graphs@, nodes@, node_id) is None,
        },
{
    match get_node_graph_id(nodes, node_id) {
        Ok(graph) => match graphs.get(&graph) {
            Some(g) => match g.replicated_nodes.get(&node_id) {
                Some(flags) => {
                    let list = flags.clone();
                    assert(list@ =~= flags@);
                    Some(list)
                },
                None => None,
            },
            None => None,
        },
        Err(_) => None,
    }
}

/// A node runs no more often than any container of its replicated parameters
/// announces.
pub proof fn law_smallest_container_counts(
    c: Containers,
    types: Map<u64, vx_enum>,
    params: Seq<u64>,
    flags: Seq<vx_bool>,
    n: nat,
    i: int,
)
    requires
        n <= params.len(),
        0 <= i < n,
        is_replicated(params, flags, i),
    ensures
        replica_count(c, types, params, flags, n) is Some,
        replica_count(c, types, params, flags, n).unwrap() <= container_of(
            c,
            types,
            params[i],
        ).unwrap().count,
    decreases n,
{
    if i < n - 1 {
        law_smallest_container_counts(c, types, params, flags, (n - 1) as nat, i);
    }
}

/// Parameters that are not replicated are the same in every run.
pub proof fn law_other_parameters_pass(
    c: Containers,
    types: Map<u64, vx_enum>,
    params: Seq<u64>,
    flags: Seq<vx_bool>,
    run: int,
    i: int,
)
    requires
        0 <= i < params.len(),
        !is_replicated(params, flags, i),
    ensures
        replica(c, types, params, flags, run)[i] == params[i],
{
}

/// In each run of a replicated node, a replicated parameter is the object of its
/// container at the position of the run, and any other parameter stays.
pub proof fn law_replicas_take_the_objects_in_order(
    c: Containers,
    types: Map<u64, vx_enum>,
    params: Seq<u64>,
    flags: Seq<vx_bool>,
    run: int,
    i: int,
)
    requires
        0 <= i < params.len(),
        i < flags.len(),
        params[i] != 0,
    ensures
        replica(c, types, params, flags, run).len() == params.len(),
        flags[i] == 0 ==> replica(c, types, params, flags, run)[i] == params[i],
        flags[i] != 0 && container_of(c, types, params[i]) is Some ==> replica(
            c,
            types,
            params,
            flags,
            run,
        )[i] == container_of(c, types, params[i])->0.items[run],
{
}

/// An object that was fetched from an array belongs to the array, and one that is a
/// level of a pyramid to the pyramid, as long as they live.
pub proof fn law_objects_belong_to_their_container(
    c: Containers,
    types: Map<u64, vx_enum>,
    reference: u64,
)
    ensures
        c.item_parents@.contains_key(reference) && c.item_parents@[reference].0 != 0
            && types.contains_key(c.item_parents@[reference].0)
            && types[c.item_parents@[reference].0] == VX_TYPE_OBJECT_ARRAY
            && c.object_arrays@.contains_key(c.item_parents@[reference].0) ==> {
            let a = c.object_arrays@[c.item_parents@[reference].0];
            &&& container_of(c, types, reference) is Some
            &&& container_of(c, types, reference)->0.count == a.count
            &&& container_of(c, types, reference)->0.items == a.items@
        },
        !c.item_parents@.contains_key(reference) && c.levels@.contains_key(reference)
            && c.levels@[reference].0 != 0 && types.contains_key(c.levels@[reference].0)
            && types[c.levels@[reference].0] == VX_TYPE_PYRAMID && c.pyramids@.contains_key(
            c.levels@[reference].0,
        ) ==> {
            let p = c.pyramids@[c.levels@[reference].0];
            &&& container_of(c, types, reference) is Some
            &&& container_of(c, types, reference)->0.count == p.num_levels
            &&& container_of(c, types, reference)->0.items == p.levels@
        },
        !c.item_parents@.contains_key(reference) && !c.levels@.contains_key(reference)
            ==> container_of(c, types, reference) is None,
{
}

/// The flags of a replicated node are those that its own graph recorded for it.
pub proof fn law_flags_come_from_the_graph(
    graphs: Map<u64, VxCGraphData>,
    nodes: Map<u64, NodeData>,
    node: u64,
)
    ensures
        nodes.contains_key(node) && graphs.contains_key(nodes[node].graph_id)
            && graphs[nodes[node].graph_id].replicated_nodes@.contains_key(node)
            ==> replication_flags(graphs, nodes, node) == Some(
            graphs[nodes[node].graph_id].replicated_nodes@[node]@,
        ),
        !nodes.contains_key(node) ==> replication_flags(graphs, nodes, node) is None,
        nodes.contains_key(node) && graphs.contains_key(nodes[node].graph_id)
            && !graphs[nodes[node].graph_id].replicated_nodes@.contains_key(node)
            ==> replication_flags(graphs, nodes, node) is None,
{
}

/// A parameter can be replicated where it lies in a container that is not empty.
pub proof fn law_containers_need_an_object(
    c: Containers,
    types: Map<u64, vx_enum>,
    reference: u64,
    k: Container,
)
    requires
        reference != 0,
    ensures
        container_of(c, types, reference) == Some(k) && k.count >= 1 ==> have_containers(
            c,
            types,
            seq![reference],
            seq![1i32],
            1,
        ),
        container_of(c, types, reference) == Some(k) && k.count == 0 ==> !have_containers(
            c,
            types,
            seq![reference],
            seq![1i32],
            1,
        ),
        container_of(c, types, reference) is None ==> !have_containers(
            c,
            types,
            seq![reference],
            seq![1i32],
            1,
        ),
        have_containers(c, types, seq![reference], seq![0i32], 1),
{
    let params = seq![reference];
    assert(params[0] == reference);
    assert(is_replicated(params, seq![1i32], 0));
    assert(!is_replicated(params, seq![0i32], 0));
}

/// A container serves as many runs as it has objects, and no more.
pub proof fn law_containers_serve_their_objects(
    c: Containers,
    types: Map<u64, vx_enum>,
    reference: u64,
    k: Container,
    count: usize,
)
    requires
        reference != 0,
        container_of(c, types, reference) == Some(k),
    ensures
        have_objects(c, types, seq![reference], seq![1i32], count) <==> count <= k.items.len(),
        have_objects(c, types, seq![reference], seq![0i32], count),
{
    let params = seq![reference];
    assert(params[0] == reference);
    assert(is_replicated(params, seq![1i32], 0));
    assert(!is_replicated(params, seq![0i32], 0));
}

/// A parameter is replicated where its flag is set and it is not null; without a
/// flag it is not.
pub proof fn law_replicated_parameters(params: Seq<u64>, flags: Seq<vx_bool>, i: int)
    requires
        0 <= i < params.len(),
    ensures
        i < flags.len() && flags[i] != 0 && params[i] != 0 ==> is_replicated(params, flags, i),
        i >= flags.len() ==> !is_replicated(params, flags, i),
        i < flags.len() && flags[i] == 0 ==> !is_replicated(params, flags, i),
        params[i] == 0 ==> !is_replicated(params, flags, i),
{
}

} // verus!
