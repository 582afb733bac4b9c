# openvx_core

The core of an OpenVX runtime, written and proved in Verus.

References are plain integers, with `0` for the null reference. Every registry is an
owned table. An entry point is a function from tables and values to tables and values,
and its contract says which status it answers and what it changes.

## Layout

- `src/`: the verified library.
  - Graphs: `graphs`, `verify`, `wiring`, `order`, `schedule`, `waves`, `outputs`,
    `virtual_images`, `pyramids`, `runs`, `execution`, `replicas`, `parameters`,
    `lifecycle`.
  - Kernels and nodes: `kernels`, `dispatch`, `user_kernels`, `kernel_registry`,
    `construction`, `image_nodes`, `feature_nodes`, `tensor_nodes`, `immediate`, `lookups`.
  - Data objects: `image`, `pixels`, `valid_rects`, `scalar`, `scalars`, `matrices`,
    `distributions`, `remaps`, `tensors`, `object_arrays`, `delays`, `exemplars`.
  - References and contexts: `refs`, `registry`, `contexts`, `naming`, `settings`,
    `meta_formats`, `user_structs`, `unsupported`.
- `tests/`: the library on concrete values.
- `app/`: the C interface. It turns pointers into plain values, calls the library on the
  global tables and writes the answers back. Image routines and object storage come from a
  host that is installed at start.

## Working step by step

What the library cannot do itself (calling a kernel function, allocating, running an image
routine) is described by the step that it answers. The caller performs the step and hands
the outcome back. Building a node, preparing a user kernel's node, running a graph and the
one-shot difference work this way.

## Laws

Functions named `law_…` state what holds of several calls together: that a plan runs each
node after the nodes it reads from, in a later wave, also where it reads them through a
region of an image or a level of a pyramid; that what was written is what is read; that
aging a delay comes round; that releasing is the reverse of retaining.
