//! Finding the name of the kernel that a node runs.
use vstd::prelude::*;
use crate::records::{VxCKernel, VxCUserKernel};
use crate::user_kernels::{UserKernels, kernel_key};
use std::collections::HashMap;

verus! {

broadcast use vstd::std_specs::hash::group_hash_axioms;

/// The kernels known by handle.
pub struct KernelTables {
    /// The kernels that contexts hand out.
    pub catalog: HashMap<u64, VxCKernel>,
    /// Kernels registered beside them.
    pub extra: HashMap<u64, VxCKernel>,
}

/// The name of a kernel in a table.
pub open spec fn name_in(kernels: Map<u64, VxCKernel>, kernel_id: u64) -> Option<Seq<char>> {
    if kernels.contains_key(kernel_id) {
        Some(kernels[kernel_id].name@)
    } else {
        None
    }
}

/// The name of a kernel of the application.
pub open spec fn user_name(kernels: Seq<VxCUserKernel>, kernel_id: u64) -> Option<Seq<char>> {
    match crate::user_kernels::position_of(kernels, crate::user_kernels::enum_of(kernel_id)) {
        Some(i) => Some(kernels[i as int].name@),
        None => None,
    }
}

/// The name of a kernel: from the catalog, from the kernels beside it, or from
/// the application's.
pub open spec fn kernel_name(
    catalog: Map<u64, VxCKernel>,
    extra: Map<u64, VxCKernel>,
    user: Seq<VxCUserKernel>,
    kernel_id: u64,
) -> Option<Seq<char>> {
    match name_in(catalog, kernel_id) {
        Some(name) => Some(name),
        None => match name_in(extra, kernel_id) {
            Some(name) => Some(name),
            None => user_name(user, kernel_id),
        },
    }
}

/// A name that may be missing, as its characters.
pub open spec fn characters_of(name: Option<String>) -> Option<Seq<char>> {
    match name {
        Some(s) => Some(s@),
        None => None,
    }
}

/// Finds the name of a kernel in a table.
pub fn find_name_in(kernels: &HashMap<u64, VxCKernel>, kernel_id: u64) -> (r: Option<String>)
    ensures
        characters_of(r) == name_in(kernels@, kernel_id),
{
    match kernels.get(&kernel_id) {
        Some(kernel) => Some(kernel.name.clone()),
        None => None,
    }
}

/// Finds the name of a kernel.
pub fn find_kernel_name(
    tables: &KernelTables,
    user_kernels: &UserKernels,
    kernel_id: u64,
) -> (r: Option<String>)
    ensures
        characters_of(r) == kernel_name(
            tables.catalog@,
            tables.extra@,
            user_kernels.kernels@,
            kernel_id,
        ),
{
    if let Some(name) = find_name_in(&tables.catalog, kernel_id) {
        return Some(name);
    }
    if let Some(name) = find_name_in(&tables.extra, kernel_id) {
        return Some(name);
    }
    match user_kernels.find(kernel_key(kernel_id)) {
        Some(i) => Some(user_kernels.kernels[i].name.clone()),
        None => None,
    }
}

/// The name of a kernel comes from the catalog; where the catalog has none, from the
/// kernels beside it, and only then from the application's.
pub proof fn law_names_come_from_the_catalog_first(
    catalog: Map<u64, VxCKernel>,
    extra: Map<u64, VxCKernel>,
    user: Seq<VxCUserKernel>,
    kernel_id: u64,
)
    ensures
        catalog.contains_key(kernel_id) ==> kernel_name(catalog, extra, user, kernel_id) == Some(
            catalog[kernel_id].name@,
        ),
        !catalog.contains_key(kernel_id) && extra.contains_key(kernel_id) ==> kernel_name(
            catalog,
            extra,
            user,
            kernel_id,
        ) == Some(extra[kernel_id].name@),
        !catalog.contains_key(kernel_id) && !extra.contains_key(kernel_id) ==> kernel_name(
            catalog,
            extra,
            user,
            kernel_id,
        ) == match crate::user_kernels::position_of(
            user,
            crate::user_kernels::enum_of(kernel_id),
        ) {
            Some(i) => Some(user[i as int].name@),
            None => None,
        },
{
}

} // verus!
