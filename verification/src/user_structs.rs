//! Struct types that the application registers: each has a name, a size and a
//! number of its own.
use vstd::prelude::*;
use crate::types::{
    VX_ERROR_INVALID_PARAMETERS, VX_ERROR_INVALID_REFERENCE, VX_ERROR_NO_MEMORY, VX_FAILURE,
    VX_TYPE_INVALID, vx_enum, vx_status,
};
use crate::user_kernels::kernel_key;

verus! {

/// The first number of a registered struct type.
pub const USER_STRUCT_START: u64 = 0x100;

/// A registered struct type.  The name is held as its bytes.
pub struct UserStruct {
    pub enumeration: vx_enum,
    pub name: Vec<u8>,
    pub size: usize,
}

/// The mathematical value of [`UserStruct`].
#[verifier::ext_equal]
pub struct UserStructSpec {
    pub enumeration: vx_enum,
    pub name: Seq<u8>,
    pub size: usize,
}

impl View for UserStruct {
    type V = UserStructSpec;

    open spec fn view(&self) -> UserStructSpec {
        UserStructSpec { enumeration: self.enumeration, name: self.name@, size: self.size }
    }
}

/// The registered struct types.
pub struct UserStructs {
    pub structs: Vec<UserStruct>,
    /// The number handed out next.
    pub next: u64,
}

/// The values of a list of struct types.
pub open spec fn values_of(structs: Seq<UserStruct>) -> Seq<UserStructSpec> {
    structs.map_values(|s: UserStruct| s@)
}

/// Whether the struct type at a position has a name.
pub open spec fn named_at(structs: Seq<UserStructSpec>, name: Seq<u8>) -> spec_fn(int) -> bool {
    |i: int| structs[i].name == name
}

/// Whether the struct type at a position has a number.
pub open spec fn numbered_at(structs: Seq<UserStructSpec>, enumeration: vx_enum) -> spec_fn(
    int,
) -> bool {
    |i: int| structs[i].enumeration == enumeration
}

/// The number of the struct type with a name.
pub open spec fn enum_named(structs: Seq<UserStructSpec>, name: Seq<u8>) -> Option<vx_enum> {
    match crate::search::first_where(structs.len(), named_at(structs, name)) {
        Some(i) => Some(structs[i as int].enumeration),
        None => None,
    }
}

/// The name of the struct type with a number.
pub open spec fn name_numbered(structs: Seq<UserStructSpec>, enumeration: vx_enum) -> Option<
    Seq<u8>,
> {
    match crate::search::first_where(structs.len(), numbered_at(structs, enumeration)) {
        Some(i) => Some(structs[i as int].name),
        None => None,
    }
}

/// The struct types with one more; one with the same number is replaced.
pub open spec fn with_struct(structs: Seq<UserStructSpec>, added: UserStructSpec) -> Seq<
    UserStructSpec,
> {
    match crate::search::first_where(structs.len(), numbered_at(structs, added.enumeration)) {
        Some(i) => structs.update(i as int, added),
        None => structs.push(added),
    }
}

/// Whether no two struct types share a name or a number.
pub open spec fn all_distinct(structs: Seq<UserStructSpec>) -> bool {
    forall|i: int, j: int|
        0 <= i < j < structs.len() ==> {
            &&& (#[trigger] structs[i]).name != (#[trigger] structs[j]).name
            &&& structs[i].enumeration != structs[j].enumeration
        }
}

impl UserStructs {
    /// Whether no two struct types share a name or a number.
    pub open spec fn wf(&self) -> bool {
        all_distinct(values_of(self.structs@))
    }

    /// No struct types.
    pub fn new() -> (r: Self)
        ensures
            r.wf(),
            r.structs@.len() == 0,
            r.next == USER_STRUCT_START,
    {
        UserStructs { structs: Vec::new(), next: USER_STRUCT_START }
    }

    /// Finds the struct type with a name.
    pub fn find_named(&self, name: &Vec<u8>) -> (r: Option<usize>)
        ensures
            match r {
                Some(i) => i < self.structs@.len() && crate::search::first_where(
                    self.structs@.len(),
                    named_at(values_of(self.structs@), name@),
                ) == Some(i as nat),
                None => crate::search::first_where(
                    self.structs@.len(),
                    named_at(values_of(self.structs@), name@),
                ) is None,
            },
    {
        let ghost holds = named_at(values_of(self.structs@), name@);
        for i in 0..self.structs.len()
            invariant
                holds == named_at(values_of(self.structs@), name@),
                forall|j: int| 0 <= j < i ==> !#[trigger] holds(j),
        {
            if same_bytes(&self.structs[i].name, name) {
                proof {
                    assert(holds(i as int));
                    crate::search::lemma_is_first(self.structs@.len(), holds, i as nat);
                }
                return Some(i);
            }
        }
        proof {
            crate::search::lemma_is_nowhere(self.structs@.len(), holds);
        }
        None
    }

    /// Finds the struct type with a number.
    pub fn find_numbered(&self, enumeration: vx_enum) -> (r: Option<usize>)
        ensures
            match r {
                Some(i) => i < self.structs@.len() && crate::search::first_where(
                    self.structs@.len(),
                    numbered_at(values_of(self.structs@), enumeration),
                ) == Some(i as nat),
                None => crate::search::first_where(
                    self.structs@.len(),
                    numbered_at(values_of(self.structs@), enumeration),
                ) is None,
            },
    {
        let ghost holds = numbered_at(values_of(self.structs@), enumeration);
        for i in 0..self.structs.len()
            invariant
                holds == numbered_at(values_of(self.structs@), enumeration),
                forall|j: int| 0 <= j < i ==> !#[trigger] holds(j),
        {
            if self.structs[i].enumeration == enumeration {
                proof {
                    assert(holds(i as int));
                    crate::search::lemma_is_first(self.structs@.len(), holds, i as nat);
                }
                return Some(i);
            }
        }
        proof {
            crate::search::lemma_is_nowhere(self.structs@.len(), holds);
        }
        None
    }
}

/// Whether two lists of bytes are the same.
pub fn same_bytes(a: &Vec<u8>, b: &Vec<u8>) -> (r: bool)
    ensures
        r == (a@ == b@),
{
    if a.len() != b.len() {
        return false;
    }
    for i in 0..a.len()
        invariant
            a@.len() == b@.len(),
            forall|j: int| 0 <= j < i ==> a@[j] == b@[j],
    {
        if a[i] != b[i] {
            return false;
        }
    }
    assert(a@ =~= b@);
    true
}

/// The number a struct type gets: the low half of the counter.
pub open spec fn fresh_enum(next: u64) -> vx_enum {
    crate::user_kernels::enum_of(next)
}

/// The counter after one number was handed out.
pub open spec fn next_after(next: u64) -> u64 {
    if next == u64::MAX {
        0
    } else {
        (next + 1) as u64
    }
}

/// Registers a struct type under a name, and answers its number.  A name that is
/// registered already keeps its number.  `None` stands for a null name or one
/// that is not text.
pub fn vxRegisterUserStructWithName(
    structs: &mut UserStructs,
    context: u64,
    size: usize,
    struct_name: Option<Vec<u8>>,
) -> (r: vx_enum)
    requires
        old(structs).wf(),
    ensures
        final(structs).wf(),
        ({
            let known = values_of(old(structs).structs@);
            if size == 0 || context == 0 || struct_name is None {
                r == VX_TYPE_INVALID && *final(structs) == *old(structs)
            } else {
                match enum_named(known, struct_name->0@) {
                    Some(e) => r == e && *final(structs) == *old(structs),
                    None => {
                        &&& r == fresh_enum(old(structs).next)
                        &&& final(structs).next == next_after(old(structs).next)
                        &&& values_of(final(structs).structs@) == with_struct(
                            known,
                            UserStructSpec { enumeration: r, name: struct_name->0@, size },
                        )
                    },
                }
            }
        }),
{
    if size == 0 || context == 0 {
        return VX_TYPE_INVALID;
    }
    let name = match struct_name {
        Some(n) => n,
        None => return VX_TYPE_INVALID,
    };
    let ghost known = values_of(structs.structs@);
    if let Some(i) = structs.find_named(&name) {
        return structs.structs[i].enumeration;
    }
    let new_enum: vx_enum = kernel_key(structs.next);
    structs.next = if structs.next == u64::MAX {
        0
    } else {
        structs.next + 1
    };
    let ghost added = UserStructSpec { enumeration: new_enum, name: name@, size };
    let entry = UserStruct { enumeration: new_enum, name, size };
    proof {
        crate::search::lemma_first_where(known.len(), named_at(known, name@));
        crate::search::lemma_first_where(known.len(), numbered_at(known, new_enum));
        assert forall|i: int| 0 <= i < known.len() implies (#[trigger] known[i]).name != name@ by {
            assert(!named_at(known, name@)(i));
        }
    }
    match structs.find_numbered(new_enum) {
        Some(i) => {
            structs.structs.set(i, entry);
            proof {
                assert(numbered_at(known, new_enum)(i as int));
                assert(values_of(structs.structs@) =~= known.update(i as int, added));
            }
        },
        None => {
            structs.structs.push(entry);
            proof {
                assert(values_of(structs.structs@) =~= known.push(added));
                assert forall|i: int| 0 <= i < known.len() implies (#[trigger] known[i]).enumeration
                    != new_enum by {
                    assert(!numbered_at(known, new_enum)(i));
                }
            }
        },
    }
    new_enum
}

/// The decimal digits of a number.
pub open spec fn digits(n: nat) -> Seq<u8>
    decreases n,
{
    if n < 10 {
        seq![(48 + n) as u8]
    } else {
        digits(n / 10).push((48 + n % 10) as u8)
    }
}

/// The name of a struct type that has none of its own: "user_struct_" and the
/// number that would be handed out next.
pub open spec fn default_name(next: u64) -> Seq<u8> {
    seq![117u8, 115, 101, 114, 95, 115, 116, 114, 117, 99, 116, 95] + digits(next as nat)
}

/// Writes the decimal digits of a number behind some text.
fn push_digits(text: &mut Vec<u8>, n: u64)
    ensures
        final(text)@ == old(text)@ + digits(n as nat),
    decreases n,
{
    if n >= 10 {
        push_digits(text, n / 10);
    }
    text.push(48 + (n % 10) as u8);
    proof {
        assert((n / 10) as nat == (n as nat) / 10);
        assert(text@ =~= old(text)@ + digits(n as nat));
    }
}

/// Registers a struct type without a name of its own.
pub fn vxRegisterUserStruct(structs: &mut UserStructs, context: u64, size: usize) -> (r: vx_enum)
    requires
        old(structs).wf(),
    ensures
        final(structs).wf(),
        ({
            let known = values_of(old(structs).structs@);
            let name = default_name(old(structs).next);
            if size == 0 || context == 0 {
                r == VX_TYPE_INVALID && *final(structs) == *old(structs)
            } else {
                match enum_named(known, name) {
                    Some(e) => r == e && *final(structs) == *old(structs),
                    None => {
                        &&& r == fresh_enum(old(structs).next)
                        &&& final(structs).next == next_after(old(structs).next)
                        &&& values_of(final(structs).structs@) == with_struct(
                            known,
                            UserStructSpec { enumeration: r, name, size },
                        )
                    },
                }
            }
        }),
{
    let mut name: Vec<u8> = vec![117, 115, 101, 114, 95, 115, 116, 114, 117, 99, 116, 95];
    push_digits(&mut name, structs.next);
    assert(name@ =~= default_name(structs.next));
    vxRegisterUserStructWithName(structs, context, size, Some(name))
}

/// What the question for the name of a struct type is answered: as much of the
/// name as fits, with a closing zero.
pub open spec fn name_answer(
    structs: Seq<UserStructSpec>,
    context: u64,
    enumeration: vx_enum,
    ptr: u64,
    size: usize,
) -> Result<Seq<u8>, vx_status> {
    if context == 0 || ptr == 0 {
        Err(VX_ERROR_INVALID_PARAMETERS)
    } else {
        match name_numbered(structs, enumeration) {
            Some(name) => if size == 0 {
                Err(VX_ERROR_NO_MEMORY)
            } else if name.len() < size {
                Ok(name.push(0))
            } else {
                Ok(name.take(size - 1).push(0))
            },
            None => Err(VX_FAILURE),
        }
    }
}

/// Answers the name of a struct type.
pub fn vxGetUserStructNameByEnum(
    structs: &UserStructs,
    context: u64,
    user_struct_type: vx_enum,
    struct_name: u64,
    size: usize,
) -> (r: Result<Vec<u8>, vx_status>)
    ensures
        match r {
            Ok(text) => name_answer(
                values_of(structs.structs@),
                context,
                user_struct_type,
                struct_name,
                size,
            ) == Ok::<Seq<u8>, vx_status>(text@),
            Err(e) => name_answer(
                values_of(structs.structs@),
                context,
                user_struct_type,
                struct_name,
                size,
            ) == Err::<Seq<u8>, vx_status>(e),
        },
{
    if context == 0 {
        return Err(VX_ERROR_INVALID_PARAMETERS);
    }
    if struct_name == 0 {
        return Err(VX_ERROR_INVALID_PARAMETERS);
    }
    let i = match structs.find_numbered(user_struct_type) {
        Some(i) => i,
        None => return Err(VX_FAILURE),
    };
    if size == 0 {
        return Err(VX_ERROR_NO_MEMORY);
    }
    let mut text = structs.structs[i].name.clone();
    assert(text@ =~= structs.structs@[i as int].name@);
    text.truncate(size - 1);
    text.push(0);
    proof {
        let name = structs.structs@[i as int].name@;
        assert(text@ =~= if name.len() < size {
            name.push(0)
        } else {
            name.take(size - 1).push(0)
        });
    }
    Ok(text)
}

/// What the question for the number of a struct type is answered.
pub open spec fn enum_answer(
    structs: Seq<UserStructSpec>,
    context: u64,
    name: Option<Seq<u8>>,
    ptr: u64,
) -> Result<vx_enum, vx_status> {
    if context == 0 {
        Err(VX_ERROR_INVALID_REFERENCE)
    } else {
        match name {
            None => Err(VX_FAILURE),
            Some(n) => if ptr == 0 {
                Err(VX_ERROR_INVALID_PARAMETERS)
            } else {
                match enum_named(structs, n) {
                    Some(e) => Ok(e),
                    None => Err(VX_FAILURE),
                }
            },
        }
    }
}

/// Answers the number of a struct type.  The answer goes to `ptr`.
pub fn vxGetUserStructEnumByName(
    structs: &UserStructs,
    context: u64,
    struct_name: Option<Vec<u8>>,
    ptr: u64,
) -> (r: Result<vx_enum, vx_status>)
    ensures
        r == enum_answer(
            values_of(structs.structs@),
            context,
            match struct_name {
                Some(n) => Some(n@),
                None => None,
            },
            ptr,
        ),
{
    if context == 0 {
        return Err(VX_ERROR_INVALID_REFERENCE);
    }
    let name = match struct_name {
        Some(n) => n,
        None => return Err(VX_FAILURE),
    };
    if ptr == 0 {
        return Err(VX_ERROR_INVALID_PARAMETERS);
    }
    match structs.find_named(&name) {
        Some(i) => Ok(structs.structs[i].enumeration),
        None => Err(VX_FAILURE),
    }
}

/// A struct type that was registered is found by its name and by its number.
pub proof fn law_struct_round_trip(structs: Seq<UserStructSpec>, added: UserStructSpec)
    requires
        all_distinct(structs),
        enum_named(structs, added.name) is None,
    ensures
        enum_named(with_struct(structs, added), added.name) == Some(added.enumeration),
        name_numbered(with_struct(structs, added), added.enumeration) == Some(added.name),
{
    let after = with_struct(structs, added);
    crate::search::lemma_first_where(structs.len(), named_at(structs, added.name));
    crate::search::lemma_first_where(structs.len(), numbered_at(structs, added.enumeration));
    let spot = match crate::search::first_where(
        structs.len(),
        numbered_at(structs, added.enumeration),
    ) {
        Some(i) => i,
        None => structs.len(),
    };
    assert(after[spot as int] == added);
    assert forall|j: int| 0 <= j < spot implies !#[trigger] named_at(after, added.name)(j) by {
        assert(after[j] == structs[j]);
        assert(!named_at(structs, added.name)(j));
    }
    assert forall|j: int| 0 <= j < spot implies !#[trigger] numbered_at(after, added.enumeration)(
        j,
    ) by {
        assert(after[j] == structs[j]);
        assert(!numbered_at(structs, added.enumeration)(j));
    }
    assert(named_at(after, added.name)(spot as int));
    assert(numbered_at(after, added.enumeration)(spot as int));
    crate::search::lemma_is_first(after.len(), named_at(after, added.name), spot);
    crate::search::lemma_is_first(after.len(), numbered_at(after, added.enumeration), spot);
}

/// The number that decimal digits stand for.
pub open spec fn decimal(text: Seq<u8>) -> int
    decreases text.len(),
{
    if text.len() == 0 {
        0
    } else {
        10 * decimal(text.drop_last()) + (text.last() - 48)
    }
}

/// The digits of a number read as that number; all of them are decimal, and none is
/// a leading zero.
pub proof fn law_digits_stand_for_the_number(n: nat)
    ensures
        decimal(digits(n)) == n,
        digits(n).len() > 0,
        forall|i: int| 0 <= i < digits(n).len() ==> 48 <= #[trigger] digits(n)[i] <= 57,
        n > 0 ==> digits(n)[0] > 48,
    decreases n,
{
    reveal_with_fuel(decimal, 2);
    if n < 10 {
        assert(digits(n).drop_last().len() == 0);
        assert(digits(n).last() == 48 + n);
    } else {
        let front = digits(n / 10);
        law_digits_stand_for_the_number(n / 10);
        assert(digits(n).drop_last() =~= front);
        assert(digits(n).last() == 48 + n % 10);
    }
}

/// A struct type without a name of its own is called "user_struct_" and its number.
pub proof fn law_default_names(next: u64, i: int)
    ensures
        default_name(next).len() == 12 + digits(next as nat).len(),
        0 <= i < 12 ==> default_name(next)[i] == "user_struct_"@[i] as u8,
        decimal(default_name(next).skip(12)) == next,
{
    reveal_strlit("user_struct_");
    assert(default_name(next).skip(12) =~= digits(next as nat));
    law_digits_stand_for_the_number(next as nat);
}

/// Two struct types without names of their own, registered at different times, have
/// different names.
pub proof fn law_default_names_differ(a: u64, b: u64)
    requires
        a != b,
    ensures
        default_name(a) != default_name(b),
{
    law_default_names(a, 0);
    law_default_names(b, 0);
}

/// Numbers are handed out one after the other and come back at the end.
pub proof fn law_struct_numbers_count_up(next: u64)
    ensures
        next < u64::MAX ==> next_after(next) == next + 1,
        next_after(u64::MAX) == 0,
        next < 0x8000_0000 ==> fresh_enum(next) == next,
{
}

/// A name is answered from its first byte, as far as there is room for it and the
/// zero that closes it.
pub proof fn law_names_are_closed_with_zero(
    structs: Seq<UserStructSpec>,
    context: u64,
    enumeration: vx_enum,
    ptr: u64,
    size: usize,
)
    requires
        context != 0,
        ptr != 0,
        size > 0,
        name_numbered(structs, enumeration) is Some,
    ensures
        ({
            let name = name_numbered(structs, enumeration)->0;
            let got = name_answer(structs, context, enumeration, ptr, size);
            &&& got is Ok
            &&& got->Ok_0.len() == if name.len() < size {
                name.len() + 1
            } else {
                size as nat
            }
            &&& got->Ok_0.last() == 0
            &&& forall|i: int|
                0 <= i < got->Ok_0.len() - 1 ==> #[trigger] got->Ok_0[i] == name[i]
        }),
{
}

/// What the question for the number of a type by its name is answered: without a
/// context the reference is invalid, without a place the parameters are, and
/// without a name, or with one that no type has, it fails.
pub proof fn law_enum_answers(structs: Seq<UserStructSpec>, context: u64, name: Seq<u8>, ptr: u64)
    ensures
        enum_answer(structs, 0, Some(name), ptr) == Err::<vx_enum, vx_status>(
            VX_ERROR_INVALID_REFERENCE,
        ),
        context != 0 ==> enum_answer(structs, context, None, ptr) == Err::<vx_enum, vx_status>(
            VX_FAILURE,
        ),
        context != 0 ==> enum_answer(structs, context, Some(name), 0) == Err::<vx_enum, vx_status>(
            VX_ERROR_INVALID_PARAMETERS,
        ),
        context != 0 && ptr != 0 && enum_named(structs, name) is Some ==> enum_answer(
            structs,
            context,
            Some(name),
            ptr,
        ) == Ok::<vx_enum, vx_status>(enum_named(structs, name)->0),
        context != 0 && ptr != 0 && enum_named(structs, name) is None ==> enum_answer(
            structs,
            context,
            Some(name),
            ptr,
        ) == Err::<vx_enum, vx_status>(VX_FAILURE),
{
}

} // verus!
