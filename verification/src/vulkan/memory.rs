//! The search for a memory type that may back a resource.

use vstd::prelude::*;

verus! {

/// Bit of the device-local property in a memory property mask.
pub const MEMORY_PROPERTY_DEVICE_LOCAL: u32 = 0x1;

/// The largest number of memory types a device can report.
pub const MAX_MEMORY_TYPES: u32 = 32;

/// A memory type of a device.
#[derive(Clone, Copy, Debug, PartialEq, Eq, Structural)]
pub struct MemoryType {
    pub property_flags: u32,
    pub heap_index: u32,
}

/// Whether the type at place `i` is allowed by `type_bits`, the mask of a
/// resource's memory requirements: bit `i` of the mask is set.
pub open spec fn type_allowed(type_bits: u32, i: int) -> bool {
    0 <= i < MAX_MEMORY_TYPES && (type_bits >> (i as u32)) & 1 == 1
}

/// Whether `flags` holds every property of `wanted`.
pub open spec fn has_properties(flags: u32, wanted: u32) -> bool {
    flags & wanted == wanted
}

/// Whether the type at place `i` may back the resource.
pub open spec fn type_suits(types: Seq<MemoryType>, type_bits: u32, wanted: u32, i: int) -> bool {
    &&& 0 <= i < types.len()
    &&& type_allowed(type_bits, i)
    &&& has_properties(types[i].property_flags, wanted)
}

/// Whether `i` is the first place whose type may back the resource.
pub open spec fn is_first_suitable(types: Seq<MemoryType>, type_bits: u32, wanted: u32, i: int)
    -> bool {
    &&& type_suits(types, type_bits, wanted, i)
    &&& forall|j: int| 0 <= j < i ==> !type_suits(types, type_bits, wanted, j)
}

/// The index of the first memory type that the resource allows and that has
/// all the wanted properties, if there is one.
pub open spec fn suitable_memory_type(types: Seq<MemoryType>, type_bits: u32, wanted: u32)
    -> Option<u32> {
    if exists|i: int| is_first_suitable(types, type_bits, wanted, i) {
        Some((choose|i: int| is_first_suitable(types, type_bits, wanted, i)) as u32)
    } else {
        None
    }
}

/// Computes `suitable_memory_type`. There is no second choice: where no
/// type suits, the resource cannot be backed.
pub fn find_memory_type(memory_types: &Vec<MemoryType>, type_bits: u32, wanted: u32) -> (index:
    Option<u32>)
    ensures
        index == suitable_memory_type(memory_types@, type_bits, wanted),
{
    let mut i: u32 = 0;
    while i < MAX_MEMORY_TYPES && (i as usize) < memory_types.len()
        invariant
            i <= MAX_MEMORY_TYPES,
            i <= memory_types.len(),
            forall|j: int| 0 <= j < i ==> !type_suits(memory_types@, type_bits, wanted, j),
        decreases MAX_MEMORY_TYPES - i,
    {
        if (type_bits >> i) & 1 == 1 && memory_types[i as usize].property_flags & wanted == wanted {
            proof {
                let types = memory_types@;
                assert(is_first_suitable(types, type_bits, wanted, i as int));
                let c = choose|c: int| is_first_suitable(types, type_bits, wanted, c);
                assert(c == i);
            }
            return Some(i);
        }
        i += 1;
    }
    None
}

/// The first type that suits is the one that is found.
pub proof fn lemma_first_suitable_is_found(
    types: Seq<MemoryType>,
    type_bits: u32,
    wanted: u32,
    i: int,
)
    requires
        is_first_suitable(types, type_bits, wanted, i),
    ensures
        suitable_memory_type(types, type_bits, wanted) == Some(i as u32),
{
    let c = choose|c: int| is_first_suitable(types, type_bits, wanted, c);
    assert(c == i);
}

/// The type that is found is allowed by the resource and has every wanted
/// property, and no type before it does both.
pub proof fn lemma_found_memory_type_suits(types: Seq<MemoryType>, type_bits: u32, wanted: u32)
    ensures
        match suitable_memory_type(types, type_bits, wanted) {
            Some(index) => is_first_suitable(types, type_bits, wanted, index as int),
            None => forall|i: int| !type_suits(types, type_bits, wanted, i),
        },
{
    if exists|i: int| is_first_suitable(types, type_bits, wanted, i) {
        let c = choose|i: int| is_first_suitable(types, type_bits, wanted, i);
        assert(0 <= c < MAX_MEMORY_TYPES);
    } else {
        assert forall|i: int| !type_suits(types, type_bits, wanted, i) by {
            if type_suits(types, type_bits, wanted, i) {
                lemma_first_suitable_exists(types, type_bits, wanted, i);
            }
        }
    }
}

proof fn lemma_first_suitable_exists(types: Seq<MemoryType>, type_bits: u32, wanted: u32, k: int)
    requires
        type_suits(types, type_bits, wanted, k),
    ensures
        exists|i: int| is_first_suitable(types, type_bits, wanted, i),
    decreases k,
{
    if exists|j: int| 0 <= j < k && type_suits(types, type_bits, wanted, j) {
        let j = choose|j: int| 0 <= j < k && type_suits(types, type_bits, wanted, j);
        lemma_first_suitable_exists(types, type_bits, wanted, j);
    } else {
        assert(is_first_suitable(types, type_bits, wanted, k));
    }
}

} // verus!
