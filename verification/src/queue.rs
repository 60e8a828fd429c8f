//! Queue families: which one serves graphics, which one presents, and the
//! distinct families that the logical device asks queues of.
use std::collections::HashSet;
use vstd::prelude::*;
use vstd::std_specs::iter::IteratorSpec;
use crate::error::SuitabilityError;
use crate::search::{first_index, is_first, lemma_first_index_is, lemma_first_index_none};
use crate::vulkan::{queue_flags_have_graphics, QUEUE_GRAPHICS_BIT};

verus! {

/// What the application reads of one queue family of a physical device: the
/// bits of its `vk::QueueFlags`, and whether it can present to the window's
/// surface (a failed query counts as `false`).
#[derive(Clone, Copy, Debug, PartialEq, Eq, Structural)]
pub struct QueueFamily {
    pub queue_flags: u32,
    pub supports_present: bool,
}

/// The family used for graphics and the family used for presentation.
#[derive(Clone, Copy, Debug, PartialEq, Eq, Structural)]
pub struct QueueFamilyIndices {
    pub graphics: u32,
    pub present: u32,
}

/// The family's flags hold `vk::QueueFlags::GRAPHICS`.
pub open spec fn has_graphics(family: QueueFamily) -> bool {
    family.queue_flags & QUEUE_GRAPHICS_BIT == QUEUE_GRAPHICS_BIT
}

/// Predicate: the family supports graphics.
pub open spec fn graphics_family() -> spec_fn(QueueFamily) -> bool {
    |f: QueueFamily| has_graphics(f)
}

/// Predicate: the family can present to the surface.
pub open spec fn present_family() -> spec_fn(QueueFamily) -> bool {
    |f: QueueFamily| f.supports_present
}

/// The first graphics family and the first presenting family, as `u32`
/// indices, when both exist.
pub open spec fn queue_family_indices(families: Seq<QueueFamily>) -> Option<QueueFamilyIndices> {
    match (first_index(families, graphics_family()), first_index(families, present_family())) {
        (Some(g), Some(p)) => Some(QueueFamilyIndices { graphics: g as u32, present: p as u32 }),
        _ => None,
    }
}

/// The text of the error when a device lacks a graphics or a presenting
/// family.
pub open spec fn queues_unsupported() -> &'static str {
    "The queues on your device are not supported"
}

/// The distinct families among the graphics and the presenting one.
pub open spec fn unique_families(indices: QueueFamilyIndices) -> Set<u32> {
    set![indices.graphics, indices.present]
}

/// Index of the first family that supports graphics, by a scan.
fn first_graphics(families: &[QueueFamily]) -> (r: Option<usize>)
    ensures
        match r {
            Some(i) => first_index(families@, graphics_family()) == Some(i as int),
            None => first_index(families@, graphics_family()) is None,
        },
{
    let mut i: usize = 0;
    while i < families.len()
        invariant
            0 <= i <= families.len(),
            forall|j: int| 0 <= j < i ==> !graphics_family()(#[trigger] families@[j]),
        decreases families.len() - i,
    {
        if queue_flags_have_graphics(families[i].queue_flags) {
            proof {
                assert(is_first(families@, i as int, graphics_family()));
                lemma_first_index_is(families@, i as int, graphics_family());
            }
            return Some(i);
        }
        i += 1;
    }
    proof {
        lemma_first_index_none(families@, graphics_family());
    }
    None
}

/// Index of the first family that can present, by a scan.
fn first_present(families: &[QueueFamily]) -> (r: Option<usize>)
    ensures
        match r {
            Some(i) => first_index(families@, present_family()) == Some(i as int),
            None => first_index(families@, present_family()) is None,
        },
{
    let mut i: usize = 0;
    while i < families.len()
        invariant
            0 <= i <= families.len(),
            forall|j: int| 0 <= j < i ==> !present_family()(#[trigger] families@[j]),
        decreases families.len() - i,
    {
        if families[i].supports_present {
            proof {
                assert(is_first(families@, i as int, present_family()));
                lemma_first_index_is(families@, i as int, present_family());
            }
            return Some(i);
        }
        i += 1;
    }
    proof {
        lemma_first_index_none(families@, present_family());
    }
    None
}

impl QueueFamilyIndices {
    /// Picks the first family that supports graphics and the first family
    /// that can present; fails when either is missing.
    pub fn get(families: &[QueueFamily]) -> (r: Result<Self, SuitabilityError>)
        ensures
            match queue_family_indices(families@) {
                Some(q) => r == Ok::<Self, SuitabilityError>(q),
                None => r is Err && r->Err_0.0 == queues_unsupported(),
            },
    {
        let graphics = first_graphics(families);
        let present = first_present(families);
        match (graphics, present) {
            (Some(x), Some(y)) => Ok(QueueFamilyIndices { graphics: x as u32, present: y as u32 }),
            _ => Err(SuitabilityError("The queues on your device are not supported")),
        }
    }
}

/// The distinct queue families among the graphics and the presenting one,
/// each once, in the order in which a `HashSet` of them is walked.
pub fn unique_queue_families(indices: QueueFamilyIndices) -> (r: Vec<u32>)
    ensures
        r@.no_duplicates(),
        r@.to_set() == unique_families(indices),
        r@.len() == if indices.graphics == indices.present { 1nat } else { 2nat },
{
    broadcast use vstd::std_specs::hash::group_hash_axioms;
    let mut set: HashSet<u32> = HashSet::new();
    set.insert(indices.graphics);
    set.insert(indices.present);
    assert(set@ == unique_families(indices));
    let mut out: Vec<u32> = Vec::new();
    for f in it: set.iter()
        invariant
            out@.len() == it.index(),
            forall|j: int| 0 <= j < it.index() ==> out@[j] == *it.seq()[j],
    {
        out.push(*f);
    }
    proof {
        let keys = vstd::std_specs::hash::spec_hash_keys_iter(&set).remaining();
        assert(out@ =~= keys.unref());
    }
    out
}

} // verus!
