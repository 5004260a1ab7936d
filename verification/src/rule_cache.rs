//! A direct-mapped cache of unwind rules.
//!
//! The cache has 509 slots. An address belongs to the slot of its remainder
//! modulo 509, and a slot holds at most one rule, with the address and the
//! generation for which it was computed. An entry counts only for a lookup
//! with the same address and the same generation, so that the owner of the
//! cache makes every entry stale by moving on to another generation. The
//! generation is a number of 16 bits that the owner counts up, around to
//! zero after 65535, whenever the loaded modules change.

use vstd::prelude::*;
use crate::unwind_rule::UnwindRule;

verus! {

/// The slot to which an address belongs.
pub open spec fn slot_of(address: u64) -> int {
    address as int % 509
}

/// The cache with nothing in it.
pub open spec fn no_entries<R>() -> Seq<Option<(u64, u16, R)>> {
    Seq::new(509, |slot: int| None)
}

/// The rule that a lookup of `address` at `modules_generation` finds in the
/// slots `slots`, where a filled slot holds the address, the generation and
/// the rule of its entry.
pub open spec fn looked_up<R>(
    slots: Seq<Option<(u64, u16, R)>>,
    address: u64,
    modules_generation: u16,
) -> Option<R> {
    match slots[slot_of(address)] {
        Some((entry_address, entry_generation, rule)) => {
            if entry_generation == modules_generation && entry_address == address {
                Some(rule)
            } else {
                None
            }
        },
        None => None,
    }
}

/// The slots after an insertion: the entry takes the slot of its address,
/// whatever that slot held.
pub open spec fn inserted<R>(
    slots: Seq<Option<(u64, u16, R)>>,
    address: u64,
    modules_generation: u16,
    rule: R,
) -> Seq<Option<(u64, u16, R)>> {
    slots.update(slot_of(address), Some((address, modules_generation, rule)))
}

/// A rule that has been inserted is found under its address and generation.
pub proof fn law_inserted_rule_is_hit<R>(
    slots: Seq<Option<(u64, u16, R)>>,
    address: u64,
    modules_generation: u16,
    rule: R,
)
    requires
        slots.len() == 509,
    ensures
        looked_up(inserted(slots, address, modules_generation, rule), address, modules_generation)
            == Some(rule),
{
}

/// A rule that has been inserted is not found under its address at another
/// generation.
pub proof fn law_inserted_rule_is_miss_at_other_generation<R>(
    slots: Seq<Option<(u64, u16, R)>>,
    address: u64,
    modules_generation: u16,
    rule: R,
    other_generation: u16,
)
    requires
        slots.len() == 509,
        other_generation != modules_generation,
    ensures
        looked_up(inserted(slots, address, modules_generation, rule), address, other_generation)
            is None,
{
}

/// Where every entry was inserted at one generation, a lookup at another
/// generation finds nothing.
pub proof fn law_other_generation_is_miss<R>(
    slots: Seq<Option<(u64, u16, R)>>,
    address: u64,
    inserted_generation: u16,
    modules_generation: u16,
)
    requires
        slots.len() == 509,
        forall|slot: int|
            0 <= slot < 509 ==> (#[trigger] slots[slot] matches Some(entry) ==> entry.1
                == inserted_generation),
        modules_generation != inserted_generation,
    ensures
        looked_up(slots, address, modules_generation) is None,
{
}

/// An insertion keeps the generation of every entry where the slots held
/// that generation only.
pub proof fn law_insertion_keeps_generation<R>(
    slots: Seq<Option<(u64, u16, R)>>,
    address: u64,
    modules_generation: u16,
    rule: R,
)
    requires
        slots.len() == 509,
        forall|slot: int|
            0 <= slot < 509 ==> (#[trigger] slots[slot] matches Some(entry) ==> entry.1
                == modules_generation),
    ensures
        forall|slot: int|
            0 <= slot < 509 ==> (#[trigger] inserted(
                slots,
                address,
                modules_generation,
                rule,
            )[slot] matches Some(entry) ==> entry.1 == modules_generation),
{
}

/// After an insertion at one address, a lookup of another address of the
/// same slot finds nothing, at whatever generation.
pub proof fn law_colliding_address_is_miss<R>(
    slots: Seq<Option<(u64, u16, R)>>,
    address: u64,
    modules_generation: u16,
    rule: R,
    other_address: u64,
    other_generation: u16,
)
    requires
        slots.len() == 509,
        other_address != address,
        slot_of(other_address) == slot_of(address),
    ensures
        looked_up(
            inserted(slots, address, modules_generation, rule),
            other_address,
            other_generation,
        ) is None,
{
}

/// One entry of the cache.
#[derive(Clone, Copy, Debug)]
pub struct CacheEntry<R: UnwindRule> {
    address: u64,
    modules_generation: u16,
    unwind_rule: R,
}

impl<R: UnwindRule> CacheEntry<R> {
    /// The address, the generation and the rule of the entry.
    pub closed spec fn view(&self) -> (u64, u16, R) {
        (self.address, self.modules_generation, self.unwind_rule)
    }
}

/// What a lookup that found nothing hands out: the place where the rule for
/// its address and generation is to be inserted.
pub struct CacheHandle {
    slot: u16,
    address: u64,
    modules_generation: u16,
}

impl CacheHandle {
    #[verifier::type_invariant]
    spec fn slot_is_that_of_address(self) -> bool {
        self.slot == slot_of(self.address)
    }

    /// The address and the generation of the lookup that made the handle.
    pub closed spec fn view(&self) -> (u64, u16) {
        (self.address, self.modules_generation)
    }
}

pub enum CacheResult<R: UnwindRule> {
    /// No rule is cached for the address at this generation.
    Miss(CacheHandle),
    /// The rule that is cached for the address at this generation.
    Hit(R),
}

pub struct RuleCache<R: UnwindRule> {
    entries: Box<[Option<CacheEntry<R>>; 509]>,
}

impl<R: UnwindRule> RuleCache<R> {
    /// The 509 slots, each with the address, the generation and the rule of
    /// its entry, if it holds one.
    pub closed spec fn view(&self) -> Seq<Option<(u64, u16, R)>> {
        Seq::new(
            509,
            |slot: int|
                match self.entries[slot] {
                    Some(entry) => Some(entry@),
                    None => None,
                },
        )
    }

    pub fn new() -> (cache: Self)
        ensures
            cache@ == no_entries::<R>(),
    {
        Self { entries: Box::new([None;509]) }
    }

    /// Looks up the rule for `address` at `modules_generation`. The cache
    /// stays as it is.
    pub fn lookup(&mut self, address: u64, modules_generation: u16) -> (result: CacheResult<R>)
        ensures
            final(self)@ == old(self)@,
            match looked_up(old(self)@, address, modules_generation) {
                Some(rule) => result == CacheResult::Hit(rule),
                None => result matches CacheResult::Miss(handle) && handle@ == (
                    address,
                    modules_generation,
                ),
            },
    {
        let slot = (address % 509) as u16;
        if let Some(entry) = &self.entries[slot as usize] {
            if entry.modules_generation == modules_generation && entry.address == address {
                return CacheResult::Hit(entry.unwind_rule);
            }
        }
        CacheResult::Miss(CacheHandle { slot, address, modules_generation })
    }

    /// Puts the rule into the slot of the handle's address, in place of what
    /// the slot held.
    pub fn insert(&mut self, handle: CacheHandle, unwind_rule: R)
        ensures
            final(self)@ == inserted(old(self)@, handle@.0, handle@.1, unwind_rule),
    {
        proof {
            use_type_invariant(&handle);
        }
        let CacheHandle { slot, address, modules_generation } = handle;
        self.entries[slot as usize] = Some(CacheEntry { address, modules_generation, unwind_rule });
    }
}

} // verus!
