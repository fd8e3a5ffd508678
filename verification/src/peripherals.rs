//! Peripheral and interrupt security assigner.
//!
//! The hardware exposes one permission word per peripheral slot in a
//! fixed-size table. Walking the table from the first user-configurable
//! slot, each present peripheral whose security mapping is Split or
//! UserSelectable — and one erratum-affected peripheral regardless of what
//! its permission word reports — is re-attributed Non-Secure together with
//! its DMA transfers, and the interrupt line with the same number as the
//! peripheral id is marked Non-Secure-targeted in the interrupt target
//! bitmap.

use vstd::prelude::*;

verus! {

/// Number of peripheral slots in the hardware permission table.
pub const PERIPHERAL_SLOT_COUNT: usize = 67;

/// The first three slots are reserved by the hardware and are never
/// reconfigured.
pub const FIRST_CONFIGURABLE_SLOT: usize = 3;

/// The one peripheral whose permission word misreports its security
/// mapping at reset; it is re-attributed Non-Secure regardless of what the
/// word says.
pub const ERRATUM_PERIPHERAL_ID: usize = 49;

/// Number of 32-bit words in the interrupt target bitmap.
pub const INTERRUPT_WORD_COUNT: usize = 16;

/// Number of interrupt lines the bitmap covers.
pub const INTERRUPT_COUNT: usize = 512;

/// Permission-word encoding: the peripheral reports itself present.
pub open spec fn perm_present(perm: u32) -> bool {
    (perm >> 31) & 1 == 1
}

/// Permission-word encoding: the two-bit security mapping field.
pub open spec fn perm_mapping(perm: u32) -> u32 {
    perm & 3
}

/// Permission-word encoding: the mapping field reports a Split mapping.
pub open spec fn perm_mapping_split(perm: u32) -> bool {
    perm_mapping(perm) == 3
}

/// Permission-word encoding: the mapping field reports a UserSelectable
/// mapping.
pub open spec fn perm_mapping_user_selectable(perm: u32) -> bool {
    perm_mapping(perm) == 2
}

/// Permission-word encoding: the security attribute bit, set for Secure.
pub open spec fn perm_attr_secure(perm: u32) -> bool {
    (perm >> 4) & 1 == 1
}

/// Permission-word encoding: the DMA security attribute bit, set for
/// Secure.
pub open spec fn perm_dma_secure(perm: u32) -> bool {
    (perm >> 5) & 1 == 1
}

/// A peripheral is configurable when it is present and its reported
/// mapping is Split or UserSelectable.
pub open spec fn perm_configurable(perm: u32) -> bool {
    perm_present(perm) && (perm_mapping_split(perm) || perm_mapping_user_selectable(perm))
}

/// The assignment decision for one slot: re-attribute the peripheral when
/// it is configurable, and always for the erratum-affected id.
pub open spec fn reassign_decision(id: int, perm: u32) -> bool {
    perm_configurable(perm) || id == ERRATUM_PERIPHERAL_ID
}

/// The rewritten permission word: security attribute and DMA security
/// attribute forced Non-Secure, every other field untouched.
pub open spec fn nonsecure_rewrite(perm: u32) -> u32 {
    perm & 0xffff_ffcf
}

/// What the walk leaves in one slot of the table: slots below the first
/// configurable one are never touched; each other slot is rewritten
/// Non-Secure exactly when the decision holds for it.
pub open spec fn assigned_perm(id: int, perm: u32) -> u32 {
    if id < FIRST_CONFIGURABLE_SLOT {
        perm
    } else if reassign_decision(id, perm) {
        nonsecure_rewrite(perm)
    } else {
        perm
    }
}

/// The whole table after one assignment pass over a reset-state snapshot.
pub open spec fn assigned_table(perms: Seq<u32>) -> Seq<u32> {
    Seq::new(perms.len(), |i: int| assigned_perm(i, perms[i]))
}

/// Whether the walk marks interrupt line `n` Non-Secure-targeted.
pub open spec fn interrupt_marked(n: int, perms: Seq<u32>) -> bool {
    FIRST_CONFIGURABLE_SLOT <= n < perms.len() && reassign_decision(n, perms[n])
}

/// Decides whether the slot `id`, read back as `perm`, must be
/// re-attributed Non-Secure.
pub fn slot_needs_reassignment(id: usize, perm: u32) -> (reassign: bool)
    ensures
        reassign == reassign_decision(id as int, perm),
{
    let present: bool = (perm >> 31) & 1 == 1;
    let mapping: u32 = perm & 3;
    let configurable: bool = present && (mapping == 3 || mapping == 2);
    configurable || id == ERRATUM_PERIPHERAL_ID
}

/// Computes the Non-Secure rewrite of a permission word.
pub fn nonsecure_perm_value(perm: u32) -> (rewritten: u32)
    ensures
        rewritten == nonsecure_rewrite(perm),
        !perm_attr_secure(rewritten),
        !perm_dma_secure(rewritten),
        perm_present(rewritten) == perm_present(perm),
        perm_mapping(rewritten) == perm_mapping(perm),
{
    proof {
        lemma_nonsecure_rewrite_fields(perm);
    }
    perm & 0xffff_ffcf
}

/// The Non-Secure rewrite clears exactly the two security attribute bits:
/// presence and mapping survive, so a rewritten word yields the same
/// decision as the word it came from, and rewriting twice is rewriting
/// once.
pub proof fn lemma_nonsecure_rewrite_fields(perm: u32)
    ensures
        !perm_attr_secure(nonsecure_rewrite(perm)),
        !perm_dma_secure(nonsecure_rewrite(perm)),
        perm_present(nonsecure_rewrite(perm)) == perm_present(perm),
        perm_mapping(nonsecure_rewrite(perm)) == perm_mapping(perm),
        perm_configurable(nonsecure_rewrite(perm)) == perm_configurable(perm),
        nonsecure_rewrite(nonsecure_rewrite(perm)) == nonsecure_rewrite(perm),
{
    assert(((perm & 0xffff_ffcf) >> 4) & 1 == 0 && ((perm & 0xffff_ffcf) >> 5) & 1 == 0 && ((perm
        & 0xffff_ffcf) >> 31) & 1 == (perm >> 31) & 1 && (perm & 0xffff_ffcf) & 3 == perm & 3 && (
    perm & 0xffff_ffcf) & 0xffff_ffcf == perm & 0xffff_ffcf) by (bit_vector);
}

/// A bitmap with one bit per interrupt line: clear while the line targets
/// the Secure domain, set once it targets the Non-Secure domain. The
/// hardware groups the lines in 32-bit words, line `n` at bit `n % 32` of
/// word `n / 32`.
pub struct InterruptTargetMap {
    /// The bitmap words, lowest-numbered lines first.
    pub words: Vec<u32>,
}

impl InterruptTargetMap {
    /// The map always holds exactly the words the hardware has.
    pub open spec fn wf(self) -> bool {
        self.words.len() == INTERRUPT_WORD_COUNT
    }

    /// Whether line `n` is marked Non-Secure-targeted.
    pub open spec fn is_non_secure(self, n: int) -> bool {
        (self.words[n / 32] >> ((n % 32) as u32)) & 1 == 1
    }

    /// A fresh map with every line still targeting the Secure domain.
    pub fn new() -> (map_out: Self)
        ensures
            map_out.wf(),
            forall|n: int| 0 <= n < INTERRUPT_COUNT ==> !map_out.is_non_secure(n),
    {
        let mut words: Vec<u32> = Vec::new();
        let mut i: usize = 0;
        while i < INTERRUPT_WORD_COUNT
            invariant
                i <= INTERRUPT_WORD_COUNT,
                words.len() == i,
                forall|j: int| 0 <= j < i ==> words[j] == 0u32,
            decreases INTERRUPT_WORD_COUNT - i,
        {
            words.push(0);
            i = i + 1;
        }
        let map_out = InterruptTargetMap { words };
        proof {
            assert forall|n: int| 0 <= n < INTERRUPT_COUNT implies !map_out.is_non_secure(n) by {
                let k: u32 = (n % 32) as u32;
                assert((0u32 >> k) & 1 == 0) by (bit_vector);
            }
        }
        map_out
    }

    /// Marks line `n` Non-Secure-targeted with a read-modify-write OR,
    /// leaving every other line exactly as it was.
    pub fn set_non_secure(&mut self, n: usize)
        requires
            old(self).wf(),
            n < INTERRUPT_COUNT,
        ensures
            final(self).wf(),
            final(self).is_non_secure(n as int),
            forall|m: int| 0 <= m < INTERRUPT_COUNT && m != n ==> final(self).is_non_secure(m)
                == old(self).is_non_secure(m),
    {
        let word_index: usize = n / 32;
        let bit_index: u32 = (n % 32) as u32;
        let updated: u32 = self.words[word_index] | (1u32 << bit_index);
        self.words.set(word_index, updated);
        proof {
            let old_word: u32 = old(self).words[word_index as int];
            assert forall|m: int| 0 <= m < INTERRUPT_COUNT && m != n implies self.is_non_secure(m)
                == old(self).is_non_secure(m) by {
                if m / 32 == word_index as int {
                    let j: u32 = (m % 32) as u32;
                    let k: u32 = bit_index;
                    assert(j != k) by {
                        vstd::arithmetic::div_mod::lemma_fundamental_div_mod(m, 32);
                        vstd::arithmetic::div_mod::lemma_fundamental_div_mod(n as int, 32);
                    }
                    assert(j < 32 && k < 32 && j != k ==> ((old_word | (1u32 << k)) >> j) & 1 == (
                    old_word >> j) & 1) by (bit_vector);
                }
            }
            let k: u32 = bit_index;
            assert(k < 32 ==> ((old_word | (1u32 << k)) >> k) & 1 == 1) by (bit_vector);
        }
    }
}

/// Walks a reset-state snapshot of the peripheral permission table,
/// rewrites every slot the decision selects, and marks the matching
/// interrupt lines in the target map.
///
/// The result is pure policy over the snapshot: the rewritten table is
/// `assigned_table` of the snapshot, and a line is newly marked exactly
/// when its peripheral was re-attributed. Lines already marked stay
/// marked, so the pass may be invoked incrementally.
pub fn assign_peripherals(perms: &Vec<u32>, interrupts: &mut InterruptTargetMap) -> (rewritten: Vec<
    u32,
>)
    requires
        old(interrupts).wf(),
        perms.len() <= INTERRUPT_COUNT,
    ensures
        final(interrupts).wf(),
        rewritten@ == assigned_table(perms@),
        forall|n: int| 0 <= n < INTERRUPT_COUNT ==> final(interrupts).is_non_secure(n) == (old(
            interrupts,
        ).is_non_secure(n) || interrupt_marked(n, perms@)),
{
    let mut rewritten: Vec<u32> = Vec::new();
    let mut id: usize = 0;
    while id < perms.len()
        invariant
            id <= perms.len(),
            perms.len() <= INTERRUPT_COUNT,
            interrupts.wf(),
            rewritten.len() == id,
            forall|i: int| 0 <= i < id ==> rewritten[i] == assigned_perm(i, perms[i]),
            forall|n: int| 0 <= n < INTERRUPT_COUNT ==> interrupts.is_non_secure(n) == (old(
                interrupts,
            ).is_non_secure(n) || (FIRST_CONFIGURABLE_SLOT <= n < id && reassign_decision(
                n,
                perms[n],
            ))),
        decreases perms.len() - id,
    {
        let perm: u32 = perms[id];
        if id >= FIRST_CONFIGURABLE_SLOT && slot_needs_reassignment(id, perm) {
            interrupts.set_non_secure(id);
            rewritten.push(nonsecure_perm_value(perm));
        } else {
            rewritten.push(perm);
        }
        id = id + 1;
    }
    proof {
        assert(rewritten@ =~= assigned_table(perms@));
    }
    rewritten
}

/// The erratum override always wins: whatever permission word the
/// affected slot reports — even a mapping that claims the peripheral is
/// not configurable — the pass rewrites it Non-Secure, DMA included, and
/// marks its interrupt line.
pub proof fn lemma_erratum_override_always_wins(perms: Seq<u32>)
    requires
        ERRATUM_PERIPHERAL_ID < perms.len(),
    ensures
        assigned_table(perms)[ERRATUM_PERIPHERAL_ID as int] == nonsecure_rewrite(
            perms[ERRATUM_PERIPHERAL_ID as int],
        ),
        !perm_attr_secure(assigned_table(perms)[ERRATUM_PERIPHERAL_ID as int]),
        !perm_dma_secure(assigned_table(perms)[ERRATUM_PERIPHERAL_ID as int]),
        interrupt_marked(ERRATUM_PERIPHERAL_ID as int, perms),
{
    lemma_nonsecure_rewrite_fields(perms[ERRATUM_PERIPHERAL_ID as int]);
}

/// The assignment pass is idempotent on the table: running it against the
/// table it produced rewrites nothing further, because the rewrite keeps
/// the presence and mapping fields that the decision reads, and rewriting
/// twice equals rewriting once.
pub proof fn lemma_assignment_idempotent(perms: Seq<u32>)
    ensures
        assigned_table(assigned_table(perms)) == assigned_table(perms),
{
    let once = assigned_table(perms);
    assert forall|i: int| 0 <= i < once.len() implies assigned_perm(i, once[i]) == once[i] by {
        lemma_nonsecure_rewrite_fields(perms[i]);
    }
    assert(assigned_table(once) =~= once);
}

/// The assignment pass marks no interrupt line twice over: the lines it
/// would mark on a second run against the table it produced are exactly
/// the lines it marked on the first, so the bitmap reaches a fixed point
/// after one pass.
pub proof fn lemma_interrupt_marks_idempotent(perms: Seq<u32>)
    ensures
        forall|n: int| interrupt_marked(n, assigned_table(perms)) == interrupt_marked(n, perms),
{
    assert forall|n: int|
        interrupt_marked(n, assigned_table(perms)) == interrupt_marked(n, perms) by {
        if 0 <= n < perms.len() {
            lemma_nonsecure_rewrite_fields(perms[n]);
        }
    }
}

} // verus!
