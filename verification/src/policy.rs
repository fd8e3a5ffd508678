//! Exception and fault security configurator.
//!
//! Three policy bits of the core's application-interrupt/reset-control
//! register are changed with read-modify-write operations that re-supply
//! the register's write key on every write: prioritize Secure exceptions,
//! bank HardFault/NMI/BusFault to Secure, and clear the bit that lets the
//! Non-Secure side request a system reset. The Secure-fault exception is
//! enabled in the system handler control register, and the alternate
//! (range-based) attribution unit is disabled with precedence ceded to the
//! region-based unit.

use vstd::prelude::*;

verus! {

/// Mask of the write-key field of the interrupt/reset-control register;
/// the register ignores writes whose key field differs from the permit
/// value.
pub const VECTKEY_MASK: u32 = 0xffff_0000;

/// The key value that permits a write, already shifted into the key
/// field.
pub const VECTKEY_PERMIT_WRITE: u32 = 0x05fa_0000;

/// Policy bit: Secure exceptions take priority over Non-Secure ones.
pub const PRIORITIZE_SECURE_MASK: u32 = 0x4000;

/// Policy bit: bank HardFault, NMI and BusFault to the Secure state.
pub const BANK_FAULTS_SECURE_MASK: u32 = 0x2000;

/// Policy bit: the Non-Secure side may request a system reset; cleared so
/// a compromised Non-Secure image cannot force one.
pub const NONSECURE_RESET_REQUEST_MASK: u32 = 0x8;

/// Bit of the system handler control register that enables the
/// Secure-fault exception.
pub const SECURE_FAULT_ENABLE_MASK: u32 = 0x8_0000;

/// Whether bit `index` of a register value is set.
pub open spec fn register_bit(value: u32, index: u32) -> bool {
    index < 32 && (value >> index) & 1 == 1
}

/// One key-gated read-modify-write: the stale key field of the value read
/// back is dropped, the masked bits are set or cleared, and the write key
/// is re-supplied.
pub open spec fn keyed_update(current: u32, mask: u32, set_bits: bool) -> u32 {
    if set_bits {
        VECTKEY_PERMIT_WRITE | ((current & !VECTKEY_MASK) | mask)
    } else {
        VECTKEY_PERMIT_WRITE | ((current & !VECTKEY_MASK) & !mask)
    }
}

/// A keyed update touches exactly the key field and the masked bits:
/// every payload bit outside the mask survives, the masked bits take the
/// requested value, and the key field holds the permit value.
pub proof fn lemma_keyed_update_bits(current: u32, mask: u32, set_bits: bool, j: u32)
    requires
        j < 16,
        mask & VECTKEY_MASK == 0,
    ensures
        register_bit(keyed_update(current, mask, set_bits), j) == if register_bit(mask, j) {
            set_bits
        } else {
            register_bit(current, j)
        },
        keyed_update(current, mask, set_bits) & VECTKEY_MASK == VECTKEY_PERMIT_WRITE,
{
    if set_bits {
        lemma_keyed_update_set(current, mask, j);
    } else {
        lemma_keyed_update_clear(current, mask, j);
    }
}

/// Bit-level form of a keyed update that sets its masked bits.
proof fn lemma_keyed_update_set(current: u32, mask: u32, j: u32)
    by (bit_vector)
    requires
        j < 16,
        mask & VECTKEY_MASK == 0,
    ensures
        register_bit(keyed_update(current, mask, true), j) == (register_bit(mask, j)
            || register_bit(current, j)),
        keyed_update(current, mask, true) & VECTKEY_MASK == VECTKEY_PERMIT_WRITE,
{
}

/// Bit-level form of a keyed update that clears its masked bits.
proof fn lemma_keyed_update_clear(current: u32, mask: u32, j: u32)
    by (bit_vector)
    requires
        j < 16,
    ensures
        register_bit(keyed_update(current, mask, false), j) == (!register_bit(mask, j)
            && register_bit(current, j)),
        keyed_update(current, mask, false) & VECTKEY_MASK == VECTKEY_PERMIT_WRITE,
{
}

/// Computes one key-gated read-modify-write of the interrupt/reset-control
/// register: `current` is the value read back, the result is the value to
/// write.
pub fn keyed_register_update(current: u32, mask: u32, set_bits: bool) -> (updated: u32)
    requires
        mask & VECTKEY_MASK == 0,
    ensures
        updated == keyed_update(current, mask, set_bits),
        updated & VECTKEY_MASK == VECTKEY_PERMIT_WRITE,
{
    proof {
        lemma_keyed_update_bits(current, mask, set_bits, 0);
    }
    let payload: u32 = current & !VECTKEY_MASK;
    let payload: u32 = if set_bits {
        payload | mask
    } else {
        payload & !mask
    };
    VECTKEY_PERMIT_WRITE | payload
}

/// The three policy masks lie in the payload field, clear of the write
/// key.
proof fn lemma_policy_masks_in_payload()
    by (bit_vector)
    ensures
        PRIORITIZE_SECURE_MASK & VECTKEY_MASK == 0,
        BANK_FAULTS_SECURE_MASK & VECTKEY_MASK == 0,
        NONSECURE_RESET_REQUEST_MASK & VECTKEY_MASK == 0,
{
}

/// Computes the three successive values the fault-policy sequence writes
/// to the interrupt/reset-control register, starting from the value first
/// read back: set prioritize-Secure, set bank-faults-to-Secure, clear
/// Non-Secure-reset-request, each write carrying the key.
pub fn fault_policy_sequence(initial: u32) -> (writes: (u32, u32, u32))
    ensures
        writes.0 == keyed_update(initial, PRIORITIZE_SECURE_MASK, true),
        writes.1 == keyed_update(writes.0, BANK_FAULTS_SECURE_MASK, true),
        writes.2 == keyed_update(writes.1, NONSECURE_RESET_REQUEST_MASK, false),
        register_bit(writes.2, 14),
        register_bit(writes.2, 13),
        !register_bit(writes.2, 3),
        writes.2 & VECTKEY_MASK == VECTKEY_PERMIT_WRITE,
{
    proof {
        lemma_policy_masks_in_payload();
    }
    let first: u32 = keyed_register_update(initial, PRIORITIZE_SECURE_MASK, true);
    let second: u32 = keyed_register_update(first, BANK_FAULTS_SECURE_MASK, true);
    let third: u32 = keyed_register_update(second, NONSECURE_RESET_REQUEST_MASK, false);
    proof {
        lemma_keyed_update_bits(initial, PRIORITIZE_SECURE_MASK, true, 14);
        lemma_keyed_update_bits(first, BANK_FAULTS_SECURE_MASK, true, 14);
        lemma_keyed_update_bits(second, NONSECURE_RESET_REQUEST_MASK, false, 14);
        lemma_keyed_update_bits(first, BANK_FAULTS_SECURE_MASK, true, 13);
        lemma_keyed_update_bits(second, NONSECURE_RESET_REQUEST_MASK, false, 13);
        lemma_keyed_update_bits(second, NONSECURE_RESET_REQUEST_MASK, false, 3);
        assert(!register_bit(PRIORITIZE_SECURE_MASK, 13) && !register_bit(
            PRIORITIZE_SECURE_MASK,
            3,
        ) && !register_bit(BANK_FAULTS_SECURE_MASK, 14) && !register_bit(
            BANK_FAULTS_SECURE_MASK,
            3,
        ) && !register_bit(NONSECURE_RESET_REQUEST_MASK, 14) && !register_bit(
            NONSECURE_RESET_REQUEST_MASK,
            13,
        ) && register_bit(PRIORITIZE_SECURE_MASK, 14) && register_bit(BANK_FAULTS_SECURE_MASK, 13)
            && register_bit(NONSECURE_RESET_REQUEST_MASK, 3)) by (bit_vector);
    }
    (first, second, third)
}

/// Every payload bit unrelated to the three policy bits survives the
/// whole fault-policy write sequence unchanged, after each of the three
/// read-modify-write operations.
pub proof fn lemma_fault_policy_preserves_unrelated(initial: u32, j: u32)
    requires
        j < 16,
        j != 14,
        j != 13,
        j != 3,
    ensures
        register_bit(keyed_update(initial, PRIORITIZE_SECURE_MASK, true), j) == register_bit(
            initial,
            j,
        ),
        register_bit(
            keyed_update(
                keyed_update(initial, PRIORITIZE_SECURE_MASK, true),
                BANK_FAULTS_SECURE_MASK,
                true,
            ),
            j,
        ) == register_bit(initial, j),
        register_bit(
            keyed_update(
                keyed_update(
                    keyed_update(initial, PRIORITIZE_SECURE_MASK, true),
                    BANK_FAULTS_SECURE_MASK,
                    true,
                ),
                NONSECURE_RESET_REQUEST_MASK,
                false,
            ),
            j,
        ) == register_bit(initial, j),
{
    lemma_policy_masks_in_payload();
    let first: u32 = keyed_update(initial, PRIORITIZE_SECURE_MASK, true);
    let second: u32 = keyed_update(first, BANK_FAULTS_SECURE_MASK, true);
    lemma_keyed_update_bits(initial, PRIORITIZE_SECURE_MASK, true, j);
    lemma_keyed_update_bits(first, BANK_FAULTS_SECURE_MASK, true, j);
    lemma_keyed_update_bits(second, NONSECURE_RESET_REQUEST_MASK, false, j);
    assert(j < 16 && j != 14 && j != 13 && j != 3 ==> !register_bit(PRIORITIZE_SECURE_MASK, j)
        && !register_bit(BANK_FAULTS_SECURE_MASK, j) && !register_bit(
        NONSECURE_RESET_REQUEST_MASK,
        j,
    )) by (bit_vector);
}

/// Computes the system-handler-control value that enables the
/// Secure-fault exception, leaving every other handler bit as it was.
pub fn shcsr_enable_secure_fault(current: u32) -> (updated: u32)
    ensures
        updated == current | SECURE_FAULT_ENABLE_MASK,
        register_bit(updated, 19),
        forall|j: u32| j < 32 && j != 19 ==> register_bit(updated, j) == register_bit(current, j),
{
    proof {
        assert(register_bit(current | SECURE_FAULT_ENABLE_MASK, 19)) by (bit_vector);
        assert forall|j: u32| j < 32 && j != 19 implies register_bit(
            current | SECURE_FAULT_ENABLE_MASK,
            j,
        ) == register_bit(current, j) by {
            assert(j < 32 && j != 19 ==> ((current | 0x8_0000u32) >> j) & 1 == (current >> j)
                & 1) by (bit_vector);
        }
    }
    current | SECURE_FAULT_ENABLE_MASK
}

/// Control-word encoding of the alternate attribution unit: its enable
/// bit.
pub open spec fn alternate_unit_enabled(control: u32) -> bool {
    control & 1 == 1
}

/// Control-word encoding of the alternate attribution unit: the bit that,
/// while the unit is disabled, cedes attribution precedence to the
/// region-based unit instead of marking all memory Secure.
pub open spec fn region_unit_precedence(control: u32) -> bool {
    (control >> 1) & 1 == 1
}

/// Computes the two successive control words that retire the alternate
/// (range-based) attribution unit: the first write disables it, the
/// second keeps it disabled and cedes precedence to the region-based
/// unit. Both writes leave the unit disabled, so at no point do two
/// attribution mechanisms run at once.
pub fn attribution_unit_disable_sequence() -> (writes: (u32, u32))
    ensures
        writes.0 == 0u32,
        writes.1 == 2u32,
        !alternate_unit_enabled(writes.0),
        !alternate_unit_enabled(writes.1),
        !region_unit_precedence(writes.0),
        region_unit_precedence(writes.1),
{
    proof {
        assert(0u32 & 1 == 0 && 2u32 & 1 == 0 && (0u32 >> 1) & 1 == 0 && (2u32 >> 1) & 1
            == 1) by (bit_vector);
    }
    (0, 2)
}

} // verus!
