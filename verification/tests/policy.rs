use nrf_spm_rs::policy::{
    attribution_unit_disable_sequence, fault_policy_sequence, keyed_register_update,
    shcsr_enable_secure_fault, BANK_FAULTS_SECURE_MASK, NONSECURE_RESET_REQUEST_MASK,
    PRIORITIZE_SECURE_MASK, SECURE_FAULT_ENABLE_MASK, VECTKEY_MASK, VECTKEY_PERMIT_WRITE,
};

#[test]
fn keyed_update_sets_masked_bits_and_key() {
    let updated = keyed_register_update(0, PRIORITIZE_SECURE_MASK, true);
    assert_eq!(updated, VECTKEY_PERMIT_WRITE | PRIORITIZE_SECURE_MASK);
}

#[test]
fn keyed_update_clears_masked_bits_and_keys_the_write() {
    let updated = keyed_register_update(0xffff_ffff, NONSECURE_RESET_REQUEST_MASK, false);
    assert_eq!(updated, VECTKEY_PERMIT_WRITE | (0xffff & !NONSECURE_RESET_REQUEST_MASK));
}

#[test]
fn keyed_update_drops_the_stale_key_field() {
    // The value read back carries the key-status field; it must never be
    // echoed into the next write.
    let updated = keyed_register_update(0xfa05_0000, BANK_FAULTS_SECURE_MASK, true);
    assert_eq!(updated & VECTKEY_MASK, VECTKEY_PERMIT_WRITE);
    assert_eq!(updated, VECTKEY_PERMIT_WRITE | BANK_FAULTS_SECURE_MASK);
}

#[test]
fn fault_policy_sequence_writes_the_three_values_in_order() {
    let (first, second, third) = fault_policy_sequence(0);
    assert_eq!(first, VECTKEY_PERMIT_WRITE | PRIORITIZE_SECURE_MASK);
    assert_eq!(second, VECTKEY_PERMIT_WRITE | PRIORITIZE_SECURE_MASK | BANK_FAULTS_SECURE_MASK);
    assert_eq!(third, VECTKEY_PERMIT_WRITE | PRIORITIZE_SECURE_MASK | BANK_FAULTS_SECURE_MASK);
}

#[test]
fn fault_policy_clears_the_nonsecure_reset_bit() {
    let (_, _, third) = fault_policy_sequence(NONSECURE_RESET_REQUEST_MASK);
    assert_eq!(third & NONSECURE_RESET_REQUEST_MASK, 0);
    assert_eq!(
        third,
        VECTKEY_PERMIT_WRITE | PRIORITIZE_SECURE_MASK | BANK_FAULTS_SECURE_MASK
    );
}

#[test]
fn fault_policy_preserves_unrelated_bits_across_all_three_writes() {
    // Unrelated payload bits pre-set in the value read back must survive
    // each of the three read-modify-write operations.
    let unrelated = 0x9871;
    assert_eq!(unrelated & PRIORITIZE_SECURE_MASK, 0);
    assert_eq!(unrelated & BANK_FAULTS_SECURE_MASK, 0);
    assert_eq!(unrelated & NONSECURE_RESET_REQUEST_MASK, 0);
    let (first, second, third) = fault_policy_sequence(0xfa05_0000 | unrelated);
    assert_eq!(first & unrelated, unrelated);
    assert_eq!(second & unrelated, unrelated);
    assert_eq!(third & unrelated, unrelated);
    assert_eq!(third, VECTKEY_PERMIT_WRITE | 0xf871);
}

#[test]
fn enabling_secure_fault_touches_only_its_bit() {
    assert_eq!(shcsr_enable_secure_fault(0), SECURE_FAULT_ENABLE_MASK);
    assert_eq!(shcsr_enable_secure_fault(0x0007_0001), 0x000f_0001);
    assert_eq!(shcsr_enable_secure_fault(SECURE_FAULT_ENABLE_MASK), SECURE_FAULT_ENABLE_MASK);
}

#[test]
fn alternate_unit_ends_disabled_with_region_unit_precedence() {
    let (first, second) = attribution_unit_disable_sequence();
    // The unit is disabled by the first write and stays disabled while
    // the second cedes precedence; at no point is it enabled.
    assert_eq!(first, 0);
    assert_eq!(second, 2);
    assert_eq!(first & 1, 0);
    assert_eq!(second & 1, 0);
    assert_eq!(second >> 1 & 1, 1);
}
