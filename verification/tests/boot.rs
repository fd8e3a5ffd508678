use nrf_spm_rs::boot::{BootSequence, BootStage};
use nrf_spm_rs::peripherals::ERRATUM_PERIPHERAL_ID;
use nrf_spm_rs::plan_partition;
use nrf_spm_rs::SecurityAttribute;

#[test]
fn stages_advance_in_pipeline_order() {
    let mut sequence = BootSequence::new();
    assert_eq!(sequence.stage, BootStage::Reset);
    sequence.mark_memory_partitioned();
    assert_eq!(sequence.stage, BootStage::MemoryPartitioned);
    sequence.mark_peripherals_assigned();
    assert_eq!(sequence.stage, BootStage::PeripheralsAssigned);
    sequence.mark_policy_configured();
    assert_eq!(sequence.stage, BootStage::PolicyConfigured);
    sequence.mark_non_secure_entered();
    assert_eq!(sequence.stage, BootStage::NonSecureEntered);
}

#[test]
fn partition_plan_commits_boundaries_and_assignments_together() {
    let present_split: u32 = (1 << 31) | 3 | (1 << 4) | (1 << 5);
    let present_fixed: u32 = (1 << 31) | 1 | (1 << 4);
    let mut snapshot = vec![present_fixed; 67];
    snapshot[10] = present_split;
    let plan = plan_partition(64 * 1024, 16 * 1024, &snapshot);

    assert_eq!(plan.flash_regions.len(), 32);
    assert_eq!(plan.flash_regions[1].attribute, SecurityAttribute::Secure);
    assert_eq!(plan.flash_regions[2].attribute, SecurityAttribute::NonSecure);
    assert_eq!(plan.ram_regions.len(), 32);
    assert_eq!(plan.ram_regions[1].attribute, SecurityAttribute::Secure);
    assert_eq!(plan.ram_regions[2].attribute, SecurityAttribute::NonSecure);

    assert_eq!(plan.peripheral_perms[10], present_split & !((1 << 4) | (1 << 5)));
    assert_eq!(plan.peripheral_perms[11], present_fixed);
    assert_eq!(
        plan.peripheral_perms[ERRATUM_PERIPHERAL_ID],
        present_fixed & !((1 << 4) | (1 << 5))
    );

    for n in 0..512usize {
        let marked = plan.interrupts.words[n / 32] >> (n % 32) & 1 == 1;
        assert_eq!(marked, n == 10 || n == ERRATUM_PERIPHERAL_ID, "line {}", n);
    }
}
