//! Boot-time secure partition management for a dual-state (Secure /
//! Non-Secure) microcontroller with a region-based security attribution
//! unit.
//!
//! The crate computes, as plain values, everything the boot prologue must
//! commit to hardware: the security attribute of every flash and RAM
//! protection region, the rewritten permission word of every re-attributable
//! peripheral slot together with its interrupt-target bitmap, the key-gated
//! fault-policy register sequence, and the register values that seed the
//! first Non-Secure instruction. The thin layer that actually touches the
//! memory-mapped registers stays outside this crate and only carries these
//! values to their addresses.

use vstd::prelude::*;

pub mod boot;
pub mod peripherals;
pub mod policy;
pub mod regions;
pub mod switcher;

verus! {

/// Security attribute of a protection region, a peripheral slot or a DMA
/// master: which of the two trust domains may access it.
#[derive(Clone, Copy, PartialEq, Eq, Structural, Debug)]
pub enum SecurityAttribute {
    Secure,
    NonSecure,
}

/// Everything the first three pipeline steps commit, computed from the
/// two boundary parameters and a reset-state snapshot of the peripheral
/// permission table.
pub struct PartitionPlan {
    /// The attribute of every flash protection region, ascending.
    pub flash_regions: Vec<regions::Region>,
    /// The attribute of every RAM protection region, ascending.
    pub ram_regions: Vec<regions::Region>,
    /// The peripheral permission table after the assignment pass.
    pub peripheral_perms: Vec<u32>,
    /// The interrupt target bitmap after the assignment pass.
    pub interrupts: peripherals::InterruptTargetMap,
}

/// Runs the partitioning pipeline on plain values: partitions flash and
/// RAM at the two boundaries, walks the peripheral snapshot, and marks
/// the interrupt lines of every re-attributed peripheral in a fresh
/// target map.
///
/// The caller must have rejected unacceptable boundaries beforehand
/// (`regions::boundary_is_valid`); committing a misaligned or oversized
/// boundary could leave part of the Non-Secure image inside the Secure
/// region.
pub fn plan_partition(
    secure_flash_size: u32,
    secure_ram_size: u32,
    peripheral_snapshot: &Vec<u32>,
) -> (plan: PartitionPlan)
    requires
        regions::boundary_acceptable(
            secure_flash_size as int,
            regions::FLASH_REGION_SIZE as int,
            regions::FLASH_SIZE as int,
        ),
        regions::boundary_acceptable(
            secure_ram_size as int,
            regions::RAM_REGION_SIZE as int,
            regions::RAM_SIZE as int,
        ),
        peripheral_snapshot.len() <= peripherals::INTERRUPT_COUNT,
    ensures
        plan.flash_regions.len() == regions::FLASH_SIZE as int / regions::FLASH_REGION_SIZE as int,
        forall|i: int| 0 <= i < plan.flash_regions.len() ==> {
            &&& (#[trigger] plan.flash_regions[i]).index == i
            &&& plan.flash_regions[i].base_offset == i * regions::FLASH_REGION_SIZE
            &&& plan.flash_regions[i].size == regions::FLASH_REGION_SIZE
            &&& plan.flash_regions[i].attribute == regions::attribute_for_offset(
                i * regions::FLASH_REGION_SIZE,
                secure_flash_size as int,
            )
        },
        plan.ram_regions.len() == regions::RAM_SIZE as int / regions::RAM_REGION_SIZE as int,
        forall|i: int| 0 <= i < plan.ram_regions.len() ==> {
            &&& (#[trigger] plan.ram_regions[i]).index == i
            &&& plan.ram_regions[i].base_offset == i * regions::RAM_REGION_SIZE
            &&& plan.ram_regions[i].size == regions::RAM_REGION_SIZE
            &&& plan.ram_regions[i].attribute == regions::attribute_for_offset(
                i * regions::RAM_REGION_SIZE,
                secure_ram_size as int,
            )
        },
        plan.peripheral_perms@ == peripherals::assigned_table(peripheral_snapshot@),
        plan.interrupts.wf(),
        forall|n: int| 0 <= n < peripherals::INTERRUPT_COUNT ==> plan.interrupts.is_non_secure(n)
            == peripherals::interrupt_marked(n, peripheral_snapshot@),
{
    let flash_regions = regions::plan_flash_regions(secure_flash_size);
    let ram_regions = regions::plan_ram_regions(secure_ram_size);
    let mut interrupts = peripherals::InterruptTargetMap::new();
    let peripheral_perms = peripherals::assign_peripherals(peripheral_snapshot, &mut interrupts);
    PartitionPlan { flash_regions, ram_regions, peripheral_perms, interrupts }
}

} // verus!
