//! Memory region partitioner.
//!
//! Flash and RAM are tiled by fixed-size protection regions. Given a
//! Secure/Non-Secure boundary (a byte count that must be a multiple of the
//! region granularity), every region whose base offset lies strictly below
//! the boundary is attributed Secure, every other region Non-Secure.
//! Read, write and execute permissions are unconditionally enabled: the
//! security attribute alone, not permission narrowing, is the isolation
//! lever.

use vstd::arithmetic::div_mod::lemma_fundamental_div_mod;
use vstd::prelude::*;

use crate::SecurityAttribute;

verus! {

/// Total flash size in bytes.
pub const FLASH_SIZE: u32 = 1024 * 1024;

/// Hardware-fixed granularity of one flash protection region, in bytes.
pub const FLASH_REGION_SIZE: u32 = 32 * 1024;

/// Total RAM size in bytes.
pub const RAM_SIZE: u32 = 256 * 1024;

/// Hardware-fixed granularity of one RAM protection region, in bytes.
pub const RAM_REGION_SIZE: u32 = 8 * 1024;

/// One fixed-size slice of flash or RAM, with the security attribute the
/// partitioner assigned to it.
#[derive(Clone, Copy, PartialEq, Eq, Structural, Debug)]
pub struct Region {
    /// Position of the region in its memory, counted from offset zero.
    pub index: u32,
    /// Byte offset of the first byte of the region.
    pub base_offset: u32,
    /// Region size in bytes; always the granularity of its memory.
    pub size: u32,
    /// Security attribute committed for this region.
    pub attribute: SecurityAttribute,
}

/// The attribute a region must carry: Secure exactly when its base offset
/// lies strictly below the Secure/Non-Secure boundary.
pub open spec fn attribute_for_offset(base_offset: int, secure_size: int) -> SecurityAttribute {
    if base_offset < secure_size {
        SecurityAttribute::Secure
    } else {
        SecurityAttribute::NonSecure
    }
}

/// A boundary is acceptable only when it is a whole number of regions and
/// does not exceed the memory it partitions.
pub open spec fn boundary_acceptable(secure_size: int, granularity: int, total_size: int) -> bool {
    secure_size % granularity == 0 && secure_size <= total_size
}

/// Decides whether a requested Secure size may be committed; a caller must
/// refuse to touch any region register when this returns false.
pub fn boundary_is_valid(secure_size: u32, granularity: u32, total_size: u32) -> (valid: bool)
    requires
        granularity > 0,
    ensures
        valid == boundary_acceptable(secure_size as int, granularity as int, total_size as int),
{
    secure_size % granularity == 0 && secure_size <= total_size
}

/// Enumerates every protection region of one memory in ascending offset
/// order and assigns its attribute from the boundary.
///
/// The regions returned are contiguous, non-overlapping, and together tile
/// the whole memory: region `i` covers exactly the bytes
/// `[i * granularity, (i + 1) * granularity)`.
pub fn plan_regions(total_size: u32, granularity: u32, secure_size: u32) -> (regions: Vec<Region>)
    requires
        granularity > 0,
        total_size % granularity == 0,
        boundary_acceptable(secure_size as int, granularity as int, total_size as int),
    ensures
        regions.len() == total_size as int / granularity as int,
        forall|i: int| 0 <= i < regions.len() ==> {
            &&& (#[trigger] regions[i]).index == i
            &&& regions[i].base_offset == i * granularity
            &&& regions[i].size == granularity
            &&& regions[i].attribute == attribute_for_offset(i * granularity, secure_size as int)
        },
{
    let count: u32 = total_size / granularity;
    proof {
        lemma_fundamental_div_mod(total_size as int, granularity as int);
    }
    let mut regions: Vec<Region> = Vec::new();
    let mut offset: u32 = 0;
    let mut i: u32 = 0;
    while i < count
        invariant
            i <= count,
            count == total_size as int / granularity as int,
            granularity > 0,
            count * granularity == total_size,
            offset == i * granularity,
            regions.len() == i,
            forall|j: int| 0 <= j < regions.len() ==> {
                &&& (#[trigger] regions[j]).index == j
                &&& regions[j].base_offset == j * granularity
                &&& regions[j].size == granularity
                &&& regions[j].attribute == attribute_for_offset(j * granularity, secure_size as int)
            },
        decreases count - i,
    {
        proof {
            assert(i * granularity + granularity == (i + 1) * granularity && i * granularity
                + granularity <= count * granularity) by (nonlinear_arith)
                requires
                    i < count,
                    granularity > 0,
            ;
        }
        let attribute = if offset < secure_size {
            SecurityAttribute::Secure
        } else {
            SecurityAttribute::NonSecure
        };
        regions.push(Region { index: i, base_offset: offset, size: granularity, attribute });
        offset = offset + granularity;
        i = i + 1;
    }
    regions
}

/// Plans the attribute of every flash protection region for a Secure flash
/// partition of `secure_flash_size` bytes.
pub fn plan_flash_regions(secure_flash_size: u32) -> (regions: Vec<Region>)
    requires
        boundary_acceptable(secure_flash_size as int, FLASH_REGION_SIZE as int, FLASH_SIZE as int),
    ensures
        regions.len() == FLASH_SIZE as int / FLASH_REGION_SIZE as int,
        forall|i: int| 0 <= i < regions.len() ==> {
            &&& (#[trigger] regions[i]).index == i
            &&& regions[i].base_offset == i * FLASH_REGION_SIZE
            &&& regions[i].size == FLASH_REGION_SIZE
            &&& regions[i].attribute == attribute_for_offset(
                i * FLASH_REGION_SIZE,
                secure_flash_size as int,
            )
        },
{
    plan_regions(FLASH_SIZE, FLASH_REGION_SIZE, secure_flash_size)
}

/// Plans the attribute of every RAM protection region for a Secure RAM
/// partition of `secure_ram_size` bytes.
pub fn plan_ram_regions(secure_ram_size: u32) -> (regions: Vec<Region>)
    requires
        boundary_acceptable(secure_ram_size as int, RAM_REGION_SIZE as int, RAM_SIZE as int),
    ensures
        regions.len() == RAM_SIZE as int / RAM_REGION_SIZE as int,
        forall|i: int| 0 <= i < regions.len() ==> {
            &&& (#[trigger] regions[i]).index == i
            &&& regions[i].base_offset == i * RAM_REGION_SIZE
            &&& regions[i].size == RAM_REGION_SIZE
            &&& regions[i].attribute == attribute_for_offset(
                i * RAM_REGION_SIZE,
                secure_ram_size as int,
            )
        },
{
    plan_regions(RAM_SIZE, RAM_REGION_SIZE, secure_ram_size)
}

/// Every boundary that is a whole number of regions partitions the plan
/// cleanly: the regions tile the memory with no gaps or overlaps, the
/// Secure ones are exactly those below the boundary, and the Non-Secure
/// ones exactly those at or above it.
#[verifier::rlimit(100)]
pub proof fn lemma_regions_partition(
    regions: Seq<Region>,
    total_size: int,
    granularity: int,
    secure_size: int,
)
    requires
        granularity > 0,
        regions.len() == total_size / granularity,
        total_size % granularity == 0,
        boundary_acceptable(secure_size, granularity, total_size),
        forall|i: int| 0 <= i < regions.len() ==> {
            &&& (#[trigger] regions[i]).index == i
            &&& regions[i].base_offset == i * granularity
            &&& regions[i].size == granularity
            &&& regions[i].attribute == attribute_for_offset(i * granularity, secure_size)
        },
    ensures
        regions.len() > 0 ==> regions[0].base_offset == 0,
        forall|i: int| 0 <= i < regions.len() - 1 ==> (#[trigger] regions[i]).base_offset
            + regions[i].size == regions[i + 1].base_offset,
        regions.len() > 0 ==> regions[regions.len() - 1].base_offset + regions[regions.len()
            - 1].size == total_size,
        forall|i: int| 0 <= i < regions.len() ==> ((#[trigger] regions[i]).attribute
            == SecurityAttribute::Secure <==> regions[i].base_offset < secure_size),
        forall|i: int| 0 <= i < regions.len() ==> ((#[trigger] regions[i]).attribute
            == SecurityAttribute::NonSecure <==> regions[i].base_offset >= secure_size),
{
    lemma_fundamental_div_mod(total_size, granularity);
    assert forall|i: int| 0 <= i < regions.len() - 1 implies (#[trigger] regions[i]).base_offset
        + regions[i].size == regions[i + 1].base_offset by {
        assert(i * granularity + granularity == (i + 1) * granularity) by (nonlinear_arith);
    }
    if regions.len() > 0 {
        let last: int = regions.len() - 1;
        assert(last * granularity + granularity == (last + 1) * granularity) by (nonlinear_arith);
    }
}

/// Permission-register encoding: instruction fetch permission.
pub open spec fn perm_execute_enabled(perm: u32) -> bool {
    perm & 1 == 1
}

/// Permission-register encoding: write permission.
pub open spec fn perm_write_enabled(perm: u32) -> bool {
    (perm >> 1) & 1 == 1
}

/// Permission-register encoding: read permission.
pub open spec fn perm_read_enabled(perm: u32) -> bool {
    (perm >> 2) & 1 == 1
}

/// Permission-register encoding: the security attribute bit, set for
/// Secure.
pub open spec fn perm_secure(perm: u32) -> bool {
    (perm >> 4) & 1 == 1
}

/// Permission-register encoding: the lock bit, which would freeze the
/// region configuration until reset.
pub open spec fn perm_locked(perm: u32) -> bool {
    (perm >> 8) & 1 == 1
}

/// The word to write to a region's permission register: read, write and
/// execute unconditionally enabled, the security bit from the region's
/// attribute, and the lock bit left clear.
pub fn region_perm_value(attribute: SecurityAttribute) -> (perm: u32)
    ensures
        perm_read_enabled(perm),
        perm_write_enabled(perm),
        perm_execute_enabled(perm),
        perm_secure(perm) == (attribute == SecurityAttribute::Secure),
        !perm_locked(perm),
        attribute == SecurityAttribute::Secure ==> perm == 0x17,
        attribute == SecurityAttribute::NonSecure ==> perm == 0x07,
{
    let perm: u32 = match attribute {
        SecurityAttribute::Secure => 0x17,
        SecurityAttribute::NonSecure => 0x07,
    };
    proof {
        assert(perm_read_enabled(0x17) && perm_write_enabled(0x17) && perm_execute_enabled(0x17)
            && perm_secure(0x17) && !perm_locked(0x17)) by (bit_vector);
        assert(perm_read_enabled(0x07) && perm_write_enabled(0x07) && perm_execute_enabled(0x07)
            && !perm_secure(0x07) && !perm_locked(0x07)) by (bit_vector);
    }
    perm
}

} // verus!
