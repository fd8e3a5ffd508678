//! Non-Secure state switcher.
//!
//! The first two words at the start of the Non-Secure code region form
//! the image header: the initial main stack pointer, then the reset
//! handler address. From the header and the table's base address the
//! switcher derives every value the boundary crossing programs: the
//! Non-Secure vector-table offset, the two Non-Secure stack pointers, the
//! startup control word, and the entry address of the one-way call into
//! Non-Secure code.

use vstd::prelude::*;

verus! {

/// Address distance between a Secure core register and its Non-Secure
/// alias, through which Secure code configures Non-Secure core state
/// without switching state.
pub const NONSECURE_ALIAS_OFFSET: u32 = 0x0002_0000;

/// Control-word bit that starts the thread mode unprivileged; cleared so
/// Non-Secure code starts privileged.
pub const CONTROL_UNPRIVILEGED_MASK: u32 = 0x1;

/// Control-word bit that selects the process stack pointer; cleared so
/// Non-Secure code starts on the main stack pointer.
pub const CONTROL_PROCESS_STACK_MASK: u32 = 0x2;

/// The first two words of the Non-Secure image: produced by the
/// Non-Secure build, read once, never validated beyond use as-is.
#[derive(Clone, Copy, PartialEq, Eq, Structural, Debug)]
pub struct NonSecureImageHeader {
    /// Word zero: the initial Non-Secure main stack pointer.
    pub initial_stack_pointer: u32,
    /// Word one: the address of the Non-Secure reset handler.
    pub reset_handler_address: u32,
}

/// Everything the boundary crossing writes before the one-way call, as
/// plain register values.
#[derive(Clone, Copy, PartialEq, Eq, Structural, Debug)]
pub struct SwitchPlan {
    /// Value for the Non-Secure alias of the vector-table-offset
    /// register: the base of the Non-Secure vector table.
    pub vector_table_offset: u32,
    /// Value for the Non-Secure main stack pointer register.
    pub main_stack_pointer: u32,
    /// Value for the Non-Secure process stack pointer register: zero,
    /// a clean deterministic state for code that has not run yet.
    pub process_stack_pointer: u32,
    /// Address the cross-domain call jumps to: the header's reset
    /// handler, not the header's own address.
    pub entry_address: u32,
}

/// Reassembles the image header from the two words read at the base of
/// the Non-Secure code region.
pub fn header_from_words(word_zero: u32, word_one: u32) -> (header: NonSecureImageHeader)
    ensures
        header.initial_stack_pointer == word_zero,
        header.reset_handler_address == word_one,
{
    NonSecureImageHeader { initial_stack_pointer: word_zero, reset_handler_address: word_one }
}

/// Derives the full switch plan from the Non-Secure vector table base and
/// the header found there: the vector-table offset is the table base, the
/// main stack pointer is header word zero, the process stack pointer is
/// zero, and the entry is header word one.
pub fn plan_switch(vector_table_base: u32, header: NonSecureImageHeader) -> (plan: SwitchPlan)
    ensures
        plan.vector_table_offset == vector_table_base,
        plan.main_stack_pointer == header.initial_stack_pointer,
        plan.process_stack_pointer == 0,
        plan.entry_address == header.reset_handler_address,
{
    SwitchPlan {
        vector_table_offset: vector_table_base,
        main_stack_pointer: header.initial_stack_pointer,
        process_stack_pointer: 0,
        entry_address: header.reset_handler_address,
    }
}

/// Computes the Non-Secure startup control word from the value read
/// back: privileged thread mode and main-stack-pointer-active forced,
/// every unrelated bit kept, so Non-Secure code starts in a known mode
/// without inheriting either bit.
pub fn startup_control_value(current: u32) -> (control: u32)
    ensures
        control == current & !(CONTROL_UNPRIVILEGED_MASK | CONTROL_PROCESS_STACK_MASK),
        control & CONTROL_UNPRIVILEGED_MASK == 0,
        control & CONTROL_PROCESS_STACK_MASK == 0,
        forall|j: u32| 2 <= j < 32 ==> crate::policy::register_bit(control, j)
            == crate::policy::register_bit(current, j),
{
    proof {
        assert((current & !(0x1u32 | 0x2u32)) & 0x1u32 == 0 && (current & !(0x1u32 | 0x2u32))
            & 0x2u32 == 0) by (bit_vector);
        assert forall|j: u32| 2 <= j < 32 implies crate::policy::register_bit(
            current & !(CONTROL_UNPRIVILEGED_MASK | CONTROL_PROCESS_STACK_MASK),
            j,
        ) == crate::policy::register_bit(current, j) by {
            assert(2 <= j < 32 ==> ((current & !(0x1u32 | 0x2u32)) >> j) & 1 == (current >> j)
                & 1) by (bit_vector);
        }
    }
    current & !(CONTROL_UNPRIVILEGED_MASK | CONTROL_PROCESS_STACK_MASK)
}

/// Computes the Non-Secure alias of a Secure core register address.
pub fn non_secure_alias(secure_address: u32) -> (alias: u32)
    requires
        secure_address + NONSECURE_ALIAS_OFFSET <= u32::MAX,
    ensures
        alias == secure_address + NONSECURE_ALIAS_OFFSET,
{
    secure_address + NONSECURE_ALIAS_OFFSET
}

} // verus!
