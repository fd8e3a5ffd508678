use nrf_spm_rs::switcher::{
    header_from_words, non_secure_alias, plan_switch, startup_control_value,
    NonSecureImageHeader, NONSECURE_ALIAS_OFFSET,
};

#[test]
fn header_words_land_in_their_fields() {
    let header = header_from_words(0x2003_fff0, 0x0001_0004);
    assert_eq!(header.initial_stack_pointer, 0x2003_fff0);
    assert_eq!(header.reset_handler_address, 0x0001_0004);
}

#[test]
fn switch_plan_programs_stacks_and_entry_from_the_header() {
    let header = NonSecureImageHeader {
        initial_stack_pointer: 0x2003_fff0,
        reset_handler_address: 0x0001_0004,
    };
    let plan = plan_switch(0x0001_0000, header);
    assert_eq!(plan.main_stack_pointer, 0x2003_fff0);
    assert_eq!(plan.process_stack_pointer, 0);
    // The callable entry comes from the header's reset field, never from
    // the header's own base address.
    assert_eq!(plan.entry_address, 0x0001_0004);
    assert_ne!(plan.entry_address, plan.vector_table_offset);
    assert_eq!(plan.vector_table_offset, 0x0001_0000);
}

#[test]
fn startup_control_forces_privileged_main_stack_mode() {
    assert_eq!(startup_control_value(0x3), 0);
    assert_eq!(startup_control_value(0x1), 0);
    assert_eq!(startup_control_value(0x2), 0);
    assert_eq!(startup_control_value(0x0), 0);
}

#[test]
fn startup_control_keeps_unrelated_bits() {
    assert_eq!(startup_control_value(0xffff_ffff), 0xffff_fffc);
    assert_eq!(startup_control_value(0x7), 0x4);
}

#[test]
fn alias_is_a_fixed_offset_from_the_secure_register() {
    assert_eq!(non_secure_alias(0xe000_ed04), 0xe002_ed04);
    assert_eq!(non_secure_alias(0), NONSECURE_ALIAS_OFFSET);
}
