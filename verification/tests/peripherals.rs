use nrf_spm_rs::peripherals::{
    assign_peripherals, nonsecure_perm_value, slot_needs_reassignment, InterruptTargetMap,
    ERRATUM_PERIPHERAL_ID, PERIPHERAL_SLOT_COUNT,
};

// Permission words as the hardware encodes them: bit 31 present, bits 0-1
// the security mapping (2 = user-selectable, 3 = split), bit 4 the
// security attribute, bit 5 the DMA security attribute.
const PRESENT: u32 = 1 << 31;
const MAPPING_SECURE: u32 = 1;
const MAPPING_USER_SELECTABLE: u32 = 2;
const MAPPING_SPLIT: u32 = 3;
const ATTR_SECURE: u32 = 1 << 4;
const DMASEC_SECURE: u32 = 1 << 5;

#[test]
fn present_split_peripheral_is_reassigned() {
    assert!(slot_needs_reassignment(5, PRESENT | MAPPING_SPLIT | ATTR_SECURE));
}

#[test]
fn present_user_selectable_peripheral_is_reassigned() {
    assert!(slot_needs_reassignment(5, PRESENT | MAPPING_USER_SELECTABLE | ATTR_SECURE));
}

#[test]
fn fixed_mapping_peripheral_is_left_alone() {
    assert!(!slot_needs_reassignment(5, PRESENT | MAPPING_SECURE | ATTR_SECURE));
}

#[test]
fn absent_peripheral_is_left_alone() {
    assert!(!slot_needs_reassignment(5, MAPPING_SPLIT | ATTR_SECURE));
}

#[test]
fn erratum_peripheral_is_reassigned_despite_fixed_mapping() {
    // The erratum-affected slot misreports a fixed Secure mapping at
    // reset; the override must win regardless of the reported word.
    assert!(slot_needs_reassignment(ERRATUM_PERIPHERAL_ID, PRESENT | MAPPING_SECURE | ATTR_SECURE));
    assert!(slot_needs_reassignment(ERRATUM_PERIPHERAL_ID, 0));
}

#[test]
fn rewrite_clears_exactly_the_two_security_bits() {
    let word = PRESENT | MAPPING_SPLIT | ATTR_SECURE | DMASEC_SECURE | (1 << 8);
    let rewritten = nonsecure_perm_value(word);
    assert_eq!(rewritten, PRESENT | MAPPING_SPLIT | (1 << 8));
}

#[test]
fn fresh_map_has_every_line_secure() {
    let map = InterruptTargetMap::new();
    assert_eq!(map.words.len(), 16);
    for word in &map.words {
        assert_eq!(*word, 0);
    }
}

#[test]
fn marking_a_line_sets_its_word_and_bit() {
    let mut map = InterruptTargetMap::new();
    map.set_non_secure(49);
    assert_eq!(map.words[1], 1 << 17);
    map.set_non_secure(0);
    assert_eq!(map.words[0], 1);
    map.set_non_secure(511);
    assert_eq!(map.words[15], 1 << 31);
    assert_eq!(map.words[1], 1 << 17);
}

#[test]
fn marking_is_a_read_modify_write_or() {
    let mut map = InterruptTargetMap::new();
    map.set_non_secure(3);
    map.set_non_secure(4);
    map.set_non_secure(3);
    assert_eq!(map.words[0], (1 << 3) | (1 << 4));
}

fn reset_snapshot() -> Vec<u32> {
    let mut snapshot = vec![PRESENT | MAPPING_SECURE | ATTR_SECURE; PERIPHERAL_SLOT_COUNT];
    snapshot[5] = PRESENT | MAPPING_SPLIT | ATTR_SECURE | DMASEC_SECURE;
    snapshot[8] = PRESENT | MAPPING_USER_SELECTABLE | ATTR_SECURE;
    snapshot[12] = MAPPING_SPLIT | ATTR_SECURE;
    snapshot[ERRATUM_PERIPHERAL_ID] = PRESENT | MAPPING_SECURE | ATTR_SECURE;
    snapshot
}

#[test]
fn pass_rewrites_exactly_the_selected_slots() {
    let snapshot = reset_snapshot();
    let mut map = InterruptTargetMap::new();
    let rewritten = assign_peripherals(&snapshot, &mut map);
    assert_eq!(rewritten.len(), snapshot.len());
    for id in 0..rewritten.len() {
        if id == 5 || id == 8 || id == ERRATUM_PERIPHERAL_ID {
            assert_eq!(rewritten[id], snapshot[id] & !(ATTR_SECURE | DMASEC_SECURE));
        } else {
            assert_eq!(rewritten[id], snapshot[id]);
        }
    }
}

#[test]
fn reserved_slots_are_never_touched() {
    let mut snapshot = reset_snapshot();
    snapshot[0] = PRESENT | MAPPING_SPLIT | ATTR_SECURE;
    snapshot[1] = PRESENT | MAPPING_USER_SELECTABLE | ATTR_SECURE;
    snapshot[2] = PRESENT | MAPPING_SPLIT | ATTR_SECURE;
    let mut map = InterruptTargetMap::new();
    let rewritten = assign_peripherals(&snapshot, &mut map);
    assert_eq!(rewritten[0], snapshot[0]);
    assert_eq!(rewritten[1], snapshot[1]);
    assert_eq!(rewritten[2], snapshot[2]);
    assert_eq!(map.words[0] & 0b111, 0);
}

#[test]
fn interrupt_bits_match_reassigned_peripherals() {
    let snapshot = reset_snapshot();
    let mut map = InterruptTargetMap::new();
    let _ = assign_peripherals(&snapshot, &mut map);
    for n in 0..512 {
        let marked = map.words[n / 32] >> (n % 32) & 1 == 1;
        assert_eq!(marked, n == 5 || n == 8 || n == ERRATUM_PERIPHERAL_ID, "line {}", n);
    }
}

#[test]
fn pass_keeps_lines_already_marked() {
    let snapshot = reset_snapshot();
    let mut map = InterruptTargetMap::new();
    map.set_non_secure(40);
    let _ = assign_peripherals(&snapshot, &mut map);
    assert_eq!(map.words[1] >> 8 & 1, 1);
}

#[test]
fn running_the_pass_twice_changes_nothing_further() {
    let snapshot = reset_snapshot();
    let mut map = InterruptTargetMap::new();
    let once = assign_peripherals(&snapshot, &mut map);
    let words_after_once = map.words.clone();
    let twice = assign_peripherals(&once, &mut map);
    assert_eq!(twice, once);
    assert_eq!(map.words, words_after_once);
}
