use miden_air_verified::field::Felt;
use miden_air_verified::trace::chiplets::ace::ACE_INIT_LABEL;
use miden_air_verified::trace::chiplets::bitwise::{BITWISE_AND_LABEL, BITWISE_XOR_LABEL};
use miden_air_verified::trace::chiplets::kernel_rom::{KERNEL_PROC_CALL_LABEL, KERNEL_PROC_INIT_LABEL};
use miden_air_verified::trace::chiplets::memory::{
    MEMORY_READ_ELEMENT_LABEL, MEMORY_READ_WORD_LABEL, MEMORY_WRITE_ELEMENT_LABEL, MEMORY_WRITE_WORD_LABEL,
};

fn label(is_read: u64, is_word: u64) -> u64 {
    4 + 8 * is_read + 16 * is_word
}

#[test]
fn chiplets_test_operation_labels() {
    assert_eq!(Felt::new(BITWISE_AND_LABEL), Felt::new(2));
    assert_eq!(Felt::new(BITWISE_XOR_LABEL), Felt::new(6));
    assert_eq!(MEMORY_WRITE_ELEMENT_LABEL, 4);
    assert_eq!(MEMORY_READ_ELEMENT_LABEL, 12);
    assert_eq!(MEMORY_WRITE_WORD_LABEL, 20);
    assert_eq!(MEMORY_READ_WORD_LABEL, 28);
}

#[test]
fn chiplets_test_memory_label_formula() {
    assert_eq!(label(0, 0), MEMORY_WRITE_ELEMENT_LABEL as u64);
    assert_eq!(label(1, 0), MEMORY_READ_ELEMENT_LABEL as u64);
    assert_eq!(label(0, 1), MEMORY_WRITE_WORD_LABEL as u64);
    assert_eq!(label(1, 1), MEMORY_READ_WORD_LABEL as u64);
}

#[test]
fn chiplets_test_ace_label() {
    assert_eq!(Felt::new(ACE_INIT_LABEL), Felt::new(8));
}

#[test]
fn chiplets_test_kernel_rom_labels() {
    assert_eq!(Felt::new(KERNEL_PROC_CALL_LABEL), Felt::new(16));
    assert_eq!(Felt::new(KERNEL_PROC_INIT_LABEL), Felt::new(48));
}

#[test]
fn mod_test_operation_labels() {
    assert_eq!(Felt::new(BITWISE_AND_LABEL), Felt::new(2));
    assert_eq!(Felt::new(BITWISE_XOR_LABEL), Felt::new(6));
    assert_eq!(MEMORY_WRITE_ELEMENT_LABEL, 4);
    assert_eq!(MEMORY_READ_ELEMENT_LABEL, 12);
    assert_eq!(MEMORY_WRITE_WORD_LABEL, 20);
    assert_eq!(MEMORY_READ_WORD_LABEL, 28);
}

#[test]
fn mod_test_memory_label_formula() {
    assert_eq!(label(0, 0), MEMORY_WRITE_ELEMENT_LABEL as u64);
    assert_eq!(label(1, 0), MEMORY_READ_ELEMENT_LABEL as u64);
    assert_eq!(label(0, 1), MEMORY_WRITE_WORD_LABEL as u64);
    assert_eq!(label(1, 1), MEMORY_READ_WORD_LABEL as u64);
}

#[test]
fn mod_test_ace_label() {
    assert_eq!(Felt::new(ACE_INIT_LABEL), Felt::new(8));
}

#[test]
fn mod_test_kernel_rom_labels() {
    assert_eq!(Felt::new(KERNEL_PROC_CALL_LABEL), Felt::new(16));
    assert_eq!(Felt::new(KERNEL_PROC_INIT_LABEL), Felt::new(48));
}
