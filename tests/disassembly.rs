use emu8080::cpu::Em8080;
use emu8080::disasm::{length_of, mnemonic, Operand};
use emu8080::semantics::EmuError;

#[test]
fn names_and_operands() {
    let mut sys = Em8080::new();
    assert_eq!(sys.load_rom(&[0x01, 0xBB, 0xAA, 0x3E, 0x42, 0x80, 0xCD, 0x34, 0x12], 0), Ok(()));
    assert_eq!(sys.op_name(0), Ok(("LXI B,", Operand::Word(0xAABB))));
    assert_eq!(sys.op_name(3), Ok(("MVI A,", Operand::Byte(0x42))));
    assert_eq!(sys.op_name(5), Ok(("ADD B", Operand::Implied)));
    assert_eq!(sys.op_name(6), Ok(("CALL", Operand::Word(0x1234))));
}

#[test]
fn aliases_read_as_their_instruction() {
    assert_eq!(mnemonic(0x08), "NOP");
    assert_eq!(mnemonic(0xCB), "JMP");
    assert_eq!(mnemonic(0xD9), "RET");
    assert_eq!(mnemonic(0xDD), "CALL");
    assert_eq!(mnemonic(0x76), "HLT");
}

#[test]
fn instruction_lengths() {
    assert_eq!(length_of(0x00), 1);
    assert_eq!(length_of(0x01), 3);
    assert_eq!(length_of(0x06), 2);
    assert_eq!(length_of(0x22), 3);
    assert_eq!(length_of(0x3A), 3);
    assert_eq!(length_of(0x0A), 1);
    assert_eq!(length_of(0xC2), 3);
    assert_eq!(length_of(0xD3), 2);
    assert_eq!(length_of(0xDB), 2);
    assert_eq!(length_of(0xE3), 1);
    assert_eq!(length_of(0xFD), 3);
    assert_eq!(length_of(0xFE), 2);
    assert_eq!(length_of(0xFF), 1);
}

#[test]
fn operand_past_memory() {
    let mut sys = Em8080::new();
    let last = (sys.memory.len() - 1) as u16;
    sys.memory[last as usize] = 0xC3;
    assert_eq!(sys.op_name(last), Err(EmuError::AddressOutOfRange { address: last + 1 }));
    assert_eq!(sys.op_name(0x4000), Err(EmuError::AddressOutOfRange { address: 0x4000 }));
}

#[test]
fn jump_and_its_alias_read_alike() {
    let mut sys = Em8080::new();
    assert_eq!(sys.load_rom(&[0xC3, 0xFF, 0xAA, 0xCB, 0xFF, 0xAA], 0), Ok(()));
    assert_eq!(sys.op_name(0), Ok(("JMP", Operand::Word(0xAAFF))));
    assert_eq!(sys.op_name(3), sys.op_name(0));
    assert_eq!(mnemonic(0xDE), "SBI");
    assert_eq!(mnemonic(0xF1), "POP AF");
    assert_eq!(mnemonic(0xEF), "RST 5");
}
