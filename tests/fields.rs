use vlc3::cpu::Cpu;
use vlc3::fields::Instruction;
use vlc3::opcode::OpCode;
use vlc3::register::Register;

#[test]
fn flat_form_of_addi() {
    let f = Cpu::decode(0x122a).fields();
    assert_eq!(f.opcode(), OpCode::ADDI);
    assert_eq!(f.imm_flag(), Some(true));
    assert_eq!(f.regs(), [Some(Register::R1), Some(Register::R0), None]);
    assert_eq!(f.imm(), Some(10));
    assert_eq!(f.nzp(), [None, None, None]);
}

#[test]
fn flat_form_of_branch() {
    let f = Cpu::decode(0x0a03).fields();
    assert_eq!(f.opcode(), OpCode::BR);
    assert_eq!(f.imm_flag(), None);
    assert_eq!(f.regs(), [None, None, None]);
    assert_eq!(f.imm(), Some(3));
    assert_eq!(f.nzp(), [Some(true), Some(false), Some(true)]);
}

#[test]
fn flat_form_of_str_and_trap() {
    let f = Cpu::decode(0x7181).fields();
    assert_eq!(f.opcode(), OpCode::STR);
    assert_eq!(f.regs(), [Some(Register::R0), Some(Register::R6), None]);
    assert_eq!(f.imm(), Some(1));
    let t = Cpu::decode(0xf022).fields();
    assert_eq!(t.opcode(), OpCode::TRAP);
    assert_eq!(t.imm(), Some(0x22));
}

#[test]
fn flat_form_built_directly() {
    let f = Instruction::new(
        OpCode::NOT,
        None,
        [Some(Register::R2), Some(Register::R3), None],
        None,
        [None, None, None],
    );
    assert_eq!(f.opcode(), OpCode::NOT);
    assert_eq!(f.regs()[1], Some(Register::R3));
    assert_eq!(f.imm(), None);
}
