use c64emu::c64mem::C64Mem;
use c64emu::cpu::Cpu;
use c64emu::execute::CpuError;
use c64emu::memory::IOMem;
use c64emu::opcode::{get_opcode, Mnemonic, OpMode, Opcode};

fn flat_with(program: &[u8], at: u16) -> C64Mem {
    let mut mem = C64Mem::new();
    mem.write_u8(1, 0);
    mem.load_ram(&program.to_vec(), at);
    mem
}

fn at(pc: u16) -> Cpu {
    Cpu { pc, sp: 0xFF, a: 0, x: 0, y: 0, status: 0x10 }
}

#[test]
fn step_on_an_unsupported_byte_fails_and_changes_nothing() {
    for byte in [0x02u8, 0x2F, 0x80, 0xFF] {
        let mut mem = flat_with(&[byte, 0x11, 0x22], 0x1000);
        let before = mem;
        let mut cpu = Cpu { pc: 0x1000, sp: 0xF0, a: 1, x: 2, y: 3, status: 0xC3 };
        assert_eq!(cpu.execute_instructions(&mut mem), Err(CpuError::UnsupportedInstruction(byte)));
        assert_eq!(cpu, Cpu { pc: 0x1000, sp: 0xF0, a: 1, x: 2, y: 3, status: 0xC3 });
        assert!(mem.ram[..] == before.ram[..]);
        assert!(mem.rom[..] == before.rom[..]);
        assert!(mem.io[..] == before.io[..]);
    }
}

#[test]
fn step_never_reports_an_unrecognized_mnemonic() {
    for byte in 0u16..256 {
        let mut mem = flat_with(&[byte as u8, 0x10, 0x20], 0x1000);
        let mut cpu = at(0x1000);
        let result = cpu.execute_instructions(&mut mem);
        assert_ne!(result, Err(CpuError::UnrecognizedMnemonic));
        assert_eq!(result.is_ok(), get_opcode(byte as u8).is_some());
    }
}

#[test]
fn backward_branch_by_two_returns_to_the_branch_itself() {
    let mut mem = flat_with(&[0xD0, 0xFE], 0x1000);
    let mut cpu = at(0x1000);
    assert_eq!(cpu.execute_instructions(&mut mem), Ok(()));
    assert_eq!(cpu, at(0x1000));
}

#[test]
fn branch_not_taken_falls_through() {
    let mut mem = flat_with(&[0xD0, 0xFE], 0x1000);
    let mut cpu = Cpu { status: 0x12, ..at(0x1000) };
    assert_eq!(cpu.execute_instructions(&mut mem), Ok(()));
    assert_eq!(cpu, Cpu { status: 0x12, ..at(0x1002) });
}

#[test]
fn forward_branch_lands_behind_the_offset() {
    let mut mem = flat_with(&[0xF0, 0x10], 0x1000);
    let mut cpu = Cpu { status: 0x12, ..at(0x1000) };
    assert_eq!(cpu.execute_instructions(&mut mem), Ok(()));
    assert_eq!(cpu.pc, 0x1012);
}

#[test]
fn step_advances_by_the_instruction_length() {
    let mut mem = flat_with(&[0xEA, 0xA9, 0x01, 0xAD, 0x00, 0x20], 0x1000);
    let mut cpu = at(0x1000);
    assert_eq!(cpu.execute_instructions(&mut mem), Ok(()));
    assert_eq!(cpu.pc, 0x1001);
    assert_eq!(cpu.execute_instructions(&mut mem), Ok(()));
    assert_eq!(cpu.pc, 0x1003);
    assert_eq!(cpu.a, 0x01);
    assert_eq!(cpu.execute_instructions(&mut mem), Ok(()));
    assert_eq!(cpu.pc, 0x1006);
    assert_eq!(cpu.a, 0x00);
}

#[test]
fn program_counter_wraps_at_the_top() {
    let mut mem = flat_with(&[0xEA], 0xFFFF);
    let mut cpu = at(0xFFFF);
    assert_eq!(cpu.execute_instructions(&mut mem), Ok(()));
    assert_eq!(cpu.pc, 0x0000);
    let mut mem = flat_with(&[0xA9], 0xFFFF);
    mem.write_u8(0, 0x42);
    let mut cpu = at(0xFFFF);
    assert_eq!(cpu.execute_instructions(&mut mem), Ok(()));
    assert_eq!(cpu.pc, 0x0001);
    assert_eq!(cpu.a, 0x42);
}

#[test]
fn immediate_add_through_a_step() {
    let mut mem = flat_with(&[0x69, 0x50], 0x1000);
    let mut cpu = Cpu { a: 0x50, ..at(0x1000) };
    assert_eq!(cpu.execute_instructions(&mut mem), Ok(()));
    assert_eq!(cpu, Cpu { pc: 0x1002, a: 0xA0, status: 0xD0, ..at(0) });
}

#[test]
fn accumulator_shift_through_a_step() {
    let mut mem = flat_with(&[0x0A, 0x2A, 0x4A, 0x6A], 0x1000);
    mem.write_u8(0x0081, 0x55);
    let mut cpu = Cpu { a: 0x81, ..at(0x1000) };
    assert_eq!(cpu.execute_instructions(&mut mem), Ok(()));
    assert_eq!(cpu, Cpu { pc: 0x1001, a: 0x02, status: 0x11, ..at(0) });
    assert_eq!(cpu.execute_instructions(&mut mem), Ok(()));
    assert_eq!(cpu, Cpu { pc: 0x1002, a: 0x05, status: 0x10, ..at(0) });
    assert_eq!(cpu.execute_instructions(&mut mem), Ok(()));
    assert_eq!(cpu, Cpu { pc: 0x1003, a: 0x02, status: 0x11, ..at(0) });
    assert_eq!(cpu.execute_instructions(&mut mem), Ok(()));
    assert_eq!(cpu, Cpu { pc: 0x1004, a: 0x81, status: 0x90, ..at(0) });
    assert_eq!(mem.ram[0x0081], 0x55);
    assert_eq!(mem.ram[0x0002], 0x00);
}

#[test]
fn memory_shift_through_a_step() {
    let mut mem = flat_with(&[0x06, 0x10, 0x6E, 0x00, 0x30], 0x1000);
    mem.write_u8(0x0010, 0xC0);
    mem.write_u8(0x3000, 0x01);
    let mut cpu = Cpu { a: 0x10, ..at(0x1000) };
    assert_eq!(cpu.execute_instructions(&mut mem), Ok(()));
    assert_eq!(mem.ram[0x0010], 0x80);
    assert_eq!(cpu, Cpu { pc: 0x1002, a: 0x10, status: 0x91, ..at(0) });
    assert_eq!(cpu.execute_instructions(&mut mem), Ok(()));
    assert_eq!(mem.ram[0x3000], 0x80);
    assert_eq!(cpu, Cpu { pc: 0x1005, a: 0x10, status: 0x91, ..at(0) });
}

#[test]
fn call_and_return_through_steps() {
    let mut mem = flat_with(&[0x20, 0x00, 0x30, 0xEA], 0x2000);
    mem.write_u8(0x3000, 0x60);
    let mut cpu = at(0x2000);
    assert_eq!(cpu.execute_instructions(&mut mem), Ok(()));
    assert_eq!(cpu, Cpu { pc: 0x3000, sp: 0xFD, ..at(0) });
    assert_eq!(mem.ram[0x01FF], 0x20);
    assert_eq!(mem.ram[0x01FE], 0x02);
    assert_eq!(cpu.execute_instructions(&mut mem), Ok(()));
    assert_eq!(cpu, at(0x2003));
}

#[test]
fn break_through_a_step() {
    let mut mem = flat_with(&[0x00], 0x2000);
    mem.load_ram(&vec![0x00, 0x30], 0xFFFE);
    let mut cpu = at(0x2000);
    assert_eq!(cpu.execute_instructions(&mut mem), Ok(()));
    assert_eq!(cpu, Cpu { pc: 0x3000, sp: 0xFC, status: 0x14, ..at(0) });
    assert_eq!(mem.ram[0x01FF], 0x20);
    assert_eq!(mem.ram[0x01FE], 0x02);
    assert_eq!(mem.ram[0x01FD], 0x10);
}

#[test]
fn indirect_jump_reads_a_zero_page_pointer() {
    let mut mem = flat_with(&[0x6C, 0x40, 0x99], 0x2000);
    mem.load_ram(&vec![0x78, 0x56], 0x0040);
    let mut cpu = at(0x2000);
    assert_eq!(cpu.execute_instructions(&mut mem), Ok(()));
    assert_eq!(cpu, at(0x5678));
}

#[test]
fn indirect_indexed_load_through_a_step_wraps_in_the_zero_page() {
    let mut mem = flat_with(&[0xB1, 0xFF], 0x2000);
    mem.load_ram(&vec![0x00], 0x00FF);
    mem.load_ram(&vec![0x30], 0x0000);
    mem.load_ram(&vec![0x40], 0x0100);
    mem.write_u8(0x3005, 0x77);
    mem.write_u8(0x4005, 0x88);
    let mut cpu = Cpu { y: 0x05, ..at(0x2000) };
    assert_eq!(cpu.execute_instructions(&mut mem), Ok(()));
    assert_eq!(cpu, Cpu { pc: 0x2002, a: 0x77, y: 0x05, ..at(0) });
}

#[test]
fn store_and_load_through_steps() {
    let mut mem = flat_with(&[0xA2, 0x7F, 0x8E, 0x34, 0x12, 0xAC, 0x34, 0x12], 0x2000);
    let mut cpu = at(0x2000);
    assert_eq!(cpu.execute_instructions(&mut mem), Ok(()));
    assert_eq!(cpu.execute_instructions(&mut mem), Ok(()));
    assert_eq!(mem.ram[0x1234], 0x7F);
    assert_eq!(cpu.execute_instructions(&mut mem), Ok(()));
    assert_eq!(cpu, Cpu { pc: 0x2008, x: 0x7F, y: 0x7F, ..at(0) });
}

#[test]
fn step_reads_the_instruction_through_the_banking() {
    let mut mem = C64Mem::new();
    mem.load_rom(&vec![0xA9, 0x11], 0xE000);
    mem.load_ram(&vec![0xA9, 0x22], 0xE000);
    let mut cpu = at(0xE000);
    assert_eq!(cpu.execute_instructions(&mut mem), Ok(()));
    assert_eq!(cpu.a, 0x11);
    mem.write_u8(1, 0x35);
    cpu.set_pc(0xE000);
    assert_eq!(cpu.execute_instructions(&mut mem), Ok(()));
    assert_eq!(cpu.a, 0x22);
}

#[test]
fn execute_runs_one_instruction_at_a_given_address() {
    let mut mem = flat_with(&[0x80], 0x3000);
    let mut cpu = at(0x1002);
    let opcode = Opcode { code: 0xAD, mnemonic: Mnemonic::Lda, mode: OpMode::Absolute, bytes: 3 };
    cpu.execute(&mut mem, &opcode, 0x3000);
    assert_eq!(cpu, Cpu { a: 0x80, status: 0x90, ..at(0x1002) });
    let opcode = get_opcode(0x8D).unwrap();
    cpu.execute(&mut mem, &opcode, 0x3001);
    assert_eq!(mem.ram[0x3001], 0x80);
}

#[test]
fn every_instruction_is_dispatched_to_its_handler() {
    for byte in 0u16..256 {
        let Some(opcode) = get_opcode(byte as u8) else {
            continue;
        };
        let start = Cpu { pc: 0x1003, sp: 0x80, a: 0x81, x: 0x42, y: 0x24, status: 0x51 };
        let mut mem = flat_with(&[0x3C], 0x2000);
        let mut by_dispatch = start;
        by_dispatch.execute(&mut mem, &opcode, 0x2000);
        let mut memory = flat_with(&[0x3C], 0x2000);
        let mut direct = start;
        match opcode.mnemonic {
            Mnemonic::Adc => direct.adc(&memory, 0x2000),
            Mnemonic::And => direct.and(&memory, 0x2000),
            Mnemonic::Asl => direct.asl(&mut memory, opcode.mode, 0x2000),
            Mnemonic::Bcc => direct.bcc(0x2000),
            Mnemonic::Bcs => direct.bcs(0x2000),
            Mnemonic::Beq => direct.beq(0x2000),
            Mnemonic::Bit => direct.bit(&memory, 0x2000),
            Mnemonic::Bmi => direct.bmi(0x2000),
            Mnemonic::Bne => direct.bne(0x2000),
            Mnemonic::Bpl => direct.bpl(0x2000),
            Mnemonic::Brk => direct.brk(&mut memory),
            Mnemonic::Bvc => direct.bvc(0x2000),
            Mnemonic::Bvs => direct.bvs(0x2000),
            Mnemonic::Clc => direct.clc(),
            Mnemonic::Cld => direct.cld(),
            Mnemonic::Cli => direct.cli(),
            Mnemonic::Clv => direct.clv(),
            Mnemonic::Cmp => direct.cmp(&memory, 0x2000),
            Mnemonic::Cpx => direct.cpx(&memory, 0x2000),
            Mnemonic::Cpy => direct.cpy(&memory, 0x2000),
            Mnemonic::Dec => direct.dec(&mut memory, 0x2000),
            Mnemonic::Dex => direct.dex(),
            Mnemonic::Dey => direct.dey(),
            Mnemonic::Eor => direct.eor(&memory, 0x2000),
            Mnemonic::Inc => direct.inc(&mut memory, 0x2000),
            Mnemonic::Inx => direct.inx(),
            Mnemonic::Iny => direct.iny(),
            Mnemonic::Jmp => direct.jmp(0x2000),
            Mnemonic::Jsr => direct.jsr(&mut memory, 0x2000),
            Mnemonic::Lda => direct.lda(&memory, 0x2000),
            Mnemonic::Ldx => direct.ldx(&memory, 0x2000),
            Mnemonic::Ldy => direct.ldy(&memory, 0x2000),
            Mnemonic::Lsr => direct.lsr(&mut memory, opcode.mode, 0x2000),
            Mnemonic::Nop => direct.nop(),
            Mnemonic::Ora => direct.ora(&memory, 0x2000),
            Mnemonic::Pha => direct.pha(&mut memory),
            Mnemonic::Php => direct.php(&mut memory),
            Mnemonic::Pla => direct.pla(&memory),
            Mnemonic::Plp => direct.plp(&memory),
            Mnemonic::Rol => direct.rol(&mut memory, opcode.mode, 0x2000),
            Mnemonic::Ror => direct.ror(&mut memory, opcode.mode, 0x2000),
            Mnemonic::Rti => direct.rti(&memory),
            Mnemonic::Rts => direct.rts(&memory),
            Mnemonic::Sbc => direct.sbc(&memory, 0x2000),
            Mnemonic::Sec => direct.sec(),
            Mnemonic::Sed => direct.sed(),
            Mnemonic::Sei => direct.sei(),
            Mnemonic::Sta => direct.sta(&mut memory, 0x2000),
            Mnemonic::Stx => direct.stx(&mut memory, 0x2000),
            Mnemonic::Sty => direct.sty(&mut memory, 0x2000),
            Mnemonic::Tax => direct.tax(),
            Mnemonic::Tay => direct.tay(),
            Mnemonic::Tsx => direct.tsx(),
            Mnemonic::Txa => direct.txa(),
            Mnemonic::Txs => direct.txs(),
            Mnemonic::Tya => direct.tya(),
        }
        assert_eq!(by_dispatch, direct);
        assert!(mem.ram[..] == memory.ram[..]);
    }
}

#[test]
fn advance_wraps_at_16_bits() {
    let mut cpu = at(0xFFFE);
    cpu.advance(1);
    assert_eq!(cpu, at(0xFFFF));
    cpu.advance(2);
    assert_eq!(cpu, at(0x0001));
    cpu.advance(0);
    assert_eq!(cpu, at(0x0001));
}
