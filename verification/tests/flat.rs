use c64emu::cpu::Cpu;
use c64emu::execute::CpuError;
use c64emu::memory::IOMem;

#[derive(Clone)]
struct FlatRam {
    bytes: Vec<u8>,
}

impl IOMem for FlatRam {
    fn peek(&self, addr: u16) -> u8 {
        self.bytes[addr as usize]
    }

    fn poke(&self, addr: u16, value: u8) -> Self {
        let mut after = self.clone();
        after.bytes[addr as usize] = value;
        after
    }

    fn read_u8(&self, addr: u16) -> u8 {
        self.bytes[addr as usize]
    }

    fn read_u16(&self, addr: u16) -> u16 {
        let low = self.read_u8(addr) as u16;
        let high = self.read_u8(addr.wrapping_add(1)) as u16;
        (high << 8) | low
    }

    fn write_u8(&mut self, addr: u16, value: u8) {
        self.bytes[addr as usize] = value;
    }
}

#[test]
fn processor_runs_on_any_memory_behind_the_bus_interface() {
    let mut mem = FlatRam { bytes: vec![0u8; 0x10000] };
    mem.bytes[0xF000..0xF005].copy_from_slice(&[0xA9, 0x07, 0x85, 0x10, 0x02]);
    let mut cpu = Cpu { pc: 0xF000, sp: 0xFF, a: 0, x: 0, y: 0, status: 0x10 };
    assert_eq!(cpu.execute_instructions(&mut mem), Ok(()));
    assert_eq!(cpu.execute_instructions(&mut mem), Ok(()));
    assert_eq!(mem.bytes[0x0010], 0x07);
    assert_eq!(cpu, Cpu { pc: 0xF004, sp: 0xFF, a: 0x07, x: 0, y: 0, status: 0x10 });
    assert_eq!(cpu.execute_instructions(&mut mem), Err(CpuError::UnsupportedInstruction(0x02)));
}
