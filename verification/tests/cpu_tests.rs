use rustboy::cpu::Cpu;
use rustboy::fault::Fault;

/// A core with `program` loaded at address zero and the stack pointer parked
/// in high RAM.
fn cpu_with(program: &[u8]) -> Cpu {
    let mut cpu = Cpu::new();
    cpu.mmu.load_rom(&program.to_vec());
    cpu.reg_sp = 0xFFFE;
    cpu
}

#[test]
fn combined_register_round_trip_exhaustive() {
    let mut cpu = Cpu::new();
    for v in 0..=0xFFFFu16 {
        cpu.set_bc(v);
        assert_eq!(cpu.bc(), v);
        cpu.set_de(v);
        assert_eq!(cpu.de(), v);
        cpu.set_hl(v);
        assert_eq!(cpu.hl(), v);
    }
    // get-then-set leaves the halves untouched
    cpu.reg_b = 0xAB;
    cpu.reg_c = 0xCD;
    let v = cpu.bc();
    cpu.set_bc(v);
    assert_eq!(cpu.reg_b, 0xAB);
    assert_eq!(cpu.reg_c, 0xCD);
}

#[test]
fn inc_then_dec_restores_exhaustive() {
    for v in 0..=255u8 {
        let mut cpu = cpu_with(&[0x04, 0x05]); // INC B; DEC B
        cpu.reg_b = v;
        cpu.reg_f.carry = true;

        assert!(cpu.step().is_ok());
        assert_eq!(cpu.reg_b, v.wrapping_add(1));
        // increment half-carry exactly when the low nibble was 0x0F
        assert_eq!(cpu.reg_f.half_carry, v & 0x0F == 0x0F);
        assert!(!cpu.reg_f.add_sub);
        assert_eq!(cpu.reg_f.zero, v.wrapping_add(1) == 0);
        assert!(cpu.reg_f.carry, "carry must be unaffected by INC");

        assert!(cpu.step().is_ok());
        assert_eq!(cpu.reg_b, v, "increment-then-decrement must restore the value");
        assert_eq!(cpu.reg_f.zero, v == 0, "zero flag must match the restored value");
        // decrement half-carry exactly when the pre-decrement low nibble was nonzero
        assert_eq!(cpu.reg_f.half_carry, v.wrapping_add(1) & 0x0F != 0);
        assert!(cpu.reg_f.add_sub);
        assert!(cpu.reg_f.carry, "carry must be unaffected by DEC");
    }
}

#[test]
fn load_a_then_dec_a() {
    // LD A, 5; DEC A
    let mut cpu = cpu_with(&[0x3E, 0x05, 0x3D]);
    assert!(cpu.step().is_ok());
    assert_eq!(cpu.reg_a, 5);
    assert!(cpu.step().is_ok());
    assert_eq!(cpu.reg_a, 4);
    assert!(!cpu.reg_f.zero);
    assert!(cpu.reg_f.add_sub);
}

#[test]
fn xor_a_clears_accumulator() {
    for a in [1u8, 0x37, 0x80, 0xFF] {
        let mut cpu = cpu_with(&[0xAF]);
        cpu.reg_a = a;
        cpu.reg_f.carry = true;
        cpu.reg_f.add_sub = true;
        cpu.reg_f.half_carry = true;
        assert!(cpu.step().is_ok());
        assert_eq!(cpu.reg_a, 0);
        assert!(cpu.reg_f.zero);
        assert!(!cpu.reg_f.carry);
        assert!(!cpu.reg_f.add_sub);
        assert!(!cpu.reg_f.half_carry);
    }
}

#[test]
fn immediate_loads() {
    // LD B; LD C; LD E; LD L; LD A
    let mut cpu = cpu_with(&[0x06, 0x11, 0x0E, 0x22, 0x1E, 0x33, 0x2E, 0x44, 0x3E, 0x55]);
    for _ in 0..5 {
        assert!(cpu.step().is_ok());
    }
    assert_eq!(cpu.reg_b, 0x11);
    assert_eq!(cpu.reg_c, 0x22);
    assert_eq!(cpu.reg_e, 0x33);
    assert_eq!(cpu.reg_l, 0x44);
    assert_eq!(cpu.reg_a, 0x55);
    assert_eq!(cpu.reg_pc, 10);
}

#[test]
fn sixteen_bit_loads_little_endian() {
    // LD DE, 0xBEEF; LD HL, 0xC123; LD SP, 0xFFFE
    let mut cpu = cpu_with(&[0x11, 0xEF, 0xBE, 0x21, 0x23, 0xC1, 0x31, 0xFE, 0xFF]);
    assert!(cpu.step().is_ok());
    assert_eq!(cpu.de(), 0xBEEF);
    assert_eq!(cpu.reg_d, 0xBE);
    assert_eq!(cpu.reg_e, 0xEF);
    assert!(cpu.step().is_ok());
    assert_eq!(cpu.hl(), 0xC123);
    assert!(cpu.step().is_ok());
    assert_eq!(cpu.reg_sp, 0xFFFE);
}

#[test]
fn register_copies() {
    // LD C,A; LD D,A; LD H,A; LD A,E
    let mut cpu = cpu_with(&[0x4F, 0x57, 0x67, 0x7B]);
    cpu.reg_a = 0x7A;
    cpu.reg_e = 0x12;
    assert!(cpu.step().is_ok());
    assert_eq!(cpu.reg_c, 0x7A);
    assert!(cpu.step().is_ok());
    assert_eq!(cpu.reg_d, 0x7A);
    assert!(cpu.step().is_ok());
    assert_eq!(cpu.reg_h, 0x7A);
    assert!(cpu.step().is_ok());
    assert_eq!(cpu.reg_a, 0x12);
}

#[test]
fn sixteen_bit_increments() {
    // INC DE; INC HL
    let mut cpu = cpu_with(&[0x13, 0x23]);
    cpu.set_de(0x00FF);
    cpu.set_hl(0xFFFF);
    assert!(cpu.step().is_ok());
    assert_eq!(cpu.de(), 0x0100);
    assert!(cpu.step().is_ok());
    assert_eq!(cpu.hl(), 0x0000, "16-bit increment wraps");
}

#[test]
fn store_hl_plus_uses_then_increments() {
    // LD (HL+), A
    let mut cpu = cpu_with(&[0x22]);
    cpu.set_hl(0xC010);
    cpu.reg_a = 0x5C;
    assert!(cpu.step().is_ok());
    assert_eq!(cpu.mmu.read_byte(0xC010), Ok(0x5C));
    assert_eq!(cpu.hl(), 0xC011);
}

#[test]
fn store_hl_minus_uses_pre_decrement_address() {
    // LD (HL-), A: the byte lands at the address H:L held before the
    // decrement.
    let mut cpu = cpu_with(&[0x32]);
    cpu.set_hl(0xC010);
    cpu.reg_a = 0x9D;
    assert!(cpu.step().is_ok());
    assert_eq!(cpu.mmu.read_byte(0xC010), Ok(0x9D));
    assert_eq!(cpu.mmu.read_byte(0xC00F), Ok(0x00));
    assert_eq!(cpu.hl(), 0xC00F);
}

#[test]
fn store_and_load_through_pointers() {
    // LD (HL), A then LD A, (DE) reading it back
    let mut cpu = cpu_with(&[0x77, 0x1A]);
    cpu.set_hl(0xC020);
    cpu.set_de(0xC020);
    cpu.reg_a = 0x42;
    assert!(cpu.step().is_ok());
    cpu.reg_a = 0;
    assert!(cpu.step().is_ok());
    assert_eq!(cpu.reg_a, 0x42);
}

#[test]
fn relative_jump_forward_and_backward() {
    // JR +3 at 0, landing at 5; then JR -2 at 5, landing at 5 again
    let mut cpu = cpu_with(&[0x18, 0x03, 0x00, 0x00, 0x00, 0x18, 0xFE]);
    assert!(cpu.step().is_ok());
    assert_eq!(cpu.reg_pc, 5);
    assert!(cpu.step().is_ok());
    assert_eq!(cpu.reg_pc, 5);
}

#[test]
fn conditional_jumps_consume_displacement() {
    // JR NZ, +2 with zero set: no jump, but the displacement byte is consumed
    let mut cpu = cpu_with(&[0x20, 0x02, 0x28, 0x02]);
    cpu.reg_f.zero = true;
    assert!(cpu.step().is_ok());
    assert_eq!(cpu.reg_pc, 2, "failed condition still advances past the displacement");
    // JR Z, +2 with zero set: jump taken from 4 to 6
    assert!(cpu.step().is_ok());
    assert_eq!(cpu.reg_pc, 6);
}

#[test]
fn conditional_jump_taken_when_nonzero() {
    let mut cpu = cpu_with(&[0x20, 0x10]);
    cpu.reg_f.zero = false;
    assert!(cpu.step().is_ok());
    assert_eq!(cpu.reg_pc, 0x12);
}

#[test]
fn rotate_left_through_carry() {
    // RLA with carry in
    let mut cpu = cpu_with(&[0x17]);
    cpu.reg_a = 0x96;
    cpu.reg_f.carry = true;
    assert!(cpu.step().is_ok());
    assert_eq!(cpu.reg_a, 0x2D);
    assert!(cpu.reg_f.carry, "new carry is the pre-rotation bit 7");
    assert!(!cpu.reg_f.zero);
    assert!(!cpu.reg_f.add_sub);
    assert!(!cpu.reg_f.half_carry);
}

#[test]
fn rotate_left_c_register_to_zero() {
    // CB RL C: 0x80 with carry clear becomes 0 and sets carry
    let mut cpu = cpu_with(&[0xCB, 0x11]);
    cpu.reg_c = 0x80;
    cpu.reg_f.carry = false;
    assert!(cpu.step().is_ok());
    assert_eq!(cpu.reg_c, 0x00);
    assert!(cpu.reg_f.carry);
    assert!(cpu.reg_f.zero);
    assert_eq!(cpu.reg_pc, 2);
}

#[test]
fn bit_test_high_bit_of_h() {
    // CB BIT 7,H twice: once clear, once set
    let mut cpu = cpu_with(&[0xCB, 0x7C, 0xCB, 0x7C]);
    cpu.reg_h = 0x00;
    cpu.reg_f.carry = true;
    assert!(cpu.step().is_ok());
    assert!(cpu.reg_f.zero, "zero is the inverse of the tested bit");
    assert!(cpu.reg_f.half_carry);
    assert!(!cpu.reg_f.add_sub);
    assert!(cpu.reg_f.carry, "carry untouched by BIT");
    cpu.reg_h = 0x80;
    assert!(cpu.step().is_ok());
    assert!(!cpu.reg_f.zero);
}

#[test]
fn compare_immediate_flags() {
    // CP 5 with A = 5, then A = 3, then A = 0x12 vs 0x08
    let mut cpu = cpu_with(&[0xFE, 0x05, 0xFE, 0x05, 0xFE, 0x08]);
    cpu.reg_a = 5;
    assert!(cpu.step().is_ok());
    assert!(cpu.reg_f.zero);
    assert!(!cpu.reg_f.carry);
    assert!(cpu.reg_f.add_sub);
    cpu.reg_a = 3;
    assert!(cpu.step().is_ok());
    assert!(!cpu.reg_f.zero);
    assert!(cpu.reg_f.carry, "carry set when A is less than the immediate");
    assert!(cpu.reg_f.half_carry, "low-nibble borrow: 3 < 5");
    cpu.reg_a = 0x12;
    assert!(cpu.step().is_ok());
    assert!(!cpu.reg_f.carry);
    assert!(cpu.reg_f.half_carry, "low-nibble borrow: 2 < 8");
}

#[test]
fn push_pop_round_trip() {
    let mut cpu = Cpu::new();
    cpu.reg_sp = 0xD000;
    cpu.set_bc(0x1234);
    assert!(cpu.push_u16(0x1234).is_ok());
    assert_eq!(cpu.reg_sp, 0xCFFE);
    // low byte at the original stack pointer, high byte below it
    assert_eq!(cpu.mmu.read_byte(0xD000), Ok(0x34));
    assert_eq!(cpu.mmu.read_byte(0xCFFF), Ok(0x12));
    assert_eq!(cpu.pop_u16(), Ok(0x1234));
    assert_eq!(cpu.reg_sp, 0xD000);
}

#[test]
fn push_pop_bc_instructions() {
    // PUSH BC; POP BC into a clobbered register pair
    let mut cpu = cpu_with(&[0xC5, 0x0E, 0x00, 0x06, 0x00, 0xC1]);
    cpu.set_bc(0xA55A);
    assert!(cpu.step().is_ok()); // PUSH BC
    assert!(cpu.step().is_ok()); // LD C, 0
    assert!(cpu.step().is_ok()); // LD B, 0
    assert_eq!(cpu.bc(), 0);
    assert!(cpu.step().is_ok()); // POP BC
    assert_eq!(cpu.bc(), 0xA55A);
    assert_eq!(cpu.reg_sp, 0xFFFE);
}

#[test]
fn call_then_return_restores_pc() {
    // LD SP, 0xFFFE; CALL 0x0010; ... at 0x0010: RET
    let mut program = vec![0x31, 0xFE, 0xFF, 0xCD, 0x10, 0x00];
    program.resize(0x10, 0x00);
    program.push(0xC9);
    let mut cpu = cpu_with(&program);
    assert!(cpu.step().is_ok()); // LD SP
    assert!(cpu.step().is_ok()); // CALL
    assert_eq!(cpu.reg_pc, 0x0010);
    assert_eq!(cpu.reg_sp, 0xFFFC);
    assert!(cpu.step().is_ok()); // RET
    assert_eq!(cpu.reg_pc, 0x0006, "RET lands just after the CALL");
    assert_eq!(cpu.reg_sp, 0xFFFE);
}

#[test]
fn high_memory_store_and_load() {
    // LD A, 0x66; LDH (0x80), A; LD A, 0; LDH A, (0x80)
    let mut cpu = cpu_with(&[0x3E, 0x66, 0xE0, 0x80, 0x3E, 0x00, 0xF0, 0x80]);
    for _ in 0..4 {
        assert!(cpu.step().is_ok());
    }
    assert_eq!(cpu.reg_a, 0x66);
    assert_eq!(cpu.mmu.read_byte(0xFF80), Ok(0x66));
}

#[test]
fn store_through_c_register_port() {
    // LD (C), A with C = 0x81 writes at 0xFF81
    let mut cpu = cpu_with(&[0xE2]);
    cpu.reg_c = 0x81;
    cpu.reg_a = 0x99;
    assert!(cpu.step().is_ok());
    assert_eq!(cpu.mmu.read_byte(0xFF81), Ok(0x99));
}

#[test]
fn store_at_immediate_address() {
    // LD (0xC123), A
    let mut cpu = cpu_with(&[0xEA, 0x23, 0xC1]);
    cpu.reg_a = 0x77;
    assert!(cpu.step().is_ok());
    assert_eq!(cpu.mmu.read_byte(0xC123), Ok(0x77));
    assert_eq!(cpu.reg_pc, 3);
}

#[test]
fn unknown_opcode_is_decode_fault_and_commits_nothing() {
    let mut cpu = cpu_with(&[0x00]);
    let before_a = cpu.reg_a;
    assert_eq!(
        cpu.step(),
        Err(Fault::DecodeFault { opcode: 0x00, pc: 0x0000 })
    );
    assert_eq!(cpu.reg_pc, 0, "a faulting step leaves the program counter alone");
    assert_eq!(cpu.reg_a, before_a);
}

#[test]
fn unknown_secondary_opcode_is_decode_fault() {
    let mut cpu = cpu_with(&[0xCB, 0xFF]);
    assert_eq!(
        cpu.step(),
        Err(Fault::DecodeFault { opcode: 0xFF, pc: 0x0001 })
    );
    assert_eq!(cpu.reg_pc, 0);
}

#[test]
fn faulting_store_commits_nothing() {
    // LD (HL), A aimed at ROM: write-protect fault, nothing changes
    let mut cpu = cpu_with(&[0x77]);
    cpu.set_hl(0x0000);
    cpu.reg_a = 0x55;
    assert_eq!(cpu.step(), Err(Fault::WriteProtectFault { addr: 0x0000 }));
    assert_eq!(cpu.reg_pc, 0);
    assert_eq!(cpu.hl(), 0x0000);
    assert_eq!(cpu.mmu.read_byte(0x0000), Ok(0x77), "ROM byte untouched");
}

#[test]
fn load_from_unmapped_address_faults() {
    // LD A, (DE) with DE in the unmapped gap
    let mut cpu = cpu_with(&[0x1A]);
    cpu.set_de(0xA000);
    assert_eq!(cpu.step(), Err(Fault::AddressFault { addr: 0xA000 }));
    assert_eq!(cpu.reg_pc, 0);
}
