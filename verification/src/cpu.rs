//! Processor core: the register file, the flag register, and the
//! fetch-decode-execute cycle over the memory bus the core owns.
//!
//! [`CpuView`] is the mathematical model of the core; [`step_spec`] is the
//! specification-level interpreter of one instruction, and the executable
//! [`Cpu::step`] is proved to implement it exactly.  A step that faults
//! leaves the entire machine state unchanged: an instruction either fully
//! commits or commits nothing.

use vstd::prelude::*;

use crate::fault::Fault;
use crate::mmu;
use crate::mmu::Mmu;
use crate::mmu::MmuView;

verus! {

// --- 8-bit and 16-bit wrapping arithmetic ---

/// `v + d` modulo 256.
pub open spec fn wadd8(v: u8, d: u8) -> u8 {
    if v + d < 256 {
        (v + d) as u8
    } else {
        (v + d - 256) as u8
    }
}

/// `v - d` modulo 256.
pub open spec fn wsub8(v: u8, d: u8) -> u8 {
    if v >= d {
        (v - d) as u8
    } else {
        (v - d + 256) as u8
    }
}

/// `v + d` modulo 65536.
pub open spec fn wadd16(v: u16, d: u16) -> u16 {
    if v + d < 0x10000 {
        (v + d) as u16
    } else {
        (v + d - 0x10000) as u16
    }
}

/// `v - d` modulo 65536.
pub open spec fn wsub16(v: u16, d: u16) -> u16 {
    if v >= d {
        (v - d) as u16
    } else {
        (v - d + 0x10000) as u16
    }
}

pub fn wrapping_add8(v: u8, d: u8) -> (r: u8)
    ensures
        r == wadd8(v, d),
{
    if v <= 255 - d {
        v + d
    } else {
        let wide = v as u16 + d as u16;
        (wide - 256) as u8
    }
}

pub fn wrapping_sub8(v: u8, d: u8) -> (r: u8)
    ensures
        r == wsub8(v, d),
{
    if v >= d {
        v - d
    } else {
        let wide = v as u16 + 256 - d as u16;
        wide as u8
    }
}

pub fn wrapping_add16(v: u16, d: u16) -> (r: u16)
    ensures
        r == wadd16(v, d),
{
    let wide = v as u32 + d as u32;
    if wide < 0x10000 {
        wide as u16
    } else {
        (wide - 0x10000) as u16
    }
}

pub fn wrapping_sub16(v: u16, d: u16) -> (r: u16)
    ensures
        r == wsub16(v, d),
{
    if v >= d {
        v - d
    } else {
        let wide = v as u32 + 0x10000 - d as u32;
        wide as u16
    }
}

// --- byte splitting and joining ---

/// The high byte of a 16-bit value.
pub open spec fn hi8(v: u16) -> u8 {
    (v >> 8) as u8
}

/// The low byte of a 16-bit value.
pub open spec fn lo8(v: u16) -> u8 {
    (v & 0xFF) as u8
}

/// `high:low` as one 16-bit value.
pub open spec fn combine16(hi: u8, lo: u8) -> u16 {
    ((hi as u16) << 8) | (lo as u16)
}

pub fn high_byte(v: u16) -> (r: u8)
    ensures
        r == hi8(v),
{
    (v >> 8) as u8
}

pub fn low_byte(v: u16) -> (r: u8)
    ensures
        r == lo8(v),
{
    (v & 0xFF) as u8
}

pub fn make16(hi: u8, lo: u8) -> (r: u16)
    ensures
        r == combine16(hi, lo),
{
    ((hi as u16) << 8) | (lo as u16)
}

/// Splitting a combined value recovers both bytes.
proof fn lemma_split_combine(hi: u8, lo: u8)
    by (bit_vector)
    ensures
        hi8(combine16(hi, lo)) == hi,
        lo8(combine16(hi, lo)) == lo,
{
}

/// Combining the two bytes of a value recovers the value.
proof fn lemma_combine_split(v: u16)
    by (bit_vector)
    ensures
        combine16(hi8(v), lo8(v)) == v,
{
}

// --- signed displacement helpers ---

/// Reinterpret a byte as a two's-complement displacement.
pub fn unsigned_to_signed(val: u8) -> (r: i16)
    ensures
        r == (if val < 0x80 {
            val as int
        } else {
            val - 256
        }),
{
    if val < 0x80 {
        val as i16
    } else {
        (val as i16) - 256
    }
}

/// The magnitude of a non-positive displacement.
pub fn signed_to_unsigned(val: i16) -> (r: u8)
    requires
        -255 <= val <= 0,
    ensures
        r as int == -(val as int),
{
    (0 - val) as u8
}

/// The destination of a relative jump: `pc` plus the two's-complement
/// reading of the displacement byte, modulo 65536.
pub open spec fn jr_target(pc: u16, off: u8) -> u16 {
    if off < 0x80 {
        wadd16(pc, off as u16)
    } else {
        wsub16(pc, (256 - off) as u16)
    }
}

// --- the flag register ---

/// The four meaningful bits of the flag register.  All other bits of the
/// hardware register are don't-care and are not modeled.
#[derive(Clone, Copy, Debug, PartialEq, Eq, Structural)]
pub struct RegFlag {
    pub zero: bool,
    pub add_sub: bool,
    pub half_carry: bool,
    pub carry: bool,
}

/// Flags after an 8-bit increment of `v`: zero reflects the wrapped result,
/// subtract is cleared, half-carry is set exactly when the low nibble was
/// `0x0F` before the operation, and carry is unaffected.
pub open spec fn inc_flags(v: u8, f: RegFlag) -> RegFlag {
    RegFlag {
        zero: wadd8(v, 1) == 0,
        add_sub: false,
        half_carry: (v & 0x0F) == 0x0F,
        carry: f.carry,
    }
}

/// Flags after an 8-bit decrement of `v`: zero reflects the wrapped result,
/// subtract is set, half-carry is set exactly when the low nibble was
/// nonzero before the operation, and carry is unaffected.
pub open spec fn dec_flags(v: u8, f: RegFlag) -> RegFlag {
    RegFlag {
        zero: wsub8(v, 1) == 0,
        add_sub: true,
        half_carry: (v & 0x0F) != 0,
        carry: f.carry,
    }
}

/// The byte produced by rotate-left-through-carry: shifted left one, with
/// the incoming carry in bit 0.
pub open spec fn rl_result(v: u8, cin: bool) -> u8 {
    (v << 1) | (if cin {
        1u8
    } else {
        0u8
    })
}

/// The carry produced by rotate-left-through-carry: the pre-rotation bit 7.
pub open spec fn rl_carry(v: u8) -> bool {
    v & 0x80 != 0
}

/// Flags after a rotate-left-through-carry: zero reflects the result,
/// subtract and half-carry are cleared, carry is the pre-rotation bit 7.
pub open spec fn rl_flags(v: u8, cin: bool) -> RegFlag {
    RegFlag {
        zero: rl_result(v, cin) == 0,
        add_sub: false,
        half_carry: false,
        carry: rl_carry(v),
    }
}

/// Flags after comparing the accumulator with an immediate: zero when
/// equal, subtract always set, carry when the accumulator is less, and
/// half-carry on a low-nibble borrow.
pub open spec fn cp_flags(a: u8, imm: u8) -> RegFlag {
    RegFlag {
        zero: a == imm,
        add_sub: true,
        half_carry: (a & 0x0F) < (imm & 0x0F),
        carry: a < imm,
    }
}

/// Rotate `val` left by one, placing `carry` into bit 0 and returning the
/// pre-rotation bit 7 as the new carry.
pub fn rotate_left_carry(val: u8, carry: bool) -> (r: (u8, bool))
    ensures
        r.0 == rl_result(val, carry),
        r.1 == rl_carry(val),
{
    let shifted: u8 = (val << 1) | (if carry {
        1u8
    } else {
        0u8
    });
    (shifted, val & 0x80 != 0)
}

// --- the processor core ---

/// Mathematical model of the core: the register file, the flags, and the
/// bus it owns.
#[verifier::ext_equal]
pub ghost struct CpuView {
    pub a: u8,
    pub f: RegFlag,
    pub b: u8,
    pub c: u8,
    pub d: u8,
    pub e: u8,
    pub h: u8,
    pub l: u8,
    pub sp: u16,
    pub pc: u16,
    pub mmu: MmuView,
}

impl CpuView {
    /// Well-formedness: the owned bus is well-formed.
    pub open spec fn wf(self) -> bool {
        self.mmu.wf()
    }
}

/// The combined B:C view.
pub open spec fn bc_of(s: CpuView) -> u16 {
    combine16(s.b, s.c)
}

/// The combined D:E view.
pub open spec fn de_of(s: CpuView) -> u16 {
    combine16(s.d, s.e)
}

/// The combined H:L view.
pub open spec fn hl_of(s: CpuView) -> u16 {
    combine16(s.h, s.l)
}

/// Writing the combined B:C view decomposes into both halves.
pub open spec fn set_bc_spec(s: CpuView, v: u16) -> CpuView {
    CpuView { b: hi8(v), c: lo8(v), ..s }
}

/// Writing the combined D:E view decomposes into both halves.
pub open spec fn set_de_spec(s: CpuView, v: u16) -> CpuView {
    CpuView { d: hi8(v), e: lo8(v), ..s }
}

/// Writing the combined H:L view decomposes into both halves.
pub open spec fn set_hl_spec(s: CpuView, v: u16) -> CpuView {
    CpuView { h: hi8(v), l: lo8(v), ..s }
}

/// The processor core.
pub struct Cpu {
    /// Accumulator.
    pub reg_a: u8,
    /// Flags.
    pub reg_f: RegFlag,
    // General purpose registers.
    pub reg_b: u8,
    pub reg_c: u8,
    pub reg_d: u8,
    pub reg_e: u8,
    pub reg_h: u8,
    pub reg_l: u8,
    /// Stack pointer.
    pub reg_sp: u16,
    /// Program counter.
    pub reg_pc: u16,
    /// The memory bus the core exclusively owns.
    pub mmu: Mmu,
}

impl View for Cpu {
    type V = CpuView;

    open spec fn view(&self) -> CpuView {
        CpuView {
            a: self.reg_a,
            f: self.reg_f,
            b: self.reg_b,
            c: self.reg_c,
            d: self.reg_d,
            e: self.reg_e,
            h: self.reg_h,
            l: self.reg_l,
            sp: self.reg_sp,
            pc: self.reg_pc,
            mmu: self.mmu@,
        }
    }
}

impl Cpu {
    /// Power-on state: the accumulator starts non-zero per hardware reset
    /// behaviour, everything else zeroed, over a power-on bus.
    pub fn new() -> (r: Self)
        ensures
            r@.wf(),
            r@.a == 1u8,
            r@.f == (RegFlag { zero: false, add_sub: false, half_carry: false, carry: false }),
            r@.b == 0u8 && r@.c == 0u8 && r@.d == 0u8 && r@.e == 0u8 && r@.h == 0u8 && r@.l == 0u8,
            r@.sp == 0u16,
            r@.pc == 0u16,
            mmu::power_on_mmu(r@.mmu),
    {
        Cpu {
            reg_a: 1,
            reg_f: RegFlag { zero: false, add_sub: false, half_carry: false, carry: false },
            reg_b: 0,
            reg_c: 0,
            reg_d: 0,
            reg_e: 0,
            reg_h: 0,
            reg_l: 0,
            reg_sp: 0,
            reg_pc: 0,
            mmu: Mmu::new(),
        }
    }

    /// The combined B:C register view.
    pub fn bc(&self) -> (r: u16)
        ensures
            r == bc_of(self@),
    {
        make16(self.reg_b, self.reg_c)
    }

    /// Write the combined B:C register view.
    pub fn set_bc(&mut self, value: u16)
        ensures
            *final(self) == (Cpu { reg_b: hi8(value), reg_c: lo8(value), ..*old(self) }),
            final(self)@ == set_bc_spec(old(self)@, value),
    {
        self.reg_b = high_byte(value);
        self.reg_c = low_byte(value);
    }

    /// The combined D:E register view.
    pub fn de(&self) -> (r: u16)
        ensures
            r == de_of(self@),
    {
        make16(self.reg_d, self.reg_e)
    }

    /// Write the combined D:E register view.
    pub fn set_de(&mut self, value: u16)
        ensures
            final(self)@ == set_de_spec(old(self)@, value),
    {
        self.reg_d = high_byte(value);
        self.reg_e = low_byte(value);
    }

    /// The combined H:L register view.
    pub fn hl(&self) -> (r: u16)
        ensures
            r == hl_of(self@),
    {
        make16(self.reg_h, self.reg_l)
    }

    /// Write the combined H:L register view.
    pub fn set_hl(&mut self, value: u16)
        ensures
            final(self)@ == set_hl_spec(old(self)@, value),
    {
        self.reg_h = high_byte(value);
        self.reg_l = low_byte(value);
    }
}

// --- laws of the register file and the flag arithmetic ---

/// Round trip of the combined-register views: writing a 16-bit value and
/// reading it back yields the value, and writing back the value just read
/// leaves the whole core state unchanged — for each of B:C, D:E and H:L.
pub proof fn lemma_combined_register_round_trip(s: CpuView, v: u16)
    ensures
        bc_of(set_bc_spec(s, v)) == v,
        de_of(set_de_spec(s, v)) == v,
        hl_of(set_hl_spec(s, v)) == v,
        set_bc_spec(s, bc_of(s)) == s,
        set_de_spec(s, de_of(s)) == s,
        set_hl_spec(s, hl_of(s)) == s,
{
    lemma_split_combine(s.b, s.c);
    lemma_split_combine(s.d, s.e);
    lemma_split_combine(s.h, s.l);
    lemma_combine_split(v);
}

/// Increment-then-decrement of an 8-bit register restores the original
/// value, leaves the zero flag consistent with the restored value, and
/// leaves the carry flag untouched.
pub proof fn lemma_inc_then_dec_restores(v: u8, f: RegFlag)
    ensures
        wsub8(wadd8(v, 1), 1) == v,
        dec_flags(wadd8(v, 1), inc_flags(v, f)).zero == (v == 0u8),
        dec_flags(wadd8(v, 1), inc_flags(v, f)).carry == f.carry,
{
}

/// Half-carry of the 8-bit increment is set exactly when the pre-increment
/// low nibble equals `0x0F`; half-carry of the decrement is set exactly
/// when the pre-decrement low nibble is nonzero.
pub proof fn lemma_half_carry_nibble(v: u8, f: RegFlag)
    ensures
        inc_flags(v, f).half_carry <==> (v & 0x0F) == 0x0F,
        dec_flags(v, f).half_carry <==> (v & 0x0F) != 0,
{
}

/// Pushing a 16-bit value and popping it straight back yields the pushed
/// value and restores the stack pointer and every register, whenever both
/// stack bytes land in plain RAM (working RAM or high RAM).  This pins the
/// push/pop byte-order convention as self-consistent: a call followed by a
/// matching return restores the program counter.
pub proof fn lemma_push_pop_round_trip(s: CpuView, v: u16)
    requires
        s.wf(),
        mmu::in_work_ram(s.sp) || mmu::in_high_ram(s.sp),
        mmu::in_work_ram(wsub16(s.sp, 1)) || mmu::in_high_ram(wsub16(s.sp, 1)),
    ensures
        push16_spec(s, v) is Ok,
        pop16_spec(push16_spec(s, v)->Ok_0) is Ok,
        pop16_spec(push16_spec(s, v)->Ok_0)->Ok_0.0 == v,
        pop16_spec(push16_spec(s, v)->Ok_0)->Ok_0.1 == (CpuView {
            mmu: push16_spec(s, v)->Ok_0.mmu,
            ..s
        }),
{
    let a1 = s.sp;
    let a2 = wsub16(s.sp, 1);
    assert(a1 != a2);
    let m1 = mmu::write_spec(s.mmu, a1, lo8(v))->Ok_0;
    let m2 = mmu::write_spec(m1, a2, hi8(v))->Ok_0;
    let sp2 = wsub16(s.sp, 2);
    assert(wadd16(sp2, 1) == a2);
    assert(wadd16(sp2, 2) == a1);
    assert(mmu::read_spec(m2, a2) == Ok::<u8, Fault>(hi8(v)));
    assert(mmu::read_spec(m2, a1) == Ok::<u8, Fault>(lo8(v)));
    lemma_combine_split(v);
}

// --- specification-level interpreter ---

/// Consume one immediate byte at the program counter, advancing it.
pub open spec fn imm8_spec(s: CpuView) -> Result<(u8, CpuView), Fault> {
    match mmu::read_spec(s.mmu, s.pc) {
        Ok(v) => Ok((v, CpuView { pc: wadd16(s.pc, 1), ..s })),
        Err(f) => Err(f),
    }
}

/// Consume two immediate bytes, low byte first, forming `high:low`.
pub open spec fn imm16_spec(s: CpuView) -> Result<(u16, CpuView), Fault> {
    match imm8_spec(s) {
        Err(f) => Err(f),
        Ok((lo, s1)) => match imm8_spec(s1) {
            Err(f) => Err(f),
            Ok((hi, s2)) => Ok((combine16(hi, lo), s2)),
        },
    }
}

/// Push a 16-bit value: the low byte is written at the stack pointer, the
/// high byte one below it, and the stack pointer drops by two.
pub open spec fn push16_spec(s: CpuView, value: u16) -> Result<CpuView, Fault> {
    match mmu::write_spec(s.mmu, s.sp, lo8(value)) {
        Err(f) => Err(f),
        Ok(m1) => match mmu::write_spec(m1, wsub16(s.sp, 1), hi8(value)) {
            Err(f) => Err(f),
            Ok(m2) => Ok(CpuView { mmu: m2, sp: wsub16(s.sp, 2), ..s }),
        },
    }
}

/// Pop a 16-bit value: the mirror of [`push16_spec`] — the high byte is
/// read one above the stack pointer, the low byte two above, and the stack
/// pointer rises by two.
pub open spec fn pop16_spec(s: CpuView) -> Result<(u16, CpuView), Fault> {
    match mmu::read_spec(s.mmu, wadd16(s.sp, 1)) {
        Err(f) => Err(f),
        Ok(hi) => match mmu::read_spec(s.mmu, wadd16(s.sp, 2)) {
            Err(f) => Err(f),
            Ok(lo) => Ok((combine16(hi, lo), CpuView { sp: wadd16(s.sp, 2), ..s })),
        },
    }
}

/// A relative jump: consume the displacement byte, then add its
/// two's-complement reading to the program counter.
pub open spec fn jr_spec(s: CpuView) -> Result<CpuView, Fault> {
    match imm8_spec(s) {
        Err(f) => Err(f),
        Ok((off, s1)) => Ok(CpuView { pc: jr_target(s1.pc, off), ..s1 }),
    }
}

/// The secondary (CB-prefixed) dispatch.  `s` has already consumed the
/// sub-opcode byte `op`, which was fetched from address `at`.
pub open spec fn cb_op_spec(s: CpuView, op: u8, at: u16) -> Result<CpuView, Fault> {
    if op == 0x11 {
        // RL C
        Ok(CpuView { c: rl_result(s.c, s.f.carry), f: rl_flags(s.c, s.f.carry), ..s })
    } else if op == 0x7C {
        // BIT 7, H: zero is the inverse of the tested bit; carry untouched.
        Ok(
            CpuView {
                f: RegFlag {
                    zero: (s.h >> 7) == 0,
                    add_sub: false,
                    half_carry: true,
                    carry: s.f.carry,
                },
                ..s
            },
        )
    } else {
        Err(Fault::DecodeFault { opcode: op, pc: at })
    }
}

/// The secondary table's own fetch: consume the sub-opcode byte after the
/// prefix, identically to any other fetch, then dispatch it.
pub open spec fn cb_step_spec(s: CpuView) -> Result<CpuView, Fault> {
    match imm8_spec(s) {
        Err(f) => Err(f),
        Ok((op2, s1)) => cb_op_spec(s1, op2, s.pc),
    }
}

/// The primary dispatch.  `s` has already consumed the opcode byte `op`,
/// which was fetched from address `at`.
pub open spec fn op_spec(s: CpuView, op: u8, at: u16) -> Result<CpuView, Fault> {
    if op == 0x04 {
        // INC B
        Ok(CpuView { b: wadd8(s.b, 1), f: inc_flags(s.b, s.f), ..s })
    } else if op == 0x05 {
        // DEC B
        Ok(CpuView { b: wsub8(s.b, 1), f: dec_flags(s.b, s.f), ..s })
    } else if op == 0x06 {
        // LD B, d8
        match imm8_spec(s) {
            Err(f) => Err(f),
            Ok((v, s1)) => Ok(CpuView { b: v, ..s1 }),
        }
    } else if op == 0x0C {
        // INC C
        Ok(CpuView { c: wadd8(s.c, 1), f: inc_flags(s.c, s.f), ..s })
    } else if op == 0x0D {
        // DEC C
        Ok(CpuView { c: wsub8(s.c, 1), f: dec_flags(s.c, s.f), ..s })
    } else if op == 0x0E {
        // LD C, d8
        match imm8_spec(s) {
            Err(f) => Err(f),
            Ok((v, s1)) => Ok(CpuView { c: v, ..s1 }),
        }
    } else if op == 0x11 {
        // LD DE, d16
        match imm16_spec(s) {
            Err(f) => Err(f),
            Ok((v, s1)) => Ok(set_de_spec(s1, v)),
        }
    } else if op == 0x13 {
        // INC DE
        Ok(set_de_spec(s, wadd16(de_of(s), 1)))
    } else if op == 0x17 {
        // RLA
        Ok(CpuView { a: rl_result(s.a, s.f.carry), f: rl_flags(s.a, s.f.carry), ..s })
    } else if op == 0x18 {
        // JR r8
        jr_spec(s)
    } else if op == 0x1A {
        // LD A, (DE)
        match mmu::read_spec(s.mmu, de_of(s)) {
            Err(f) => Err(f),
            Ok(v) => Ok(CpuView { a: v, ..s }),
        }
    } else if op == 0x1E {
        // LD E, d8
        match imm8_spec(s) {
            Err(f) => Err(f),
            Ok((v, s1)) => Ok(CpuView { e: v, ..s1 }),
        }
    } else if op == 0x20 {
        // JR NZ, r8: the displacement byte is consumed either way; the jump
        // applies only when the condition holds.
        if !s.f.zero {
            jr_spec(s)
        } else {
            Ok(CpuView { pc: wadd16(s.pc, 1), ..s })
        }
    } else if op == 0x21 {
        // LD HL, d16
        match imm16_spec(s) {
            Err(f) => Err(f),
            Ok((v, s1)) => Ok(set_hl_spec(s1, v)),
        }
    } else if op == 0x22 {
        // LD (HL+), A
        match mmu::write_spec(s.mmu, hl_of(s), s.a) {
            Err(f) => Err(f),
            Ok(m) => Ok(set_hl_spec(CpuView { mmu: m, ..s }, wadd16(hl_of(s), 1))),
        }
    } else if op == 0x23 {
        // INC HL
        Ok(set_hl_spec(s, wadd16(hl_of(s), 1)))
    } else if op == 0x28 {
        // JR Z, r8
        if s.f.zero {
            jr_spec(s)
        } else {
            Ok(CpuView { pc: wadd16(s.pc, 1), ..s })
        }
    } else if op == 0x2E {
        // LD L, d8
        match imm8_spec(s) {
            Err(f) => Err(f),
            Ok((v, s1)) => Ok(CpuView { l: v, ..s1 }),
        }
    } else if op == 0x31 {
        // LD SP, d16
        match imm16_spec(s) {
            Err(f) => Err(f),
            Ok((v, s1)) => Ok(CpuView { sp: v, ..s1 }),
        }
    } else if op == 0x32 {
        // LD (HL-), A: the store uses the pre-decrement address, then H:L
        // drops by one.
        match mmu::write_spec(s.mmu, hl_of(s), s.a) {
            Err(f) => Err(f),
            Ok(m) => Ok(set_hl_spec(CpuView { mmu: m, ..s }, wsub16(hl_of(s), 1))),
        }
    } else if op == 0x3D {
        // DEC A
        Ok(CpuView { a: wsub8(s.a, 1), f: dec_flags(s.a, s.f), ..s })
    } else if op == 0x3E {
        // LD A, d8
        match imm8_spec(s) {
            Err(f) => Err(f),
            Ok((v, s1)) => Ok(CpuView { a: v, ..s1 }),
        }
    } else if op == 0x4F {
        // LD C, A
        Ok(CpuView { c: s.a, ..s })
    } else if op == 0x57 {
        // LD D, A
        Ok(CpuView { d: s.a, ..s })
    } else if op == 0x67 {
        // LD H, A
        Ok(CpuView { h: s.a, ..s })
    } else if op == 0x77 {
        // LD (HL), A
        match mmu::write_spec(s.mmu, hl_of(s), s.a) {
            Err(f) => Err(f),
            Ok(m) => Ok(CpuView { mmu: m, ..s }),
        }
    } else if op == 0x7B {
        // LD A, E
        Ok(CpuView { a: s.e, ..s })
    } else if op == 0xAF {
        // XOR A: the accumulator becomes zero, the zero flag is set, and
        // carry, subtract and half-carry are all cleared.
        Ok(
            CpuView {
                a: 0,
                f: RegFlag { zero: true, add_sub: false, half_carry: false, carry: false },
                ..s
            },
        )
    } else if op == 0xC1 {
        // POP BC
        match pop16_spec(s) {
            Err(f) => Err(f),
            Ok((v, s1)) => Ok(set_bc_spec(s1, v)),
        }
    } else if op == 0xC5 {
        // PUSH BC
        push16_spec(s, bc_of(s))
    } else if op == 0xC9 {
        // RET
        match pop16_spec(s) {
            Err(f) => Err(f),
            Ok((v, s1)) => Ok(CpuView { pc: v, ..s1 }),
        }
    } else if op == 0xCB {
        // secondary table: fetch the sub-opcode and dispatch
        cb_step_spec(s)
    } else if op == 0xCD {
        // CALL a16: push the address after the immediate, then jump.
        match imm16_spec(s) {
            Err(f) => Err(f),
            Ok((target, s1)) => match push16_spec(s1, s1.pc) {
                Err(f) => Err(f),
                Ok(s2) => Ok(CpuView { pc: target, ..s2 }),
            },
        }
    } else if op == 0xE0 {
        // LDH (a8), A
        match imm8_spec(s) {
            Err(f) => Err(f),
            Ok((v, s1)) => match mmu::write_spec(s1.mmu, (0xFF00 + v) as u16, s1.a) {
                Err(f) => Err(f),
                Ok(m) => Ok(CpuView { mmu: m, ..s1 }),
            },
        }
    } else if op == 0xE2 {
        // LD (C), A
        match mmu::write_spec(s.mmu, (0xFF00 + s.c) as u16, s.a) {
            Err(f) => Err(f),
            Ok(m) => Ok(CpuView { mmu: m, ..s }),
        }
    } else if op == 0xEA {
        // LD (a16), A
        match imm16_spec(s) {
            Err(f) => Err(f),
            Ok((target, s1)) => match mmu::write_spec(s1.mmu, target, s1.a) {
                Err(f) => Err(f),
                Ok(m) => Ok(CpuView { mmu: m, ..s1 }),
            },
        }
    } else if op == 0xF0 {
        // LDH A, (a8)
        match imm8_spec(s) {
            Err(f) => Err(f),
            Ok((v, s1)) => match mmu::read_spec(s1.mmu, (0xFF00 + v) as u16) {
                Err(f) => Err(f),
                Ok(b) => Ok(CpuView { a: b, ..s1 }),
            },
        }
    } else if op == 0xFE {
        // CP d8: compare without storing.
        match imm8_spec(s) {
            Err(f) => Err(f),
            Ok((v, s1)) => Ok(CpuView { f: cp_flags(s1.a, v), ..s1 }),
        }
    } else {
        Err(Fault::DecodeFault { opcode: op, pc: at })
    }
}

/// One fetch-decode-execute cycle: fetch the opcode at the program counter,
/// advance the counter past it, then dispatch.  A fault at any point yields
/// the unchanged pre-step state.
pub open spec fn step_spec(s: CpuView) -> Result<CpuView, Fault> {
    match mmu::read_spec(s.mmu, s.pc) {
        Err(f) => Err(f),
        Ok(op) => op_spec(CpuView { pc: wadd16(s.pc, 1), ..s }, op, s.pc),
    }
}

// --- executable instruction plumbing ---

/// The opcodes handled by the low dispatch block.
pub open spec fn lo_opcode(op: u8) -> bool {
    op == 0x04 || op == 0x05 || op == 0x06 || op == 0x0C || op == 0x0D || op == 0x0E || op == 0x11
        || op == 0x13 || op == 0x17 || op == 0x18 || op == 0x1A || op == 0x1E || op == 0x20 || op
        == 0x21
}

/// The opcodes handled by the middle dispatch block.
pub open spec fn mid_opcode(op: u8) -> bool {
    op == 0x22 || op == 0x23 || op == 0x28 || op == 0x2E || op == 0x31 || op == 0x32 || op == 0x3D
        || op == 0x3E || op == 0x4F || op == 0x57 || op == 0x67 || op == 0x77 || op == 0x7B
}

impl Cpu {
    /// Consume one immediate byte, per [`imm8_spec`].  On a fault nothing
    /// changes.
    pub fn load_imm_u8(&mut self) -> (r: Result<u8, Fault>)
        requires
            old(self)@.wf(),
        ensures
            final(self)@.wf(),
            match imm8_spec(old(self)@) {
                Ok(vs) => r == Ok::<u8, Fault>(vs.0) && final(self)@ == vs.1,
                Err(f) => r == Err::<u8, Fault>(f) && final(self)@ == old(self)@,
            },
    {
        match self.mmu.read_byte(self.reg_pc) {
            Ok(v) => {
                self.reg_pc = wrapping_add16(self.reg_pc, 1);
                Ok(v)
            },
            Err(f) => Err(f),
        }
    }

    /// Consume two immediate bytes, low first, per [`imm16_spec`].  On a
    /// fault nothing changes, not even the program counter.
    pub fn load_imm_u16(&mut self) -> (r: Result<u16, Fault>)
        requires
            old(self)@.wf(),
        ensures
            final(self)@.wf(),
            match imm16_spec(old(self)@) {
                Ok(vs) => r == Ok::<u16, Fault>(vs.0) && final(self)@ == vs.1,
                Err(f) => r == Err::<u16, Fault>(f) && final(self)@ == old(self)@,
            },
    {
        let lo = match self.mmu.read_byte(self.reg_pc) {
            Ok(v) => v,
            Err(f) => {
                return Err(f);
            },
        };
        let hi = match self.mmu.read_byte(wrapping_add16(self.reg_pc, 1)) {
            Ok(v) => v,
            Err(f) => {
                return Err(f);
            },
        };
        self.reg_pc = wrapping_add16(self.reg_pc, 2);
        Ok(make16(hi, lo))
    }

    /// Write one byte at the stack pointer, then drop the pointer by one.
    /// On a fault nothing changes.
    pub fn push_u8(&mut self, value: u8) -> (r: Result<(), Fault>)
        requires
            old(self)@.wf(),
        ensures
            final(self)@.wf(),
            match mmu::write_spec(old(self)@.mmu, old(self)@.sp, value) {
                Ok(m) => r is Ok && final(self)@ == (CpuView {
                    mmu: m,
                    sp: wsub16(old(self)@.sp, 1),
                    ..old(self)@
                }),
                Err(f) => r == Err::<(), Fault>(f) && final(self)@ == old(self)@,
            },
    {
        match self.mmu.write_byte(self.reg_sp, value) {
            Ok(_) => {
                self.reg_sp = wrapping_sub16(self.reg_sp, 1);
                Ok(())
            },
            Err(f) => Err(f),
        }
    }

    /// Raise the stack pointer by one, then read the byte there.  On a
    /// fault nothing changes.
    pub fn pop_u8(&mut self) -> (r: Result<u8, Fault>)
        requires
            old(self)@.wf(),
        ensures
            final(self)@.wf(),
            match mmu::read_spec(old(self)@.mmu, wadd16(old(self)@.sp, 1)) {
                Ok(v) => r == Ok::<u8, Fault>(v) && final(self)@ == (CpuView {
                    sp: wadd16(old(self)@.sp, 1),
                    ..old(self)@
                }),
                Err(f) => r == Err::<u8, Fault>(f) && final(self)@ == old(self)@,
            },
    {
        let a = wrapping_add16(self.reg_sp, 1);
        match self.mmu.read_byte(a) {
            Ok(v) => {
                self.reg_sp = a;
                Ok(v)
            },
            Err(f) => Err(f),
        }
    }

    /// Push a 16-bit value, per [`push16_spec`].  The two byte writes
    /// either both commit or neither does: a second-byte fault is detected
    /// before the first byte is written.
    pub fn push_u16(&mut self, value: u16) -> (r: Result<(), Fault>)
        requires
            old(self)@.wf(),
        ensures
            final(self)@.wf(),
            match push16_spec(old(self)@, value) {
                Ok(s2) => r is Ok && final(self)@ == s2,
                Err(f) => r == Err::<(), Fault>(f) && final(self)@ == old(self)@,
            },
    {
        let a1 = self.reg_sp;
        let a2 = wrapping_sub16(a1, 1);
        let lo = low_byte(value);
        let hi = high_byte(value);
        let ok1 = self.mmu.write_allowed(a1, lo);
        let ok2 = self.mmu.write_allowed(a2, hi);
        proof {
            // The success of the second write cannot depend on the first:
            // the one state-dependent register is the LCD control byte, and
            // a first write one address above it is never allowed.
            if ok1 && a2 == crate::gpu::REG_LCD_CONTROL {
                assert(a1 == 0xFF41u16);
                assert(!mmu::write_ok(self@.mmu, a1, lo));
            }
        }
        if ok1 && !ok2 {
            proof {
                let m1 = mmu::write_spec(self@.mmu, a1, lo)->Ok_0;
                mmu::lemma_write_ok_addr_only(self@.mmu, m1, a2, hi);
                mmu::lemma_write_fail_fault(m1, a2, hi);
            }
            return Err(self.mmu.write_fault_at(a2));
        }
        match self.mmu.write_byte(a1, lo) {
            Err(f) => Err(f),
            Ok(_) => {
                proof {
                    mmu::lemma_write_ok_addr_only(old(self)@.mmu, self@.mmu, a2, hi);
                }
                match self.mmu.write_byte(a2, hi) {
                    Err(_) => vstd::pervasive::unreached(),
                    Ok(_) => {
                        self.reg_sp = wrapping_sub16(a1, 2);
                        Ok(())
                    },
                }
            },
        }
    }

    /// Pop a 16-bit value, per [`pop16_spec`].  Both reads are checked
    /// before the stack pointer moves, so a fault changes nothing.
    pub fn pop_u16(&mut self) -> (r: Result<u16, Fault>)
        requires
            old(self)@.wf(),
        ensures
            final(self)@.wf(),
            match pop16_spec(old(self)@) {
                Ok(vs) => r == Ok::<u16, Fault>(vs.0) && final(self)@ == vs.1,
                Err(f) => r == Err::<u16, Fault>(f) && final(self)@ == old(self)@,
            },
    {
        let hi = match self.mmu.read_byte(wrapping_add16(self.reg_sp, 1)) {
            Ok(v) => v,
            Err(f) => {
                return Err(f);
            },
        };
        let lo = match self.mmu.read_byte(wrapping_add16(self.reg_sp, 2)) {
            Ok(v) => v,
            Err(f) => {
                return Err(f);
            },
        };
        self.reg_sp = wrapping_add16(self.reg_sp, 2);
        Ok(make16(hi, lo))
    }

    /// Execute one instruction of the secondary (CB-prefixed) table, per
    /// [`cb_step_spec`].  On a fault nothing changes.
    fn execute_cb(&mut self) -> (r: Result<(), Fault>)
        requires
            old(self)@.wf(),
        ensures
            final(self)@.wf(),
            match cb_step_spec(old(self)@) {
                Ok(s2) => r is Ok && final(self)@ == s2,
                Err(f) => r == Err::<(), Fault>(f) && final(self)@ == old(self)@,
            },
    {
        let at = self.reg_pc;
        let op = match self.mmu.read_byte(at) {
            Ok(v) => v,
            Err(f) => {
                return Err(f);
            },
        };
        match op {
            0x11 => {
                // RL C
                self.reg_pc = wrapping_add16(at, 1);
                let (nv, carry) = rotate_left_carry(self.reg_c, self.reg_f.carry);
                self.reg_c = nv;
                self.reg_f = RegFlag { zero: nv == 0, add_sub: false, half_carry: false, carry };
                Ok(())
            },
            0x7C => {
                // BIT 7, H
                self.reg_pc = wrapping_add16(at, 1);
                self.reg_f = RegFlag {
                    zero: self.reg_h >> 7u8 == 0,
                    add_sub: false,
                    half_carry: true,
                    carry: self.reg_f.carry,
                };
                Ok(())
            },
            _ => Err(Fault::DecodeFault { opcode: op, pc: at }),
        }
    }

    /// Take a relative jump, per [`jr_spec`]: consume the displacement byte
    /// and add its two's-complement reading to the program counter.
    pub fn jump_return(&mut self) -> (r: Result<(), Fault>)
        requires
            old(self)@.wf(),
        ensures
            final(self)@.wf(),
            match jr_spec(old(self)@) {
                Ok(s2) => r is Ok && final(self)@ == s2,
                Err(f) => r == Err::<(), Fault>(f) && final(self)@ == old(self)@,
            },
    {
        let off = match self.mmu.read_byte(self.reg_pc) {
            Ok(v) => v,
            Err(f) => {
                return Err(f);
            },
        };
        let base = wrapping_add16(self.reg_pc, 1);
        let dist = unsigned_to_signed(off);
        if dist > 0 {
            self.reg_pc = wrapping_add16(base, dist as u16);
        } else {
            let mag = signed_to_unsigned(dist);
            self.reg_pc = wrapping_sub16(base, mag as u16);
        }
        Ok(())
    }
}

/// The wrapped increment together with the flags of an 8-bit increment.
fn alu_inc(v: u8, f: RegFlag) -> (r: (u8, RegFlag))
    ensures
        r.0 == wadd8(v, 1),
        r.1 == inc_flags(v, f),
{
    let nv = wrapping_add8(v, 1);
    (nv, RegFlag { zero: nv == 0, add_sub: false, half_carry: v & 0x0F == 0x0F, carry: f.carry })
}

/// The wrapped decrement together with the flags of an 8-bit decrement.
fn alu_dec(v: u8, f: RegFlag) -> (r: (u8, RegFlag))
    ensures
        r.0 == wsub8(v, 1),
        r.1 == dec_flags(v, f),
{
    let nv = wrapping_sub8(v, 1);
    (nv, RegFlag { zero: nv == 0, add_sub: true, half_carry: v & 0x0F != 0, carry: f.carry })
}

impl Cpu {
    /// Perform one fetch-decode-execute cycle, per [`step_spec`].
    ///
    /// Either the instruction fully commits and `Ok` is returned, or the
    /// fault is returned and the entire machine state — registers, flags,
    /// program counter, memory, peripherals — is exactly as before the call.
    pub fn step(&mut self) -> (r: Result<(), Fault>)
        requires
            old(self)@.wf(),
        ensures
            final(self)@.wf(),
            match step_spec(old(self)@) {
                Ok(s2) => r is Ok && final(self)@ == s2,
                Err(f) => r == Err::<(), Fault>(f) && final(self)@ == old(self)@,
            },
    {
        let pc0 = self.reg_pc;
        let op = match self.mmu.read_byte(pc0) {
            Ok(v) => v,
            Err(f) => {
                return Err(f);
            },
        };
        self.reg_pc = wrapping_add16(pc0, 1);
        self.dispatch_lo(op, pc0)
    }

    /// Handlers for the low third of the implemented opcodes; the rest
    /// chain to [`Cpu::dispatch_mid`].  `pc0` is the opcode's own address:
    /// on a fault the program counter is restored to it, so the whole
    /// pre-fetch state is recovered.
    #[verifier::rlimit(100)]
    fn dispatch_lo(&mut self, op: u8, pc0: u16) -> (r: Result<(), Fault>)
        requires
            old(self)@.wf(),
        ensures
            final(self)@.wf(),
            match op_spec(old(self)@, op, pc0) {
                Ok(s2) => r is Ok && final(self)@ == s2,
                Err(f) => r == Err::<(), Fault>(f) && final(self)@ == (CpuView {
                    pc: pc0,
                    ..old(self)@
                }),
            },
    {
        match op {
            0x04 => {
                // INC B
                let (nv, nf) = alu_inc(self.reg_b, self.reg_f);
                self.reg_b = nv;
                self.reg_f = nf;
                Ok(())
            },
            0x05 => {
                // DEC B
                let (nv, nf) = alu_dec(self.reg_b, self.reg_f);
                self.reg_b = nv;
                self.reg_f = nf;
                Ok(())
            },
            0x06 => {
                // LD B, d8
                match self.load_imm_u8() {
                    Ok(v) => {
                        self.reg_b = v;
                        Ok(())
                    },
                    Err(f) => {
                        self.reg_pc = pc0;
                        Err(f)
                    },
                }
            },
            0x0C => {
                // INC C
                let (nv, nf) = alu_inc(self.reg_c, self.reg_f);
                self.reg_c = nv;
                self.reg_f = nf;
                Ok(())
            },
            0x0D => {
                // DEC C
                let (nv, nf) = alu_dec(self.reg_c, self.reg_f);
                self.reg_c = nv;
                self.reg_f = nf;
                Ok(())
            },
            0x0E => {
                // LD C, d8
                match self.load_imm_u8() {
                    Ok(v) => {
                        self.reg_c = v;
                        Ok(())
                    },
                    Err(f) => {
                        self.reg_pc = pc0;
                        Err(f)
                    },
                }
            },
            0x11 => {
                // LD DE, d16
                match self.load_imm_u16() {
                    Ok(v) => {
                        self.set_de(v);
                        Ok(())
                    },
                    Err(f) => {
                        self.reg_pc = pc0;
                        Err(f)
                    },
                }
            },
            0x13 => {
                // INC DE
                let nv = wrapping_add16(self.de(), 1);
                self.set_de(nv);
                Ok(())
            },
            0x17 => {
                // RLA
                let (nv, carry) = rotate_left_carry(self.reg_a, self.reg_f.carry);
                self.reg_a = nv;
                self.reg_f = RegFlag { zero: nv == 0, add_sub: false, half_carry: false, carry };
                Ok(())
            },
            0x18 => {
                // JR r8
                match self.jump_return() {
                    Ok(_) => Ok(()),
                    Err(f) => {
                        self.reg_pc = pc0;
                        Err(f)
                    },
                }
            },
            0x1A => {
                // LD A, (DE)
                match self.mmu.read_byte(self.de()) {
                    Ok(v) => {
                        self.reg_a = v;
                        Ok(())
                    },
                    Err(f) => {
                        self.reg_pc = pc0;
                        Err(f)
                    },
                }
            },
            0x1E => {
                // LD E, d8
                match self.load_imm_u8() {
                    Ok(v) => {
                        self.reg_e = v;
                        Ok(())
                    },
                    Err(f) => {
                        self.reg_pc = pc0;
                        Err(f)
                    },
                }
            },
            0x20 => {
                // JR NZ, r8
                if !self.reg_f.zero {
                    match self.jump_return() {
                        Ok(_) => Ok(()),
                        Err(f) => {
                            self.reg_pc = pc0;
                            Err(f)
                        },
                    }
                } else {
                    self.reg_pc = wrapping_add16(self.reg_pc, 1);
                    Ok(())
                }
            },
            0x21 => {
                // LD HL, d16
                match self.load_imm_u16() {
                    Ok(v) => {
                        self.set_hl(v);
                        Ok(())
                    },
                    Err(f) => {
                        self.reg_pc = pc0;
                        Err(f)
                    },
                }
            },
            _ => self.dispatch_mid(op, pc0),
        }
    }

    /// Handlers for the middle third of the implemented opcodes; the rest
    /// chain to [`Cpu::dispatch_hi`].
    fn dispatch_mid(&mut self, op: u8, pc0: u16) -> (r: Result<(), Fault>)
        requires
            old(self)@.wf(),
            !lo_opcode(op),
        ensures
            final(self)@.wf(),
            match op_spec(old(self)@, op, pc0) {
                Ok(s2) => r is Ok && final(self)@ == s2,
                Err(f) => r == Err::<(), Fault>(f) && final(self)@ == (CpuView {
                    pc: pc0,
                    ..old(self)@
                }),
            },
    {
        match op {
            0x22 => {
                // LD (HL+), A
                let addr = self.hl();
                match self.mmu.write_byte(addr, self.reg_a) {
                    Ok(_) => {
                        self.set_hl(wrapping_add16(addr, 1));
                        Ok(())
                    },
                    Err(f) => {
                        self.reg_pc = pc0;
                        Err(f)
                    },
                }
            },
            0x23 => {
                // INC HL
                let nv = wrapping_add16(self.hl(), 1);
                self.set_hl(nv);
                Ok(())
            },
            0x28 => {
                // JR Z, r8
                if self.reg_f.zero {
                    match self.jump_return() {
                        Ok(_) => Ok(()),
                        Err(f) => {
                            self.reg_pc = pc0;
                            Err(f)
                        },
                    }
                } else {
                    self.reg_pc = wrapping_add16(self.reg_pc, 1);
                    Ok(())
                }
            },
            0x2E => {
                // LD L, d8
                match self.load_imm_u8() {
                    Ok(v) => {
                        self.reg_l = v;
                        Ok(())
                    },
                    Err(f) => {
                        self.reg_pc = pc0;
                        Err(f)
                    },
                }
            },
            0x31 => {
                // LD SP, d16
                match self.load_imm_u16() {
                    Ok(v) => {
                        self.reg_sp = v;
                        Ok(())
                    },
                    Err(f) => {
                        self.reg_pc = pc0;
                        Err(f)
                    },
                }
            },
            0x32 => {
                // LD (HL-), A: store at the pre-decrement address.
                let addr = self.hl();
                match self.mmu.write_byte(addr, self.reg_a) {
                    Ok(_) => {
                        self.set_hl(wrapping_sub16(addr, 1));
                        Ok(())
                    },
                    Err(f) => {
                        self.reg_pc = pc0;
                        Err(f)
                    },
                }
            },
            0x3D => {
                // DEC A
                let (nv, nf) = alu_dec(self.reg_a, self.reg_f);
                self.reg_a = nv;
                self.reg_f = nf;
                Ok(())
            },
            0x3E => {
                // LD A, d8
                match self.load_imm_u8() {
                    Ok(v) => {
                        self.reg_a = v;
                        Ok(())
                    },
                    Err(f) => {
                        self.reg_pc = pc0;
                        Err(f)
                    },
                }
            },
            0x4F => {
                // LD C, A
                self.reg_c = self.reg_a;
                Ok(())
            },
            0x57 => {
                // LD D, A
                self.reg_d = self.reg_a;
                Ok(())
            },
            0x67 => {
                // LD H, A
                self.reg_h = self.reg_a;
                Ok(())
            },
            0x77 => {
                // LD (HL), A
                match self.mmu.write_byte(self.hl(), self.reg_a) {
                    Ok(_) => Ok(()),
                    Err(f) => {
                        self.reg_pc = pc0;
                        Err(f)
                    },
                }
            },
            0x7B => {
                // LD A, E
                self.reg_a = self.reg_e;
                Ok(())
            },
            _ => self.dispatch_hi(op, pc0),
        }
    }

    /// Handlers for the high third of the implemented opcodes; anything
    /// still unmatched is a decode fault naming the opcode and its address.
    #[verifier::rlimit(100)]
    fn dispatch_hi(&mut self, op: u8, pc0: u16) -> (r: Result<(), Fault>)
        requires
            old(self)@.wf(),
            !lo_opcode(op),
            !mid_opcode(op),
        ensures
            final(self)@.wf(),
            match op_spec(old(self)@, op, pc0) {
                Ok(s2) => r is Ok && final(self)@ == s2,
                Err(f) => r == Err::<(), Fault>(f) && final(self)@ == (CpuView {
                    pc: pc0,
                    ..old(self)@
                }),
            },
    {
        match op {
            0xAF => {
                // XOR A
                proof {
                    let x = self@.a;
                    assert(x ^ x == 0) by (bit_vector);
                }
                self.reg_a = self.reg_a ^ self.reg_a;
                self.reg_f = RegFlag { zero: true, add_sub: false, half_carry: false, carry: false };
                Ok(())
            },
            0xC1 => {
                // POP BC
                match self.pop_u16() {
                    Ok(v) => {
                        self.set_bc(v);
                        Ok(())
                    },
                    Err(f) => {
                        self.reg_pc = pc0;
                        Err(f)
                    },
                }
            },
            0xC5 => {
                // PUSH BC
                let v = self.bc();
                match self.push_u16(v) {
                    Ok(_) => Ok(()),
                    Err(f) => {
                        self.reg_pc = pc0;
                        Err(f)
                    },
                }
            },
            0xC9 => {
                // RET
                match self.pop_u16() {
                    Ok(v) => {
                        self.reg_pc = v;
                        Ok(())
                    },
                    Err(f) => {
                        self.reg_pc = pc0;
                        Err(f)
                    },
                }
            },
            0xCB => {
                // secondary table
                match self.execute_cb() {
                    Ok(_) => Ok(()),
                    Err(f) => {
                        self.reg_pc = pc0;
                        Err(f)
                    },
                }
            },
            0xCD => {
                // CALL a16
                match self.load_imm_u16() {
                    Err(f) => {
                        self.reg_pc = pc0;
                        Err(f)
                    },
                    Ok(target) => {
                        let ret = self.reg_pc;
                        match self.push_u16(ret) {
                            Err(f) => {
                                self.reg_pc = pc0;
                                Err(f)
                            },
                            Ok(_) => {
                                self.reg_pc = target;
                                Ok(())
                            },
                        }
                    },
                }
            },
            0xE0 => {
                // LDH (a8), A
                match self.load_imm_u8() {
                    Err(f) => {
                        self.reg_pc = pc0;
                        Err(f)
                    },
                    Ok(v) => {
                        match self.mmu.write_byte(0xFF00 + (v as u16), self.reg_a) {
                            Ok(_) => Ok(()),
                            Err(f) => {
                                self.reg_pc = pc0;
                                Err(f)
                            },
                        }
                    },
                }
            },
            0xE2 => {
                // LD (C), A
                match self.mmu.write_byte(0xFF00 + (self.reg_c as u16), self.reg_a) {
                    Ok(_) => Ok(()),
                    Err(f) => {
                        self.reg_pc = pc0;
                        Err(f)
                    },
                }
            },
            0xEA => {
                // LD (a16), A
                match self.load_imm_u16() {
                    Err(f) => {
                        self.reg_pc = pc0;
                        Err(f)
                    },
                    Ok(target) => {
                        match self.mmu.write_byte(target, self.reg_a) {
                            Ok(_) => Ok(()),
                            Err(f) => {
                                self.reg_pc = pc0;
                                Err(f)
                            },
                        }
                    },
                }
            },
            0xF0 => {
                // LDH A, (a8)
                match self.load_imm_u8() {
                    Err(f) => {
                        self.reg_pc = pc0;
                        Err(f)
                    },
                    Ok(v) => {
                        match self.mmu.read_byte(0xFF00 + (v as u16)) {
                            Ok(b) => {
                                self.reg_a = b;
                                Ok(())
                            },
                            Err(f) => {
                                self.reg_pc = pc0;
                                Err(f)
                            },
                        }
                    },
                }
            },
            0xFE => {
                // CP d8
                match self.load_imm_u8() {
                    Err(f) => {
                        self.reg_pc = pc0;
                        Err(f)
                    },
                    Ok(v) => {
                        self.reg_f = RegFlag {
                            zero: self.reg_a == v,
                            add_sub: true,
                            half_carry: (self.reg_a & 0x0F) < (v & 0x0F),
                            carry: self.reg_a < v,
                        };
                        Ok(())
                    },
                }
            },
            _ => {
                self.reg_pc = pc0;
                Err(Fault::DecodeFault { opcode: op, pc: pc0 })
            },
        }
    }
}

} // verus!
