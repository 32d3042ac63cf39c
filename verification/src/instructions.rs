use crate::alu::{
    add_spec, add_with_carry, bit_test, bit_test_spec, compare, compare_spec, pulled_status, rotate_left,
    rotate_left_spec, rotate_right, rotate_right_spec, shift_left, shift_left_spec, shift_right,
    shift_right_spec, subtract_spec, subtract_with_borrow, has_flag, with_flag, with_zn, FLAG_B, FLAG_C, FLAG_D,
    FLAG_I, FLAG_N, FLAG_U, FLAG_V, FLAG_Z,
};
use crate::bus::CpuBus;
use crate::cpu::{stack_address, uncorrected, word, AddressMode, CpuState, Register, CPU};
use crate::isa::{base_cycles, mode_of, operation_of, Operation};
use vstd::prelude::*;

verus! {

/// The mode indexes a full 16-bit address, so that the sum may leave the
/// page of the base.
pub open spec fn crosses_pages(mode: AddressMode) -> bool {
    mode == AddressMode::AbsoluteX || mode == AddressMode::AbsoluteY || mode
        == AddressMode::IndirectY
}

/// The operation that loads a register.
pub open spec fn load_of(reg: Register) -> Operation {
    match reg {
        Register::A => Operation::Lda,
        Register::X => Operation::Ldx,
        Register::Y => Operation::Ldy,
    }
}

/// The operation that compares a register.
pub open spec fn compare_of(reg: Register) -> Operation {
    match reg {
        Register::A => Operation::Cmp,
        Register::X => Operation::Cpx,
        Register::Y => Operation::Cpy,
    }
}

impl<B: CpuBus> CPU<B> {
    /// The operand byte of a reading instruction, the page-crossing penalty,
    /// and the state after the read.
    pub open spec fn operand(c: CpuState<B::V>, mode: AddressMode) -> (u8, i32, CpuState<B::V>) {
        let (addr, penalty, c1) = Self::resolve(c, mode);
        let (m, c2) = Self::load(c1, addr);
        (m, penalty, c2)
    }

    /// The address a writing instruction will write to, and the state once
    /// the address is settled. Where indexing can cross a page, the
    /// processor reads once before it writes: from the uncorrected address
    /// if the page was crossed, else from the address itself.
    pub open spec fn target(c: CpuState<B::V>, mode: AddressMode) -> (u16, CpuState<B::V>) {
        let (addr, penalty, c1) = Self::resolve(c, mode);
        if crosses_pages(mode) && penalty == 0 {
            (addr, Self::touch(c1, addr))
        } else {
            (addr, c1)
        }
    }

    /// Start of a read-modify-write: the address, the byte read there, and
    /// the state after the byte was written back unchanged.
    pub open spec fn modify(c: CpuState<B::V>, mode: AddressMode) -> (u16, u8, CpuState<B::V>) {
        let (addr, c1) = Self::target(c, mode);
        let (m, c2) = Self::load(c1, addr);
        (addr, m, Self::store(c2, addr, m))
    }

    /// The registers after a reading operation met operand `m`.
    pub open spec fn apply_read(c: CpuState<B::V>, op: Operation, m: u8) -> CpuState<B::V> {
        match op {
            Operation::Adc => CpuState {
                status: add_spec(c.status, c.a, m).0,
                a: add_spec(c.status, c.a, m).1,
                ..c
            },
            Operation::Sbc => CpuState {
                status: subtract_spec(c.status, c.a, m).0,
                a: subtract_spec(c.status, c.a, m).1,
                ..c
            },
            Operation::And => CpuState { a: c.a & m, status: with_zn(c.status, c.a & m), ..c },
            Operation::Ora => CpuState { a: c.a | m, status: with_zn(c.status, c.a | m), ..c },
            Operation::Eor => CpuState { a: c.a ^ m, status: with_zn(c.status, c.a ^ m), ..c },
            Operation::Bit => CpuState { status: bit_test_spec(c.status, c.a, m), ..c },
            Operation::Cmp => CpuState { status: compare_spec(c.status, c.a, m), ..c },
            Operation::Cpx => CpuState { status: compare_spec(c.status, c.x, m), ..c },
            Operation::Cpy => CpuState { status: compare_spec(c.status, c.y, m), ..c },
            Operation::Lda => CpuState { a: m, status: with_zn(c.status, m), ..c },
            Operation::Ldx => CpuState { x: m, status: with_zn(c.status, m), ..c },
            Operation::Ldy => CpuState { y: m, status: with_zn(c.status, m), ..c },
            Operation::Lax => CpuState { a: m, x: m, status: with_zn(c.status, m), ..c },
            _ => c,
        }
    }

    /// A reading instruction: the operand is read and applied; a page
    /// crossing costs one cycle.
    pub open spec fn read_op(c: CpuState<B::V>, op: Operation, mode: AddressMode, base: i32) -> (
        CpuState<B::V>,
        i32,
    ) {
        let (m, penalty, c1) = Self::operand(c, mode);
        (Self::apply_read(c1, op, m), (base + penalty) as i32)
    }

    /// The byte a storing operation writes.
    pub open spec fn stored(c: CpuState<B::V>, op: Operation) -> u8 {
        match op {
            Operation::Sta => c.a,
            Operation::Stx => c.x,
            Operation::Sty => c.y,
            _ => c.a & c.x,
        }
    }

    /// A storing instruction; its cycle count does not depend on pages.
    pub open spec fn store_op(c: CpuState<B::V>, op: Operation, mode: AddressMode, base: i32) -> (
        CpuState<B::V>,
        i32,
    ) {
        let (addr, c1) = Self::target(c, mode);
        (Self::store(c1, addr, Self::stored(c, op)), base)
    }

    /// The registers after a modifying operation met byte `m`, and the byte
    /// it writes back. The combined operations shift, rotate, increment or
    /// decrement the byte and then use the result as the operand of ORA,
    /// AND, EOR, ADC, CMP or SBC.
    pub open spec fn apply_modify(c: CpuState<B::V>, op: Operation, m: u8) -> (CpuState<B::V>, u8) {
        match op {
            Operation::Asl => (
                CpuState { status: shift_left_spec(c.status, m).0, ..c },
                shift_left_spec(c.status, m).1,
            ),
            Operation::Lsr => (
                CpuState { status: shift_right_spec(c.status, m).0, ..c },
                shift_right_spec(c.status, m).1,
            ),
            Operation::Rol => (
                CpuState { status: rotate_left_spec(c.status, m).0, ..c },
                rotate_left_spec(c.status, m).1,
            ),
            Operation::Ror => (
                CpuState { status: rotate_right_spec(c.status, m).0, ..c },
                rotate_right_spec(c.status, m).1,
            ),
            Operation::Inc => (
                CpuState { status: with_zn(c.status, m.wrapping_add(1)), ..c },
                m.wrapping_add(1),
            ),
            Operation::Dec => (
                CpuState { status: with_zn(c.status, m.wrapping_sub(1)), ..c },
                m.wrapping_sub(1),
            ),
            Operation::Slo => {
                let (status, result) = shift_left_spec(c.status, m);
                (CpuState { a: c.a | result, status: with_zn(status, c.a | result), ..c }, result)
            },
            Operation::Rla => {
                let (status, result) = rotate_left_spec(c.status, m);
                (CpuState { a: c.a & result, status: with_zn(status, c.a & result), ..c }, result)
            },
            Operation::Sre => {
                let (status, result) = shift_right_spec(c.status, m);
                (CpuState { a: c.a ^ result, status: with_zn(status, c.a ^ result), ..c }, result)
            },
            Operation::Rra => {
                let (status, result) = rotate_right_spec(c.status, m);
                (
                    CpuState {
                        status: add_spec(status, c.a, result).0,
                        a: add_spec(status, c.a, result).1,
                        ..c
                    },
                    result,
                )
            },
            Operation::Dcp => (
                CpuState { status: compare_spec(c.status, c.a, m.wrapping_sub(1)), ..c },
                m.wrapping_sub(1),
            ),
            Operation::Isb => (
                CpuState {
                    status: subtract_spec(c.status, c.a, m.wrapping_add(1)).0,
                    a: subtract_spec(c.status, c.a, m.wrapping_add(1)).1,
                    ..c
                },
                m.wrapping_add(1),
            ),
            _ => (c, m),
        }
    }

    /// A read-modify-write instruction: the byte is read, written back
    /// unchanged, then written modified.
    pub open spec fn modify_op(c: CpuState<B::V>, op: Operation, mode: AddressMode, base: i32) -> (
        CpuState<B::V>,
        i32,
    ) {
        let (addr, m, c1) = Self::modify(c, mode);
        let (c2, result) = Self::apply_modify(c1, op, m);
        (Self::store(c2, addr, result), base)
    }

    /// A shift or rotate of the accumulator. The processor reads the byte
    /// after the opcode and ignores it.
    pub open spec fn accumulator_op(c: CpuState<B::V>, op: Operation, base: i32) -> (
        CpuState<B::V>,
        i32,
    ) {
        let c1 = Self::touch(c, c.pc);
        let (c2, result) = Self::apply_modify(c1, op, c.a);
        (CpuState { a: result, ..c2 }, base)
    }

    /// The registers after an operation that touches no memory.
    pub open spec fn apply_implied(c: CpuState<B::V>, op: Operation) -> CpuState<B::V> {
        match op {
            Operation::Clc => CpuState { status: with_flag(c.status, FLAG_C, false), ..c },
            Operation::Cld => CpuState { status: with_flag(c.status, FLAG_D, false), ..c },
            Operation::Cli => CpuState { status: with_flag(c.status, FLAG_I, false), ..c },
            Operation::Clv => CpuState { status: with_flag(c.status, FLAG_V, false), ..c },
            Operation::Sec => CpuState { status: with_flag(c.status, FLAG_C, true), ..c },
            Operation::Sed => CpuState { status: with_flag(c.status, FLAG_D, true), ..c },
            Operation::Sei => CpuState { status: with_flag(c.status, FLAG_I, true), ..c },
            Operation::Tax => CpuState { x: c.a, status: with_zn(c.status, c.a), ..c },
            Operation::Tay => CpuState { y: c.a, status: with_zn(c.status, c.a), ..c },
            Operation::Txa => CpuState { a: c.x, status: with_zn(c.status, c.x), ..c },
            Operation::Tya => CpuState { a: c.y, status: with_zn(c.status, c.y), ..c },
            Operation::Tsx => CpuState { x: c.sp, status: with_zn(c.status, c.sp), ..c },
            Operation::Txs => CpuState { sp: c.x, ..c },
            Operation::Inx => CpuState {
                x: c.x.wrapping_add(1),
                status: with_zn(c.status, c.x.wrapping_add(1)),
                ..c
            },
            Operation::Iny => CpuState {
                y: c.y.wrapping_add(1),
                status: with_zn(c.status, c.y.wrapping_add(1)),
                ..c
            },
            Operation::Dex => CpuState {
                x: c.x.wrapping_sub(1),
                status: with_zn(c.status, c.x.wrapping_sub(1)),
                ..c
            },
            Operation::Dey => CpuState {
                y: c.y.wrapping_sub(1),
                status: with_zn(c.status, c.y.wrapping_sub(1)),
                ..c
            },
            _ => c,
        }
    }

    /// An instruction without operand: the processor reads the byte after
    /// the opcode, ignores it, and changes registers only.
    pub open spec fn implied_op(c: CpuState<B::V>, op: Operation, base: i32) -> (
        CpuState<B::V>,
        i32,
    ) {
        (Self::apply_implied(Self::touch(c, c.pc), op), base)
    }

    /// Whether a branch operation branches.
    pub open spec fn branches(c: CpuState<B::V>, op: Operation) -> bool {
        match op {
            Operation::Bcc => !has_flag(c.status, FLAG_C),
            Operation::Bcs => has_flag(c.status, FLAG_C),
            Operation::Bne => !has_flag(c.status, FLAG_Z),
            Operation::Beq => has_flag(c.status, FLAG_Z),
            Operation::Bpl => !has_flag(c.status, FLAG_N),
            Operation::Bmi => has_flag(c.status, FLAG_N),
            Operation::Bvc => !has_flag(c.status, FLAG_V),
            _ => has_flag(c.status, FLAG_V),
        }
    }

    /// A conditional branch: 2 cycles when not taken, 3 when taken, 4 when
    /// taken into another page. A taken branch reads the next opcode
    /// location, and on a page crossing the uncorrected target too.
    pub open spec fn branch_op(c: CpuState<B::V>, taken: bool) -> (CpuState<B::V>, i32) {
        let (target, penalty, c1) = Self::resolve(c, AddressMode::Relative);
        if !taken {
            (c1, 2)
        } else {
            let c2 = Self::touch(c1, c1.pc);
            let c3 = if penalty == 1 {
                Self::touch(c2, uncorrected(c1.pc, target))
            } else {
                c2
            };
            (CpuState { pc: target, ..c3 }, (3 + penalty) as i32)
        }
    }

    pub open spec fn jump_op(c: CpuState<B::V>, mode: AddressMode, base: i32) -> (
        CpuState<B::V>,
        i32,
    ) {
        let (addr, penalty, c1) = Self::resolve(c, mode);
        (CpuState { pc: addr, ..c1 }, base)
    }

    /// JSR: the low target byte is fetched, the stack is read once, the
    /// address of the last byte of the instruction is pushed, then the high
    /// target byte is fetched.
    pub open spec fn call_op(c: CpuState<B::V>) -> (CpuState<B::V>, i32) {
        let (low, c1) = Self::next_byte(c);
        let c2 = Self::touch(c1, stack_address(c1.sp));
        let c3 = Self::pushed_word(c2, c2.pc);
        let (high, c4) = Self::next_byte(c3);
        (CpuState { pc: word(low, high), ..c4 }, 6)
    }

    /// RTS: the pulled address is that of the last byte of the call, so the
    /// processor steps over it with one more read.
    pub open spec fn return_op(c: CpuState<B::V>) -> (CpuState<B::V>, i32) {
        let c1 = Self::touch(Self::touch(c, c.pc), stack_address(c.sp));
        let (addr, c2) = Self::pulled_word(c1);
        (Self::next_byte(CpuState { pc: addr, ..c2 }).1, 6)
    }

    /// RTI: status is pulled with B clear and U set, then the address.
    pub open spec fn interrupt_return_op(c: CpuState<B::V>) -> (CpuState<B::V>, i32) {
        let c1 = Self::touch(Self::touch(c, c.pc), stack_address(c.sp));
        let (status, c2) = Self::pulled(c1);
        let (addr, c3) = Self::pulled_word(CpuState { status: pulled_status(status), ..c2 });
        (CpuState { pc: addr, ..c3 }, 6)
    }

    /// PHA and PHP. The status byte is pushed with B and U set.
    pub open spec fn push_op(c: CpuState<B::V>, val: u8) -> (CpuState<B::V>, i32) {
        (Self::pushed(Self::touch(c, c.pc), val), 3)
    }

    /// The byte PLA and PLP pull, and the state after the pull.
    pub open spec fn pull_op(c: CpuState<B::V>) -> (u8, CpuState<B::V>) {
        Self::pulled(Self::touch(Self::touch(c, c.pc), stack_address(c.sp)))
    }

    /// BRK: the byte after the opcode is skipped, the address after it and
    /// the status with B and U set are pushed, I is set, and execution goes
    /// on at the vector at 0xFFFE.
    pub open spec fn break_op(c: CpuState<B::V>) -> (CpuState<B::V>, i32) {
        let c1 = Self::next_byte(c).1;
        let c2 = Self::pushed(Self::pushed_word(c1, c1.pc), c1.status | FLAG_B | FLAG_U);
        let (vector, c3) = Self::load_word(
            CpuState {
                status: with_flag(with_flag(c2.status, FLAG_B, false), FLAG_I, true),
                ..c2
            },
            0xFFFE,
        );
        (CpuState { pc: vector, ..c3 }, 7)
    }

    /// A hardware interrupt: the program counter and the status with B clear
    /// and U set are pushed, I is set, and execution goes on at the vector.
    pub open spec fn interrupt(c: CpuState<B::V>, vector: u16) -> (CpuState<B::V>, i32) {
        let c1 = Self::touch(c, stack_address(c.sp));
        let status = with_flag(with_flag(c.status, FLAG_B, false), FLAG_U, true);
        let c2 = Self::pushed(CpuState { status, ..Self::pushed_word(c1, c1.pc) }, status);
        let (target, c3) = Self::load_word(
            CpuState { status: with_flag(status, FLAG_I, true), ..c2 },
            vector,
        );
        (CpuState { pc: target, ..c3 }, 7)
    }

    /// What one operation does in one addressing mode, and the cycles it
    /// takes, given its base cycle count. The opcode has been fetched.
    pub open spec fn run(c: CpuState<B::V>, op: Operation, mode: AddressMode, base: i32) -> (
        CpuState<B::V>,
        i32,
    ) {
        match op {
            Operation::Adc | Operation::Sbc | Operation::And | Operation::Ora | Operation::Eor
            | Operation::Bit | Operation::Cmp | Operation::Cpx | Operation::Cpy | Operation::Lda
            | Operation::Ldx | Operation::Ldy | Operation::Lax => Self::read_op(c, op, mode, base),
            Operation::Nop => if mode == AddressMode::Accumulator {
                Self::implied_op(c, op, base)
            } else {
                Self::read_op(c, op, mode, base)
            },
            Operation::Sta | Operation::Stx | Operation::Sty | Operation::Sax => Self::store_op(
                c,
                op,
                mode,
                base,
            ),
            Operation::Asl | Operation::Lsr | Operation::Rol | Operation::Ror => if mode
                == AddressMode::Accumulator {
                Self::accumulator_op(c, op, base)
            } else {
                Self::modify_op(c, op, mode, base)
            },
            Operation::Inc | Operation::Dec | Operation::Slo | Operation::Rla | Operation::Sre
            | Operation::Rra | Operation::Dcp | Operation::Isb => Self::modify_op(
                c,
                op,
                mode,
                base,
            ),
            Operation::Bcc | Operation::Bcs | Operation::Beq | Operation::Bne | Operation::Bmi
            | Operation::Bpl | Operation::Bvc | Operation::Bvs => Self::branch_op(
                c,
                Self::branches(c, op),
            ),
            Operation::Jmp => Self::jump_op(c, mode, base),
            Operation::Jsr => Self::call_op(c),
            Operation::Rts => Self::return_op(c),
            Operation::Rti => Self::interrupt_return_op(c),
            Operation::Brk => Self::break_op(c),
            Operation::Pha => Self::push_op(c, c.a),
            Operation::Php => Self::push_op(c, c.status | FLAG_B | FLAG_U),
            Operation::Pla => {
                let (val, c1) = Self::pull_op(c);
                (CpuState { a: val, status: with_zn(c1.status, val), ..c1 }, 4)
            },
            Operation::Plp => {
                let (val, c1) = Self::pull_op(c);
                (CpuState { status: pulled_status(val), ..c1 }, 4)
            },
            _ => Self::implied_op(c, op, base),
        }
    }

    /// What the opcode just fetched does. An opcode outside the instruction
    /// set halts the processor at no cost.
    #[verifier::opaque]
    pub open spec fn execute(c: CpuState<B::V>, opcode: u8) -> (CpuState<B::V>, i32) {
        match operation_of(opcode) {
            Some(op) => Self::run(c, op, mode_of(opcode), base_cycles(opcode)),
            None => (CpuState { halted: true, ..c }, 0),
        }
    }

    /// One step of the processor and the cycles it took. A halted processor
    /// does nothing. Otherwise a pending NMI is served; else an asserted
    /// IRQ, unless I is set; else the next instruction runs.
    #[verifier::opaque]
    pub open spec fn step(c: CpuState<B::V>) -> (CpuState<B::V>, i32) {
        if c.halted {
            (c, 0)
        } else {
            let sampled = CpuState { bus: B::nmi_cleared(c.bus), ..c };
            if B::nmi_pending(c.bus) {
                Self::interrupt(sampled, 0xFFFA)
            } else if B::irq_asserted(sampled.bus) && !has_flag(c.status, FLAG_I) {
                Self::interrupt(sampled, 0xFFFE)
            } else {
                let (opcode, fetched) = Self::next_byte(sampled);
                Self::execute(fetched, opcode)
            }
        }
    }

    fn read_operand(&mut self, mode: AddressMode) -> (r: (u8, i32))
        requires
            old(self).wf(),
        ensures
            final(self).wf(),
            (r.0, r.1, final(self)@) == Self::operand(old(self)@, mode),
            r.1 == 0 || r.1 == 1,
    {
        let (addr, penalty) = mode.decode(self);
        let m = self.read(addr);
        (m, penalty)
    }

    fn settle_target(&mut self, mode: AddressMode) -> (addr: u16)
        requires
            old(self).wf(),
        ensures
            final(self).wf(),
            (addr, final(self)@) == Self::target(old(self)@, mode),
    {
        let (addr, penalty) = mode.decode(self);
        let indexes = mode == AddressMode::AbsoluteX || mode == AddressMode::AbsoluteY || mode
            == AddressMode::IndirectY;
        if indexes && penalty == 0 {
            let _ = self.read(addr);
        }
        addr
    }

    fn begin_modify(&mut self, mode: AddressMode) -> (r: (u16, u8))
        requires
            old(self).wf(),
        ensures
            final(self).wf(),
            (r.0, r.1, final(self)@) == Self::modify(old(self)@, mode),
    {
        let addr = self.settle_target(mode);
        let m = self.read(addr);
        self.write(addr, m);
        (addr, m)
    }

    fn adc(&mut self, mode: AddressMode, cycles: i32) -> (r: i32)
        requires
            old(self).wf(),
            0 <= cycles <= 8,
        ensures
            final(self).wf(),
            0 <= r <= 9,
            (final(self)@, r) == Self::run(old(self)@, Operation::Adc, mode, cycles),
    {
        let (m, penalty) = self.read_operand(mode);
        let (status, result) = add_with_carry(self.status, self.a, m);
        self.status = status;
        self.a = result;
        cycles + penalty
    }

    fn sbc(&mut self, mode: AddressMode, cycles: i32) -> (r: i32)
        requires
            old(self).wf(),
            0 <= cycles <= 8,
        ensures
            final(self).wf(),
            0 <= r <= 9,
            (final(self)@, r) == Self::run(old(self)@, Operation::Sbc, mode, cycles),
    {
        let (m, penalty) = self.read_operand(mode);
        let (status, result) = subtract_with_borrow(self.status, self.a, m);
        self.status = status;
        self.a = result;
        cycles + penalty
    }

    fn and(&mut self, mode: AddressMode, cycles: i32) -> (r: i32)
        requires
            old(self).wf(),
            0 <= cycles <= 8,
        ensures
            final(self).wf(),
            0 <= r <= 9,
            (final(self)@, r) == Self::run(old(self)@, Operation::And, mode, cycles),
    {
        let (m, penalty) = self.read_operand(mode);
        self.a = self.a & m;
        self.set_zn(self.a);
        cycles + penalty
    }

    fn or(&mut self, mode: AddressMode, cycles: i32) -> (r: i32)
        requires
            old(self).wf(),
            0 <= cycles <= 8,
        ensures
            final(self).wf(),
            0 <= r <= 9,
            (final(self)@, r) == Self::run(old(self)@, Operation::Ora, mode, cycles),
    {
        let (m, penalty) = self.read_operand(mode);
        self.a = self.a | m;
        self.set_zn(self.a);
        cycles + penalty
    }

    fn xor(&mut self, mode: AddressMode, cycles: i32) -> (r: i32)
        requires
            old(self).wf(),
            0 <= cycles <= 8,
        ensures
            final(self).wf(),
            0 <= r <= 9,
            (final(self)@, r) == Self::run(old(self)@, Operation::Eor, mode, cycles),
    {
        let (m, penalty) = self.read_operand(mode);
        self.a = self.a ^ m;
        self.set_zn(self.a);
        cycles + penalty
    }

    fn bit(&mut self, mode: AddressMode, cycles: i32) -> (r: i32)
        requires
            old(self).wf(),
            0 <= cycles <= 8,
        ensures
            final(self).wf(),
            0 <= r <= 9,
            (final(self)@, r) == Self::run(old(self)@, Operation::Bit, mode, cycles),
    {
        let (m, penalty) = self.read_operand(mode);
        self.status = bit_test(self.status, self.a, m);
        cycles + penalty
    }

    fn compare_with(&mut self, reg: Register, mode: AddressMode, cycles: i32) -> (r: i32)
        requires
            old(self).wf(),
            0 <= cycles <= 8,
        ensures
            final(self).wf(),
            0 <= r <= 9,
            (final(self)@, r) == Self::run(old(self)@, compare_of(reg), mode, cycles),
    {
        let (m, penalty) = self.read_operand(mode);
        let value = reg.get(self);
        self.status = compare(self.status, value, m);
        cycles + penalty
    }

    fn ldreg(&mut self, reg: Register, mode: AddressMode, cycles: i32) -> (r: i32)
        requires
            old(self).wf(),
            0 <= cycles <= 8,
        ensures
            final(self).wf(),
            0 <= r <= 9,
            (final(self)@, r) == Self::run(old(self)@, load_of(reg), mode, cycles),
    {
        let (m, penalty) = self.read_operand(mode);
        *reg.get_mut(self) = m;
        self.set_zn(m);
        cycles + penalty
    }

    fn lax(&mut self, mode: AddressMode, cycles: i32) -> (r: i32)
        requires
            old(self).wf(),
            0 <= cycles <= 8,
        ensures
            final(self).wf(),
            0 <= r <= 9,
            (final(self)@, r) == Self::run(old(self)@, Operation::Lax, mode, cycles),
    {
        let (m, penalty) = self.read_operand(mode);
        self.a = m;
        self.x = m;
        self.set_zn(m);
        cycles + penalty
    }

    fn multibyte_nop(&mut self, mode: AddressMode, cycles: i32) -> (r: i32)
        requires
            old(self).wf(),
            0 <= cycles <= 8,
            mode != AddressMode::Accumulator,
        ensures
            final(self).wf(),
            0 <= r <= 9,
            (final(self)@, r) == Self::run(old(self)@, Operation::Nop, mode, cycles),
    {
        let (_, penalty) = self.read_operand(mode);
        cycles + penalty
    }

    fn sta(&mut self, mode: AddressMode, cycles: i32) -> (r: i32)
        requires
            old(self).wf(),
            0 <= cycles <= 8,
        ensures
            final(self).wf(),
            0 <= r <= 9,
            (final(self)@, r) == Self::run(old(self)@, Operation::Sta, mode, cycles),
    {
        let addr = self.settle_target(mode);
        self.write(addr, self.a);
        cycles
    }

    fn stx(&mut self, mode: AddressMode, cycles: i32) -> (r: i32)
        requires
            old(self).wf(),
            0 <= cycles <= 8,
        ensures
            final(self).wf(),
            0 <= r <= 9,
            (final(self)@, r) == Self::run(old(self)@, Operation::Stx, mode, cycles),
    {
        let addr = self.settle_target(mode);
        self.write(addr, self.x);
        cycles
    }

    fn sty(&mut self, mode: AddressMode, cycles: i32) -> (r: i32)
        requires
            old(self).wf(),
            0 <= cycles <= 8,
        ensures
            final(self).wf(),
            0 <= r <= 9,
            (final(self)@, r) == Self::run(old(self)@, Operation::Sty, mode, cycles),
    {
        let addr = self.settle_target(mode);
        self.write(addr, self.y);
        cycles
    }

    fn sax(&mut self, mode: AddressMode, cycles: i32) -> (r: i32)
        requires
            old(self).wf(),
            0 <= cycles <= 8,
        ensures
            final(self).wf(),
            0 <= r <= 9,
            (final(self)@, r) == Self::run(old(self)@, Operation::Sax, mode, cycles),
    {
        let addr = self.settle_target(mode);
        self.write(addr, self.a & self.x);
        cycles
    }

    fn asl(&mut self, mode: AddressMode, cycles: i32) -> (r: i32)
        requires
            old(self).wf(),
            0 <= cycles <= 8,
        ensures
            final(self).wf(),
            0 <= r <= 9,
            (final(self)@, r) == Self::run(old(self)@, Operation::Asl, mode, cycles),
    {
        if mode == AddressMode::Accumulator {
            let _ = self.read(self.pc);
            let (status, result) = shift_left(self.status, self.a);
            self.status = status;
            self.a = result;
        } else {
            let (addr, m) = self.begin_modify(mode);
            let (status, result) = shift_left(self.status, m);
            self.status = status;
            self.write(addr, result);
        }
        cycles
    }

    fn lsr(&mut self, mode: AddressMode, cycles: i32) -> (r: i32)
        requires
            old(self).wf(),
            0 <= cycles <= 8,
        ensures
            final(self).wf(),
            0 <= r <= 9,
            (final(self)@, r) == Self::run(old(self)@, Operation::Lsr, mode, cycles),
    {
        if mode == AddressMode::Accumulator {
            let _ = self.read(self.pc);
            let (status, result) = shift_right(self.status, self.a);
            self.status = status;
            self.a = result;
        } else {
            let (addr, m) = self.begin_modify(mode);
            let (status, result) = shift_right(self.status, m);
            self.status = status;
            self.write(addr, result);
        }
        cycles
    }

    fn rol(&mut self, mode: AddressMode, cycles: i32) -> (r: i32)
        requires
            old(self).wf(),
            0 <= cycles <= 8,
        ensures
            final(self).wf(),
            0 <= r <= 9,
            (final(self)@, r) == Self::run(old(self)@, Operation::Rol, mode, cycles),
    {
        if mode == AddressMode::Accumulator {
            let _ = self.read(self.pc);
            let (status, result) = rotate_left(self.status, self.a);
            self.status = status;
            self.a = result;
        } else {
            let (addr, m) = self.begin_modify(mode);
            let (status, result) = rotate_left(self.status, m);
            self.status = status;
            self.write(addr, result);
        }
        cycles
    }

    fn ror(&mut self, mode: AddressMode, cycles: i32) -> (r: i32)
        requires
            old(self).wf(),
            0 <= cycles <= 8,
        ensures
            final(self).wf(),
            0 <= r <= 9,
            (final(self)@, r) == Self::run(old(self)@, Operation::Ror, mode, cycles),
    {
        if mode == AddressMode::Accumulator {
            let _ = self.read(self.pc);
            let (status, result) = rotate_right(self.status, self.a);
            self.status = status;
            self.a = result;
        } else {
            let (addr, m) = self.begin_modify(mode);
            let (status, result) = rotate_right(self.status, m);
            self.status = status;
            self.write(addr, result);
        }
        cycles
    }

    fn inc(&mut self, mode: AddressMode, cycles: i32) -> (r: i32)
        requires
            old(self).wf(),
            0 <= cycles <= 8,
        ensures
            final(self).wf(),
            0 <= r <= 9,
            (final(self)@, r) == Self::run(old(self)@, Operation::Inc, mode, cycles),
    {
        let (addr, m) = self.begin_modify(mode);
        let result = m.wrapping_add(1);
        self.set_zn(result);
        self.write(addr, result);
        cycles
    }

    fn dec(&mut self, mode: AddressMode, cycles: i32) -> (r: i32)
        requires
            old(self).wf(),
            0 <= cycles <= 8,
        ensures
            final(self).wf(),
            0 <= r <= 9,
            (final(self)@, r) == Self::run(old(self)@, Operation::Dec, mode, cycles),
    {
        let (addr, m) = self.begin_modify(mode);
        let result = m.wrapping_sub(1);
        self.set_zn(result);
        self.write(addr, result);
        cycles
    }

    fn slo(&mut self, mode: AddressMode, cycles: i32) -> (r: i32)
        requires
            old(self).wf(),
            0 <= cycles <= 8,
        ensures
            final(self).wf(),
            0 <= r <= 9,
            (final(self)@, r) == Self::run(old(self)@, Operation::Slo, mode, cycles),
    {
        let (addr, m) = self.begin_modify(mode);
        let (status, result) = shift_left(self.status, m);
        self.status = status;
        self.a = self.a | result;
        self.set_zn(self.a);
        self.write(addr, result);
        cycles
    }

    fn rla(&mut self, mode: AddressMode, cycles: i32) -> (r: i32)
        requires
            old(self).wf(),
            0 <= cycles <= 8,
        ensures
            final(self).wf(),
            0 <= r <= 9,
            (final(self)@, r) == Self::run(old(self)@, Operation::Rla, mode, cycles),
    {
        let (addr, m) = self.begin_modify(mode);
        let (status, result) = rotate_left(self.status, m);
        self.status = status;
        self.a = self.a & result;
        self.set_zn(self.a);
        self.write(addr, result);
        cycles
    }

    fn srx(&mut self, mode: AddressMode, cycles: i32) -> (r: i32)
        requires
            old(self).wf(),
            0 <= cycles <= 8,
        ensures
            final(self).wf(),
            0 <= r <= 9,
            (final(self)@, r) == Self::run(old(self)@, Operation::Sre, mode, cycles),
    {
        let (addr, m) = self.begin_modify(mode);
        let (status, result) = shift_right(self.status, m);
        self.status = status;
        self.a = self.a ^ result;
        self.set_zn(self.a);
        self.write(addr, result);
        cycles
    }

    fn rra(&mut self, mode: AddressMode, cycles: i32) -> (r: i32)
        requires
            old(self).wf(),
            0 <= cycles <= 8,
        ensures
            final(self).wf(),
            0 <= r <= 9,
            (final(self)@, r) == Self::run(old(self)@, Operation::Rra, mode, cycles),
    {
        let (addr, m) = self.begin_modify(mode);
        let (rotated, result) = rotate_right(self.status, m);
        let (status, sum) = add_with_carry(rotated, self.a, result);
        self.status = status;
        self.a = sum;
        self.write(addr, result);
        cycles
    }

    fn dcp(&mut self, mode: AddressMode, cycles: i32) -> (r: i32)
        requires
            old(self).wf(),
            0 <= cycles <= 8,
        ensures
            final(self).wf(),
            0 <= r <= 9,
            (final(self)@, r) == Self::run(old(self)@, Operation::Dcp, mode, cycles),
    {
        let (addr, m) = self.begin_modify(mode);
        let result = m.wrapping_sub(1);
        self.status = compare(self.status, self.a, result);
        self.write(addr, result);
        cycles
    }

    fn isb(&mut self, mode: AddressMode, cycles: i32) -> (r: i32)
        requires
            old(self).wf(),
            0 <= cycles <= 8,
        ensures
            final(self).wf(),
            0 <= r <= 9,
            (final(self)@, r) == Self::run(old(self)@, Operation::Isb, mode, cycles),
    {
        let (addr, m) = self.begin_modify(mode);
        let result = m.wrapping_add(1);
        let (status, difference) = subtract_with_borrow(self.status, self.a, result);
        self.status = status;
        self.a = difference;
        self.write(addr, result);
        cycles
    }

    fn brcnd(&mut self, condition: bool) -> (r: i32)
        requires
            old(self).wf(),
        ensures
            final(self).wf(),
            0 <= r <= 9,
            (final(self)@, r) == Self::branch_op(old(self)@, condition),
    {
        let (addr, penalty) = AddressMode::Relative.decode(self);
        if condition {
            let _ = self.read(self.pc);
            if penalty == 1 {
                let _ = self.read((self.pc & 0xFF00) | (addr & 0x00FF));
            }
            self.pc = addr;
            3 + penalty
        } else {
            2
        }
    }

    fn clf(&mut self, flag: u8) -> (r: i32)
        requires
            old(self).wf(),
        ensures
            final(self).wf(),
            0 <= r <= 9,
            final(self)@ == (CpuState {
                status: with_flag(old(self).status, flag, false),
                ..Self::touch(old(self)@, old(self).pc)
            }),
            r == 2,
    {
        let _ = self.read(self.pc);
        self.set_flag(flag, false);
        2
    }

    fn stf(&mut self, flag: u8) -> (r: i32)
        requires
            old(self).wf(),
        ensures
            final(self).wf(),
            0 <= r <= 9,
            final(self)@ == (CpuState {
                status: with_flag(old(self).status, flag, true),
                ..Self::touch(old(self)@, old(self).pc)
            }),
            r == 2,
    {
        let _ = self.read(self.pc);
        self.set_flag(flag, true);
        2
    }

    fn trr(&mut self, dst: Register, src: Register) -> (r: i32)
        requires
            old(self).wf(),
        ensures
            final(self).wf(),
            0 <= r <= 9,
            final(self)@ == dst.put(
                CpuState {
                    status: with_zn(old(self).status, src.of(old(self)@)),
                    ..Self::touch(old(self)@, old(self).pc)
                },
                src.of(old(self)@),
            ),
            r == 2,
    {
        let _ = self.read(self.pc);
        let value = src.get(self);
        *dst.get_mut(self) = value;
        self.set_zn(value);
        2
    }

    fn inc_reg(&mut self, reg: Register) -> (r: i32)
        requires
            old(self).wf(),
        ensures
            final(self).wf(),
            0 <= r <= 9,
            final(self)@ == reg.put(
                CpuState {
                    status: with_zn(old(self).status, reg.of(old(self)@).wrapping_add(1)),
                    ..Self::touch(old(self)@, old(self).pc)
                },
                reg.of(old(self)@).wrapping_add(1),
            ),
            r == 2,
    {
        let value = reg.get(self).wrapping_add(1);
        *reg.get_mut(self) = value;
        self.set_zn(value);
        let _ = self.read(self.pc);
        2
    }

    fn dec_reg(&mut self, reg: Register) -> (r: i32)
        requires
            old(self).wf(),
        ensures
            final(self).wf(),
            0 <= r <= 9,
            final(self)@ == reg.put(
                CpuState {
                    status: with_zn(old(self).status, reg.of(old(self)@).wrapping_sub(1)),
                    ..Self::touch(old(self)@, old(self).pc)
                },
                reg.of(old(self)@).wrapping_sub(1),
            ),
            r == 2,
    {
        let value = reg.get(self).wrapping_sub(1);
        *reg.get_mut(self) = value;
        self.set_zn(value);
        let _ = self.read(self.pc);
        2
    }

    fn tsx(&mut self) -> (r: i32)
        requires
            old(self).wf(),
        ensures
            final(self).wf(),
            0 <= r <= 9,
            (final(self)@, r) == Self::run(old(self)@, Operation::Tsx, AddressMode::Accumulator, 2),
    {
        let _ = self.read(self.pc);
        self.x = self.sp;
        self.set_zn(self.x);
        2
    }

    fn txs(&mut self) -> (r: i32)
        requires
            old(self).wf(),
        ensures
            final(self).wf(),
            0 <= r <= 9,
            (final(self)@, r) == Self::run(old(self)@, Operation::Txs, AddressMode::Accumulator, 2),
    {
        let _ = self.read(self.pc);
        self.sp = self.x;
        2
    }

    fn nop(&mut self) -> (r: i32)
        requires
            old(self).wf(),
        ensures
            final(self).wf(),
            0 <= r <= 9,
            (final(self)@, r) == Self::run(old(self)@, Operation::Nop, AddressMode::Accumulator, 2),
    {
        let _ = self.read(self.pc);
        2
    }

    fn jmp(&mut self, mode: AddressMode, cycles: i32) -> (r: i32)
        requires
            old(self).wf(),
            0 <= cycles <= 8,
        ensures
            final(self).wf(),
            0 <= r <= 9,
            (final(self)@, r) == Self::run(old(self)@, Operation::Jmp, mode, cycles),
    {
        let (addr, _) = mode.decode(self);
        self.pc = addr;
        cycles
    }

    fn jsr(&mut self) -> (r: i32)
        requires
            old(self).wf(),
        ensures
            final(self).wf(),
            0 <= r <= 9,
            (final(self)@, r) == Self::call_op(old(self)@),
    {
        let low = self.fetch();
        let _ = self.read(0x0100 + self.sp as u16);
        self.push_word(self.pc);
        let high = self.fetch();
        self.pc = ((high as u16) << 8) | (low as u16);
        6
    }

    fn rts(&mut self) -> (r: i32)
        requires
            old(self).wf(),
        ensures
            final(self).wf(),
            0 <= r <= 9,
            (final(self)@, r) == Self::return_op(old(self)@),
    {
        let _ = self.read(self.pc);
        let _ = self.read(0x0100 + self.sp as u16);
        self.pc = self.pop_word();
        let _ = self.fetch();
        6
    }

    fn rti(&mut self) -> (r: i32)
        requires
            old(self).wf(),
        ensures
            final(self).wf(),
            0 <= r <= 9,
            (final(self)@, r) == Self::interrupt_return_op(old(self)@),
    {
        let _ = self.read(self.pc);
        let _ = self.read(0x0100 + self.sp as u16);
        let status = self.pop();
        self.status = (status & !FLAG_B) | FLAG_U;
        self.pc = self.pop_word();
        6
    }

    fn pha(&mut self) -> (r: i32)
        requires
            old(self).wf(),
        ensures
            final(self).wf(),
            0 <= r <= 9,
            (final(self)@, r) == Self::push_op(old(self)@, old(self).a),
    {
        let _ = self.read(self.pc);
        self.push(self.a);
        3
    }

    fn php(&mut self) -> (r: i32)
        requires
            old(self).wf(),
        ensures
            final(self).wf(),
            0 <= r <= 9,
            (final(self)@, r) == Self::push_op(old(self)@, old(self).status | FLAG_B | FLAG_U),
    {
        let _ = self.read(self.pc);
        self.push(self.status | FLAG_B | FLAG_U);
        3
    }

    fn pla(&mut self) -> (r: i32)
        requires
            old(self).wf(),
        ensures
            final(self).wf(),
            0 <= r <= 9,
            (final(self)@, r) == Self::run(old(self)@, Operation::Pla, AddressMode::Accumulator, 4),
    {
        let _ = self.read(self.pc);
        let _ = self.read(0x0100 + self.sp as u16);
        self.a = self.pop();
        self.set_zn(self.a);
        4
    }

    fn plp(&mut self) -> (r: i32)
        requires
            old(self).wf(),
        ensures
            final(self).wf(),
            0 <= r <= 9,
            (final(self)@, r) == Self::run(old(self)@, Operation::Plp, AddressMode::Accumulator, 4),
    {
        let _ = self.read(self.pc);
        let _ = self.read(0x0100 + self.sp as u16);
        let val = self.pop();
        self.status = (val & !FLAG_B) | FLAG_U;
        4
    }

    fn brk(&mut self) -> (r: i32)
        requires
            old(self).wf(),
        ensures
            final(self).wf(),
            0 <= r <= 9,
            (final(self)@, r) == Self::break_op(old(self)@),
    {
        let _ = self.fetch();
        self.push_word(self.pc);
        self.push(self.status | FLAG_B | FLAG_U);
        self.set_flag(FLAG_B, false);
        self.set_flag(FLAG_I, true);
        self.pc = self.read_word(0xFFFE);
        7
    }

    fn service(&mut self, vector: u16) -> (r: i32)
        requires
            old(self).wf(),
        ensures
            final(self).wf(),
            0 <= r <= 9,
            (final(self)@, r) == Self::interrupt(old(self)@, vector),
    {
        let _ = self.read(0x0100 + self.sp as u16);
        self.push_word(self.pc);
        self.set_flag(FLAG_B, false);
        self.set_flag(FLAG_U, true);
        self.push(self.status);
        self.set_flag(FLAG_I, true);
        self.pc = self.read_word(vector);
        7
    }

    fn irq(&mut self) -> (r: i32)
        requires
            old(self).wf(),
        ensures
            final(self).wf(),
            0 <= r <= 9,
            (final(self)@, r) == Self::interrupt(old(self)@, 0xFFFE),
    {
        self.service(0xFFFE)
    }

    fn nmi(&mut self) -> (r: i32)
        requires
            old(self).wf(),
        ensures
            final(self).wf(),
            0 <= r <= 9,
            (final(self)@, r) == Self::interrupt(old(self)@, 0xFFFA),
    {
        self.service(0xFFFA)
    }

    /// Runs an opcode in 0x00..=0x1F.
    fn dispatch_00(&mut self, opcode: u8) -> (cycles: i32)
        requires
            old(self).wf(),
            0x00 <= opcode <= 0x1F,
        ensures
            final(self).wf(),
            0 <= cycles <= 9,
            (final(self)@, cycles) == Self::execute(old(self)@, opcode),
    {
        reveal(CPU::execute);
        match opcode {
            0x00 => self.brk(),
            0x01 => self.or(AddressMode::IndirectX, 6),
            0x03 => self.slo(AddressMode::IndirectX, 8),
            0x04 => self.multibyte_nop(AddressMode::ZeroPage, 3),
            0x05 => self.or(AddressMode::ZeroPage, 3),
            0x06 => self.asl(AddressMode::ZeroPage, 5),
            0x07 => self.slo(AddressMode::ZeroPage, 5),
            0x08 => self.php(),
            0x09 => self.or(AddressMode::Immediate, 2),
            0x0A => self.asl(AddressMode::Accumulator, 2),
            0x0C => self.multibyte_nop(AddressMode::Absolute, 4),
            0x0D => self.or(AddressMode::Absolute, 4),
            0x0E => self.asl(AddressMode::Absolute, 6),
            0x0F => self.slo(AddressMode::Absolute, 6),
            0x10 => self.brcnd(!self.get_flag(FLAG_N)),
            0x11 => self.or(AddressMode::IndirectY, 5),
            0x13 => self.slo(AddressMode::IndirectY, 8),
            0x14 => self.multibyte_nop(AddressMode::ZeroPageX, 4),
            0x15 => self.or(AddressMode::ZeroPageX, 4),
            0x16 => self.asl(AddressMode::ZeroPageX, 6),
            0x17 => self.slo(AddressMode::ZeroPageX, 6),
            0x18 => self.clf(FLAG_C),
            0x19 => self.or(AddressMode::AbsoluteY, 4),
            0x1A => self.nop(),
            0x1B => self.slo(AddressMode::AbsoluteY, 7),
            0x1C => self.multibyte_nop(AddressMode::AbsoluteX, 4),
            0x1D => self.or(AddressMode::AbsoluteX, 4),
            0x1E => self.asl(AddressMode::AbsoluteX, 7),
            0x1F => self.slo(AddressMode::AbsoluteX, 7),
            _ => {
                self.halted = true;
                0
            },
        }
    }

    /// Runs an opcode in 0x20..=0x3F.
    fn dispatch_20(&mut self, opcode: u8) -> (cycles: i32)
        requires
            old(self).wf(),
            0x20 <= opcode <= 0x3F,
        ensures
            final(self).wf(),
            0 <= cycles <= 9,
            (final(self)@, cycles) == Self::execute(old(self)@, opcode),
    {
        reveal(CPU::execute);
        match opcode {
            0x20 => self.jsr(),
            0x21 => self.and(AddressMode::IndirectX, 6),
            0x23 => self.rla(AddressMode::IndirectX, 8),
            0x24 => self.bit(AddressMode::ZeroPage, 3),
            0x25 => self.and(AddressMode::ZeroPage, 3),
            0x26 => self.rol(AddressMode::ZeroPage, 5),
            0x27 => self.rla(AddressMode::ZeroPage, 5),
            0x28 => self.plp(),
            0x29 => self.and(AddressMode::Immediate, 2),
            0x2A => self.rol(AddressMode::Accumulator, 2),
            0x2C => self.bit(AddressMode::Absolute, 4),
            0x2D => self.and(AddressMode::Absolute, 4),
            0x2E => self.rol(AddressMode::Absolute, 6),
            0x2F => self.rla(AddressMode::Absolute, 6),
            0x30 => self.brcnd(self.get_flag(FLAG_N)),
            0x31 => self.and(AddressMode::IndirectY, 5),
            0x33 => self.rla(AddressMode::IndirectY, 8),
            0x34 => self.multibyte_nop(AddressMode::ZeroPageX, 4),
            0x35 => self.and(AddressMode::ZeroPageX, 4),
            0x36 => self.rol(AddressMode::ZeroPageX, 6),
            0x37 => self.rla(AddressMode::ZeroPageX, 6),
            0x38 => self.stf(FLAG_C),
            0x39 => self.and(AddressMode::AbsoluteY, 4),
            0x3A => self.nop(),
            0x3B => self.rla(AddressMode::AbsoluteY, 7),
            0x3C => self.multibyte_nop(AddressMode::AbsoluteX, 4),
            0x3D => self.and(AddressMode::AbsoluteX, 4),
            0x3E => self.rol(AddressMode::AbsoluteX, 7),
            0x3F => self.rla(AddressMode::AbsoluteX, 7),
            _ => {
                self.halted = true;
                0
            },
        }
    }

    /// Runs an opcode in 0x40..=0x5F.
    fn dispatch_40(&mut self, opcode: u8) -> (cycles: i32)
        requires
            old(self).wf(),
            0x40 <= opcode <= 0x5F,
        ensures
            final(self).wf(),
            0 <= cycles <= 9,
            (final(self)@, cycles) == Self::execute(old(self)@, opcode),
    {
        reveal(CPU::execute);
        match opcode {
            0x40 => self.rti(),
            0x41 => self.xor(AddressMode::IndirectX, 6),
            0x43 => self.srx(AddressMode::IndirectX, 8),
            0x44 => self.multibyte_nop(AddressMode::ZeroPage, 3),
            0x45 => self.xor(AddressMode::ZeroPage, 3),
            0x46 => self.lsr(AddressMode::ZeroPage, 5),
            0x47 => self.srx(AddressMode::ZeroPage, 5),
            0x48 => self.pha(),
            0x49 => self.xor(AddressMode::Immediate, 2),
            0x4A => self.lsr(AddressMode::Accumulator, 2),
            0x4C => self.jmp(AddressMode::Absolute, 3),
            0x4D => self.xor(AddressMode::Absolute, 4),
            0x4E => self.lsr(AddressMode::Absolute, 6),
            0x4F => self.srx(AddressMode::Absolute, 6),
            0x50 => self.brcnd(!self.get_flag(FLAG_V)),
            0x51 => self.xor(AddressMode::IndirectY, 5),
            0x53 => self.srx(AddressMode::IndirectY, 8),
            0x54 => self.multibyte_nop(AddressMode::ZeroPageX, 4),
            0x55 => self.xor(AddressMode::ZeroPageX, 4),
            0x56 => self.lsr(AddressMode::ZeroPageX, 6),
            0x57 => self.srx(AddressMode::ZeroPageX, 6),
            0x58 => self.clf(FLAG_I),
            0x59 => self.xor(AddressMode::AbsoluteY, 4),
            0x5A => self.nop(),
            0x5B => self.srx(AddressMode::AbsoluteY, 7),
            0x5C => self.multibyte_nop(AddressMode::AbsoluteX, 4),
            0x5D => self.xor(AddressMode::AbsoluteX, 4),
            0x5E => self.lsr(AddressMode::AbsoluteX, 7),
            0x5F => self.srx(AddressMode::AbsoluteX, 7),
            _ => {
                self.halted = true;
                0
            },
        }
    }

    /// Runs an opcode in 0x60..=0x7F.
    fn dispatch_60(&mut self, opcode: u8) -> (cycles: i32)
        requires
            old(self).wf(),
            0x60 <= opcode <= 0x7F,
        ensures
            final(self).wf(),
            0 <= cycles <= 9,
            (final(self)@, cycles) == Self::execute(old(self)@, opcode),
    {
        reveal(CPU::execute);
        match opcode {
            0x60 => self.rts(),
            0x61 => self.adc(AddressMode::IndirectX, 6),
            0x63 => self.rra(AddressMode::IndirectX, 8),
            0x64 => self.multibyte_nop(AddressMode::ZeroPage, 3),
            0x65 => self.adc(AddressMode::ZeroPage, 3),
            0x66 => self.ror(AddressMode::ZeroPage, 5),
            0x67 => self.rra(AddressMode::ZeroPage, 5),
            0x68 => self.pla(),
            0x69 => self.adc(AddressMode::Immediate, 2),
            0x6A => self.ror(AddressMode::Accumulator, 2),
            0x6C => self.jmp(AddressMode::Indirect, 5),
            0x6D => self.adc(AddressMode::Absolute, 4),
            0x6E => self.ror(AddressMode::Absolute, 6),
            0x6F => self.rra(AddressMode::Absolute, 6),
            0x70 => self.brcnd(self.get_flag(FLAG_V)),
            0x71 => self.adc(AddressMode::IndirectY, 5),
            0x73 => self.rra(AddressMode::IndirectY, 8),
            0x74 => self.multibyte_nop(AddressMode::ZeroPageX, 4),
            0x75 => self.adc(AddressMode::ZeroPageX, 4),
            0x76 => self.ror(AddressMode::ZeroPageX, 6),
            0x77 => self.rra(AddressMode::ZeroPageX, 6),
            0x78 => self.stf(FLAG_I),
            0x79 => self.adc(AddressMode::AbsoluteY, 4),
            0x7A => self.nop(),
            0x7B => self.rra(AddressMode::AbsoluteY, 7),
            0x7C => self.multibyte_nop(AddressMode::AbsoluteX, 4),
            0x7D => self.adc(AddressMode::AbsoluteX, 4),
            0x7E => self.ror(AddressMode::AbsoluteX, 7),
            0x7F => self.rra(AddressMode::AbsoluteX, 7),
            _ => {
                self.halted = true;
                0
            },
        }
    }

    /// Runs an opcode in 0x80..=0x9F.
    fn dispatch_80(&mut self, opcode: u8) -> (cycles: i32)
        requires
            old(self).wf(),
            0x80 <= opcode <= 0x9F,
        ensures
            final(self).wf(),
            0 <= cycles <= 9,
            (final(self)@, cycles) == Self::execute(old(self)@, opcode),
    {
        reveal(CPU::execute);
        match opcode {
            0x80 => self.multibyte_nop(AddressMode::Immediate, 2),
            0x81 => self.sta(AddressMode::IndirectX, 6),
            0x83 => self.sax(AddressMode::IndirectX, 6),
            0x84 => self.sty(AddressMode::ZeroPage, 3),
            0x85 => self.sta(AddressMode::ZeroPage, 3),
            0x86 => self.stx(AddressMode::ZeroPage, 3),
            0x87 => self.sax(AddressMode::ZeroPage, 3),
            0x88 => self.dec_reg(Register::Y),
            0x89 => self.multibyte_nop(AddressMode::Immediate, 2),
            0x8A => self.trr(Register::A, Register::X),
            0x8C => self.sty(AddressMode::Absolute, 4),
            0x8D => self.sta(AddressMode::Absolute, 4),
            0x8E => self.stx(AddressMode::Absolute, 4),
            0x8F => self.sax(AddressMode::Absolute, 4),
            0x90 => self.brcnd(!self.get_flag(FLAG_C)),
            0x91 => self.sta(AddressMode::IndirectY, 6),
            0x94 => self.sty(AddressMode::ZeroPageX, 4),
            0x95 => self.sta(AddressMode::ZeroPageX, 4),
            0x96 => self.stx(AddressMode::ZeroPageY, 4),
            0x97 => self.sax(AddressMode::ZeroPageY, 4),
            0x98 => self.trr(Register::A, Register::Y),
            0x99 => self.sta(AddressMode::AbsoluteY, 5),
            0x9A => self.txs(),
            0x9D => self.sta(AddressMode::AbsoluteX, 5),
            _ => {
                self.halted = true;
                0
            },
        }
    }

    /// Runs an opcode in 0xA0..=0xBF.
    fn dispatch_a0(&mut self, opcode: u8) -> (cycles: i32)
        requires
            old(self).wf(),
            0xA0 <= opcode <= 0xBF,
        ensures
            final(self).wf(),
            0 <= cycles <= 9,
            (final(self)@, cycles) == Self::execute(old(self)@, opcode),
    {
        reveal(CPU::execute);
        match opcode {
            0xA0 => self.ldreg(Register::Y, AddressMode::Immediate, 2),
            0xA1 => self.ldreg(Register::A, AddressMode::IndirectX, 6),
            0xA2 => self.ldreg(Register::X, AddressMode::Immediate, 2),
            0xA3 => self.lax(AddressMode::IndirectX, 6),
            0xA4 => self.ldreg(Register::Y, AddressMode::ZeroPage, 3),
            0xA5 => self.ldreg(Register::A, AddressMode::ZeroPage, 3),
            0xA6 => self.ldreg(Register::X, AddressMode::ZeroPage, 3),
            0xA7 => self.lax(AddressMode::ZeroPage, 3),
            0xA8 => self.trr(Register::Y, Register::A),
            0xA9 => self.ldreg(Register::A, AddressMode::Immediate, 2),
            0xAA => self.trr(Register::X, Register::A),
            0xAC => self.ldreg(Register::Y, AddressMode::Absolute, 4),
            0xAD => self.ldreg(Register::A, AddressMode::Absolute, 4),
            0xAE => self.ldreg(Register::X, AddressMode::Absolute, 4),
            0xAF => self.lax(AddressMode::Absolute, 4),
            0xB0 => self.brcnd(self.get_flag(FLAG_C)),
            0xB1 => self.ldreg(Register::A, AddressMode::IndirectY, 5),
            0xB3 => self.lax(AddressMode::IndirectY, 5),
            0xB4 => self.ldreg(Register::Y, AddressMode::ZeroPageX, 4),
            0xB5 => self.ldreg(Register::A, AddressMode::ZeroPageX, 4),
            0xB6 => self.ldreg(Register::X, AddressMode::ZeroPageY, 4),
            0xB7 => self.lax(AddressMode::ZeroPageY, 4),
            0xB8 => self.clf(FLAG_V),
            0xB9 => self.ldreg(Register::A, AddressMode::AbsoluteY, 4),
            0xBA => self.tsx(),
            0xBC => self.ldreg(Register::Y, AddressMode::AbsoluteX, 4),
            0xBD => self.ldreg(Register::A, AddressMode::AbsoluteX, 4),
            0xBE => self.ldreg(Register::X, AddressMode::AbsoluteY, 4),
            0xBF => self.lax(AddressMode::AbsoluteY, 4),
            _ => {
                self.halted = true;
                0
            },
        }
    }

    /// Runs an opcode in 0xC0..=0xDF.
    fn dispatch_c0(&mut self, opcode: u8) -> (cycles: i32)
        requires
            old(self).wf(),
            0xC0 <= opcode <= 0xDF,
        ensures
            final(self).wf(),
            0 <= cycles <= 9,
            (final(self)@, cycles) == Self::execute(old(self)@, opcode),
    {
        reveal(CPU::execute);
        match opcode {
            0xC0 => self.compare_with(Register::Y, AddressMode::Immediate, 2),
            0xC1 => self.compare_with(Register::A, AddressMode::IndirectX, 6),
            0xC3 => self.dcp(AddressMode::IndirectX, 8),
            0xC4 => self.compare_with(Register::Y, AddressMode::ZeroPage, 3),
            0xC5 => self.compare_with(Register::A, AddressMode::ZeroPage, 3),
            0xC6 => self.dec(AddressMode::ZeroPage, 5),
            0xC7 => self.dcp(AddressMode::ZeroPage, 5),
            0xC8 => self.inc_reg(Register::Y),
            0xC9 => self.compare_with(Register::A, AddressMode::Immediate, 2),
            0xCA => self.dec_reg(Register::X),
            0xCC => self.compare_with(Register::Y, AddressMode::Absolute, 4),
            0xCD => self.compare_with(Register::A, AddressMode::Absolute, 4),
            0xCE => self.dec(AddressMode::Absolute, 6),
            0xCF => self.dcp(AddressMode::Absolute, 6),
            0xD0 => self.brcnd(!self.get_flag(FLAG_Z)),
            0xD1 => self.compare_with(Register::A, AddressMode::IndirectY, 5),
            0xD3 => self.dcp(AddressMode::IndirectY, 8),
            0xD4 => self.multibyte_nop(AddressMode::ZeroPageX, 4),
            0xD5 => self.compare_with(Register::A, AddressMode::ZeroPageX, 4),
            0xD6 => self.dec(AddressMode::ZeroPageX, 6),
            0xD7 => self.dcp(AddressMode::ZeroPageX, 6),
            0xD8 => self.clf(FLAG_D),
            0xD9 => self.compare_with(Register::A, AddressMode::AbsoluteY, 4),
            0xDA => self.multibyte_nop(AddressMode::AbsoluteX, 4),
            0xDB => self.dcp(AddressMode::AbsoluteY, 7),
            0xDC => self.multibyte_nop(AddressMode::AbsoluteX, 4),
            0xDD => self.compare_with(Register::A, AddressMode::AbsoluteX, 4),
            0xDE => self.dec(AddressMode::AbsoluteX, 7),
            0xDF => self.dcp(AddressMode::AbsoluteX, 7),
            _ => {
                self.halted = true;
                0
            },
        }
    }

    /// Runs an opcode in 0xE0..=0xFF.
    fn dispatch_e0(&mut self, opcode: u8) -> (cycles: i32)
        requires
            old(self).wf(),
            0xE0 <= opcode <= 0xFF,
        ensures
            final(self).wf(),
            0 <= cycles <= 9,
            (final(self)@, cycles) == Self::execute(old(self)@, opcode),
    {
        reveal(CPU::execute);
        match opcode {
            0xE0 => self.compare_with(Register::X, AddressMode::Immediate, 2),
            0xE1 => self.sbc(AddressMode::IndirectX, 6),
            0xE3 => self.isb(AddressMode::IndirectX, 8),
            0xE4 => self.compare_with(Register::X, AddressMode::ZeroPage, 3),
            0xE5 => self.sbc(AddressMode::ZeroPage, 3),
            0xE6 => self.inc(AddressMode::ZeroPage, 5),
            0xE7 => self.isb(AddressMode::ZeroPage, 5),
            0xE8 => self.inc_reg(Register::X),
            0xE9 => self.sbc(AddressMode::Immediate, 2),
            0xEA => self.nop(),
            0xEB => self.sbc(AddressMode::Immediate, 2),
            0xEC => self.compare_with(Register::X, AddressMode::Absolute, 4),
            0xED => self.sbc(AddressMode::Absolute, 4),
            0xEE => self.inc(AddressMode::Absolute, 6),
            0xEF => self.isb(AddressMode::Absolute, 6),
            0xF0 => self.brcnd(self.get_flag(FLAG_Z)),
            0xF1 => self.sbc(AddressMode::IndirectY, 5),
            0xF3 => self.isb(AddressMode::IndirectY, 8),
            0xF4 => self.multibyte_nop(AddressMode::ZeroPageX, 4),
            0xF5 => self.sbc(AddressMode::ZeroPageX, 4),
            0xF6 => self.inc(AddressMode::ZeroPageX, 6),
            0xF7 => self.isb(AddressMode::ZeroPageX, 6),
            0xF8 => self.stf(FLAG_D),
            0xF9 => self.sbc(AddressMode::AbsoluteY, 4),
            0xFB => self.isb(AddressMode::AbsoluteY, 7),
            0xFC => self.multibyte_nop(AddressMode::AbsoluteX, 4),
            0xFD => self.sbc(AddressMode::AbsoluteX, 4),
            0xFE => self.inc(AddressMode::AbsoluteX, 7),
            0xFF => self.isb(AddressMode::AbsoluteX, 7),
            _ => {
                self.halted = true;
                0
            },
        }
    }

    /// Runs the opcode just fetched.
    fn dispatch(&mut self, opcode: u8) -> (cycles: i32)
        requires
            old(self).wf(),
        ensures
            final(self).wf(),
            0 <= cycles <= 9,
            (final(self)@, cycles) == Self::execute(old(self)@, opcode),
    {
        if opcode <= 0x1F {
            self.dispatch_00(opcode)
        } else if opcode <= 0x3F {
            self.dispatch_20(opcode)
        } else if opcode <= 0x5F {
            self.dispatch_40(opcode)
        } else if opcode <= 0x7F {
            self.dispatch_60(opcode)
        } else if opcode <= 0x9F {
            self.dispatch_80(opcode)
        } else if opcode <= 0xBF {
            self.dispatch_a0(opcode)
        } else if opcode <= 0xDF {
            self.dispatch_c0(opcode)
        } else {
            self.dispatch_e0(opcode)
        }
    }

    /// Serves a pending interrupt or runs one instruction, and returns the
    /// cycles that took. A halted processor does nothing and returns 0.
    pub fn execute_instruction(&mut self) -> (cycles: i32)
        requires
            old(self).wf(),
        ensures
            final(self).wf(),
            0 <= cycles <= 9,
            (final(self)@, cycles) == Self::step(old(self)@),
    {
        reveal(CPU::step);
        if self.halted {
            return 0;
        }
        if self.bus.take_nmi() {
            return self.nmi();
        }
        if self.bus.irq_line() && !self.get_flag(FLAG_I) {
            return self.irq();
        }
        let opcode = self.fetch();
        self.dispatch(opcode)
    }
}

} // verus!
