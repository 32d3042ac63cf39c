use crate::bus::CpuBus;
use crate::cpu::{AddressMode, CpuState, CPU};
use crate::instructions::crosses_pages;
use crate::isa::{base_cycles, mode_of, operation_of, Operation};
use crate::trace::{TraceBus, TraceState};
use vstd::prelude::*;

verus! {

/// The operation reads its operand and does nothing else with memory.
pub open spec fn is_read(op: Operation, mode: AddressMode) -> bool {
    match op {
        Operation::Adc | Operation::Sbc | Operation::And | Operation::Ora | Operation::Eor
        | Operation::Bit | Operation::Cmp | Operation::Cpx | Operation::Cpy | Operation::Lda
        | Operation::Ldx | Operation::Ldy | Operation::Lax => true,
        Operation::Nop => mode != AddressMode::Accumulator,
        _ => false,
    }
}

/// The operation is a conditional branch.
pub open spec fn is_branch(op: Operation) -> bool {
    match op {
        Operation::Bcc | Operation::Bcs | Operation::Beq | Operation::Bne | Operation::Bmi
        | Operation::Bpl | Operation::Bvc | Operation::Bvs => true,
        _ => false,
    }
}

impl<B: CpuBus> CPU<B> {
    /// Cycles an instruction takes on top of its reference count: one when
    /// a read crosses a page by indexing, one when a branch is taken and one
    /// more when it lands in another page.
    pub open spec fn penalty(c: CpuState<B::V>, opcode: u8) -> int {
        match operation_of(opcode) {
            Some(op) => if is_read(op, mode_of(opcode)) {
                Self::resolve(c, mode_of(opcode)).1 as int
            } else if is_branch(op) && Self::branches(c, op) {
                1 + Self::resolve(c, AddressMode::Relative).1
            } else {
                0
            },
            None => 0,
        }
    }

    /// Every instruction takes the cycles the reference table gives for its
    /// opcode, plus the page-crossing and branch penalties and nothing else.
    pub proof fn lemma_cycles_follow_reference(c: CpuState<B::V>, opcode: u8)
        requires
            operation_of(opcode).is_some(),
        ensures
            Self::execute(c, opcode).1 == base_cycles(opcode) + Self::penalty(c, opcode),
            0 <= Self::penalty(c, opcode) <= 2,
            Self::penalty(c, opcode) > 0 ==> crosses_pages(mode_of(opcode)) || mode_of(opcode)
                == AddressMode::Relative,
    {
        reveal(CPU::execute);
    }

    /// A reset twice leaves the registers a single reset leaves, provided
    /// the reset vector reads the same both times.
    pub proof fn lemma_reset_is_idempotent(c: CpuState<B::V>)
        ensures
            ({
                let once = Self::reset_state(c);
                let twice = Self::reset_state(once);
                &&& twice.a == once.a
                &&& twice.x == once.x
                &&& twice.y == once.y
                &&& twice.sp == once.sp
                &&& twice.status == once.status
                &&& twice.halted == once.halted
                &&& Self::load_word(once, 0xFFFC).0 == Self::load_word(c, 0xFFFC).0 ==> twice.pc
                    == once.pc
            }),
    {
    }
}

/// Bus reads it takes to find the operand address in a mode, not counting
/// the read a page crossing adds.
pub open spec fn address_reads(mode: AddressMode) -> int {
    match mode {
        AddressMode::Accumulator | AddressMode::Immediate => 0,
        AddressMode::ZeroPage | AddressMode::Relative => 1,
        AddressMode::ZeroPageX | AddressMode::ZeroPageY | AddressMode::Absolute
        | AddressMode::AbsoluteX | AddressMode::AbsoluteY => 2,
        AddressMode::IndirectY => 3,
        AddressMode::Indirect | AddressMode::IndirectX => 4,
    }
}

/// One if indexing in this mode can cross a page, else zero.
pub open spec fn settle_reads(mode: AddressMode) -> int {
    if crosses_pages(mode) {
        1
    } else {
        0
    }
}

impl CPU<TraceBus> {
    /// Bus accesses an operation makes after its opcode was fetched.
    pub open spec fn accesses(c: CpuState<TraceState>, op: Operation, mode: AddressMode) -> int {
        match op {
            Operation::Adc | Operation::Sbc | Operation::And | Operation::Ora | Operation::Eor
            | Operation::Bit | Operation::Cmp | Operation::Cpx | Operation::Cpy | Operation::Lda
            | Operation::Ldx | Operation::Ldy | Operation::Lax => address_reads(mode)
                + settle_reads(mode) * Self::resolve(c, mode).1 + 1,
            Operation::Nop => if mode == AddressMode::Accumulator {
                1
            } else {
                address_reads(mode) + settle_reads(mode) * Self::resolve(c, mode).1 + 1
            },
            Operation::Sta | Operation::Stx | Operation::Sty | Operation::Sax => address_reads(mode)
                + settle_reads(mode) + 1,
            Operation::Asl | Operation::Lsr | Operation::Rol | Operation::Ror => if mode
                == AddressMode::Accumulator {
                1
            } else {
                address_reads(mode) + settle_reads(mode) + 3
            },
            Operation::Inc | Operation::Dec | Operation::Slo | Operation::Rla | Operation::Sre
            | Operation::Rra | Operation::Dcp | Operation::Isb => address_reads(mode)
                + settle_reads(mode) + 3,
            Operation::Bcc | Operation::Bcs | Operation::Beq | Operation::Bne | Operation::Bmi
            | Operation::Bpl | Operation::Bvc | Operation::Bvs => if Self::branches(c, op) {
                2 + Self::resolve(c, AddressMode::Relative).1
            } else {
                1
            },
            Operation::Jmp => address_reads(mode),
            Operation::Jsr | Operation::Rts | Operation::Rti => 5,
            Operation::Brk => 6,
            Operation::Pha | Operation::Php => 2,
            Operation::Pla | Operation::Plp => 3,
            _ => 1,
        }
    }

    proof fn lemma_resolve_accesses(c: CpuState<TraceState>, mode: AddressMode)
        ensures
            Self::resolve(c, mode).2.bus.cycles.len() == c.bus.cycles.len() + address_reads(mode)
                + settle_reads(mode) * Self::resolve(c, mode).1,
            Self::resolve(c, mode).1 == 0 || Self::resolve(c, mode).1 == 1,
    {
    }

    proof fn lemma_read_accesses(
        c: CpuState<TraceState>,
        op: Operation,
        mode: AddressMode,
        base: i32,
    )
        ensures
            Self::read_op(c, op, mode, base).0.bus.cycles.len() == c.bus.cycles.len()
                + address_reads(mode) + settle_reads(mode) * Self::resolve(c, mode).1 + 1,
    {
        Self::lemma_resolve_accesses(c, mode);
    }

    proof fn lemma_target_accesses(c: CpuState<TraceState>, mode: AddressMode)
        ensures
            Self::target(c, mode).1.bus.cycles.len() == c.bus.cycles.len() + address_reads(mode)
                + settle_reads(mode),
    {
        Self::lemma_resolve_accesses(c, mode);
    }

    proof fn lemma_store_accesses(
        c: CpuState<TraceState>,
        op: Operation,
        mode: AddressMode,
        base: i32,
    )
        ensures
            Self::store_op(c, op, mode, base).0.bus.cycles.len() == c.bus.cycles.len()
                + address_reads(mode) + settle_reads(mode) + 1,
    {
        Self::lemma_target_accesses(c, mode);
    }

    proof fn lemma_modify_accesses(
        c: CpuState<TraceState>,
        op: Operation,
        mode: AddressMode,
        base: i32,
    )
        ensures
            Self::modify_op(c, op, mode, base).0.bus.cycles.len() == c.bus.cycles.len()
                + address_reads(mode) + settle_reads(mode) + 3,
    {
        Self::lemma_target_accesses(c, mode);
    }

    proof fn lemma_branch_accesses(c: CpuState<TraceState>, taken: bool)
        ensures
            Self::branch_op(c, taken).0.bus.cycles.len() == c.bus.cycles.len() + (if taken {
                2 + Self::resolve(c, AddressMode::Relative).1
            } else {
                1int
            }),
    {
        Self::lemma_resolve_accesses(c, AddressMode::Relative);
    }

    proof fn lemma_jump_accesses(c: CpuState<TraceState>, mode: AddressMode, base: i32)
        requires
            !crosses_pages(mode),
        ensures
            Self::jump_op(c, mode, base).0.bus.cycles.len() == c.bus.cycles.len() + address_reads(
                mode,
            ),
    {
        Self::lemma_resolve_accesses(c, mode);
    }

    proof fn lemma_run_accesses(
        c: CpuState<TraceState>,
        op: Operation,
        mode: AddressMode,
        base: i32,
    )
        requires
            op == Operation::Jmp ==> !crosses_pages(mode),
        ensures
            Self::run(c, op, mode, base).0.bus.cycles.len() == c.bus.cycles.len() + Self::accesses(
                c,
                op,
                mode,
            ),
    {
        if is_read(op, mode) {
            Self::lemma_read_accesses(c, op, mode, base);
        } else if is_branch(op) {
            Self::lemma_branch_accesses(c, Self::branches(c, op));
        } else {
            match op {
                Operation::Sta | Operation::Stx | Operation::Sty | Operation::Sax => {
                    Self::lemma_store_accesses(c, op, mode, base);
                },
                Operation::Asl | Operation::Lsr | Operation::Rol | Operation::Ror
                | Operation::Inc | Operation::Dec | Operation::Slo | Operation::Rla
                | Operation::Sre | Operation::Rra | Operation::Dcp | Operation::Isb => {
                    Self::lemma_modify_accesses(c, op, mode, base);
                },
                Operation::Jmp => {
                    Self::lemma_jump_accesses(c, mode, base);
                },
                _ => {},
            }
        }
    }

    proof fn lemma_table_counts_accesses(c: CpuState<TraceState>, opcode: u8)
        requires
            operation_of(opcode).is_some(),
        ensures
            1 + Self::accesses(c, operation_of(opcode).unwrap(), mode_of(opcode)) == base_cycles(
                opcode,
            ) + Self::penalty(c, opcode),
    {
        Self::lemma_resolve_accesses(c, mode_of(opcode));
        Self::lemma_resolve_accesses(c, AddressMode::Relative);
    }

    /// On a bus that is plain memory every cycle is one bus access: an
    /// instruction makes exactly as many reads and writes as it takes
    /// cycles, the fetch of its opcode included.
    pub proof fn lemma_cycles_count_bus_accesses(c: CpuState<TraceState>)
        requires
            !c.halted,
            operation_of(c.bus.ram[c.pc as int]).is_some(),
        ensures
            Self::step(c).0.bus.cycles.len() == c.bus.cycles.len() + Self::step(c).1,
    {
        reveal(CPU::step);
        reveal(CPU::execute);
        let (opcode, fetched) = Self::next_byte(c);
        Self::lemma_run_accesses(
            fetched,
            operation_of(opcode).unwrap(),
            mode_of(opcode),
            base_cycles(opcode),
        );
        Self::lemma_table_counts_accesses(fetched, opcode);
        Self::lemma_cycles_follow_reference(fetched, opcode);
    }
}

} // verus!
