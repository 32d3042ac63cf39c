use crate::alu::{has_flag, set_status_flag, set_status_zn, status_has, with_flag, with_zn};
use crate::bus::{Bus, BusState, CpuBus};
use vstd::prelude::*;

verus! {

/// How an instruction names its operand.
#[derive(Clone, Copy, Debug, PartialEq, Eq, Structural)]
pub enum AddressMode {
    Accumulator,
    Immediate,
    ZeroPage,
    ZeroPageX,
    ZeroPageY,
    Absolute,
    AbsoluteX,
    AbsoluteY,
    Indirect,
    IndirectX,
    IndirectY,
    Relative,
}

/// One of the three data registers.
#[derive(Clone, Copy, Debug, PartialEq, Eq, Structural)]
pub enum Register {
    A,
    X,
    Y,
}

/// The processor: its registers and the bus it drives.
pub struct CPU<B: CpuBus> {
    pub a: u8,
    pub x: u8,
    pub y: u8,
    /// Low byte of the stack address; the stack lives in page 0x01.
    pub sp: u8,
    pub pc: u16,
    pub status: u8,
    /// Set by a halting opcode; a halted processor does nothing until reset.
    pub halted: bool,
    pub bus: B,
}

/// Mathematical content of a [`CPU`]: the registers and the state of the bus.
pub struct CpuState<V> {
    pub a: u8,
    pub x: u8,
    pub y: u8,
    pub sp: u8,
    pub pc: u16,
    pub status: u8,
    pub halted: bool,
    pub bus: V,
}

impl<B: CpuBus> View for CPU<B> {
    type V = CpuState<B::V>;

    open spec fn view(&self) -> CpuState<B::V> {
        CpuState {
            a: self.a,
            x: self.x,
            y: self.y,
            sp: self.sp,
            pc: self.pc,
            status: self.status,
            halted: self.halted,
            bus: self.bus@,
        }
    }
}

/// The two addresses lie in different 256-byte pages.
pub open spec fn page_crossed(base: u16, effective: u16) -> bool {
    (base & 0xFF00) != (effective & 0xFF00)
}

/// The address with the page of `base` and the offset of `effective`: where
/// the processor looks before it has fixed up the high byte.
pub open spec fn uncorrected(base: u16, effective: u16) -> u16 {
    (base & 0xFF00) | (effective & 0x00FF)
}

/// A 16-bit word from its two bytes.
pub open spec fn word(low: u8, high: u8) -> u16 {
    ((high as u16) << 8) | (low as u16)
}

/// The stack address for a stack pointer.
pub open spec fn stack_address(sp: u8) -> u16 {
    (0x0100 + sp) as u16
}

impl Register {
    pub open spec fn of<V>(self, c: CpuState<V>) -> u8 {
        match self {
            Register::A => c.a,
            Register::X => c.x,
            Register::Y => c.y,
        }
    }

    pub open spec fn put<V>(self, c: CpuState<V>, val: u8) -> CpuState<V> {
        match self {
            Register::A => CpuState { a: val, ..c },
            Register::X => CpuState { x: val, ..c },
            Register::Y => CpuState { y: val, ..c },
        }
    }

    pub fn get<B: CpuBus>(&self, cpu: &CPU<B>) -> (r: u8)
        ensures
            r == self.of(cpu@),
    {
        match self {
            Register::A => cpu.a,
            Register::X => cpu.x,
            Register::Y => cpu.y,
        }
    }

    /// A handle on the register: what is written through it is what the
    /// register holds afterwards, and nothing else changes.
    pub fn get_mut<'a, B: CpuBus>(&self, cpu: &'a mut CPU<B>) -> (r: &'a mut u8)
        ensures
            *r == self.of(old(cpu)@),
            final(cpu)@ == self.put(old(cpu)@, *final(r)),
            final(cpu).bus == old(cpu).bus,
    {
        match self {
            Register::A => &mut cpu.a,
            Register::X => &mut cpu.x,
            Register::Y => &mut cpu.y,
        }
    }
}

impl<B: CpuBus> CPU<B> {
    pub open spec fn wf(&self) -> bool {
        self.bus.wf()
    }

    /// A bus read: the byte and the state afterwards.
    pub open spec fn load(c: CpuState<B::V>, addr: u16) -> (u8, CpuState<B::V>) {
        (B::read_value(c.bus, addr), CpuState { bus: B::after_read(c.bus, addr), ..c })
    }

    /// A bus read whose byte is thrown away.
    pub open spec fn touch(c: CpuState<B::V>, addr: u16) -> CpuState<B::V> {
        Self::load(c, addr).1
    }

    /// A bus write.
    pub open spec fn store(c: CpuState<B::V>, addr: u16, val: u8) -> CpuState<B::V> {
        CpuState { bus: B::after_write(c.bus, addr, val), ..c }
    }

    /// The word at `addr`, low byte first; the second address wraps.
    pub open spec fn load_word(c: CpuState<B::V>, addr: u16) -> (u16, CpuState<B::V>) {
        let (low, first) = Self::load(c, addr);
        let (high, second) = Self::load(first, addr.wrapping_add(1));
        (word(low, high), second)
    }

    /// The byte at the program counter, which then moves on.
    pub open spec fn next_byte(c: CpuState<B::V>) -> (u8, CpuState<B::V>) {
        let (val, read) = Self::load(c, c.pc);
        (val, CpuState { pc: c.pc.wrapping_add(1), ..read })
    }

    /// The word at the program counter, which then moves on by two.
    pub open spec fn next_word(c: CpuState<B::V>) -> (u16, CpuState<B::V>) {
        let (low, first) = Self::next_byte(c);
        let (high, second) = Self::next_byte(first);
        (word(low, high), second)
    }

    /// A push: the byte goes to the stack address, then the pointer drops.
    pub open spec fn pushed(c: CpuState<B::V>, val: u8) -> CpuState<B::V> {
        CpuState { sp: c.sp.wrapping_sub(1), ..Self::store(c, stack_address(c.sp), val) }
    }

    /// A push of a word, high byte first.
    pub open spec fn pushed_word(c: CpuState<B::V>, val: u16) -> CpuState<B::V> {
        Self::pushed(Self::pushed(c, (val >> 8) as u8), (val & 0xFF) as u8)
    }

    /// A pull: the pointer rises, then the byte is read.
    pub open spec fn pulled(c: CpuState<B::V>) -> (u8, CpuState<B::V>) {
        Self::load(CpuState { sp: c.sp.wrapping_add(1), ..c }, stack_address(c.sp.wrapping_add(1)))
    }

    /// A pull of a word, low byte first.
    pub open spec fn pulled_word(c: CpuState<B::V>) -> (u16, CpuState<B::V>) {
        let (low, first) = Self::pulled(c);
        let (high, second) = Self::pulled(first);
        (word(low, high), second)
    }

    /// The end of an indexed address calculation. When adding the index
    /// changes the page, the processor first reads from the uncorrected
    /// address and the access costs a cycle more.
    pub open spec fn indexed(c: CpuState<B::V>, base: u16, index: u8) -> (
        u16,
        i32,
        CpuState<B::V>,
    ) {
        let effective = base.wrapping_add(index as u16);
        if page_crossed(base, effective) {
            (effective, 1, Self::touch(c, uncorrected(base, effective)))
        } else {
            (effective, 0, c)
        }
    }

    /// Effective address and page-crossing penalty of an operand, and the
    /// state after the operand bytes were fetched and the pointers followed.
    ///
    /// An immediate operand is the byte at the program counter itself. The
    /// zero-page indexed modes wrap within page zero and read once from the
    /// unindexed address. The indirect modes fetch their pointer from page
    /// zero with wrap-around; the indirect jump pointer wraps within its own
    /// page. A relative operand is the branch target. The accumulator names
    /// no address.
    pub open spec fn resolve(c: CpuState<B::V>, mode: AddressMode) -> (
        u16,
        i32,
        CpuState<B::V>,
    ) {
        match mode {
            AddressMode::Accumulator => (0, 0, c),
            AddressMode::Immediate => (c.pc, 0, CpuState { pc: c.pc.wrapping_add(1), ..c }),
            AddressMode::ZeroPage => {
                let (addr, c1) = Self::next_byte(c);
                (addr as u16, 0, c1)
            },
            AddressMode::ZeroPageX => {
                let (base, c1) = Self::next_byte(c);
                (base.wrapping_add(c.x) as u16, 0, Self::touch(c1, base as u16))
            },
            AddressMode::ZeroPageY => {
                let (base, c1) = Self::next_byte(c);
                (base.wrapping_add(c.y) as u16, 0, Self::touch(c1, base as u16))
            },
            AddressMode::Absolute => {
                let (addr, c1) = Self::next_word(c);
                (addr, 0, c1)
            },
            AddressMode::AbsoluteX => {
                let (base, c1) = Self::next_word(c);
                Self::indexed(c1, base, c.x)
            },
            AddressMode::AbsoluteY => {
                let (base, c1) = Self::next_word(c);
                Self::indexed(c1, base, c.y)
            },
            AddressMode::Indirect => {
                let (pointer, c1) = Self::next_word(c);
                let (low, c2) = Self::load(c1, pointer);
                let (high, c3) = Self::load(c2, uncorrected(pointer, pointer.wrapping_add(1)));
                (word(low, high), 0, c3)
            },
            AddressMode::IndirectX => {
                let (base, c1) = Self::next_byte(c);
                let pointer = base.wrapping_add(c.x);
                let (low, c2) = Self::load(Self::touch(c1, base as u16), pointer as u16);
                let (high, c3) = Self::load(c2, pointer.wrapping_add(1) as u16);
                (word(low, high), 0, c3)
            },
            AddressMode::IndirectY => {
                let (pointer, c1) = Self::next_byte(c);
                let (low, c2) = Self::load(c1, pointer as u16);
                let (high, c3) = Self::load(c2, pointer.wrapping_add(1) as u16);
                Self::indexed(c3, word(low, high), c.y)
            },
            AddressMode::Relative => {
                let (offset, c1) = Self::next_byte(c);
                let target = c1.pc.wrapping_add_signed((offset as i8) as i16);
                (
                    target,
                    if page_crossed(c1.pc, target) {
                        1i32
                    } else {
                        0i32
                    },
                    c1,
                )
            },
        }
    }

    /// The registers after a reset, with the program counter loaded from the
    /// vector at 0xFFFC.
    pub open spec fn reset_state(c: CpuState<B::V>) -> CpuState<B::V> {
        let (vector, read) = Self::load_word(c, 0xFFFC);
        CpuState { a: 0, x: 0, y: 0, sp: 0xFD, status: 0x24, halted: false, pc: vector, ..read }
    }

    /// A processor on `bus`, reset.
    pub fn new(bus: B) -> (r: Self)
        requires
            bus.wf(),
        ensures
            r.wf(),
            r@ == Self::reset_state(
                CpuState {
                    a: 0,
                    x: 0,
                    y: 0,
                    sp: 0,
                    pc: 0,
                    status: 0,
                    halted: false,
                    bus: bus@,
                },
            ),
    {
        let mut cpu = CPU { a: 0, x: 0, y: 0, sp: 0, pc: 0, status: 0, halted: false, bus };
        cpu.reset();
        cpu
    }

    /// A = X = Y = 0, S = 0xFD, P = 0x24, PC from the reset vector.
    pub fn reset(&mut self)
        requires
            old(self).wf(),
        ensures
            final(self).wf(),
            final(self)@ == Self::reset_state(old(self)@),
    {
        self.a = 0;
        self.x = 0;
        self.y = 0;
        self.sp = 0xFD;
        self.status = 0x24;
        self.halted = false;
        self.pc = self.read_word(0xFFFC);
    }

    pub fn set_flag(&mut self, flag: u8, to_set: bool)
        ensures
            final(self)@ == (CpuState {
                status: with_flag(old(self).status, flag, to_set),
                ..old(self)@
            }),
            final(self).bus == old(self).bus,
    {
        self.status = set_status_flag(self.status, flag, to_set);
    }

    pub fn get_flag(&self, flag: u8) -> (r: bool)
        ensures
            r == has_flag(self.status, flag),
    {
        status_has(self.status, flag)
    }

    pub fn set_zn(&mut self, val: u8)
        ensures
            final(self)@ == (CpuState { status: with_zn(old(self).status, val), ..old(self)@ }),
            final(self).bus == old(self).bus,
    {
        self.status = set_status_zn(self.status, val);
    }

    pub fn read(&mut self, addr: u16) -> (val: u8)
        requires
            old(self).wf(),
        ensures
            final(self).wf(),
            (val, final(self)@) == Self::load(old(self)@, addr),
    {
        self.bus.read(addr)
    }

    pub fn write(&mut self, addr: u16, val: u8)
        requires
            old(self).wf(),
        ensures
            final(self).wf(),
            final(self)@ == Self::store(old(self)@, addr, val),
    {
        self.bus.write(addr, val)
    }

    pub fn read_word(&mut self, addr: u16) -> (val: u16)
        requires
            old(self).wf(),
        ensures
            final(self).wf(),
            (val, final(self)@) == Self::load_word(old(self)@, addr),
    {
        let low = self.read(addr);
        let high = self.read(addr.wrapping_add(1));
        ((high as u16) << 8) | (low as u16)
    }

    pub fn fetch(&mut self) -> (val: u8)
        requires
            old(self).wf(),
        ensures
            final(self).wf(),
            (val, final(self)@) == Self::next_byte(old(self)@),
    {
        let result = self.read(self.pc);
        self.pc = self.pc.wrapping_add(1);
        result
    }

    pub fn fetch_word(&mut self) -> (val: u16)
        requires
            old(self).wf(),
        ensures
            final(self).wf(),
            (val, final(self)@) == Self::next_word(old(self)@),
    {
        let low = self.fetch();
        let high = self.fetch();
        ((high as u16) << 8) | (low as u16)
    }

    pub fn push(&mut self, val: u8)
        requires
            old(self).wf(),
        ensures
            final(self).wf(),
            final(self)@ == Self::pushed(old(self)@, val),
    {
        self.write(0x0100 + self.sp as u16, val);
        self.sp = self.sp.wrapping_sub(1);
    }

    pub fn pop(&mut self) -> (val: u8)
        requires
            old(self).wf(),
        ensures
            final(self).wf(),
            (val, final(self)@) == Self::pulled(old(self)@),
    {
        self.sp = self.sp.wrapping_add(1);
        self.read(0x0100 + self.sp as u16)
    }

    pub fn push_word(&mut self, val: u16)
        requires
            old(self).wf(),
        ensures
            final(self).wf(),
            final(self)@ == Self::pushed_word(old(self)@, val),
    {
        self.push((val >> 8) as u8);
        self.push((val & 0xFF) as u8);
    }

    pub fn pop_word(&mut self) -> (val: u16)
        requires
            old(self).wf(),
        ensures
            final(self).wf(),
            (val, final(self)@) == Self::pulled_word(old(self)@),
    {
        let low = self.pop();
        let high = self.pop();
        ((high as u16) << 8) | (low as u16)
    }

    fn index(&mut self, base: u16, index: u8) -> (r: (u16, i32))
        requires
            old(self).wf(),
        ensures
            final(self).wf(),
            (r.0, r.1, final(self)@) == Self::indexed(old(self)@, base, index),
    {
        let effective = base.wrapping_add(index as u16);
        if AddressMode::get_crosspage_penalty(base, effective) == 1 {
            let _ = self.read((base & 0xFF00) | (effective & 0x00FF));
            (effective, 1)
        } else {
            (effective, 0)
        }
    }
}

impl CPU<Bus> {
    /// A processor on a fresh console bus with an empty cartridge slot.
    pub fn init() -> (r: Self)
        ensures
            r.wf(),
            r@ == (CpuState {
                a: 0,
                x: 0,
                y: 0,
                sp: 0xFD,
                pc: 0,
                status: 0x24,
                halted: false,
                bus: BusState::power_on(),
            }),
    {
        let cpu = CPU::new(Bus::init());
        assert(word(0, 0) == 0) by (bit_vector);
        cpu
    }
}

impl AddressMode {
    /// 1 when the two addresses lie in different pages, else 0.
    pub fn get_crosspage_penalty(base: u16, effective: u16) -> (r: i32)
        ensures
            r == if page_crossed(base, effective) {
                1i32
            } else {
                0i32
            },
    {
        if (base & 0xFF00) != (effective & 0xFF00) {
            1
        } else {
            0
        }
    }

    /// Fetches the operand bytes of this mode and follows its pointers.
    /// Returns the effective address and the page-crossing penalty.
    pub fn decode<B: CpuBus>(self, cpu: &mut CPU<B>) -> (r: (u16, i32))
        requires
            old(cpu).wf(),
        ensures
            final(cpu).wf(),
            (r.0, r.1, final(cpu)@) == CPU::<B>::resolve(old(cpu)@, self),
    {
        match self {
            AddressMode::Accumulator => (0, 0),
            AddressMode::Immediate => {
                let result = (cpu.pc, 0);
                cpu.pc = cpu.pc.wrapping_add(1);
                result
            },
            AddressMode::ZeroPage => {
                let addr = cpu.fetch() as u16;
                (addr, 0)
            },
            AddressMode::ZeroPageX => {
                let x = cpu.x;
                let base = cpu.fetch();
                let _ = cpu.read(base as u16);
                (base.wrapping_add(x) as u16, 0)
            },
            AddressMode::ZeroPageY => {
                let y = cpu.y;
                let base = cpu.fetch();
                let _ = cpu.read(base as u16);
                (base.wrapping_add(y) as u16, 0)
            },
            AddressMode::Absolute => {
                let addr = cpu.fetch_word();
                (addr, 0)
            },
            AddressMode::AbsoluteX => {
                let x = cpu.x;
                let base = cpu.fetch_word();
                cpu.index(base, x)
            },
            AddressMode::AbsoluteY => {
                let y = cpu.y;
                let base = cpu.fetch_word();
                cpu.index(base, y)
            },
            AddressMode::Indirect => {
                let pointer = cpu.fetch_word();
                let low = cpu.read(pointer);
                let high = cpu.read((pointer & 0xFF00) | (pointer.wrapping_add(1) & 0x00FF));
                (((high as u16) << 8) | (low as u16), 0)
            },
            AddressMode::IndirectX => {
                let x = cpu.x;
                let base = cpu.fetch();
                let _ = cpu.read(base as u16);
                let pointer = base.wrapping_add(x);
                let low = cpu.read(pointer as u16);
                let high = cpu.read(pointer.wrapping_add(1) as u16);
                (((high as u16) << 8) | (low as u16), 0)
            },
            AddressMode::IndirectY => {
                let y = cpu.y;
                let pointer = cpu.fetch();
                let low = cpu.read(pointer as u16);
                let high = cpu.read(pointer.wrapping_add(1) as u16);
                cpu.index(((high as u16) << 8) | (low as u16), y)
            },
            AddressMode::Relative => {
                let offset = cpu.fetch();
                let target = cpu.pc.wrapping_add_signed((offset as i8) as i16);
                (target, Self::get_crosspage_penalty(cpu.pc, target))
            },
        }
    }
}

} // verus!
