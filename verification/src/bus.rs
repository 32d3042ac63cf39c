use crate::cartridge::zeros;
use crate::input::Input;
use crate::mapper::{Mapper, MapperState};
use crate::ppu::{PPURegisters, PpuState, PPU};
use vstd::prelude::*;

verus! {

/// What the CPU is plugged into: something that answers reads and writes on
/// a 16-bit address space and drives the two interrupt lines. Reads may
/// change state, so both a read and a write yield a new state.
pub trait CpuBus: View {
    spec fn wf(&self) -> bool;

    /// The byte a read of `addr` returns.
    spec fn read_value(m: Self::V, addr: u16) -> u8;

    /// The state after a read of `addr`.
    spec fn after_read(m: Self::V, addr: u16) -> Self::V;

    /// The state after `val` was written to `addr`.
    spec fn after_write(m: Self::V, addr: u16, val: u8) -> Self::V;

    /// An NMI edge is waiting to be served.
    spec fn nmi_pending(m: Self::V) -> bool;

    /// The state with the NMI edge consumed.
    spec fn nmi_cleared(m: Self::V) -> Self::V;

    /// The IRQ line is held low by some device.
    spec fn irq_asserted(m: Self::V) -> bool;

    fn read(&mut self, addr: u16) -> (val: u8)
        requires
            old(self).wf(),
        ensures
            final(self).wf(),
            val == Self::read_value(old(self)@, addr),
            final(self)@ == Self::after_read(old(self)@, addr),
    ;

    fn write(&mut self, addr: u16, val: u8)
        requires
            old(self).wf(),
        ensures
            final(self).wf(),
            final(self)@ == Self::after_write(old(self)@, addr, val),
    ;

    /// Samples the NMI edge and consumes it.
    fn take_nmi(&mut self) -> (pending: bool)
        requires
            old(self).wf(),
        ensures
            final(self).wf(),
            pending == Self::nmi_pending(old(self)@),
            final(self)@ == Self::nmi_cleared(old(self)@),
    ;

    /// Samples the IRQ level.
    fn irq_line(&self) -> (asserted: bool)
        requires
            self.wf(),
        ensures
            asserted == Self::irq_asserted(self@),
    ;
}

/// CPU cycles the CPU is stalled for by one sprite-memory DMA.
pub const DMA_STALL: i32 = 513;

/// The console's bus: 2 KiB of work RAM, the picture unit, the controller
/// port and the cartridge slot behind one address decoder.
pub struct Bus {
    pub cartridge: Mapper,
    pub input: Input,
    pub ram: Vec<u8>,
    pub ppu: PPU,
    pub irq: bool,
    pub nmi_request: bool,
    /// CPU cycles spent outside instructions since the orchestrator last
    /// collected them.
    pub extra_cycles: i32,
}

/// Mathematical content of a [`Bus`].
pub struct BusState {
    pub cartridge: MapperState,
    pub input: Input,
    pub ram: Seq<u8>,
    pub ppu: PpuState,
    pub irq: bool,
    pub nmi_request: bool,
    pub extra_cycles: i32,
}

impl View for Bus {
    type V = BusState;

    open spec fn view(&self) -> BusState {
        BusState {
            cartridge: self.cartridge@,
            input: self.input,
            ram: self.ram@,
            ppu: self.ppu@,
            irq: self.irq,
            nmi_request: self.nmi_request,
            extra_cycles: self.extra_cycles,
        }
    }
}

impl BusState {
    pub open spec fn wf(self) -> bool {
        &&& self.cartridge.wf()
        &&& self.ppu.wf()
        &&& self.ram.len() == 2048
        &&& 0 <= self.extra_cycles <= DMA_STALL
    }

    /// The byte a CPU read of `addr` returns and the state afterwards.
    ///
    /// 0x0000..=0x1FFF is work RAM repeated every 2 KiB; 0x2000..=0x3FFF is
    /// the eight picture unit registers repeated every 8 bytes; 0x4016 is
    /// the controller port; 0x6000..=0xFFFF is the cartridge. Everything
    /// else reads as 0.
    pub open spec fn read(self, addr: u16) -> (u8, BusState) {
        if addr == 0x4016 {
            (
                self.input.controller_shift & 0x01,
                BusState { input: self.input.after_read(), ..self },
            )
        } else if addr < 0x2000 {
            (self.ram[addr as int % 0x800], self)
        } else if addr < 0x4000 {
            let (val, ppu) = self.ppu.read_register(self.cartridge, addr);
            (val, BusState { ppu, ..self })
        } else if addr >= 0x6000 {
            (self.cartridge.cpu_read(addr), self)
        } else {
            (0, self)
        }
    }

    /// The state with one byte stored into sprite memory at the OAM address,
    /// which then moves on by one.
    pub open spec fn push_oam(self, val: u8) -> BusState {
        let (ppu, cartridge) = self.ppu.write_register(self.cartridge, 0x2004, val);
        BusState { ppu, cartridge, ..self }
    }

    /// The state after bytes `i..256` of the page at `base` were read over
    /// the bus, in order, each followed by its store into sprite memory.
    pub open spec fn dma_from(self, base: u16, i: int) -> BusState
        decreases 256 - i,
    {
        if i >= 256 || i < 0 {
            self
        } else {
            let (val, read) = self.read((base + i) as u16);
            read.push_oam(val).dma_from(base, i + 1)
        }
    }

    /// The state after a sprite-memory DMA from page `page`: 256 bytes
    /// starting at `page * 0x100` go to sprite memory starting at the OAM
    /// address, and the CPU owes 513 cycles.
    pub open spec fn oam_dma(self, page: u8) -> BusState {
        BusState { extra_cycles: DMA_STALL, ..self.dma_from((page as u16 * 256) as u16, 0) }
    }

    /// The state after the CPU wrote `val` to `addr`. Besides the regions
    /// that [`BusState::read`] lists, 0x4014 starts a sprite-memory DMA.
    pub open spec fn write(self, addr: u16, val: u8) -> BusState {
        if addr == 0x4016 {
            BusState { input: self.input.after_write(val), ..self }
        } else if addr == 0x4014 {
            self.oam_dma(val)
        } else if addr < 0x2000 {
            BusState { ram: self.ram.update(addr as int % 0x800, val), ..self }
        } else if addr < 0x4000 {
            let (ppu, cartridge) = self.ppu.write_register(self.cartridge, addr, val);
            BusState { ppu, cartridge, ..self }
        } else if addr >= 0x6000 {
            BusState { cartridge: self.cartridge.cpu_write(addr, val), ..self }
        } else {
            self
        }
    }

    /// The 16-bit word at `addr`, low byte first, and the state after the
    /// two reads. The second address wraps around the address space.
    pub open spec fn read_word(self, addr: u16) -> (u16, BusState) {
        let (low, first) = self.read(addr);
        let (high, second) = first.read(addr.wrapping_add(1));
        (((high as u16) << 8) | (low as u16), second)
    }

    /// The state after one dot of the picture unit. An NMI it raises is
    /// remembered until the CPU takes it.
    pub open spec fn tick(self) -> BusState {
        let (ppu, nmi) = self.ppu.tick(self.cartridge);
        BusState { ppu, nmi_request: self.nmi_request || nmi, ..self }
    }

    /// The state after `n` dots of the picture unit.
    pub open spec fn ticks(self, n: nat) -> BusState
        decreases n,
    {
        if n == 0 {
            self
        } else {
            self.tick().ticks((n - 1) as nat)
        }
    }

    /// A bus with an empty cartridge slot and everything at power-on.
    pub open spec fn power_on() -> BusState {
        BusState {
            cartridge: MapperState::Empty,
            input: Input { controller_state: 0, controller_shift: 0 },
            ram: zeros(2048),
            ppu: PpuState::power_on(),
            irq: false,
            nmi_request: false,
            extra_cycles: 0,
        }
    }

    /// The state after a reset: RAM, controller port, picture unit and
    /// interrupt lines go back to power-on; the cartridge stays as it is.
    pub open spec fn reset(self) -> BusState {
        BusState {
            cartridge: self.cartridge,
            input: Input { controller_state: 0, controller_shift: 0 },
            ram: zeros(2048),
            ppu: self.ppu.reset(),
            irq: false,
            nmi_request: false,
            extra_cycles: 0,
        }
    }
}

proof fn lemma_low_bits(x: u16)
    by (bit_vector)
    ensures
        x & 0x07FF == x % 0x0800,
        x & 0x0007 == x % 8,
{
}

/// Work RAM is mirrored: in 0x0000..=0x1FFF an address and its low eleven
/// bits read the same byte and leave the same state, whatever was written
/// before.
pub proof fn lemma_work_ram_is_mirrored(bus: BusState, x: u16)
    requires
        x <= 0x1FFF,
    ensures
        bus.read(x) == bus.read(x & 0x07FF),
{
    lemma_low_bits(x);
}

/// A byte written to work RAM is read back from the same address and from
/// each of its mirrors.
pub proof fn lemma_work_ram_round_trip(bus: BusState, x: u16, y: u16, val: u8)
    requires
        bus.wf(),
        x <= 0x1FFF,
        y <= 0x1FFF,
        x & 0x07FF == y & 0x07FF,
    ensures
        bus.write(x, val).read(y).0 == val,
{
    lemma_low_bits(x);
    lemma_low_bits(y);
}

/// The picture unit's registers are mirrored every eight bytes: in
/// 0x2000..=0x3FFF a read or a write of `x` is one of register
/// `0x2000 + (x & 7)`.
pub proof fn lemma_ppu_registers_are_mirrored(bus: BusState, x: u16, val: u8)
    requires
        0x2000 <= x <= 0x3FFF,
    ensures
        bus.read(x) == bus.read((0x2000 + (x & 0x0007)) as u16),
        bus.write(x, val) == bus.write((0x2000 + (x & 0x0007)) as u16, val),
{
    lemma_low_bits(x);
}

/// The shape of a bus in the middle of a sprite-memory DMA from work RAM:
/// `i` bytes went from the page to sprite memory, the OAM address moved on
/// by `i`, and nothing else changed.
pub open spec fn dma_progress(start: BusState, cur: BusState, page: u8, i: int) -> bool {
    let first = start.ppu.registers.oam_addr as int;
    &&& cur.ppu.oam_ram.len() == 256
    &&& cur == (BusState {
        ppu: PpuState {
            oam_ram: cur.ppu.oam_ram,
            registers: PPURegisters {
                oam_addr: ((first + i) % 256) as u8,
                ..start.ppu.registers
            },
            ..start.ppu
        },
        ..start
    })
    &&& forall|j: int|
        0 <= j < i ==> #[trigger] cur.ppu.oam_ram[(first + j) % 256] == start.ram[(page as int
            * 256 + j) % 0x800]
}

proof fn lemma_push_oam(bus: BusState, val: u8)
    ensures
        bus.push_oam(val) == (BusState {
            ppu: PpuState {
                oam_ram: bus.ppu.oam_ram.update(bus.ppu.registers.oam_addr as int, val),
                registers: PPURegisters {
                    oam_addr: bus.ppu.registers.oam_addr.wrapping_add(1),
                    ..bus.ppu.registers
                },
                ..bus.ppu
            },
            ..bus
        }),
{
}

proof fn lemma_distinct_cells(first: int, i: int, j: int)
    requires
        0 <= first < 256,
        0 <= j < i < 256,
    ensures
        (first + j) % 256 != (first + i) % 256,
        0 <= (first + j) % 256 < 256,
        0 <= (first + i) % 256 < 256,
{
}

proof fn lemma_dma_step(start: BusState, cur: BusState, page: u8, i: int)
    requires
        start.wf(),
        page < 0x20,
        0 <= i < 256,
        dma_progress(start, cur, page, i),
    ensures
        dma_progress(
            start,
            cur.read((page as u16 * 256 + i) as u16).1.push_oam(
                cur.read((page as u16 * 256 + i) as u16).0,
            ),
            page,
            i + 1,
        ),
{
    let first = start.ppu.registers.oam_addr as int;
    let addr = (page as u16 * 256 + i) as u16;
    let val = start.ram[(page as int * 256 + i) % 0x800];
    assert(cur.read(addr) == (val, cur));
    lemma_push_oam(cur, val);
    let next = cur.push_oam(val);
    let at = (first + i) % 256;
    assert(cur.ppu.registers.oam_addr == at);
    assert(cur.ppu.registers.oam_addr.wrapping_add(1) == ((first + i + 1) % 256) as u8);
    assert forall|j: int| 0 <= j < i + 1 implies #[trigger] next.ppu.oam_ram[(first + j) % 256]
        == start.ram[(page as int * 256 + j) % 0x800] by {
        if j < i {
            lemma_distinct_cells(first, i, j);
            assert(cur.ppu.oam_ram[(first + j) % 256] == start.ram[(page as int * 256 + j)
                % 0x800]);
        }
    }
}

proof fn lemma_dma_steps(start: BusState, cur: BusState, page: u8, i: int)
    requires
        start.wf(),
        page < 0x20,
        0 <= i <= 256,
        dma_progress(start, cur, page, i),
    ensures
        dma_progress(start, cur.dma_from((page as u16 * 256) as u16, i), page, 256),
    decreases 256 - i,
{
    if i < 256 {
        let addr = (page as u16 * 256 + i) as u16;
        lemma_dma_step(start, cur, page, i);
        lemma_dma_steps(start, cur.read(addr).1.push_oam(cur.read(addr).0), page, i + 1);
    }
}

/// A sprite-memory DMA from a page of work RAM fills all of sprite memory:
/// byte `j` of the page lands at the OAM address plus `j`, wrapping at 256.
/// The OAM address ends where it began, the CPU owes 513 cycles, and
/// nothing else on the bus changes.
pub proof fn lemma_dma_from_work_ram(bus: BusState, page: u8)
    requires
        bus.wf(),
        page < 0x20,
    ensures
        ({
            let after = bus.oam_dma(page);
            let first = bus.ppu.registers.oam_addr as int;
            &&& after == (BusState {
                extra_cycles: DMA_STALL,
                ppu: PpuState { oam_ram: after.ppu.oam_ram, ..bus.ppu },
                ..bus
            })
            &&& after.ppu.oam_ram.len() == 256
            &&& forall|j: int|
                0 <= j < 256 ==> #[trigger] after.ppu.oam_ram[(first + j) % 256] == bus.ram[(page as int
                    * 256 + j) % 0x800]
        }),
{
    lemma_dma_steps(bus, bus, page, 0);
}

impl Bus {
    pub open spec fn wf(&self) -> bool {
        &&& self.cartridge.wf()
        &&& self.ppu.wf()
        &&& self.ram@.len() == 2048
        &&& 0 <= self.extra_cycles <= DMA_STALL
    }

    /// A bus with an empty cartridge slot and everything at power-on.
    pub fn init() -> (r: Self)
        ensures
            r.wf(),
            r@ == BusState::power_on(),
    {
        let r = Bus {
            cartridge: Mapper::Empty,
            input: Input::new(),
            ram: vec![0u8; 2048],
            irq: false,
            nmi_request: false,
            ppu: PPU::new(),
            extra_cycles: 0,
        };
        assert(r.ram@ =~= zeros(2048));
        r
    }

    /// Resets the bus and puts `cartridge` into the slot.
    pub fn load_cartridge(&mut self, cartridge: Mapper)
        requires
            old(self).wf(),
            cartridge.wf(),
        ensures
            final(self).wf(),
            final(self)@ == (BusState { cartridge: cartridge@, ..old(self)@.reset() }),
    {
        self.reset();
        self.cartridge = cartridge;
    }

    pub fn reset(&mut self)
        requires
            old(self).wf(),
        ensures
            final(self).wf(),
            final(self)@ == old(self)@.reset(),
    {
        self.input.controller_state = 0;
        self.input.controller_shift = 0;
        self.ram = vec![0u8; 2048];
        self.irq = false;
        self.nmi_request = false;
        self.ppu.reset();
        self.extra_cycles = 0;
        assert(self.ram@ =~= zeros(2048));
    }

    pub fn read(&mut self, addr: u16) -> (val: u8)
        requires
            old(self).wf(),
        ensures
            final(self).wf(),
            (val, final(self)@) == old(self)@.read(addr),
    {
        if addr == 0x4016 {
            self.input.read()
        } else if addr < 0x2000 {
            self.ram[addr as usize % 0x800]
        } else if addr < 0x4000 {
            self.ppu.read_register(&self.cartridge, addr)
        } else if addr >= 0x6000 {
            self.cartridge.cpu_read(addr)
        } else {
            0
        }
    }

    pub fn read_word(&mut self, addr: u16) -> (word: u16)
        requires
            old(self).wf(),
        ensures
            final(self).wf(),
            (word, final(self)@) == old(self)@.read_word(addr),
    {
        let low = self.read(addr) as u16;
        let high = self.read(addr.wrapping_add(1)) as u16;
        (high << 8) | low
    }

    pub fn write(&mut self, addr: u16, val: u8)
        requires
            old(self).wf(),
        ensures
            final(self).wf(),
            final(self)@ == old(self)@.write(addr, val),
    {
        if addr == 0x4016 {
            self.input.write(val);
        } else if addr == 0x4014 {
            self.write_oam_dma(val);
        } else if addr < 0x2000 {
            self.ram.set(addr as usize % 0x800, val);
        } else if addr < 0x4000 {
            self.ppu.write_register(&mut self.cartridge, addr, val);
        } else if addr >= 0x6000 {
            self.cartridge.cpu_write(addr, val);
        }
    }

    /// Copies a page of CPU memory into sprite memory and charges the stall.
    pub fn write_oam_dma(&mut self, page: u8)
        requires
            old(self).wf(),
        ensures
            final(self).wf(),
            final(self)@ == old(self)@.oam_dma(page),
    {
        let base: u16 = page as u16 * 256;
        let mut i: u16 = 0;
        while i < 256
            invariant
                self.wf(),
                i <= 256,
                base == page as u16 * 256,
                self@.dma_from(base, i as int) == old(self)@.dma_from(base, 0),
            decreases 256 - i,
        {
            let val = self.read(base + i);
            self.ppu.write_register(&mut self.cartridge, 0x2004, val);
            i += 1;
        }
        self.extra_cycles = DMA_STALL;
    }

    /// Runs the picture unit for `elapsed_cycles` dots; none if the count is
    /// not positive.
    pub fn tick_ppu(&mut self, elapsed_cycles: i32)
        requires
            old(self).wf(),
        ensures
            final(self).wf(),
            final(self)@ == old(self)@.ticks(
                if elapsed_cycles > 0 {
                    elapsed_cycles as nat
                } else {
                    0
                },
            ),
    {
        let mut left: i32 = elapsed_cycles;
        while left > 0
            invariant
                self.wf(),
                left <= elapsed_cycles,
                self@.ticks(
                    if left > 0 {
                        left as nat
                    } else {
                        0
                    },
                ) == old(self)@.ticks(
                    if elapsed_cycles > 0 {
                        elapsed_cycles as nat
                    } else {
                        0
                    },
                ),
            decreases left,
        {
            self.ppu.step(&self.cartridge, &mut self.nmi_request, &mut self.irq);
            left -= 1;
        }
    }
}

impl CpuBus for Bus {
    open spec fn wf(&self) -> bool {
        Bus::wf(self)
    }

    open spec fn read_value(m: BusState, addr: u16) -> u8 {
        m.read(addr).0
    }

    open spec fn after_read(m: BusState, addr: u16) -> BusState {
        m.read(addr).1
    }

    open spec fn after_write(m: BusState, addr: u16, val: u8) -> BusState {
        m.write(addr, val)
    }

    open spec fn nmi_pending(m: BusState) -> bool {
        m.nmi_request
    }

    open spec fn nmi_cleared(m: BusState) -> BusState {
        BusState { nmi_request: false, ..m }
    }

    open spec fn irq_asserted(m: BusState) -> bool {
        m.irq
    }

    fn read(&mut self, addr: u16) -> (val: u8) {
        Bus::read(self, addr)
    }

    fn write(&mut self, addr: u16, val: u8) {
        Bus::write(self, addr, val)
    }

    fn take_nmi(&mut self) -> (pending: bool) {
        let pending = self.nmi_request;
        self.nmi_request = false;
        pending
    }

    fn irq_line(&self) -> (asserted: bool) {
        self.irq || self.cartridge.irq_pending()
    }
}

} // verus!
