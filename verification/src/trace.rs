use crate::bus::CpuBus;
use vstd::prelude::*;

verus! {

/// One bus access: the address, the byte that was read or written, and which
/// of the two it was.
#[derive(Clone, Copy, Debug, PartialEq, Eq, Structural)]
pub struct Cycle {
    pub addr: u16,
    pub value: u8,
    pub write: bool,
}

/// A bus that is nothing but 64 KiB of RAM, and that keeps a record of every
/// access made to it. It has no interrupt sources.
pub struct TraceBus {
    pub ram: Vec<u8>,
    pub cycles: Vec<Cycle>,
}

/// Mathematical content of a [`TraceBus`].
pub struct TraceState {
    pub ram: Seq<u8>,
    pub cycles: Seq<Cycle>,
}

impl View for TraceBus {
    type V = TraceState;

    open spec fn view(&self) -> TraceState {
        TraceState { ram: self.ram@, cycles: self.cycles@ }
    }
}

impl TraceState {
    /// The state after a read of `addr`: memory is as before and the record
    /// is one read longer.
    pub open spec fn read(self, addr: u16) -> TraceState {
        TraceState {
            cycles: self.cycles.push(
                Cycle { addr, value: self.ram[addr as int], write: false },
            ),
            ..self
        }
    }

    /// The state after a write: the byte is stored and the record is one
    /// write longer.
    pub open spec fn write(self, addr: u16, val: u8) -> TraceState {
        TraceState {
            ram: self.ram.update(addr as int, val),
            cycles: self.cycles.push(Cycle { addr, value: val, write: true }),
        }
    }
}

impl TraceBus {
    /// A zeroed memory with an empty record.
    pub fn new() -> (r: Self)
        ensures
            r@.ram == Seq::new(0x10000, |i: int| 0u8),
            r@.cycles == Seq::<Cycle>::empty(),
            r.ram@.len() == 0x10000,
    {
        let r = TraceBus { ram: vec![0u8; 0x10000], cycles: Vec::new() };
        assert(r@.ram =~= Seq::new(0x10000, |i: int| 0u8));
        r
    }
}

impl CpuBus for TraceBus {
    open spec fn wf(&self) -> bool {
        self.ram@.len() == 0x10000
    }

    open spec fn read_value(m: TraceState, addr: u16) -> u8 {
        m.ram[addr as int]
    }

    open spec fn after_read(m: TraceState, addr: u16) -> TraceState {
        m.read(addr)
    }

    open spec fn after_write(m: TraceState, addr: u16, val: u8) -> TraceState {
        m.write(addr, val)
    }

    open spec fn nmi_pending(m: TraceState) -> bool {
        false
    }

    open spec fn nmi_cleared(m: TraceState) -> TraceState {
        m
    }

    open spec fn irq_asserted(m: TraceState) -> bool {
        false
    }

    fn read(&mut self, addr: u16) -> (val: u8) {
        let val = self.ram[addr as usize];
        self.cycles.push(Cycle { addr, value: val, write: false });
        val
    }

    fn write(&mut self, addr: u16, val: u8) {
        self.cycles.push(Cycle { addr, value: val, write: true });
        self.ram.set(addr as usize, val);
    }

    fn take_nmi(&mut self) -> (pending: bool) {
        false
    }

    fn irq_line(&self) -> (asserted: bool) {
        false
    }
}

} // verus!
