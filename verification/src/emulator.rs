use crate::bus::{Bus, BusState};
use crate::cartridge::{rom_is_valid, parse_rom, Cartridge, LoadError};
use crate::cpu::{CpuState, CPU};
use crate::mapper::{Mapper, MapperState, Mmc1State};
use crate::palette::color_bytes;
use crate::ppu::SCREEN_PIXELS;
use vstd::prelude::*;

verus! {

/// CPU cycles in one video frame.
pub const FRAME_CYCLES: i32 = 29781;

/// The console: the processor with everything on its bus, and whether a
/// cartridge is in the slot.
pub struct Emulator {
    pub cpu: CPU<Bus>,
    pub cartridge_loaded: bool,
}

/// Mathematical content of an [`Emulator`].
pub struct EmulatorState {
    pub cpu: CpuState<BusState>,
    pub cartridge_loaded: bool,
}

impl View for Emulator {
    type V = EmulatorState;

    open spec fn view(&self) -> EmulatorState {
        EmulatorState { cpu: self.cpu@, cartridge_loaded: self.cartridge_loaded }
    }
}

/// The mapper state a ROM image starts with, for the mappers implemented.
pub open spec fn mapper_for(rom: Seq<u8>) -> MapperState {
    if parse_rom(rom).mapper_id == 0 {
        MapperState::Mapper0(parse_rom(rom))
    } else {
        MapperState::Mapper1(Mmc1State::initial(parse_rom(rom)))
    }
}

/// The image is valid and names mapper 0 or 1.
pub open spec fn rom_is_supported(rom: Seq<u8>) -> bool {
    rom_is_valid(rom) && (parse_rom(rom).mapper_id == 0 || parse_rom(rom).mapper_id == 1)
}

/// The pixels as bytes: four per pixel, red first.
pub open spec fn frame_bytes(pixels: Seq<u32>) -> Seq<u8> {
    Seq::new(4 * pixels.len(), |i: int| color_bytes(pixels[i / 4])[i % 4])
}

impl EmulatorState {
    /// One round of the frame loop: the processor takes a step, the picture
    /// unit runs three dots for each cycle of it, and the stall cycles a DMA
    /// left on the bus are collected. A halted processor counts as one cycle
    /// so that the picture unit keeps running. Returns the state and the
    /// cycles that passed.
    #[verifier::opaque]
    pub open spec fn round(c: CpuState<BusState>) -> (CpuState<BusState>, int) {
        let (stepped, cycles) = CPU::<Bus>::step(c);
        let spent: int = if cycles < 1 {
            1
        } else {
            cycles as int
        };
        let ticked = stepped.bus.ticks((3 * spent) as nat);
        (
            CpuState { bus: BusState { extra_cycles: 0, ..ticked }, ..stepped },
            spent + ticked.extra_cycles,
        )
    }

    /// The state once `cycles` has reached a frame's worth of CPU cycles.
    pub open spec fn run_from(c: CpuState<BusState>, cycles: int) -> CpuState<BusState>
        decreases
            (if cycles < FRAME_CYCLES {
                FRAME_CYCLES - cycles
            } else {
                0
            }),
    {
        if cycles >= FRAME_CYCLES || Self::round(c).1 <= 0 {
            c
        } else {
            Self::run_from(Self::round(c).0, cycles + Self::round(c).1)
        }
    }

    /// The state after one frame. Without a cartridge nothing runs.
    pub open spec fn frame(self) -> EmulatorState {
        if self.cartridge_loaded {
            EmulatorState { cpu: Self::run_from(self.cpu, 0), ..self }
        } else {
            self
        }
    }

    /// A console fresh from the box: the processor reset on a bus with an
    /// empty cartridge slot, which reads as zero everywhere.
    pub open spec fn power_on() -> EmulatorState {
        EmulatorState {
            cpu: CpuState {
                a: 0,
                x: 0,
                y: 0,
                sp: 0xFD,
                pc: 0,
                status: 0x24,
                halted: false,
                bus: BusState::power_on(),
            },
            cartridge_loaded: false,
        }
    }

    /// The state with the controller byte replaced.
    pub open spec fn with_controller(self, buttons: u8) -> EmulatorState {
        EmulatorState {
            cpu: CpuState {
                bus: BusState {
                    input: crate::input::Input { controller_state: buttons, ..self.cpu.bus.input },
                    ..self.cpu.bus
                },
                ..self.cpu
            },
            ..self
        }
    }

    /// The state after a reset: the bus is reset, then the processor.
    pub open spec fn reset(self) -> EmulatorState {
        EmulatorState {
            cpu: CPU::<Bus>::reset_state(CpuState { bus: self.cpu.bus.reset(), ..self.cpu }),
            ..self
        }
    }

    /// The state after a supported ROM image was loaded: the bus is reset
    /// with the cartridge in its slot, then the processor is reset.
    pub open spec fn loaded(self, rom: Seq<u8>) -> EmulatorState {
        EmulatorState {
            cpu: CPU::<Bus>::reset_state(
                CpuState {
                    bus: BusState { cartridge: mapper_for(rom), ..self.cpu.bus.reset() },
                    ..self.cpu
                },
            ),
            cartridge_loaded: true,
        }
    }

    /// The finished frames of a run: before each frame the controller byte
    /// is set to the next input, and after it the finished frame is noted.
    pub open spec fn play(self, inputs: Seq<u8>) -> Seq<Seq<u32>>
        decreases inputs.len(),
    {
        if inputs.len() == 0 {
            Seq::empty()
        } else {
            let next = self.with_controller(inputs[0]).frame();
            seq![next.cpu.bus.ppu.frame_buffer] + next.play(inputs.subrange(1, inputs.len() as int))
        }
    }
}

/// A run is determined by the ROM and by what the controller does. Loading
/// a ROM wipes everything but palette RAM and the frame being drawn; so two
/// consoles that agree on those two, whatever else they went through, show
/// the same frames once they load the same ROM and are fed the same inputs.
pub proof fn lemma_frames_are_determined(
    a: EmulatorState,
    b: EmulatorState,
    rom: Seq<u8>,
    inputs: Seq<u8>,
)
    requires
        a.cpu.bus.ppu.palette_ram == b.cpu.bus.ppu.palette_ram,
        a.cpu.bus.ppu.back_buffer == b.cpu.bus.ppu.back_buffer,
    ensures
        a.loaded(rom) == b.loaded(rom),
        a.loaded(rom).play(inputs) == b.loaded(rom).play(inputs),
{
    let slot_a = BusState { cartridge: mapper_for(rom), ..a.cpu.bus.reset() };
    let slot_b = BusState { cartridge: mapper_for(rom), ..b.cpu.bus.reset() };
    assert(slot_a == slot_b);
}

/// Resetting twice is resetting once: the second reset finds the bus as the
/// first left it and reads the same vector.
pub proof fn lemma_reset_is_idempotent(e: EmulatorState)
    ensures
        e.reset().reset() == e.reset(),
{
    let bus = e.cpu.bus.reset();
    assert(bus.reset() == bus);
}

impl Emulator {
    pub open spec fn wf(&self) -> bool {
        self.cpu.wf()
    }

    /// A console with an empty cartridge slot.
    pub fn new() -> (r: Self)
        ensures
            r.wf(),
            r@ == EmulatorState::power_on(),
    {
        Emulator { cpu: CPU::init(), cartridge_loaded: false }
    }

    /// Loads a ROM image and resets the console. An image that is not valid
    /// or names a mapper other than 0 and 1 is refused, and the console
    /// stays as it was.
    pub fn load_cartridge(&mut self, rom: Vec<u8>) -> (r: Result<(), LoadError>)
        requires
            old(self).wf(),
        ensures
            final(self).wf(),
            match r {
                Ok(_) => rom_is_supported(rom@) && final(self)@ == old(self)@.loaded(rom@),
                Err(e) => !rom_is_supported(rom@) && *final(self) == *old(self) && e == (
                if rom_is_valid(rom@) {
                    LoadError::UnsupportedMapper
                } else {
                    LoadError::InvalidRomFormat
                }),
            },
    {
        match Cartridge::from_bytes(rom) {
            Err(e) => Err(e),
            Ok(cart) => {
                match Mapper::with_cart(cart) {
                    Err(e) => Err(e),
                    Ok(mapper) => {
                        self.cpu.bus.load_cartridge(mapper);
                        self.cpu.reset();
                        self.cartridge_loaded = true;
                        Ok(())
                    },
                }
            },
        }
    }

    pub fn reset(&mut self)
        requires
            old(self).wf(),
        ensures
            final(self).wf(),
            final(self)@ == old(self)@.reset(),
    {
        self.cpu.bus.reset();
        self.cpu.reset();
    }

    /// Sets the buttons held: bit 0 is A, then B, Select, Start, Up, Down,
    /// Left, and bit 7 is Right.
    pub fn set_controller(&mut self, buttons: u8)
        requires
            old(self).wf(),
        ensures
            final(self).wf(),
            final(self)@ == old(self)@.with_controller(buttons),
    {
        self.cpu.bus.input.controller_state = buttons;
    }

    /// One round of the frame loop; returns the CPU cycles that passed.
    pub fn step(&mut self) -> (passed: i32)
        requires
            old(self).wf(),
        ensures
            final(self).wf(),
            final(self).cartridge_loaded == old(self).cartridge_loaded,
            1 <= passed <= 9 + 513,
            (final(self).cpu@, passed as int) == EmulatorState::round(old(self).cpu@),
    {
        reveal(EmulatorState::round);
        let consumed = self.cpu.execute_instruction();
        let spent: i32 = if consumed < 1 {
            1
        } else {
            consumed
        };
        self.cpu.bus.tick_ppu(3 * spent);
        let passed = spent + self.cpu.bus.extra_cycles;
        self.cpu.bus.extra_cycles = 0;
        passed
    }

    /// Runs the console for one frame.
    pub fn step_frame(&mut self)
        requires
            old(self).wf(),
        ensures
            final(self).wf(),
            final(self)@ == old(self)@.frame(),
    {
        if !self.cartridge_loaded {
            return ;
        }
        let mut cycles: i32 = 0;
        while cycles < FRAME_CYCLES
            invariant
                self.wf(),
                self.cartridge_loaded == old(self).cartridge_loaded,
                0 <= cycles <= FRAME_CYCLES + 9 + 513,
                EmulatorState::run_from(self.cpu@, cycles as int) == EmulatorState::run_from(
                    old(self).cpu@,
                    0,
                ),
            decreases
                (if cycles < FRAME_CYCLES {
                    FRAME_CYCLES - cycles
                } else {
                    0
                }),
        {
            let passed = self.step();
            cycles = cycles + passed;
        }
    }

    /// The last finished frame as 256 x 240 pixels of four bytes each: red,
    /// green, blue, alpha.
    pub fn framebuffer(&self) -> (bytes: Vec<u8>)
        requires
            self.wf(),
        ensures
            bytes@ == frame_bytes(self@.cpu.bus.ppu.frame_buffer),
            bytes@.len() == 4 * SCREEN_PIXELS,
    {
        let mut bytes: Vec<u8> = Vec::with_capacity(4 * SCREEN_PIXELS);
        let mut i: usize = 0;
        while i < SCREEN_PIXELS
            invariant
                self.wf(),
                i <= SCREEN_PIXELS,
                bytes@.len() == 4 * i,
                forall|k: int|
                    0 <= k < 4 * i ==> #[trigger] bytes@[k] == color_bytes(
                        self.cpu.bus.ppu.frame_buffer@[k / 4],
                    )[k % 4],
            decreases SCREEN_PIXELS - i,
        {
            let c = self.cpu.bus.ppu.frame_buffer[i];
            bytes.push((c >> 24) as u8);
            bytes.push(((c >> 16) & 0xFF) as u8);
            bytes.push(((c >> 8) & 0xFF) as u8);
            bytes.push((c & 0xFF) as u8);
            i += 1;
        }
        assert(bytes@ =~= frame_bytes(self@.cpu.bus.ppu.frame_buffer));
        bytes
    }
}

} // verus!
