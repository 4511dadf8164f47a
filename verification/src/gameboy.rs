//! The whole machine: processor and interconnect, stepped together.

use vstd::prelude::*;
use crate::cpu::{machine, DecodeError, Machine, CPU};
use crate::interconnect::{BusModel, Interconnect};
use crate::rom::Rom;
use crate::sink::VideoSink;

verus! {

/// Clock cycles in one machine cycle.
pub const CLOCKS_PER_MACHINE_CYCLE: usize = 4;

/// Clock cycles per second.
pub const CLOCK_SPEED: usize = 4194304;

/// Frames per second.
pub const FRAME_RATE: usize = 60;

/// How many times as fast the clock runs when the machine is overclocked.
pub const OVERCLOCK: usize = 10;

/// The clock cycles in one frame, at the true clock speed or overclocked.
pub open spec fn spec_cycles_per_frame(overclock: bool) -> usize {
    if overclock {
        ((CLOCK_SPEED * OVERCLOCK) / (FRAME_RATE as int)) as usize
    } else {
        CLOCK_SPEED / FRAME_RATE
    }
}

#[verifier::when_used_as_spec(spec_cycles_per_frame)]
pub fn cycles_per_frame(overclock: bool) -> (cycles: usize)
    ensures
        cycles == spec_cycles_per_frame(overclock),
        cycles == if overclock {
            699050usize
        } else {
            69905usize
        },
{
    if overclock {
        (CLOCK_SPEED / FRAME_RATE) * OVERCLOCK + ((CLOCK_SPEED % FRAME_RATE) * OVERCLOCK) / FRAME_RATE
    } else {
        CLOCK_SPEED / FRAME_RATE
    }
}

/// The machine.
pub struct GameBoy {
    pub interconnect: Interconnect,
    pub cpu: CPU,
}

/// What a step of the whole machine gives: the machine afterwards, the
/// frame handed over if one was finished, and the clock cycles it took or
/// the reason the processor could not go on.
pub struct Pumped {
    pub machine: Machine,
    pub frame: Option<Seq<u32>>,
    pub result: Result<usize, DecodeError>,
}

impl Machine {
    /// What a step of the whole machine gives: the processor takes a step,
    /// and every device that keeps time counts the clock cycles it took,
    /// four to the machine cycle. Where the processor cannot go on, the
    /// devices count nothing.
    pub open spec fn pumped(self) -> Pumped {
        match self.step().result {
            Ok(cycles) => Pumped {
                machine: Machine {
                    bus: self.step().machine.bus.tick((cycles * CLOCKS_PER_MACHINE_CYCLE) as nat),
                    ..self.step().machine
                },
                frame: self.step().machine.bus.gpu.tick(
                    (cycles * CLOCKS_PER_MACHINE_CYCLE) as nat,
                ).frame,
                result: Ok((cycles * CLOCKS_PER_MACHINE_CYCLE) as usize),
            },
            Err(error) => Pumped { machine: self.step().machine, frame: None, result: Err(error) },
        }
    }

    /// What running the machine gives until more than `budget` clock cycles
    /// are spent, `spent` of which are spent already: the machine
    /// afterwards, the last frame handed over, and the clock cycles spent in
    /// all, or the reason the processor could not go on.
    pub open spec fn run(self, spent: nat, budget: nat) -> Pumped
        decreases
            (if spent > budget {
                0
            } else {
                budget + 1 - spent
            }),
    {
        if spent > budget {
            Pumped { machine: self, frame: None, result: Ok(spent as usize) }
        } else {
            match self.pumped().result {
                Ok(cycles) => if cycles == 0 {
                    self.pumped()
                } else {
                    let rest = self.pumped().machine.run(spent + cycles as nat, budget);
                    Pumped {
                        frame: if rest.frame is Some {
                            rest.frame
                        } else {
                            self.pumped().frame
                        },
                        ..rest
                    }
                },
                Err(error) => self.pumped(),
            }
        }
    }
}

impl GameBoy {
    /// The machine as it is switched on with the cartridge `rom` in it.
    pub fn new(rom: Rom) -> (gameboy: GameBoy)
        ensures
            gameboy.interconnect@ == BusModel::initial(rom@),
            gameboy.cpu == CPU::spec_new(),
            gameboy.cpu.regs.wf(),
    {
        GameBoy { interconnect: Interconnect::new(rom), cpu: CPU::new() }
    }

    /// Steps the processor through its next instruction, lets every device
    /// count the clock cycles it took, and gives that number.
    pub fn step(&mut self, video_sink: &mut VideoSink) -> (result: Result<usize, DecodeError>)
        ensures
            machine(final(self).cpu, final(self).interconnect@) == machine(
                old(self).cpu,
                old(self).interconnect@,
            ).pumped().machine,
            result == machine(old(self).cpu, old(self).interconnect@).pumped().result,
            final(video_sink)@ == if machine(old(self).cpu, old(self).interconnect@).pumped().frame
                is Some {
                machine(old(self).cpu, old(self).interconnect@).pumped().frame
            } else {
                old(video_sink)@
            },
            result matches Ok(cycles) ==> 4 <= cycles <= 24,
            old(self).cpu.regs.wf() ==> final(self).cpu.regs.wf(),
    {
        match self.cpu.step(&mut self.interconnect) {
            Ok(machine_cycles) => {
                let cycles: usize = machine_cycles * CLOCKS_PER_MACHINE_CYCLE;
                self.interconnect.cycles(cycles, video_sink);
                Ok(cycles)
            },
            Err(error) => Err(error),
        }
    }

    /// Runs the machine until more than `budget` clock cycles are spent, and
    /// gives the number spent. A frame that is finished on the way goes to
    /// `video_sink`.
    pub fn run_frame(&mut self, video_sink: &mut VideoSink, budget: usize) -> (result: Result<
        usize,
        DecodeError,
    >)
        requires
            budget <= usize::MAX - 24,
        ensures
            machine(final(self).cpu, final(self).interconnect@) == machine(
                old(self).cpu,
                old(self).interconnect@,
            ).run(0, budget as nat).machine,
            result == machine(old(self).cpu, old(self).interconnect@).run(0, budget as nat).result,
            final(video_sink)@ == if machine(old(self).cpu, old(self).interconnect@).run(
                0,
                budget as nat,
            ).frame is Some {
                machine(old(self).cpu, old(self).interconnect@).run(0, budget as nat).frame
            } else {
                old(video_sink)@
            },
            result matches Ok(cycles) ==> budget < cycles <= budget + 24,
            old(self).cpu.regs.wf() ==> final(self).cpu.regs.wf(),
    {
        let ghost start = machine(self.cpu, self.interconnect@);
        let ghost mut frame: Option<Seq<u32>> = None;
        let mut spent: usize = 0;
        while spent <= budget
            invariant
                budget <= usize::MAX - 24,
                spent <= budget + 24,
                start == machine(old(self).cpu, old(self).interconnect@),
                old(self).cpu.regs.wf() ==> self.cpu.regs.wf(),
                start.run(0, budget as nat).machine == machine(self.cpu, self.interconnect@).run(
                    spent as nat,
                    budget as nat,
                ).machine,
                start.run(0, budget as nat).result == machine(self.cpu, self.interconnect@).run(
                    spent as nat,
                    budget as nat,
                ).result,
                start.run(0, budget as nat).frame == if machine(self.cpu, self.interconnect@).run(
                    spent as nat,
                    budget as nat,
                ).frame is Some {
                    machine(self.cpu, self.interconnect@).run(spent as nat, budget as nat).frame
                } else {
                    frame
                },
                video_sink@ == if frame is Some {
                    frame
                } else {
                    old(video_sink)@
                },
            decreases
                (if spent > budget {
                    0
                } else {
                    budget + 1 - spent
                }),
        {
            let ghost here = machine(self.cpu, self.interconnect@);
            match self.step(video_sink) {
                Ok(cycles) => {
                    proof {
                        if here.pumped().frame is Some {
                            frame = here.pumped().frame;
                        }
                    }
                    spent = spent + cycles;
                },
                Err(error) => {
                    return Err(error);
                },
            }
        }
        Ok(spent)
    }
}

} // verus!
