pub mod clock_config;
pub mod interrupts;

use crate::bus::Op;
use crate::system::clock_config::{system_clock_config, system_clock_plan};
use crate::system::interrupts::{enable_interrupts, InterruptLine, USART1_PRIORITY};
use vstd::prelude::*;

pub use crate::system::clock_config::PCLK1_FREQ;

verus! {

/// One thing that the host does at boot.
#[derive(Clone, Copy, Debug, PartialEq, Eq, Structural)]
pub enum BootStep {
    /// Perform a register step.
    Perform(Op),
    /// Let an interrupt line through, at a priority.
    Unmask { line: InterruptLine, priority: u8 },
}

/// All that is done once at boot, in order: every step of the clock
/// sequence, and only then the serial port's interrupt.
pub open spec fn boot_plan() -> Seq<BootStep> {
    system_clock_plan().map_values(|op: Op| BootStep::Perform(op)).push(
        BootStep::Unmask { line: InterruptLine::USART1, priority: USART1_PRIORITY },
    )
}

/// At boot no interrupt is let through before the clocks run: the last step
/// lets the serial port's interrupt through, and every step before it is a
/// step of the clock sequence, in the order of that sequence.
pub proof fn lemma_interrupt_after_clocks()
    ensures
        boot_plan().len() == system_clock_plan().len() + 1,
        boot_plan().last() == (BootStep::Unmask {
            line: InterruptLine::USART1,
            priority: USART1_PRIORITY,
        }),
        forall|i: int|
            0 <= i < system_clock_plan().len() ==> #[trigger] boot_plan()[i] == BootStep::Perform(
                system_clock_plan()[i],
            ),
{
}

/// The steps of boot, before any peripheral is used.
pub fn system_init() -> (boot: Vec<BootStep>)
    ensures
        boot@ == boot_plan(),
{
    let clocks: Vec<Op> = system_clock_config();
    let mut boot: Vec<BootStep> = Vec::new();
    let mut i: usize = 0;
    while i < clocks.len()
        invariant
            i <= clocks.len(),
            boot@ == clocks@.subrange(0, i as int).map_values(|op: Op| BootStep::Perform(op)),
        decreases clocks.len() - i,
    {
        boot.push(BootStep::Perform(clocks[i]));
        assert(clocks@.subrange(0, i + 1).map_values(|op: Op| BootStep::Perform(op))
            =~= clocks@.subrange(0, i as int).map_values(|op: Op| BootStep::Perform(op)).push(
            BootStep::Perform(clocks@[i as int]),
        ));
        i += 1;
    }
    assert(clocks@.subrange(0, clocks@.len() as int) =~= clocks@);
    let request: (InterruptLine, u8) = enable_interrupts();
    boot.push(BootStep::Unmask { line: request.0, priority: request.1 });
    boot
}

} // verus!
