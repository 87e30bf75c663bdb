pub mod clocks;
pub mod flash;
pub mod pll1;

use crate::bits::{field, modified};
use crate::bus::{extend, lemma_run_push, run, Op, Register, RegisterFile};
use vstd::prelude::*;

verus! {

/// Frequency of the system clock, of the AHB and of the three peripheral
/// buses once the clock plan is in force, in hertz. The serial port's baud
/// divider is computed from it.
pub const PCLK1_FREQ: u32 = 64_000_000;

/// Where the clock tree stands, from reset to its target.
#[derive(Clone, Copy, Debug, PartialEq, Eq, Structural)]
pub enum ClockStage {
    /// After reset: the internal oscillator drives the system.
    HsiOn,
    /// The external oscillator runs.
    HseOn,
    /// The PLL has its source, range, dividers and multiplier; it is still off.
    PllConfigured,
    /// The PLL runs and has locked.
    PllOn,
    /// The flash waits long enough for the target frequency.
    FlashLatencySet,
    /// The PLL drives the system clock.
    SourceSwitched,
}

impl ClockStage {
    /// The stage after this one; the last stage stays.
    pub open spec fn spec_next(self) -> ClockStage {
        match self {
            ClockStage::HsiOn => ClockStage::HseOn,
            ClockStage::HseOn => ClockStage::PllConfigured,
            ClockStage::PllConfigured => ClockStage::PllOn,
            ClockStage::PllOn => ClockStage::FlashLatencySet,
            ClockStage::FlashLatencySet => ClockStage::SourceSwitched,
            ClockStage::SourceSwitched => ClockStage::SourceSwitched,
        }
    }

    /// The steps that lead from this stage to the next: the stores of the
    /// transition and, where the hardware reports readiness, the wait for it.
    pub open spec fn transition_plan(self) -> Seq<Op> {
        match self {
            ClockStage::HsiOn => clocks::enable_hse_plan(),
            ClockStage::HseOn => pll1::configure_plan().push(pll1::enable_p_op()),
            ClockStage::PllConfigured => pll1::enable_main_plan(),
            ClockStage::PllOn => flash::configure_plan(),
            ClockStage::FlashLatencySet => pll1::switch_plan(),
            ClockStage::SourceSwitched => Seq::empty(),
        }
    }

    #[verifier::when_used_as_spec(spec_next)]
    pub fn next(self) -> (stage: ClockStage)
        ensures
            stage == self.spec_next(),
    {
        match self {
            ClockStage::HsiOn => ClockStage::HseOn,
            ClockStage::HseOn => ClockStage::PllConfigured,
            ClockStage::PllConfigured => ClockStage::PllOn,
            ClockStage::PllOn => ClockStage::FlashLatencySet,
            ClockStage::FlashLatencySet => ClockStage::SourceSwitched,
            ClockStage::SourceSwitched => ClockStage::SourceSwitched,
        }
    }

    /// The steps of the transition out of this stage, and the stage that
    /// they lead to.
    pub fn advance(self) -> (step: (Vec<Op>, ClockStage))
        ensures
            step.0@ == self.transition_plan(),
            step.1 == self.spec_next(),
    {
        let plan: Vec<Op> = match self {
            ClockStage::HsiOn => clocks::enable_hse(),
            ClockStage::HseOn => {
                let mut plan: Vec<Op> = pll1::configure();
                plan.push(pll1::enable_p());
                plan
            },
            ClockStage::PllConfigured => pll1::enable_main(),
            ClockStage::PllOn => flash::configure(),
            ClockStage::FlashLatencySet => pll1::switch_sys_clock_to(),
            ClockStage::SourceSwitched => Vec::new(),
        };
        (plan, self.next())
    }
}

/// The whole sequence from reset: every transition in order.
pub open spec fn system_clock_plan() -> Seq<Op> {
    ClockStage::HsiOn.transition_plan() + ClockStage::HseOn.transition_plan()
        + ClockStage::PllConfigured.transition_plan() + ClockStage::PllOn.transition_plan()
        + ClockStage::FlashLatencySet.transition_plan()
}

/// The steps that bring the clock tree from reset to its target: 64 MHz from
/// the PLL on the 8 MHz external oscillator.
pub fn system_clock_config() -> (plan: Vec<Op>)
    ensures
        plan@ == system_clock_plan(),
{
    let mut plan: Vec<Op> = Vec::new();
    let mut stage: ClockStage = ClockStage::HsiOn;
    let mut left: u8 = 5;
    while left > 0
        invariant
            left <= 5,
            left == 5 ==> stage == ClockStage::HsiOn && plan@ == Seq::<Op>::empty(),
            left == 4 ==> stage == ClockStage::HseOn && plan@
                == ClockStage::HsiOn.transition_plan(),
            left == 3 ==> stage == ClockStage::PllConfigured && plan@
                == ClockStage::HsiOn.transition_plan() + ClockStage::HseOn.transition_plan(),
            left == 2 ==> stage == ClockStage::PllOn && plan@
                == ClockStage::HsiOn.transition_plan() + ClockStage::HseOn.transition_plan()
                + ClockStage::PllConfigured.transition_plan(),
            left == 1 ==> stage == ClockStage::FlashLatencySet && plan@
                == ClockStage::HsiOn.transition_plan() + ClockStage::HseOn.transition_plan()
                + ClockStage::PllConfigured.transition_plan()
                + ClockStage::PllOn.transition_plan(),
            left == 0 ==> plan@ == system_clock_plan(),
        decreases left,
    {
        let step: (Vec<Op>, ClockStage) = stage.advance();
        extend(&mut plan, &step.0);
        stage = step.1;
        left = left - 1;
        assert(Seq::<Op>::empty() + ClockStage::HsiOn.transition_plan()
            =~= ClockStage::HsiOn.transition_plan());
    }
    plan
}

/// The whole sequence as eighteen steps, one by one.
pub open spec fn system_clock_steps() -> Seq<Op> {
    seq![
        clocks::enable_hse_plan()[0],
        clocks::enable_hse_plan()[1],
        pll1::configure_plan()[0],
        pll1::configure_plan()[1],
        pll1::configure_plan()[2],
        pll1::configure_plan()[3],
        pll1::configure_plan()[4],
        pll1::configure_plan()[5],
        pll1::configure_plan()[6],
        pll1::configure_plan()[7],
        pll1::configure_plan()[8],
        pll1::enable_p_op(),
        pll1::enable_main_plan()[0],
        pll1::enable_main_plan()[1],
        flash::configure_plan()[0],
        flash::configure_plan()[1],
        pll1::switch_plan()[0],
        pll1::switch_plan()[1],
    ]
}

/// The whole sequence is these eighteen steps in this order: the external
/// oscillator is switched on and awaited before the PLL is configured, the
/// PLL is switched on and its lock awaited only after its configuration,
/// the flash latency is set after that and before the switch, and the last
/// step is the wait for the switch status.
pub proof fn lemma_clock_steps_in_order()
    ensures
        system_clock_plan() == system_clock_steps(),
        system_clock_plan().len() == 18,
{
    assert(system_clock_plan() =~= system_clock_steps());
}

/// What the stores of the sequence leave in the words they store into.
proof fn lemma_clock_words(cr: u32, divr: u32, acr: u32, cfgr1: u32)
    by (bit_vector)
    ensures
        modified(
            modified(
                modified(
                    modified(modified(0, 0, 0x3u32 << 0u32), 0, 1u32 << 4u32),
                    0,
                    0x3u32 << 2u32,
                ),
                0,
                1u32 << 8u32,
            ),
            0,
            pll1::RCC_PLL1CFGR_PLL1PEN,
        ) == 0x0001011F,
        ({
            let after = modified(
                modified(modified(modified(divr, 0x1FFu32 << 0u32, 0), 0, 0xFu32 << 0u32), 0x7Fu32 << 9u32, 0),
                0,
                1u32 << 9u32,
            );
            &&& field(after, 0, 9) == 15
            &&& field(after, 9, 7) == 1
            &&& after & !0xFFFFu32 == divr & !0xFFFFu32
        }),
        ({
            let after = modified(
                modified(acr, flash::FLASH_ACR_LATENCY, 0),
                0,
                flash::FLASH_WAIT_STATES,
            );
            &&& field(after, 0, 4) == 3
            &&& after & !0xFu32 == acr & !0xFu32
        }),
        ({
            let after = modified(
                modified(cr, 0, clocks::RCC_CR_HSEON),
                0,
                pll1::RCC_CR_PLL1ON,
            );
            &&& after & clocks::RCC_CR_HSEON == clocks::RCC_CR_HSEON
            &&& after & pll1::RCC_CR_PLL1ON == pll1::RCC_CR_PLL1ON
            &&& after & !0x01010000u32 == cr & !0x01010000u32
        }),
        ({
            let after = modified(cfgr1, pll1::RCC_CFGR1_SW, pll1::RCC_CFGR1_SW);
            &&& field(after, 0, 2) == 3
            &&& after & !3u32 == cfgr1 & !3u32
        }),
{
}

/// After the whole sequence, over registers that keep what is stored into
/// them: the external oscillator and the PLL are switched on; the PLL's
/// configuration register holds source 3, the external oscillator, input
/// range 3, input divider 1, the fractional latch and the P output, and
/// nothing else; its divider register holds multiplier field 15 and P
/// divider field 1; the flash latency is 3 wait states; the system clock
/// switch selects source 3, the PLL. The other bits of these registers and
/// all other registers are as before.
pub proof fn lemma_clock_plan_programs_tree(regs: RegisterFile)
    ensures
        ({
            let after = run(system_clock_plan(), regs);
            &&& after(Register::RccCr) & clocks::RCC_CR_HSEON == clocks::RCC_CR_HSEON
            &&& after(Register::RccCr) & pll1::RCC_CR_PLL1ON == pll1::RCC_CR_PLL1ON
            &&& after(Register::RccCr) & !0x01010000u32 == regs(Register::RccCr) & !0x01010000u32
            &&& after(Register::RccPll1Cfgr) == 0x0001011F
            &&& field(after(Register::RccPll1Divr), 0, 9) == 15
            &&& field(after(Register::RccPll1Divr), 9, 7) == 1
            &&& after(Register::RccPll1Divr) & !0xFFFFu32 == regs(Register::RccPll1Divr)
                & !0xFFFFu32
            &&& field(after(Register::FlashAcr), 0, 4) == 3
            &&& after(Register::FlashAcr) & !0xFu32 == regs(Register::FlashAcr) & !0xFu32
            &&& field(after(Register::RccCfgr1), 0, 2) == 3
            &&& after(Register::RccCfgr1) & !3u32 == regs(Register::RccCfgr1) & !3u32
            &&& forall|reg: Register|
                reg != Register::RccCr && reg != Register::RccPll1Cfgr && reg
                    != Register::RccPll1Divr && reg != Register::FlashAcr && reg
                    != Register::RccCfgr1 ==> #[trigger] after(reg) == regs(reg)
        }),
{
    let plan = system_clock_steps();
    assert(system_clock_plan() =~= plan);
    let p0 = Seq::<Op>::empty();
    let p1 = p0.push(plan[0]);
    let p2 = p1.push(plan[1]);
    let p3 = p2.push(plan[2]);
    let p4 = p3.push(plan[3]);
    let p5 = p4.push(plan[4]);
    let p6 = p5.push(plan[5]);
    let p7 = p6.push(plan[6]);
    let p8 = p7.push(plan[7]);
    let p9 = p8.push(plan[8]);
    let p10 = p9.push(plan[9]);
    let p11 = p10.push(plan[10]);
    let p12 = p11.push(plan[11]);
    let p13 = p12.push(plan[12]);
    let p14 = p13.push(plan[13]);
    let p15 = p14.push(plan[14]);
    let p16 = p15.push(plan[15]);
    let p17 = p16.push(plan[16]);
    assert(p17.push(plan[17]) =~= plan);
    lemma_run_push(p0, plan[0], regs);
    lemma_run_push(p1, plan[1], regs);
    lemma_run_push(p2, plan[2], regs);
    lemma_run_push(p3, plan[3], regs);
    lemma_run_push(p4, plan[4], regs);
    lemma_run_push(p5, plan[5], regs);
    lemma_run_push(p6, plan[6], regs);
    lemma_run_push(p7, plan[7], regs);
    lemma_run_push(p8, plan[8], regs);
    lemma_run_push(p9, plan[9], regs);
    lemma_run_push(p10, plan[10], regs);
    lemma_run_push(p11, plan[11], regs);
    lemma_run_push(p12, plan[12], regs);
    lemma_run_push(p13, plan[13], regs);
    lemma_run_push(p14, plan[14], regs);
    lemma_run_push(p15, plan[15], regs);
    lemma_run_push(p16, plan[16], regs);
    lemma_run_push(p17, plan[17], regs);
    lemma_clock_words(
        regs(Register::RccCr),
        regs(Register::RccPll1Divr),
        regs(Register::FlashAcr),
        regs(Register::RccCfgr1),
    );
}

/// In the whole sequence every store into a configuration register of the
/// PLL comes before the store that switches the PLL on.
pub proof fn lemma_pll_configured_while_off()
    ensures
        forall|i: int, j: int|
            0 <= i < system_clock_plan().len() && 0 <= j < system_clock_plan().len()
                && #[trigger] system_clock_plan()[i] == pll1::enable_main_plan()[0] && (
            #[trigger] system_clock_plan()[j].spec_target() == Some(Register::RccPll1Cfgr)
                || system_clock_plan()[j].spec_target() == Some(Register::RccPll1Divr)) ==> j < i,
{
    let plan = system_clock_plan();
    let literal = system_clock_steps();
    assert(plan =~= literal);
    assert(literal[0] != pll1::enable_main_plan()[0]);
    assert(literal[1] != pll1::enable_main_plan()[0]);
    assert(literal[2] != pll1::enable_main_plan()[0]);
    assert(literal[3] != pll1::enable_main_plan()[0]);
    assert(literal[4] != pll1::enable_main_plan()[0]);
    assert(literal[5] != pll1::enable_main_plan()[0]);
    assert(literal[6] != pll1::enable_main_plan()[0]);
    assert(literal[7] != pll1::enable_main_plan()[0]);
    assert(literal[8] != pll1::enable_main_plan()[0]);
    assert(literal[9] != pll1::enable_main_plan()[0]);
    assert(literal[10] != pll1::enable_main_plan()[0]);
    assert(literal[11] != pll1::enable_main_plan()[0]);
    assert(literal[13] != pll1::enable_main_plan()[0]);
    assert(literal[14] != pll1::enable_main_plan()[0]);
    assert(literal[15] != pll1::enable_main_plan()[0]);
    assert(literal[16] != pll1::enable_main_plan()[0]);
    assert(literal[17] != pll1::enable_main_plan()[0]);
    assert(literal[0].spec_target() != Some(Register::RccPll1Cfgr) && literal[0].spec_target() != Some(
        Register::RccPll1Divr,
    ));
    assert(literal[1].spec_target() != Some(Register::RccPll1Cfgr) && literal[1].spec_target() != Some(
        Register::RccPll1Divr,
    ));
    assert(literal[12].spec_target() != Some(Register::RccPll1Cfgr) && literal[12].spec_target() != Some(
        Register::RccPll1Divr,
    ));
    assert(literal[13].spec_target() != Some(Register::RccPll1Cfgr) && literal[13].spec_target() != Some(
        Register::RccPll1Divr,
    ));
    assert(literal[14].spec_target() != Some(Register::RccPll1Cfgr) && literal[14].spec_target() != Some(
        Register::RccPll1Divr,
    ));
    assert(literal[15].spec_target() != Some(Register::RccPll1Cfgr) && literal[15].spec_target() != Some(
        Register::RccPll1Divr,
    ));
    assert(literal[16].spec_target() != Some(Register::RccPll1Cfgr) && literal[16].spec_target() != Some(
        Register::RccPll1Divr,
    ));
    assert(literal[17].spec_target() != Some(Register::RccPll1Cfgr) && literal[17].spec_target() != Some(
        Register::RccPll1Divr,
    ));
    assert forall|i: int, j: int|
        0 <= i < plan.len() && 0 <= j < plan.len() && #[trigger] plan[i]
            == pll1::enable_main_plan()[0] && (#[trigger] plan[j].spec_target() == Some(
            Register::RccPll1Cfgr,
        ) || plan[j].spec_target() == Some(Register::RccPll1Divr)) implies j < i by {
        assert(literal[i] == pll1::enable_main_plan()[0]);
        assert(i == 12);
        assert(literal[j].spec_target() == plan[j].spec_target());
        assert(2 <= j < 12);
    }
}

} // verus!
