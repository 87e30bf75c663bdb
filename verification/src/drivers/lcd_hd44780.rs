use crate::bus::{extend, Op};
use crate::drivers::gpio::acts::{configure_plan, set_op};
use crate::drivers::gpio::clock_enable_op;
use crate::drivers::gpio::config::{GpioConfig, MODER, OSPEEDR, OTYPER, PUPDR};
use crate::drivers::gpio::Gpio;
use vstd::prelude::*;

verus! {

/// Idle cycles after the pins are configured, before the first command.
pub const INITIAL_DELAY: u32 = 2400000;

/// Idle cycles between the select lines and the enable pulse.
pub const FIRST_PAUSE: u32 = 2400;

/// Idle cycles for which the enable pulse lasts.
pub const SECOND_PAUSE: u32 = 3200;

/// Idle cycles after the enable pulse.
pub const THIRD_PAUSE: u32 = 1200;

/// A character display on up to eleven pins. Without all of the four low
/// data lines the display is driven four bits at a time.
#[derive(Clone, Copy, Debug, PartialEq, Eq, Structural)]
pub struct Lcd {
    pub register_select: Gpio,
    pub read_write: Option<Gpio>,
    pub enable: Gpio,
    pub d0: Option<Gpio>,
    pub d1: Option<Gpio>,
    pub d2: Option<Gpio>,
    pub d3: Option<Gpio>,
    pub d4: Gpio,
    pub d5: Gpio,
    pub d6: Gpio,
    pub d7: Gpio,
}

/// Every line of the display is a push-pull output.
pub open spec fn spec_type_gpio_lcd_port() -> GpioConfig {
    GpioConfig {
        moder: MODER::GeneralPurposeOutput,
        otyper: OTYPER::PushPull,
        ospeedr: OSPEEDR::HighSpeed,
        pupdr: PUPDR::NoPull,
        alt_func_select: None,
    }
}

#[verifier::when_used_as_spec(spec_type_gpio_lcd_port)]
pub fn type_gpio_lcd_port() -> (config: GpioConfig)
    ensures
        config == spec_type_gpio_lcd_port(),
{
    GpioConfig {
        moder: MODER::GeneralPurposeOutput,
        otyper: OTYPER::PushPull,
        ospeedr: OSPEEDR::HighSpeed,
        pupdr: PUPDR::NoPull,
        alt_func_select: None,
    }
}

/// Whether an optional pin, where there is one, has a pin number up to 15.
pub open spec fn optional_wf(pin: Option<Gpio>) -> bool {
    match pin {
        Some(p) => p.wf(),
        None => true,
    }
}

/// Whether an optional pin, where there is one, has a pin number up to 15.
pub fn optional_is_wf(pin: Option<Gpio>) -> (ok: bool)
    ensures
        ok == optional_wf(pin),
{
    match pin {
        Some(p) => p.is_wf(),
        None => true,
    }
}

/// The step that drives `pin` as bit `index` of `data` says.
pub open spec fn bit_op(pin: Gpio, data: u8, index: u8) -> Op {
    set_op(pin.port, pin.pin, data & (1u8 << index) > 0)
}

/// One line configured as an output, its bank's bus clock first.
pub open spec fn line_plan(pin: Gpio) -> Seq<Op> {
    seq![clock_enable_op(pin.port)] + configure_plan(pin.port, pin.pin, type_gpio_lcd_port())
}

/// The same for a line that may be missing.
pub open spec fn optional_line_plan(pin: Option<Gpio>) -> Seq<Op> {
    match pin {
        Some(p) => line_plan(p),
        None => Seq::empty(),
    }
}

impl Lcd {
    /// Every pin has a pin number up to 15.
    pub open spec fn wf(&self) -> bool {
        &&& self.register_select.wf()
        &&& optional_wf(self.read_write)
        &&& self.enable.wf()
        &&& optional_wf(self.d0)
        &&& optional_wf(self.d1)
        &&& optional_wf(self.d2)
        &&& optional_wf(self.d3)
        &&& self.d4.wf()
        &&& self.d5.wf()
        &&& self.d6.wf()
        &&& self.d7.wf()
    }

    /// Whether every pin has a pin number up to 15.
    pub fn is_wf(&self) -> (ok: bool)
        ensures
            ok == self.wf(),
    {
        self.register_select.is_wf() && optional_is_wf(self.read_write) && self.enable.is_wf()
            && optional_is_wf(self.d0) && optional_is_wf(self.d1) && optional_is_wf(self.d2)
            && optional_is_wf(self.d3) && self.d4.is_wf() && self.d5.is_wf() && self.d6.is_wf()
            && self.d7.is_wf()
    }

    /// Whether column `x` of row `y` is a place that the cursor command can
    /// name.
    pub open spec fn spec_cursor_in_range(x: i32, y: i32) -> bool {
        1 <= x && 1 <= y && (x - 1) + (y - 1) * 64 <= 127
    }

    #[verifier::when_used_as_spec(spec_cursor_in_range)]
    pub fn cursor_in_range(x: i32, y: i32) -> (ok: bool)
        ensures
            ok == Self::spec_cursor_in_range(x, y),
    {
        1 <= x && x <= 128 && 1 <= y && y <= 2 && (x - 1) + (y - 1) * 64 <= 127
    }

    /// Whether the display is driven four bits at a time.
    pub open spec fn spec_four_bit(&self) -> bool {
        self.d0 is None || self.d1 is None || self.d2 is None || self.d3 is None
    }

    /// The four high data lines driven by the four low bits of `data`.
    pub open spec fn nibble_plan(&self, data: u8) -> Seq<Op> {
        seq![
            bit_op(self.d4, data, 0),
            bit_op(self.d5, data, 1),
            bit_op(self.d6, data, 2),
            bit_op(self.d7, data, 3),
        ]
    }

    /// All eight data lines driven by the eight bits of `data`.
    pub open spec fn byte_plan(&self, data: u8) -> Seq<Op> {
        seq![
            bit_op(self.d0->0, data, 0),
            bit_op(self.d1->0, data, 1),
            bit_op(self.d2->0, data, 2),
            bit_op(self.d3->0, data, 3),
            bit_op(self.d4, data, 4),
            bit_op(self.d5, data, 5),
            bit_op(self.d6, data, 6),
            bit_op(self.d7, data, 7),
        ]
    }

    /// The data lines driven by `data`, as wide as the display is wired.
    pub open spec fn data_plan(&self, data: u8) -> Seq<Op> {
        if self.spec_four_bit() {
            self.nibble_plan(data)
        } else {
            self.byte_plan(data)
        }
    }

    /// The read/write line driven low, where the display has one.
    pub open spec fn write_select_plan(&self) -> Seq<Op> {
        match self.read_write {
            Some(rw) => seq![set_op(rw.port, rw.pin, false)],
            None => Seq::empty(),
        }
    }

    /// One bus cycle: write selected, register selected (`true` for the
    /// character register), a pause, the enable line high, the data lines, a
    /// pause, the enable line low, a pause.
    pub open spec fn cycle_plan(&self, character: bool, data: u8) -> Seq<Op> {
        self.write_select_plan() + seq![
            set_op(self.register_select.port, self.register_select.pin, character),
            Op::Delay { cycles: FIRST_PAUSE },
            set_op(self.enable.port, self.enable.pin, true),
        ] + self.data_plan(data) + seq![
            Op::Delay { cycles: SECOND_PAUSE },
            set_op(self.enable.port, self.enable.pin, false),
            Op::Delay { cycles: THIRD_PAUSE },
        ]
    }

    /// One byte to one register: a single cycle on eight lines, two cycles,
    /// high half first, on four.
    pub open spec fn transfer_plan(&self, character: bool, data: u8) -> Seq<Op> {
        if self.spec_four_bit() {
            self.cycle_plan(character, data >> 4u8) + self.cycle_plan(character, data & 0xF)
        } else {
            self.cycle_plan(character, data)
        }
    }

    /// The commands that set the display up: on four lines the switch to
    /// four-bit transfers and "two lines, four bits"; on eight lines "two
    /// lines, eight bits"; then "display and cursor on" and "write left to
    /// right".
    pub open spec fn init_commands_plan(&self) -> Seq<Op> {
        if self.spec_four_bit() {
            self.cycle_plan(false, 0x2) + self.transfer_plan(false, 0x28) + self.transfer_plan(
                false,
                0xE,
            ) + self.transfer_plan(false, 0x6)
        } else {
            self.transfer_plan(false, 0x38) + self.transfer_plan(false, 0xE) + self.transfer_plan(
                false,
                0x6,
            )
        }
    }

    /// The lines that every wiring has, configured: register select,
    /// read/write if present, enable, the four high data lines.
    pub open spec fn control_lines_plan(&self) -> Seq<Op> {
        line_plan(self.register_select) + optional_line_plan(self.read_write) + line_plan(
            self.enable,
        ) + line_plan(self.d4) + line_plan(self.d5) + line_plan(self.d6) + line_plan(self.d7)
    }

    /// All lines configured: on eight lines the four low data lines first.
    pub open spec fn init_pins_plan(&self) -> Seq<Op> {
        if self.spec_four_bit() {
            self.control_lines_plan()
        } else {
            line_plan(self.d0->0) + line_plan(self.d1->0) + line_plan(self.d2->0) + line_plan(
                self.d3->0,
            ) + self.control_lines_plan()
        }
    }

    /// The characters `text` sent one after the other.
    pub open spec fn print_plan(&self, text: Seq<u8>) -> Seq<Op>
        decreases text.len(),
    {
        if text.len() == 0 {
            Seq::empty()
        } else {
            self.print_plan(text.drop_last()) + self.transfer_plan(true, text.last())
        }
    }

    /// The command that puts the cursor into column `x` of row `y`, both
    /// counted from 1.
    pub open spec fn cursor_command(x: i32, y: i32) -> u8 {
        (0x80 + (x - 1) + (y - 1) * 64) as u8
    }

    #[verifier::when_used_as_spec(spec_four_bit)]
    pub fn four_bit(&self) -> (narrow: bool)
        ensures
            narrow == self.spec_four_bit(),
    {
        self.d0.is_none() || self.d1.is_none() || self.d2.is_none() || self.d3.is_none()
    }

    /// The steps that bring the display up: pins, the power-on pause, the
    /// set-up commands.
    pub fn configure(&self) -> (plan: Vec<Op>)
        requires
            self.wf(),
        ensures
            plan@ == self.init_pins_plan() + seq![Op::Delay { cycles: INITIAL_DELAY }]
                + self.init_commands_plan(),
    {
        let mut plan: Vec<Op> = self.init_pins();
        plan.push(Op::Delay { cycles: INITIAL_DELAY });
        let commands: Vec<Op> = self.send_init_commands();
        extend(&mut plan, &commands);
        plan
    }

    /// The steps that show the bytes of `text`, in order.
    pub fn print(&self, text: &[u8]) -> (plan: Vec<Op>)
        requires
            self.wf(),
        ensures
            plan@ == self.print_plan(text@),
    {
        let mut plan: Vec<Op> = Vec::new();
        let mut i: usize = 0;
        while i < text.len()
            invariant
                self.wf(),
                i <= text.len(),
                plan@ == self.print_plan(text@.subrange(0, i as int)),
            decreases text.len() - i,
        {
            let one: Vec<Op> = self.send_character(text[i]);
            extend(&mut plan, &one);
            assert(text@.subrange(0, i + 1).drop_last() =~= text@.subrange(0, i as int));
            i += 1;
        }
        assert(text@.subrange(0, text@.len() as int) =~= text@);
        plan
    }

    /// The steps that put the cursor into column `x` of row `y`, both counted
    /// from 1. The second row begins 64 places after the first, and the
    /// command has seven bits for the place.
    pub fn set_cursor(&self, x: i32, y: i32) -> (plan: Vec<Op>)
        requires
            self.wf(),
            Self::cursor_in_range(x, y),
        ensures
            plan@ == self.transfer_plan(false, Self::cursor_command(x, y)),
    {
        self.send_command((0x80 + (x - 1) + (y - 1) * 64) as u8)
    }

    /// The steps that send one character.
    pub fn send_character(&self, c: u8) -> (plan: Vec<Op>)
        requires
            self.wf(),
        ensures
            plan@ == self.transfer_plan(true, c),
    {
        if self.four_bit() {
            let mut plan: Vec<Op> = self.send_character_8_bit(c >> 4u8);
            let low: Vec<Op> = self.send_character_8_bit(c & 0xF);
            extend(&mut plan, &low);
            plan
        } else {
            self.send_character_8_bit(c)
        }
    }

    /// The steps that send one command.
    pub fn send_command(&self, cmd: u8) -> (plan: Vec<Op>)
        requires
            self.wf(),
        ensures
            plan@ == self.transfer_plan(false, cmd),
    {
        if self.four_bit() {
            let mut plan: Vec<Op> = self.send_command_8_bit(cmd >> 4u8);
            let low: Vec<Op> = self.send_command_8_bit(cmd & 0xF);
            extend(&mut plan, &low);
            plan
        } else {
            self.send_command_8_bit(cmd)
        }
    }

    /// The steps of the set-up commands.
    pub fn send_init_commands(&self) -> (plan: Vec<Op>)
        requires
            self.wf(),
        ensures
            plan@ == self.init_commands_plan(),
    {
        if self.four_bit() {
            let mut plan: Vec<Op> = self.send_command_8_bit(0x2);
            let function: Vec<Op> = self.send_command(0x28);
            let display: Vec<Op> = self.send_command(0xE);
            let entry: Vec<Op> = self.send_command(0x6);
            extend(&mut plan, &function);
            extend(&mut plan, &display);
            extend(&mut plan, &entry);
            plan
        } else {
            let mut plan: Vec<Op> = self.send_command(0x38);
            let display: Vec<Op> = self.send_command(0xE);
            let entry: Vec<Op> = self.send_command(0x6);
            extend(&mut plan, &display);
            extend(&mut plan, &entry);
            plan
        }
    }

    /// The steps of one bus cycle to the character register.
    pub fn send_character_8_bit(&self, c: u8) -> (plan: Vec<Op>)
        requires
            self.wf(),
        ensures
            plan@ == self.cycle_plan(true, c),
    {
        self.cycle(true, c)
    }

    /// The steps of one bus cycle to the command register.
    pub fn send_command_8_bit(&self, cmd: u8) -> (plan: Vec<Op>)
        requires
            self.wf(),
        ensures
            plan@ == self.cycle_plan(false, cmd),
    {
        self.cycle(false, cmd)
    }

    /// The steps of one bus cycle.
    pub fn cycle(&self, character: bool, data: u8) -> (plan: Vec<Op>)
        requires
            self.wf(),
        ensures
            plan@ == self.cycle_plan(character, data),
    {
        let mut plan: Vec<Op> = Vec::new();
        match self.read_write {
            Some(rw) => {
                plan.push(rw.low());
            },
            None => {},
        }
        assert(plan@ =~= self.write_select_plan());
        plan.push(self.register_select.set(character));
        plan.push(Op::Delay { cycles: FIRST_PAUSE });
        plan.push(self.enable.high());
        let data_lines: Vec<Op> = self.toggle_pins(data);
        extend(&mut plan, &data_lines);
        plan.push(Op::Delay { cycles: SECOND_PAUSE });
        plan.push(self.enable.low());
        plan.push(Op::Delay { cycles: THIRD_PAUSE });
        assert(plan@ =~= self.cycle_plan(character, data));
        plan
    }

    /// The steps that clear the display.
    pub fn clear(&self) -> (plan: Vec<Op>)
        requires
            self.wf(),
        ensures
            plan@ == self.transfer_plan(false, 0x1),
    {
        self.send_command(0x1)
    }

    /// The steps that put a character on the data lines.
    pub fn toggle_pins_char(&self, data: u8) -> (plan: Vec<Op>)
        requires
            self.wf(),
        ensures
            plan@ == self.data_plan(data),
    {
        self.toggle_pins(data)
    }

    /// The steps that put `data` on the data lines.
    pub fn toggle_pins(&self, data: u8) -> (plan: Vec<Op>)
        requires
            self.wf(),
        ensures
            plan@ == self.data_plan(data),
    {
        if self.four_bit() {
            self.toggle_pins_4_bit(data)
        } else {
            self.toggle_pins_8_bit(data)
        }
    }

    /// The steps that put `data` on eight data lines.
    pub fn toggle_pins_8_bit(&self, data: u8) -> (plan: Vec<Op>)
        requires
            self.wf(),
            !self.spec_four_bit(),
        ensures
            plan@ == self.byte_plan(data),
    {
        let mut plan: Vec<Op> = Vec::new();
        match (self.d0, self.d1, self.d2, self.d3) {
            (Some(d0), Some(d1), Some(d2), Some(d3)) => {
                plan.push(d0.set(data & (1u8 << 0u8) > 0));
                plan.push(d1.set(data & (1u8 << 1u8) > 0));
                plan.push(d2.set(data & (1u8 << 2u8) > 0));
                plan.push(d3.set(data & (1u8 << 3u8) > 0));
            },
            _ => {},
        }
        plan.push(self.d4.set(data & (1u8 << 4u8) > 0));
        plan.push(self.d5.set(data & (1u8 << 5u8) > 0));
        plan.push(self.d6.set(data & (1u8 << 6u8) > 0));
        plan.push(self.d7.set(data & (1u8 << 7u8) > 0));
        assert(plan@ =~= self.byte_plan(data));
        plan
    }

    /// The steps that put the low half of `data` on the four high data lines.
    pub fn toggle_pins_4_bit(&self, data: u8) -> (plan: Vec<Op>)
        requires
            self.wf(),
        ensures
            plan@ == self.nibble_plan(data),
    {
        let mut plan: Vec<Op> = Vec::new();
        plan.push(self.d4.set(data & (1u8 << 0u8) > 0));
        plan.push(self.d5.set(data & (1u8 << 1u8) > 0));
        plan.push(self.d6.set(data & (1u8 << 2u8) > 0));
        plan.push(self.d7.set(data & (1u8 << 3u8) > 0));
        assert(plan@ =~= self.nibble_plan(data));
        plan
    }

    /// The steps that configure all lines of the display.
    pub fn init_pins(&self) -> (plan: Vec<Op>)
        requires
            self.wf(),
        ensures
            plan@ == self.init_pins_plan(),
    {
        match (self.d0, self.d1, self.d2, self.d3) {
            (Some(d0), Some(d1), Some(d2), Some(d3)) => {
                let mut plan: Vec<Op> = d0.configure(type_gpio_lcd_port());
                let second: Vec<Op> = d1.configure(type_gpio_lcd_port());
                let third: Vec<Op> = d2.configure(type_gpio_lcd_port());
                let fourth: Vec<Op> = d3.configure(type_gpio_lcd_port());
                let rest: Vec<Op> = self.init_4bit_pins();
                extend(&mut plan, &second);
                extend(&mut plan, &third);
                extend(&mut plan, &fourth);
                extend(&mut plan, &rest);
                plan
            },
            _ => self.init_4bit_pins(),
        }
    }

    /// The steps that configure the lines that every wiring has.
    pub fn init_4bit_pins(&self) -> (plan: Vec<Op>)
        requires
            self.wf(),
        ensures
            plan@ == self.control_lines_plan(),
    {
        let mut plan: Vec<Op> = self.register_select.configure(type_gpio_lcd_port());
        match self.read_write {
            Some(rw) => {
                let line: Vec<Op> = rw.configure(type_gpio_lcd_port());
                extend(&mut plan, &line);
            },
            None => {},
        }
        assert(plan@ =~= line_plan(self.register_select) + optional_line_plan(self.read_write));
        let enable: Vec<Op> = self.enable.configure(type_gpio_lcd_port());
        let d4: Vec<Op> = self.d4.configure(type_gpio_lcd_port());
        let d5: Vec<Op> = self.d5.configure(type_gpio_lcd_port());
        let d6: Vec<Op> = self.d6.configure(type_gpio_lcd_port());
        let d7: Vec<Op> = self.d7.configure(type_gpio_lcd_port());
        extend(&mut plan, &enable);
        extend(&mut plan, &d4);
        extend(&mut plan, &d5);
        extend(&mut plan, &d6);
        extend(&mut plan, &d7);
        plan
    }
}

} // verus!
