use mcu_hal::bus::{extend, Op, Poll, PollStep, Register};

#[test]
fn write_stores_its_value_whatever_was_there() {
    let op = Op::Write { reg: Register::UsartBrr, value: 555 };
    assert_eq!(op.target(), Some(Register::UsartBrr));
    assert_eq!(op.source(), None);
    assert_eq!(op.output(0xFFFF_FFFF), 555);
    assert!(op.is_met(0));
}

#[test]
fn modify_clears_then_sets() {
    let op = Op::Modify { reg: Register::I2cCr2, clear: 0x0000_03FF, set: 0x0000_00A0 };
    assert_eq!(op.target(), Some(Register::I2cCr2));
    assert_eq!(op.source(), Some(Register::I2cCr2));
    assert_eq!(op.output(0xFFFF_FFFF), 0xFFFF_FCA0);
    assert_eq!(op.output(0), 0xA0);
    assert_eq!(Op::set_bits(Register::SpiCr1, 0x40).output(0x3), 0x43);
    assert_eq!(Op::clear_bits(Register::SpiCr1, 0x40).output(0x43), 0x3);
    assert_eq!(Op::set_bits(Register::SpiCr1, 0x40), Op::Modify { reg: Register::SpiCr1, clear: 0, set: 0x40 });
    assert_eq!(Op::clear_bits(Register::SpiCr1, 0x40), Op::Modify { reg: Register::SpiCr1, clear: 0x40, set: 0 });
}

#[test]
fn waits_are_met_by_their_flags() {
    let set = Op::WaitSet { reg: Register::UsartIsr, mask: 0x40 };
    assert!(!set.is_met(0));
    assert!(!set.is_met(0xFFFF_FFBF));
    assert!(set.is_met(0x40));
    assert_eq!(set.target(), None);
    assert_eq!(set.source(), Some(Register::UsartIsr));
    assert_eq!(set.output(7), 7);
    let any = Op::WaitSet { reg: Register::RccCfgr1, mask: 0x18 };
    assert!(any.is_met(0x08));
    assert!(any.is_met(0x10));
    assert!(!any.is_met(0x07));
    let clear = Op::WaitClear { reg: Register::AdcCr, mask: 0x8000_0000 };
    assert!(clear.is_met(0x7FFF_FFFF));
    assert!(!clear.is_met(0x8000_0000));
    let equal = Op::WaitEqual { reg: Register::RccCfgr1, mask: 0x18, value: 0x18 };
    assert!(equal.is_met(0x18));
    assert!(equal.is_met(0xFFFF_FFFF));
    assert!(!equal.is_met(0x08));
    assert!(!equal.is_met(0x10));
    assert!(!equal.is_met(0));
    assert_eq!(equal.target(), None);
    assert_eq!(equal.source(), Some(Register::RccCfgr1));
    assert_eq!(equal.output(9), 9);
    let delay = Op::Delay { cycles: 10 };
    assert!(delay.is_met(0));
    assert_eq!(delay.target(), None);
    assert_eq!(delay.source(), None);
}

#[test]
fn poll_counts_down_to_a_timeout() {
    let wait = Op::WaitSet { reg: Register::UsartIsr, mask: 0x40 };
    let mut poll = Poll::new(3);
    assert_eq!(poll.observe(wait, 0), PollStep::Retry);
    assert_eq!(poll.remaining, 2);
    assert_eq!(poll.observe(wait, 0), PollStep::Retry);
    assert_eq!(poll.remaining, 1);
    assert_eq!(poll.observe(wait, 0), PollStep::TimedOut);
    assert_eq!(poll.remaining, 0);
    assert_eq!(poll.observe(wait, 0), PollStep::TimedOut);
}

#[test]
fn poll_ready_costs_nothing() {
    let wait = Op::WaitSet { reg: Register::UsartIsr, mask: 0x40 };
    let mut poll = Poll::new(2);
    assert_eq!(poll.observe(wait, 0), PollStep::Retry);
    assert_eq!(poll.observe(wait, 0x40), PollStep::Ready);
    assert_eq!(poll.remaining, 1);
    let mut none = Poll::new(0);
    assert_eq!(none.observe(wait, 0x40), PollStep::Ready);
    assert_eq!(none.observe(wait, 0), PollStep::TimedOut);
}

#[test]
fn extend_appends_in_order() {
    let a = Op::Delay { cycles: 1 };
    let b = Op::Delay { cycles: 2 };
    let c = Op::Delay { cycles: 3 };
    let mut plan = vec![a];
    extend(&mut plan, &vec![b, c]);
    assert_eq!(plan, vec![a, b, c]);
    extend(&mut plan, &vec![]);
    assert_eq!(plan, vec![a, b, c]);
}
