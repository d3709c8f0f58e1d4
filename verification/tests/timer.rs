use rs_boy::gameboy::memory_bus::MemoryAccessor;
use rs_boy::gameboy::timer::Timer;

#[test]
fn has_bit_gone_low_steps_simple_8_dots() {
    assert_eq!(Timer::has_bit_gone_low(0, 8, 2), true);
}

#[test]
fn has_bit_gone_low_steps_one_cpu_step() {
    assert_eq!(Timer::has_bit_gone_low(4, 8, 2), true);
}

#[test]
fn has_bit_gone_low_steps_two_cpu_steps() {
    assert_eq!(Timer::has_bit_gone_low(4, 12, 2), true);
}

#[test]
fn has_bit_gone_low_steps_three_cpu_steps() {
    assert_eq!(Timer::has_bit_gone_low(4, 16, 2), true);
}

#[test]
fn has_bit_gone_low_steps_four_cpu_steps() {
    assert_eq!(Timer::has_bit_gone_low(4, 20, 2), true);
}

#[test]
fn has_bit_gone_low_steps_five_cpu_steps() {
    assert_eq!(Timer::has_bit_gone_low(4, 24, 2), true);
}

#[test]
fn has_bit_gone_low_steps_tima01_16_dots() {
    assert_eq!(Timer::has_bit_gone_low(0, 16, 3), true);
}

#[test]
fn has_bit_gone_low_steps_tima01_one_step() {
    assert_eq!(Timer::has_bit_gone_low(12, 16, 3), true);
}

#[test]
fn has_bit_gone_low_steps_tima01_two_steps() {
    assert_eq!(Timer::has_bit_gone_low(12, 20, 3), true);
}

#[test]
fn has_bit_gone_low_steps_tima01_three_steps() {
    assert_eq!(Timer::has_bit_gone_low(12, 24, 3), true);
}

#[test]
fn has_bit_gone_low_steps_tima01_four_steps() {
    assert_eq!(Timer::has_bit_gone_low(12, 28, 3), true);
}

#[test]
fn has_bit_gone_low_steps_tima01_five_steps() {
    assert_eq!(Timer::has_bit_gone_low(12, 32, 3), true);
}

#[test]
fn has_bit_gone_low_steps_tima01_six_steps() {
    assert_eq!(Timer::has_bit_gone_low(12, 36, 3), true);
}

#[test]
fn has_bit_gone_low_steps_overflow_triggers() {
    assert_eq!(Timer::has_bit_gone_low(65535, 0, 0), true);
}

#[test]
fn has_bit_gone_low_steps_overflow_jump_triggers() {
    assert_eq!(Timer::has_bit_gone_low(65535, 4, 0), true);
}

#[test]
fn has_bit_gone_low_steps_overflow_bit_unset_1() {
    assert_eq!(Timer::has_bit_gone_low(65534, 0, 1), true);
}

#[test]
fn has_bit_gone_low_steps_overflow_bit_unset_2() {
    assert_eq!(Timer::has_bit_gone_low(65531, 0, 2), true);
}

#[test]
fn has_bit_gone_low_steps_reset_with_bit_set() {
    assert_eq!(Timer::has_bit_gone_low(8, 0, 3), true);
}

#[test]
fn has_bit_gone_low_does_not_step_1_dots() {
    assert_eq!(Timer::has_bit_gone_low(0, 1, 2), false);
}

#[test]
fn has_bit_gone_low_does_not_step_2_dots() {
    assert_eq!(Timer::has_bit_gone_low(0, 2, 2), false);
}

#[test]
fn has_bit_gone_low_does_not_step_3_dots() {
    assert_eq!(Timer::has_bit_gone_low(0, 3, 2), false);
}

#[test]
fn has_bit_gone_low_does_not_step_4_dots() {
    assert_eq!(Timer::has_bit_gone_low(0, 4, 2), false);
}

#[test]
fn has_bit_gone_low_does_not_step_7_dots() {
    assert_eq!(Timer::has_bit_gone_low(0, 7, 2), false);
}

#[test]
fn in_wrapped_range_wraps() {
    assert!(Timer::in_wrapped_range(10, 20, 15));
    assert!(!Timer::in_wrapped_range(10, 20, 21));
    assert!(Timer::in_wrapped_range(65530, 5, 0));
    assert!(Timer::in_wrapped_range(65530, 5, 65535));
    assert!(!Timer::in_wrapped_range(65530, 5, 6));
}

#[test]
fn timer_boot_registers() {
    let t = Timer::new();
    assert_eq!(t.get(0xff04), 0xab);
    assert_eq!(t.get(0xff05), 0);
    assert_eq!(t.get(0xff06), 0);
    assert_eq!(t.get(0xff07), 0xf8);
}

#[test]
fn timer_div_follows_clock_and_clears() {
    let mut t = Timer::new();
    assert!(!t.step_timer(0x100));
    assert_eq!(t.get(0xff04), 0xac);
    t.write(0xff04, 0x55);
    assert_eq!(t.get(0xff04), 0);
}

#[test]
fn timer_tima_counts_and_overflows() {
    let mut t = Timer::new();
    t.write(0xff04, 0);
    // enabled, bit 3 of the clock (every 16 dots)
    t.write(0xff07, 0b101);
    t.write(0xff06, 0x42);
    t.write(0xff05, 0xfe);
    assert!(!t.step_timer(16));
    assert_eq!(t.get(0xff05), 0xff);
    assert!(!t.step_timer(16));
    // overflowed to zero: the reload and the interrupt wait one step
    assert_eq!(t.get(0xff05), 0);
    assert!(t.step_timer(4));
    assert_eq!(t.get(0xff05), 0x42);
    // TIMA is locked on the step that reloaded it
    t.write(0xff05, 7);
    assert_eq!(t.get(0xff05), 0x42);
}

#[test]
fn timer_disabled_does_not_count() {
    let mut t = Timer::new();
    t.write(0xff07, 0b001);
    t.write(0xff05, 9);
    assert!(!t.step_timer(1000));
    assert_eq!(t.get(0xff05), 9);
}

#[test]
fn timer_write_to_tima_cancels_pending_overflow() {
    let mut t = Timer::new();
    t.write(0xff04, 0);
    t.write(0xff07, 0b101);
    t.write(0xff05, 0xff);
    assert!(!t.step_timer(16));
    assert_eq!(t.get(0xff05), 0);
    t.write(0xff05, 3);
    assert!(!t.step_timer(1));
    assert_eq!(t.get(0xff05), 3);
}
