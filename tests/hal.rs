use riscv_hal::device::Device;
use riscv_hal::gpio::{GpioOps, GpioPin, GpioPinOps, GpioRegisters};
use riscv_hal::serial::{Serial, SerialError, UartRegisters};
use riscv_hal::timer::{
    DELAY_POLL_LIMIT,
    capture_ip, duty_register, gpt_mode, poll_outcome, GPTimer, TimerConfig, TimerError, TimerMode,
    TimerOps, TimerRegisters,
};

#[test]
fn it_works() {
    assert_eq!(2 + 2, 4);
}

#[test]
fn set_high_then_low_every_pin() {
    for i in 0..32u8 {
        let mut pin = GpioPin::new(GpioRegisters::new(), i);
        pin.set_high();
        assert!(pin.is_high());
        assert!(!pin.is_low());
        assert_eq!(pin.gpio().data, 1u32 << i);
        pin.set_low();
        assert!(!pin.is_high());
        assert!(pin.is_low());
        assert_eq!(pin.gpio().data, 0);
    }
}

#[test]
fn set_low_keeps_other_pins() {
    let mut regs = GpioRegisters::new();
    regs.write_data(0xFFFF_FFFF);
    let mut pin = GpioPin::new(regs, 5);
    pin.set_low();
    assert_eq!(pin.gpio().data, 0xFFFF_FFDF);
    assert!(pin.is_low());
}

#[test]
fn toggle_flips_and_two_toggles_restore() {
    let mut regs = GpioRegisters::new();
    regs.write_data(0x0000_00F0);
    let mut pin = GpioPin::new(regs, 4);
    assert!(pin.is_high());
    pin.toggle();
    assert!(pin.is_low());
    assert_eq!(pin.gpio().data, 0x0000_00E0);
    pin.toggle();
    assert!(pin.is_high());
    assert_eq!(pin.gpio().data, 0x0000_00F0);
}

#[test]
fn direction_and_interrupt_bits() {
    let mut regs = GpioRegisters::new();
    regs.set_direction(3, true);
    regs.set_direction(31, true);
    assert_eq!(regs.direction, 0x8000_0008);
    regs.set_direction(3, false);
    assert_eq!(regs.direction, 0x8000_0000);
    regs.enable_interrupt(0);
    regs.enable_interrupt(7);
    assert_eq!(regs.intr, 0x81);
    regs.disable_interrupt(0);
    assert_eq!(regs.intr, 0x80);
    assert_eq!(regs.read_data(), 0);
}

#[test]
fn device_has_32_distinct_pins() {
    let device = Device::new(GpioRegisters::new());
    assert_eq!(device.pins.len(), 32);
    for (i, slot) in device.pins.iter().enumerate() {
        let pin = slot.as_ref().unwrap();
        assert_eq!(pin.index() as usize, i);
    }
}

#[test]
fn take_slot_twice_is_present_then_absent() {
    let mut device = Device::new(GpioRegisters::new());
    let first = device.take_pin(7);
    assert_eq!(first.unwrap().index(), 7);
    assert!(device.take_pin(7).is_none());
    assert!(device.pins[7].is_none());
    assert!(device.pins[8].is_some());
    assert!(device.take_pin(32).is_none());
}

#[test]
fn take_from_pins_field() {
    let mut device = Device::new(GpioRegisters::new());
    let mut pin0 = device.pins[0].take().unwrap();
    pin0.set_high();
    assert!(pin0.is_high());
    assert!(device.pins[0].take().is_none());
}

#[test]
fn mode_and_capture_fields() {
    assert_eq!(gpt_mode(0), 0);
    assert_eq!(gpt_mode(3), 12);
    assert_eq!(capture_ip(1), 0x8000);
    assert_eq!(capture_ip(3), 0x8000);
    assert_eq!(capture_ip(2), 0);
}

#[test]
fn timer_mode_from_raw() {
    assert_eq!(TimerMode::try_from(0u8), Ok(TimerMode::Pwm));
    assert_eq!(TimerMode::try_from(1u8), Ok(TimerMode::UpCounter));
    assert_eq!(TimerMode::try_from(2u8), Ok(TimerMode::DownCounter));
    assert_eq!(TimerMode::try_from(3u8), Ok(TimerMode::UpDownCounter));
    assert_eq!(TimerMode::try_from(4u8), Err(TimerError::InvalidMode));
    assert_eq!(TimerMode::try_from(255u8), Err(TimerError::InvalidMode));
    assert_eq!(TimerMode::UpDownCounter.code(), 3);
}

fn config(mode: TimerMode, duty_cycle: u32, period: u32) -> TimerConfig {
    TimerConfig {
        period,
        prescalar: 7,
        mode,
        interrupt_en: true,
        duty_cycle,
        cnt_en: 0,
        capture_val: 0,
        output_en: 0,
    }
}

#[test]
fn pwm_duty_fifty_percent() {
    let mut timer = GPTimer::new(TimerRegisters::new());
    assert_eq!(timer.initialize(config(TimerMode::Pwm, 50, 1000)), Ok(()));
    let regs = timer.timer();
    assert_eq!(regs.duty_cycle, 500);
    assert_eq!(regs.period, 1000);
    assert_eq!(regs.prescaler, 7);
    // enable | pwm fall | pwm rise | count reset
    assert_eq!(regs.ctrl, 1 | 128 | 256 | 32);
}

#[test]
fn pwm_duty_zero_and_hundred_rejected() {
    let mut timer = GPTimer::new(TimerRegisters::new());
    assert_eq!(
        timer.initialize(config(TimerMode::Pwm, 0, 1000)),
        Err(TimerError::InvalidDutyCycle)
    );
    assert_eq!(
        timer.initialize(config(TimerMode::Pwm, 100, 1000)),
        Err(TimerError::InvalidDutyCycle)
    );
    let regs = timer.timer();
    assert_eq!(regs.period, 1000);
    assert_eq!(regs.prescaler, 7);
    assert_eq!(regs.ctrl, 0);
    assert_eq!(regs.duty_cycle, 0);
}

#[test]
fn duty_register_large_period() {
    assert_eq!(duty_register(99, 0xFFFF_FFFF), 4252017622);
    assert_eq!(duty_register(1, 50), 0);
    assert_eq!(duty_register(100, 0xFFFF_FFFF), 0xFFFF_FFFF);
    assert_eq!(duty_register(0, 1000), 0);
    let mut regs = TimerRegisters::new();
    regs.set_dutycycle(100, 10);
    assert_eq!(regs.duty_cycle, 10);
    regs.set_dutycycle(0, 10);
    assert_eq!(regs.duty_cycle, 0);
}

#[test]
fn counter_modes_control_word() {
    let mut timer = GPTimer::new(TimerRegisters::new());
    let mut c = config(TimerMode::UpCounter, 0, 10);
    c.cnt_en = 1;
    c.output_en = 1;
    c.capture_val = 1;
    assert_eq!(timer.initialize(c), Ok(()));
    assert_eq!(timer.timer().ctrl, 1 | (1 << 2) | 16 | 32 | 64 | 512 | 0x8000);
    assert_eq!(timer.timer().duty_cycle, 0);

    let mut c = config(TimerMode::DownCounter, 0, 10);
    c.interrupt_en = false;
    assert_eq!(timer.initialize(c), Ok(()));
    assert_eq!(timer.timer().ctrl, 1 | (2 << 2) | 32);

    let c = config(TimerMode::DownCounter, 0, 10);
    assert_eq!(timer.initialize(c), Ok(()));
    assert_eq!(timer.timer().ctrl, 1 | (2 << 2) | 32 | 1024);

    let c = config(TimerMode::UpDownCounter, 0, 10);
    assert_eq!(timer.initialize(c), Ok(()));
    assert_eq!(timer.timer().ctrl, 1 | (3 << 2) | 32 | 512 | 1024);
}

#[test]
fn timer_reset_writes_count_reset_only() {
    let mut timer = GPTimer::new(TimerRegisters::new());
    assert_eq!(timer.initialize(config(TimerMode::UpCounter, 0, 10)), Ok(()));
    timer.reset();
    assert_eq!(timer.timer().ctrl, 32);
    assert_eq!(timer.timer().period, 10);
}

#[test]
fn delay_hundred_milliseconds() {
    let mut regs = TimerRegisters::new();
    regs.capture = 3;
    let mut timer = GPTimer::new(regs);
    let c = config(TimerMode::DownCounter, 7, 1000);
    assert_eq!(timer.delay_millisecond(c, 100), Ok(()));
    let regs = timer.free();
    assert_eq!(regs.prescaler, 700);
    assert_eq!(regs.period, 100_000);
    assert_eq!(regs.capture, 0);
    assert_eq!(regs.ctrl, 1 | (2 << 2) | 32 | 1024);
}

#[test]
fn delay_with_bad_pwm_config_is_refused() {
    let mut timer = GPTimer::new(TimerRegisters::new());
    let c = config(TimerMode::Pwm, 100, 1000);
    assert_eq!(timer.delay_millisecond(c, 10), Err(TimerError::InvalidDutyCycle));
    assert_eq!(timer.timer().period, 10_000);
    assert_eq!(timer.timer().prescaler, 700);
    assert_eq!(timer.timer().ctrl, 0);
    assert_eq!(timer.timer().last_capture, 0);
}

#[test]
fn delay_reads_until_zero() {
    let mut regs = TimerRegisters::new();
    regs.capture = 5;
    let mut timer = GPTimer::new(regs);
    let c = config(TimerMode::UpCounter, 0, 1);
    assert_eq!(timer.delay_millisecond(c, 1), Ok(()));
    assert_eq!(timer.timer().last_capture, 0);
    assert_eq!(timer.timer().capture, 0);
}

#[test]
fn poll_decisions() {
    assert_eq!(poll_outcome(0, 0), Some(Ok(())));
    assert_eq!(poll_outcome(0, DELAY_POLL_LIMIT), Some(Ok(())));
    assert_eq!(poll_outcome(3, 0), None);
    assert_eq!(poll_outcome(3, DELAY_POLL_LIMIT - 1), None);
    assert_eq!(poll_outcome(3, DELAY_POLL_LIMIT), Some(Err(TimerError::Timeout)));
}

#[test]
fn capability_reads() {
    let mut regs = TimerRegisters::new();
    regs.count = 9;
    regs.rptd_count = 4;
    regs.capture = 2;
    assert_eq!(regs.read_counter_value(), 9);
    assert_eq!(regs.read_reptdcount(), 4);
    assert_eq!(regs.read_captured_val(), 2);
    assert_eq!(regs.last_capture, 2);
    assert_eq!(regs.capture, 1);
    regs.enable();
    assert_eq!(regs.ctrl, 1);
    regs.reset();
    assert_eq!(regs.ctrl, 0);
}

#[test]
fn serial_init_is_8n1() {
    let mut serial = Serial::new(UartRegisters::new());
    serial.init(9600);
    let u = serial.uart();
    assert_eq!(u.baud, 9600);
    assert_eq!((u.stop_bits, u.parity, u.char_size), (0, 0, 0));
}

#[test]
fn serial_write_and_flush() {
    let mut u = UartRegisters::new();
    u.tx_full = true;
    u.tx_empty = false;
    let mut serial = Serial::new(u);
    assert_eq!(serial.write(0x41), Err(nb::Error::WouldBlock));
    assert_eq!(serial.flush(), Err(nb::Error::WouldBlock));
    assert_eq!(serial.uart().tx_data, 0);

    let mut serial = Serial::new(UartRegisters::new());
    assert_eq!(serial.write(0x41), Ok(()));
    assert_eq!(serial.uart().tx_data, 0x41);
    assert_eq!(serial.flush(), Ok(()));
}

#[test]
fn serial_read_error_priority() {
    let mut u = UartRegisters::new();
    u.frame_err = true;
    u.overrun_err = true;
    u.rx_not_empty = true;
    let mut serial = Serial::new(u);
    assert_eq!(serial.read(), Err(nb::Error::Other(SerialError::Framing)));

    u.frame_err = false;
    u.parity_err = true;
    assert_eq!(Serial::new(u).read(), Err(nb::Error::Other(SerialError::Parity)));
    u.parity_err = false;
    u.break_err = true;
    assert_eq!(Serial::new(u).read(), Err(nb::Error::Other(SerialError::Break)));
    u.break_err = false;
    assert_eq!(Serial::new(u).read(), Err(nb::Error::Other(SerialError::Overrun)));
}

#[test]
fn serial_read_byte_or_would_block() {
    let mut u = UartRegisters::new();
    let mut serial = Serial::new(u);
    assert_eq!(serial.read(), Err(nb::Error::WouldBlock));
    u.rx_not_empty = true;
    u.rx_data = 0x1_5A;
    assert_eq!(Serial::new(u).read(), Ok(0x5A));
}
