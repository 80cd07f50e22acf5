//! General-purpose timer: capability trait, mode encoding, and the
//! mode-aware initialization and delay logic.
use vstd::prelude::*;

verus! {

/// Timer enable (control register bit 0).
pub const GPT_EN: u16 = 1;
/// Output enable (bit 4).
pub const GPT_OUTPUT_EN: u16 = 16;
/// Count reset (bit 5).
pub const COUNT_RESET: u16 = 32;
/// Continuous count enable (bit 6).
pub const CONTIN_CNT_EN: u16 = 64;
/// PWM falling-edge interrupt enable (bit 7).
pub const PWM_FALL_INTR_EN: u16 = 128;
/// PWM rising-edge interrupt enable (bit 8).
pub const PWM_RISE_INTR_EN: u16 = 256;
/// Counter overflow interrupt enable (bit 9).
pub const CNTR_OFLOW_INTR_EN: u16 = 512;
/// Counter underflow interrupt enable (bit 10).
pub const CNTR_UFLOW_INTR_EN: u16 = 1024;

/// `TimerConfig::interrupt_en` value that enables the mode's interrupts.
pub const GPT_INTR_EN: bool = true;
/// `TimerConfig::interrupt_en` value that disables them.
pub const GPT_INTR_DIS: bool = false;

/// `TimerConfig::cnt_en` value that requests continuous counting.
pub const GPT_CONTIN_COUNT_EN: u32 = 1;
/// `TimerConfig::output_en` value that requests the output to be driven.
pub const GPT_OUTPUT_ENABLE_FLAG: u16 = 1;

/// Base clock frequency of the timer block, in Hz.
pub const CLOCK_FREQUENCY_BASE: u32 = 700000000;

/// Places a 2-bit mode value in the control register's mode field (bits 2-3).
pub fn gpt_mode(x: u16) -> (r: u16)
    ensures
        r == (x << 2u16),
{
    x << 2u16
}

/// Places the capture input value at bit 15 of the control register.
pub fn capture_ip(x: u16) -> (r: u16)
    ensures
        r == (x << 15u16),
{
    x << 15u16
}

/// Operating mode of a timer, held in the control register's 2-bit mode field.
#[derive(Debug, Clone, Copy, PartialEq, Eq, Structural)]
pub enum TimerMode {
    Pwm,
    UpCounter,
    DownCounter,
    UpDownCounter,
}

/// Errors reported by timer configuration.
#[derive(Debug, Clone, Copy, PartialEq, Eq, Structural)]
pub enum TimerError {
    /// A raw mode value outside 0..=3.
    InvalidMode,
    /// A PWM duty cycle outside the open range (0, 100).
    InvalidDutyCycle,
    /// The capture register did not reach zero within the polling budget.
    Timeout,
}

/// The 2-bit encoding of a mode.
pub open spec fn mode_code(m: TimerMode) -> u16 {
    match m {
        TimerMode::Pwm => 0,
        TimerMode::UpCounter => 1,
        TimerMode::DownCounter => 2,
        TimerMode::UpDownCounter => 3,
    }
}

/// The mode whose encoding is `v`, if `v` is a 2-bit value.
pub open spec fn mode_of_code(v: u8) -> Result<TimerMode, TimerError> {
    if v == 0 {
        Ok(TimerMode::Pwm)
    } else if v == 1 {
        Ok(TimerMode::UpCounter)
    } else if v == 2 {
        Ok(TimerMode::DownCounter)
    } else if v == 3 {
        Ok(TimerMode::UpDownCounter)
    } else {
        Err(TimerError::InvalidMode)
    }
}

impl TimerMode {
    /// The 2-bit encoding of this mode.
    pub fn code(self) -> (r: u16)
        ensures
            r == mode_code(self),
            r < 4,
    {
        match self {
            TimerMode::Pwm => 0,
            TimerMode::UpCounter => 1,
            TimerMode::DownCounter => 2,
            TimerMode::UpDownCounter => 3,
        }
    }
}

/// Decoding a mode's encoding gives the mode back, and no value above 3
/// decodes to a mode.
pub proof fn mode_code_round_trip(m: TimerMode, v: u8)
    ensures
        mode_of_code(mode_code(m) as u8) == Ok::<TimerMode, TimerError>(m),
        v > 3 ==> mode_of_code(v) == Err::<TimerMode, TimerError>(TimerError::InvalidMode),
        mode_of_code(v) is Ok ==> mode_code(mode_of_code(v).unwrap()) == v as u16,
{
}

impl TryFrom<u8> for TimerMode {
    type Error = TimerError;

    fn try_from(value: u8) -> (r: Result<TimerMode, TimerError>) {
        match value {
            0 => Ok(TimerMode::Pwm),
            1 => Ok(TimerMode::UpCounter),
            2 => Ok(TimerMode::DownCounter),
            3 => Ok(TimerMode::UpDownCounter),
            _ => Err(TimerError::InvalidMode),
        }
    }
}

impl vstd::std_specs::convert::TryFromSpecImpl<u8> for TimerMode {
    open spec fn obeys_try_from_spec() -> bool {
        true
    }

    open spec fn try_from_spec(v: u8) -> Result<TimerMode, TimerError> {
        mode_of_code(v)
    }
}

/// Polls of the capture register that `delay_millisecond` makes at most
/// before it gives up.
pub const DELAY_POLL_LIMIT: u64 = 4294967295;

/// Largest delay, in milliseconds, whose period fits the 32-bit period register.
pub const MAX_DELAY_MS: u32 = 4294967;

/// Duty register value for a duty cycle given in percent of `period`.
pub open spec fn duty_value(duty_cycle: u32, period: u32) -> u32 {
    ((duty_cycle as int * period as int) / 100) as u32
}

/// Computes `duty_cycle * period / 100` without overflow.
pub fn duty_register(duty_cycle: u32, period: u32) -> (r: u32)
    requires
        duty_cycle <= 100,
    ensures
        r == duty_value(duty_cycle, period),
        r as int == (duty_cycle as int * period as int) / 100,
{
    assert((duty_cycle as int) * (period as int) <= 100 * 4294967295) by (nonlinear_arith)
        requires
            duty_cycle <= 100,
            period <= 4294967295,
    ;
    let prod: u64 = (duty_cycle as u64) * (period as u64);
    assert(prod == duty_cycle as int * period as int);
    assert(prod / 100 <= period) by (nonlinear_arith)
        requires
            prod == duty_cycle as int * period as int,
            duty_cycle <= 100,
    ;
    (prod / 100) as u32
}

/// Operations a timer peripheral offers, over a model of its registers.
pub trait TimerOps {
    /// Control register.
    spec fn ctrl_reg(&self) -> u16;

    /// Period register.
    spec fn period_reg(&self) -> u32;

    /// Duty-cycle register.
    spec fn duty_reg(&self) -> u32;

    /// Clock prescaler field.
    spec fn prescaler_reg(&self) -> u16;

    /// Current counter value.
    spec fn counter_reg(&self) -> u32;

    /// Repeated-count register.
    spec fn reptd_count_reg(&self) -> u32;

    /// Capture register.
    spec fn capture_reg(&self) -> u32;

    /// The value the most recent read of the capture register returned.
    spec fn last_capture(&self) -> u32;

    /// Returns the control register to its reset value, zero.
    fn reset(&mut self)
        ensures
            final(self).ctrl_reg() == 0,
            final(self).period_reg() == old(self).period_reg(),
            final(self).duty_reg() == old(self).duty_reg(),
            final(self).prescaler_reg() == old(self).prescaler_reg(),
    ;

    /// Writes the control register with only the enable bit set.
    fn enable(&mut self)
        ensures
            final(self).ctrl_reg() == GPT_EN,
            final(self).period_reg() == old(self).period_reg(),
            final(self).duty_reg() == old(self).duty_reg(),
            final(self).prescaler_reg() == old(self).prescaler_reg(),
    ;

    fn set_period(&mut self, period: u32)
        ensures
            final(self).ctrl_reg() == old(self).ctrl_reg(),
            final(self).period_reg() == period,
            final(self).duty_reg() == old(self).duty_reg(),
            final(self).prescaler_reg() == old(self).prescaler_reg(),
    ;

    /// Writes `duty_cycle` percent of `period` to the duty-cycle register.
    fn set_dutycycle(&mut self, duty_cycle: u32, period: u32)
        requires
            duty_cycle <= 100,
        ensures
            final(self).ctrl_reg() == old(self).ctrl_reg(),
            final(self).period_reg() == old(self).period_reg(),
            final(self).duty_reg() == duty_value(duty_cycle, period),
            final(self).prescaler_reg() == old(self).prescaler_reg(),
    ;

    fn set_prescalar(&mut self, prescalar: u16)
        ensures
            final(self).ctrl_reg() == old(self).ctrl_reg(),
            final(self).period_reg() == old(self).period_reg(),
            final(self).duty_reg() == old(self).duty_reg(),
            final(self).prescaler_reg() == prescalar,
    ;

    fn read_counter_value(&self) -> (r: u32)
        ensures
            r == self.counter_reg(),
    ;

    fn read_reptdcount(&self) -> (r: u32)
        ensures
            r == self.reptd_count_reg(),
    ;

    /// Reads the capture register; the hardware may move it on afterwards,
    /// but the configuration registers stay as they were.
    fn read_captured_val(&mut self) -> (r: u32)
        ensures
            r == old(self).capture_reg(),
            final(self).last_capture() == r,
            final(self).ctrl_reg() == old(self).ctrl_reg(),
            final(self).period_reg() == old(self).period_reg(),
            final(self).duty_reg() == old(self).duty_reg(),
            final(self).prescaler_reg() == old(self).prescaler_reg(),
    ;

    fn write_ctrl_reg(&mut self, value: u16)
        ensures
            final(self).ctrl_reg() == value,
            final(self).period_reg() == old(self).period_reg(),
            final(self).duty_reg() == old(self).duty_reg(),
            final(self).prescaler_reg() == old(self).prescaler_reg(),
    ;
}

/// Register file of one timer block, held as plain values.
///
/// Each read of the capture register reports the current snapshot and then
/// moves it one step toward zero, as a one-shot count does.
#[derive(Debug, Clone, Copy, PartialEq, Eq, Structural)]
pub struct TimerRegisters {
    pub ctrl: u16,
    pub period: u32,
    pub duty_cycle: u32,
    pub prescaler: u16,
    pub count: u32,
    pub rptd_count: u32,
    pub capture: u32,
    /// What the last read of `capture` returned.
    pub last_capture: u32,
}

impl TimerRegisters {
    /// All registers at their reset value, zero.
    pub fn new() -> (r: TimerRegisters)
        ensures
            r == (TimerRegisters {
                ctrl: 0,
                period: 0,
                duty_cycle: 0,
                prescaler: 0,
                count: 0,
                rptd_count: 0,
                capture: 0,
                last_capture: 0,
            }),
    {
        TimerRegisters {
            ctrl: 0,
            period: 0,
            duty_cycle: 0,
            prescaler: 0,
            count: 0,
            rptd_count: 0,
            capture: 0,
            last_capture: 0,
        }
    }
}

impl TimerOps for TimerRegisters {
    open spec fn ctrl_reg(&self) -> u16 {
        self.ctrl
    }

    open spec fn period_reg(&self) -> u32 {
        self.period
    }

    open spec fn duty_reg(&self) -> u32 {
        self.duty_cycle
    }

    open spec fn prescaler_reg(&self) -> u16 {
        self.prescaler
    }

    open spec fn counter_reg(&self) -> u32 {
        self.count
    }

    open spec fn reptd_count_reg(&self) -> u32 {
        self.rptd_count
    }

    open spec fn capture_reg(&self) -> u32 {
        self.capture
    }

    open spec fn last_capture(&self) -> u32 {
        self.last_capture
    }

    fn reset(&mut self) {
        self.ctrl = 0;
    }

    fn enable(&mut self) {
        self.ctrl = GPT_EN;
    }

    fn set_period(&mut self, period: u32) {
        self.period = period;
    }

    fn set_dutycycle(&mut self, duty_cycle: u32, period: u32) {
        self.duty_cycle = duty_register(duty_cycle, period);
    }

    fn set_prescalar(&mut self, prescalar: u16) {
        self.prescaler = prescalar;
    }

    fn read_counter_value(&self) -> (r: u32) {
        self.count
    }

    fn read_reptdcount(&self) -> (r: u32) {
        self.rptd_count
    }

    fn read_captured_val(&mut self) -> (r: u32) {
        let v = self.capture;
        self.last_capture = v;
        if v > 0 {
            self.capture = v - 1;
        }
        v
    }

    fn write_ctrl_reg(&mut self, value: u16) {
        self.ctrl = value;
    }
}

/// Settings for one timer initialization.
#[derive(Debug, Clone, Copy, PartialEq, Eq, Structural)]
pub struct TimerConfig {
    pub period: u32,
    pub prescalar: u16,
    pub mode: TimerMode,
    pub interrupt_en: bool,
    /// PWM duty cycle in percent; must lie strictly between 0 and 100 in PWM mode.
    pub duty_cycle: u32,
    /// Equal to `GPT_CONTIN_COUNT_EN` to request continuous counting.
    pub cnt_en: u32,
    pub capture_val: u16,
    /// Equal to `GPT_OUTPUT_ENABLE_FLAG` to drive the output.
    pub output_en: u16,
}

/// A configuration is accepted unless it asks for PWM with a duty cycle
/// outside (0, 100).
pub open spec fn config_valid(c: TimerConfig) -> bool {
    c.mode != TimerMode::Pwm || (0 < c.duty_cycle && c.duty_cycle < 100)
}

/// Interrupt-enable bits that a mode contributes to the control word.
pub open spec fn interrupt_bits(mode: TimerMode, interrupt_en: bool) -> u16 {
    match mode {
        TimerMode::Pwm => PWM_FALL_INTR_EN | PWM_RISE_INTR_EN,
        TimerMode::UpCounter => if interrupt_en { CNTR_OFLOW_INTR_EN } else { 0 },
        TimerMode::DownCounter => if interrupt_en { CNTR_UFLOW_INTR_EN } else { 0 },
        TimerMode::UpDownCounter => if interrupt_en {
            CNTR_OFLOW_INTR_EN | CNTR_UFLOW_INTR_EN
        } else {
            0
        },
    }
}

/// The single control word that initialization writes: the optional
/// continuous-count and output bits, the mode's interrupt bits, the enable
/// bit, the mode field, the capture input and the count reset.
pub open spec fn control_word(c: TimerConfig) -> u16 {
    (if c.cnt_en == GPT_CONTIN_COUNT_EN { CONTIN_CNT_EN } else { 0u16 }) | (if c.output_en
        == GPT_OUTPUT_ENABLE_FLAG {
        GPT_OUTPUT_EN
    } else {
        0u16
    }) | interrupt_bits(c.mode, c.interrupt_en) | GPT_EN | (mode_code(c.mode) << 2u16) | (
    c.capture_val << 15u16) | COUNT_RESET
}

/// The configuration a millisecond delay of `delay` runs with.
pub open spec fn delay_config(c: TimerConfig, delay: u32) -> TimerConfig {
    TimerConfig {
        period: (delay * 1000) as u32,
        prescalar: (CLOCK_FREQUENCY_BASE / 1000000) as u16,
        ..c
    }
}

/// Computes the control word of `config`.
pub fn control_bits(config: &TimerConfig) -> (r: u16)
    ensures
        r == control_word(*config),
{
    let cont: u16 = if config.cnt_en == GPT_CONTIN_COUNT_EN {
        CONTIN_CNT_EN
    } else {
        0
    };
    let out: u16 = if config.output_en == GPT_OUTPUT_ENABLE_FLAG {
        GPT_OUTPUT_EN
    } else {
        0
    };
    let intr: u16 = match config.mode {
        TimerMode::Pwm => PWM_FALL_INTR_EN | PWM_RISE_INTR_EN,
        TimerMode::UpCounter => if config.interrupt_en == GPT_INTR_EN {
            CNTR_OFLOW_INTR_EN
        } else {
            0
        },
        TimerMode::DownCounter => if config.interrupt_en == GPT_INTR_EN {
            CNTR_UFLOW_INTR_EN
        } else {
            0
        },
        TimerMode::UpDownCounter => if config.interrupt_en == GPT_INTR_EN {
            CNTR_OFLOW_INTR_EN | CNTR_UFLOW_INTR_EN
        } else {
            0
        },
    };
    cont | out | intr | GPT_EN | gpt_mode(config.mode.code()) | capture_ip(config.capture_val)
        | COUNT_RESET
}

/// The decision a delay takes on one read of the capture register: `value`
/// is what the read returned and `polls` how many reads came after the first.
/// Zero ends the delay; a non-zero value polls again until the budget is spent.
pub fn poll_outcome(value: u32, polls: u64) -> (r: Option<Result<(), TimerError>>)
    ensures
        value == 0 ==> r == Some(Ok::<(), TimerError>(())),
        value != 0 && polls >= DELAY_POLL_LIMIT ==> r == Some(
            Err::<(), TimerError>(TimerError::Timeout),
        ),
        value != 0 && polls < DELAY_POLL_LIMIT ==> r is None,
{
    if value == 0 {
        Some(Ok(()))
    } else if polls >= DELAY_POLL_LIMIT {
        Some(Err(TimerError::Timeout))
    } else {
        None
    }
}

/// A timer driven through its capability.
pub struct GPTimer<T: TimerOps> {
    timer: T,
}

impl<T: TimerOps> GPTimer<T> {
    /// The capability this timer drives.
    pub closed spec fn regs(&self) -> T {
        self.timer
    }

    pub fn new(timer: T) -> (r: Self)
        ensures
            r.regs() == timer,
    {
        GPTimer { timer }
    }

    /// Borrows the capability.
    pub fn timer(&self) -> (r: &T)
        ensures
            *r == self.regs(),
    {
        &self.timer
    }

    /// Gives the capability back.
    pub fn free(self) -> (r: T)
        ensures
            r == self.regs(),
    {
        self.timer
    }

    /// Programs period and prescaler, then checks the configuration: a PWM
    /// duty cycle outside (0, 100) is refused with nothing more written.
    /// Otherwise writes the PWM duty cycle when in PWM mode, and then the
    /// whole control word in one write.
    pub fn initialize(&mut self, config: TimerConfig) -> (r: Result<(), TimerError>)
        ensures
            r is Ok <==> config_valid(config),
            !config_valid(config) ==> r == Err::<(), TimerError>(TimerError::InvalidDutyCycle),
            final(self).regs().period_reg() == config.period,
            final(self).regs().prescaler_reg() == config.prescalar,
            final(self).regs().ctrl_reg() == if config_valid(config) {
                control_word(config)
            } else {
                old(self).regs().ctrl_reg()
            },
            final(self).regs().duty_reg() == if config_valid(config) && config.mode
                == TimerMode::Pwm {
                duty_value(config.duty_cycle, config.period)
            } else {
                old(self).regs().duty_reg()
            },
    {
        self.timer.set_period(config.period);
        self.timer.set_prescalar(config.prescalar);
        let is_pwm = match config.mode {
            TimerMode::Pwm => true,
            _ => false,
        };
        if is_pwm {
            if !(config.duty_cycle < 100 && config.duty_cycle > 0) {
                return Err(TimerError::InvalidDutyCycle);
            }
            self.timer.set_dutycycle(config.duty_cycle, config.period);
        }
        let word = control_bits(&config);
        self.timer.write_ctrl_reg(word);
        Ok(())
    }

    /// Writes the count-reset bit alone to the control register.
    pub fn reset(&mut self)
        ensures
            final(self).regs().ctrl_reg() == COUNT_RESET,
            final(self).regs().period_reg() == old(self).regs().period_reg(),
            final(self).regs().duty_reg() == old(self).regs().duty_reg(),
            final(self).regs().prescaler_reg() == old(self).regs().prescaler_reg(),
    {
        self.timer.write_ctrl_reg(COUNT_RESET);
    }

    /// Runs `config` as a one-shot of `delay` milliseconds (period
    /// `delay * 1000`, prescaler `CLOCK_FREQUENCY_BASE / 1_000_000`) and polls
    /// the capture register until a read returns zero, giving up with
    /// `Timeout` when `DELAY_POLL_LIMIT` reads after the first have all been
    /// non-zero. Each read is decided by `poll_outcome`.
    pub fn delay_millisecond(&mut self, config: TimerConfig, delay: u32) -> (r: Result<
        (),
        TimerError,
    >)
        requires
            delay <= MAX_DELAY_MS,
        ensures
            final(self).regs().period_reg() == delay * 1000,
            final(self).regs().prescaler_reg() == 700,
            !config_valid(config) ==> {
                &&& r == Err::<(), TimerError>(TimerError::InvalidDutyCycle)
                &&& final(self).regs().ctrl_reg() == old(self).regs().ctrl_reg()
                &&& final(self).regs().duty_reg() == old(self).regs().duty_reg()
            },
            config_valid(config) ==> {
                &&& r is Ok || r == Err::<(), TimerError>(TimerError::Timeout)
                &&& (r is Ok <==> final(self).regs().last_capture() == 0)
                &&& final(self).regs().ctrl_reg() == control_word(delay_config(config, delay))
                &&& final(self).regs().duty_reg() == if config.mode == TimerMode::Pwm {
                    duty_value(config.duty_cycle, (delay * 1000) as u32)
                } else {
                    old(self).regs().duty_reg()
                }
            },
    {
        let prescalar: u16 = (CLOCK_FREQUENCY_BASE / 1000000) as u16;
        let period: u32 = delay * 1000;
        let mut one_shot = config;
        one_shot.period = period;
        one_shot.prescalar = prescalar;
        let res = self.initialize(one_shot);
        if res.is_err() {
            return res;
        }
        let ghost set_up = self.regs();
        let mut polls: u64 = 0;
        loop
            invariant
                polls <= DELAY_POLL_LIMIT,
                set_up.period_reg() == delay * 1000,
                set_up.prescaler_reg() == 700,
                config_valid(config),
                set_up.ctrl_reg() == control_word(delay_config(config, delay)),
                set_up.duty_reg() == if config.mode == TimerMode::Pwm {
                    duty_value(config.duty_cycle, (delay * 1000) as u32)
                } else {
                    old(self).regs().duty_reg()
                },
                self.regs().period_reg() == set_up.period_reg(),
                self.regs().prescaler_reg() == set_up.prescaler_reg(),
                self.regs().ctrl_reg() == set_up.ctrl_reg(),
                self.regs().duty_reg() == set_up.duty_reg(),
            decreases DELAY_POLL_LIMIT - polls,
        {
            let value = self.timer.read_captured_val();
            match poll_outcome(value, polls) {
                Some(outcome) => {
                    return outcome;
                },
                None => {
                    polls = polls + 1;
                },
            }
        }
    }
}

} // verus!
