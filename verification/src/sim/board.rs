//! The simulated board: the peripheral singleton set of the simulated
//! platform.
//!
//! Every peripheral sits in a single-use slot.  Taking a peripheral
//! empties its slot, and taking it a second time is a wiring defect —
//! excluded by precondition here, where the hardware platform would
//! abort.

use vstd::prelude::*;

use crate::platform::Boot;
use crate::platform::Platform;
use crate::sim::error::Error;
use crate::sim::pin::FloatingInput;
use crate::sim::pin::SimPin;
use crate::sim::timer::OneShot;
use crate::sim::timer::SimTimer;
use crate::task::Context;
use crate::task::Poll;
use crate::timer::Timer;

verus! {

/// The simulated device's fixed peripherals, each takeable exactly
/// once.  Pins boot as floating inputs with a low line; timers boot
/// one-shot, unarmed and quiet.
pub struct SimBoard {
    led: Option<SimPin<FloatingInput>>,
    d2: Option<SimPin<FloatingInput>>,
    d3: Option<SimPin<FloatingInput>>,
    sda: Option<SimPin<FloatingInput>>,
    scl: Option<SimPin<FloatingInput>>,
    timer0: Option<SimTimer<OneShot>>,
    timer1: Option<SimTimer<OneShot>>,
}

impl SimBoard {
    /// Whether the main LED pin has been taken.
    pub closed spec fn led_taken(self) -> bool {
        self.led is None
    }

    /// Whether general-purpose pin 2 has been taken.
    pub closed spec fn d2_taken(self) -> bool {
        self.d2 is None
    }

    /// Whether general-purpose pin 3 has been taken.
    pub closed spec fn d3_taken(self) -> bool {
        self.d3 is None
    }

    /// Whether the data pin of the main I2C bus has been taken.
    pub closed spec fn sda_taken(self) -> bool {
        self.sda is None
    }

    /// Whether the clock pin of the main I2C bus has been taken.
    pub closed spec fn scl_taken(self) -> bool {
        self.scl is None
    }

    /// Whether the first timer has been taken.
    pub closed spec fn timer0_taken(self) -> bool {
        self.timer0 is None
    }

    /// Whether the second timer has been taken.
    pub closed spec fn timer1_taken(self) -> bool {
        self.timer1 is None
    }

    /// The boot state of every stored peripheral: pins low, timers
    /// fresh.
    pub closed spec fn pristine(self) -> bool {
        &&& self.led matches Some(p) ==> !p.line_spec()
        &&& self.d2 matches Some(p) ==> !p.line_spec()
        &&& self.d3 matches Some(p) ==> !p.line_spec()
        &&& self.sda matches Some(p) ==> !p.line_spec()
        &&& self.scl matches Some(p) ==> !p.line_spec()
        &&& self.timer0 matches Some(t) ==> !t.started() && !t.triggered()
            && t.stored_waker() is None && t.interval() == 1
        &&& self.timer1 matches Some(t) ==> !t.started() && !t.triggered()
            && t.stored_waker() is None && t.interval() == 1
    }

    /// Take the main LED pin.
    pub fn take_main_led(&mut self) -> (p: SimPin<FloatingInput>)
        requires
            !old(self).led_taken(),
            old(self).pristine(),
        ensures
            final(self).led_taken(),
            final(self).pristine(),
            final(self).d2_taken() == old(self).d2_taken(),
            final(self).d3_taken() == old(self).d3_taken(),
            final(self).sda_taken() == old(self).sda_taken(),
            final(self).scl_taken() == old(self).scl_taken(),
            final(self).timer0_taken() == old(self).timer0_taken(),
            final(self).timer1_taken() == old(self).timer1_taken(),
            !p.line_spec(),
    {
        self.led.take().unwrap()
    }

    /// Take general-purpose pin 2.
    pub fn take_d2(&mut self) -> (p: SimPin<FloatingInput>)
        requires
            !old(self).d2_taken(),
            old(self).pristine(),
        ensures
            final(self).d2_taken(),
            final(self).pristine(),
            final(self).led_taken() == old(self).led_taken(),
            final(self).d3_taken() == old(self).d3_taken(),
            final(self).sda_taken() == old(self).sda_taken(),
            final(self).scl_taken() == old(self).scl_taken(),
            final(self).timer0_taken() == old(self).timer0_taken(),
            final(self).timer1_taken() == old(self).timer1_taken(),
            !p.line_spec(),
    {
        self.d2.take().unwrap()
    }

    /// Take general-purpose pin 3.
    pub fn take_d3(&mut self) -> (p: SimPin<FloatingInput>)
        requires
            !old(self).d3_taken(),
            old(self).pristine(),
        ensures
            final(self).d3_taken(),
            final(self).pristine(),
            final(self).led_taken() == old(self).led_taken(),
            final(self).d2_taken() == old(self).d2_taken(),
            final(self).sda_taken() == old(self).sda_taken(),
            final(self).scl_taken() == old(self).scl_taken(),
            final(self).timer0_taken() == old(self).timer0_taken(),
            final(self).timer1_taken() == old(self).timer1_taken(),
            !p.line_spec(),
    {
        self.d3.take().unwrap()
    }

    /// Take the data pin of the main I2C bus.
    pub fn take_sda(&mut self) -> (p: SimPin<FloatingInput>)
        requires
            !old(self).sda_taken(),
            old(self).pristine(),
        ensures
            final(self).sda_taken(),
            final(self).pristine(),
            final(self).led_taken() == old(self).led_taken(),
            final(self).d2_taken() == old(self).d2_taken(),
            final(self).d3_taken() == old(self).d3_taken(),
            final(self).scl_taken() == old(self).scl_taken(),
            final(self).timer0_taken() == old(self).timer0_taken(),
            final(self).timer1_taken() == old(self).timer1_taken(),
            !p.line_spec(),
    {
        self.sda.take().unwrap()
    }

    /// Take the clock pin of the main I2C bus.
    pub fn take_scl(&mut self) -> (p: SimPin<FloatingInput>)
        requires
            !old(self).scl_taken(),
            old(self).pristine(),
        ensures
            final(self).scl_taken(),
            final(self).pristine(),
            final(self).led_taken() == old(self).led_taken(),
            final(self).d2_taken() == old(self).d2_taken(),
            final(self).d3_taken() == old(self).d3_taken(),
            final(self).sda_taken() == old(self).sda_taken(),
            final(self).timer0_taken() == old(self).timer0_taken(),
            final(self).timer1_taken() == old(self).timer1_taken(),
            !p.line_spec(),
    {
        self.scl.take().unwrap()
    }

    /// Take the first timer.
    pub fn take_timer0(&mut self) -> (t: SimTimer<OneShot>)
        requires
            !old(self).timer0_taken(),
            old(self).pristine(),
        ensures
            final(self).timer0_taken(),
            final(self).pristine(),
            final(self).led_taken() == old(self).led_taken(),
            final(self).d2_taken() == old(self).d2_taken(),
            final(self).d3_taken() == old(self).d3_taken(),
            final(self).sda_taken() == old(self).sda_taken(),
            final(self).scl_taken() == old(self).scl_taken(),
            final(self).timer1_taken() == old(self).timer1_taken(),
            !t.started(),
            !t.triggered(),
            t.stored_waker() is None,
            t.interval() == 1,
    {
        self.timer0.take().unwrap()
    }

    /// Take the second timer.
    pub fn take_timer1(&mut self) -> (t: SimTimer<OneShot>)
        requires
            !old(self).timer1_taken(),
            old(self).pristine(),
        ensures
            final(self).timer1_taken(),
            final(self).pristine(),
            final(self).led_taken() == old(self).led_taken(),
            final(self).d2_taken() == old(self).d2_taken(),
            final(self).d3_taken() == old(self).d3_taken(),
            final(self).sda_taken() == old(self).sda_taken(),
            final(self).scl_taken() == old(self).scl_taken(),
            final(self).timer0_taken() == old(self).timer0_taken(),
            !t.started(),
            !t.triggered(),
            t.stored_waker() is None,
            t.interval() == 1,
    {
        self.timer1.take().unwrap()
    }
}

impl Platform for SimBoard {
    type Error = Error;

    open spec fn inv(&self) -> bool {
        self.pristine()
    }

    /// Initialization resolves in a single poll, with every slot full.
    open spec fn initialize_spec(r: Poll<Result<SimBoard, Error>>) -> bool {
        &&& r matches Poll::Ready(Result::Ok(b))
        &&& r matches Poll::Ready(Result::Ok(b)) ==> {
            &&& !b.led_taken()
            &&& !b.d2_taken()
            &&& !b.d3_taken()
            &&& !b.sda_taken()
            &&& !b.scl_taken()
            &&& !b.timer0_taken()
            &&& !b.timer1_taken()
        }
    }

    fn poll_initialize(boot: &mut Boot, cx: Context) -> (r: Poll<Result<SimBoard, Error>>) {
        boot.claim();
        let board = SimBoard {
            led: Some(SimPin::floating(false)),
            d2: Some(SimPin::floating(false)),
            d3: Some(SimPin::floating(false)),
            sda: Some(SimPin::floating(false)),
            scl: Some(SimPin::floating(false)),
            timer0: Some(SimTimer::new()),
            timer1: Some(SimTimer::new()),
        };
        Poll::Ready(Ok(board))
    }
}

} // verus!
