//! Which functions each pin can be routed to.
//!
//! A pin enters an alternate mode only for a function that it is listed
//! with here. Function 0 is the port's own input and output.

use vstd::prelude::*;
use crate::gpio::marker::IntoAf;
use crate::gpio::Pin;

verus! {

// PA0
impl<MODE> IntoAf<0> for Pin<0, 0, MODE> {}

// PA1
impl<MODE> IntoAf<0> for Pin<0, 1, MODE> {}
impl<MODE> IntoAf<1> for Pin<0, 1, MODE> {}

// PA2
impl<MODE> IntoAf<0> for Pin<0, 2, MODE> {}
impl<MODE> IntoAf<1> for Pin<0, 2, MODE> {}

// PA3
impl<MODE> IntoAf<0> for Pin<0, 3, MODE> {}
impl<MODE> IntoAf<1> for Pin<0, 3, MODE> {}
impl<MODE> IntoAf<2> for Pin<0, 3, MODE> {}

// PA4
impl<MODE> IntoAf<0> for Pin<0, 4, MODE> {}
impl<MODE> IntoAf<1> for Pin<0, 4, MODE> {}
impl<MODE> IntoAf<2> for Pin<0, 4, MODE> {}

// PA5
impl<MODE> IntoAf<0> for Pin<0, 5, MODE> {}
impl<MODE> IntoAf<1> for Pin<0, 5, MODE> {}
impl<MODE> IntoAf<2> for Pin<0, 5, MODE> {}

// PA6
impl<MODE> IntoAf<0> for Pin<0, 6, MODE> {}
impl<MODE> IntoAf<1> for Pin<0, 6, MODE> {}
impl<MODE> IntoAf<2> for Pin<0, 6, MODE> {}

// PA7
impl<MODE> IntoAf<0> for Pin<0, 7, MODE> {}

// PB0
impl<MODE> IntoAf<0> for Pin<1, 0, MODE> {}
impl<MODE> IntoAf<1> for Pin<1, 0, MODE> {}
impl<MODE> IntoAf<2> for Pin<1, 0, MODE> {}
impl<MODE> IntoAf<4> for Pin<1, 0, MODE> {}
impl<MODE> IntoAf<5> for Pin<1, 0, MODE> {}

// PB1
impl<MODE> IntoAf<0> for Pin<1, 1, MODE> {}
impl<MODE> IntoAf<1> for Pin<1, 1, MODE> {}
impl<MODE> IntoAf<2> for Pin<1, 1, MODE> {}
impl<MODE> IntoAf<4> for Pin<1, 1, MODE> {}
impl<MODE> IntoAf<5> for Pin<1, 1, MODE> {}

// PB2
impl<MODE> IntoAf<0> for Pin<1, 2, MODE> {}
impl<MODE> IntoAf<1> for Pin<1, 2, MODE> {}
impl<MODE> IntoAf<2> for Pin<1, 2, MODE> {}
impl<MODE> IntoAf<4> for Pin<1, 2, MODE> {}
impl<MODE> IntoAf<5> for Pin<1, 2, MODE> {}

// PB3
impl<MODE> IntoAf<0> for Pin<1, 3, MODE> {}
impl<MODE> IntoAf<1> for Pin<1, 3, MODE> {}
impl<MODE> IntoAf<2> for Pin<1, 3, MODE> {}
impl<MODE> IntoAf<4> for Pin<1, 3, MODE> {}
impl<MODE> IntoAf<5> for Pin<1, 3, MODE> {}

// PB4
impl<MODE> IntoAf<0> for Pin<1, 4, MODE> {}
impl<MODE> IntoAf<1> for Pin<1, 4, MODE> {}
impl<MODE> IntoAf<2> for Pin<1, 4, MODE> {}
impl<MODE> IntoAf<3> for Pin<1, 4, MODE> {}
impl<MODE> IntoAf<4> for Pin<1, 4, MODE> {}
impl<MODE> IntoAf<5> for Pin<1, 4, MODE> {}

// PB5
impl<MODE> IntoAf<0> for Pin<1, 5, MODE> {}
impl<MODE> IntoAf<1> for Pin<1, 5, MODE> {}
impl<MODE> IntoAf<2> for Pin<1, 5, MODE> {}
impl<MODE> IntoAf<3> for Pin<1, 5, MODE> {}
impl<MODE> IntoAf<4> for Pin<1, 5, MODE> {}
impl<MODE> IntoAf<5> for Pin<1, 5, MODE> {}

// PB6
impl<MODE> IntoAf<0> for Pin<1, 6, MODE> {}
impl<MODE> IntoAf<1> for Pin<1, 6, MODE> {}
impl<MODE> IntoAf<2> for Pin<1, 6, MODE> {}
impl<MODE> IntoAf<3> for Pin<1, 6, MODE> {}
impl<MODE> IntoAf<4> for Pin<1, 6, MODE> {}
impl<MODE> IntoAf<5> for Pin<1, 6, MODE> {}

// PB7
impl<MODE> IntoAf<0> for Pin<1, 7, MODE> {}
impl<MODE> IntoAf<1> for Pin<1, 7, MODE> {}
impl<MODE> IntoAf<2> for Pin<1, 7, MODE> {}
impl<MODE> IntoAf<3> for Pin<1, 7, MODE> {}
impl<MODE> IntoAf<4> for Pin<1, 7, MODE> {}
impl<MODE> IntoAf<5> for Pin<1, 7, MODE> {}

// PC0
impl<MODE> IntoAf<0> for Pin<2, 0, MODE> {}
impl<MODE> IntoAf<1> for Pin<2, 0, MODE> {}
impl<MODE> IntoAf<2> for Pin<2, 0, MODE> {}
impl<MODE> IntoAf<3> for Pin<2, 0, MODE> {}
impl<MODE> IntoAf<4> for Pin<2, 0, MODE> {}
impl<MODE> IntoAf<5> for Pin<2, 0, MODE> {}
impl<MODE> IntoAf<6> for Pin<2, 0, MODE> {}
impl<MODE> IntoAf<7> for Pin<2, 0, MODE> {}

// PC1
impl<MODE> IntoAf<0> for Pin<2, 1, MODE> {}
impl<MODE> IntoAf<1> for Pin<2, 1, MODE> {}
impl<MODE> IntoAf<2> for Pin<2, 1, MODE> {}
impl<MODE> IntoAf<3> for Pin<2, 1, MODE> {}
impl<MODE> IntoAf<4> for Pin<2, 1, MODE> {}
impl<MODE> IntoAf<5> for Pin<2, 1, MODE> {}
impl<MODE> IntoAf<6> for Pin<2, 1, MODE> {}
impl<MODE> IntoAf<7> for Pin<2, 1, MODE> {}

// PC2
impl<MODE> IntoAf<0> for Pin<2, 2, MODE> {}
impl<MODE> IntoAf<1> for Pin<2, 2, MODE> {}
impl<MODE> IntoAf<2> for Pin<2, 2, MODE> {}
impl<MODE> IntoAf<3> for Pin<2, 2, MODE> {}
impl<MODE> IntoAf<4> for Pin<2, 2, MODE> {}
impl<MODE> IntoAf<5> for Pin<2, 2, MODE> {}
impl<MODE> IntoAf<7> for Pin<2, 2, MODE> {}

// PC3
impl<MODE> IntoAf<0> for Pin<2, 3, MODE> {}
impl<MODE> IntoAf<1> for Pin<2, 3, MODE> {}
impl<MODE> IntoAf<2> for Pin<2, 3, MODE> {}
impl<MODE> IntoAf<4> for Pin<2, 3, MODE> {}
impl<MODE> IntoAf<5> for Pin<2, 3, MODE> {}
impl<MODE> IntoAf<7> for Pin<2, 3, MODE> {}

// PC4
impl<MODE> IntoAf<0> for Pin<2, 4, MODE> {}
impl<MODE> IntoAf<1> for Pin<2, 4, MODE> {}
impl<MODE> IntoAf<2> for Pin<2, 4, MODE> {}
impl<MODE> IntoAf<3> for Pin<2, 4, MODE> {}
impl<MODE> IntoAf<4> for Pin<2, 4, MODE> {}
impl<MODE> IntoAf<5> for Pin<2, 4, MODE> {}
impl<MODE> IntoAf<6> for Pin<2, 4, MODE> {}
impl<MODE> IntoAf<7> for Pin<2, 4, MODE> {}

// PC5
impl<MODE> IntoAf<0> for Pin<2, 5, MODE> {}
impl<MODE> IntoAf<1> for Pin<2, 5, MODE> {}
impl<MODE> IntoAf<2> for Pin<2, 5, MODE> {}
impl<MODE> IntoAf<3> for Pin<2, 5, MODE> {}
impl<MODE> IntoAf<4> for Pin<2, 5, MODE> {}
impl<MODE> IntoAf<5> for Pin<2, 5, MODE> {}
impl<MODE> IntoAf<6> for Pin<2, 5, MODE> {}
impl<MODE> IntoAf<7> for Pin<2, 5, MODE> {}

// PC6
impl<MODE> IntoAf<0> for Pin<2, 6, MODE> {}
impl<MODE> IntoAf<1> for Pin<2, 6, MODE> {}
impl<MODE> IntoAf<2> for Pin<2, 6, MODE> {}
impl<MODE> IntoAf<3> for Pin<2, 6, MODE> {}
impl<MODE> IntoAf<4> for Pin<2, 6, MODE> {}
impl<MODE> IntoAf<5> for Pin<2, 6, MODE> {}
impl<MODE> IntoAf<7> for Pin<2, 6, MODE> {}

// PC7
impl<MODE> IntoAf<0> for Pin<2, 7, MODE> {}
impl<MODE> IntoAf<1> for Pin<2, 7, MODE> {}
impl<MODE> IntoAf<2> for Pin<2, 7, MODE> {}
impl<MODE> IntoAf<4> for Pin<2, 7, MODE> {}
impl<MODE> IntoAf<5> for Pin<2, 7, MODE> {}
impl<MODE> IntoAf<6> for Pin<2, 7, MODE> {}
impl<MODE> IntoAf<7> for Pin<2, 7, MODE> {}

// PD0
impl<MODE> IntoAf<0> for Pin<3, 0, MODE> {}
impl<MODE> IntoAf<1> for Pin<3, 0, MODE> {}
impl<MODE> IntoAf<2> for Pin<3, 0, MODE> {}
impl<MODE> IntoAf<3> for Pin<3, 0, MODE> {}
impl<MODE> IntoAf<5> for Pin<3, 0, MODE> {}
impl<MODE> IntoAf<6> for Pin<3, 0, MODE> {}
impl<MODE> IntoAf<7> for Pin<3, 0, MODE> {}

// PD1
impl<MODE> IntoAf<0> for Pin<3, 1, MODE> {}
impl<MODE> IntoAf<1> for Pin<3, 1, MODE> {}
impl<MODE> IntoAf<2> for Pin<3, 1, MODE> {}
impl<MODE> IntoAf<3> for Pin<3, 1, MODE> {}
impl<MODE> IntoAf<5> for Pin<3, 1, MODE> {}
impl<MODE> IntoAf<6> for Pin<3, 1, MODE> {}
impl<MODE> IntoAf<7> for Pin<3, 1, MODE> {}

// PD2
impl<MODE> IntoAf<0> for Pin<3, 2, MODE> {}
impl<MODE> IntoAf<1> for Pin<3, 2, MODE> {}
impl<MODE> IntoAf<2> for Pin<3, 2, MODE> {}
impl<MODE> IntoAf<3> for Pin<3, 2, MODE> {}
impl<MODE> IntoAf<5> for Pin<3, 2, MODE> {}

// PD3
impl<MODE> IntoAf<0> for Pin<3, 3, MODE> {}
impl<MODE> IntoAf<1> for Pin<3, 3, MODE> {}
impl<MODE> IntoAf<2> for Pin<3, 3, MODE> {}
impl<MODE> IntoAf<5> for Pin<3, 3, MODE> {}
impl<MODE> IntoAf<6> for Pin<3, 3, MODE> {}
impl<MODE> IntoAf<7> for Pin<3, 3, MODE> {}

// PD4
impl<MODE> IntoAf<0> for Pin<3, 4, MODE> {}
impl<MODE> IntoAf<1> for Pin<3, 4, MODE> {}
impl<MODE> IntoAf<2> for Pin<3, 4, MODE> {}
impl<MODE> IntoAf<3> for Pin<3, 4, MODE> {}
impl<MODE> IntoAf<4> for Pin<3, 4, MODE> {}
impl<MODE> IntoAf<5> for Pin<3, 4, MODE> {}
impl<MODE> IntoAf<6> for Pin<3, 4, MODE> {}
impl<MODE> IntoAf<7> for Pin<3, 4, MODE> {}

// PD5
impl<MODE> IntoAf<0> for Pin<3, 5, MODE> {}
impl<MODE> IntoAf<1> for Pin<3, 5, MODE> {}
impl<MODE> IntoAf<2> for Pin<3, 5, MODE> {}
impl<MODE> IntoAf<3> for Pin<3, 5, MODE> {}
impl<MODE> IntoAf<4> for Pin<3, 5, MODE> {}
impl<MODE> IntoAf<5> for Pin<3, 5, MODE> {}
impl<MODE> IntoAf<6> for Pin<3, 5, MODE> {}
impl<MODE> IntoAf<7> for Pin<3, 5, MODE> {}

// PD6
impl<MODE> IntoAf<0> for Pin<3, 6, MODE> {}
impl<MODE> IntoAf<1> for Pin<3, 6, MODE> {}
impl<MODE> IntoAf<2> for Pin<3, 6, MODE> {}
impl<MODE> IntoAf<3> for Pin<3, 6, MODE> {}
impl<MODE> IntoAf<4> for Pin<3, 6, MODE> {}
impl<MODE> IntoAf<5> for Pin<3, 6, MODE> {}
impl<MODE> IntoAf<6> for Pin<3, 6, MODE> {}
impl<MODE> IntoAf<7> for Pin<3, 6, MODE> {}

// PD7
impl<MODE> IntoAf<0> for Pin<3, 7, MODE> {}
impl<MODE> IntoAf<1> for Pin<3, 7, MODE> {}
impl<MODE> IntoAf<2> for Pin<3, 7, MODE> {}
impl<MODE> IntoAf<5> for Pin<3, 7, MODE> {}
impl<MODE> IntoAf<6> for Pin<3, 7, MODE> {}
impl<MODE> IntoAf<7> for Pin<3, 7, MODE> {}

// PE0
impl<MODE> IntoAf<0> for Pin<4, 0, MODE> {}
impl<MODE> IntoAf<1> for Pin<4, 0, MODE> {}
impl<MODE> IntoAf<2> for Pin<4, 0, MODE> {}
impl<MODE> IntoAf<3> for Pin<4, 0, MODE> {}
impl<MODE> IntoAf<4> for Pin<4, 0, MODE> {}
impl<MODE> IntoAf<5> for Pin<4, 0, MODE> {}
impl<MODE> IntoAf<6> for Pin<4, 0, MODE> {}
impl<MODE> IntoAf<7> for Pin<4, 0, MODE> {}

// PE1
impl<MODE> IntoAf<0> for Pin<4, 1, MODE> {}
impl<MODE> IntoAf<1> for Pin<4, 1, MODE> {}
impl<MODE> IntoAf<2> for Pin<4, 1, MODE> {}
impl<MODE> IntoAf<3> for Pin<4, 1, MODE> {}
impl<MODE> IntoAf<4> for Pin<4, 1, MODE> {}
impl<MODE> IntoAf<5> for Pin<4, 1, MODE> {}
impl<MODE> IntoAf<6> for Pin<4, 1, MODE> {}
impl<MODE> IntoAf<7> for Pin<4, 1, MODE> {}

// PE2
impl<MODE> IntoAf<0> for Pin<4, 2, MODE> {}
impl<MODE> IntoAf<1> for Pin<4, 2, MODE> {}
impl<MODE> IntoAf<2> for Pin<4, 2, MODE> {}
impl<MODE> IntoAf<3> for Pin<4, 2, MODE> {}
impl<MODE> IntoAf<4> for Pin<4, 2, MODE> {}
impl<MODE> IntoAf<5> for Pin<4, 2, MODE> {}
impl<MODE> IntoAf<6> for Pin<4, 2, MODE> {}
impl<MODE> IntoAf<7> for Pin<4, 2, MODE> {}

// PE3
impl<MODE> IntoAf<0> for Pin<4, 3, MODE> {}
impl<MODE> IntoAf<1> for Pin<4, 3, MODE> {}
impl<MODE> IntoAf<2> for Pin<4, 3, MODE> {}
impl<MODE> IntoAf<3> for Pin<4, 3, MODE> {}
impl<MODE> IntoAf<5> for Pin<4, 3, MODE> {}
impl<MODE> IntoAf<6> for Pin<4, 3, MODE> {}

// PE4
impl<MODE> IntoAf<0> for Pin<4, 4, MODE> {}
impl<MODE> IntoAf<1> for Pin<4, 4, MODE> {}
impl<MODE> IntoAf<2> for Pin<4, 4, MODE> {}
impl<MODE> IntoAf<3> for Pin<4, 4, MODE> {}
impl<MODE> IntoAf<4> for Pin<4, 4, MODE> {}
impl<MODE> IntoAf<5> for Pin<4, 4, MODE> {}
impl<MODE> IntoAf<6> for Pin<4, 4, MODE> {}

// PE5
impl<MODE> IntoAf<0> for Pin<4, 5, MODE> {}
impl<MODE> IntoAf<1> for Pin<4, 5, MODE> {}
impl<MODE> IntoAf<2> for Pin<4, 5, MODE> {}
impl<MODE> IntoAf<3> for Pin<4, 5, MODE> {}
impl<MODE> IntoAf<4> for Pin<4, 5, MODE> {}
impl<MODE> IntoAf<5> for Pin<4, 5, MODE> {}
impl<MODE> IntoAf<6> for Pin<4, 5, MODE> {}

// PE6
impl<MODE> IntoAf<0> for Pin<4, 6, MODE> {}
impl<MODE> IntoAf<1> for Pin<4, 6, MODE> {}
impl<MODE> IntoAf<2> for Pin<4, 6, MODE> {}
impl<MODE> IntoAf<3> for Pin<4, 6, MODE> {}
impl<MODE> IntoAf<4> for Pin<4, 6, MODE> {}
impl<MODE> IntoAf<5> for Pin<4, 6, MODE> {}
impl<MODE> IntoAf<6> for Pin<4, 6, MODE> {}

// PE7
impl<MODE> IntoAf<0> for Pin<4, 7, MODE> {}
impl<MODE> IntoAf<1> for Pin<4, 7, MODE> {}
impl<MODE> IntoAf<2> for Pin<4, 7, MODE> {}
impl<MODE> IntoAf<4> for Pin<4, 7, MODE> {}
impl<MODE> IntoAf<5> for Pin<4, 7, MODE> {}
impl<MODE> IntoAf<6> for Pin<4, 7, MODE> {}

// PF0
impl<MODE> IntoAf<0> for Pin<5, 0, MODE> {}
impl<MODE> IntoAf<1> for Pin<5, 0, MODE> {}
impl<MODE> IntoAf<2> for Pin<5, 0, MODE> {}
impl<MODE> IntoAf<3> for Pin<5, 0, MODE> {}
impl<MODE> IntoAf<4> for Pin<5, 0, MODE> {}
impl<MODE> IntoAf<5> for Pin<5, 0, MODE> {}
impl<MODE> IntoAf<6> for Pin<5, 0, MODE> {}
impl<MODE> IntoAf<7> for Pin<5, 0, MODE> {}

// PF1
impl<MODE> IntoAf<0> for Pin<5, 1, MODE> {}
impl<MODE> IntoAf<1> for Pin<5, 1, MODE> {}
impl<MODE> IntoAf<2> for Pin<5, 1, MODE> {}
impl<MODE> IntoAf<3> for Pin<5, 1, MODE> {}
impl<MODE> IntoAf<4> for Pin<5, 1, MODE> {}
impl<MODE> IntoAf<5> for Pin<5, 1, MODE> {}
impl<MODE> IntoAf<6> for Pin<5, 1, MODE> {}
impl<MODE> IntoAf<7> for Pin<5, 1, MODE> {}

// PF2
impl<MODE> IntoAf<0> for Pin<5, 2, MODE> {}
impl<MODE> IntoAf<1> for Pin<5, 2, MODE> {}
impl<MODE> IntoAf<2> for Pin<5, 2, MODE> {}
impl<MODE> IntoAf<3> for Pin<5, 2, MODE> {}
impl<MODE> IntoAf<4> for Pin<5, 2, MODE> {}
impl<MODE> IntoAf<5> for Pin<5, 2, MODE> {}
impl<MODE> IntoAf<6> for Pin<5, 2, MODE> {}
impl<MODE> IntoAf<7> for Pin<5, 2, MODE> {}

// PF3
impl<MODE> IntoAf<0> for Pin<5, 3, MODE> {}
impl<MODE> IntoAf<1> for Pin<5, 3, MODE> {}
impl<MODE> IntoAf<2> for Pin<5, 3, MODE> {}
impl<MODE> IntoAf<3> for Pin<5, 3, MODE> {}
impl<MODE> IntoAf<4> for Pin<5, 3, MODE> {}
impl<MODE> IntoAf<5> for Pin<5, 3, MODE> {}
impl<MODE> IntoAf<6> for Pin<5, 3, MODE> {}
impl<MODE> IntoAf<7> for Pin<5, 3, MODE> {}

// PF4
impl<MODE> IntoAf<0> for Pin<5, 4, MODE> {}
impl<MODE> IntoAf<1> for Pin<5, 4, MODE> {}
impl<MODE> IntoAf<2> for Pin<5, 4, MODE> {}
impl<MODE> IntoAf<4> for Pin<5, 4, MODE> {}
impl<MODE> IntoAf<5> for Pin<5, 4, MODE> {}
impl<MODE> IntoAf<6> for Pin<5, 4, MODE> {}
impl<MODE> IntoAf<7> for Pin<5, 4, MODE> {}

// PF5
impl<MODE> IntoAf<0> for Pin<5, 5, MODE> {}
impl<MODE> IntoAf<1> for Pin<5, 5, MODE> {}
impl<MODE> IntoAf<2> for Pin<5, 5, MODE> {}
impl<MODE> IntoAf<4> for Pin<5, 5, MODE> {}
impl<MODE> IntoAf<5> for Pin<5, 5, MODE> {}
impl<MODE> IntoAf<7> for Pin<5, 5, MODE> {}

// PF6
impl<MODE> IntoAf<0> for Pin<5, 6, MODE> {}
impl<MODE> IntoAf<1> for Pin<5, 6, MODE> {}
impl<MODE> IntoAf<2> for Pin<5, 6, MODE> {}
impl<MODE> IntoAf<4> for Pin<5, 6, MODE> {}
impl<MODE> IntoAf<5> for Pin<5, 6, MODE> {}
impl<MODE> IntoAf<6> for Pin<5, 6, MODE> {}
impl<MODE> IntoAf<7> for Pin<5, 6, MODE> {}

// PF7
impl<MODE> IntoAf<0> for Pin<5, 7, MODE> {}
impl<MODE> IntoAf<1> for Pin<5, 7, MODE> {}
impl<MODE> IntoAf<2> for Pin<5, 7, MODE> {}
impl<MODE> IntoAf<5> for Pin<5, 7, MODE> {}
impl<MODE> IntoAf<6> for Pin<5, 7, MODE> {}
impl<MODE> IntoAf<7> for Pin<5, 7, MODE> {}

// PG0
impl<MODE> IntoAf<0> for Pin<6, 0, MODE> {}
impl<MODE> IntoAf<1> for Pin<6, 0, MODE> {}
impl<MODE> IntoAf<2> for Pin<6, 0, MODE> {}
impl<MODE> IntoAf<3> for Pin<6, 0, MODE> {}
impl<MODE> IntoAf<5> for Pin<6, 0, MODE> {}
impl<MODE> IntoAf<6> for Pin<6, 0, MODE> {}
impl<MODE> IntoAf<7> for Pin<6, 0, MODE> {}

// PG1
impl<MODE> IntoAf<0> for Pin<6, 1, MODE> {}
impl<MODE> IntoAf<1> for Pin<6, 1, MODE> {}
impl<MODE> IntoAf<2> for Pin<6, 1, MODE> {}
impl<MODE> IntoAf<3> for Pin<6, 1, MODE> {}
impl<MODE> IntoAf<5> for Pin<6, 1, MODE> {}
impl<MODE> IntoAf<6> for Pin<6, 1, MODE> {}
impl<MODE> IntoAf<7> for Pin<6, 1, MODE> {}

// PG2
impl<MODE> IntoAf<0> for Pin<6, 2, MODE> {}
impl<MODE> IntoAf<1> for Pin<6, 2, MODE> {}
impl<MODE> IntoAf<2> for Pin<6, 2, MODE> {}
impl<MODE> IntoAf<3> for Pin<6, 2, MODE> {}
impl<MODE> IntoAf<5> for Pin<6, 2, MODE> {}
impl<MODE> IntoAf<6> for Pin<6, 2, MODE> {}
impl<MODE> IntoAf<7> for Pin<6, 2, MODE> {}

// PG3
impl<MODE> IntoAf<0> for Pin<6, 3, MODE> {}
impl<MODE> IntoAf<1> for Pin<6, 3, MODE> {}
impl<MODE> IntoAf<2> for Pin<6, 3, MODE> {}
impl<MODE> IntoAf<5> for Pin<6, 3, MODE> {}
impl<MODE> IntoAf<6> for Pin<6, 3, MODE> {}

// PG4
impl<MODE> IntoAf<0> for Pin<6, 4, MODE> {}
impl<MODE> IntoAf<1> for Pin<6, 4, MODE> {}
impl<MODE> IntoAf<2> for Pin<6, 4, MODE> {}
impl<MODE> IntoAf<3> for Pin<6, 4, MODE> {}
impl<MODE> IntoAf<4> for Pin<6, 4, MODE> {}
impl<MODE> IntoAf<5> for Pin<6, 4, MODE> {}
impl<MODE> IntoAf<6> for Pin<6, 4, MODE> {}
impl<MODE> IntoAf<7> for Pin<6, 4, MODE> {}

// PG5
impl<MODE> IntoAf<0> for Pin<6, 5, MODE> {}
impl<MODE> IntoAf<1> for Pin<6, 5, MODE> {}
impl<MODE> IntoAf<2> for Pin<6, 5, MODE> {}
impl<MODE> IntoAf<3> for Pin<6, 5, MODE> {}
impl<MODE> IntoAf<5> for Pin<6, 5, MODE> {}
impl<MODE> IntoAf<6> for Pin<6, 5, MODE> {}
impl<MODE> IntoAf<7> for Pin<6, 5, MODE> {}

// PG6
impl<MODE> IntoAf<0> for Pin<6, 6, MODE> {}
impl<MODE> IntoAf<1> for Pin<6, 6, MODE> {}
impl<MODE> IntoAf<2> for Pin<6, 6, MODE> {}
impl<MODE> IntoAf<3> for Pin<6, 6, MODE> {}
impl<MODE> IntoAf<5> for Pin<6, 6, MODE> {}
impl<MODE> IntoAf<6> for Pin<6, 6, MODE> {}
impl<MODE> IntoAf<7> for Pin<6, 6, MODE> {}

// PG7
impl<MODE> IntoAf<0> for Pin<6, 7, MODE> {}
impl<MODE> IntoAf<2> for Pin<6, 7, MODE> {}
impl<MODE> IntoAf<5> for Pin<6, 7, MODE> {}

} // verus!
