//! The programmable sound generator of the HuC6280: six wavetable channels,
//! two of them with a noise source, a low-frequency oscillator, logarithmic
//! volume mixing and an interval timer.
//!
//! The chip is modelled as a mathematical value, [`psg::model::PsgView`], and
//! every operation as a function on that value. The executable type
//! [`psg::Psg`] is proved to compute exactly those functions, without
//! overflow and without indexing out of bounds. What holds of all states and
//! between operations is proved in [`psg::laws`].
//!
//! Samples come out as integers. A host that wants the chip's output stage
//! smoothed filters them itself.

pub mod psg;
