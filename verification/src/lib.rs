//! Camera-driven display brightness control with learned, zone-based
//! sensitivity.
//!
//! A frame of the camera is sampled at every `step`-th byte ([`sampler`]) and
//! the mean of the samples is the raw brightness estimate ([`estimate`]). The
//! estimate falls into one of three zones ([`zones`]); the sensitivity of that
//! zone ([`config`]) turns it into a display brightness between 0 and 100
//! percent ([`mapper`]). Where the display is afterwards found at another
//! brightness, the sensitivity of the zone is corrected ([`learner`]). The
//! cycle as a whole is a state machine that is told what happened and says
//! what to do next ([`control`]); it reads no camera and sets no display
//! itself.
//!
//! All arithmetic is exact. An estimate is kept as the sum and the number of
//! its bytes, and a sensitivity as a whole number of millionths
//! ([`coefficient`]).

pub mod coefficient;
pub mod config;
pub mod control;
pub mod estimate;
pub mod learner;
pub mod mapper;
pub mod sampler;
pub mod zones;
