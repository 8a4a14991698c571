//! Frame-rate calibration: during a short warm-up after start the host
//! reports the achieved frames per second once per frame; the median of
//! those reports becomes the rate that movement speeds are scaled against.
use vstd::prelude::*;

use crate::stats::{median, median_of};

verus! {

/// Length of the warm-up window, in microseconds.
pub const WARM_UP_MICROS: u64 = 500_000;

/// Why calibration produced no rate.
#[derive(Clone, Copy, Debug, PartialEq, Eq, Structural)]
pub enum CalibrationError {
    /// The warm-up window closed before a single frame was sampled.
    InsufficientSamples,
}

/// The frame-rate samples gathered so far during the warm-up.
pub struct FpsCalibration {
    samples: Vec<i32>,
}

impl View for FpsCalibration {
    type V = Seq<i32>;

    closed spec fn view(&self) -> Seq<i32> {
        self.samples@
    }
}

impl FpsCalibration {
    /// A calibration with no samples yet.
    pub fn new() -> (r: FpsCalibration)
        ensures
            r@ == Seq::<i32>::empty(),
    {
        FpsCalibration { samples: Vec::new() }
    }

    /// Number of samples gathered.
    pub fn sample_count(&self) -> (r: usize)
        ensures
            r == self@.len(),
    {
        self.samples.len()
    }

    /// One frame of the warm-up, `elapsed_micros` after it began, at which
    /// the host reports `fps`. While the window is open the report is kept
    /// and `true` says that the host should wait for the next frame and call
    /// again; once it has closed nothing is kept and `false` is returned.
    pub fn on_frame(&mut self, elapsed_micros: u64, fps: i32) -> (sampling: bool)
        ensures
            sampling == (elapsed_micros < WARM_UP_MICROS),
            sampling ==> final(self)@ == old(self)@.push(fps),
            !sampling ==> final(self)@ == old(self)@,
    {
        if elapsed_micros < WARM_UP_MICROS {
            self.samples.push(fps);
            true
        } else {
            false
        }
    }

    /// The calibrated rate: the median of the samples, or an error when
    /// there are none.
    pub fn finish(self) -> (r: Result<i32, CalibrationError>)
        ensures
            r is Err <==> self@.len() == 0,
            r matches Ok(v) ==> v == median_of(self@),
            r matches Err(e) ==> e == CalibrationError::InsufficientSamples,
    {
        let mut samples = self.samples;
        if samples.len() == 0 {
            Err(CalibrationError::InsufficientSamples)
        } else {
            let v = median(samples.as_mut_slice());
            Ok(v)
        }
    }
}

} // verus!
