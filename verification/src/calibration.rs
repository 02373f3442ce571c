//! Results of the multi-stage sensor calibration sequences.
//!
//! Offsets, scales and fitness are held in thousandths: an offset of 12 is
//! 0.012 of the sensor unit, a scale of 1001 is a factor of 1.001, and a
//! fitness of 980 is a quality of 0.98 on the unit scale.

use vstd::prelude::*;

verus! {

/// What one completed calibration run reports: per-axis offsets and
/// scales (three each, in thousandths) and a fitness score in thousandths
/// on the unit scale.
#[derive(Debug)]
pub struct CalibrationResult {
    pub success: bool,
    pub sensor_type: String,
    pub offsets: Vec<i64>,
    pub scales: Vec<i64>,
    /// Calibration quality in thousandths: 1000 is a perfect fit.
    pub fitness: u32,
    pub message: String,
}

/// The mathematical value of a [`CalibrationResult`].
#[verifier::ext_equal]
pub struct CalibrationModel {
    pub success: bool,
    pub sensor_type: Seq<char>,
    pub offsets: Seq<i64>,
    pub scales: Seq<i64>,
    pub fitness: u32,
    pub message: Seq<char>,
}

impl View for CalibrationResult {
    type V = CalibrationModel;

    open spec fn view(&self) -> CalibrationModel {
        CalibrationModel {
            success: self.success,
            sensor_type: self.sensor_type@,
            offsets: self.offsets@,
            scales: self.scales@,
            fitness: self.fitness,
            message: self.message@,
        }
    }
}

impl Clone for CalibrationResult {
    /// An exact copy of the result.
    fn clone(&self) -> (r: Self)
        ensures
            r@ == self@,
    {
        let mut offsets: Vec<i64> = Vec::new();
        let mut i: usize = 0;
        while i < self.offsets.len()
            invariant
                offsets@ == self.offsets@.take(i as int),
                0 <= i <= self.offsets.len(),
            decreases self.offsets.len() - i,
        {
            offsets.push(self.offsets[i]);
            proof {
                assert(offsets@ =~= self.offsets@.take(i + 1));
            }
            i = i + 1;
        }
        let mut scales: Vec<i64> = Vec::new();
        let mut j: usize = 0;
        while j < self.scales.len()
            invariant
                scales@ == self.scales@.take(j as int),
                0 <= j <= self.scales.len(),
            decreases self.scales.len() - j,
        {
            scales.push(self.scales[j]);
            proof {
                assert(scales@ =~= self.scales@.take(j + 1));
            }
            j = j + 1;
        }
        let r = CalibrationResult {
            success: self.success,
            sensor_type: self.sensor_type.clone(),
            offsets,
            scales,
            fitness: self.fitness,
            message: self.message.clone(),
        };
        proof {
            assert(self.offsets@.take(self.offsets@.len() as int) =~= self.offsets@);
            assert(self.scales@.take(self.scales@.len() as int) =~= self.scales@);
            assert(r@ =~= self@);
        }
        r
    }
}

/// What a completed accelerometer calibration reports.
pub open spec fn accelerometer_result() -> CalibrationModel {
    CalibrationModel {
        success: true,
        sensor_type: "Accelerometer"@,
        offsets: seq![12i64, -8i64, 3i64],
        scales: seq![1001i64, 998i64, 1002i64],
        fitness: 980,
        message: "Accelerometer calibration successful"@,
    }
}

/// What a completed gyroscope calibration reports.
pub open spec fn gyroscope_result() -> CalibrationModel {
    CalibrationModel {
        success: true,
        sensor_type: "Gyroscope"@,
        offsets: seq![-2i64, 1i64, -3i64],
        scales: seq![1000i64, 1000i64, 1000i64],
        fitness: 990,
        message: "Gyroscope calibration successful"@,
    }
}

/// Builds the accelerometer calibration report.
pub fn accelerometer_calibration_result() -> (r: CalibrationResult)
    ensures
        r@ == accelerometer_result(),
{
    let mut offsets: Vec<i64> = Vec::new();
    offsets.push(12);
    offsets.push(-8);
    offsets.push(3);
    let mut scales: Vec<i64> = Vec::new();
    scales.push(1001);
    scales.push(998);
    scales.push(1002);
    let r = CalibrationResult {
        success: true,
        sensor_type: "Accelerometer".to_owned(),
        offsets,
        scales,
        fitness: 980,
        message: "Accelerometer calibration successful".to_owned(),
    };
    proof {
        assert(r.offsets@ =~= accelerometer_result().offsets);
        assert(r.scales@ =~= accelerometer_result().scales);
        assert(r@ =~= accelerometer_result());
    }
    r
}

/// Builds the gyroscope calibration report.
pub fn gyroscope_calibration_result() -> (r: CalibrationResult)
    ensures
        r@ == gyroscope_result(),
{
    let mut offsets: Vec<i64> = Vec::new();
    offsets.push(-2);
    offsets.push(1);
    offsets.push(-3);
    let mut scales: Vec<i64> = Vec::new();
    scales.push(1000);
    scales.push(1000);
    scales.push(1000);
    let r = CalibrationResult {
        success: true,
        sensor_type: "Gyroscope".to_owned(),
        offsets,
        scales,
        fitness: 990,
        message: "Gyroscope calibration successful".to_owned(),
    };
    proof {
        assert(r.offsets@ =~= gyroscope_result().offsets);
        assert(r.scales@ =~= gyroscope_result().scales);
        assert(r@ =~= gyroscope_result());
    }
    r
}

} // verus!
