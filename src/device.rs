//! Per-model parameters of the source device.
use vstd::prelude::*;

verus! {

/// Axis ranges, touch-surface size and default device paths of one model.
#[derive(Clone, Copy, Debug)]
pub struct DeviceProfile {
    pub name: &'static str,
    pub pen_x_min: i32,
    pub pen_x_max: i32,
    pub pen_y_min: i32,
    pub pen_y_max: i32,
    pub pen_pressure_max: i32,
    pub pen_distance_max: i32,
    pub pen_tilt_range: i32,
    pub touch_x_max: i32,
    pub touch_y_max: i32,
    pub touch_resolution: i32,
    pub pen_device: &'static str,
    pub touch_device: &'static str,
}

pub const RM2_NAME: &'static str = "reMarkable 2";

pub const RM2_PEN_DEVICE: &'static str = "/dev/input/event1";

pub const RM2_TOUCH_DEVICE: &'static str = "/dev/input/event2";

/// The reMarkable 2: a 1872 x 1404 display of about 210 x 158 mm.
pub open spec fn is_rm2(p: DeviceProfile) -> bool {
    &&& p.name@ == RM2_NAME@
    &&& p.pen_x_min == 0
    &&& p.pen_x_max == 21000
    &&& p.pen_y_min == 0
    &&& p.pen_y_max == 16000
    &&& p.pen_pressure_max == 4095
    &&& p.pen_distance_max == 255
    &&& p.pen_tilt_range == 8192
    &&& p.touch_x_max == 1872
    &&& p.touch_y_max == 1404
    &&& p.touch_resolution == 9
    &&& p.pen_device@ == RM2_PEN_DEVICE@
    &&& p.touch_device@ == RM2_TOUCH_DEVICE@
}

impl DeviceProfile {
    /// The profile of the reMarkable 2.
    pub fn rm2() -> (r: DeviceProfile)
        ensures
            is_rm2(r),
    {
        DeviceProfile {
            name: RM2_NAME,
            pen_x_min: 0,
            pen_x_max: 21000,
            pen_y_min: 0,
            pen_y_max: 16000,
            pen_pressure_max: 4095,
            pen_distance_max: 255,
            pen_tilt_range: 8192,
            touch_x_max: 1872,
            touch_y_max: 1404,
            touch_resolution: 9,
            pen_device: RM2_PEN_DEVICE,
            touch_device: RM2_TOUCH_DEVICE,
        }
    }

    /// The profile of the device in use: the reMarkable 2.
    pub fn current() -> (r: DeviceProfile)
        ensures
            is_rm2(r),
    {
        DeviceProfile::rm2()
    }
}

} // verus!
