//! Gyroscope axis configuration: which sysfs attribute file each axis is
//! read from and written to.  The reads and writes themselves (floating
//! point over file I/O) are done by the surrounding process.

use vstd::prelude::*;

verus! {

/// The three per-axis attribute paths of one gyroscope device.
#[derive(Debug)]
pub struct GyroscopeModule {
    pub x_axis_path: String,
    pub y_axis_path: String,
    pub z_axis_path: String,
}

impl Default for GyroscopeModule {
    /// The conventional industrial-I/O paths of the first gyroscope device.
    fn default() -> (r: Self)
        ensures
            r.x_axis_path@ == "/sys/bus/iio/devices/iio:device1/in_anglvel_x_raw"@,
            r.y_axis_path@ == "/sys/bus/iio/devices/iio:device1/in_anglvel_y_raw"@,
            r.z_axis_path@ == "/sys/bus/iio/devices/iio:device1/in_anglvel_z_raw"@,
    {
        GyroscopeModule {
            x_axis_path: String::from_str("/sys/bus/iio/devices/iio:device1/in_anglvel_x_raw"),
            y_axis_path: String::from_str("/sys/bus/iio/devices/iio:device1/in_anglvel_y_raw"),
            z_axis_path: String::from_str("/sys/bus/iio/devices/iio:device1/in_anglvel_z_raw"),
        }
    }
}

impl GyroscopeModule {
    /// A module reading the three given attribute paths.
    pub fn new(x_path: &str, y_path: &str, z_path: &str) -> (r: Self)
        ensures
            r.x_axis_path@ == x_path@,
            r.y_axis_path@ == y_path@,
            r.z_axis_path@ == z_path@,
    {
        GyroscopeModule {
            x_axis_path: String::from_str(x_path),
            y_axis_path: String::from_str(y_path),
            z_axis_path: String::from_str(z_path),
        }
    }
}

} // verus!
