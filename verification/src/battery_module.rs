//! Battery telemetry records read from sysfs-like power-supply attribute
//! files.  This module only models the data; the surrounding process does
//! the file reads and fills the fields.

use vstd::prelude::*;

verus! {

/// A flat value record of one power supply's attributes.
#[derive(Debug)]
pub struct PowerInfo {
    pub name: String,
    pub supply_type: String,
    pub status: String,
    pub present: bool,
    pub voltage_now: u32,
    pub current_now: i32,
    pub capacity: u8,
    pub capacity_level: String,
    pub temp: i32,
    pub technology: String,
    pub charge_full: u32,
    pub charge_now: u32,
    pub charge_full_design: u32,
    pub manufacturer: String,
}

impl PowerInfo {
    /// A record with every attribute at its empty or zero value.
    pub fn new() -> (r: Self)
        ensures
            r.name@ == Seq::<char>::empty(),
            r.supply_type@ == Seq::<char>::empty(),
            r.status@ == Seq::<char>::empty(),
            !r.present,
            r.voltage_now == 0,
            r.current_now == 0,
            r.capacity == 0,
            r.capacity_level@ == Seq::<char>::empty(),
            r.temp == 0,
            r.technology@ == Seq::<char>::empty(),
            r.charge_full == 0,
            r.charge_now == 0,
            r.charge_full_design == 0,
            r.manufacturer@ == Seq::<char>::empty(),
    {
        PowerInfo {
            name: String::new(),
            supply_type: String::new(),
            status: String::new(),
            present: false,
            voltage_now: 0,
            current_now: 0,
            capacity: 0,
            capacity_level: String::new(),
            temp: 0,
            technology: String::new(),
            charge_full: 0,
            charge_now: 0,
            charge_full_design: 0,
            manufacturer: String::new(),
        }
    }
}

/// Access to the attribute directory of one power-supply device.
pub struct BatteryModule {
    pub path: String,
}

impl BatteryModule {
    /// A module with no device path chosen yet.
    pub fn new() -> (r: Self)
        ensures
            r.path@ == Seq::<char>::empty(),
    {
        BatteryModule { path: String::new() }
    }
}

/// The operations a power-supply data source offers.
pub trait PowerSupplyInfo {
    /// The description the source gives of itself, as a value.
    spec fn info_view(&self) -> Seq<char>;

    /// The device path the source currently reads, as a value.
    spec fn device_view(&self) -> Seq<char>;

    /// A short human-readable description of the source.
    fn info(&self) -> (r: String)
        ensures
            r@ == self.info_view(),
    ;

    /// Point the source at the given device path.
    fn set_device(&mut self, device: &str)
        ensures
            final(self).device_view() == device@,
    ;

    /// The device path the source currently reads.
    fn get_device(&self) -> (r: &str)
        ensures
            r@ == self.device_view(),
    ;
}

impl PowerSupplyInfo for BatteryModule {
    open spec fn info_view(&self) -> Seq<char> {
        "Battery Info"@
    }

    open spec fn device_view(&self) -> Seq<char> {
        self.path@
    }

    fn info(&self) -> (r: String) {
        String::from_str("Battery Info")
    }

    fn set_device(&mut self, device: &str) {
        self.path = String::from_str(device);
    }

    fn get_device(&self) -> (r: &str) {
        self.path.as_str()
    }
}

} // verus!
