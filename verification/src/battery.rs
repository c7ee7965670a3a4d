//! The battery collaborator as seen from the process entry point: a fixed
//! endpoint path and a flat record of power-supply attributes.

use vstd::prelude::*;

verus! {

/// A flat value record of one power supply's attributes.
#[derive(Debug)]
pub struct PowerSupply {
    pub name: String,
    pub supply_type: String,
    pub status: String,
    pub present: bool,
    pub voltage_now: u32,
    pub current_now: i32,
    pub capacity: u8,
    pub capacity_level: String,
    pub temp: i32,
    pub technology: String,
    pub charge_full: u32,
    pub charge_now: u32,
    pub charge_full_design: u32,
    pub manufacturer: String,
}

/// The operations a power-supply data source offers.
pub trait PowerSupplyInfo {
    /// The description the source gives of itself, as a value.
    spec fn info_view(&self) -> Seq<char>;

    /// A short human-readable description of the source.
    fn info(&self) -> (r: String)
        ensures
            r@ == self.info_view(),
    ;
}

/// The battery endpoint of the device-control surface.
pub struct Battery {
    pub path: String,
}

impl PowerSupplyInfo for Battery {
    open spec fn info_view(&self) -> Seq<char> {
        "Battery Info"@
    }

    fn info(&self) -> (r: String) {
        String::from_str("Battery Info")
    }
}

impl Battery {
    /// A battery endpoint under its fixed path.
    pub fn new() -> (r: Self)
        ensures
            r.path@ == "/power/v1"@,
    {
        Battery { path: String::from_str("/power/v1") }
    }
}

} // verus!
