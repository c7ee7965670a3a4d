use devicectl::battery::{Battery, PowerSupplyInfo as BatteryInfo};
use devicectl::battery_module::{BatteryModule, PowerInfo, PowerSupplyInfo};
use devicectl::gyroscope_module::GyroscopeModule;

#[test]
fn power_info_starts_empty() {
    let info = PowerInfo::new();
    assert_eq!(info.name, "");
    assert_eq!(info.supply_type, "");
    assert_eq!(info.status, "");
    assert!(!info.present);
    assert_eq!(info.voltage_now, 0);
    assert_eq!(info.current_now, 0);
    assert_eq!(info.capacity, 0);
    assert_eq!(info.capacity_level, "");
    assert_eq!(info.temp, 0);
    assert_eq!(info.technology, "");
    assert_eq!(info.charge_full, 0);
    assert_eq!(info.charge_now, 0);
    assert_eq!(info.charge_full_design, 0);
    assert_eq!(info.manufacturer, "");
}

#[test]
fn battery_module_device_round_trip() {
    let mut module = BatteryModule::new();
    assert_eq!(module.get_device(), "");
    module.set_device("/sys/class/power_supply/BAT0");
    assert_eq!(module.get_device(), "/sys/class/power_supply/BAT0");
    assert_eq!(module.path, "/sys/class/power_supply/BAT0");
    assert_eq!(module.info(), "Battery Info");
}

#[test]
fn battery_has_fixed_path() {
    let battery = Battery::new();
    assert_eq!(battery.path, "/power/v1");
    assert_eq!(battery.info(), "Battery Info");
}

#[test]
fn gyroscope_keeps_given_paths() {
    let gyro = GyroscopeModule::new("/tmp/x", "/tmp/y", "/tmp/z");
    assert_eq!(gyro.x_axis_path, "/tmp/x");
    assert_eq!(gyro.y_axis_path, "/tmp/y");
    assert_eq!(gyro.z_axis_path, "/tmp/z");
}

#[test]
fn gyroscope_default_paths() {
    let gyro = GyroscopeModule::default();
    assert_eq!(
        gyro.x_axis_path,
        "/sys/bus/iio/devices/iio:device1/in_anglvel_x_raw"
    );
    assert_eq!(
        gyro.y_axis_path,
        "/sys/bus/iio/devices/iio:device1/in_anglvel_y_raw"
    );
    assert_eq!(
        gyro.z_axis_path,
        "/sys/bus/iio/devices/iio:device1/in_anglvel_z_raw"
    );
}
