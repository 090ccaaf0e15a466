use vstd::prelude::*;

verus! {

/// The program's command-line settings.
#[derive(Debug, Clone)]
pub struct Args {
    /// Maximum number of active controllers allowed.
    pub max_controllers: usize,
    /// Path to a TOML config file for button remapping and axis tweaks; the
    /// default identity mapping is used without one.
    pub config: Option<String>,
    /// Input polling rate in Hz (1-1000).
    pub polling_rate: u32,
    /// Devices to block, each as "VID:PID" in hex (e.g. "045E:028E").
    pub filter_devices: Vec<String>,
    /// Start with an empty device filter (no default Xbox 360 VID:PID block).
    pub empty_device_filter: bool,
    /// Do not hide the console window or create a system tray icon.
    pub no_tray: bool,
    /// Hardware deadzone applied to the analog sticks; 0 disables it.
    pub deadzone: i16,
    /// IP address and port of the USBIP server.
    pub usb_server_addr: Option<String>,
}

impl Default for Args {
    /// The settings when no option is given.
    fn default() -> (r: Self)
        ensures
            r.max_controllers == 1,
            r.config is None,
            r.polling_rate == 250,
            r.filter_devices@.len() == 0,
            !r.empty_device_filter,
            !r.no_tray,
            r.deadzone == 1000,
            r.usb_server_addr is None,
    {
        Args {
            max_controllers: 1,
            config: None,
            polling_rate: 250,
            filter_devices: Vec::new(),
            empty_device_filter: false,
            no_tray: false,
            deadzone: 1000,
            usb_server_addr: None,
        }
    }
}

} // verus!
