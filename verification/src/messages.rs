//! The decisions the command-line front end acts on, and the exact texts it
//! prints: adapter-count checking and the fixed status messages.

use vstd::prelude::*;

verus! {

/// What the number of Bluetooth adapters allows: none is a benign empty
/// outcome, one is required for work, more than one is an operational error.
#[derive(Clone, Copy, Debug, PartialEq, Eq, Structural)]
pub enum AdapterCheck {
    NoAdapters,
    SingleAdapter,
    MultipleAdapters,
}

/// Classifies the number of adapters found.
pub fn check_adapters(adapter_count: usize) -> (r: AdapterCheck)
    ensures
        r == (if adapter_count == 0 {
            AdapterCheck::NoAdapters
        } else if adapter_count == 1 {
            AdapterCheck::SingleAdapter
        } else {
            AdapterCheck::MultipleAdapters
        }),
{
    if adapter_count == 0 {
        AdapterCheck::NoAdapters
    } else if adapter_count == 1 {
        AdapterCheck::SingleAdapter
    } else {
        AdapterCheck::MultipleAdapters
    }
}

/// The message for a machine without Bluetooth adapters; printed with exit
/// status 0, since an absent radio is an expected environment, not a fault.
pub fn no_adapters_message() -> (r: String)
    ensures
        r@ == "no Bluetooth adapters found"@,
{
    "no Bluetooth adapters found".to_owned()
}

/// The message for more than one adapter; an operational error.
pub fn multiple_adapters_message() -> (r: String)
    ensures
        r@ == "multiple Bluetooth adapters found, disconnect or disable redundant ones"@,
{
    "multiple Bluetooth adapters found, disconnect or disable redundant ones".to_owned()
}

/// The message for a scan that could not be started.
pub fn scan_failed_message() -> (r: String)
    ensures
        r@ == "scanning peripheral devices failed (Bluetooth not enabled?)"@,
{
    "scanning peripheral devices failed (Bluetooth not enabled?)".to_owned()
}

/// The message for a scan that found nothing; a benign empty outcome.
pub fn no_peripherals_message() -> (r: String)
    ensures
        r@ == "no peripheral devices found"@,
{
    "no peripheral devices found".to_owned()
}

/// The message for a connection attempt that failed.
pub fn connect_failed_message() -> (r: String)
    ensures
        r@ == "connecting device failed (device already connected by someone else?)"@,
{
    "connecting device failed (device already connected by someone else?)".to_owned()
}

/// The message for a service discovery that failed.
pub fn discover_failed_message() -> (r: String)
    ensures
        r@ == "discovering services failed"@,
{
    "discovering services failed".to_owned()
}

/// The message for a requested peripheral that no scan result matched,
/// with the identifier quoted inside it; a benign empty outcome.
pub fn peripheral_not_found_message(device_id: &str) -> (r: String)
    ensures
        r@ == "no peripheral device with identifier '"@ + device_id@ + "' found"@,
{
    let mut s = "no peripheral device with identifier '".to_owned();
    s.append(device_id);
    s.append("' found");
    s
}

} // verus!
