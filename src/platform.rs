//! Queries of the running machine. Each answer depends on the machine and
//! the moment, so nothing is promised of it beyond what always holds.

use vstd::prelude::*;
use chrono::{Datelike, Timelike};
use sysinfo::{Disks, System};
use crate::system_info::Timestamp;

verus! {

#[verifier::external_type_specification]
#[verifier::external_body]
pub struct ExSystem(System);

/// Relies on `whoami::username`: the current account's name, when the OS
/// gives one.
#[verifier::external_body]
pub(crate) fn username() -> (r: Option<String>) {
    whoami::username().ok()
}

/// Relies on `whoami::hostname`: the machine's network name, when the OS
/// gives one.
#[verifier::external_body]
pub(crate) fn hostname() -> (r: Option<String>) {
    whoami::hostname().ok()
}

/// Relies on `chrono::Local::now` and its `Datelike` / `Timelike` fields:
/// month in 1..=12, day in 1..=31, hour in 0..=23, minute in 0..=59.
#[verifier::external_body]
pub(crate) fn local_now() -> (r: Timestamp)
    ensures
        r.wf(),
{
    let t = chrono::Local::now();
    Timestamp { year: t.year(), month: t.month(), day: t.day(), hour: t.hour(), minute: t.minute() }
}

/// Relies on `sysinfo::System::long_os_version`: the OS name and version,
/// when known.
#[verifier::external_body]
pub(crate) fn long_os_version() -> (r: Option<String>) {
    System::long_os_version()
}

/// Relies on `sysinfo::System::kernel_version`: the kernel's version, when
/// known.
#[verifier::external_body]
pub(crate) fn kernel_version() -> (r: Option<String>) {
    System::kernel_version()
}

/// Relies on `sysinfo::System::uptime`: seconds since boot.
#[verifier::external_body]
pub(crate) fn uptime_seconds() -> (r: u64) {
    System::uptime()
}

/// Relies on `sysinfo::System::new_all`: a query session with every kind of
/// data loaded.
#[verifier::external_body]
pub(crate) fn new_system() -> (r: System) {
    System::new_all()
}

/// Relies on `sysinfo::System::refresh_all`: loads every kind of data again.
#[verifier::external_body]
pub(crate) fn refresh_all(sys: &mut System) {
    sys.refresh_all()
}

/// Relies on `sysinfo::System::cpus` and `sysinfo::Cpu::brand`: the brand
/// of each logical core.
#[verifier::external_body]
pub(crate) fn cpu_brands(sys: &System) -> (r: Vec<String>) {
    sys.cpus().iter().map(|c| c.brand().to_string()).collect()
}

/// Relies on `sysinfo::System::total_memory`: physical memory in bytes.
#[verifier::external_body]
pub(crate) fn total_memory(sys: &System) -> (r: u64) {
    sys.total_memory()
}

/// Relies on `sysinfo::System::used_memory`: physical memory in use, in
/// bytes.
#[verifier::external_body]
pub(crate) fn used_memory(sys: &System) -> (r: u64) {
    sys.used_memory()
}

/// Relies on `sysinfo::Disks::new_with_refreshed_list` with `Disk::total_space`
/// and `Disk::available_space`: (capacity, available space) in bytes of each
/// mounted volume.
#[verifier::external_body]
pub(crate) fn volumes() -> (r: Vec<(u64, u64)>) {
    let disks = Disks::new_with_refreshed_list();
    disks.list().iter().map(|d| (d.total_space(), d.available_space())).collect()
}

} // verus!
