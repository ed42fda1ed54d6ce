//! Wireless network discovery: device classification, the scan cycle that
//! waits for a scan to finish, access-point records, and the selector state
//! that a front end shows them with.
pub mod access_point;
pub mod device;
pub mod scan;
pub mod selector;
