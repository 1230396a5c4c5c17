//! IPv4 addresses and CIDR networks, with the bit arithmetic that relates
//! them: masks, host counts, supernets and subnets, and dotted-quad text.
pub mod addr;
pub mod decimal;
pub mod net;

pub use addr::IpAddress;
pub use net::IpNetwork;
