//! DHCP over raw Ethernet: message models, lease validation, the exchange's
//! decisions and the frames that carry it.

pub mod dhcp;
pub mod frame;
pub mod link;
