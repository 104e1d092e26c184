//! Resolves generic-netlink family names to their numeric ids and multicast
//! groups, with a process-local cache of what was learned.

pub mod error;
pub mod message;
pub mod name_map;
pub mod resolver;

pub use error::{GenetlinkError, RequiredAttr};
pub use message::{CtrlAttr, CtrlRequest, CtrlResponse, McastGroupAttr};
pub use name_map::NameMap;
pub use resolver::{GroupMap, Resolver};
