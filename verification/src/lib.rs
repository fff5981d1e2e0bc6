//! Provisioning of a WireGuard network interface without performing any I/O:
//! the routing netlink requests that create, address and raise the link, the
//! reading of the kernel's answers, the commands handed to the `wg` and `ip`
//! tools, and the lifecycle that orders them.
pub mod address;
pub mod attr;
pub mod channel;
pub mod command;
pub mod error;
pub mod link;
pub mod message;
pub mod session;
pub mod theorems;
pub mod wg;
pub mod wire;

pub use crate::address::{parse_address, Cidr, IpAddress};
pub use crate::channel::{Channel, ChannelState, Reply};
pub use crate::command::Command;
pub use crate::error::WgError;
pub use crate::session::{Action, Event, Goal, LinkState, Phase, Session, Step};
pub use crate::wg::{Keygen, KeygenStep, Keypair, Wg};
