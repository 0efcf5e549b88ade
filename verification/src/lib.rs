//! The plugin execution substrate of a DNS forwarder: the shared key-value
//! store with expiry, the host's socket tables, the wire form of socket
//! addresses, the sockets and the two plugins on the plugin's side, and the
//! rules by which a chain of plugins is built and answers.

pub mod addr;
pub mod cache;
pub mod dns;
pub mod errno;
pub mod handle;
pub mod host_helper;
pub mod net;
pub mod plugins;
pub mod proxy;
pub mod server;
pub mod shared_map;
