//! WireGuard tunnel core of a HarmonyOS Tailscale-compatible VPN client.
//!
//! The packet path (`wireguard`), the configuration and key handling
//! (`config`), endpoint parsing (`endpoint`), the text answers of the C
//! interface (`api`), its state (`registry`) and what the background I/O
//! loop does with each packet (`tunnel_loop`) are verified here. `codec`
//! and `noise` hold the trusted boundary to base64, x25519 and boringtun.

pub mod api;
mod codec;
pub mod config;
pub mod endpoint;
pub mod error;
pub mod noise;
pub mod registry;
mod text;
pub mod tunnel_loop;
pub mod wireguard;

pub use error::TunnelError;
