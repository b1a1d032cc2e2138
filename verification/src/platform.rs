//! Trusted surface to the platform IPC crate.
//!
//! The IPC handle is opaque to the verifier; the library drives it only
//! through the wrappers declared here.  What a call returns depends on the
//! platform process at the other end of the socket, so the wrappers
//! promise nothing about success; the verified callers state what holds
//! whatever came back.

use vstd::prelude::*;

use discord_rich_presence::DiscordIpc;
use discord_rich_presence::DiscordIpcClient;
use discord_rich_presence::error::Error;

verus! {

#[verifier::external_type_specification]
#[verifier::external_body]
pub struct ExDiscordIpcClient(DiscordIpcClient);

/// How a platform IPC call failed: the socket itself (absent, closed,
/// unwritable), or a frame that came back unreadable.
#[derive(Debug, Clone, Copy, PartialEq, Eq, Structural)]
pub enum IpcFailure {
    /// The socket could not be found, opened, read or written.
    Socket,
    /// A frame arrived but could not be decoded, or a frame to send
    /// could not be formed as a JSON document.
    Protocol,
}

/// Relies on DiscordIpcClient::new: stores the client id; no I/O yet.
#[verifier::external_body]
pub(crate) fn ipc_new(client_id: &String) -> DiscordIpcClient {
    DiscordIpcClient::new(client_id.as_str())
}

/// Relies on DiscordIpc::connect_ipc: opens the platform socket.
#[verifier::external_body]
pub(crate) fn ipc_open_socket(c: &mut DiscordIpcClient) -> Result<(), IpcFailure> {
    c.connect_ipc().map_err(|_| IpcFailure::Socket)
}

/// Relies on DiscordIpc::send: writes one JSON document as one framed
/// payload with the given opcode.
#[verifier::external_body]
pub(crate) fn ipc_send(
    c: &mut DiscordIpcClient,
    data: serde_json::Value,
    opcode: u8,
) -> Result<(), IpcFailure> {
    c.send(data, opcode).map_err(|_| IpcFailure::Socket)
}

/// Relies on DiscordIpc::recv: reads one framed JSON payload from the
/// socket.
#[verifier::external_body]
pub(crate) fn ipc_recv(c: &mut DiscordIpcClient) -> Result<(u32, serde_json::Value), IpcFailure> {
    c.recv().map_err(|e| match e {
        Error::DecodeOpcode | Error::DecodeHeader => IpcFailure::Protocol,
        Error::RecvUtf8Response | Error::JsonParseResponse => IpcFailure::Protocol,
        _ => IpcFailure::Socket,
    })
}

} // verus!
