//! One platform IPC session for one application identity.
//!
//! A session owns its connection exclusively; every platform call made on
//! it is recorded, in order, in a ghost trace, so that contracts can say
//! which calls an operation causes and in which order.  Connecting sends
//! the handshake and reads the readiness payload, whose user descriptor is
//! cached for the session's lifetime and never refreshed.

use vstd::prelude::*;

use discord_rich_presence::DiscordIpcClient;

use crate::activity::ActivityModel;
use crate::activity::spec_translate;
use crate::activity::translate;
use crate::frames::render_handshake_frame;
use crate::frames::render_set_activity_frame;
use crate::json::json_as_bool;
use crate::json::json_as_str;
use crate::json::json_as_u64;
use crate::json::json_get;
use crate::json::json_parse;
use crate::platform::IpcFailure;
use crate::platform::ipc_new;
use crate::platform::ipc_open_socket;
use crate::platform::ipc_recv;
use crate::platform::ipc_send;
use crate::types::DiscordUser;
use crate::types::DiscordUserModel;
use crate::types::PresenceData;
use crate::wire::chars_to_string;

verus! {

/// One platform call made on a session's connection, as the model records
/// it: the connect handshake, a set carrying a payload, or a clear.
pub ghost enum SpecCall {
    Connect,
    SetActivity(ActivityModel),
    Clear,
}

/// Model of an [`RpcClient`]: its identity, the cached user snapshot, and
/// the ordered trace of platform calls made on its connection.
pub ghost struct RpcClientModel {
    pub client_id: Seq<char>,
    pub user: DiscordUserModel,
    pub calls: Seq<SpecCall>,
}

/// Why opening a session failed.  The identity stays unregistered; the
/// next update for it may try again.
#[derive(Debug, Clone, Copy, PartialEq, Eq, Structural)]
pub enum ConnectError {
    /// The platform process could not be reached over its socket.
    Unreachable,
    /// The handshake exchange broke down: a frame could not be formed or
    /// decoded, or the readiness payload was missing the expected user
    /// fields.
    MalformedHandshake,
}

/// Why a set or clear failed.  Non-fatal: the session stays registered
/// and the next update simply tries again.
#[derive(Debug, Clone, Copy, PartialEq, Eq, Structural)]
pub enum UpdateError {
    /// The frame could not be written to the connection.
    Send(IpcFailure),
}

/// The text under a key of a JSON object, when the key is there and its
/// value is a string.
pub open spec fn spec_str_field(u: serde_json::Value, key: Seq<char>) -> Option<Seq<char>> {
    match crate::json::spec_json_get(u, key) {
        Some(v) => crate::json::spec_json_as_str(v),
        None => None,
    }
}

/// The boolean under a key of a JSON object, when the key is there and
/// its value is a boolean.
pub open spec fn spec_bool_field(u: serde_json::Value, key: Seq<char>) -> Option<bool> {
    match crate::json::spec_json_get(u, key) {
        Some(v) => crate::json::spec_json_as_bool(v),
        None => None,
    }
}

/// The number under a key of a JSON object, when the key is there and
/// its value is a non-negative integer in range.
pub open spec fn spec_u64_field(u: serde_json::Value, key: Seq<char>) -> Option<u64> {
    match crate::json::spec_json_get(u, key) {
        Some(v) => crate::json::spec_json_as_u64(v),
        None => None,
    }
}

/// The `user` object under `data` of a readiness payload, when both keys
/// are there.
pub open spec fn spec_user_block(ready: serde_json::Value) -> Option<serde_json::Value> {
    match crate::json::spec_json_get(ready, "data"@) {
        Some(d) => crate::json::spec_json_get(d, "user"@),
        None => None,
    }
}

/// Whether a readiness payload carries a complete user descriptor: the
/// `user` object under `data`, with every expected field present, of the
/// expected kind, and in range.
pub open spec fn spec_user_block_wf(ready: serde_json::Value) -> bool {
    &&& spec_user_block(ready) matches Some(u)
    &&& spec_str_field(u, "avatar"@) is Some
    &&& spec_bool_field(u, "bot"@) is Some
    &&& spec_str_field(u, "discriminator"@) is Some
    &&& spec_u64_field(u, "flags"@) matches Some(flags) && flags <= u32::MAX
    &&& spec_str_field(u, "id"@) is Some
    &&& spec_u64_field(u, "premium_type"@) matches Some(premium) && premium <= u8::MAX
    &&& spec_str_field(u, "username"@) is Some
}

/// The user descriptor a well-formed readiness payload carries.
pub open spec fn spec_user_of(ready: serde_json::Value) -> DiscordUserModel {
    let u = spec_user_block(ready)->0;
    DiscordUserModel {
        avatar: spec_str_field(u, "avatar"@)->0,
        bot: spec_bool_field(u, "bot"@)->0,
        discriminator: spec_str_field(u, "discriminator"@)->0,
        flags: spec_u64_field(u, "flags"@)->0 as u32,
        id: spec_str_field(u, "id"@)->0,
        premium_type: spec_u64_field(u, "premium_type"@)->0 as u8,
        username: spec_str_field(u, "username"@)->0,
    }
}

/// Reads the user descriptor out of the readiness payload: the `user`
/// object under `data`, with every field present and in range.  `None`
/// exactly when something is missing or malformed; on success the
/// snapshot is exactly what the payload carries.
pub fn extract_user(ready: &serde_json::Value) -> (r: Option<DiscordUser>)
    ensures
        r is Some <==> spec_user_block_wf(*ready),
        r matches Some(u) ==> u@ == spec_user_of(*ready),
{
    let data = match json_get(ready, "data") {
        Some(v) => v,
        None => return None,
    };
    let user = match json_get(data, "user") {
        Some(v) => v,
        None => return None,
    };
    let avatar = match json_get(user, "avatar") {
        Some(v) => match json_as_str(v) {
            Some(s) => s.to_owned(),
            None => return None,
        },
        None => return None,
    };
    let bot = match json_get(user, "bot") {
        Some(v) => match json_as_bool(v) {
            Some(b) => b,
            None => return None,
        },
        None => return None,
    };
    let discriminator = match json_get(user, "discriminator") {
        Some(v) => match json_as_str(v) {
            Some(s) => s.to_owned(),
            None => return None,
        },
        None => return None,
    };
    let flags = match json_get(user, "flags") {
        Some(v) => match json_as_u64(v) {
            Some(n) => {
                if n > u32::MAX as u64 {
                    return None;
                }
                n as u32
            },
            None => return None,
        },
        None => return None,
    };
    let id = match json_get(user, "id") {
        Some(v) => match json_as_str(v) {
            Some(s) => s.to_owned(),
            None => return None,
        },
        None => return None,
    };
    let premium_type = match json_get(user, "premium_type") {
        Some(v) => match json_as_u64(v) {
            Some(n) => {
                if n > u8::MAX as u64 {
                    return None;
                }
                n as u8
            },
            None => return None,
        },
        None => return None,
    };
    let username = match json_get(user, "username") {
        Some(v) => match json_as_str(v) {
            Some(s) => s.to_owned(),
            None => return None,
        },
        None => return None,
    };
    Some(DiscordUser { avatar, bot, discriminator, flags, id, premium_type, username })
}

/// One live session: the exclusively owned connection, the identity it
/// serves, the cached user snapshot, and the ghost trace of its calls.
pub struct RpcClient {
    client: DiscordIpcClient,
    client_id: String,
    user: DiscordUser,
    pid: u32,
    nonce: u64,
    calls: Ghost<Seq<SpecCall>>,
}

impl View for RpcClient {
    type V = RpcClientModel;

    closed spec fn view(&self) -> RpcClientModel {
        RpcClientModel { client_id: self.client_id@, user: self.user@, calls: self.calls@ }
    }
}

impl RpcClient {
    /// Opens the connection for one identity: connects the socket, sends
    /// the handshake, and waits for the readiness payload, whose user
    /// descriptor is cached.  `pid` names the sending process in every
    /// frame.  On failure nothing is registered anywhere; the trace of a
    /// fresh session holds exactly the connect.
    ///
    /// The wait for the readiness payload is bounded only by the
    /// transport: the IPC crate reads with no deadline and keeps its
    /// socket private, so no read timeout can be set from here, and a
    /// silent platform holds this call.  A distinct timeout error would
    /// need the transport to expose one.
    pub fn new(client_id: String, pid: u32) -> (r: Result<RpcClient, ConnectError>)
        ensures
            r matches Ok(c) ==> c@.client_id == client_id@
                && c@.calls == seq![SpecCall::Connect],
    {
        let mut client = ipc_new(&client_id);
        if ipc_open_socket(&mut client).is_err() {
            return Err(ConnectError::Unreachable);
        }
        let hs = render_handshake_frame(client_id.as_str());
        let hs_text = chars_to_string(&hs);
        let hs_doc = match json_parse(hs_text.as_str()) {
            Some(v) => v,
            None => return Err(ConnectError::MalformedHandshake),
        };
        if ipc_send(&mut client, hs_doc, 0).is_err() {
            return Err(ConnectError::Unreachable);
        }
        let ready = match ipc_recv(&mut client) {
            Err(IpcFailure::Socket) => return Err(ConnectError::Unreachable),
            Err(IpcFailure::Protocol) => return Err(ConnectError::MalformedHandshake),
            Ok((_op, v)) => v,
        };
        let user = match extract_user(&ready) {
            Some(u) => u,
            None => return Err(ConnectError::MalformedHandshake),
        };
        let ghost trace: Seq<SpecCall> = seq![SpecCall::Connect];
        Ok(RpcClient { client, client_id, user, pid, nonce: 0, calls: Ghost(trace) })
    }

    /// Translates the activity fields and sends them as one set call on
    /// this connection.  Whatever the platform answers, exactly one set
    /// with exactly this payload is appended to the session's trace; on
    /// failure the session stays usable.  The trace records issued
    /// calls: one whose frame could not even be handed to the transport
    /// still counts as issued, and comes back as a send failure.
    pub fn set_activity(&mut self, data: &PresenceData) -> (r: Result<(), UpdateError>)
        ensures
            final(self)@.client_id == old(self)@.client_id,
            final(self)@.user == old(self)@.user,
            final(self)@.calls == old(self)@.calls.push(
                SpecCall::SetActivity(spec_translate(data@)),
            ),
    {
        let payload = translate(data);
        let frame = render_set_activity_frame(self.pid, self.nonce, Some(&payload));
        self.nonce = if self.nonce == u64::MAX { 0 } else { self.nonce + 1 };
        let text = chars_to_string(&frame);
        self.calls = Ghost(self.calls@.push(SpecCall::SetActivity(spec_translate(data@))));
        let doc = match json_parse(text.as_str()) {
            Some(v) => v,
            None => return Err(UpdateError::Send(IpcFailure::Protocol)),
        };
        match ipc_send(&mut self.client, doc, 1) {
            Ok(()) => Ok(()),
            Err(f) => Err(UpdateError::Send(f)),
        }
    }

    /// Sends one clear call on this connection.  Whatever the platform
    /// answers, exactly one clear is appended to the session's trace; on
    /// failure the session stays usable.
    pub fn clear_activity(&mut self) -> (r: Result<(), UpdateError>)
        ensures
            final(self)@.client_id == old(self)@.client_id,
            final(self)@.user == old(self)@.user,
            final(self)@.calls == old(self)@.calls.push(SpecCall::Clear),
    {
        let frame = render_set_activity_frame(self.pid, self.nonce, None);
        self.nonce = if self.nonce == u64::MAX { 0 } else { self.nonce + 1 };
        let text = chars_to_string(&frame);
        self.calls = Ghost(self.calls@.push(SpecCall::Clear));
        let doc = match json_parse(text.as_str()) {
            Some(v) => v,
            None => return Err(UpdateError::Send(IpcFailure::Protocol)),
        };
        match ipc_send(&mut self.client, doc, 1) {
            Ok(()) => Ok(()),
            Err(f) => Err(UpdateError::Send(f)),
        }
    }

    /// The identity this session serves.
    pub fn get_client_id(&self) -> (r: String)
        ensures
            r@ == self@.client_id,
    {
        self.client_id.clone()
    }

    /// The cached user snapshot from connect time; never re-queried.
    pub fn get_user(&self) -> (r: &DiscordUser)
        ensures
            r@ == self@.user,
    {
        &self.user
    }
}

} // verus!
