//! The JSON frames the library sends to the platform.
//!
//! Each frame is rendered as text by verified code, so the JSON document
//! a handshake, a set and a clear carry is fixed by the spec functions
//! here.  The transport parses this text back into a document before
//! framing it, so key order and escape spelling on the wire are the
//! transport's; the document itself is this one.  A block that is absent
//! from the payload is omitted, never written as null; within the
//! activity object the block presence rules are those of
//! [`spec_translate`](crate::activity::spec_translate)'s result.

use vstd::prelude::*;

use crate::activity::ActivityModel;
use crate::activity::AssetsModel;
use crate::activity::PartyModel;
use crate::activity::PlatformActivity;
use crate::activity::PlatformAssets;
use crate::activity::PlatformParty;
use crate::activity::PlatformSecrets;
use crate::activity::PlatformTimestamps;
use crate::activity::SecretsModel;
use crate::activity::TimestampsModel;
use crate::types::Button;
use crate::types::ButtonModel;
use crate::wire::append_chars;
use crate::wire::append_escaped;
use crate::wire::append_i64;
use crate::wire::append_joined;
use crate::wire::append_str;
use crate::wire::join_comma;
use crate::wire::spec_dec_i64;
use crate::wire::spec_dec_u64;
use crate::wire::spec_escaped;
use crate::wire::views_of;

verus! {

/// One object member: the quoted name, a colon, and the body.
pub open spec fn spec_member(n: Seq<char>, body: Seq<char>) -> Seq<char> {
    seq!['"'] + n + seq!['"', ':'] + body
}

/// A JSON string literal holding the given text.
pub open spec fn spec_string_json(v: Seq<char>) -> Seq<char> {
    seq!['"'] + spec_escaped(v) + seq!['"']
}

/// An object holding the given members.
pub open spec fn spec_object(ms: Seq<Seq<char>>) -> Seq<char> {
    seq!['{'] + join_comma(ms) + seq!['}']
}

/// An array holding the given elements.
pub open spec fn spec_array(ms: Seq<Seq<char>>) -> Seq<char> {
    seq!['['] + join_comma(ms) + seq![']']
}

fn render_member(name: &str, body: &Vec<char>) -> (r: Vec<char>)
    ensures
        r@ == spec_member(name@, body@),
{
    let mut m: Vec<char> = Vec::new();
    m.push('"');
    append_str(&mut m, name);
    m.push('"');
    m.push(':');
    append_chars(&mut m, body);
    proof {
        assert(m@ =~= spec_member(name@, body@));
    }
    m
}

fn render_string(v: &str) -> (r: Vec<char>)
    ensures
        r@ == spec_string_json(v@),
{
    let mut m: Vec<char> = Vec::new();
    m.push('"');
    append_escaped(&mut m, v);
    m.push('"');
    proof {
        assert(m@ =~= spec_string_json(v@));
    }
    m
}

fn render_i64(v: i64) -> (r: Vec<char>)
    ensures
        r@ == spec_dec_i64(v as int),
{
    let mut m: Vec<char> = Vec::new();
    append_i64(&mut m, v);
    proof {
        assert(m@ =~= spec_dec_i64(v as int));
    }
    m
}

fn render_object(ms: &Vec<Vec<char>>) -> (r: Vec<char>)
    ensures
        r@ == spec_object(views_of(ms@)),
{
    let mut m: Vec<char> = Vec::new();
    m.push('{');
    append_joined(&mut m, ms);
    m.push('}');
    proof {
        assert(m@ =~= spec_object(views_of(ms@)));
    }
    m
}

fn render_array(ms: &Vec<Vec<char>>) -> (r: Vec<char>)
    ensures
        r@ == spec_array(views_of(ms@)),
{
    let mut m: Vec<char> = Vec::new();
    m.push('[');
    append_joined(&mut m, ms);
    m.push(']');
    proof {
        assert(m@ =~= spec_array(views_of(ms@)));
    }
    m
}

/// The members of the timestamps block: start and end, each only when
/// present.
pub open spec fn spec_timestamps_members(t: TimestampsModel) -> Seq<Seq<char>> {
    (if t.start is Some {
        seq![spec_member("start"@, spec_dec_i64(t.start->0 as int))]
    } else {
        Seq::empty()
    }) + (if t.end is Some {
        seq![spec_member("end"@, spec_dec_i64(t.end->0 as int))]
    } else {
        Seq::empty()
    })
}

/// The timestamps block as JSON.
pub open spec fn spec_timestamps_json(t: TimestampsModel) -> Seq<char> {
    spec_object(spec_timestamps_members(t))
}

fn render_timestamps(t: &PlatformTimestamps) -> (r: Vec<char>)
    ensures
        r@ == spec_timestamps_json(t@),
{
    let mut ms: Vec<Vec<char>> = Vec::new();
    if let Some(v) = t.start {
        ms.push(render_member("start", &render_i64(v)));
    }
    if let Some(v) = t.end {
        ms.push(render_member("end", &render_i64(v)));
    }
    proof {
        assert(views_of(ms@) =~= spec_timestamps_members(t@));
    }
    render_object(&ms)
}

/// The members of the assets block, each only when present.
pub open spec fn spec_assets_members(a: AssetsModel) -> Seq<Seq<char>> {
    (if a.large_image is Some {
        seq![spec_member("large_image"@, spec_string_json(a.large_image->0))]
    } else {
        Seq::empty()
    }) + (if a.large_text is Some {
        seq![spec_member("large_text"@, spec_string_json(a.large_text->0))]
    } else {
        Seq::empty()
    }) + (if a.small_image is Some {
        seq![spec_member("small_image"@, spec_string_json(a.small_image->0))]
    } else {
        Seq::empty()
    }) + (if a.small_text is Some {
        seq![spec_member("small_text"@, spec_string_json(a.small_text->0))]
    } else {
        Seq::empty()
    })
}

/// The assets block as JSON.
pub open spec fn spec_assets_json(a: AssetsModel) -> Seq<char> {
    spec_object(spec_assets_members(a))
}

fn render_assets(a: &PlatformAssets) -> (r: Vec<char>)
    ensures
        r@ == spec_assets_json(a@),
{
    let mut ms: Vec<Vec<char>> = Vec::new();
    if let Some(v) = &a.large_image {
        ms.push(render_member("large_image", &render_string(v.as_str())));
    }
    if let Some(v) = &a.large_text {
        ms.push(render_member("large_text", &render_string(v.as_str())));
    }
    if let Some(v) = &a.small_image {
        ms.push(render_member("small_image", &render_string(v.as_str())));
    }
    if let Some(v) = &a.small_text {
        ms.push(render_member("small_text", &render_string(v.as_str())));
    }
    proof {
        assert(views_of(ms@) =~= spec_assets_members(a@));
    }
    render_object(&ms)
}

/// The size pair as JSON: current size, then maximum.
pub open spec fn spec_size_json(size: i32, max: i32) -> Seq<char> {
    spec_array(seq![spec_dec_i64(size as int), spec_dec_i64(max as int)])
}

/// The members of the party block: the id when present, and the size pair
/// only when both halves were given.
pub open spec fn spec_party_members(p: PartyModel) -> Seq<Seq<char>> {
    (if p.id is Some {
        seq![spec_member("id"@, spec_string_json(p.id->0))]
    } else {
        Seq::empty()
    }) + (if p.size is Some {
        seq![spec_member("size"@, { let pair = p.size->0; spec_size_json(pair.0, pair.1) })]
    } else {
        Seq::empty()
    })
}

/// The party block as JSON.
pub open spec fn spec_party_json(p: PartyModel) -> Seq<char> {
    spec_object(spec_party_members(p))
}

fn render_party(p: &PlatformParty) -> (r: Vec<char>)
    ensures
        r@ == spec_party_json(p@),
{
    let mut ms: Vec<Vec<char>> = Vec::new();
    if let Some(v) = &p.id {
        ms.push(render_member("id", &render_string(v.as_str())));
    }
    if let Some((size, max)) = p.size {
        let mut pair: Vec<Vec<char>> = Vec::new();
        pair.push(render_i64(size as i64));
        pair.push(render_i64(max as i64));
        proof {
            assert(views_of(pair@) =~= seq![
                spec_dec_i64(size as int),
                spec_dec_i64(max as int),
            ]);
        }
        ms.push(render_member("size", &render_array(&pair)));
    }
    proof {
        assert(views_of(ms@) =~= spec_party_members(p@));
    }
    render_object(&ms)
}

/// The members of the secrets block, each only when present.
pub open spec fn spec_secrets_members(s: SecretsModel) -> Seq<Seq<char>> {
    (if s.join is Some {
        seq![spec_member("join"@, spec_string_json(s.join->0))]
    } else {
        Seq::empty()
    }) + (if s.spectate is Some {
        seq![spec_member("spectate"@, spec_string_json(s.spectate->0))]
    } else {
        Seq::empty()
    }) + (if s.game_match is Some {
        seq![spec_member("match"@, spec_string_json(s.game_match->0))]
    } else {
        Seq::empty()
    })
}

/// The secrets block as JSON.
pub open spec fn spec_secrets_json(s: SecretsModel) -> Seq<char> {
    spec_object(spec_secrets_members(s))
}

fn render_secrets(s: &PlatformSecrets) -> (r: Vec<char>)
    ensures
        r@ == spec_secrets_json(s@),
{
    let mut ms: Vec<Vec<char>> = Vec::new();
    if let Some(v) = &s.join {
        ms.push(render_member("join", &render_string(v.as_str())));
    }
    if let Some(v) = &s.spectate {
        ms.push(render_member("spectate", &render_string(v.as_str())));
    }
    if let Some(v) = &s.game_match {
        ms.push(render_member("match", &render_string(v.as_str())));
    }
    proof {
        assert(views_of(ms@) =~= spec_secrets_members(s@));
    }
    render_object(&ms)
}

/// One button as JSON: its label and URL.
pub open spec fn spec_button_json(b: ButtonModel) -> Seq<char> {
    spec_object(seq![
        spec_member("label"@, spec_string_json(b.label)),
        spec_member("url"@, spec_string_json(b.url)),
    ])
}

/// The button list as JSON, one object per button, in order.
pub open spec fn spec_buttons_json(bs: Seq<ButtonModel>) -> Seq<char> {
    spec_array(Seq::new(bs.len(), |i: int| spec_button_json(bs[i])))
}

fn render_button(b: &Button) -> (r: Vec<char>)
    ensures
        r@ == spec_button_json(b@),
{
    let mut ms: Vec<Vec<char>> = Vec::new();
    ms.push(render_member("label", &render_string(b.label.as_str())));
    ms.push(render_member("url", &render_string(b.url.as_str())));
    proof {
        assert(views_of(ms@) =~= seq![
            spec_member("label"@, spec_string_json(b@.label)),
            spec_member("url"@, spec_string_json(b@.url)),
        ]);
    }
    render_object(&ms)
}

fn render_buttons(bs: &Vec<Button>) -> (r: Vec<char>)
    ensures
        r@ == spec_buttons_json(bs.deep_view()),
{
    let mut ms: Vec<Vec<char>> = Vec::new();
    let mut i: usize = 0;
    while i < bs.len()
        invariant
            i <= bs@.len(),
            ms@.len() == i,
            forall|k: int| 0 <= k < i ==> #[trigger] ms@[k]@ == spec_button_json(bs@[k]@),
        decreases bs@.len() - i,
    {
        ms.push(render_button(&bs[i]));
        i = i + 1;
    }
    proof {
        assert forall|k: int| 0 <= k < ms@.len() implies views_of(ms@)[k]
            == Seq::new(bs.deep_view().len(), |i: int| spec_button_json(bs.deep_view()[i]))[k] by {
            assert(ms@[k]@ == spec_button_json(bs@[k]@));
            assert(bs.deep_view()[k] == bs@[k]@);
        }
        assert(views_of(ms@) =~= Seq::new(
            bs.deep_view().len(),
            |i: int| spec_button_json(bs.deep_view()[i]),
        ));
    }
    render_array(&ms)
}

/// The members of the activity object, in a fixed order, each block only
/// when the payload holds it.
pub open spec fn spec_activity_members(a: ActivityModel) -> Seq<Seq<char>> {
    (if a.state is Some {
        seq![spec_member("state"@, spec_string_json(a.state->0))]
    } else {
        Seq::empty()
    }) + (if a.details is Some {
        seq![spec_member("details"@, spec_string_json(a.details->0))]
    } else {
        Seq::empty()
    }) + (if a.timestamps is Some {
        seq![spec_member("timestamps"@, spec_timestamps_json(a.timestamps->0))]
    } else {
        Seq::empty()
    }) + (if a.assets is Some {
        seq![spec_member("assets"@, spec_assets_json(a.assets->0))]
    } else {
        Seq::empty()
    }) + (if a.party is Some {
        seq![spec_member("party"@, spec_party_json(a.party->0))]
    } else {
        Seq::empty()
    }) + (if a.secrets is Some {
        seq![spec_member("secrets"@, spec_secrets_json(a.secrets->0))]
    } else {
        Seq::empty()
    }) + (if a.buttons is Some {
        seq![spec_member("buttons"@, spec_buttons_json(a.buttons->0))]
    } else {
        Seq::empty()
    })
}

/// The activity payload as JSON.
pub open spec fn spec_activity_json(a: ActivityModel) -> Seq<char> {
    spec_object(spec_activity_members(a))
}

/// Renders the activity payload as JSON text, block presence exactly as
/// [`spec_activity_json`] fixes it.
#[verifier::rlimit(60)]
pub fn render_activity(a: &PlatformActivity) -> (r: Vec<char>)
    ensures
        r@ == spec_activity_json(a@),
{
    let mut ms: Vec<Vec<char>> = Vec::new();
    if let Some(v) = &a.state {
        ms.push(render_member("state", &render_string(v.as_str())));
    }
    if let Some(v) = &a.details {
        ms.push(render_member("details", &render_string(v.as_str())));
    }
    if let Some(t) = &a.timestamps {
        ms.push(render_member("timestamps", &render_timestamps(t)));
    }
    if let Some(b) = &a.assets {
        ms.push(render_member("assets", &render_assets(b)));
    }
    if let Some(p) = &a.party {
        ms.push(render_member("party", &render_party(p)));
    }
    if let Some(s) = &a.secrets {
        ms.push(render_member("secrets", &render_secrets(s)));
    }
    if let Some(bs) = &a.buttons {
        ms.push(render_member("buttons", &render_buttons(bs)));
    }
    proof {
        assert(views_of(ms@) =~= spec_activity_members(a@));
    }
    render_object(&ms)
}

/// The full SET_ACTIVITY frame: the command, the sender's process id, the
/// activity payload (or null, which clears the remote state), and a nonce
/// naming the frame.
pub open spec fn spec_set_activity_frame(pid: nat, nonce: nat, a: Option<ActivityModel>)
    -> Seq<char> {
    ("{\"cmd\":\"SET_ACTIVITY\",\"args\":{\"pid\":")@ + spec_dec_u64(pid)
        + (",\"activity\":")@
        + (match a {
            Some(m) => spec_activity_json(m),
            None => ("null")@,
        }) + ("},\"nonce\":\"")@ + spec_dec_u64(nonce) + ("\"}")@
}

/// Renders one SET_ACTIVITY frame; a payload of `None` clears.
pub fn render_set_activity_frame(pid: u32, nonce: u64, activity: Option<&PlatformActivity>)
    -> (r: Vec<char>)
    ensures
        r@ == spec_set_activity_frame(
            pid as nat,
            nonce as nat,
            match activity {
                Some(a) => Some(a@),
                None => None,
            },
        ),
{
    let mut out: Vec<char> = Vec::new();
    append_str(&mut out, "{\"cmd\":\"SET_ACTIVITY\",\"args\":{\"pid\":");
    crate::wire::append_u64(&mut out, pid as u64);
    append_str(&mut out, ",\"activity\":");
    match activity {
        Some(a) => {
            let p = render_activity(a);
            append_chars(&mut out, &p);
        },
        None => {
            append_str(&mut out, "null");
        },
    }
    append_str(&mut out, "},\"nonce\":\"");
    crate::wire::append_u64(&mut out, nonce);
    append_str(&mut out, "\"}");
    proof {
        assert(out@ =~= spec_set_activity_frame(
            pid as nat,
            nonce as nat,
            match activity {
                Some(a) => Some(a@),
                None => None,
            },
        ));
    }
    out
}

/// The handshake frame: the protocol version and the client id whose
/// session is being opened.
pub open spec fn spec_handshake_frame(client_id: Seq<char>) -> Seq<char> {
    ("{\"v\":1,\"client_id\":")@ + spec_string_json(client_id) + ("}")@
}

/// Renders the handshake frame for one client id.
pub fn render_handshake_frame(client_id: &str) -> (r: Vec<char>)
    ensures
        r@ == spec_handshake_frame(client_id@),
{
    let mut out: Vec<char> = Vec::new();
    append_str(&mut out, "{\"v\":1,\"client_id\":");
    let s = render_string(client_id);
    append_chars(&mut out, &s);
    append_str(&mut out, "}");
    proof {
        assert(out@ =~= spec_handshake_frame(client_id@));
    }
    out
}

} // verus!
