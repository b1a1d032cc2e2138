//! The pure mapping from a producer's activity record to the platform
//! payload.
//!
//! Every optional producer field maps to an optional part of the payload;
//! absent fields are omitted, never cleared.  A composite block is present
//! exactly when the rule written at its field in [`spec_translate`] holds:
//! timestamps when a start or end is given, assets when any image key or
//! text is given, secrets when any secret is given, and a party when an id
//! is given or both size and maximum are given.  The size pair itself is
//! attached only when both halves are present, since the platform takes
//! them as a pair.

use vstd::prelude::*;

use crate::types::{Button, ButtonModel, PresenceData, PresenceDataModel};

verus! {

/// Model of [`PlatformTimestamps`].
pub ghost struct TimestampsModel {
    pub start: Option<i64>,
    pub end: Option<i64>,
}

/// The timestamps block of a platform payload.
#[derive(Debug, Clone)]
pub struct PlatformTimestamps {
    pub start: Option<i64>,
    pub end: Option<i64>,
}

impl View for PlatformTimestamps {
    type V = TimestampsModel;

    open spec fn view(&self) -> TimestampsModel {
        TimestampsModel { start: self.start, end: self.end }
    }
}

/// Model of [`PlatformAssets`].
pub ghost struct AssetsModel {
    pub large_image: Option<Seq<char>>,
    pub large_text: Option<Seq<char>>,
    pub small_image: Option<Seq<char>>,
    pub small_text: Option<Seq<char>>,
}

/// The art assets block of a platform payload.
#[derive(Debug, Clone)]
pub struct PlatformAssets {
    pub large_image: Option<String>,
    pub large_text: Option<String>,
    pub small_image: Option<String>,
    pub small_text: Option<String>,
}

impl View for PlatformAssets {
    type V = AssetsModel;

    open spec fn view(&self) -> AssetsModel {
        AssetsModel {
            large_image: self.large_image.deep_view(),
            large_text: self.large_text.deep_view(),
            small_image: self.small_image.deep_view(),
            small_text: self.small_text.deep_view(),
        }
    }
}

/// Model of [`PlatformParty`].
pub ghost struct PartyModel {
    pub id: Option<Seq<char>>,
    pub size: Option<(i32, i32)>,
}

/// The party block of a platform payload.  The size pair holds the current
/// and the maximum size, and is only present as a pair.
#[derive(Debug, Clone)]
pub struct PlatformParty {
    pub id: Option<String>,
    pub size: Option<(i32, i32)>,
}

impl View for PlatformParty {
    type V = PartyModel;

    open spec fn view(&self) -> PartyModel {
        PartyModel { id: self.id.deep_view(), size: self.size }
    }
}

/// Model of [`PlatformSecrets`].
pub ghost struct SecretsModel {
    pub join: Option<Seq<char>>,
    pub spectate: Option<Seq<char>>,
    pub game_match: Option<Seq<char>>,
}

/// The secrets block of a platform payload.
#[derive(Debug, Clone)]
pub struct PlatformSecrets {
    pub join: Option<String>,
    pub spectate: Option<String>,
    pub game_match: Option<String>,
}

impl View for PlatformSecrets {
    type V = SecretsModel;

    open spec fn view(&self) -> SecretsModel {
        SecretsModel {
            join: self.join.deep_view(),
            spectate: self.spectate.deep_view(),
            game_match: self.game_match.deep_view(),
        }
    }
}

/// Model of [`PlatformActivity`].
pub ghost struct ActivityModel {
    pub state: Option<Seq<char>>,
    pub details: Option<Seq<char>>,
    pub timestamps: Option<TimestampsModel>,
    pub assets: Option<AssetsModel>,
    pub party: Option<PartyModel>,
    pub secrets: Option<SecretsModel>,
    pub buttons: Option<Seq<ButtonModel>>,
}

/// The platform activity payload: what one set call carries to the
/// desktop application for one identity.
#[derive(Debug, Clone)]
pub struct PlatformActivity {
    pub state: Option<String>,
    pub details: Option<String>,
    pub timestamps: Option<PlatformTimestamps>,
    pub assets: Option<PlatformAssets>,
    pub party: Option<PlatformParty>,
    pub secrets: Option<PlatformSecrets>,
    pub buttons: Option<Vec<Button>>,
}

impl View for PlatformActivity {
    type V = ActivityModel;

    open spec fn view(&self) -> ActivityModel {
        ActivityModel {
            state: self.state.deep_view(),
            details: self.details.deep_view(),
            timestamps: match self.timestamps {
                Some(t) => Some(t@),
                None => None,
            },
            assets: match self.assets {
                Some(a) => Some(a@),
                None => None,
            },
            party: match self.party {
                Some(p) => Some(p@),
                None => None,
            },
            secrets: match self.secrets {
                Some(s) => Some(s@),
                None => None,
            },
            buttons: self.buttons.deep_view(),
        }
    }
}

/// What [`translate`] returns, field by field, as a function of the
/// producer record alone.
pub open spec fn spec_translate(d: PresenceDataModel) -> ActivityModel {
    ActivityModel {
        state: d.state,
        details: d.details,
        timestamps: if d.start_timestamp is Some || d.end_timestamp is Some {
            Some(TimestampsModel { start: d.start_timestamp, end: d.end_timestamp })
        } else {
            None
        },
        assets: if d.large_image_key is Some || d.large_image_text is Some
            || d.small_image_key is Some || d.small_image_text is Some {
            Some(AssetsModel {
                large_image: d.large_image_key,
                large_text: d.large_image_text,
                small_image: d.small_image_key,
                small_text: d.small_image_text,
            })
        } else {
            None
        },
        party: if d.party_id is Some || (d.party_size is Some && d.party_max is Some) {
            Some(PartyModel {
                id: d.party_id,
                size: if d.party_size is Some && d.party_max is Some {
                    Some((d.party_size->0, d.party_max->0))
                } else {
                    None
                },
            })
        } else {
            None
        },
        secrets: if d.join_secret is Some || d.spectate_secret is Some
            || d.match_secret is Some {
            Some(SecretsModel {
                join: d.join_secret,
                spectate: d.spectate_secret,
                game_match: d.match_secret,
            })
        } else {
            None
        },
        buttons: d.buttons,
    }
}

/// Clones an optional string field so that the payload owns its values.
fn clone_opt_string(o: &Option<String>) -> (r: Option<String>)
    ensures
        r.deep_view() == o.deep_view(),
{
    match o {
        Some(s) => Some(s.clone()),
        None => None,
    }
}

/// Clones a button list, preserving order and each label and URL.
fn clone_buttons(bs: &Vec<Button>) -> (r: Vec<Button>)
    ensures
        r.deep_view() =~= bs.deep_view(),
{
    let mut out: Vec<Button> = Vec::new();
    let mut i: usize = 0;
    while i < bs.len()
        invariant
            i <= bs@.len(),
            out@.len() == i,
            forall|k: int| 0 <= k < i ==> #[trigger] out@[k]@ == bs@[k]@,
        decreases bs@.len() - i,
    {
        let b = &bs[i];
        out.push(Button { label: b.label.clone(), url: b.url.clone() });
        i = i + 1;
    }
    proof {
        assert forall|k: int| 0 <= k < out@.len() implies out.deep_view()[k]
            == bs.deep_view()[k] by {
            assert(out@[k]@ == bs@[k]@);
        }
        assert(out.deep_view() =~= bs.deep_view());
    }
    out
}

/// Translates a producer activity record into the platform payload.
///
/// Pure and total: the result is `spec_translate` of the record, so every
/// presence rule for the optional blocks is fixed by that one definition.
pub fn translate(d: &PresenceData) -> (r: PlatformActivity)
    ensures
        r@ == spec_translate(d@),
{
    let timestamps = if d.start_timestamp.is_some() || d.end_timestamp.is_some() {
        Some(PlatformTimestamps { start: d.start_timestamp, end: d.end_timestamp })
    } else {
        None
    };

    let assets = if d.large_image_key.is_some() || d.large_image_text.is_some()
        || d.small_image_key.is_some() || d.small_image_text.is_some() {
        Some(PlatformAssets {
            large_image: clone_opt_string(&d.large_image_key),
            large_text: clone_opt_string(&d.large_image_text),
            small_image: clone_opt_string(&d.small_image_key),
            small_text: clone_opt_string(&d.small_image_text),
        })
    } else {
        None
    };

    let size_pair = match (d.party_size, d.party_max) {
        (Some(size), Some(max)) => Some((size, max)),
        _ => None,
    };
    let party = if d.party_id.is_some() || size_pair.is_some() {
        Some(PlatformParty { id: clone_opt_string(&d.party_id), size: size_pair })
    } else {
        None
    };

    let secrets = if d.join_secret.is_some() || d.spectate_secret.is_some()
        || d.match_secret.is_some() {
        Some(PlatformSecrets {
            join: clone_opt_string(&d.join_secret),
            spectate: clone_opt_string(&d.spectate_secret),
            game_match: clone_opt_string(&d.match_secret),
        })
    } else {
        None
    };

    let buttons = match &d.buttons {
        Some(bs) => Some(clone_buttons(bs)),
        None => None,
    };

    PlatformActivity {
        state: clone_opt_string(&d.state),
        details: clone_opt_string(&d.details),
        timestamps,
        assets,
        party,
        secrets,
        buttons,
    }
}

/// A record whose only set field is `state` translates to a payload with
/// `state` populated and every other optional part absent.
pub proof fn lemma_state_only_translation(d: PresenceDataModel)
    requires
        d.state is Some,
        d.details is None,
        d.start_timestamp is None,
        d.end_timestamp is None,
        d.large_image_key is None,
        d.large_image_text is None,
        d.small_image_key is None,
        d.small_image_text is None,
        d.party_id is None,
        d.party_size is None,
        d.party_max is None,
        d.match_secret is None,
        d.spectate_secret is None,
        d.join_secret is None,
        d.buttons is None,
    ensures
        spec_translate(d).state == d.state,
        spec_translate(d).details is None,
        spec_translate(d).timestamps is None,
        spec_translate(d).assets is None,
        spec_translate(d).party is None,
        spec_translate(d).secrets is None,
        spec_translate(d).buttons is None,
{
}

/// The party block is present exactly when an id is given or both halves
/// of the size pair are given; the size pair itself is present exactly
/// when both halves are, so a size without a maximum populates nothing.
pub proof fn lemma_party_block_rule(d: PresenceDataModel)
    ensures
        spec_translate(d).party is Some <==> (d.party_id is Some || (d.party_size is Some
            && d.party_max is Some)),
        spec_translate(d).party matches Some(p) ==> (p.size is Some <==> (d.party_size is Some
            && d.party_max is Some)),
        spec_translate(d).party matches Some(p) ==> p.id == d.party_id,
        d.party_size is Some && d.party_max is Some ==> (spec_translate(d).party matches Some(p)
            && p.size == Some((d.party_size->0, d.party_max->0))),
{
}

} // verus!
