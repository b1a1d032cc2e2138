//! The records exchanged with presence producers, and their mathematical
//! models.
//!
//! Every optional field of a presence record means "leave unset", never
//! "clear".  The models replace each `String` by its sequence of characters
//! so that contracts can speak of the values alone.

use vstd::prelude::*;

verus! {

/// Model of a [`Button`]: the label and target of one activity button.
pub ghost struct ButtonModel {
    pub label: Seq<char>,
    pub url: Seq<char>,
}

/// One button attached to an activity: a label and the URL it opens.
#[derive(Debug, Clone)]
pub struct Button {
    pub label: String,
    pub url: String,
}

impl View for Button {
    type V = ButtonModel;

    open spec fn view(&self) -> ButtonModel {
        ButtonModel { label: self.label@, url: self.url@ }
    }
}

impl DeepView for Button {
    type V = ButtonModel;

    open spec fn deep_view(&self) -> ButtonModel {
        self@
    }
}

/// Model of a [`PresenceData`] record.
pub ghost struct PresenceDataModel {
    pub state: Option<Seq<char>>,
    pub details: Option<Seq<char>>,
    pub start_timestamp: Option<i64>,
    pub end_timestamp: Option<i64>,
    pub large_image_key: Option<Seq<char>>,
    pub large_image_text: Option<Seq<char>>,
    pub small_image_key: Option<Seq<char>>,
    pub small_image_text: Option<Seq<char>>,
    pub instance: Option<bool>,
    pub party_id: Option<Seq<char>>,
    pub party_size: Option<i32>,
    pub party_max: Option<i32>,
    pub match_secret: Option<Seq<char>>,
    pub spectate_secret: Option<Seq<char>>,
    pub join_secret: Option<Seq<char>>,
    pub buttons: Option<Seq<ButtonModel>>,
}

impl PresenceDataModel {
    /// True when the record carries at least one activity field, so that an
    /// update has something to set beyond its identity.  `instance` does
    /// not count: the mapping to the platform payload ignores it, so it
    /// alone gives a set call nothing to carry.
    pub open spec fn has_activity_fields(self) -> bool {
        ||| self.state is Some
        ||| self.details is Some
        ||| self.start_timestamp is Some
        ||| self.end_timestamp is Some
        ||| self.large_image_key is Some
        ||| self.large_image_text is Some
        ||| self.small_image_key is Some
        ||| self.small_image_text is Some
        ||| self.party_id is Some
        ||| self.party_size is Some
        ||| self.party_max is Some
        ||| self.match_secret is Some
        ||| self.spectate_secret is Some
        ||| self.join_secret is Some
        ||| self.buttons is Some
    }
}

/// The activity fields of a presence update.  All fields are optional;
/// timestamps are unix times and the party size pair is only meaningful
/// when both `party_size` and `party_max` are present.
#[derive(Debug, Clone)]
pub struct PresenceData {
    pub state: Option<String>,
    pub details: Option<String>,
    pub start_timestamp: Option<i64>,
    pub end_timestamp: Option<i64>,
    pub large_image_key: Option<String>,
    pub large_image_text: Option<String>,
    pub small_image_key: Option<String>,
    pub small_image_text: Option<String>,
    pub instance: Option<bool>,
    pub party_id: Option<String>,
    pub party_size: Option<i32>,
    pub party_max: Option<i32>,
    pub match_secret: Option<String>,
    pub spectate_secret: Option<String>,
    pub join_secret: Option<String>,
    pub buttons: Option<Vec<Button>>,
}

impl View for PresenceData {
    type V = PresenceDataModel;

    open spec fn view(&self) -> PresenceDataModel {
        PresenceDataModel {
            state: self.state.deep_view(),
            details: self.details.deep_view(),
            start_timestamp: self.start_timestamp,
            end_timestamp: self.end_timestamp,
            large_image_key: self.large_image_key.deep_view(),
            large_image_text: self.large_image_text.deep_view(),
            small_image_key: self.small_image_key.deep_view(),
            small_image_text: self.small_image_text.deep_view(),
            instance: self.instance,
            party_id: self.party_id.deep_view(),
            party_size: self.party_size,
            party_max: self.party_max,
            match_secret: self.match_secret.deep_view(),
            spectate_secret: self.spectate_secret.deep_view(),
            join_secret: self.join_secret.deep_view(),
            buttons: self.buttons.deep_view(),
        }
    }
}

impl PresenceData {
    /// An activity record with every field unset.
    pub fn empty() -> (r: PresenceData)
        ensures
            !r@.has_activity_fields(),
    {
        PresenceData {
            state: None,
            details: None,
            start_timestamp: None,
            end_timestamp: None,
            large_image_key: None,
            large_image_text: None,
            small_image_key: None,
            small_image_text: None,
            instance: None,
            party_id: None,
            party_size: None,
            party_max: None,
            match_secret: None,
            spectate_secret: None,
            join_secret: None,
            buttons: None,
        }
    }

    /// Whether at least one activity field is present; decides whether a
    /// hidden update still carries anything to set.
    pub fn has_activity_fields(&self) -> (r: bool)
        ensures
            r == self@.has_activity_fields(),
    {
        ||| self.state.is_some()
        ||| self.details.is_some()
        ||| self.start_timestamp.is_some()
        ||| self.end_timestamp.is_some()
        ||| self.large_image_key.is_some()
        ||| self.large_image_text.is_some()
        ||| self.small_image_key.is_some()
        ||| self.small_image_text.is_some()
        ||| self.party_id.is_some()
        ||| self.party_size.is_some()
        ||| self.party_max.is_some()
        ||| self.match_secret.is_some()
        ||| self.spectate_secret.is_some()
        ||| self.join_secret.is_some()
        ||| self.buttons.is_some()
    }
}

/// Model of a [`Presence`] update.
pub ghost struct PresenceModel {
    pub client_id: Seq<char>,
    pub tray_title: Seq<char>,
    pub playback: bool,
    pub presence_data: PresenceDataModel,
    pub hidden: Option<bool>,
    pub media_keys: Option<bool>,
}

/// One inbound presence update: the target application identity, the
/// activity fields, and the flags around them.
#[derive(Debug, Clone)]
pub struct Presence {
    /// Identity of the target application registration; the registry's key.
    pub client_id: String,
    /// Title for a tray entry; observed only, never sent to the platform.
    pub tray_title: String,
    /// Whether the producer is currently playing something back.
    pub playback: bool,
    /// The activity fields relayed to the platform.
    pub presence_data: PresenceData,
    /// `Some(true)` asks to clear the identity's remote activity before
    /// anything else from this update is applied.
    pub hidden: Option<bool>,
    /// Whether the producer can use media keys; observed only.
    pub media_keys: Option<bool>,
}

impl View for Presence {
    type V = PresenceModel;

    open spec fn view(&self) -> PresenceModel {
        PresenceModel {
            client_id: self.client_id@,
            tray_title: self.tray_title@,
            playback: self.playback,
            presence_data: self.presence_data@,
            hidden: self.hidden,
            media_keys: self.media_keys,
        }
    }
}

/// Model of a [`DiscordUser`] snapshot.
pub ghost struct DiscordUserModel {
    pub avatar: Seq<char>,
    pub bot: bool,
    pub discriminator: Seq<char>,
    pub flags: u32,
    pub id: Seq<char>,
    pub premium_type: u8,
    pub username: Seq<char>,
}

/// The authenticated user descriptor taken from the platform's readiness
/// payload when a session connects.  It is a snapshot: captured once and
/// never refreshed.
#[derive(Debug, Clone)]
pub struct DiscordUser {
    pub avatar: String,
    pub bot: bool,
    pub discriminator: String,
    pub flags: u32,
    pub id: String,
    pub premium_type: u8,
    pub username: String,
}

impl View for DiscordUser {
    type V = DiscordUserModel;

    open spec fn view(&self) -> DiscordUserModel {
        DiscordUserModel {
            avatar: self.avatar@,
            bot: self.bot,
            discriminator: self.discriminator@,
            flags: self.flags,
            id: self.id@,
            premium_type: self.premium_type,
            username: self.username@,
        }
    }
}

} // verus!
