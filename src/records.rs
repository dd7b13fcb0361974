//! The three settings records of a pack and their single-line JSON encodings.
//! Field names and their order are fixed: the engine reads them by name and
//! position.

use vstd::prelude::*;
use crate::json::{
    json_string, json_string_array, decimal, signed_decimal, tenths_text,
    push_json_string, push_json_string_array, push_decimal, push_signed_decimal, push_tenths,
};

verus! {

/// Settings of the pack as a whole.
pub struct WorldPackSettings {
    pub world_pack_guid: String,
    pub world_pack_name: String,
    pub starting_world: String,
    pub speedrunnable: bool,
    /// Ids of the pack's worlds, in the order they are played.
    pub world_progression: Vec<String>,
    /// Seconds since the Unix epoch when the pack was made.
    pub timestamp: i64,
    pub feature_image: String,
    pub creator: String,
    pub steam_workshop_id: String,
    pub content_version: u8,
}

/// Settings of one world.
pub struct WorldSettings {
    pub world_guid: String,
    pub world_name: String,
    pub starting_room: String,
    /// Ids of the world's rooms, in the order they are played.
    pub room_progression: Vec<String>,
}

/// Settings of one room.
pub struct RoomSettings {
    pub room_guid: String,
    pub room_name: String,
    pub room_display_title: String,
    pub available_friends: [u8; 3],
    pub companion_health_degradation_multiplier: u8,
    pub theme_id: u8,
    pub music_id: u8,
    pub ability_id: u8,
    pub blue_liquid: bool,
    pub red_damage_flash: bool,
    pub has_void: bool,
    /// Height of the void floor, in tenths of a unit.
    pub void_height_tenths: i64,
}

pub open spec fn bool_text(b: bool) -> Seq<char> {
    if b {
        "true"@
    } else {
        "false"@
    }
}

pub open spec fn string_views(v: Seq<String>) -> Seq<Seq<char>> {
    v.map_values(|s: String| s@)
}

/// The JSON object of the pack settings.
pub open spec fn pack_json(p: &WorldPackSettings) -> Seq<char> {
    "{\"worldPackGUID\":"@ + json_string(p.world_pack_guid@)
        + ",\"worldPackName\":"@ + json_string(p.world_pack_name@)
        + ",\"startingWorld\":"@ + json_string(p.starting_world@)
        + ",\"speedrunnable\":"@ + bool_text(p.speedrunnable)
        + ",\"worldProgression\":"@ + json_string_array(string_views(p.world_progression@))
        + ",\"timestamp\":"@ + signed_decimal(p.timestamp as int)
        + ",\"featureImage\":"@ + json_string(p.feature_image@)
        + ",\"creator\":"@ + json_string(p.creator@)
        + ",\"steamWorkshopID\":"@ + json_string(p.steam_workshop_id@)
        + ",\"contentVersion\":"@ + decimal(p.content_version as nat)
        + "}"@
}

/// The JSON object of the world settings.
pub open spec fn world_json(w: &WorldSettings) -> Seq<char> {
    "{\"worldGUID\":"@ + json_string(w.world_guid@)
        + ",\"worldName\":"@ + json_string(w.world_name@)
        + ",\"startingRoom\":"@ + json_string(w.starting_room@)
        + ",\"roomProgression\":"@ + json_string_array(string_views(w.room_progression@))
        + "}"@
}

/// The three friend slot weights as a JSON array.
pub open spec fn friends_text(f: Seq<u8>) -> Seq<char> {
    "["@ + decimal(f[0] as nat) + ","@ + decimal(f[1] as nat) + ","@ + decimal(f[2] as nat) + "]"@
}

/// The JSON object of the room settings.
pub open spec fn room_json(r: &RoomSettings) -> Seq<char> {
    "{\"roomGUID\":"@ + json_string(r.room_guid@)
        + ",\"roomName\":"@ + json_string(r.room_name@)
        + ",\"roomDisplayTitle\":"@ + json_string(r.room_display_title@)
        + ",\"availableFriends\":"@ + friends_text(r.available_friends@)
        + ",\"companionHealthDegradationMultiplier\":"@
        + decimal(r.companion_health_degradation_multiplier as nat)
        + ",\"themeID\":"@ + decimal(r.theme_id as nat)
        + ",\"musicID\":"@ + decimal(r.music_id as nat)
        + ",\"abilityID\":"@ + decimal(r.ability_id as nat)
        + ",\"blueLiquid\":"@ + bool_text(r.blue_liquid)
        + ",\"redDamageFlash\":"@ + bool_text(r.red_damage_flash)
        + ",\"hasVoid\":"@ + bool_text(r.has_void)
        + ",\"voidHeight\":"@ + tenths_text(r.void_height_tenths as int)
        + "}"@
}

fn push_bool(out: &mut String, b: bool)
    ensures
        final(out)@ == old(out)@ + bool_text(b),
{
    if b {
        out.append("true");
    } else {
        out.append("false");
    }
}

impl WorldPackSettings {
    /// The record as one line of JSON.
    pub fn to_json(&self) -> (r: String)
        ensures
            r@ == pack_json(self),
    {
        let mut out = String::new();
        out.append("{\"worldPackGUID\":");
        push_json_string(&mut out, self.world_pack_guid.as_str());
        out.append(",\"worldPackName\":");
        push_json_string(&mut out, self.world_pack_name.as_str());
        out.append(",\"startingWorld\":");
        push_json_string(&mut out, self.starting_world.as_str());
        out.append(",\"speedrunnable\":");
        push_bool(&mut out, self.speedrunnable);
        out.append(",\"worldProgression\":");
        push_json_string_array(&mut out, &self.world_progression);
        out.append(",\"timestamp\":");
        push_signed_decimal(&mut out, self.timestamp);
        out.append(",\"featureImage\":");
        push_json_string(&mut out, self.feature_image.as_str());
        out.append(",\"creator\":");
        push_json_string(&mut out, self.creator.as_str());
        out.append(",\"steamWorkshopID\":");
        push_json_string(&mut out, self.steam_workshop_id.as_str());
        out.append(",\"contentVersion\":");
        push_decimal(&mut out, self.content_version as u64);
        out.append("}");
        proof {
            assert(out@ =~= pack_json(self));
        }
        out
    }
}

impl WorldSettings {
    /// The record as one line of JSON.
    pub fn to_json(&self) -> (r: String)
        ensures
            r@ == world_json(self),
    {
        let mut out = String::new();
        out.append("{\"worldGUID\":");
        push_json_string(&mut out, self.world_guid.as_str());
        out.append(",\"worldName\":");
        push_json_string(&mut out, self.world_name.as_str());
        out.append(",\"startingRoom\":");
        push_json_string(&mut out, self.starting_room.as_str());
        out.append(",\"roomProgression\":");
        push_json_string_array(&mut out, &self.room_progression);
        out.append("}");
        assert(out@ =~= world_json(self));
        out
    }
}

impl RoomSettings {
    /// The record as one line of JSON.
    pub fn to_json(&self) -> (r: String)
        ensures
            r@ == room_json(self),
    {
        let mut out = String::new();
        out.append("{\"roomGUID\":");
        push_json_string(&mut out, self.room_guid.as_str());
        out.append(",\"roomName\":");
        push_json_string(&mut out, self.room_name.as_str());
        out.append(",\"roomDisplayTitle\":");
        push_json_string(&mut out, self.room_display_title.as_str());
        out.append(",\"availableFriends\":");
        let ghost friends_start = out@;
        out.append("[");
        push_decimal(&mut out, self.available_friends[0] as u64);
        out.append(",");
        push_decimal(&mut out, self.available_friends[1] as u64);
        out.append(",");
        push_decimal(&mut out, self.available_friends[2] as u64);
        out.append("]");
        assert(out@ =~= friends_start + friends_text(self.available_friends@));
        out.append(",\"companionHealthDegradationMultiplier\":");
        push_decimal(&mut out, self.companion_health_degradation_multiplier as u64);
        out.append(",\"themeID\":");
        push_decimal(&mut out, self.theme_id as u64);
        out.append(",\"musicID\":");
        push_decimal(&mut out, self.music_id as u64);
        out.append(",\"abilityID\":");
        push_decimal(&mut out, self.ability_id as u64);
        out.append(",\"blueLiquid\":");
        push_bool(&mut out, self.blue_liquid);
        out.append(",\"redDamageFlash\":");
        push_bool(&mut out, self.red_damage_flash);
        out.append(",\"hasVoid\":");
        push_bool(&mut out, self.has_void);
        out.append(",\"voidHeight\":");
        push_tenths(&mut out, self.void_height_tenths);
        out.append("}");
        assert(out@ =~= room_json(self));
        out
    }
}

} // verus!
