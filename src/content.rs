//! The fixed content of every pack: its room settings, its world and pack
//! settings around the generated ids, and the four objects of its scene.

use vstd::prelude::*;
use crate::records::{WorldPackSettings, WorldSettings, RoomSettings, string_views};
use crate::scene::{Component, SceneObject};

verus! {

pub open spec fn floor_shape_data() -> Seq<char> {
    "{\"pointData\":[{\"position\":{\"x\":-4.0,\"y\":-5.0},\"curved\":false},{\"position\":{\"x\":-4.0,\"y\":-1.0},\"curved\":false},{\"position\":{\"x\":20.0,\"y\":-1.0},\"curved\":false},{\"position\":{\"x\":20.0,\"y\":-5.0},\"curved\":false}]}"@
}

pub open spec fn door_data() -> Seq<char> {
    "{\"roomToLoad\":\"\",\"endPack\":true}"@
}

pub open spec fn platform_shape_data() -> Seq<char> {
    "{\"pointData\":[{\"position\":{\"x\":5.0,\"y\":-1.0},\"curved\":false},{\"position\":{\"x\":11.0,\"y\":-1.0},\"curved\":false}]}"@
}

pub open spec fn toggle_platform_data() -> Seq<char> {
    "{\"active\":false,\"onCollision\":false,\"onCollisionHiddenTime\":10,\"inverted\":false,\"needsGreen\":false,\"frequency\":1.0,\"turbo\":false}"@
}

/// `o` has an empty id, the type tag, the position (in tenths), no rotation,
/// and components of exactly the given kinds and data, in order.
pub open spec fn is_object(
    o: SceneObject,
    type_id: u32,
    x: i64,
    y: i64,
    components: Seq<(Seq<char>, Seq<char>)>,
) -> bool {
    &&& o.guid@ == ""@
    &&& o.type_id == type_id
    &&& o.x_tenths == x
    &&& o.y_tenths == y
    &&& o.rotation_tenths@ == seq![0i64, 0, 0, 10]
    &&& o.components@.len() == components.len()
    &&& forall|k: int| 0 <= k < components.len() ==> {
        &&& (#[trigger] o.components@[k]).kind@ == components[k].0
        &&& o.components@[k].data@ == components[k].1
    }
}

/// The four objects of the default scene: a floor, a spawn point, an end
/// door and a toggling platform.
pub open spec fn is_default_scene(objs: Seq<SceneObject>) -> bool {
    &&& objs.len() == 4
    &&& is_object(objs[0], 2, 0, 0, seq![("PolyMap.Shape"@, floor_shape_data())])
    &&& is_object(objs[1], 3, 0, 0, seq![])
    &&& is_object(objs[2], 4, 180, 5, seq![("Door"@, door_data())])
    &&& is_object(objs[3], 1, 0, 0, seq![
        ("PolyMap.Shape"@, platform_shape_data()),
        ("TogglePlatform"@, toggle_platform_data()),
    ])
}

/// The settings of the default room with the given id.
pub open spec fn is_default_room(r: RoomSettings, room_id: Seq<char>) -> bool {
    &&& r.room_guid@ == room_id
    &&& r.room_name@ == "Room 1"@
    &&& r.room_display_title@ == ""@
    &&& r.available_friends@ == seq![1u8, 1, 1]
    &&& r.companion_health_degradation_multiplier == 0
    &&& r.theme_id == 0
    &&& r.music_id == 0
    &&& r.ability_id == 0
    &&& !r.blue_liquid
    &&& !r.red_damage_flash
    &&& r.has_void
    &&& r.void_height_tenths == -100
}

/// The settings of the one world, whose only room has id `room_id`.
pub open spec fn is_default_world(w: WorldSettings, world_id: Seq<char>, room_id: Seq<char>) -> bool {
    &&& w.world_guid@ == world_id
    &&& w.world_name@ == "World 1"@
    &&& w.starting_room@ == "Room 1"@
    &&& string_views(w.room_progression@) == seq![room_id]
}

/// The settings of the pack named `name`, whose only world has id `world_id`.
pub open spec fn is_default_pack_settings(
    p: WorldPackSettings,
    name: Seq<char>,
    pack_id: Seq<char>,
    world_id: Seq<char>,
    timestamp: i64,
) -> bool {
    &&& p.world_pack_guid@ == pack_id
    &&& p.world_pack_name@ == name
    &&& p.starting_world@ == "World 1"@
    &&& !p.speedrunnable
    &&& string_views(p.world_progression@) == seq![world_id]
    &&& p.timestamp == timestamp
    &&& p.feature_image@ == ""@
    &&& p.creator@ == "Leon_to_ziomal"@
    &&& p.steam_workshop_id@ == ""@
    &&& p.content_version == 0
}

fn component(kind: &str, data: &str) -> (r: Component)
    ensures
        r.kind@ == kind@,
        r.data@ == data@,
{
    Component { kind: String::from_str(kind), data: String::from_str(data) }
}

fn object(type_id: u32, x: i64, y: i64, components: Vec<Component>) -> (r: SceneObject)
    ensures
        r.guid@ == ""@,
        r.type_id == type_id,
        r.x_tenths == x,
        r.y_tenths == y,
        r.rotation_tenths@ == seq![0i64, 0, 0, 10],
        r.components@ == components@,
{
    let r = SceneObject {
        guid: String::from_str(""),
        type_id,
        x_tenths: x,
        y_tenths: y,
        rotation_tenths: [0, 0, 0, 10],
        components,
    };
    assert(r.rotation_tenths@ =~= seq![0i64, 0, 0, 10]);
    r
}

/// The objects of the default scene, in file order.
pub fn default_scene() -> (r: Vec<SceneObject>)
    ensures
        is_default_scene(r@),
{
    let mut floor = Vec::new();
    floor.push(component("PolyMap.Shape", "{\"pointData\":[{\"position\":{\"x\":-4.0,\"y\":-5.0},\"curved\":false},{\"position\":{\"x\":-4.0,\"y\":-1.0},\"curved\":false},{\"position\":{\"x\":20.0,\"y\":-1.0},\"curved\":false},{\"position\":{\"x\":20.0,\"y\":-5.0},\"curved\":false}]}"));
    let mut door = Vec::new();
    door.push(component("Door", "{\"roomToLoad\":\"\",\"endPack\":true}"));
    let mut platform = Vec::new();
    platform.push(component("PolyMap.Shape", "{\"pointData\":[{\"position\":{\"x\":5.0,\"y\":-1.0},\"curved\":false},{\"position\":{\"x\":11.0,\"y\":-1.0},\"curved\":false}]}"));
    platform.push(component("TogglePlatform", "{\"active\":false,\"onCollision\":false,\"onCollisionHiddenTime\":10,\"inverted\":false,\"needsGreen\":false,\"frequency\":1.0,\"turbo\":false}"));
    let mut r = Vec::new();
    r.push(object(2, 0, 0, floor));
    r.push(object(3, 0, 0, Vec::new()));
    r.push(object(4, 180, 5, door));
    r.push(object(1, 0, 0, platform));
    r
}

/// The settings of the default room.
pub fn default_room(room_id: String) -> (r: RoomSettings)
    ensures
        is_default_room(r, room_id@),
{
    let r = RoomSettings {
        room_guid: room_id,
        room_name: String::from_str("Room 1"),
        room_display_title: String::from_str(""),
        available_friends: [1, 1, 1],
        companion_health_degradation_multiplier: 0,
        theme_id: 0,
        music_id: 0,
        ability_id: 0,
        blue_liquid: false,
        red_damage_flash: false,
        has_void: true,
        void_height_tenths: -100,
    };
    assert(r.available_friends@ =~= seq![1u8, 1, 1]);
    r
}

fn single(s: String) -> (r: Vec<String>)
    ensures
        string_views(r@) == seq![s@],
{
    let ghost v = s@;
    let mut r = Vec::new();
    r.push(s);
    assert(string_views(r@) =~= seq![v]);
    r
}

/// The settings of the one world, holding the room `room_id`.
pub fn default_world(world_id: String, room_id: String) -> (r: WorldSettings)
    ensures
        is_default_world(r, world_id@, room_id@),
{
    WorldSettings {
        world_guid: world_id,
        world_name: String::from_str("World 1"),
        starting_room: String::from_str("Room 1"),
        room_progression: single(room_id),
    }
}

/// The settings of the pack `name`, holding the world `world_id`.
pub fn default_pack_settings(name: &str, pack_id: String, world_id: String, timestamp: i64) -> (r: WorldPackSettings)
    ensures
        is_default_pack_settings(r, name@, pack_id@, world_id@, timestamp),
{
    WorldPackSettings {
        world_pack_guid: pack_id,
        world_pack_name: String::from_str(name),
        starting_world: String::from_str("World 1"),
        speedrunnable: false,
        world_progression: single(world_id),
        timestamp,
        feature_image: String::from_str(""),
        creator: String::from_str("Leon_to_ziomal"),
        steam_workshop_id: String::from_str(""),
        content_version: 0,
    }
}

} // verus!
