//! Properties that hold across calls, proved over the contracts of the
//! functions they speak of.

use vstd::prelude::*;
use crate::content::{
    is_object, is_default_scene, floor_shape_data, door_data, platform_shape_data,
    toggle_platform_data,
};
use crate::path::{Platform, join, is_pack_name, output_path};
use crate::pack::{PackContents, PackFile, is_default_pack, are_pack_files, world_dir, room_dir, settings_file};
use crate::records::{WorldPackSettings, WorldSettings, RoomSettings, pack_json, world_json, room_json, string_views};
use crate::scene::{SceneObject, Component, header_json, component_lines, object_lines, scene_lines, scene_text};

verus! {

proof fn lemma_join_len(p: Platform, base: Seq<char>, a: Seq<char>, b: Seq<char>)
    ensures
        base.len() + a.len() <= join(p, base, a).len() <= base.len() + a.len() + 1,
        join(p, base, a).len() - a.len() == join(p, base, b).len() - b.len(),
{
}

proof fn lemma_join_distinct(p: Platform, base: Seq<char>, a: Seq<char>, b: Seq<char>)
    requires
        a != b,
    ensures
        join(p, base, a) != join(p, base, b),
{
    let pre = if base.len() == 0 || crate::path::is_separator(p, base.last()) {
        base
    } else {
        base + seq![crate::path::separator(p)]
    };
    assert(join(p, base, a) == pre + a);
    assert(join(p, base, b) == pre + b);
    if pre + a == pre + b {
        assert((pre + a).subrange(pre.len() as int, (pre + a).len() as int) =~= a);
        assert((pre + b).subrange(pre.len() as int, (pre + b).len() as int) =~= b);
    }
}

/// The pack directory is a function of the home directory and the pack name
/// alone, the pack name is its last segment, and two different pack names
/// never share a directory.
pub proof fn lemma_output_path_per_name(p: Platform, home: Seq<char>, a: Seq<char>, b: Seq<char>)
    requires
        is_pack_name(a),
        is_pack_name(b),
    ensures
        a == b ==> output_path(p, home, a) == output_path(p, home, b),
        a != b ==> output_path(p, home, a) != output_path(p, home, b),
        output_path(p, home, a).subrange(
            output_path(p, home, a).len() - a.len(),
            output_path(p, home, a).len() as int,
        ) == a,
{
    let base = match p {
        Platform::Linux => join(p, join(p, join(p, join(p, join(p, home, ".config"@), "unity3d"@),
            "Last Quarter Studios"@), "Cats are Liquid - A Better Place"@), "Custom"@),
        Platform::Windows => join(p, join(p, join(p, join(p, join(p, home, "AppData"@), "LocalLow"@),
            "Last Quarter Studios"@), "Cats are Liquid - A Better Place"@), "Custom"@),
    };
    assert(output_path(p, home, a) == join(p, base, a));
    assert(output_path(p, home, b) == join(p, base, b));
    if a != b {
        lemma_join_distinct(p, base, a, b);
    }
    let r = join(p, base, a);
    assert(r.subrange(r.len() - a.len(), r.len() as int) =~= a);
}

/// Every id in the pack's world order is the id of the world record that
/// exactly one planned file holds, the world settings file; every id in the
/// world's room order is the id of the room record that exactly one planned
/// file holds, the room settings file.
pub proof fn lemma_progressions_complete(
    files: Seq<PackFile>,
    p: Platform,
    root: Seq<char>,
    c: PackContents,
    name: Seq<char>,
    pack_id: Seq<char>,
    world_id: Seq<char>,
    room_id: Seq<char>,
    timestamp: i64,
)
    requires
        is_default_pack(c, name, pack_id, world_id, room_id, timestamp),
        are_pack_files(files, p, root, c),
    ensures
        forall|i: int| 0 <= i < c.pack.world_progression@.len() ==>
            #[trigger] string_views(c.pack.world_progression@)[i] == c.world.world_guid@,
        files[2].path@ == settings_file(p, world_dir(p, root)),
        files[2].contents@ == world_json(&c.world),
        forall|k: int| 0 <= k < files.len() && #[trigger] files[k].path@ == settings_file(p, world_dir(p, root))
            ==> k == 2,
        forall|i: int| 0 <= i < c.world.room_progression@.len() ==>
            #[trigger] string_views(c.world.room_progression@)[i] == c.room.room_guid@,
        files[1].path@ == settings_file(p, room_dir(p, root)),
        files[1].contents@ == room_json(&c.room),
        forall|k: int| 0 <= k < files.len() && #[trigger] files[k].path@ == settings_file(p, room_dir(p, root))
            ==> k == 1,
{
    reveal_strlit("World 1");
    reveal_strlit("Room 1");
    reveal_strlit("settings.data");
    reveal_strlit("polymap.data");
    let wd = world_dir(p, root);
    let rd = room_dir(p, root);
    lemma_join_len(p, root, "World 1"@, "World 1"@);
    lemma_join_len(p, wd, "Room 1"@, "Room 1"@);
    lemma_join_len(p, root, "settings.data"@, "settings.data"@);
    lemma_join_len(p, wd, "settings.data"@, "settings.data"@);
    lemma_join_len(p, rd, "settings.data"@, "polymap.data"@);
    assert(string_views(c.pack.world_progression@) == seq![world_id]);
    assert(string_views(c.world.room_progression@) == seq![room_id]);
    assert forall|k: int| 0 <= k < files.len() && #[trigger] files[k].path@ == settings_file(p, wd)
        implies k == 2 by {
        if k != 2 {
            assert(files[k].path@.len() != settings_file(p, wd).len());
        }
    }
    assert forall|k: int| 0 <= k < files.len() && #[trigger] files[k].path@ == settings_file(p, rd)
        implies k == 1 by {
        if k != 1 {
            assert(files[k].path@.len() != settings_file(p, rd).len());
        }
    }
}

/// The encoding of a settings record depends on the values of its fields
/// alone: records with equal fields encode to the same text.
pub proof fn lemma_record_encodings_stable(
    p1: WorldPackSettings,
    p2: WorldPackSettings,
    w1: WorldSettings,
    w2: WorldSettings,
    r1: RoomSettings,
    r2: RoomSettings,
)
    ensures
        ({
            &&& p1.world_pack_guid@ == p2.world_pack_guid@
            &&& p1.world_pack_name@ == p2.world_pack_name@
            &&& p1.starting_world@ == p2.starting_world@
            &&& p1.speedrunnable == p2.speedrunnable
            &&& string_views(p1.world_progression@) == string_views(p2.world_progression@)
            &&& p1.timestamp == p2.timestamp
            &&& p1.feature_image@ == p2.feature_image@
            &&& p1.creator@ == p2.creator@
            &&& p1.steam_workshop_id@ == p2.steam_workshop_id@
            &&& p1.content_version == p2.content_version
        }) ==> pack_json(&p1) == pack_json(&p2),
        ({
            &&& w1.world_guid@ == w2.world_guid@
            &&& w1.world_name@ == w2.world_name@
            &&& w1.starting_room@ == w2.starting_room@
            &&& string_views(w1.room_progression@) == string_views(w2.room_progression@)
        }) ==> world_json(&w1) == world_json(&w2),
        ({
            &&& r1.room_guid@ == r2.room_guid@
            &&& r1.room_name@ == r2.room_name@
            &&& r1.room_display_title@ == r2.room_display_title@
            &&& r1.available_friends@ == r2.available_friends@
            &&& r1.companion_health_degradation_multiplier == r2.companion_health_degradation_multiplier
            &&& r1.theme_id == r2.theme_id
            &&& r1.music_id == r2.music_id
            &&& r1.ability_id == r2.ability_id
            &&& r1.blue_liquid == r2.blue_liquid
            &&& r1.red_damage_flash == r2.red_damage_flash
            &&& r1.has_void == r2.has_void
            &&& r1.void_height_tenths == r2.void_height_tenths
        }) ==> room_json(&r1) == room_json(&r2),
{
}

proof fn lemma_component_lines_same(a: Seq<Component>, b: Seq<Component>)
    requires
        a.len() == b.len(),
        forall|k: int| 0 <= k < a.len() ==> (#[trigger] a[k]).kind@ == b[k].kind@ && a[k].data@ == b[k].data@,
    ensures
        component_lines(a) == component_lines(b),
    decreases a.len(),
{
    if a.len() > 0 {
        lemma_component_lines_same(a.drop_last(), b.drop_last());
        assert(a.last() == a[a.len() - 1]);
    }
}

proof fn lemma_object_lines_same(
    o1: SceneObject,
    o2: SceneObject,
    type_id: u32,
    x: i64,
    y: i64,
    comps: Seq<(Seq<char>, Seq<char>)>,
)
    requires
        is_object(o1, type_id, x, y, comps),
        is_object(o2, type_id, x, y, comps),
    ensures
        object_lines(o1) == object_lines(o2),
{
    assert forall|k: int| 0 <= k < o1.components@.len() implies
        (#[trigger] o1.components@[k]).kind@ == o2.components@[k].kind@
            && o1.components@[k].data@ == o2.components@[k].data@ by {
        assert(o2.components@[k].kind@ == comps[k].0);
    }
    lemma_component_lines_same(o1.components@, o2.components@);
    assert(header_json(o1) == header_json(o2));
}

proof fn lemma_scene_lines_four(objs: Seq<SceneObject>)
    requires
        objs.len() == 4,
    ensures
        scene_lines(objs) == object_lines(objs[0]) + object_lines(objs[1]) + object_lines(objs[2])
            + object_lines(objs[3]),
{
    let s0 = Seq::<SceneObject>::empty();
    let s1 = seq![objs[0]];
    let s2 = seq![objs[0], objs[1]];
    let s3 = seq![objs[0], objs[1], objs[2]];
    assert(scene_lines(s0) == Seq::<Seq<char>>::empty());
    assert(s1.drop_last() =~= s0);
    assert(s2.drop_last() =~= s1);
    assert(s3.drop_last() =~= s2);
    assert(objs.drop_last() =~= s3);
    assert(scene_lines(s1) =~= object_lines(objs[0]));
    assert(scene_lines(s2) == scene_lines(s1) + object_lines(objs[1]));
    assert(scene_lines(s3) == scene_lines(s2) + object_lines(objs[2]));
    assert(scene_lines(objs) == scene_lines(s3) + object_lines(objs[3]));
    assert(scene_lines(objs) =~= object_lines(objs[0]) + object_lines(objs[1]) + object_lines(objs[2])
        + object_lines(objs[3]));
}

/// The default scene has four header lines, for objects with 1, 0, 1 and 2
/// components in that order, each followed by its components' lines.
pub proof fn lemma_default_scene_headers(objs: Seq<SceneObject>)
    requires
        is_default_scene(objs),
    ensures
        objs[0].components@.len() == 1,
        objs[1].components@.len() == 0,
        objs[2].components@.len() == 1,
        objs[3].components@.len() == 2,
        scene_lines(objs) == seq![
            header_json(objs[0]), "PolyMap.Shape"@, floor_shape_data(),
            header_json(objs[1]),
            header_json(objs[2]), "Door"@, door_data(),
            header_json(objs[3]), "PolyMap.Shape"@, platform_shape_data(),
            "TogglePlatform"@, toggle_platform_data(),
        ],
{
    lemma_scene_lines_four(objs);
    let c0 = objs[0].components@;
    let c1 = objs[1].components@;
    let c2 = objs[2].components@;
    let c3 = objs[3].components@;
    assert(c0.drop_last() =~= Seq::<Component>::empty());
    assert(c1 =~= Seq::<Component>::empty());
    assert(c2.drop_last() =~= Seq::<Component>::empty());
    assert(c3.drop_last().drop_last() =~= Seq::<Component>::empty());
    assert(c0[0].kind@ == "PolyMap.Shape"@ && c0[0].data@ == floor_shape_data());
    assert(c2[0].kind@ == "Door"@ && c2[0].data@ == door_data());
    assert(c3[0].kind@ == "PolyMap.Shape"@ && c3[0].data@ == platform_shape_data());
    assert(c3[1].kind@ == "TogglePlatform"@ && c3[1].data@ == toggle_platform_data());
    assert(component_lines(Seq::<Component>::empty()) == Seq::<Seq<char>>::empty());
    assert(component_lines(c0) =~= seq!["PolyMap.Shape"@, floor_shape_data()]);
    assert(component_lines(c2) =~= seq!["Door"@, door_data()]);
    assert(c3.drop_last().last() == c3[0]);
    assert(component_lines(c3.drop_last()) =~= seq!["PolyMap.Shape"@, platform_shape_data()]);
    assert(component_lines(c3) =~= seq![
        "PolyMap.Shape"@, platform_shape_data(), "TogglePlatform"@, toggle_platform_data()]);
    assert(scene_lines(objs) =~= seq![
        header_json(objs[0]), "PolyMap.Shape"@, floor_shape_data(),
        header_json(objs[1]),
        header_json(objs[2]), "Door"@, door_data(),
        header_json(objs[3]), "PolyMap.Shape"@, platform_shape_data(),
        "TogglePlatform"@, toggle_platform_data(),
    ]);
}

/// Two default packs have the same scene description file, whatever their
/// names, ids and times.
pub proof fn lemma_scene_independent_of_ids(
    c1: PackContents,
    c2: PackContents,
    name1: Seq<char>,
    name2: Seq<char>,
    pack_id1: Seq<char>,
    pack_id2: Seq<char>,
    world_id1: Seq<char>,
    world_id2: Seq<char>,
    room_id1: Seq<char>,
    room_id2: Seq<char>,
    timestamp1: i64,
    timestamp2: i64,
)
    requires
        is_default_pack(c1, name1, pack_id1, world_id1, room_id1, timestamp1),
        is_default_pack(c2, name2, pack_id2, world_id2, room_id2, timestamp2),
    ensures
        scene_text(c1.scene@) == scene_text(c2.scene@),
{
    let a = c1.scene@;
    let b = c2.scene@;
    lemma_object_lines_same(a[0], b[0], 2, 0, 0, seq![("PolyMap.Shape"@, floor_shape_data())]);
    lemma_object_lines_same(a[1], b[1], 3, 0, 0, seq![]);
    lemma_object_lines_same(a[2], b[2], 4, 180, 5, seq![("Door"@, door_data())]);
    lemma_object_lines_same(a[3], b[3], 1, 0, 0, seq![
        ("PolyMap.Shape"@, platform_shape_data()),
        ("TogglePlatform"@, toggle_platform_data()),
    ]);
    lemma_scene_lines_four(a);
    lemma_scene_lines_four(b);
}

} // verus!
