//! A whole pack: its entities, built bottom-up around fresh ids, and the
//! files that hold them, in the order they are written.

use vstd::prelude::*;
use crate::content::{
    is_default_scene, is_default_room, is_default_world, is_default_pack_settings,
    default_scene, default_room, default_world, default_pack_settings,
};
use crate::ids::{is_uuid_v4_text, new_id, current_timestamp};
use crate::path::{Platform, PathError, join, push_segment, output_path, resolve_output_root};
use crate::records::{WorldPackSettings, WorldSettings, RoomSettings, pack_json, world_json, room_json};
use crate::scene::{SceneObject, encode_scene, scene_text};

verus! {

/// Everything one pack holds.
pub struct PackContents {
    pub pack: WorldPackSettings,
    pub world: WorldSettings,
    pub room: RoomSettings,
    /// The objects of the room, in file order.
    pub scene: Vec<SceneObject>,
}

/// One file to write: where, and what.
pub struct PackFile {
    pub path: String,
    pub contents: String,
}

/// `c` is the default pack named `name`, with the given ids and time.
pub open spec fn is_default_pack(
    c: PackContents,
    name: Seq<char>,
    pack_id: Seq<char>,
    world_id: Seq<char>,
    room_id: Seq<char>,
    timestamp: i64,
) -> bool {
    &&& is_default_pack_settings(c.pack, name, pack_id, world_id, timestamp)
    &&& is_default_world(c.world, world_id, room_id)
    &&& is_default_room(c.room, room_id)
    &&& is_default_scene(c.scene@)
}

pub open spec fn world_dir(p: Platform, root: Seq<char>) -> Seq<char> {
    join(p, root, "World 1"@)
}

pub open spec fn room_dir(p: Platform, root: Seq<char>) -> Seq<char> {
    join(p, world_dir(p, root), "Room 1"@)
}

pub open spec fn settings_file(p: Platform, dir: Seq<char>) -> Seq<char> {
    join(p, dir, "settings.data"@)
}

pub open spec fn scene_file(p: Platform, root: Seq<char>) -> Seq<char> {
    join(p, room_dir(p, root), "polymap.data"@)
}

/// `f` are the files of pack `c` under `root`, in write order: the scene
/// description, then the settings of the room, of the world and of the pack.
pub open spec fn are_pack_files(f: Seq<PackFile>, p: Platform, root: Seq<char>, c: PackContents) -> bool {
    &&& f.len() == 4
    &&& f[0].path@ == scene_file(p, root)
    &&& f[0].contents@ == scene_text(c.scene@)
    &&& f[1].path@ == settings_file(p, room_dir(p, root))
    &&& f[1].contents@ == room_json(&c.room)
    &&& f[2].path@ == settings_file(p, world_dir(p, root))
    &&& f[2].contents@ == world_json(&c.world)
    &&& f[3].path@ == settings_file(p, root)
    &&& f[3].contents@ == pack_json(&c.pack)
}

/// The default pack named `name` around the given ids; the room and world
/// ids are those that the world and pack list.
pub fn build_pack(name: &str, pack_id: String, world_id: String, room_id: String, timestamp: i64) -> (r: PackContents)
    ensures
        is_default_pack(r, name@, pack_id@, world_id@, room_id@, timestamp),
{
    let room = default_room(room_id.clone());
    let world = default_world(world_id.clone(), room_id);
    let pack = default_pack_settings(name, pack_id, world_id, timestamp);
    PackContents { pack, world, room, scene: default_scene() }
}

/// A new default pack named `name`, with fresh random ids and the current
/// time.
pub fn new_pack(name: &str) -> (r: PackContents)
    ensures
        is_default_pack(r, name@, r.pack.world_pack_guid@, r.world.world_guid@, r.room.room_guid@, r.pack.timestamp),
        is_uuid_v4_text(r.pack.world_pack_guid@),
        is_uuid_v4_text(r.world.world_guid@),
        is_uuid_v4_text(r.room.room_guid@),
{
    let pack_id = new_id();
    let world_id = new_id();
    let room_id = new_id();
    build_pack(name, pack_id, world_id, room_id, current_timestamp())
}

/// The directory that holds the room's files; creating it creates the
/// pack's other directories too.
pub fn room_directory(p: Platform, root: &str) -> (r: String)
    ensures
        r@ == room_dir(p, root@),
{
    let mut d = String::from_str(root);
    push_segment(&mut d, p, "World 1");
    push_segment(&mut d, p, "Room 1");
    d
}

fn file_in(p: Platform, dir: &str, name: &str, contents: String) -> (r: PackFile)
    ensures
        r.path@ == join(p, dir@, name@),
        r.contents@ == contents@,
{
    let mut path = String::from_str(dir);
    push_segment(&mut path, p, name);
    PackFile { path, contents }
}

/// The files of pack `c` under the pack directory `root`, in write order:
/// the scene description, then the settings of the room, of the world and
/// of the pack.
pub fn pack_files(p: Platform, root: &str, c: &PackContents) -> (r: Vec<PackFile>)
    ensures
        are_pack_files(r@, p, root@, *c),
{
    let mut world_path = String::from_str(root);
    push_segment(&mut world_path, p, "World 1");
    let room_path = room_directory(p, root);
    let scene = encode_scene(&c.scene);
    let room = c.room.to_json();
    let world = c.world.to_json();
    let pack = c.pack.to_json();
    let mut files = Vec::new();
    files.push(file_in(p, room_path.as_str(), "polymap.data", scene));
    files.push(file_in(p, room_path.as_str(), "settings.data", room));
    files.push(file_in(p, world_path.as_str(), "settings.data", world));
    files.push(file_in(p, root, "settings.data", pack));
    files
}

/// What a run writes: the pack directory, the directory to create, the
/// pack's entities and its files in write order.
pub struct PackPlan {
    pub root: String,
    pub room_dir: String,
    pub contents: PackContents,
    pub files: Vec<PackFile>,
}

/// The files a planning result has a run write: none when planning failed.
pub open spec fn planned_writes(r: Result<PackPlan, PathError>) -> Seq<PackFile> {
    match r {
        Ok(plan) => plan.files@,
        Err(_) => Seq::empty(),
    }
}

/// Plans a new default pack named `name` on platform `p`, given the value
/// of the platform's home variable. It succeeds exactly when that value is
/// present; without it nothing is planned, so nothing is written.
pub fn plan_pack(p: Platform, home: Option<&str>, name: &str) -> (r: Result<PackPlan, PathError>)
    ensures
        home is None <==> r is Err,
        home is None ==> r == Err::<PackPlan, PathError>(PathError::MissingHome),
        home is None ==> planned_writes(r).len() == 0,
        r is Ok ==> ({
            let plan = r->Ok_0;
            let c = plan.contents;
            &&& plan.root@ == output_path(p, home->Some_0@, name@)
            &&& plan.room_dir@ == room_dir(p, plan.root@)
            &&& is_default_pack(c, name@, c.pack.world_pack_guid@, c.world.world_guid@, c.room.room_guid@, c.pack.timestamp)
            &&& is_uuid_v4_text(c.pack.world_pack_guid@)
            &&& is_uuid_v4_text(c.world.world_guid@)
            &&& is_uuid_v4_text(c.room.room_guid@)
            &&& are_pack_files(plan.files@, p, plan.root@, c)
        }),
{
    let root = match resolve_output_root(p, home, name) {
        Ok(root) => root,
        Err(e) => {
            return Err(e);
        },
    };
    let contents = new_pack(name);
    let files = pack_files(p, root.as_str(), &contents);
    let room_dir = room_directory(p, root.as_str());
    Ok(PackPlan { root, room_dir, contents, files })
}

} // verus!
