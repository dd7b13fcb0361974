use polylangc::content::default_scene;
use polylangc::json::{push_decimal, push_json_string, push_signed_decimal, push_tenths, push_json_string_array};
use polylangc::linux;
use polylangc::pack::{build_pack, new_pack, pack_files, plan_pack, room_directory};
use polylangc::path::{push_segment, resolve_output_root, PathError, Platform};
use polylangc::scene::encode_scene;
use polylangc::windows;

const LINUX_CUSTOM: &str = "/home/u/.config/unity3d/Last Quarter Studios/Cats are Liquid - A Better Place/Custom";

fn scene() -> String {
    [
        r#"{"guid":"","id":2,"position":{"x":0.0,"y":0.0},"rotation":{"x":0.0,"y":0.0,"z":0.0,"w":1.0},"additionalComponentCount":1}"#,
        "PolyMap.Shape",
        r#"{"pointData":[{"position":{"x":-4.0,"y":-5.0},"curved":false},{"position":{"x":-4.0,"y":-1.0},"curved":false},{"position":{"x":20.0,"y":-1.0},"curved":false},{"position":{"x":20.0,"y":-5.0},"curved":false}]}"#,
        r#"{"guid":"","id":3,"position":{"x":0.0,"y":0.0},"rotation":{"x":0.0,"y":0.0,"z":0.0,"w":1.0},"additionalComponentCount":0}"#,
        r#"{"guid":"","id":4,"position":{"x":18.0,"y":0.5},"rotation":{"x":0.0,"y":0.0,"z":0.0,"w":1.0},"additionalComponentCount":1}"#,
        "Door",
        r#"{"roomToLoad":"","endPack":true}"#,
        r#"{"guid":"","id":1,"position":{"x":0.0,"y":0.0},"rotation":{"x":0.0,"y":0.0,"z":0.0,"w":1.0},"additionalComponentCount":2}"#,
        "PolyMap.Shape",
        r#"{"pointData":[{"position":{"x":5.0,"y":-1.0},"curved":false},{"position":{"x":11.0,"y":-1.0},"curved":false}]}"#,
        "TogglePlatform",
        r#"{"active":false,"onCollision":false,"onCollisionHiddenTime":10,"inverted":false,"needsGreen":false,"frequency":1.0,"turbo":false}"#,
    ]
    .iter()
    .map(|l| format!("{l}\n"))
    .collect()
}

fn is_uuid_v4(s: &str) -> bool {
    let b = s.as_bytes();
    b.len() == 36
        && b.iter().enumerate().all(|(i, c)| {
            if i == 8 || i == 13 || i == 18 || i == 23 {
                *c == b'-'
            } else {
                c.is_ascii_digit() || (b'a'..=b'f').contains(c)
            }
        })
        && b[14] == b'4'
        && matches!(b[19], b'8' | b'9' | b'a' | b'b')
}

#[test]
fn linux_output_path_for_test_pack() {
    let p = linux::get_output_path("/home/u", "TestPack");
    assert_eq!(p, format!("{LINUX_CUSTOM}/TestPack"));
}

#[test]
fn linux_output_path_home_with_trailing_slash() {
    let p = linux::get_output_path("/home/u/", "TestPack");
    assert_eq!(p, format!("{LINUX_CUSTOM}/TestPack"));
}

#[test]
fn windows_output_path_for_test_pack() {
    let p = windows::get_output_path("C:\\Users\\u", "TestPack");
    assert_eq!(
        p,
        "C:\\Users\\u\\AppData\\LocalLow\\Last Quarter Studios\\Cats are Liquid - A Better Place\\Custom\\TestPack"
    );
}

#[test]
fn output_path_is_deterministic_and_per_name() {
    let a = linux::get_output_path("/home/u", "A");
    let b = linux::get_output_path("/home/u", "A");
    let c = linux::get_output_path("/home/u", "B");
    assert_eq!(a, b);
    assert_ne!(a, c);
    assert!(a.ends_with("/A"));
}

#[test]
fn segment_join_rules() {
    let mut s = String::new();
    push_segment(&mut s, Platform::Linux, "a");
    assert_eq!(s, "a");
    push_segment(&mut s, Platform::Linux, "b");
    assert_eq!(s, "a/b");
    let mut w = String::from("C:/x/");
    push_segment(&mut w, Platform::Windows, "y");
    assert_eq!(w, "C:/x/y");
}

#[test]
fn home_variables() {
    assert_eq!(Platform::Linux.home_variable(), "HOME");
    assert_eq!(Platform::Windows.home_variable(), "USERPROFILE");
}

#[test]
fn missing_home_is_an_error() {
    assert_eq!(resolve_output_root(Platform::Linux, None, "TestPack"), Err(PathError::MissingHome));
    assert!(matches!(plan_pack(Platform::Linux, None, "TestPack"), Err(PathError::MissingHome)));
    assert!(matches!(plan_pack(Platform::Windows, None, "TestPack"), Err(PathError::MissingHome)));
}

#[test]
fn resolve_with_home() {
    assert_eq!(
        resolve_output_root(Platform::Linux, Some("/home/u"), "TestPack"),
        Ok(format!("{LINUX_CUSTOM}/TestPack"))
    );
}

#[test]
fn plan_for_test_pack_layout() {
    let plan = plan_pack(Platform::Linux, Some("/home/u"), "TestPack").unwrap();
    let root = format!("{LINUX_CUSTOM}/TestPack");
    assert_eq!(plan.root, root);
    assert_eq!(plan.room_dir, format!("{root}/World 1/Room 1"));
    let paths: Vec<&str> = plan.files.iter().map(|f| f.path.as_str()).collect();
    assert_eq!(
        paths,
        vec![
            format!("{root}/World 1/Room 1/polymap.data"),
            format!("{root}/World 1/Room 1/settings.data"),
            format!("{root}/World 1/settings.data"),
            format!("{root}/settings.data"),
        ]
    );
    assert_eq!(plan.files[0].contents, scene());
}

#[test]
fn settings_records_exact() {
    let c = build_pack("TestPack", "p-id".to_string(), "w-id".to_string(), "r-id".to_string(), 1700000000);
    let files = pack_files(Platform::Linux, "/r", &c);
    assert_eq!(files[0].contents, scene());
    assert_eq!(
        files[1].contents,
        r#"{"roomGUID":"r-id","roomName":"Room 1","roomDisplayTitle":"","availableFriends":[1,1,1],"companionHealthDegradationMultiplier":0,"themeID":0,"musicID":0,"abilityID":0,"blueLiquid":false,"redDamageFlash":false,"hasVoid":true,"voidHeight":-10.0}"#
    );
    assert_eq!(
        files[2].contents,
        r#"{"worldGUID":"w-id","worldName":"World 1","startingRoom":"Room 1","roomProgression":["r-id"]}"#
    );
    assert_eq!(
        files[3].contents,
        r#"{"worldPackGUID":"p-id","worldPackName":"TestPack","startingWorld":"World 1","speedrunnable":false,"worldProgression":["w-id"],"timestamp":1700000000,"featureImage":"","creator":"Leon_to_ziomal","steamWorkshopID":"","contentVersion":0}"#
    );
}

#[test]
fn pack_name_is_escaped_in_settings() {
    let c = build_pack("Say \"hi\"", "p".to_string(), "w".to_string(), "r".to_string(), -5);
    let pack = c.pack.to_json();
    assert!(pack.contains(r#""worldPackName":"Say \"hi\"""#));
    assert!(pack.contains(r#""timestamp":-5,"#));
}

#[test]
fn progression_ids_match_children() {
    let plan = plan_pack(Platform::Linux, Some("/home/u"), "TestPack").unwrap();
    let c = &plan.contents;
    assert_eq!(c.pack.world_progression, vec![c.world.world_guid.clone()]);
    assert_eq!(c.world.room_progression, vec![c.room.room_guid.clone()]);
    assert!(plan.files[1].contents.contains(&format!("\"roomGUID\":\"{}\"", c.room.room_guid)));
    assert!(plan.files[2].contents.contains(&format!("\"worldGUID\":\"{}\"", c.world.world_guid)));
    assert!(plan.files[2].contents.contains(&format!("\"roomProgression\":[\"{}\"]", c.room.room_guid)));
    assert!(plan.files[3].contents.contains(&format!("\"worldProgression\":[\"{}\"]", c.world.world_guid)));
}

#[test]
fn encoding_twice_is_identical() {
    let c = build_pack("TestPack", "p".to_string(), "w".to_string(), "r".to_string(), 7);
    assert_eq!(c.room.to_json(), c.room.to_json());
    assert_eq!(c.world.to_json(), c.world.to_json());
    assert_eq!(c.pack.to_json(), c.pack.to_json());
    assert_eq!(encode_scene(&c.scene), encode_scene(&c.scene));
}

#[test]
fn default_scene_headers_and_counts() {
    let scene = default_scene();
    assert_eq!(scene.len(), 4);
    let counts: Vec<usize> = scene.iter().map(|o| o.components.len()).collect();
    assert_eq!(counts, vec![1, 0, 1, 2]);
    let text = encode_scene(&scene);
    let headers: Vec<&str> = text.lines().filter(|l| l.starts_with("{\"guid\"")).collect();
    assert_eq!(headers.len(), 4);
    for (h, n) in headers.iter().zip([1, 0, 1, 2]) {
        assert!(h.ends_with(&format!("\"additionalComponentCount\":{n}}}")));
    }
    assert_eq!(text.lines().count(), 12);
}

#[test]
fn two_runs_fresh_ids_same_scene() {
    let a = plan_pack(Platform::Linux, Some("/home/u"), "TestPack").unwrap();
    let b = plan_pack(Platform::Linux, Some("/home/u"), "TestPack").unwrap();
    assert_ne!(a.contents.pack.world_pack_guid, b.contents.pack.world_pack_guid);
    assert_ne!(a.contents.world.world_guid, b.contents.world.world_guid);
    assert_ne!(a.contents.room.room_guid, b.contents.room.room_guid);
    assert_eq!(a.files[0].contents, b.files[0].contents);
}

#[test]
fn new_ids_are_uuid_v4_text() {
    let c = new_pack("x");
    assert!(is_uuid_v4(&c.pack.world_pack_guid));
    assert!(is_uuid_v4(&c.world.world_guid));
    assert!(is_uuid_v4(&c.room.room_guid));
    assert_ne!(c.pack.world_pack_guid, c.world.world_guid);
    assert!(c.pack.timestamp > 1_600_000_000);
}

#[test]
fn room_directory_windows() {
    assert_eq!(room_directory(Platform::Windows, "C:\\p"), "C:\\p\\World 1\\Room 1");
}

#[test]
fn json_string_escapes() {
    let mut s = String::new();
    push_json_string(&mut s, "a\"b\\c\nd\u{1}e\u{7f}é");
    assert_eq!(s, "\"a\\\"b\\\\c\\nd\\u0001e\u{7f}é\"");
    let mut t = String::from("x");
    push_json_string(&mut t, "");
    assert_eq!(t, "x\"\"");
}

#[test]
fn json_string_arrays() {
    let mut s = String::new();
    push_json_string_array(&mut s, &vec![]);
    assert_eq!(s, "[]");
    let mut t = String::new();
    push_json_string_array(&mut t, &vec!["a".to_string(), "b\t".to_string()]);
    assert_eq!(t, "[\"a\",\"b\\t\"]");
}

#[test]
fn decimals() {
    let mut s = String::new();
    push_decimal(&mut s, 0);
    s.push(' ');
    push_decimal(&mut s, 42);
    s.push(' ');
    push_decimal(&mut s, u64::MAX);
    assert_eq!(s, "0 42 18446744073709551615");
    let mut t = String::new();
    push_signed_decimal(&mut t, i64::MIN);
    t.push(' ');
    push_signed_decimal(&mut t, -7);
    assert_eq!(t, "-9223372036854775808 -7");
}

#[test]
fn tenths() {
    let mut s = String::new();
    for v in [0i64, 5, -5, 180, -100, 10, i64::MIN] {
        push_tenths(&mut s, v);
        s.push(' ');
    }
    assert_eq!(s, "0.0 0.5 -0.5 18.0 -10.0 1.0 -922337203685477580.8 ");
}

#[test]
fn empty_scene_is_empty_text() {
    assert_eq!(encode_scene(&Vec::new()), "");
}
