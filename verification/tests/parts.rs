use sb_itchy::asset::{AssetBuilder, CostumeBuilder, SoundBuilder};
use sb_itchy::comment::CommentBuilder;
use sb_itchy::data::{ListBuilder, VariableBuilder};
use sb_itchy::name::Name;
use sb_itchy::opcode::OpCode;
use sb_itchy::resource::{compute_md5_hash, to_hex, NewResourceError, Resource};
use sb_itchy::schema::{Comment, Value};
use sb_itchy::table::Table;
use sb_itchy::uid::{generate_many, Uid, SOUP, SOUP_LEN, UID_LEN};
use sb_itchy::{BuildMethod, BuildReport};

#[test]
fn a_generated_identifier_has_twenty_characters_of_the_alphabet() {
    for _ in 0..200 {
        let uid = Uid::generate();
        assert_eq!(uid.as_str().chars().count(), 20);
        assert!(uid.as_str().chars().all(|c| SOUP.contains(c)));
    }
    let text = Uid::generate_string();
    assert_eq!(text.len(), UID_LEN);
    assert!(text.chars().all(|c| SOUP.contains(c)));
}

#[test]
fn the_alphabet_has_eighty_seven_characters() {
    assert_eq!(SOUP.chars().count(), 87);
    assert_eq!(SOUP_LEN, 87);
    assert_eq!(UID_LEN, 20);
}

#[test]
fn generated_identifiers_vary() {
    let ids = generate_many(50);
    assert_eq!(ids.len(), 50);
    let first = ids[0].clone();
    assert!(ids.iter().any(|u| *u != first));
    let mut positions = std::collections::BTreeSet::new();
    for uid in &ids {
        for c in uid.as_str().chars() {
            positions.insert(SOUP.find(c).unwrap());
        }
    }
    assert!(positions.len() > 40);
    assert!(generate_many(0).is_empty());
}

#[test]
fn the_default_identifier_is_a_generated_one() {
    let uid = Uid::default();
    assert_eq!(uid.as_str().len(), 20);
}

#[test]
fn an_identifier_keeps_its_text() {
    let uid = Uid::new("abc");
    assert_eq!(uid.as_str(), "abc");
    assert_eq!(uid.clone(), uid);
    assert_eq!(uid.into_inner(), "abc".to_string());
}

#[test]
fn names_and_operation_keys_keep_their_text() {
    let name = Name::new("score".to_string());
    assert_eq!(name.as_str(), "score");
    assert_eq!(name.duplicate(), name);
    assert_eq!(name.clone(), name);
    let op = OpCode::new("motion_movesteps");
    assert_eq!(op.as_str(), "motion_movesteps");
    assert_eq!(OpCode::default().as_str(), "");
    assert_eq!(op.clone(), op);
}

#[test]
fn the_digest_of_known_content_is_the_known_digest() {
    assert_eq!(compute_md5_hash(b""), "d41d8cd98f00b204e9800998ecf8427e");
    assert_eq!(
        compute_md5_hash(b"abcdefghijklmnopqrstuvwxyz"),
        "c3fcd3d76192e4007dfb496cca67e13b"
    );
    assert_eq!(
        compute_md5_hash(b"The quick brown fox jumps over the lazy dog"),
        "9e107d9d372bb6826bd81d3542a419d6"
    );
}

#[test]
fn bytes_are_written_as_two_lower_case_digits_each() {
    assert_eq!(to_hex(&[]), "");
    assert_eq!(to_hex(&[0x00, 0x0f, 0xa0, 0xff, 0x5c]), "000fa0ff5c");
    assert_eq!(to_hex(&[0x12, 0x34, 0x56, 0x78, 0x9a, 0xbc, 0xde, 0xf0]), "123456789abcdef0");
}

#[test]
fn a_resource_carries_the_digest_of_its_content() {
    let r = Resource::new(b"abcdefghijklmnopqrstuvwxyz".to_vec(), "svg");
    assert_eq!(r.md5_hash(), "c3fcd3d76192e4007dfb496cca67e13b");
    assert_eq!(r.file_extension(), "svg");
    assert_eq!(r.data(), b"abcdefghijklmnopqrstuvwxyz");
    assert_eq!(r.clone(), r);
}

#[test]
fn a_file_without_an_extension_is_refused() {
    assert_eq!(
        Resource::from_file(vec![1, 2, 3], None),
        Err(NewResourceError::FilePathHadNoExtension)
    );
    let r = Resource::from_file(vec![1, 2, 3], Some("png".to_string())).unwrap();
    assert_eq!(r.file_extension(), "png");
    assert_eq!(r.data(), &[1, 2, 3]);
    assert_eq!(r.md5_hash(), "5289df737df57326fcdd22597afb1fac");
}

#[test]
fn an_asset_is_named_by_digest_and_extension() {
    let resource = Resource::new(Vec::new(), "wav");
    let mut files = Vec::new();
    let asset = AssetBuilder::new("pop", resource.clone()).build(&mut files);
    assert_eq!(asset.name, "pop");
    assert_eq!(asset.asset_id, "d41d8cd98f00b204e9800998ecf8427e");
    assert_eq!(asset.md5ext, Some("d41d8cd98f00b204e9800998ecf8427e.wav".to_string()));
    assert_eq!(asset.data_format, "wav");
    assert_eq!(files, vec![resource]);
}

#[test]
fn a_costume_turns_about_the_point_it_was_given() {
    let resource = Resource::new(vec![7], "svg");
    let mut costume = CostumeBuilder::new(AssetBuilder::new("cat", resource.clone()));
    assert_eq!((costume.rotation_center_x, costume.rotation_center_y), (0, 0));
    costume.set_rotation_center(3, 4);
    assert_eq!((costume.rotation_center_x, costume.rotation_center_y), (3, 4));
    costume.rotation_center_x(10).rotation_center_y(20);
    assert_eq!((costume.rotation_center_x, costume.rotation_center_y), (10, 20));
    costume.asset(AssetBuilder::new("dog", resource.clone()));
    let mut files = vec![Resource::new(vec![1], "png")];
    let built = costume.build(&mut files);
    assert_eq!(built.rotation_center_x, 10);
    assert_eq!(built.rotation_center_y, 20);
    assert_eq!(built.bitmap_resolution, Some(1));
    assert_eq!(built.asset.name, "dog");
    assert_eq!(files.len(), 2);
    assert_eq!(files[1], resource);
}

#[test]
fn a_sound_keeps_what_it_was_given() {
    let resource = Resource::new(vec![9, 9], "wav");
    let mut sound = SoundBuilder {
        rate: 1,
        sample_count: 2,
        format: None,
        asset: AssetBuilder::new("a", resource.clone()),
    };
    sound.rate(44100).sample_count(1000).format(Some("adpcm".to_string()));
    sound.asset(AssetBuilder::new("meow", resource.clone()));
    let mut files = Vec::new();
    let built = sound.build(&mut files);
    assert_eq!(built.rate, 44100);
    assert_eq!(built.sample_count, 1000);
    assert_eq!(built.format, Some("adpcm".to_string()));
    assert_eq!(built.asset.name, "meow");
    assert_eq!(files, vec![resource]);
}

#[test]
fn a_comment_builds_as_described() {
    let c = CommentBuilder::new("note").pos(1, 2).size(30, 40).minimized(true).build();
    assert_eq!(
        c,
        Comment {
            block_id: None,
            x: Some(1),
            y: Some(2),
            width: 30,
            height: 40,
            minimized: true,
            text: "note".to_string(),
        }
    );
    let d = CommentBuilder::default().build();
    assert_eq!((d.x, d.y, d.width, d.height, d.minimized), (Some(0), Some(0), 200, 200, false));
    assert_eq!(d.text, "");
}

#[test]
fn variables_and_lists_build_under_the_given_name_and_identifier() {
    let (v, uid) = VariableBuilder::new(Value::Number(3)).build_with("score".to_string(), Uid::new("V"));
    assert_eq!(v.name, "score");
    assert_eq!(v.value, Value::Number(3));
    assert!(!v.is_cloud_variable);
    assert_eq!(uid, Uid::new("V"));
    let (c, _) = VariableBuilder::new_cloud_variable(Value::Number(0)).build("high".to_string());
    assert!(c.is_cloud_variable);
    let values = vec![Value::Text("a".to_string()), Value::Number(2)];
    let (l, uid) = ListBuilder::new(values.clone()).build_with("items".to_string(), Uid::new("L"));
    assert_eq!(l.name, "items");
    assert_eq!(l.values, values);
    assert_eq!(uid, Uid::new("L"));
    let (_, fresh) = ListBuilder::new(Vec::new()).build("empty".to_string());
    assert_eq!(fresh.as_str().len(), 20);
}

#[test]
fn a_table_keeps_the_order_of_insertion_and_replaces_in_place() {
    let mut t: Table<u32> = Table::new();
    assert!(t.is_empty());
    assert_eq!(t.insert("a".to_string(), 1), None);
    assert_eq!(t.insert("b".to_string(), 2), None);
    assert_eq!(t.insert("c".to_string(), 3), None);
    assert_eq!(t.insert("b".to_string(), 20), Some(2));
    assert_eq!(t.len(), 3);
    assert_eq!(
        t.entries,
        vec![("a".to_string(), 1), ("b".to_string(), 20), ("c".to_string(), 3)]
    );
    assert_eq!(t.get(&"b".to_string()), Some(&20));
    assert_eq!(t.get(&"z".to_string()), None);
    assert!(t.contains_key(&"c".to_string()));
    assert!(!t.contains_key(&"".to_string()));
    assert_eq!(t.position(&"c".to_string()), Some(2));
    assert_eq!(t.position(&"d".to_string()), None);
}

#[test]
fn a_lookup_finds_the_first_of_two_entries_with_one_key() {
    let t = Table { entries: vec![("k".to_string(), 1), ("k".to_string(), 2)] };
    assert_eq!(t.get(&"k".to_string()), Some(&1));
    assert_eq!(t.position(&"k".to_string()), Some(0));
}

#[test]
fn a_report_records_what_it_is_told() {
    let mut r = BuildReport::new();
    assert!(r.is_empty());
    r.add_soft_error("first");
    assert!(!r.is_empty());
    r.add_warning("second");
    assert_eq!(r.soft_errors, vec!["first".to_string(), "second".to_string()]);
    assert!(r.warnings.is_empty());
    assert_eq!(BuildReport::default(), BuildReport::new());
    assert_eq!(BuildMethod::default(), BuildMethod::AsIs);
}
