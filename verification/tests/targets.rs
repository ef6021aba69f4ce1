use sb_itchy::asset::{AssetBuilder, CostumeBuilder, SoundBuilder};
use sb_itchy::block::{BlockFieldBuilder, BlockInputBuilder, BlockNormalBuilder, FieldKind};
use sb_itchy::comment::CommentBuilder;
use sb_itchy::data::{ListBuilder, VariableBuilder};
use sb_itchy::error::BuildError;
use sb_itchy::project::ProjectBuilder;
use sb_itchy::resource::Resource;
use sb_itchy::schema::{
    Block, BlockField, BlockInputValue, RotationStyle, SpriteOrStage, Value, VideoState,
};
use sb_itchy::stack::StackBuilder;
use sb_itchy::table::Table;
use sb_itchy::target::{SpriteBuilder, StageBuilder, TargetBuilder};
use sb_itchy::uid::Uid;

fn uids(texts: &[&str]) -> Vec<Uid> {
    texts.iter().map(|t| Uid::new(t)).collect()
}

fn show_variable(name: &str, kind: FieldKind) -> StackBuilder {
    StackBuilder::start(
        BlockNormalBuilder::new("data_showvariable")
            .add_field("VARIABLE", BlockFieldBuilder::new_with_kind(name.to_string(), kind)),
    )
}

fn field_id(blocks: &Table<Block>, key: &str) -> Option<Uid> {
    match blocks.get(&key.to_string()) {
        Some(Block::Normal(n)) => match n.fields.get(&"VARIABLE".to_string()) {
            Some(BlockField::WithId { id, .. }) => id.clone(),
            _ => None,
        },
        _ => None,
    }
}

#[test]
fn a_target_gives_its_variables_and_lists_the_first_identifiers() {
    let mut t = TargetBuilder::default();
    t.set_name("cat")
        .add_variable("score", VariableBuilder::new(Value::Number(1)))
        .add_variable("lives", VariableBuilder::new(Value::Number(3)))
        .add_list("items", ListBuilder::new(vec![Value::Text("x".to_string())]))
        .add_broadcast_with("go", Uid::new("BR"))
        .add_block_stack(show_variable("lives", FieldKind::SpriteVariable))
        .add_block_stack(show_variable("score", FieldKind::GlobalVariable))
        .add_comment_with(CommentBuilder::new("free"), Uid::new("CM"))
        .add_costume(CostumeBuilder::new(AssetBuilder::new("c", Resource::new(vec![1], "svg"))))
        .add_sound(SoundBuilder {
            rate: 10,
            sample_count: 20,
            format: None,
            asset: AssetBuilder::new("s", Resource::new(vec![2], "wav")),
        });
    let t = t.set_costume(0).set_layer_order(2);
    assert_eq!(t.count(), Some(5));
    let mut files = Vec::new();
    let all = Table::new();
    let (target, handed) = t
        .build_with(&uids(&["v0", "v1", "l0", "s0", "s1"]), &mut files, None, &all)
        .unwrap();
    assert_eq!(target.name, "cat");
    assert_eq!(target.layer_order, 2);
    assert_eq!(target.volume, 100);
    assert_eq!(target.variables.entries.len(), 2);
    assert_eq!(target.variables.entries[0].0, "v0");
    assert_eq!(target.variables.entries[0].1.name, "score");
    assert_eq!(target.variables.entries[1].0, "v1");
    assert_eq!(target.variables.entries[1].1.value, Value::Number(3));
    assert_eq!(target.lists.entries[0].0, "l0");
    assert_eq!(target.lists.entries[0].1.values, vec![Value::Text("x".to_string())]);
    assert_eq!(target.broadcasts.entries[0].0, "BR");
    assert_eq!(target.broadcasts.entries[0].1.name, "go");
    assert_eq!(target.blocks.len(), 2);
    assert_eq!(field_id(&target.blocks, "s0"), Some(Uid::new("v1")));
    assert_eq!(field_id(&target.blocks, "s1"), Some(Uid::new("v0")));
    assert_eq!(target.comments.entries.len(), 1);
    assert_eq!(target.comments.entries[0].0, "CM");
    assert_eq!(target.costumes.len(), 1);
    assert_eq!(target.sounds.len(), 1);
    assert_eq!(files.len(), 2);
    assert_eq!(files[0].file_extension(), "svg");
    assert_eq!(files[1].file_extension(), "wav");
    let handed = handed.unwrap();
    assert_eq!(handed.vars.get(&"score".to_string()), Some(&Uid::new("v0")));
    assert_eq!(handed.vars.get(&"lives".to_string()), Some(&Uid::new("v1")));
    assert_eq!(handed.lists.get(&"items".to_string()), Some(&Uid::new("l0")));
}

#[test]
fn declaring_a_name_again_replaces_the_declaration() {
    let mut t = TargetBuilder::default();
    t.add_variable("score", VariableBuilder::new(Value::Number(1)))
        .add_variable("score", VariableBuilder::new(Value::Number(2)));
    assert_eq!(t.variables.len(), 1);
    assert_eq!(t.variables.get(&"score".to_string()).unwrap().value, Value::Number(2));
    t.add_broadcast("go").add_broadcast("go");
    assert_eq!(t.broadcasts.len(), 1);
    assert_eq!(t.broadcasts.entries[0].1.as_str().len(), 20);
    t.add_comment(CommentBuilder::new("a"));
    assert_eq!(t.comments.len(), 1);
    assert_eq!(t.comments.entries[0].0.len(), 20);
}

#[test]
fn a_sprite_sees_the_stage_as_the_project_wide_tier() {
    let mut stage = StageBuilder::default();
    stage.target.add_variable("shared", VariableBuilder::new(Value::Number(0)));
    stage.set_tempo(90).set_video_state(VideoState::Off).set_video_transparency(10);
    let mut files = Vec::new();
    let all = Table::new();
    let (built_stage, global) = stage.build_with(&uids(&["g0"]), &mut files, &all).unwrap();
    assert!(built_stage.is_stage);
    assert_eq!(built_stage.tempo, 90);
    assert_eq!(built_stage.video_state, VideoState::Off);
    assert_eq!(built_stage.video_transparency, 10);
    assert_eq!(built_stage.text_to_speech_language, None);
    assert_eq!(built_stage.target.name, "stage");

    let mut sprite = SpriteBuilder::default();
    sprite
        .target
        .add_variable("own", VariableBuilder::new(Value::Number(0)))
        .add_block_stack(show_variable("shared", FieldKind::GlobalVariable))
        .add_block_stack(show_variable("own", FieldKind::SpriteVariable));
    sprite
        .set_visible(false)
        .set_pos(1, 2)
        .set_size(50)
        .set_direction(180)
        .set_draggable(true)
        .set_rotation_style(RotationStyle::LeftRight);
    let built = sprite
        .build_with(&uids(&["o0", "a", "b"]), &mut files, &global, &all)
        .unwrap();
    assert!(!built.is_stage);
    assert!(!built.visible);
    assert_eq!((built.x, built.y, built.size, built.direction), (1, 2, 50, 180));
    assert!(built.draggable);
    assert_eq!(built.rotation_style, RotationStyle::LeftRight);
    assert_eq!(field_id(&built.target.blocks, "a"), Some(Uid::new("g0")));
    assert_eq!(field_id(&built.target.blocks, "b"), Some(Uid::new("o0")));
}

#[test]
fn a_sprite_does_not_see_its_own_variable_as_project_wide() {
    let stage = StageBuilder::default();
    let mut files = Vec::new();
    let all = Table::new();
    let (_, global) = stage.build_with(&Vec::new(), &mut files, &all).unwrap();
    let mut sprite = SpriteBuilder::default();
    sprite
        .target
        .add_variable("own", VariableBuilder::new(Value::Number(0)))
        .add_costume(CostumeBuilder::new(AssetBuilder::new("c", Resource::new(vec![1], "svg"))))
        .add_block_stack(show_variable("own", FieldKind::GlobalVariable));
    let r = sprite.build_with(&uids(&["o0", "a"]), &mut files, &global, &all);
    assert_eq!(
        r,
        Err(BuildError::UnresolvedReference {
            field: Some("VARIABLE".to_string()),
            name: "own".to_string(),
        })
    );
    assert!(files.is_empty());
}

#[test]
fn the_stage_sees_its_own_variables_in_both_tiers() {
    let mut stage = StageBuilder::default();
    stage
        .target
        .add_variable("v", VariableBuilder::new(Value::Number(0)))
        .add_block_stack(show_variable("v", FieldKind::GlobalVariable))
        .add_block_stack(show_variable("v", FieldKind::SpriteVariable));
    let mut files = Vec::new();
    let all = Table::new();
    let (built, _) = stage.build_with(&uids(&["v0", "a", "b"]), &mut files, &all).unwrap();
    assert_eq!(field_id(&built.target.blocks, "a"), Some(Uid::new("v0")));
    assert_eq!(field_id(&built.target.blocks, "b"), Some(Uid::new("v0")));
}

#[test]
fn a_target_with_too_few_identifiers_is_not_built() {
    let mut t = TargetBuilder::default();
    t.add_variable("score", VariableBuilder::new(Value::Number(1)));
    let mut files = Vec::new();
    let r = t.build_with(&Vec::new(), &mut files, None, &Table::new());
    assert_eq!(r, Err(BuildError::IdentifiersExhausted));
}

#[test]
fn a_project_builds_the_stage_first_and_shares_the_broadcasts() {
    let mut project = ProjectBuilder::default();
    let mut stage = StageBuilder::default();
    stage
        .target
        .add_variable("shared", VariableBuilder::new(Value::Number(0)))
        .add_broadcast_with("go", Uid::new("B-stage"))
        .add_costume(CostumeBuilder::new(AssetBuilder::new("bg", Resource::new(vec![1], "svg"))));
    project.set_stage(stage);
    let mut first = SpriteBuilder::default();
    first
        .target
        .set_name("one")
        .add_broadcast_with("stop", Uid::new("B-one"))
        .add_costume(CostumeBuilder::new(AssetBuilder::new("c1", Resource::new(vec![2], "png"))))
        .add_block_stack(StackBuilder::start(
            BlockNormalBuilder::new("event_whenbroadcastreceived").add_field(
                "VARIABLE",
                BlockFieldBuilder::new_with_kind("later".to_string(), FieldKind::Broadcast),
            ),
        ));
    let mut second = SpriteBuilder::default();
    second
        .target
        .set_name("two")
        .add_broadcast_with("later", Uid::new("B-two"))
        .add_broadcast_with("go", Uid::new("B-two-go"))
        .add_block_stack(show_variable("shared", FieldKind::GlobalVariable))
        .add_block_stack(StackBuilder::start(
            BlockNormalBuilder::new("event_broadcast").add_field(
                "VARIABLE",
                BlockFieldBuilder::new_with_kind("go".to_string(), FieldKind::Broadcast),
            ),
        ));
    project.add_sprite(first).add_sprite(second);
    assert_eq!(project.count(), Some(4));
    let mut files = Vec::new();
    let built = project.build_with(&uids(&["g0", "p", "q", "r"]), &mut files).unwrap();
    assert_eq!(built.meta.semver, "3.0.0");
    assert_eq!(built.meta.vm, "0.2.0-prerelease.20220222132735");
    assert_eq!(built.meta.agent, "sb-itchy/0.1.0");
    assert!(built.extensions.is_empty());
    assert!(built.monitors.is_empty());
    assert_eq!(built.targets.len(), 3);
    let (one, two) = match (&built.targets[0], &built.targets[1], &built.targets[2]) {
        (SpriteOrStage::Stage(s), SpriteOrStage::Sprite(a), SpriteOrStage::Sprite(b)) => {
            assert_eq!(s.target.variables.entries[0].0, "g0");
            (a, b)
        }
        other => panic!("unexpected targets: {other:?}"),
    };
    assert_eq!(one.target.name, "one");
    assert_eq!(two.target.name, "two");
    assert_eq!(field_id(&one.target.blocks, "p"), Some(Uid::new("B-two")));
    assert_eq!(field_id(&two.target.blocks, "q"), Some(Uid::new("g0")));
    assert_eq!(field_id(&two.target.blocks, "r"), Some(Uid::new("B-two-go")));
    assert_eq!(files.len(), 2);
    assert_eq!(files[0].file_extension(), "svg");
    assert_eq!(files[1].file_extension(), "png");
}

#[test]
fn a_project_with_a_failing_sprite_yields_nothing() {
    let mut project = ProjectBuilder::default();
    let mut stage = StageBuilder::default();
    stage
        .target
        .add_costume(CostumeBuilder::new(AssetBuilder::new("bg", Resource::new(vec![1], "svg"))));
    project.set_stage(stage);
    let mut sprite = SpriteBuilder::default();
    sprite.target.add_block_stack(StackBuilder::new());
    project.add_sprite(sprite);
    let mut files = Vec::new();
    assert_eq!(project.build_with(&uids(&["a"]), &mut files), Err(BuildError::EmptyStack));
    assert!(files.is_empty());
}

#[test]
fn a_project_built_at_random_has_its_targets_in_order() {
    let mut project = ProjectBuilder::default();
    let mut sprite = SpriteBuilder::default();
    sprite
        .target
        .set_name("cat")
        .add_variable("score", VariableBuilder::new(Value::Number(0)))
        .add_block_stack(
            StackBuilder::start(BlockNormalBuilder::new("event_whenflagclicked")).next(
                StackBuilder::start(
                    BlockNormalBuilder::new("data_setvariableto")
                        .add_field(
                            "VARIABLE",
                            BlockFieldBuilder::new_with_kind(
                                "score".to_string(),
                                FieldKind::SpriteVariable,
                            ),
                        )
                        .add_input(
                            "VALUE",
                            BlockInputBuilder::value(BlockInputValue::Number {
                                value: Value::Number(0),
                            }),
                        ),
                ),
            ),
        );
    project.add_sprite(sprite);
    let mut files = Vec::new();
    let built = project.build(&mut files).unwrap();
    assert_eq!(built.targets.len(), 2);
    match &built.targets[1] {
        SpriteOrStage::Sprite(s) => {
            assert_eq!(s.target.blocks.len(), 2);
            let variable = &s.target.variables.entries[0].0;
            assert_eq!(variable.len(), 20);
            let second = &s.target.blocks.entries[1].0;
            assert_eq!(field_id(&s.target.blocks, second), Some(Uid::new(variable)));
        }
        other => panic!("not a sprite: {other:?}"),
    }
}

#[test]
fn the_default_builders_are_empty() {
    let t = TargetBuilder::default();
    assert_eq!(t.name, "");
    assert_eq!(t.volume, 100);
    assert_eq!(t.count(), Some(0));
    let s = StageBuilder::default();
    assert_eq!(s.target.name, "stage");
    assert_eq!((s.tempo, s.video_transparency), (60, 50));
    assert_eq!(s.video_state, VideoState::On);
    let p = SpriteBuilder::default();
    assert!(p.visible);
    assert_eq!((p.x, p.y, p.size, p.direction), (0, 0, 100, 90));
    assert!(!p.draggable);
    assert_eq!(p.rotation_style, RotationStyle::AllAround);
    let mut stage = StageBuilder::default();
    let mut other = TargetBuilder::default();
    other.set_name("backdrop");
    stage.set_set_target(other);
    assert_eq!(stage.target.name, "backdrop");
    let mut sprite = SpriteBuilder::default();
    sprite.set_x(7).set_y(8);
    assert_eq!((sprite.x, sprite.y), (7, 8));
    let mut replaced = TargetBuilder::default();
    replaced.set_name("dog");
    sprite.set_target(replaced);
    assert_eq!(sprite.target.name, "dog");
}
