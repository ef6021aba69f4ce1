use sb_itchy::block::{
    BlockBuilder, BlockFieldBuilder, BlockInputBuilder, BlockNormalBuilder, BlockVarListBuilder,
    FieldKind, StackOrValue,
};
use sb_itchy::build_context::{Category, TargetContext, VarListFrom};
use sb_itchy::comment::CommentBuilder;
use sb_itchy::error::BuildError;
use sb_itchy::schema::{
    Block, BlockField, BlockInputValue, BlockNormal, Comment, ListOrVariable, ShadowInputType,
    UidOrValue, Value,
};
use sb_itchy::stack::StackBuilder;
use sb_itchy::table::Table;
use sb_itchy::uid::{Uid, SOUP};

struct Names {
    global_vars: Table<Uid>,
    global_lists: Table<Uid>,
    sprite_vars: Table<Uid>,
    sprite_lists: Table<Uid>,
    broadcasts: Table<Uid>,
}

fn names() -> Names {
    let mut n = Names {
        global_vars: Table::new(),
        global_lists: Table::new(),
        sprite_vars: Table::new(),
        sprite_lists: Table::new(),
        broadcasts: Table::new(),
    };
    n.sprite_vars.insert("score".to_string(), Uid::new("V1"));
    n.global_vars.insert("lives".to_string(), Uid::new("G1"));
    n.sprite_lists.insert("items".to_string(), Uid::new("L1"));
    n.global_lists.insert("scores".to_string(), Uid::new("GL1"));
    n.broadcasts.insert("go".to_string(), Uid::new("B1"));
    n
}

fn context(n: &Names) -> TargetContext<'_> {
    TargetContext {
        global_vars: &n.global_vars,
        global_lists: &n.global_lists,
        this_sprite_vars: &n.sprite_vars,
        this_sprite_lists: &n.sprite_lists,
        all_broadcasts: &n.broadcasts,
    }
}

fn number(n: i64) -> BlockInputBuilder {
    BlockInputBuilder::value(BlockInputValue::Number { value: Value::Number(n) })
}

fn plain(opcode: &str) -> StackBuilder {
    StackBuilder::start(BlockNormalBuilder::new(opcode))
}

fn ids(texts: &[&str]) -> Vec<Uid> {
    texts.iter().map(|t| Uid::new(t)).collect()
}

fn normal<'a>(blocks: &'a Table<Block>, key: &str) -> &'a BlockNormal {
    match blocks.get(&key.to_string()) {
        Some(Block::Normal(n)) => n,
        other => panic!("no ordinary node under {key}: {other:?}"),
    }
}

fn keys(blocks: &Table<Block>) -> Vec<&str> {
    blocks.entries.iter().map(|e| e.0.as_str()).collect()
}

#[test]
fn set_variable_resolves_its_field_and_becomes_the_root() {
    let n = names();
    let stack = StackBuilder::start(
        BlockNormalBuilder::new("data_setvariableto")
            .add_field(
                "VARIABLE",
                BlockFieldBuilder::new_with_kind("score".to_string(), FieldKind::SpriteVariable),
            )
            .add_input("VALUE", number(0)),
    );
    let mut comments = Table::new();
    let blocks = stack
        .build_with(&Uid::new("ROOT"), &Vec::new(), &mut comments, &context(&n))
        .unwrap();
    assert_eq!(blocks.len(), 1);
    let node = normal(&blocks, "ROOT");
    assert_eq!(
        node.fields.get(&"VARIABLE".to_string()),
        Some(&BlockField::WithId {
            value: Value::Text("score".to_string()),
            id: Some(Uid::new("V1")),
        })
    );
    assert!(node.top_level);
    assert_eq!(node.x, Some(0));
    assert_eq!(node.y, Some(0));
    assert_eq!(node.parent, None);
    assert_eq!(node.next, None);
    assert_eq!(node.opcode.as_str(), "data_setvariableto");
    let value = node.inputs.get(&"VALUE".to_string()).unwrap();
    assert_eq!(value.shadow, ShadowInputType::Shadow);
    assert_eq!(
        value.inputs,
        vec![Some(UidOrValue::Value(BlockInputValue::Number { value: Value::Number(0) }))]
    );
    assert!(comments.is_empty());
}

#[test]
fn repeat_with_a_substack_yields_root_and_child() {
    let n = names();
    let child = StackBuilder::start(BlockNormalBuilder::new("motion_movesteps").add_input("STEPS", number(5)));
    let stack = StackBuilder::start(
        BlockNormalBuilder::new("control_repeat")
            .add_input("TIMES", number(10))
            .add_input("SUBSTACK", BlockInputBuilder::stack(child)),
    );
    assert_eq!(stack.demand(), Some(1));
    let mut comments = Table::new();
    let blocks = stack
        .build_with(&Uid::new("ROOT"), &ids(&["CHILD"]), &mut comments, &context(&n))
        .unwrap();
    assert_eq!(blocks.len(), 2);
    let root = normal(&blocks, "ROOT");
    let substack = root.inputs.get(&"SUBSTACK".to_string()).unwrap();
    assert_eq!(substack.shadow, ShadowInputType::NoShadow);
    assert_eq!(substack.inputs, vec![Some(UidOrValue::Uid(Uid::new("CHILD")))]);
    assert!(root.top_level);
    let child = normal(&blocks, "CHILD");
    assert_eq!(child.opcode.as_str(), "motion_movesteps");
    assert_eq!(child.parent, Some(Uid::new("ROOT")));
    assert!(!child.top_level);
    assert_eq!(child.next, None);
    assert_eq!(child.x, None);
    assert_eq!(child.y, None);
}

#[test]
fn a_chain_of_three_blocks_is_linked_in_order() {
    let n = names();
    let stack = plain("event_whenflagclicked").next(plain("looks_show")).next(plain("looks_hide"));
    assert_eq!(stack.demand(), Some(2));
    let mut comments = Table::new();
    let blocks = stack
        .build_with(&Uid::new("A"), &ids(&["B", "C"]), &mut comments, &context(&n))
        .unwrap();
    assert_eq!(keys(&blocks), vec!["A", "B", "C"]);
    let (a, b, c) = (normal(&blocks, "A"), normal(&blocks, "B"), normal(&blocks, "C"));
    assert_eq!(a.next, Some(Uid::new("B")));
    assert_eq!(b.next, Some(Uid::new("C")));
    assert_eq!(c.next, None);
    assert_eq!(a.parent, None);
    assert_eq!(b.parent, Some(Uid::new("A")));
    assert_eq!(c.parent, Some(Uid::new("B")));
    assert!(a.top_level);
    assert!(!b.top_level);
    assert!(!c.top_level);
    assert_eq!((a.x, a.y), (Some(0), Some(0)));
    assert_eq!((b.x, b.y), (None, None));
    assert_eq!((c.x, c.y), (None, None));
}

#[test]
fn a_single_block_has_no_successor_and_no_parent() {
    let n = names();
    let mut comments = Table::new();
    let blocks = plain("looks_show")
        .build_with(&Uid::new("A"), &Vec::new(), &mut comments, &context(&n))
        .unwrap();
    assert_eq!(blocks.len(), 1);
    let a = normal(&blocks, "A");
    assert_eq!(a.next, None);
    assert_eq!(a.parent, None);
    assert!(a.top_level);
}

#[test]
fn a_two_block_substack_is_spliced_under_its_owner() {
    let n = names();
    let sub = plain("motion_movesteps").next(plain("motion_turnright"));
    let stack = StackBuilder::start(
        BlockNormalBuilder::new("control_forever").add_input("SUBSTACK", BlockInputBuilder::stack(sub)),
    );
    assert_eq!(stack.demand(), Some(2));
    let mut comments = Table::new();
    let blocks = stack
        .build_with(&Uid::new("OWNER"), &ids(&["S1", "S2"]), &mut comments, &context(&n))
        .unwrap();
    assert_eq!(blocks.len(), 3);
    assert_eq!(keys(&blocks), vec!["S1", "S2", "OWNER"]);
    let root = normal(&blocks, "S1");
    assert_eq!(root.parent, Some(Uid::new("OWNER")));
    assert!(!root.top_level);
    assert_eq!((root.x, root.y), (None, None));
    assert_eq!(root.next, Some(Uid::new("S2")));
    let second = normal(&blocks, "S2");
    assert_eq!(second.parent, Some(Uid::new("S1")));
    assert_eq!(second.next, None);
    let owner = normal(&blocks, "OWNER");
    assert!(owner.top_level);
    assert_eq!(
        owner.inputs.get(&"SUBSTACK".to_string()).unwrap().inputs,
        vec![Some(UidOrValue::Uid(Uid::new("S1")))]
    );
}

#[test]
fn a_lone_reporter_in_a_slot_becomes_a_reference_value() {
    let n = names();
    let reporter = StackBuilder::start_varlist(BlockVarListBuilder::sprite(ListOrVariable::Variable, "score"));
    let stack = StackBuilder::start(
        BlockNormalBuilder::new("looks_say").add_input("MESSAGE", BlockInputBuilder::stack(reporter)),
    );
    assert_eq!(stack.demand(), Some(1));
    let mut comments = Table::new();
    let blocks = stack
        .build_with(&Uid::new("SAY"), &ids(&["UNUSED"]), &mut comments, &context(&n))
        .unwrap();
    assert_eq!(keys(&blocks), vec!["SAY"]);
    let say = normal(&blocks, "SAY");
    assert_eq!(
        say.inputs.get(&"MESSAGE".to_string()).unwrap().inputs,
        vec![Some(UidOrValue::Value(BlockInputValue::Variable {
            name: "score".to_string(),
            id: Uid::new("V1"),
        }))]
    );
}

#[test]
fn a_lone_list_reporter_in_a_slot_becomes_a_list_reference() {
    let n = names();
    let reporter = StackBuilder::start_varlist(BlockVarListBuilder::global(ListOrVariable::List, "scores"));
    let slot = BlockInputBuilder::stack(reporter);
    let mut comments = Table::new();
    let mut nodes = Table::new();
    let built = slot
        .build_with(&Uid::new("OWNER"), &ids(&["R"]), &mut comments, &mut nodes, &context(&n))
        .unwrap();
    assert!(nodes.is_empty());
    assert_eq!(
        built.inputs,
        vec![Some(UidOrValue::Value(BlockInputValue::List {
            name: "scores".to_string(),
            id: Uid::new("GL1"),
        }))]
    );
}

#[test]
fn an_obscured_slot_keeps_the_order_of_its_values() {
    let n = names();
    let slot = BlockInputBuilder::stack_with_value_obscured(
        plain("operator_add"),
        BlockInputValue::Number { value: Value::Number(7) },
    );
    let mut comments = Table::new();
    let mut nodes = Table::new();
    let built = slot
        .build_with(&Uid::new("OWNER"), &ids(&["SUM"]), &mut comments, &mut nodes, &context(&n))
        .unwrap();
    assert_eq!(built.shadow, ShadowInputType::ShadowObscured);
    assert_eq!(
        built.inputs,
        vec![
            Some(UidOrValue::Uid(Uid::new("SUM"))),
            Some(UidOrValue::Value(BlockInputValue::Number { value: Value::Number(7) })),
        ]
    );
    assert_eq!(keys(&nodes), vec!["SUM"]);
    assert_eq!(normal(&nodes, "SUM").parent, Some(Uid::new("OWNER")));
}

#[test]
fn an_absent_value_passes_through() {
    let n = names();
    let slot = BlockInputBuilder::new().input(None).input(Some(StackOrValue::Value(
        BlockInputValue::String { value: Value::Text("hi".to_string()) },
    )));
    assert_eq!(slot.demand(), Some(0));
    let mut comments = Table::new();
    let mut nodes = Table::new();
    let built = slot
        .build_with(&Uid::new("OWNER"), &Vec::new(), &mut comments, &mut nodes, &context(&n))
        .unwrap();
    assert_eq!(
        built.inputs,
        vec![
            None,
            Some(UidOrValue::Value(BlockInputValue::String { value: Value::Text("hi".to_string()) })),
        ]
    );
    assert!(nodes.is_empty());
}

#[test]
fn a_missing_sprite_variable_fails_the_build() {
    let n = names();
    let stack = StackBuilder::start(BlockNormalBuilder::new("data_setvariableto").add_field(
        "VARIABLE",
        BlockFieldBuilder::new_with_kind("missing".to_string(), FieldKind::SpriteVariable),
    ));
    let mut comments = Table::new();
    let r = stack.build_with(&Uid::new("ROOT"), &Vec::new(), &mut comments, &context(&n));
    assert_eq!(
        r,
        Err(BuildError::UnresolvedReference {
            field: Some("VARIABLE".to_string()),
            name: "missing".to_string(),
        })
    );
    assert!(comments.is_empty());
}

#[test]
fn a_global_name_is_not_found_in_the_sprite_tier() {
    let n = names();
    let field = BlockFieldBuilder::new_with_kind("lives".to_string(), FieldKind::SpriteVariable);
    assert_eq!(
        field.build(&context(&n)),
        Err(BuildError::UnresolvedReference { field: None, name: "lives".to_string() })
    );
    let field = BlockFieldBuilder::new_with_kind("lives".to_string(), FieldKind::GlobalVariable);
    assert_eq!(
        field.build(&context(&n)),
        Ok(BlockField::WithId { value: Value::Text("lives".to_string()), id: Some(Uid::new("G1")) })
    );
}

#[test]
fn every_kind_of_field_resolves_in_its_own_table() {
    let n = names();
    let ctx = context(&n);
    let cases = [
        ("score", FieldKind::SpriteVariable, "V1"),
        ("lives", FieldKind::GlobalVariable, "G1"),
        ("items", FieldKind::SpriteList, "L1"),
        ("scores", FieldKind::GlobalList, "GL1"),
        ("go", FieldKind::Broadcast, "B1"),
    ];
    for (name, kind, id) in cases {
        assert_eq!(
            BlockFieldBuilder::new_with_kind(name.to_string(), kind).build(&ctx),
            Ok(BlockField::WithId { value: Value::Text(name.to_string()), id: Some(Uid::new(id)) })
        );
    }
}

#[test]
fn fields_that_are_not_looked_up_keep_their_text() {
    let n = names();
    let ctx = context(&n);
    assert_eq!(
        BlockFieldBuilder::new_with_kind("score".to_string(), FieldKind::NoRef).build(&ctx),
        Ok(BlockField::NoId { value: Value::Text("score".to_string()) })
    );
    assert_eq!(
        BlockFieldBuilder::new("score".to_string()).build(&ctx),
        Ok(BlockField::WithId { value: Value::Text("score".to_string()), id: None })
    );
    assert_eq!(
        BlockFieldBuilder::new("nowhere".to_string()).build(&ctx),
        Ok(BlockField::WithId { value: Value::Text("nowhere".to_string()), id: None })
    );
}

#[test]
fn resolving_a_field_twice_gives_the_same_identifier() {
    let n = names();
    let ctx = context(&n);
    let field = BlockFieldBuilder::new_with_kind("score".to_string(), FieldKind::SpriteVariable);
    let first = field.build(&ctx);
    let second = field.build(&ctx);
    assert_eq!(first, second);
    let missing = BlockFieldBuilder::new_with_kind("gone".to_string(), FieldKind::GlobalList);
    assert_eq!(missing.build(&ctx), missing.build(&ctx));
}

#[test]
fn the_context_resolves_by_tier_and_category() {
    let n = names();
    let ctx = context(&n);
    assert_eq!(
        ctx.resolve(VarListFrom::Sprite, Category::Variable, &"score".to_string()),
        Some(Uid::new("V1"))
    );
    assert_eq!(ctx.resolve(VarListFrom::Global, Category::Variable, &"score".to_string()), None);
    assert_eq!(
        ctx.resolve(VarListFrom::Global, Category::Broadcast, &"go".to_string()),
        Some(Uid::new("B1"))
    );
    assert_eq!(ctx.resolve(VarListFrom::Sprite, Category::Broadcast, &"go".to_string()), None);
    assert_eq!(
        ctx.resolve(VarListFrom::Sprite, Category::List, &"items".to_string()),
        Some(Uid::new("L1"))
    );
    assert_eq!(
        ctx.resolve(VarListFrom::Global, Category::List, &"scores".to_string()),
        Some(Uid::new("GL1"))
    );
}

#[test]
fn an_empty_stack_fails() {
    let n = names();
    let mut comments = Table::new();
    let r = StackBuilder::new().build_with(&Uid::new("A"), &Vec::new(), &mut comments, &context(&n));
    assert_eq!(r, Err(BuildError::EmptyStack));
}

#[test]
fn a_reporter_followed_by_a_block_fails() {
    let n = names();
    let stack = StackBuilder::start_varlist(BlockVarListBuilder::sprite(ListOrVariable::Variable, "score"))
        .next(plain("looks_show"));
    let mut comments = Table::new();
    let r = stack.build_with(&Uid::new("A"), &ids(&["B"]), &mut comments, &context(&n));
    assert_eq!(r, Err(BuildError::ChainedReporter));
}

#[test]
fn a_reporter_after_a_block_fails() {
    let n = names();
    let stack = plain("looks_show")
        .next(StackBuilder::start_varlist(BlockVarListBuilder::sprite(ListOrVariable::Variable, "score")));
    let mut comments = Table::new();
    let r = stack.build_with(&Uid::new("A"), &ids(&["B"]), &mut comments, &context(&n));
    assert_eq!(r, Err(BuildError::ChainedReporter));
}

#[test]
fn too_few_identifiers_fail_the_build() {
    let n = names();
    let stack = plain("looks_show").next(plain("looks_hide"));
    let mut comments = Table::new();
    let r = stack.build_with(&Uid::new("A"), &Vec::new(), &mut comments, &context(&n));
    assert_eq!(r, Err(BuildError::IdentifiersExhausted));
}

#[test]
fn a_lone_reporter_script_is_one_reporter_node_at_the_origin() {
    let n = names();
    let stack = StackBuilder::start_varlist(
        BlockVarListBuilder::sprite(ListOrVariable::List, "items").pos(40, 50),
    );
    let mut comments = Table::new();
    let blocks = stack
        .build_with(&Uid::new("R"), &Vec::new(), &mut comments, &context(&n))
        .unwrap();
    assert_eq!(blocks.len(), 1);
    match blocks.get(&"R".to_string()) {
        Some(Block::VarList(r)) => {
            assert_eq!(r.kind, ListOrVariable::List);
            assert_eq!(r.name, "items");
            assert_eq!(r.id, Uid::new("L1"));
            assert_eq!((r.x, r.y), (0, 0));
        }
        other => panic!("not a reporter: {other:?}"),
    }
}

#[test]
fn a_reporter_of_an_undeclared_name_fails() {
    let n = names();
    let stack = StackBuilder::start_varlist(BlockVarListBuilder::global(ListOrVariable::Variable, "score"));
    let mut comments = Table::new();
    let r = stack.build_with(&Uid::new("R"), &Vec::new(), &mut comments, &context(&n));
    assert_eq!(r, Err(BuildError::UnresolvedReference { field: None, name: "score".to_string() }));
}

#[test]
fn an_attached_comment_is_registered_under_a_fresh_identifier() {
    let n = names();
    let stack = StackBuilder::start(
        BlockNormalBuilder::new("looks_show").comment(CommentBuilder::new("why").size(120, 80)),
    )
    .next(plain("looks_hide"));
    assert_eq!(stack.demand(), Some(2));
    let mut comments = Table::new();
    comments.insert(
        "OLD".to_string(),
        Comment {
            block_id: None,
            x: None,
            y: None,
            width: 1,
            height: 1,
            minimized: true,
            text: "old".to_string(),
        },
    );
    let blocks = stack
        .build_with(&Uid::new("A"), &ids(&["C1", "B"]), &mut comments, &context(&n))
        .unwrap();
    assert_eq!(keys(&blocks), vec!["A", "B"]);
    assert_eq!(normal(&blocks, "A").comment, Some(Uid::new("C1")));
    assert_eq!(normal(&blocks, "B").comment, None);
    assert_eq!(comments.len(), 2);
    assert_eq!(comments.entries[0].0, "OLD");
    assert_eq!(
        comments.get(&"C1".to_string()),
        Some(&Comment {
            block_id: Some(Uid::new("A")),
            x: Some(0),
            y: Some(0),
            width: 120,
            height: 80,
            minimized: false,
            text: "why".to_string(),
        })
    );
}

#[test]
fn a_failed_build_leaves_the_comments_untouched() {
    let n = names();
    let stack = StackBuilder::start(BlockNormalBuilder::new("looks_show").comment(CommentBuilder::new("why")))
        .next(StackBuilder::start(BlockNormalBuilder::new("data_showvariable").add_field(
            "VARIABLE",
            BlockFieldBuilder::new_with_kind("gone".to_string(), FieldKind::GlobalVariable),
        )));
    let mut comments = Table::new();
    let r = stack.build_with(&Uid::new("A"), &ids(&["C1", "B"]), &mut comments, &context(&n));
    assert_eq!(
        r,
        Err(BuildError::UnresolvedReference {
            field: Some("VARIABLE".to_string()),
            name: "gone".to_string(),
        })
    );
    assert!(comments.is_empty());
}

#[test]
fn distinct_identifiers_give_one_key_per_node() {
    let n = names();
    let inner = plain("operator_add").next(plain("operator_subtract"));
    let reporter = StackBuilder::start_varlist(BlockVarListBuilder::sprite(ListOrVariable::Variable, "score"));
    let stack = StackBuilder::start(
        BlockNormalBuilder::new("control_if")
            .add_input("CONDITION", BlockInputBuilder::stack(reporter))
            .add_input("SUBSTACK", BlockInputBuilder::stack(inner)),
    )
    .next(plain("looks_show"))
    .next(StackBuilder::start(
        BlockNormalBuilder::new("control_forever")
            .add_input("SUBSTACK", BlockInputBuilder::stack(plain("motion_movesteps"))),
    ));
    assert_eq!(stack.demand(), Some(6));
    let mut comments = Table::new();
    let blocks = stack
        .build_with(
            &Uid::new("ROOT"),
            &ids(&["i0", "i1", "i2", "i3", "i4", "i5"]),
            &mut comments,
            &context(&n),
        )
        .unwrap();
    assert_eq!(blocks.len(), 6);
    let mut seen = keys(&blocks);
    seen.sort();
    seen.dedup();
    assert_eq!(seen.len(), 6);
    assert_eq!(keys(&blocks), vec!["i1", "i2", "ROOT", "i3", "i5", "i4"]);
}

#[test]
fn a_random_build_yields_one_generated_key_per_node() {
    let n = names();
    let stack = plain("event_whenflagclicked")
        .next(StackBuilder::start(
            BlockNormalBuilder::new("control_forever")
                .add_input("SUBSTACK", BlockInputBuilder::stack(plain("motion_movesteps"))),
        ))
        .next(plain("looks_show"));
    let mut comments = Table::new();
    let blocks = stack.build(&Uid::new("ROOT"), &mut comments, &context(&n)).unwrap();
    assert_eq!(blocks.len(), 4);
    for (key, _) in blocks.entries.iter() {
        if key != "ROOT" {
            assert_eq!(key.chars().count(), 20);
            assert!(key.chars().all(|c| SOUP.contains(c)));
        }
    }
    let root = normal(&blocks, "ROOT");
    let second = root.next.clone().unwrap();
    assert_eq!(normal(&blocks, second.as_str()).parent, Some(Uid::new("ROOT")));
}

#[test]
fn a_block_built_alone_comes_back_unlinked() {
    let n = names();
    let block = BlockBuilder::Normal(
        BlockNormalBuilder::new("looks_say").add_input("MESSAGE", number(3)).shadow(true).pos(5, 6),
    );
    assert_eq!(block.demand(), Some(0));
    let mut comments = Table::new();
    let mut nodes = Table::new();
    let built = block
        .build_with(&Uid::new("ME"), &Vec::new(), &mut comments, &mut nodes, &context(&n))
        .unwrap();
    match built {
        Block::Normal(node) => {
            assert_eq!(node.parent, None);
            assert_eq!(node.next, None);
            assert!(!node.top_level);
            assert!(node.shadow);
            assert_eq!((node.x, node.y), (None, None));
        }
        other => panic!("not an ordinary node: {other:?}"),
    }
    assert!(nodes.is_empty());
}

#[test]
fn a_reporter_built_alone_keeps_its_place() {
    let n = names();
    let reporter = BlockVarListBuilder::sprite(ListOrVariable::Variable, "score")
        .pos(3, 4)
        .comment(CommentBuilder::new("note"));
    let mut comments = Table::new();
    let built = reporter
        .build_with(&Uid::new("ME"), &ids(&["C"]), &mut comments, &context(&n))
        .unwrap();
    assert_eq!(built.id, Uid::new("V1"));
    assert_eq!((built.x, built.y), (3, 4));
    assert_eq!(comments.get(&"C".to_string()).unwrap().block_id, Some(Uid::new("ME")));
    let mut none = Table::new();
    assert_eq!(
        reporter.build_with(&Uid::new("ME"), &Vec::new(), &mut none, &context(&n)),
        Err(BuildError::IdentifiersExhausted)
    );
}

fn nested_script() -> StackBuilder {
    let inner = plain("operator_add").next(plain("operator_subtract"));
    let deeper = StackBuilder::start(
        BlockNormalBuilder::new("control_repeat")
            .add_input("TIMES", number(2))
            .add_input("SUBSTACK", BlockInputBuilder::stack(plain("motion_movesteps"))),
    );
    StackBuilder::start(
        BlockNormalBuilder::new("control_if")
            .add_input("CONDITION", BlockInputBuilder::stack(inner))
            .add_input("SUBSTACK", BlockInputBuilder::stack(deeper)),
    )
    .next(plain("looks_show"))
    .next(StackBuilder::start(
        BlockNormalBuilder::new("looks_say").add_input(
            "MESSAGE",
            BlockInputBuilder::stack_with_value_obscured(
                plain("operator_join"),
                BlockInputValue::String { value: Value::Text("hi".to_string()) },
            ),
        ),
    ))
}

#[test]
fn only_the_root_has_no_parent() {
    let n = names();
    let stack = nested_script();
    let mut comments = Table::new();
    let blocks = stack.build(&Uid::new("ROOT"), &mut comments, &context(&n)).unwrap();
    assert_eq!(blocks.len(), 8);
    let mut roots = 0;
    for (key, block) in blocks.entries.iter() {
        match block {
            Block::Normal(node) => {
                if node.parent.is_none() {
                    roots += 1;
                    assert_eq!(key, "ROOT");
                    assert!(node.top_level);
                    assert_eq!((node.x, node.y), (Some(0), Some(0)));
                } else {
                    assert!(!node.top_level);
                    assert_eq!((node.x, node.y), (None, None));
                }
            }
            other => panic!("not an ordinary node: {other:?}"),
        }
    }
    assert_eq!(roots, 1);
}

#[test]
fn every_reference_names_a_node() {
    let n = names();
    let stack = nested_script();
    let mut comments = Table::new();
    let blocks = stack.build(&Uid::new("ROOT"), &mut comments, &context(&n)).unwrap();
    let mut references = 0;
    for (_, block) in blocks.entries.iter() {
        if let Block::Normal(node) = block {
            for uid in node.next.iter().chain(node.parent.iter()) {
                assert!(blocks.contains_key(&uid.0));
                references += 1;
            }
            for (_, slot) in node.inputs.entries.iter() {
                for value in slot.inputs.iter() {
                    if let Some(UidOrValue::Uid(uid)) = value {
                        assert!(blocks.contains_key(&uid.0));
                        references += 1;
                    }
                }
            }
        }
    }
    assert_eq!(references, 3 + 7 + 4);
}
