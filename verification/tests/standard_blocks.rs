use sb_itchy::block::{BlockBuilder, BlockFieldBuilder, BlockInputBuilder, BlockNormalBuilder};
use sb_itchy::blocks;
use sb_itchy::build_context::VarListFrom;
use sb_itchy::schema::{
    BlockInputValue, BlockMutation, BlockMutationEnum, ListOrVariable, ShadowInputType, Value,
};
use sb_itchy::stack::StackBuilder;

fn literal(n: i64) -> BlockInputBuilder {
    BlockInputBuilder::value(BlockInputValue::Number { value: Value::Number(n) })
}

fn plain_field(text: &str) -> BlockFieldBuilder {
    BlockFieldBuilder::new(text.to_string())
}

fn only(stack: &StackBuilder) -> &BlockNormalBuilder {
    assert_eq!(stack.stack.len(), 1);
    match &stack.stack[0] {
        BlockBuilder::Normal(b) => b,
        other => panic!("not an ordinary block: {other:?}"),
    }
}

fn input_keys(b: &BlockNormalBuilder) -> Vec<&str> {
    b.inputs.entries.iter().map(|e| e.0.as_str()).collect()
}

fn field_keys(b: &BlockNormalBuilder) -> Vec<&str> {
    b.fields.entries.iter().map(|e| e.0.as_str()).collect()
}

#[test]
fn move_steps_has_one_input() {
    let s = blocks::move_steps(literal(10));
    let b = only(&s);
    assert_eq!(b.opcode.as_str(), "motion_movesteps");
    assert_eq!(input_keys(b), vec!["STEPS"]);
    assert_eq!(b.inputs.entries[0].1, literal(10));
    assert!(b.fields.is_empty());
    assert!(!b.shadow);
    assert_eq!(b.mutation, None);
    assert_eq!(b.comment, None);
}

#[test]
fn if_else_leaves_out_the_branches_that_are_absent() {
    let s = blocks::if_else(literal(1), None, Some(literal(3)));
    let b = only(&s);
    assert_eq!(b.opcode.as_str(), "control_if_else");
    assert_eq!(input_keys(b), vec!["CONDITION", "SUBSTACK2"]);
    let s = blocks::if_else(literal(1), Some(literal(2)), Some(literal(3)));
    assert_eq!(input_keys(only(&s)), vec!["CONDITION", "SUBSTACK", "SUBSTACK2"]);
    assert_eq!(only(&s).inputs.entries[1].1, literal(2));
    let s = blocks::if_else(literal(1), None, None);
    assert_eq!(input_keys(only(&s)), vec!["CONDITION"]);
}

#[test]
fn repeat_and_forever_take_an_optional_body() {
    let s = blocks::repeat(literal(10), Some(BlockInputBuilder::stack(blocks::move_steps(literal(5)))));
    let b = only(&s);
    assert_eq!(b.opcode.as_str(), "control_repeat");
    assert_eq!(input_keys(b), vec!["TIMES", "SUBSTACK"]);
    assert_eq!(b.inputs.entries[1].1.shadow, ShadowInputType::NoShadow);
    assert!(input_keys(only(&blocks::forever(None))).is_empty());
    assert_eq!(input_keys(only(&blocks::forever(Some(literal(1))))), vec!["SUBSTACK"]);
    assert_eq!(only(&blocks::if_(literal(1), None)).opcode.as_str(), "control_if");
}

#[test]
fn stop_carries_its_mutation() {
    let s = blocks::stop(plain_field("all"), false);
    let b = only(&s);
    assert_eq!(b.opcode.as_str(), "control_stop");
    assert_eq!(field_keys(b), vec!["STOP_OPTION"]);
    assert_eq!(
        b.mutation,
        Some(BlockMutation {
            tag_name: "mutation".to_string(),
            mutation_enum: BlockMutationEnum::ControlStop { hasnext: false },
        })
    );
    let s = blocks::stop(plain_field("other scripts in sprite"), true);
    assert_eq!(
        only(&s).mutation.as_ref().unwrap().mutation_enum,
        BlockMutationEnum::ControlStop { hasnext: true }
    );
}

#[test]
fn a_menu_is_a_shadow() {
    let s = blocks::go_to_menu(plain_field("_random_"));
    let b = only(&s);
    assert!(b.shadow);
    assert_eq!(field_keys(b), vec!["TO"]);
    assert!(only(&blocks::key_menu(literal(1))).shadow);
    assert!(!only(&blocks::go_to(literal(1))).shadow);
}

#[test]
fn blocks_with_inputs_and_fields_keep_both() {
    let s = blocks::set_var_to(plain_field("score"), literal(0));
    let b = only(&s);
    assert_eq!(b.opcode.as_str(), "data_setvariableto");
    assert_eq!(input_keys(b), vec!["VALUE"]);
    assert_eq!(field_keys(b), vec!["VARIABLE"]);
    assert_eq!(b.fields.entries[0].1, plain_field("score"));
    let s = blocks::insert_in_list(plain_field("items"), literal(1), literal(2));
    let b = only(&s);
    assert_eq!(input_keys(b), vec!["INDEX", "ITEM"]);
    assert_eq!(field_keys(b), vec!["LIST"]);
    let s = blocks::glide_to_xy(literal(1), literal(2), literal(3));
    assert_eq!(input_keys(only(&s)), vec!["SECS", "X", "Y"]);
    assert_eq!(only(&s).inputs.entries[2].1, literal(3));
}

#[test]
fn blocks_without_parts_have_only_their_operation() {
    for (s, opcode) in [
        (blocks::when_flag_clicked(), "event_whenflagclicked"),
        (blocks::show(), "looks_show"),
        (blocks::hide_(), "looks_hide"),
        (blocks::delete_this_clone(), "control_delete_this_clone"),
        (blocks::volume(), "sound_volume"),
    ] {
        let b = only(&s);
        assert_eq!(b.opcode.as_str(), opcode);
        assert!(b.inputs.is_empty());
        assert!(b.fields.is_empty());
    }
}

#[test]
fn the_operators_name_their_operands() {
    let s = sb_itchy::blocks::add(literal(1), literal(2));
    assert_eq!(only(&s).opcode.as_str(), "operator_add");
    assert_eq!(input_keys(only(&s)), vec!["NUM1", "NUM2"]);
    let s = blocks::and(literal(1), literal(2));
    assert_eq!(input_keys(only(&s)), vec!["OPERAND1", "OPERAND2"]);
    let s = blocks::contains(literal(1), literal(2));
    assert_eq!(input_keys(only(&s)), vec!["STRING1", "STRING2"]);
    let s = blocks::broadcast(literal(1));
    assert_eq!(input_keys(only(&s)), vec!["BROADCAST_INPUT"]);
}

#[test]
fn the_reporters_name_the_tier_they_look_in() {
    for (s, kind, from) in [
        (blocks::sprite_var("a"), ListOrVariable::Variable, VarListFrom::Sprite),
        (blocks::sprite_list("a"), ListOrVariable::List, VarListFrom::Sprite),
        (blocks::global_var("a"), ListOrVariable::Variable, VarListFrom::Global),
        (blocks::global_list("a"), ListOrVariable::List, VarListFrom::Global),
    ] {
        assert_eq!(s.stack.len(), 1);
        match &s.stack[0] {
            BlockBuilder::VarList(b) => {
                assert_eq!(b.kind, kind);
                assert_eq!(b.from, from);
                assert_eq!(b.name, "a");
                assert_eq!((b.x, b.y), (0, 0));
            }
            other => panic!("not a reporter: {other:?}"),
        }
    }
}

#[test]
fn a_script_of_standard_blocks_is_their_sequence() {
    let script = blocks::when_flag_clicked()
        .next(blocks::say(BlockInputBuilder::value(BlockInputValue::String {
            value: Value::Text("hi mom".to_string()),
        })))
        .next(blocks::wait(literal(1)))
        .next(blocks::forever(Some(BlockInputBuilder::stack(blocks::move_steps(literal(10))))));
    assert_eq!(script.stack.len(), 4);
    assert_eq!(script.demand(), Some(4));
    let moved = script.move_head(10, 20);
    match &moved.stack[0] {
        BlockBuilder::Normal(b) => assert_eq!((b.x, b.y), (Some(10), Some(20))),
        other => panic!("not an ordinary block: {other:?}"),
    }
    let mut again = moved;
    again.mut_move_head(1, 2);
    match &again.stack[0] {
        BlockBuilder::Normal(b) => assert_eq!((b.x, b.y), (Some(1), Some(2))),
        other => panic!("not an ordinary block: {other:?}"),
    }
}

#[test]
fn a_block_builder_replaces_a_part_set_twice() {
    let b = BlockNormalBuilder::new("x")
        .add_input("A", literal(1))
        .add_input("B", literal(2))
        .add_input("A", literal(3))
        .add_field("F", plain_field("one"))
        .add_field("F", plain_field("two"));
    assert_eq!(input_keys(&b), vec!["A", "B"]);
    assert_eq!(b.inputs.entries[0].1, literal(3));
    assert_eq!(field_keys(&b), vec!["F"]);
    assert_eq!(b.fields.entries[0].1, plain_field("two"));
    let mut c = b.mutation(BlockMutation {
        tag_name: "mutation".to_string(),
        mutation_enum: BlockMutationEnum::ControlStop { hasnext: true },
    });
    c.mut_pos(4, 5);
    assert_eq!((c.x, c.y), (Some(4), Some(5)));
    assert!(c.mutation.is_some());
}
