use sb_itchy::block_definer::{
    build_fn_body, build_fn_parameter, build_fn_parameter_doc, define, dekeyword,
    str_lines_to_doc, Block, BlockType, Blocks, Parameter, ParameterOrText, ParameterType, Paths,
};

fn paths() -> Paths {
    Paths {
        block_field_builder: "Bfb".to_string(),
        block_input_builder: "Bib".to_string(),
        block_normal_builder: "BlockNormalBuilder".to_string(),
        stack_builder: "StackBuilder".to_string(),
    }
}

fn input(identifier: &str, key: &str) -> ParameterOrText {
    ParameterOrText::Parameter(Parameter {
        identifier: identifier.to_string(),
        parameter_type: ParameterType::Value,
        key: key.to_string(),
        deny_strings: false,
    })
}

fn field_parameter(identifier: &str, key: &str, values: Option<Vec<&str>>, categories: Option<Vec<&str>>) -> Parameter {
    Parameter {
        identifier: identifier.to_string(),
        parameter_type: ParameterType::Field {
            possible_values: values.map(|v| v.into_iter().map(String::from).collect()),
            possible_categories: categories.map(|v| v.into_iter().map(String::from).collect()),
        },
        key: key.to_string(),
        deny_strings: false,
    }
}

fn block(identifier: &str, opcode: &str, parameters: Vec<ParameterOrText>) -> Block {
    Block {
        identifier: identifier.to_string(),
        opcode: opcode.to_string(),
        doc: String::new(),
        implementor_note: None,
        manual: false,
        block_type: BlockType::Other,
        parameters,
    }
}

#[test]
fn reserved_words_get_an_underscore() {
    assert_eq!(dekeyword("if"), Some("if_".to_string()));
    assert_eq!(dekeyword("try"), Some("try_".to_string()));
    assert_eq!(dekeyword("Self"), Some("Self_".to_string()));
    assert_eq!(dekeyword("yield"), Some("yield_".to_string()));
    assert_eq!(dekeyword("iff"), None);
    assert_eq!(dekeyword(""), None);
    assert_eq!(dekeyword("If"), None);
    assert_eq!(dekeyword("wait"), None);
}

#[test]
fn each_line_becomes_a_line_of_documentation() {
    assert_eq!(str_lines_to_doc(""), "");
    assert_eq!(str_lines_to_doc("one"), "/// one\n");
    assert_eq!(str_lines_to_doc("one\ntwo"), "/// one\n/// two\n");
    assert_eq!(str_lines_to_doc("one\ntwo\n"), "/// one\n/// two\n");
    assert_eq!(str_lines_to_doc("one\r\ntwo"), "/// one\n/// two\n");
    assert_eq!(str_lines_to_doc("one\n\ntwo"), "/// one\n/// \n/// two\n");
    assert_eq!(str_lines_to_doc("\n"), "/// \n");
    assert_eq!(str_lines_to_doc("caf\u{e9}\nna\u{ef}ve"), "/// caf\u{e9}\n/// na\u{ef}ve\n");
    let expected: String = "a\nb\r\nc\n".lines().map(|s| format!("/// {s}\n")).collect();
    assert_eq!(str_lines_to_doc("a\nb\r\nc\n"), expected);
    let expected: String = "tail\r".lines().map(|s| format!("/// {s}\n")).collect();
    assert_eq!(str_lines_to_doc("tail\r"), expected);
}

#[test]
fn the_paths_follow_the_crate_path() {
    let p = Paths::from_crate_path("sb_itchy");
    assert_eq!(p.block_field_builder, "sb_itchy::block::BlockFieldBuilder");
    assert_eq!(p.block_input_builder, "sb_itchy::block::BlockInputBuilder");
    assert_eq!(p.block_normal_builder, "sb_itchy::block::BlockNormalBuilder");
    assert_eq!(p.stack_builder, "sb_itchy::stack::StackBuilder");
}

#[test]
fn a_field_documents_what_it_accepts() {
    assert_eq!(build_fn_parameter_doc("key", &None, &None), None);
    assert_eq!(
        build_fn_parameter_doc(
            "key",
            &Some(vec!["space".to_string(), "any".to_string()]),
            &Some(vec!["Letter".to_string()]),
        ),
        Some("`key` accepts:\n - Letter\n - `\"space\"`\n - `\"any\"`\n".to_string())
    );
    assert_eq!(
        build_fn_parameter_doc("key", &None, &Some(Vec::new())),
        Some("`key` accepts:\n".to_string())
    );
}

#[test]
fn the_signature_names_each_parameter_with_its_builder() {
    let parameters = vec![
        ParameterOrText::Text("move".to_string()),
        input("steps", "STEPS"),
        ParameterOrText::Parameter(Parameter {
            deny_strings: true,
            ..field_parameter("type", "KIND", Some(vec!["a"]), None)
        }),
    ];
    let mut messages = vec!["earlier".to_string()];
    let (signature, notes) = build_fn_parameter("move_", &mut messages, &parameters, &paths());
    assert_eq!(signature, "steps: Bib, type_: Bfb, ");
    assert_eq!(notes, "`type_` accepts:\n - `\"a\"`\n");
    assert_eq!(
        messages,
        vec!["earlier".to_string(), "move_.type_ deny strings aren't supproted".to_string()]
    );
}

#[test]
fn the_body_hands_each_parameter_to_the_builder() {
    let none = build_fn_body("looks_show", &BlockType::Other, &Vec::new(), &paths());
    assert_eq!(
        none,
        "    let block_builder = BlockNormalBuilder::new(\"looks_show\");\n    StackBuilder::start(block_builder)\n"
    );
    let menu = build_fn_body(
        "motion_goto_menu",
        &BlockType::Menu,
        &vec![ParameterOrText::Parameter(field_parameter("to", "TO", None, None))],
        &paths(),
    );
    assert_eq!(
        menu,
        "    let mut block_builder = BlockNormalBuilder::new(\"motion_goto_menu\");\n    block_builder.add_field(\"TO\", to);\n    block_builder.set_shadow(true);\n    StackBuilder::start(block_builder)\n"
    );
    let only_text = build_fn_body(
        "x",
        &BlockType::Other,
        &vec![ParameterOrText::Text("hello".to_string())],
        &paths(),
    );
    assert!(only_text.starts_with("    let block_builder = "));
    let empty_menu = build_fn_body("m", &BlockType::Menu, &Vec::new(), &paths());
    assert!(empty_menu.starts_with("    let mut block_builder = "));
}

#[test]
fn a_catalog_becomes_one_function_for_each_block() {
    let mut wait = block("wait", "control_wait", vec![input("duration", "DURATION")]);
    wait.doc = "Waits.\nThen goes on.".to_string();
    let mut by_hand = block("stop", "control_stop", Vec::new());
    by_hand.manual = true;
    let mut reserved = block(
        "if",
        "control_if",
        vec![input("condition", "CONDITION"), ParameterOrText::Text("then".to_string())],
    );
    reserved.implementor_note = Some("takes a body".to_string());
    let (text, messages) = define(&Blocks(vec![wait, by_hand, reserved]), &paths());
    assert_eq!(
        text,
        "/// Waits.\n/// Then goes on.\npub fn wait(duration: Bib, ) -> StackBuilder {\n    let mut block_builder = BlockNormalBuilder::new(\"control_wait\");\n    block_builder.add_input(\"DURATION\", duration);\n    StackBuilder::start(block_builder)\n}\n\npub fn if_(condition: Bib, ) -> StackBuilder {\n    let mut block_builder = BlockNormalBuilder::new(\"control_if\");\n    block_builder.add_input(\"CONDITION\", condition);\n    StackBuilder::start(block_builder)\n}\n\n"
    );
    assert_eq!(
        messages,
        vec![
            "`stop` requried manual implementation".to_string(),
            "if: takes a body".to_string(),
        ]
    );
    let (nothing, silent) = define(&Blocks(Vec::new()), &paths());
    assert_eq!(nothing, "");
    assert!(silent.is_empty());
}
