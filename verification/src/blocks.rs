//! The standard blocks, each as a stack of one block.
//!
//! A block whose name ends in `_menu` is the drop-down that the editor
//! shows inside another block; the functions here do not demand one where
//! the editor would.
//!
//! Some names are reserved as values of such menus: `_random_`, `_mouse_`,
//! `_edge_`, `_stage_`.

use crate::block::{BlockFieldBuilder, BlockInputBuilder, BlockNormalBuilder, BlockVarListBuilder};
use crate::build_context::VarListFrom;
use crate::opcode::OpCode;
use crate::schema::{BlockMutation, BlockMutationEnum, ListOrVariable};
use crate::stack::StackBuilder;
use crate::table::Table;
use vstd::prelude::*;

verus! {

pub type Bfb = BlockFieldBuilder;

pub type Bib = BlockInputBuilder;

/// The entries of a table, each key by its characters.
pub open spec fn keyed<V>(entries: Seq<(String, V)>) -> Seq<(Seq<char>, V)> {
    Seq::new(entries.len(), |i: int| (entries[i].0@, entries[i].1))
}

/// The parts of a block, each key by its characters.
pub open spec fn named<V>(parts: Seq<(&'static str, V)>) -> Seq<(Seq<char>, V)> {
    Seq::new(parts.len(), |i: int| (parts[i].0@, parts[i].1))
}

/// The entry for an input that may be left out.
pub open spec fn optional(key: Seq<char>, input: Option<Bib>) -> Seq<(Seq<char>, Bib)> {
    match input {
        Some(b) => seq![(key, b)],
        None => Seq::empty(),
    }
}

/// `s` is a stack of one ordinary block that performs `opcode`, with the
/// given inputs and fields in the given order, no comment and no place.
pub open spec fn is_block_with(
    s: StackBuilder,
    opcode: Seq<char>,
    inputs: Seq<(Seq<char>, Bib)>,
    fields: Seq<(Seq<char>, Bfb)>,
    shadow: bool,
) -> bool {
    &&& s.stack@.len() == 1
    &&& s.stack@[0] is Normal
    &&& s.stack@[0]->Normal_0.opcode@ == opcode
    &&& keyed(s.stack@[0]->Normal_0.inputs.entries@) == inputs
    &&& keyed(s.stack@[0]->Normal_0.fields.entries@) == fields
    &&& s.stack@[0]->Normal_0.shadow == shadow
    &&& s.stack@[0]->Normal_0.comment is None
    &&& s.stack@[0]->Normal_0.x is None
    &&& s.stack@[0]->Normal_0.y is None
}

/// `s` is a stack of one ordinary block that performs `opcode`, with the
/// given inputs and fields in the given order, and nothing else: no
/// comment, no mutation, no place.
pub open spec fn is_block(
    s: StackBuilder,
    opcode: Seq<char>,
    inputs: Seq<(Seq<char>, Bib)>,
    fields: Seq<(Seq<char>, Bfb)>,
    shadow: bool,
) -> bool {
    is_block_with(s, opcode, inputs, fields, shadow) && s.stack@[0]->Normal_0.mutation is None
}

/// `s` is a stack of one reporter of the variable or list `name`, looked
/// up in the tier `from`, at the origin and without a comment.
pub open spec fn is_reporter(
    s: StackBuilder,
    kind: ListOrVariable,
    from: VarListFrom,
    name: Seq<char>,
) -> bool {
    &&& s.stack@.len() == 1
    &&& s.stack@[0] is VarList
    &&& s.stack@[0]->VarList_0.kind == kind
    &&& s.stack@[0]->VarList_0.from == from
    &&& s.stack@[0]->VarList_0.name@ == name
    &&& s.stack@[0]->VarList_0.x == 0
    &&& s.stack@[0]->VarList_0.y == 0
    &&& s.stack@[0]->VarList_0.comment is None
}

/// The parts, each under its key, in order.
fn entries_of<V>(parts: Vec<(&'static str, V)>) -> (t: Table<V>)
    ensures
        keyed(t.entries@) == named(parts@),
{
    let ghost all = parts@;
    let mut rest = parts;
    let mut entries: Vec<(String, V)> = Vec::new();
    while rest.len() > 0
        invariant
            entries@.len() + rest@.len() == all.len(),
            rest@ == all.skip(entries@.len() as int),
            keyed(entries@) == named(all.take(entries@.len() as int)),
        decreases rest@.len(),
    {
        let ghost done = entries@.len() as int;
        let ghost before = entries@;
        let part = rest.remove(0);
        assert(part == all[done]);
        entries.push((part.0.to_owned(), part.1));
        assert(rest@ =~= all.skip(done + 1));
        assert forall|i: int| 0 <= i < done + 1 implies keyed(entries@)[i] == named(
            all.take(done + 1),
        )[i] by {
            if i < done {
                assert(entries@[i] == before[i]);
                assert(keyed(before)[i] == named(all.take(done))[i]);
            }
        }
        assert(keyed(entries@) =~= named(all.take(done + 1)));
    }
    assert(all.take(all.len() as int) =~= all);
    Table { entries }
}

/// An ordinary block with the given parts.
fn parts_of(
    opcode: &str,
    inputs: Vec<(&'static str, Bib)>,
    fields: Vec<(&'static str, Bfb)>,
    shadow: bool,
) -> (b: BlockNormalBuilder)
    ensures
        b.opcode@ == opcode@,
        keyed(b.inputs.entries@) == named(inputs@),
        keyed(b.fields.entries@) == named(fields@),
        b.shadow == shadow,
        b.comment is None,
        b.mutation is None,
        b.x is None,
        b.y is None,
{
    BlockNormalBuilder {
        opcode: OpCode::new(opcode),
        comment: None,
        inputs: entries_of(inputs),
        fields: entries_of(fields),
        mutation: None,
        shadow,
        x: None,
        y: None,
    }
}

/// A stack of one ordinary block with the given parts.
fn block_of(
    opcode: &str,
    inputs: Vec<(&'static str, Bib)>,
    fields: Vec<(&'static str, Bfb)>,
    shadow: bool,
) -> (s: StackBuilder)
    ensures
        is_block(s, opcode@, named(inputs@), named(fields@), shadow),
{
    StackBuilder::start(parts_of(opcode, inputs, fields, shadow))
}

// Control

/// A stack of one `control_wait` block.
pub fn wait(duration: Bib) -> (s: StackBuilder)
    ensures
        is_block(s, "control_wait"@, seq![("DURATION"@, duration)], Seq::empty(), false),
{
    let inputs: Vec<(&'static str, Bib)> = vec![("DURATION", duration)];
    let fields: Vec<(&'static str, Bfb)> = Vec::new();
    assert(named(inputs@) =~= seq![("DURATION"@, duration)]);
    assert(named(fields@) =~= Seq::empty());
    block_of("control_wait", inputs, fields, false)
}

/// A stack of one `control_repeat` block.
pub fn repeat(times: Bib, to_repeat: Option<Bib>) -> (s: StackBuilder)
    ensures
        is_block(s, "control_repeat"@, seq![("TIMES"@, times)] + optional("SUBSTACK"@, to_repeat), Seq::empty(), false),
{
    let mut inputs: Vec<(&'static str, Bib)> = vec![("TIMES", times)];
    match to_repeat {
        Some(b) => {
            inputs.push(("SUBSTACK", b));
        },
        None => {},
    }
    let fields: Vec<(&'static str, Bfb)> = Vec::new();
    assert(named(inputs@) =~= seq![("TIMES"@, times)] + optional("SUBSTACK"@, to_repeat));
    assert(named(fields@) =~= Seq::empty());
    block_of("control_repeat", inputs, fields, false)
}

/// A stack of one `control_forever` block.
pub fn forever(to_repeat: Option<Bib>) -> (s: StackBuilder)
    ensures
        is_block(s, "control_forever"@, optional("SUBSTACK"@, to_repeat), Seq::empty(), false),
{
    let mut inputs: Vec<(&'static str, Bib)> = Vec::new();
    match to_repeat {
        Some(b) => {
            inputs.push(("SUBSTACK", b));
        },
        None => {},
    }
    let fields: Vec<(&'static str, Bfb)> = Vec::new();
    assert(named(inputs@) =~= optional("SUBSTACK"@, to_repeat));
    assert(named(fields@) =~= Seq::empty());
    block_of("control_forever", inputs, fields, false)
}

/// A stack of one `control_if` block.
pub fn if_(condition: Bib, if_true: Option<Bib>) -> (s: StackBuilder)
    ensures
        is_block(s, "control_if"@, seq![("CONDITION"@, condition)] + optional("SUBSTACK"@, if_true), Seq::empty(), false),
{
    let mut inputs: Vec<(&'static str, Bib)> = vec![("CONDITION", condition)];
    match if_true {
        Some(b) => {
            inputs.push(("SUBSTACK", b));
        },
        None => {},
    }
    let fields: Vec<(&'static str, Bfb)> = Vec::new();
    assert(named(inputs@) =~= seq![("CONDITION"@, condition)] + optional("SUBSTACK"@, if_true));
    assert(named(fields@) =~= Seq::empty());
    block_of("control_if", inputs, fields, false)
}

/// A stack of one `control_if_else` block.
pub fn if_else(condition: Bib, if_true: Option<Bib>, if_false: Option<Bib>) -> (s: StackBuilder)
    ensures
        is_block(s, "control_if_else"@, seq![("CONDITION"@, condition)] + optional("SUBSTACK"@, if_true) + optional("SUBSTACK2"@, if_false), Seq::empty(), false),
{
    let mut inputs: Vec<(&'static str, Bib)> = vec![("CONDITION", condition)];
    match if_true {
        Some(b) => {
            inputs.push(("SUBSTACK", b));
        },
        None => {},
    }
    match if_false {
        Some(b) => {
            inputs.push(("SUBSTACK2", b));
        },
        None => {},
    }
    let fields: Vec<(&'static str, Bfb)> = Vec::new();
    assert(named(inputs@) =~= seq![("CONDITION"@, condition)] + optional("SUBSTACK"@, if_true) + optional("SUBSTACK2"@, if_false));
    assert(named(fields@) =~= Seq::empty());
    block_of("control_if_else", inputs, fields, false)
}

/// A stack of one `control_wait_until` block.
pub fn wait_until(condition: Bib) -> (s: StackBuilder)
    ensures
        is_block(s, "control_wait_until"@, seq![("CONDITION"@, condition)], Seq::empty(), false),
{
    let inputs: Vec<(&'static str, Bib)> = vec![("CONDITION", condition)];
    let fields: Vec<(&'static str, Bfb)> = Vec::new();
    assert(named(inputs@) =~= seq![("CONDITION"@, condition)]);
    assert(named(fields@) =~= Seq::empty());
    block_of("control_wait_until", inputs, fields, false)
}

/// A stack of one `control_if_else` block.
pub fn repeat_until(condition: Bib, to_repeat: Option<Bib>) -> (s: StackBuilder)
    ensures
        is_block(s, "control_if_else"@, seq![("CONDITION"@, condition)] + optional("SUBSTACK"@, to_repeat), Seq::empty(), false),
{
    let mut inputs: Vec<(&'static str, Bib)> = vec![("CONDITION", condition)];
    match to_repeat {
        Some(b) => {
            inputs.push(("SUBSTACK", b));
        },
        None => {},
    }
    let fields: Vec<(&'static str, Bfb)> = Vec::new();
    assert(named(inputs@) =~= seq![("CONDITION"@, condition)] + optional("SUBSTACK"@, to_repeat));
    assert(named(fields@) =~= Seq::empty());
    block_of("control_if_else", inputs, fields, false)
}

/// A stack of one `control_stop` block.
///
/// `stop_option` Accepts:
/// - "this script" and `has_next` should be `false`
/// - "other scripts in sprite" and `has_next` should be `true`
/// - "all" and `has_next` should be `false`
pub fn stop(stop_option: Bfb, has_next: bool) -> (s: StackBuilder)
    ensures
        is_block_with(s, "control_stop"@, Seq::empty(), seq![("STOP_OPTION"@, stop_option)], false),
        s.stack@[0]->Normal_0.mutation is Some,
        s.stack@[0]->Normal_0.mutation->Some_0.tag_name@ == "mutation"@,
        s.stack@[0]->Normal_0.mutation->Some_0.mutation_enum == (BlockMutationEnum::ControlStop {
            hasnext: has_next,
        }),
{
    let inputs: Vec<(&'static str, Bib)> = Vec::new();
    let fields: Vec<(&'static str, Bfb)> = vec![("STOP_OPTION", stop_option)];
    assert(named(inputs@) =~= Seq::empty());
    assert(named(fields@) =~= seq![("STOP_OPTION"@, stop_option)]);
    let block = parts_of("control_stop", inputs, fields, false).mutation(
        BlockMutation {
            tag_name: "mutation".to_owned(),
            mutation_enum: BlockMutationEnum::ControlStop { hasnext: has_next },
        },
    );
    StackBuilder::start(block)
}

/// A stack of one `control_start_as_clone` block.
pub fn when_i_start_as_a_clone() -> (s: StackBuilder)
    ensures
        is_block(s, "control_start_as_clone"@, Seq::empty(), Seq::empty(), false),
{
    let inputs: Vec<(&'static str, Bib)> = Vec::new();
    let fields: Vec<(&'static str, Bfb)> = Vec::new();
    assert(named(inputs@) =~= Seq::empty());
    assert(named(fields@) =~= Seq::empty());
    block_of("control_start_as_clone", inputs, fields, false)
}

/// A stack of one `control_create_clone_of` block.
///
/// Accepts:
/// - Sprite name
pub fn create_clone_of(sprite: Bib) -> (s: StackBuilder)
    ensures
        is_block(s, "control_create_clone_of"@, seq![("CLONE_OPTION"@, sprite)], Seq::empty(), false),
{
    let inputs: Vec<(&'static str, Bib)> = vec![("CLONE_OPTION", sprite)];
    let fields: Vec<(&'static str, Bfb)> = Vec::new();
    assert(named(inputs@) =~= seq![("CLONE_OPTION"@, sprite)]);
    assert(named(fields@) =~= Seq::empty());
    block_of("control_create_clone_of", inputs, fields, false)
}

/// A stack of one `control_create_clone_of` block.
///
/// Uses as argument to [`create_clone_of`]
/// Accepts:
/// - Sprite name
pub fn create_clone_of_menu(sprite: Bfb) -> (s: StackBuilder)
    ensures
        is_block(s, "control_create_clone_of"@, Seq::empty(), seq![("CLONE_OPTION"@, sprite)], true),
{
    let inputs: Vec<(&'static str, Bib)> = Vec::new();
    let fields: Vec<(&'static str, Bfb)> = vec![("CLONE_OPTION", sprite)];
    assert(named(inputs@) =~= Seq::empty());
    assert(named(fields@) =~= seq![("CLONE_OPTION"@, sprite)]);
    block_of("control_create_clone_of", inputs, fields, true)
}

/// A stack of one `control_delete_this_clone` block.
pub fn delete_this_clone() -> (s: StackBuilder)
    ensures
        is_block(s, "control_delete_this_clone"@, Seq::empty(), Seq::empty(), false),
{
    let inputs: Vec<(&'static str, Bib)> = Vec::new();
    let fields: Vec<(&'static str, Bfb)> = Vec::new();
    assert(named(inputs@) =~= Seq::empty());
    assert(named(fields@) =~= Seq::empty());
    block_of("control_delete_this_clone", inputs, fields, false)
}

// Events

/// A stack of one `event_whenflagclicked` block.
pub fn when_flag_clicked() -> (s: StackBuilder)
    ensures
        is_block(s, "event_whenflagclicked"@, Seq::empty(), Seq::empty(), false),
{
    let inputs: Vec<(&'static str, Bib)> = Vec::new();
    let fields: Vec<(&'static str, Bfb)> = Vec::new();
    assert(named(inputs@) =~= Seq::empty());
    assert(named(fields@) =~= Seq::empty());
    block_of("event_whenflagclicked", inputs, fields, false)
}

/// A stack of one `event_whenkeypressed` block.
///
/// Accepts:
/// - "any"
/// - "space"
/// - "left arrow"
/// - "right arrow"
/// - "up arrow"
/// - "down arrow"
/// - Number 0 - 9
/// - Letter a - z
pub fn when_key_pressed(key: Bfb) -> (s: StackBuilder)
    ensures
        is_block(s, "event_whenkeypressed"@, Seq::empty(), seq![("KEY_OPTION"@, key)], false),
{
    let inputs: Vec<(&'static str, Bib)> = Vec::new();
    let fields: Vec<(&'static str, Bfb)> = vec![("KEY_OPTION", key)];
    assert(named(inputs@) =~= Seq::empty());
    assert(named(fields@) =~= seq![("KEY_OPTION"@, key)]);
    block_of("event_whenkeypressed", inputs, fields, false)
}

/// A stack of one `event_whenthisspriteclicked` block.
pub fn when_this_sprite_clicked() -> (s: StackBuilder)
    ensures
        is_block(s, "event_whenthisspriteclicked"@, Seq::empty(), Seq::empty(), false),
{
    let inputs: Vec<(&'static str, Bib)> = Vec::new();
    let fields: Vec<(&'static str, Bfb)> = Vec::new();
    assert(named(inputs@) =~= Seq::empty());
    assert(named(fields@) =~= Seq::empty());
    block_of("event_whenthisspriteclicked", inputs, fields, false)
}

/// A stack of one `event_whenbackdropswitchesto` block.
///
/// Accepts:
/// - Backdrop name
pub fn when_backdrop_switches_to(backdrop: Bfb) -> (s: StackBuilder)
    ensures
        is_block(s, "event_whenbackdropswitchesto"@, Seq::empty(), seq![("BACKDROP"@, backdrop)], false),
{
    let inputs: Vec<(&'static str, Bib)> = Vec::new();
    let fields: Vec<(&'static str, Bfb)> = vec![("BACKDROP", backdrop)];
    assert(named(inputs@) =~= Seq::empty());
    assert(named(fields@) =~= seq![("BACKDROP"@, backdrop)]);
    block_of("event_whenbackdropswitchesto", inputs, fields, false)
}

/// A stack of one `event_whengreaterthan` block.
///
/// Accepts:
/// - "LOUDNESS"
/// - "TIMER"
pub fn when_greater_than(variable: Bfb, value: Bib) -> (s: StackBuilder)
    ensures
        is_block(s, "event_whengreaterthan"@, seq![("VALUE"@, value)], seq![("WHENGREATERTHANMENU"@, variable)], false),
{
    let inputs: Vec<(&'static str, Bib)> = vec![("VALUE", value)];
    let fields: Vec<(&'static str, Bfb)> = vec![("WHENGREATERTHANMENU", variable)];
    assert(named(inputs@) =~= seq![("VALUE"@, value)]);
    assert(named(fields@) =~= seq![("WHENGREATERTHANMENU"@, variable)]);
    block_of("event_whengreaterthan", inputs, fields, false)
}

/// A stack of one `event_whenbroadcastreceived` block.
pub fn when_broadcast_received(broadcast: Bfb) -> (s: StackBuilder)
    ensures
        is_block(s, "event_whenbroadcastreceived"@, Seq::empty(), seq![("BROADCAST_OPTION"@, broadcast)], false),
{
    let inputs: Vec<(&'static str, Bib)> = Vec::new();
    let fields: Vec<(&'static str, Bfb)> = vec![("BROADCAST_OPTION", broadcast)];
    assert(named(inputs@) =~= Seq::empty());
    assert(named(fields@) =~= seq![("BROADCAST_OPTION"@, broadcast)]);
    block_of("event_whenbroadcastreceived", inputs, fields, false)
}

/// A stack of one `event_broadcast` block.
pub fn broadcast(message: Bib) -> (s: StackBuilder)
    ensures
        is_block(s, "event_broadcast"@, seq![("BROADCAST_INPUT"@, message)], Seq::empty(), false),
{
    let inputs: Vec<(&'static str, Bib)> = vec![("BROADCAST_INPUT", message)];
    let fields: Vec<(&'static str, Bfb)> = Vec::new();
    assert(named(inputs@) =~= seq![("BROADCAST_INPUT"@, message)]);
    assert(named(fields@) =~= Seq::empty());
    block_of("event_broadcast", inputs, fields, false)
}

/// A stack of one `event_broadcastandwait` block.
pub fn broadcast_and_wait(broadcast: Bib) -> (s: StackBuilder)
    ensures
        is_block(s, "event_broadcastandwait"@, seq![("BROADCAST_INPUT"@, broadcast)], Seq::empty(), false),
{
    let inputs: Vec<(&'static str, Bib)> = vec![("BROADCAST_INPUT", broadcast)];
    let fields: Vec<(&'static str, Bfb)> = Vec::new();
    assert(named(inputs@) =~= seq![("BROADCAST_INPUT"@, broadcast)]);
    assert(named(fields@) =~= Seq::empty());
    block_of("event_broadcastandwait", inputs, fields, false)
}

// Looks

/// A stack of one `looks_think` block.
pub fn think(message: Bib) -> (s: StackBuilder)
    ensures
        is_block(s, "looks_think"@, seq![("MESSAGE"@, message)], Seq::empty(), false),
{
    let inputs: Vec<(&'static str, Bib)> = vec![("MESSAGE", message)];
    let fields: Vec<(&'static str, Bfb)> = Vec::new();
    assert(named(inputs@) =~= seq![("MESSAGE"@, message)]);
    assert(named(fields@) =~= Seq::empty());
    block_of("looks_think", inputs, fields, false)
}

/// A stack of one `looks_thinkforsecs` block.
pub fn think_for_secs(message: Bib, secs: Bib) -> (s: StackBuilder)
    ensures
        is_block(s, "looks_thinkforsecs"@, seq![("MESSAGE"@, message), ("SECS"@, secs)], Seq::empty(), false),
{
    let inputs: Vec<(&'static str, Bib)> = vec![("MESSAGE", message), ("SECS", secs)];
    let fields: Vec<(&'static str, Bfb)> = Vec::new();
    assert(named(inputs@) =~= seq![("MESSAGE"@, message), ("SECS"@, secs)]);
    assert(named(fields@) =~= Seq::empty());
    block_of("looks_thinkforsecs", inputs, fields, false)
}

/// A stack of one `looks_say` block.
pub fn say(message: Bib) -> (s: StackBuilder)
    ensures
        is_block(s, "looks_say"@, seq![("MESSAGE"@, message)], Seq::empty(), false),
{
    let inputs: Vec<(&'static str, Bib)> = vec![("MESSAGE", message)];
    let fields: Vec<(&'static str, Bfb)> = Vec::new();
    assert(named(inputs@) =~= seq![("MESSAGE"@, message)]);
    assert(named(fields@) =~= Seq::empty());
    block_of("looks_say", inputs, fields, false)
}

/// A stack of one `looks_sayforsecs` block.
pub fn say_for_secs(message: Bib, secs: Bib) -> (s: StackBuilder)
    ensures
        is_block(s, "looks_sayforsecs"@, seq![("MESSAGE"@, message), ("SECS"@, secs)], Seq::empty(), false),
{
    let inputs: Vec<(&'static str, Bib)> = vec![("MESSAGE", message), ("SECS", secs)];
    let fields: Vec<(&'static str, Bfb)> = Vec::new();
    assert(named(inputs@) =~= seq![("MESSAGE"@, message), ("SECS"@, secs)]);
    assert(named(fields@) =~= Seq::empty());
    block_of("looks_sayforsecs", inputs, fields, false)
}

/// A stack of one `looks_switchcostumeto` block.
///
/// Accepts:
/// - Costume name
pub fn switch_costume_to(costume: Bib) -> (s: StackBuilder)
    ensures
        is_block(s, "looks_switchcostumeto"@, seq![("COSTUME"@, costume)], Seq::empty(), false),
{
    let inputs: Vec<(&'static str, Bib)> = vec![("COSTUME", costume)];
    let fields: Vec<(&'static str, Bfb)> = Vec::new();
    assert(named(inputs@) =~= seq![("COSTUME"@, costume)]);
    assert(named(fields@) =~= Seq::empty());
    block_of("looks_switchcostumeto", inputs, fields, false)
}

/// A stack of one `looks_costume` block.
///
/// Uses as argument to [`switch_costume_to`]
/// Accepts:
/// - Costume name
pub fn costume_menu(costume: Bfb) -> (s: StackBuilder)
    ensures
        is_block(s, "looks_costume"@, Seq::empty(), seq![("COSTUME"@, costume)], true),
{
    let inputs: Vec<(&'static str, Bib)> = Vec::new();
    let fields: Vec<(&'static str, Bfb)> = vec![("COSTUME", costume)];
    assert(named(inputs@) =~= Seq::empty());
    assert(named(fields@) =~= seq![("COSTUME"@, costume)]);
    block_of("looks_costume", inputs, fields, true)
}

/// A stack of one `looks_nextcostume` block.
pub fn next_costume() -> (s: StackBuilder)
    ensures
        is_block(s, "looks_nextcostume"@, Seq::empty(), Seq::empty(), false),
{
    let inputs: Vec<(&'static str, Bib)> = Vec::new();
    let fields: Vec<(&'static str, Bfb)> = Vec::new();
    assert(named(inputs@) =~= Seq::empty());
    assert(named(fields@) =~= Seq::empty());
    block_of("looks_nextcostume", inputs, fields, false)
}

/// A stack of one `looks_switchbackdropto` block.
///
/// Accepts:
/// - Costume name
pub fn switch_backdrop_to(backdrop: Bib) -> (s: StackBuilder)
    ensures
        is_block(s, "looks_switchbackdropto"@, seq![("BACKDROP"@, backdrop)], Seq::empty(), false),
{
    let inputs: Vec<(&'static str, Bib)> = vec![("BACKDROP", backdrop)];
    let fields: Vec<(&'static str, Bfb)> = Vec::new();
    assert(named(inputs@) =~= seq![("BACKDROP"@, backdrop)]);
    assert(named(fields@) =~= Seq::empty());
    block_of("looks_switchbackdropto", inputs, fields, false)
}

/// A stack of one `looks_backdrops` block.
///
/// Uses as argument to [`switch_backdrop_to`]
/// Accepts:
/// - Backdrop name
pub fn backdrop_menu(backdrop: Bfb) -> (s: StackBuilder)
    ensures
        is_block(s, "looks_backdrops"@, Seq::empty(), seq![("BACKDROP"@, backdrop)], true),
{
    let inputs: Vec<(&'static str, Bib)> = Vec::new();
    let fields: Vec<(&'static str, Bfb)> = vec![("BACKDROP", backdrop)];
    assert(named(inputs@) =~= Seq::empty());
    assert(named(fields@) =~= seq![("BACKDROP"@, backdrop)]);
    block_of("looks_backdrops", inputs, fields, true)
}

/// A stack of one `looks_nextbackdrop` block.
pub fn next_backdrop() -> (s: StackBuilder)
    ensures
        is_block(s, "looks_nextbackdrop"@, Seq::empty(), Seq::empty(), false),
{
    let inputs: Vec<(&'static str, Bib)> = Vec::new();
    let fields: Vec<(&'static str, Bfb)> = Vec::new();
    assert(named(inputs@) =~= Seq::empty());
    assert(named(fields@) =~= Seq::empty());
    block_of("looks_nextbackdrop", inputs, fields, false)
}

/// A stack of one `looks_changesizeby` block.
pub fn change_size_by(by: Bib) -> (s: StackBuilder)
    ensures
        is_block(s, "looks_changesizeby"@, seq![("CHANGE"@, by)], Seq::empty(), false),
{
    let inputs: Vec<(&'static str, Bib)> = vec![("CHANGE", by)];
    let fields: Vec<(&'static str, Bfb)> = Vec::new();
    assert(named(inputs@) =~= seq![("CHANGE"@, by)]);
    assert(named(fields@) =~= Seq::empty());
    block_of("looks_changesizeby", inputs, fields, false)
}

/// A stack of one `looks_setsizeto` block.
pub fn set_size_to(to: Bib) -> (s: StackBuilder)
    ensures
        is_block(s, "looks_setsizeto"@, seq![("SIZE"@, to)], Seq::empty(), false),
{
    let inputs: Vec<(&'static str, Bib)> = vec![("SIZE", to)];
    let fields: Vec<(&'static str, Bfb)> = Vec::new();
    assert(named(inputs@) =~= seq![("SIZE"@, to)]);
    assert(named(fields@) =~= Seq::empty());
    block_of("looks_setsizeto", inputs, fields, false)
}

/// A stack of one `looks_changeeffectby` block.
///
/// Accepts
/// - "COLOR"
/// - "FISHEYE"
/// - "WHIRL"
/// - "PIXELATE"
/// - "MOSAIC"
/// - "BRIGHTNESS"
/// - "GHOST"
pub fn change_looks_effect_by(effect: Bfb, by: Bib) -> (s: StackBuilder)
    ensures
        is_block(s, "looks_changeeffectby"@, seq![("CHANGE"@, by)], seq![("EFFECT"@, effect)], false),
{
    let inputs: Vec<(&'static str, Bib)> = vec![("CHANGE", by)];
    let fields: Vec<(&'static str, Bfb)> = vec![("EFFECT", effect)];
    assert(named(inputs@) =~= seq![("CHANGE"@, by)]);
    assert(named(fields@) =~= seq![("EFFECT"@, effect)]);
    block_of("looks_changeeffectby", inputs, fields, false)
}

/// A stack of one `looks_seteffectto` block.
///
/// Accepts
/// - "COLOR"
/// - "FISHEYE"
/// - "WHIRL"
/// - "PIXELATE"
/// - "MOSAIC"
/// - "BRIGHTNESS"
/// - "GHOST"
pub fn set_looks_effect_to(effect: Bfb, to: Bib) -> (s: StackBuilder)
    ensures
        is_block(s, "looks_seteffectto"@, seq![("TO"@, to)], seq![("EFFECT"@, effect)], false),
{
    let inputs: Vec<(&'static str, Bib)> = vec![("TO", to)];
    let fields: Vec<(&'static str, Bfb)> = vec![("EFFECT", effect)];
    assert(named(inputs@) =~= seq![("TO"@, to)]);
    assert(named(fields@) =~= seq![("EFFECT"@, effect)]);
    block_of("looks_seteffectto", inputs, fields, false)
}

/// A stack of one `looks_cleargraphiceffects` block.
pub fn clear_graphic_effects() -> (s: StackBuilder)
    ensures
        is_block(s, "looks_cleargraphiceffects"@, Seq::empty(), Seq::empty(), false),
{
    let inputs: Vec<(&'static str, Bib)> = Vec::new();
    let fields: Vec<(&'static str, Bfb)> = Vec::new();
    assert(named(inputs@) =~= Seq::empty());
    assert(named(fields@) =~= Seq::empty());
    block_of("looks_cleargraphiceffects", inputs, fields, false)
}

/// A stack of one `looks_show` block.
pub fn show() -> (s: StackBuilder)
    ensures
        is_block(s, "looks_show"@, Seq::empty(), Seq::empty(), false),
{
    let inputs: Vec<(&'static str, Bib)> = Vec::new();
    let fields: Vec<(&'static str, Bfb)> = Vec::new();
    assert(named(inputs@) =~= Seq::empty());
    assert(named(fields@) =~= Seq::empty());
    block_of("looks_show", inputs, fields, false)
}

/// A stack of one `looks_hide` block.
pub fn hide_() -> (s: StackBuilder)
    ensures
        is_block(s, "looks_hide"@, Seq::empty(), Seq::empty(), false),
{
    let inputs: Vec<(&'static str, Bib)> = Vec::new();
    let fields: Vec<(&'static str, Bfb)> = Vec::new();
    assert(named(inputs@) =~= Seq::empty());
    assert(named(fields@) =~= Seq::empty());
    block_of("looks_hide", inputs, fields, false)
}

/// A stack of one `looks_gotofrontback` block.
///
/// Accepts:
/// - "front"
/// - "back"
pub fn go_to_layer(layer: Bfb) -> (s: StackBuilder)
    ensures
        is_block(s, "looks_gotofrontback"@, Seq::empty(), seq![("FRONT_BACK"@, layer)], false),
{
    let inputs: Vec<(&'static str, Bib)> = Vec::new();
    let fields: Vec<(&'static str, Bfb)> = vec![("FRONT_BACK", layer)];
    assert(named(inputs@) =~= Seq::empty());
    assert(named(fields@) =~= seq![("FRONT_BACK"@, layer)]);
    block_of("looks_gotofrontback", inputs, fields, false)
}

/// A stack of one `looks_goforwardbackwardlayers` block.
///
/// `layer` Accepts:
/// - "foward"
/// - "backward"
pub fn change_layer(layer: Bfb, by: Bib) -> (s: StackBuilder)
    ensures
        is_block(s, "looks_goforwardbackwardlayers"@, seq![("NUM"@, by)], seq![("FORWARD_BACKWORD"@, layer)], false),
{
    let inputs: Vec<(&'static str, Bib)> = vec![("NUM", by)];
    let fields: Vec<(&'static str, Bfb)> = vec![("FORWARD_BACKWORD", layer)];
    assert(named(inputs@) =~= seq![("NUM"@, by)]);
    assert(named(fields@) =~= seq![("FORWARD_BACKWORD"@, layer)]);
    block_of("looks_goforwardbackwardlayers", inputs, fields, false)
}

/// A stack of one `looks_costumenumbername` block.
///
/// Accepts:
/// - "number"
/// - "name"
pub fn costume(return_type: Bfb) -> (s: StackBuilder)
    ensures
        is_block(s, "looks_costumenumbername"@, Seq::empty(), seq![("NUMBER_NAME"@, return_type)], false),
{
    let inputs: Vec<(&'static str, Bib)> = Vec::new();
    let fields: Vec<(&'static str, Bfb)> = vec![("NUMBER_NAME", return_type)];
    assert(named(inputs@) =~= Seq::empty());
    assert(named(fields@) =~= seq![("NUMBER_NAME"@, return_type)]);
    block_of("looks_costumenumbername", inputs, fields, false)
}

/// A stack of one `looks_backdropnumbername` block.
///
/// Accepts:
/// - "number"
/// - "name"
pub fn backdrop(return_type: Bfb) -> (s: StackBuilder)
    ensures
        is_block(s, "looks_backdropnumbername"@, Seq::empty(), seq![("NUMBER_NAME"@, return_type)], false),
{
    let inputs: Vec<(&'static str, Bib)> = Vec::new();
    let fields: Vec<(&'static str, Bfb)> = vec![("NUMBER_NAME", return_type)];
    assert(named(inputs@) =~= Seq::empty());
    assert(named(fields@) =~= seq![("NUMBER_NAME"@, return_type)]);
    block_of("looks_backdropnumbername", inputs, fields, false)
}

/// A stack of one `looks_size` block.
pub fn size() -> (s: StackBuilder)
    ensures
        is_block(s, "looks_size"@, Seq::empty(), Seq::empty(), false),
{
    let inputs: Vec<(&'static str, Bib)> = Vec::new();
    let fields: Vec<(&'static str, Bfb)> = Vec::new();
    assert(named(inputs@) =~= Seq::empty());
    assert(named(fields@) =~= Seq::empty());
    block_of("looks_size", inputs, fields, false)
}

// Motion

/// A stack of one `motion_movesteps` block.
pub fn move_steps(steps: Bib) -> (s: StackBuilder)
    ensures
        is_block(s, "motion_movesteps"@, seq![("STEPS"@, steps)], Seq::empty(), false),
{
    let inputs: Vec<(&'static str, Bib)> = vec![("STEPS", steps)];
    let fields: Vec<(&'static str, Bfb)> = Vec::new();
    assert(named(inputs@) =~= seq![("STEPS"@, steps)]);
    assert(named(fields@) =~= Seq::empty());
    block_of("motion_movesteps", inputs, fields, false)
}

/// A stack of one `motion_turnright` block.
pub fn turn_right(degress: Bib) -> (s: StackBuilder)
    ensures
        is_block(s, "motion_turnright"@, seq![("DEGREES"@, degress)], Seq::empty(), false),
{
    let inputs: Vec<(&'static str, Bib)> = vec![("DEGREES", degress)];
    let fields: Vec<(&'static str, Bfb)> = Vec::new();
    assert(named(inputs@) =~= seq![("DEGREES"@, degress)]);
    assert(named(fields@) =~= Seq::empty());
    block_of("motion_turnright", inputs, fields, false)
}

/// A stack of one `motion_turnleft` block.
pub fn turn_left(degress: Bib) -> (s: StackBuilder)
    ensures
        is_block(s, "motion_turnleft"@, seq![("DEGREES"@, degress)], Seq::empty(), false),
{
    let inputs: Vec<(&'static str, Bib)> = vec![("DEGREES", degress)];
    let fields: Vec<(&'static str, Bfb)> = Vec::new();
    assert(named(inputs@) =~= seq![("DEGREES"@, degress)]);
    assert(named(fields@) =~= Seq::empty());
    block_of("motion_turnleft", inputs, fields, false)
}

/// A stack of one `motion_goto` block.
///
/// Accepts:
/// - Sprite name
/// - "_mouse_" go to mouse position
/// - "_random_" go to random position
pub fn go_to(to: Bib) -> (s: StackBuilder)
    ensures
        is_block(s, "motion_goto"@, seq![("TO"@, to)], Seq::empty(), false),
{
    let inputs: Vec<(&'static str, Bib)> = vec![("TO", to)];
    let fields: Vec<(&'static str, Bfb)> = Vec::new();
    assert(named(inputs@) =~= seq![("TO"@, to)]);
    assert(named(fields@) =~= Seq::empty());
    block_of("motion_goto", inputs, fields, false)
}

/// A stack of one `motion_goto_menu` block.
///
/// Uses as argument to [`goto`]
/// Accepts:
/// - Sprite name
/// - "_mouse_" go to mouse position
/// - "_random_" go to random position
pub fn go_to_menu(to: Bfb) -> (s: StackBuilder)
    ensures
        is_block(s, "motion_goto_menu"@, Seq::empty(), seq![("TO"@, to)], true),
{
    let inputs: Vec<(&'static str, Bib)> = Vec::new();
    let fields: Vec<(&'static str, Bfb)> = vec![("TO", to)];
    assert(named(inputs@) =~= Seq::empty());
    assert(named(fields@) =~= seq![("TO"@, to)]);
    block_of("motion_goto_menu", inputs, fields, true)
}

/// A stack of one `motion_gotoxy` block.
pub fn goto_xy(x: Bib, y: Bib) -> (s: StackBuilder)
    ensures
        is_block(s, "motion_gotoxy"@, seq![("X"@, x), ("Y"@, y)], Seq::empty(), false),
{
    let inputs: Vec<(&'static str, Bib)> = vec![("X", x), ("Y", y)];
    let fields: Vec<(&'static str, Bfb)> = Vec::new();
    assert(named(inputs@) =~= seq![("X"@, x), ("Y"@, y)]);
    assert(named(fields@) =~= Seq::empty());
    block_of("motion_gotoxy", inputs, fields, false)
}

/// A stack of one `motion_gotoxy` block.
///
/// Accepts:
/// - Sprite name
/// - "_mouse_" glide to mouse position
/// - "_random_" glide to random position
pub fn glide_to(duration_secs: Bib, to: Bib) -> (s: StackBuilder)
    ensures
        is_block(s, "motion_gotoxy"@, seq![("SECS"@, duration_secs), ("TO"@, to)], Seq::empty(), false),
{
    let inputs: Vec<(&'static str, Bib)> = vec![("SECS", duration_secs), ("TO", to)];
    let fields: Vec<(&'static str, Bfb)> = Vec::new();
    assert(named(inputs@) =~= seq![("SECS"@, duration_secs), ("TO"@, to)]);
    assert(named(fields@) =~= Seq::empty());
    block_of("motion_gotoxy", inputs, fields, false)
}

/// A stack of one `motion_glideto_menu` block.
///
/// Uses as an argument for [`glide_to`] in `to`
/// Accepts:
/// - Sprite name
/// - "_mouse_" glide to mouse position
/// - "_random_" glide to random position
pub fn glide_to_menu(to: Bfb) -> (s: StackBuilder)
    ensures
        is_block(s, "motion_glideto_menu"@, Seq::empty(), seq![("TO"@, to)], true),
{
    let inputs: Vec<(&'static str, Bib)> = Vec::new();
    let fields: Vec<(&'static str, Bfb)> = vec![("TO", to)];
    assert(named(inputs@) =~= Seq::empty());
    assert(named(fields@) =~= seq![("TO"@, to)]);
    block_of("motion_glideto_menu", inputs, fields, true)
}

/// A stack of one `motion_glidesecstoxy` block.
pub fn glide_to_xy(dur: Bib, x: Bib, y: Bib) -> (s: StackBuilder)
    ensures
        is_block(s, "motion_glidesecstoxy"@, seq![("SECS"@, dur), ("X"@, x), ("Y"@, y)], Seq::empty(), false),
{
    let inputs: Vec<(&'static str, Bib)> = vec![("SECS", dur), ("X", x), ("Y", y)];
    let fields: Vec<(&'static str, Bfb)> = Vec::new();
    assert(named(inputs@) =~= seq![("SECS"@, dur), ("X"@, x), ("Y"@, y)]);
    assert(named(fields@) =~= Seq::empty());
    block_of("motion_glidesecstoxy", inputs, fields, false)
}

/// A stack of one `motion_pointindirection` block.
pub fn point_in_direction(direction: Bib) -> (s: StackBuilder)
    ensures
        is_block(s, "motion_pointindirection"@, seq![("DIRECTION"@, direction)], Seq::empty(), false),
{
    let inputs: Vec<(&'static str, Bib)> = vec![("DIRECTION", direction)];
    let fields: Vec<(&'static str, Bfb)> = Vec::new();
    assert(named(inputs@) =~= seq![("DIRECTION"@, direction)]);
    assert(named(fields@) =~= Seq::empty());
    block_of("motion_pointindirection", inputs, fields, false)
}

/// A stack of one `motion_pointtowards` block.
///
/// Accepts:
/// - Sprite name
/// - "_mouse_" glide to mouse position
pub fn point_towards(towards: Bib) -> (s: StackBuilder)
    ensures
        is_block(s, "motion_pointtowards"@, seq![("TOWARDS"@, towards)], Seq::empty(), false),
{
    let inputs: Vec<(&'static str, Bib)> = vec![("TOWARDS", towards)];
    let fields: Vec<(&'static str, Bfb)> = Vec::new();
    assert(named(inputs@) =~= seq![("TOWARDS"@, towards)]);
    assert(named(fields@) =~= Seq::empty());
    block_of("motion_pointtowards", inputs, fields, false)
}

/// A stack of one `motion_pointtowards_menu` block.
///
/// Uses as an argument for [`point_towards`]
/// Accepts:
/// - Sprite name
/// - "_mouse_" glide to mouse position
pub fn point_towards_menu(towards: Bfb) -> (s: StackBuilder)
    ensures
        is_block(s, "motion_pointtowards_menu"@, Seq::empty(), seq![("TOWARDS"@, towards)], true),
{
    let inputs: Vec<(&'static str, Bib)> = Vec::new();
    let fields: Vec<(&'static str, Bfb)> = vec![("TOWARDS", towards)];
    assert(named(inputs@) =~= Seq::empty());
    assert(named(fields@) =~= seq![("TOWARDS"@, towards)]);
    block_of("motion_pointtowards_menu", inputs, fields, true)
}

/// A stack of one `motion_setx` block.
pub fn set_x(x: Bib) -> (s: StackBuilder)
    ensures
        is_block(s, "motion_setx"@, seq![("X"@, x)], Seq::empty(), false),
{
    let inputs: Vec<(&'static str, Bib)> = vec![("X", x)];
    let fields: Vec<(&'static str, Bfb)> = Vec::new();
    assert(named(inputs@) =~= seq![("X"@, x)]);
    assert(named(fields@) =~= Seq::empty());
    block_of("motion_setx", inputs, fields, false)
}

/// A stack of one `motion_setx` block.
pub fn set_y(y: Bib) -> (s: StackBuilder)
    ensures
        is_block(s, "motion_setx"@, seq![("Y"@, y)], Seq::empty(), false),
{
    let inputs: Vec<(&'static str, Bib)> = vec![("Y", y)];
    let fields: Vec<(&'static str, Bfb)> = Vec::new();
    assert(named(inputs@) =~= seq![("Y"@, y)]);
    assert(named(fields@) =~= Seq::empty());
    block_of("motion_setx", inputs, fields, false)
}

/// A stack of one `motion_changexby` block.
pub fn change_x_by(by: Bib) -> (s: StackBuilder)
    ensures
        is_block(s, "motion_changexby"@, seq![("DX"@, by)], Seq::empty(), false),
{
    let inputs: Vec<(&'static str, Bib)> = vec![("DX", by)];
    let fields: Vec<(&'static str, Bfb)> = Vec::new();
    assert(named(inputs@) =~= seq![("DX"@, by)]);
    assert(named(fields@) =~= Seq::empty());
    block_of("motion_changexby", inputs, fields, false)
}

/// A stack of one `motion_changeyby` block.
pub fn change_y_by(by: Bib) -> (s: StackBuilder)
    ensures
        is_block(s, "motion_changeyby"@, seq![("DY"@, by)], Seq::empty(), false),
{
    let inputs: Vec<(&'static str, Bib)> = vec![("DY", by)];
    let fields: Vec<(&'static str, Bfb)> = Vec::new();
    assert(named(inputs@) =~= seq![("DY"@, by)]);
    assert(named(fields@) =~= Seq::empty());
    block_of("motion_changeyby", inputs, fields, false)
}

/// A stack of one `motion_ifonedgebounce` block.
pub fn if_on_edge_bounce() -> (s: StackBuilder)
    ensures
        is_block(s, "motion_ifonedgebounce"@, Seq::empty(), Seq::empty(), false),
{
    let inputs: Vec<(&'static str, Bib)> = Vec::new();
    let fields: Vec<(&'static str, Bfb)> = Vec::new();
    assert(named(inputs@) =~= Seq::empty());
    assert(named(fields@) =~= Seq::empty());
    block_of("motion_ifonedgebounce", inputs, fields, false)
}

/// A stack of one `motion_setrotationstyle` block.
///
/// Accepts:
/// - "left-right"
/// - "don't rotate"
/// - "all around"
pub fn set_rotation_style(style: Bfb) -> (s: StackBuilder)
    ensures
        is_block(s, "motion_setrotationstyle"@, Seq::empty(), seq![("STYLE"@, style)], false),
{
    let inputs: Vec<(&'static str, Bib)> = Vec::new();
    let fields: Vec<(&'static str, Bfb)> = vec![("STYLE", style)];
    assert(named(inputs@) =~= Seq::empty());
    assert(named(fields@) =~= seq![("STYLE"@, style)]);
    block_of("motion_setrotationstyle", inputs, fields, false)
}

/// A stack of one `motion_direction` block.
pub fn direction() -> (s: StackBuilder)
    ensures
        is_block(s, "motion_direction"@, Seq::empty(), Seq::empty(), false),
{
    let inputs: Vec<(&'static str, Bib)> = Vec::new();
    let fields: Vec<(&'static str, Bfb)> = Vec::new();
    assert(named(inputs@) =~= Seq::empty());
    assert(named(fields@) =~= Seq::empty());
    block_of("motion_direction", inputs, fields, false)
}

/// A stack of one `motion_yposition` block.
pub fn y_position() -> (s: StackBuilder)
    ensures
        is_block(s, "motion_yposition"@, Seq::empty(), Seq::empty(), false),
{
    let inputs: Vec<(&'static str, Bib)> = Vec::new();
    let fields: Vec<(&'static str, Bfb)> = Vec::new();
    assert(named(inputs@) =~= Seq::empty());
    assert(named(fields@) =~= Seq::empty());
    block_of("motion_yposition", inputs, fields, false)
}

/// A stack of one `motion_xposition` block.
pub fn x_position() -> (s: StackBuilder)
    ensures
        is_block(s, "motion_xposition"@, Seq::empty(), Seq::empty(), false),
{
    let inputs: Vec<(&'static str, Bib)> = Vec::new();
    let fields: Vec<(&'static str, Bfb)> = Vec::new();
    assert(named(inputs@) =~= Seq::empty());
    assert(named(fields@) =~= Seq::empty());
    block_of("motion_xposition", inputs, fields, false)
}

// Operators

/// A stack of one `operator_add` block.
pub fn add(lhs: Bib, rhs: Bib) -> (s: StackBuilder)
    ensures
        is_block(s, "operator_add"@, seq![("NUM1"@, lhs), ("NUM2"@, rhs)], Seq::empty(), false),
{
    let inputs: Vec<(&'static str, Bib)> = vec![("NUM1", lhs), ("NUM2", rhs)];
    let fields: Vec<(&'static str, Bfb)> = Vec::new();
    assert(named(inputs@) =~= seq![("NUM1"@, lhs), ("NUM2"@, rhs)]);
    assert(named(fields@) =~= Seq::empty());
    block_of("operator_add", inputs, fields, false)
}

/// A stack of one `operator_subtract` block.
pub fn sub(lhs: Bib, rhs: Bib) -> (s: StackBuilder)
    ensures
        is_block(s, "operator_subtract"@, seq![("NUM1"@, lhs), ("NUM2"@, rhs)], Seq::empty(), false),
{
    let inputs: Vec<(&'static str, Bib)> = vec![("NUM1", lhs), ("NUM2", rhs)];
    let fields: Vec<(&'static str, Bfb)> = Vec::new();
    assert(named(inputs@) =~= seq![("NUM1"@, lhs), ("NUM2"@, rhs)]);
    assert(named(fields@) =~= Seq::empty());
    block_of("operator_subtract", inputs, fields, false)
}

/// A stack of one `operator_multiply` block.
pub fn mul(lhs: Bib, rhs: Bib) -> (s: StackBuilder)
    ensures
        is_block(s, "operator_multiply"@, seq![("NUM1"@, lhs), ("NUM2"@, rhs)], Seq::empty(), false),
{
    let inputs: Vec<(&'static str, Bib)> = vec![("NUM1", lhs), ("NUM2", rhs)];
    let fields: Vec<(&'static str, Bfb)> = Vec::new();
    assert(named(inputs@) =~= seq![("NUM1"@, lhs), ("NUM2"@, rhs)]);
    assert(named(fields@) =~= Seq::empty());
    block_of("operator_multiply", inputs, fields, false)
}

/// A stack of one `operator_divide` block.
pub fn div(lhs: Bib, rhs: Bib) -> (s: StackBuilder)
    ensures
        is_block(s, "operator_divide"@, seq![("NUM1"@, lhs), ("NUM2"@, rhs)], Seq::empty(), false),
{
    let inputs: Vec<(&'static str, Bib)> = vec![("NUM1", lhs), ("NUM2", rhs)];
    let fields: Vec<(&'static str, Bfb)> = Vec::new();
    assert(named(inputs@) =~= seq![("NUM1"@, lhs), ("NUM2"@, rhs)]);
    assert(named(fields@) =~= Seq::empty());
    block_of("operator_divide", inputs, fields, false)
}

/// A stack of one `operator_random` block.
pub fn random(from: Bib, to: Bib) -> (s: StackBuilder)
    ensures
        is_block(s, "operator_random"@, seq![("FROM"@, from), ("TO"@, to)], Seq::empty(), false),
{
    let inputs: Vec<(&'static str, Bib)> = vec![("FROM", from), ("TO", to)];
    let fields: Vec<(&'static str, Bfb)> = Vec::new();
    assert(named(inputs@) =~= seq![("FROM"@, from), ("TO"@, to)]);
    assert(named(fields@) =~= Seq::empty());
    block_of("operator_random", inputs, fields, false)
}

/// A stack of one `operator_lt` block.
pub fn less_than(lhs: Bib, rhs: Bib) -> (s: StackBuilder)
    ensures
        is_block(s, "operator_lt"@, seq![("OPERAND1"@, lhs), ("OPERAND2"@, rhs)], Seq::empty(), false),
{
    let inputs: Vec<(&'static str, Bib)> = vec![("OPERAND1", lhs), ("OPERAND2", rhs)];
    let fields: Vec<(&'static str, Bfb)> = Vec::new();
    assert(named(inputs@) =~= seq![("OPERAND1"@, lhs), ("OPERAND2"@, rhs)]);
    assert(named(fields@) =~= Seq::empty());
    block_of("operator_lt", inputs, fields, false)
}

/// A stack of one `operator_gt` block.
pub fn greater_than(lhs: Bib, rhs: Bib) -> (s: StackBuilder)
    ensures
        is_block(s, "operator_gt"@, seq![("OPERAND1"@, lhs), ("OPERAND2"@, rhs)], Seq::empty(), false),
{
    let inputs: Vec<(&'static str, Bib)> = vec![("OPERAND1", lhs), ("OPERAND2", rhs)];
    let fields: Vec<(&'static str, Bfb)> = Vec::new();
    assert(named(inputs@) =~= seq![("OPERAND1"@, lhs), ("OPERAND2"@, rhs)]);
    assert(named(fields@) =~= Seq::empty());
    block_of("operator_gt", inputs, fields, false)
}

/// A stack of one `operator_equals` block.
pub fn equals(lhs: Bib, rhs: Bib) -> (s: StackBuilder)
    ensures
        is_block(s, "operator_equals"@, seq![("OPERAND1"@, lhs), ("OPERAND2"@, rhs)], Seq::empty(), false),
{
    let inputs: Vec<(&'static str, Bib)> = vec![("OPERAND1", lhs), ("OPERAND2", rhs)];
    let fields: Vec<(&'static str, Bfb)> = Vec::new();
    assert(named(inputs@) =~= seq![("OPERAND1"@, lhs), ("OPERAND2"@, rhs)]);
    assert(named(fields@) =~= Seq::empty());
    block_of("operator_equals", inputs, fields, false)
}

/// A stack of one `operator_and` block.
pub fn and(a: Bib, b: Bib) -> (s: StackBuilder)
    ensures
        is_block(s, "operator_and"@, seq![("OPERAND1"@, a), ("OPERAND2"@, b)], Seq::empty(), false),
{
    let inputs: Vec<(&'static str, Bib)> = vec![("OPERAND1", a), ("OPERAND2", b)];
    let fields: Vec<(&'static str, Bfb)> = Vec::new();
    assert(named(inputs@) =~= seq![("OPERAND1"@, a), ("OPERAND2"@, b)]);
    assert(named(fields@) =~= Seq::empty());
    block_of("operator_and", inputs, fields, false)
}

/// A stack of one `operator_or` block.
pub fn or(a: Bib, b: Bib) -> (s: StackBuilder)
    ensures
        is_block(s, "operator_or"@, seq![("OPERAND1"@, a), ("OPERAND2"@, b)], Seq::empty(), false),
{
    let inputs: Vec<(&'static str, Bib)> = vec![("OPERAND1", a), ("OPERAND2", b)];
    let fields: Vec<(&'static str, Bfb)> = Vec::new();
    assert(named(inputs@) =~= seq![("OPERAND1"@, a), ("OPERAND2"@, b)]);
    assert(named(fields@) =~= Seq::empty());
    block_of("operator_or", inputs, fields, false)
}

/// A stack of one `operator_or` block.
pub fn not(val: Bib) -> (s: StackBuilder)
    ensures
        is_block(s, "operator_or"@, seq![("OPERAND"@, val)], Seq::empty(), false),
{
    let inputs: Vec<(&'static str, Bib)> = vec![("OPERAND", val)];
    let fields: Vec<(&'static str, Bfb)> = Vec::new();
    assert(named(inputs@) =~= seq![("OPERAND"@, val)]);
    assert(named(fields@) =~= Seq::empty());
    block_of("operator_or", inputs, fields, false)
}

/// A stack of one `operator_join` block.
pub fn join(a: Bib, b: Bib) -> (s: StackBuilder)
    ensures
        is_block(s, "operator_join"@, seq![("STRING1"@, a), ("STRING2"@, b)], Seq::empty(), false),
{
    let inputs: Vec<(&'static str, Bib)> = vec![("STRING1", a), ("STRING2", b)];
    let fields: Vec<(&'static str, Bfb)> = Vec::new();
    assert(named(inputs@) =~= seq![("STRING1"@, a), ("STRING2"@, b)]);
    assert(named(fields@) =~= Seq::empty());
    block_of("operator_join", inputs, fields, false)
}

/// A stack of one `operator_letter_of` block.
pub fn letter_of(idx: Bib, text: Bib) -> (s: StackBuilder)
    ensures
        is_block(s, "operator_letter_of"@, seq![("LETTER"@, idx), ("STRING"@, text)], Seq::empty(), false),
{
    let inputs: Vec<(&'static str, Bib)> = vec![("LETTER", idx), ("STRING", text)];
    let fields: Vec<(&'static str, Bfb)> = Vec::new();
    assert(named(inputs@) =~= seq![("LETTER"@, idx), ("STRING"@, text)]);
    assert(named(fields@) =~= Seq::empty());
    block_of("operator_letter_of", inputs, fields, false)
}

/// A stack of one `operator_length` block.
pub fn length_of(text: Bib) -> (s: StackBuilder)
    ensures
        is_block(s, "operator_length"@, seq![("STRING"@, text)], Seq::empty(), false),
{
    let inputs: Vec<(&'static str, Bib)> = vec![("STRING", text)];
    let fields: Vec<(&'static str, Bfb)> = Vec::new();
    assert(named(inputs@) =~= seq![("STRING"@, text)]);
    assert(named(fields@) =~= Seq::empty());
    block_of("operator_length", inputs, fields, false)
}

/// A stack of one `operator_contains` block.
pub fn contains(text: Bib, part: Bib) -> (s: StackBuilder)
    ensures
        is_block(s, "operator_contains"@, seq![("STRING1"@, text), ("STRING2"@, part)], Seq::empty(), false),
{
    let inputs: Vec<(&'static str, Bib)> = vec![("STRING1", text), ("STRING2", part)];
    let fields: Vec<(&'static str, Bfb)> = Vec::new();
    assert(named(inputs@) =~= seq![("STRING1"@, text), ("STRING2"@, part)]);
    assert(named(fields@) =~= Seq::empty());
    block_of("operator_contains", inputs, fields, false)
}

/// A stack of one `operator_mod` block.
pub fn modulo(dividend: Bib, divisor: Bib) -> (s: StackBuilder)
    ensures
        is_block(s, "operator_mod"@, seq![("NUM1"@, dividend), ("NUM2"@, divisor)], Seq::empty(), false),
{
    let inputs: Vec<(&'static str, Bib)> = vec![("NUM1", dividend), ("NUM2", divisor)];
    let fields: Vec<(&'static str, Bfb)> = Vec::new();
    assert(named(inputs@) =~= seq![("NUM1"@, dividend), ("NUM2"@, divisor)]);
    assert(named(fields@) =~= Seq::empty());
    block_of("operator_mod", inputs, fields, false)
}

/// A stack of one `operator_round` block.
pub fn round(val: Bib) -> (s: StackBuilder)
    ensures
        is_block(s, "operator_round"@, seq![("NUM"@, val)], Seq::empty(), false),
{
    let inputs: Vec<(&'static str, Bib)> = vec![("NUM", val)];
    let fields: Vec<(&'static str, Bfb)> = Vec::new();
    assert(named(inputs@) =~= seq![("NUM"@, val)]);
    assert(named(fields@) =~= Seq::empty());
    block_of("operator_round", inputs, fields, false)
}

/// A stack of one `operator_mathop` block.
///
/// `op` Accepts:
/// - "abs"
/// - "floor"
/// - "ceiling"
/// - "sqrt"
/// - "sin"
/// - "cos"
/// - "tan"
/// - "asin"
/// - "acos"
/// - "atan"
/// - "ln"
/// - "log"
/// - "e ^"
/// - "10 ^"
pub fn math_op(op: Bfb, val: Bib) -> (s: StackBuilder)
    ensures
        is_block(s, "operator_mathop"@, seq![("NUM"@, val)], seq![("OPERATOR"@, op)], false),
{
    let inputs: Vec<(&'static str, Bib)> = vec![("NUM", val)];
    let fields: Vec<(&'static str, Bfb)> = vec![("OPERATOR", op)];
    assert(named(inputs@) =~= seq![("NUM"@, val)]);
    assert(named(fields@) =~= seq![("OPERATOR"@, op)]);
    block_of("operator_mathop", inputs, fields, false)
}

// Sensing

/// A stack of one `sensing_touchingobject` block.
///
/// Accepts:
/// - Sprite name
/// - "_mouse_"
/// - "_edge_"
pub fn touching(what: Bib) -> (s: StackBuilder)
    ensures
        is_block(s, "sensing_touchingobject"@, seq![("TOUCHINGOBJECTMENU"@, what)], Seq::empty(), false),
{
    let inputs: Vec<(&'static str, Bib)> = vec![("TOUCHINGOBJECTMENU", what)];
    let fields: Vec<(&'static str, Bfb)> = Vec::new();
    assert(named(inputs@) =~= seq![("TOUCHINGOBJECTMENU"@, what)]);
    assert(named(fields@) =~= Seq::empty());
    block_of("sensing_touchingobject", inputs, fields, false)
}

/// A stack of one `sensing_touchingobjectmenu` block.
///
/// Uses as argument to [`touching`]
/// Accepts:
/// - Sprite name
/// - "_mouse_"
/// - "_edge_"
pub fn touching_menu(what: Bfb) -> (s: StackBuilder)
    ensures
        is_block(s, "sensing_touchingobjectmenu"@, Seq::empty(), seq![("TOUCHINGOBJECTMENU"@, what)], true),
{
    let inputs: Vec<(&'static str, Bib)> = Vec::new();
    let fields: Vec<(&'static str, Bfb)> = vec![("TOUCHINGOBJECTMENU", what)];
    assert(named(inputs@) =~= Seq::empty());
    assert(named(fields@) =~= seq![("TOUCHINGOBJECTMENU"@, what)]);
    block_of("sensing_touchingobjectmenu", inputs, fields, true)
}

/// A stack of one `sensing_touchingcolor` block.
pub fn touching_color(color: Bib) -> (s: StackBuilder)
    ensures
        is_block(s, "sensing_touchingcolor"@, seq![("COLOR"@, color)], Seq::empty(), false),
{
    let inputs: Vec<(&'static str, Bib)> = vec![("COLOR", color)];
    let fields: Vec<(&'static str, Bfb)> = Vec::new();
    assert(named(inputs@) =~= seq![("COLOR"@, color)]);
    assert(named(fields@) =~= Seq::empty());
    block_of("sensing_touchingcolor", inputs, fields, false)
}

/// A stack of one `sensing_coloristouchingcolor` block.
pub fn color_touching_color(color_a: Bib, color_b: Bib) -> (s: StackBuilder)
    ensures
        is_block(s, "sensing_coloristouchingcolor"@, seq![("COLOR"@, color_a), ("COLOR2"@, color_b)], Seq::empty(), false),
{
    let inputs: Vec<(&'static str, Bib)> = vec![("COLOR", color_a), ("COLOR2", color_b)];
    let fields: Vec<(&'static str, Bfb)> = Vec::new();
    assert(named(inputs@) =~= seq![("COLOR"@, color_a), ("COLOR2"@, color_b)]);
    assert(named(fields@) =~= Seq::empty());
    block_of("sensing_coloristouchingcolor", inputs, fields, false)
}

/// A stack of one `sensing_coloristouchingcolor` block.
///
/// Accepts:
/// - Sprite name
/// - "_mouse_"
pub fn distance_to(what: Bib) -> (s: StackBuilder)
    ensures
        is_block(s, "sensing_coloristouchingcolor"@, seq![("DISTANCETOMENU"@, what)], Seq::empty(), false),
{
    let inputs: Vec<(&'static str, Bib)> = vec![("DISTANCETOMENU", what)];
    let fields: Vec<(&'static str, Bfb)> = Vec::new();
    assert(named(inputs@) =~= seq![("DISTANCETOMENU"@, what)]);
    assert(named(fields@) =~= Seq::empty());
    block_of("sensing_coloristouchingcolor", inputs, fields, false)
}

/// A stack of one `sensing_coloristouchingcolor` block.
///
/// Uses as argument to [`distance_to`]
/// Accepts:
/// - Sprite name
/// - "_mouse_"
pub fn distance_to_menu(what: Bfb) -> (s: StackBuilder)
    ensures
        is_block(s, "sensing_coloristouchingcolor"@, Seq::empty(), seq![("DISTANCETOMENU"@, what)], true),
{
    let inputs: Vec<(&'static str, Bib)> = Vec::new();
    let fields: Vec<(&'static str, Bfb)> = vec![("DISTANCETOMENU", what)];
    assert(named(inputs@) =~= Seq::empty());
    assert(named(fields@) =~= seq![("DISTANCETOMENU"@, what)]);
    block_of("sensing_coloristouchingcolor", inputs, fields, true)
}

/// A stack of one `sensing_askandwait` block.
pub fn ask_and_wait(prompt_message: Bib) -> (s: StackBuilder)
    ensures
        is_block(s, "sensing_askandwait"@, seq![("QUESTION"@, prompt_message)], Seq::empty(), false),
{
    let inputs: Vec<(&'static str, Bib)> = vec![("QUESTION", prompt_message)];
    let fields: Vec<(&'static str, Bfb)> = Vec::new();
    assert(named(inputs@) =~= seq![("QUESTION"@, prompt_message)]);
    assert(named(fields@) =~= Seq::empty());
    block_of("sensing_askandwait", inputs, fields, false)
}

/// A stack of one `sensing_answer` block.
pub fn answer() -> (s: StackBuilder)
    ensures
        is_block(s, "sensing_answer"@, Seq::empty(), Seq::empty(), false),
{
    let inputs: Vec<(&'static str, Bib)> = Vec::new();
    let fields: Vec<(&'static str, Bfb)> = Vec::new();
    assert(named(inputs@) =~= Seq::empty());
    assert(named(fields@) =~= Seq::empty());
    block_of("sensing_answer", inputs, fields, false)
}

/// A stack of one `sensing_keypressed` block.
///
/// Accepts:
/// - "any"
/// - "space"
/// - "left arrow"
/// - "right arrow"
/// - "up arrow"
/// - "down arrow"
/// - Number 0 - 9
/// - Letter a - z
pub fn key_pressed(key: Bib) -> (s: StackBuilder)
    ensures
        is_block(s, "sensing_keypressed"@, seq![("KEY_OPTION"@, key)], Seq::empty(), false),
{
    let inputs: Vec<(&'static str, Bib)> = vec![("KEY_OPTION", key)];
    let fields: Vec<(&'static str, Bfb)> = Vec::new();
    assert(named(inputs@) =~= seq![("KEY_OPTION"@, key)]);
    assert(named(fields@) =~= Seq::empty());
    block_of("sensing_keypressed", inputs, fields, false)
}

/// A stack of one `sensing_keyoptions` block.
///
/// Uses as argument to [`key_pressed`]
/// Accepts:
/// - "any"
/// - "space"
/// - "left arrow"
/// - "right arrow"
/// - "up arrow"
/// - "down arrow"
/// - Number 0 - 9
/// - Letter a - z
pub fn key_menu(key: Bib) -> (s: StackBuilder)
    ensures
        is_block(s, "sensing_keyoptions"@, seq![("KEY_OPTION"@, key)], Seq::empty(), true),
{
    let inputs: Vec<(&'static str, Bib)> = vec![("KEY_OPTION", key)];
    let fields: Vec<(&'static str, Bfb)> = Vec::new();
    assert(named(inputs@) =~= seq![("KEY_OPTION"@, key)]);
    assert(named(fields@) =~= Seq::empty());
    block_of("sensing_keyoptions", inputs, fields, true)
}

/// A stack of one `sensing_mousedown` block.
pub fn mouse_down() -> (s: StackBuilder)
    ensures
        is_block(s, "sensing_mousedown"@, Seq::empty(), Seq::empty(), false),
{
    let inputs: Vec<(&'static str, Bib)> = Vec::new();
    let fields: Vec<(&'static str, Bfb)> = Vec::new();
    assert(named(inputs@) =~= Seq::empty());
    assert(named(fields@) =~= Seq::empty());
    block_of("sensing_mousedown", inputs, fields, false)
}

/// A stack of one `sensing_mousex` block.
pub fn mouse_x() -> (s: StackBuilder)
    ensures
        is_block(s, "sensing_mousex"@, Seq::empty(), Seq::empty(), false),
{
    let inputs: Vec<(&'static str, Bib)> = Vec::new();
    let fields: Vec<(&'static str, Bfb)> = Vec::new();
    assert(named(inputs@) =~= Seq::empty());
    assert(named(fields@) =~= Seq::empty());
    block_of("sensing_mousex", inputs, fields, false)
}

/// A stack of one `sensing_setdragmode` block.
///
/// Accepts:
/// - "not draggable"
/// - "draggable"
pub fn set_drag_mode(mode: Bfb) -> (s: StackBuilder)
    ensures
        is_block(s, "sensing_setdragmode"@, Seq::empty(), seq![("DRAG_MODE"@, mode)], false),
{
    let inputs: Vec<(&'static str, Bib)> = Vec::new();
    let fields: Vec<(&'static str, Bfb)> = vec![("DRAG_MODE", mode)];
    assert(named(inputs@) =~= Seq::empty());
    assert(named(fields@) =~= seq![("DRAG_MODE"@, mode)]);
    block_of("sensing_setdragmode", inputs, fields, false)
}

/// A stack of one `sensing_loudness` block.
pub fn loudness() -> (s: StackBuilder)
    ensures
        is_block(s, "sensing_loudness"@, Seq::empty(), Seq::empty(), false),
{
    let inputs: Vec<(&'static str, Bib)> = Vec::new();
    let fields: Vec<(&'static str, Bfb)> = Vec::new();
    assert(named(inputs@) =~= Seq::empty());
    assert(named(fields@) =~= Seq::empty());
    block_of("sensing_loudness", inputs, fields, false)
}

/// A stack of one `sensing_timer` block.
pub fn timer() -> (s: StackBuilder)
    ensures
        is_block(s, "sensing_timer"@, Seq::empty(), Seq::empty(), false),
{
    let inputs: Vec<(&'static str, Bib)> = Vec::new();
    let fields: Vec<(&'static str, Bfb)> = Vec::new();
    assert(named(inputs@) =~= Seq::empty());
    assert(named(fields@) =~= Seq::empty());
    block_of("sensing_timer", inputs, fields, false)
}

/// A stack of one `sensing_resettimer` block.
pub fn reset_timer() -> (s: StackBuilder)
    ensures
        is_block(s, "sensing_resettimer"@, Seq::empty(), Seq::empty(), false),
{
    let inputs: Vec<(&'static str, Bib)> = Vec::new();
    let fields: Vec<(&'static str, Bfb)> = Vec::new();
    assert(named(inputs@) =~= Seq::empty());
    assert(named(fields@) =~= Seq::empty());
    block_of("sensing_resettimer", inputs, fields, false)
}

/// A stack of one `sensing_of` block.
///
/// `what` Accepts:
/// - Sprite name
/// - "_stage_"
///
/// If `what` is "_stage_"
/// `var` Accepts:
/// - Stage's custom variable name
/// - "backdrop #"
/// - "backdrop name"
/// - "volume"
///
/// Else `what` is a Sprite name
/// `var` Accepts:
/// - That sprite's custome variable name
/// - "x position"
/// - "y position"
/// - "direction"
/// - "costume #"
/// - "costume name"
/// - "size"
/// - "volume"
pub fn var_of(var: Bfb, what: Bib) -> (s: StackBuilder)
    ensures
        is_block(s, "sensing_of"@, seq![("OBJECT"@, what)], seq![("PROPERTY"@, var)], false),
{
    let inputs: Vec<(&'static str, Bib)> = vec![("OBJECT", what)];
    let fields: Vec<(&'static str, Bfb)> = vec![("PROPERTY", var)];
    assert(named(inputs@) =~= seq![("OBJECT"@, what)]);
    assert(named(fields@) =~= seq![("PROPERTY"@, var)]);
    block_of("sensing_of", inputs, fields, false)
}

/// A stack of one `sensing_of_object_menu` block.
///
/// Uses as argument to [`var_of`]
/// `what` Accepts:
/// - Sprite name
/// - "_stage_"
pub fn var_of_object_menu(what: Bfb) -> (s: StackBuilder)
    ensures
        is_block(s, "sensing_of_object_menu"@, Seq::empty(), seq![("OBJECT"@, what)], true),
{
    let inputs: Vec<(&'static str, Bib)> = Vec::new();
    let fields: Vec<(&'static str, Bfb)> = vec![("OBJECT", what)];
    assert(named(inputs@) =~= Seq::empty());
    assert(named(fields@) =~= seq![("OBJECT"@, what)]);
    block_of("sensing_of_object_menu", inputs, fields, true)
}

/// A stack of one `sensing_current` block.
///
/// Accepts:
/// - "SECOND"
/// - "MINUTE"
/// - "HOUR"
/// - "DAYOFWEEK"
/// - "DATE"
/// - "MONTH"
/// - "YEAR"
pub fn current_datetime(format: Bfb) -> (s: StackBuilder)
    ensures
        is_block(s, "sensing_current"@, Seq::empty(), seq![("CURRENTMENU"@, format)], false),
{
    let inputs: Vec<(&'static str, Bib)> = Vec::new();
    let fields: Vec<(&'static str, Bfb)> = vec![("CURRENTMENU", format)];
    assert(named(inputs@) =~= Seq::empty());
    assert(named(fields@) =~= seq![("CURRENTMENU"@, format)]);
    block_of("sensing_current", inputs, fields, false)
}

/// A stack of one `sensing_dayssince2000` block.
pub fn days_since_2000() -> (s: StackBuilder)
    ensures
        is_block(s, "sensing_dayssince2000"@, Seq::empty(), Seq::empty(), false),
{
    let inputs: Vec<(&'static str, Bib)> = Vec::new();
    let fields: Vec<(&'static str, Bfb)> = Vec::new();
    assert(named(inputs@) =~= Seq::empty());
    assert(named(fields@) =~= Seq::empty());
    block_of("sensing_dayssince2000", inputs, fields, false)
}

/// A stack of one `sensing_username` block.
pub fn username() -> (s: StackBuilder)
    ensures
        is_block(s, "sensing_username"@, Seq::empty(), Seq::empty(), false),
{
    let inputs: Vec<(&'static str, Bib)> = Vec::new();
    let fields: Vec<(&'static str, Bfb)> = Vec::new();
    assert(named(inputs@) =~= Seq::empty());
    assert(named(fields@) =~= Seq::empty());
    block_of("sensing_username", inputs, fields, false)
}

// Sound

/// A stack of one `sound_playuntildone` block.
///
/// Accepts:
/// - Sound name
pub fn play_sound_until_done(sound: Bib) -> (s: StackBuilder)
    ensures
        is_block(s, "sound_playuntildone"@, seq![("SOUND_MENU"@, sound)], Seq::empty(), false),
{
    let inputs: Vec<(&'static str, Bib)> = vec![("SOUND_MENU", sound)];
    let fields: Vec<(&'static str, Bfb)> = Vec::new();
    assert(named(inputs@) =~= seq![("SOUND_MENU"@, sound)]);
    assert(named(fields@) =~= Seq::empty());
    block_of("sound_playuntildone", inputs, fields, false)
}

/// A stack of one `sound_play` block.
///
/// Accepts:
/// - Sound name
pub fn play_sound(sound: Bib) -> (s: StackBuilder)
    ensures
        is_block(s, "sound_play"@, seq![("SOUND_MENU"@, sound)], Seq::empty(), false),
{
    let inputs: Vec<(&'static str, Bib)> = vec![("SOUND_MENU", sound)];
    let fields: Vec<(&'static str, Bfb)> = Vec::new();
    assert(named(inputs@) =~= seq![("SOUND_MENU"@, sound)]);
    assert(named(fields@) =~= Seq::empty());
    block_of("sound_play", inputs, fields, false)
}

/// A stack of one `sound_sounds_menu` block.
///
/// Uses as argument to [`play_sound_until_done`] and [`play_sound`]
/// Accepts:
/// - Sound name
pub fn sound_menu(sound: Bfb) -> (s: StackBuilder)
    ensures
        is_block(s, "sound_sounds_menu"@, Seq::empty(), seq![("SOUND_MENU"@, sound)], true),
{
    let inputs: Vec<(&'static str, Bib)> = Vec::new();
    let fields: Vec<(&'static str, Bfb)> = vec![("SOUND_MENU", sound)];
    assert(named(inputs@) =~= Seq::empty());
    assert(named(fields@) =~= seq![("SOUND_MENU"@, sound)]);
    block_of("sound_sounds_menu", inputs, fields, true)
}

/// A stack of one `sound_stopallsounds` block.
pub fn stop_all_sound() -> (s: StackBuilder)
    ensures
        is_block(s, "sound_stopallsounds"@, Seq::empty(), Seq::empty(), false),
{
    let inputs: Vec<(&'static str, Bib)> = Vec::new();
    let fields: Vec<(&'static str, Bfb)> = Vec::new();
    assert(named(inputs@) =~= Seq::empty());
    assert(named(fields@) =~= Seq::empty());
    block_of("sound_stopallsounds", inputs, fields, false)
}

/// A stack of one `sound_changeeffectby` block.
///
/// Accepts:
/// - "PITCH"
/// - "PAN"
pub fn change_sound_effect_by(effect: Bfb, by: Bib) -> (s: StackBuilder)
    ensures
        is_block(s, "sound_changeeffectby"@, seq![("VALUE"@, by)], seq![("EFFECT"@, effect)], false),
{
    let inputs: Vec<(&'static str, Bib)> = vec![("VALUE", by)];
    let fields: Vec<(&'static str, Bfb)> = vec![("EFFECT", effect)];
    assert(named(inputs@) =~= seq![("VALUE"@, by)]);
    assert(named(fields@) =~= seq![("EFFECT"@, effect)]);
    block_of("sound_changeeffectby", inputs, fields, false)
}

/// A stack of one `sound_seteffectto` block.
///
/// Accepts:
/// - "PITCH"
/// - "PAN"
pub fn set_sound_effect_to(effect: Bfb, to: Bib) -> (s: StackBuilder)
    ensures
        is_block(s, "sound_seteffectto"@, seq![("VALUE"@, to)], seq![("EFFECT"@, effect)], false),
{
    let inputs: Vec<(&'static str, Bib)> = vec![("VALUE", to)];
    let fields: Vec<(&'static str, Bfb)> = vec![("EFFECT", effect)];
    assert(named(inputs@) =~= seq![("VALUE"@, to)]);
    assert(named(fields@) =~= seq![("EFFECT"@, effect)]);
    block_of("sound_seteffectto", inputs, fields, false)
}

/// A stack of one `sound_cleareffects` block.
pub fn clear_sound_effects() -> (s: StackBuilder)
    ensures
        is_block(s, "sound_cleareffects"@, Seq::empty(), Seq::empty(), false),
{
    let inputs: Vec<(&'static str, Bib)> = Vec::new();
    let fields: Vec<(&'static str, Bfb)> = Vec::new();
    assert(named(inputs@) =~= Seq::empty());
    assert(named(fields@) =~= Seq::empty());
    block_of("sound_cleareffects", inputs, fields, false)
}

/// A stack of one `sound_setvolumeto` block.
pub fn set_volume_to(volume: Bib) -> (s: StackBuilder)
    ensures
        is_block(s, "sound_setvolumeto"@, seq![("VOLUME"@, volume)], Seq::empty(), false),
{
    let inputs: Vec<(&'static str, Bib)> = vec![("VOLUME", volume)];
    let fields: Vec<(&'static str, Bfb)> = Vec::new();
    assert(named(inputs@) =~= seq![("VOLUME"@, volume)]);
    assert(named(fields@) =~= Seq::empty());
    block_of("sound_setvolumeto", inputs, fields, false)
}

/// A stack of one `sound_changeeffectby` block.
pub fn change_volume_by(by: Bib) -> (s: StackBuilder)
    ensures
        is_block(s, "sound_changeeffectby"@, seq![("VOLUME"@, by)], Seq::empty(), false),
{
    let inputs: Vec<(&'static str, Bib)> = vec![("VOLUME", by)];
    let fields: Vec<(&'static str, Bfb)> = Vec::new();
    assert(named(inputs@) =~= seq![("VOLUME"@, by)]);
    assert(named(fields@) =~= Seq::empty());
    block_of("sound_changeeffectby", inputs, fields, false)
}

/// A stack of one `sound_volume` block.
pub fn volume() -> (s: StackBuilder)
    ensures
        is_block(s, "sound_volume"@, Seq::empty(), Seq::empty(), false),
{
    let inputs: Vec<(&'static str, Bib)> = Vec::new();
    let fields: Vec<(&'static str, Bfb)> = Vec::new();
    assert(named(inputs@) =~= Seq::empty());
    assert(named(fields@) =~= Seq::empty());
    block_of("sound_volume", inputs, fields, false)
}

// Variables and lists

/// A stack of one reporter of the variable `name` of the target that owns the block.
pub fn sprite_var(name: &str) -> (s: StackBuilder)
    ensures
        is_reporter(s, ListOrVariable::Variable, VarListFrom::Sprite, name@),
{
    StackBuilder::start_varlist(BlockVarListBuilder::sprite(ListOrVariable::Variable, name))
}

/// A stack of one reporter of the list `name` of the target that owns the block.
pub fn sprite_list(name: &str) -> (s: StackBuilder)
    ensures
        is_reporter(s, ListOrVariable::List, VarListFrom::Sprite, name@),
{
    StackBuilder::start_varlist(BlockVarListBuilder::sprite(ListOrVariable::List, name))
}

/// A stack of one reporter of the variable `name` of the project.
pub fn global_var(name: &str) -> (s: StackBuilder)
    ensures
        is_reporter(s, ListOrVariable::Variable, VarListFrom::Global, name@),
{
    StackBuilder::start_varlist(BlockVarListBuilder::global(ListOrVariable::Variable, name))
}

/// A stack of one reporter of the list `name` of the project.
pub fn global_list(name: &str) -> (s: StackBuilder)
    ensures
        is_reporter(s, ListOrVariable::List, VarListFrom::Global, name@),
{
    StackBuilder::start_varlist(BlockVarListBuilder::global(ListOrVariable::List, name))
}

/// A stack of one `data_setvariableto` block.
pub fn set_var_to(var: Bfb, to: Bib) -> (s: StackBuilder)
    ensures
        is_block(s, "data_setvariableto"@, seq![("VALUE"@, to)], seq![("VARIABLE"@, var)], false),
{
    let inputs: Vec<(&'static str, Bib)> = vec![("VALUE", to)];
    let fields: Vec<(&'static str, Bfb)> = vec![("VARIABLE", var)];
    assert(named(inputs@) =~= seq![("VALUE"@, to)]);
    assert(named(fields@) =~= seq![("VARIABLE"@, var)]);
    block_of("data_setvariableto", inputs, fields, false)
}

/// A stack of one `data_changevariableby` block.
pub fn change_var_by(var: Bfb, by: Bib) -> (s: StackBuilder)
    ensures
        is_block(s, "data_changevariableby"@, seq![("VALUE"@, by)], seq![("VARIABLE"@, var)], false),
{
    let inputs: Vec<(&'static str, Bib)> = vec![("VALUE", by)];
    let fields: Vec<(&'static str, Bfb)> = vec![("VARIABLE", var)];
    assert(named(inputs@) =~= seq![("VALUE"@, by)]);
    assert(named(fields@) =~= seq![("VARIABLE"@, var)]);
    block_of("data_changevariableby", inputs, fields, false)
}

/// A stack of one `data_showvariable` block.
pub fn show_var(var: Bfb) -> (s: StackBuilder)
    ensures
        is_block(s, "data_showvariable"@, Seq::empty(), seq![("VARIABLE"@, var)], false),
{
    let inputs: Vec<(&'static str, Bib)> = Vec::new();
    let fields: Vec<(&'static str, Bfb)> = vec![("VARIABLE", var)];
    assert(named(inputs@) =~= Seq::empty());
    assert(named(fields@) =~= seq![("VARIABLE"@, var)]);
    block_of("data_showvariable", inputs, fields, false)
}

/// A stack of one `data_hidevariable` block.
pub fn hide_var(var: Bfb) -> (s: StackBuilder)
    ensures
        is_block(s, "data_hidevariable"@, Seq::empty(), seq![("VARIABLE"@, var)], false),
{
    let inputs: Vec<(&'static str, Bib)> = Vec::new();
    let fields: Vec<(&'static str, Bfb)> = vec![("VARIABLE", var)];
    assert(named(inputs@) =~= Seq::empty());
    assert(named(fields@) =~= seq![("VARIABLE"@, var)]);
    block_of("data_hidevariable", inputs, fields, false)
}

/// A stack of one `data_addtolist` block.
pub fn add_to_list(item: Bib) -> (s: StackBuilder)
    ensures
        is_block(s, "data_addtolist"@, seq![("ITEM"@, item)], Seq::empty(), false),
{
    let inputs: Vec<(&'static str, Bib)> = vec![("ITEM", item)];
    let fields: Vec<(&'static str, Bfb)> = Vec::new();
    assert(named(inputs@) =~= seq![("ITEM"@, item)]);
    assert(named(fields@) =~= Seq::empty());
    block_of("data_addtolist", inputs, fields, false)
}

/// A stack of one `data_deleteoflist` block.
pub fn delete_in_list(list: Bfb, idx: Bib) -> (s: StackBuilder)
    ensures
        is_block(s, "data_deleteoflist"@, seq![("INDEX"@, idx)], seq![("LIST"@, list)], false),
{
    let inputs: Vec<(&'static str, Bib)> = vec![("INDEX", idx)];
    let fields: Vec<(&'static str, Bfb)> = vec![("LIST", list)];
    assert(named(inputs@) =~= seq![("INDEX"@, idx)]);
    assert(named(fields@) =~= seq![("LIST"@, list)]);
    block_of("data_deleteoflist", inputs, fields, false)
}

/// A stack of one `data_deletealloflist` block.
pub fn delete_all_in_list(list: Bfb) -> (s: StackBuilder)
    ensures
        is_block(s, "data_deletealloflist"@, Seq::empty(), seq![("LIST"@, list)], false),
{
    let inputs: Vec<(&'static str, Bib)> = Vec::new();
    let fields: Vec<(&'static str, Bfb)> = vec![("LIST", list)];
    assert(named(inputs@) =~= Seq::empty());
    assert(named(fields@) =~= seq![("LIST"@, list)]);
    block_of("data_deletealloflist", inputs, fields, false)
}

/// A stack of one `data_insertatlist` block.
pub fn insert_in_list(list: Bfb, idx: Bib, item: Bib) -> (s: StackBuilder)
    ensures
        is_block(s, "data_insertatlist"@, seq![("INDEX"@, idx), ("ITEM"@, item)], seq![("LIST"@, list)], false),
{
    let inputs: Vec<(&'static str, Bib)> = vec![("INDEX", idx), ("ITEM", item)];
    let fields: Vec<(&'static str, Bfb)> = vec![("LIST", list)];
    assert(named(inputs@) =~= seq![("INDEX"@, idx), ("ITEM"@, item)]);
    assert(named(fields@) =~= seq![("LIST"@, list)]);
    block_of("data_insertatlist", inputs, fields, false)
}

/// A stack of one `data_replaceitemoflist` block.
pub fn replace_in_list(list: Bfb, idx: Bib, item: Bib) -> (s: StackBuilder)
    ensures
        is_block(s, "data_replaceitemoflist"@, seq![("INDEX"@, idx), ("ITEM"@, item)], seq![("LIST"@, list)], false),
{
    let inputs: Vec<(&'static str, Bib)> = vec![("INDEX", idx), ("ITEM", item)];
    let fields: Vec<(&'static str, Bfb)> = vec![("LIST", list)];
    assert(named(inputs@) =~= seq![("INDEX"@, idx), ("ITEM"@, item)]);
    assert(named(fields@) =~= seq![("LIST"@, list)]);
    block_of("data_replaceitemoflist", inputs, fields, false)
}

/// A stack of one `data_itemoflist` block.
pub fn item_in_list(list: Bfb, idx: Bib) -> (s: StackBuilder)
    ensures
        is_block(s, "data_itemoflist"@, seq![("INDEX"@, idx)], seq![("LIST"@, list)], false),
{
    let inputs: Vec<(&'static str, Bib)> = vec![("INDEX", idx)];
    let fields: Vec<(&'static str, Bfb)> = vec![("LIST", list)];
    assert(named(inputs@) =~= seq![("INDEX"@, idx)]);
    assert(named(fields@) =~= seq![("LIST"@, list)]);
    block_of("data_itemoflist", inputs, fields, false)
}

/// A stack of one `data_itemoflist` block.
pub fn count_of_item_in_list(list: Bfb, item: Bib) -> (s: StackBuilder)
    ensures
        is_block(s, "data_itemoflist"@, seq![("ITEM"@, item)], seq![("LIST"@, list)], false),
{
    let inputs: Vec<(&'static str, Bib)> = vec![("ITEM", item)];
    let fields: Vec<(&'static str, Bfb)> = vec![("LIST", list)];
    assert(named(inputs@) =~= seq![("ITEM"@, item)]);
    assert(named(fields@) =~= seq![("LIST"@, list)]);
    block_of("data_itemoflist", inputs, fields, false)
}

/// A stack of one `data_lengthoflist` block.
pub fn length_of_list(list: Bfb) -> (s: StackBuilder)
    ensures
        is_block(s, "data_lengthoflist"@, Seq::empty(), seq![("LIST"@, list)], false),
{
    let inputs: Vec<(&'static str, Bib)> = Vec::new();
    let fields: Vec<(&'static str, Bfb)> = vec![("LIST", list)];
    assert(named(inputs@) =~= Seq::empty());
    assert(named(fields@) =~= seq![("LIST"@, list)]);
    block_of("data_lengthoflist", inputs, fields, false)
}

/// A stack of one `data_listcontainsitem` block.
pub fn list_contains(list: Bfb, item: Bib) -> (s: StackBuilder)
    ensures
        is_block(s, "data_listcontainsitem"@, seq![("ITEM"@, item)], seq![("LIST"@, list)], false),
{
    let inputs: Vec<(&'static str, Bib)> = vec![("ITEM", item)];
    let fields: Vec<(&'static str, Bfb)> = vec![("LIST", list)];
    assert(named(inputs@) =~= seq![("ITEM"@, item)]);
    assert(named(fields@) =~= seq![("LIST"@, list)]);
    block_of("data_listcontainsitem", inputs, fields, false)
}

/// A stack of one `data_showlist` block.
pub fn show_list(list: Bfb) -> (s: StackBuilder)
    ensures
        is_block(s, "data_showlist"@, Seq::empty(), seq![("LIST"@, list)], false),
{
    let inputs: Vec<(&'static str, Bib)> = Vec::new();
    let fields: Vec<(&'static str, Bfb)> = vec![("LIST", list)];
    assert(named(inputs@) =~= Seq::empty());
    assert(named(fields@) =~= seq![("LIST"@, list)]);
    block_of("data_showlist", inputs, fields, false)
}

/// A stack of one `data_hidelist` block.
pub fn hide_list(list: Bfb) -> (s: StackBuilder)
    ensures
        is_block(s, "data_hidelist"@, Seq::empty(), seq![("LIST"@, list)], false),
{
    let inputs: Vec<(&'static str, Bib)> = Vec::new();
    let fields: Vec<(&'static str, Bfb)> = vec![("LIST", list)];
    assert(named(inputs@) =~= Seq::empty());
    assert(named(fields@) =~= seq![("LIST"@, list)]);
    block_of("data_hidelist", inputs, fields, false)
}

} // verus!
