//! The lowered form of a project: plain records, one per node, comment,
//! variable, list, asset and target, ready to be written out.
//!
//! Positions, sizes and other measures are whole numbers.

use crate::opcode::OpCode;
use crate::table::Table;
use crate::uid::Uid;
use vstd::prelude::*;

verus! {

/// A literal: text or a whole number.
#[derive(Debug, PartialEq, Eq)]
pub enum Value {
    Text(String),
    Number(i64),
}

impl Clone for Value {
    fn clone(&self) -> (r: Self)
        ensures
            r == *self,
    {
        match self {
            Value::Text(s) => Value::Text(s.clone()),
            Value::Number(n) => Value::Number(*n),
        }
    }
}

/// Whether a reference names a variable or a list.
#[derive(Debug, Clone, Copy, PartialEq, Eq, Structural)]
pub enum ListOrVariable {
    Variable,
    List,
}

/// How an input slot shows its values.
#[derive(Debug, Clone, Copy, PartialEq, Eq, Structural)]
pub enum ShadowInputType {
    /// One value, shown as the slot's own.
    Shadow,
    /// One value that is not the slot's own, such as a nested stack.
    NoShadow,
    /// A value that covers the slot's own value, which follows it.
    ShadowObscured,
}

/// The value of an input slot: a literal of some flavour, or a reference to
/// a broadcast, variable or list by name together with its identifier.
#[derive(Debug, PartialEq, Eq)]
pub enum BlockInputValue {
    Number { value: Value },
    PositiveNumber { value: Value },
    PositiveInteger { value: Value },
    Integer { value: Value },
    Angle { value: Value },
    Color { value: Value },
    String { value: Value },
    Broadcast { name: String, id: Uid },
    Variable { name: String, id: Uid },
    List { name: String, id: Uid },
}

impl Clone for BlockInputValue {
    fn clone(&self) -> (r: Self)
        ensures
            r == *self,
    {
        match self {
            BlockInputValue::Number { value } => BlockInputValue::Number { value: value.clone() },
            BlockInputValue::PositiveNumber { value } => BlockInputValue::PositiveNumber {
                value: value.clone(),
            },
            BlockInputValue::PositiveInteger { value } => BlockInputValue::PositiveInteger {
                value: value.clone(),
            },
            BlockInputValue::Integer { value } => BlockInputValue::Integer { value: value.clone() },
            BlockInputValue::Angle { value } => BlockInputValue::Angle { value: value.clone() },
            BlockInputValue::Color { value } => BlockInputValue::Color { value: value.clone() },
            BlockInputValue::String { value } => BlockInputValue::String { value: value.clone() },
            BlockInputValue::Broadcast { name, id } => BlockInputValue::Broadcast {
                name: name.clone(),
                id: id.clone(),
            },
            BlockInputValue::Variable { name, id } => BlockInputValue::Variable {
                name: name.clone(),
                id: id.clone(),
            },
            BlockInputValue::List { name, id } => BlockInputValue::List {
                name: name.clone(),
                id: id.clone(),
            },
        }
    }
}

/// One resolved value of an input slot: the identifier of a node, or a
/// value in place.
#[derive(Debug, Clone, PartialEq, Eq)]
pub enum UidOrValue {
    Uid(Uid),
    Value(BlockInputValue),
}

/// A resolved input slot.
#[derive(Debug, Clone, PartialEq, Eq)]
pub struct BlockInput {
    pub shadow: ShadowInputType,
    pub inputs: Vec<Option<UidOrValue>>,
}

/// What a resolved input slot holds.
pub struct BlockInputView {
    pub shadow: ShadowInputType,
    pub inputs: Seq<Option<UidOrValue>>,
}

impl View for BlockInput {
    type V = BlockInputView;

    open spec fn view(&self) -> BlockInputView {
        BlockInputView { shadow: self.shadow, inputs: self.inputs@ }
    }
}

/// A resolved field: its text, and for a field that may refer to something
/// the identifier it resolved to.
#[derive(Debug, Clone, PartialEq, Eq)]
pub enum BlockField {
    NoId { value: Value },
    WithId { value: Value, id: Option<Uid> },
}

/// Structured extra data that some operations carry.
#[derive(Debug, PartialEq, Eq)]
pub enum BlockMutationEnum {
    ProceduresPrototype {
        proccode: String,
        argumentids: String,
        argumentnames: String,
        argumentdefaults: String,
        warp: Option<bool>,
    },
    ProceduresCall { proccode: String, argumentids: String, warp: Option<bool> },
    ControlStop { hasnext: bool },
}

impl Clone for BlockMutationEnum {
    fn clone(&self) -> (r: Self)
        ensures
            r == *self,
    {
        match self {
            BlockMutationEnum::ProceduresPrototype {
                proccode,
                argumentids,
                argumentnames,
                argumentdefaults,
                warp,
            } => BlockMutationEnum::ProceduresPrototype {
                proccode: proccode.clone(),
                argumentids: argumentids.clone(),
                argumentnames: argumentnames.clone(),
                argumentdefaults: argumentdefaults.clone(),
                warp: *warp,
            },
            BlockMutationEnum::ProceduresCall { proccode, argumentids, warp } => {
                BlockMutationEnum::ProceduresCall {
                    proccode: proccode.clone(),
                    argumentids: argumentids.clone(),
                    warp: *warp,
                }
            },
            BlockMutationEnum::ControlStop { hasnext } => BlockMutationEnum::ControlStop {
                hasnext: *hasnext,
            },
        }
    }
}

/// The mutation payload of a node.
#[derive(Debug, PartialEq, Eq)]
pub struct BlockMutation {
    pub tag_name: String,
    pub mutation_enum: BlockMutationEnum,
}

impl Clone for BlockMutation {
    fn clone(&self) -> (r: Self)
        ensures
            r == *self,
    {
        BlockMutation { tag_name: self.tag_name.clone(), mutation_enum: self.mutation_enum.clone() }
    }
}

/// An ordinary node of the lowered graph.
#[derive(Debug, Clone, PartialEq, Eq)]
pub struct BlockNormal {
    pub opcode: OpCode,
    pub comment: Option<Uid>,
    pub next: Option<Uid>,
    pub parent: Option<Uid>,
    pub inputs: Table<BlockInput>,
    pub fields: Table<BlockField>,
    pub shadow: bool,
    pub top_level: bool,
    pub mutation: Option<BlockMutation>,
    pub x: Option<i64>,
    pub y: Option<i64>,
}

/// What an ordinary node holds.
pub struct BlockNormalView {
    pub opcode: OpCode,
    pub comment: Option<Uid>,
    pub next: Option<Uid>,
    pub parent: Option<Uid>,
    pub inputs: Seq<(String, BlockInputView)>,
    pub fields: Seq<(String, BlockField)>,
    pub shadow: bool,
    pub top_level: bool,
    pub mutation: Option<BlockMutation>,
    pub x: Option<i64>,
    pub y: Option<i64>,
}

/// The entries of a table of input slots, each slot by what it holds.
pub open spec fn inputs_view(entries: Seq<(String, BlockInput)>) -> Seq<(String, BlockInputView)> {
    Seq::new(entries.len(), |i: int| (entries[i].0, entries[i].1@))
}

impl View for BlockNormal {
    type V = BlockNormalView;

    open spec fn view(&self) -> BlockNormalView {
        BlockNormalView {
            opcode: self.opcode,
            comment: self.comment,
            next: self.next,
            parent: self.parent,
            inputs: inputs_view(self.inputs.entries@),
            fields: self.fields.entries@,
            shadow: self.shadow,
            top_level: self.top_level,
            mutation: self.mutation,
            x: self.x,
            y: self.y,
        }
    }
}

/// A bare reporter of a variable or list that stands on its own.
#[derive(Debug, Clone, PartialEq, Eq)]
pub struct BlockVarListReporterTop {
    pub kind: ListOrVariable,
    pub name: String,
    pub id: Uid,
    pub x: i64,
    pub y: i64,
}

/// A node of the lowered graph.
#[derive(Debug, Clone, PartialEq, Eq)]
pub enum Block {
    Normal(BlockNormal),
    VarList(BlockVarListReporterTop),
}

/// What a node holds.
pub enum BlockView {
    Normal(BlockNormalView),
    VarList(BlockVarListReporterTop),
}

impl View for Block {
    type V = BlockView;

    open spec fn view(&self) -> BlockView {
        match self {
            Block::Normal(n) => BlockView::Normal(n@),
            Block::VarList(v) => BlockView::VarList(*v),
        }
    }
}

/// The entries of a table of nodes, each node by what it holds.
pub open spec fn blocks_view(entries: Seq<(String, Block)>) -> Seq<(String, BlockView)> {
    Seq::new(entries.len(), |i: int| (entries[i].0, entries[i].1@))
}

/// A comment, free or attached to a node.
#[derive(Debug, Clone, PartialEq, Eq)]
pub struct Comment {
    pub block_id: Option<Uid>,
    pub x: Option<i64>,
    pub y: Option<i64>,
    pub width: u64,
    pub height: u64,
    pub minimized: bool,
    pub text: String,
}


/// A variable of a target.
#[derive(Debug, Clone, PartialEq, Eq)]
pub struct Variable {
    pub name: String,
    pub value: Value,
    pub is_cloud_variable: bool,
}

/// A list of a target.
#[derive(Debug, Clone, PartialEq, Eq)]
pub struct List {
    pub name: String,
    pub values: Vec<Value>,
}

/// A broadcast.
#[derive(Debug, Clone, PartialEq, Eq)]
pub struct Broadcast {
    pub name: String,
}

/// The file behind a costume or sound, named by its digest.
#[derive(Debug, Clone, PartialEq, Eq)]
pub struct Asset {
    pub asset_id: String,
    pub name: String,
    pub md5ext: Option<String>,
    pub data_format: String,
}

/// A costume or backdrop.
#[derive(Debug, Clone, PartialEq, Eq)]
pub struct Costume {
    pub rotation_center_x: i64,
    pub rotation_center_y: i64,
    pub bitmap_resolution: Option<i64>,
    pub asset: Asset,
}

/// A sound.
#[derive(Debug, Clone, PartialEq, Eq)]
pub struct Sound {
    pub rate: u64,
    pub sample_count: u64,
    pub format: Option<String>,
    pub asset: Asset,
}

/// Whether and how the stage shows the camera.
#[derive(Debug, Clone, Copy, PartialEq, Eq, Structural)]
pub enum VideoState {
    On,
    Off,
    OnFlipped,
}

/// How a sprite turns when its direction changes.
#[derive(Debug, Clone, Copy, PartialEq, Eq, Structural)]
pub enum RotationStyle {
    AllAround,
    LeftRight,
    DontRotate,
}

/// What the stage and every sprite have in common. The tables are keyed
/// by identifier.
#[derive(Debug, Clone, PartialEq, Eq)]
pub struct Target {
    pub name: String,
    pub variables: Table<Variable>,
    pub lists: Table<List>,
    pub broadcasts: Table<Broadcast>,
    pub blocks: Table<Block>,
    pub comments: Table<Comment>,
    pub current_costume: u64,
    pub costumes: Vec<Costume>,
    pub sounds: Vec<Sound>,
    pub layer_order: u64,
    pub volume: i64,
}

/// The stage.
#[derive(Debug, Clone, PartialEq, Eq)]
pub struct Stage {
    pub target: Target,
    pub tempo: i64,
    pub video_state: VideoState,
    pub video_transparency: i64,
    pub text_to_speech_language: Option<String>,
    pub is_stage: bool,
}

/// A sprite.
#[derive(Debug, Clone, PartialEq, Eq)]
pub struct Sprite {
    pub target: Target,
    pub visible: bool,
    pub x: i64,
    pub y: i64,
    pub size: i64,
    pub direction: i64,
    pub draggable: bool,
    pub rotation_style: RotationStyle,
    pub is_stage: bool,
}

/// A target of either form.
#[derive(Debug, Clone, PartialEq, Eq)]
pub enum SpriteOrStage {
    Stage(Stage),
    Sprite(Sprite),
}

/// A watcher of a value, shown on the stage.
#[derive(Debug, Clone, PartialEq, Eq)]
pub struct Monitor {
    pub id: String,
    pub mode: String,
    pub opcode: String,
    pub sprite_name: Option<String>,
    pub value: Value,
    pub width: i64,
    pub height: i64,
    pub x: i64,
    pub y: i64,
    pub visible: bool,
}

/// Which versions wrote the project.
#[derive(Debug, Clone, PartialEq, Eq)]
pub struct Meta {
    pub semver: String,
    pub vm: String,
    pub agent: String,
}

/// A whole project.
#[derive(Debug, Clone, PartialEq, Eq)]
pub struct Project {
    pub meta: Meta,
    pub extensions: Vec<String>,
    pub monitors: Vec<Monitor>,
    pub targets: Vec<SpriteOrStage>,
}

} // verus!
