//! Blocks, their input slots and their fields.

use crate::build_context::{Category, Scope, TargetContext, VarListFrom};
use crate::comment::CommentBuilder;
use crate::engine::{
    build_normal, build_reporter, build_values, count_block, count_values,
    lemma_blocks_view_concat,
};
use crate::error::BuildError;
use crate::lowering::{
    all_generated, block_built, block_demand, generated_count, input_built, values_demand,
    LoweredBlock, LoweredValues,
};
use crate::opcode::OpCode;
use crate::schema::{
    blocks_view, Block, BlockField, BlockInput, BlockInputValue, BlockInputView, BlockMutation,
    BlockVarListReporterTop, BlockView, Comment, ListOrVariable, ShadowInputType, Value,
};
use crate::stack::StackBuilder;
use crate::table::{inserted, Table};
use crate::uid::{generate_many, Uid};
use vstd::prelude::*;

verus! {

/// What fills one place of an input slot: a value, or a stack whose first
/// block stands for the value.
#[derive(Debug, PartialEq, Eq)]
pub enum StackOrValue {
    Value(BlockInputValue),
    Stack(StackBuilder),
}

/// Describes an input slot: how it shows its values, and the values in the
/// order in which they are written out.
#[derive(Debug, PartialEq, Eq)]
pub struct BlockInputBuilder {
    pub shadow: ShadowInputType,
    pub values: Vec<Option<StackOrValue>>,
}

impl BlockInputBuilder {
    /// A slot without values.
    pub fn new() -> (b: BlockInputBuilder)
        ensures
            b.shadow == ShadowInputType::NoShadow,
            b.values@ == Seq::<Option<StackOrValue>>::empty(),
    {
        BlockInputBuilder { shadow: ShadowInputType::NoShadow, values: Vec::new() }
    }

    /// Sets how the slot shows its values.
    pub fn shadow(self, shadow: ShadowInputType) -> (b: BlockInputBuilder)
        ensures
            b == (BlockInputBuilder { shadow, ..self }),
    {
        let mut b = self;
        b.shadow = shadow;
        b
    }

    /// Adds a value after those that the slot has.
    pub fn input(self, input: Option<StackOrValue>) -> (b: BlockInputBuilder)
        ensures
            b.shadow == self.shadow,
            b.values@ == self.values@.push(input),
    {
        let mut b = self;
        b.values.push(input);
        b
    }

    /// A slot that shows one value of its own.
    pub fn value(value: BlockInputValue) -> (b: BlockInputBuilder)
        ensures
            b.shadow == ShadowInputType::Shadow,
            b.values@ == seq![Some(StackOrValue::Value(value))],
    {
        let b = BlockInputBuilder::new().shadow(ShadowInputType::Shadow).input(
            Some(StackOrValue::Value(value)),
        );
        assert(b.values@ =~= seq![Some(StackOrValue::Value(value))]);
        b
    }

    /// A slot filled by a stack.
    pub fn stack(stack: StackBuilder) -> (b: BlockInputBuilder)
        ensures
            b.shadow == ShadowInputType::NoShadow,
            b.values@ == seq![Some(StackOrValue::Stack(stack))],
    {
        let b = BlockInputBuilder::new().shadow(ShadowInputType::NoShadow).input(
            Some(StackOrValue::Stack(stack)),
        );
        assert(b.values@ =~= seq![Some(StackOrValue::Stack(stack))]);
        b
    }

    /// A slot filled by a stack that covers the slot's own value.
    pub fn stack_with_value_obscured(stack: StackBuilder, value: BlockInputValue) -> (b:
        BlockInputBuilder)
        ensures
            b.shadow == ShadowInputType::ShadowObscured,
            b.values@ == seq![Some(StackOrValue::Stack(stack)), Some(StackOrValue::Value(value))],
    {
        let b = BlockInputBuilder::new().shadow(ShadowInputType::ShadowObscured).input(
            Some(StackOrValue::Stack(stack)),
        ).input(Some(StackOrValue::Value(value)));
        assert(b.values@ =~= seq![
            Some(StackOrValue::Stack(stack)),
            Some(StackOrValue::Value(value)),
        ]);
        b
    }
}

impl BlockInputBuilder {
    /// `r` is what resolving the slot hands back for the outcome
    /// `outcome`, and `nodes_after`, `comments_after` are what it leaves of
    /// the two tables: on success the resolved slot, with the nodes of the
    /// nested stacks and the registered comments added after what was
    /// there; on failure the error, and both tables untouched.
    pub open spec fn hands_back(
        &self,
        outcome: Result<LoweredValues, BuildError>,
        r: Result<BlockInput, BuildError>,
        comments_before: Table<Comment>,
        comments_after: Table<Comment>,
        nodes_before: Table<Block>,
        nodes_after: Table<Block>,
    ) -> bool {
        match outcome {
            Ok(l) => {
                &&& r is Ok
                &&& r->Ok_0@ == (BlockInputView { shadow: self.shadow, inputs: l.values })
                &&& blocks_view(nodes_after.entries@) == blocks_view(nodes_before.entries@)
                    + l.blocks
                &&& comments_after.entries@ == comments_before.entries@ + l.comments
            },
            Err(e) => {
                &&& r is Err
                &&& r->Err_0 == e
                &&& nodes_after == nodes_before
                &&& comments_after == comments_before
            },
        }
    }

    /// The number of fresh identifiers that resolving the slot draws;
    /// `None` where the number does not fit a `usize`.
    pub fn demand(&self) -> (r: Option<usize>)
        ensures
            match r {
                Some(d) => d == values_demand(self.values, self.values.len() as nat),
                None => values_demand(self.values, self.values.len() as nat) > usize::MAX,
            },
    {
        count_values(&self.values)
    }

    /// Resolves the slot of the node `this_block_uid`, drawing fresh
    /// identifiers from `ids` in order. The nodes of the stacks nested in
    /// the slot are added to `final_stack`, their comments to
    /// `comment_buff`.
    pub fn build_with(
        &self,
        this_block_uid: &Uid,
        ids: &Vec<Uid>,
        comment_buff: &mut Table<Comment>,
        final_stack: &mut Table<Block>,
        target_context: &TargetContext,
    ) -> (r: Result<BlockInput, BuildError>)
        ensures
            self.hands_back(
                input_built(*self, *this_block_uid, ids@, target_context@),
                r,
                *old(comment_buff),
                *final(comment_buff),
                *old(final_stack),
                *final(final_stack),
            ),
    {
        let supply: usize = ids.len();
        let enough = match count_values(&self.values) {
            Some(d) => d <= supply,
            None => false,
        };
        if !enough {
            return Err(BuildError::IdentifiersExhausted);
        }
        let mut blocks: Vec<(String, Block)> = Vec::new();
        let mut comments: Vec<(String, Comment)> = Vec::new();
        match build_values(
            &self.values,
            this_block_uid,
            ids,
            0,
            target_context,
            &mut blocks,
            &mut comments,
        ) {
            Err(e) => Err(e),
            Ok((values, _)) => {
                proof {
                    lemma_blocks_view_concat(final_stack.entries@, blocks@);
                    assert(blocks_view(blocks@) =~= Seq::empty() + blocks_view(blocks@));
                }
                comment_buff.entries.append(&mut comments);
                final_stack.entries.append(&mut blocks);
                Ok(BlockInput { shadow: self.shadow, inputs: values })
            },
        }
    }

    /// Resolves the slot with fresh random identifiers: `build_with` on as
    /// many identifiers as the build draws, each with the shape of a
    /// generated one.
    pub fn build(
        &self,
        this_block_uid: &Uid,
        comment_buff: &mut Table<Comment>,
        final_stack: &mut Table<Block>,
        target_context: &TargetContext,
    ) -> (r: Result<BlockInput, BuildError>)
        ensures
            exists|ids: Seq<Uid>|
                all_generated(ids) && ids.len() == generated_count(
                    values_demand(self.values, self.values.len() as nat),
                ) && #[trigger] self.hands_back(
                    input_built(*self, *this_block_uid, ids, target_context@),
                    r,
                    *old(comment_buff),
                    *final(comment_buff),
                    *old(final_stack),
                    *final(final_stack),
                ),
    {
        let ids = match count_values(&self.values) {
            Some(d) => generate_many(d),
            None => Vec::new(),
        };
        let r = self.build_with(this_block_uid, &ids, comment_buff, final_stack, target_context);
        proof {
            assert(all_generated(ids@));
            assert(self.hands_back(
                input_built(*self, *this_block_uid, ids@, target_context@),
                r,
                *old(comment_buff),
                *comment_buff,
                *old(final_stack),
                *final_stack,
            ));
        }
        r
    }
}

impl Default for BlockInputBuilder {
    /// A slot without values.
    fn default() -> (b: BlockInputBuilder)
        ensures
            b.shadow == ShadowInputType::NoShadow,
            b.values@ == Seq::<Option<StackOrValue>>::empty(),
    {
        BlockInputBuilder::new()
    }
}

/// Whether and where the text of a field is looked up.
#[derive(Debug, Clone, Copy, PartialEq, Eq, Structural)]
pub enum FieldKind {
    /// Plain text; the field never carries an identifier.
    NoRef,
    /// Plain text in a field that can carry an identifier, and carries none.
    NoRefMaybe,
    /// The name of a broadcast.
    Broadcast,
    /// The name of a variable of the target that owns the block.
    SpriteVariable,
    /// The name of a project-wide variable.
    GlobalVariable,
    /// The name of a list of the target that owns the block.
    SpriteList,
    /// The name of a project-wide list.
    GlobalList,
}

impl Default for FieldKind {
    fn default() -> (k: FieldKind)
        ensures
            k == FieldKind::NoRefMaybe,
    {
        FieldKind::NoRefMaybe
    }
}

impl FieldKind {
    /// The tier and category in which a field of this kind is looked up;
    /// `None` for the kinds that are not looked up.
    pub open spec fn scope(self) -> Option<(VarListFrom, Category)> {
        match self {
            FieldKind::NoRef => None,
            FieldKind::NoRefMaybe => None,
            FieldKind::Broadcast => Some((VarListFrom::Global, Category::Broadcast)),
            FieldKind::SpriteVariable => Some((VarListFrom::Sprite, Category::Variable)),
            FieldKind::GlobalVariable => Some((VarListFrom::Global, Category::Variable)),
            FieldKind::SpriteList => Some((VarListFrom::Sprite, Category::List)),
            FieldKind::GlobalList => Some((VarListFrom::Global, Category::List)),
        }
    }
}

/// Describes a field: its text, and how the text is resolved.
#[derive(Debug, Clone, PartialEq, Eq)]
pub struct BlockFieldBuilder {
    pub value: String,
    pub kind: FieldKind,
}

impl BlockFieldBuilder {
    /// A field with the given text and kind.
    pub fn new_with_kind(value: String, kind: FieldKind) -> (b: BlockFieldBuilder)
        ensures
            b.value == value,
            b.kind == kind,
    {
        BlockFieldBuilder { value, kind }
    }

    /// A field with the given text that carries no identifier.
    pub fn new(value: String) -> (b: BlockFieldBuilder)
        ensures
            b.value == value,
            b.kind == FieldKind::NoRefMaybe,
    {
        BlockFieldBuilder { value, kind: FieldKind::NoRefMaybe }
    }

    /// The field that `self` resolves to in `ctx`: the text unchanged, and
    /// for a kind that is looked up the identifier found. `None` where the
    /// name is looked up and not found.
    pub open spec fn resolved(&self, ctx: Scope) -> Option<BlockField> {
        match self.kind {
            FieldKind::NoRef => Some(BlockField::NoId { value: Value::Text(self.value) }),
            FieldKind::NoRefMaybe => Some(
                BlockField::WithId { value: Value::Text(self.value), id: None },
            ),
            _ => match ctx.resolved(
                self.kind.scope().unwrap().0,
                self.kind.scope().unwrap().1,
                self.value@,
            ) {
                Some(id) => Some(
                    BlockField::WithId { value: Value::Text(self.value), id: Some(id) },
                ),
                None => None,
            },
        }
    }

    /// `r` is what resolving the field against `ctx` yields: the resolved
    /// field, or, where the name is looked up and not found, the error
    /// that names it.
    pub open spec fn is_outcome(&self, ctx: Scope, r: Result<BlockField, BuildError>)
        -> bool {
        match self.resolved(ctx) {
            Some(field) => r == Ok::<BlockField, BuildError>(field),
            None => r == Err::<BlockField, BuildError>(
                BuildError::UnresolvedReference { field: None, name: self.value },
            ),
        }
    }

    /// Resolves the field against `ctx`. A name that must be looked up and
    /// is not declared fails the build.
    pub fn build(&self, ctx: &TargetContext) -> (r: Result<BlockField, BuildError>)
        ensures
            self.is_outcome(ctx@, r),
    {
        let (from, category) = match self.kind {
            FieldKind::NoRef => {
                return Ok(BlockField::NoId { value: Value::Text(self.value.clone()) });
            },
            FieldKind::NoRefMaybe => {
                return Ok(BlockField::WithId { value: Value::Text(self.value.clone()), id: None });
            },
            FieldKind::Broadcast => (VarListFrom::Global, Category::Broadcast),
            FieldKind::SpriteVariable => (VarListFrom::Sprite, Category::Variable),
            FieldKind::GlobalVariable => (VarListFrom::Global, Category::Variable),
            FieldKind::SpriteList => (VarListFrom::Sprite, Category::List),
            FieldKind::GlobalList => (VarListFrom::Global, Category::List),
        };
        match ctx.resolve(from, category, &self.value) {
            Some(id) => Ok(
                BlockField::WithId { value: Value::Text(self.value.clone()), id: Some(id) },
            ),
            None => Err(
                BuildError::UnresolvedReference { field: None, name: self.value.clone() },
            ),
        }
    }
}

/// Describes an ordinary block.
#[derive(Debug, PartialEq, Eq)]
pub struct BlockNormalBuilder {
    pub opcode: OpCode,
    pub comment: Option<CommentBuilder>,
    pub inputs: Table<BlockInputBuilder>,
    pub fields: Table<BlockFieldBuilder>,
    pub mutation: Option<BlockMutation>,
    pub shadow: bool,
    pub x: Option<i64>,
    pub y: Option<i64>,
}

impl BlockNormalBuilder {
    /// A block that performs `opcode`, with no inputs, fields, comment or
    /// mutation, not a shadow, and without a place.
    pub fn new(opcode: &str) -> (b: BlockNormalBuilder)
        ensures
            b.opcode@ == opcode@,
            b.comment is None,
            b.inputs.entries@ == Seq::<(String, BlockInputBuilder)>::empty(),
            b.fields.entries@ == Seq::<(String, BlockFieldBuilder)>::empty(),
            b.mutation is None,
            !b.shadow,
            b.x is None,
            b.y is None,
    {
        BlockNormalBuilder {
            opcode: OpCode::new(opcode),
            comment: None,
            inputs: Table::new(),
            fields: Table::new(),
            mutation: None,
            shadow: false,
            x: None,
            y: None,
        }
    }

    /// Sets the input slot `key`. A slot set before under the same key is
    /// replaced.
    pub fn add_input(self, key: &str, block_input_builder: BlockInputBuilder) -> (b:
        BlockNormalBuilder)
        ensures
            b == (BlockNormalBuilder { inputs: b.inputs, ..self }),
            inserted(self.inputs.entries@, b.inputs.entries@, key@, block_input_builder),
            b.inputs@ == self.inputs@.insert(key@, block_input_builder),
    {
        let mut b = self;
        b.inputs.insert(key.to_owned(), block_input_builder);
        b
    }

    /// Sets the field `key`. A field set before under the same key is
    /// replaced.
    pub fn add_field(self, key: &str, block_field_builder: BlockFieldBuilder) -> (b:
        BlockNormalBuilder)
        ensures
            b == (BlockNormalBuilder { fields: b.fields, ..self }),
            inserted(self.fields.entries@, b.fields.entries@, key@, block_field_builder),
            b.fields@ == self.fields@.insert(key@, block_field_builder),
    {
        let mut b = self;
        b.fields.insert(key.to_owned(), block_field_builder);
        b
    }

    /// Sets whether the block is a shadow.
    pub fn shadow(self, is_shadow: bool) -> (b: BlockNormalBuilder)
        ensures
            b == (BlockNormalBuilder { shadow: is_shadow, ..self }),
    {
        let mut b = self;
        b.shadow = is_shadow;
        b
    }

    /// Attaches a comment.
    pub fn comment(self, comment_builder: CommentBuilder) -> (b: BlockNormalBuilder)
        ensures
            b == (BlockNormalBuilder { comment: Some(comment_builder), ..self }),
    {
        let mut b = self;
        b.comment = Some(comment_builder);
        b
    }

    /// Places the block.
    pub fn pos(self, x: i64, y: i64) -> (b: BlockNormalBuilder)
        ensures
            b == (BlockNormalBuilder { x: Some(x), y: Some(y), ..self }),
    {
        let mut b = self;
        b.x = Some(x);
        b.y = Some(y);
        b
    }

    /// Places the block, in place.
    pub fn mut_pos(&mut self, x: i64, y: i64) -> (b: &mut Self)
        ensures
            *b == (BlockNormalBuilder { x: Some(x), y: Some(y), ..*old(self) }),
            *final(self) == *final(b),
    {
        self.x = Some(x);
        self.y = Some(y);
        self
    }

    /// Sets the mutation payload.
    pub fn mutation(self, mutation: BlockMutation) -> (b: BlockNormalBuilder)
        ensures
            b == (BlockNormalBuilder { mutation: Some(mutation), ..self }),
    {
        let mut b = self;
        b.mutation = Some(mutation);
        b
    }
}

/// Describes a reporter of a variable or list.
#[derive(Debug, Clone, PartialEq, Eq)]
pub struct BlockVarListBuilder {
    pub kind: ListOrVariable,
    pub from: VarListFrom,
    pub name: String,
    pub x: i64,
    pub y: i64,
    pub comment: Option<CommentBuilder>,
}

impl BlockVarListBuilder {
    /// A reporter of the project-wide variable or list `name`.
    pub fn global(var_or_list: ListOrVariable, name: &str) -> (b: BlockVarListBuilder)
        ensures
            b.kind == var_or_list,
            b.from == VarListFrom::Global,
            b.name@ == name@,
            b.x == 0,
            b.y == 0,
            b.comment is None,
    {
        BlockVarListBuilder {
            kind: var_or_list,
            from: VarListFrom::Global,
            name: name.to_owned(),
            x: 0,
            y: 0,
            comment: None,
        }
    }

    /// A reporter of the variable or list `name` of the target that owns
    /// the block.
    pub fn sprite(var_or_list: ListOrVariable, name: &str) -> (b: BlockVarListBuilder)
        ensures
            b.kind == var_or_list,
            b.from == VarListFrom::Sprite,
            b.name@ == name@,
            b.x == 0,
            b.y == 0,
            b.comment is None,
    {
        BlockVarListBuilder {
            kind: var_or_list,
            from: VarListFrom::Sprite,
            name: name.to_owned(),
            x: 0,
            y: 0,
            comment: None,
        }
    }

    /// Attaches a comment.
    pub fn comment(self, comment: CommentBuilder) -> (b: BlockVarListBuilder)
        ensures
            b == (BlockVarListBuilder { comment: Some(comment), ..self }),
    {
        let mut b = self;
        b.comment = Some(comment);
        b
    }

    /// Places the reporter.
    pub fn pos(self, x: i64, y: i64) -> (b: BlockVarListBuilder)
        ensures
            b == (BlockVarListBuilder { x, y, ..self }),
    {
        let mut b = self;
        b.x = x;
        b.y = y;
        b
    }

    /// Places the reporter, in place.
    pub fn mut_pos(&mut self, x: i64, y: i64) -> (b: &mut Self)
        ensures
            *b == (BlockVarListBuilder { x, y, ..*old(self) }),
            *final(self) == *final(b),
    {
        self.x = x;
        self.y = y;
        self
    }

    /// The category in which the reporter's name is looked up.
    pub open spec fn category(&self) -> Category {
        match self.kind {
            ListOrVariable::Variable => Category::Variable,
            ListOrVariable::List => Category::List,
        }
    }

    /// `r` is what building the reporter hands back for the outcome
    /// `outcome`, and `after` is what it leaves of the comments `before`.
    pub open spec fn hands_back(
        outcome: Result<LoweredBlock, BuildError>,
        r: Result<BlockVarListReporterTop, BuildError>,
        before: Table<Comment>,
        after: Table<Comment>,
    ) -> bool {
        match outcome {
            Ok(l) => {
                &&& r is Ok
                &&& BlockView::VarList(r->Ok_0) == l.block
                &&& after.entries@ == before.entries@ + l.comments
            },
            Err(e) => r is Err && r->Err_0 == e && after == before,
        }
    }

    /// Builds the reporter under the identifier `my_uid`: its name is
    /// looked up in its tier, and a miss fails the build. An attached
    /// comment is registered in `comment_buff` under the first identifier
    /// of `ids`.
    pub fn build_with(
        &self,
        my_uid: &Uid,
        ids: &Vec<Uid>,
        comment_buff: &mut Table<Comment>,
        target_context: &TargetContext,
    ) -> (r: Result<BlockVarListReporterTop, BuildError>)
        ensures
            BlockVarListBuilder::hands_back(
                block_built(BlockBuilder::VarList(*self), *my_uid, ids@, target_context@),
                r,
                *old(comment_buff),
                *final(comment_buff),
            ),
    {
        if self.comment.is_some() && ids.len() == 0 {
            return Err(BuildError::IdentifiersExhausted);
        }
        let mut comments: Vec<(String, Comment)> = Vec::new();
        match build_reporter(self, my_uid, ids, 0, target_context, &mut comments) {
            Err(e) => Err(e),
            Ok((node, _)) => {
                proof {
                    assert(comments@ =~= Seq::empty() + comments@);
                }
                comment_buff.entries.append(&mut comments);
                Ok(node)
            },
        }
    }

    /// Builds the reporter with a fresh random identifier for its comment,
    /// where it has one: `build_with` on as many identifiers as the build
    /// draws, each with the shape of a generated one.
    pub fn build(
        &self,
        my_uid: &Uid,
        comment_buff: &mut Table<Comment>,
        target_context: &TargetContext,
    ) -> (r: Result<BlockVarListReporterTop, BuildError>)
        ensures
            exists|ids: Seq<Uid>|
                all_generated(ids) && ids.len() == generated_count(
                    block_demand(BlockBuilder::VarList(*self)),
                ) && #[trigger] BlockVarListBuilder::hands_back(
                    block_built(BlockBuilder::VarList(*self), *my_uid, ids, target_context@),
                    r,
                    *old(comment_buff),
                    *final(comment_buff),
                ),
    {
        let ids = if self.comment.is_some() {
            generate_many(1)
        } else {
            Vec::new()
        };
        let r = self.build_with(my_uid, &ids, comment_buff, target_context);
        proof {
            assert(all_generated(ids@));
            assert(BlockVarListBuilder::hands_back(
                block_built(BlockBuilder::VarList(*self), *my_uid, ids@, target_context@),
                r,
                *old(comment_buff),
                *comment_buff,
            ));
        }
        r
    }
}

/// Describes a block of either form.
#[derive(Debug, PartialEq, Eq)]
pub enum BlockBuilder {
    Normal(BlockNormalBuilder),
    VarList(BlockVarListBuilder),
}

impl BlockBuilder {
    /// The block placed at (`x`, `y`).
    pub open spec fn moved(self, x: i64, y: i64) -> BlockBuilder {
        match self {
            BlockBuilder::Normal(n) => BlockBuilder::Normal(
                BlockNormalBuilder { x: Some(x), y: Some(y), ..n },
            ),
            BlockBuilder::VarList(v) => BlockBuilder::VarList(BlockVarListBuilder { x, y, ..v }),
        }
    }

    /// Places the block.
    pub fn pos(self, x: i64, y: i64) -> (b: BlockBuilder)
        ensures
            b == self.moved(x, y),
    {
        match self {
            BlockBuilder::Normal(n) => BlockBuilder::Normal(n.pos(x, y)),
            BlockBuilder::VarList(v) => BlockBuilder::VarList(v.pos(x, y)),
        }
    }

    /// `r` is what building the block hands back for the outcome
    /// `outcome`, and `nodes_after`, `comments_after` are what it leaves of
    /// the two tables: on success the block's node, with the nodes of the
    /// nested stacks and the registered comments added after what was
    /// there; on failure the error, and both tables untouched.
    pub open spec fn hands_back(
        outcome: Result<LoweredBlock, BuildError>,
        r: Result<Block, BuildError>,
        comments_before: Table<Comment>,
        comments_after: Table<Comment>,
        nodes_before: Table<Block>,
        nodes_after: Table<Block>,
    ) -> bool {
        match outcome {
            Ok(l) => {
                &&& r is Ok
                &&& r->Ok_0@ == l.block
                &&& blocks_view(nodes_after.entries@) == blocks_view(nodes_before.entries@)
                    + l.nested
                &&& comments_after.entries@ == comments_before.entries@ + l.comments
            },
            Err(e) => {
                &&& r is Err
                &&& r->Err_0 == e
                &&& nodes_after == nodes_before
                &&& comments_after == comments_before
            },
        }
    }

    /// The number of fresh identifiers that building the block draws;
    /// `None` where the number does not fit a `usize`.
    pub fn demand(&self) -> (r: Option<usize>)
        ensures
            match r {
                Some(d) => d == block_demand(*self),
                None => block_demand(*self) > usize::MAX,
            },
    {
        count_block(self)
    }

    /// Builds the block under the identifier `my_uid`, drawing fresh
    /// identifiers from `ids` in order. The node comes back unlinked: no
    /// parent, no successor, not top-level, no place. The nodes of the
    /// stacks nested in its inputs are added to `final_stack`, the comments
    /// to `comment_buff`.
    pub fn build_with(
        &self,
        my_uid: &Uid,
        ids: &Vec<Uid>,
        comment_buff: &mut Table<Comment>,
        final_stack: &mut Table<Block>,
        target_context: &TargetContext,
    ) -> (r: Result<Block, BuildError>)
        ensures
            BlockBuilder::hands_back(
                block_built(*self, *my_uid, ids@, target_context@),
                r,
                *old(comment_buff),
                *final(comment_buff),
                *old(final_stack),
                *final(final_stack),
            ),
    {
        let supply: usize = ids.len();
        let enough = match count_block(self) {
            Some(d) => d <= supply,
            None => false,
        };
        if !enough {
            return Err(BuildError::IdentifiersExhausted);
        }
        let mut blocks: Vec<(String, Block)> = Vec::new();
        let mut comments: Vec<(String, Comment)> = Vec::new();
        let built = match self {
            BlockBuilder::Normal(b) => {
                match build_normal(b, my_uid, ids, 0, target_context, &mut blocks, &mut comments) {
                    Err(e) => {
                        return Err(e);
                    },
                    Ok((node, _)) => Block::Normal(node),
                }
            },
            BlockBuilder::VarList(b) => {
                match build_reporter(b, my_uid, ids, 0, target_context, &mut comments) {
                    Err(e) => {
                        return Err(e);
                    },
                    Ok((node, _)) => Block::VarList(node),
                }
            },
        };
        proof {
            lemma_blocks_view_concat(final_stack.entries@, blocks@);
            assert(blocks_view(blocks@) =~= Seq::empty() + blocks_view(blocks@));
            assert(comments@ =~= Seq::empty() + comments@);
        }
        comment_buff.entries.append(&mut comments);
        final_stack.entries.append(&mut blocks);
        Ok(built)
    }

    /// Builds the block with fresh random identifiers: `build_with` on as
    /// many identifiers as the build draws, each with the shape of a
    /// generated one.
    pub fn build(
        &self,
        my_uid: &Uid,
        comment_buff: &mut Table<Comment>,
        final_stack: &mut Table<Block>,
        target_context: &TargetContext,
    ) -> (r: Result<Block, BuildError>)
        ensures
            exists|ids: Seq<Uid>|
                all_generated(ids) && ids.len() == generated_count(block_demand(*self))
                    && #[trigger] BlockBuilder::hands_back(
                    block_built(*self, *my_uid, ids, target_context@),
                    r,
                    *old(comment_buff),
                    *final(comment_buff),
                    *old(final_stack),
                    *final(final_stack),
                ),
    {
        let ids = match count_block(self) {
            Some(d) => generate_many(d),
            None => Vec::new(),
        };
        let r = self.build_with(my_uid, &ids, comment_buff, final_stack, target_context);
        proof {
            assert(all_generated(ids@));
            assert(BlockBuilder::hands_back(
                block_built(*self, *my_uid, ids@, target_context@),
                r,
                *old(comment_buff),
                *comment_buff,
                *old(final_stack),
                *final_stack,
            ));
        }
        r
    }
}

} // verus!
