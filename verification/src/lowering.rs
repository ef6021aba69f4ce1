//! What building a stack yields, as a function of the stack, the
//! identifier of its first block, the fresh identifiers that the build may
//! draw, and the names in scope.
//!
//! A build walks the stack in order. Each block but the first draws one
//! identifier for itself; each stack that fills an input slot draws one for
//! its first block; each attached comment draws one. Identifiers are drawn
//! from `ids` in the order of the walk, starting at a given position, so
//! the result is determined by the arguments.
//!
//! A lowered stack lists its nodes in the order of the walk: the nodes of
//! the stacks nested in a block's inputs, then the block's own node, then
//! the same for the next block.

use crate::block::{BlockBuilder, BlockFieldBuilder, BlockInputBuilder, StackOrValue};
use crate::build_context::Scope;
use crate::comment::CommentBuilder;
use crate::error::BuildError;
use crate::schema::{
    BlockField, BlockInputValue, BlockInputView, BlockNormalView, BlockVarListReporterTop,
    BlockView, Comment, ListOrVariable, UidOrValue,
};
use crate::stack::StackBuilder;
use crate::uid::Uid;
use vstd::prelude::*;

verus! {

/// The nodes and comments of a lowered stack.
pub struct Lowered {
    pub blocks: Seq<(String, BlockView)>,
    pub comments: Seq<(String, Comment)>,
}

/// The resolved values of an input slot, with the nodes and comments of the
/// stacks nested in it.
pub struct LoweredValues {
    pub values: Seq<Option<UidOrValue>>,
    pub blocks: Seq<(String, BlockView)>,
    pub comments: Seq<(String, Comment)>,
}

/// The resolved input slots of a block, with the nodes and comments of the
/// stacks nested in them.
pub struct LoweredInputs {
    pub inputs: Seq<(String, BlockInputView)>,
    pub blocks: Seq<(String, BlockView)>,
    pub comments: Seq<(String, Comment)>,
}

/// A lowered block, not yet linked to its neighbours, with the nodes of the
/// stacks nested in its inputs and the comments that the build registered.
pub struct LoweredBlock {
    pub block: BlockView,
    pub nested: Seq<(String, BlockView)>,
    pub comments: Seq<(String, Comment)>,
}

// ---------------------------------------------------------------------
// How many identifiers a build draws
// ---------------------------------------------------------------------

/// The number of identifiers that building `stack` draws.
pub open spec fn stack_demand(stack: StackBuilder) -> nat
    decreases stack, 0nat,
{
    chain_demand(stack.stack, stack.stack.len() as nat)
}

/// The number of identifiers that the first `n` blocks of a stack draw:
/// one for each block after the first, and what each block's own build
/// draws.
pub open spec fn chain_demand(blocks: Vec<BlockBuilder>, n: nat) -> nat
    decreases blocks, n,
{
    if n == 0 || n > blocks.len() {
        0
    } else if n == 1 {
        block_demand(blocks[0])
    } else {
        chain_demand(blocks, (n - 1) as nat) + 1 + block_demand(blocks[n - 1])
    }
}

/// The number of identifiers that building `block` draws, its own
/// identifier not counted: those of its inputs, and one for its comment.
pub open spec fn block_demand(block: BlockBuilder) -> nat
    decreases block, 0nat,
{
    match block {
        BlockBuilder::Normal(b) => inputs_demand(b.inputs.entries, b.inputs.entries.len() as nat)
            + if b.comment is Some {
            1nat
        } else {
            0nat
        },
        BlockBuilder::VarList(b) => if b.comment is Some {
            1
        } else {
            0
        },
    }
}

/// The number of identifiers that the first `n` input slots draw.
pub open spec fn inputs_demand(inputs: Vec<(String, BlockInputBuilder)>, n: nat) -> nat
    decreases inputs, n,
{
    if n == 0 || n > inputs.len() {
        0
    } else {
        inputs_demand(inputs, (n - 1) as nat) + values_demand(
            inputs[n - 1].1.values,
            inputs[n - 1].1.values.len() as nat,
        )
    }
}

/// The number of identifiers that the first `n` values of an input slot
/// draw: for each stack among them, one for its first block and what the
/// stack's build draws.
pub open spec fn values_demand(values: Vec<Option<StackOrValue>>, n: nat) -> nat
    decreases values, n,
{
    if n == 0 || n > values.len() {
        0
    } else {
        values_demand(values, (n - 1) as nat) + match values[n - 1] {
            Some(StackOrValue::Stack(s)) => 1 + stack_demand(s),
            _ => 0,
        }
    }
}

// ---------------------------------------------------------------------
// How many nodes a build yields
// ---------------------------------------------------------------------

/// The number of nodes that a successful build of `stack` yields: one for
/// each of its blocks, and those of the stacks nested in their inputs. A
/// nested stack that is a lone reporter yields none: it becomes a value.
pub open spec fn stack_nodes(stack: StackBuilder) -> nat
    decreases stack, 0nat,
{
    chain_nodes(stack.stack, stack.stack.len() as nat)
}

/// The number of nodes that the first `n` blocks of a stack yield.
pub open spec fn chain_nodes(blocks: Vec<BlockBuilder>, n: nat) -> nat
    decreases blocks, n,
{
    if n == 0 || n > blocks.len() {
        0
    } else {
        chain_nodes(blocks, (n - 1) as nat) + 1 + block_nested_nodes(blocks[n - 1])
    }
}

/// The number of nodes that the stacks nested in the inputs of `block`
/// yield.
pub open spec fn block_nested_nodes(block: BlockBuilder) -> nat
    decreases block, 0nat,
{
    match block {
        BlockBuilder::Normal(b) => inputs_nodes(b.inputs.entries, b.inputs.entries.len() as nat),
        BlockBuilder::VarList(_) => 0,
    }
}

/// The number of nodes that the stacks nested in the first `n` input slots
/// yield.
pub open spec fn inputs_nodes(inputs: Vec<(String, BlockInputBuilder)>, n: nat) -> nat
    decreases inputs, n,
{
    if n == 0 || n > inputs.len() {
        0
    } else {
        inputs_nodes(inputs, (n - 1) as nat) + values_nodes(
            inputs[n - 1].1.values,
            inputs[n - 1].1.values.len() as nat,
        )
    }
}

/// The number of nodes that the stacks among the first `n` values of an
/// input slot yield.
pub open spec fn values_nodes(values: Vec<Option<StackOrValue>>, n: nat) -> nat
    decreases values, n,
{
    if n == 0 || n > values.len() {
        0
    } else {
        values_nodes(values, (n - 1) as nat) + match values[n - 1] {
            Some(StackOrValue::Stack(s)) => if is_lone_reporter(s) {
                0
            } else {
                stack_nodes(s)
            },
            _ => 0,
        }
    }
}

/// The stack consists of a single reporter of a variable or list.
pub open spec fn is_lone_reporter(stack: StackBuilder) -> bool {
    stack.stack.len() == 1 && stack.stack[0] is VarList
}

// ---------------------------------------------------------------------
// What a build yields
// ---------------------------------------------------------------------

/// The identifier of block `i` of a stack whose first block is `first` and
/// whose build draws from `ids` starting at `at`.
pub open spec fn chain_uid(
    blocks: Vec<BlockBuilder>,
    i: nat,
    first: Uid,
    ids: Seq<Uid>,
    at: int,
) -> Uid {
    if i == 0 {
        first
    } else {
        ids[at + chain_demand(blocks, i)]
    }
}

/// The position in `ids` from which the build of block `i` of a stack
/// draws.
pub open spec fn chain_start(blocks: Vec<BlockBuilder>, i: nat, at: int) -> int {
    if i == 0 {
        at
    } else {
        at + chain_demand(blocks, i) + 1
    }
}

/// The identifier under which a block registers its comment: the one at
/// position `at` of `ids`, where the block has a comment.
pub open spec fn comment_id(comment: Option<CommentBuilder>, ids: Seq<Uid>, at: int) -> Option<
    Uid,
> {
    if comment is Some {
        Some(ids[at])
    } else {
        None
    }
}

/// The comment that the block `owner` registers: the comment that its
/// builder describes, attached to `owner`, under `comment_id`.
pub open spec fn attached_comment(
    comment: Option<CommentBuilder>,
    ids: Seq<Uid>,
    at: int,
    owner: Uid,
) -> Seq<(String, Comment)> {
    match comment {
        Some(c) => seq![(ids[at].0, Comment { block_id: Some(owner), ..c.built() })],
        None => Seq::empty(),
    }
}

/// The resolved fields of a block, in the order of `fields`; the first
/// field that does not resolve fails the build, and the error names it.
pub open spec fn lower_fields(
    fields: Seq<(String, BlockFieldBuilder)>,
    n: nat,
    ctx: Scope,
) -> Result<Seq<(String, BlockField)>, BuildError>
    decreases n,
{
    if n == 0 || n > fields.len() {
        Ok(Seq::empty())
    } else {
        match lower_fields(fields, (n - 1) as nat, ctx) {
            Err(e) => Err(e),
            Ok(sofar) => match fields[n - 1].1.resolved(ctx) {
                Some(field) => Ok(sofar.push((fields[n - 1].0, field))),
                None => Err(
                    BuildError::UnresolvedReference {
                        field: Some(fields[n - 1].0),
                        name: fields[n - 1].1.value,
                    },
                ),
            },
        }
    }
}

/// The value that a lone reporter becomes when it fills an input slot.
pub open spec fn reporter_value(reporter: BlockVarListReporterTop) -> BlockInputValue {
    match reporter.kind {
        ListOrVariable::Variable => BlockInputValue::Variable {
            name: reporter.name,
            id: reporter.id,
        },
        ListOrVariable::List => BlockInputValue::List { name: reporter.name, id: reporter.id },
    }
}

/// What building `stack` yields. `first` is the identifier of its first
/// block. `owner` is the node whose input slot the stack fills, `None` for
/// a script that stands on its own.
///
/// An empty stack fails. A lone reporter yields one reporter node at the
/// origin. Otherwise the blocks are lowered in order and chained: each node
/// names its successor in `next` and its predecessor in `parent`. The first
/// node of a script is top-level and stands at the origin; the first node
/// of a stack that fills a slot has the slot's owner as parent, is not
/// top-level and has no place. No other node has a place.
pub open spec fn lower_stack(
    stack: StackBuilder,
    first: Uid,
    owner: Option<Uid>,
    ids: Seq<Uid>,
    at: int,
    ctx: Scope,
) -> Result<Lowered, BuildError>
    decreases stack, 0nat,
{
    if stack.stack.len() == 0 {
        Err(BuildError::EmptyStack)
    } else if is_lone_reporter(stack) {
        match lower_block(stack.stack[0], first, ids, at, ctx) {
            Err(e) => Err(e),
            Ok(b) => Ok(
                Lowered {
                    blocks: seq![(first.0, at_origin(b.block))],
                    comments: b.comments,
                },
            ),
        }
    } else {
        lower_chain(stack.stack, stack.stack.len() as nat, first, owner, ids, at, ctx)
    }
}

/// A reporter node moved to the origin; an ordinary node unchanged.
pub open spec fn at_origin(block: BlockView) -> BlockView {
    match block {
        BlockView::VarList(r) => BlockView::VarList(BlockVarListReporterTop { x: 0, y: 0, ..r }),
        other => other,
    }
}

/// The node of block `i` of a chain of `len` blocks, linked to its
/// neighbours.
pub open spec fn linked(
    node: BlockNormalView,
    i: nat,
    owner: Option<Uid>,
    previous: Uid,
    next: Option<Uid>,
) -> BlockNormalView {
    BlockNormalView {
        parent: if i == 0 {
            owner
        } else {
            Some(previous)
        },
        next: next,
        top_level: i == 0 && owner is None,
        x: if i == 0 && owner is None {
            Some(0i64)
        } else {
            None
        },
        y: if i == 0 && owner is None {
            Some(0i64)
        } else {
            None
        },
        ..node
    }
}

/// What building the first `n` blocks of a stack of two or more blocks, or
/// of one ordinary block, yields. A reporter among them fails the build
/// when the walk reaches it.
pub open spec fn lower_chain(
    blocks: Vec<BlockBuilder>,
    n: nat,
    first: Uid,
    owner: Option<Uid>,
    ids: Seq<Uid>,
    at: int,
    ctx: Scope,
) -> Result<Lowered, BuildError>
    decreases blocks, n,
{
    if n == 0 || n > blocks.len() {
        Ok(Lowered { blocks: Seq::empty(), comments: Seq::empty() })
    } else {
        match lower_chain(blocks, (n - 1) as nat, first, owner, ids, at, ctx) {
            Err(e) => Err(e),
            Ok(sofar) => {
                let i = (n - 1) as nat;
                let uid = chain_uid(blocks, i, first, ids, at);
                if blocks[i as int] is VarList {
                    Err(BuildError::ChainedReporter)
                } else {
                    match lower_block(blocks[i as int], uid, ids, chain_start(blocks, i, at), ctx) {
                        Err(e) => Err(e),
                        Ok(b) => {
                            let next = if n < blocks.len() {
                                Some(chain_uid(blocks, n, first, ids, at))
                            } else {
                                None
                            };
                            let previous = chain_uid(blocks, (i - 1) as nat, first, ids, at);
                            let node = linked(b.block->Normal_0, i, owner, previous, next);
                            Ok(
                                Lowered {
                                    blocks: sofar.blocks + b.nested + seq![
                                        (uid.0, BlockView::Normal(node)),
                                    ],
                                    comments: sofar.comments + b.comments,
                                },
                            )
                        },
                    }
                }
            },
        }
    }
}

/// What building `block` under the identifier `my` yields: the node,
/// unlinked, not top-level and without a place, with its inputs and fields
/// resolved. The inputs are resolved first, then the fields; an attached
/// comment is registered last, under the next identifier drawn, and the
/// node names it.
pub open spec fn lower_block(
    block: BlockBuilder,
    my: Uid,
    ids: Seq<Uid>,
    at: int,
    ctx: Scope,
) -> Result<LoweredBlock, BuildError>
    decreases block, 0nat,
{
    match block {
        BlockBuilder::Normal(b) => {
            match lower_inputs(b.inputs.entries, b.inputs.entries.len() as nat, my, ids, at, ctx) {
                Err(e) => Err(e),
                Ok(inputs) => match lower_fields(
                    b.fields.entries@,
                    b.fields.entries@.len(),
                    ctx,
                ) {
                    Err(e) => Err(e),
                    Ok(fields) => {
                        let comment_at = at + inputs_demand(
                            b.inputs.entries,
                            b.inputs.entries.len() as nat,
                        );
                        Ok(
                            LoweredBlock {
                                block: BlockView::Normal(
                                    BlockNormalView {
                                        opcode: b.opcode,
                                        comment: comment_id(b.comment, ids, comment_at),
                                        next: None,
                                        parent: None,
                                        inputs: inputs.inputs,
                                        fields: fields,
                                        shadow: b.shadow,
                                        top_level: false,
                                        mutation: b.mutation,
                                        x: None,
                                        y: None,
                                    },
                                ),
                                nested: inputs.blocks,
                                comments: inputs.comments + attached_comment(
                                    b.comment,
                                    ids,
                                    comment_at,
                                    my,
                                ),
                            },
                        )
                    },
                },
            }
        },
        BlockBuilder::VarList(b) => match ctx.resolved(b.from, b.category(), b.name@) {
            None => Err(BuildError::UnresolvedReference { field: None, name: b.name }),
            Some(id) => Ok(
                LoweredBlock {
                    block: BlockView::VarList(
                        BlockVarListReporterTop { kind: b.kind, name: b.name, id: id, x: b.x, y: b.y },
                    ),
                    nested: Seq::empty(),
                    comments: attached_comment(b.comment, ids, at, my),
                },
            ),
        },
    }
}

/// What resolving the first `n` input slots of the node `owner` yields, in
/// the order of `inputs`.
pub open spec fn lower_inputs(
    inputs: Vec<(String, BlockInputBuilder)>,
    n: nat,
    owner: Uid,
    ids: Seq<Uid>,
    at: int,
    ctx: Scope,
) -> Result<LoweredInputs, BuildError>
    decreases inputs, n,
{
    if n == 0 || n > inputs.len() {
        Ok(LoweredInputs { inputs: Seq::empty(), blocks: Seq::empty(), comments: Seq::empty() })
    } else {
        match lower_inputs(inputs, (n - 1) as nat, owner, ids, at, ctx) {
            Err(e) => Err(e),
            Ok(sofar) => {
                let slot = inputs[n - 1].1;
                match lower_values(
                    slot.values,
                    slot.values.len() as nat,
                    owner,
                    ids,
                    at + inputs_demand(inputs, (n - 1) as nat),
                    ctx,
                ) {
                    Err(e) => Err(e),
                    Ok(v) => Ok(
                        LoweredInputs {
                            inputs: sofar.inputs.push(
                                (
                                    inputs[n - 1].0,
                                    BlockInputView { shadow: slot.shadow, inputs: v.values },
                                ),
                            ),
                            blocks: sofar.blocks + v.blocks,
                            comments: sofar.comments + v.comments,
                        },
                    ),
                }
            },
        }
    }
}

/// What resolving the first `n` values of an input slot of the node
/// `owner` yields, in the order of `values`.
///
/// A value and an absent value pass through. A stack draws an identifier
/// for its first block and is lowered with `owner` as the owner: where its
/// first node is an ordinary node, the slot refers to it by identifier and
/// the stack's nodes join the output; where the stack is a lone reporter,
/// the slot holds the reference itself, by name and identifier, and no node
/// joins the output.
pub open spec fn lower_values(
    values: Vec<Option<StackOrValue>>,
    n: nat,
    owner: Uid,
    ids: Seq<Uid>,
    at: int,
    ctx: Scope,
) -> Result<LoweredValues, BuildError>
    decreases values, n,
{
    if n == 0 || n > values.len() {
        Ok(LoweredValues { values: Seq::empty(), blocks: Seq::empty(), comments: Seq::empty() })
    } else {
        match lower_values(values, (n - 1) as nat, owner, ids, at, ctx) {
            Err(e) => Err(e),
            Ok(sofar) => {
                let here = at + values_demand(values, (n - 1) as nat);
                match values[n - 1] {
                    None => Ok(LoweredValues { values: sofar.values.push(None), ..sofar }),
                    Some(StackOrValue::Value(v)) => Ok(
                        LoweredValues {
                            values: sofar.values.push(Some(UidOrValue::Value(v))),
                            ..sofar
                        },
                    ),
                    Some(StackOrValue::Stack(s)) => match lower_stack(
                        s,
                        ids[here],
                        Some(owner),
                        ids,
                        here + 1,
                        ctx,
                    ) {
                        Err(e) => Err(e),
                        Ok(sub) => if is_lone_reporter(s) {
                            Ok(
                                LoweredValues {
                                    values: sofar.values.push(
                                        Some(
                                            UidOrValue::Value(
                                                reporter_value(sub.blocks[0].1->VarList_0),
                                            ),
                                        ),
                                    ),
                                    blocks: sofar.blocks,
                                    comments: sofar.comments + sub.comments,
                                },
                            )
                        } else {
                            Ok(
                                LoweredValues {
                                    values: sofar.values.push(Some(UidOrValue::Uid(ids[here]))),
                                    blocks: sofar.blocks + sub.blocks,
                                    comments: sofar.comments + sub.comments,
                                },
                            )
                        },
                    },
                }
            },
        }
    }
}


// ---------------------------------------------------------------------
// What the builders' `build_with` functions yield
// ---------------------------------------------------------------------

/// What building the script `stack` yields when it may draw the
/// identifiers `ids`: nothing where `ids` holds fewer than the build
/// draws, else the lowered stack, drawn from the start of `ids`.
pub open spec fn script_built(stack: StackBuilder, first: Uid, ids: Seq<Uid>, ctx: Scope)
    -> Result<Lowered, BuildError> {
    if ids.len() < stack_demand(stack) {
        Err(BuildError::IdentifiersExhausted)
    } else {
        lower_stack(stack, first, None, ids, 0, ctx)
    }
}

/// What building `block` alone yields when it may draw the identifiers
/// `ids`.
pub open spec fn block_built(block: BlockBuilder, my: Uid, ids: Seq<Uid>, ctx: Scope)
    -> Result<LoweredBlock, BuildError> {
    if ids.len() < block_demand(block) {
        Err(BuildError::IdentifiersExhausted)
    } else {
        lower_block(block, my, ids, 0, ctx)
    }
}

/// What resolving the input slot `input` of the node `owner` yields when
/// it may draw the identifiers `ids`.
pub open spec fn input_built(
    input: BlockInputBuilder,
    owner: Uid,
    ids: Seq<Uid>,
    ctx: Scope,
) -> Result<LoweredValues, BuildError> {
    if ids.len() < values_demand(input.values, input.values.len() as nat) {
        Err(BuildError::IdentifiersExhausted)
    } else {
        lower_values(input.values, input.values.len() as nat, owner, ids, 0, ctx)
    }
}

/// How many identifiers a build that draws `demand` of them generates
/// before it starts: as many as it draws, or none where that number does
/// not fit a `usize`, in which case the build fails for want of them.
pub open spec fn generated_count(demand: nat) -> nat {
    if demand <= usize::MAX {
        demand
    } else {
        0
    }
}

/// Every identifier of `ids` has the shape of a generated one.
pub open spec fn all_generated(ids: Seq<Uid>) -> bool {
    forall|i: int| 0 <= i < ids.len() ==> crate::uid::is_generated(#[trigger] ids[i]@)
}

} // verus!
