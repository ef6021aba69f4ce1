//! The walk that lowers a stack, and the proof that it yields what
//! `lowering` states.

use crate::block::{
    BlockBuilder, BlockFieldBuilder, BlockInputBuilder, BlockNormalBuilder, BlockVarListBuilder,
    StackOrValue,
};
use crate::build_context::{Category, Scope, TargetContext};
use crate::comment::CommentBuilder;
use crate::error::BuildError;
use crate::lowering::{
    attached_comment, at_origin, comment_id, block_demand, chain_demand, chain_start, chain_uid, inputs_demand,
    is_lone_reporter, linked, lower_block, lower_chain, lower_fields, lower_inputs, lower_stack,
    lower_values, reporter_value, stack_demand, values_demand, Lowered, LoweredBlock,
    LoweredInputs, LoweredValues,
};
use crate::schema::{
    blocks_view, inputs_view, Block, BlockField, BlockInput, BlockInputValue, BlockInputView,
    BlockNormal, BlockNormalView, BlockVarListReporterTop, BlockView, Comment, ListOrVariable,
    UidOrValue,
};
use crate::stack::StackBuilder;
use crate::table::Table;
use crate::uid::Uid;
use vstd::prelude::*;

verus! {

// ---------------------------------------------------------------------
// Demands grow with the prefix
// ---------------------------------------------------------------------

pub proof fn lemma_values_demand_monotone(values: Vec<Option<StackOrValue>>, n: nat, m: nat)
    requires
        n <= m <= values.len(),
    ensures
        values_demand(values, n) <= values_demand(values, m),
    decreases m,
{
    if n < m {
        lemma_values_demand_monotone(values, n, (m - 1) as nat);
    }
}

pub proof fn lemma_inputs_demand_monotone(inputs: Vec<(String, BlockInputBuilder)>, n: nat, m: nat)
    requires
        n <= m <= inputs.len(),
    ensures
        inputs_demand(inputs, n) <= inputs_demand(inputs, m),
    decreases m,
{
    if n < m {
        lemma_inputs_demand_monotone(inputs, n, (m - 1) as nat);
    }
}

pub proof fn lemma_chain_demand_monotone(blocks: Vec<BlockBuilder>, n: nat, m: nat)
    requires
        n <= m <= blocks.len(),
    ensures
        chain_demand(blocks, n) <= chain_demand(blocks, m),
    decreases m,
{
    if n < m {
        lemma_chain_demand_monotone(blocks, n, (m - 1) as nat);
    }
}

// ---------------------------------------------------------------------
// A failure stays
// ---------------------------------------------------------------------

pub proof fn lemma_fields_failure_stays(
    fields: Seq<(String, BlockFieldBuilder)>,
    n: nat,
    m: nat,
    ctx: Scope,
)
    requires
        n <= m <= fields.len(),
        lower_fields(fields, n, ctx) is Err,
    ensures
        lower_fields(fields, m, ctx) == lower_fields(fields, n, ctx),
    decreases m,
{
    if n < m {
        lemma_fields_failure_stays(fields, n, (m - 1) as nat, ctx);
    }
}

pub proof fn lemma_values_failure_stays(
    values: Vec<Option<StackOrValue>>,
    n: nat,
    m: nat,
    owner: Uid,
    ids: Seq<Uid>,
    at: int,
    ctx: Scope,
)
    requires
        n <= m <= values.len(),
        lower_values(values, n, owner, ids, at, ctx) is Err,
    ensures
        lower_values(values, m, owner, ids, at, ctx) == lower_values(values, n, owner, ids, at, ctx),
    decreases m,
{
    if n < m {
        lemma_values_failure_stays(values, n, (m - 1) as nat, owner, ids, at, ctx);
    }
}

pub proof fn lemma_inputs_failure_stays(
    inputs: Vec<(String, BlockInputBuilder)>,
    n: nat,
    m: nat,
    owner: Uid,
    ids: Seq<Uid>,
    at: int,
    ctx: Scope,
)
    requires
        n <= m <= inputs.len(),
        lower_inputs(inputs, n, owner, ids, at, ctx) is Err,
    ensures
        lower_inputs(inputs, m, owner, ids, at, ctx) == lower_inputs(inputs, n, owner, ids, at, ctx),
    decreases m,
{
    if n < m {
        lemma_inputs_failure_stays(inputs, n, (m - 1) as nat, owner, ids, at, ctx);
    }
}

pub proof fn lemma_chain_failure_stays(
    blocks: Vec<BlockBuilder>,
    n: nat,
    m: nat,
    first: Uid,
    owner: Option<Uid>,
    ids: Seq<Uid>,
    at: int,
    ctx: Scope,
)
    requires
        n <= m <= blocks.len(),
        lower_chain(blocks, n, first, owner, ids, at, ctx) is Err,
    ensures
        lower_chain(blocks, m, first, owner, ids, at, ctx) == lower_chain(
            blocks,
            n,
            first,
            owner,
            ids,
            at,
            ctx,
        ),
    decreases m,
{
    if n < m {
        lemma_chain_failure_stays(blocks, n, (m - 1) as nat, first, owner, ids, at, ctx);
    }
}

// ---------------------------------------------------------------------
// The walk
// ---------------------------------------------------------------------

/// Resolves the fields of a block, in order.
pub(crate) fn build_fields(fields: &Vec<(String, BlockFieldBuilder)>, ctx: &TargetContext) -> (r:
    Result<Vec<(String, BlockField)>, BuildError>)
    ensures
        match lower_fields(fields@, fields@.len(), ctx@) {
            Ok(s) => r is Ok && r->Ok_0@ == s,
            Err(e) => r is Err && r->Err_0 == e,
        },
{
    let n: usize = fields.len();
    let mut out: Vec<(String, BlockField)> = Vec::new();
    let mut i: usize = 0;
    while i < n
        invariant
            n == fields@.len(),
            i <= n,
            lower_fields(fields@, i as nat, ctx@) == Ok::<Seq<(String, BlockField)>, BuildError>(
                out@,
            ),
        decreases n - i,
    {
        match fields[i].1.build(ctx) {
            Ok(field) => {
                out.push((fields[i].0.clone(), field));
            },
            Err(_) => {
                proof {
                    lemma_fields_failure_stays(fields@, (i + 1) as nat, n as nat, ctx@);
                }
                return Err(
                    BuildError::UnresolvedReference {
                        field: Some(fields[i].0.clone()),
                        name: fields[i].1.value.clone(),
                    },
                );
            },
        }
        i += 1;
    }
    Ok(out)
}


/// The view of two runs of nodes, one after the other, is the views one
/// after the other.
pub proof fn lemma_blocks_view_concat(a: Seq<(String, Block)>, b: Seq<(String, Block)>)
    ensures
        blocks_view(a + b) == blocks_view(a) + blocks_view(b),
{
    assert(blocks_view(a + b) =~= blocks_view(a) + blocks_view(b));
}

proof fn lemma_blocks_view_push(s: Seq<(String, Block)>, e: (String, Block))
    ensures
        blocks_view(s.push(e)) == blocks_view(s).push((e.0, e.1@)),
{
    assert(blocks_view(s.push(e)) =~= blocks_view(s).push((e.0, e.1@)));
}

proof fn lemma_inputs_view_push(s: Seq<(String, BlockInput)>, e: (String, BlockInput))
    ensures
        inputs_view(s.push(e)) == inputs_view(s).push((e.0, e.1@)),
{
    assert(inputs_view(s.push(e)) =~= inputs_view(s).push((e.0, e.1@)));
}

/// Registers the comment attached to the block `owner`, if there is one,
/// under the identifier at position `at`.
fn attach_comment(
    comment: &Option<CommentBuilder>,
    ids: &Vec<Uid>,
    at: usize,
    owner: &Uid,
    comments: &mut Vec<(String, Comment)>,
) -> (r: (Option<Uid>, usize))
    requires
        comment is Some ==> at < ids@.len(),
    ensures
        final(comments)@ == old(comments)@ + attached_comment(*comment, ids@, at as int, *owner),
        r.0 == comment_id(*comment, ids@, at as int),
        r.1 == at + if comment is Some {
            1int
        } else {
            0int
        },
{
    let len: usize = ids.len();
    match comment {
        Some(c) => {
            let mut built = c.build();
            built.block_id = Some(owner.clone());
            comments.push((ids[at].0.clone(), built));
            assert(comments@ =~= old(comments)@ + attached_comment(
                *comment,
                ids@,
                at as int,
                *owner,
            ));
            (Some(ids[at].clone()), at + 1)
        },
        None => {
            assert(comments@ =~= old(comments)@ + attached_comment(
                *comment,
                ids@,
                at as int,
                *owner,
            ));
            (None, at)
        },
    }
}

/// Lowers a reporter of a variable or list.
pub(crate) fn build_reporter(
    b: &BlockVarListBuilder,
    my: &Uid,
    ids: &Vec<Uid>,
    at: usize,
    ctx: &TargetContext,
    comments: &mut Vec<(String, Comment)>,
) -> (r: Result<(BlockVarListReporterTop, usize), BuildError>)
    requires
        at + block_demand(BlockBuilder::VarList(*b)) <= ids@.len(),
    ensures
        match lower_block(BlockBuilder::VarList(*b), *my, ids@, at as int, ctx@) {
            Ok(l) => {
                &&& r is Ok
                &&& BlockView::VarList(r->Ok_0.0) == l.block
                &&& r->Ok_0.1 == at + block_demand(BlockBuilder::VarList(*b))
                &&& final(comments)@ == old(comments)@ + l.comments
            },
            Err(e) => r is Err && r->Err_0 == e,
        },
{
    let category = match b.kind {
        ListOrVariable::Variable => Category::Variable,
        ListOrVariable::List => Category::List,
    };
    match ctx.resolve(b.from, category, &b.name) {
        None => Err(BuildError::UnresolvedReference { field: None, name: b.name.clone() }),
        Some(id) => {
            let (_, next) = attach_comment(&b.comment, ids, at, my, comments);
            Ok(
                (
                    BlockVarListReporterTop {
                        kind: b.kind,
                        name: b.name.clone(),
                        id,
                        x: b.x,
                        y: b.y,
                    },
                    next,
                ),
            )
        },
    }
}

/// The value that a lone reporter becomes in an input slot.
fn reporter_to_value(reporter: BlockVarListReporterTop) -> (v: BlockInputValue)
    ensures
        v == reporter_value(reporter),
{
    match reporter.kind {
        ListOrVariable::Variable => BlockInputValue::Variable {
            name: reporter.name,
            id: reporter.id,
        },
        ListOrVariable::List => BlockInputValue::List { name: reporter.name, id: reporter.id },
    }
}

/// Lowers a stack that fills an input slot of the node `owner`, with the
/// identifier at position `at` for its first block, and says what the
/// slot holds for it: the reference itself for a lone reporter, which
/// yields no node, and the identifier of the first node otherwise.
pub(crate) fn build_nested(
    s: &StackBuilder,
    owner: &Uid,
    ids: &Vec<Uid>,
    at: usize,
    ctx: &TargetContext,
    blocks: &mut Vec<(String, Block)>,
    comments: &mut Vec<(String, Comment)>,
) -> (r: Result<(UidOrValue, usize), BuildError>)
    requires
        at + 1 + stack_demand(*s) <= ids@.len(),
    ensures
        match lower_stack(*s, ids@[at as int], Some(*owner), ids@, at as int + 1, ctx@) {
            Ok(sub) => {
                &&& r is Ok
                &&& r->Ok_0.1 == at + 1 + stack_demand(*s)
                &&& final(comments)@ == old(comments)@ + sub.comments
                &&& if is_lone_reporter(*s) {
                    &&& r->Ok_0.0 == UidOrValue::Value(reporter_value(sub.blocks[0].1->VarList_0))
                    &&& final(blocks)@ == old(blocks)@
                } else {
                    &&& r->Ok_0.0 == UidOrValue::Uid(ids@[at as int])
                    &&& blocks_view(final(blocks)@) == blocks_view(old(blocks)@) + sub.blocks
                }
            },
            Err(e) => r is Err && r->Err_0 == e,
        },
    decreases s, 1nat,
{
    let supply: usize = ids.len();
    let root = &ids[at];
    match lone_reporter(s) {
        Some(b) => {
            assert(stack_demand(*s) == chain_demand(s.stack, 1));
            match build_reporter(b, root, ids, at + 1, ctx, comments) {
                Err(e) => Err(e),
                Ok((reporter, next)) => Ok((UidOrValue::Value(reporter_to_value(reporter)), next)),
            }
        },
        None => {
            match build_stack(s, root, &Some(owner.clone()), ids, at + 1, ctx, blocks, comments) {
                Err(e) => Err(e),
                Ok(next) => Ok((UidOrValue::Uid(root.clone()), next)),
            }
        },
    }
}

/// The reporter that the stack consists of, where it is a lone reporter.
fn lone_reporter(s: &StackBuilder) -> (r: Option<&BlockVarListBuilder>)
    ensures
        r is Some <==> is_lone_reporter(*s),
        r matches Some(b) ==> s.stack[0] == BlockBuilder::VarList(*b),
{
    if s.stack.len() == 1 {
        match &s.stack[0] {
            BlockBuilder::VarList(b) => Some(b),
            BlockBuilder::Normal(_) => None,
        }
    } else {
        None
    }
}

/// Resolves the values of one input slot of the node `owner`.
pub(crate) fn build_values(
    values: &Vec<Option<StackOrValue>>,
    owner: &Uid,
    ids: &Vec<Uid>,
    at: usize,
    ctx: &TargetContext,
    blocks: &mut Vec<(String, Block)>,
    comments: &mut Vec<(String, Comment)>,
) -> (r: Result<(Vec<Option<UidOrValue>>, usize), BuildError>)
    requires
        at + values_demand(*values, values.len() as nat) <= ids@.len(),
    ensures
        match lower_values(*values, values.len() as nat, *owner, ids@, at as int, ctx@) {
            Ok(l) => {
                &&& r is Ok
                &&& r->Ok_0.0@ == l.values
                &&& r->Ok_0.1 == at + values_demand(*values, values.len() as nat)
                &&& blocks_view(final(blocks)@) == blocks_view(old(blocks)@) + l.blocks
                &&& final(comments)@ == old(comments)@ + l.comments
            },
            Err(e) => r is Err && r->Err_0 == e,
        },
    decreases values, 0nat,
{
    let n: usize = values.len();
    let supply: usize = ids.len();
    let mut out: Vec<Option<UidOrValue>> = Vec::new();
    let mut cur: usize = at;
    let mut i: usize = 0;
    let ghost blocks0 = blocks@;
    let ghost comments0 = comments@;
    assert(blocks_view(blocks@) =~= blocks_view(blocks0) + Seq::empty());
    assert(comments@ =~= comments0 + Seq::empty());
    while i < n
        invariant
            n == values.len(),
            i <= n,
            supply == ids@.len(),
            at + values_demand(*values, n as nat) <= ids@.len(),
            cur == at + values_demand(*values, i as nat),
            lower_values(*values, i as nat, *owner, ids@, at as int, ctx@) is Ok,
            ({
                let l = lower_values(*values, i as nat, *owner, ids@, at as int, ctx@)->Ok_0;
                &&& out@ == l.values
                &&& blocks_view(blocks@) == blocks_view(blocks0) + l.blocks
                &&& comments@ == comments0 + l.comments
            }),
        decreases n - i,
    {
        proof {
            lemma_values_demand_monotone(*values, (i + 1) as nat, n as nat);
        }
        let ghost before = lower_values(*values, i as nat, *owner, ids@, at as int, ctx@)->Ok_0;
        match &values[i] {
            None => {
                out.push(None);
            },
            Some(StackOrValue::Value(v)) => {
                out.push(Some(UidOrValue::Value(v.clone())));
            },
            Some(StackOrValue::Stack(s)) => {
                let ghost sub = lower_stack(
                    *s,
                    ids@[cur as int],
                    Some(*owner),
                    ids@,
                    cur as int + 1,
                    ctx@,
                );
                match build_nested(s, owner, ids, cur, ctx, blocks, comments) {
                    Err(e) => {
                        proof {
                            lemma_values_failure_stays(
                                *values,
                                (i + 1) as nat,
                                n as nat,
                                *owner,
                                ids@,
                                at as int,
                                ctx@,
                            );
                        }
                        return Err(e);
                    },
                    Ok((value, next)) => {
                        out.push(Some(value));
                        cur = next;
                        proof {
                            if is_lone_reporter(*s) {
                                assert(blocks_view(blocks@) =~= blocks_view(blocks0)
                                    + before.blocks);
                            } else {
                                assert(blocks_view(blocks@) =~= blocks_view(blocks0) + (
                                before.blocks + sub->Ok_0.blocks));
                            }
                            assert(comments@ =~= comments0 + (before.comments
                                + sub->Ok_0.comments));
                        }
                    },
                }
            },
        }
        i += 1;
    }
    Ok((out, cur))
}

/// Resolves the input slots of the node `owner`, in order.
pub(crate) fn build_inputs(
    inputs: &Vec<(String, BlockInputBuilder)>,
    owner: &Uid,
    ids: &Vec<Uid>,
    at: usize,
    ctx: &TargetContext,
    blocks: &mut Vec<(String, Block)>,
    comments: &mut Vec<(String, Comment)>,
) -> (r: Result<(Vec<(String, BlockInput)>, usize), BuildError>)
    requires
        at + inputs_demand(*inputs, inputs.len() as nat) <= ids@.len(),
    ensures
        match lower_inputs(*inputs, inputs.len() as nat, *owner, ids@, at as int, ctx@) {
            Ok(l) => {
                &&& r is Ok
                &&& inputs_view(r->Ok_0.0@) == l.inputs
                &&& r->Ok_0.1 == at + inputs_demand(*inputs, inputs.len() as nat)
                &&& blocks_view(final(blocks)@) == blocks_view(old(blocks)@) + l.blocks
                &&& final(comments)@ == old(comments)@ + l.comments
            },
            Err(e) => r is Err && r->Err_0 == e,
        },
    decreases inputs, 0nat,
{
    let n: usize = inputs.len();
    let mut out: Vec<(String, BlockInput)> = Vec::new();
    let mut cur: usize = at;
    let mut i: usize = 0;
    let ghost blocks0 = blocks@;
    let ghost comments0 = comments@;
    assert(blocks_view(blocks@) =~= blocks_view(blocks0) + Seq::empty());
    assert(comments@ =~= comments0 + Seq::empty());
    assert(inputs_view(out@) =~= Seq::empty());
    while i < n
        invariant
            n == inputs.len(),
            i <= n,
            at + inputs_demand(*inputs, n as nat) <= ids@.len(),
            cur == at + inputs_demand(*inputs, i as nat),
            lower_inputs(*inputs, i as nat, *owner, ids@, at as int, ctx@) is Ok,
            ({
                let l = lower_inputs(*inputs, i as nat, *owner, ids@, at as int, ctx@)->Ok_0;
                &&& inputs_view(out@) == l.inputs
                &&& blocks_view(blocks@) == blocks_view(blocks0) + l.blocks
                &&& comments@ == comments0 + l.comments
            }),
        decreases n - i,
    {
        proof {
            lemma_inputs_demand_monotone(*inputs, (i + 1) as nat, n as nat);
        }
        let ghost before = lower_inputs(*inputs, i as nat, *owner, ids@, at as int, ctx@)->Ok_0;
        let ghost sub = lower_values(
            inputs[i as int].1.values,
            inputs[i as int].1.values.len() as nat,
            *owner,
            ids@,
            cur as int,
            ctx@,
        );
        let slot = &inputs[i].1;
        match build_values(&slot.values, owner, ids, cur, ctx, blocks, comments) {
            Err(e) => {
                proof {
                    lemma_inputs_failure_stays(
                        *inputs,
                        (i + 1) as nat,
                        n as nat,
                        *owner,
                        ids@,
                        at as int,
                        ctx@,
                    );
                }
                return Err(e);
            },
            Ok((values, next)) => {
                let ghost out0 = out@;
                let built = BlockInput { shadow: slot.shadow, inputs: values };
                out.push((inputs[i].0.clone(), built));
                cur = next;
                proof {
                    lemma_inputs_view_push(out0, (inputs[i as int].0, built));
                    assert(blocks_view(blocks@) =~= blocks_view(blocks0) + (before.blocks
                        + sub->Ok_0.blocks));
                    assert(comments@ =~= comments0 + (before.comments + sub->Ok_0.comments));
                }
            },
        }
        i += 1;
    }
    Ok((out, cur))
}

/// Lowers an ordinary block under the identifier `my`, unlinked.
pub(crate) fn build_normal(
    b: &BlockNormalBuilder,
    my: &Uid,
    ids: &Vec<Uid>,
    at: usize,
    ctx: &TargetContext,
    blocks: &mut Vec<(String, Block)>,
    comments: &mut Vec<(String, Comment)>,
) -> (r: Result<(BlockNormal, usize), BuildError>)
    requires
        at + block_demand(BlockBuilder::Normal(*b)) <= ids@.len(),
    ensures
        match lower_block(BlockBuilder::Normal(*b), *my, ids@, at as int, ctx@) {
            Ok(l) => {
                &&& r is Ok
                &&& BlockView::Normal(r->Ok_0.0@) == l.block
                &&& r->Ok_0.1 == at + block_demand(BlockBuilder::Normal(*b))
                &&& blocks_view(final(blocks)@) == blocks_view(old(blocks)@) + l.nested
                &&& final(comments)@ == old(comments)@ + l.comments
            },
            Err(e) => r is Err && r->Err_0 == e,
        },
    decreases b, 0nat,
{
    let ghost comments0 = comments@;
    let ghost lowered_inputs = lower_inputs(
        b.inputs.entries,
        b.inputs.entries.len() as nat,
        *my,
        ids@,
        at as int,
        ctx@,
    );
    let (inputs, cur) = match build_inputs(&b.inputs.entries, my, ids, at, ctx, blocks, comments) {
        Err(e) => {
            return Err(e);
        },
        Ok(done) => done,
    };
    let fields = match build_fields(&b.fields.entries, ctx) {
        Err(e) => {
            return Err(e);
        },
        Ok(done) => done,
    };
    let (comment, next) = attach_comment(&b.comment, ids, cur, my, comments);
    let node = BlockNormal {
        opcode: b.opcode.clone(),
        comment,
        next: None,
        parent: None,
        inputs: Table { entries: inputs },
        fields: Table { entries: fields },
        shadow: b.shadow,
        top_level: false,
        mutation: match &b.mutation {
            Some(m) => Some(m.clone()),
            None => None,
        },
        x: None,
        y: None,
    };
    proof {
        assert(comments@ =~= comments0 + (lowered_inputs->Ok_0.comments + attached_comment(
            b.comment,
            ids@,
            cur as int,
            *my,
        )));
    }
    Ok((node, next))
}

/// Lowers a stack whose first block has the identifier `first`.
pub(crate) fn build_stack(
    stack: &StackBuilder,
    first: &Uid,
    owner: &Option<Uid>,
    ids: &Vec<Uid>,
    at: usize,
    ctx: &TargetContext,
    blocks: &mut Vec<(String, Block)>,
    comments: &mut Vec<(String, Comment)>,
) -> (r: Result<usize, BuildError>)
    requires
        at + stack_demand(*stack) <= ids@.len(),
    ensures
        match lower_stack(*stack, *first, *owner, ids@, at as int, ctx@) {
            Ok(l) => {
                &&& r is Ok
                &&& r->Ok_0 == at + stack_demand(*stack)
                &&& blocks_view(final(blocks)@) == blocks_view(old(blocks)@) + l.blocks
                &&& final(comments)@ == old(comments)@ + l.comments
            },
            Err(e) => r is Err && r->Err_0 == e,
        },
    decreases stack, 0nat,
{
    let n: usize = stack.stack.len();
    let supply: usize = ids.len();
    if n == 0 {
        return Err(BuildError::EmptyStack);
    }
    if n == 1 {
        match &stack.stack[0] {
            BlockBuilder::VarList(b) => {
                let ghost blocks0 = blocks@;
                return match build_reporter(b, first, ids, at, ctx, comments) {
                    Err(e) => Err(e),
                    Ok((reporter, next)) => {
                        let mut reporter = reporter;
                        reporter.x = 0;
                        reporter.y = 0;
                        let node = Block::VarList(reporter);
                        blocks.push((first.0.clone(), node));
                        proof {
                            lemma_blocks_view_push(blocks0, (first.0, node));
                            assert(blocks_view(blocks@) =~= blocks_view(blocks0) + seq![
                                (first.0, node@),
                            ]);
                        }
                        Ok(next)
                    },
                };
            },
            BlockBuilder::Normal(_) => {},
        }
    }
    let mut cur: usize = at;
    let mut uid: Uid = first.clone();
    let mut previous: Option<Uid> = match owner {
        Some(o) => Some(o.clone()),
        None => None,
    };
    let top: bool = owner.is_none();
    let mut i: usize = 0;
    let ghost blocks0 = blocks@;
    let ghost comments0 = comments@;
    assert(blocks_view(blocks@) =~= blocks_view(blocks0) + Seq::empty());
    assert(comments@ =~= comments0 + Seq::empty());
    while i < n
        invariant
            n == stack.stack.len(),
            n > 0,
            i <= n,
            top == (*owner is None),
            supply == ids@.len(),
            !is_lone_reporter(*stack),
            at + chain_demand(stack.stack, n as nat) <= ids@.len(),
            cur == chain_start(stack.stack, i as nat, at as int) || i == n,
            i == n ==> cur == at + chain_demand(stack.stack, n as nat),
            i < n ==> uid == chain_uid(stack.stack, i as nat, *first, ids@, at as int),
            i < n ==> previous == if i == 0 {
                *owner
            } else {
                Some(chain_uid(stack.stack, (i - 1) as nat, *first, ids@, at as int))
            },
            lower_chain(stack.stack, i as nat, *first, *owner, ids@, at as int, ctx@) is Ok,
            ({
                let l = lower_chain(
                    stack.stack,
                    i as nat,
                    *first,
                    *owner,
                    ids@,
                    at as int,
                    ctx@,
                )->Ok_0;
                &&& blocks_view(blocks@) == blocks_view(blocks0) + l.blocks
                &&& comments@ == comments0 + l.comments
            }),
        decreases n - i,
    {
        proof {
            lemma_chain_demand_monotone(stack.stack, (i + 1) as nat, n as nat);
            if i + 2 <= n {
                lemma_chain_demand_monotone(stack.stack, (i + 2) as nat, n as nat);
            }
        }
        let ghost before = lower_chain(
            stack.stack,
            i as nat,
            *first,
            *owner,
            ids@,
            at as int,
            ctx@,
        )->Ok_0;
        match &stack.stack[i] {
            BlockBuilder::VarList(_) => {
                proof {
                    assert(lower_chain(
                        stack.stack,
                        (i + 1) as nat,
                        *first,
                        *owner,
                        ids@,
                        at as int,
                        ctx@,
                    ) == Err::<Lowered, BuildError>(BuildError::ChainedReporter));
                    lemma_chain_failure_stays(
                        stack.stack,
                        (i + 1) as nat,
                        n as nat,
                        *first,
                        *owner,
                        ids@,
                        at as int,
                        ctx@,
                    );
                }
                return Err(BuildError::ChainedReporter);
            },
            BlockBuilder::Normal(b) => {
                let ghost sub = lower_block(stack.stack[i as int], uid, ids@, cur as int, ctx@);
                match build_normal(b, &uid, ids, cur, ctx, blocks, comments) {
                    Err(e) => {
                        proof {
                            lemma_chain_failure_stays(
                                stack.stack,
                                (i + 1) as nat,
                                n as nat,
                                *first,
                                *owner,
                                ids@,
                                at as int,
                                ctx@,
                            );
                        }
                        return Err(e);
                    },
                    Ok((node, after)) => {
                        let mut node = node;
                        let next: Option<Uid> = if i + 1 < n {
                            Some(ids[after].clone())
                        } else {
                            None
                        };
                        node.parent = previous;
                        node.next = match &next {
                            Some(u) => Some(u.clone()),
                            None => None,
                        };
                        node.top_level = i == 0 && top;
                        if i == 0 && top {
                            node.x = Some(0);
                            node.y = Some(0);
                        }
                        let ghost blocks2 = blocks@;
                        let entry = (uid.0.clone(), Block::Normal(node));
                        blocks.push(entry);
                        proof {
                            lemma_blocks_view_push(blocks2, entry);
                            assert(blocks_view(blocks@) =~= blocks_view(blocks0) + (before.blocks
                                + sub->Ok_0.nested + seq![(entry.0, entry.1@)]));
                            assert(comments@ =~= comments0 + (before.comments
                                + sub->Ok_0.comments));
                        }
                        match next {
                            Some(u) => {
                                previous = Some(uid);
                                uid = u;
                                cur = after + 1;
                            },
                            None => {
                                previous = None;
                                cur = after;
                            },
                        }
                    },
                }
            },
        }
        i += 1;
    }
    Ok(cur)
}


// ---------------------------------------------------------------------
// Counting the identifiers that a build draws
// ---------------------------------------------------------------------

/// The number of identifiers that the values of an input slot draw, where
/// it fits a `usize`.
pub(crate) fn count_values(values: &Vec<Option<StackOrValue>>) -> (r: Option<usize>)
    ensures
        match r {
            Some(d) => d == values_demand(*values, values.len() as nat),
            None => values_demand(*values, values.len() as nat) > usize::MAX,
        },
    decreases values, 0nat,
{
    let n: usize = values.len();
    let mut total: usize = 0;
    let mut i: usize = 0;
    while i < n
        invariant
            n == values.len(),
            i <= n,
            total == values_demand(*values, i as nat),
        decreases n - i,
    {
        proof {
            lemma_values_demand_monotone(*values, (i + 1) as nat, n as nat);
        }
        match &values[i] {
            Some(StackOrValue::Stack(s)) => {
                let inner = match count_stack(s) {
                    Some(d) => d,
                    None => {
                        return None;
                    },
                };
                let with_root = match inner.checked_add(1) {
                    Some(d) => d,
                    None => {
                        return None;
                    },
                };
                total = match total.checked_add(with_root) {
                    Some(d) => d,
                    None => {
                        return None;
                    },
                };
            },
            _ => {},
        }
        i += 1;
    }
    Some(total)
}

/// The number of identifiers that the input slots of a block draw, where
/// it fits a `usize`.
pub(crate) fn count_inputs(inputs: &Vec<(String, BlockInputBuilder)>) -> (r: Option<usize>)
    ensures
        match r {
            Some(d) => d == inputs_demand(*inputs, inputs.len() as nat),
            None => inputs_demand(*inputs, inputs.len() as nat) > usize::MAX,
        },
    decreases inputs, 0nat,
{
    let n: usize = inputs.len();
    let mut total: usize = 0;
    let mut i: usize = 0;
    while i < n
        invariant
            n == inputs.len(),
            i <= n,
            total == inputs_demand(*inputs, i as nat),
        decreases n - i,
    {
        proof {
            lemma_inputs_demand_monotone(*inputs, (i + 1) as nat, n as nat);
        }
        let inner = match count_values(&inputs[i].1.values) {
            Some(d) => d,
            None => {
                return None;
            },
        };
        total = match total.checked_add(inner) {
            Some(d) => d,
            None => {
                return None;
            },
        };
        i += 1;
    }
    Some(total)
}

/// The number of identifiers that building a block draws, where it fits a
/// `usize`.
pub(crate) fn count_block(block: &BlockBuilder) -> (r: Option<usize>)
    ensures
        match r {
            Some(d) => d == block_demand(*block),
            None => block_demand(*block) > usize::MAX,
        },
    decreases block, 0nat,
{
    match block {
        BlockBuilder::Normal(b) => {
            let inner = match count_inputs(&b.inputs.entries) {
                Some(d) => d,
                None => {
                    return None;
                },
            };
            if b.comment.is_some() {
                inner.checked_add(1)
            } else {
                Some(inner)
            }
        },
        BlockBuilder::VarList(b) => if b.comment.is_some() {
            Some(1)
        } else {
            Some(0)
        },
    }
}

/// The number of identifiers that building a stack draws, where it fits a
/// `usize`.
pub(crate) fn count_stack(stack: &StackBuilder) -> (r: Option<usize>)
    ensures
        match r {
            Some(d) => d == stack_demand(*stack),
            None => stack_demand(*stack) > usize::MAX,
        },
    decreases stack, 0nat,
{
    let n: usize = stack.stack.len();
    let mut total: usize = 0;
    let mut i: usize = 0;
    while i < n
        invariant
            n == stack.stack.len(),
            i <= n,
            total == chain_demand(stack.stack, i as nat),
        decreases n - i,
    {
        proof {
            lemma_chain_demand_monotone(stack.stack, (i + 1) as nat, n as nat);
        }
        let inner = match count_block(&stack.stack[i]) {
            Some(d) => d,
            None => {
                return None;
            },
        };
        let own = if i == 0 {
            inner
        } else {
            match inner.checked_add(1) {
                Some(d) => d,
                None => {
                    return None;
                },
            }
        };
        total = match total.checked_add(own) {
            Some(d) => d,
            None => {
                return None;
            },
        };
        i += 1;
    }
    Some(total)
}

} // verus!
