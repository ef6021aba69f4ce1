//! What holds of every lowered stack.

use crate::block::{
    BlockBuilder, BlockFieldBuilder, BlockInputBuilder, BlockNormalBuilder, FieldKind,
    StackOrValue,
};
use crate::build_context::{lookup, Scope};
use crate::engine::{
    lemma_chain_demand_monotone, lemma_chain_failure_stays, lemma_fields_failure_stays,
};
use crate::error::BuildError;
use crate::lowering::{
    block_demand, block_nested_nodes, chain_demand, chain_nodes, chain_start, chain_uid,
    inputs_demand, inputs_nodes, is_lone_reporter, lower_block, lower_chain, lower_fields,
    lower_inputs, lower_stack, lower_values, script_built, stack_demand, stack_nodes,
    values_demand, values_nodes, Lowered, LoweredBlock,
};
use crate::schema::{
    BlockField, BlockInputValue, BlockInputView, BlockNormalView, BlockView, ListOrVariable,
    UidOrValue,
};
use crate::stack::StackBuilder;
use crate::table::keys_distinct;
use crate::target::{lower_stacks, stacks_demand};
use crate::uid::Uid;
use vstd::prelude::*;

verus! {

/// The identifiers of `ids` at the positions from `lo` up to `hi` differ
/// from one another.
pub open spec fn distinct_between(ids: Seq<Uid>, lo: int, hi: int) -> bool {
    forall|i: int, j: int| lo <= i < j < hi ==> (#[trigger] ids[i])@ != (#[trigger] ids[j])@
}

/// `key` is the text of one of the identifiers of `ids` at the positions
/// from `lo` up to `hi`.
pub open spec fn drawn_between(key: String, ids: Seq<Uid>, lo: int, hi: int) -> bool {
    exists|j: int| lo <= j < hi && (#[trigger] ids[j]).0 == key
}

/// The key of every node of `blocks` is `drawn_between` `lo` and `hi`.
pub open spec fn keys_drawn_between(
    blocks: Seq<(String, BlockView)>,
    ids: Seq<Uid>,
    lo: int,
    hi: int,
) -> bool {
    forall|k: int| 0 <= k < blocks.len() ==> drawn_between((#[trigger] blocks[k]).0, ids, lo, hi)
}

/// The key of every node of `blocks` is the text of `first`, or
/// `drawn_between` `lo` and `hi`.
pub open spec fn keys_first_or_drawn(
    blocks: Seq<(String, BlockView)>,
    first: Uid,
    ids: Seq<Uid>,
    lo: int,
    hi: int,
) -> bool {
    forall|k: int|
        0 <= k < blocks.len() ==> (#[trigger] blocks[k]).0 == first.0 || drawn_between(
            blocks[k].0,
            ids,
            lo,
            hi,
        )
}

/// `first` differs from the identifiers of `ids` at the positions from
/// `lo` up to `hi`.
pub open spec fn fresh_between(first: Uid, ids: Seq<Uid>, lo: int, hi: int) -> bool {
    forall|j: int| lo <= j < hi ==> (#[trigger] ids[j])@ != first@
}

proof fn lemma_join(
    a: Seq<(String, BlockView)>,
    b: Seq<(String, BlockView)>,
    ids: Seq<Uid>,
    lo: int,
    mid: int,
    hi: int,
)
    requires
        lo <= mid <= hi,
        keys_drawn_between(a, ids, lo, mid),
        keys_drawn_between(b, ids, mid, hi),
        keys_distinct(a),
        keys_distinct(b),
        distinct_between(ids, lo, hi),
    ensures
        keys_drawn_between(a + b, ids, lo, hi),
        keys_distinct(a + b),
{
    let c = a + b;
    assert forall|k: int| 0 <= k < c.len() implies drawn_between(
        (#[trigger] c[k]).0,
        ids,
        lo,
        hi,
    ) by {
        if k < a.len() {
            assert(c[k] == a[k]);
            let j = choose|j: int| lo <= j < mid && (#[trigger] ids[j]).0 == a[k].0;
            assert(lo <= j < hi && ids[j].0 == c[k].0);
        } else {
            assert(c[k] == b[k - a.len()]);
            let j = choose|j: int| mid <= j < hi && (#[trigger] ids[j]).0 == b[k - a.len()].0;
            assert(lo <= j < hi && ids[j].0 == c[k].0);
        }
    }
    assert forall|x: int, y: int| 0 <= x < y < c.len() implies (#[trigger] c[x]).0@ != (
    #[trigger] c[y]).0@ by {
        if y < a.len() {
            assert(c[x] == a[x] && c[y] == a[y]);
        } else if x >= a.len() {
            assert(c[x] == b[x - a.len()] && c[y] == b[y - a.len()]);
        } else {
            assert(c[x] == a[x] && c[y] == b[y - a.len()]);
            let j = choose|j: int| lo <= j < mid && (#[trigger] ids[j]).0 == a[x].0;
            let j2 = choose|j: int| mid <= j < hi && (#[trigger] ids[j]).0 == b[y - a.len()].0;
            assert(ids[j]@ != ids[j2]@);
        }
    }
}

proof fn lemma_widen(
    a: Seq<(String, BlockView)>,
    ids: Seq<Uid>,
    lo: int,
    hi: int,
    lo2: int,
    hi2: int,
)
    requires
        lo2 <= lo,
        hi <= hi2,
        keys_drawn_between(a, ids, lo, hi),
    ensures
        keys_drawn_between(a, ids, lo2, hi2),
{
    assert forall|k: int| 0 <= k < a.len() implies drawn_between(
        (#[trigger] a[k]).0,
        ids,
        lo2,
        hi2,
    ) by {
        let j = choose|j: int| lo <= j < hi && (#[trigger] ids[j]).0 == a[k].0;
        assert(lo2 <= j < hi2 && ids[j].0 == a[k].0);
    }
}

/// The nodes of the stacks nested in the first `n` values of an input
/// slot stand each under an identifier drawn for the slot, no two under
/// the same where the identifiers drawn differ.
pub proof fn lemma_values_keys(
    values: Vec<Option<StackOrValue>>,
    n: nat,
    owner: Uid,
    ids: Seq<Uid>,
    at: int,
    ctx: Scope,
)
    requires
        n <= values.len(),
        lower_values(values, n, owner, ids, at, ctx) is Ok,
        distinct_between(ids, at, at + values_demand(values, n)),
    ensures
        ({
            let l = lower_values(values, n, owner, ids, at, ctx)->Ok_0;
            &&& keys_drawn_between(l.blocks, ids, at, at + values_demand(values, n))
            &&& keys_distinct(l.blocks)
        }),
    decreases values, n,
{
    if n > 0 {
        let m = (n - 1) as nat;
        lemma_values_keys(values, m, owner, ids, at, ctx);
        let sofar = lower_values(values, m, owner, ids, at, ctx)->Ok_0;
        let here = at + values_demand(values, m);
        let end = at + values_demand(values, n);
        match values[n - 1] {
            Some(StackOrValue::Stack(s)) => {
                let sub = lower_stack(s, ids[here], Some(owner), ids, here + 1, ctx)->Ok_0;
                assert(end == here + 1 + stack_demand(s));
                assert(fresh_between(ids[here], ids, here + 1, end)) by {
                    assert forall|j: int| here + 1 <= j < end implies (#[trigger] ids[j])@
                        != ids[here]@ by {
                        assert(ids[here]@ != ids[j]@);
                    }
                }
                lemma_stack_keys(s, ids[here], Some(owner), ids, here + 1, ctx);
                if is_lone_reporter(s) {
                    lemma_widen(sofar.blocks, ids, at, here, at, end);
                } else {
                    assert(keys_drawn_between(sub.blocks, ids, here, end)) by {
                        assert forall|k: int| 0 <= k < sub.blocks.len() implies drawn_between(
                            (#[trigger] sub.blocks[k]).0,
                            ids,
                            here,
                            end,
                        ) by {
                            if sub.blocks[k].0 == ids[here].0 {
                                assert(here <= here < end && ids[here].0 == sub.blocks[k].0);
                            } else {
                                let j = choose|j: int|
                                    here + 1 <= j < end && (#[trigger] ids[j]).0
                                        == sub.blocks[k].0;
                                assert(here <= j < end && ids[j].0 == sub.blocks[k].0);
                            }
                        }
                    }
                    lemma_join(sofar.blocks, sub.blocks, ids, at, here, end);
                }
            },
            _ => {},
        }
    }
}

/// The nodes of the stacks nested in the first `n` input slots of a
/// block stand each under an identifier drawn for the slots, no two under
/// the same where the identifiers drawn differ.
pub proof fn lemma_inputs_keys(
    inputs: Vec<(String, BlockInputBuilder)>,
    n: nat,
    owner: Uid,
    ids: Seq<Uid>,
    at: int,
    ctx: Scope,
)
    requires
        n <= inputs.len(),
        lower_inputs(inputs, n, owner, ids, at, ctx) is Ok,
        distinct_between(ids, at, at + inputs_demand(inputs, n)),
    ensures
        ({
            let l = lower_inputs(inputs, n, owner, ids, at, ctx)->Ok_0;
            &&& keys_drawn_between(l.blocks, ids, at, at + inputs_demand(inputs, n))
            &&& keys_distinct(l.blocks)
        }),
    decreases inputs, n,
{
    if n > 0 {
        let m = (n - 1) as nat;
        lemma_inputs_keys(inputs, m, owner, ids, at, ctx);
        let sofar = lower_inputs(inputs, m, owner, ids, at, ctx)->Ok_0;
        let here = at + inputs_demand(inputs, m);
        let end = at + inputs_demand(inputs, n);
        let slot = inputs[n - 1].1;
        lemma_values_keys(slot.values, slot.values.len() as nat, owner, ids, here, ctx);
        let v = lower_values(slot.values, slot.values.len() as nat, owner, ids, here, ctx)->Ok_0;
        lemma_join(sofar.blocks, v.blocks, ids, at, here, end);
    }
}

/// The nodes of the stacks nested in the inputs of a block stand each
/// under an identifier drawn for the block, no two under the same where
/// the identifiers drawn differ.
pub proof fn lemma_block_keys(
    block: BlockBuilder,
    my: Uid,
    ids: Seq<Uid>,
    at: int,
    ctx: Scope,
)
    requires
        lower_block(block, my, ids, at, ctx) is Ok,
        distinct_between(ids, at, at + block_demand(block)),
    ensures
        ({
            let l = lower_block(block, my, ids, at, ctx)->Ok_0;
            &&& keys_drawn_between(l.nested, ids, at, at + block_demand(block))
            &&& keys_distinct(l.nested)
        }),
    decreases block, 0nat,
{
    match block {
        BlockBuilder::Normal(b) => {
            let n = b.inputs.entries.len() as nat;
            lemma_inputs_keys(b.inputs.entries, n, my, ids, at, ctx);
            let l = lower_inputs(b.inputs.entries, n, my, ids, at, ctx)->Ok_0;
            lemma_widen(
                l.blocks,
                ids,
                at,
                at + inputs_demand(b.inputs.entries, n),
                at,
                at + block_demand(block),
            );
        },
        BlockBuilder::VarList(_) => {},
    }
}

/// The nodes of the first `n` blocks of a stack stand each under the
/// identifier of the first block or one drawn for the stack, no two under
/// the same where the identifiers drawn differ from one another and from
/// that of the first block.
pub proof fn lemma_chain_keys(
    blocks: Vec<BlockBuilder>,
    n: nat,
    first: Uid,
    owner: Option<Uid>,
    ids: Seq<Uid>,
    at: int,
    ctx: Scope,
)
    requires
        n <= blocks.len(),
        lower_chain(blocks, n, first, owner, ids, at, ctx) is Ok,
        distinct_between(ids, at, at + chain_demand(blocks, n)),
        fresh_between(first, ids, at, at + chain_demand(blocks, n)),
    ensures
        ({
            let l = lower_chain(blocks, n, first, owner, ids, at, ctx)->Ok_0;
            &&& keys_first_or_drawn(l.blocks, first, ids, at, at + chain_demand(blocks, n))
            &&& keys_distinct(l.blocks)
        }),
    decreases blocks, n,
{
    if n > 0 {
        let m = (n - 1) as nat;
        lemma_chain_demand_monotone(blocks, m, n);
        lemma_chain_keys(blocks, m, first, owner, ids, at, ctx);
        let sofar = lower_chain(blocks, m, first, owner, ids, at, ctx)->Ok_0;
        let uid = chain_uid(blocks, m, first, ids, at);
        let start = chain_start(blocks, m, at);
        let end = at + chain_demand(blocks, n);
        lemma_block_keys(blocks[m as int], uid, ids, start, ctx);
        let b = lower_block(blocks[m as int], uid, ids, start, ctx)->Ok_0;
        let l = lower_chain(blocks, n, first, owner, ids, at, ctx)->Ok_0;
        let node = l.blocks[l.blocks.len() - 1];
        assert(l.blocks =~= sofar.blocks + b.nested + seq![node]);
        assert(node.0 == uid.0);
        if m == 0 {
            assert(sofar.blocks.len() == 0);
            assert(l.blocks =~= b.nested + seq![node]);
            assert forall|x: int, y: int| 0 <= x < y < l.blocks.len() implies (
            #[trigger] l.blocks[x]).0@ != (#[trigger] l.blocks[y]).0@ by {
                if y < b.nested.len() {
                    assert(l.blocks[x] == b.nested[x] && l.blocks[y] == b.nested[y]);
                } else {
                    assert(l.blocks[x] == b.nested[x]);
                    let j = choose|j: int|
                        start <= j < end && (#[trigger] ids[j]).0 == b.nested[x].0;
                    assert(ids[j]@ != first@);
                }
            }
            assert forall|k: int| 0 <= k < l.blocks.len() implies (#[trigger] l.blocks[k]).0
                == first.0 || drawn_between(l.blocks[k].0, ids, at, end) by {
                if k < b.nested.len() {
                    assert(l.blocks[k] == b.nested[k]);
                }
            }
        } else {
            let own = at + chain_demand(blocks, m);
            assert(uid == ids[own]);
            assert(start == own + 1);
            // the nodes so far, the nested nodes and the block's own node
            // draw from three stretches of `ids` that do not meet
            let tail = b.nested + seq![node];
            assert forall|k: int| 0 <= k < tail.len() implies drawn_between(
                (#[trigger] tail[k]).0,
                ids,
                own,
                end,
            ) by {
                if k < b.nested.len() {
                    assert(tail[k] == b.nested[k]);
                    let j = choose|j: int|
                        start <= j < end && (#[trigger] ids[j]).0 == b.nested[k].0;
                    assert(own <= j < end && ids[j].0 == tail[k].0);
                } else {
                    assert(own <= own < end && ids[own].0 == tail[k].0);
                }
            }
            assert forall|x: int, y: int| 0 <= x < y < tail.len() implies (#[trigger] tail[x]).0@
                != (#[trigger] tail[y]).0@ by {
                if y < b.nested.len() {
                    assert(tail[x] == b.nested[x] && tail[y] == b.nested[y]);
                } else {
                    assert(tail[x] == b.nested[x]);
                    let j = choose|j: int|
                        start <= j < end && (#[trigger] ids[j]).0 == b.nested[x].0;
                    assert(ids[own]@ != ids[j]@);
                }
            }
            assert(l.blocks =~= sofar.blocks + tail);
            assert forall|x: int, y: int| 0 <= x < y < l.blocks.len() implies (
            #[trigger] l.blocks[x]).0@ != (#[trigger] l.blocks[y]).0@ by {
                if y < sofar.blocks.len() {
                    assert(l.blocks[x] == sofar.blocks[x] && l.blocks[y] == sofar.blocks[y]);
                } else if x >= sofar.blocks.len() {
                    assert(l.blocks[x] == tail[x - sofar.blocks.len()]);
                    assert(l.blocks[y] == tail[y - sofar.blocks.len()]);
                } else {
                    assert(l.blocks[x] == sofar.blocks[x]);
                    assert(l.blocks[y] == tail[y - sofar.blocks.len()]);
                    let j2 = choose|j: int|
                        own <= j < end && (#[trigger] ids[j]).0 == tail[y
                            - sofar.blocks.len()].0;
                    if sofar.blocks[x].0 == first.0 {
                        assert(ids[j2]@ != first@);
                    } else {
                        let j = choose|j: int|
                            at <= j < own && (#[trigger] ids[j]).0 == sofar.blocks[x].0;
                        assert(ids[j]@ != ids[j2]@);
                    }
                }
            }
            assert forall|k: int| 0 <= k < l.blocks.len() implies (#[trigger] l.blocks[k]).0
                == first.0 || drawn_between(l.blocks[k].0, ids, at, end) by {
                if k < sofar.blocks.len() {
                    assert(l.blocks[k] == sofar.blocks[k]);
                    if sofar.blocks[k].0 != first.0 {
                        let j = choose|j: int|
                            at <= j < own && (#[trigger] ids[j]).0 == sofar.blocks[k].0;
                        assert(at <= j < end && ids[j].0 == l.blocks[k].0);
                    }
                } else {
                    assert(l.blocks[k] == tail[k - sofar.blocks.len()]);
                    let j = choose|j: int|
                        own <= j < end && (#[trigger] ids[j]).0 == tail[k
                            - sofar.blocks.len()].0;
                    assert(at <= j < end && ids[j].0 == l.blocks[k].0);
                }
            }
        }
    }
}

/// The nodes of a lowered stack stand each under the identifier of the
/// first block or one drawn for the stack, no two under the same where
/// the identifiers drawn differ from one another and from that of the
/// first block.
pub proof fn lemma_stack_keys(
    stack: StackBuilder,
    first: Uid,
    owner: Option<Uid>,
    ids: Seq<Uid>,
    at: int,
    ctx: Scope,
)
    requires
        lower_stack(stack, first, owner, ids, at, ctx) is Ok,
        distinct_between(ids, at, at + stack_demand(stack)),
        fresh_between(first, ids, at, at + stack_demand(stack)),
    ensures
        ({
            let l = lower_stack(stack, first, owner, ids, at, ctx)->Ok_0;
            &&& keys_first_or_drawn(l.blocks, first, ids, at, at + stack_demand(stack))
            &&& keys_distinct(l.blocks)
        }),
    decreases stack, 0nat,
{
    if !is_lone_reporter(stack) {
        lemma_chain_keys(stack.stack, stack.stack.len() as nat, first, owner, ids, at, ctx);
    }
}

/// The number of nodes that the first `n` scripts of a target yield.
pub open spec fn stacks_nodes(stacks: Seq<StackBuilder>, n: nat) -> nat
    decreases n,
{
    if n == 0 || n > stacks.len() {
        0
    } else {
        stacks_nodes(stacks, (n - 1) as nat) + stack_nodes(stacks[n - 1])
    }
}

/// Uniqueness across the scripts of a target. Scripts that are built one
/// after the other from identifiers that differ from one another yield
/// one node for each block that becomes a node, and no two nodes of the
/// target share an identifier.
pub proof fn lemma_scripts_unique_identifiers(
    stacks: Seq<StackBuilder>,
    n: nat,
    ids: Seq<Uid>,
    at: int,
    ctx: Scope,
)
    requires
        n <= stacks.len(),
        lower_stacks(stacks, n, ids, at, ctx) is Ok,
        distinct_between(ids, at, at + stacks_demand(stacks, n)),
    ensures
        ({
            let l = lower_stacks(stacks, n, ids, at, ctx)->Ok_0;
            &&& l.blocks.len() == stacks_nodes(stacks, n)
            &&& keys_drawn_between(l.blocks, ids, at, at + stacks_demand(stacks, n))
            &&& keys_distinct(l.blocks)
        }),
    decreases n,
{
    if n > 0 {
        let m = (n - 1) as nat;
        lemma_scripts_unique_identifiers(stacks, m, ids, at, ctx);
        let sofar = lower_stacks(stacks, m, ids, at, ctx)->Ok_0;
        let here = at + stacks_demand(stacks, m);
        let end = at + stacks_demand(stacks, n);
        let sub = lower_stack(stacks[n - 1], ids[here], None, ids, here + 1, ctx)->Ok_0;
        assert(fresh_between(ids[here], ids, here + 1, end)) by {
            assert forall|j: int| here + 1 <= j < end implies (#[trigger] ids[j])@ != ids[here]@ by {
                assert(ids[here]@ != ids[j]@);
            }
        }
        lemma_stack_count(stacks[n - 1], ids[here], None, ids, here + 1, ctx);
        lemma_stack_keys(stacks[n - 1], ids[here], None, ids, here + 1, ctx);
        assert(keys_drawn_between(sub.blocks, ids, here, end)) by {
            assert forall|k: int| 0 <= k < sub.blocks.len() implies drawn_between(
                (#[trigger] sub.blocks[k]).0,
                ids,
                here,
                end,
            ) by {
                if sub.blocks[k].0 == ids[here].0 {
                    assert(here <= here < end && ids[here].0 == sub.blocks[k].0);
                } else {
                    let j = choose|j: int|
                        here + 1 <= j < end && (#[trigger] ids[j]).0 == sub.blocks[k].0;
                    assert(here <= j < end && ids[j].0 == sub.blocks[k].0);
                }
            }
        }
        lemma_join(sofar.blocks, sub.blocks, ids, at, here, end);
    }
}

/// Uniqueness. A script that is built from identifiers that differ from
/// one another and from that of its first block yields exactly one node
/// for each of its blocks and each block of the stacks nested in them (a
/// nested lone reporter, which becomes a value, not counted), and no two
/// nodes share an identifier.
pub proof fn lemma_unique_identifiers(
    stack: StackBuilder,
    first: Uid,
    ids: Seq<Uid>,
    ctx: Scope,
)
    requires
        script_built(stack, first, ids, ctx) is Ok,
        distinct_between(ids, 0, stack_demand(stack) as int),
        fresh_between(first, ids, 0, stack_demand(stack) as int),
    ensures
        script_built(stack, first, ids, ctx)->Ok_0.blocks.len() == stack_nodes(stack),
        keys_distinct(script_built(stack, first, ids, ctx)->Ok_0.blocks),
{
    lemma_stack_count(stack, first, None, ids, 0, ctx);
    lemma_stack_keys(stack, first, None, ids, 0, ctx);
}


// ---------------------------------------------------------------------
// How many nodes, and where each block's node stands
// ---------------------------------------------------------------------

/// Resolving the first `n` values of a slot yields `n` resolved values
/// and as many nodes as `values_nodes` counts.
pub proof fn lemma_values_count(
    values: Vec<Option<StackOrValue>>,
    n: nat,
    owner: Uid,
    ids: Seq<Uid>,
    at: int,
    ctx: Scope,
)
    requires
        n <= values.len(),
        lower_values(values, n, owner, ids, at, ctx) is Ok,
    ensures
        lower_values(values, n, owner, ids, at, ctx)->Ok_0.values.len() == n,
        lower_values(values, n, owner, ids, at, ctx)->Ok_0.blocks.len() == values_nodes(values, n),
    decreases values, n,
{
    if n > 0 {
        let m = (n - 1) as nat;
        lemma_values_count(values, m, owner, ids, at, ctx);
        let here = at + values_demand(values, m);
        match values[n - 1] {
            Some(StackOrValue::Stack(s)) => {
                lemma_stack_count(s, ids[here], Some(owner), ids, here + 1, ctx);
            },
            _ => {},
        }
    }
}

/// Resolving the first `n` slots of a block yields `n` resolved slots and
/// as many nodes as `inputs_nodes` counts.
pub proof fn lemma_inputs_count(
    inputs: Vec<(String, BlockInputBuilder)>,
    n: nat,
    owner: Uid,
    ids: Seq<Uid>,
    at: int,
    ctx: Scope,
)
    requires
        n <= inputs.len(),
        lower_inputs(inputs, n, owner, ids, at, ctx) is Ok,
    ensures
        lower_inputs(inputs, n, owner, ids, at, ctx)->Ok_0.inputs.len() == n,
        lower_inputs(inputs, n, owner, ids, at, ctx)->Ok_0.blocks.len() == inputs_nodes(inputs, n),
    decreases inputs, n,
{
    if n > 0 {
        let m = (n - 1) as nat;
        lemma_inputs_count(inputs, m, owner, ids, at, ctx);
        let slot = inputs[n - 1].1;
        lemma_values_count(
            slot.values,
            slot.values.len() as nat,
            owner,
            ids,
            at + inputs_demand(inputs, m),
            ctx,
        );
    }
}

/// Building a block yields as many nested nodes as `block_nested_nodes`
/// counts, and a node of the block's own form.
pub proof fn lemma_block_count(block: BlockBuilder, my: Uid, ids: Seq<Uid>, at: int, ctx: Scope)
    requires
        lower_block(block, my, ids, at, ctx) is Ok,
    ensures
        lower_block(block, my, ids, at, ctx)->Ok_0.nested.len() == block_nested_nodes(block),
        block is Normal <==> lower_block(block, my, ids, at, ctx)->Ok_0.block is Normal,
    decreases block, 0nat,
{
    match block {
        BlockBuilder::Normal(b) => {
            lemma_inputs_count(b.inputs.entries, b.inputs.entries.len() as nat, my, ids, at, ctx);
        },
        BlockBuilder::VarList(_) => {},
    }
}

/// Building the first `n` blocks of a stack yields as many nodes as
/// `chain_nodes` counts.
pub proof fn lemma_chain_count(
    blocks: Vec<BlockBuilder>,
    n: nat,
    first: Uid,
    owner: Option<Uid>,
    ids: Seq<Uid>,
    at: int,
    ctx: Scope,
)
    requires
        n <= blocks.len(),
        lower_chain(blocks, n, first, owner, ids, at, ctx) is Ok,
    ensures
        lower_chain(blocks, n, first, owner, ids, at, ctx)->Ok_0.blocks.len() == chain_nodes(
            blocks,
            n,
        ),
    decreases blocks, n,
{
    if n > 0 {
        let m = (n - 1) as nat;
        lemma_chain_count(blocks, m, first, owner, ids, at, ctx);
        lemma_block_count(
            blocks[m as int],
            chain_uid(blocks, m, first, ids, at),
            ids,
            chain_start(blocks, m, at),
            ctx,
        );
    }
}

/// Building a stack yields as many nodes as `stack_nodes` counts.
pub proof fn lemma_stack_count(
    stack: StackBuilder,
    first: Uid,
    owner: Option<Uid>,
    ids: Seq<Uid>,
    at: int,
    ctx: Scope,
)
    requires
        lower_stack(stack, first, owner, ids, at, ctx) is Ok,
    ensures
        lower_stack(stack, first, owner, ids, at, ctx)->Ok_0.blocks.len() == stack_nodes(stack),
    decreases stack, 0nat,
{
    if is_lone_reporter(stack) {
        assert(chain_nodes(stack.stack, 1) == 1) by {
            assert(chain_nodes(stack.stack, 0) == 0);
            assert(block_nested_nodes(stack.stack[0]) == 0);
        }
    } else {
        lemma_chain_count(stack.stack, stack.stack.len() as nat, first, owner, ids, at, ctx);
    }
}

/// The position, among the nodes of a lowered stack, of the node of block
/// `i`: after the nodes of the blocks before it and the nodes nested in
/// its own inputs.
pub open spec fn node_position(blocks: Vec<BlockBuilder>, i: nat) -> int {
    (chain_nodes(blocks, i) + block_nested_nodes(blocks[i as int])) as int
}

/// Linkage. In a lowered stack that is no lone reporter, the node of
/// block `i` stands at `node_position`, under the block's identifier. It
/// names the next block's node as its successor, and none where it is the
/// last. The first node has the stack's owner as parent, and every other
/// node the node of the block before it. Only the first node of a stack
/// without an owner is top-level, and only it has a place, the origin.
pub proof fn lemma_chain_links(
    blocks: Vec<BlockBuilder>,
    n: nat,
    first: Uid,
    owner: Option<Uid>,
    ids: Seq<Uid>,
    at: int,
    ctx: Scope,
    i: nat,
)
    requires
        i < n <= blocks.len(),
        lower_chain(blocks, n, first, owner, ids, at, ctx) is Ok,
    ensures
        ({
            let l = lower_chain(blocks, n, first, owner, ids, at, ctx)->Ok_0;
            let p = node_position(blocks, i);
            &&& 0 <= p < l.blocks.len()
            &&& l.blocks[p].0 == chain_uid(blocks, i, first, ids, at).0
            &&& l.blocks[p].1 is Normal
            &&& l.blocks[p].1->Normal_0.next == if i + 1 < blocks.len() {
                Some(chain_uid(blocks, i + 1, first, ids, at))
            } else {
                None
            }
            &&& l.blocks[p].1->Normal_0.parent == if i == 0 {
                owner
            } else {
                Some(chain_uid(blocks, (i - 1) as nat, first, ids, at))
            }
            &&& l.blocks[p].1->Normal_0.top_level == (i == 0 && owner is None)
            &&& l.blocks[p].1->Normal_0.x == if i == 0 && owner is None {
                Some(0i64)
            } else {
                None
            }
            &&& l.blocks[p].1->Normal_0.y == l.blocks[p].1->Normal_0.x
        }),
    decreases n,
{
    let m = (n - 1) as nat;
    lemma_chain_count(blocks, m, first, owner, ids, at, ctx);
    lemma_chain_count(blocks, n, first, owner, ids, at, ctx);
    let sofar = lower_chain(blocks, m, first, owner, ids, at, ctx)->Ok_0;
    let uid = chain_uid(blocks, m, first, ids, at);
    lemma_block_count(blocks[m as int], uid, ids, chain_start(blocks, m, at), ctx);
    let b = lower_block(blocks[m as int], uid, ids, chain_start(blocks, m, at), ctx)->Ok_0;
    let l = lower_chain(blocks, n, first, owner, ids, at, ctx)->Ok_0;
    let node = l.blocks[l.blocks.len() - 1];
    assert(l.blocks =~= sofar.blocks + b.nested + seq![node]);
    if i < m {
        lemma_chain_links(blocks, m, first, owner, ids, at, ctx, i);
        assert(l.blocks[node_position(blocks, i)] == sofar.blocks[node_position(blocks, i)]);
    }
}

/// Every node of `blocks` is an ordinary node that has a parent, is not
/// top-level and has no place.
pub open spec fn all_below(blocks: Seq<(String, BlockView)>) -> bool {
    forall|k: int|
        0 <= k < blocks.len() ==> {
            &&& (#[trigger] blocks[k]).1 is Normal
            &&& blocks[k].1->Normal_0.parent is Some
            &&& !blocks[k].1->Normal_0.top_level
            &&& blocks[k].1->Normal_0.x is None
            &&& blocks[k].1->Normal_0.y is None
        }
}

proof fn lemma_below_join(a: Seq<(String, BlockView)>, b: Seq<(String, BlockView)>)
    requires
        all_below(a),
        all_below(b),
    ensures
        all_below(a + b),
{
    let c = a + b;
    assert forall|k: int| 0 <= k < c.len() implies {
        &&& (#[trigger] c[k]).1 is Normal
        &&& c[k].1->Normal_0.parent is Some
        &&& !c[k].1->Normal_0.top_level
        &&& c[k].1->Normal_0.x is None
        &&& c[k].1->Normal_0.y is None
    } by {
        if k < a.len() {
            assert(c[k] == a[k]);
        } else {
            assert(c[k] == b[k - a.len()]);
        }
    }
}

/// The nodes of the stacks nested in the first `n` values of a slot all
/// stand below another node.
pub proof fn lemma_values_below(
    values: Vec<Option<StackOrValue>>,
    n: nat,
    owner: Uid,
    ids: Seq<Uid>,
    at: int,
    ctx: Scope,
)
    requires
        n <= values.len(),
        lower_values(values, n, owner, ids, at, ctx) is Ok,
    ensures
        all_below(lower_values(values, n, owner, ids, at, ctx)->Ok_0.blocks),
    decreases values, n,
{
    if n > 0 {
        let m = (n - 1) as nat;
        lemma_values_below(values, m, owner, ids, at, ctx);
        let sofar = lower_values(values, m, owner, ids, at, ctx)->Ok_0;
        let here = at + values_demand(values, m);
        match values[n - 1] {
            Some(StackOrValue::Stack(s)) => {
                if !is_lone_reporter(s) {
                    lemma_chain_below(
                        s.stack,
                        s.stack.len() as nat,
                        ids[here],
                        Some(owner),
                        ids,
                        here + 1,
                        ctx,
                    );
                    let sub = lower_stack(s, ids[here], Some(owner), ids, here + 1, ctx)->Ok_0;
                    lemma_below_join(sofar.blocks, sub.blocks);
                }
            },
            _ => {},
        }
    }
}

/// The nodes of the stacks nested in the first `n` slots of a block all
/// stand below another node.
pub proof fn lemma_inputs_below(
    inputs: Vec<(String, BlockInputBuilder)>,
    n: nat,
    owner: Uid,
    ids: Seq<Uid>,
    at: int,
    ctx: Scope,
)
    requires
        n <= inputs.len(),
        lower_inputs(inputs, n, owner, ids, at, ctx) is Ok,
    ensures
        all_below(lower_inputs(inputs, n, owner, ids, at, ctx)->Ok_0.blocks),
    decreases inputs, n,
{
    if n > 0 {
        let m = (n - 1) as nat;
        lemma_inputs_below(inputs, m, owner, ids, at, ctx);
        let sofar = lower_inputs(inputs, m, owner, ids, at, ctx)->Ok_0;
        let slot = inputs[n - 1].1;
        let here = at + inputs_demand(inputs, m);
        lemma_values_below(slot.values, slot.values.len() as nat, owner, ids, here, ctx);
        let v = lower_values(slot.values, slot.values.len() as nat, owner, ids, here, ctx)->Ok_0;
        lemma_below_join(sofar.blocks, v.blocks);
    }
}

/// The nodes of the first `n` blocks of a stack stand below another
/// node: all of them where the stack fills a slot, and all but the first
/// block's own node in a script.
pub proof fn lemma_chain_below(
    blocks: Vec<BlockBuilder>,
    n: nat,
    first: Uid,
    owner: Option<Uid>,
    ids: Seq<Uid>,
    at: int,
    ctx: Scope,
)
    requires
        n <= blocks.len(),
        lower_chain(blocks, n, first, owner, ids, at, ctx) is Ok,
    ensures
        ({
            let l = lower_chain(blocks, n, first, owner, ids, at, ctx)->Ok_0;
            &&& owner is Some ==> all_below(l.blocks)
            &&& owner is None && n >= 1 ==> {
                &&& node_position(blocks, 0) < l.blocks.len()
                &&& all_below(l.blocks.remove(node_position(blocks, 0)))
            }
        }),
    decreases blocks, n,
{
    if n > 0 {
        let m = (n - 1) as nat;
        lemma_chain_below(blocks, m, first, owner, ids, at, ctx);
        lemma_chain_count(blocks, m, first, owner, ids, at, ctx);
        let sofar = lower_chain(blocks, m, first, owner, ids, at, ctx)->Ok_0;
        let uid = chain_uid(blocks, m, first, ids, at);
        let start = chain_start(blocks, m, at);
        lemma_block_count(blocks[m as int], uid, ids, start, ctx);
        let b = lower_block(blocks[m as int], uid, ids, start, ctx)->Ok_0;
        let nb = blocks[m as int]->Normal_0;
        assert(blocks[m as int] == BlockBuilder::Normal(nb));
        lemma_inputs_below(nb.inputs.entries, nb.inputs.entries.len() as nat, uid, ids, start, ctx);
        let l = lower_chain(blocks, n, first, owner, ids, at, ctx)->Ok_0;
        let node = l.blocks[l.blocks.len() - 1];
        assert(l.blocks =~= sofar.blocks + b.nested + seq![node]);
        if owner is Some || m > 0 {
            assert(all_below(seq![node]));
        }
        if owner is Some {
            lemma_below_join(sofar.blocks, b.nested);
            lemma_below_join(sofar.blocks + b.nested, seq![node]);
        } else if m == 0 {
            assert(sofar.blocks.len() == 0);
            assert(l.blocks.remove(node_position(blocks, 0)) =~= b.nested);
        } else {
            let p = node_position(blocks, 0);
            lemma_chain_links(blocks, m, first, owner, ids, at, ctx, 0);
            lemma_below_join(sofar.blocks.remove(p), b.nested);
            lemma_below_join(sofar.blocks.remove(p) + b.nested, seq![node]);
            assert(l.blocks.remove(p) =~= sofar.blocks.remove(p) + b.nested + seq![node]);
        }
    }
}

/// Single root. In a lowered script that is no lone reporter, the node
/// of the first block is the only node without a parent, the only
/// top-level node, and the only node with a place; every other node,
/// nested or not, has a parent.
pub proof fn lemma_single_root(stack: StackBuilder, first: Uid, ids: Seq<Uid>, ctx: Scope)
    requires
        !is_lone_reporter(stack),
        script_built(stack, first, ids, ctx) is Ok,
    ensures
        ({
            let nodes = script_built(stack, first, ids, ctx)->Ok_0.blocks;
            let root = node_position(stack.stack, 0);
            &&& 0 <= root < nodes.len()
            &&& nodes[root].0 == first.0
            &&& nodes[root].1 is Normal
            &&& nodes[root].1->Normal_0.parent is None
            &&& nodes[root].1->Normal_0.top_level
            &&& nodes[root].1->Normal_0.x == Some(0i64)
            &&& nodes[root].1->Normal_0.y == Some(0i64)
            &&& forall|k: int|
                0 <= k < nodes.len() && k != root ==> {
                    &&& (#[trigger] nodes[k]).1 is Normal
                    &&& nodes[k].1->Normal_0.parent is Some
                    &&& !nodes[k].1->Normal_0.top_level
                    &&& nodes[k].1->Normal_0.x is None
                    &&& nodes[k].1->Normal_0.y is None
                }
        }),
{
    let blocks = stack.stack;
    let n = blocks.len() as nat;
    let nodes = lower_chain(blocks, n, first, None, ids, 0, ctx)->Ok_0.blocks;
    let root = node_position(blocks, 0);
    lemma_chain_links(blocks, n, first, None, ids, 0, ctx, 0);
    lemma_chain_below(blocks, n, first, None, ids, 0, ctx);
    let rest = nodes.remove(root);
    assert forall|k: int| 0 <= k < nodes.len() && k != root implies {
        &&& (#[trigger] nodes[k]).1 is Normal
        &&& nodes[k].1->Normal_0.parent is Some
        &&& !nodes[k].1->Normal_0.top_level
        &&& nodes[k].1->Normal_0.x is None
        &&& nodes[k].1->Normal_0.y is None
    } by {
        if k < root {
            assert(nodes[k] == rest[k]);
        } else {
            assert(nodes[k] == rest[k - 1]);
        }
    }
}

/// Every value of the slot is a value or absent: no stack is nested in
/// it.
pub open spec fn values_flat(values: Vec<Option<StackOrValue>>) -> bool {
    forall|j: int|
        0 <= j < values.len() ==> !((#[trigger] values[j]) matches Some(StackOrValue::Stack(_)))
}

/// The block is an ordinary block, and no stack is nested in its inputs.
pub open spec fn block_flat(block: BlockBuilder) -> bool {
    &&& block is Normal
    &&& forall|j: int|
        0 <= j < block->Normal_0.inputs.entries.len() ==> values_flat(
            (#[trigger] block->Normal_0.inputs.entries[j]).1.values,
        )
}

/// Every block of the stack is an ordinary block without nested stacks.
pub open spec fn stack_flat(stack: StackBuilder) -> bool {
    forall|i: int| 0 <= i < stack.stack.len() ==> block_flat(#[trigger] stack.stack[i])
}

proof fn lemma_flat_values(values: Vec<Option<StackOrValue>>, n: nat)
    requires
        n <= values.len(),
        values_flat(values),
    ensures
        values_nodes(values, n) == 0,
    decreases n,
{
    if n > 0 {
        lemma_flat_values(values, (n - 1) as nat);
        assert(!(values[n - 1] matches Some(StackOrValue::Stack(_))));
    }
}

proof fn lemma_flat_inputs(inputs: Vec<(String, BlockInputBuilder)>, n: nat)
    requires
        n <= inputs.len(),
        forall|j: int| 0 <= j < inputs.len() ==> values_flat((#[trigger] inputs[j]).1.values),
    ensures
        inputs_nodes(inputs, n) == 0,
    decreases n,
{
    if n > 0 {
        lemma_flat_inputs(inputs, (n - 1) as nat);
        assert(values_flat(inputs[n - 1].1.values));
        lemma_flat_values(inputs[n - 1].1.values, inputs[n - 1].1.values.len() as nat);
    }
}

proof fn lemma_flat_chain(blocks: Vec<BlockBuilder>, n: nat)
    requires
        n <= blocks.len(),
        forall|i: int| 0 <= i < blocks.len() ==> block_flat(#[trigger] blocks[i]),
    ensures
        chain_nodes(blocks, n) == n,
        n < blocks.len() ==> block_nested_nodes(blocks[n as int]) == 0,
    decreases n,
{
    if n > 0 {
        lemma_flat_chain(blocks, (n - 1) as nat);
    }
    if n < blocks.len() {
        assert(block_flat(blocks[n as int]));
        let b = blocks[n as int]->Normal_0;
        lemma_flat_inputs(b.inputs.entries, b.inputs.entries.len() as nat);
    }
}

/// Chain integrity. A script of `k` ordinary blocks without nested stacks
/// lowers to `k` nodes, in the order of the blocks. Each node but the last
/// names the node after it as its successor, and the last names none. The
/// first node has no parent and is top-level; every other node has the
/// node before it as parent and is not top-level.
pub proof fn lemma_chain_integrity(
    stack: StackBuilder,
    first: Uid,
    ids: Seq<Uid>,
    ctx: Scope,
)
    requires
        stack_flat(stack),
        script_built(stack, first, ids, ctx) is Ok,
    ensures
        ({
            let nodes = script_built(stack, first, ids, ctx)->Ok_0.blocks;
            let k = stack.stack.len() as int;
            &&& k >= 1
            &&& nodes.len() == k
            &&& forall|i: int| 0 <= i < k ==> (#[trigger] nodes[i]).1 is Normal
            &&& forall|i: int|
                0 <= i < k - 1 ==> (#[trigger] nodes[i]).1->Normal_0.next is Some
                    && nodes[i].1->Normal_0.next->Some_0.0 == nodes[i + 1].0
            &&& nodes[k - 1].1->Normal_0.next is None
            &&& nodes[0].1->Normal_0.parent is None
            &&& nodes[0].1->Normal_0.top_level
            &&& forall|i: int|
                1 <= i < k ==> (#[trigger] nodes[i]).1->Normal_0.parent is Some
                    && nodes[i].1->Normal_0.parent->Some_0.0 == nodes[i - 1].0
                    && !nodes[i].1->Normal_0.top_level
        }),
{
    let blocks = stack.stack;
    let k = blocks.len() as nat;
    assert(block_flat(blocks[0]));
    assert(!is_lone_reporter(stack));
    let l = lower_chain(blocks, k, first, None, ids, 0, ctx)->Ok_0;
    lemma_chain_count(blocks, k, first, None, ids, 0, ctx);
    lemma_flat_chain(blocks, k);
    assert forall|i: int| 0 <= i < k implies {
        let node = (#[trigger] l.blocks[i]).1;
        &&& node is Normal
        &&& l.blocks[i].0 == chain_uid(blocks, i as nat, first, ids, 0).0
        &&& node->Normal_0.next == if i + 1 < k {
            Some(chain_uid(blocks, (i + 1) as nat, first, ids, 0))
        } else {
            None
        }
        &&& node->Normal_0.parent == if i == 0 {
            None
        } else {
            Some(chain_uid(blocks, (i - 1) as nat, first, ids, 0))
        }
        &&& node->Normal_0.top_level == (i == 0)
    } by {
        lemma_flat_chain(blocks, i as nat);
        lemma_chain_links(blocks, k, first, None, ids, 0, ctx, i as nat);
    }
    assert forall|i: int| 0 <= i < k - 1 implies (#[trigger] l.blocks[i]).1->Normal_0.next is Some
        && l.blocks[i].1->Normal_0.next->Some_0.0 == l.blocks[i + 1].0 by {
        assert(l.blocks[i + 1].0 == chain_uid(blocks, (i + 1) as nat, first, ids, 0).0);
    }
    assert forall|i: int| 1 <= i < k implies (#[trigger] l.blocks[i]).1->Normal_0.parent is Some
        && l.blocks[i].1->Normal_0.parent->Some_0.0 == l.blocks[i - 1].0
        && !l.blocks[i].1->Normal_0.top_level by {
        assert(l.blocks[i - 1].0 == chain_uid(blocks, (i - 1) as nat, first, ids, 0).0);
    }
}

/// Splice correctness. Where a stack that is no lone reporter fills an
/// input slot of the node `owner`, its nodes join the output, as many as
/// `stack_nodes` counts, and the node of its first block has `owner` as
/// parent, is not top-level and has no place.
pub proof fn lemma_spliced_root(
    stack: StackBuilder,
    first: Uid,
    owner: Uid,
    ids: Seq<Uid>,
    at: int,
    ctx: Scope,
)
    requires
        !is_lone_reporter(stack),
        lower_stack(stack, first, Some(owner), ids, at, ctx) is Ok,
    ensures
        ({
            let nodes = lower_stack(stack, first, Some(owner), ids, at, ctx)->Ok_0.blocks;
            let p = node_position(stack.stack, 0);
            &&& nodes.len() == stack_nodes(stack)
            &&& 0 <= p < nodes.len()
            &&& nodes[p].0 == first.0
            &&& nodes[p].1 is Normal
            &&& nodes[p].1->Normal_0.parent == Some(owner)
            &&& !nodes[p].1->Normal_0.top_level
            &&& nodes[p].1->Normal_0.x is None
            &&& nodes[p].1->Normal_0.y is None
        }),
{
    lemma_stack_count(stack, first, Some(owner), ids, at, ctx);
    lemma_chain_links(
        stack.stack,
        stack.stack.len() as nat,
        first,
        Some(owner),
        ids,
        at,
        ctx,
        0,
    );
}

/// Reporter unwrapping. Where value `n - 1` of an input slot is a stack
/// that is a lone reporter, resolving it adds no node to the output, and
/// the resolved value is the reference itself: the reporter's name with
/// the identifier that the name has in the reporter's tier.
pub proof fn lemma_reporter_unwrapped(
    values: Vec<Option<StackOrValue>>,
    n: nat,
    owner: Uid,
    ids: Seq<Uid>,
    at: int,
    ctx: Scope,
)
    requires
        0 < n <= values.len(),
        values[n - 1] matches Some(StackOrValue::Stack(s)) && is_lone_reporter(s),
        lower_values(values, n, owner, ids, at, ctx) is Ok,
    ensures
        ({
            let before = lower_values(values, (n - 1) as nat, owner, ids, at, ctx);
            let after = lower_values(values, n, owner, ids, at, ctx)->Ok_0;
            let reporter = values[n - 1]->Some_0->Stack_0.stack[0]->VarList_0;
            let id = ctx.resolved(reporter.from, reporter.category(), reporter.name@);
            &&& before is Ok
            &&& after.blocks == before->Ok_0.blocks
            &&& after.values.len() == n
            &&& id is Some
            &&& after.values[n - 1] == Some(
                UidOrValue::Value(
                    match reporter.kind {
                        ListOrVariable::Variable => BlockInputValue::Variable {
                            name: reporter.name,
                            id: id->Some_0,
                        },
                        ListOrVariable::List => BlockInputValue::List {
                            name: reporter.name,
                            id: id->Some_0,
                        },
                    },
                ),
            )
        }),
{
    lemma_values_count(values, (n - 1) as nat, owner, ids, at, ctx);
    let s = values[n - 1]->Some_0->Stack_0;
    let here = at + values_demand(values, (n - 1) as nat);
    let sub = lower_stack(s, ids[here], Some(owner), ids, here + 1, ctx);
    assert(values[n - 1] == Some(StackOrValue::Stack(s)));
    assert(sub is Ok);
    let reporter = s.stack[0]->VarList_0;
    assert(s.stack[0] == BlockBuilder::VarList(reporter));
    let built = lower_block(s.stack[0], ids[here], ids, here + 1, ctx);
    assert(built is Ok);
    assert(sub->Ok_0.blocks[0].1 == crate::lowering::at_origin(built->Ok_0.block));
}

/// Field resolution miss. Where the inputs of an ordinary block resolve
/// and field `j` is the first whose name is looked up and not declared,
/// building the block fails: nothing is yielded, and the error names the
/// field and the name.
pub proof fn lemma_unresolved_field(
    b: BlockNormalBuilder,
    my: Uid,
    ids: Seq<Uid>,
    at: int,
    ctx: Scope,
    j: int,
)
    requires
        lower_inputs(b.inputs.entries, b.inputs.entries.len() as nat, my, ids, at, ctx) is Ok,
        0 <= j < b.fields.entries.len(),
        b.fields.entries[j].1.resolved(ctx) is None,
        forall|i: int| 0 <= i < j ==> (#[trigger] b.fields.entries[i]).1.resolved(ctx) is Some,
    ensures
        lower_block(BlockBuilder::Normal(b), my, ids, at, ctx) == Err::<LoweredBlock, BuildError>(
            BuildError::UnresolvedReference {
                field: Some(b.fields.entries[j].0),
                name: b.fields.entries[j].1.value,
            },
        ),
{
    let fields = b.fields.entries@;
    lemma_fields_resolve(fields, j as nat, ctx);
    assert(lower_fields(fields, (j + 1) as nat, ctx) is Err);
    lemma_fields_failure_stays(fields, (j + 1) as nat, fields.len(), ctx);
}

proof fn lemma_fields_resolve(fields: Seq<(String, BlockFieldBuilder)>, n: nat, ctx: Scope)
    requires
        n <= fields.len(),
        forall|i: int| 0 <= i < n ==> (#[trigger] fields[i]).1.resolved(ctx) is Some,
    ensures
        lower_fields(fields, n, ctx) is Ok,
    decreases n,
{
    if n > 0 {
        lemma_fields_resolve(fields, (n - 1) as nat, ctx);
        assert(fields[n - 1].1.resolved(ctx) is Some);
    }
}

/// A field that names a variable of the owning target resolves exactly
/// when that target declares the name.
pub proof fn lemma_sprite_variable_miss(field: BlockFieldBuilder, ctx: Scope)
    requires
        field.kind == FieldKind::SpriteVariable,
    ensures
        field.resolved(ctx) is None <==> lookup(ctx.this_sprite_vars, field.value@) is None,
{
}

/// Where the block with the unresolved field is the first of a script,
/// its inputs resolve, and the script may draw as many identifiers as it
/// needs, the error of the build is that of the field.
pub proof fn lemma_unresolved_field_fails_script(
    stack: StackBuilder,
    first: Uid,
    ids: Seq<Uid>,
    ctx: Scope,
    j: int,
)
    requires
        stack.stack.len() >= 1,
        stack.stack[0] is Normal,
        ids.len() >= stack_demand(stack),
        ({
            let b = stack.stack[0]->Normal_0;
            &&& lower_inputs(b.inputs.entries, b.inputs.entries.len() as nat, first, ids, 0, ctx)
                is Ok
            &&& 0 <= j < b.fields.entries.len()
            &&& b.fields.entries[j].1.resolved(ctx) is None
            &&& forall|i: int|
                0 <= i < j ==> (#[trigger] b.fields.entries[i]).1.resolved(ctx) is Some
        }),
    ensures
        script_built(stack, first, ids, ctx) == Err::<Lowered, BuildError>(
            BuildError::UnresolvedReference {
                field: Some(stack.stack[0]->Normal_0.fields.entries[j].0),
                name: stack.stack[0]->Normal_0.fields.entries[j].1.value,
            },
        ),
{
    let b = stack.stack[0]->Normal_0;
    lemma_unresolved_field(b, first, ids, 0, ctx, j);
    assert(stack.stack[0] == BlockBuilder::Normal(b));
    assert(lower_chain(stack.stack, 0, first, None, ids, 0, ctx) is Ok);
    assert(lower_chain(stack.stack, 1, first, None, ids, 0, ctx) is Err);
    lemma_chain_failure_stays(stack.stack, 1, stack.stack.len() as nat, first, None, ids, 0, ctx);
}

proof fn lemma_fields_all_resolve(
    fields: Seq<(String, BlockFieldBuilder)>,
    n: nat,
    ctx: Scope,
    j: int,
)
    requires
        0 <= j < n <= fields.len(),
        lower_fields(fields, n, ctx) is Ok,
    ensures
        fields[j].1.resolved(ctx) is Some,
    decreases n,
{
    if j < n - 1 {
        lemma_fields_all_resolve(fields, (n - 1) as nat, ctx, j);
    }
}

/// A script with an ordinary block that has a field whose name is looked
/// up and not declared yields no nodes: the build fails, whatever else
/// the script holds and whichever identifiers it may draw.
pub proof fn lemma_unresolved_field_fails(
    stack: StackBuilder,
    first: Uid,
    ids: Seq<Uid>,
    ctx: Scope,
    i: int,
    j: int,
)
    requires
        0 <= i < stack.stack.len(),
        stack.stack[i] is Normal,
        0 <= j < stack.stack[i]->Normal_0.fields.entries.len(),
        stack.stack[i]->Normal_0.fields.entries[j].1.resolved(ctx) is None,
    ensures
        script_built(stack, first, ids, ctx) is Err,
{
    let blocks = stack.stack;
    let n = blocks.len() as nat;
    if ids.len() >= stack_demand(stack) && !is_lone_reporter(stack) {
        if lower_chain(blocks, (i + 1) as nat, first, None, ids, 0, ctx) is Ok {
            let b = blocks[i]->Normal_0;
            assert(blocks[i] == BlockBuilder::Normal(b));
            let built = lower_block(
                blocks[i],
                chain_uid(blocks, i as nat, first, ids, 0),
                ids,
                chain_start(blocks, i as nat, 0),
                ctx,
            );
            assert(built is Ok);
            assert(lower_fields(b.fields.entries@, b.fields.entries@.len(), ctx) is Ok);
            lemma_fields_all_resolve(b.fields.entries@, b.fields.entries@.len(), ctx, j);
        } else {
            lemma_chain_failure_stays(blocks, (i + 1) as nat, n, first, None, ids, 0, ctx);
        }
    }
}

/// Idempotent resolution. Two results of resolving one field against one
/// context are the same: the same error, or the same text with the same
/// identifier.
pub proof fn lemma_resolution_idempotent(
    field: BlockFieldBuilder,
    ctx: Scope,
    first: Result<BlockField, BuildError>,
    second: Result<BlockField, BuildError>,
)
    requires
        field.is_outcome(ctx, first),
        field.is_outcome(ctx, second),
    ensures
        first == second,
{
}


// ---------------------------------------------------------------------
// Every reference names a node
// ---------------------------------------------------------------------

/// Some node of `blocks` stands under the identifier `uid`.
pub open spec fn has_node(blocks: Seq<(String, BlockView)>, uid: Uid) -> bool {
    exists|k: int| 0 <= k < blocks.len() && (#[trigger] blocks[k]).0 == uid.0
}

/// The resolved value refers to a node by its identifier.
pub open spec fn is_reference(value: Option<UidOrValue>) -> bool {
    value is Some && value->Some_0 is Uid
}

/// Every identifier among the resolved values of a slot names a node of
/// `blocks`.
pub open spec fn values_resolve(
    values: Seq<Option<UidOrValue>>,
    blocks: Seq<(String, BlockView)>,
) -> bool {
    forall|j: int|
        0 <= j < values.len() && is_reference(#[trigger] values[j]) ==> has_node(
            blocks,
            values[j]->Some_0->Uid_0,
        )
}

/// Every identifier in the resolved slots of a node names a node of
/// `blocks`.
pub open spec fn inputs_resolve(
    inputs: Seq<(String, BlockInputView)>,
    blocks: Seq<(String, BlockView)>,
) -> bool {
    forall|j: int| 0 <= j < inputs.len() ==> values_resolve((#[trigger] inputs[j]).1.inputs, blocks)
}

/// The successor and the slots of `node` name nodes of `blocks`, and so
/// does its parent, unless the parent is `above`.
pub open spec fn node_resolves(
    node: BlockNormalView,
    blocks: Seq<(String, BlockView)>,
    above: Option<Uid>,
) -> bool {
    &&& node.next is Some ==> has_node(blocks, node.next->Some_0)
    &&& node.parent is Some ==> has_node(blocks, node.parent->Some_0) || node.parent == above
    &&& inputs_resolve(node.inputs, blocks)
}

/// Every ordinary node among the first `upto` of `blocks` refers to nodes
/// of `blocks` only, but for a parent that is `above`.
pub open spec fn closed_upto(
    blocks: Seq<(String, BlockView)>,
    upto: int,
    above: Option<Uid>,
) -> bool {
    forall|k: int|
        0 <= k < upto && k < blocks.len() && (#[trigger] blocks[k]).1 is Normal ==> node_resolves(
            blocks[k].1->Normal_0,
            blocks,
            above,
        )
}

/// Every ordinary node of `blocks` refers to nodes of `blocks` only, but
/// for a parent that is `above`.
pub open spec fn closed(blocks: Seq<(String, BlockView)>, above: Option<Uid>) -> bool {
    closed_upto(blocks, blocks.len() as int, above)
}

proof fn lemma_has_node_grows(
    a: Seq<(String, BlockView)>,
    b: Seq<(String, BlockView)>,
    uid: Uid,
)
    ensures
        has_node(a, uid) ==> has_node(a + b, uid),
        has_node(b, uid) ==> has_node(a + b, uid),
{
    if has_node(a, uid) {
        let k = choose|k: int| 0 <= k < a.len() && (#[trigger] a[k]).0 == uid.0;
        assert((a + b)[k] == a[k]);
    }
    if has_node(b, uid) {
        let k = choose|k: int| 0 <= k < b.len() && (#[trigger] b[k]).0 == uid.0;
        assert((a + b)[a.len() + k] == b[k]);
    }
}

proof fn lemma_values_resolve_grows(
    values: Seq<Option<UidOrValue>>,
    a: Seq<(String, BlockView)>,
    b: Seq<(String, BlockView)>,
)
    ensures
        values_resolve(values, a) ==> values_resolve(values, a + b),
        values_resolve(values, b) ==> values_resolve(values, a + b),
{
    assert forall|j: int| 0 <= j < values.len() && is_reference(#[trigger] values[j]) implies (
    values_resolve(values, a) ==> has_node(a + b, values[j]->Some_0->Uid_0)) && (values_resolve(
        values,
        b,
    ) ==> has_node(a + b, values[j]->Some_0->Uid_0)) by {
        lemma_has_node_grows(a, b, values[j]->Some_0->Uid_0);
    }
}

proof fn lemma_inputs_resolve_grows(
    inputs: Seq<(String, BlockInputView)>,
    a: Seq<(String, BlockView)>,
    b: Seq<(String, BlockView)>,
)
    ensures
        inputs_resolve(inputs, a) ==> inputs_resolve(inputs, a + b),
        inputs_resolve(inputs, b) ==> inputs_resolve(inputs, a + b),
{
    assert forall|j: int| 0 <= j < inputs.len() implies (inputs_resolve(inputs, a)
        ==> values_resolve((#[trigger] inputs[j]).1.inputs, a + b)) && (inputs_resolve(inputs, b)
        ==> values_resolve(inputs[j].1.inputs, a + b)) by {
        lemma_values_resolve_grows(inputs[j].1.inputs, a, b);
    }
}

proof fn lemma_node_resolves_grows(
    node: BlockNormalView,
    a: Seq<(String, BlockView)>,
    b: Seq<(String, BlockView)>,
    above: Option<Uid>,
)
    ensures
        node_resolves(node, a, above) ==> node_resolves(node, a + b, above),
        node_resolves(node, b, above) ==> node_resolves(node, a + b, above),
{
    lemma_inputs_resolve_grows(node.inputs, a, b);
    if node.next is Some {
        lemma_has_node_grows(a, b, node.next->Some_0);
    }
    if node.parent is Some {
        lemma_has_node_grows(a, b, node.parent->Some_0);
    }
}

/// Two closed runs of nodes, one after the other, are closed.
proof fn lemma_closed_join(
    a: Seq<(String, BlockView)>,
    b: Seq<(String, BlockView)>,
    above: Option<Uid>,
)
    requires
        closed(a, above),
        closed(b, above),
    ensures
        closed(a + b, above),
{
    let c = a + b;
    assert forall|k: int| 0 <= k < c.len() && (#[trigger] c[k]).1 is Normal implies node_resolves(
        c[k].1->Normal_0,
        c,
        above,
    ) by {
        lemma_node_resolves_grows(c[k].1->Normal_0, a, b, above);
        if k < a.len() {
            assert(c[k] == a[k]);
        } else {
            assert(c[k] == b[k - a.len()]);
        }
    }
}

/// The nodes of the stacks nested in the first `n` values of a slot of
/// the node `owner` refer to one another or, as parent, to `owner`; and
/// every identifier among the resolved values names one of them.
pub proof fn lemma_values_closed(
    values: Vec<Option<StackOrValue>>,
    n: nat,
    owner: Uid,
    ids: Seq<Uid>,
    at: int,
    ctx: Scope,
)
    requires
        n <= values.len(),
        lower_values(values, n, owner, ids, at, ctx) is Ok,
    ensures
        ({
            let l = lower_values(values, n, owner, ids, at, ctx)->Ok_0;
            &&& closed(l.blocks, Some(owner))
            &&& values_resolve(l.values, l.blocks)
        }),
    decreases values, n,
{
    if n > 0 {
        let m = (n - 1) as nat;
        lemma_values_closed(values, m, owner, ids, at, ctx);
        lemma_values_count(values, m, owner, ids, at, ctx);
        let sofar = lower_values(values, m, owner, ids, at, ctx)->Ok_0;
        let l = lower_values(values, n, owner, ids, at, ctx)->Ok_0;
        let here = at + values_demand(values, m);
        let added: Seq<(String, BlockView)> = match values[n - 1] {
            Some(StackOrValue::Stack(s)) => if is_lone_reporter(s) {
                Seq::empty()
            } else {
                lower_stack(s, ids[here], Some(owner), ids, here + 1, ctx)->Ok_0.blocks
            },
            _ => Seq::empty(),
        };
        assert(l.blocks =~= sofar.blocks + added);
        match values[n - 1] {
            Some(StackOrValue::Stack(s)) => {
                if !is_lone_reporter(s) {
                    let k = s.stack.len() as nat;
                    lemma_chain_closed(s.stack, k, ids[here], Some(owner), ids, here + 1, ctx);
                    lemma_chain_links(s.stack, k, ids[here], Some(owner), ids, here + 1, ctx, 0);
                    assert(has_node(added, ids[here])) by {
                        let p = node_position(s.stack, 0);
                        assert(added[p].0 == ids[here].0);
                    }
                    lemma_has_node_grows(sofar.blocks, added, ids[here]);
                } else {
                    assert(closed(added, Some(owner)));
                }
            },
            _ => {
                assert(closed(added, Some(owner)));
            },
        }
        lemma_closed_join(sofar.blocks, added, Some(owner));
        lemma_values_resolve_grows(sofar.values, sofar.blocks, added);
        assert forall|j: int|
            0 <= j < l.values.len() && is_reference(#[trigger] l.values[j]) implies has_node(
            l.blocks,
            l.values[j]->Some_0->Uid_0,
        ) by {
            if j < m {
                assert(l.values[j] == sofar.values[j]);
            }
        }
    }
}

/// The nodes of the stacks nested in the first `n` slots of the node
/// `owner` refer to one another or, as parent, to `owner`; and every
/// identifier in the resolved slots names one of them.
pub proof fn lemma_inputs_closed(
    inputs: Vec<(String, BlockInputBuilder)>,
    n: nat,
    owner: Uid,
    ids: Seq<Uid>,
    at: int,
    ctx: Scope,
)
    requires
        n <= inputs.len(),
        lower_inputs(inputs, n, owner, ids, at, ctx) is Ok,
    ensures
        ({
            let l = lower_inputs(inputs, n, owner, ids, at, ctx)->Ok_0;
            &&& closed(l.blocks, Some(owner))
            &&& inputs_resolve(l.inputs, l.blocks)
        }),
    decreases inputs, n,
{
    if n > 0 {
        let m = (n - 1) as nat;
        lemma_inputs_closed(inputs, m, owner, ids, at, ctx);
        lemma_inputs_count(inputs, m, owner, ids, at, ctx);
        let sofar = lower_inputs(inputs, m, owner, ids, at, ctx)->Ok_0;
        let l = lower_inputs(inputs, n, owner, ids, at, ctx)->Ok_0;
        let slot = inputs[n - 1].1;
        let here = at + inputs_demand(inputs, m);
        lemma_values_closed(slot.values, slot.values.len() as nat, owner, ids, here, ctx);
        let v = lower_values(slot.values, slot.values.len() as nat, owner, ids, here, ctx)->Ok_0;
        lemma_closed_join(sofar.blocks, v.blocks, Some(owner));
        lemma_inputs_resolve_grows(sofar.inputs, sofar.blocks, v.blocks);
        lemma_values_resolve_grows(v.values, sofar.blocks, v.blocks);
        assert forall|j: int| 0 <= j < l.inputs.len() implies values_resolve(
            (#[trigger] l.inputs[j]).1.inputs,
            l.blocks,
        ) by {
            if j < m {
                assert(l.inputs[j] == sofar.inputs[j]);
            }
        }
    }
}

/// The nodes of the first `n` blocks of a stack refer to one another or,
/// as parent, to the stack's owner; but the last of them names as its
/// successor the block that follows, where one does.
pub proof fn lemma_chain_closed(
    blocks: Vec<BlockBuilder>,
    n: nat,
    first: Uid,
    owner: Option<Uid>,
    ids: Seq<Uid>,
    at: int,
    ctx: Scope,
)
    requires
        n <= blocks.len(),
        lower_chain(blocks, n, first, owner, ids, at, ctx) is Ok,
    ensures
        ({
            let l = lower_chain(blocks, n, first, owner, ids, at, ctx)->Ok_0;
            &&& closed_upto(l.blocks, l.blocks.len() - 1, owner)
            &&& n == blocks.len() ==> closed(l.blocks, owner)
            &&& n >= 1 ==> {
                let last = l.blocks[l.blocks.len() - 1].1->Normal_0;
                &&& l.blocks.len() >= 1
                &&& l.blocks[l.blocks.len() - 1].1 is Normal
                &&& l.blocks[l.blocks.len() - 1].0 == chain_uid(
                    blocks,
                    (n - 1) as nat,
                    first,
                    ids,
                    at,
                ).0
                &&& last.parent is Some ==> has_node(l.blocks, last.parent->Some_0) || last.parent
                    == owner
                &&& inputs_resolve(last.inputs, l.blocks)
                &&& last.next == if n < blocks.len() {
                    Some(chain_uid(blocks, n, first, ids, at))
                } else {
                    None
                }
            }
        }),
    decreases blocks, n,
{
    if n > 0 {
        let m = (n - 1) as nat;
        lemma_chain_closed(blocks, m, first, owner, ids, at, ctx);
        let sofar = lower_chain(blocks, m, first, owner, ids, at, ctx)->Ok_0;
        let uid = chain_uid(blocks, m, first, ids, at);
        let start = chain_start(blocks, m, at);
        let b = lower_block(blocks[m as int], uid, ids, start, ctx)->Ok_0;
        let nb = blocks[m as int]->Normal_0;
        assert(blocks[m as int] == BlockBuilder::Normal(nb));
        lemma_inputs_closed(nb.inputs.entries, nb.inputs.entries.len() as nat, uid, ids, start, ctx);
        let l = lower_chain(blocks, n, first, owner, ids, at, ctx)->Ok_0;
        let entry = l.blocks[l.blocks.len() - 1];
        let node = entry.1->Normal_0;
        let tail = b.nested + seq![entry];
        assert(l.blocks =~= sofar.blocks + tail);
        assert(has_node(tail, uid)) by {
            assert(tail[b.nested.len() as int].0 == uid.0);
        }
        lemma_has_node_grows(sofar.blocks, tail, uid);
        // the nested nodes refer to one another or, as parent, to this node
        assert forall|k: int|
            0 <= k < tail.len() - 1 && (#[trigger] tail[k]).1 is Normal implies node_resolves(
            tail[k].1->Normal_0,
            l.blocks,
            owner,
        ) by {
            assert(tail[k] == b.nested[k]);
            let inner = b.nested[k].1->Normal_0;
            assert(node_resolves(inner, b.nested, Some(uid)));
            lemma_node_resolves_grows(inner, b.nested, seq![entry], Some(uid));
            lemma_node_resolves_grows(inner, sofar.blocks, tail, Some(uid));
            lemma_inputs_resolve_grows(inner.inputs, b.nested, seq![entry]);
            lemma_inputs_resolve_grows(inner.inputs, sofar.blocks, tail);
            if inner.next is Some {
                lemma_has_node_grows(b.nested, seq![entry], inner.next->Some_0);
                lemma_has_node_grows(sofar.blocks, tail, inner.next->Some_0);
            }
            if inner.parent is Some && has_node(b.nested, inner.parent->Some_0) {
                lemma_has_node_grows(b.nested, seq![entry], inner.parent->Some_0);
                lemma_has_node_grows(sofar.blocks, tail, inner.parent->Some_0);
            }
        }
        // this node's slots name nested nodes
        lemma_inputs_resolve_grows(node.inputs, b.nested, seq![entry]);
        lemma_inputs_resolve_grows(node.inputs, sofar.blocks, tail);
        // the nodes before: what they named, they still name; and the node
        // of the block before names this node as its successor
        assert forall|k: int|
            0 <= k < sofar.blocks.len() && (#[trigger] l.blocks[k]).1 is Normal implies node_resolves(
            l.blocks[k].1->Normal_0,
            l.blocks,
            owner,
        ) by {
            assert(l.blocks[k] == sofar.blocks[k]);
            let earlier = sofar.blocks[k].1->Normal_0;
            lemma_inputs_resolve_grows(earlier.inputs, sofar.blocks, tail);
            if earlier.parent is Some && has_node(sofar.blocks, earlier.parent->Some_0) {
                lemma_has_node_grows(sofar.blocks, tail, earlier.parent->Some_0);
            }
            if k < sofar.blocks.len() - 1 {
                lemma_node_resolves_grows(earlier, sofar.blocks, tail, owner);
            }
        }
        if m > 0 {
            let before = chain_uid(blocks, (m - 1) as nat, first, ids, at);
            assert(has_node(sofar.blocks, before)) by {
                assert(sofar.blocks[sofar.blocks.len() - 1].0 == before.0);
            }
            lemma_has_node_grows(sofar.blocks, tail, before);
        }
        assert forall|k: int|
            0 <= k < l.blocks.len() - 1 && (#[trigger] l.blocks[k]).1 is Normal implies node_resolves(
            l.blocks[k].1->Normal_0,
            l.blocks,
            owner,
        ) by {
            if k >= sofar.blocks.len() {
                assert(l.blocks[k] == tail[k - sofar.blocks.len()]);
            }
        }
    }
}

/// Closure. Every reference in a lowered script names a node of the
/// script: the successor and the parent of each node, and every
/// identifier in its resolved slots.
pub proof fn lemma_references_resolve(stack: StackBuilder, first: Uid, ids: Seq<Uid>, ctx: Scope)
    requires
        script_built(stack, first, ids, ctx) is Ok,
    ensures
        closed(script_built(stack, first, ids, ctx)->Ok_0.blocks, None),
{
    if !is_lone_reporter(stack) {
        lemma_chain_closed(stack.stack, stack.stack.len() as nat, first, None, ids, 0, ctx);
    }
}

} // verus!
