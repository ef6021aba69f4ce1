//! Stacks: blocks in the order in which they run.

use crate::block::{BlockBuilder, BlockNormalBuilder, BlockVarListBuilder};
use crate::build_context::TargetContext;
use crate::engine::{build_stack, count_stack};
use crate::error::BuildError;
use crate::lowering::{all_generated, generated_count, script_built, stack_demand, Lowered};
use crate::schema::{blocks_view, Block, Comment};
use crate::table::Table;
use crate::uid::{generate_many, Uid};
use vstd::prelude::*;

verus! {

/// An ordered sequence of blocks: a script, or the expression that fills an
/// input slot.
#[derive(Debug, PartialEq, Eq)]
pub struct StackBuilder {
    pub stack: Vec<BlockBuilder>,
}

impl StackBuilder {
    /// A stack of one ordinary block.
    pub fn start(block: BlockNormalBuilder) -> (s: StackBuilder)
        ensures
            s.stack@ == seq![BlockBuilder::Normal(block)],
    {
        StackBuilder::start_with_capacity(1, BlockBuilder::Normal(block))
    }

    /// A stack of one reporter of a variable or list.
    pub fn start_varlist(block: BlockVarListBuilder) -> (s: StackBuilder)
        ensures
            s.stack@ == seq![BlockBuilder::VarList(block)],
    {
        StackBuilder::start_with_capacity(1, BlockBuilder::VarList(block))
    }

    /// A stack of one block, with room for `capacity` blocks.
    pub fn start_with_capacity(capacity: usize, block: BlockBuilder) -> (s: StackBuilder)
        ensures
            s.stack@ == seq![block],
    {
        let mut stack = Vec::with_capacity(capacity);
        stack.push(block);
        assert(stack@ =~= seq![block]);
        StackBuilder { stack }
    }

    /// An empty stack with room for `capacity` blocks.
    pub fn with_capacity(capacity: usize) -> (s: StackBuilder)
        ensures
            s.stack@ == Seq::<BlockBuilder>::empty(),
    {
        StackBuilder { stack: Vec::with_capacity(capacity) }
    }

    /// An empty stack.
    pub fn new() -> (s: StackBuilder)
        ensures
            s.stack@ == Seq::<BlockBuilder>::empty(),
    {
        StackBuilder { stack: Vec::new() }
    }

    /// The blocks of `self` followed by those of `next_stack`.
    pub fn next(self, next_stack: StackBuilder) -> (s: StackBuilder)
        ensures
            s.stack@ == self.stack@ + next_stack.stack@,
    {
        let mut s = self;
        let mut tail = next_stack;
        s.stack.append(&mut tail.stack);
        s
    }

    /// Places the first block of the stack.
    pub fn move_head(self, x: i64, y: i64) -> (s: StackBuilder)
        requires
            self.stack@.len() > 0,
        ensures
            s.stack@ == self.stack@.update(0, self.stack@[0].moved(x, y)),
    {
        let mut s = self;
        let head = s.stack.remove(0);
        s.stack.insert(0, head.pos(x, y));
        assert(s.stack@ =~= self.stack@.update(0, self.stack@[0].moved(x, y)));
        s
    }

    /// Places the first block of the stack, in place.
    pub fn mut_move_head(&mut self, x: i64, y: i64) -> (s: &mut Self)
        requires
            old(self).stack@.len() > 0,
        ensures
            s.stack@ == old(self).stack@.update(0, old(self).stack@[0].moved(x, y)),
            *final(self) == *final(s),
    {
        let head = self.stack.remove(0);
        self.stack.insert(0, head.pos(x, y));
        assert(self.stack@ =~= old(self).stack@.update(0, old(self).stack@[0].moved(x, y)));
        self
    }

    /// `r` is what a build with the outcome `outcome` hands back, and
    /// `after` is what it leaves of the comments `before`: on success the
    /// nodes, and the registered comments added after those that were
    /// there; on failure the error, and the comments untouched.
    pub open spec fn hands_back(
        outcome: Result<Lowered, BuildError>,
        r: Result<Table<Block>, BuildError>,
        before: Table<Comment>,
        after: Table<Comment>,
    ) -> bool {
        match outcome {
            Ok(l) => {
                &&& r is Ok
                &&& blocks_view(r->Ok_0.entries@) == l.blocks
                &&& after.entries@ == before.entries@ + l.comments
            },
            Err(e) => r is Err && r->Err_0 == e && after == before,
        }
    }

    /// The number of fresh identifiers that building the stack draws;
    /// `None` where the number does not fit a `usize`.
    pub fn demand(&self) -> (r: Option<usize>)
        ensures
            match r {
                Some(d) => d == stack_demand(*self),
                None => stack_demand(*self) > usize::MAX,
            },
    {
        count_stack(self)
    }

    /// Lowers the stack as a script of its own, drawing fresh identifiers
    /// from `ids` in order. `first_block_uid` becomes the identifier of the
    /// first block. The comments attached to blocks are added to
    /// `comment_buff`.
    pub fn build_with(
        &self,
        first_block_uid: &Uid,
        ids: &Vec<Uid>,
        comment_buff: &mut Table<Comment>,
        target_context: &TargetContext,
    ) -> (r: Result<Table<Block>, BuildError>)
        ensures
            StackBuilder::hands_back(
                script_built(*self, *first_block_uid, ids@, target_context@),
                r,
                *old(comment_buff),
                *final(comment_buff),
            ),
    {
        let supply: usize = ids.len();
        let enough = match count_stack(self) {
            Some(d) => d <= supply,
            None => false,
        };
        if !enough {
            return Err(BuildError::IdentifiersExhausted);
        }
        let mut blocks: Vec<(String, Block)> = Vec::new();
        let mut comments: Vec<(String, Comment)> = Vec::new();
        match build_stack(
            self,
            first_block_uid,
            &None,
            ids,
            0,
            target_context,
            &mut blocks,
            &mut comments,
        ) {
            Err(e) => Err(e),
            Ok(_) => {
                comment_buff.entries.append(&mut comments);
                let table = Table { entries: blocks };
                proof {
                    let l = script_built(*self, *first_block_uid, ids@, target_context@)->Ok_0;
                    assert(blocks_view(table.entries@) =~= l.blocks);
                }
                Ok(table)
            },
        }
    }

    /// Lowers the stack as a script of its own, with fresh random
    /// identifiers: `build_with` on as many identifiers as the build draws,
    /// each with the shape of a generated one.
    pub fn build(
        &self,
        first_block_uid: &Uid,
        comment_buff: &mut Table<Comment>,
        target_context: &TargetContext,
    ) -> (r: Result<Table<Block>, BuildError>)
        ensures
            exists|ids: Seq<Uid>|
                all_generated(ids) && ids.len() == generated_count(stack_demand(*self))
                    && #[trigger] StackBuilder::hands_back(
                    script_built(*self, *first_block_uid, ids, target_context@),
                    r,
                    *old(comment_buff),
                    *final(comment_buff),
                ),
    {
        let ids = match count_stack(self) {
            Some(d) => generate_many(d),
            None => Vec::new(),
        };
        let r = self.build_with(first_block_uid, &ids, comment_buff, target_context);
        proof {
            assert(all_generated(ids@));
            assert(StackBuilder::hands_back(
                script_built(*self, *first_block_uid, ids@, target_context@),
                r,
                *old(comment_buff),
                *comment_buff,
            ));
        }
        r
    }
}

} // verus!
