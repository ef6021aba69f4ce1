//! Targets: the stage and the sprites, each with its variables, lists,
//! scripts, costumes and sounds.
//!
//! Building a target draws one fresh identifier for each of its variables,
//! then one for each of its lists, then for each script one for its first
//! block and what the script's own build draws.

use crate::asset::{CostumeBuilder, SoundBuilder};
use crate::build_context::{GlobalNames, GlobalVarListContext, Scope, TargetContext};
use crate::comment::CommentBuilder;
use crate::data::{ListBuilder, VariableBuilder};
use crate::engine::{build_stack, count_stack};
use crate::error::BuildError;
use crate::lowering::{all_generated, generated_count, lower_stack, stack_demand, Lowered};
use crate::resource::Resource;
use crate::schema::{
    blocks_view, Block, Broadcast, Comment, Costume, List, RotationStyle, Sound, Sprite, Stage,
    Target, Variable, VideoState,
};
use crate::stack::StackBuilder;
use crate::table::{inserted, Table};
use crate::uid::{generate_many, is_generated, Uid};
use vstd::prelude::*;

verus! {

/// Describes what the stage and every sprite have in common.
#[derive(Debug, PartialEq, Eq)]
pub struct TargetBuilder {
    pub name: String,
    pub variables: Table<VariableBuilder>,
    pub lists: Table<ListBuilder>,
    pub broadcasts: Table<Uid>,
    pub block_stackes: Vec<StackBuilder>,
    pub comments: Table<Comment>,
    pub costumes: Vec<CostumeBuilder>,
    pub sounds: Vec<SoundBuilder>,
    pub current_costume: u64,
    pub layer_order: u64,
    pub volume: i64,
}

// ---------------------------------------------------------------------
// What building a target yields
// ---------------------------------------------------------------------

/// The number of identifiers that the first `n` scripts draw: for each,
/// one for its first block and what its build draws.
pub open spec fn stacks_demand(stacks: Seq<StackBuilder>, n: nat) -> nat
    decreases n,
{
    if n == 0 || n > stacks.len() {
        0
    } else {
        stacks_demand(stacks, (n - 1) as nat) + 1 + stack_demand(stacks[n - 1])
    }
}

/// The names of `entries`, each with the identifier drawn for it: entry
/// `i` gets the identifier at position `at + i`.
pub open spec fn declared<B>(entries: Seq<(String, B)>, ids: Seq<Uid>, at: int) -> Seq<
    (String, Uid),
> {
    Seq::new(entries.len(), |i: int| (entries[i].0, ids[at + i]))
}

/// The variables built, each under the identifier drawn for it.
pub open spec fn built_variables(
    entries: Seq<(String, VariableBuilder)>,
    ids: Seq<Uid>,
    at: int,
) -> Seq<(String, Variable)> {
    Seq::new(entries.len(), |i: int| (ids[at + i].0, entries[i].1.built(entries[i].0)))
}

/// `lists` are the lists built from `entries`, each under the identifier
/// drawn for it.
pub open spec fn lists_built(
    entries: Seq<(String, ListBuilder)>,
    ids: Seq<Uid>,
    at: int,
    lists: Seq<(String, List)>,
) -> bool {
    &&& lists.len() == entries.len()
    &&& forall|i: int|
        0 <= i < entries.len() ==> (#[trigger] lists[i]).0 == ids[at + i].0
            && entries[i].1.describes(entries[i].0, lists[i].1)
}

/// The broadcasts of a target, each under its identifier.
pub open spec fn built_broadcasts(entries: Seq<(String, Uid)>) -> Seq<(String, Broadcast)> {
    Seq::new(entries.len(), |i: int| (entries[i].1.0, Broadcast { name: entries[i].0 }))
}

/// `costumes` are the costumes built from `builders`, in order.
pub open spec fn costumes_built(builders: Seq<CostumeBuilder>, costumes: Seq<Costume>) -> bool {
    &&& costumes.len() == builders.len()
    &&& forall|i: int| 0 <= i < builders.len() ==> (#[trigger] builders[i]).describes(costumes[i])
}

/// `sounds` are the sounds built from `builders`, in order.
pub open spec fn sounds_built(builders: Seq<SoundBuilder>, sounds: Seq<Sound>) -> bool {
    &&& sounds.len() == builders.len()
    &&& forall|i: int| 0 <= i < builders.len() ==> (#[trigger] builders[i]).describes(sounds[i])
}

/// What building the first `n` scripts of a target yields: the nodes and
/// comments of each, one script after the other. The first script that
/// fails fails the build.
pub open spec fn lower_stacks(
    stacks: Seq<StackBuilder>,
    n: nat,
    ids: Seq<Uid>,
    at: int,
    ctx: Scope,
) -> Result<Lowered, BuildError>
    decreases n,
{
    if n == 0 || n > stacks.len() {
        Ok(Lowered { blocks: Seq::empty(), comments: Seq::empty() })
    } else {
        match lower_stacks(stacks, (n - 1) as nat, ids, at, ctx) {
            Err(e) => Err(e),
            Ok(sofar) => {
                let here = at + stacks_demand(stacks, (n - 1) as nat);
                match lower_stack(stacks[n - 1], ids[here], None, ids, here + 1, ctx) {
                    Err(e) => Err(e),
                    Ok(l) => Ok(
                        Lowered {
                            blocks: sofar.blocks + l.blocks,
                            comments: sofar.comments + l.comments,
                        },
                    ),
                }
            },
        }
    }
}

impl TargetBuilder {
    /// The number of identifiers that building the target draws.
    pub open spec fn demand(&self) -> nat {
        self.variables.entries@.len() + self.lists.entries@.len() + stacks_demand(
            self.block_stackes@,
            self.block_stackes@.len(),
        )
    }

    /// The variables of the target by name, with the identifiers drawn
    /// from `ids` at `at`.
    pub open spec fn own_vars(&self, ids: Seq<Uid>, at: int) -> Seq<(String, Uid)> {
        declared(self.variables.entries@, ids, at)
    }

    /// The lists of the target by name, with the identifiers drawn from
    /// `ids` after those of the variables.
    pub open spec fn own_lists(&self, ids: Seq<Uid>, at: int) -> Seq<(String, Uid)> {
        declared(self.lists.entries@, ids, at + self.variables.entries@.len())
    }

    /// The names that the scripts of the target see. A sprite sees the
    /// variables and lists of `global` as the project-wide tier and its
    /// own as the tier of the sprite. The stage, which is built without
    /// `global`, sees its own in both tiers.
    pub open spec fn scope(
        &self,
        ids: Seq<Uid>,
        at: int,
        global: Option<GlobalNames>,
        all_broadcasts: Seq<(String, Uid)>,
    ) -> Scope {
        Scope {
            global_vars: match global {
                Some(g) => g.vars,
                None => self.own_vars(ids, at),
            },
            global_lists: match global {
                Some(g) => g.lists,
                None => self.own_lists(ids, at),
            },
            this_sprite_vars: self.own_vars(ids, at),
            this_sprite_lists: self.own_lists(ids, at),
            all_broadcasts: all_broadcasts,
        }
    }

    /// What building the scripts of the target yields.
    pub open spec fn scripts(
        &self,
        ids: Seq<Uid>,
        at: int,
        global: Option<GlobalNames>,
        all_broadcasts: Seq<(String, Uid)>,
    ) -> Result<Lowered, BuildError> {
        lower_stacks(
            self.block_stackes@,
            self.block_stackes@.len(),
            ids,
            at + self.variables.entries@.len() + self.lists.entries@.len(),
            self.scope(ids, at, global, all_broadcasts),
        )
    }

    /// `target` is the target that `self` describes, built with the
    /// identifiers of `ids` from `at` on, its scripts lowered to
    /// `lowered`.
    pub open spec fn describes(&self, ids: Seq<Uid>, at: int, lowered: Lowered, target: Target)
        -> bool {
        &&& target.name == self.name
        &&& target.variables.entries@ == built_variables(self.variables.entries@, ids, at)
        &&& lists_built(
            self.lists.entries@,
            ids,
            at + self.variables.entries@.len(),
            target.lists.entries@,
        )
        &&& target.broadcasts.entries@ == built_broadcasts(self.broadcasts.entries@)
        &&& blocks_view(target.blocks.entries@) == lowered.blocks
        &&& target.comments.entries@ == self.comments.entries@ + lowered.comments
        &&& target.current_costume == self.current_costume
        &&& costumes_built(self.costumes@, target.costumes@)
        &&& sounds_built(self.sounds@, target.sounds@)
        &&& target.layer_order == self.layer_order
        &&& target.volume == self.volume
    }

    /// The resources of the target's costumes, then those of its sounds.
    pub open spec fn resources(&self) -> Seq<Resource> {
        Seq::new(self.costumes@.len(), |i: int| self.costumes@[i].asset.resource) + Seq::new(
            self.sounds@.len(),
            |i: int| self.sounds@[i].asset.resource,
        )
    }

    /// The variables and lists that the target hands on as the
    /// project-wide tier: its own, where it was built without one.
    pub open spec fn hands_on(
        &self,
        ids: Seq<Uid>,
        at: int,
        global: Option<GlobalNames>,
        handed: Option<GlobalVarListContext>,
    ) -> bool {
        match global {
            Some(_) => handed is None,
            None => {
                &&& handed is Some
                &&& handed->Some_0@ == (GlobalNames {
                    vars: self.own_vars(ids, at),
                    lists: self.own_lists(ids, at),
                })
            },
        }
    }

    /// `r` is what building the target from the identifiers of `ids` from
    /// `at` on hands back, and `after` is what it leaves of the resources
    /// `before`. Where the scripts lower, the target and the tier it hands
    /// on come back and the target's resources are added to the buffer;
    /// where a script fails, its error comes back and the buffer is
    /// untouched.
    pub open spec fn hands_back(
        &self,
        ids: Seq<Uid>,
        at: int,
        global: Option<GlobalNames>,
        all_broadcasts: Seq<(String, Uid)>,
        r: Result<(Target, Option<GlobalVarListContext>), BuildError>,
        before: Seq<Resource>,
        after: Seq<Resource>,
    ) -> bool {
        match self.scripts(ids, at, global, all_broadcasts) {
            Ok(lowered) => {
                &&& r is Ok
                &&& self.describes(ids, at, lowered, r->Ok_0.0)
                &&& self.hands_on(ids, at, global, r->Ok_0.1)
                &&& after == before + self.resources()
            },
            Err(e) => r is Err && r->Err_0 == e && after == before,
        }
    }
}


pub proof fn lemma_stacks_demand_monotone(stacks: Seq<StackBuilder>, n: nat, m: nat)
    requires
        n <= m <= stacks.len(),
    ensures
        stacks_demand(stacks, n) <= stacks_demand(stacks, m),
    decreases m,
{
    if n < m {
        lemma_stacks_demand_monotone(stacks, n, (m - 1) as nat);
    }
}

pub proof fn lemma_stacks_failure_stays(
    stacks: Seq<StackBuilder>,
    n: nat,
    m: nat,
    ids: Seq<Uid>,
    at: int,
    ctx: Scope,
)
    requires
        n <= m <= stacks.len(),
        lower_stacks(stacks, n, ids, at, ctx) is Err,
    ensures
        lower_stacks(stacks, m, ids, at, ctx) == lower_stacks(stacks, n, ids, at, ctx),
    decreases m,
{
    if n < m {
        lemma_stacks_failure_stays(stacks, n, (m - 1) as nat, ids, at, ctx);
    }
}

/// The number of identifiers that the scripts draw, where it fits a
/// `usize`.
fn count_scripts(stacks: &Vec<StackBuilder>) -> (r: Option<usize>)
    ensures
        match r {
            Some(d) => d == stacks_demand(stacks@, stacks@.len()),
            None => stacks_demand(stacks@, stacks@.len()) > usize::MAX,
        },
{
    let n: usize = stacks.len();
    let mut total: usize = 0;
    let mut i: usize = 0;
    while i < n
        invariant
            n == stacks@.len(),
            i <= n,
            total == stacks_demand(stacks@, i as nat),
        decreases n - i,
    {
        proof {
            lemma_stacks_demand_monotone(stacks@, (i + 1) as nat, n as nat);
        }
        let inner = match count_stack(&stacks[i]) {
            Some(d) => d,
            None => {
                return None;
            },
        };
        let with_root = match inner.checked_add(1) {
            Some(d) => d,
            None => {
                return None;
            },
        };
        total = match total.checked_add(with_root) {
            Some(d) => d,
            None => {
                return None;
            },
        };
        i += 1;
    }
    Some(total)
}

/// Builds the variables, each under the identifier drawn for it, and the
/// table of their names.
fn build_variables(entries: &Vec<(String, VariableBuilder)>, ids: &Vec<Uid>, at: usize) -> (r: (
    Vec<(String, Variable)>,
    Vec<(String, Uid)>,
))
    requires
        at + entries@.len() <= ids@.len(),
    ensures
        r.0@ == built_variables(entries@, ids@, at as int),
        r.1@ == declared(entries@, ids@, at as int),
{
    let n: usize = entries.len();
    let supply: usize = ids.len();
    let mut built: Vec<(String, Variable)> = Vec::new();
    let mut names: Vec<(String, Uid)> = Vec::new();
    let mut i: usize = 0;
    while i < n
        invariant
            n == entries@.len(),
            i <= n,
            supply == ids@.len(),
            at + n <= ids@.len(),
            built@ == built_variables(entries@, ids@, at as int).take(i as int),
            names@ == declared(entries@, ids@, at as int).take(i as int),
        decreases n - i,
    {
        let uid = &ids[at + i];
        let (variable, _) = entries[i].1.build_with(entries[i].0.clone(), uid.clone());
        built.push((uid.0.clone(), variable));
        names.push((entries[i].0.clone(), uid.clone()));
        assert(built@ =~= built_variables(entries@, ids@, at as int).take(i + 1));
        assert(names@ =~= declared(entries@, ids@, at as int).take(i + 1));
        i += 1;
    }
    assert(built@ =~= built_variables(entries@, ids@, at as int));
    assert(names@ =~= declared(entries@, ids@, at as int));
    (built, names)
}

/// Builds the lists, each under the identifier drawn for it, and the
/// table of their names.
fn build_lists(entries: &Vec<(String, ListBuilder)>, ids: &Vec<Uid>, at: usize) -> (r: (
    Vec<(String, List)>,
    Vec<(String, Uid)>,
))
    requires
        at + entries@.len() <= ids@.len(),
    ensures
        lists_built(entries@, ids@, at as int, r.0@),
        r.1@ == declared(entries@, ids@, at as int),
{
    let n: usize = entries.len();
    let supply: usize = ids.len();
    let mut built: Vec<(String, List)> = Vec::new();
    let mut names: Vec<(String, Uid)> = Vec::new();
    let mut i: usize = 0;
    while i < n
        invariant
            n == entries@.len(),
            i <= n,
            supply == ids@.len(),
            at + n <= ids@.len(),
            built@.len() == i,
            forall|k: int|
                0 <= k < i ==> (#[trigger] built@[k]).0 == ids@[at + k].0
                    && entries@[k].1.describes(entries@[k].0, built@[k].1),
            names@ == declared(entries@, ids@, at as int).take(i as int),
        decreases n - i,
    {
        let uid = &ids[at + i];
        let (list, _) = entries[i].1.build_with(entries[i].0.clone(), uid.clone());
        built.push((uid.0.clone(), list));
        names.push((entries[i].0.clone(), uid.clone()));
        assert(names@ =~= declared(entries@, ids@, at as int).take(i + 1));
        i += 1;
    }
    assert(names@ =~= declared(entries@, ids@, at as int));
    (built, names)
}

/// Builds the broadcasts, each under its identifier.
fn build_broadcasts(entries: &Vec<(String, Uid)>) -> (r: Vec<(String, Broadcast)>)
    ensures
        r@ == built_broadcasts(entries@),
{
    let n: usize = entries.len();
    let mut built: Vec<(String, Broadcast)> = Vec::new();
    let mut i: usize = 0;
    while i < n
        invariant
            n == entries@.len(),
            i <= n,
            built@ == built_broadcasts(entries@).take(i as int),
        decreases n - i,
    {
        built.push((entries[i].1.0.clone(), Broadcast { name: entries[i].0.clone() }));
        assert(built@ =~= built_broadcasts(entries@).take(i + 1));
        i += 1;
    }
    assert(built@ =~= built_broadcasts(entries@));
    built
}

/// Lowers the scripts of a target, one after the other.
fn build_scripts(
    stacks: &Vec<StackBuilder>,
    ids: &Vec<Uid>,
    at: usize,
    ctx: &TargetContext,
    blocks: &mut Vec<(String, Block)>,
    comments: &mut Vec<(String, Comment)>,
) -> (r: Result<(), BuildError>)
    requires
        at + stacks_demand(stacks@, stacks@.len()) <= ids@.len(),
    ensures
        match lower_stacks(stacks@, stacks@.len(), ids@, at as int, ctx@) {
            Ok(l) => {
                &&& r is Ok
                &&& blocks_view(final(blocks)@) == blocks_view(old(blocks)@) + l.blocks
                &&& final(comments)@ == old(comments)@ + l.comments
            },
            Err(e) => r is Err && r->Err_0 == e,
        },
{
    let n: usize = stacks.len();
    let supply: usize = ids.len();
    let mut cur: usize = at;
    let mut i: usize = 0;
    let ghost blocks0 = blocks@;
    let ghost comments0 = comments@;
    assert(blocks_view(blocks@) =~= blocks_view(blocks0) + Seq::empty());
    assert(comments@ =~= comments0 + Seq::empty());
    while i < n
        invariant
            n == stacks@.len(),
            i <= n,
            supply == ids@.len(),
            at + stacks_demand(stacks@, n as nat) <= ids@.len(),
            cur == at + stacks_demand(stacks@, i as nat),
            lower_stacks(stacks@, i as nat, ids@, at as int, ctx@) is Ok,
            ({
                let l = lower_stacks(stacks@, i as nat, ids@, at as int, ctx@)->Ok_0;
                &&& blocks_view(blocks@) == blocks_view(blocks0) + l.blocks
                &&& comments@ == comments0 + l.comments
            }),
        decreases n - i,
    {
        proof {
            lemma_stacks_demand_monotone(stacks@, (i + 1) as nat, n as nat);
        }
        let ghost before = lower_stacks(stacks@, i as nat, ids@, at as int, ctx@)->Ok_0;
        let ghost sub = lower_stack(stacks@[i as int], ids@[cur as int], None, ids@, cur + 1, ctx@);
        match build_stack(&stacks[i], &ids[cur], &None, ids, cur + 1, ctx, blocks, comments) {
            Err(e) => {
                proof {
                    lemma_stacks_failure_stays(
                        stacks@,
                        (i + 1) as nat,
                        n as nat,
                        ids@,
                        at as int,
                        ctx@,
                    );
                }
                return Err(e);
            },
            Ok(next) => {
                cur = next;
                proof {
                    assert(blocks_view(blocks@) =~= blocks_view(blocks0) + (before.blocks
                        + sub->Ok_0.blocks));
                    assert(comments@ =~= comments0 + (before.comments + sub->Ok_0.comments));
                }
            },
        }
        i += 1;
    }
    Ok(())
}

/// The resources of the costumes, in order.
pub open spec fn costume_resources(builders: Seq<CostumeBuilder>) -> Seq<Resource> {
    Seq::new(builders.len(), |i: int| builders[i].asset.resource)
}

/// The resources of the sounds, in order.
pub open spec fn sound_resources(builders: Seq<SoundBuilder>) -> Seq<Resource> {
    Seq::new(builders.len(), |i: int| builders[i].asset.resource)
}

/// Builds the costumes, and hands their resources to `res_buf`.
fn build_costumes(builders: Vec<CostumeBuilder>, res_buf: &mut Vec<Resource>) -> (r: Vec<Costume>)
    ensures
        costumes_built(builders@, r@),
        final(res_buf)@ == old(res_buf)@ + costume_resources(builders@),
{
    let ghost all = builders@;
    let mut rest = builders;
    let mut built: Vec<Costume> = Vec::new();
    assert(res_buf@ =~= old(res_buf)@ + costume_resources(all).take(0));
    while rest.len() > 0
        invariant
            built@.len() + rest@.len() == all.len(),
            rest@ == all.skip(built@.len() as int),
            forall|k: int| 0 <= k < built@.len() ==> (#[trigger] all[k]).describes(built@[k]),
            res_buf@ == old(res_buf)@ + costume_resources(all).take(built@.len() as int),
        decreases rest@.len(),
    {
        let ghost done = built@.len() as int;
        let builder = rest.remove(0);
        assert(builder == all[done]);
        let costume = builder.build(res_buf);
        built.push(costume);
        assert(rest@ =~= all.skip(done + 1));
        assert(res_buf@ =~= old(res_buf)@ + costume_resources(all).take(done + 1));
    }
    assert(costume_resources(all).take(all.len() as int) =~= costume_resources(all));
    built
}

/// Builds the sounds, and hands their resources to `res_buf`.
fn build_sounds(builders: Vec<SoundBuilder>, res_buf: &mut Vec<Resource>) -> (r: Vec<Sound>)
    ensures
        sounds_built(builders@, r@),
        final(res_buf)@ == old(res_buf)@ + sound_resources(builders@),
{
    let ghost all = builders@;
    let mut rest = builders;
    let mut built: Vec<Sound> = Vec::new();
    assert(res_buf@ =~= old(res_buf)@ + sound_resources(all).take(0));
    while rest.len() > 0
        invariant
            built@.len() + rest@.len() == all.len(),
            rest@ == all.skip(built@.len() as int),
            forall|k: int| 0 <= k < built@.len() ==> (#[trigger] all[k]).describes(built@[k]),
            res_buf@ == old(res_buf)@ + sound_resources(all).take(built@.len() as int),
        decreases rest@.len(),
    {
        let ghost done = built@.len() as int;
        let builder = rest.remove(0);
        assert(builder == all[done]);
        let sound = builder.build(res_buf);
        built.push(sound);
        assert(rest@ =~= all.skip(done + 1));
        assert(res_buf@ =~= old(res_buf)@ + sound_resources(all).take(done + 1));
    }
    assert(sound_resources(all).take(all.len() as int) =~= sound_resources(all));
    built
}

/// The project-wide tier that was handed to a build, as a value.
pub open spec fn given(global: Option<&GlobalVarListContext>) -> Option<GlobalNames> {
    match global {
        Some(g) => Some(g@),
        None => None,
    }
}

/// Builds a target from the identifiers of `ids` from `at` on.
pub(crate) fn build_target(
    b: TargetBuilder,
    ids: &Vec<Uid>,
    at: usize,
    res_buf: &mut Vec<Resource>,
    global: Option<&GlobalVarListContext>,
    all_broadcasts: &Table<Uid>,
) -> (r: Result<(Target, Option<GlobalVarListContext>), BuildError>)
    requires
        at + b.demand() <= ids@.len(),
    ensures
        b.hands_back(
            ids@,
            at as int,
            given(global),
            all_broadcasts.entries@,
            r,
            old(res_buf)@,
            final(res_buf)@,
        ),
{
    let TargetBuilder {
        name,
        variables,
        lists,
        broadcasts,
        block_stackes,
        comments,
        costumes,
        sounds,
        current_costume,
        layer_order,
        volume,
    } = b;
    let supply: usize = ids.len();
    let nv: usize = variables.entries.len();
    let nl: usize = lists.entries.len();
    let (built_vars, own_vars) = build_variables(&variables.entries, ids, at);
    let (built_lists, own_lists) = build_lists(&lists.entries, ids, at + nv);
    let built_broadcasts = build_broadcasts(&broadcasts.entries);
    let variable_ctx = Table { entries: own_vars };
    let list_ctx = Table { entries: own_lists };
    let mut blocks: Vec<(String, Block)> = Vec::new();
    let mut registered: Vec<(String, Comment)> = Vec::new();
    let lowered = match global {
        Some(g) => {
            let ctx = TargetContext {
                global_vars: &g.vars,
                global_lists: &g.lists,
                this_sprite_vars: &variable_ctx,
                this_sprite_lists: &list_ctx,
                all_broadcasts,
            };
            assert(ctx@ == b.scope(ids@, at as int, given(global), all_broadcasts.entries@));
            build_scripts(&block_stackes, ids, at + nv + nl, &ctx, &mut blocks, &mut registered)
        },
        None => {
            let ctx = TargetContext {
                global_vars: &variable_ctx,
                global_lists: &list_ctx,
                this_sprite_vars: &variable_ctx,
                this_sprite_lists: &list_ctx,
                all_broadcasts,
            };
            assert(ctx@ == b.scope(ids@, at as int, given(global), all_broadcasts.entries@));
            build_scripts(&block_stackes, ids, at + nv + nl, &ctx, &mut blocks, &mut registered)
        },
    };
    match lowered {
        Err(e) => {
            return Err(e);
        },
        Ok(_) => {},
    }
    let mut all_comments = comments;
    all_comments.entries.append(&mut registered);
    let built_costumes = build_costumes(costumes, res_buf);
    let built_sounds = build_sounds(sounds, res_buf);
    let target = Target {
        name,
        variables: Table { entries: built_vars },
        lists: Table { entries: built_lists },
        broadcasts: Table { entries: built_broadcasts },
        blocks: Table { entries: blocks },
        comments: all_comments,
        current_costume,
        costumes: built_costumes,
        sounds: built_sounds,
        layer_order,
        volume,
    };
    let handed = match global {
        Some(_) => None,
        None => Some(GlobalVarListContext { vars: variable_ctx, lists: list_ctx }),
    };
    proof {
        let l = b.scripts(ids@, at as int, given(global), all_broadcasts.entries@)->Ok_0;
        assert(blocks_view(target.blocks.entries@) =~= l.blocks);
        assert(target.comments.entries@ =~= b.comments.entries@ + l.comments);
        assert(res_buf@ =~= old(res_buf)@ + b.resources());
    }
    Ok((target, handed))
}


impl TargetBuilder {
    /// Names the target.
    pub fn set_name(&mut self, name: &str) -> (b: &mut Self)
        ensures
            b.name@ == name@,
            *b == (TargetBuilder { name: b.name, ..*old(self) }),
            *final(self) == *final(b),
    {
        self.name = name.to_owned();
        self
    }

    /// Chooses the costume that the target wears, by its position.
    pub fn set_costume(self, index: u64) -> (b: TargetBuilder)
        ensures
            b == (TargetBuilder { current_costume: index, ..self }),
    {
        let mut b = self;
        b.current_costume = index;
        b
    }

    /// Sets the layer that the target is drawn in.
    pub fn set_layer_order(self, layer: u64) -> (b: TargetBuilder)
        ensures
            b == (TargetBuilder { layer_order: layer, ..self }),
    {
        let mut b = self;
        b.layer_order = layer;
        b
    }

    /// Declares a variable. A variable declared before under the same
    /// name is replaced.
    pub fn add_variable(&mut self, name: &str, variable_builder: VariableBuilder) -> (b: &mut Self)
        ensures
            inserted(old(self).variables.entries@, b.variables.entries@, name@, variable_builder),
            *b == (TargetBuilder { variables: b.variables, ..*old(self) }),
            *final(self) == *final(b),
    {
        self.variables.insert(name.to_owned(), variable_builder);
        self
    }

    /// Declares a list. A list declared before under the same name is
    /// replaced.
    pub fn add_list(&mut self, name: &str, list_builder: ListBuilder) -> (b: &mut Self)
        ensures
            inserted(old(self).lists.entries@, b.lists.entries@, name@, list_builder),
            *b == (TargetBuilder { lists: b.lists, ..*old(self) }),
            *final(self) == *final(b),
    {
        self.lists.insert(name.to_owned(), list_builder);
        self
    }

    /// Declares a broadcast under the given identifier. A broadcast
    /// declared before under the same name is replaced.
    pub fn add_broadcast_with(&mut self, name: &str, uid: Uid) -> (b: &mut Self)
        ensures
            inserted(old(self).broadcasts.entries@, b.broadcasts.entries@, name@, uid),
            *b == (TargetBuilder { broadcasts: b.broadcasts, ..*old(self) }),
            *final(self) == *final(b),
    {
        self.broadcasts.insert(name.to_owned(), uid);
        self
    }

    /// Declares a broadcast under a fresh random identifier.
    pub fn add_broadcast(&mut self, name: &str) -> (b: &mut Self)
        ensures
            exists|uid: Uid|
                is_generated(uid@) && #[trigger] inserted(
                    old(self).broadcasts.entries@,
                    b.broadcasts.entries@,
                    name@,
                    uid,
                ),
            *b == (TargetBuilder { broadcasts: b.broadcasts, ..*old(self) }),
            *final(self) == *final(b),
    {
        let uid = Uid::generate();
        self.broadcasts.insert(name.to_owned(), uid);
        assert(inserted(old(self).broadcasts.entries@, self.broadcasts.entries@, name@, uid));
        self
    }

    /// Adds a script.
    pub fn add_block_stack(&mut self, stack_builder: StackBuilder) -> (b: &mut Self)
        ensures
            b.block_stackes@ == old(self).block_stackes@.push(stack_builder),
            *b == (TargetBuilder { block_stackes: b.block_stackes, ..*old(self) }),
            *final(self) == *final(b),
    {
        self.block_stackes.push(stack_builder);
        self
    }

    /// Adds a free comment under the given identifier. A comment added
    /// before under the same identifier is replaced.
    pub fn add_comment_with(&mut self, comment_builder: CommentBuilder, uid: Uid) -> (b: &mut Self)
        ensures
            inserted(
                old(self).comments.entries@,
                b.comments.entries@,
                uid@,
                comment_builder.built(),
            ),
            *b == (TargetBuilder { comments: b.comments, ..*old(self) }),
            *final(self) == *final(b),
    {
        let comment = comment_builder.build();
        self.comments.insert(uid.into_inner(), comment);
        self
    }

    /// Adds a free comment under a fresh random identifier.
    pub fn add_comment(&mut self, comment_builder: CommentBuilder) -> (b: &mut Self)
        ensures
            exists|uid: Uid|
                is_generated(uid@) && #[trigger] inserted(
                    old(self).comments.entries@,
                    b.comments.entries@,
                    uid@,
                    comment_builder.built(),
                ),
            *b == (TargetBuilder { comments: b.comments, ..*old(self) }),
            *final(self) == *final(b),
    {
        let uid = Uid::generate();
        let ghost witness = uid;
        let comment = comment_builder.build();
        self.comments.insert(uid.into_inner(), comment);
        assert(inserted(
            old(self).comments.entries@,
            self.comments.entries@,
            witness@,
            comment_builder.built(),
        ));
        self
    }

    /// Adds a costume.
    pub fn add_costume(&mut self, costume_builder: CostumeBuilder) -> (b: &mut Self)
        ensures
            b.costumes@ == old(self).costumes@.push(costume_builder),
            *b == (TargetBuilder { costumes: b.costumes, ..*old(self) }),
            *final(self) == *final(b),
    {
        self.costumes.push(costume_builder);
        self
    }

    /// Adds a sound.
    pub fn add_sound(&mut self, sound_builder: SoundBuilder) -> (b: &mut Self)
        ensures
            b.sounds@ == old(self).sounds@.push(sound_builder),
            *b == (TargetBuilder { sounds: b.sounds, ..*old(self) }),
            *final(self) == *final(b),
    {
        self.sounds.push(sound_builder);
        self
    }

    /// The number of fresh identifiers that building the target draws;
    /// `None` where the number does not fit a `usize`.
    pub fn count(&self) -> (r: Option<usize>)
        ensures
            match r {
                Some(d) => d == self.demand(),
                None => self.demand() > usize::MAX,
            },
    {
        let scripts = match count_scripts(&self.block_stackes) {
            Some(d) => d,
            None => {
                return None;
            },
        };
        let names = match self.variables.entries.len().checked_add(self.lists.entries.len()) {
            Some(d) => d,
            None => {
                return None;
            },
        };
        names.checked_add(scripts)
    }

    /// `r` is what building the target with the identifiers `ids` hands
    /// back: nothing where `ids` holds fewer than the build draws, else
    /// what `hands_back` says of the identifiers from the start of `ids`.
    pub open spec fn built_from(
        &self,
        ids: Seq<Uid>,
        global: Option<GlobalNames>,
        all_broadcasts: Seq<(String, Uid)>,
        r: Result<(Target, Option<GlobalVarListContext>), BuildError>,
        before: Seq<Resource>,
        after: Seq<Resource>,
    ) -> bool {
        if ids.len() < self.demand() {
            r is Err && r->Err_0 == BuildError::IdentifiersExhausted && after == before
        } else {
            self.hands_back(ids, 0, global, all_broadcasts, r, before, after)
        }
    }

    /// Builds the target, drawing fresh identifiers from `ids` in order.
    ///
    /// The stage is built without `global_varlist_ctx`: its scripts see
    /// its own variables and lists in both tiers, and those are handed
    /// back as the project-wide tier. A sprite is built with the tier that
    /// the stage handed back, and hands back none. The resources of the
    /// costumes and sounds are added to `res_buf`.
    pub fn build_with(
        self,
        ids: &Vec<Uid>,
        res_buf: &mut Vec<Resource>,
        global_varlist_ctx: Option<&GlobalVarListContext>,
        all_broadcasts: &Table<Uid>,
    ) -> (r: Result<(Target, Option<GlobalVarListContext>), BuildError>)
        ensures
            self.built_from(
                ids@,
                given(global_varlist_ctx),
                all_broadcasts.entries@,
                r,
                old(res_buf)@,
                final(res_buf)@,
            ),
    {
        let supply: usize = ids.len();
        let enough = match self.count() {
            Some(d) => d <= supply,
            None => false,
        };
        if !enough {
            return Err(BuildError::IdentifiersExhausted);
        }
        build_target(self, ids, 0, res_buf, global_varlist_ctx, all_broadcasts)
    }

    /// Builds the target with fresh random identifiers: `build_with` on as
    /// many identifiers as the build draws, each with the shape of a
    /// generated one.
    pub fn build(
        self,
        res_buf: &mut Vec<Resource>,
        global_varlist_ctx: Option<&GlobalVarListContext>,
        all_broadcasts: &Table<Uid>,
    ) -> (r: Result<(Target, Option<GlobalVarListContext>), BuildError>)
        ensures
            exists|ids: Seq<Uid>|
                all_generated(ids) && ids.len() == generated_count(self.demand())
                    && #[trigger] self.built_from(
                    ids,
                    given(global_varlist_ctx),
                    all_broadcasts.entries@,
                    r,
                    old(res_buf)@,
                    final(res_buf)@,
                ),
    {
        let ids = match self.count() {
            Some(d) => generate_many(d),
            None => Vec::new(),
        };
        let r = self.build_with(&ids, res_buf, global_varlist_ctx, all_broadcasts);
        proof {
            assert(all_generated(ids@));
            assert(self.built_from(
                ids@,
                given(global_varlist_ctx),
                all_broadcasts.entries@,
                r,
                old(res_buf)@,
                res_buf@,
            ));
        }
        r
    }
}

impl TargetBuilder {
    /// The target has no content: no variables, lists, broadcasts,
    /// scripts, comments, costumes or sounds. It wears its first costume,
    /// is drawn in the lowest layer, and sounds at full volume.
    pub open spec fn is_blank(&self) -> bool {
        &&& self.variables.entries@ == Seq::<(String, VariableBuilder)>::empty()
        &&& self.lists.entries@ == Seq::<(String, ListBuilder)>::empty()
        &&& self.broadcasts.entries@ == Seq::<(String, Uid)>::empty()
        &&& self.block_stackes@ == Seq::<StackBuilder>::empty()
        &&& self.comments.entries@ == Seq::<(String, Comment)>::empty()
        &&& self.costumes@ == Seq::<CostumeBuilder>::empty()
        &&& self.sounds@ == Seq::<SoundBuilder>::empty()
        &&& self.current_costume == 0
        &&& self.layer_order == 0
        &&& self.volume == 100
    }
}

impl Default for TargetBuilder {
    /// A target without a name and without content, at full volume.
    fn default() -> (b: TargetBuilder)
        ensures
            b.name@ == Seq::<char>::empty(),
            b.is_blank(),
    {
        TargetBuilder {
            name: String::new(),
            variables: Table::new(),
            lists: Table::new(),
            broadcasts: Table::new(),
            block_stackes: Vec::new(),
            comments: Table::new(),
            costumes: Vec::new(),
            sounds: Vec::new(),
            current_costume: 0,
            layer_order: 0,
            volume: 100,
        }
    }
}

/// Describes the stage.
#[derive(Debug, PartialEq, Eq)]
pub struct StageBuilder {
    pub target: TargetBuilder,
    pub tempo: i64,
    pub video_state: VideoState,
    pub video_transparency: i64,
}

impl StageBuilder {
    /// Replaces what the stage has in common with the sprites.
    pub fn set_set_target(&mut self, target: TargetBuilder) -> (b: &mut Self)
        ensures
            *b == (StageBuilder { target, ..*old(self) }),
            *final(self) == *final(b),
    {
        self.target = target;
        self
    }

    /// Sets the tempo, in beats per minute.
    pub fn set_tempo(&mut self, tempo: i64) -> (b: &mut Self)
        ensures
            *b == (StageBuilder { tempo, ..*old(self) }),
            *final(self) == *final(b),
    {
        self.tempo = tempo;
        self
    }

    /// Sets how far the camera picture shows through.
    pub fn set_video_transparency(&mut self, video_transparency: i64) -> (b: &mut Self)
        ensures
            *b == (StageBuilder { video_transparency, ..*old(self) }),
            *final(self) == *final(b),
    {
        self.video_transparency = video_transparency;
        self
    }

    /// Sets whether and how the stage shows the camera.
    pub fn set_video_state(&mut self, video_state: VideoState) -> (b: &mut Self)
        ensures
            *b == (StageBuilder { video_state, ..*old(self) }),
            *final(self) == *final(b),
    {
        self.video_state = video_state;
        self
    }

    /// `stage` is the stage that `self` describes, built with the
    /// identifiers of `ids` from `at` on, its scripts lowered to
    /// `lowered`.
    pub open spec fn describes(&self, ids: Seq<Uid>, at: int, lowered: Lowered, stage: Stage)
        -> bool {
        &&& self.target.describes(ids, at, lowered, stage.target)
        &&& stage.tempo == self.tempo
        &&& stage.video_state == self.video_state
        &&& stage.video_transparency == self.video_transparency
        &&& stage.text_to_speech_language is None
        &&& stage.is_stage
    }

    /// `r` is what building the stage from the identifiers of `ids` from
    /// `at` on hands back: the stage with its target built without a
    /// project-wide tier, and the stage's own variables and lists as that
    /// tier; or the error of the script that failed.
    pub open spec fn hands_back(
        &self,
        ids: Seq<Uid>,
        at: int,
        all_broadcasts: Seq<(String, Uid)>,
        r: Result<(Stage, GlobalVarListContext), BuildError>,
        before: Seq<Resource>,
        after: Seq<Resource>,
    ) -> bool {
        match self.target.scripts(ids, at, None, all_broadcasts) {
            Ok(lowered) => {
                &&& r is Ok
                &&& self.describes(ids, at, lowered, r->Ok_0.0)
                &&& r->Ok_0.1@ == (GlobalNames {
                    vars: self.target.own_vars(ids, at),
                    lists: self.target.own_lists(ids, at),
                })
                &&& after == before + self.target.resources()
            },
            Err(e) => r is Err && r->Err_0 == e && after == before,
        }
    }

    /// `r` is what building the stage with the identifiers `ids` hands
    /// back: nothing where `ids` holds fewer than the build draws.
    pub open spec fn built_from(
        &self,
        ids: Seq<Uid>,
        all_broadcasts: Seq<(String, Uid)>,
        r: Result<(Stage, GlobalVarListContext), BuildError>,
        before: Seq<Resource>,
        after: Seq<Resource>,
    ) -> bool {
        if ids.len() < self.target.demand() {
            r is Err && r->Err_0 == BuildError::IdentifiersExhausted && after == before
        } else {
            self.hands_back(ids, 0, all_broadcasts, r, before, after)
        }
    }

    /// Builds the stage, drawing fresh identifiers from `ids` in order.
    pub fn build_with(self, ids: &Vec<Uid>, res_buf: &mut Vec<Resource>, all_broadcasts: &Table<Uid>)
        -> (r: Result<(Stage, GlobalVarListContext), BuildError>)
        ensures
            self.built_from(ids@, all_broadcasts.entries@, r, old(res_buf)@, final(res_buf)@),
    {
        let supply: usize = ids.len();
        let enough = match self.target.count() {
            Some(d) => d <= supply,
            None => false,
        };
        if !enough {
            return Err(BuildError::IdentifiersExhausted);
        }
        build_stage(self, ids, 0, res_buf, all_broadcasts)
    }

    /// Builds the stage with fresh random identifiers: `build_with` on as
    /// many identifiers as the build draws, each with the shape of a
    /// generated one.
    pub fn build(self, res_buf: &mut Vec<Resource>, all_broadcasts: &Table<Uid>) -> (r: Result<
        (Stage, GlobalVarListContext),
        BuildError,
    >)
        ensures
            exists|ids: Seq<Uid>|
                all_generated(ids) && ids.len() == generated_count(self.target.demand())
                    && #[trigger] self.built_from(
                    ids,
                    all_broadcasts.entries@,
                    r,
                    old(res_buf)@,
                    final(res_buf)@,
                ),
    {
        let ids = match self.target.count() {
            Some(d) => generate_many(d),
            None => Vec::new(),
        };
        let r = self.build_with(&ids, res_buf, all_broadcasts);
        proof {
            assert(all_generated(ids@));
            assert(self.built_from(ids@, all_broadcasts.entries@, r, old(res_buf)@, res_buf@));
        }
        r
    }
}

/// Builds the stage from the identifiers of `ids` from `at` on.
pub(crate) fn build_stage(
    b: StageBuilder,
    ids: &Vec<Uid>,
    at: usize,
    res_buf: &mut Vec<Resource>,
    all_broadcasts: &Table<Uid>,
) -> (r: Result<(Stage, GlobalVarListContext), BuildError>)
    requires
        at + b.target.demand() <= ids@.len(),
    ensures
        b.hands_back(ids@, at as int, all_broadcasts.entries@, r, old(res_buf)@, final(res_buf)@),
{
    let StageBuilder { target, tempo, video_state, video_transparency } = b;
    match build_target(target, ids, at, res_buf, None, all_broadcasts) {
        Err(e) => Err(e),
        Ok((target, handed)) => Ok(
            (
                Stage {
                    target,
                    tempo,
                    video_state,
                    video_transparency,
                    text_to_speech_language: None,
                    is_stage: true,
                },
                handed.unwrap(),
            ),
        ),
    }
}

impl Default for StageBuilder {
    /// An empty stage called "stage": 60 beats per minute, camera on and
    /// half transparent.
    fn default() -> (b: StageBuilder)
        ensures
            b.target.name@ == "stage"@,
            b.target.is_blank(),
            b.target.demand() == 0,
            b.tempo == 60,
            b.video_state == VideoState::On,
            b.video_transparency == 50,
    {
        let mut target = TargetBuilder::default();
        target.name = "stage".to_owned();
        let b = StageBuilder {
            target,
            tempo: 60,
            video_state: VideoState::On,
            video_transparency: 50,
        };
        assert(stacks_demand(b.target.block_stackes@, 0) == 0);
        b
    }
}

/// Describes a sprite.
#[derive(Debug, PartialEq, Eq)]
pub struct SpriteBuilder {
    pub target: TargetBuilder,
    pub visible: bool,
    pub x: i64,
    pub y: i64,
    pub size: i64,
    pub direction: i64,
    pub draggable: bool,
    pub rotation_style: RotationStyle,
}

impl SpriteBuilder {
    /// Replaces what the sprite has in common with the stage.
    pub fn set_target(&mut self, target: TargetBuilder) -> (b: &mut Self)
        ensures
            *b == (SpriteBuilder { target, ..*old(self) }),
            *final(self) == *final(b),
    {
        self.target = target;
        self
    }

    /// Shows or hides the sprite.
    pub fn set_visible(&mut self, visible: bool) -> (b: &mut Self)
        ensures
            *b == (SpriteBuilder { visible, ..*old(self) }),
            *final(self) == *final(b),
    {
        self.visible = visible;
        self
    }

    /// Places the sprite.
    pub fn set_pos(&mut self, x: i64, y: i64) -> (b: &mut Self)
        ensures
            *b == (SpriteBuilder { x, y, ..*old(self) }),
            *final(self) == *final(b),
    {
        self.x = x;
        self.y = y;
        self
    }

    /// Sets the sprite's horizontal place.
    pub fn set_x(&mut self, x: i64) -> (b: &mut Self)
        ensures
            *b == (SpriteBuilder { x, ..*old(self) }),
            *final(self) == *final(b),
    {
        self.x = x;
        self
    }

    /// Sets the sprite's vertical place.
    pub fn set_y(&mut self, y: i64) -> (b: &mut Self)
        ensures
            *b == (SpriteBuilder { y, ..*old(self) }),
            *final(self) == *final(b),
    {
        self.y = y;
        self
    }

    /// Sets the sprite's size, in percent.
    pub fn set_size(&mut self, size: i64) -> (b: &mut Self)
        ensures
            *b == (SpriteBuilder { size, ..*old(self) }),
            *final(self) == *final(b),
    {
        self.size = size;
        self
    }

    /// Sets the direction that the sprite faces, in degrees.
    pub fn set_direction(&mut self, direction: i64) -> (b: &mut Self)
        ensures
            *b == (SpriteBuilder { direction, ..*old(self) }),
            *final(self) == *final(b),
    {
        self.direction = direction;
        self
    }

    /// Sets whether the sprite can be dragged.
    pub fn set_draggable(&mut self, draggable: bool) -> (b: &mut Self)
        ensures
            *b == (SpriteBuilder { draggable, ..*old(self) }),
            *final(self) == *final(b),
    {
        self.draggable = draggable;
        self
    }

    /// Sets how the sprite turns.
    pub fn set_rotation_style(&mut self, rotation_style: RotationStyle) -> (b: &mut Self)
        ensures
            *b == (SpriteBuilder { rotation_style, ..*old(self) }),
            *final(self) == *final(b),
    {
        self.rotation_style = rotation_style;
        self
    }

    /// `sprite` is the sprite that `self` describes, built with the
    /// identifiers of `ids` from `at` on, its scripts lowered to
    /// `lowered`.
    pub open spec fn describes(&self, ids: Seq<Uid>, at: int, lowered: Lowered, sprite: Sprite)
        -> bool {
        &&& self.target.describes(ids, at, lowered, sprite.target)
        &&& sprite.visible == self.visible
        &&& sprite.x == self.x
        &&& sprite.y == self.y
        &&& sprite.size == self.size
        &&& sprite.direction == self.direction
        &&& sprite.draggable == self.draggable
        &&& sprite.rotation_style == self.rotation_style
        &&& !sprite.is_stage
    }

    /// `r` is what building the sprite from the identifiers of `ids` from
    /// `at` on hands back: the sprite with its target built under the
    /// project-wide tier `global`; or the error of the script that failed.
    pub open spec fn hands_back(
        &self,
        ids: Seq<Uid>,
        at: int,
        global: GlobalNames,
        all_broadcasts: Seq<(String, Uid)>,
        r: Result<Sprite, BuildError>,
        before: Seq<Resource>,
        after: Seq<Resource>,
    ) -> bool {
        match self.target.scripts(ids, at, Some(global), all_broadcasts) {
            Ok(lowered) => {
                &&& r is Ok
                &&& self.describes(ids, at, lowered, r->Ok_0)
                &&& after == before + self.target.resources()
            },
            Err(e) => r is Err && r->Err_0 == e && after == before,
        }
    }

    /// `r` is what building the sprite with the identifiers `ids` hands
    /// back: nothing where `ids` holds fewer than the build draws.
    pub open spec fn built_from(
        &self,
        ids: Seq<Uid>,
        global: GlobalNames,
        all_broadcasts: Seq<(String, Uid)>,
        r: Result<Sprite, BuildError>,
        before: Seq<Resource>,
        after: Seq<Resource>,
    ) -> bool {
        if ids.len() < self.target.demand() {
            r is Err && r->Err_0 == BuildError::IdentifiersExhausted && after == before
        } else {
            self.hands_back(ids, 0, global, all_broadcasts, r, before, after)
        }
    }

    /// Builds the sprite, drawing fresh identifiers from `ids` in order.
    pub fn build_with(
        self,
        ids: &Vec<Uid>,
        res_buf: &mut Vec<Resource>,
        global_varlist_buf: &GlobalVarListContext,
        all_broadcasts: &Table<Uid>,
    ) -> (r: Result<Sprite, BuildError>)
        ensures
            self.built_from(
                ids@,
                global_varlist_buf@,
                all_broadcasts.entries@,
                r,
                old(res_buf)@,
                final(res_buf)@,
            ),
    {
        let supply: usize = ids.len();
        let enough = match self.target.count() {
            Some(d) => d <= supply,
            None => false,
        };
        if !enough {
            return Err(BuildError::IdentifiersExhausted);
        }
        build_sprite(self, ids, 0, res_buf, global_varlist_buf, all_broadcasts)
    }

    /// Builds the sprite with fresh random identifiers: `build_with` on as
    /// many identifiers as the build draws, each with the shape of a
    /// generated one.
    pub fn build(
        self,
        res_buf: &mut Vec<Resource>,
        global_varlist_buf: &GlobalVarListContext,
        all_broadcasts: &Table<Uid>,
    ) -> (r: Result<Sprite, BuildError>)
        ensures
            exists|ids: Seq<Uid>|
                all_generated(ids) && ids.len() == generated_count(self.target.demand())
                    && #[trigger] self.built_from(
                    ids,
                    global_varlist_buf@,
                    all_broadcasts.entries@,
                    r,
                    old(res_buf)@,
                    final(res_buf)@,
                ),
    {
        let ids = match self.target.count() {
            Some(d) => generate_many(d),
            None => Vec::new(),
        };
        let r = self.build_with(&ids, res_buf, global_varlist_buf, all_broadcasts);
        proof {
            assert(all_generated(ids@));
            assert(self.built_from(
                ids@,
                global_varlist_buf@,
                all_broadcasts.entries@,
                r,
                old(res_buf)@,
                res_buf@,
            ));
        }
        r
    }
}

/// Builds a sprite from the identifiers of `ids` from `at` on.
pub(crate) fn build_sprite(
    b: SpriteBuilder,
    ids: &Vec<Uid>,
    at: usize,
    res_buf: &mut Vec<Resource>,
    global: &GlobalVarListContext,
    all_broadcasts: &Table<Uid>,
) -> (r: Result<Sprite, BuildError>)
    requires
        at + b.target.demand() <= ids@.len(),
    ensures
        b.hands_back(ids@, at as int, global@, all_broadcasts.entries@, r, old(res_buf)@, final(res_buf)@),
{
    let SpriteBuilder { target, visible, x, y, size, direction, draggable, rotation_style } = b;
    match build_target(target, ids, at, res_buf, Some(global), all_broadcasts) {
        Err(e) => Err(e),
        Ok((target, _)) => Ok(
            Sprite {
                target,
                visible,
                x,
                y,
                size,
                direction,
                draggable,
                rotation_style,
                is_stage: false,
            },
        ),
    }
}

impl Default for SpriteBuilder {
    /// An empty sprite: shown at the origin, full size, facing right,
    /// turning all around, not draggable.
    fn default() -> (b: SpriteBuilder)
        ensures
            b.target.name@ == Seq::<char>::empty(),
            b.target.is_blank(),
            b.target.demand() == 0,
            b.visible,
            b.x == 0,
            b.y == 0,
            b.size == 100,
            b.direction == 90,
            !b.draggable,
            b.rotation_style == RotationStyle::AllAround,
    {
        let b = SpriteBuilder {
            target: TargetBuilder::default(),
            visible: true,
            x: 0,
            y: 0,
            size: 100,
            direction: 90,
            draggable: false,
            rotation_style: RotationStyle::AllAround,
        };
        assert(stacks_demand(b.target.block_stackes@, 0) == 0);
        b
    }
}

} // verus!
