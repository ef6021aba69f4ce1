//! Projects: the stage, the sprites, and what was written about them.
//!
//! Building a project draws the identifiers of the stage first, then those
//! of each sprite in order. Every target sees the broadcasts of all
//! targets; the sprites see the variables and lists of the stage as the
//! project-wide tier.

use crate::build_context::{GlobalNames, GlobalVarListContext};
use crate::error::BuildError;
use crate::lowering::{all_generated, generated_count};
use crate::resource::Resource;
use crate::schema::{Meta, Monitor, Project, SpriteOrStage, VideoState};
use crate::table::{find, Table};
use crate::target::{build_sprite, build_stage, SpriteBuilder, StageBuilder};
use crate::uid::{generate_many, Uid};
use vstd::prelude::*;

verus! {

/// Describes a project.
#[derive(Debug, PartialEq, Eq)]
pub struct ProjectBuilder {
    pub stage_builder: StageBuilder,
    pub sprite_builders: Vec<SpriteBuilder>,
    pub monitors: Vec<Monitor>,
    pub meta: Meta,
}

/// `entries` with `value` stored under `key`: in the place of the first
/// entry with that key where there is one, at the end otherwise.
pub open spec fn put(entries: Seq<(String, Uid)>, key: String, value: Uid) -> Seq<(String, Uid)> {
    match find(entries, key@) {
        Some(i) => entries.update(i, (key, value)),
        None => entries.push((key, value)),
    }
}

/// `base` with the first `n` entries of `more` stored in it, one after the
/// other.
pub open spec fn put_all(base: Seq<(String, Uid)>, more: Seq<(String, Uid)>, n: nat) -> Seq<
    (String, Uid),
>
    decreases n,
{
    if n == 0 || n > more.len() {
        base
    } else {
        put(put_all(base, more, (n - 1) as nat), more[n - 1].0, more[n - 1].1)
    }
}

/// `base` with the broadcasts of the first `n` sprites stored in it.
pub open spec fn with_broadcasts_of(
    base: Seq<(String, Uid)>,
    sprites: Seq<SpriteBuilder>,
    n: nat,
) -> Seq<(String, Uid)>
    decreases n,
{
    if n == 0 || n > sprites.len() {
        base
    } else {
        let more = sprites[n - 1].target.broadcasts.entries@;
        put_all(with_broadcasts_of(base, sprites, (n - 1) as nat), more, more.len())
    }
}

/// The number of identifiers that the first `n` sprites draw.
pub open spec fn sprites_demand(sprites: Seq<SpriteBuilder>, n: nat) -> nat
    decreases n,
{
    if n == 0 || n > sprites.len() {
        0
    } else {
        sprites_demand(sprites, (n - 1) as nat) + sprites[n - 1].target.demand()
    }
}

/// The error of the first of the first `n` sprites whose scripts fail.
pub open spec fn sprites_failure(
    sprites: Seq<SpriteBuilder>,
    n: nat,
    ids: Seq<Uid>,
    at: int,
    global: GlobalNames,
    all_broadcasts: Seq<(String, Uid)>,
) -> Option<BuildError>
    decreases n,
{
    if n == 0 || n > sprites.len() {
        None
    } else {
        match sprites_failure(sprites, (n - 1) as nat, ids, at, global, all_broadcasts) {
            Some(e) => Some(e),
            None => match sprites[n - 1].target.scripts(
                ids,
                at + sprites_demand(sprites, (n - 1) as nat),
                Some(global),
                all_broadcasts,
            ) {
                Err(e) => Some(e),
                Ok(_) => None,
            },
        }
    }
}

/// The resources of the first `n` sprites, in order.
pub open spec fn sprites_resources(sprites: Seq<SpriteBuilder>, n: nat) -> Seq<Resource>
    decreases n,
{
    if n == 0 || n > sprites.len() {
        Seq::empty()
    } else {
        sprites_resources(sprites, (n - 1) as nat) + sprites[n - 1].target.resources()
    }
}

/// `built` are the sprites that `sprites` describe, in order: sprite `i`
/// built with the identifiers of `ids` that follow those of the sprites
/// before it, under the project-wide tier `global`.
pub open spec fn sprites_described(
    sprites: Seq<SpriteBuilder>,
    ids: Seq<Uid>,
    at: int,
    global: GlobalNames,
    all_broadcasts: Seq<(String, Uid)>,
    built: Seq<SpriteOrStage>,
) -> bool {
    &&& built.len() == sprites.len()
    &&& forall|i: int|
        0 <= i < sprites.len() ==> (#[trigger] built[i]) is Sprite && sprites[i].describes(
            ids,
            at + sprites_demand(sprites, i as nat),
            sprites[i].target.scripts(
                ids,
                at + sprites_demand(sprites, i as nat),
                Some(global),
                all_broadcasts,
            )->Ok_0,
            built[i]->Sprite_0,
        )
}

proof fn lemma_sprites_demand_monotone(sprites: Seq<SpriteBuilder>, n: nat, m: nat)
    requires
        n <= m <= sprites.len(),
    ensures
        sprites_demand(sprites, n) <= sprites_demand(sprites, m),
    decreases m,
{
    if n < m {
        lemma_sprites_demand_monotone(sprites, n, (m - 1) as nat);
    }
}

proof fn lemma_sprites_failure_stays(
    sprites: Seq<SpriteBuilder>,
    n: nat,
    m: nat,
    ids: Seq<Uid>,
    at: int,
    global: GlobalNames,
    all_broadcasts: Seq<(String, Uid)>,
)
    requires
        n <= m <= sprites.len(),
        sprites_failure(sprites, n, ids, at, global, all_broadcasts) is Some,
    ensures
        sprites_failure(sprites, m, ids, at, global, all_broadcasts) == sprites_failure(
            sprites,
            n,
            ids,
            at,
            global,
            all_broadcasts,
        ),
    decreases m,
{
    if n < m {
        lemma_sprites_failure_stays(sprites, n, (m - 1) as nat, ids, at, global, all_broadcasts);
    }
}

impl ProjectBuilder {
    /// Replaces the stage.
    pub fn set_stage(&mut self, stage_builder: StageBuilder) -> (b: &mut Self)
        ensures
            *b == (ProjectBuilder { stage_builder, ..*old(self) }),
            *final(self) == *final(b),
    {
        self.stage_builder = stage_builder;
        self
    }

    /// Adds a sprite.
    pub fn add_sprite(&mut self, sprite_builder: SpriteBuilder) -> (b: &mut Self)
        ensures
            b.sprite_builders@ == old(self).sprite_builders@.push(sprite_builder),
            *b == (ProjectBuilder { sprite_builders: b.sprite_builders, ..*old(self) }),
            *final(self) == *final(b),
    {
        self.sprite_builders.push(sprite_builder);
        self
    }

    /// The broadcasts that every target of the project sees: those of the
    /// stage, then those of each sprite in order. Where a name is declared
    /// more than once, it keeps the place of its first declaration and
    /// the identifier of its last.
    pub open spec fn all_broadcasts(&self) -> Seq<(String, Uid)> {
        let own = self.stage_builder.target.broadcasts.entries@;
        with_broadcasts_of(
            put_all(Seq::empty(), own, own.len()),
            self.sprite_builders@,
            self.sprite_builders@.len(),
        )
    }

    /// The number of identifiers that building the project draws.
    pub open spec fn demand(&self) -> nat {
        self.stage_builder.target.demand() + sprites_demand(
            self.sprite_builders@,
            self.sprite_builders@.len(),
        )
    }

    /// The project-wide tier: the variables and lists of the stage.
    pub open spec fn global(&self, ids: Seq<Uid>) -> GlobalNames {
        GlobalNames {
            vars: self.stage_builder.target.own_vars(ids, 0),
            lists: self.stage_builder.target.own_lists(ids, 0),
        }
    }

    /// The error that fails the build of the project: that of the stage's
    /// scripts, else that of the first sprite whose scripts fail.
    pub open spec fn failure(&self, ids: Seq<Uid>) -> Option<BuildError> {
        match self.stage_builder.target.scripts(ids, 0, None, self.all_broadcasts()) {
            Err(e) => Some(e),
            Ok(_) => sprites_failure(
                self.sprite_builders@,
                self.sprite_builders@.len(),
                ids,
                self.stage_builder.target.demand() as int,
                self.global(ids),
                self.all_broadcasts(),
            ),
        }
    }

    /// `project` is the project that `self` describes, built with the
    /// identifiers `ids`: the stage first, then the sprites in order, each
    /// as its builder describes it; the monitors and the meta data
    /// unchanged; no extensions.
    pub open spec fn describes(&self, ids: Seq<Uid>, project: Project) -> bool {
        &&& project.meta == self.meta
        &&& project.monitors == self.monitors
        &&& project.extensions@ == Seq::<String>::empty()
        &&& project.targets@.len() == 1 + self.sprite_builders@.len()
        &&& project.targets@[0] is Stage
        &&& self.stage_builder.describes(
            ids,
            0,
            self.stage_builder.target.scripts(ids, 0, None, self.all_broadcasts())->Ok_0,
            project.targets@[0]->Stage_0,
        )
        &&& sprites_described(
            self.sprite_builders@,
            ids,
            self.stage_builder.target.demand() as int,
            self.global(ids),
            self.all_broadcasts(),
            project.targets@.skip(1),
        )
    }

    /// The resources of the project: those of the stage, then those of
    /// each sprite in order.
    pub open spec fn resources(&self) -> Seq<Resource> {
        self.stage_builder.target.resources() + sprites_resources(
            self.sprite_builders@,
            self.sprite_builders@.len(),
        )
    }

    /// `r` is what building the project with the identifiers `ids` hands
    /// back, and `after` is what it leaves of the resources `before`.
    /// Where `ids` holds fewer identifiers than the build draws, or a
    /// script fails, the error comes back and the buffer is untouched;
    /// else the project comes back and its resources are added to the
    /// buffer.
    pub open spec fn built_from(
        &self,
        ids: Seq<Uid>,
        r: Result<Project, BuildError>,
        before: Seq<Resource>,
        after: Seq<Resource>,
    ) -> bool {
        if ids.len() < self.demand() {
            r is Err && r->Err_0 == BuildError::IdentifiersExhausted && after == before
        } else {
            match self.failure(ids) {
                Some(e) => r is Err && r->Err_0 == e && after == before,
                None => {
                    &&& r is Ok
                    &&& self.describes(ids, r->Ok_0)
                    &&& after == before + self.resources()
                },
            }
        }
    }

    /// The number of fresh identifiers that building the project draws;
    /// `None` where the number does not fit a `usize`.
    pub fn count(&self) -> (r: Option<usize>)
        ensures
            match r {
                Some(d) => d == self.demand(),
                None => self.demand() > usize::MAX,
            },
    {
        let mut total: usize = match self.stage_builder.target.count() {
            Some(d) => d,
            None => {
                return None;
            },
        };
        let n: usize = self.sprite_builders.len();
        let mut i: usize = 0;
        while i < n
            invariant
                n == self.sprite_builders@.len(),
                i <= n,
                total == self.stage_builder.target.demand() + sprites_demand(
                    self.sprite_builders@,
                    i as nat,
                ),
            decreases n - i,
        {
            proof {
                lemma_sprites_demand_monotone(self.sprite_builders@, (i + 1) as nat, n as nat);
            }
            let own = match self.sprite_builders[i].target.count() {
                Some(d) => d,
                None => {
                    return None;
                },
            };
            total = match total.checked_add(own) {
                Some(d) => d,
                None => {
                    return None;
                },
            };
            i += 1;
        }
        Some(total)
    }

    /// Collects the broadcasts of all targets.
    fn collect_broadcasts(&self) -> (all: Table<Uid>)
        ensures
            all.entries@ == self.all_broadcasts(),
    {
        let mut all: Table<Uid> = Table::new();
        store_all(&mut all, &self.stage_builder.target.broadcasts.entries);
        let n: usize = self.sprite_builders.len();
        let ghost base = all.entries@;
        let mut i: usize = 0;
        while i < n
            invariant
                n == self.sprite_builders@.len(),
                i <= n,
                all.entries@ == with_broadcasts_of(base, self.sprite_builders@, i as nat),
            decreases n - i,
        {
            store_all(&mut all, &self.sprite_builders[i].target.broadcasts.entries);
            i += 1;
        }
        all
    }

    /// Builds the project, drawing fresh identifiers from `ids` in order.
    /// The resources of all costumes and sounds are added to `res_buf`.
    pub fn build_with(self, ids: &Vec<Uid>, res_buf: &mut Vec<Resource>) -> (r: Result<
        Project,
        BuildError,
    >)
        ensures
            self.built_from(ids@, r, old(res_buf)@, final(res_buf)@),
    {
        let supply: usize = ids.len();
        let enough = match self.count() {
            Some(d) => d <= supply,
            None => false,
        };
        if !enough {
            return Err(BuildError::IdentifiersExhausted);
        }
        let all = self.collect_broadcasts();
        let ProjectBuilder { stage_builder, sprite_builders, monitors, meta } = self;
        let stage_count: usize = stage_builder.target.count().unwrap();
        let mut resources: Vec<Resource> = Vec::new();
        let mut targets: Vec<SpriteOrStage> = Vec::new();
        let (stage, global_varlist_buf) = match build_stage(
            stage_builder,
            ids,
            0,
            &mut resources,
            &all,
        ) {
            Err(e) => {
                return Err(e);
            },
            Ok(done) => done,
        };
        targets.push(SpriteOrStage::Stage(stage));
        let mut sprites = match build_sprites(
            sprite_builders,
            ids,
            stage_count,
            &mut resources,
            &global_varlist_buf,
            &all,
        ) {
            Err(e) => {
                return Err(e);
            },
            Ok(done) => done,
        };
        let ghost built = sprites@;
        targets.append(&mut sprites);
        res_buf.append(&mut resources);
        assert(targets@.skip(1) =~= built);
        Ok(Project { meta, extensions: Vec::new(), monitors, targets })
    }

    /// Builds the project with fresh random identifiers: `build_with` on as
    /// many identifiers as the build draws, each with the shape of a
    /// generated one.
    pub fn build(self, res_buf: &mut Vec<Resource>) -> (r: Result<Project, BuildError>)
        ensures
            exists|ids: Seq<Uid>|
                all_generated(ids) && ids.len() == generated_count(self.demand())
                    && #[trigger] self.built_from(
                    ids,
                    r,
                    old(res_buf)@,
                    final(res_buf)@,
                ),
    {
        let ids = match self.count() {
            Some(d) => generate_many(d),
            None => Vec::new(),
        };
        let r = self.build_with(&ids, res_buf);
        proof {
            assert(all_generated(ids@));
            assert(self.built_from(ids@, r, old(res_buf)@, res_buf@));
        }
        r
    }
}

/// Builds the sprites, one after the other, from the identifiers of `ids`
/// from `at` on.
fn build_sprites(
    builders: Vec<SpriteBuilder>,
    ids: &Vec<Uid>,
    at: usize,
    resources: &mut Vec<Resource>,
    global: &GlobalVarListContext,
    all: &Table<Uid>,
) -> (r: Result<Vec<SpriteOrStage>, BuildError>)
    requires
        at + sprites_demand(builders@, builders@.len()) <= ids@.len(),
    ensures
        match sprites_failure(builders@, builders@.len(), ids@, at as int, global@, all.entries@) {
            Some(e) => r is Err && r->Err_0 == e,
            None => {
                &&& r is Ok
                &&& sprites_described(
                    builders@,
                    ids@,
                    at as int,
                    global@,
                    all.entries@,
                    r->Ok_0@,
                )
                &&& final(resources)@ == old(resources)@ + sprites_resources(
                    builders@,
                    builders@.len(),
                )
            },
        },
{
    let ghost sprites = builders@;
    let supply: usize = ids.len();
    let mut rest = builders;
    let mut built: Vec<SpriteOrStage> = Vec::new();
    let mut cur: usize = at;
    assert(resources@ =~= old(resources)@ + sprites_resources(sprites, 0));
    while rest.len() > 0
        invariant
            sprites == builders@,
            supply == ids@.len(),
            at + sprites_demand(sprites, sprites.len()) <= supply,
            built@.len() + rest@.len() == sprites.len(),
            rest@ == sprites.skip(built@.len() as int),
            cur == at + sprites_demand(sprites, built@.len()),
            sprites_failure(sprites, built@.len(), ids@, at as int, global@, all.entries@) is None,
            forall|k: int|
                0 <= k < built@.len() ==> (#[trigger] built@[k]) is Sprite && sprites[k].describes(
                    ids@,
                    at + sprites_demand(sprites, k as nat),
                    sprites[k].target.scripts(
                        ids@,
                        at + sprites_demand(sprites, k as nat),
                        Some(global@),
                        all.entries@,
                    )->Ok_0,
                    built@[k]->Sprite_0,
                ),
            resources@ == old(resources)@ + sprites_resources(sprites, built@.len()),
        decreases rest@.len(),
    {
        let ghost i = built@.len();
        let ghost before = built@;
        proof {
            lemma_sprites_demand_monotone(sprites, i + 1, sprites.len());
        }
        let builder = rest.remove(0);
        assert(builder == sprites[i as int]);
        let own: usize = builder.target.count().unwrap();
        match build_sprite(builder, ids, cur, resources, global, all) {
            Err(e) => {
                proof {
                    assert(sprites_failure(
                        sprites,
                        i + 1,
                        ids@,
                        at as int,
                        global@,
                        all.entries@,
                    ) == Some(e));
                    lemma_sprites_failure_stays(
                        sprites,
                        i + 1,
                        sprites.len(),
                        ids@,
                        at as int,
                        global@,
                        all.entries@,
                    );
                }
                return Err(e);
            },
            Ok(sprite) => {
                built.push(SpriteOrStage::Sprite(sprite));
                assert(rest@ =~= sprites.skip(i as int + 1));
                assert(resources@ =~= old(resources)@ + sprites_resources(sprites, i + 1));
                assert forall|k: int| 0 <= k < i + 1 implies (#[trigger] built@[k]) is Sprite
                    && sprites[k].describes(
                    ids@,
                    at + sprites_demand(sprites, k as nat),
                    sprites[k].target.scripts(
                        ids@,
                        at + sprites_demand(sprites, k as nat),
                        Some(global@),
                        all.entries@,
                    )->Ok_0,
                    built@[k]->Sprite_0,
                ) by {
                    if k < i {
                        assert(built@[k] == before[k]);
                    }
                }
                cur = cur + own;
            },
        }
    }
    Ok(built)
}

/// Stores every entry of `more` in `all`, one after the other.
fn store_all(all: &mut Table<Uid>, more: &Vec<(String, Uid)>)
    ensures
        final(all).entries@ == put_all(old(all).entries@, more@, more@.len()),
{
    let n: usize = more.len();
    let mut i: usize = 0;
    while i < n
        invariant
            n == more@.len(),
            i <= n,
            all.entries@ == put_all(old(all).entries@, more@, i as nat),
        decreases n - i,
    {
        all.insert(more[i].0.clone(), more[i].1.clone());
        i += 1;
    }
}

impl Default for ProjectBuilder {
    /// A project of an empty stage and no sprites.
    fn default() -> (b: ProjectBuilder)
        ensures
            b.sprite_builders@ == Seq::<SpriteBuilder>::empty(),
            b.monitors@ == Seq::<Monitor>::empty(),
            b.stage_builder.target.name@ == "stage"@,
            b.stage_builder.target.is_blank(),
            b.stage_builder.tempo == 60,
            b.stage_builder.video_state == VideoState::On,
            b.stage_builder.video_transparency == 50,
            b.demand() == 0,
            b.meta.semver@ == "3.0.0"@,
            b.meta.vm@ == "0.2.0-prerelease.20220222132735"@,
            b.meta.agent@ == "sb-itchy/0.1.0"@,
    {
        ProjectBuilder {
            stage_builder: StageBuilder::default(),
            sprite_builders: Vec::new(),
            monitors: Vec::new(),
            meta: Meta {
                semver: "3.0.0".to_owned(),
                vm: "0.2.0-prerelease.20220222132735".to_owned(),
                agent: "sb-itchy/0.1.0".to_owned(),
            },
        }
    }
}

} // verus!
