//! The names in scope while a target's stacks are built.
//!
//! Names live in two tiers: the project-wide tier, declared by the stage,
//! and the tier of the sprite that is being built. Broadcasts exist in the
//! project-wide tier only.

use crate::table::{find, Table};
use crate::uid::Uid;
use vstd::prelude::*;

verus! {

/// The tier in which a name is looked up.
#[derive(Debug, Clone, Copy, PartialEq, Eq, Structural)]
pub enum VarListFrom {
    /// The project-wide tier.
    Global,
    /// The tier of the target that owns the block.
    Sprite,
}

/// What kind of thing a name refers to.
#[derive(Debug, Clone, Copy, PartialEq, Eq, Structural)]
pub enum Category {
    Variable,
    List,
    Broadcast,
}

/// The variables and lists that the stage declares, by name.
#[derive(Debug, Clone, PartialEq, Eq)]
pub struct GlobalVarListContext {
    pub vars: Table<Uid>,
    pub lists: Table<Uid>,
}

/// The variables and lists that the stage declares, each table as the
/// sequence of its entries.
pub struct GlobalNames {
    pub vars: Seq<(String, Uid)>,
    pub lists: Seq<(String, Uid)>,
}

impl View for GlobalVarListContext {
    type V = GlobalNames;

    open spec fn view(&self) -> GlobalNames {
        GlobalNames { vars: self.vars.entries@, lists: self.lists.entries@ }
    }
}

/// Everything a block of one target can refer to, by name.
#[derive(Debug, PartialEq, Eq)]
pub struct TargetContext<'a> {
    pub global_vars: &'a Table<Uid>,
    pub global_lists: &'a Table<Uid>,
    pub this_sprite_vars: &'a Table<Uid>,
    pub this_sprite_lists: &'a Table<Uid>,
    pub all_broadcasts: &'a Table<Uid>,
}

/// The names in scope, each table as the sequence of its entries.
pub struct Scope {
    pub global_vars: Seq<(String, Uid)>,
    pub global_lists: Seq<(String, Uid)>,
    pub this_sprite_vars: Seq<(String, Uid)>,
    pub this_sprite_lists: Seq<(String, Uid)>,
    pub all_broadcasts: Seq<(String, Uid)>,
}

/// The identifier that the first entry of `table` with the name `name`
/// holds, if there is one.
pub open spec fn lookup(table: Seq<(String, Uid)>, name: Seq<char>) -> Option<Uid> {
    match find(table, name) {
        Some(i) => Some(table[i].1),
        None => None,
    }
}

impl Scope {
    /// The identifier of `name` in the given tier and category, if the
    /// scope declares it there. The tier of a sprite has no broadcasts.
    pub open spec fn resolved(self, from: VarListFrom, category: Category, name: Seq<char>)
        -> Option<Uid> {
        match (from, category) {
            (VarListFrom::Global, Category::Variable) => lookup(self.global_vars, name),
            (VarListFrom::Global, Category::List) => lookup(self.global_lists, name),
            (VarListFrom::Global, Category::Broadcast) => lookup(self.all_broadcasts, name),
            (VarListFrom::Sprite, Category::Variable) => lookup(self.this_sprite_vars, name),
            (VarListFrom::Sprite, Category::List) => lookup(self.this_sprite_lists, name),
            (VarListFrom::Sprite, Category::Broadcast) => None,
        }
    }
}

impl<'a> View for TargetContext<'a> {
    type V = Scope;

    open spec fn view(&self) -> Scope {
        Scope {
            global_vars: self.global_vars.entries@,
            global_lists: self.global_lists.entries@,
            this_sprite_vars: self.this_sprite_vars.entries@,
            this_sprite_lists: self.this_sprite_lists.entries@,
            all_broadcasts: self.all_broadcasts.entries@,
        }
    }
}

impl<'a> TargetContext<'a> {
    /// Looks `name` up in the given tier and category. A miss is `None`;
    /// whether that is fatal is for the caller to decide.
    pub fn resolve(&self, from: VarListFrom, category: Category, name: &String) -> (r: Option<Uid>)
        ensures
            r == self@.resolved(from, category, name@),
    {
        let table: &Table<Uid> = match (from, category) {
            (VarListFrom::Global, Category::Variable) => self.global_vars,
            (VarListFrom::Global, Category::List) => self.global_lists,
            (VarListFrom::Global, Category::Broadcast) => self.all_broadcasts,
            (VarListFrom::Sprite, Category::Variable) => self.this_sprite_vars,
            (VarListFrom::Sprite, Category::List) => self.this_sprite_lists,
            (VarListFrom::Sprite, Category::Broadcast) => {
                return None;
            },
        };
        match table.get(name) {
            Some(uid) => Some(uid.clone()),
            None => None,
        }
    }
}

} // verus!
