//! The names that a program which builds a project needs most.

pub use crate::asset::{AssetBuilder, CostumeBuilder, SoundBuilder};
pub use crate::block::{
    BlockBuilder, BlockFieldBuilder, BlockInputBuilder, BlockNormalBuilder, BlockVarListBuilder,
    FieldKind, StackOrValue,
};
pub use crate::build_context::{GlobalVarListContext, TargetContext, VarListFrom};
pub use crate::comment::CommentBuilder;
pub use crate::data::{ListBuilder, VariableBuilder};
pub use crate::error::BuildError;
pub use crate::project::ProjectBuilder;
pub use crate::resource::{NewResourceError, Resource};
pub use crate::schema::{BlockInputValue, ShadowInputType};
pub use crate::stack::StackBuilder;
pub use crate::target::{SpriteBuilder, StageBuilder, TargetBuilder};
pub use crate::uid::Uid;
