//! How a build is to be carried out, and what it has to say beyond its
//! result.

use vstd::prelude::*;

verus! {

/// How a builder goes about its work.
#[derive(Debug, PartialEq, Eq, Clone, Copy, PartialOrd, Ord, Hash, Structural)]
pub enum BuildMethod {
    /// Arrange the result as the editor would.
    Fancy,
    /// Build what was described and nothing more.
    AsIs,
}

impl Default for BuildMethod {
    fn default() -> (m: BuildMethod)
        ensures
            m == BuildMethod::AsIs,
    {
        BuildMethod::AsIs
    }
}

/// What a build has to say beyond its result.
#[derive(Debug, Clone, PartialEq, Eq)]
pub struct BuildReport {
    /// Errors that did not keep the build from finishing.
    pub soft_errors: Vec<String>,
    /// Warnings.
    pub warnings: Vec<String>,
}

impl BuildReport {
    /// A report with nothing in it.
    pub fn new() -> (r: BuildReport)
        ensures
            r.soft_errors@ == Seq::<String>::empty(),
            r.warnings@ == Seq::<String>::empty(),
    {
        BuildReport { soft_errors: Vec::new(), warnings: Vec::new() }
    }

    /// Records an error that did not keep the build from finishing.
    pub fn add_soft_error(&mut self, message: &str)
        ensures
            final(self).soft_errors@.len() == old(self).soft_errors@.len() + 1,
            final(self).soft_errors@.drop_last() == old(self).soft_errors@,
            final(self).soft_errors@.last()@ == message@,
            final(self).warnings == old(self).warnings,
    {
        self.soft_errors.push(message.to_owned());
        assert(self.soft_errors@.drop_last() =~= old(self).soft_errors@);
    }

    /// Records a warning. It is kept with the soft errors, after those
    /// recorded before.
    pub fn add_warning(&mut self, message: &str)
        ensures
            final(self).soft_errors@.len() == old(self).soft_errors@.len() + 1,
            final(self).soft_errors@.drop_last() == old(self).soft_errors@,
            final(self).soft_errors@.last()@ == message@,
            final(self).warnings == old(self).warnings,
    {
        self.soft_errors.push(message.to_owned());
        assert(self.soft_errors@.drop_last() =~= old(self).soft_errors@);
    }

    /// Whether nothing was recorded.
    pub fn is_empty(&self) -> (b: bool)
        ensures
            b == (self.soft_errors@.len() == 0 && self.warnings@.len() == 0),
    {
        self.soft_errors.len() == 0 && self.warnings.len() == 0
    }
}

impl Default for BuildReport {
    fn default() -> (r: BuildReport)
        ensures
            r.soft_errors@ == Seq::<String>::empty(),
            r.warnings@ == Seq::<String>::empty(),
    {
        BuildReport::new()
    }
}

/// A builder that is built in a context of its own choosing.
pub trait Build: Sized {
    /// What the builder builds.
    type Builded;

    /// Why it may fail to.
    type BuildError;

    /// What it needs to know.
    type Context;

    /// Builds, and reports.
    fn build(self, context: Self::Context) -> (Result<Self::Builded, Self::BuildError>, BuildReport);

    /// Says whether a build with the given method would fail, and what it
    /// would report.
    fn check(&self, with_method: BuildMethod) -> (Option<Self::BuildError>, BuildReport);

    /// The method that the builder uses.
    fn build_method(&self) -> BuildMethod;

    /// Makes the builder use the given method.
    fn set_build_method_to(&mut self, method: BuildMethod);

    /// Makes the builder, and every builder inside it, use the given
    /// method.
    fn set_build_method_recursivly_to(&mut self, method: BuildMethod);
}

} // verus!
