//! The declarative configuration: sections scoped to targets, each listing
//! the files it places and where they come from.

use vstd::prelude::*;
use vstd::string::*;

use crate::target::Target;

verus! {

/// One declared file: its name and the template of the directory it is
/// linked into.
pub struct Block {
    pub name: String,
    pub to: String,
}

/// One configuration section: the targets it applies to, its file blocks,
/// and the template of the directory its files come from.
pub struct Section {
    pub target: Vec<Target>,
    pub files: Vec<Block>,
    pub from: String,
}

/// A whole configuration: its sections.
pub struct Config {
    pub map: Vec<Section>,
}

impl Section {
    /// The target list of a section that declares none: the wildcard alone.
    pub fn default_target() -> (r: Vec<Target>)
        ensures
            r@ =~= seq![Target::Any],
    {
        let mut v: Vec<Target> = Vec::new();
        v.push(Target::default());
        v
    }

    /// The source template of a section that declares none.
    pub fn default_from() -> (r: String)
        ensures
            r@ == "files/$TARGET"@,
    {
        String::from_str("files/$TARGET")
    }
}

} // verus!
