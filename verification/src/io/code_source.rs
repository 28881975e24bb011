use vstd::prelude::*;
use crate::funge_dialect::FungeDialect;

verus! {

/// Where a program comes from: the path of its file, and the dialect that it
/// is written in, where that is known.
#[derive(Clone)]
pub struct CodeSource {
    path: String,
    dialect: Option<FungeDialect>,
}

impl CodeSource {
    /// The path of the file.
    pub closed spec fn path(&self) -> Seq<char> {
        self.path@
    }

    /// The dialect, where it is known.
    pub closed spec fn dialect(&self) -> Option<FungeDialect> {
        self.dialect
    }

    /// A source with the path `path` and the dialect `dialect`.
    pub fn new(path: String, dialect: Option<FungeDialect>) -> (source: Self)
        ensures
            source.path() == path@,
            source.dialect() == dialect,
    {
        CodeSource { path, dialect }
    }

    /// The path of the file.
    pub fn get_path(&self) -> (path: &str)
        ensures
            path@ == self.path(),
    {
        self.path.as_str()
    }

    /// The dialect, where it is known.
    pub fn get_dialect(&self) -> (dialect: Option<FungeDialect>)
        ensures
            dialect == self.dialect(),
    {
        self.dialect
    }
}

} // verus!
