//! The attribute classifier: which attributes mark a test, and which are
//! carried over to the generated tests.
use crate::ast::Attribute;
use vstd::prelude::*;

verus! {

/// Paths of the attributes that mark a test function, and of those that are
/// copied onto each generated test.
#[derive(Clone, Debug, PartialEq, Eq)]
pub struct MacroOpts {
    pub test_attrs: Vec<String>,
    pub copy_attrs: Vec<String>,
}

/// `path` is one of `paths`.
pub open spec fn path_listed(paths: Seq<String>, path: Seq<char>) -> bool {
    exists|i: int| 0 <= i < paths.len() && (#[trigger] paths[i])@ == path
}

impl MacroOpts {
    pub open spec fn spec_is_test_attr(&self, attr: Attribute) -> bool {
        path_listed(self.test_attrs@, attr.path@)
    }

    pub open spec fn spec_is_copied_attr(&self, attr: Attribute) -> bool {
        path_listed(self.copy_attrs@, attr.path@)
    }

    /// Whether `attr` marks a test function.
    pub fn is_test_attr(&self, attr: &Attribute) -> (r: bool)
        ensures
            r == self.spec_is_test_attr(*attr),
    {
        listed(&self.test_attrs, &attr.path)
    }

    /// Whether `attr` is copied onto the generated tests.
    pub fn is_copied_attr(&self, attr: &Attribute) -> (r: bool)
        ensures
            r == self.spec_is_copied_attr(*attr),
    {
        listed(&self.copy_attrs, &attr.path)
    }
}

fn listed(paths: &Vec<String>, path: &String) -> (r: bool)
    ensures
        r == path_listed(paths@, path@),
{
    let mut i: usize = 0;
    while i < paths.len()
        invariant
            i <= paths.len(),
            forall|j: int| 0 <= j < i ==> (#[trigger] paths@[j])@ != path@,
        decreases paths.len() - i,
    {
        if paths[i] == *path {
            return true;
        }
        i += 1;
    }
    false
}

} // verus!
