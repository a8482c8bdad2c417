//! The imports of a Java file as the file scan would sort them: explicit and wildcard ones,
//! each kept as its declaration node.
use vstd::prelude::*;

use crate::common::text::str_eq;
use crate::java::parser::java_node::JavaNode;

verus! {

/// Whether an import declaration node imports every type of a package: one of its children is
/// the `*` that ends the name.
pub open spec fn spec_is_wildcard_import(import: JavaNode) -> bool {
    exists|i: int| 0 <= i < import.spec_children().len() && (#[trigger] import.spec_children()[i]).spec_content() == "*"@
}

/// The explicit and the wildcard imports of a file.
pub struct JavaImports {
    explicit_imports: Vec<JavaNode>,
    wildcard_imports: Vec<JavaNode>,
}

impl JavaImports {
    /// Both lists together can be counted.
    pub closed spec fn wf(&self) -> bool {
        self.explicit_imports@.len() + self.wildcard_imports@.len() <= usize::MAX
    }

    /// The explicit imports, in the order they were inserted.
    pub closed spec fn spec_explicit_imports(&self) -> Seq<JavaNode> {
        self.explicit_imports@
    }

    /// The wildcard imports, in the order they were inserted.
    pub closed spec fn spec_wildcard_imports(&self) -> Seq<JavaNode> {
        self.wildcard_imports@
    }

    /// How many imports there are of either kind.
    pub closed spec fn spec_count(&self) -> nat {
        self.explicit_imports@.len() + self.wildcard_imports@.len()
    }

    /// No imports.
    pub fn new() -> (r: JavaImports)
        ensures
            r.wf(),
            r.spec_count() == 0,
    {
        JavaImports { explicit_imports: Vec::new(), wildcard_imports: Vec::new() }
    }

    /// Adds an import declaration node to the wildcard imports when it imports every type of a
    /// package, and to the explicit ones otherwise.
    pub fn insert_import(&mut self, import: JavaNode)
        requires
            old(self).wf(),
            old(self).spec_count() < usize::MAX,
        ensures
            final(self).wf(),
            spec_is_wildcard_import(import) ==> final(self).spec_wildcard_imports() == old(
                self,
            ).spec_wildcard_imports().push(import) && final(self).spec_explicit_imports() == old(
                self,
            ).spec_explicit_imports(),
            !spec_is_wildcard_import(import) ==> final(self).spec_explicit_imports() == old(
                self,
            ).spec_explicit_imports().push(import) && final(self).spec_wildcard_imports() == old(
                self,
            ).spec_wildcard_imports(),
            final(self).spec_count() == old(self).spec_count() + 1,
    {
        let children = import.get_children();
        let mut wildcard = false;
        let mut i: usize = 0;
        while i < children.len()
            invariant
                i <= children.len(),
                children@ == import.spec_children(),
                wildcard <==> exists|k: int| 0 <= k < i && (#[trigger] children@[k]).spec_content() == "*"@,
            decreases children.len() - i,
        {
            let content = children[i].get_content();
            if str_eq(content.as_str(), "*") {
                wildcard = true;
            }
            i = i + 1;
        }
        if wildcard {
            self.wildcard_imports.push(import);
        } else {
            self.explicit_imports.push(import);
        }
    }

    /// How many imports there are of either kind.
    pub fn count(&self) -> (r: usize)
        requires
            self.wf(),
        ensures
            r == self.spec_count(),
    {
        self.explicit_imports.len() + self.wildcard_imports.len()
    }
}

} // verus!
