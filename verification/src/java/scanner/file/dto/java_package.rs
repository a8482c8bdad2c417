//! The package that a package declaration names, as its dot-separated pieces.
use vstd::prelude::*;

use crate::common::text::{join, spec_join, views};
use crate::java::parser::java_node::JavaNode;
use crate::java::parser::java_node_type::JavaNodeType;

verus! {

/// The texts of the identifiers among `children`, in order.
pub open spec fn spec_ids(children: Seq<JavaNode>) -> Seq<Seq<char>>
    decreases children.len(),
{
    if children.len() == 0 {
        Seq::empty()
    } else {
        let last = children.last();
        spec_ids(children.drop_last()) + if last.spec_node_type() == Some(JavaNodeType::Id) {
            seq![last.spec_content()]
        } else {
            Seq::empty()
        }
    }
}

/// The pieces named under the scoped identifier whose children are `children`: the
/// identifiers below a nested scoped identifier, and the identifiers themselves.
pub open spec fn spec_scoped_ids(children: Seq<JavaNode>) -> Seq<Seq<char>>
    decreases children.len(),
{
    if children.len() == 0 {
        Seq::empty()
    } else {
        let last = children.last();
        spec_scoped_ids(children.drop_last()) + if last.spec_node_type() == Some(
            JavaNodeType::ScopedIdentifier,
        ) {
            spec_ids(last.spec_children())
        } else if last.spec_node_type() == Some(JavaNodeType::Id) {
            seq![last.spec_content()]
        } else {
            Seq::empty()
        }
    }
}

/// The pieces named under the scoped identifiers among `children`.
pub open spec fn spec_declared_ids(children: Seq<JavaNode>) -> Seq<Seq<char>>
    decreases children.len(),
{
    if children.len() == 0 {
        Seq::empty()
    } else {
        let last = children.last();
        spec_declared_ids(children.drop_last()) + if last.spec_node_type() == Some(
            JavaNodeType::ScopedIdentifier,
        ) {
            spec_scoped_ids(last.spec_children())
        } else {
            Seq::empty()
        }
    }
}

/// The pieces of the package that a package declaration node names; none for another node.
pub open spec fn spec_package_nodes(node: JavaNode) -> Seq<Seq<char>> {
    if node.spec_node_type() == Some(JavaNodeType::PackageDecl) {
        spec_declared_ids(node.spec_children())
    } else {
        Seq::empty()
    }
}

/// A Java package, as the pieces of its name.
pub struct JavaPackage {
    nodes: Vec<String>,
}

impl View for JavaPackage {
    type V = Seq<Seq<char>>;

    closed spec fn view(&self) -> Seq<Seq<char>> {
        views(self.nodes@)
    }
}

/// Appends to `nodes` the texts of the identifiers among `children`.
fn push_ids(children: &Vec<JavaNode>, nodes: &mut Vec<String>)
    ensures
        views(final(nodes)@) == views(old(nodes)@) + spec_ids(children@),
{
    let ghost start = views(nodes@);
    let mut i: usize = 0;
    while i < children.len()
        invariant
            i <= children.len(),
            views(nodes@) == start + spec_ids(children@.take(i as int)),
        decreases children.len() - i,
    {
        assert(children@.take(i + 1).drop_last() =~= children@.take(i as int));
        let ghost before = nodes@;
        if children[i].get_node_type() == Some(JavaNodeType::Id) {
            nodes.push(children[i].get_content());
            assert(views(nodes@) =~= views(before).push(children@[i as int].spec_content()));
        }
        assert(views(nodes@) =~= start + spec_ids(children@.take(i + 1)));
        i = i + 1;
    }
    assert(children@.take(children.len() as int) =~= children@);
}

/// Appends to `nodes` the pieces named under a scoped identifier whose children are
/// `children`.
fn push_scoped_ids(children: &Vec<JavaNode>, nodes: &mut Vec<String>)
    ensures
        views(final(nodes)@) == views(old(nodes)@) + spec_scoped_ids(children@),
{
    let ghost start = views(nodes@);
    let mut i: usize = 0;
    while i < children.len()
        invariant
            i <= children.len(),
            views(nodes@) == start + spec_scoped_ids(children@.take(i as int)),
        decreases children.len() - i,
    {
        assert(children@.take(i + 1).drop_last() =~= children@.take(i as int));
        let ghost before = nodes@;
        let node_type = children[i].get_node_type();
        if node_type == Some(JavaNodeType::ScopedIdentifier) {
            push_ids(children[i].get_children(), nodes);
        } else if node_type == Some(JavaNodeType::Id) {
            nodes.push(children[i].get_content());
            assert(views(nodes@) =~= views(before).push(children@[i as int].spec_content()));
        }
        assert(views(nodes@) =~= start + spec_scoped_ids(children@.take(i + 1)));
        i = i + 1;
    }
    assert(children@.take(children.len() as int) =~= children@);
}

/// The pieces of the package that a package declaration node names.
fn get_nodes(java_package_decl_node: &JavaNode) -> (r: Vec<String>)
    ensures
        views(r@) == spec_package_nodes(*java_package_decl_node),
{
    let mut nodes: Vec<String> = Vec::new();
    if java_package_decl_node.get_node_type() != Some(JavaNodeType::PackageDecl) {
        assert(views(nodes@) =~= Seq::<Seq<char>>::empty());
        return nodes;
    }
    let children = java_package_decl_node.get_children();
    let mut i: usize = 0;
    assert(views(nodes@) =~= Seq::<Seq<char>>::empty());
    while i < children.len()
        invariant
            i <= children.len(),
            children@ == java_package_decl_node.spec_children(),
            views(nodes@) == spec_declared_ids(children@.take(i as int)),
        decreases children.len() - i,
    {
        assert(children@.take(i + 1).drop_last() =~= children@.take(i as int));
        if children[i].get_node_type() == Some(JavaNodeType::ScopedIdentifier) {
            push_scoped_ids(children[i].get_children(), &mut nodes);
        }
        assert(views(nodes@) =~= spec_declared_ids(children@.take(i + 1)));
        i = i + 1;
    }
    assert(children@.take(children.len() as int) =~= children@);
    nodes
}

impl JavaPackage {
    /// The package that a package declaration node names; one without pieces for another
    /// node.
    pub fn new(node: &JavaNode) -> (r: JavaPackage)
        ensures
            r@ == spec_package_nodes(*node),
    {
        JavaPackage { nodes: get_nodes(node) }
    }

    /// The name of the package: its pieces joined by dots.
    pub fn to_string(&self) -> (r: String)
        ensures
            r@ == spec_join(self@, "."@),
    {
        join(&self.nodes, ".")
    }
}

} // verus!
