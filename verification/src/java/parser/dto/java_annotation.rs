//! Annotations of a Java declaration, as parsed nodes.
use vstd::prelude::*;

use crate::java::annotation_usage::spec_is_annotation;
use crate::java::parser::java_node::JavaNode;
use crate::java::parser::java_node_type::JavaNodeType;

pub use crate::java::annotation_usage::is_java_node_annotation;

verus! {

/// The annotation nodes among `nodes`, in order.
pub open spec fn spec_annotation_nodes(nodes: Seq<JavaNode>) -> Seq<JavaNode> {
    nodes.filter(|c: JavaNode| c.spec_node_type() matches Some(t) && spec_is_annotation(t))
}

/// An annotation node of a parsed Java file.
pub struct JavaAnnotation {
    node: JavaNode,
}

impl JavaAnnotation {
    /// The node of the annotation.
    pub closed spec fn spec_node(&self) -> JavaNode {
        self.node
    }

    /// The annotation at the node `node`.
    pub fn new(node: &JavaNode) -> (r: JavaAnnotation)
        ensures
            r.spec_node().spec_same(*node),
    {
        JavaAnnotation { node: node.deep_clone() }
    }

    /// The node of the annotation.
    pub fn get_node(&self) -> (r: &JavaNode)
        ensures
            *r == self.spec_node(),
    {
        &self.node
    }

    /// The annotations among the children of a `modifiers` node, in order.
    pub fn new_from_modifiers(modifiers_node: &JavaNode) -> (r: Vec<JavaAnnotation>)
        ensures
            r@.len() == spec_annotation_nodes(modifiers_node.spec_children()).len(),
            forall|i: int|
                0 <= i < r@.len() ==> (#[trigger] r@[i]).spec_node().spec_same(
                    spec_annotation_nodes(modifiers_node.spec_children())[i],
                ),
    {
        let children = modifiers_node.get_children();
        let mut result: Vec<JavaAnnotation> = Vec::new();
        let mut i: usize = 0;
        proof {
            assert(spec_annotation_nodes(children@.take(0)) =~= Seq::<JavaNode>::empty());
        }
        while i < children.len()
            invariant
                i <= children.len(),
                children@ == modifiers_node.spec_children(),
                result@.len() == spec_annotation_nodes(children@.take(i as int)).len(),
                forall|j: int|
                    0 <= j < result@.len() ==> (#[trigger] result@[j]).spec_node().spec_same(
                        spec_annotation_nodes(children@.take(i as int))[j],
                    ),
            decreases children.len() - i,
        {
            proof {
                assert(children@.take(i + 1).drop_last() =~= children@.take(i as int));
                assert(children@.take(i + 1).last() == children@[i as int]);
                reveal(Seq::filter);
            }
            let child = &children[i];
            if let Some(node_type) = child.get_node_type() {
                if is_java_node_annotation(&node_type) {
                    result.push(JavaAnnotation::new(child));
                }
            }
            proof {
                let prev = spec_annotation_nodes(children@.take(i as int));
                let next = spec_annotation_nodes(children@.take(i + 1));
                if children@[i as int].spec_node_type() matches Some(t) && spec_is_annotation(t) {
                    assert(next == prev.push(children@[i as int]));
                } else {
                    assert(next == prev);
                }
                assert forall|j: int| 0 <= j < result@.len() implies (#[trigger] result@[j]).spec_node().spec_same(
                    next[j],
                ) by {
                    if j < prev.len() {
                        assert(next[j] == prev[j]);
                    }
                }
            }
            i = i + 1;
        }
        proof {
            assert(children@.take(children@.len() as int) =~= children@);
        }
        result
    }
}

} // verus!
