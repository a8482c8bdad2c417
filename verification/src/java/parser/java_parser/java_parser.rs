//! Parsing of Java source text into a tree of `JavaNode`s.
use vstd::prelude::*;

use tree_sitter::Parser;

use crate::common::syntax_tree::{
    lemma_tree_views, spec_text_of, syntax_tree_of, text_between_or_empty, tree_views, SyntaxTree,
    SyntaxTreeView,
};
use crate::java::parser::java_node::JavaNode;
use crate::java::parser::java_node_type::{spec_kind_named, JavaNodeType};

verus! {

/// The syntax tree that the Java grammar gives the text `source`.
pub uninterp spec fn spec_java_tree(source: Seq<char>) -> SyntaxTreeView;

/// `tree_sitter::Parser::parse` of `source` by a parser (`tree_sitter::Parser::new`) set by
/// `tree_sitter::Parser::set_language` to the grammar of `tree_sitter_java::language`, converted
/// to plain values (see `syntax_tree_of`). The tree depends on `source` alone, and is named
/// `spec_java_tree`. The grammar is of a version that this tree-sitter accepts, and the parser
/// has neither a timeout nor a cancellation flag, the only things that make `parse` give up;
/// so neither step fails.
#[verifier::external_body]
fn parse_java(source: &str) -> (r: SyntaxTree)
    ensures
        r@ == spec_java_tree(source@),
{
    let mut parser = Parser::new();
    parser.set_language(tree_sitter_java::language()).expect("Error loading Java grammar");
    let tree = parser.parse(source, None).expect("Error parsing java");
    syntax_tree_of(&tree.root_node())
}

/// Whether `n` is the node made from the node `t` of a syntax tree of the text `source` of the
/// file at `file_path`: it has that file and the bytes of `t`, the kind that the grammar's name
/// of `t` names (none for a name of no known kind), the text between its bytes (none where they
/// do not delimit a part of the text), and children made in the same way from those of `t`, one for one.
pub open spec fn spec_java_node_of(n: JavaNode, t: SyntaxTreeView, file_path: Seq<char>, source: Seq<char>) -> bool
    decreases t, 1int,
{
    &&& n.spec_file_path() == file_path
    &&& n.spec_start_byte() == t.start_byte
    &&& n.spec_end_byte() == t.end_byte
    &&& n.spec_node_type() == spec_kind_named(t.kind)
    &&& n.spec_content() == spec_text_of(source, t.start_byte, t.end_byte)
    &&& all_java_nodes_of(n.spec_children(), t.children, file_path, source)
}

/// Whether each of `ns` is made from the node at the same place in `ts` (see
/// `spec_java_node_of`).
pub open spec fn all_java_nodes_of(ns: Seq<JavaNode>, ts: Seq<SyntaxTreeView>, file_path: Seq<char>, source: Seq<char>) -> bool
    decreases ts, 0int,
{
    if ts.len() == 0 {
        ns.len() == 0
    } else {
        &&& ns.len() == ts.len()
        &&& spec_java_node_of(ns.last(), ts.last(), file_path, source)
        &&& all_java_nodes_of(ns.drop_last(), ts.drop_last(), file_path, source)
    }
}

/// Nodes made one by one from the nodes of `ts` are made from `ts`.
pub proof fn lemma_all_java_nodes_of(ns: Seq<JavaNode>, ts: Seq<SyntaxTreeView>, file_path: Seq<char>, source: Seq<char>)
    requires
        ns.len() == ts.len(),
        forall|i: int| 0 <= i < ts.len() ==> spec_java_node_of(#[trigger] ns[i], ts[i], file_path, source),
    ensures
        all_java_nodes_of(ns, ts, file_path, source),
    decreases ts.len(),
{
    if ts.len() > 0 {
        assert forall|i: int| 0 <= i < ts.drop_last().len() implies spec_java_node_of(
            #[trigger] ns.drop_last()[i],
            ts.drop_last()[i],
            file_path,
            source,
        ) by {
            assert(ns.drop_last()[i] == ns[i]);
            assert(ts.drop_last()[i] == ts[i]);
        }
        lemma_all_java_nodes_of(ns.drop_last(), ts.drop_last(), file_path, source);
        assert(spec_java_node_of(ns[ns.len() - 1], ts[ts.len() - 1], file_path, source));
    }
}

/// The node made from a node `tree` of a syntax tree of the text `source` of the file at
/// `file_path`, with the nodes below it (see `spec_java_node_of`).
pub fn node_from_tree(tree: &SyntaxTree, file_path: &str, source: &str) -> (r: JavaNode)
    ensures
        spec_java_node_of(r, tree@, file_path@, source@),
    decreases tree,
{
    proof {
        lemma_tree_views(tree.children@);
    }
    let mut children: Vec<JavaNode> = Vec::new();
    let mut i: usize = 0;
    while i < tree.children.len()
        invariant
            i <= tree.children.len(),
            children@.len() == i,
            forall|j: int|
                0 <= j < i ==> spec_java_node_of(#[trigger] children@[j], tree.children@[j]@, file_path@, source@),
        decreases tree.children.len() - i,
    {
        proof {
            assert(decreases_to!(*tree => tree.children));
            assert(decreases_to!(tree.children => tree.children@));
            assert(decreases_to!(tree.children@ => tree.children@[i as int]));
        }
        let c = node_from_tree(&tree.children[i], file_path, source);
        children.push(c);
        i = i + 1;
    }
    let node_type = match JavaNodeType::from_str(tree.kind.as_str()) {
        Ok(t) => Some(t),
        Err(()) => None,
    };
    let content = text_between_or_empty(source, tree.start_byte, tree.end_byte);
    proof {
        assert forall|j: int| 0 <= j < tree_views(tree.children@).len() implies spec_java_node_of(
            #[trigger] children@[j],
            tree_views(tree.children@)[j],
            file_path@,
            source@,
        ) by {}
        lemma_all_java_nodes_of(children@, tree_views(tree.children@), file_path@, source@);
    }
    JavaNode::from_parts(file_path, tree.start_byte, tree.end_byte, children, node_type, content.as_str())
}

/// The tree of the Java source text `source` of the file at `java_file_path`: the nodes made
/// from the syntax tree that the Java grammar gives the text.
pub fn parse(source: &str, java_file_path: &str) -> (r: Result<JavaNode, String>)
    ensures
        r matches Ok(n) && spec_java_node_of(n, spec_java_tree(source@), java_file_path@, source@),
{
    let tree = parse_java(source);
    Ok(node_from_tree(&tree, java_file_path, source))
}

} // verus!
