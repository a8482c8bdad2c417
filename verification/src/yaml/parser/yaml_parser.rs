//! Parsing of YAML text into a tree of `YamlNode`s.
use vstd::prelude::*;

use crate::common::syntax_tree::{
    lemma_tree_views, spec_text_of, syntax_tree_of, text_between_or_empty,
    tree_views, SyntaxTree, SyntaxTreeView,
};
use crate::yaml::parser::dto::yaml_node::YamlNode;
use crate::yaml::parser::dto::yaml_node_type::{spec_yaml_kind_named, YamlNodeType};

verus! {

/// The syntax tree that the YAML grammar gives the text `source`.
pub uninterp spec fn spec_yaml_tree(source: Seq<char>) -> SyntaxTreeView;

/// `tree_sitter_parsers::parse` with the YAML grammar, converted to plain values (see
/// `syntax_tree_of`): the syntax tree of `code`, which depends on `code` alone and is named
/// `spec_yaml_tree`.
#[verifier::external_body]
fn parse_yaml(code: &str) -> (r: SyntaxTree)
    ensures
        r@ == spec_yaml_tree(code@),
{
    let tree = tree_sitter_parsers::parse(code, "yaml");
    syntax_tree_of(&tree.root_node())
}

/// Whether a character is a blank (a space or a tab).
pub open spec fn is_blank(c: char) -> bool {
    c == ' ' || c == '\t'
}

/// The longest end of `s` made of blanks.
pub open spec fn spec_trailing_blanks(s: Seq<char>) -> Seq<char>
    decreases s.len(),
{
    if s.len() > 0 && is_blank(s.last()) {
        spec_trailing_blanks(s.drop_last()).push(s.last())
    } else {
        Seq::empty()
    }
}

/// The longest end of `s` made of blanks.
pub fn trailing_blanks(s: &str) -> (r: String)
    ensures
        r@ == spec_trailing_blanks(s@),
{
    let n = s.unicode_len();
    let mut k = n;
    proof {
        assert(s@.take(n as int) =~= s@);
        assert(s@.subrange(n as int, n as int) =~= Seq::<char>::empty());
        assert(spec_trailing_blanks(s@) =~= spec_trailing_blanks(s@.take(n as int)) + Seq::<char>::empty());
    }
    while k > 0 && (s.get_char(k - 1) == ' ' || s.get_char(k - 1) == '\t')
        invariant
            k <= n,
            n == s@.len(),
            spec_trailing_blanks(s@) == spec_trailing_blanks(s@.take(k as int)) + s@.subrange(
                k as int,
                n as int,
            ),
        decreases k,
    {
        proof {
            let t = s@.take(k as int);
            assert(t.drop_last() =~= s@.take(k - 1));
            assert(t.last() == s@[k - 1]);
            assert(s@.subrange(k - 1, n as int) =~= seq![s@[k - 1]] + s@.subrange(k as int, n as int));
        }
        k = k - 1;
    }
    proof {
        if k > 0 {
            assert(s@.take(k as int).last() == s@[k - 1]);
        }
        assert(spec_trailing_blanks(s@.take(k as int)) =~= Seq::<char>::empty());
    }
    s.substring_char(k, n).to_owned()
}

/// Where the line of the node `t` starts: its start less its column.
pub open spec fn spec_line_start(t: SyntaxTreeView) -> usize {
    if t.start_column <= t.start_byte {
        (t.start_byte - t.start_column) as usize
    } else {
        0
    }
}

/// Whether `n` is the node made from the node `t` of a syntax tree of the text `source` of the
/// file at `file_path`: it has that file and the bytes of `t`, the kind that the grammar's name
/// of `t` names (none for a name of no known kind), the text between its bytes and the blanks
/// that end its line before it (each none where the bytes do not delimit a part of the text), and children made in the same
/// way from those of `t`, one for one.
pub open spec fn spec_yaml_node_of(n: YamlNode, t: SyntaxTreeView, file_path: Seq<char>, source: Seq<char>) -> bool
    decreases t, 1int,
{
    &&& n.spec_file_path() == file_path
    &&& n.spec_start_byte() == t.start_byte
    &&& n.spec_end_byte() == t.end_byte
    &&& n.spec_node_type() == spec_yaml_kind_named(t.kind)
    &&& n.spec_content() == spec_text_of(source, t.start_byte, t.end_byte)
    &&& n.spec_leading_space() == spec_trailing_blanks(spec_text_of(source, spec_line_start(t), t.start_byte))
    &&& all_yaml_nodes_of(n.spec_children(), t.children, file_path, source)
}

/// Whether each of `ns` is made from the node at the same place in `ts` (see
/// `spec_yaml_node_of`).
pub open spec fn all_yaml_nodes_of(ns: Seq<YamlNode>, ts: Seq<SyntaxTreeView>, file_path: Seq<char>, source: Seq<char>) -> bool
    decreases ts, 0int,
{
    if ts.len() == 0 {
        ns.len() == 0
    } else {
        &&& ns.len() == ts.len()
        &&& spec_yaml_node_of(ns.last(), ts.last(), file_path, source)
        &&& all_yaml_nodes_of(ns.drop_last(), ts.drop_last(), file_path, source)
    }
}

/// Nodes made one by one from the nodes of `ts` are made from `ts`.
pub proof fn lemma_all_yaml_nodes_of(ns: Seq<YamlNode>, ts: Seq<SyntaxTreeView>, file_path: Seq<char>, source: Seq<char>)
    requires
        ns.len() == ts.len(),
        forall|i: int| 0 <= i < ts.len() ==> spec_yaml_node_of(#[trigger] ns[i], ts[i], file_path, source),
    ensures
        all_yaml_nodes_of(ns, ts, file_path, source),
    decreases ts.len(),
{
    if ts.len() > 0 {
        assert forall|i: int| 0 <= i < ts.drop_last().len() implies spec_yaml_node_of(
            #[trigger] ns.drop_last()[i],
            ts.drop_last()[i],
            file_path,
            source,
        ) by {
            assert(ns.drop_last()[i] == ns[i]);
            assert(ts.drop_last()[i] == ts[i]);
        }
        lemma_all_yaml_nodes_of(ns.drop_last(), ts.drop_last(), file_path, source);
        assert(spec_yaml_node_of(ns[ns.len() - 1], ts[ts.len() - 1], file_path, source));
    }
}

/// The node made from a node `tree` of a syntax tree of the text `source` of the file at
/// `file_path`, with the nodes below it (see `spec_yaml_node_of`).
pub fn node_from_tree(tree: &SyntaxTree, file_path: &str, source: &str) -> (r: YamlNode)
    ensures
        spec_yaml_node_of(r, tree@, file_path@, source@),
    decreases tree,
{
    proof {
        lemma_tree_views(tree.children@);
    }
    let mut children: Vec<YamlNode> = Vec::new();
    let mut i: usize = 0;
    while i < tree.children.len()
        invariant
            i <= tree.children.len(),
            children@.len() == i,
            forall|j: int|
                0 <= j < i ==> spec_yaml_node_of(#[trigger] children@[j], tree.children@[j]@, file_path@, source@),
        decreases tree.children.len() - i,
    {
        proof {
            assert(decreases_to!(*tree => tree.children));
            assert(decreases_to!(tree.children => tree.children@));
            assert(decreases_to!(tree.children@ => tree.children@[i as int]));
        }
        let c = node_from_tree(&tree.children[i], file_path, source);
        children.push(c);
        i = i + 1;
    }
    let node_type = match YamlNodeType::from_str(tree.kind.as_str()) {
        Ok(t) => Some(t),
        Err(()) => None,
    };
    let start = tree.start_byte;
    let content = text_between_or_empty(source, start, tree.end_byte);
    let line_start = if tree.start_column <= start {
        start - tree.start_column
    } else {
        0
    };
    let prefix = text_between_or_empty(source, line_start, start);
    let leading = trailing_blanks(prefix.as_str());
    proof {
        assert forall|j: int| 0 <= j < tree_views(tree.children@).len() implies spec_yaml_node_of(
            #[trigger] children@[j],
            tree_views(tree.children@)[j],
            file_path@,
            source@,
        ) by {}
        lemma_all_yaml_nodes_of(children@, tree_views(tree.children@), file_path@, source@);
    }
    YamlNode::from_parts(file_path, start, tree.end_byte, children, node_type, content.as_str(), leading.as_str())
}

/// The tree of the YAML text `source` of the file at `yaml_file_path`: the nodes made from the
/// syntax tree that the YAML grammar gives the text.
pub fn parse(source: &str, yaml_file_path: &str) -> (r: Result<YamlNode, String>)
    ensures
        r matches Ok(n) && spec_yaml_node_of(n, spec_yaml_tree(source@), yaml_file_path@, source@),
{
    let tree = parse_yaml(source);
    Ok(node_from_tree(&tree, yaml_file_path, source))
}

} // verus!
