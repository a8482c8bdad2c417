//! The syntax trees that the tree-sitter parsers build, as plain values: for each node, the
//! grammar's name of its kind, its bytes in the text, the column where it starts, and its
//! children in order.
use vstd::prelude::*;

use tree_sitter::Node;
use vstd::string::StringSliceAdditionalSpecFns;
use vstd::utf8::{decode_utf8, encode_utf8, is_char_boundary};

verus! {

#[verifier::external_type_specification]
#[verifier::external_body]
pub struct ExNode<'a>(Node<'a>);

/// What a node of a syntax tree holds.
pub struct SyntaxTreeView {
    pub kind: Seq<char>,
    pub start_byte: usize,
    pub end_byte: usize,
    pub start_column: usize,
    pub children: Seq<SyntaxTreeView>,
}

/// A node of a syntax tree, with the nodes below it.
pub struct SyntaxTree {
    pub kind: String,
    pub start_byte: usize,
    pub end_byte: usize,
    pub start_column: usize,
    pub children: Vec<SyntaxTree>,
}

impl View for SyntaxTree {
    type V = SyntaxTreeView;

    open spec fn view(&self) -> SyntaxTreeView {
        self.spec_view()
    }
}

impl SyntaxTree {
    /// What the node holds, with what the nodes below it hold.
    pub open spec fn spec_view(self) -> SyntaxTreeView
        decreases self, 1int,
    {
        SyntaxTreeView {
            kind: self.kind@,
            start_byte: self.start_byte,
            end_byte: self.end_byte,
            start_column: self.start_column,
            children: tree_views(self.children@),
        }
    }
}

/// What each of `trees` holds, in order.
pub open spec fn tree_views(trees: Seq<SyntaxTree>) -> Seq<SyntaxTreeView>
    decreases trees, 0int,
{
    if trees.len() == 0 {
        Seq::empty()
    } else {
        tree_views(trees.drop_last()).push(trees.last().spec_view())
    }
}

/// What a list of trees holds, tree for tree.
pub proof fn lemma_tree_views(trees: Seq<SyntaxTree>)
    ensures
        tree_views(trees).len() == trees.len(),
        forall|i: int| 0 <= i < trees.len() ==> #[trigger] tree_views(trees)[i] == trees[i]@,
    decreases trees.len(),
{
    if trees.len() > 0 {
        lemma_tree_views(trees.drop_last());
        assert forall|i: int| 0 <= i < trees.len() implies #[trigger] tree_views(trees)[i] == trees[i]@ by {
            if i < trees.len() - 1 {
                assert(trees.drop_last()[i] == trees[i]);
            }
        }
    }
}

/// The tree rooted at a node of a tree-sitter tree, converted node for node: `Node::kind`,
/// `Node::start_byte`, `Node::end_byte`, the column of `Node::start_position`, and the
/// converted `Node::children` in order. The parse functions that call it state, by a name, what
/// the whole tree is; nothing is stated of one node.
#[verifier::external_body]
pub(crate) fn syntax_tree_of(node: &Node) -> (r: SyntaxTree) {
    let mut children = Vec::new();
    let mut cursor = node.walk();
    for child in node.children(&mut cursor) {
        children.push(syntax_tree_of(&child));
    }
    SyntaxTree {
        kind: node.kind().to_owned(),
        start_byte: node.start_byte(),
        end_byte: node.end_byte(),
        start_column: node.start_position().column,
        children,
    }
}

/// Whether the bytes `from` and `to` delimit a part of the UTF-8 encoding `bytes` of a text:
/// they are in order, within it, and each starts a character or ends the text.
pub open spec fn spec_delimits(bytes: Seq<u8>, from: usize, to: usize) -> bool {
    &&& from <= to <= bytes.len()
    &&& is_char_boundary(bytes, from as int)
    &&& is_char_boundary(bytes, to as int)
}

/// The characters of `source` between its bytes `from` and `to` in UTF-8; none when they do not
/// delimit a part of it.
pub open spec fn spec_text_of(source: Seq<char>, from: usize, to: usize) -> Seq<char> {
    let bytes = encode_utf8(source);
    if spec_delimits(bytes, from, to) {
        decode_utf8(bytes.subrange(from as int, to as int))
    } else {
        Seq::empty()
    }
}

/// The text between the bytes `from` and `to` of `source`, or `None` when they do not delimit a
/// part of it (see `spec_delimits`).
pub fn text_between(source: &str, from: usize, to: usize) -> (r: Option<String>)
    ensures
        match r {
            Some(t) => spec_delimits(source.spec_bytes(), from, to) && encode_utf8(t@) == source.spec_bytes().subrange(
                from as int,
                to as int,
            ) && t@ == spec_text_of(source@, from, to),
            None => !spec_delimits(source.spec_bytes(), from, to),
        },
{
    broadcast use vstd::utf8::encode_utf8_valid_utf8, vstd::utf8::encode_utf8_decode_utf8;

    let n = source.as_bytes().len();
    if !(from <= to && to <= n) {
        return None;
    }
    if !(source.is_char_boundary(from) && source.is_char_boundary(to)) {
        return None;
    }
    let ghost bytes = source.spec_bytes();
    let (left, _) = source.split_at(to);
    proof {
        let lb = left.spec_bytes();
        assert(lb =~= bytes.subrange(0, to as int));
        vstd::utf8::valid_utf8_split(bytes, to as int);
        if from < to {
            vstd::utf8::is_char_boundary_iff_not_is_continuation_byte(bytes, from as int);
            vstd::utf8::is_char_boundary_iff_not_is_continuation_byte(lb, from as int);
            assert(lb[from as int] == bytes[from as int]);
        } else {
            vstd::utf8::is_char_boundary_start_end_of_seq(lb);
        }
    }
    let (_, middle) = left.split_at(from);
    let t = middle.to_owned();
    proof {
        assert(middle.spec_bytes() =~= bytes.subrange(from as int, to as int));
        assert(encode_utf8(t@) == middle.spec_bytes());
    }
    Some(t)
}

/// The text between two bytes of `source`, as `text_between` gives it, or an empty text where
/// it gives none.
pub fn text_between_or_empty(source: &str, from: usize, to: usize) -> (r: String)
    ensures
        r@ == spec_text_of(source@, from, to),
{
    match text_between(source, from, to) {
        Some(t) => t,
        None => String::new(),
    }
}

} // verus!
