//! A node of a parsed YAML document, with its kind, its text and its children.
use vstd::prelude::*;

use crate::yaml::parser::dto::yaml_node_type::YamlNodeType;

verus! {

/// A node of a parsed YAML document.
pub struct YamlNode {
    file_path: String,
    start_byte: usize,
    end_byte: usize,
    children: Vec<YamlNode>,
    node_type: Option<YamlNodeType>,
    content: String,
    leading_space: String,
}

/// Whether a node is a mapping pair with a key (a node holding a node holding a node) and a
/// value (its third child).
pub open spec fn spec_is_complete_pair(n: YamlNode) -> bool {
    n.spec_children().len() > 2 && n.spec_children()[0].spec_children().len() > 0
        && n.spec_children()[0].spec_children()[0].spec_children().len() > 0
}

impl YamlNode {
    pub closed spec fn spec_file_path(&self) -> Seq<char> {
        self.file_path@
    }

    pub closed spec fn spec_start_byte(&self) -> usize {
        self.start_byte
    }

    pub closed spec fn spec_end_byte(&self) -> usize {
        self.end_byte
    }

    pub closed spec fn spec_children(&self) -> Seq<YamlNode> {
        self.children@
    }

    pub closed spec fn spec_node_type(&self) -> Option<YamlNodeType> {
        self.node_type
    }

    /// The text of the node.
    pub closed spec fn spec_content(&self) -> Seq<char> {
        self.content@
    }

    /// The blanks between the start of the line of the node and the node.
    pub closed spec fn spec_leading_space(&self) -> Seq<char> {
        self.leading_space@
    }

    /// The number of nodes on the longest path from this node down to a leaf.
    pub closed spec fn spec_height(&self) -> nat
        decreases self, 1int,
    {
        1 + max_height(self.children@)
    }

    /// Whether every mapping pair of the tree rooted here has a key and a value (see
    /// `spec_is_complete_pair`).
    pub closed spec fn spec_pairs_complete(&self) -> bool
        decreases self, 1int,
    {
        &&& self.node_type == Some(YamlNodeType::BlockMappingPair) ==> spec_is_complete_pair(*self)
        &&& all_pairs_complete(self.children@)
    }

    /// Every child of a node is lower than the node.
    pub proof fn lemma_child_height(&self, i: int)
        requires
            0 <= i < self.spec_children().len(),
        ensures
            self.spec_children()[i].spec_height() < self.spec_height(),
    {
        lemma_max_height(self.children@, i);
    }

    /// A node whose children are all lower than `k` is at most `k` high.
    pub proof fn lemma_height_at_most(&self, k: nat)
        requires
            forall|i: int| 0 <= i < self.spec_children().len() ==> #[trigger] self.spec_children()[i].spec_height() < k,
            k >= 1,
        ensures
            self.spec_height() <= k,
    {
        assert forall|i: int| 0 <= i < self.children@.len() implies #[trigger] self.children@[i].spec_height()
            <= (k - 1) as nat by {
            assert(self.spec_children()[i] == self.children@[i]);
        }
        lemma_max_height_at_most(self.children@, (k - 1) as nat);
    }

    /// A tree whose pairs are complete has complete pairs below its root, and a key and a
    /// value when its root is a pair.
    pub proof fn lemma_pairs_complete(&self)
        requires
            self.spec_pairs_complete(),
        ensures
            self.spec_node_type() == Some(YamlNodeType::BlockMappingPair) ==> spec_is_complete_pair(*self),
            forall|i: int|
                0 <= i < self.spec_children().len() ==> #[trigger] self.spec_children()[i].spec_pairs_complete(),
    {
        lemma_all_complete(self.children@);
    }

    /// A node of the file at `file_path` spanning the bytes from `start_byte` to `end_byte`,
    /// whose text is `content`, preceded on its line by the blanks `leading_space`.
    pub fn from_parts(
        file_path: &str,
        start_byte: usize,
        end_byte: usize,
        children: Vec<YamlNode>,
        node_type: Option<YamlNodeType>,
        content: &str,
        leading_space: &str,
    ) -> (r: YamlNode)
        ensures
            r.spec_file_path() == file_path@,
            r.spec_start_byte() == start_byte,
            r.spec_end_byte() == end_byte,
            r.spec_children() == children@,
            r.spec_node_type() == node_type,
            r.spec_content() == content@,
            r.spec_leading_space() == leading_space@,
    {
        YamlNode {
            file_path: file_path.to_owned(),
            start_byte,
            end_byte,
            children,
            node_type,
            content: content.to_owned(),
            leading_space: leading_space.to_owned(),
        }
    }

    /// The children of the node, in order.
    pub fn get_children(&self) -> (r: &Vec<YamlNode>)
        ensures
            r@ == self.spec_children(),
    {
        &self.children
    }

    /// The kind of the node, when the grammar's name for it is known.
    pub fn get_node_type(&self) -> (r: Option<YamlNodeType>)
        ensures
            r == self.spec_node_type(),
    {
        self.node_type
    }

    /// The text of the node.
    pub fn get_content(&self) -> (r: String)
        ensures
            r@ == self.spec_content(),
    {
        self.content.clone()
    }

    /// The text of the node, preceded by the blanks before it on its line.
    pub fn get_content_bytes_with_previous_empty_space(&self) -> (r: String)
        ensures
            r@ == self.spec_leading_space() + self.spec_content(),
    {
        let mut r = self.leading_space.clone();
        r.append(self.content.as_str());
        r
    }

    /// The first byte of the node in its file.
    pub fn get_start_byte(&self) -> (r: usize)
        ensures
            r == self.spec_start_byte(),
    {
        self.start_byte
    }

    /// The byte just past the node in its file.
    pub fn get_end_byte(&self) -> (r: usize)
        ensures
            r == self.spec_end_byte(),
    {
        self.end_byte
    }

    /// The path of the file of the node.
    pub fn get_file_path(&self) -> (r: &str)
        ensures
            r@ == self.spec_file_path(),
    {
        self.file_path.as_str()
    }

    /// The texts of the key and of the value of a mapping pair, if the node is one with at
    /// least three children.
    pub fn get_block_mapping_pair_strings(&self) -> (r: Option<(String, String)>)
        ensures
            match r {
                Some((k, v)) => self.spec_node_type() == Some(YamlNodeType::BlockMappingPair)
                    && self.spec_children().len() > 2 && k@ == self.spec_children()[0].spec_content()
                    && v@ == self.spec_children()[2].spec_content(),
                None => !(self.spec_node_type() == Some(YamlNodeType::BlockMappingPair)
                    && self.spec_children().len() > 2),
            },
    {
        if self.node_type != Some(YamlNodeType::BlockMappingPair) {
            return None;
        }
        if self.children.len() > 2 {
            return Some((self.children[0].get_content(), self.children[2].get_content()));
        }
        None
    }

    /// The text of the key and the value node of a mapping pair, if the node is one with at
    /// least three children.
    pub fn get_block_mapping_pair_string_to_block(&self) -> (r: Option<(String, &YamlNode)>)
        ensures
            match r {
                Some((k, v)) => self.spec_node_type() == Some(YamlNodeType::BlockMappingPair)
                    && self.spec_children().len() > 2 && k@ == self.spec_children()[0].spec_content()
                    && *v == self.spec_children()[2],
                None => !(self.spec_node_type() == Some(YamlNodeType::BlockMappingPair)
                    && self.spec_children().len() > 2),
            },
    {
        if self.node_type != Some(YamlNodeType::BlockMappingPair) {
            return None;
        }
        if self.children.len() > 2 {
            return Some((self.children[0].get_content(), &self.children[2]));
        }
        None
    }

    /// Whether the node is printed with its text when the tree is shown: a leaf, or a scalar.
    pub fn is_composed_node_printable(&self) -> (r: bool)
        ensures
            r == (self.spec_children().len() == 0 || (self.spec_node_type() matches Some(t) && (t
                == YamlNodeType::SingleQuoteScalar || t == YamlNodeType::DoubleQuoteScalar || t
                == YamlNodeType::StringScalar || t == YamlNodeType::BooleanScalar || t
                == YamlNodeType::BlockScalar))),
    {
        if self.children.len() == 0 {
            return true;
        }
        match self.node_type {
            Some(t) => t == YamlNodeType::SingleQuoteScalar || t == YamlNodeType::DoubleQuoteScalar
                || t == YamlNodeType::StringScalar || t == YamlNodeType::BooleanScalar || t
                == YamlNodeType::BlockScalar,
            None => false,
        }
    }

    /// Whether every mapping pair of the tree rooted here has a key and a value.
    pub fn has_complete_pairs(&self) -> (r: bool)
        ensures
            r == self.spec_pairs_complete(),
        decreases self.spec_height(),
    {
        if self.node_type == Some(YamlNodeType::BlockMappingPair) {
            let complete = self.children.len() > 2 && self.children[0].children.len() > 0
                && self.children[0].children[0].children.len() > 0;
            if !complete {
                return false;
            }
        }
        let mut i: usize = 0;
        while i < self.children.len()
            invariant
                i <= self.children.len(),
                forall|j: int| 0 <= j < i ==> #[trigger] self.children@[j].spec_pairs_complete(),
            decreases self.children.len() - i,
        {
            proof {
                self.lemma_child_height(i as int);
            }
            if !self.children[i].has_complete_pairs() {
                proof {
                    if all_pairs_complete(self.children@) {
                        lemma_all_complete(self.children@);
                    }
                }
                return false;
            }
            i = i + 1;
        }
        proof {
            lemma_all_complete_from_each(self.children@);
        }
        true
    }
}

spec fn max_height(nodes: Seq<YamlNode>) -> nat
    decreases nodes, 0int,
{
    if nodes.len() == 0 {
        0
    } else {
        let a = max_height(nodes.subrange(0, nodes.len() - 1));
        let b = nodes[nodes.len() - 1].spec_height();
        if a < b {
            b
        } else {
            a
        }
    }
}

proof fn lemma_max_height_at_most(nodes: Seq<YamlNode>, k: nat)
    requires
        forall|i: int| 0 <= i < nodes.len() ==> #[trigger] nodes[i].spec_height() <= k,
    ensures
        max_height(nodes) <= k,
    decreases nodes.len(),
{
    if nodes.len() > 0 {
        let init = nodes.subrange(0, nodes.len() - 1);
        assert forall|i: int| 0 <= i < init.len() implies #[trigger] init[i].spec_height() <= k by {
            assert(init[i] == nodes[i]);
        }
        lemma_max_height_at_most(init, k);
        assert(nodes[nodes.len() - 1].spec_height() <= k);
    }
}

proof fn lemma_max_height(nodes: Seq<YamlNode>, i: int)
    requires
        0 <= i < nodes.len(),
    ensures
        nodes[i].spec_height() <= max_height(nodes),
    decreases nodes.len(),
{
    if i < nodes.len() - 1 {
        let init = nodes.subrange(0, nodes.len() - 1);
        lemma_max_height(init, i);
        assert(init[i] == nodes[i]);
    }
}

spec fn all_pairs_complete(nodes: Seq<YamlNode>) -> bool
    decreases nodes, 0int,
{
    if nodes.len() == 0 {
        true
    } else {
        all_pairs_complete(nodes.subrange(0, nodes.len() - 1)) && nodes[nodes.len() - 1].spec_pairs_complete()
    }
}

proof fn lemma_all_complete(nodes: Seq<YamlNode>)
    requires
        all_pairs_complete(nodes),
    ensures
        forall|i: int| 0 <= i < nodes.len() ==> #[trigger] nodes[i].spec_pairs_complete(),
    decreases nodes.len(),
{
    if nodes.len() > 0 {
        let init = nodes.subrange(0, nodes.len() - 1);
        lemma_all_complete(init);
        assert forall|i: int| 0 <= i < nodes.len() implies #[trigger] nodes[i].spec_pairs_complete() by {
            if i < nodes.len() - 1 {
                assert(init[i] == nodes[i]);
            }
        }
    }
}

proof fn lemma_all_complete_from_each(nodes: Seq<YamlNode>)
    requires
        forall|i: int| 0 <= i < nodes.len() ==> #[trigger] nodes[i].spec_pairs_complete(),
    ensures
        all_pairs_complete(nodes),
    decreases nodes.len(),
{
    if nodes.len() > 0 {
        let init = nodes.subrange(0, nodes.len() - 1);
        assert forall|i: int| 0 <= i < init.len() implies #[trigger] init[i].spec_pairs_complete() by {
            assert(init[i] == nodes[i]);
        }
        lemma_all_complete_from_each(init);
        assert(nodes[nodes.len() - 1].spec_pairs_complete());
    }
}

} // verus!
