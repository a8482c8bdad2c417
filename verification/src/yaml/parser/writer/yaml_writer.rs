//! Merging of YAML documents: the edits that add the tree of one document to another, where the
//! values of the added document win over those of the original one.
use vstd::prelude::*;

use crate::common::file_overwriting::{FileEditView, FileOverwriting};
use crate::common::text::str_eq;
use crate::yaml::parser::dto::yaml_node::YamlNode;
use crate::yaml::parser::dto::yaml_node_type::YamlNodeType;

verus! {

/// The key of a mapping pair: the text of the first node under the first node under its first
/// child (for `name: value`, the scalar `name`).
pub open spec fn spec_key(p: YamlNode) -> Seq<char> {
    p.spec_children()[0].spec_children()[0].spec_children()[0].spec_content()
}

/// The value of a mapping pair: its third child.
pub open spec fn spec_value(p: YamlNode) -> YamlNode {
    p.spec_children()[2]
}

/// Whether a node is a sequence or an item of one.
pub open spec fn spec_is_sequence_node(n: YamlNode) -> bool {
    n.spec_node_type() == Some(YamlNodeType::BlockSequence) || n.spec_node_type() == Some(
        YamlNodeType::BlockSequenceItem,
    )
}

/// The mapping pairs of the tree rooted at `root`, in order, without looking into pairs or
/// into sequences: the root itself when it is a pair.
pub open spec fn spec_mapping_pairs(root: YamlNode) -> Seq<YamlNode>
    decreases root.spec_height(), 1nat, 0nat,
{
    if root.spec_node_type() == Some(YamlNodeType::BlockMappingPair) {
        seq![root]
    } else {
        spec_mapping_pairs_of(root.spec_children(), root.spec_height())
    }
}

/// The mapping pairs of the trees of the nodes of `nodes` lower than `h` that are no
/// sequence nodes, in order.
pub open spec fn spec_mapping_pairs_of(nodes: Seq<YamlNode>, h: nat) -> Seq<YamlNode>
    decreases h, 0nat, nodes.len(),
{
    if nodes.len() == 0 {
        Seq::empty()
    } else {
        let last = nodes[nodes.len() - 1];
        spec_mapping_pairs_of(nodes.subrange(0, nodes.len() - 1), h) + if !spec_is_sequence_node(last)
            && last.spec_height() < h {
            spec_mapping_pairs(last)
        } else {
            Seq::empty()
        }
    }
}

/// Whether some pair of `pairs` has the key `k`.
pub open spec fn spec_has_key(pairs: Seq<YamlNode>, k: Seq<char>) -> bool {
    exists|i: int| 0 <= i < pairs.len() && #[trigger] spec_key(pairs[i]) == k
}

/// The last pair of `pairs` with the key `k`, if any.
pub open spec fn spec_last_pair(pairs: Seq<YamlNode>, k: Seq<char>) -> Option<YamlNode>
    decreases pairs.len(),
{
    if pairs.len() == 0 {
        None
    } else if spec_key(pairs.last()) == k {
        Some(pairs.last())
    } else {
        spec_last_pair(pairs.drop_last(), k)
    }
}

/// The items of the sequences among `nodes`, in order.
pub open spec fn spec_items_of(nodes: Seq<YamlNode>) -> Seq<YamlNode>
    decreases nodes.len(),
{
    if nodes.len() == 0 {
        Seq::empty()
    } else {
        spec_items_of(nodes.drop_last()) + if nodes.last().spec_node_type() == Some(
            YamlNodeType::BlockSequence,
        ) {
            nodes.last().spec_children().filter(
                |c: YamlNode| c.spec_node_type() == Some(YamlNodeType::BlockSequenceItem),
            )
        } else {
            Seq::empty()
        }
    }
}

/// The items of the sequence that a mapping pair maps its key to: the items of the sequences
/// under its value, when the value is a block node.
pub open spec fn spec_sequence_items(p: YamlNode) -> Seq<YamlNode> {
    if spec_value(p).spec_node_type() == Some(YamlNodeType::BlockNode) {
        spec_items_of(spec_value(p).spec_children())
    } else {
        Seq::empty()
    }
}

/// The sequence items of the last pair of `pairs` with the key `k` that has any.
pub open spec fn spec_last_items(pairs: Seq<YamlNode>, k: Seq<char>) -> Option<Seq<YamlNode>>
    decreases pairs.len(),
{
    if pairs.len() == 0 {
        None
    } else if spec_key(pairs.last()) == k && spec_sequence_items(pairs.last()).len() > 0 {
        Some(spec_sequence_items(pairs.last()))
    } else {
        spec_last_items(pairs.drop_last(), k)
    }
}

proof fn lemma_last_items_nonempty(pairs: Seq<YamlNode>, k: Seq<char>)
    ensures
        spec_last_items(pairs, k) matches Some(s) ==> s.len() > 0,
    decreases pairs.len(),
{
    if pairs.len() > 0 {
        lemma_last_items_nonempty(pairs.drop_last(), k);
    }
}

/// The keys of the pairs of `pairs` that map to sequence items, each once, in the order of
/// their first such pair.
pub open spec fn spec_keys_with_items(pairs: Seq<YamlNode>) -> Seq<Seq<char>>
    decreases pairs.len(),
{
    if pairs.len() == 0 {
        Seq::empty()
    } else {
        let ks = spec_keys_with_items(pairs.drop_last());
        let p = pairs.last();
        if spec_sequence_items(p).len() > 0 && !ks.contains(spec_key(p)) {
            ks.push(spec_key(p))
        } else {
            ks
        }
    }
}

/// The texts of the nodes.
pub open spec fn spec_contents(nodes: Seq<YamlNode>) -> Seq<Seq<char>> {
    nodes.map_values(|n: YamlNode| n.spec_content())
}

/// The items of `result` whose text is the text of no item of `current`, in order.
pub open spec fn spec_missing(current: Seq<YamlNode>, result: Seq<YamlNode>) -> Seq<YamlNode> {
    result.filter(|it: YamlNode| !spec_contents(current).contains(it.spec_content()))
}

/// The edits that add `items`, each on a line of its own, after the byte `at`.
pub open spec fn spec_item_insertions(items: Seq<YamlNode>, at: usize) -> Seq<FileEditView> {
    items.map_values(
        |it: YamlNode| FileEditView::InsertWithPreviousNewlineAt {
            at,
            content: it.spec_leading_space() + it.spec_content(),
        },
    )
}

/// For each key of `keys`: the items of the last sequence under that key in `modifications`
/// that the last sequence under that key in `originals` lacks, added after the last item of
/// the latter; nothing for a key without sequence in `originals`.
pub open spec fn spec_merge_edits_for(keys: Seq<Seq<char>>, originals: Seq<YamlNode>, modifications: Seq<YamlNode>) -> Seq<
    FileEditView,
>
    decreases keys.len(),
{
    if keys.len() == 0 {
        Seq::empty()
    } else {
        let k = keys.last();
        spec_merge_edits_for(keys.drop_last(), originals, modifications) + match (
            spec_last_items(originals, k),
            spec_last_items(modifications, k),
        ) {
            (Some(c), Some(r)) => spec_item_insertions(spec_missing(c, r), c.last().spec_end_byte()),
            _ => Seq::empty(),
        }
    }
}

/// The edits that add to the sequences of the original pairs the items of the sequences of the
/// modification pairs under the same keys.
pub open spec fn spec_merge_edits(originals: Seq<YamlNode>, modifications: Seq<YamlNode>) -> Seq<FileEditView> {
    spec_merge_edits_for(spec_keys_with_items(modifications), originals, modifications)
}

/// The edit that adds a pair whose key the original node lacks: at the top level, appended on
/// a line of its own; a pair below, added on a line of its own after the original node; any
/// other node takes the place of the original node.
pub open spec fn spec_new_node_edit(original: YamlNode, n: YamlNode, depth: nat) -> FileEditView {
    if depth == 0 {
        FileEditView::AppendWithPreviousNewline { content: n.spec_content() }
    } else if n.spec_node_type() == Some(YamlNodeType::BlockMappingPair) {
        FileEditView::InsertWithPreviousNewlineAt {
            at: original.spec_end_byte(),
            content: n.spec_leading_space() + n.spec_content(),
        }
    } else {
        FileEditView::Replace {
            start: original.spec_start_byte(),
            end: original.spec_end_byte(),
            content: n.spec_content(),
        }
    }
}

/// The pairs of `pairs` whose key some pair of `originals` has (`present`), or has not.
pub open spec fn spec_split(originals: Seq<YamlNode>, pairs: Seq<YamlNode>, present: bool) -> Seq<YamlNode> {
    pairs.filter(|p: YamlNode| spec_has_key(originals, spec_key(p)) == present)
}

/// The edits that merge the tree `to_add` into the tree `original`, `depth` levels down:
/// first the pairs whose key the original lacks, then, for each pair whose key the original
/// has, a value that is a flow node takes the place of the original value and any other value
/// is merged into the original one a level down, and last the missing sequence items.
pub open spec fn spec_merge(original: YamlNode, to_add: YamlNode, depth: nat) -> Seq<FileEditView>
    decreases to_add.spec_height(), 1nat, 0nat,
{
    let originals = spec_mapping_pairs(original);
    let added = spec_mapping_pairs(to_add);
    let modifications = spec_split(originals, added, true);
    spec_split(originals, added, false).map_values(|n: YamlNode| spec_new_node_edit(original, n, depth))
        + spec_modification_edits(originals, modifications, depth, to_add.spec_height())
        + spec_merge_edits(originals, modifications)
}

/// The edits that merge each pair of `modifications` lower than `h` into the last pair of
/// `originals` with the same key, `depth` levels down.
pub open spec fn spec_modification_edits(
    originals: Seq<YamlNode>,
    modifications: Seq<YamlNode>,
    depth: nat,
    h: nat,
) -> Seq<FileEditView>
    decreases h, 0nat, modifications.len(),
{
    if modifications.len() == 0 {
        Seq::empty()
    } else {
        let m = modifications[modifications.len() - 1];
        let rest = spec_modification_edits(
            originals,
            modifications.subrange(0, modifications.len() - 1),
            depth,
            h,
        );
        rest + match spec_last_pair(originals, spec_key(m)) {
            Some(o) => match spec_value(m).spec_node_type() {
                Some(t) => if t == YamlNodeType::FlowNode {
                    seq![
                        FileEditView::Replace {
                            start: spec_value(o).spec_start_byte(),
                            end: spec_value(o).spec_end_byte(),
                            content: spec_value(m).spec_content(),
                        },
                    ]
                } else if spec_value(m).spec_height() < h {
                    spec_merge(spec_value(o), spec_value(m), depth + 1)
                } else {
                    Seq::empty()
                },
                None => Seq::empty(),
            },
            None => Seq::empty(),
        }
    }
}

/// Merging a document without mapping pairs into any document changes nothing.
pub proof fn law_merge_nothing_to_add(original: YamlNode, to_add: YamlNode, depth: nat)
    requires
        spec_mapping_pairs(to_add).len() == 0,
    ensures
        spec_merge(original, to_add, depth) == Seq::<FileEditView>::empty(),
{
    let originals = spec_mapping_pairs(original);
    let added = spec_mapping_pairs(to_add);
    assert(added =~= Seq::<YamlNode>::empty());
    assert(spec_split(originals, added, true) =~= Seq::<YamlNode>::empty());
    assert(spec_split(originals, added, false) =~= Seq::<YamlNode>::empty());
    assert(spec_keys_with_items(Seq::<YamlNode>::empty()) =~= Seq::<Seq<char>>::empty());
    assert(spec_merge(original, to_add, depth) =~= Seq::<FileEditView>::empty());
}

/// Some pair of `pairs` has the key `k` exactly when a last such pair exists.
proof fn lemma_last_pair_of_key(pairs: Seq<YamlNode>, k: Seq<char>)
    ensures
        spec_has_key(pairs, k) <==> spec_last_pair(pairs, k) is Some,
        spec_last_pair(pairs, k) matches Some(p) ==> spec_key(p) == k,
    decreases pairs.len(),
{
    if pairs.len() > 0 {
        let init = pairs.drop_last();
        lemma_last_pair_of_key(init, k);
        if spec_has_key(init, k) {
            let i = choose|i: int| 0 <= i < init.len() && #[trigger] spec_key(init[i]) == k;
            assert(spec_key(pairs[i]) == k);
        }
        if spec_has_key(pairs, k) && spec_key(pairs.last()) != k {
            let i = choose|i: int| 0 <= i < pairs.len() && #[trigger] spec_key(pairs[i]) == k;
            assert(i < pairs.len() - 1);
            assert(spec_key(init[i]) == k);
        }
    }
}

/// The merge edits of the modification pairs hold, for a pair whose value is a flow node and
/// whose key some original pair has, the replacement of the last such original value.
proof fn lemma_modification_edits_replace(
    originals: Seq<YamlNode>,
    modifications: Seq<YamlNode>,
    depth: nat,
    h: nat,
    j: int,
)
    requires
        0 <= j < modifications.len(),
        spec_last_pair(originals, spec_key(modifications[j])) is Some,
        spec_value(modifications[j]).spec_node_type() == Some(YamlNodeType::FlowNode),
    ensures
        spec_modification_edits(originals, modifications, depth, h).contains(
            {
                let o = spec_last_pair(originals, spec_key(modifications[j]))->0;
                FileEditView::Replace {
                    start: spec_value(o).spec_start_byte(),
                    end: spec_value(o).spec_end_byte(),
                    content: spec_value(modifications[j]).spec_content(),
                }
            },
        ),
    decreases modifications.len(),
{
    let n = modifications.len() - 1;
    let init = modifications.subrange(0, n);
    let rest = spec_modification_edits(originals, init, depth, h);
    let all = spec_modification_edits(originals, modifications, depth, h);
    if j == n {
        let o = spec_last_pair(originals, spec_key(modifications[j]))->0;
        let e = FileEditView::Replace {
            start: spec_value(o).spec_start_byte(),
            end: spec_value(o).spec_end_byte(),
            content: spec_value(modifications[j]).spec_content(),
        };
        assert(all == rest + seq![e]);
        assert(all[rest.len() as int] == e);
    } else {
        assert(init[j] == modifications[j]);
        lemma_modification_edits_replace(originals, init, depth, h, j);
        let o = spec_last_pair(originals, spec_key(modifications[j]))->0;
        let e = FileEditView::Replace {
            start: spec_value(o).spec_start_byte(),
            end: spec_value(o).spec_end_byte(),
            content: spec_value(modifications[j]).spec_content(),
        };
        let k = choose|k: int| 0 <= k < rest.len() && rest[k] == e;
        assert(all.subrange(0, rest.len() as int) == rest);
        assert(all[k] == e);
    }
}

/// A pair of the added document whose key the original document lacks is added: at the top
/// level, appended to the original file on a line of its own.
pub proof fn law_merge_adds_new_pair(original: YamlNode, to_add: YamlNode, i: int)
    requires
        0 <= i < spec_mapping_pairs(to_add).len(),
        !spec_has_key(spec_mapping_pairs(original), spec_key(spec_mapping_pairs(to_add)[i])),
    ensures
        spec_merge(original, to_add, 0).contains(
            FileEditView::AppendWithPreviousNewline { content: spec_mapping_pairs(to_add)[i].spec_content() },
        ),
{
    let originals = spec_mapping_pairs(original);
    let added = spec_mapping_pairs(to_add);
    let pred = |p: YamlNode| spec_has_key(originals, spec_key(p)) == false;
    added.lemma_filter_contains(pred, i);
    let new_pairs = spec_split(originals, added, false);
    assert(new_pairs == added.filter(pred));
    let j = choose|j: int| 0 <= j < new_pairs.len() && new_pairs[j] == added[i];
    let mapped = new_pairs.map_values(|n: YamlNode| spec_new_node_edit(original, n, 0));
    let all = spec_merge(original, to_add, 0);
    assert(mapped[j] == FileEditView::AppendWithPreviousNewline { content: added[i].spec_content() });
    assert(all[j] == mapped[j]);
}

/// The mapping pairs of a tree are mapping pair nodes.
proof fn lemma_mapping_pairs_are_pairs(root: YamlNode)
    ensures
        forall|i: int|
            0 <= i < spec_mapping_pairs(root).len() ==> (#[trigger] spec_mapping_pairs(root)[i]).spec_node_type()
                == Some(YamlNodeType::BlockMappingPair),
    decreases root.spec_height(), 1nat, 0nat,
{
    if root.spec_node_type() != Some(YamlNodeType::BlockMappingPair) {
        lemma_mapping_pairs_of_are_pairs(root.spec_children(), root.spec_height());
    }
}

/// The mapping pairs of the trees of some nodes are mapping pair nodes.
proof fn lemma_mapping_pairs_of_are_pairs(nodes: Seq<YamlNode>, h: nat)
    ensures
        forall|i: int|
            0 <= i < spec_mapping_pairs_of(nodes, h).len() ==> (#[trigger] spec_mapping_pairs_of(nodes, h)[i]).spec_node_type()
                == Some(YamlNodeType::BlockMappingPair),
    decreases h, 0nat, nodes.len(),
{
    if nodes.len() > 0 {
        let init = nodes.subrange(0, nodes.len() - 1);
        let last = nodes[nodes.len() - 1];
        lemma_mapping_pairs_of_are_pairs(init, h);
        if !spec_is_sequence_node(last) && last.spec_height() < h {
            lemma_mapping_pairs_are_pairs(last);
        }
        let a = spec_mapping_pairs_of(init, h);
        let all = spec_mapping_pairs_of(nodes, h);
        assert forall|i: int| 0 <= i < all.len() implies (#[trigger] all[i]).spec_node_type() == Some(
            YamlNodeType::BlockMappingPair,
        ) by {
            if i < a.len() {
                assert(all[i] == a[i]);
            } else {
                assert(all[i] == spec_mapping_pairs(last)[i - a.len()]);
            }
        }
    }
}

/// Below the top level, a pair of the added document whose key the original node lacks is
/// added on a line of its own after the original node, which keeps its own pairs.
pub proof fn law_merge_keeps_original_pairs(original: YamlNode, to_add: YamlNode, depth: nat, i: int)
    requires
        depth > 0,
        0 <= i < spec_mapping_pairs(to_add).len(),
        !spec_has_key(spec_mapping_pairs(original), spec_key(spec_mapping_pairs(to_add)[i])),
    ensures
        spec_merge(original, to_add, depth).contains(
            FileEditView::InsertWithPreviousNewlineAt {
                at: original.spec_end_byte(),
                content: spec_mapping_pairs(to_add)[i].spec_leading_space() + spec_mapping_pairs(
                    to_add,
                )[i].spec_content(),
            },
        ),
{
    let originals = spec_mapping_pairs(original);
    let added = spec_mapping_pairs(to_add);
    lemma_mapping_pairs_are_pairs(to_add);
    assert(added[i].spec_node_type() == Some(YamlNodeType::BlockMappingPair));
    let pred = |p: YamlNode| spec_has_key(originals, spec_key(p)) == false;
    added.lemma_filter_contains(pred, i);
    let new_pairs = spec_split(originals, added, false);
    assert(new_pairs == added.filter(pred));
    let j = choose|j: int| 0 <= j < new_pairs.len() && new_pairs[j] == added[i];
    let mapped = new_pairs.map_values(|n: YamlNode| spec_new_node_edit(original, n, depth));
    let all = spec_merge(original, to_add, depth);
    assert(mapped[j] == FileEditView::InsertWithPreviousNewlineAt {
        at: original.spec_end_byte(),
        content: added[i].spec_leading_space() + added[i].spec_content(),
    });
    assert(all[j] == mapped[j]);
}

/// Where both documents have a key, a value of the added document that is a flow node takes
/// the place of the value of the last original pair with that key.
pub proof fn law_merge_added_value_wins(original: YamlNode, to_add: YamlNode, depth: nat, i: int)
    requires
        0 <= i < spec_mapping_pairs(to_add).len(),
        spec_has_key(spec_mapping_pairs(original), spec_key(spec_mapping_pairs(to_add)[i])),
        spec_value(spec_mapping_pairs(to_add)[i]).spec_node_type() == Some(YamlNodeType::FlowNode),
    ensures
        spec_last_pair(spec_mapping_pairs(original), spec_key(spec_mapping_pairs(to_add)[i])) is Some,
        spec_merge(original, to_add, depth).contains(
            {
                let m = spec_mapping_pairs(to_add)[i];
                let o = spec_last_pair(spec_mapping_pairs(original), spec_key(m))->0;
                FileEditView::Replace {
                    start: spec_value(o).spec_start_byte(),
                    end: spec_value(o).spec_end_byte(),
                    content: spec_value(m).spec_content(),
                }
            },
        ),
{
    let originals = spec_mapping_pairs(original);
    let added = spec_mapping_pairs(to_add);
    let m = added[i];
    lemma_last_pair_of_key(originals, spec_key(m));
    let pred = |p: YamlNode| spec_has_key(originals, spec_key(p)) == true;
    added.lemma_filter_contains(pred, i);
    let modifications = spec_split(originals, added, true);
    assert(modifications == added.filter(pred));
    let j = choose|j: int| 0 <= j < modifications.len() && modifications[j] == m;
    lemma_modification_edits_replace(originals, modifications, depth, to_add.spec_height(), j);
    let first = spec_split(originals, added, false).map_values(
        |n: YamlNode| spec_new_node_edit(original, n, depth),
    );
    let middle = spec_modification_edits(originals, modifications, depth, to_add.spec_height());
    let all = spec_merge(original, to_add, depth);
    let o = spec_last_pair(originals, spec_key(m))->0;
    let e = FileEditView::Replace {
        start: spec_value(o).spec_start_byte(),
        end: spec_value(o).spec_end_byte(),
        content: spec_value(m).spec_content(),
    };
    let k = choose|k: int| 0 <= k < middle.len() && middle[k] == e;
    assert(all == first + middle + spec_merge_edits(originals, modifications));
    assert(all[first.len() + k] == e);
}

/// The views of the nodes that a sequence of references points to.
pub open spec fn derefs(v: Seq<&YamlNode>) -> Seq<YamlNode> {
    v.map_values(|x: &YamlNode| *x)
}

/// Every pair found in a tree with complete pairs is complete, has complete pairs below it and
/// is no higher than the tree.
proof fn lemma_mapping_pairs(root: YamlNode)
    requires
        root.spec_pairs_complete(),
    ensures
        forall|i: int|
            0 <= i < spec_mapping_pairs(root).len() ==> {
                let p = #[trigger] spec_mapping_pairs(root)[i];
                &&& p.spec_node_type() == Some(YamlNodeType::BlockMappingPair)
                &&& p.spec_pairs_complete()
                &&& crate::yaml::parser::dto::yaml_node::spec_is_complete_pair(p)
                &&& p.spec_height() <= root.spec_height()
            },
    decreases root.spec_height(), 1nat,
{
    root.lemma_pairs_complete();
    if root.spec_node_type() != Some(YamlNodeType::BlockMappingPair) {
        lemma_mapping_pairs_of(root.spec_children(), root.spec_height(), root);
    }
}

proof fn lemma_mapping_pairs_of(nodes: Seq<YamlNode>, h: nat, parent: YamlNode)
    requires
        forall|i: int| 0 <= i < nodes.len() ==> #[trigger] nodes[i].spec_pairs_complete(),
    ensures
        forall|i: int|
            0 <= i < spec_mapping_pairs_of(nodes, h).len() ==> {
                let p = #[trigger] spec_mapping_pairs_of(nodes, h)[i];
                &&& p.spec_node_type() == Some(YamlNodeType::BlockMappingPair)
                &&& p.spec_pairs_complete()
                &&& crate::yaml::parser::dto::yaml_node::spec_is_complete_pair(p)
                &&& p.spec_height() < h
            },
    decreases h, 0nat, nodes.len(),
{
    if nodes.len() > 0 {
        let init = nodes.subrange(0, nodes.len() - 1);
        let last = nodes[nodes.len() - 1];
        assert forall|i: int| 0 <= i < init.len() implies #[trigger] init[i].spec_pairs_complete() by {
            assert(init[i] == nodes[i]);
        }
        lemma_mapping_pairs_of(init, h, parent);
        let a = spec_mapping_pairs_of(init, h);
        if !spec_is_sequence_node(last) && last.spec_height() < h {
            lemma_mapping_pairs(last);
            let b = spec_mapping_pairs(last);
            assert forall|i: int| 0 <= i < (a + b).len() implies {
                let p = #[trigger] (a + b)[i];
                &&& p.spec_node_type() == Some(YamlNodeType::BlockMappingPair)
                &&& p.spec_pairs_complete()
                &&& crate::yaml::parser::dto::yaml_node::spec_is_complete_pair(p)
                &&& p.spec_height() < h
            } by {
                if i < a.len() {
                    assert((a + b)[i] == a[i]);
                } else {
                    assert((a + b)[i] == b[i - a.len()]);
                }
            }
        } else {
            assert(spec_mapping_pairs_of(nodes, h) == a);
        }
    }
}

/// The value of a complete pair is lower than the pair and has complete pairs.
proof fn lemma_value(p: YamlNode)
    requires
        p.spec_pairs_complete(),
        crate::yaml::parser::dto::yaml_node::spec_is_complete_pair(p),
    ensures
        spec_value(p).spec_height() < p.spec_height(),
        spec_value(p).spec_pairs_complete(),
{
    p.lemma_child_height(2);
    p.lemma_pairs_complete();
}

/// The mapping pairs of the tree rooted at `root`, in order, without looking into pairs or
/// into sequences.
fn filter_block_mapping_pairs_without_sequence_items<'a>(root: &'a YamlNode) -> (r: Vec<&'a YamlNode>)
    ensures
        derefs(r@) == spec_mapping_pairs(*root),
    decreases root.spec_height(),
{
    if root.get_node_type() == Some(YamlNodeType::BlockMappingPair) {
        let mut result_nodes: Vec<&YamlNode> = Vec::new();
        result_nodes.push(root);
        proof {
            assert(derefs(result_nodes@) =~= seq![*root]);
        }
        return result_nodes;
    }
    let children = root.get_children();
    let ghost h = root.spec_height();
    let mut result_nodes: Vec<&YamlNode> = Vec::new();
    let mut i: usize = 0;
    proof {
        assert(children@.subrange(0, 0) =~= Seq::<YamlNode>::empty());
        assert(derefs(result_nodes@) =~= Seq::<YamlNode>::empty());
    }
    while i < children.len()
        invariant
            i <= children.len(),
            children@ == root.spec_children(),
            h == root.spec_height(),
            derefs(result_nodes@) == spec_mapping_pairs_of(children@.subrange(0, i as int), h),
        decreases children.len() - i,
    {
        let child = &children[i];
        proof {
            root.lemma_child_height(i as int);
            assert(children@.subrange(0, i + 1).subrange(0, i as int) =~= children@.subrange(0, i as int));
            assert(children@.subrange(0, i + 1)[i as int] == children@[i as int]);
        }
        let child_node_type = child.get_node_type();
        if Some(YamlNodeType::BlockSequence) != child_node_type && Some(
            YamlNodeType::BlockSequenceItem,
        ) != child_node_type {
            let pairs = filter_block_mapping_pairs_without_sequence_items(child);
            let ghost before = result_nodes@;
            let mut k: usize = 0;
            while k < pairs.len()
                invariant
                    k <= pairs.len(),
                    derefs(result_nodes@) == derefs(before) + derefs(pairs@).subrange(0, k as int),
                decreases pairs.len() - k,
            {
                let ghost b2 = result_nodes@;
                result_nodes.push(pairs[k]);
                proof {
                    assert(derefs(result_nodes@) =~= derefs(b2).push(*pairs@[k as int]));
                    assert(derefs(pairs@).subrange(0, k + 1) =~= derefs(pairs@).subrange(0, k as int).push(
                        *pairs@[k as int],
                    ));
                }
                k = k + 1;
            }
            proof {
                assert(derefs(pairs@).subrange(0, pairs@.len() as int) =~= derefs(pairs@));
            }
        }
        i = i + 1;
    }
    proof {
        assert(children@.subrange(0, children@.len() as int) =~= children@);
    }
    result_nodes
}

/// The key of a complete mapping pair.
fn get_key_from_block_mapping_pair(mapping_pair_node: &YamlNode) -> (r: String)
    requires
        crate::yaml::parser::dto::yaml_node::spec_is_complete_pair(*mapping_pair_node),
    ensures
        r@ == spec_key(*mapping_pair_node),
{
    mapping_pair_node.get_children()[0].get_children()[0].get_children()[0].get_content()
}

/// The value of a complete mapping pair.
fn get_mapped_value_from_block_mapping_pair(mapping_pair_node: &YamlNode) -> (r: &YamlNode)
    requires
        crate::yaml::parser::dto::yaml_node::spec_is_complete_pair(*mapping_pair_node),
    ensures
        *r == spec_value(*mapping_pair_node),
{
    &mapping_pair_node.get_children()[2]
}

/// Whether a pair is complete: the pairs given to this module all are.
pub open spec fn spec_all_complete(pairs: Seq<YamlNode>) -> bool {
    forall|i: int|
        0 <= i < pairs.len() ==> crate::yaml::parser::dto::yaml_node::spec_is_complete_pair(
            #[trigger] pairs[i],
        ) && pairs[i].spec_pairs_complete()
}

/// Whether some pair of `pairs` has the key `key`.
fn has_key(pairs: &Vec<&YamlNode>, key: &str) -> (r: bool)
    requires
        spec_all_complete(derefs(pairs@)),
    ensures
        r == spec_has_key(derefs(pairs@), key@),
{
    let ghost ps = derefs(pairs@);
    let mut i: usize = 0;
    while i < pairs.len()
        invariant
            i <= pairs.len(),
            ps == derefs(pairs@),
            spec_all_complete(ps),
            forall|j: int| 0 <= j < i ==> spec_key(#[trigger] ps[j]) != key@,
        decreases pairs.len() - i,
    {
        proof {
            assert(ps[i as int] == *pairs@[i as int]);
        }
        let k = get_key_from_block_mapping_pair(pairs[i]);
        if str_eq(k.as_str(), key) {
            proof {
                assert(spec_key(ps[i as int]) == key@);
            }
            return true;
        }
        i = i + 1;
    }
    false
}

/// The last pair of `pairs` with the key `key`, if any.
fn last_pair<'a>(pairs: &Vec<&'a YamlNode>, key: &str) -> (r: Option<&'a YamlNode>)
    requires
        spec_all_complete(derefs(pairs@)),
    ensures
        match (r, spec_last_pair(derefs(pairs@), key@)) {
            (Some(a), Some(b)) => *a == b,
            (None, None) => true,
            _ => false,
        },
{
    let ghost ps = derefs(pairs@);
    let mut i: usize = pairs.len();
    proof {
        assert(ps.subrange(0, i as int) =~= ps);
    }
    while i > 0
        invariant
            i <= pairs.len(),
            ps == derefs(pairs@),
            spec_all_complete(ps),
            spec_last_pair(ps, key@) == spec_last_pair(ps.subrange(0, i as int), key@),
        decreases i,
    {
        proof {
            let sub = ps.subrange(0, i as int);
            assert(sub.last() == ps[i - 1]);
            assert(sub.drop_last() =~= ps.subrange(0, i - 1));
            assert(ps[i - 1] == *pairs@[i - 1]);
        }
        let k = get_key_from_block_mapping_pair(pairs[i - 1]);
        if str_eq(k.as_str(), key) {
            return Some(pairs[i - 1]);
        }
        i = i - 1;
    }
    None
}

/// The pairs of `pairs` whose key some pair of `originals` has (`present`), or has not.
fn split<'a>(originals: &Vec<&YamlNode>, pairs: &Vec<&'a YamlNode>, present: bool) -> (r: Vec<&'a YamlNode>)
    requires
        spec_all_complete(derefs(originals@)),
        spec_all_complete(derefs(pairs@)),
    ensures
        derefs(r@) == spec_split(derefs(originals@), derefs(pairs@), present),
        spec_all_complete(derefs(r@)),
{
    let ghost ps = derefs(pairs@);
    let ghost os = derefs(originals@);
    let mut result: Vec<&YamlNode> = Vec::new();
    let mut i: usize = 0;
    proof {
        assert(ps.subrange(0, 0) =~= Seq::<YamlNode>::empty());
        assert(derefs(result@) =~= Seq::<YamlNode>::empty());
    }
    while i < pairs.len()
        invariant
            i <= pairs.len(),
            ps == derefs(pairs@),
            os == derefs(originals@),
            spec_all_complete(os),
            spec_all_complete(ps),
            derefs(result@) == ps.subrange(0, i as int).filter(
                |p: YamlNode| spec_has_key(os, spec_key(p)) == present,
            ),
            spec_all_complete(derefs(result@)),
        decreases pairs.len() - i,
    {
        proof {
            assert(ps[i as int] == *pairs@[i as int]);
            assert(ps.subrange(0, i + 1).drop_last() =~= ps.subrange(0, i as int));
            assert(ps.subrange(0, i + 1).last() == ps[i as int]);
            reveal(Seq::filter);
        }
        let key = get_key_from_block_mapping_pair(pairs[i]);
        if has_key(originals, key.as_str()) == present {
            let ghost before = result@;
            result.push(pairs[i]);
            proof {
                assert(derefs(result@) =~= derefs(before).push(ps[i as int]));
            }
        }
        i = i + 1;
    }
    proof {
        assert(ps.subrange(0, ps.len() as int) =~= ps);
    }
    result
}

/// The items of the sequence that a complete mapping pair maps its key to.
fn sequence_items<'a>(pair: &'a YamlNode) -> (r: Vec<&'a YamlNode>)
    requires
        crate::yaml::parser::dto::yaml_node::spec_is_complete_pair(*pair),
    ensures
        derefs(r@) == spec_sequence_items(*pair),
{
    let mut items: Vec<&YamlNode> = Vec::new();
    let first_level_node = get_mapped_value_from_block_mapping_pair(pair);
    if first_level_node.get_node_type() != Some(YamlNodeType::BlockNode) {
        proof {
            assert(derefs(items@) =~= Seq::<YamlNode>::empty());
        }
        return items;
    }
    let seconds = first_level_node.get_children();
    let mut i: usize = 0;
    proof {
        assert(seconds@.take(0) =~= Seq::<YamlNode>::empty());
        assert(derefs(items@) =~= Seq::<YamlNode>::empty());
    }
    while i < seconds.len()
        invariant
            i <= seconds.len(),
            seconds@ == spec_value(*pair).spec_children(),
            derefs(items@) == spec_items_of(seconds@.take(i as int)),
        decreases seconds.len() - i,
    {
        proof {
            assert(seconds@.take(i + 1).drop_last() =~= seconds@.take(i as int));
            assert(seconds@.take(i + 1).last() == seconds@[i as int]);
        }
        let second = &seconds[i];
        let ghost before = items@;
        if second.get_node_type() == Some(YamlNodeType::BlockSequence) {
            let thirds = second.get_children();
            let mut k: usize = 0;
            proof {
                assert(thirds@.take(0).filter(
                    |c: YamlNode| c.spec_node_type() == Some(YamlNodeType::BlockSequenceItem),
                ) =~= Seq::<YamlNode>::empty());
            }
            while k < thirds.len()
                invariant
                    k <= thirds.len(),
                    thirds@ == second.spec_children(),
                    derefs(items@) == derefs(before) + thirds@.take(k as int).filter(
                        |c: YamlNode| c.spec_node_type() == Some(YamlNodeType::BlockSequenceItem),
                    ),
                decreases thirds.len() - k,
            {
                proof {
                    assert(thirds@.take(k + 1).drop_last() =~= thirds@.take(k as int));
                    assert(thirds@.take(k + 1).last() == thirds@[k as int]);
                    reveal(Seq::filter);
                }
                let ghost b2 = items@;
                if thirds[k].get_node_type() == Some(YamlNodeType::BlockSequenceItem) {
                    items.push(&thirds[k]);
                    proof {
                        assert(derefs(items@) =~= derefs(b2).push(thirds@[k as int]));
                    }
                }
                k = k + 1;
            }
            proof {
                assert(thirds@.take(thirds@.len() as int) =~= thirds@);
            }
        } else {
            proof {
                assert(derefs(items@) =~= derefs(before) + Seq::<YamlNode>::empty());
            }
        }
        i = i + 1;
    }
    proof {
        assert(seconds@.take(seconds@.len() as int) =~= seconds@);
    }
    items
}

/// The sequence items of the last pair of `pairs` with the key `key` that has any.
fn last_items<'a>(pairs: &Vec<&'a YamlNode>, key: &str) -> (r: Option<Vec<&'a YamlNode>>)
    requires
        spec_all_complete(derefs(pairs@)),
    ensures
        match (r, spec_last_items(derefs(pairs@), key@)) {
            (Some(a), Some(b)) => derefs(a@) == b,
            (None, None) => true,
            _ => false,
        },
{
    let ghost ps = derefs(pairs@);
    let mut i: usize = pairs.len();
    proof {
        assert(ps.subrange(0, i as int) =~= ps);
    }
    while i > 0
        invariant
            i <= pairs.len(),
            ps == derefs(pairs@),
            spec_all_complete(ps),
            spec_last_items(ps, key@) == spec_last_items(ps.subrange(0, i as int), key@),
        decreases i,
    {
        proof {
            let sub = ps.subrange(0, i as int);
            assert(sub.last() == ps[i - 1]);
            assert(sub.drop_last() =~= ps.subrange(0, i - 1));
            assert(ps[i - 1] == *pairs@[i - 1]);
        }
        let k = get_key_from_block_mapping_pair(pairs[i - 1]);
        if str_eq(k.as_str(), key) {
            let items = sequence_items(pairs[i - 1]);
            if items.len() > 0 {
                return Some(items);
            }
        }
        i = i - 1;
    }
    None
}

/// The keys of the pairs of `pairs` that map to sequence items, each once, in the order of
/// their first such pair.
fn keys_with_items(pairs: &Vec<&YamlNode>) -> (r: Vec<String>)
    requires
        spec_all_complete(derefs(pairs@)),
    ensures
        crate::common::text::views(r@) == spec_keys_with_items(derefs(pairs@)),
{
    let ghost ps = derefs(pairs@);
    let mut keys: Vec<String> = Vec::new();
    let mut i: usize = 0;
    proof {
        assert(ps.take(0) =~= Seq::<YamlNode>::empty());
        assert(crate::common::text::views(keys@) =~= Seq::<Seq<char>>::empty());
    }
    while i < pairs.len()
        invariant
            i <= pairs.len(),
            ps == derefs(pairs@),
            spec_all_complete(ps),
            crate::common::text::views(keys@) == spec_keys_with_items(ps.take(i as int)),
        decreases pairs.len() - i,
    {
        proof {
            assert(ps.take(i + 1).drop_last() =~= ps.take(i as int));
            assert(ps.take(i + 1).last() == ps[i as int]);
            assert(ps[i as int] == *pairs@[i as int]);
        }
        let items = sequence_items(pairs[i]);
        if items.len() > 0 {
            let key = get_key_from_block_mapping_pair(pairs[i]);
            if !crate::common::text::contains_string(&keys, key.as_str()) {
                let ghost before = keys@;
                keys.push(key);
                proof {
                    assert(crate::common::text::views(keys@) =~= crate::common::text::views(before).push(
                        spec_key(ps[i as int]),
                    ));
                }
            }
        }
        i = i + 1;
    }
    proof {
        assert(ps.take(ps.len() as int) =~= ps);
    }
    keys
}

/// The items of `result_sequence_items` whose text is the text of no item of
/// `current_sequence_items`, in order.
fn find_missing<'a>(current_sequence_items: &Vec<&YamlNode>, result_sequence_items: &Vec<&'a YamlNode>) -> (r: Vec<
    &'a YamlNode,
>)
    ensures
        derefs(r@) == spec_missing(derefs(current_sequence_items@), derefs(result_sequence_items@)),
{
    let mut current_strs: Vec<String> = Vec::new();
    let ghost cs = derefs(current_sequence_items@);
    let mut j: usize = 0;
    while j < current_sequence_items.len()
        invariant
            j <= current_sequence_items.len(),
            cs == derefs(current_sequence_items@),
            crate::common::text::views(current_strs@) == spec_contents(cs.take(j as int)),
        decreases current_sequence_items.len() - j,
    {
        let ghost before = current_strs@;
        current_strs.push(current_sequence_items[j].get_content());
        proof {
            assert(crate::common::text::views(current_strs@) =~= crate::common::text::views(before).push(
                cs[j as int].spec_content(),
            ));
            assert(spec_contents(cs.take(j + 1)) =~= spec_contents(cs.take(j as int)).push(
                cs[j as int].spec_content(),
            ));
        }
        j = j + 1;
    }
    proof {
        assert(cs.take(cs.len() as int) =~= cs);
    }
    let ghost rs = derefs(result_sequence_items@);
    let mut result: Vec<&YamlNode> = Vec::new();
    let mut i: usize = 0;
    proof {
        assert(rs.take(0) =~= Seq::<YamlNode>::empty());
        assert(derefs(result@) =~= Seq::<YamlNode>::empty());
    }
    while i < result_sequence_items.len()
        invariant
            i <= result_sequence_items.len(),
            rs == derefs(result_sequence_items@),
            crate::common::text::views(current_strs@) == spec_contents(cs),
            derefs(result@) == rs.take(i as int).filter(
                |it: YamlNode| !spec_contents(cs).contains(it.spec_content()),
            ),
        decreases result_sequence_items.len() - i,
    {
        proof {
            assert(rs.take(i + 1).drop_last() =~= rs.take(i as int));
            assert(rs.take(i + 1).last() == rs[i as int]);
            reveal(Seq::filter);
        }
        let item = result_sequence_items[i];
        let content = item.get_content();
        if !crate::common::text::contains_string(&current_strs, content.as_str()) {
            let ghost before = result@;
            result.push(item);
            proof {
                assert(derefs(result@) =~= derefs(before).push(rs[i as int]));
            }
        }
        i = i + 1;
    }
    proof {
        assert(rs.take(rs.len() as int) =~= rs);
    }
    result
}

/// Records the edits that add to the sequences of the original pairs the items of the
/// sequences of the modification pairs under the same keys.
fn merge_block_sequence_items(
    overwriting: &mut FileOverwriting,
    original_mapping_pairs: &Vec<&YamlNode>,
    modification_mapping_pairs: &Vec<&YamlNode>,
)
    requires
        spec_all_complete(derefs(original_mapping_pairs@)),
        spec_all_complete(derefs(modification_mapping_pairs@)),
    ensures
        final(overwriting).spec_input_file() == old(overwriting).spec_input_file(),
        final(overwriting).spec_edits() == old(overwriting).spec_edits() + spec_merge_edits(
            derefs(original_mapping_pairs@),
            derefs(modification_mapping_pairs@),
        ),
{
    let keys = keys_with_items(modification_mapping_pairs);
    let ghost ks = crate::common::text::views(keys@);
    let ghost os = derefs(original_mapping_pairs@);
    let ghost ms = derefs(modification_mapping_pairs@);
    let ghost start = overwriting.spec_edits();
    let mut i: usize = 0;
    proof {
        assert(ks.take(0) =~= Seq::<Seq<char>>::empty());
    }
    while i < keys.len()
        invariant
            i <= keys.len(),
            ks == crate::common::text::views(keys@),
            ks == spec_keys_with_items(ms),
            os == derefs(original_mapping_pairs@),
            ms == derefs(modification_mapping_pairs@),
            spec_all_complete(os),
            spec_all_complete(ms),
            overwriting.spec_input_file() == old(overwriting).spec_input_file(),
            start == old(overwriting).spec_edits(),
            overwriting.spec_edits() == start + spec_merge_edits_for(ks.take(i as int), os, ms),
        decreases keys.len() - i,
    {
        proof {
            assert(ks.take(i + 1).drop_last() =~= ks.take(i as int));
            assert(ks.take(i + 1).last() == keys@[i as int]@);
        }
        let ghost before = overwriting.spec_edits();
        let key = keys[i].as_str();
        let current = last_items(original_mapping_pairs, key);
        let result = last_items(modification_mapping_pairs, key);
        match (current, result) {
            (Some(c), Some(r)) => {
                proof {
                    lemma_last_items_nonempty(os, key@);
                    assert(derefs(c@).len() > 0);
                }
                let missing = find_missing(&c, &r);
                let at = c[c.len() - 1].get_end_byte();
                let ghost mv = derefs(missing@);
                let mut k: usize = 0;
                while k < missing.len()
                    invariant
                        k <= missing.len(),
                        mv == derefs(missing@),
                        overwriting.spec_input_file() == old(overwriting).spec_input_file(),
                        overwriting.spec_edits() == before + spec_item_insertions(mv.take(k as int), at),
                    decreases missing.len() - k,
                {
                    let content = missing[k].get_content_bytes_with_previous_empty_space();
                    let _ = overwriting.insert_content_with_previous_newline_at(at, content.as_str());
                    proof {
                        assert(spec_item_insertions(mv.take(k + 1), at) =~= spec_item_insertions(
                            mv.take(k as int),
                            at,
                        ).push(
                            FileEditView::InsertWithPreviousNewlineAt {
                                at,
                                content: mv[k as int].spec_leading_space() + mv[k as int].spec_content(),
                            },
                        ));
                    }
                    k = k + 1;
                }
                proof {
                    assert(mv.take(mv.len() as int) =~= mv);
                    assert(derefs(c@).last() == *c@[c@.len() - 1]);
                }
            },
            _ => {
                proof {
                    assert(overwriting.spec_edits() =~= before + Seq::<FileEditView>::empty());
                }
            },
        }
        proof {
            assert(overwriting.spec_edits() =~= start + spec_merge_edits_for(ks.take(i + 1), os, ms));
        }
        i = i + 1;
    }
    proof {
        assert(ks.take(ks.len() as int) =~= ks);
    }
}

/// Records the edits that add the new pairs `new_nodes` to the node `original_node`, `depth`
/// levels down.
fn include_new_nodes_to_overwrite(
    result: &mut FileOverwriting,
    original_node: &YamlNode,
    new_nodes: &Vec<&YamlNode>,
    depth: usize,
)
    ensures
        final(result).spec_input_file() == old(result).spec_input_file(),
        final(result).spec_edits() == old(result).spec_edits() + derefs(new_nodes@).map_values(
            |n: YamlNode| spec_new_node_edit(*original_node, n, depth as nat),
        ),
{
    let ghost ns = derefs(new_nodes@);
    let ghost start = result.spec_edits();
    let mut i: usize = 0;
    while i < new_nodes.len()
        invariant
            i <= new_nodes.len(),
            ns == derefs(new_nodes@),
            result.spec_input_file() == old(result).spec_input_file(),
            start == old(result).spec_edits(),
            result.spec_edits() == start + ns.take(i as int).map_values(
                |n: YamlNode| spec_new_node_edit(*original_node, n, depth as nat),
            ),
        decreases new_nodes.len() - i,
    {
        let new_node = new_nodes[i];
        proof {
            assert(ns[i as int] == *new_node);
        }
        if depth == 0 {
            let content = new_node.get_content();
            result.append_with_previous_newline(content.as_str());
        } else if new_node.get_node_type() == Some(YamlNodeType::BlockMappingPair) {
            let content = new_node.get_content_bytes_with_previous_empty_space();
            let _ = result.insert_content_with_previous_newline_at(
                original_node.get_end_byte(),
                content.as_str(),
            );
        } else {
            let content = new_node.get_content();
            let _ = result.replace(
                original_node.get_start_byte(),
                original_node.get_end_byte(),
                content.as_str(),
            );
        }
        proof {
            assert(ns.take(i + 1).map_values(|n: YamlNode| spec_new_node_edit(*original_node, n, depth as nat))
                =~= ns.take(i as int).map_values(
                |n: YamlNode| spec_new_node_edit(*original_node, n, depth as nat),
            ).push(spec_new_node_edit(*original_node, ns[i as int], depth as nat)));
        }
        i = i + 1;
    }
    proof {
        assert(ns.take(ns.len() as int) =~= ns);
    }
}

/// Records the edits that merge each modification pair into the last original pair with the
/// same key, `depth` levels down.
fn include_modification_nodes_to_overwrite(
    overwriting: &mut FileOverwriting,
    original_mapping_pairs: &Vec<&YamlNode>,
    modification_nodes: &Vec<&YamlNode>,
    depth: usize,
    Ghost(h): Ghost<nat>,
)
    requires
        depth + h <= usize::MAX,
        spec_all_complete(derefs(original_mapping_pairs@)),
        spec_all_complete(derefs(modification_nodes@)),
        forall|i: int|
            0 <= i < modification_nodes@.len() ==> spec_value(*#[trigger] modification_nodes@[i]).spec_height() < h,
    ensures
        final(overwriting).spec_input_file() == old(overwriting).spec_input_file(),
        final(overwriting).spec_edits() == old(overwriting).spec_edits() + spec_modification_edits(
            derefs(original_mapping_pairs@),
            derefs(modification_nodes@),
            depth as nat,
            h,
        ),
    decreases h, 0nat,
{
    let ghost os = derefs(original_mapping_pairs@);
    let ghost ms = derefs(modification_nodes@);
    let ghost start = overwriting.spec_edits();
    let mut i: usize = 0;
    proof {
        assert(ms.subrange(0, 0) =~= Seq::<YamlNode>::empty());
    }
    while i < modification_nodes.len()
        invariant
            i <= modification_nodes.len(),
            depth + h <= usize::MAX,
            os == derefs(original_mapping_pairs@),
            ms == derefs(modification_nodes@),
            spec_all_complete(os),
            spec_all_complete(ms),
            forall|j: int|
                0 <= j < modification_nodes@.len() ==> spec_value(*#[trigger] modification_nodes@[j]).spec_height() < h,
            overwriting.spec_input_file() == old(overwriting).spec_input_file(),
            start == old(overwriting).spec_edits(),
            overwriting.spec_edits() == start + spec_modification_edits(os, ms.subrange(0, i as int), depth as nat, h),
        decreases modification_nodes.len() - i,
    {
        let modification_node = modification_nodes[i];
        proof {
            assert(ms[i as int] == *modification_node);
            let sub = ms.subrange(0, i + 1);
            assert(sub[sub.len() - 1] == ms[i as int]);
            assert(sub.subrange(0, sub.len() - 1) =~= ms.subrange(0, i as int));
        }
        let ghost before = overwriting.spec_edits();
        let key = get_key_from_block_mapping_pair(modification_node);
        match last_pair(original_mapping_pairs, key.as_str()) {
            Some(original_mapping_pair) => {
                proof {
                    lemma_last_pair_in(os, key@);
                }
                let original_mapped_value = get_mapped_value_from_block_mapping_pair(original_mapping_pair);
                let modification_mapped_value = get_mapped_value_from_block_mapping_pair(
                    modification_node,
                );
                if let Some(mapped_value_node_type) = modification_mapped_value.get_node_type() {
                    if YamlNodeType::FlowNode == mapped_value_node_type {
                        let content = modification_mapped_value.get_content();
                        let _ = overwriting.replace(
                            original_mapped_value.get_start_byte(),
                            original_mapped_value.get_end_byte(),
                            content.as_str(),
                        );
                    } else {
                        proof {
                            lemma_value(*original_mapping_pair);
                            lemma_value(*modification_node);
                        }
                        include_nodes_to_overwrite(
                            overwriting,
                            original_mapped_value,
                            modification_mapped_value,
                            depth + 1,
                        );
                    }
                } else {
                    proof {
                        assert(overwriting.spec_edits() =~= before + Seq::<FileEditView>::empty());
                    }
                }
            },
            None => {
                proof {
                    assert(overwriting.spec_edits() =~= before + Seq::<FileEditView>::empty());
                }
            },
        }
        proof {
            assert(overwriting.spec_edits() =~= start + spec_modification_edits(
                os,
                ms.subrange(0, i + 1),
                depth as nat,
                h,
            ));
        }
        i = i + 1;
    }
    proof {
        assert(ms.subrange(0, ms.len() as int) =~= ms);
    }
}

proof fn lemma_last_pair_in(pairs: Seq<YamlNode>, k: Seq<char>)
    requires
        spec_all_complete(pairs),
        spec_last_pair(pairs, k) is Some,
    ensures
        crate::yaml::parser::dto::yaml_node::spec_is_complete_pair(spec_last_pair(pairs, k)->0),
        spec_last_pair(pairs, k)->0.spec_pairs_complete(),
    decreases pairs.len(),
{
    if spec_key(pairs.last()) != k {
        assert forall|i: int| 0 <= i < pairs.drop_last().len() implies crate::yaml::parser::dto::yaml_node::spec_is_complete_pair(
            #[trigger] pairs.drop_last()[i],
        ) && pairs.drop_last()[i].spec_pairs_complete() by {
            assert(pairs.drop_last()[i] == pairs[i]);
        }
        lemma_last_pair_in(pairs.drop_last(), k);
    } else {
        assert(pairs.last() == pairs[pairs.len() - 1]);
    }
}

/// Records the edits that merge the tree `node_to_add` into the tree `original_node`, `depth`
/// levels down.
fn include_nodes_to_overwrite(
    overwriting: &mut FileOverwriting,
    original_node: &YamlNode,
    node_to_add: &YamlNode,
    depth: usize,
)
    requires
        depth + node_to_add.spec_height() <= usize::MAX,
        original_node.spec_pairs_complete(),
        node_to_add.spec_pairs_complete(),
    ensures
        final(overwriting).spec_input_file() == old(overwriting).spec_input_file(),
        final(overwriting).spec_edits() == old(overwriting).spec_edits() + spec_merge(
            *original_node,
            *node_to_add,
            depth as nat,
        ),
    decreases node_to_add.spec_height(), 1nat,
{
    let original_mapping_pairs = filter_block_mapping_pairs_without_sequence_items(original_node);
    let mapping_pairs_to_add = filter_block_mapping_pairs_without_sequence_items(node_to_add);
    proof {
        lemma_mapping_pairs(*original_node);
        lemma_mapping_pairs(*node_to_add);
    }
    let new_nodes = split(&original_mapping_pairs, &mapping_pairs_to_add, false);
    let modification_nodes = split(&original_mapping_pairs, &mapping_pairs_to_add, true);
    let ghost start = overwriting.spec_edits();
    include_new_nodes_to_overwrite(overwriting, original_node, &new_nodes, depth);
    proof {
        let added = derefs(mapping_pairs_to_add@);
        let ms = derefs(modification_nodes@);
        assert forall|i: int| 0 <= i < modification_nodes@.len() implies spec_value(
            *#[trigger] modification_nodes@[i],
        ).spec_height() < node_to_add.spec_height() by {
            assert(ms[i] == *modification_nodes@[i]);
            lemma_value(ms[i]);
            lemma_filter_member(added, ms, derefs(original_mapping_pairs@), i);
        }
    }
    include_modification_nodes_to_overwrite(
        overwriting,
        &original_mapping_pairs,
        &modification_nodes,
        depth,
        Ghost(node_to_add.spec_height()),
    );
    merge_block_sequence_items(overwriting, &original_mapping_pairs, &modification_nodes);
    proof {
        assert(overwriting.spec_edits() =~= start + spec_merge(*original_node, *node_to_add, depth as nat));
    }
}

/// A pair kept by a split of the pairs of a tree is no higher than the tree.
proof fn lemma_filter_member(added: Seq<YamlNode>, kept: Seq<YamlNode>, originals: Seq<YamlNode>, i: int)
    requires
        kept == spec_split(originals, added, true),
        0 <= i < kept.len(),
    ensures
        added.contains(kept[i]),
{
    let pred = |p: YamlNode| spec_has_key(originals, spec_key(p)) == true;
    assert(kept == added.filter(pred));
    assert(kept.contains(kept[i]));
    added.lemma_filter_contains_rev(pred, kept[i]);
}

/// The edits that merge the YAML document `yaml_to_add` into the YAML document
/// `yaml_original`, both with complete pairs: the values of the added document win over those
/// of the original one, and new pairs and sequence items are added.
pub fn overwrite(yaml_original: &YamlNode, yaml_to_add: &YamlNode) -> (r: FileOverwriting)
    requires
        yaml_original.spec_pairs_complete(),
        yaml_to_add.spec_pairs_complete(),
        yaml_to_add.spec_height() <= usize::MAX,
    ensures
        r.spec_input_file() == yaml_original.spec_file_path(),
        r.spec_edits() == spec_merge(*yaml_original, *yaml_to_add, 0),
{
    let mut overwriting = FileOverwriting::new(yaml_original.get_file_path());
    include_nodes_to_overwrite(&mut overwriting, yaml_original, yaml_to_add, 0);
    proof {
        assert(overwriting.spec_edits() =~= spec_merge(*yaml_original, *yaml_to_add, 0));
    }
    overwriting
}

} // verus!
