//! Reading one step of a recipe: an item of a YAML sequence whose single mapping pair names
//! the step and holds its settings.
use vstd::prelude::*;

use crate::common::text::{contains_string, join, spec_join, views};
use crate::yaml::parser::dto::yaml_node::YamlNode;
use crate::yaml::parser::dto::yaml_node_type::YamlNodeType;

verus! {

/// The key and the value of a mapping pair with at least three children.
pub open spec fn spec_pair_key_value(pair: YamlNode) -> Option<(Seq<char>, YamlNode)> {
    if pair.spec_node_type() == Some(YamlNodeType::BlockMappingPair) && pair.spec_children().len()
        > 2 {
        Some((pair.spec_children()[0].spec_content(), pair.spec_children()[2]))
    } else {
        None
    }
}

/// The first mapping pair of a sequence item: the first child of the first child of its
/// second child (the first being the hyphen).
pub open spec fn spec_item_pair(item: YamlNode) -> Option<YamlNode> {
    if item.spec_children().len() > 1 && item.spec_children()[1].spec_children().len() > 0
        && item.spec_children()[1].spec_children()[0].spec_children().len() > 0 {
        Some(item.spec_children()[1].spec_children()[0].spec_children()[0])
    } else {
        None
    }
}

/// The error for a step named `key` that is not among `steps`.
pub open spec fn spec_unexpected_step(key: Seq<char>, steps: Seq<Seq<char>>) -> Seq<char> {
    "Unexpected step \""@ + key + "\", the available steps are ["@ + spec_join(steps, ", "@) + "]"@
}

/// The name and the settings of the step that a sequence item holds, when its name is among
/// `steps`; otherwise the error that says why not.
pub open spec fn spec_step_of_item(item: YamlNode, steps: Seq<Seq<char>>) -> Result<
    (Seq<char>, YamlNode),
    Seq<char>,
> {
    match spec_item_pair(item) {
        Some(pair) => match spec_pair_key_value(pair) {
            Some((key, value)) => if steps.contains(key) {
                Ok((key, value))
            } else {
                Err(spec_unexpected_step(key, steps))
            },
            None => Err("Unexpected step block"@),
        },
        None => Err("Unexpected step block"@),
    }
}

/// The first mapping pair of a sequence item, if it has one.
fn item_pair(item: &YamlNode) -> (r: Option<&YamlNode>)
    ensures
        match r {
            Some(p) => spec_item_pair(*item) == Some(*p),
            None => spec_item_pair(*item) is None,
        },
{
    let children = item.get_children();
    if children.len() > 1 {
        let block = children[1].get_children();
        if block.len() > 0 {
            let pairs = block[0].get_children();
            if pairs.len() > 0 {
                return Some(&pairs[0]);
            }
        }
    }
    None
}

/// The name and the settings of the step that the sequence item `sequence_item` holds; an
/// error when the item holds no mapping pair or names a step that is not among `steps`,
/// which the error lists in their order.
pub fn from_block_sequence_item<'a>(sequence_item: &'a YamlNode, steps: &Vec<String>) -> (r:
    Result<(String, &'a YamlNode), String>)
    ensures
        match spec_step_of_item(*sequence_item, views(steps@)) {
            Ok((key, value)) => r matches Ok((k, v)) && k@ == key && *v == value,
            Err(e) => r matches Err(err) && err@ == e,
        },
{
    let pair = match item_pair(sequence_item) {
        Some(p) => p,
        None => {
            return Err("Unexpected step block".to_owned());
        },
    };
    match pair.get_block_mapping_pair_string_to_block() {
        Some((key, value)) => {
            if contains_string(steps, key.as_str()) {
                Ok((key, value))
            } else {
                let mut err = "Unexpected step \"".to_owned();
                err.append(key.as_str());
                err.append("\", the available steps are [");
                let listed = join(steps, ", ");
                err.append(listed.as_str());
                err.append("]");
                Err(err)
            }
        },
        None => Err("Unexpected step block".to_owned()),
    }
}

} // verus!
