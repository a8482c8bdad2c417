//! The node kinds of the YAML grammar, and their names in the parser's output.
use vstd::prelude::*;

use crate::common::text::str_eq;

verus! {

/// A kind of node in a parsed YAML document.
#[derive(Debug, PartialEq, Eq, Copy, Clone, Structural)]
pub enum YamlNodeType {
    FlowNode,
    Hyphen,
    BlockMappingPair,
    BlockMapping,
    Document,
    VerticalBar,
    Stream,
    Comment,
    PlainScalar,
    BlockScalar,
    Colon,
    BlockNode,
    ThreeHyphen,
    IntegerScalar,
    StringScalar,
    BooleanScalar,
    BlockSequence,
    BlockSequenceItem,
    Apostrophe,
    SingleQuoteScalar,
    QuotationMark,
    DoubleQuoteScalar,
}

/// The name that the YAML grammar gives to a node kind.
pub open spec fn spec_yaml_kind_name(t: YamlNodeType) -> Seq<char> {
    match t {
        YamlNodeType::FlowNode => "flow_node"@,
        YamlNodeType::Hyphen => "-"@,
        YamlNodeType::BlockMappingPair => "block_mapping_pair"@,
        YamlNodeType::BlockMapping => "block_mapping"@,
        YamlNodeType::Document => "document"@,
        YamlNodeType::VerticalBar => "|"@,
        YamlNodeType::Stream => "stream"@,
        YamlNodeType::Comment => "comment"@,
        YamlNodeType::PlainScalar => "plain_scalar"@,
        YamlNodeType::BlockScalar => "block_scalar"@,
        YamlNodeType::Colon => ":"@,
        YamlNodeType::BlockNode => "block_node"@,
        YamlNodeType::ThreeHyphen => "---"@,
        YamlNodeType::IntegerScalar => "integer_scalar"@,
        YamlNodeType::StringScalar => "string_scalar"@,
        YamlNodeType::BooleanScalar => "boolean_scalar"@,
        YamlNodeType::BlockSequence => "block_sequence"@,
        YamlNodeType::BlockSequenceItem => "block_sequence_item"@,
        YamlNodeType::Apostrophe => "'"@,
        YamlNodeType::SingleQuoteScalar => "single_quote_scalar"@,
        YamlNodeType::QuotationMark => "\""@,
        YamlNodeType::DoubleQuoteScalar => "double_quote_scalar"@,
    }
}

/// The node kind whose YAML grammar name is `name`, if any.
pub open spec fn spec_yaml_kind_of(name: Seq<char>) -> Option<YamlNodeType> {
    if name.len() == 1 {
        if name == "-"@ {
            Some(YamlNodeType::Hyphen)
        } else if name == "|"@ {
            Some(YamlNodeType::VerticalBar)
        } else if name == ":"@ {
            Some(YamlNodeType::Colon)
        } else if name == "'"@ {
            Some(YamlNodeType::Apostrophe)
        } else if name == "\""@ {
            Some(YamlNodeType::QuotationMark)
        } else {
            None
        }
    } else if name.len() == 3 {
        if name == "---"@ {
            Some(YamlNodeType::ThreeHyphen)
        } else {
            None
        }
    } else if name.len() == 6 {
        if name == "stream"@ {
            Some(YamlNodeType::Stream)
        } else {
            None
        }
    } else if name.len() == 7 {
        if name == "comment"@ {
            Some(YamlNodeType::Comment)
        } else {
            None
        }
    } else if name.len() == 8 {
        if name == "document"@ {
            Some(YamlNodeType::Document)
        } else {
            None
        }
    } else if name.len() == 9 {
        if name == "flow_node"@ {
            Some(YamlNodeType::FlowNode)
        } else {
            None
        }
    } else if name.len() == 10 {
        if name == "block_node"@ {
            Some(YamlNodeType::BlockNode)
        } else {
            None
        }
    } else if name.len() == 12 {
        if name == "plain_scalar"@ {
            Some(YamlNodeType::PlainScalar)
        } else if name == "block_scalar"@ {
            Some(YamlNodeType::BlockScalar)
        } else {
            None
        }
    } else if name.len() == 13 {
        if name == "block_mapping"@ {
            Some(YamlNodeType::BlockMapping)
        } else if name == "string_scalar"@ {
            Some(YamlNodeType::StringScalar)
        } else {
            None
        }
    } else if name.len() == 14 {
        if name == "integer_scalar"@ {
            Some(YamlNodeType::IntegerScalar)
        } else if name == "boolean_scalar"@ {
            Some(YamlNodeType::BooleanScalar)
        } else if name == "block_sequence"@ {
            Some(YamlNodeType::BlockSequence)
        } else {
            None
        }
    } else if name.len() == 18 {
        if name == "block_mapping_pair"@ {
            Some(YamlNodeType::BlockMappingPair)
        } else {
            None
        }
    } else if name.len() == 19 {
        if name == "block_sequence_item"@ {
            Some(YamlNodeType::BlockSequenceItem)
        } else if name == "single_quote_scalar"@ {
            Some(YamlNodeType::SingleQuoteScalar)
        } else if name == "double_quote_scalar"@ {
            Some(YamlNodeType::DoubleQuoteScalar)
        } else {
            None
        }
    } else {
        None
    }
}

/// Each node kind is the one that its YAML grammar name names.
pub proof fn lemma_yaml_kind_of_name(t: YamlNodeType)
    ensures
        spec_yaml_kind_of(spec_yaml_kind_name(t)) == Some(t),
{
    match t {
        YamlNodeType::Hyphen => {
            reveal_strlit("-");
        },
        YamlNodeType::VerticalBar => {
            reveal_strlit("|");
            reveal_strlit("-");
            assert("|"@[0] != "-"@[0]);
        },
        YamlNodeType::Colon => {
            reveal_strlit(":");
            reveal_strlit("-");
            assert(":"@[0] != "-"@[0]);
            reveal_strlit("|");
            assert(":"@[0] != "|"@[0]);
        },
        YamlNodeType::Apostrophe => {
            reveal_strlit("'");
            reveal_strlit("-");
            assert("'"@[0] != "-"@[0]);
            reveal_strlit("|");
            assert("'"@[0] != "|"@[0]);
            reveal_strlit(":");
            assert("'"@[0] != ":"@[0]);
        },
        YamlNodeType::QuotationMark => {
            reveal_strlit("\"");
            reveal_strlit("-");
            assert("\""@[0] != "-"@[0]);
            reveal_strlit("|");
            assert("\""@[0] != "|"@[0]);
            reveal_strlit(":");
            assert("\""@[0] != ":"@[0]);
            reveal_strlit("'");
            assert("\""@[0] != "'"@[0]);
        },
        YamlNodeType::ThreeHyphen => {
            reveal_strlit("---");
        },
        YamlNodeType::Stream => {
            reveal_strlit("stream");
        },
        YamlNodeType::Comment => {
            reveal_strlit("comment");
        },
        YamlNodeType::Document => {
            reveal_strlit("document");
        },
        YamlNodeType::FlowNode => {
            reveal_strlit("flow_node");
        },
        YamlNodeType::BlockNode => {
            reveal_strlit("block_node");
        },
        YamlNodeType::PlainScalar => {
            reveal_strlit("plain_scalar");
        },
        YamlNodeType::BlockScalar => {
            reveal_strlit("block_scalar");
            reveal_strlit("plain_scalar");
            assert("block_scalar"@[0] != "plain_scalar"@[0]);
        },
        YamlNodeType::BlockMapping => {
            reveal_strlit("block_mapping");
        },
        YamlNodeType::StringScalar => {
            reveal_strlit("string_scalar");
            reveal_strlit("block_mapping");
            assert("string_scalar"@[0] != "block_mapping"@[0]);
        },
        YamlNodeType::IntegerScalar => {
            reveal_strlit("integer_scalar");
        },
        YamlNodeType::BooleanScalar => {
            reveal_strlit("boolean_scalar");
            reveal_strlit("integer_scalar");
            assert("boolean_scalar"@[0] != "integer_scalar"@[0]);
        },
        YamlNodeType::BlockSequence => {
            reveal_strlit("block_sequence");
            reveal_strlit("integer_scalar");
            assert("block_sequence"@[0] != "integer_scalar"@[0]);
            reveal_strlit("boolean_scalar");
            assert("block_sequence"@[1] != "boolean_scalar"@[1]);
        },
        YamlNodeType::BlockMappingPair => {
            reveal_strlit("block_mapping_pair");
        },
        YamlNodeType::BlockSequenceItem => {
            reveal_strlit("block_sequence_item");
        },
        YamlNodeType::SingleQuoteScalar => {
            reveal_strlit("single_quote_scalar");
            reveal_strlit("block_sequence_item");
            assert("single_quote_scalar"@[0] != "block_sequence_item"@[0]);
        },
        YamlNodeType::DoubleQuoteScalar => {
            reveal_strlit("double_quote_scalar");
            reveal_strlit("block_sequence_item");
            assert("double_quote_scalar"@[0] != "block_sequence_item"@[0]);
            reveal_strlit("single_quote_scalar");
            assert("double_quote_scalar"@[0] != "single_quote_scalar"@[0]);
        },
    }
}

/// Two node kinds with one YAML grammar name are one kind.
pub proof fn lemma_yaml_kind_name_injective(a: YamlNodeType, b: YamlNodeType)
    requires
        spec_yaml_kind_name(a) == spec_yaml_kind_name(b),
    ensures
        a == b,
{
    lemma_yaml_kind_of_name(a);
    lemma_yaml_kind_of_name(b);
}

/// The node kind that the grammar name `name` names, if any.
pub open spec fn spec_yaml_kind_named(name: Seq<char>) -> Option<YamlNodeType> {
    if exists|t: YamlNodeType| spec_yaml_kind_name(t) == name {
        Some(choose|t: YamlNodeType| spec_yaml_kind_name(t) == name)
    } else {
        None
    }
}

impl YamlNodeType {
    /// The node kind that the YAML grammar names `input`, or an error when it names none.
    pub fn from_str(input: &str) -> (r: Result<YamlNodeType, ()>)
        ensures
            r matches Ok(t) ==> spec_yaml_kind_name(t) == input@,
            r is Err ==> forall|t: YamlNodeType| spec_yaml_kind_name(t) != input@,
            forall|t: YamlNodeType| spec_yaml_kind_name(t) == input@ ==> r == Ok::<YamlNodeType, ()>(t),
            r == match spec_yaml_kind_named(input@) {
                Some(t) => Ok::<YamlNodeType, ()>(t),
                None => Err(()),
            },
    {
        let r = Self::kind_named(input);
        proof {
            if exists|t: YamlNodeType| spec_yaml_kind_name(t) == input@ {
                let c = choose|t: YamlNodeType| spec_yaml_kind_name(t) == input@;
                assert forall|u: YamlNodeType| spec_yaml_kind_name(u) == input@ implies u == c by {
                    lemma_yaml_kind_name_injective(u, c);
                }
            }
            assert forall|t: YamlNodeType| spec_yaml_kind_name(t) == input@ implies forall|u: YamlNodeType|
                spec_yaml_kind_name(u) == input@ ==> u == t by {
                assert forall|u: YamlNodeType| spec_yaml_kind_name(u) == input@ implies u == t by {
                    lemma_yaml_kind_name_injective(u, t);
                }
            }
        }
        proof {
            if let Ok(t) = r {
                assert(spec_yaml_kind_name(t) == input@);
                let c = choose|u: YamlNodeType| spec_yaml_kind_name(u) == input@;
                lemma_yaml_kind_name_injective(c, t);
                assert(spec_yaml_kind_named(input@) == Some(t));
            } else {
                assert(forall|u: YamlNodeType| spec_yaml_kind_name(u) != input@);
                assert(!(exists|u: YamlNodeType| spec_yaml_kind_name(u) == input@));
                assert(spec_yaml_kind_named(input@) is None);
            }
        }
        match r {
            Ok(t) => Ok(t),
            Err(_) => Err(()),
        }
    }

    /// The node kind that the YAML grammar names `input`, found by comparing it with each name.
    fn kind_named(input: &str) -> (r: Result<YamlNodeType, ()>)
        ensures
            r matches Ok(t) ==> spec_yaml_kind_name(t) == input@,
            r is Err ==> forall|t: YamlNodeType| spec_yaml_kind_name(t) != input@,
    {
        if str_eq(input, "flow_node") {
            return Ok(YamlNodeType::FlowNode);
        }
        if str_eq(input, "-") {
            return Ok(YamlNodeType::Hyphen);
        }
        if str_eq(input, "block_mapping_pair") {
            return Ok(YamlNodeType::BlockMappingPair);
        }
        if str_eq(input, "block_mapping") {
            return Ok(YamlNodeType::BlockMapping);
        }
        if str_eq(input, "document") {
            return Ok(YamlNodeType::Document);
        }
        if str_eq(input, "|") {
            return Ok(YamlNodeType::VerticalBar);
        }
        if str_eq(input, "stream") {
            return Ok(YamlNodeType::Stream);
        }
        if str_eq(input, "comment") {
            return Ok(YamlNodeType::Comment);
        }
        if str_eq(input, "plain_scalar") {
            return Ok(YamlNodeType::PlainScalar);
        }
        if str_eq(input, "block_scalar") {
            return Ok(YamlNodeType::BlockScalar);
        }
        if str_eq(input, ":") {
            return Ok(YamlNodeType::Colon);
        }
        if str_eq(input, "block_node") {
            return Ok(YamlNodeType::BlockNode);
        }
        if str_eq(input, "---") {
            return Ok(YamlNodeType::ThreeHyphen);
        }
        if str_eq(input, "integer_scalar") {
            return Ok(YamlNodeType::IntegerScalar);
        }
        if str_eq(input, "string_scalar") {
            return Ok(YamlNodeType::StringScalar);
        }
        if str_eq(input, "boolean_scalar") {
            return Ok(YamlNodeType::BooleanScalar);
        }
        if str_eq(input, "block_sequence") {
            return Ok(YamlNodeType::BlockSequence);
        }
        if str_eq(input, "block_sequence_item") {
            return Ok(YamlNodeType::BlockSequenceItem);
        }
        if str_eq(input, "'") {
            return Ok(YamlNodeType::Apostrophe);
        }
        if str_eq(input, "single_quote_scalar") {
            return Ok(YamlNodeType::SingleQuoteScalar);
        }
        if str_eq(input, "\"") {
            return Ok(YamlNodeType::QuotationMark);
        }
        if str_eq(input, "double_quote_scalar") {
            return Ok(YamlNodeType::DoubleQuoteScalar);
        }
        Err(())
    }

    /// The name of the kind (such as `BlockMappingPair`).
    pub open spec fn spec_name(self) -> Seq<char> {
        match self {
            YamlNodeType::FlowNode => "FlowNode"@,
            YamlNodeType::Hyphen => "Hyphen"@,
            YamlNodeType::BlockMappingPair => "BlockMappingPair"@,
            YamlNodeType::BlockMapping => "BlockMapping"@,
            YamlNodeType::Document => "Document"@,
            YamlNodeType::VerticalBar => "VerticalBar"@,
            YamlNodeType::Stream => "Stream"@,
            YamlNodeType::Comment => "Comment"@,
            YamlNodeType::PlainScalar => "PlainScalar"@,
            YamlNodeType::BlockScalar => "BlockScalar"@,
            YamlNodeType::Colon => "Colon"@,
            YamlNodeType::BlockNode => "BlockNode"@,
            YamlNodeType::ThreeHyphen => "ThreeHyphen"@,
            YamlNodeType::IntegerScalar => "IntegerScalar"@,
            YamlNodeType::StringScalar => "StringScalar"@,
            YamlNodeType::BooleanScalar => "BooleanScalar"@,
            YamlNodeType::BlockSequence => "BlockSequence"@,
            YamlNodeType::BlockSequenceItem => "BlockSequenceItem"@,
            YamlNodeType::Apostrophe => "Apostrophe"@,
            YamlNodeType::SingleQuoteScalar => "SingleQuoteScalar"@,
            YamlNodeType::QuotationMark => "QuotationMark"@,
            YamlNodeType::DoubleQuoteScalar => "DoubleQuoteScalar"@,
        }
    }

    /// The name of the kind (such as `BlockMappingPair`).
    pub fn to_string(&self) -> (r: String)
        ensures
            r@ == self.spec_name(),
    {
        match self {
            YamlNodeType::FlowNode => "FlowNode".to_owned(),
            YamlNodeType::Hyphen => "Hyphen".to_owned(),
            YamlNodeType::BlockMappingPair => "BlockMappingPair".to_owned(),
            YamlNodeType::BlockMapping => "BlockMapping".to_owned(),
            YamlNodeType::Document => "Document".to_owned(),
            YamlNodeType::VerticalBar => "VerticalBar".to_owned(),
            YamlNodeType::Stream => "Stream".to_owned(),
            YamlNodeType::Comment => "Comment".to_owned(),
            YamlNodeType::PlainScalar => "PlainScalar".to_owned(),
            YamlNodeType::BlockScalar => "BlockScalar".to_owned(),
            YamlNodeType::Colon => "Colon".to_owned(),
            YamlNodeType::BlockNode => "BlockNode".to_owned(),
            YamlNodeType::ThreeHyphen => "ThreeHyphen".to_owned(),
            YamlNodeType::IntegerScalar => "IntegerScalar".to_owned(),
            YamlNodeType::StringScalar => "StringScalar".to_owned(),
            YamlNodeType::BooleanScalar => "BooleanScalar".to_owned(),
            YamlNodeType::BlockSequence => "BlockSequence".to_owned(),
            YamlNodeType::BlockSequenceItem => "BlockSequenceItem".to_owned(),
            YamlNodeType::Apostrophe => "Apostrophe".to_owned(),
            YamlNodeType::SingleQuoteScalar => "SingleQuoteScalar".to_owned(),
            YamlNodeType::QuotationMark => "QuotationMark".to_owned(),
            YamlNodeType::DoubleQuoteScalar => "DoubleQuoteScalar".to_owned(),
        }
    }
}

} // verus!
