//! The text of a generated method, and the file that receives it.
use vstd::prelude::*;

use crate::common::path::{path_join, spec_path_join};
use crate::java::generator::dto::java_class_skeleton::annotation_names;
use crate::java::generator::dto::java_method_generator::{JavaMethodGenerator, JavaMethodGeneratorView};
use crate::java::generator::dto::java_variable_generator::JavaVariableGeneratorView;

verus! {

/// The annotations, one per line.
pub open spec fn spec_annotation_lines(names: Seq<Seq<char>>) -> Seq<char>
    decreases names.len(),
{
    if names.len() == 0 {
        Seq::empty()
    } else {
        spec_annotation_lines(names.drop_last()) + "@"@ + names.last() + "\n"@
    }
}

/// The parameters between parentheses, separated by `, `.
pub open spec fn spec_parameters_list(ps: Seq<JavaVariableGeneratorView>) -> Seq<char>
    decreases ps.len(),
{
    if ps.len() == 0 {
        Seq::empty()
    } else if ps.len() == 1 {
        ps[0].spec_to_string()
    } else {
        spec_parameters_list(ps.drop_last()) + ", "@ + ps.last().spec_to_string()
    }
}

/// The text of a generated method: its annotations, its visibility, its return type (`void`
/// when none), its name, its parameters, and an empty body.
pub open spec fn spec_method_text(m: JavaMethodGeneratorView) -> Seq<char> {
    spec_annotation_lines(m.annotations) + m.visibility.spec_keyword() + match m.return_type {
        Some(t) => t.spec_to_string() + " "@,
        None => "void "@,
    } + m.name + "("@ + spec_parameters_list(m.parameters) + ")"@ + " {\n}"@
}

/// The file that receives the method generated from `skeleton` in the directory `dir` (named
/// after the method), and the text to append to it. Whether the directory exists is for the
/// caller to check.
pub fn generate(dir: &str, skeleton: &JavaMethodGenerator) -> (r: (String, String))
    ensures
        r.0@ == spec_path_join(dir@, skeleton@.name + ".java"@),
        r.1@ == spec_method_text(skeleton@),
{
    let mut result = String::new();
    write_annotations(&mut result, skeleton);
    let v = skeleton.get_visibility().keyword();
    result.append(v.as_str());
    match skeleton.get_return_type() {
        Some(t) => {
            let s = t.to_string();
            result.append(s.as_str());
            result.append(" ");
        },
        None => {
            result.append("void ");
        },
    }
    result.append(skeleton.get_name());
    write_parameters(&mut result, skeleton);
    result.append(" {\n}");
    let mut file_name = skeleton.get_name().to_owned();
    file_name.append(".java");
    let file_path = path_join(dir, file_name.as_str());
    proof {
        assert(result@ =~= spec_method_text(skeleton@));
    }
    (file_path, result)
}

fn write_annotations(result: &mut String, skeleton: &JavaMethodGenerator)
    ensures
        final(result)@ == old(result)@ + spec_annotation_lines(skeleton@.annotations),
{
    let annotations = skeleton.get_annotations();
    let ghost start = result@;
    let ghost names = annotation_names(annotations@);
    let mut i: usize = 0;
    while i < annotations.len()
        invariant
            i <= annotations.len(),
            names == annotation_names(annotations@),
            result@ == start + spec_annotation_lines(names.take(i as int)),
        decreases annotations.len() - i,
    {
        proof {
            assert(names.take(i + 1).drop_last() =~= names.take(i as int));
            assert(names.take(i + 1).last() == annotations@[i as int]@);
        }
        result.append("@");
        result.append(annotations[i].get_name());
        result.append("\n");
        i = i + 1;
    }
    proof {
        assert(names.take(names.len() as int) =~= names);
    }
}

fn write_parameters(result: &mut String, skeleton: &JavaMethodGenerator)
    ensures
        final(result)@ == old(result)@ + "("@ + spec_parameters_list(skeleton@.parameters) + ")"@,
{
    let parameters = skeleton.get_parameters();
    let ghost ps = skeleton@.parameters;
    result.append("(");
    let ghost start = result@;
    let mut i: usize = 0;
    while i < parameters.len()
        invariant
            i <= parameters.len(),
            ps == crate::java::generator::dto::java_method_generator::parameter_views(parameters@),
            result@ == start + spec_parameters_list(ps.take(i as int)),
        decreases parameters.len() - i,
    {
        proof {
            assert(ps.take(i + 1).drop_last() =~= ps.take(i as int));
            assert(ps.take(i + 1).last() == parameters@[i as int]@);
            if i == 0 {
                assert(ps.take(1)[0] == parameters@[0]@);
            }
        }
        if i > 0 {
            result.append(", ");
        }
        let s = parameters[i].to_string();
        result.append(s.as_str());
        i = i + 1;
    }
    proof {
        assert(ps.take(ps.len() as int) =~= ps);
    }
    result.append(")");
}

} // verus!
