//! Emission: the generated source text for a synthesized mock type.
//!
//! The output of one generation is fixed, character for character, by the
//! mock type descriptor alone, so re-running emission on identical inputs
//! yields byte-identical text.

use vstd::prelude::*;
use vstd::string::StringExecFns;

use crate::synth::{MethodBody, MethodBodyView, MockMethod, MockTypeDescriptor, MockTypeDescriptorView, MockMethodView};

verus! {

/// The inline marker emitted as the body of a method that has no return
/// value and so cannot be mocked: it fails the host build at that method's
/// site while leaving the surrounding mock type usable.
pub open spec fn void_marker_expr() -> Seq<char> {
    "compile_error!(\"cannot mock a method with no return value\")"@
}

/// The void marker as text.
pub fn void_marker_expr_text() -> (r: String)
    ensures
        r@ == void_marker_expr(),
{
    String::from_str("compile_error!(\"cannot mock a method with no return value\")")
}

/// Text of a parameter list: the parameters joined by commas.
pub open spec fn spec_join_inputs(inputs: Seq<Seq<char>>) -> Seq<char>
    decreases inputs.len(),
{
    if inputs.len() == 0 {
        Seq::empty()
    } else if inputs.len() == 1 {
        inputs[0]
    } else {
        spec_join_inputs(inputs.drop_last()) + ", "@ + inputs.last()
    }
}

/// Text of a return type: ` -> T` when the method has one, nothing when not.
pub open spec fn spec_emit_output(output: Option<Seq<char>>) -> Seq<char> {
    match output {
        Some(t) => " -> "@ + t,
        None => Seq::empty(),
    }
}

/// Text of a method body: the chosen expression, or the void marker.
pub open spec fn spec_emit_body(b: MethodBodyView) -> Seq<char> {
    match b {
        MethodBodyView::Expr(e) => e,
        MethodBodyView::VoidMarker => void_marker_expr(),
    }
}

/// Text of one synthesized method.
pub open spec fn spec_emit_method(m: MockMethodView) -> Seq<char> {
    "    fn "@ + m.name + "("@ + spec_join_inputs(m.inputs) + ")"@ + spec_emit_output(m.output)
        + " {\n        "@ + spec_emit_body(m.body) + "\n    }\n"@
}

/// Text of a method list, in order.
pub open spec fn spec_emit_methods(ms: Seq<MockMethodView>) -> Seq<char>
    decreases ms.len(),
{
    if ms.len() == 0 {
        Seq::empty()
    } else {
        spec_emit_methods(ms.drop_last()) + spec_emit_method(ms.last())
    }
}

/// Text of the implements-relationship block of a mock type.
pub open spec fn spec_emit_impl_block(mock: MockTypeDescriptorView) -> Seq<char> {
    "impl "@ + mock.interface + " for "@ + mock.name + " {\n"@ + spec_emit_methods(mock.methods)
        + "}\n"@
}

/// Text of the declaration of a fresh mock type.
pub open spec fn spec_emit_struct_decl(name: Seq<char>) -> Seq<char> {
    "struct "@ + name + ";\n\n"@
}

/// The full output unit of the self-contained design: the declaration of
/// the mock type followed by its implements block. The interface
/// declaration itself is re-emitted unchanged by the caller.
pub open spec fn spec_emit_local_unit(mock: MockTypeDescriptorView) -> Seq<char> {
    spec_emit_struct_decl(mock.name) + spec_emit_impl_block(mock)
}

/// The parameter list of one method, joined by commas.
fn emit_inputs(inputs: &Vec<String>) -> (r: String)
    ensures
        r@ == spec_join_inputs(inputs.deep_view()),
{
    let ghost dv = inputs.deep_view();
    let mut out = String::new();
    let mut i: usize = 0;
    while i < inputs.len()
        invariant
            i <= inputs@.len(),
            dv == inputs.deep_view(),
            dv.len() == inputs@.len(),
            out@ == spec_join_inputs(dv.take(i as int)),
        decreases inputs@.len() - i,
    {
        if i > 0 {
            out.append(", ");
        }
        out.append(inputs[i].as_str());
        proof {
            assert(dv.take(i + 1).drop_last() =~= dv.take(i as int));
            assert(dv.take(i + 1).last() == dv[i as int]);
        }
        i = i + 1;
    }
    proof {
        assert(dv.take(dv.len() as int) =~= dv);
    }
    out
}

/// The source text of one synthesized method.
fn emit_method(m: &MockMethod) -> (r: String)
    ensures
        r@ == spec_emit_method(m@),
{
    let mut out = String::from_str("    fn ");
    out.append(m.name.as_str());
    out.append("(");
    let inputs = emit_inputs(&m.inputs);
    out.append(inputs.as_str());
    out.append(")");
    match &m.output {
        Some(t) => {
            out.append(" -> ");
            out.append(t.as_str());
        },
        None => {},
    }
    out.append(" {\n        ");
    match &m.body {
        MethodBody::Expr(e) => out.append(e.as_str()),
        MethodBody::VoidMarker => out.append(
            "compile_error!(\"cannot mock a method with no return value\")",
        ),
    }
    out.append("\n    }\n");
    proof {
        assert(out@ =~= spec_emit_method(m@));
    }
    out
}

/// The source text of a method list, in order.
fn emit_methods(ms: &Vec<MockMethod>) -> (r: String)
    ensures
        r@ == spec_emit_methods(ms.deep_view()),
{
    let ghost dv = ms.deep_view();
    let mut out = String::new();
    let mut i: usize = 0;
    while i < ms.len()
        invariant
            i <= ms@.len(),
            dv == ms.deep_view(),
            dv.len() == ms@.len(),
            out@ == spec_emit_methods(dv.take(i as int)),
        decreases ms@.len() - i,
    {
        let one = emit_method(&ms[i]);
        out.append(one.as_str());
        proof {
            assert(dv.take(i + 1).drop_last() =~= dv.take(i as int));
            assert(dv.take(i + 1).last() == dv[i as int]);
        }
        i = i + 1;
    }
    proof {
        assert(dv.take(dv.len() as int) =~= dv);
    }
    out
}

/// The implements-relationship block for a synthesized mock type: one
/// method per interface method, in interface order, each returning its
/// chosen body expression.
pub fn emit_impl_block(mock: &MockTypeDescriptor) -> (r: String)
    ensures
        r@ == spec_emit_impl_block(mock@),
{
    let mut out = String::from_str("impl ");
    out.append(mock.interface.as_str());
    out.append(" for ");
    out.append(mock.name.as_str());
    out.append(" {\n");
    let ms = emit_methods(&mock.methods);
    out.append(ms.as_str());
    out.append("}\n");
    proof {
        assert(out@ =~= spec_emit_impl_block(mock@));
    }
    out
}

/// The full output unit of the self-contained design: a fresh declaration
/// of the mock type, then its implements block.
pub fn emit_local_unit(mock: &MockTypeDescriptor) -> (r: String)
    ensures
        r@ == spec_emit_local_unit(mock@),
{
    let mut out = String::from_str("struct ");
    out.append(mock.name.as_str());
    out.append(";\n\n");
    let block = emit_impl_block(mock);
    out.append(block.as_str());
    proof {
        assert(out@ =~= spec_emit_local_unit(mock@));
    }
    out
}

} // verus!
