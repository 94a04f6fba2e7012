//! Mock synthesis: from an interface descriptor and a configuration to a
//! mock type descriptor, one body per interface method.
//!
//! A method with no return value cannot be mocked (the failure expression is
//! itself a value), so it receives an inline void marker while the rest of
//! the type is still produced. A configured method receives its configured
//! expression; any other method receives the canonical failure expression.

use vstd::prelude::*;
use vstd::string::StringExecFns;

use crate::descriptor::{InterfaceDescriptor, InterfaceDescriptorView, MethodDescriptorView};
use crate::error::{MockError, MockErrorView};
use crate::registry::Registry;

verus! {

/// The body of one synthesized method: a return expression to evaluate, or
/// an inline marker for a method with no return value.
pub enum MethodBody {
    Expr(String),
    VoidMarker,
}

/// Mathematical image of a `MethodBody`.
pub enum MethodBodyView {
    Expr(Seq<char>),
    VoidMarker,
}

impl View for MethodBody {
    type V = MethodBodyView;

    open spec fn view(&self) -> MethodBodyView {
        match self {
            MethodBody::Expr(e) => MethodBodyView::Expr(e@),
            MethodBody::VoidMarker => MethodBodyView::VoidMarker,
        }
    }
}

/// One synthesized method: the signature of the interface method it stands
/// in for, and the body chosen for it.
pub struct MockMethod {
    pub name: String,
    pub inputs: Vec<String>,
    pub output: Option<String>,
    pub body: MethodBody,
}

/// Mathematical image of a `MockMethod`.
pub struct MockMethodView {
    pub name: Seq<char>,
    pub inputs: Seq<Seq<char>>,
    pub output: Option<Seq<char>>,
    pub body: MethodBodyView,
}

impl View for MockMethod {
    type V = MockMethodView;

    open spec fn view(&self) -> MockMethodView {
        MockMethodView {
            name: self.name@,
            inputs: self.inputs.deep_view(),
            output: self.output.deep_view(),
            body: self.body@,
        }
    }
}

impl DeepView for MockMethod {
    type V = MockMethodView;

    open spec fn deep_view(&self) -> MockMethodView {
        self.view()
    }
}

/// The synthesized mock type: its name, the interface it implements, and
/// its methods in interface order.
pub struct MockTypeDescriptor {
    pub name: String,
    pub interface: String,
    pub methods: Vec<MockMethod>,
}

/// Mathematical image of a `MockTypeDescriptor`.
pub struct MockTypeDescriptorView {
    pub name: Seq<char>,
    pub interface: Seq<char>,
    pub methods: Seq<MockMethodView>,
}

impl View for MockTypeDescriptor {
    type V = MockTypeDescriptorView;

    open spec fn view(&self) -> MockTypeDescriptorView {
        MockTypeDescriptorView {
            name: self.name@,
            interface: self.interface@,
            methods: self.methods.deep_view(),
        }
    }
}

/// The canonical failure expression: a method nobody configured evaluates
/// this, which fails at run time only if that method is actually invoked,
/// and never silently yields a default value.
pub open spec fn sentinel_expr() -> Seq<char> {
    "unimplemented!()"@
}

/// The canonical failure expression as text.
pub fn sentinel_expr_text() -> (r: String)
    ensures
        r@ == sentinel_expr(),
{
    String::from_str("unimplemented!()")
}

/// The body synthesis selects for one method, given the expression
/// configured for it, if any.
pub open spec fn spec_mock_method(m: MethodDescriptorView, conf: Option<Seq<char>>) -> MockMethodView {
    MockMethodView {
        name: m.name,
        inputs: m.inputs,
        output: m.output,
        body: match m.output {
            None => MethodBodyView::VoidMarker,
            Some(_) => match conf {
                Some(e) => MethodBodyView::Expr(e),
                None => MethodBodyView::Expr(sentinel_expr()),
            },
        },
    }
}

/// The mock the registry design generates for the type `owner`: one method
/// per interface method, each configured by the override map at
/// `(owner, method name)`.
pub open spec fn spec_generate_mock(
    iface: InterfaceDescriptorView,
    ov: Map<(Seq<char>, Seq<char>), Seq<char>>,
    owner: Seq<char>,
) -> MockTypeDescriptorView {
    MockTypeDescriptorView {
        name: owner,
        interface: iface.name,
        methods: Seq::new(
            iface.methods.len(),
            |i: int|
                spec_mock_method(
                    iface.methods[i],
                    if ov.contains_key((owner, iface.methods[i].name)) {
                        Some(ov[(owner, iface.methods[i].name)])
                    } else {
                        None
                    },
                ),
        ),
    }
}

/// The expression a local override list configures for `name`: the entry
/// written last wins.
pub open spec fn spec_lookup_local(
    overrides: Seq<(Seq<char>, Seq<char>)>,
    name: Seq<char>,
) -> Option<Seq<char>>
    decreases overrides.len(),
{
    if overrides.len() == 0 {
        None
    } else if overrides.last().0 == name {
        Some(overrides.last().1)
    } else {
        spec_lookup_local(overrides.drop_last(), name)
    }
}

/// The mock the self-contained design synthesizes: one method per interface
/// method, each configured by the inline override list.
pub open spec fn spec_synthesize(
    iface: InterfaceDescriptorView,
    overrides: Seq<(Seq<char>, Seq<char>)>,
    mock_name: Seq<char>,
) -> MockTypeDescriptorView {
    MockTypeDescriptorView {
        name: mock_name,
        interface: iface.name,
        methods: Seq::new(
            iface.methods.len(),
            |i: int|
                spec_mock_method(
                    iface.methods[i],
                    spec_lookup_local(overrides, iface.methods[i].name),
                ),
        ),
    }
}

/// The override an inline list supplies for `name`, if any: the entry
/// written last wins.
pub(crate) fn lookup_local<'a>(overrides: &'a Vec<(String, String)>, name: &String) -> (r: Option<&'a String>)
    ensures
        match r {
            Some(e) => spec_lookup_local(overrides.deep_view(), name@) == Some(e@),
            None => spec_lookup_local(overrides.deep_view(), name@) is None,
        },
{
    let ghost dv = overrides.deep_view();
    let mut i: usize = overrides.len();
    proof {
        assert(dv.take(overrides@.len() as int) =~= dv);
    }
    while i > 0
        invariant
            i <= overrides@.len(),
            dv == overrides.deep_view(),
            dv.len() == overrides@.len(),
            spec_lookup_local(dv, name@) == spec_lookup_local(dv.take(i as int), name@),
        decreases i,
    {
        i = i - 1;
        proof {
            assert(dv.take(i + 1).drop_last() =~= dv.take(i as int));
            assert(dv.take(i + 1).last() == dv[i as int]);
        }
        if overrides[i].0.eq(name) {
            return Some(&overrides[i].1);
        }
    }
    assert(dv.take(0) =~= Seq::<(Seq<char>, Seq<char>)>::empty());
    None
}

/// Synthesize the mock type `mock_name` implementing `iface` under the
/// inline override list `overrides`: one method per interface method, in
/// interface order; a method with no return value gets the void marker, a
/// configured method its configured expression, and any other method the
/// canonical failure expression.
pub fn synthesize(
    iface: &InterfaceDescriptor,
    overrides: &Vec<(String, String)>,
    mock_name: String,
) -> (r: MockTypeDescriptor)
    ensures
        r@ == spec_synthesize(iface@, overrides.deep_view(), mock_name@),
{
    let ghost want = spec_synthesize(iface@, overrides.deep_view(), mock_name@);
    let mut methods: Vec<MockMethod> = Vec::new();
    let mut i: usize = 0;
    while i < iface.methods.len()
        invariant
            i <= iface.methods@.len(),
            want == spec_synthesize(iface@, overrides.deep_view(), mock_name@),
            want.methods.len() == iface.methods@.len(),
            methods.deep_view() == want.methods.take(i as int),
        decreases iface.methods@.len() - i,
    {
        let d = iface.methods[i].duplicate();
        let body = if d.output.is_some() {
            match lookup_local(overrides, &d.name) {
                Some(e) => MethodBody::Expr(e.clone()),
                None => MethodBody::Expr(sentinel_expr_text()),
            }
        } else {
            MethodBody::VoidMarker
        };
        let m = MockMethod { name: d.name, inputs: d.inputs, output: d.output, body };
        assert(m@ == want.methods[i as int]);
        let ghost prev = methods.deep_view();
        methods.push(m);
        proof {
            assert(methods.deep_view() =~= prev.push(m@));
            assert(want.methods.take(i + 1) =~= want.methods.take(i as int).push(
                want.methods[i as int],
            ));
        }
        i = i + 1;
    }
    assert(methods.deep_view() =~= want.methods.take(want.methods.len() as int));
    assert(want.methods.take(want.methods.len() as int) =~= want.methods);
    MockTypeDescriptor { name: mock_name, interface: iface.name.clone(), methods }
}

/// Generate the mock type descriptor for the type `owner` implementing the
/// interface registered under `interface_name`. Fails with `LookupError`
/// exactly when no interface of that name was registered; otherwise each
/// method's body is the override registered for `(owner, method)`, the void
/// marker for a method with no return value, or the canonical failure
/// expression.
pub fn generate_mock(
    registry: &Registry,
    owner: &String,
    interface_name: &String,
) -> (r: Result<MockTypeDescriptor, MockError>)
    ensures
        match r {
            Ok(mock) => registry.interfaces_view().contains_key(interface_name@) && mock@
                == spec_generate_mock(
                registry.interfaces_view()[interface_name@],
                registry.overrides_view(),
                owner@,
            ),
            Err(e) => !registry.interfaces_view().contains_key(interface_name@) && e@
                == (MockErrorView::LookupError { interface: interface_name@ }),
        },
{
    let iface = match registry.lookup_interface(interface_name) {
        Some(d) => d,
        None => {
            return Err(MockError::LookupError { interface: interface_name.clone() });
        },
    };
    let ghost iface_v = registry.interfaces_view()[interface_name@];
    let ghost ov = registry.overrides_view();
    let ghost want = spec_generate_mock(iface_v, ov, owner@);
    let mut methods: Vec<MockMethod> = Vec::new();
    let mut i: usize = 0;
    while i < iface.methods.len()
        invariant
            i <= iface.methods@.len(),
            iface@ == iface_v,
            ov == registry.overrides_view(),
            want == spec_generate_mock(iface_v, ov, owner@),
            want.methods.len() == iface.methods@.len(),
            methods.deep_view() == want.methods.take(i as int),
        decreases iface.methods@.len() - i,
    {
        let d = iface.methods[i].duplicate();
        let body = if d.output.is_some() {
            match registry.lookup_override(owner, &d.name) {
                Some(e) => MethodBody::Expr(e.clone()),
                None => MethodBody::Expr(sentinel_expr_text()),
            }
        } else {
            MethodBody::VoidMarker
        };
        let m = MockMethod { name: d.name, inputs: d.inputs, output: d.output, body };
        assert(m@ == want.methods[i as int]);
        let ghost prev = methods.deep_view();
        methods.push(m);
        proof {
            assert(methods.deep_view() =~= prev.push(m@));
            assert(want.methods.take(i + 1) =~= want.methods.take(i as int).push(
                want.methods[i as int],
            ));
        }
        i = i + 1;
    }
    assert(methods.deep_view() =~= want.methods.take(want.methods.len() as int));
    assert(want.methods.take(want.methods.len() as int) =~= want.methods);
    Ok(MockTypeDescriptor { name: owner.clone(), interface: iface.name.clone(), methods })
}

/// Law: a synthesized mock implements exactly the methods of its interface:
/// the same number of methods, with the same names and signatures, in the
/// same order — none added, none removed, none renamed.
pub proof fn lemma_mock_methods_exact(
    iface: InterfaceDescriptorView,
    overrides: Seq<(Seq<char>, Seq<char>)>,
    mock_name: Seq<char>,
)
    ensures
        spec_synthesize(iface, overrides, mock_name).methods.len() == iface.methods.len(),
        forall|i: int|
            0 <= i < iface.methods.len() ==> #[trigger] spec_synthesize(
                iface,
                overrides,
                mock_name,
            ).methods[i].name == iface.methods[i].name,
        forall|i: int|
            0 <= i < iface.methods.len() ==> #[trigger] spec_synthesize(
                iface,
                overrides,
                mock_name,
            ).methods[i].inputs == iface.methods[i].inputs,
        forall|i: int|
            0 <= i < iface.methods.len() ==> #[trigger] spec_synthesize(
                iface,
                overrides,
                mock_name,
            ).methods[i].output == iface.methods[i].output,
{
}

/// Law: a mock generated from the registry implements exactly the methods
/// of its interface: the same number of methods, with the same names and
/// signatures, in the same order — none added, none removed, none renamed.
pub proof fn lemma_generate_methods_exact(
    iface: InterfaceDescriptorView,
    ov: Map<(Seq<char>, Seq<char>), Seq<char>>,
    owner: Seq<char>,
)
    ensures
        spec_generate_mock(iface, ov, owner).methods.len() == iface.methods.len(),
        forall|i: int|
            0 <= i < iface.methods.len() ==> #[trigger] spec_generate_mock(
                iface,
                ov,
                owner,
            ).methods[i].name == iface.methods[i].name,
        forall|i: int|
            0 <= i < iface.methods.len() ==> #[trigger] spec_generate_mock(
                iface,
                ov,
                owner,
            ).methods[i].inputs == iface.methods[i].inputs,
        forall|i: int|
            0 <= i < iface.methods.len() ==> #[trigger] spec_generate_mock(
                iface,
                ov,
                owner,
            ).methods[i].output == iface.methods[i].output,
{
}

/// Law: under the registry design, a method with a registered override for
/// `(owner, name)` gets exactly that expression as its body; a
/// value-returning method with none gets the canonical failure expression,
/// never a silent default; a method with no return value gets the void
/// marker.
pub proof fn lemma_generate_body_selection(
    iface: InterfaceDescriptorView,
    ov: Map<(Seq<char>, Seq<char>), Seq<char>>,
    owner: Seq<char>,
    i: int,
)
    requires
        0 <= i < iface.methods.len(),
    ensures
        iface.methods[i].output is None ==> spec_generate_mock(
            iface,
            ov,
            owner,
        ).methods[i].body is VoidMarker,
        iface.methods[i].output is Some && ov.contains_key((owner, iface.methods[i].name))
            ==> spec_generate_mock(iface, ov, owner).methods[i].body == MethodBodyView::Expr(
            ov[(owner, iface.methods[i].name)],
        ),
        iface.methods[i].output is Some && !ov.contains_key((owner, iface.methods[i].name))
            ==> spec_generate_mock(iface, ov, owner).methods[i].body == MethodBodyView::Expr(
            sentinel_expr(),
        ),
{
}

/// Law: a configured method's body is exactly the configured expression; an
/// unconfigured value-returning method's body is the canonical failure
/// expression, never a silent default; a method with no return value gets
/// the void marker.
pub proof fn lemma_mock_body_selection(
    iface: InterfaceDescriptorView,
    overrides: Seq<(Seq<char>, Seq<char>)>,
    mock_name: Seq<char>,
    i: int,
)
    requires
        0 <= i < iface.methods.len(),
    ensures
        iface.methods[i].output is None ==> spec_synthesize(
            iface,
            overrides,
            mock_name,
        ).methods[i].body is VoidMarker,
        iface.methods[i].output is Some && spec_lookup_local(overrides, iface.methods[i].name)
            is Some ==> spec_synthesize(iface, overrides, mock_name).methods[i].body
            == MethodBodyView::Expr(spec_lookup_local(overrides, iface.methods[i].name)->0),
        iface.methods[i].output is Some && spec_lookup_local(overrides, iface.methods[i].name)
            is None ==> spec_synthesize(iface, overrides, mock_name).methods[i].body
            == MethodBodyView::Expr(sentinel_expr()),
{
}

} // verus!
