//! The emission driver: one entry point per declaration kind, orchestrating
//! extraction, configuration, synthesis and emission, and turning internal
//! failures into the generator's error kinds. The caller re-emits the
//! declaration that was tagged; these functions return only what was newly
//! generated.

use vstd::prelude::*;

use crate::config::{
    parse_config, parse_return_at_args, spec_config_overrides, spec_duplicate_bare,
    spec_find_comma, spec_local_mock_name, spec_return_at_method, spec_return_at_value,
    ConfigEntry,
};
use crate::descriptor::{InterfaceDescriptorView, MethodDescriptorView};
use crate::emit::{emit_impl_block, emit_local_unit, spec_emit_impl_block, spec_emit_local_unit};
use crate::error::{MockError, MockErrorView};
use crate::expr::{expr_is_valid, expr_parses};
use crate::extract::{extract, spec_extract_methods, InterfaceItem};
use crate::registry::Registry;
use crate::synth::{
    generate_mock, lookup_local, spec_generate_mock, spec_lookup_local, spec_synthesize,
    synthesize, MethodBody, MockMethodView, MockTypeDescriptor,
};

verus! {

/// The name of the first method whose configured override fails to parse
/// under the registry design, if any.
pub open spec fn spec_bad_override_global(
    methods: Seq<MethodDescriptorView>,
    ov: Map<(Seq<char>, Seq<char>), Seq<char>>,
    owner: Seq<char>,
) -> Option<Seq<char>>
    decreases methods.len(),
{
    if methods.len() == 0 {
        None
    } else {
        let m = methods.first();
        if m.output is Some && ov.contains_key((owner, m.name)) && !expr_parses(
            ov[(owner, m.name)],
        ) {
            Some(m.name)
        } else {
            spec_bad_override_global(methods.drop_first(), ov, owner)
        }
    }
}

/// The name of the first method whose configured override fails to parse
/// under the self-contained design, if any.
pub open spec fn spec_bad_override_local(
    methods: Seq<MethodDescriptorView>,
    overrides: Seq<(Seq<char>, Seq<char>)>,
) -> Option<Seq<char>>
    decreases methods.len(),
{
    if methods.len() == 0 {
        None
    } else {
        let m = methods.first();
        if m.output is Some && spec_lookup_local(overrides, m.name) is Some && !expr_parses(
            spec_lookup_local(overrides, m.name)->0,
        ) {
            Some(m.name)
        } else {
            spec_bad_override_local(methods.drop_first(), overrides)
        }
    }
}

/// One diagnostic per synthesized method that has no return value, in
/// method order.
pub open spec fn spec_void_errors(ms: Seq<MockMethodView>) -> Seq<MockErrorView>
    decreases ms.len(),
{
    if ms.len() == 0 {
        Seq::empty()
    } else {
        let prev = spec_void_errors(ms.drop_last());
        if ms.last().body is VoidMarker {
            prev.push(MockErrorView::VoidReturnUnsupportedError { method: ms.last().name })
        } else {
            prev
        }
    }
}

/// The void-return diagnostics of a synthesized mock, in method order.
fn void_return_errors(mock: &MockTypeDescriptor) -> (r: Vec<MockError>)
    ensures
        r.deep_view() == spec_void_errors(mock@.methods),
{
    let ghost ms = mock@.methods;
    let mut out: Vec<MockError> = Vec::new();
    let mut i: usize = 0;
    while i < mock.methods.len()
        invariant
            i <= mock.methods@.len(),
            ms == mock@.methods,
            ms.len() == mock.methods@.len(),
            out.deep_view() == spec_void_errors(ms.take(i as int)),
        decreases mock.methods@.len() - i,
    {
        proof {
            assert(ms.take(i + 1).drop_last() =~= ms.take(i as int));
            assert(ms.take(i + 1).last() == ms[i as int]);
        }
        match &mock.methods[i].body {
            MethodBody::VoidMarker => {
                let ghost prev = out.deep_view();
                out.push(
                    MockError::VoidReturnUnsupportedError { method: mock.methods[i].name.clone() },
                );
                proof {
                    assert(out.deep_view() =~= prev.push(
                        MockErrorView::VoidReturnUnsupportedError { method: ms[i as int].name },
                    ));
                }
            },
            MethodBody::Expr(_) => {},
        }
        i = i + 1;
    }
    proof {
        assert(ms.take(ms.len() as int) =~= ms);
    }
    out
}

/// Handle one mark-as-mockable declaration under the registry design:
/// extract the interface's method signatures and record them under its
/// name. The tagged declaration itself is re-emitted unchanged by the
/// caller.
pub fn process_mockable(
    registry: &mut Registry,
    interface_name: String,
    items: &Vec<InterfaceItem>,
)
    ensures
        final(registry).interfaces_view() == old(registry).interfaces_view().insert(
            interface_name@,
            InterfaceDescriptorView {
                name: interface_name@,
                methods: spec_extract_methods(items.deep_view()),
            },
        ),
        final(registry).overrides_view() == old(registry).overrides_view(),
{
    let desc = extract(interface_name.clone(), items);
    registry.register_interface(interface_name, desc);
}

/// Handle one set-return-value declaration under the registry design: parse
/// the `method, expression` argument text and record the expression for
/// `(owner, method)`. Argument text with no comma is malformed: it fails
/// with `ArgumentParseError` and leaves the registry unchanged.
pub fn process_return_at(registry: &mut Registry, owner: &String, args: &str) -> (r: Result<
    (),
    MockError,
>)
    ensures
        match r {
            Ok(u) => spec_find_comma(args@, 0) < args@.len() && final(registry).overrides_view()
                == old(registry).overrides_view().insert(
                (owner@, spec_return_at_method(args@)),
                spec_return_at_value(args@),
            ) && final(registry).interfaces_view() == old(registry).interfaces_view(),
            Err(e) => spec_find_comma(args@, 0) == args@.len() && e@
                == MockErrorView::ArgumentParseError && *final(registry) == *old(registry),
        },
{
    match parse_return_at_args(args) {
        Ok(p) => {
            let (method, value) = p;
            registry.set_return_value(owner.clone(), method, value);
            Ok(())
        },
        Err(e) => Err(e),
    }
}

/// Handle one generate-mock declaration under the registry design: look up
/// the interface registered as `interface_name`, check every configured
/// override a method of it will use, and emit the implements block for the
/// type `owner`. Fails with `LookupError` exactly when the interface was
/// never registered, and with `ExpressionParseError` naming the first
/// method whose configured override is not a valid expression.
pub fn process_mock(registry: &Registry, owner: &String, interface_name: &String) -> (r: Result<
    String,
    MockError,
>)
    ensures
        match r {
            Ok(text) => {
                &&& registry.interfaces_view().contains_key(interface_name@)
                &&& spec_bad_override_global(
                    registry.interfaces_view()[interface_name@].methods,
                    registry.overrides_view(),
                    owner@,
                ) is None
                &&& text@ == spec_emit_impl_block(
                    spec_generate_mock(
                        registry.interfaces_view()[interface_name@],
                        registry.overrides_view(),
                        owner@,
                    ),
                )
            },
            Err(e) => match e@ {
                MockErrorView::LookupError { interface } => {
                    &&& !registry.interfaces_view().contains_key(interface_name@)
                    &&& interface == interface_name@
                },
                MockErrorView::ExpressionParseError { method } => {
                    &&& registry.interfaces_view().contains_key(interface_name@)
                    &&& spec_bad_override_global(
                        registry.interfaces_view()[interface_name@].methods,
                        registry.overrides_view(),
                        owner@,
                    ) == Some(method)
                },
                _ => false,
            },
        },
{
    let iface = match registry.lookup_interface(interface_name) {
        Some(d) => d,
        None => {
            return Err(MockError::LookupError { interface: interface_name.clone() });
        },
    };
    let ghost ms = iface@.methods;
    let ghost ov = registry.overrides_view();
    proof {
        assert(ms.skip(0) =~= ms);
    }
    let mut i: usize = 0;
    while i < iface.methods.len()
        invariant
            i <= iface.methods@.len(),
            ms == iface@.methods,
            ms.len() == iface.methods@.len(),
            ov == registry.overrides_view(),
            iface@ == registry.interfaces_view()[interface_name@],
            registry.interfaces_view().contains_key(interface_name@),
            spec_bad_override_global(ms, ov, owner@) == spec_bad_override_global(
                ms.skip(i as int),
                ov,
                owner@,
            ),
        decreases iface.methods@.len() - i,
    {
        proof {
            assert(ms.skip(i as int).drop_first() =~= ms.skip(i + 1));
            assert(ms.skip(i as int).first() == ms[i as int]);
        }
        let m = &iface.methods[i];
        if m.output.is_some() {
            match registry.lookup_override(owner, &m.name) {
                Some(e) => {
                    if !expr_is_valid(e.as_str()) {
                        proof {
                            assert(ov.contains_key((owner@, ms[i as int].name)));
                            assert(!expr_parses(ov[(owner@, ms[i as int].name)]));
                            assert(spec_bad_override_global(ms.skip(i as int), ov, owner@)
                                == Some(ms[i as int].name));
                        }
                        return Err(MockError::ExpressionParseError { method: m.name.clone() });
                    }
                },
                None => {},
            }
        }
        i = i + 1;
    }
    proof {
        assert(ms.skip(ms.len() as int) =~= Seq::<MethodDescriptorView>::empty());
    }
    let mock = match generate_mock(registry, owner, interface_name) {
        Ok(m) => m,
        Err(e) => {
            return Err(e);
        },
    };
    Ok(emit_impl_block(&mock))
}

/// Handle one mark-as-mockable declaration under the self-contained design:
/// extract the interface's signatures, parse the inline configuration,
/// check every configured override a method will use, and emit a fresh mock
/// type with its implements block, together with one
/// `VoidReturnUnsupportedError` diagnostic per method that has no return
/// value. Fails with `DuplicateMockNameError` on a second bare name entry,
/// and with `ExpressionParseError` naming the first method whose configured
/// override is not a valid expression.
pub fn process_mockable_local(
    interface_name: String,
    items: &Vec<InterfaceItem>,
    entries: &Vec<ConfigEntry>,
) -> (r: Result<(String, Vec<MockError>), MockError>)
    ensures
        ({
            let iface_v = InterfaceDescriptorView {
                name: interface_name@,
                methods: spec_extract_methods(items.deep_view()),
            };
            let ovs = spec_config_overrides(entries.deep_view());
            let mock_v = spec_synthesize(
                iface_v,
                ovs,
                spec_local_mock_name(entries.deep_view(), interface_name@),
            );
            match r {
                Ok(p) => {
                    &&& spec_duplicate_bare(entries.deep_view()) is None
                    &&& spec_bad_override_local(iface_v.methods, ovs) is None
                    &&& p.0@ == spec_emit_local_unit(mock_v)
                    &&& p.1.deep_view() == spec_void_errors(mock_v.methods)
                },
                Err(e) => match e@ {
                    MockErrorView::DuplicateMockNameError { name } => spec_duplicate_bare(
                        entries.deep_view(),
                    ) == Some(name),
                    MockErrorView::ExpressionParseError { method } => {
                        &&& spec_duplicate_bare(entries.deep_view()) is None
                        &&& spec_bad_override_local(iface_v.methods, ovs) == Some(method)
                    },
                    _ => false,
                },
            }
        }),
{
    let desc = extract(interface_name.clone(), items);
    let cfg = match parse_config(entries, &interface_name) {
        Ok(c) => c,
        Err(e) => {
            return Err(e);
        },
    };
    let ghost ms = desc@.methods;
    let ghost ovs = cfg.overrides.deep_view();
    proof {
        assert(ms.skip(0) =~= ms);
    }
    let mut i: usize = 0;
    while i < desc.methods.len()
        invariant
            i <= desc.methods@.len(),
            ms == desc@.methods,
            ms.len() == desc.methods@.len(),
            ovs == cfg.overrides.deep_view(),
            ovs == spec_config_overrides(entries.deep_view()),
            ms == spec_extract_methods(items.deep_view()),
            spec_duplicate_bare(entries.deep_view()) is None,
            spec_bad_override_local(ms, ovs) == spec_bad_override_local(ms.skip(i as int), ovs),
        decreases desc.methods@.len() - i,
    {
        proof {
            assert(ms.skip(i as int).drop_first() =~= ms.skip(i + 1));
            assert(ms.skip(i as int).first() == ms[i as int]);
        }
        let m = &desc.methods[i];
        if m.output.is_some() {
            match lookup_local(&cfg.overrides, &m.name) {
                Some(e) => {
                    if !expr_is_valid(e.as_str()) {
                        proof {
                            assert(spec_lookup_local(ovs, ms[i as int].name) == Some(e@));
                            assert(spec_bad_override_local(ms.skip(i as int), ovs)
                                == Some(ms[i as int].name));
                        }
                        return Err(MockError::ExpressionParseError { method: m.name.clone() });
                    }
                },
                None => {},
            }
        }
        i = i + 1;
    }
    proof {
        assert(ms.skip(ms.len() as int) =~= Seq::<MethodDescriptorView>::empty());
    }
    let mock = synthesize(&desc, &cfg.overrides, cfg.mock_name);
    let diagnostics = void_return_errors(&mock);
    let text = emit_local_unit(&mock);
    Ok((text, diagnostics))
}

/// Law: generation is deterministic under the registry design. Identical
/// interface, identical override state and identical mock type name give
/// byte-identical generated text.
pub proof fn lemma_global_generation_deterministic(
    iface1: InterfaceDescriptorView,
    ov1: Map<(Seq<char>, Seq<char>), Seq<char>>,
    owner1: Seq<char>,
    iface2: InterfaceDescriptorView,
    ov2: Map<(Seq<char>, Seq<char>), Seq<char>>,
    owner2: Seq<char>,
)
    requires
        iface1 == iface2,
        ov1 == ov2,
        owner1 == owner2,
    ensures
        spec_emit_impl_block(spec_generate_mock(iface1, ov1, owner1)) == spec_emit_impl_block(
            spec_generate_mock(iface2, ov2, owner2),
        ),
{
}

/// Law: generation is deterministic under the self-contained design.
/// Identical interface, identical inline overrides and identical mock type
/// name give byte-identical generated text.
pub proof fn lemma_local_generation_deterministic(
    iface1: InterfaceDescriptorView,
    ovs1: Seq<(Seq<char>, Seq<char>)>,
    name1: Seq<char>,
    iface2: InterfaceDescriptorView,
    ovs2: Seq<(Seq<char>, Seq<char>)>,
    name2: Seq<char>,
)
    requires
        iface1 == iface2,
        ovs1 == ovs2,
        name1 == name2,
    ensures
        spec_emit_local_unit(spec_synthesize(iface1, ovs1, name1)) == spec_emit_local_unit(
            spec_synthesize(iface2, ovs2, name2),
        ),
{
}

/// Law: registering an interface makes exactly that name generable. Before
/// any registration the table holds nothing, so a generate request fails
/// its lookup; after inserting `name` the lookup succeeds and yields the
/// registered descriptor.
pub proof fn lemma_register_enables_generate(
    m: Map<Seq<char>, InterfaceDescriptorView>,
    name: Seq<char>,
    d: InterfaceDescriptorView,
)
    ensures
        m.insert(name, d).contains_key(name),
        m.insert(name, d)[name] == d,
        !Map::<Seq<char>, InterfaceDescriptorView>::empty().contains_key(name),
{
}

} // verus!
