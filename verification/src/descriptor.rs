//! Method and interface descriptors: the data extracted from an interface
//! declaration, with parameter and return-type text kept opaque.

use vstd::prelude::*;

verus! {

/// One method signature taken from an interface declaration: its name, its
/// parameter list kept as opaque source text, and its return-type text
/// (`None` when the method declares no return value).
pub struct MethodDescriptor {
    pub name: String,
    pub inputs: Vec<String>,
    pub output: Option<String>,
}

/// Mathematical image of a `MethodDescriptor`.
pub struct MethodDescriptorView {
    pub name: Seq<char>,
    pub inputs: Seq<Seq<char>>,
    pub output: Option<Seq<char>>,
}

impl View for MethodDescriptor {
    type V = MethodDescriptorView;

    open spec fn view(&self) -> MethodDescriptorView {
        MethodDescriptorView {
            name: self.name@,
            inputs: self.inputs.deep_view(),
            output: self.output.deep_view(),
        }
    }
}

impl DeepView for MethodDescriptor {
    type V = MethodDescriptorView;

    open spec fn deep_view(&self) -> MethodDescriptorView {
        self.view()
    }
}

impl MethodDescriptor {
    /// An exact copy, with its view preserved.
    pub fn duplicate(&self) -> (r: MethodDescriptor)
        ensures
            r@ == self@,
    {
        let name = self.name.clone();
        let mut inputs: Vec<String> = Vec::new();
        let mut i: usize = 0;
        while i < self.inputs.len()
            invariant
                i <= self.inputs.len(),
                inputs@ == self.inputs@.take(i as int),
            decreases self.inputs.len() - i,
        {
            let s = self.inputs[i].clone();
            inputs.push(s);
            assert(inputs@ =~= self.inputs@.take(i + 1));
            i = i + 1;
        }
        assert(inputs@ =~= self.inputs@);
        let output = match &self.output {
            Some(t) => Some(t.clone()),
            None => None,
        };
        MethodDescriptor { name, inputs, output }
    }
}

/// A named, ordered set of method signatures: everything the generator
/// needs to know about one interface declaration.
pub struct InterfaceDescriptor {
    pub name: String,
    pub methods: Vec<MethodDescriptor>,
}

/// Mathematical image of an `InterfaceDescriptor`.
pub struct InterfaceDescriptorView {
    pub name: Seq<char>,
    pub methods: Seq<MethodDescriptorView>,
}

impl View for InterfaceDescriptor {
    type V = InterfaceDescriptorView;

    open spec fn view(&self) -> InterfaceDescriptorView {
        InterfaceDescriptorView { name: self.name@, methods: self.methods.deep_view() }
    }
}

} // verus!
