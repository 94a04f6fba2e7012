//! The error kinds the generator reports.

use vstd::prelude::*;

verus! {

/// Everything that can go wrong while processing a declaration.
#[derive(Debug)]
pub enum MockError {
    /// A generate-mock request named an interface that was never registered.
    LookupError { interface: String },
    /// More than one bare name argument was supplied where at most one mock
    /// type name is allowed.
    DuplicateMockNameError { name: String },
    /// A method with no return value cannot be mocked. Reported per method,
    /// while the surrounding mock type is still produced.
    VoidReturnUnsupportedError { method: String },
    /// A configured return expression is not a valid expression of the host
    /// grammar.
    ExpressionParseError { method: String },
    /// Malformed inline configuration arguments.
    ArgumentParseError,
}

/// Mathematical image of a `MockError`.
pub enum MockErrorView {
    LookupError { interface: Seq<char> },
    DuplicateMockNameError { name: Seq<char> },
    VoidReturnUnsupportedError { method: Seq<char> },
    ExpressionParseError { method: Seq<char> },
    ArgumentParseError,
}

impl View for MockError {
    type V = MockErrorView;

    open spec fn view(&self) -> MockErrorView {
        match self {
            MockError::LookupError { interface } => MockErrorView::LookupError {
                interface: interface@,
            },
            MockError::DuplicateMockNameError { name } => MockErrorView::DuplicateMockNameError {
                name: name@,
            },
            MockError::VoidReturnUnsupportedError { method } =>
                MockErrorView::VoidReturnUnsupportedError { method: method@ },
            MockError::ExpressionParseError { method } => MockErrorView::ExpressionParseError {
                method: method@,
            },
            MockError::ArgumentParseError => MockErrorView::ArgumentParseError,
        }
    }
}

impl DeepView for MockError {
    type V = MockErrorView;

    open spec fn deep_view(&self) -> MockErrorView {
        self.view()
    }
}

} // verus!
