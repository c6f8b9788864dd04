//! A static-analysis engine over an immutable syntax-tree graph.
//!
//! The engine walks an append-only node graph (built once per analyzed file
//! by an external parser), dispatches every registered detector over every
//! node in document order, and collects warnings into a diagnostic sink.
//! Two detectors are provided: one flags array-only methods called directly
//! on the implicit argument-collection object, the other flags callbacks
//! handed to array methods of an array constructed with a single numeric
//! length, which holds only empty slots.  A conformance-suite harness keeps
//! the bookkeeping for running an external parser over a corpus of test
//! files.

pub mod bad_array_method_on_arguments;
pub mod diagnostics;
pub mod dispatch;
pub mod graph;
pub mod order;
pub mod span;
pub mod tables;
pub mod text;
pub mod typescript;
pub mod uninvoked_array_callback;

pub use bad_array_method_on_arguments::BadArrayMethodOnArguments;
pub use diagnostics::Diagnostic;
pub use diagnostics::DiagnosticSink;
pub use diagnostics::LabeledSpan;
pub use diagnostics::Severity;
pub use dispatch::analyze;
pub use dispatch::default_detectors;
pub use dispatch::run_detectors;
pub use dispatch::Detector;
pub use graph::ArgShape;
pub use graph::Graph;
pub use graph::KeyExpr;
pub use graph::MemberAccess;
pub use graph::Node;
pub use graph::NodeKind;
pub use graph::Role;
pub use span::Span;
pub use typescript::CompilerSettings;
pub use typescript::TestResult;
pub use typescript::TestUnitData;
pub use typescript::TypeScriptCase;
pub use typescript::TypeScriptSuite;
pub use uninvoked_array_callback::UninvokedArrayCallback;
