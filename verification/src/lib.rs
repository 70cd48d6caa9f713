//! JVM obfuscation mappings: class/member renames across namespaces,
//! streamed through a push-based visitor protocol.
//!
//! The crate models JVM class names and type descriptors, defines the
//! [`visitor::MappingVisitor`] protocol through which mapping producers feed
//! mapping consumers, and ships a reference consumer, the Tiny v2 text
//! writer, together with an in-memory mapping tree and a driver that walks
//! the tree while honouring the protocol's skip and multi-pass rules.

use vstd::prelude::*;

pub mod descriptor;
pub mod format;
pub mod tree;
pub mod visitor;
pub mod text;

verus! {

/// The kind of a mappable element in a mapping file.
#[derive(Clone, Copy, Debug, PartialEq, Eq, Hash, Structural)]
pub enum MappedElementKind {
    /// A class (includes interfaces, annotations, enums etc.).
    /// Top-level and nested classes are not differentiated.
    Class,
    /// A field.
    Field,
    /// A method.
    Method,
    /// A method's argument.
    MethodArg,
    /// A method's local variable.
    MethodVar,
}

impl MappedElementKind {
    /// The nesting level of this element kind, as a mathematical value.
    /// Classes are 0, members are 1 and attributes of members are 2.
    pub open spec fn spec_level(self) -> nat {
        match self {
            MappedElementKind::Class => 0,
            MappedElementKind::Field => 1,
            MappedElementKind::Method => 1,
            MappedElementKind::MethodArg => 2,
            MappedElementKind::MethodVar => 2,
        }
    }

    /// Returns the nesting level of this element kind.
    /// Classes are 0, members are 1 and attributes of members are 2.
    pub fn level(&self) -> (r: u32)
        ensures
            r == self.spec_level(),
    {
        match self {
            MappedElementKind::Class => 0,
            MappedElementKind::Field => 1,
            MappedElementKind::Method => 1,
            MappedElementKind::MethodArg => 2,
            MappedElementKind::MethodVar => 2,
        }
    }
}

} // verus!
