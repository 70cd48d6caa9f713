//! The recursive model of JVM types and their textual renderings.

use vstd::prelude::*;
use vstd::string::StringExecFns;

use crate::descriptor::class_name::{to_binary, ClassName};
use crate::text::{push_char, push_chars};

verus! {

/// A JVM type.
#[derive(Debug, PartialEq, Eq, Hash)]
pub enum Type {
    /// A named object type (`L<class name>;`).
    Object(ClassName),
    /// An array of a nested type (`[<nested type>`).
    Array(Box<Type>),
    /// The primitive type `byte` (`B`).
    /// Corresponds to Rust's `i8`.
    Byte,
    /// The primitive type `short` (`S`).
    /// Corresponds to Rust's `i16`.
    Short,
    /// The primitive type `int` (`I`).
    /// Corresponds to Rust's `i32`.
    Int,
    /// The primitive type `long` (`J`).
    /// Corresponds to Rust's `i64`.
    ///
    /// `long` occupies two method argument indices.
    Long,
    /// The primitive type `float` (`F`).
    Float,
    /// The primitive type `double` (`D`).
    ///
    /// `double` occupies two method argument indices.
    Double,
    /// The primitive type `boolean` (`Z`).
    /// Corresponds to Rust's `bool`.
    Boolean,
    /// The primitive type `char` (`C`).
    Char,
    /// The pseudo-type `void` (`V`).
    Void,
}

impl Clone for Type {
    fn clone(&self) -> (r: Self)
        ensures
            r == *self,
        decreases *self,
    {
        match self {
            Type::Object(name) => Type::Object(name.clone()),
            Type::Array(element_type) => Type::Array(Box::new((&**element_type).clone())),
            Type::Byte => Type::Byte,
            Type::Short => Type::Short,
            Type::Int => Type::Int,
            Type::Long => Type::Long,
            Type::Float => Type::Float,
            Type::Double => Type::Double,
            Type::Boolean => Type::Boolean,
            Type::Char => Type::Char,
            Type::Void => Type::Void,
        }
    }
}

impl Type {
    /// The JVM bytecode descriptor of a type: `L<internal name>;` for an
    /// object, `[` followed by the element's descriptor for an array, and a
    /// single letter for each primitive and for `void`.
    pub open spec fn spec_descriptor(self) -> Seq<char>
        decreases self,
    {
        match self {
            Type::Object(name) => seq!['L'] + name@ + seq![';'],
            Type::Array(element_type) => seq!['['] + element_type.spec_descriptor(),
            Type::Byte => seq!['B'],
            Type::Short => seq!['S'],
            Type::Int => seq!['I'],
            Type::Long => seq!['J'],
            Type::Float => seq!['F'],
            Type::Double => seq!['D'],
            Type::Boolean => seq!['Z'],
            Type::Char => seq!['C'],
            Type::Void => seq!['V'],
        }
    }

    /// The name a type uses in Java source: the dotted binary name for an
    /// object, the element's name followed by `[]` for an array, and the
    /// lowercase keyword for each primitive and for `void`.
    pub open spec fn spec_java_name(self) -> Seq<char>
        decreases self,
    {
        match self {
            Type::Object(name) => to_binary(name@),
            Type::Array(element_type) => element_type.spec_java_name() + seq!['[', ']'],
            Type::Byte => seq!['b', 'y', 't', 'e'],
            Type::Short => seq!['s', 'h', 'o', 'r', 't'],
            Type::Int => seq!['i', 'n', 't'],
            Type::Long => seq!['l', 'o', 'n', 'g'],
            Type::Float => seq!['f', 'l', 'o', 'a', 't'],
            Type::Double => seq!['d', 'o', 'u', 'b', 'l', 'e'],
            Type::Boolean => seq!['b', 'o', 'o', 'l', 'e', 'a', 'n'],
            Type::Char => seq!['c', 'h', 'a', 'r'],
            Type::Void => seq!['v', 'o', 'i', 'd'],
        }
    }

    /// The count of nested `Array` wrappers: 0 for every non-array type,
    /// one more than the element's depth for an array.
    pub open spec fn spec_array_depth(self) -> nat
        decreases self,
    {
        match self {
            Type::Array(element_type) => 1 + element_type.spec_array_depth(),
            _ => 0,
        }
    }

    /// An array type with this type as its element.
    pub open spec fn spec_array(self) -> Type {
        Type::Array(Box::new(self))
    }

    /// Gets the JVM bytecode descriptor for this type.
    pub fn descriptor(&self) -> (r: String)
        ensures
            r@ == self.spec_descriptor(),
        decreases *self,
    {
        match self {
            Type::Object(name) => {
                let mut s = String::new();
                push_char(&mut s, 'L');
                s.append(name.internal_name());
                push_char(&mut s, ';');
                s
            },
            Type::Array(element_type) => {
                let mut s = String::new();
                push_char(&mut s, '[');
                let element = (&**element_type).descriptor();
                s.append(element.as_str());
                s
            },
            Type::Byte => single_char_string('B'),
            Type::Short => single_char_string('S'),
            Type::Int => single_char_string('I'),
            Type::Long => single_char_string('J'),
            Type::Float => single_char_string('F'),
            Type::Double => single_char_string('D'),
            Type::Boolean => single_char_string('Z'),
            Type::Char => single_char_string('C'),
            Type::Void => single_char_string('V'),
        }
    }

    /// Gets the name this type would use in Java.
    pub fn java_name(&self) -> (r: String)
        ensures
            r@ == self.spec_java_name(),
        decreases *self,
    {
        match self {
            Type::Object(name) => name.binary_name(),
            Type::Array(element_type) => {
                let mut s = (&**element_type).java_name();
                push_char(&mut s, '[');
                push_char(&mut s, ']');
                s
            },
            Type::Byte => keyword_string(['b', 'y', 't', 'e'].as_slice()),
            Type::Short => keyword_string(['s', 'h', 'o', 'r', 't'].as_slice()),
            Type::Int => keyword_string(['i', 'n', 't'].as_slice()),
            Type::Long => keyword_string(['l', 'o', 'n', 'g'].as_slice()),
            Type::Float => keyword_string(['f', 'l', 'o', 'a', 't'].as_slice()),
            Type::Double => keyword_string(['d', 'o', 'u', 'b', 'l', 'e'].as_slice()),
            Type::Boolean => keyword_string(['b', 'o', 'o', 'l', 'e', 'a', 'n'].as_slice()),
            Type::Char => keyword_string(['c', 'h', 'a', 'r'].as_slice()),
            Type::Void => keyword_string(['v', 'o', 'i', 'd'].as_slice()),
        }
    }

    /// Returns an array type containing this type as its element type.
    pub fn array(&self) -> (r: Self)
        ensures
            r == self.spec_array(),
    {
        Type::Array(Box::new(self.clone()))
    }

    /// Returns the depth of array layers in this type.
    ///
    /// All non-array types return 0. Arrays return 1 + their element type's
    /// array depth.
    pub fn array_depth(&self) -> (r: u32)
        requires
            self.spec_array_depth() <= u32::MAX,
        ensures
            r == self.spec_array_depth(),
        decreases *self,
    {
        match self {
            Type::Array(element_type) => 1 + (&**element_type).array_depth(),
            _ => 0,
        }
    }
}

/// A string holding exactly one character.
fn single_char_string(c: char) -> (r: String)
    ensures
        r@ == seq![c],
{
    let mut s = String::new();
    push_char(&mut s, c);
    s
}

/// A string holding exactly the given characters.
fn keyword_string(chars: &[char]) -> (r: String)
    ensures
        r@ == chars@,
{
    let mut s = String::new();
    push_chars(&mut s, chars);
    s
}

/// The type `t` wrapped in `k` array layers: `array()` applied `k` times.
pub open spec fn spec_arrayed(t: Type, k: nat) -> Type
    decreases k,
{
    if k == 0 {
        t
    } else {
        spec_arrayed(t, (k - 1) as nat).spec_array()
    }
}

/// `k` copies of the Java array suffix `[]`.
pub open spec fn spec_brackets(k: nat) -> Seq<char>
    decreases k,
{
    if k == 0 {
        Seq::empty()
    } else {
        spec_brackets((k - 1) as nat) + seq!['[', ']']
    }
}

/// Wrapping a type in `k` array layers adds exactly `k` to its array depth
/// and appends exactly `k` `[]` suffixes to its Java name. In particular a
/// non-array type wrapped `k` times has array depth `k`.
pub proof fn lemma_arrayed(t: Type, k: nat)
    ensures
        spec_arrayed(t, k).spec_array_depth() == t.spec_array_depth() + k,
        spec_arrayed(t, k).spec_java_name() == t.spec_java_name() + spec_brackets(k),
    decreases k,
{
    if k == 0 {
        assert(t.spec_java_name() + spec_brackets(0) =~= t.spec_java_name());
    } else {
        lemma_arrayed(t, (k - 1) as nat);
        assert(spec_arrayed(t, k).spec_java_name()
            =~= t.spec_java_name() + spec_brackets(k));
    }
}

} // verus!
