//! Type tags of the ledger's type system, held as their text.

use crate::types::object::hex_literal;
use crate::types::object::ObjectID;
use vstd::prelude::*;
use vstd::string::StringExecFns;

verus! {

/// The text of a type of the ledger's type system, such as `vector<u8>`.
#[derive(Debug, Clone, PartialEq, Eq)]
pub struct TypeTag {
    pub text: String,
}

impl View for TypeTag {
    type V = Seq<char>;

    open spec fn view(&self) -> Seq<char> {
        self.text@
    }
}

/// The bytes of the identifier of the package that holds the ledger's standard library:
/// 31 zero bytes, then a one.
pub open spec fn stdlib_package_id() -> Seq<u8> {
    Seq::new(32, |i: int| if i == 31 { 1u8 } else { 0u8 })
}

/// The text of the type of a byte vector.
pub open spec fn byte_vector_type() -> Seq<char> {
    "vector<u8>"@
}

/// The text of the type of a string of the standard library.
pub open spec fn string_type() -> Seq<char> {
    hex_literal(stdlib_package_id()) + "::string::String"@
}

/// The text of the type of a time lock as the package `package` defines it.
pub open spec fn timelock_type(package: Seq<u8>) -> Seq<char> {
    hex_literal(package) + "::timelock::TimeLock"@
}

impl TypeTag {
    /// The tag with the given text.
    pub fn new(text: String) -> (tag: Self)
        ensures
            tag@ == text@,
    {
        TypeTag { text }
    }

    /// The type of a byte vector.
    pub fn byte_vector() -> (tag: Self)
        ensures
            tag@ == byte_vector_type(),
    {
        TypeTag { text: String::from_str("vector<u8>") }
    }

    /// The type of a string of the standard library.
    pub fn string() -> (tag: Self)
        ensures
            tag@ == string_type(),
    {
        let mut bytes: [u8; 32] = [0u8; 32];
        bytes[31] = 1;
        let package = ObjectID::new(bytes);
        assert(package@ =~= stdlib_package_id());
        TypeTag { text: package.to_hex_literal().concat("::string::String") }
    }

    /// The type of a time lock as the package `package` defines it.
    pub fn timelock(package: &ObjectID) -> (tag: Self)
        ensures
            tag@ == timelock_type(package@),
    {
        TypeTag { text: package.to_hex_literal().concat("::timelock::TimeLock") }
    }

    /// A copy of the tag.
    pub fn duplicate(&self) -> (tag: Self)
        ensures
            tag@ == self@,
    {
        TypeTag { text: self.text.clone() }
    }
}

} // verus!
