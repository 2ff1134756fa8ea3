//! Structural definitions of the logical data model that sits above pages.
//! The buffer pool treats page contents as opaque bytes; these types describe
//! how higher layers will label those bytes. Typed runtime values (which
//! include floating-point variants) live outside the verified library.

use vstd::prelude::*;

verus! {

/// A column type of the logical data model.
pub enum Type {
    Char(u16),
    Varchar(u16),
    Tiny,
    Short,
    Int,
    BigInt,
    UnsignedTiny,
    UnsignedShort,
    UnsignedInt,
    UnsignedBigInt,
    Float,
    Double,
    Decimal(u8),
    Bool,
    /// Lookup by enum name.
    Enum(String),
    /// Lookup by struct name.
    Struct(String),
}

/// An ordered list of column types.
pub struct Schema {
    types: Vec<Type>,
}

impl Schema {
    /// The schema's column types.
    pub closed spec fn spec_types(&self) -> Seq<Type> {
        self.types@
    }

    /// A schema over the given column types.
    pub fn new(types: Vec<Type>) -> (r: Schema)
        ensures
            r.spec_types() == types@,
    {
        Schema { types }
    }

    /// How many columns the schema has.
    pub fn len(&self) -> (r: usize)
        ensures
            r == self.spec_types().len(),
    {
        self.types.len()
    }
}

} // verus!
