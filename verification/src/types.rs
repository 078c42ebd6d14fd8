//! The closed sets of wire tokens the server understands — column types
//! for the import schema string and the atomicity mode of an import — and
//! the paging bound of a query.

use vstd::prelude::*;

use crate::num::dec_seq;

verus! {

/// The `limit` parameter of a query, used for paging: either a single
/// upper bound `N`, which the server reads as `0,N`, or a `lower,upper`
/// pair of row numbers.
#[derive(Clone, Copy, Debug, PartialEq, Eq, Structural)]
pub enum Limit {
    Upper(usize),
    Range(usize, usize),
}

impl Limit {
    /// The wire rendering: the bound, or the pair joined by a comma.
    pub open spec fn wire_spec(self) -> Seq<char> {
        match self {
            Limit::Upper(n) => dec_seq(n as int),
            Limit::Range(lo, hi) => dec_seq(lo as int) + ","@ + dec_seq(hi as int),
        }
    }
}

/// Atomicity mode of a bulk import, sent as a lowercase query parameter.
#[derive(Clone, Copy, Debug, PartialEq, Eq, Structural)]
pub enum Atomicity {
    Strict,
    Relaxed,
}

impl Atomicity {
    /// The exact token sent on the wire for this mode.
    pub open spec fn wire_spec(self) -> Seq<char> {
        match self {
            Atomicity::Strict => "strict"@,
            Atomicity::Relaxed => "relaxed"@,
        }
    }

    /// Lowercase wire token: this mapping is wire format, not cosmetic.
    pub fn wire_str(&self) -> (r: &'static str)
        ensures
            r@ == self.wire_spec(),
    {
        match self {
            Atomicity::Strict => "strict",
            Atomicity::Relaxed => "relaxed",
        }
    }
}

/// A QuestDB column type, as declared in the import schema string.
#[derive(Clone, Copy, Debug, PartialEq, Eq, Structural)]
pub enum Schema {
    Boolean,
    Byte,
    Short,
    Char,
    Int,
    Float,
    Symbol,
    String,
    Long,
    Date,
    Timestamp,
    Double,
    Binary,
    Long256,
}

impl Schema {
    /// The exact uppercase token sent on the wire for this column type.
    pub open spec fn wire_spec(self) -> Seq<char> {
        match self {
            Schema::Boolean => "BOOLEAN"@,
            Schema::Byte => "BYTE"@,
            Schema::Short => "SHORT"@,
            Schema::Char => "CHAR"@,
            Schema::Int => "INT"@,
            Schema::Float => "FLOAT"@,
            Schema::Symbol => "SYMBOL"@,
            Schema::String => "STRING"@,
            Schema::Long => "LONG"@,
            Schema::Date => "DATE"@,
            Schema::Timestamp => "TIMESTAMP"@,
            Schema::Double => "DOUBLE"@,
            Schema::Binary => "BINARY"@,
            Schema::Long256 => "LONG256"@,
        }
    }

    /// Uppercase wire token: this mapping is wire format, not cosmetic.
    pub fn wire_str(&self) -> (r: &'static str)
        ensures
            r@ == self.wire_spec(),
    {
        match self {
            Schema::Boolean => "BOOLEAN",
            Schema::Byte => "BYTE",
            Schema::Short => "SHORT",
            Schema::Char => "CHAR",
            Schema::Int => "INT",
            Schema::Float => "FLOAT",
            Schema::Symbol => "SYMBOL",
            Schema::String => "STRING",
            Schema::Long => "LONG",
            Schema::Date => "DATE",
            Schema::Timestamp => "TIMESTAMP",
            Schema::Double => "DOUBLE",
            Schema::Binary => "BINARY",
            Schema::Long256 => "LONG256",
        }
    }
}

} // verus!
