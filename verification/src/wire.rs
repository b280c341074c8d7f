use vstd::prelude::*;

verus! {

/// Mathematical model of a wire-ready JSON value.
///
/// An integer value is a single mathematical number: the wire format does not
/// distinguish a count written from a signed source from the same count
/// written from an unsigned one. A floating value is carried by the 64 bits
/// of its IEEE-754 pattern; no contract of this crate pins which pattern a
/// given wire number carries, so floating values are reasoned about only
/// through the names given to what the JSON library returns.
#[verifier::ext_equal]
pub enum WireValue {
    Bool(bool),
    Str(Seq<char>),
    Num(int),
    Float(u64),
    Arr(Seq<WireValue>),
    Obj(Map<Seq<char>, WireValue>),
}

} // verus!
