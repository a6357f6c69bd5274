//! The decoding side of a text-based interchange format: a visitor that
//! expects a text scalar and hands it to the text constructor of the type
//! it stands for.

use crate::code::FourCC;
use core::marker::PhantomData;
use vstd::prelude::*;
use vstd::string::StringSliceAdditionalSpecFns;

verus! {

/// A visitor for a value of type `T` that is written as a text scalar.
pub struct FromStrVisitor<T> {
    /// What the visitor expects, for the message of a type mismatch.
    pub expecting: &'static str,
    /// The type that the text is parsed into.
    pub ty: PhantomData<T>,
}

impl<T> FromStrVisitor<T> {
    /// A visitor that says of itself that it expects `expecting`.
    pub fn new(expecting: &'static str) -> (v: Self)
        ensures
            v.expecting@ == expecting@,
    {
        FromStrVisitor { expecting: expecting, ty: PhantomData }
    }

    /// What the visitor expects.
    pub fn expecting(&self) -> (e: &'static str)
        ensures
            e@ == self.expecting@,
    {
        self.expecting
    }
}

impl FromStrVisitor<FourCC> {
    /// What the visitor makes of a text scalar: the code that the text
    /// constructor gives, or its error, the length that was found. So a
    /// text is accepted exactly when it is four octets long.
    pub fn visit_str(&self, s: &str) -> (r: Result<FourCC, u32>)
        ensures
            s.spec_bytes().len() == 4 ==> r == Ok::<FourCC, u32>(FourCC::of_seq(s.spec_bytes())),
            s.spec_bytes().len() != 4 ==> r == Err::<FourCC, u32>(
                FourCC::reported_len(s.spec_bytes().len()),
            ),
    {
        FourCC::from_str(s)
    }
}

} // verus!
