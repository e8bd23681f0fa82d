use vstd::prelude::*;

use crate::value::{AnyValueKind, ValueData};

verus! {

/// Whether an encoded argument denotes SQL `NULL`.
#[derive(Debug, Clone, Copy, PartialEq, Eq, Structural)]
pub enum IsNull {
    Yes,
    No,
}

/// The ordered argument buffer of a statement being built.
#[derive(Debug, Clone)]
pub struct AnyArguments<'q> {
    pub values: Vec<AnyValueKind<'q>>,
}

impl<'q> View for AnyArguments<'q> {
    type V = Seq<ValueData>;

    open spec fn view(&self) -> Seq<ValueData> {
        self.values@.map_values(|v: AnyValueKind<'q>| v@)
    }
}

impl<'q> AnyArguments<'q> {
    /// An empty buffer.
    pub fn new() -> (r: AnyArguments<'q>)
        ensures
            r@ == Seq::<ValueData>::empty(),
    {
        let r = AnyArguments { values: Vec::new() };
        assert(r@ =~= Seq::<ValueData>::empty());
        r
    }

    /// The number of arguments in the buffer.
    pub fn len(&self) -> (r: usize)
        ensures
            r == self@.len(),
    {
        self.values.len()
    }

    /// Appends one value after those already in the buffer.
    pub fn add(&mut self, value: AnyValueKind<'q>)
        ensures
            final(self)@ == old(self)@.push(value@),
            final(self).values@ == old(self).values@.push(value),
    {
        self.values.push(value);
        assert(self@ =~= old(self)@.push(value@));
    }
}

} // verus!
