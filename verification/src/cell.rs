use vstd::prelude::*;

verus! {

/// The one in-memory slot of the service: absent, or holding a price.
///
/// Its view is the optional value it holds: `None` when no price is set
/// (the initial state, and the state after a clear), `Some(v)` when the
/// price `v` is set.
pub struct PriceCell {
    value: Option<u64>,
}

impl View for PriceCell {
    type V = Option<u64>;

    closed spec fn view(&self) -> Option<u64> {
        self.value
    }
}

impl PriceCell {
    /// A fresh cell is absent: no price has been set yet.
    pub fn new() -> (cell: Self)
        ensures
            cell@ is None,
    {
        PriceCell { value: None }
    }

    /// Read the current value; the cell is unchanged.
    pub fn read(&self) -> (r: Option<u64>)
        ensures
            r == self@,
    {
        self.value
    }

    /// Overwrite the cell with `price`, whatever it held before.
    pub fn replace(&mut self, price: u64)
        ensures
            final(self)@ == Some(price),
    {
        self.value = Some(price);
    }

    /// Reset the cell to absent, whatever it held before.
    pub fn clear(&mut self)
        ensures
            final(self)@ is None,
    {
        self.value = None;
    }
}

} // verus!
