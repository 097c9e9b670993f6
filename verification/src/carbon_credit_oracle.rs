//! A single stored value that anyone may read and write.
use vstd::prelude::*;

verus! {

/// The oracle's storage: the value, absent until first written.
pub struct CarbonCreditOracle {
    pub value: Option<u32>,
}

impl CarbonCreditOracle {
    pub fn new() -> (s: Self)
        ensures
            s.value is None,
    {
        CarbonCreditOracle { value: None }
    }

    /// The stored value, 0 before any write.
    pub fn get_value(&self) -> (v: u32)
        ensures
            v == match self.value {
                Some(x) => x,
                None => 0,
            },
    {
        match self.value {
            Some(x) => x,
            None => 0,
        }
    }

    pub fn set_value(&mut self, value: u32)
        ensures
            final(self).value == Some(value),
    {
        self.value = Some(value);
    }
}

} // verus!
