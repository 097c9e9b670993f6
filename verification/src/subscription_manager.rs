//! A stored subscriber count that anyone may read and write.
use vstd::prelude::*;

verus! {

/// The manager's storage: the count, absent until first written.
pub struct SubscriptionManager {
    pub subscribers: Option<u32>,
}

impl SubscriptionManager {
    pub fn new() -> (s: Self)
        ensures
            s.subscribers is None,
    {
        SubscriptionManager { subscribers: None }
    }

    /// The stored count, 0 before any write.
    pub fn get_subscribers(&self) -> (v: u32)
        ensures
            v == match self.subscribers {
                Some(x) => x,
                None => 0,
            },
    {
        match self.subscribers {
            Some(x) => x,
            None => 0,
        }
    }

    pub fn set_subscribers(&mut self, count: u32)
        ensures
            final(self).subscribers == Some(count),
    {
        self.subscribers = Some(count);
    }
}

} // verus!
