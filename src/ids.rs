//! Identifiers for users and channels, and the counter that allocates them.
use std::marker::PhantomData;
use crate::text::{decimal, push_decimal, push_str};
use vstd::prelude::*;
use vstd::std_specs::convert::FromSpec;

verus! {

/// ID of a client, unique within one channel.
#[derive(Copy, Clone, Debug, PartialEq, Eq, Hash, Structural)]
pub struct UserID(pub u64);

/// ID of a channel, unique within the process.
#[derive(Copy, Clone, Debug, PartialEq, Eq, Hash, Structural)]
pub struct ChannelID(pub u64);

impl UserID {
    /// Integer value
    pub fn int_val(&self) -> (r: u64)
        ensures
            r == self.0,
    {
        self.0
    }

    /// The ID as shown in logs: `user#<n>`.
    pub fn label(&self) -> (r: String)
        ensures
            r@ == "user#"@ + decimal(self.0 as nat),
    {
        let mut s = String::new();
        push_str(&mut s, "user#");
        push_decimal(&mut s, self.0);
        s
    }
}

impl ChannelID {
    /// Integer value
    pub fn int_val(&self) -> (r: u64)
        ensures
            r == self.0,
    {
        self.0
    }

    /// The ID as shown in logs: `channel#<n>`.
    pub fn label(&self) -> (r: String)
        ensures
            r@ == "channel#"@ + decimal(self.0 as nat),
    {
        let mut s = String::new();
        push_str(&mut s, "channel#");
        push_decimal(&mut s, self.0);
        s
    }
}

impl From<u64> for UserID {
    fn from(id: u64) -> (r: UserID)
        ensures
            r.0 == id,
    {
        UserID(id)
    }
}

impl vstd::std_specs::convert::FromSpecImpl<u64> for UserID {
    open spec fn obeys_from_spec() -> bool {
        true
    }

    open spec fn from_spec(v: u64) -> UserID {
        UserID(v)
    }
}

impl From<u64> for ChannelID {
    fn from(id: u64) -> (r: ChannelID)
        ensures
            r.0 == id,
    {
        ChannelID(id)
    }
}

impl vstd::std_specs::convert::FromSpecImpl<u64> for ChannelID {
    open spec fn obeys_from_spec() -> bool {
        true
    }

    open spec fn from_spec(v: u64) -> ChannelID {
        ChannelID(v)
    }
}

/// A counter that produces IDs of type `T`, starting from 0.
#[derive(Debug)]
pub struct Counter<T> {
    value: u64,
    marker: PhantomData<T>,
}

impl<T> Counter<T> {
    /// The value that the next call of `next` hands out.
    pub closed spec fn spec_value(&self) -> u64 {
        self.value
    }

    /// A counter that starts at 0.
    pub fn new() -> (r: Self)
        ensures
            r.spec_value() == 0,
    {
        Counter { value: 0, marker: PhantomData }
    }

    /// The value that the next call of `next` hands out.
    pub fn peek(&self) -> (r: u64)
        ensures
            r == self.spec_value(),
    {
        self.value
    }

    /// Whether `next` may still be called: every value below `u64::MAX` is handed
    /// out once.
    pub fn has_next(&self) -> (r: bool)
        ensures
            r == (self.spec_value() < u64::MAX),
    {
        self.value < u64::MAX
    }
}

impl<T> Default for Counter<T> {
    fn default() -> (r: Self)
        ensures
            r.spec_value() == 0,
    {
        Counter::new()
    }
}

impl<T: From<u64>> Counter<T> {
    /// Get the next value from this counter
    pub fn next(&mut self) -> (r: T)
        requires
            old(self).spec_value() < u64::MAX,
        ensures
            final(self).spec_value() == old(self).spec_value() + 1,
            T::obeys_from_spec() ==> r == T::from_spec(old(self).spec_value()),
    {
        let id = self.value;
        self.value = id + 1;
        T::from(id)
    }
}

} // verus!
