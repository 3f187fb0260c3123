//! Identifier newtypes. Each wraps an unsigned integer and renders as plain
//! decimal text wherever it is placed in a URL or a query string.
use crate::text::{decimal, u64_to_decimal};
use vstd::prelude::*;

verus! {

/// The id of a Roblox experience.
#[derive(Debug, Clone, Copy, PartialEq, Eq, Structural)]
pub struct UniverseId(pub u64);

/// The id of a place within an experience.
#[derive(Debug, Clone, Copy, PartialEq, Eq, Structural)]
pub struct PlaceId(pub u64);

/// Number of items to return.
#[derive(Debug, Clone, Copy, PartialEq, Eq, Structural)]
pub struct ReturnLimit(pub u64);

/// The id of a Roblox user.
#[derive(Debug, Clone, Copy, PartialEq, Eq, Structural)]
pub struct RobloxUserId(pub u64);

/// Number of items on one page of a listing.
#[derive(Debug, Clone, Copy, PartialEq, Eq, Structural)]
pub struct PageSize(pub u64);

/// The id of a Roblox group.
#[derive(Debug, Clone, Copy, PartialEq, Eq, Structural)]
pub struct GroupId(pub u64);

impl UniverseId {
    /// Decimal text of the id.
    pub fn to_string(&self) -> (r: String)
        ensures
            r@ == decimal(self.0 as nat),
    {
        u64_to_decimal(self.0)
    }
}

impl PlaceId {
    /// Decimal text of the id.
    pub fn to_string(&self) -> (r: String)
        ensures
            r@ == decimal(self.0 as nat),
    {
        u64_to_decimal(self.0)
    }
}

impl ReturnLimit {
    /// Decimal text of the limit.
    pub fn to_string(&self) -> (r: String)
        ensures
            r@ == decimal(self.0 as nat),
    {
        u64_to_decimal(self.0)
    }
}

impl RobloxUserId {
    /// Decimal text of the id.
    pub fn to_string(&self) -> (r: String)
        ensures
            r@ == decimal(self.0 as nat),
    {
        u64_to_decimal(self.0)
    }
}

impl PageSize {
    /// Decimal text of the page size.
    pub fn to_string(&self) -> (r: String)
        ensures
            r@ == decimal(self.0 as nat),
    {
        u64_to_decimal(self.0)
    }
}

impl GroupId {
    /// Decimal text of the id.
    pub fn to_string(&self) -> (r: String)
        ensures
            r@ == decimal(self.0 as nat),
    {
        u64_to_decimal(self.0)
    }
}

impl From<u64> for PageSize {
    fn from(item: u64) -> (r: PageSize)
        ensures
            r.0 == item,
    {
        PageSize(item)
    }
}

impl vstd::std_specs::convert::FromSpecImpl<u64> for PageSize {
    open spec fn obeys_from_spec() -> bool {
        true
    }

    open spec fn from_spec(item: u64) -> PageSize {
        PageSize(item)
    }
}

/// Wraps each id as a [`RobloxUserId`], in order.
pub fn u64_ids_to_roblox_ids(user_ids: Option<Vec<u64>>) -> (r: Option<Vec<RobloxUserId>>)
    ensures
        match user_ids {
            None => r is None,
            Some(v) => r matches Some(w) && w@.len() == v@.len() && forall|i: int|
                0 <= i < v@.len() ==> (#[trigger] w@[i]).0 == v@[i],
        },
{
    match user_ids {
        None => None,
        Some(v) => {
            let mut w: Vec<RobloxUserId> = Vec::new();
            let mut i: usize = 0;
            while i < v.len()
                invariant
                    i <= v@.len(),
                    w@.len() == i,
                    forall|k: int| 0 <= k < i ==> (#[trigger] w@[k]).0 == v@[k],
                decreases v@.len() - i,
            {
                w.push(RobloxUserId(v[i]));
                i = i + 1;
            }
            Some(w)
        },
    }
}

} // verus!
