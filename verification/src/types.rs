use vstd::prelude::*;
use crate::text::{dec_str, u64_to_dec};
use vstd::string::StringExecFns;

verus! {

/// How the server treats rows that cannot be appended during a bulk upload:
/// under `Strict` the whole upload fails and rolls back at the first bad row,
/// under `Relaxed` bad rows are discarded and the rest is kept.
#[derive(Clone, Copy, Debug, PartialEq, Eq)]
pub enum Atomicity {
    Strict,
    Relaxed,
}

/// The lowercase query-string form of an atomicity value.
pub open spec fn atomicity_str(a: Atomicity) -> Seq<char> {
    match a {
        Atomicity::Strict => "strict"@,
        Atomicity::Relaxed => "relaxed"@,
    }
}

impl Atomicity {
    /// The value as it is written into a query string, exactly as
    /// `atomicity_str` states it.
    pub fn as_query_value(&self) -> (r: &'static str)
        ensures
            r@ == atomicity_str(*self),
    {
        match self {
            Atomicity::Strict => "strict",
            Atomicity::Relaxed => "relaxed",
        }
    }
}

/// A paging bound for a query: either the first `Upper` rows, or the rows
/// from `lower` through `upper` inclusive.
#[derive(Clone, Copy, Debug, PartialEq, Eq)]
pub enum PagingRange {
    Upper(u64),
    Bounds(u64, u64),
}

/// The query-string form of a paging bound: `20` for a single upper bound,
/// `10,20` for a lower,upper pair.
pub open spec fn limit_str(l: PagingRange) -> Seq<char> {
    match l {
        PagingRange::Upper(u) => dec_str(u as nat),
        PagingRange::Bounds(lo, hi) => dec_str(lo as nat) + ","@ + dec_str(hi as nat),
    }
}

impl PagingRange {
    /// Writes the bound as it is passed in a query string, exactly as
    /// `limit_str` states it.
    pub fn as_query_value(&self) -> (r: String)
        ensures
            r@ == limit_str(*self),
    {
        match self {
            PagingRange::Upper(u) => u64_to_dec(*u),
            PagingRange::Bounds(lo, hi) => {
                let mut s = u64_to_dec(*lo);
                s.append(",");
                let t = u64_to_dec(*hi);
                s.append(t.as_str());
                s
            },
        }
    }
}

} // verus!
