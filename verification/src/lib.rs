//! A declarative batch crawler, verified with Verus.
//!
//! A single configuration document describes a templated HTTP request;
//! the library expands it into the cross product of its variable and
//! parameter maps ([`config`]), drives each fetch through a retry state
//! machine with charset conversion ([`fetch`], [`charset`], [`mime`]),
//! settles every task against its persistence sinks ([`task`],
//! [`persist`]), and shapes per-run and per-task metric records
//! ([`metrics`]). The template grammar ([`template`]) and the numeric
//! range expansion ([`expand`]) are verified parsers; the I/O around the
//! library - HTTP, disk, object store, search backend, notifications -
//! lives outside it and hands in plain values.

pub mod strutil;
pub mod charset;
pub mod config;
pub mod expand;
pub mod fetch;
pub mod logger;
pub mod metrics;
pub mod mime;
pub mod persist;
pub mod request;
pub mod result;
pub mod timefmt;
pub mod task;
pub mod template;

use vstd::prelude::*;

verus! {

/// Looks a key up in an ordered association list; the entry added last wins,
/// matching the overwrite semantics of repeated inserts into a map.
pub open spec fn spec_lookup(m: Seq<(Seq<char>, Seq<char>)>, k: Seq<char>) -> Option<Seq<char>>
    decreases m.len(),
{
    if m.len() == 0 {
        None
    } else if m.last().0 == k {
        Some(m.last().1)
    } else {
        spec_lookup(m.drop_last(), k)
    }
}

} // verus!
