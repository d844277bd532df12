//! Where the Redis publish/subscribe network is reached.

use vstd::prelude::*;

verus! {

/// Address of the Redis instance that carries the publish/subscribe network.
pub const STRAUSS_REDIS_ADDR: &'static str = "redis://redis:6379";

} // verus!
