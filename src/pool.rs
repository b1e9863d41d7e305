//! Settings of the bounded connection pool that every repository call
//! borrows its store connection from.
use vstd::prelude::*;

use crate::error::MyError;

verus! {

/// Connections the pool holds at most, unless configured otherwise.
pub const DEFAULT_MAX_SIZE: u32 = 8;

/// Seconds a caller waits for a free connection before the acquire fails,
/// unless configured otherwise.
pub const DEFAULT_ACQUIRE_TIMEOUT_SECS: u64 = 30;

/// Where the store is, which collection holds the persons, and how the pool
/// bounds its connections.
#[derive(Clone, Debug)]
pub struct PoolConfig {
    pub host: String,
    pub port: u16,
    pub database: String,
    pub collection: String,
    pub max_size: u32,
    pub acquire_timeout_secs: u64,
}

impl PoolConfig {
    /// Whether a pool can be built from these settings: it holds at least one
    /// connection, and a caller waits for one a positive time.
    pub open spec fn wf(&self) -> bool {
        self.max_size > 0 && self.acquire_timeout_secs > 0
    }

    /// Settings from the given values; a pool of no connections, or a wait of
    /// no time, is refused with a pool error.
    pub fn new(
        host: String,
        port: u16,
        database: String,
        collection: String,
        max_size: u32,
        acquire_timeout_secs: u64,
    ) -> (r: Result<PoolConfig, MyError>)
        ensures
            (max_size > 0 && acquire_timeout_secs > 0) <==> r is Ok,
            r is Err ==> r == Err::<PoolConfig, MyError>(MyError::PoolError),
            r is Ok ==> ({
                let c = r->Ok_0;
                &&& c.wf()
                &&& c.host@ == host@
                &&& c.port == port
                &&& c.database@ == database@
                &&& c.collection@ == collection@
                &&& c.max_size == max_size
                &&& c.acquire_timeout_secs == acquire_timeout_secs
            }),
    {
        if max_size == 0 || acquire_timeout_secs == 0 {
            Err(MyError::PoolError)
        } else {
            Ok(PoolConfig { host, port, database, collection, max_size, acquire_timeout_secs })
        }
    }

    /// A store on this machine at the usual port, database `local`,
    /// collection `Persons`, and the default bounds.
    pub fn local() -> (r: PoolConfig)
        ensures
            r.wf(),
            r.host@ == "localhost"@,
            r.port == 27017,
            r.database@ == "local"@,
            r.collection@ == "Persons"@,
            r.max_size == DEFAULT_MAX_SIZE,
            r.acquire_timeout_secs == DEFAULT_ACQUIRE_TIMEOUT_SECS,
    {
        PoolConfig {
            host: String::from_str("localhost"),
            port: 27017,
            database: String::from_str("local"),
            collection: String::from_str("Persons"),
            max_size: DEFAULT_MAX_SIZE,
            acquire_timeout_secs: DEFAULT_ACQUIRE_TIMEOUT_SECS,
        }
    }
}

} // verus!
