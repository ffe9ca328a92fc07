use vstd::prelude::*;
use crate::error::Error;
use crate::table::Table;

verus! {

/// A wall clock.
pub trait WasiSystemClock {
    /// Nanoseconds since the Unix epoch.
    fn now(&self) -> u64;
}

/// A clock that never goes backwards.
pub trait WasiMonotonicClock {
    /// Nanoseconds since an arbitrary fixed point.
    fn now(&self) -> u64;
}

/// The clocks a guest can read.
pub struct WasiClocks {
    pub system: Box<dyn WasiSystemClock>,
    pub monotonic: Box<dyn WasiMonotonicClock>,
}

/// The service that suspends the calling thread on a guest's behalf.
pub trait WasiSched {
    /// Blocks for at least `nanos` nanoseconds.
    fn sleep(&self, nanos: u64) -> Result<(), Error>;

    /// Lets other threads run.
    fn sched_yield(&self) -> Result<(), Error>;
}

/// A source of random bytes.
pub trait WasiRandom {
    /// Appends `len` random bytes to `buf`.
    fn fill_bytes(&self, buf: &mut Vec<u8>, len: usize);
}

/// Makes a connected pair of stream endpoints in a table.
pub trait StreamPairFactory {
    /// Stores both endpoints in `table` and returns their handles.
    fn unix_pair(&self, table: &mut Table) -> Result<(u32, u32), Error>;
}

} // verus!
