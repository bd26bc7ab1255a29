use vstd::prelude::*;

verus! {

/// Lifetime stamped into a lease when no other is configured, in seconds.
pub const DEFAULT_LEASE_TTL_SECONDS: u64 = 20;

/// Gap between retries of a waiting acquire when no other is configured, in
/// milliseconds.
pub const DEFAULT_ACQUIRE_POLL_MILLIS: u64 = 1000;

/// Configuration of a lease client.
///
/// `lease_ttl_seconds` is stamped into each record's expiry on every acquire
/// and extend; `extend_period_millis` is the gap between background extends;
/// `acquire_poll_millis` is the gap between retries while waiting for a key.
pub struct ClientBuilder {
    pub table_name: String,
    pub lease_ttl_seconds: u64,
    pub extend_period_millis: u64,
    pub acquire_poll_millis: u64,
}

/// The default extend period for a lifetime: a quarter of it.
pub open spec fn default_extend_millis(ttl_seconds: u64) -> int {
    ttl_seconds * 1000 / 4
}

impl ClientBuilder {
    /// The extend period lies strictly inside the lease lifetime, so at least
    /// one extend is attempted before the lease expires.
    pub open spec fn wf(&self) -> bool {
        &&& 1 <= self.lease_ttl_seconds
        &&& self.lease_ttl_seconds * 1000 <= u64::MAX
        &&& 0 < self.extend_period_millis < self.lease_ttl_seconds * 1000
    }

    /// A builder for the store namespace `table_name`, with the default
    /// lifetime, extend period and poll period.
    pub fn new(table_name: String) -> (r: ClientBuilder)
        ensures
            r.wf(),
            r.table_name@ == table_name@,
            r.lease_ttl_seconds == DEFAULT_LEASE_TTL_SECONDS,
            r.extend_period_millis == default_extend_millis(DEFAULT_LEASE_TTL_SECONDS),
            r.acquire_poll_millis == DEFAULT_ACQUIRE_POLL_MILLIS,
    {
        ClientBuilder {
            table_name,
            lease_ttl_seconds: DEFAULT_LEASE_TTL_SECONDS,
            extend_period_millis: DEFAULT_LEASE_TTL_SECONDS * 1000 / 4,
            acquire_poll_millis: DEFAULT_ACQUIRE_POLL_MILLIS,
        }
    }

    /// Sets the lease lifetime; the extend period becomes a quarter of it.
    pub fn lease_ttl_seconds(self, ttl_seconds: u64) -> (r: ClientBuilder)
        requires
            1 <= ttl_seconds,
            ttl_seconds * 1000 <= u64::MAX,
        ensures
            r.wf(),
            r.table_name@ == self.table_name@,
            r.lease_ttl_seconds == ttl_seconds,
            r.extend_period_millis == default_extend_millis(ttl_seconds),
            r.acquire_poll_millis == self.acquire_poll_millis,
    {
        ClientBuilder {
            table_name: self.table_name,
            lease_ttl_seconds: ttl_seconds,
            extend_period_millis: ttl_seconds * 1000 / 4,
            acquire_poll_millis: self.acquire_poll_millis,
        }
    }

    /// Sets the gap between background extends; it must be positive and
    /// shorter than the lease lifetime.
    pub fn extend_period_millis(self, millis: u64) -> (r: ClientBuilder)
        requires
            self.wf(),
            0 < millis < self.lease_ttl_seconds * 1000,
        ensures
            r.wf(),
            r.table_name@ == self.table_name@,
            r.lease_ttl_seconds == self.lease_ttl_seconds,
            r.extend_period_millis == millis,
            r.acquire_poll_millis == self.acquire_poll_millis,
    {
        ClientBuilder { extend_period_millis: millis, ..self }
    }

    /// Sets the gap between retries while waiting to acquire a held key.
    pub fn acquire_poll_millis(self, millis: u64) -> (r: ClientBuilder)
        ensures
            r.table_name@ == self.table_name@,
            r.lease_ttl_seconds == self.lease_ttl_seconds,
            r.extend_period_millis == self.extend_period_millis,
            r.acquire_poll_millis == millis,
            self.wf() ==> r.wf(),
    {
        ClientBuilder { acquire_poll_millis: millis, ..self }
    }
}

} // verus!
