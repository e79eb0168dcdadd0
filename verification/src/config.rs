//! Scan configuration: the immutable description of one scan run.

use vstd::prelude::*;

verus! {

/// Lowest port of the range scanned when none is given.
pub const DEFAULT_FIRST_PORT: u16 = 1;

/// Highest port of the range scanned when none is given.
pub const DEFAULT_LAST_PORT: u16 = 65535;

/// Number of concurrency slots when none is given.
pub const DEFAULT_CONCURRENCY: usize = 200;

/// Per-attempt timeout in milliseconds when none is given.
pub const DEFAULT_TIMEOUT_MS: u64 = 1000;

/// A resolved network address, held as the address's integer value.
#[derive(Clone, Copy, Debug, PartialEq, Eq, Structural)]
pub enum TargetAddr {
    /// An IPv4 address; the most significant byte is the first octet.
    V4(u32),
    /// An IPv6 address; the most significant 16 bits are the first segment.
    V6(u128),
}

/// Why a configuration was rejected.
#[derive(Clone, Copy, Debug, PartialEq, Eq, Structural)]
pub enum ConfigError {
    /// The concurrency limit is below 1.
    ConcurrencyLimit,
    /// The port range holds port 0 or its start lies above its end.
    PortRange,
    /// The per-attempt timeout is zero.
    Timeout,
}

/// What `ScanConfig::new` answers for the given values: the first rule that
/// they break, if any. The concurrency limit is judged first, then the port
/// range, then the timeout.
pub open spec fn rejection(
    first_port: u16,
    last_port: u16,
    concurrency: usize,
    timeout_ms: u64,
) -> Option<ConfigError> {
    if concurrency < 1 {
        Some(ConfigError::ConcurrencyLimit)
    } else if first_port < 1 || first_port > last_port {
        Some(ConfigError::PortRange)
    } else if timeout_ms < 1 {
        Some(ConfigError::Timeout)
    } else {
        None
    }
}

/// Configuration of one scan. A value of this type always satisfies `wf`:
/// the only ways to make one are `new` and `with_defaults`, and nothing
/// changes it afterwards.
#[derive(Clone, Copy, Debug, PartialEq, Eq, Structural)]
pub struct ScanConfig {
    target: TargetAddr,
    first_port: u16,
    last_port: u16,
    concurrency: usize,
    timeout_ms: u64,
    capture_banner: bool,
}

impl ScanConfig {
    /// The address that is scanned.
    pub closed spec fn spec_target(&self) -> TargetAddr {
        self.target
    }

    /// First port of the inclusive range.
    pub closed spec fn spec_first_port(&self) -> u16 {
        self.first_port
    }

    /// Last port of the inclusive range.
    pub closed spec fn spec_last_port(&self) -> u16 {
        self.last_port
    }

    /// Size of the concurrency slot pool.
    pub closed spec fn spec_concurrency(&self) -> usize {
        self.concurrency
    }

    /// Per-attempt timeout in milliseconds.
    pub closed spec fn spec_timeout_ms(&self) -> u64 {
        self.timeout_ms
    }

    /// Whether a banner is captured from open ports.
    pub closed spec fn spec_capture_banner(&self) -> bool {
        self.capture_banner
    }

    /// The configuration's invariant: ports within 1..=65535 with the start
    /// not above the end, at least one slot, a positive timeout.
    pub open spec fn wf(&self) -> bool {
        rejection(
            self.spec_first_port(),
            self.spec_last_port(),
            self.spec_concurrency(),
            self.spec_timeout_ms(),
        ) is None
    }

    /// Number of ports in the range, as a mathematical integer.
    pub open spec fn spec_port_count(&self) -> int {
        self.spec_last_port() - self.spec_first_port() + 1
    }

    /// Whether `port` lies in the configured range.
    pub open spec fn covers(&self, port: int) -> bool {
        self.spec_first_port() <= port <= self.spec_last_port()
    }

    /// Builds a configuration, or says which rule the values break.
    pub fn new(
        target: TargetAddr,
        first_port: u16,
        last_port: u16,
        concurrency: usize,
        timeout_ms: u64,
        capture_banner: bool,
    ) -> (r: Result<ScanConfig, ConfigError>)
        ensures
            match r {
                Ok(c) => {
                    &&& rejection(first_port, last_port, concurrency, timeout_ms) is None
                    &&& c.wf()
                    &&& c.spec_target() == target
                    &&& c.spec_first_port() == first_port
                    &&& c.spec_last_port() == last_port
                    &&& c.spec_concurrency() == concurrency
                    &&& c.spec_timeout_ms() == timeout_ms
                    &&& c.spec_capture_banner() == capture_banner
                },
                Err(e) => rejection(first_port, last_port, concurrency, timeout_ms) == Some(e),
            },
    {
        if concurrency < 1 {
            Err(ConfigError::ConcurrencyLimit)
        } else if first_port < 1 || first_port > last_port {
            Err(ConfigError::PortRange)
        } else if timeout_ms < 1 {
            Err(ConfigError::Timeout)
        } else {
            Ok(ScanConfig { target, first_port, last_port, concurrency, timeout_ms, capture_banner })
        }
    }

    /// The configuration used when only the target is given: every port,
    /// 200 slots, one second per attempt, banners captured.
    pub fn with_defaults(target: TargetAddr) -> (c: ScanConfig)
        ensures
            c.wf(),
            c.spec_target() == target,
            c.spec_first_port() == 1,
            c.spec_last_port() == 65535,
            c.spec_concurrency() == 200,
            c.spec_timeout_ms() == 1000,
            c.spec_capture_banner(),
    {
        ScanConfig {
            target,
            first_port: DEFAULT_FIRST_PORT,
            last_port: DEFAULT_LAST_PORT,
            concurrency: DEFAULT_CONCURRENCY,
            timeout_ms: DEFAULT_TIMEOUT_MS,
            capture_banner: true,
        }
    }

    /// The address that is scanned.
    pub fn target(&self) -> (r: TargetAddr)
        ensures
            r == self.spec_target(),
    {
        self.target
    }

    /// First port of the inclusive range.
    pub fn first_port(&self) -> (r: u16)
        ensures
            r == self.spec_first_port(),
    {
        self.first_port
    }

    /// Last port of the inclusive range.
    pub fn last_port(&self) -> (r: u16)
        ensures
            r == self.spec_last_port(),
    {
        self.last_port
    }

    /// Size of the concurrency slot pool.
    pub fn concurrency(&self) -> (r: usize)
        ensures
            r == self.spec_concurrency(),
    {
        self.concurrency
    }

    /// Per-attempt timeout in milliseconds.
    pub fn timeout_ms(&self) -> (r: u64)
        ensures
            r == self.spec_timeout_ms(),
    {
        self.timeout_ms
    }

    /// Whether a banner is captured from open ports.
    pub fn capture_banner(&self) -> (r: bool)
        ensures
            r == self.spec_capture_banner(),
    {
        self.capture_banner
    }

    /// Number of ports in the range.
    pub fn port_count(&self) -> (r: u32)
        requires
            self.wf(),
        ensures
            r == self.spec_port_count(),
            1 <= r <= 65535,
    {
        let last: u32 = self.last_port as u32;
        let first: u32 = self.first_port as u32;
        last - first + 1
    }
}

} // verus!
