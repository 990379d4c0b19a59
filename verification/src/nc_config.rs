use vstd::prelude::*;

verus! {

/// Default coordinator port.
pub const DEFAULT_PORT: u16 = 9000;

/// Default connect timeout, in seconds.
pub const DEFAULT_TIMEOUT: u64 = 60;

/// Configuration value object consumed by both runtimes: where the
/// coordinator listens and workers connect, the optional transport
/// compression and encryption (with its shared key), and the connect
/// timeout in seconds.  No other side channel configures the core.
#[derive(Debug, Clone)]
pub struct NC_Configuration {
    /// Address the coordinator binds and workers connect to.
    pub address: String,
    /// Port the coordinator listens on.
    pub port: u16,
    /// Whether frames are compressed on the wire.
    pub compress: bool,
    /// Whether frames are encrypted on the wire.
    pub encrypt: bool,
    /// Shared key used when `encrypt` is set.
    pub key: String,
    /// Connect timeout in seconds.
    pub timeout: u64,
}

impl NC_Configuration {
    /// Assemble a configuration from its parts, kept as given.
    pub fn new(
        address: String,
        port: u16,
        compress: bool,
        encrypt: bool,
        key: String,
        timeout: u64,
    ) -> (r: Self)
        ensures
            r.address@ == address@,
            r.port == port,
            r.compress == compress,
            r.encrypt == encrypt,
            r.key@ == key@,
            r.timeout == timeout,
    {
        NC_Configuration { address, port, compress, encrypt, key, timeout }
    }
}

impl Default for NC_Configuration {
    /// An empty address stands for "bind every local interface"; transport
    /// compression and encryption start switched off.
    fn default() -> (r: Self)
        ensures
            r.address@ == Seq::<char>::empty(),
            r.port == DEFAULT_PORT,
            !r.compress,
            !r.encrypt,
            r.key@ == Seq::<char>::empty(),
            r.timeout == DEFAULT_TIMEOUT,
    {
        NC_Configuration {
            address: String::new(),
            port: DEFAULT_PORT,
            compress: false,
            encrypt: false,
            key: String::new(),
            timeout: DEFAULT_TIMEOUT,
        }
    }
}

} // verus!
