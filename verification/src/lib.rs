//! Graylog-compatible log transport: a log event becomes a GELF message, the
//! message is serialised and gzip-compressed, and the compressed bytes are laid
//! out as UDP datagrams, whole when they fit in one and chunked when they do not.
//!
//! Everything here is a pure function of its arguments. Sockets, clocks and the
//! registration of the process-wide logger belong to the caller.

pub mod chunks;
pub mod compress;
pub mod error;
pub mod gelf;
pub mod logger;
pub mod transport;
pub mod wire;
