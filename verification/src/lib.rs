//! Update-orchestration engine for keeping local working copies in sync with
//! remote git branches.
//!
//! The library holds the verified core: the repository update algorithm's
//! decisions and bookkeeping, the credential-negotiation rules used during the
//! git handshake, webhook request validation, and the ticker's scheduling
//! rule. The surrounding process (file and network I/O, the HTTP server, the
//! asynchronous runtime) lives outside and hands this library plain values.

pub mod config;
pub mod creds;
pub mod repo;
pub mod ticker;
pub mod util;
pub mod webhook;
