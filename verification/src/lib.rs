//! Direct device-to-device file transfer over a local network.
//!
//! One device exposes a file through a socket; the peer connects and streams
//! it to local storage, with progress reported to a caller.  The library holds
//! the verified core: the chunked byte pump with its progress policy, the
//! send- and receive-side rendezvous state machines, and the formatting of the
//! result messages.  The host shell performs the actual socket and file I/O
//! and drives these state machines.

pub mod pump;
pub mod report;
pub mod session;
