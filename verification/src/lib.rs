//! Capture of TLS ClientHello byte signatures, filtered by destination
//! domain, from the line-oriented output of an external packet-capture
//! subprocess.
//!
//! The library holds the verified core: decoding one output record into its
//! fields, normalizing and validating the hex payload against TLS record
//! framing, formatting accepted signatures, accumulating them up to a target
//! count, and the state machine of the capture session. The surrounding
//! binary spawns the subprocess and performs the file output.

use vstd::prelude::*;

pub mod collector;
pub mod decode;
pub mod digits;
pub mod errors;
pub mod lines;
pub mod pattern;
pub mod scan;
pub mod session;
pub mod validate;

verus! {

} // verus!
