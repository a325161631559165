//! Interface library for Smart Micro DRVEGRD automotive radar sensors.
//!
//! - `can`: the UATv4 request/response protocol and the CAN target stream.
//! - `eth`: the SMS UDP headers and the radar cube reassembler.
//! - `stream`: what the reassembler yields for whole frames of datagrams.
//! - `cube`: cube samples and the reordering applied before publishing.
//! - `cluster_ids`: stable cluster identifiers handed out to tracklets.
//! - `window`: the sliding window of target lists that clustering runs over.
//! - `pointcloud`: the layout of published point clouds.
//! - `settings`: radar configuration settings and their parameter values.
//! - `bytes`: little- and big-endian integer codecs shared by the above.
use vstd::prelude::*;

pub mod bytes;
pub mod can;
pub mod cluster_ids;
pub mod cube;
pub mod eth;
pub mod pointcloud;
pub mod settings;
pub mod stream;
pub mod window;

verus! {

} // verus!
