//! The streaming path of the response interpreter, for download and
//! export operations.
//!
//! The body arrives as a sequence of byte chunks, and each chunk is
//! handed to the caller's sink in arrival order, one at a time, with no
//! merging and no reordering; the relay records in ghost state exactly
//! what it has handed over. The first sink failure, or a transport
//! failure between chunks, ends the transfer with the corresponding
//! error. This path never attempts JSON decoding.

use vstd::prelude::*;

use crate::response::status_ok;
use crate::ApiError;

verus! {

/// The per-transfer state of one streamed response.
pub struct StreamRelay {
    /// The error that ended the transfer, if one has.
    pub failure: Option<ApiError>,
    /// The chunks handed to the sink so far, in order.
    pub delivered: Ghost<Seq<Seq<u8>>>,
}

impl StreamRelay {
    /// Open the transfer: a non-2xx status ends it before any chunk.
    pub fn start(status: u16) -> (r: StreamRelay)
        ensures
            r.delivered@ == Seq::<Seq<u8>>::empty(),
            status_ok(status) ==> r.failure is None,
            !status_ok(status) ==> r.failure == Some(ApiError::Http(status)),
    {
        if 200 <= status && status < 300 {
            StreamRelay { failure: None, delivered: Ghost(Seq::empty()) }
        } else {
            StreamRelay { failure: Some(ApiError::Http(status)), delivered: Ghost(Seq::empty()) }
        }
    }

    /// Accept the next chunk from the transport. While the transfer is
    /// healthy the chunk comes back unchanged, to be written to the sink;
    /// after a failure nothing more is handed over.
    pub fn on_chunk(&mut self, chunk: Vec<u8>) -> (r: Option<Vec<u8>>)
        ensures
            old(self).failure is None ==> {
                &&& r matches Some(c) && c@ == chunk@
                &&& final(self).delivered@ == old(self).delivered@.push(chunk@)
                &&& final(self).failure is None
            },
            old(self).failure is Some ==> r is None && final(self).failure == old(self).failure
                && final(self).delivered@ == old(self).delivered@,
    {
        if self.failure.is_none() {
            proof {
                self.delivered@ = self.delivered@.push(chunk@);
            }
            Some(chunk)
        } else {
            None
        }
    }

    /// Record the sink's answer for the chunk it was just handed: the
    /// first failed write ends the transfer.
    pub fn on_sink_result(&mut self, ok: bool)
        ensures
            final(self).delivered@ == old(self).delivered@,
            old(self).failure is Some ==> final(self).failure == old(self).failure,
            old(self).failure is None && ok ==> final(self).failure is None,
            old(self).failure is None && !ok ==> final(self).failure == Some(ApiError::Sink),
    {
        if !ok && self.failure.is_none() {
            self.failure = Some(ApiError::Sink);
        }
    }

    /// Record that the transport failed between chunks.
    pub fn on_transport_failure(&mut self, message: String)
        ensures
            final(self).delivered@ == old(self).delivered@,
            old(self).failure is Some ==> final(self).failure == old(self).failure,
            old(self).failure is None ==> final(self).failure == Some(
                ApiError::Transport(message),
            ),
    {
        if self.failure.is_none() {
            self.failure = Some(ApiError::Transport(message));
        }
    }

    /// Close the transfer: the outcome is the first failure, or success.
    pub fn finish(self) -> (r: Result<(), ApiError>)
        ensures
            self.failure is None ==> r is Ok,
            self.failure matches Some(e) ==> r == Result::<(), ApiError>::Err(e),
    {
        match self.failure {
            Option::None => Ok(()),
            Option::Some(e) => Err(e),
        }
    }
}

} // verus!
