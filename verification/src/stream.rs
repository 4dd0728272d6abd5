//! The byte-stream bridge: a model of a foreign, reference-counted,
//! pull-based byte source, the retain/release traffic the adapter owes it,
//! and the sequential reader the adapter wraps it in.

use vstd::prelude::*;
use crate::status::spec_succeeded;

verus! {

/// One reference-counting call the adapter makes on a foreign stream.
///
/// The adapter does not itself run foreign code; it reports, in order, the
/// retain and release calls it owes, identified by the stream they target.
/// The host performs them.
#[derive(Debug, Copy, Clone, PartialEq, Eq, Structural)]
pub enum StreamAction {
    /// One reference added to the stream with this identity.
    Retain(u64),
    /// One reference dropped from the stream with this identity.
    Release(u64),
}

/// A foreign pull-based byte source, modeled by what the adapter's logic
/// reads of it: an identity for reference-count accounting, the bytes the
/// source will yield, the current read position, and the status its read
/// operation reports.
pub struct ComStream {
    /// Identity used in [`StreamAction`] accounting.
    pub id: u64,
    /// The bytes the source yields, in order.
    pub data: Vec<u8>,
    /// How many bytes have been consumed already.
    pub pos: usize,
    /// The status the foreign read operation reports; a failure status makes
    /// every read of the bridge fail.
    pub read_status: i32,
}

impl ComStream {
    /// A stream is well formed when its position lies within its data.
    pub open spec fn wf(&self) -> bool {
        self.pos <= self.data.len()
    }

    /// A fresh foreign source at position zero whose reads succeed.
    pub fn new(id: u64, data: Vec<u8>) -> (s: ComStream)
        ensures
            s.id == id,
            s.data == data,
            s.pos == 0,
            s.read_status == crate::status::S_OK,
            s.wf(),
    {
        ComStream { id, data, pos: 0, read_status: crate::status::S_OK }
    }
}

/// The sequential-read bridge around one foreign stream.
///
/// The bridge owns exactly one foreign reference for its own lifetime; its
/// teardown, [`StreamReader::into_release_action`], reports the single
/// release call that pays that reference back, regardless of how many reads
/// occurred or whether any read failed.
pub struct StreamReader {
    /// The wrapped foreign source.
    pub stream: ComStream,
}

impl StreamReader {
    /// Wraps a foreign source. The reference the bridge holds is the one the
    /// caller already owned; no extra retain is owed here.
    pub fn new(stream: ComStream) -> (r: StreamReader)
        ensures
            r.stream == stream,
    {
        StreamReader { stream }
    }

    /// Reads up to `n` bytes from the source, advancing its position.
    ///
    /// On success the result holds the next `min(n, remaining)` bytes of the
    /// source; an empty result signals end of input. If the foreign read
    /// operation reports a non-success status, that status is surfaced
    /// verbatim as the error and nothing is consumed. The bridge never
    /// retries.
    pub fn read(&mut self, n: usize) -> (r: Result<Vec<u8>, i32>)
        requires
            old(self).stream.wf(),
        ensures
            final(self).stream.id == old(self).stream.id,
            final(self).stream.data == old(self).stream.data,
            final(self).stream.read_status == old(self).stream.read_status,
            final(self).stream.wf(),
            !spec_succeeded(old(self).stream.read_status) ==> (r matches Err(code)
                && code == old(self).stream.read_status && *final(self) == *old(self)),
            spec_succeeded(old(self).stream.read_status) ==> (r matches Ok(bytes) && {
                let take = vstd::math::min(
                    n as int,
                    old(self).stream.data.len() - old(self).stream.pos,
                );
                &&& bytes@ == old(self).stream.data@.subrange(
                    old(self).stream.pos as int,
                    old(self).stream.pos + take,
                )
                &&& final(self).stream.pos == old(self).stream.pos + take
            }),
    {
        if !crate::status::succeeded(self.stream.read_status) {
            return Err(self.stream.read_status);
        }
        let remaining = self.stream.data.len() - self.stream.pos;
        let take = if n < remaining { n } else { remaining };
        let mut bytes: Vec<u8> = Vec::new();
        let mut i: usize = 0;
        while i < take
            invariant
                i <= take,
                take == vstd::math::min(n as int, self.stream.data.len() - old(self).stream.pos),
                self.stream == old(self).stream,
                self.stream.pos + take <= self.stream.data.len(),
                bytes@ == self.stream.data@.subrange(
                    self.stream.pos as int,
                    self.stream.pos + i,
                ),
            decreases take - i,
        {
            let b = self.stream.data[self.stream.pos + i];
            bytes.push(b);
            proof {
                assert(bytes@ =~= self.stream.data@.subrange(
                    self.stream.pos as int,
                    self.stream.pos + i + 1,
                ));
            }
            i = i + 1;
        }
        self.stream.pos = self.stream.pos + take;
        Ok(bytes)
    }

    /// Bridge teardown: consumes the bridge and reports the single release
    /// call that pays back the one foreign reference the bridge held.
    pub fn into_release_action(self) -> (a: StreamAction)
        ensures
            a == StreamAction::Release(self.stream.id),
    {
        StreamAction::Release(self.stream.id)
    }
}

/// The retain/release calls a stream handoff owes, in order: the incoming
/// source (if any) is retained first, and only then is the previously held
/// source (if any) released. Retain-before-release avoids a window in which
/// a source shared by both sides could be dropped to zero references.
pub open spec fn spec_handoff_actions(
    old_stream: Option<ComStream>,
    new_stream: Option<ComStream>,
) -> Seq<StreamAction> {
    (match new_stream {
        Some(s) => seq![StreamAction::Retain(s.id)],
        None => Seq::empty(),
    }) + (match old_stream {
        Some(s) => seq![StreamAction::Release(s.id)],
        None => Seq::empty(),
    })
}

/// The release calls owed when a held source (if any) is let go: exactly one
/// release for a held source, none otherwise. This is both the teardown of a
/// consumed source after generation and the residual release on object
/// destruction.
pub open spec fn spec_release_actions(stream: Option<ComStream>) -> Seq<StreamAction> {
    match stream {
        Some(s) => seq![StreamAction::Release(s.id)],
        None => Seq::empty(),
    }
}

/// How many times an action occurs in a sequence of actions.
pub open spec fn count_action(s: Seq<StreamAction>, a: StreamAction) -> nat
    decreases s.len(),
{
    if s.len() == 0 {
        0
    } else {
        count_action(s.drop_last(), a) + (if s.last() == a { 1nat } else { 0nat })
    }
}

} // verus!
