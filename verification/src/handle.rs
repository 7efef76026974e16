use vstd::prelude::*;
use crate::channel::send_request;
use crate::errors::SubmissionError;
use crate::request::{FileReadRequest, ReplySink};

verus! {

/// A handle to an engine performing reads for one open file. `incref` is
/// called once for each active opener of the file, with a matching `decref`
/// when that opener closes it; when the count reaches zero the handle is
/// dropped, which closes the request channel and stops the engine.
#[verifier::reject_recursive_types(R)]
pub struct FileReadHandle<R> {
    read_chan: std::sync::mpsc::Sender<FileReadRequest<R>>,
    open_count: u32,
}

impl<R: ReplySink> FileReadHandle<R> {
    /// How many openers currently rely on this handle.
    pub closed spec fn refs(self) -> u32 {
        self.open_count
    }

    /// Wraps the sending end of an engine's request channel; the new handle
    /// counts no openers yet and should see `incref` before use.
    pub(crate) fn from_channel(read_chan: std::sync::mpsc::Sender<FileReadRequest<R>>) -> (h: Self)
        ensures
            h.refs() == 0,
    {
        FileReadHandle { read_chan, open_count: 0 }
    }

    /// Asynchronously performs a read at `offset` of `size` bytes, returning
    /// the result of the read directly to `reply`. Fails with
    /// `SubmissionError` only when the engine has already stopped; the reply
    /// sink is then dropped unresolved.
    pub fn do_read(&self, offset: u64, size: u32, reply: R) -> (r: Result<(), SubmissionError>) {
        send_request(&self.read_chan, FileReadRequest::user(offset, size, reply))
    }

    /// Counts one more opener of the file.
    pub fn incref(&mut self)
        requires
            old(self).refs() < u32::MAX,
        ensures
            final(self).refs() == old(self).refs() + 1,
    {
        self.open_count = self.open_count + 1;
    }

    /// Counts one opener gone: returns the handle while openers remain, and
    /// nothing once the count reaches zero — the signal for the owner to drop
    /// it, which stops the engine.
    pub fn decref(self) -> (r: Option<FileReadHandle<R>>)
        requires
            self.refs() >= 1,
        ensures
            r is Some <==> self.refs() > 1,
            r matches Some(h) ==> h.refs() == self.refs() - 1,
    {
        let FileReadHandle { read_chan, open_count } = self;
        let new_count = open_count - 1;
        if new_count == 0 {
            None
        } else {
            Some(FileReadHandle { read_chan, open_count: new_count })
        }
    }
}

} // verus!
