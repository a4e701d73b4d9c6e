use vstd::prelude::*;

use crate::error::Error;

verus! {

/// Who holds one lock instance at a given moment: the number of live read
/// guards and whether a write guard is live.
///
/// A model of the admission rule of a reader-writer lock: a read guard is
/// granted while no writer holds the lock, a write guard only while nobody
/// does, and a refused request leaves the holders as they were. The locks of
/// this library are not tied to it: their state is the backend's own.
#[derive(Debug, Clone, Copy, PartialEq, Eq, Structural)]
pub struct Holders {
    pub readers: u64,
    pub writer: bool,
}

impl Holders {
    /// A writer never holds the lock together with a reader.
    pub open spec fn wf(&self) -> bool {
        !(self.writer && self.readers > 0)
    }

    /// Nobody holds the lock.
    pub open spec fn is_free(&self) -> bool {
        !self.writer && self.readers == 0
    }

    /// A read guard can be granted now, without waiting.
    pub open spec fn admits_read(&self) -> bool {
        !self.writer && self.readers < u64::MAX
    }

    /// A write guard can be granted now, without waiting.
    pub open spec fn admits_write(&self) -> bool {
        self.is_free()
    }

    /// The holders once one more read guard has been granted.
    pub open spec fn with_reader(&self) -> Holders {
        Holders { readers: (self.readers + 1) as u64, writer: false }
    }

    /// The holders once a write guard has been granted.
    pub open spec fn with_writer(&self) -> Holders {
        Holders { readers: 0, writer: true }
    }

    /// The holders once one read guard has been released.
    pub open spec fn without_reader(&self) -> Holders {
        Holders { readers: (self.readers - 1) as u64, writer: self.writer }
    }

    /// The holders once the write guard has been released.
    pub open spec fn without_writer(&self) -> Holders {
        Holders { readers: self.readers, writer: false }
    }

    /// The holders after `n` read requests in a row, each granted or refused.
    pub open spec fn after_reads(&self, n: nat) -> Holders
        decreases n,
    {
        if n == 0 {
            *self
        } else {
            let h = self.after_reads((n - 1) as nat);
            if h.admits_read() {
                h.with_reader()
            } else {
                h
            }
        }
    }

    /// A lock that nobody holds.
    pub fn new() -> (r: Holders)
        ensures
            r.is_free(),
            r.wf(),
    {
        Holders { readers: 0, writer: false }
    }

    /// Whether a read guard can be granted now.
    pub fn can_read(&self) -> (r: bool)
        ensures
            r == self.admits_read(),
    {
        !self.writer && self.readers < u64::MAX
    }

    /// Whether a write guard can be granted now.
    pub fn can_write(&self) -> (r: bool)
        ensures
            r == self.admits_write(),
    {
        !self.writer && self.readers == 0
    }

    /// Grants a read guard if one can be granted now; refuses otherwise and
    /// changes nothing.
    pub fn try_read(&mut self) -> (r: Result<(), Error>)
        ensures
            r is Ok <==> old(self).admits_read(),
            r is Ok ==> *final(self) == old(self).with_reader(),
            r is Err ==> *final(self) == *old(self),
            old(self).wf() ==> final(self).wf(),
    {
        if self.can_read() {
            self.readers = self.readers + 1;
            Ok(())
        } else {
            Err(Error)
        }
    }

    /// Grants the write guard if it can be granted now; refuses otherwise and
    /// changes nothing.
    pub fn try_write(&mut self) -> (r: Result<(), Error>)
        ensures
            r is Ok <==> old(self).admits_write(),
            r is Ok ==> *final(self) == old(self).with_writer(),
            r is Err ==> *final(self) == *old(self),
            old(self).wf() ==> final(self).wf(),
    {
        if self.can_write() {
            self.writer = true;
            Ok(())
        } else {
            Err(Error)
        }
    }

    /// Releases one of the live read guards.
    pub fn release_read(&mut self)
        requires
            old(self).readers > 0,
        ensures
            *final(self) == old(self).without_reader(),
            old(self).wf() ==> final(self).wf(),
    {
        self.readers = self.readers - 1;
    }

    /// Releases the live write guard.
    pub fn release_write(&mut self)
        requires
            old(self).writer,
        ensures
            *final(self) == old(self).without_writer(),
            old(self).wf() ==> final(self).wf(),
    {
        self.writer = false;
    }
}

/// While a write guard is live, neither a read nor a write guard is granted;
/// once the write guard is released, a write guard is granted again.
pub proof fn lemma_writer_excludes_all(h: Holders)
    requires
        h.wf(),
        h.writer,
    ensures
        !h.admits_read(),
        !h.admits_write(),
        h.without_writer().admits_write(),
{
}

/// Read guards are shared: from holders without a writer, every one of `n`
/// read requests in a row is granted, as long as the count of readers fits;
/// and after any of them a write request is refused.
pub proof fn lemma_readers_share(h: Holders, n: nat)
    requires
        h.wf(),
        !h.writer,
        h.readers + n <= u64::MAX,
    ensures
        h.after_reads(n) == (Holders { readers: (h.readers + n) as u64, writer: false }),
        forall|k: nat| k < n ==> (#[trigger] h.after_reads(k)).admits_read(),
        forall|k: nat| 0 < k <= n ==> !(#[trigger] h.after_reads(k)).admits_write(),
    decreases n,
{
    if n > 0 {
        lemma_readers_share(h, (n - 1) as nat);
    }
}

/// A write request is refused while a read guard is live.
pub proof fn lemma_reader_blocks_writer(h: Holders)
    requires
        h.readers > 0,
    ensures
        !h.admits_write(),
{
}

/// Acquiring a guard and releasing it leaves the holders as they were, so
/// no exclusivity remains; from a free lock the other mode is then granted
/// at once.
pub proof fn lemma_release_restores(h: Holders)
    requires
        h.wf(),
    ensures
        h.admits_read() ==> h.with_reader().without_reader() == h,
        h.admits_write() ==> h.with_writer().without_writer() == h,
        h.is_free() ==> h.with_reader().without_reader().admits_write(),
        h.is_free() ==> h.with_writer().without_writer().admits_read(),
{
}

} // verus!
