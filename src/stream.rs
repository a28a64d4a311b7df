use vstd::prelude::*;

use crate::error::{Error, ValidationError};

verus! {

/// Status the stub scan callback reports: success, with nothing scanned.
pub fn stub_scan() -> (r: i32)
    ensures
        r == 0,
{
    0
}

/// The stub read callback: zero-fills the whole destination and reports that
/// every requested byte was produced.
pub fn stub_read(buf: &mut [u8]) -> (r: usize)
    ensures
        r == old(buf)@.len(),
        final(buf)@ == Seq::new(old(buf)@.len(), |i: int| 0u8),
{
    let n = buf.len();
    let mut i: usize = 0;
    while i < n
        invariant
            i <= n,
            n == buf@.len(),
            n == old(buf)@.len(),
            forall|j: int| 0 <= j < i ==> buf@[j] == 0u8,
        decreases n - i,
    {
        buf[i] = 0;
        i = i + 1;
    }
    assert(buf@ =~= Seq::new(n as nat, |i: int| 0u8));
    n
}

/// The two callbacks through which the engine pulls weight data from a stream
/// source: one that scans a formatted token, one that reads raw bytes. Each
/// slot is set, replaced or cleared on its own; a source may only feed a load
/// once both are installed.
pub struct CallbackSlots<S, R> {
    scan: Option<S>,
    read: Option<R>,
}

impl<S: Copy, R: Copy> CallbackSlots<S, R> {
    pub closed spec fn scan_slot(&self) -> Option<S> {
        self.scan
    }

    pub closed spec fn read_slot(&self) -> Option<R> {
        self.read
    }

    pub open spec fn spec_is_complete(&self) -> bool {
        self.scan_slot() is Some && self.read_slot() is Some
    }

    /// Slots with neither callback installed.
    pub fn unset() -> (r: Self)
        ensures
            r.scan_slot() is None,
            r.read_slot() is None,
    {
        CallbackSlots { scan: None, read: None }
    }

    /// Slots with both callbacks installed.
    pub fn with(scan: S, read: R) -> (r: Self)
        ensures
            r.scan_slot() == Some(scan),
            r.read_slot() == Some(read),
    {
        CallbackSlots { scan: Some(scan), read: Some(read) }
    }

    /// Installs, replaces or (with `None`) clears the scan callback.
    pub fn set_scan(&mut self, f: Option<S>)
        ensures
            final(self).scan_slot() == f,
            final(self).read_slot() == old(self).read_slot(),
    {
        self.scan = f;
    }

    /// Installs, replaces or (with `None`) clears the read callback.
    pub fn set_read(&mut self, f: Option<R>)
        ensures
            final(self).read_slot() == f,
            final(self).scan_slot() == old(self).scan_slot(),
    {
        self.read = f;
    }

    pub fn scan(&self) -> (r: Option<S>)
        ensures
            r == self.scan_slot(),
    {
        self.scan
    }

    pub fn read(&self) -> (r: Option<R>)
        ensures
            r == self.read_slot(),
    {
        self.read
    }

    pub fn is_complete(&self) -> (r: bool)
        ensures
            r == self.spec_is_complete(),
    {
        self.scan.is_some() && self.read.is_some()
    }

    /// Refuses a source that is missing a callback, before it reaches a load.
    pub fn check_complete(&self) -> (r: Result<(), Error>)
        ensures
            r is Ok <==> self.spec_is_complete(),
            r is Err ==> r == Err::<(), Error>(
                Error::Validation(ValidationError::IncompleteStreamSource),
            ),
    {
        if self.is_complete() {
            Ok(())
        } else {
            Err(Error::Validation(ValidationError::IncompleteStreamSource))
        }
    }
}

} // verus!
