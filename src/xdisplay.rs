use vstd::prelude::*;

verus! {

/// An error that the X server reported for an earlier request.
#[derive(Clone, Debug)]
pub struct XError {
    pub description: String,
    pub error_code: u8,
    pub request_code: u8,
    pub minor_code: u8,
}

/// A connection to an X server, shared by every window and context on that display.
/// The error handler stores the latest error in a single slot; each native call that may
/// fail is followed by `check_errors`, which reads and clears it. Callers that share the
/// connection between threads hold it behind a lock and keep compound call sequences
/// under that lock, so that an error is not attributed to the wrong call.
#[derive(Debug)]
pub struct XConnection {
    /// The native display pointer, as an address.
    pub display: u64,
    pub open: bool,
    pub latest_error: Option<XError>,
}

impl XConnection {
    /// A connection to the given native display, open and with no pending error.
    pub fn new(display: u64) -> (c: XConnection)
        ensures
            c.display == display,
            c.open,
            c.latest_error is None,
    {
        XConnection { display, open: true, latest_error: None }
    }

    /// Checks whether an error has been triggered by the previous calls, and clears it.
    pub fn check_errors(&mut self) -> (r: Result<(), XError>)
        ensures
            r == (match old(self).latest_error {
                Some(e) => Err(e),
                None => Ok(()),
            }),
            final(self).latest_error is None,
            final(self).display == old(self).display,
            final(self).open == old(self).open,
    {
        let error = self.latest_error.take();
        match error {
            Some(e) => Err(e),
            None => Ok(()),
        }
    }

    /// Ignores any previous error.
    pub fn ignore_error(&mut self)
        ensures
            final(self).latest_error is None,
            final(self).display == old(self).display,
            final(self).open == old(self).open,
    {
        self.latest_error = None;
    }

    /// Stores an error reported by the X server, replacing one not yet checked.
    pub fn record_error(&mut self, error: XError)
        ensures
            final(self).latest_error == Some(error),
            final(self).display == old(self).display,
            final(self).open == old(self).open,
    {
        self.latest_error = Some(error);
    }

    /// Marks the connection as torn down: nothing more may be built on it.
    pub fn close(&mut self)
        ensures
            !final(self).open,
            final(self).display == old(self).display,
            final(self).latest_error == old(self).latest_error,
    {
        self.open = false;
    }
}

} // verus!
