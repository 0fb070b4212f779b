//! The request side of the concurrency bridge: an ordered queue of
//! requests, produced by the input/session thread and consumed first
//! in, first out by the render thread.

use vstd::prelude::*;

verus! {

/// A message instructing the render thread to redraw or change
/// screen mode, or to stop.
#[derive(Clone, Copy, Debug, PartialEq, Eq, Structural)]
pub enum UIRequest {
    /// Read the shared widget state and draw it.
    Redraw,
    /// Leave the alternate screen and disable raw input capture.
    SuspendDisplay,
    /// Re-enter the alternate screen, clear it, re-enable raw capture.
    ResumeDisplay,
    /// Exit the render loop and terminate the render thread.
    Stop,
}

/// A FIFO queue of UI requests. Requests are consumed in exactly the
/// order they were pushed, and none is ever dropped.
pub struct RequestQueue {
    requests: Vec<UIRequest>,
}

impl RequestQueue {
    /// The pending requests, oldest first.
    pub closed spec fn view(&self) -> Seq<UIRequest> {
        self.requests@
    }

    pub fn new() -> (r: Self)
        ensures
            r@ == Seq::<UIRequest>::empty(),
    {
        Self { requests: Vec::new() }
    }

    pub fn len(&self) -> (r: usize)
        ensures
            r == self@.len(),
    {
        self.requests.len()
    }

    /// Submit a request: it is appended behind every pending one.
    pub fn push(&mut self, request: UIRequest)
        ensures
            final(self)@ == old(self)@.push(request),
    {
        self.requests.push(request);
    }

    /// Consume the oldest pending request, if any. The remaining
    /// requests keep their order.
    pub fn pop(&mut self) -> (r: Option<UIRequest>)
        ensures
            old(self)@.len() == 0 ==> r is None && final(self)@ == old(self)@,
            old(self)@.len() > 0 ==> r == Some(old(self)@[0]) && final(self)@ == old(self)@.drop_first(),
    {
        if self.requests.len() == 0 {
            None
        } else {
            let request = self.requests.remove(0);
            proof {
                assert(final(self)@ =~= old(self)@.drop_first());
            }
            Some(request)
        }
    }
}

} // verus!
