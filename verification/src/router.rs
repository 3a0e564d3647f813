use vstd::prelude::*;

verus! {

/// Relies on the anyhow crate for its error type alone: `anyhow::Error` is
/// carried through untouched and never inspected here.
#[verifier::external_type_specification]
#[verifier::external_body]
pub struct ExAnyhowError(anyhow::Error);

/// One request to route: a path and a payload.
pub struct Request {
    pub path: String,
    pub data: Vec<u8>,
}

/// Where requests go; callers implement it, and nothing is assumed of what
/// a handler does with a request.
pub trait RouteHandler {
    fn handle(&self, request: &Request) -> Result<(), anyhow::Error>;
}

/// A handler that keeps requests in a file; the writing itself is its
/// caller's implementation concern, this type only names the file.
pub struct FileStorageHandler {
    pub file_name: String,
}

/// A handler that forwards requests to a remote endpoint; this type only
/// names the target.
pub struct PassToRemoteHandler {
    pub target_uri: String,
}

/// Collects requests and hands each to its handler on demand.
pub struct Router<H: RouteHandler> {
    requests: Vec<Request>,
    pub handler: H,
}

impl<H: RouteHandler> Router<H> {
    /// The requests queued so far, in arrival order.
    pub closed spec fn queued(&self) -> Seq<Request> {
        self.requests@
    }

    /// The handler in place, as contracts speak of it.
    pub closed spec fn installed_handler(&self) -> H {
        self.handler
    }

    /// A router with no requests yet, holding exactly the handler handed
    /// in.
    pub fn new(handler: H) -> (r: Self)
        ensures
            r.queued() =~= Seq::<Request>::empty(),
            r.installed_handler() == handler,
    {
        Router { requests: Vec::new(), handler }
    }

    /// Queues one more request; the ones already queued, and the handler,
    /// stand.
    pub fn add(&mut self, request: Request)
        ensures
            final(self).queued() =~= old(self).queued().push(request),
            final(self).installed_handler() == old(self).installed_handler(),
    {
        self.requests.push(request);
    }

    /// Hands every queued request to the handler, in order, stopping at the
    /// first failure. With nothing queued it trivially succeeds; what the
    /// handler decides for each request is its own affair.
    pub fn apply(&self) -> (r: Result<(), anyhow::Error>)
        ensures
            self.queued().len() == 0 ==> r is Ok,
    {
        let mut i: usize = 0;
        while i < self.requests.len()
            invariant
                0 <= i <= self.requests@.len(),
            decreases self.requests@.len() - i,
        {
            match self.handler.handle(&self.requests[i]) {
                Ok(_) => {},
                Err(e) => {
                    return Err(e);
                },
            }
            i = i + 1;
        }
        Ok(())
    }
}

} // verus!
