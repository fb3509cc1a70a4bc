use vstd::prelude::*;
use vstd::string::*;

verus! {

/// How long, in milliseconds, a websocket client of this service waits.
pub const CLIENT_TIMEOUT_MILLIS: u64 = 5000;

/// A websocket client of the manager service.
pub struct ManagerClient {
    url: String,
    timeout: u64,
}

pub struct ClientView {
    pub url: Seq<char>,
    pub timeout: u64,
}

impl View for ManagerClient {
    type V = ClientView;

    closed spec fn view(&self) -> ClientView {
        ClientView { url: self.url@, timeout: self.timeout }
    }
}

impl ManagerClient {
    /// A client of the service at `url`, with the usual timeout.
    pub fn new(url: String) -> (c: ManagerClient)
        ensures
            c@ == (ClientView { url: url@, timeout: CLIENT_TIMEOUT_MILLIS }),
    {
        ManagerClient { url, timeout: CLIENT_TIMEOUT_MILLIS }
    }

    pub fn url(&self) -> (s: &str)
        ensures
            s@ == self@.url,
    {
        self.url.as_str()
    }

    pub fn timeout(&self) -> (t: u64)
        ensures
            t == self@.timeout,
    {
        self.timeout
    }

    /// Registration with the manager needs nothing beyond the connection: it
    /// always succeeds and leaves the client as it was.
    pub fn register(&mut self) -> (r: Result<(), u16>)
        ensures
            r == Ok::<(), u16>(()),
            final(self)@ == old(self)@,
    {
        Ok(())
    }
}

} // verus!
