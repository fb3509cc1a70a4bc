use vstd::prelude::*;
use vstd::string::*;
use crate::manager::client::{ClientView, CLIENT_TIMEOUT_MILLIS};

verus! {

/// A websocket client of the signaling service.
pub struct SignalingClient {
    url: String,
    timeout: u64,
}

impl View for SignalingClient {
    type V = ClientView;

    closed spec fn view(&self) -> ClientView {
        ClientView { url: self.url@, timeout: self.timeout }
    }
}

impl SignalingClient {
    /// A client of the service at `url`, with the usual timeout.
    pub fn new(url: String) -> (c: SignalingClient)
        ensures
            c@ == (ClientView { url: url@, timeout: CLIENT_TIMEOUT_MILLIS }),
    {
        SignalingClient { url, timeout: CLIENT_TIMEOUT_MILLIS }
    }

    pub fn url(&self) -> (s: &str)
        ensures
            s@ == self@.url,
    {
        self.url.as_str()
    }

    pub fn timeout(&self) -> (t: u64)
        ensures
            t == self@.timeout,
    {
        self.timeout
    }

    /// Registration with the signaling service needs nothing beyond the connection: it
    /// always succeeds and leaves the client as it was.
    pub fn register(&mut self) -> (r: Result<(), u16>)
        ensures
            r == Ok::<(), u16>(()),
            final(self)@ == old(self)@,
    {
        Ok(())
    }
}

} // verus!
