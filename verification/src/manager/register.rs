use vstd::prelude::*;
use vstd::string::*;
use crate::manager::models::{LoadReport, RegisterRequest};
use crate::proxy::Flow;

verus! {

/// Why registration with the registration service ended.
#[derive(Debug, Clone, Copy, PartialEq, Eq, Structural)]
pub enum RegisterError {
    /// The websocket connection could not be made or was lost.
    ConnectionFailed,
    /// The load of the machine could not be read.
    NoLoad,
    /// Every registration attempt failed.
    Exhausted,
}

impl RegisterError {
    pub open spec fn text(&self) -> Seq<char> {
        match self {
            RegisterError::ConnectionFailed => "Connection failed"@,
            RegisterError::NoLoad => "Can not get load"@,
            RegisterError::Exhausted => "error during registration happened"@,
        }
    }

    pub fn message(&self) -> (s: String)
        ensures
            s@ == self.text(),
    {
        match self {
            RegisterError::ConnectionFailed => String::from_str("Connection failed"),
            RegisterError::NoLoad => String::from_str("Can not get load"),
            RegisterError::Exhausted => String::from_str("error during registration happened"),
        }
    }
}

/// The client that registers this proxy: the service's url and the message
/// it sends first.
pub struct RegisterClient {
    pub url: String,
    pub data: RegisterRequest,
}

impl RegisterClient {
    pub fn new(url: String, data: RegisterRequest) -> (c: RegisterClient)
        ensures
            c.url@ == url@,
            c.data == data,
    {
        RegisterClient { url, data }
    }
}

/// What to do after a failed registration attempt.
#[derive(Debug, Clone, Copy, PartialEq, Eq, Structural)]
pub enum RetryDecision {
    /// Wait this many milliseconds, then try again.
    RetryAfter { millis: u64 },
    /// Stop, with this error.
    GiveUp(RegisterError),
}

/// The count of failed registration attempts, against the most that may fail
/// before registration is given up, and the wait between attempts.
pub struct RegistrationAttempts {
    failures: u16,
    max_attempts: u16,
    delay: u64,
}

pub struct RegistrationAttemptsView {
    pub failures: u16,
    pub max_attempts: u16,
    pub delay: u64,
}

impl View for RegistrationAttempts {
    type V = RegistrationAttemptsView;

    closed spec fn view(&self) -> RegistrationAttemptsView {
        RegistrationAttemptsView { failures: self.failures, max_attempts: self.max_attempts, delay: self.delay }
    }
}

/// The decision after failure number `n`: go on while `n` does not exceed `max`.
pub open spec fn decision_after(n: int, max: u16, delay: u64) -> RetryDecision {
    if n > max {
        RetryDecision::GiveUp(RegisterError::Exhausted)
    } else {
        RetryDecision::RetryAfter { millis: delay }
    }
}

impl RegistrationAttempts {
    pub fn new(max_attempts: u16, delay: u64) -> (a: RegistrationAttempts)
        ensures
            a@ == (RegistrationAttemptsView { failures: 0, max_attempts, delay }),
    {
        RegistrationAttempts { failures: 0, max_attempts, delay }
    }

    /// Counts a failed attempt and decides whether to try again. The count is a
    /// `u16`, so it must have room for one more.
    pub fn failed(&mut self) -> (d: RetryDecision)
        requires
            old(self)@.failures < u16::MAX,
        ensures
            final(self)@ == (RegistrationAttemptsView { failures: (old(self)@.failures + 1) as u16, ..old(self)@ }),
            d == decision_after(old(self)@.failures + 1, old(self)@.max_attempts, old(self)@.delay),
    {
        self.failures = self.failures + 1;
        if self.failures > self.max_attempts {
            RetryDecision::GiveUp(RegisterError::Exhausted)
        } else {
            RetryDecision::RetryAfter { millis: self.delay }
        }
    }
}

/// The load report to send for a reading of the machine's load, or `NoLoad`
/// where there is no reading.
pub fn heartbeat_report(load: Option<u32>) -> (r: Result<LoadReport, RegisterError>)
    ensures
        match load {
            Some(l) => r matches Ok(rep) && rep.load == l && rep._type@ == "load"@,
            None => r == Err::<LoadReport, RegisterError>(RegisterError::NoLoad),
        },
{
    match load {
        Some(l) => Ok(LoadReport::new(l)),
        None => Err(RegisterError::NoLoad),
    }
}

/// Whether the heartbeat goes on after a report was handed to the connection
/// (`true`) or could not be: it ends, without error, once reports can no
/// longer be sent.
pub fn heartbeat_sent(sent: bool) -> (f: Flow)
    ensures
        f == if sent { Flow::Continue } else { Flow::Stop },
{
    if sent {
        Flow::Continue
    } else {
        Flow::Stop
    }
}

} // verus!
