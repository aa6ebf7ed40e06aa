//! A stand-in for the wireless driver and the timer service on a host with a
//! wired network: a link that is always started and always connected, and a
//! wait that reports the condition as it is at once.

use vstd::prelude::*;

verus! {

/// A wireless interface whose link is always up.
pub struct EspWifi {}

/// What a driver call can fail with. The stand-in never fails, so no call
/// here returns it.
#[derive(Clone, Copy, Debug, PartialEq, Eq, Structural)]
pub enum EspError {
    Failure,
}

#[derive(Clone, Copy, Debug)]
pub struct IpSettings {}

#[derive(Debug)]
pub enum ClientIpStatus {
    Done(IpSettings),
}

#[derive(Debug)]
pub enum ClientConnectionStatus {
    Connected(ClientIpStatus),
    Disconnected,
}

#[derive(Debug)]
pub enum ClientStatus {
    Started(ClientConnectionStatus),
}

impl ClientStatus {
    /// Whether the client is between two states. The stand-in never is.
    pub fn is_transitional(&self) -> (r: bool)
        ensures
            !r,
    {
        false
    }
}

impl EspWifi {
    /// Starts the interface; always accepted.
    pub fn start(&self) -> (r: Result<(), EspError>)
        ensures
            r is Ok,
    {
        Ok(())
    }

    /// Connects to the access point; always accepted.
    pub fn connect(&self) -> (r: Result<(), EspError>)
        ensures
            r is Ok,
    {
        Ok(())
    }

    /// Whether the interface is started; always so.
    pub fn is_started(&self) -> (r: Result<bool, EspError>)
        ensures
            r == Ok::<bool, EspError>(true),
    {
        Ok(true)
    }

    /// Whether the link is up; always so.
    pub fn is_connected(&self) -> (r: Result<bool, EspError>)
        ensures
            r == Ok::<bool, EspError>(true),
    {
        Ok(true)
    }
}

/// Waits for a condition on the link.
pub struct WifiWait {}

impl WifiWait {
    /// Reports whether `predicate` holds. The stand-in does not wait: the
    /// result is what one evaluation of `predicate` returns.
    pub fn wait_with_timeout<F: Fn() -> bool>(&self, duration: core::time::Duration, predicate: F) -> (r: bool)
        requires
            call_requires(predicate, ()),
        ensures
            call_ensures(predicate, (), r),
    {
        predicate()
    }
}

/// The service from which periodic timers are made.
pub struct EspTaskTimerService {}

impl EspTaskTimerService {
    /// Makes the service; never fails.
    pub fn new() -> (r: Result<Self, ()>)
        ensures
            r is Ok,
    {
        Ok(EspTaskTimerService {  })
    }
}

} // verus!
