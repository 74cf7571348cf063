//! The two session-level failures, each naming the port it concerns.

use vstd::prelude::*;
use vstd::string::StringExecFns;

verus! {

/// A named port was not among the available ones when a session was opened.
#[derive(Debug)]
pub struct PortOpenError {
    port_name: String,
}

impl Clone for PortOpenError {
    fn clone(&self) -> (copy: PortOpenError)
        ensures
            copy@ == self@,
    {
        PortOpenError { port_name: self.port_name.clone() }
    }
}

impl View for PortOpenError {
    type V = Seq<char>;

    /// The name of the port.
    closed spec fn view(&self) -> Seq<char> {
        self.port_name@
    }
}

impl PortOpenError {
    pub fn from_port(name: &str) -> (e: PortOpenError)
        ensures
            e@ == name@,
    {
        PortOpenError { port_name: name.to_owned() }
    }

    pub fn port_name(&self) -> (name: &String)
        ensures
            name@ == self@,
    {
        &self.port_name
    }

    /// The text of the failure: a fixed prefix, then the port's name.
    pub fn message(&self) -> (text: String)
        ensures
            text@ == "Could not open port "@ + self@,
    {
        String::from_str("Could not open port ").concat(self.port_name.as_str())
    }
}

/// A named port of an active session is no longer among the available ones.
#[derive(Debug)]
pub struct PortLostError {
    port_name: String,
}

impl Clone for PortLostError {
    fn clone(&self) -> (copy: PortLostError)
        ensures
            copy@ == self@,
    {
        PortLostError { port_name: self.port_name.clone() }
    }
}

impl View for PortLostError {
    type V = Seq<char>;

    /// The name of the port.
    closed spec fn view(&self) -> Seq<char> {
        self.port_name@
    }
}

impl PortLostError {
    pub fn from_port(name: &str) -> (e: PortLostError)
        ensures
            e@ == name@,
    {
        PortLostError { port_name: name.to_owned() }
    }

    pub fn port_name(&self) -> (name: &String)
        ensures
            name@ == self@,
    {
        &self.port_name
    }

    /// The text of the failure: a fixed prefix, then the port's name.
    pub fn message(&self) -> (text: String)
        ensures
            text@ == "Lost port "@ + self@,
    {
        String::from_str("Lost port ").concat(self.port_name.as_str())
    }
}

} // verus!
