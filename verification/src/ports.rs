//! Endpoint names: resolving the configured names when a session opens, and
//! checking on each watchdog tick that they are still there.

use vstd::prelude::*;
use crate::errors::PortLostError;
use crate::errors::PortOpenError;

verus! {

/// Some available port carries exactly the name `name`.
pub open spec fn is_present(names: Seq<String>, name: Seq<char>) -> bool {
    exists|i: int| 0 <= i < names.len() && (#[trigger] names[i])@ == name
}

/// `index` is the first available port that carries exactly the name `name`.
pub open spec fn is_first_named(names: Seq<String>, name: Seq<char>, index: int) -> bool {
    &&& 0 <= index < names.len()
    &&& names[index]@ == name
    &&& forall|j: int| 0 <= j < index ==> (#[trigger] names[j])@ != name
}

/// The positions of the two configured ports among the available ones.
#[derive(Debug, PartialEq, Eq, Structural, Copy, Clone)]
pub struct Endpoints {
    pub input: usize,
    pub output: usize,
}

/// The first port with exactly the name `name`, if there is one.
pub fn find_port(names: &Vec<String>, name: &String) -> (r: Option<usize>)
    ensures
        r.is_some() == is_present(names@, name@),
        r matches Some(index) ==> is_first_named(names@, name@, index as int),
{
    let n: usize = names.len();
    let mut i: usize = 0;
    while i < n
        invariant
            n == names@.len(),
            i <= n,
            forall|j: int| 0 <= j < i ==> (#[trigger] names@[j])@ != name@,
        decreases n - i,
    {
        if names[i] == *name {
            return Some(i);
        }
        i += 1;
    }
    None
}

/// Resolves the two configured names when a session opens. The input is
/// looked up first, so where both are missing the failure names the input.
pub fn resolve_ports(
    inputs: &Vec<String>,
    outputs: &Vec<String>,
    name_in: &String,
    name_out: &String,
) -> (r: Result<Endpoints, PortOpenError>)
    ensures
        r.is_ok() == (is_present(inputs@, name_in@) && is_present(outputs@, name_out@)),
        r matches Ok(found) ==> is_first_named(inputs@, name_in@, found.input as int)
            && is_first_named(outputs@, name_out@, found.output as int),
        r matches Err(e) ==> e@ == (if is_present(inputs@, name_in@) {
            name_out@
        } else {
            name_in@
        }),
{
    match find_port(inputs, name_in) {
        None => Err(PortOpenError::from_port(name_in.as_str())),
        Some(input) => match find_port(outputs, name_out) {
            None => Err(PortOpenError::from_port(name_out.as_str())),
            Some(output) => Ok(Endpoints { input, output }),
        },
    }
}

/// One watchdog tick: both configured names must still be present, each
/// among the ports of its own direction. The input is checked first.
pub fn check_ports(
    inputs: &Vec<String>,
    outputs: &Vec<String>,
    name_in: &String,
    name_out: &String,
) -> (r: Result<(), PortLostError>)
    ensures
        r.is_ok() == (is_present(inputs@, name_in@) && is_present(outputs@, name_out@)),
        r matches Err(e) ==> e@ == (if is_present(inputs@, name_in@) {
            name_out@
        } else {
            name_in@
        }),
{
    if find_port(inputs, name_in).is_none() {
        Err(PortLostError::from_port(name_in.as_str()))
    } else if find_port(outputs, name_out).is_none() {
        Err(PortLostError::from_port(name_out.as_str()))
    } else {
        Ok(())
    }
}

} // verus!
