use vstd::prelude::*;

verus! {

/// The bytes that a program has sent over the serial port.
#[derive(Debug)]
pub struct SerialOutput {
    pub data: Vec<u8>,
}

impl SerialOutput {
    pub fn new() -> (s: SerialOutput)
        ensures
            s.data@.len() == 0,
    {
        SerialOutput { data: Vec::new() }
    }
}

} // verus!
