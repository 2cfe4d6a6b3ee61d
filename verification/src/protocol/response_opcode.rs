use vstd::prelude::*;

verus! {

pub const COMMAND: u8 = 0;
} // verus!
