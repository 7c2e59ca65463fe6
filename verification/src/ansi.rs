//! Terminal control sequences used when drawing.
use vstd::prelude::*;

verus! {

pub const CLEAR: &'static str = "\x1B[2J\x1B[1;1H";

pub const RESET: &'static str = "\x1B[0m";

pub const WHITE: &'static str = "\x1B[97m";

pub const BLUE: &'static str = "\x1B[34m";

pub const CYAN: &'static str = "\x1B[36m";

pub const GRAY: &'static str = "\x1B[37m";

pub const RED: &'static str = "\x1B[31m";

} // verus!
