//! How an installed executable is started through the capture tool.

use vstd::prelude::*;

verus! {

/// The program that starts an executable with its picture captured.
pub const CAPTURE_TOOL: &'static str = "obs-gamecapture";

/// Puts together what the capture tool is started with: the executable
/// first, then the arguments of the executable in their order.
pub fn capture_arguments(executable: String, arguments: &Vec<String>) -> (all: Vec<String>)
    ensures
        all@ == seq![executable] + arguments@,
{
    let mut all: Vec<String> = Vec::new();
    all.push(executable);
    let mut i: usize = 0;
    while i < arguments.len()
        invariant
            i <= arguments.len(),
            all@ == seq![executable] + arguments@.subrange(0, i as int),
        decreases arguments.len() - i,
    {
        all.push(arguments[i].clone());
        assert(arguments@.subrange(0, i + 1) == arguments@.subrange(0, i as int).push(
            arguments@[i as int],
        ));
        i += 1;
    }
    assert(arguments@.subrange(0, i as int) == arguments@);
    all
}

} // verus!
