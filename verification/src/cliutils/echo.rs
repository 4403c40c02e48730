//! The echo command without escape handling: its argument, optionally
//! followed by a newline.

use vstd::prelude::*;
use crate::util::push_char;

verus! {

/// The parsed echo command line.
pub struct EchoCommand {
    pub disable_new_line: bool,
    pub value: String,
}

/// The text echo writes to standard output.
pub struct EchoCommandResult {
    pub echo_val: String,
}

impl EchoCommand {
    /// The argument as given, followed by a newline unless one was
    /// asked away.
    pub fn exec(&self) -> (r: EchoCommandResult)
        ensures
            r.echo_val@ == (if self.disable_new_line {
                self.value@
            } else {
                self.value@.push('\n')
            }),
    {
        let mut output_str = self.value.clone();
        if !self.disable_new_line {
            push_char(&mut output_str, '\n');
        }
        EchoCommandResult::new(output_str)
    }
}

impl EchoCommandResult {
    pub fn new(echo_val: String) -> (r: Self)
        ensures
            r.echo_val == echo_val,
    {
        Self { echo_val }
    }
}

} // verus!
