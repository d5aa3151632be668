use vstd::prelude::*;

use crate::text::{push_str, string_of};

verus! {

/// `read`: a prompt command and the arguments after it.
#[derive(Debug)]
pub struct ReadCmd {
    pub command: String,
    pub rest: Vec<String>,
}

impl ReadCmd {
    /// The file name of the command's prompt: `<command>.prompt`.
    pub fn config_filename(&self) -> (r: String)
        ensures
            r@ == self.command@ + ".prompt"@,
    {
        let mut f = string_of(self.command.as_str());
        push_str(&mut f, ".prompt");
        f
    }
}

} // verus!
