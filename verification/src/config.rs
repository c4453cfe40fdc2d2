//! The run configuration built from command-line words.

use vstd::prelude::*;
use vstd::string::StringExecFns;

verus! {

/// Error returned when no file arguments were given. Holds the program
/// name for the usage line.
#[derive(Debug)]
pub struct UsageMessage {
    /// The name the program was invoked under.
    pub program: String,
}

impl UsageMessage {
    /// The usage line naming the program.
    pub fn message(&self) -> (r: String)
        ensures
            r@ == "Usage: "@ + self.program@ + " file ..."@,
    {
        let mut s = String::new();
        s.append("Usage: ");
        s.append(self.program.as_str());
        s.append(" file ...");
        s
    }
}

/// The files a run works on.
pub struct Config {
    /// Paths of the ROM files to trim, in the order given.
    pub files: Vec<String>,
}

impl Config {
    /// Builds the configuration from the program name and the remaining
    /// command-line words. Fails with a usage message when no file was named;
    /// otherwise every word is taken as a file path, in order.
    pub fn new(program: String, args: Vec<String>) -> (r: Result<Config, UsageMessage>)
        ensures
            r is Ok <==> args@.len() >= 1,
            match r {
                Ok(c) => c.files@ == args@,
                Err(u) => u.program@ == program@,
            },
    {
        if args.len() < 1 {
            return Err(UsageMessage { program });
        }
        Ok(Config { files: args })
    }
}

} // verus!
