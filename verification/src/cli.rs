//! Command-line options, as plain data. The shell parses the real argument
//! list into this form.

use vstd::prelude::*;

verus! {

/// The options the program accepts.
#[derive(Debug, PartialEq)]
pub struct Options {
    /// Path of the configuration file.
    pub config: Option<String>,
    /// Remote-control server address, as `host:port`.
    pub server: Option<String>,
    /// An encoded command to send to a running instance.
    pub control: Option<String>,
    /// Comma-separated names for the processes given as arguments.
    pub names: Option<String>,
    /// Run the scripts of a package manifest instead of the configuration.
    pub npm: bool,
    /// Commands to run instead of those from the configuration.
    pub commands: Vec<String>,
}

impl Options {
    /// Options with nothing set.
    pub fn new() -> (o: Options)
        ensures
            o.config is None,
            o.server is None,
            o.control is None,
            o.names is None,
            !o.npm,
            o.commands@.len() == 0,
    {
        Options {
            config: None,
            server: None,
            control: None,
            names: None,
            npm: false,
            commands: Vec::new(),
        }
    }
}

} // verus!
