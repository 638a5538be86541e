use vstd::prelude::*;

verus! {

/// The errors that setting up the bot can meet.
#[derive(Debug, Clone)]
pub enum ErrorHandling {
    /// A line of a file could not be read.
    BadFile { line_index: usize, file_name: String },
    /// An environment variable that the bot needs is not set.
    StdEnv { varname: String },
    /// A file could not be read.
    IoOperation { path: String },
    /// A configuration file is not valid YAML.
    YamlScan,
}

} // verus!
