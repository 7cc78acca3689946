//! The search settings, resolved from the command-line arguments and the
//! case-insensitivity signal of the environment.
use vstd::prelude::*;

verus! {

/// Why the search settings could not be resolved.
#[derive(Debug, Clone, Copy, PartialEq, Eq, Structural)]
pub enum ConfigError {
    /// Fewer than three arguments: the program name, the query and the file name.
    InsufficientArguments,
}

impl ConfigError {
    /// A line that describes the error to a user.
    pub fn message(&self) -> (r: &'static str)
        ensures
            r@ == "Not enough command line arguments!"@,
    {
        match self {
            ConfigError::InsufficientArguments => "Not enough command line arguments!",
        }
    }
}

/// What to search for, where, and whether letter case matters. The query and
/// the file name borrow the argument strings.
pub struct Config<'a> {
    pub query: &'a str,
    pub filename: &'a str,
    pub case_sensitive: bool,
}

impl<'a> Config<'a> {
    /// Resolves the settings from `args` (the program name, the query, the
    /// file name; later ones are ignored) and from whether the environment
    /// carries the case-insensitivity signal, whatever its value.
    pub fn new(args: &'a [String], case_insensitive_env: Option<&str>) -> (r: Result<
        Config<'a>,
        ConfigError,
    >)
        ensures
            r is Err <==> args@.len() < 3,
            r matches Err(e) ==> e == ConfigError::InsufficientArguments,
            r matches Ok(c) ==> {
                &&& c.query@ == args@[1]@
                &&& c.filename@ == args@[2]@
                &&& c.case_sensitive == (case_insensitive_env is None)
            },
    {
        if args.len() < 3 {
            return Err(ConfigError::InsufficientArguments);
        }
        let query = args[1].as_str();
        let filename = args[2].as_str();
        let case_sensitive = case_insensitive_env.is_none();
        Ok(Config { query, filename, case_sensitive })
    }
}

} // verus!
