use vstd::prelude::*;

verus! {

/// The levels of the host's log.
#[derive(Clone, Copy, Debug, PartialEq, Eq, Structural)]
pub enum ValkeyLogLevel {
    Debug,
    Notice,
    Verbose,
    Warning,
}

impl ValkeyLogLevel {
    pub open spec fn name(&self) -> Seq<char> {
        match self {
            ValkeyLogLevel::Debug => "debug"@,
            ValkeyLogLevel::Notice => "notice"@,
            ValkeyLogLevel::Verbose => "verbose"@,
            ValkeyLogLevel::Warning => "warning"@,
        }
    }

    /// The name the host knows the level by.
    pub fn as_str(&self) -> (r: &'static str)
        ensures
            r@ == self.name(),
    {
        match self {
            ValkeyLogLevel::Debug => "debug",
            ValkeyLogLevel::Notice => "notice",
            ValkeyLogLevel::Verbose => "verbose",
            ValkeyLogLevel::Warning => "warning",
        }
    }
}

} // verus!
