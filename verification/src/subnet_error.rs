use vstd::prelude::*;

verus! {

/// A failure of the subnet computation.
#[derive(Debug)]
pub enum SubnetError {
    /// The requested host count is zero, or too large for the address space.
    InvalidNumberHosts(String),
    /// The host portion of the binary form could not be read as one octet.
    ParserError(String),
}

impl SubnetError {
    /// The message text carried by the error.
    pub open spec fn spec_message(&self) -> Seq<char> {
        match self {
            SubnetError::InvalidNumberHosts(m) => m@,
            SubnetError::ParserError(m) => m@,
        }
    }

    /// Renders the error as its message text.
    pub fn to_string(&self) -> (r: String)
        ensures
            r@ == self.spec_message(),
    {
        match self {
            SubnetError::InvalidNumberHosts(m) => m.clone(),
            SubnetError::ParserError(m) => m.clone(),
        }
    }
}

} // verus!
