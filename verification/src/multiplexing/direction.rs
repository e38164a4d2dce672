//! Which side set a connection up.

use vstd::prelude::*;

verus! {

/// Direction of the connection relative to this node
#[derive(Clone, Copy, Eq, PartialEq, Debug, Structural)]
pub enum ConnectionDirection {
    /// Connection listens for incoming connections
    Inbound,
    /// Connection establishes an outbound connection
    Outbound,
}

impl ConnectionDirection {
    /// The direction's name in lower case.
    pub fn as_str(&self) -> (text: &'static str)
        ensures
            text@ == match self {
                ConnectionDirection::Inbound => "inbound"@,
                ConnectionDirection::Outbound => "outbound"@,
            },
    {
        match self {
            ConnectionDirection::Inbound => "inbound",
            ConnectionDirection::Outbound => "outbound",
        }
    }

    /// The direction as shown to people: its name, capitalised.
    pub fn to_string(&self) -> (text: String)
        ensures
            text@ == match self {
                ConnectionDirection::Inbound => "Inbound"@,
                ConnectionDirection::Outbound => "Outbound"@,
            },
    {
        match self {
            ConnectionDirection::Inbound => "Inbound".to_owned(),
            ConnectionDirection::Outbound => "Outbound".to_owned(),
        }
    }
}

} // verus!
