//! The chains that the coin is launched on.

use vstd::prelude::*;

verus! {

/// A chain.
#[derive(Clone, Copy, Debug, PartialEq, Eq, Structural)]
pub enum Chain {
    Stellar,
    Ethereum,
}

impl Chain {
    /// The name of the chain.
    pub fn name(&self) -> (name: &'static str)
        ensures
            name@ == match *self {
                Chain::Stellar => "Stellar"@,
                Chain::Ethereum => "Ethereum"@,
            },
    {
        match self {
            Chain::Stellar => "Stellar",
            Chain::Ethereum => "Ethereum",
        }
    }
}

} // verus!
