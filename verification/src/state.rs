//! What the dispatcher keeps between calls: the controller and the
//! denomination.

use vstd::prelude::*;
use crate::error::ContractError;

verus! {

/// The recorded controller and the recorded denomination, each absent until
/// the token has been issued.
#[derive(Clone, Debug, PartialEq, Eq)]
pub struct State {
    pub owner: Option<String>,
    pub denom: Option<String>,
}

impl State {
    /// The controller as a text, if one is recorded.
    pub open spec fn controller(&self) -> Option<Seq<char>> {
        match self.owner {
            Some(o) => Some(o@),
            None => None,
        }
    }

    /// The denomination as a text, if one is recorded.
    pub open spec fn denomination(&self) -> Option<Seq<char>> {
        match self.denom {
            Some(d) => Some(d@),
            None => None,
        }
    }

    /// What the owner check answers to a caller: nothing where the caller is the
    /// controller, else the refusal.
    pub open spec fn refusal(&self, caller: Seq<char>) -> Option<ContractError> {
        match self.controller() {
            None => Some(ContractError::NotFound),
            Some(o) => if o == caller {
                None
            } else {
                Some(ContractError::Unauthorized)
            },
        }
    }

    /// The state before the token is issued.
    pub fn new() -> (s: State)
        ensures
            s.controller() is None,
            s.denomination() is None,
    {
        State { owner: None, denom: None }
    }

    /// Records the controller.
    pub fn initialize_owner(&mut self, controller: &String)
        ensures
            final(self).controller() == Some(controller@),
            final(self).denom == old(self).denom,
    {
        self.owner = Some(controller.clone());
    }

    /// Lets the controller pass and refuses every other caller.
    pub fn assert_owner(&self, caller: &String) -> (r: Result<(), ContractError>)
        ensures
            match r {
                Ok(_) => self.refusal(caller@) is None,
                Err(e) => self.refusal(caller@) == Some(e),
            },
    {
        match &self.owner {
            None => Err(ContractError::NotFound),
            Some(o) => {
                if *o == *caller {
                    Ok(())
                } else {
                    Err(ContractError::Unauthorized)
                }
            },
        }
    }

    /// Records the denomination.
    pub fn save_denom(&mut self, denom: String)
        ensures
            final(self).denomination() == Some(denom@),
            final(self).owner == old(self).owner,
    {
        self.denom = Some(denom);
    }

    /// The recorded denomination.
    pub fn load_denom(&self) -> (r: Result<String, ContractError>)
        ensures
            match r {
                Ok(d) => self.denomination() == Some(d@),
                Err(e) => e == ContractError::NotFound && self.denomination() is None,
            },
    {
        match &self.denom {
            Some(d) => Ok(d.clone()),
            None => Err(ContractError::NotFound),
        }
    }
}

} // verus!
