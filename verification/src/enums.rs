use vstd::prelude::*;

verus! {

/// The two kinds a receipt can have.
#[derive(Clone, Copy, Debug, PartialEq, Eq, Structural)]
pub enum ReceiptType {
    Action,
    Data,
}

/// The eight closed action variants.
#[derive(Clone, Copy, Debug, PartialEq, Eq, Structural)]
pub enum ActionType {
    CreateAccount,
    DeployContract,
    FunctionCall,
    Transfer,
    Stake,
    AddKey,
    DeleteKey,
    DeleteAccount,
}

} // verus!
