use vstd::prelude::*;

use crate::enums::ActionType;
use crate::enums::ReceiptType;

verus! {

// Mathematical mirrors of the input receipt structures. Contracts and proofs
// speak of these, so that two receipts with equal contents have equal models
// whatever the allocation of their strings and byte vectors.

/// Mathematical content of an access key descriptor.
#[verifier::ext_equal]
pub struct AccessKeyModel {
    pub nonce: u64,
    pub permission: Seq<char>,
}

/// Mathematical content of a declared output-data receiver.
#[verifier::ext_equal]
pub struct DataReceiverModel {
    pub data_id: Seq<u8>,
    pub receiver_id: Seq<char>,
}

/// Mathematical content of one action, over the eight closed variants.
#[verifier::ext_equal]
pub enum ActionModel {
    CreateAccount,
    DeployContract { code: Seq<char> },
    FunctionCall { method_name: Seq<char>, args: Seq<char>, gas: u64, deposit: u128 },
    Transfer { deposit: u128 },
    Stake { stake: u128, public_key: Seq<char> },
    AddKey { public_key: Seq<char>, access_key: AccessKeyModel },
    DeleteKey { public_key: Seq<char> },
    DeleteAccount { beneficiary_id: Seq<char> },
}

/// Mathematical content of a receipt body, one of the two closed kinds.
#[verifier::ext_equal]
pub enum ReceiptBodyModel {
    Action {
        signer_id: Seq<char>,
        signer_public_key: Seq<char>,
        gas_price: u128,
        output_data_receivers: Seq<DataReceiverModel>,
        input_data_ids: Seq<Seq<u8>>,
        actions: Seq<ActionModel>,
    },
    Data { data_id: Seq<u8>, data: Option<Seq<u8>> },
}

/// Mathematical content of a whole receipt.
#[verifier::ext_equal]
pub struct ReceiptModel {
    pub receipt_id: Seq<u8>,
    pub predecessor_id: Seq<char>,
    pub receiver_id: Seq<char>,
    pub body: ReceiptBodyModel,
}

/// The kind a receipt body classifies to: total over both variants.
pub open spec fn kind_of(body: ReceiptBodyModel) -> ReceiptType {
    match body {
        ReceiptBodyModel::Action { .. } => ReceiptType::Action,
        ReceiptBodyModel::Data { .. } => ReceiptType::Data,
    }
}

/// The kind one action variant classifies to: total over all eight variants.
pub open spec fn action_kind_of(a: ActionModel) -> ActionType {
    match a {
        ActionModel::CreateAccount => ActionType::CreateAccount,
        ActionModel::DeployContract { .. } => ActionType::DeployContract,
        ActionModel::FunctionCall { .. } => ActionType::FunctionCall,
        ActionModel::Transfer { .. } => ActionType::Transfer,
        ActionModel::Stake { .. } => ActionType::Stake,
        ActionModel::AddKey { .. } => ActionType::AddKey,
        ActionModel::DeleteKey { .. } => ActionType::DeleteKey,
        ActionModel::DeleteAccount { .. } => ActionType::DeleteAccount,
    }
}

} // verus!
