use vstd::prelude::*;

use crate::model::AccessKeyModel;
use crate::model::ActionModel;
use crate::model::DataReceiverModel;
use crate::model::ReceiptBodyModel;
use crate::model::ReceiptModel;

verus! {

// The upstream streaming collaborator hands receipts over in this shape:
// plain byte vectors for hash identifiers, plain strings for account
// identifiers and text-encoded keys, and two closed tagged unions.

/// An access key descriptor, carried through structurally.
#[derive(Clone, Debug, PartialEq, Eq)]
pub struct AccessKeyView {
    pub nonce: u64,
    pub permission: String,
}

/// A declared output-data receiver: which data receipt will be produced,
/// and who receives it.
#[derive(Clone, Debug, PartialEq, Eq)]
pub struct DataReceiverView {
    pub data_id: Vec<u8>,
    pub receiver_id: String,
}

/// One operation within an Action receipt; the variant set is closed and
/// exhaustive, with no extension point.
#[derive(Clone, Debug, PartialEq, Eq)]
pub enum ActionView {
    CreateAccount,
    DeployContract { code: String },
    FunctionCall { method_name: String, args: String, gas: u64, deposit: u128 },
    Transfer { deposit: u128 },
    Stake { stake: u128, public_key: String },
    AddKey { public_key: String, access_key: AccessKeyView },
    DeleteKey { public_key: String },
    DeleteAccount { beneficiary_id: String },
}

/// The two-variant receipt body.
#[derive(Clone, Debug, PartialEq, Eq)]
pub enum ReceiptEnumView {
    Action {
        signer_id: String,
        signer_public_key: String,
        gas_price: u128,
        output_data_receivers: Vec<DataReceiverView>,
        input_data_ids: Vec<Vec<u8>>,
        actions: Vec<ActionView>,
    },
    Data { data_id: Vec<u8>, data: Option<Vec<u8>> },
}

/// A whole receipt as received from upstream.
#[derive(Clone, Debug, PartialEq, Eq)]
pub struct ReceiptView {
    pub receipt_id: Vec<u8>,
    pub predecessor_id: String,
    pub receiver_id: String,
    pub receipt: ReceiptEnumView,
}

impl AccessKeyView {
    pub open spec fn model(&self) -> AccessKeyModel {
        AccessKeyModel { nonce: self.nonce, permission: self.permission@ }
    }
}

impl DataReceiverView {
    pub open spec fn model(&self) -> DataReceiverModel {
        DataReceiverModel { data_id: self.data_id@, receiver_id: self.receiver_id@ }
    }
}

impl ActionView {
    pub open spec fn model(&self) -> ActionModel {
        match self {
            ActionView::CreateAccount => ActionModel::CreateAccount,
            ActionView::DeployContract { code } => ActionModel::DeployContract { code: code@ },
            ActionView::FunctionCall { method_name, args, gas, deposit } => {
                ActionModel::FunctionCall {
                    method_name: method_name@,
                    args: args@,
                    gas: *gas,
                    deposit: *deposit,
                }
            },
            ActionView::Transfer { deposit } => ActionModel::Transfer { deposit: *deposit },
            ActionView::Stake { stake, public_key } => {
                ActionModel::Stake { stake: *stake, public_key: public_key@ }
            },
            ActionView::AddKey { public_key, access_key } => {
                ActionModel::AddKey { public_key: public_key@, access_key: access_key.model() }
            },
            ActionView::DeleteKey { public_key } => {
                ActionModel::DeleteKey { public_key: public_key@ }
            },
            ActionView::DeleteAccount { beneficiary_id } => {
                ActionModel::DeleteAccount { beneficiary_id: beneficiary_id@ }
            },
        }
    }
}

impl ReceiptEnumView {
    pub open spec fn model(&self) -> ReceiptBodyModel {
        match self {
            ReceiptEnumView::Action {
                signer_id,
                signer_public_key,
                gas_price,
                output_data_receivers,
                input_data_ids,
                actions,
            } => ReceiptBodyModel::Action {
                signer_id: signer_id@,
                signer_public_key: signer_public_key@,
                gas_price: *gas_price,
                output_data_receivers: output_data_receivers@.map_values(
                    |r: DataReceiverView| r.model(),
                ),
                input_data_ids: input_data_ids@.map_values(|d: Vec<u8>| d@),
                actions: actions@.map_values(|a: ActionView| a.model()),
            },
            ReceiptEnumView::Data { data_id, data } => ReceiptBodyModel::Data {
                data_id: data_id@,
                data: match data {
                    Option::Some(d) => Option::Some(d@),
                    Option::None => Option::None,
                },
            },
        }
    }
}

impl ReceiptView {
    pub open spec fn model(&self) -> ReceiptModel {
        ReceiptModel {
            receipt_id: self.receipt_id@,
            predecessor_id: self.predecessor_id@,
            receiver_id: self.receiver_id@,
            body: self.receipt.model(),
        }
    }
}

} // verus!
