use vstd::prelude::*;

use vstd::string::StringExecFns;

use crate::decimal::dec_str;
use crate::decimal::u128_to_dec_str;
use crate::enums::ActionType;
use crate::enums::ReceiptType;
use crate::json::JsonDoc;
use crate::json::JsonLeaf;
use crate::json::JsonLeafModel;
use crate::json::JsonValue;
use crate::json::JsonValueModel;
use crate::model::ActionModel;
use crate::model::DataReceiverModel;
use crate::model::ReceiptBodyModel;
use crate::model::ReceiptModel;
use crate::model::action_kind_of;
use crate::model::kind_of;
use crate::numeric::block_height_decimal;
use crate::numeric::decimal_int;
use crate::numeric::gas_price_decimal;
use crate::numeric::stored_gas_price;
use crate::views::ActionView;
use crate::views::DataReceiverView;
use crate::views::ReceiptView;

verus! {

/// The error of the kind-guarded extractors: the receipt's union tag is not
/// the kind the extractor is for. Caller-recoverable by skipping the row.
#[derive(Clone, Copy, Debug, PartialEq, Eq, Structural)]
pub enum ExtractError {
    KindMismatch,
}

/// Copies a byte vector.
pub(crate) fn copy_bytes(v: &Vec<u8>) -> (r: Vec<u8>)
    ensures
        r@ == v@,
{
    let mut r: Vec<u8> = Vec::new();
    let mut i: usize = 0;
    while i < v.len()
        invariant
            i <= v@.len(),
            r@ =~= v@.take(i as int),
        decreases v@.len() - i,
    {
        r.push(v[i]);
        i = i + 1;
        proof {
            assert(r@ =~= v@.take(i as int));
        }
    }
    proof {
        assert(r@ =~= v@);
    }
    r
}

/// The top-level receipt row, written for every receipt of either kind.
#[derive(Clone, Debug, PartialEq)]
pub struct Receipt {
    pub receipt_id: Vec<u8>,
    pub block_height: bigdecimal::BigDecimal,
    pub predecessor_id: String,
    pub receiver_id: String,
    pub receipt_kind: ReceiptType,
}

/// Mathematical content of a receipt row; decimal fields are read as the
/// integer they hold.
#[verifier::ext_equal]
pub struct ReceiptRowModel {
    pub receipt_id: Seq<u8>,
    pub block_height: int,
    pub predecessor_id: Seq<char>,
    pub receiver_id: Seq<char>,
    pub receipt_kind: ReceiptType,
}

/// The row specific to Data-kind receipts.
#[derive(Clone, Debug, PartialEq, Eq)]
pub struct ReceiptData {
    pub data_id: Vec<u8>,
    pub receipt_id: Vec<u8>,
    pub data: Option<Vec<u8>>,
}

/// Mathematical content of a Data-kind row.
#[verifier::ext_equal]
pub struct ReceiptDataModel {
    pub data_id: Seq<u8>,
    pub receipt_id: Seq<u8>,
    pub data: Option<Seq<u8>>,
}

/// The row specific to Action-kind receipts: signer identity and gas price.
#[derive(Clone, Debug, PartialEq)]
pub struct ReceiptAction {
    pub receipt_id: Vec<u8>,
    pub signer_id: String,
    pub signer_public_key: String,
    pub gas_price: bigdecimal::BigDecimal,
}

/// Mathematical content of an Action-kind metadata row.
#[verifier::ext_equal]
pub struct ReceiptActionModel {
    pub receipt_id: Seq<u8>,
    pub signer_id: Seq<char>,
    pub signer_public_key: Seq<char>,
    pub gas_price: int,
}

/// One row per action of an Action receipt, carrying its position and its
/// canonically-shaped argument document.
#[derive(Clone, Debug, PartialEq, Eq)]
pub struct ReceiptActionAction {
    pub receipt_id: Vec<u8>,
    pub index: i32,
    pub action_kind: ActionType,
    pub args: JsonDoc,
}

/// Mathematical content of a per-action row.
#[verifier::ext_equal]
pub struct ReceiptActionActionModel {
    pub receipt_id: Seq<u8>,
    pub index: i32,
    pub action_kind: ActionType,
    pub args: Seq<(Seq<char>, JsonValueModel)>,
}

/// One row per awaited input data dependency of an Action receipt.
#[derive(Clone, Debug, PartialEq, Eq)]
pub struct ReceiptActionInputData {
    pub receipt_id: Vec<u8>,
    pub data_id: Vec<u8>,
}

/// Mathematical content of an input-edge row.
#[verifier::ext_equal]
pub struct ReceiptActionInputDataModel {
    pub receipt_id: Seq<u8>,
    pub data_id: Seq<u8>,
}

/// One row per declared output data receiver of an Action receipt.
#[derive(Clone, Debug, PartialEq, Eq)]
pub struct ReceiptActionOutputData {
    pub receipt_id: Vec<u8>,
    pub data_id: Vec<u8>,
    pub receiver_id: String,
}

/// Mathematical content of an output-edge row.
#[verifier::ext_equal]
pub struct ReceiptActionOutputDataModel {
    pub receipt_id: Seq<u8>,
    pub data_id: Seq<u8>,
    pub receiver_id: Seq<char>,
}

impl Receipt {
    pub open spec fn model(&self) -> ReceiptRowModel {
        ReceiptRowModel {
            receipt_id: self.receipt_id@,
            block_height: decimal_int(self.block_height),
            predecessor_id: self.predecessor_id@,
            receiver_id: self.receiver_id@,
            receipt_kind: self.receipt_kind,
        }
    }
}

impl ReceiptData {
    pub open spec fn model(&self) -> ReceiptDataModel {
        ReceiptDataModel {
            data_id: self.data_id@,
            receipt_id: self.receipt_id@,
            data: match self.data {
                Option::Some(d) => Option::Some(d@),
                Option::None => Option::None,
            },
        }
    }
}

impl ReceiptAction {
    pub open spec fn model(&self) -> ReceiptActionModel {
        ReceiptActionModel {
            receipt_id: self.receipt_id@,
            signer_id: self.signer_id@,
            signer_public_key: self.signer_public_key@,
            gas_price: decimal_int(self.gas_price),
        }
    }
}

impl ReceiptActionAction {
    pub open spec fn model(&self) -> ReceiptActionActionModel {
        ReceiptActionActionModel {
            receipt_id: self.receipt_id@,
            index: self.index,
            action_kind: self.action_kind,
            args: self.args.model(),
        }
    }
}

impl ReceiptActionInputData {
    pub open spec fn model(&self) -> ReceiptActionInputDataModel {
        ReceiptActionInputDataModel { receipt_id: self.receipt_id@, data_id: self.data_id@ }
    }
}

impl ReceiptActionOutputData {
    pub open spec fn model(&self) -> ReceiptActionOutputDataModel {
        ReceiptActionOutputDataModel {
            receipt_id: self.receipt_id@,
            data_id: self.data_id@,
            receiver_id: self.receiver_id@,
        }
    }
}

/// The receipt row a receipt and its block height project to: a pure copy of
/// the identifiers, the height as the stored integer, and the classified kind.
pub open spec fn spec_receipt_row(m: ReceiptModel, block_height: u64) -> ReceiptRowModel {
    ReceiptRowModel {
        receipt_id: m.receipt_id,
        block_height: block_height as int,
        predecessor_id: m.predecessor_id,
        receiver_id: m.receiver_id,
        receipt_kind: kind_of(m.body),
    }
}

/// The Data-kind row of a receipt: one exactly when the receipt is of Data
/// kind, copying the data identifier and the optional payload as it stands
/// (an absent payload is meaningful and distinct from an empty one).
pub open spec fn spec_data_row(m: ReceiptModel) -> Option<ReceiptDataModel> {
    match m.body {
        ReceiptBodyModel::Data { data_id, data } => Option::Some(
            ReceiptDataModel { data_id: data_id, receipt_id: m.receipt_id, data: data },
        ),
        ReceiptBodyModel::Action { .. } => Option::None,
    }
}

/// The Action-kind metadata row of a receipt: one exactly when the receipt
/// is of Action kind; the gas price holds the stored value, zero under the
/// documented conversion fallback.
pub open spec fn spec_action_meta_row(m: ReceiptModel) -> Option<ReceiptActionModel> {
    match m.body {
        ReceiptBodyModel::Action { signer_id, signer_public_key, gas_price, .. } => Option::Some(
            ReceiptActionModel {
                receipt_id: m.receipt_id,
                signer_id: signer_id,
                signer_public_key: signer_public_key,
                gas_price: stored_gas_price(gas_price),
            },
        ),
        ReceiptBodyModel::Data { .. } => Option::None,
    }
}

/// The argument document of one action: a total mapping over the eight
/// closed variants, each with its fixed key set. Amount-valued fields
/// (deposit, stake) are decimal strings; all other fields are copied through
/// structurally.
pub open spec fn spec_args_doc(a: ActionModel) -> Seq<(Seq<char>, JsonValueModel)> {
    match a {
        ActionModel::CreateAccount => Seq::<(Seq<char>, JsonValueModel)>::empty(),
        ActionModel::DeployContract { code } => seq![("code"@, JsonValueModel::Str(code))],
        ActionModel::FunctionCall { method_name, args, gas, deposit } => seq![
            ("method_name"@, JsonValueModel::Str(method_name)),
            ("args"@, JsonValueModel::Str(args)),
            ("gas"@, JsonValueModel::U64(gas)),
            ("deposit"@, JsonValueModel::Str(dec_str(deposit as nat))),
        ],
        ActionModel::Transfer { deposit } => seq![
            ("deposit"@, JsonValueModel::Str(dec_str(deposit as nat))),
        ],
        ActionModel::Stake { stake, public_key } => seq![
            ("stake"@, JsonValueModel::Str(dec_str(stake as nat))),
            ("public_key"@, JsonValueModel::Str(public_key)),
        ],
        ActionModel::AddKey { public_key, access_key } => seq![
            ("public_key"@, JsonValueModel::Str(public_key)),
            (
                "access_key"@,
                JsonValueModel::Obj(
                    seq![
                        ("nonce"@, JsonLeafModel::U64(access_key.nonce)),
                        ("permission"@, JsonLeafModel::Str(access_key.permission)),
                    ],
                ),
            ),
        ],
        ActionModel::DeleteKey { public_key } => seq![
            ("public_key"@, JsonValueModel::Str(public_key)),
        ],
        ActionModel::DeleteAccount { beneficiary_id } => seq![
            ("beneficiary_id"@, JsonValueModel::Str(beneficiary_id)),
        ],
    }
}

/// The per-action row for one action at one position.
pub open spec fn spec_action_action_row(
    receipt_id: Seq<u8>,
    index: i32,
    a: ActionModel,
) -> ReceiptActionActionModel {
    ReceiptActionActionModel {
        receipt_id: receipt_id,
        index: index,
        action_kind: action_kind_of(a),
        args: spec_args_doc(a),
    }
}

/// The input-edge row for one awaited data identifier.
pub open spec fn spec_input_row(receipt_id: Seq<u8>, data_id: Seq<u8>) -> ReceiptActionInputDataModel {
    ReceiptActionInputDataModel { receipt_id: receipt_id, data_id: data_id }
}

/// The output-edge row for one declared data receiver.
pub open spec fn spec_output_row(
    receipt_id: Seq<u8>,
    receiver: DataReceiverModel,
) -> ReceiptActionOutputDataModel {
    ReceiptActionOutputDataModel {
        receipt_id: receipt_id,
        data_id: receiver.data_id,
        receiver_id: receiver.receiver_id,
    }
}

impl Receipt {
    /// Builds the top-level receipt row: a pure projection with no failure
    /// path, total over both kinds.
    pub fn from_receipt_view(receipt: &ReceiptView, block_height: u64) -> (r: Self)
        ensures
            r.model() == spec_receipt_row(receipt.model(), block_height),
    {
        let r = Receipt {
            receipt_id: copy_bytes(&receipt.receipt_id),
            block_height: block_height_decimal(block_height),
            predecessor_id: receipt.predecessor_id.clone(),
            receiver_id: receipt.receiver_id.clone(),
            receipt_kind: match &receipt.receipt {
                crate::views::ReceiptEnumView::Action { .. } => ReceiptType::Action,
                crate::views::ReceiptEnumView::Data { .. } => ReceiptType::Data,
            },
        };
        proof {
            assert(r.model() =~= spec_receipt_row(receipt.model(), block_height));
        }
        r
    }
}

impl ReceiptData {
    /// Extracts the Data-kind row; fails with `KindMismatch` exactly when the
    /// receipt is of Action kind.
    pub fn try_from_receipt_view(receipt_view: &ReceiptView) -> (r: Result<Self, ExtractError>)
        ensures
            r is Ok <==> spec_data_row(receipt_view.model()) is Some,
            r matches Ok(row) ==> Option::Some(row.model()) == spec_data_row(receipt_view.model()),
            r matches Err(e) ==> e == ExtractError::KindMismatch && kind_of(
                receipt_view.model().body,
            ) == ReceiptType::Action,
    {
        if let crate::views::ReceiptEnumView::Data { data_id, data } = &receipt_view.receipt {
            let row = ReceiptData {
                receipt_id: copy_bytes(&receipt_view.receipt_id),
                data_id: copy_bytes(data_id),
                data: match data {
                    Option::Some(d) => Option::Some(copy_bytes(d)),
                    Option::None => Option::None,
                },
            };
            proof {
                assert(Option::Some(row.model()) =~= spec_data_row(receipt_view.model()));
            }
            Result::Ok(row)
        } else {
            Result::Err(ExtractError::KindMismatch)
        }
    }
}

impl ReceiptAction {
    /// Extracts the Action-kind metadata row; fails with `KindMismatch`
    /// exactly when the receipt is of Data kind. The gas price is converted
    /// to the stored decimal, with the documented fallback to zero when the
    /// conversion yields nothing.
    pub fn try_from_receipt_view(receipt_view: &ReceiptView) -> (r: Result<Self, ExtractError>)
        ensures
            r is Ok <==> spec_action_meta_row(receipt_view.model()) is Some,
            r matches Ok(row) ==> Option::Some(row.model()) == spec_action_meta_row(
                receipt_view.model(),
            ),
            r matches Err(e) ==> e == ExtractError::KindMismatch && kind_of(
                receipt_view.model().body,
            ) == ReceiptType::Data,
    {
        if let crate::views::ReceiptEnumView::Action {
            signer_id,
            signer_public_key,
            gas_price,
            ..
        } = &receipt_view.receipt {
            let row = ReceiptAction {
                receipt_id: copy_bytes(&receipt_view.receipt_id),
                signer_id: signer_id.clone(),
                signer_public_key: signer_public_key.clone(),
                gas_price: gas_price_decimal(*gas_price),
            };
            proof {
                assert(Option::Some(row.model()) =~= spec_action_meta_row(receipt_view.model()));
            }
            Result::Ok(row)
        } else {
            Result::Err(ExtractError::KindMismatch)
        }
    }
}

impl ReceiptActionAction {
    /// Encodes one action at one position into its row: a pure, total
    /// mapping over exactly eight variants, with no fallback branch.
    pub fn from_action_view(receipt_id: Vec<u8>, index: i32, action_view: &ActionView) -> (r: Self)
        ensures
            r.model() == spec_action_action_row(receipt_id@, index, action_view.model()),
    {
        let ghost am = action_view.model();
        let (action_kind, entries): (ActionType, Vec<(String, JsonValue)>) = match action_view {
            ActionView::CreateAccount => {
                let entries: Vec<(String, JsonValue)> = Vec::new();
                (ActionType::CreateAccount, entries)
            },
            ActionView::DeployContract { code } => {
                let mut entries: Vec<(String, JsonValue)> = Vec::new();
                entries.push((String::from_str("code"), JsonValue::Str(code.clone())));
                (ActionType::DeployContract, entries)
            },
            ActionView::FunctionCall { method_name, args, gas, deposit } => {
                let mut entries: Vec<(String, JsonValue)> = Vec::new();
                entries.push(
                    (String::from_str("method_name"), JsonValue::Str(method_name.clone())),
                );
                entries.push((String::from_str("args"), JsonValue::Str(args.clone())));
                entries.push((String::from_str("gas"), JsonValue::U64(*gas)));
                entries.push(
                    (String::from_str("deposit"), JsonValue::Str(u128_to_dec_str(*deposit))),
                );
                (ActionType::FunctionCall, entries)
            },
            ActionView::Transfer { deposit } => {
                let mut entries: Vec<(String, JsonValue)> = Vec::new();
                entries.push(
                    (String::from_str("deposit"), JsonValue::Str(u128_to_dec_str(*deposit))),
                );
                (ActionType::Transfer, entries)
            },
            ActionView::Stake { stake, public_key } => {
                let mut entries: Vec<(String, JsonValue)> = Vec::new();
                entries.push((String::from_str("stake"), JsonValue::Str(u128_to_dec_str(*stake))));
                entries.push((String::from_str("public_key"), JsonValue::Str(public_key.clone())));
                (ActionType::Stake, entries)
            },
            ActionView::AddKey { public_key, access_key } => {
                let mut members: Vec<(String, JsonLeaf)> = Vec::new();
                members.push((String::from_str("nonce"), JsonLeaf::U64(access_key.nonce)));
                members.push(
                    (String::from_str("permission"), JsonLeaf::Str(access_key.permission.clone())),
                );
                let mut entries: Vec<(String, JsonValue)> = Vec::new();
                entries.push((String::from_str("public_key"), JsonValue::Str(public_key.clone())));
                entries.push((String::from_str("access_key"), JsonValue::Obj(members)));
                (ActionType::AddKey, entries)
            },
            ActionView::DeleteKey { public_key } => {
                let mut entries: Vec<(String, JsonValue)> = Vec::new();
                entries.push((String::from_str("public_key"), JsonValue::Str(public_key.clone())));
                (ActionType::DeleteKey, entries)
            },
            ActionView::DeleteAccount { beneficiary_id } => {
                let mut entries: Vec<(String, JsonValue)> = Vec::new();
                entries.push(
                    (String::from_str("beneficiary_id"), JsonValue::Str(beneficiary_id.clone())),
                );
                (ActionType::DeleteAccount, entries)
            },
        };
        let r = ReceiptActionAction {
            receipt_id: receipt_id,
            index: index,
            action_kind: action_kind,
            args: JsonDoc { entries: entries },
        };
        proof {
            match am {
                ActionModel::AddKey { public_key, access_key } => {
                    assert(r.args.model()[1].1 matches JsonValueModel::Obj(members) && members
                        =~= seq![
                        ("nonce"@, JsonLeafModel::U64(access_key.nonce)),
                        ("permission"@, JsonLeafModel::Str(access_key.permission)),
                    ]);
                },
                _ => {},
            }
            assert(r.args.model() =~= spec_args_doc(am));
            assert(r.model() =~= spec_action_action_row(receipt_id@, index, am));
        }
        r
    }
}

impl ReceiptActionInputData {
    /// Builds the input-edge row for one awaited data identifier; only the
    /// identifier pair is retained, since the data has not yet arrived.
    pub fn from_data_id(receipt_id: Vec<u8>, data_id: Vec<u8>) -> (r: Self)
        ensures
            r.model() == spec_input_row(receipt_id@, data_id@),
    {
        let r = ReceiptActionInputData { receipt_id: receipt_id, data_id: data_id };
        proof {
            assert(r.model() =~= spec_input_row(receipt_id@, data_id@));
        }
        r
    }
}

impl ReceiptActionOutputData {
    /// Builds the output-edge row for one declared data receiver, copying
    /// the data identifier and the receiver identity.
    pub fn from_data_receiver(receipt_id: Vec<u8>, data_receiver: &DataReceiverView) -> (r: Self)
        ensures
            r.model() == spec_output_row(receipt_id@, data_receiver.model()),
    {
        let r = ReceiptActionOutputData {
            receipt_id: receipt_id,
            data_id: copy_bytes(&data_receiver.data_id),
            receiver_id: data_receiver.receiver_id.clone(),
        };
        proof {
            assert(r.model() =~= spec_output_row(receipt_id@, data_receiver.model()));
        }
        r
    }
}

} // verus!
