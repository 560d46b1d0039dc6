use vstd::prelude::*;

use crate::model::ActionModel;
use crate::model::DataReceiverModel;
use crate::model::ReceiptBodyModel;
use crate::model::ReceiptModel;
use crate::receipts::Receipt;
use crate::receipts::ReceiptAction;
use crate::receipts::ReceiptActionAction;
use crate::receipts::ReceiptActionActionModel;
use crate::receipts::ReceiptActionInputData;
use crate::receipts::ReceiptActionInputDataModel;
use crate::receipts::ReceiptActionModel;
use crate::receipts::ReceiptActionOutputData;
use crate::receipts::ReceiptActionOutputDataModel;
use crate::receipts::ReceiptData;
use crate::receipts::ReceiptDataModel;
use crate::receipts::ReceiptRowModel;
use crate::receipts::copy_bytes;
use crate::receipts::spec_action_action_row;
use crate::receipts::spec_action_meta_row;
use crate::receipts::spec_data_row;
use crate::receipts::spec_input_row;
use crate::receipts::spec_output_row;
use crate::receipts::spec_receipt_row;
use crate::views::ActionView;
use crate::views::DataReceiverView;
use crate::views::ReceiptEnumView;
use crate::views::ReceiptView;

verus! {

// The full transformation of one receipt: the top-level row always, then
// exactly one of the Data payload row or the Action metadata row with the
// per-action rows and the dependency edges, selected by the classified kind.

/// Every row derived from one receipt, handed off together.
#[derive(Clone, Debug, PartialEq)]
pub struct ReceiptRows {
    pub receipt: Receipt,
    pub data: Option<ReceiptData>,
    pub action: Option<ReceiptAction>,
    pub actions: Vec<ReceiptActionAction>,
    pub output_data: Vec<ReceiptActionOutputData>,
    pub input_data: Vec<ReceiptActionInputData>,
}

/// Mathematical content of a full row set.
#[verifier::ext_equal]
pub struct ReceiptRowsModel {
    pub receipt: ReceiptRowModel,
    pub data: Option<ReceiptDataModel>,
    pub action: Option<ReceiptActionModel>,
    pub actions: Seq<ReceiptActionActionModel>,
    pub output_data: Seq<ReceiptActionOutputDataModel>,
    pub input_data: Seq<ReceiptActionInputDataModel>,
}

impl ReceiptRows {
    pub open spec fn model(&self) -> ReceiptRowsModel {
        ReceiptRowsModel {
            receipt: self.receipt.model(),
            data: match self.data {
                Option::Some(row) => Option::Some(row.model()),
                Option::None => Option::None,
            },
            action: match self.action {
                Option::Some(row) => Option::Some(row.model()),
                Option::None => Option::None,
            },
            actions: self.actions@.map_values(|row: ReceiptActionAction| row.model()),
            output_data: self.output_data@.map_values(
                |row: ReceiptActionOutputData| row.model(),
            ),
            input_data: self.input_data@.map_values(|row: ReceiptActionInputData| row.model()),
        }
    }
}

/// The per-action rows of a receipt: one per action, indexed by the action's
/// original position, in original order.
pub open spec fn spec_action_rows(
    receipt_id: Seq<u8>,
    actions: Seq<ActionModel>,
) -> Seq<ReceiptActionActionModel> {
    Seq::new(actions.len(), |i: int| spec_action_action_row(receipt_id, i as i32, actions[i]))
}

/// The output-edge rows of a receipt: one per declared data receiver,
/// preserving each (data identifier, receiver) pairing.
pub open spec fn spec_output_rows(
    receipt_id: Seq<u8>,
    receivers: Seq<DataReceiverModel>,
) -> Seq<ReceiptActionOutputDataModel> {
    Seq::new(receivers.len(), |i: int| spec_output_row(receipt_id, receivers[i]))
}

/// The input-edge rows of a receipt: one per awaited input data identifier.
pub open spec fn spec_input_rows(
    receipt_id: Seq<u8>,
    data_ids: Seq<Seq<u8>>,
) -> Seq<ReceiptActionInputDataModel> {
    Seq::new(data_ids.len(), |i: int| spec_input_row(receipt_id, data_ids[i]))
}

/// The rows of an Action-kind body, and empty families for a Data-kind one.
pub open spec fn spec_body_rows(m: ReceiptModel) -> (Seq<ReceiptActionActionModel>, Seq<
    ReceiptActionOutputDataModel,
>, Seq<ReceiptActionInputDataModel>) {
    match m.body {
        ReceiptBodyModel::Action { output_data_receivers, input_data_ids, actions, .. } => (
            spec_action_rows(m.receipt_id, actions),
            spec_output_rows(m.receipt_id, output_data_receivers),
            spec_input_rows(m.receipt_id, input_data_ids),
        ),
        ReceiptBodyModel::Data { .. } => (
            Seq::<ReceiptActionActionModel>::empty(),
            Seq::<ReceiptActionOutputDataModel>::empty(),
            Seq::<ReceiptActionInputDataModel>::empty(),
        ),
    }
}

/// The full row set one receipt and its block height transform to.
pub open spec fn spec_transform(m: ReceiptModel, block_height: u64) -> ReceiptRowsModel {
    ReceiptRowsModel {
        receipt: spec_receipt_row(m, block_height),
        data: spec_data_row(m),
        action: spec_action_meta_row(m),
        actions: spec_body_rows(m).0,
        output_data: spec_body_rows(m).1,
        input_data: spec_body_rows(m).2,
    }
}

/// How many actions a receipt view carries; zero for a Data-kind receipt.
pub open spec fn spec_action_count(receipt: &ReceiptView) -> nat {
    match receipt.model().body {
        ReceiptBodyModel::Action { actions, .. } => actions.len(),
        ReceiptBodyModel::Data { .. } => 0,
    }
}

/// Transforms one receipt into its full row set. Pure and stateless: the
/// result is a function of the receipt's content and the block height
/// alone, so reprocessing an identical receipt yields identical rows.
pub fn transform_receipt(receipt: &ReceiptView, block_height: u64) -> (r: ReceiptRows)
    requires
        spec_action_count(receipt) <= i32::MAX,
    ensures
        r.model() == spec_transform(receipt.model(), block_height),
{
    let receipt_row = Receipt::from_receipt_view(receipt, block_height);
    let data_row = match ReceiptData::try_from_receipt_view(receipt) {
        Result::Ok(row) => Option::Some(row),
        Result::Err(_) => Option::None,
    };
    let action_row = match ReceiptAction::try_from_receipt_view(receipt) {
        Result::Ok(row) => Option::Some(row),
        Result::Err(_) => Option::None,
    };
    let mut action_rows: Vec<ReceiptActionAction> = Vec::new();
    let mut output_rows: Vec<ReceiptActionOutputData> = Vec::new();
    let mut input_rows: Vec<ReceiptActionInputData> = Vec::new();
    let ghost m = receipt.model();
    if let ReceiptEnumView::Action { output_data_receivers, input_data_ids, actions, .. } =
        &receipt.receipt {
        let ghost actions_m = actions@.map_values(|a: ActionView| a.model());
        let ghost receivers_m = output_data_receivers@.map_values(
            |rc: DataReceiverView| rc.model(),
        );
        let ghost ids_m = input_data_ids@.map_values(|d: Vec<u8>| d@);
        let mut i: usize = 0;
        while i < actions.len()
            invariant
                i <= actions@.len(),
                actions@.len() == actions_m.len() <= i32::MAX,
                actions_m == actions@.map_values(|a: ActionView| a.model()),
                m.receipt_id == receipt.receipt_id@,
                action_rows@.map_values(|row: ReceiptActionAction| row.model())
                    =~= spec_action_rows(m.receipt_id, actions_m).take(i as int),
            decreases actions@.len() - i,
        {
            let ghost prev = action_rows@.map_values(|row: ReceiptActionAction| row.model());
            let row = ReceiptActionAction::from_action_view(
                copy_bytes(&receipt.receipt_id),
                i as i32,
                &actions[i],
            );
            action_rows.push(row);
            i = i + 1;
            proof {
                let mapped = action_rows@.map_values(|r2: ReceiptActionAction| r2.model());
                let specd = spec_action_rows(m.receipt_id, actions_m);
                assert(action_rows@.len() == prev.len() + 1);
                assert(prev.len() == i - 1);
                assert(mapped.len() == i);
                assert forall|idx: int| 0 <= idx < i implies mapped[idx] == specd[idx] by {
                    if idx < i - 1 {
                        assert(mapped[idx] == prev[idx]);
                        assert(prev[idx] == specd.take(i - 1)[idx]);
                    } else {
                        assert(mapped[idx] == row.model());
                        assert(actions_m[idx] == actions@[idx].model());
                    }
                }
                assert(mapped =~= specd.take(i as int));
            }
        }
        let mut j: usize = 0;
        while j < output_data_receivers.len()
            invariant
                j <= output_data_receivers@.len(),
                output_data_receivers@.len() == receivers_m.len(),
                receivers_m == output_data_receivers@.map_values(
                    |rc: DataReceiverView| rc.model(),
                ),
                m.receipt_id == receipt.receipt_id@,
                output_rows@.map_values(|row: ReceiptActionOutputData| row.model())
                    =~= spec_output_rows(m.receipt_id, receivers_m).take(j as int),
            decreases output_data_receivers@.len() - j,
        {
            let ghost prev = output_rows@.map_values(|r2: ReceiptActionOutputData| r2.model());
            let row = ReceiptActionOutputData::from_data_receiver(
                copy_bytes(&receipt.receipt_id),
                &output_data_receivers[j],
            );
            output_rows.push(row);
            j = j + 1;
            proof {
                let mapped = output_rows@.map_values(|r2: ReceiptActionOutputData| r2.model());
                let specd = spec_output_rows(m.receipt_id, receivers_m);
                assert(output_rows@.len() == prev.len() + 1);
                assert(prev.len() == j - 1);
                assert(mapped.len() == j);
                assert forall|idx: int| 0 <= idx < j implies mapped[idx] == specd[idx] by {
                    if idx < j - 1 {
                        assert(mapped[idx] == prev[idx]);
                        assert(prev[idx] == specd.take(j - 1)[idx]);
                    } else {
                        assert(mapped[idx] == row.model());
                        assert(receivers_m[idx] == output_data_receivers@[idx].model());
                    }
                }
                assert(mapped =~= specd.take(j as int));
            }
        }
        let mut k: usize = 0;
        while k < input_data_ids.len()
            invariant
                k <= input_data_ids@.len(),
                input_data_ids@.len() == ids_m.len(),
                ids_m == input_data_ids@.map_values(|d: Vec<u8>| d@),
                m.receipt_id == receipt.receipt_id@,
                input_rows@.map_values(|row: ReceiptActionInputData| row.model())
                    =~= spec_input_rows(m.receipt_id, ids_m).take(k as int),
            decreases input_data_ids@.len() - k,
        {
            let ghost prev = input_rows@.map_values(|r2: ReceiptActionInputData| r2.model());
            let row = ReceiptActionInputData::from_data_id(
                copy_bytes(&receipt.receipt_id),
                copy_bytes(&input_data_ids[k]),
            );
            input_rows.push(row);
            k = k + 1;
            proof {
                let mapped = input_rows@.map_values(|r2: ReceiptActionInputData| r2.model());
                let specd = spec_input_rows(m.receipt_id, ids_m);
                assert(input_rows@.len() == prev.len() + 1);
                assert(prev.len() == k - 1);
                assert(mapped.len() == k);
                assert forall|idx: int| 0 <= idx < k implies mapped[idx] == specd[idx] by {
                    if idx < k - 1 {
                        assert(mapped[idx] == prev[idx]);
                        assert(prev[idx] == specd.take(k - 1)[idx]);
                    } else {
                        assert(mapped[idx] == row.model());
                        assert(ids_m[idx] == input_data_ids@[idx]@);
                    }
                }
                assert(mapped =~= specd.take(k as int));
            }
        }
        proof {
            assert(spec_body_rows(m).0 =~= spec_action_rows(m.receipt_id, actions_m));
            assert(spec_action_rows(m.receipt_id, actions_m).take(actions_m.len() as int)
                =~= spec_action_rows(m.receipt_id, actions_m));
            assert(spec_output_rows(m.receipt_id, receivers_m).take(receivers_m.len() as int)
                =~= spec_output_rows(m.receipt_id, receivers_m));
            assert(spec_input_rows(m.receipt_id, ids_m).take(ids_m.len() as int)
                =~= spec_input_rows(m.receipt_id, ids_m));
        }
    }
    let r = ReceiptRows {
        receipt: receipt_row,
        data: data_row,
        action: action_row,
        actions: action_rows,
        output_data: output_rows,
        input_data: input_rows,
    };
    proof {
        assert(r.model() =~= spec_transform(m, block_height));
    }
    r
}

} // verus!
