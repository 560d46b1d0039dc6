use vstd::prelude::*;

use crate::decimal::lemma_dec_str_injective;
use crate::enums::ReceiptType;
use crate::model::AccessKeyModel;
use crate::model::ActionModel;
use crate::model::ReceiptBodyModel;
use crate::model::ReceiptModel;
use crate::model::action_kind_of;
use crate::model::kind_of;
use crate::receipts::spec_action_meta_row;
use crate::receipts::spec_args_doc;
use crate::receipts::spec_data_row;
use crate::transform::spec_transform;

verus! {

// The properties that hold of the transformation as a whole, each proved
// from the contracts the builders carry.

/// Exactly one of the Data payload row and the Action metadata row is
/// produced for any receipt, and the one produced matches the classified
/// kind.
pub proof fn lemma_exactly_one_kind_row(m: ReceiptModel, block_height: u64)
    ensures
        spec_transform(m, block_height).data is Some <==> kind_of(m.body) == ReceiptType::Data,
        spec_transform(m, block_height).action is Some <==> kind_of(m.body)
            == ReceiptType::Action,
        spec_transform(m, block_height).data is Some <==> !(spec_transform(
            m,
            block_height,
        ).action is Some),
        spec_transform(m, block_height).receipt.receipt_kind == kind_of(m.body),
{
}

/// The kind-guarded extractors are exclusive: the Data extractor succeeds
/// exactly on Data-kind receipts, the Action extractor exactly on
/// Action-kind ones, and never both.
pub proof fn lemma_kind_guards_exclusive(m: ReceiptModel)
    ensures
        spec_data_row(m) is Some <==> kind_of(m.body) == ReceiptType::Data,
        spec_action_meta_row(m) is Some <==> kind_of(m.body) == ReceiptType::Action,
        !(spec_data_row(m) is Some && spec_action_meta_row(m) is Some),
{
}

/// For an Action receipt with n actions, the per-action rows are exactly n,
/// and the row at position i carries index i, the kind of the i-th action in
/// original order, and that action's argument document: the indices form the
/// contiguous zero-based sequence with no gaps or repeats.
pub proof fn lemma_action_row_indices(m: ReceiptModel, block_height: u64)
    requires
        m.body matches ReceiptBodyModel::Action { actions, .. } && actions.len() <= i32::MAX,
    ensures
        m.body matches ReceiptBodyModel::Action { actions, .. } ==> {
            let rows = spec_transform(m, block_height).actions;
            &&& rows.len() == actions.len()
            &&& forall|i: int|
                0 <= i < rows.len() ==> (#[trigger] rows[i]).index == i as i32
                    && rows[i].action_kind == action_kind_of(actions[i]) && rows[i].args
                    == spec_args_doc(actions[i]) && rows[i].receipt_id == m.receipt_id
        },
{
}

/// For a receipt with k declared output data receivers and m awaited input
/// data identifiers, exactly k output-edge rows and m input-edge rows are
/// produced, each preserving the original pairing in original order.
pub proof fn lemma_edge_rows_pairing(m: ReceiptModel, block_height: u64)
    ensures
        m.body matches ReceiptBodyModel::Action { output_data_receivers, input_data_ids, .. }
            ==> {
            let out_rows = spec_transform(m, block_height).output_data;
            let in_rows = spec_transform(m, block_height).input_data;
            &&& out_rows.len() == output_data_receivers.len()
            &&& forall|i: int|
                0 <= i < out_rows.len() ==> (#[trigger] out_rows[i]).data_id
                    == output_data_receivers[i].data_id && out_rows[i].receiver_id
                    == output_data_receivers[i].receiver_id && out_rows[i].receipt_id
                    == m.receipt_id
            &&& in_rows.len() == input_data_ids.len()
            &&& forall|i: int|
                0 <= i < in_rows.len() ==> (#[trigger] in_rows[i]).data_id == input_data_ids[i]
                    && in_rows[i].receipt_id == m.receipt_id
        },
        m.body is Data ==> spec_transform(m, block_height).output_data.len() == 0
            && spec_transform(m, block_height).input_data.len() == 0,
{
}

/// Argument encoding is lossless: two actions of the same kind with the
/// same argument document are the same action. With the decimal round-trip
/// lemmas this says the document determines every field exactly, the
/// deposit and stake amounts included, at full 128-bit precision.
pub proof fn lemma_args_doc_injective(a1: ActionModel, a2: ActionModel)
    requires
        action_kind_of(a1) == action_kind_of(a2),
        spec_args_doc(a1) == spec_args_doc(a2),
    ensures
        a1 == a2,
{
    let d1 = spec_args_doc(a1);
    let d2 = spec_args_doc(a2);
    match (a1, a2) {
        (
            ActionModel::FunctionCall { deposit: dep1, .. },
            ActionModel::FunctionCall { deposit: dep2, .. },
        ) => {
            assert(d1[3] == d2[3]);
            lemma_dec_str_injective(dep1 as nat, dep2 as nat);
            assert(a1 =~= a2);
        },
        (ActionModel::Transfer { deposit: dep1 }, ActionModel::Transfer { deposit: dep2 }) => {
            assert(d1[0] == d2[0]);
            lemma_dec_str_injective(dep1 as nat, dep2 as nat);
            assert(a1 =~= a2);
        },
        (ActionModel::Stake { stake: st1, .. }, ActionModel::Stake { stake: st2, .. }) => {
            assert(d1[0] == d2[0]);
            assert(d1[1] == d2[1]);
            lemma_dec_str_injective(st1 as nat, st2 as nat);
            assert(a1 =~= a2);
        },
        (
            ActionModel::AddKey { public_key: p1, access_key: k1 },
            ActionModel::AddKey { public_key: p2, access_key: k2 },
        ) => {
            assert(d1[0] == d2[0]);
            assert(d1[1] == d2[1]);
            assert(d1[0].1 == crate::json::JsonValueModel::Str(p1));
            assert(d2[0].1 == crate::json::JsonValueModel::Str(p2));
            assert(p1 == p2);
            let s1 = seq![
                ("nonce"@, crate::json::JsonLeafModel::U64(k1.nonce)),
                ("permission"@, crate::json::JsonLeafModel::Str(k1.permission)),
            ];
            let s2 = seq![
                ("nonce"@, crate::json::JsonLeafModel::U64(k2.nonce)),
                ("permission"@, crate::json::JsonLeafModel::Str(k2.permission)),
            ];
            assert(d1[1].1 == crate::json::JsonValueModel::Obj(s1));
            assert(d2[1].1 == crate::json::JsonValueModel::Obj(s2));
            assert(s1[0] == s2[0]);
            assert(s1[1] == s2[1]);
            assert(k1 =~= k2);
            assert(a1 =~= a2);
        },
        _ => {
            assert(a1 =~= a2);
        },
    }
}

/// Reprocessing is idempotent: the transformation is a pure function of a
/// receipt's content and the block height, so two receipts with identical
/// content yield identical row sets.
pub proof fn lemma_transform_deterministic(m1: ReceiptModel, m2: ReceiptModel, block_height: u64)
    requires
        m1 == m2,
    ensures
        spec_transform(m1, block_height) == spec_transform(m2, block_height),
{
}

} // verus!
