use receipt_rows::ActionView;
use receipt_rows::DataReceiverView;
use receipt_rows::ReceiptEnumView;
use receipt_rows::ReceiptType;
use receipt_rows::ReceiptView;
use receipt_rows::transform_receipt;

fn action_receipt() -> ReceiptView {
    ReceiptView {
        receipt_id: vec![10, 20, 30],
        predecessor_id: "p.near".to_string(),
        receiver_id: "r.near".to_string(),
        receipt: ReceiptEnumView::Action {
            signer_id: "s.near".to_string(),
            signer_public_key: "ed25519:key".to_string(),
            gas_price: 100,
            output_data_receivers: vec![
                DataReceiverView { data_id: vec![1], receiver_id: "a.near".to_string() },
                DataReceiverView { data_id: vec![2], receiver_id: "b.near".to_string() },
                DataReceiverView { data_id: vec![3], receiver_id: "c.near".to_string() },
            ],
            input_data_ids: vec![vec![4], vec![5]],
            actions: vec![
                ActionView::CreateAccount,
                ActionView::Transfer { deposit: 9 },
                ActionView::DeleteKey { public_key: "pk".to_string() },
            ],
        },
    }
}

fn data_receipt() -> ReceiptView {
    ReceiptView {
        receipt_id: vec![11, 22],
        predecessor_id: "p.near".to_string(),
        receiver_id: "r.near".to_string(),
        receipt: ReceiptEnumView::Data { data_id: vec![6], data: Some(vec![7, 8]) },
    }
}

#[test]
fn action_receipt_produces_action_rows_only() {
    let rows = transform_receipt(&action_receipt(), 1000);
    assert_eq!(rows.receipt.receipt_kind, ReceiptType::Action);
    assert!(rows.data.is_none());
    assert!(rows.action.is_some());
    assert_eq!(rows.actions.len(), 3);
    assert_eq!(rows.output_data.len(), 3);
    assert_eq!(rows.input_data.len(), 2);
}

#[test]
fn data_receipt_produces_data_row_only() {
    let rows = transform_receipt(&data_receipt(), 1000);
    assert_eq!(rows.receipt.receipt_kind, ReceiptType::Data);
    assert!(rows.data.is_some());
    assert!(rows.action.is_none());
    assert!(rows.actions.is_empty());
    assert!(rows.output_data.is_empty());
    assert!(rows.input_data.is_empty());
}

#[test]
fn action_indices_are_contiguous_and_zero_based() {
    let rows = transform_receipt(&action_receipt(), 1000);
    for (i, row) in rows.actions.iter().enumerate() {
        assert_eq!(row.index, i as i32);
        assert_eq!(row.receipt_id, vec![10, 20, 30]);
    }
    assert_eq!(rows.actions[0].action_kind, receipt_rows::ActionType::CreateAccount);
    assert_eq!(rows.actions[1].action_kind, receipt_rows::ActionType::Transfer);
    assert_eq!(rows.actions[2].action_kind, receipt_rows::ActionType::DeleteKey);
}

#[test]
fn edge_rows_preserve_every_pairing() {
    let rows = transform_receipt(&action_receipt(), 1000);
    let expected_out = [(vec![1u8], "a.near"), (vec![2u8], "b.near"), (vec![3u8], "c.near")];
    for (row, (data_id, receiver)) in rows.output_data.iter().zip(expected_out.iter()) {
        assert_eq!(&row.data_id, data_id);
        assert_eq!(&row.receiver_id, receiver);
        assert_eq!(row.receipt_id, vec![10, 20, 30]);
    }
    let expected_in = [vec![4u8], vec![5u8]];
    for (row, data_id) in rows.input_data.iter().zip(expected_in.iter()) {
        assert_eq!(&row.data_id, data_id);
        assert_eq!(row.receipt_id, vec![10, 20, 30]);
    }
}

#[test]
fn reprocessing_is_idempotent() {
    let first = transform_receipt(&action_receipt(), 1000);
    let second = transform_receipt(&action_receipt(), 1000);
    assert_eq!(first, second);
    let third = transform_receipt(&data_receipt(), 5);
    let fourth = transform_receipt(&data_receipt(), 5);
    assert_eq!(third, fourth);
}
