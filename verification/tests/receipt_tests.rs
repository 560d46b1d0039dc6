use bigdecimal::BigDecimal;
use num_traits::cast::FromPrimitive;

use receipt_rows::ActionType;
use receipt_rows::ActionView;
use receipt_rows::DataReceiverView;
use receipt_rows::ExtractError;
use receipt_rows::JsonValue;
use receipt_rows::Receipt;
use receipt_rows::ReceiptAction;
use receipt_rows::ReceiptData;
use receipt_rows::ReceiptEnumView;
use receipt_rows::ReceiptType;
use receipt_rows::ReceiptView;

fn data_receipt(payload: Option<Vec<u8>>) -> ReceiptView {
    ReceiptView {
        receipt_id: vec![1, 2, 3, 4],
        predecessor_id: "alice.near".to_string(),
        receiver_id: "bob.near".to_string(),
        receipt: ReceiptEnumView::Data { data_id: vec![9, 9, 9], data: payload },
    }
}

fn action_receipt(actions: Vec<ActionView>) -> ReceiptView {
    ReceiptView {
        receipt_id: vec![7, 7, 7, 7],
        predecessor_id: "carol.near".to_string(),
        receiver_id: "dave.near".to_string(),
        receipt: ReceiptEnumView::Action {
            signer_id: "carol.near".to_string(),
            signer_public_key: "ed25519:abc".to_string(),
            gas_price: 625_000_000,
            output_data_receivers: vec![
                DataReceiverView { data_id: vec![1, 1], receiver_id: "eve.near".to_string() },
                DataReceiverView { data_id: vec![2, 2], receiver_id: "frank.near".to_string() },
            ],
            input_data_ids: vec![vec![3, 3], vec![4, 4], vec![5, 5]],
            actions,
        },
    }
}

#[test]
fn receipt_row_copies_fields_and_classifies_data() {
    let view = data_receipt(None);
    let row = Receipt::from_receipt_view(&view, 42);
    assert_eq!(row.receipt_id, vec![1, 2, 3, 4]);
    assert_eq!(row.predecessor_id, "alice.near");
    assert_eq!(row.receiver_id, "bob.near");
    assert_eq!(row.receipt_kind, ReceiptType::Data);
    assert_eq!(row.block_height, BigDecimal::from(42u64));
}

#[test]
fn receipt_row_classifies_action() {
    let view = action_receipt(vec![ActionView::CreateAccount]);
    let row = Receipt::from_receipt_view(&view, 77);
    assert_eq!(row.receipt_kind, ReceiptType::Action);
    assert_eq!(row.block_height, BigDecimal::from(77u64));
}

#[test]
fn data_row_keeps_missing_payload_distinct_from_empty() {
    let absent = ReceiptData::try_from_receipt_view(&data_receipt(None)).unwrap();
    assert_eq!(absent.data, None);
    assert_eq!(absent.data_id, vec![9, 9, 9]);
    assert_eq!(absent.receipt_id, vec![1, 2, 3, 4]);
    let empty = ReceiptData::try_from_receipt_view(&data_receipt(Some(vec![]))).unwrap();
    assert_eq!(empty.data, Some(vec![]));
    let full = ReceiptData::try_from_receipt_view(&data_receipt(Some(vec![8, 8]))).unwrap();
    assert_eq!(full.data, Some(vec![8, 8]));
}

#[test]
fn data_extractor_rejects_action_receipts() {
    let view = action_receipt(vec![]);
    assert_eq!(ReceiptData::try_from_receipt_view(&view), Err(ExtractError::KindMismatch));
}

#[test]
fn action_extractor_rejects_data_receipts() {
    let view = data_receipt(Some(vec![1]));
    assert_eq!(ReceiptAction::try_from_receipt_view(&view), Err(ExtractError::KindMismatch));
}

#[test]
fn action_metadata_preserves_signer_and_gas_price() {
    let view = action_receipt(vec![]);
    let row = ReceiptAction::try_from_receipt_view(&view).unwrap();
    assert_eq!(row.receipt_id, vec![7, 7, 7, 7]);
    assert_eq!(row.signer_id, "carol.near");
    assert_eq!(row.signer_public_key, "ed25519:abc");
    assert_eq!(row.gas_price, BigDecimal::from_u128(625_000_000).unwrap());
}

#[test]
fn gas_price_preserves_full_u128_precision() {
    let mut view = action_receipt(vec![]);
    if let ReceiptEnumView::Action { ref mut gas_price, .. } = view.receipt {
        *gas_price = u128::MAX;
    }
    let row = ReceiptAction::try_from_receipt_view(&view).unwrap();
    assert_eq!(row.gas_price, BigDecimal::from_u128(u128::MAX).unwrap());
    assert_eq!(
        row.gas_price.to_string(),
        "340282366920938463463374607431768211455"
    );
}

fn str_entry(doc: &receipt_rows::JsonDoc, key: &str) -> String {
    for (k, v) in doc.entries.iter() {
        if k == key {
            if let JsonValue::Str(s) = v {
                return s.clone();
            }
            panic!("entry {} is not a string", key);
        }
    }
    panic!("missing entry {}", key);
}

#[test]
fn function_call_document_has_exact_shape() {
    let action = ActionView::FunctionCall {
        method_name: "mint".to_string(),
        args: "eyJhIjoxfQ==".to_string(),
        gas: 300_000_000_000_000,
        deposit: 1,
    };
    let row = receipt_rows::ReceiptActionAction::from_action_view(vec![7], 0, &action);
    assert_eq!(row.action_kind, ActionType::FunctionCall);
    assert_eq!(row.index, 0);
    let entries = &row.args.entries;
    assert_eq!(entries.len(), 4);
    assert_eq!(entries[0].0, "method_name");
    assert_eq!(entries[0].1, JsonValue::Str("mint".to_string()));
    assert_eq!(entries[1].0, "args");
    assert_eq!(entries[1].1, JsonValue::Str("eyJhIjoxfQ==".to_string()));
    assert_eq!(entries[2].0, "gas");
    assert_eq!(entries[2].1, JsonValue::U64(300_000_000_000_000));
    assert_eq!(entries[3].0, "deposit");
    assert_eq!(entries[3].1, JsonValue::Str("1".to_string()));
}

#[test]
fn transfer_of_max_u128_keeps_exact_decimal_expansion() {
    let action = ActionView::Transfer { deposit: u128::MAX };
    let row = receipt_rows::ReceiptActionAction::from_action_view(vec![7], 0, &action);
    assert_eq!(row.action_kind, ActionType::Transfer);
    let deposit = str_entry(&row.args, "deposit");
    assert_eq!(deposit, "340282366920938463463374607431768211455");
    assert_eq!(receipt_rows::parse_u128_dec(&deposit), Some(u128::MAX));
}

#[test]
fn all_eight_variants_encode_and_recover_their_fields() {
    let rid = || vec![5u8];
    let row = |a: &ActionView| receipt_rows::ReceiptActionAction::from_action_view(rid(), 0, a);

    let r = row(&ActionView::CreateAccount);
    assert_eq!(r.action_kind, ActionType::CreateAccount);
    assert!(r.args.entries.is_empty());

    let r = row(&ActionView::DeployContract { code: "AGFiYw==".to_string() });
    assert_eq!(r.action_kind, ActionType::DeployContract);
    assert_eq!(str_entry(&r.args, "code"), "AGFiYw==");

    let r = row(&ActionView::FunctionCall {
        method_name: "m".to_string(),
        args: "e30=".to_string(),
        gas: 10,
        deposit: 340_282_366_920_938_463_463_374_607_431_768_211_454,
    });
    assert_eq!(
        receipt_rows::parse_u128_dec(&str_entry(&r.args, "deposit")),
        Some(340_282_366_920_938_463_463_374_607_431_768_211_454)
    );

    let r = row(&ActionView::Transfer { deposit: 0 });
    assert_eq!(str_entry(&r.args, "deposit"), "0");
    assert_eq!(receipt_rows::parse_u128_dec("0"), Some(0));

    let r = row(&ActionView::Stake { stake: 12_345_678_901_234_567_890, public_key: "pk".to_string() });
    assert_eq!(r.action_kind, ActionType::Stake);
    assert_eq!(str_entry(&r.args, "stake"), "12345678901234567890");
    assert_eq!(str_entry(&r.args, "public_key"), "pk");
    assert_eq!(
        receipt_rows::parse_u128_dec(&str_entry(&r.args, "stake")),
        Some(12_345_678_901_234_567_890)
    );

    let r = row(&ActionView::AddKey {
        public_key: "pk2".to_string(),
        access_key: receipt_rows::AccessKeyView { nonce: 3, permission: "FullAccess".to_string() },
    });
    assert_eq!(r.action_kind, ActionType::AddKey);
    assert_eq!(str_entry(&r.args, "public_key"), "pk2");
    match &r.args.entries[1].1 {
        JsonValue::Obj(members) => {
            assert_eq!(members[0].0, "nonce");
            assert_eq!(members[0].1, receipt_rows::JsonLeaf::U64(3));
            assert_eq!(members[1].0, "permission");
            assert_eq!(members[1].1, receipt_rows::JsonLeaf::Str("FullAccess".to_string()));
        },
        other => panic!("access_key is not an object: {:?}", other),
    }

    let r = row(&ActionView::DeleteKey { public_key: "pk3".to_string() });
    assert_eq!(r.action_kind, ActionType::DeleteKey);
    assert_eq!(str_entry(&r.args, "public_key"), "pk3");

    let r = row(&ActionView::DeleteAccount { beneficiary_id: "heir.near".to_string() });
    assert_eq!(r.action_kind, ActionType::DeleteAccount);
    assert_eq!(str_entry(&r.args, "beneficiary_id"), "heir.near");
}

#[test]
fn edge_row_constructors_keep_the_pairing() {
    let input = receipt_rows::ReceiptActionInputData::from_data_id(vec![1], vec![2]);
    assert_eq!(input.receipt_id, vec![1]);
    assert_eq!(input.data_id, vec![2]);
    let receiver = DataReceiverView { data_id: vec![3], receiver_id: "g.near".to_string() };
    let output = receipt_rows::ReceiptActionOutputData::from_data_receiver(vec![1], &receiver);
    assert_eq!(output.receipt_id, vec![1]);
    assert_eq!(output.data_id, vec![3]);
    assert_eq!(output.receiver_id, "g.near");
}
