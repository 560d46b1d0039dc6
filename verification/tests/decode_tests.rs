use receipt_rows::AccessKeyView;
use receipt_rows::ActionType;
use receipt_rows::ActionView;
use receipt_rows::JsonDoc;
use receipt_rows::JsonValue;
use receipt_rows::ReceiptActionAction;
use receipt_rows::decode_action;

fn round_trip(action: ActionView) {
    let row = ReceiptActionAction::from_action_view(vec![1], 0, &action);
    let decoded = decode_action(row.action_kind, &row.args);
    assert_eq!(decoded, Some(action));
}

#[test]
fn every_variant_round_trips_through_its_document() {
    round_trip(ActionView::CreateAccount);
    round_trip(ActionView::DeployContract { code: "AGFiYw==".to_string() });
    round_trip(ActionView::FunctionCall {
        method_name: "mint".to_string(),
        args: "eyJhIjoxfQ==".to_string(),
        gas: 300_000_000_000_000,
        deposit: 1,
    });
    round_trip(ActionView::Transfer { deposit: u128::MAX });
    round_trip(ActionView::Stake { stake: 0, public_key: "pk".to_string() });
    round_trip(ActionView::AddKey {
        public_key: "pk2".to_string(),
        access_key: AccessKeyView { nonce: 88, permission: "FullAccess".to_string() },
    });
    round_trip(ActionView::DeleteKey { public_key: "pk3".to_string() });
    round_trip(ActionView::DeleteAccount { beneficiary_id: "heir.near".to_string() });
}

#[test]
fn decoding_against_the_wrong_kind_fails() {
    let row = ReceiptActionAction::from_action_view(
        vec![1],
        0,
        &ActionView::Transfer { deposit: 5 },
    );
    assert_eq!(decode_action(ActionType::Stake, &row.args), None);
    assert_eq!(decode_action(ActionType::CreateAccount, &row.args), None);
}

#[test]
fn decoding_rejects_a_non_canonical_amount() {
    let doc = JsonDoc {
        entries: vec![("deposit".to_string(), JsonValue::Str("007".to_string()))],
    };
    assert_eq!(decode_action(ActionType::Transfer, &doc), None);
    let doc = JsonDoc {
        entries: vec![("deposit".to_string(), JsonValue::Str("-1".to_string()))],
    };
    assert_eq!(decode_action(ActionType::Transfer, &doc), None);
}

#[test]
fn decoding_rejects_a_malformed_document() {
    let doc = JsonDoc { entries: vec![] };
    assert_eq!(decode_action(ActionType::Transfer, &doc), None);
    let doc = JsonDoc {
        entries: vec![("deposit".to_string(), JsonValue::U64(7))],
    };
    assert_eq!(decode_action(ActionType::Transfer, &doc), None);
    let doc = JsonDoc {
        entries: vec![("amount".to_string(), JsonValue::Str("7".to_string()))],
    };
    assert_eq!(decode_action(ActionType::Transfer, &doc), None);
}
