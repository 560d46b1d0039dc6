use vstd::prelude::*;

use vstd::string::StringExecFns;

use crate::decimal::dec_str;
use crate::decimal::lemma_dec_str_valid_u128;
use crate::decimal::parse_u128_dec;
use crate::decimal::u128_to_dec_str;
use crate::enums::ActionType;
use crate::json::JsonDoc;
use crate::json::JsonLeaf;
use crate::json::JsonValue;
use crate::model::action_kind_of;
use crate::receipts::spec_args_doc;
use crate::views::AccessKeyView;
use crate::views::ActionView;

verus! {

// Decoding an argument document back into the action it encodes. Together
// with the encoder's contract this makes the encoding a round trip: every
// document the encoder produces decodes to an action with the same content,
// the deposit and stake amounts recovered exactly from their decimal
// strings.

/// Parses a string that must be the canonical decimal expansion of an
/// unsigned 128-bit value: leading zeros, signs or blanks are rejected.
fn parse_canonical_u128(s: &String) -> (r: Option<u128>)
    ensures
        r matches Some(v) ==> s@ == dec_str(v as nat),
        r is None ==> forall|v: u128| s@ != dec_str(v as nat),
{
    match parse_u128_dec(s.as_str()) {
        Option::Some(v) => {
            let canon = u128_to_dec_str(v);
            if canon == *s {
                Option::Some(v)
            } else {
                proof {
                    assert forall|v2: u128| s@ != dec_str(v2 as nat) by {
                        if s@ == dec_str(v2 as nat) {
                            lemma_dec_str_valid_u128(v2);
                        }
                    }
                }
                Option::None
            }
        },
        Option::None => {
            proof {
                assert forall|v2: u128| s@ != dec_str(v2 as nat) by {
                    if s@ == dec_str(v2 as nat) {
                        lemma_dec_str_valid_u128(v2);
                    }
                }
            }
            Option::None
        },
    }
}

/// Decodes an argument document of a given action kind back into the
/// action it encodes. Succeeds exactly on the documents the encoder
/// produces for that kind, and then recovers every field value: the
/// encoding is lossless.
pub fn decode_action(kind: ActionType, doc: &JsonDoc) -> (r: Option<ActionView>)
    ensures
        r matches Some(a) ==> action_kind_of(a.model()) == kind && spec_args_doc(a.model())
            == doc.model(),
        r is None ==> forall|am: crate::model::ActionModel|
            action_kind_of(am) == kind ==> spec_args_doc(am) != doc.model(),
{
    match kind {
        ActionType::CreateAccount => {
            if doc.entries.len() == 0 {
                let a = ActionView::CreateAccount;
                proof {
                    assert(spec_args_doc(a.model()) =~= doc.model());
                }
                return Option::Some(a);
            }
            proof {
                assert forall|am: crate::model::ActionModel| action_kind_of(am) == kind implies
                    spec_args_doc(am) != doc.model() by {
                    if spec_args_doc(am) == doc.model() {
                        match am {
                            crate::model::ActionModel::CreateAccount => {
                                assert(doc.model().len() == 0);
                                assert(false);
                            },
                            _ => {
                                assert(false);
                            },
                        }
                    }
                }
            }
            Option::None
        },
        ActionType::DeployContract => {
            if doc.entries.len() == 1 && doc.entries[0].0 == String::from_str("code") {
                if let JsonValue::Str(code) = &doc.entries[0].1 {
                    let a = ActionView::DeployContract { code: code.clone() };
                    proof {
                        assert(spec_args_doc(a.model()) =~= doc.model());
                    }
                    return Option::Some(a);
                }
            }
            proof {
                assert forall|am: crate::model::ActionModel| action_kind_of(am) == kind implies
                    spec_args_doc(am) != doc.model() by {
                    if spec_args_doc(am) == doc.model() {
                        match am {
                            crate::model::ActionModel::DeployContract { code } => {
                                assert(doc.model().len() == 1);
                                assert(doc.model()[0] == ("code"@, crate::json::JsonValueModel::Str(code)));
                                assert(doc.entries@[0].0@ == "code"@);
                                assert(doc.entries@[0].1.model() is Str);
                                assert(false);
                            },
                            _ => {
                                assert(false);
                            },
                        }
                    }
                }
            }
            Option::None
        },
        ActionType::FunctionCall => {
            if doc.entries.len() == 4 && doc.entries[0].0 == String::from_str("method_name")
                && doc.entries[1].0 == String::from_str("args") && doc.entries[2].0
                == String::from_str("gas") && doc.entries[3].0 == String::from_str("deposit") {
                if let (
                    JsonValue::Str(method_name),
                    JsonValue::Str(args),
                    JsonValue::U64(gas),
                    JsonValue::Str(deposit_s),
                ) = (&doc.entries[0].1, &doc.entries[1].1, &doc.entries[2].1, &doc.entries[3].1) {
                    if let Option::Some(deposit) = parse_canonical_u128(deposit_s) {
                        let a = ActionView::FunctionCall {
                            method_name: method_name.clone(),
                            args: args.clone(),
                            gas: *gas,
                            deposit: deposit,
                        };
                        proof {
                            assert(spec_args_doc(a.model()) =~= doc.model());
                        }
                        return Option::Some(a);
                    }
                }
            }
            proof {
                assert forall|am: crate::model::ActionModel| action_kind_of(am) == kind implies
                    spec_args_doc(am) != doc.model() by {
                    if spec_args_doc(am) == doc.model() {
                        match am {
                            crate::model::ActionModel::FunctionCall { method_name, args, gas, deposit } => {
                                assert(doc.model().len() == 4);
                                assert(doc.model()[0] == ("method_name"@, crate::json::JsonValueModel::Str(method_name)));
                                assert(doc.model()[1] == ("args"@, crate::json::JsonValueModel::Str(args)));
                                assert(doc.model()[2] == ("gas"@, crate::json::JsonValueModel::U64(gas)));
                                assert(doc.model()[3] == ("deposit"@, crate::json::JsonValueModel::Str(dec_str(deposit as nat))));
                                assert(doc.entries@[0].0@ == "method_name"@);
                                assert(doc.entries@[1].0@ == "args"@);
                                assert(doc.entries@[2].0@ == "gas"@);
                                assert(doc.entries@[3].0@ == "deposit"@);
                                assert(doc.entries@[0].1.model() is Str);
                                assert(doc.entries@[1].1.model() is Str);
                                assert(doc.entries@[2].1.model() is U64);
                                assert(doc.entries@[3].1.model() is Str);
                                assert(doc.entries@[3].1.model()->Str_0 == dec_str(deposit as nat));
                                assert(false);
                            },
                            _ => {
                                assert(false);
                            },
                        }
                    }
                }
            }
            Option::None
        },
        ActionType::Transfer => {
            if doc.entries.len() == 1 && doc.entries[0].0 == String::from_str("deposit") {
                if let JsonValue::Str(deposit_s) = &doc.entries[0].1 {
                    if let Option::Some(deposit) = parse_canonical_u128(deposit_s) {
                        let a = ActionView::Transfer { deposit: deposit };
                        proof {
                            assert(spec_args_doc(a.model()) =~= doc.model());
                        }
                        return Option::Some(a);
                    }
                }
            }
            proof {
                assert forall|am: crate::model::ActionModel| action_kind_of(am) == kind implies
                    spec_args_doc(am) != doc.model() by {
                    if spec_args_doc(am) == doc.model() {
                        match am {
                            crate::model::ActionModel::Transfer { deposit } => {
                                assert(doc.model().len() == 1);
                                assert(doc.model()[0] == ("deposit"@, crate::json::JsonValueModel::Str(dec_str(deposit as nat))));
                                assert(doc.entries@[0].0@ == "deposit"@);
                                assert(doc.entries@[0].1.model() is Str);
                                assert(doc.entries@[0].1.model()->Str_0 == dec_str(deposit as nat));
                                assert(false);
                            },
                            _ => {
                                assert(false);
                            },
                        }
                    }
                }
            }
            Option::None
        },
        ActionType::Stake => {
            if doc.entries.len() == 2 && doc.entries[0].0 == String::from_str("stake")
                && doc.entries[1].0 == String::from_str("public_key") {
                if let (JsonValue::Str(stake_s), JsonValue::Str(public_key)) = (
                    &doc.entries[0].1,
                    &doc.entries[1].1,
                ) {
                    if let Option::Some(stake) = parse_canonical_u128(stake_s) {
                        let a = ActionView::Stake {
                            stake: stake,
                            public_key: public_key.clone(),
                        };
                        proof {
                            assert(spec_args_doc(a.model()) =~= doc.model());
                        }
                        return Option::Some(a);
                    }
                }
            }
            proof {
                assert forall|am: crate::model::ActionModel| action_kind_of(am) == kind implies
                    spec_args_doc(am) != doc.model() by {
                    if spec_args_doc(am) == doc.model() {
                        match am {
                            crate::model::ActionModel::Stake { stake, public_key } => {
                                assert(doc.model().len() == 2);
                                assert(doc.model()[0] == ("stake"@, crate::json::JsonValueModel::Str(dec_str(stake as nat))));
                                assert(doc.model()[1] == ("public_key"@, crate::json::JsonValueModel::Str(public_key)));
                                assert(doc.entries@[0].0@ == "stake"@);
                                assert(doc.entries@[1].0@ == "public_key"@);
                                assert(doc.entries@[0].1.model() is Str);
                                assert(doc.entries@[1].1.model() is Str);
                                assert(doc.entries@[0].1.model()->Str_0 == dec_str(stake as nat));
                                assert(false);
                            },
                            _ => {
                                assert(false);
                            },
                        }
                    }
                }
            }
            Option::None
        },
        ActionType::AddKey => {
            if doc.entries.len() == 2 && doc.entries[0].0 == String::from_str("public_key")
                && doc.entries[1].0 == String::from_str("access_key") {
                if let (JsonValue::Str(public_key), JsonValue::Obj(members)) = (
                    &doc.entries[0].1,
                    &doc.entries[1].1,
                ) {
                    if members.len() == 2 && members[0].0 == String::from_str("nonce")
                        && members[1].0 == String::from_str("permission") {
                        if let (JsonLeaf::U64(nonce), JsonLeaf::Str(permission)) = (
                            &members[0].1,
                            &members[1].1,
                        ) {
                            let a = ActionView::AddKey {
                                public_key: public_key.clone(),
                                access_key: AccessKeyView {
                                    nonce: *nonce,
                                    permission: permission.clone(),
                                },
                            };
                            proof {
                                let inner = seq![
                                    ("nonce"@, crate::json::JsonLeafModel::U64(*nonce)),
                                    ("permission"@, crate::json::JsonLeafModel::Str(permission@)),
                                ];
                                let mapped = members@.map_values(
                                    |m: (String, JsonLeaf)| (m.0@, m.1.model()),
                                );
                                assert(mapped.len() == 2);
                                assert(mapped[0] == inner[0]);
                                assert(mapped[1] == inner[1]);
                                assert(mapped =~= inner);
                                assert(doc.entries@[1].1.model()
                                    == crate::json::JsonValueModel::Obj(inner));
                                assert(spec_args_doc(a.model())[1].1
                                    == crate::json::JsonValueModel::Obj(inner));
                                assert(spec_args_doc(a.model()) =~= doc.model());
                            }
                            return Option::Some(a);
                        }
                    }
                }
            }
            proof {
                assert forall|am: crate::model::ActionModel| action_kind_of(am) == kind implies
                    spec_args_doc(am) != doc.model() by {
                    if spec_args_doc(am) == doc.model() {
                        match am {
                            crate::model::ActionModel::AddKey { public_key, access_key } => {
                                assert(doc.model().len() == 2);
                                assert(doc.model()[0] == ("public_key"@, crate::json::JsonValueModel::Str(public_key)));
                                let inner = seq![
                                    ("nonce"@, crate::json::JsonLeafModel::U64(access_key.nonce)),
                                    ("permission"@, crate::json::JsonLeafModel::Str(access_key.permission)),
                                ];
                                assert(doc.model()[1] == ("access_key"@, crate::json::JsonValueModel::Obj(inner)));
                                assert(doc.entries@[0].0@ == "public_key"@);
                                assert(doc.entries@[1].0@ == "access_key"@);
                                assert(doc.entries@[0].1.model() is Str);
                                assert(doc.entries@[1].1.model() is Obj);
                                let ms = doc.entries@[1].1.model()->Obj_0;
                                assert(ms == inner);
                                assert(ms.len() == 2);
                                assert(ms[0] == inner[0]);
                                assert(ms[1] == inner[1]);
                                assert(false);
                            },
                            _ => {
                                assert(false);
                            },
                        }
                    }
                }
            }
            Option::None
        },
        ActionType::DeleteKey => {
            if doc.entries.len() == 1 && doc.entries[0].0 == String::from_str("public_key") {
                if let JsonValue::Str(public_key) = &doc.entries[0].1 {
                    let a = ActionView::DeleteKey { public_key: public_key.clone() };
                    proof {
                        assert(spec_args_doc(a.model()) =~= doc.model());
                    }
                    return Option::Some(a);
                }
            }
            proof {
                assert forall|am: crate::model::ActionModel| action_kind_of(am) == kind implies
                    spec_args_doc(am) != doc.model() by {
                    if spec_args_doc(am) == doc.model() {
                        match am {
                            crate::model::ActionModel::DeleteKey { public_key } => {
                                assert(doc.model().len() == 1);
                                assert(doc.model()[0] == ("public_key"@, crate::json::JsonValueModel::Str(public_key)));
                                assert(doc.entries@[0].0@ == "public_key"@);
                                assert(doc.entries@[0].1.model() is Str);
                                assert(false);
                            },
                            _ => {
                                assert(false);
                            },
                        }
                    }
                }
            }
            Option::None
        },
        ActionType::DeleteAccount => {
            if doc.entries.len() == 1 && doc.entries[0].0 == String::from_str("beneficiary_id") {
                if let JsonValue::Str(beneficiary_id) = &doc.entries[0].1 {
                    let a = ActionView::DeleteAccount {
                        beneficiary_id: beneficiary_id.clone(),
                    };
                    proof {
                        assert(spec_args_doc(a.model()) =~= doc.model());
                    }
                    return Option::Some(a);
                }
            }
            proof {
                assert forall|am: crate::model::ActionModel| action_kind_of(am) == kind implies
                    spec_args_doc(am) != doc.model() by {
                    if spec_args_doc(am) == doc.model() {
                        match am {
                            crate::model::ActionModel::DeleteAccount { beneficiary_id } => {
                                assert(doc.model().len() == 1);
                                assert(doc.model()[0] == ("beneficiary_id"@, crate::json::JsonValueModel::Str(beneficiary_id)));
                                assert(doc.entries@[0].0@ == "beneficiary_id"@);
                                assert(doc.entries@[0].1.model() is Str);
                                assert(false);
                            },
                            _ => {
                                assert(false);
                            },
                        }
                    }
                }
            }
            Option::None
        },
    }
}

} // verus!
