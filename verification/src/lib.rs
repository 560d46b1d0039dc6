//! Normalizes blockchain receipts into relational rows: one top-level
//! receipt row per receipt, a payload or metadata row by the receipt's
//! kind, one row per action with a canonically-shaped argument document,
//! and the dependency edges to the data receipts it awaits or produces.
//! Every builder carries a contract that pins its result to a mathematical
//! model of the input, and the module `laws` proves the properties that
//! hold of the transformation as a whole.

mod decimal;
mod decode;
mod enums;
mod json;
mod laws;
mod model;
mod numeric;
mod receipts;
mod transform;
mod views;

pub use decode::decode_action;
pub use decimal::dec_str;
pub use decimal::dec_val;
pub use decimal::digit_char;
pub use decimal::digit_val;
pub use decimal::is_dec_digit;
pub use decimal::lemma_dec_str_injective;
pub use decimal::lemma_dec_str_valid_u128;
pub use decimal::lemma_dec_str_digits;
pub use decimal::lemma_dec_val_of_dec_str;
pub use decimal::parse_u128_dec;
pub use decimal::u128_to_dec_str;
pub use decimal::valid_dec_u128;
pub use enums::ActionType;
pub use enums::ReceiptType;
pub use json::JsonDoc;
pub use json::JsonLeaf;
pub use json::JsonLeafModel;
pub use json::JsonValue;
pub use json::JsonValueModel;
pub use laws::lemma_exactly_one_kind_row;
pub use laws::lemma_kind_guards_exclusive;
pub use laws::lemma_action_row_indices;
pub use laws::lemma_edge_rows_pairing;
pub use laws::lemma_args_doc_injective;
pub use laws::lemma_transform_deterministic;
pub use model::AccessKeyModel;
pub use model::ActionModel;
pub use model::DataReceiverModel;
pub use model::ReceiptBodyModel;
pub use model::ReceiptModel;
pub use numeric::decimal_int;
pub use numeric::u128_conversion_succeeds;
pub use numeric::stored_gas_price;
pub use numeric::gas_price_decimal;
pub use numeric::block_height_decimal;
pub use receipts::ExtractError;
pub use receipts::Receipt;
pub use receipts::ReceiptRowModel;
pub use receipts::ReceiptData;
pub use receipts::ReceiptDataModel;
pub use receipts::ReceiptAction;
pub use receipts::ReceiptActionModel;
pub use receipts::ReceiptActionAction;
pub use receipts::ReceiptActionActionModel;
pub use receipts::ReceiptActionInputData;
pub use receipts::ReceiptActionInputDataModel;
pub use receipts::ReceiptActionOutputData;
pub use receipts::ReceiptActionOutputDataModel;
pub use receipts::spec_receipt_row;
pub use receipts::spec_data_row;
pub use receipts::spec_action_meta_row;
pub use receipts::spec_args_doc;
pub use receipts::spec_action_action_row;
pub use receipts::spec_input_row;
pub use receipts::spec_output_row;
pub use model::action_kind_of;
pub use model::kind_of;
pub use transform::ReceiptRows;
pub use transform::ReceiptRowsModel;
pub use transform::spec_action_count;
pub use transform::spec_action_rows;
pub use transform::spec_body_rows;
pub use transform::spec_input_rows;
pub use transform::spec_output_rows;
pub use transform::spec_transform;
pub use transform::transform_receipt;
pub use views::AccessKeyView;
pub use views::ActionView;
pub use views::DataReceiverView;
pub use views::ReceiptEnumView;
pub use views::ReceiptView;
