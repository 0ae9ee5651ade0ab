use rgb_utils::contract_id_serde::{deserialize, serialize, ContractId};
use rgb_utils::ids::{ChannelId, PaymentHash};
use rgb_utils::records::{AssetSchema, RgbInfo, RgbPaymentInfo, TransferInfo};
use rgb_utils::text::{decimal_text, join};

fn contract(n: u8) -> ContractId {
    ContractId([n; 32])
}

fn text_field(id: &ContractId) -> Vec<u8> {
    let text = rgbstd::ContractId::from(id.0).to_string();
    let mut data = (text.len() as u64).to_le_bytes().to_vec();
    data.extend_from_slice(text.as_bytes());
    data
}

#[test]
fn contract_id_text_is_that_of_the_contract_library() {
    let id = contract(7);
    let text = serialize(&id);
    assert_eq!(text, rgbstd::ContractId::from([7u8; 32]).to_string());
    assert!(text.starts_with("rgb:"));
}

#[test]
fn contract_id_is_read_back() {
    let mut bytes = [0u8; 32];
    for i in 0..32 {
        bytes[i] = (i * 7 + 3) as u8;
    }
    let id = ContractId(bytes);
    assert_eq!(deserialize(&serialize(&id)), Some(id));
}

#[test]
fn no_contract_id_in_other_texts() {
    assert_eq!(deserialize(""), None);
    assert_eq!(deserialize("rgb:"), None);
    assert_eq!(deserialize("not a contract id"), None);
}

#[test]
fn contract_ids_are_told_apart() {
    let mut other = contract(1);
    other.0[31] = 2;
    assert!(contract(1).same(&contract(1)));
    assert!(!contract(1).same(&other));
}

#[test]
fn channel_info_bytes() {
    let info = RgbInfo {
        contract_id: contract(9),
        schema: AssetSchema::Cfa,
        local_rgb_amount: 0x0102,
        remote_rgb_amount: u64::MAX,
    };
    let mut expected = text_field(&info.contract_id);
    expected.extend_from_slice(&[2, 0, 0, 0]);
    expected.extend_from_slice(&[2, 1, 0, 0, 0, 0, 0, 0]);
    expected.extend_from_slice(&[255; 8]);
    assert_eq!(info.encode(), expected);
    assert_eq!(RgbInfo::decode(&expected), Some(info));
}

#[test]
fn payment_info_bytes() {
    let info = RgbPaymentInfo {
        contract_id: contract(3),
        amount: 5,
        local_rgb_amount: 6,
        remote_rgb_amount: 7,
        swap_payment: true,
        inbound: false,
    };
    let mut expected = text_field(&info.contract_id);
    expected.extend_from_slice(&[5, 0, 0, 0, 0, 0, 0, 0]);
    expected.extend_from_slice(&[6, 0, 0, 0, 0, 0, 0, 0]);
    expected.extend_from_slice(&[7, 0, 0, 0, 0, 0, 0, 0]);
    expected.extend_from_slice(&[1, 0]);
    assert_eq!(info.encode(), expected);
    assert_eq!(RgbPaymentInfo::decode(&expected), Some(info));
}

#[test]
fn transfer_info_bytes() {
    let info = TransferInfo { contract_id: contract(4), rgb_amount: 258 };
    let mut expected = text_field(&info.contract_id);
    expected.extend_from_slice(&[2, 1, 0, 0, 0, 0, 0, 0]);
    assert_eq!(info.encode(), expected);
    assert_eq!(TransferInfo::decode(&expected), Some(info));
}

#[test]
fn every_schema_is_read_back() {
    let schemas = [AssetSchema::Nia, AssetSchema::Uda, AssetSchema::Cfa, AssetSchema::Ifa];
    for (place, schema) in schemas.iter().enumerate() {
        assert_eq!(schema.to_place(), place as u32);
        assert_eq!(AssetSchema::from_place(place as u32), Some(*schema));
        let info = RgbInfo {
            contract_id: contract(1),
            schema: *schema,
            local_rgb_amount: 1,
            remote_rgb_amount: 2,
        };
        assert_eq!(RgbInfo::decode(&info.encode()), Some(info));
    }
    assert_eq!(AssetSchema::from_place(4), None);
}

#[test]
fn unknown_schema_is_no_record() {
    let mut data = text_field(&contract(1));
    data.extend_from_slice(&[4, 0, 0, 0]);
    data.extend_from_slice(&[0; 16]);
    assert_eq!(RgbInfo::decode(&data), None);
}

#[test]
fn truncated_data_is_no_record() {
    let data = TransferInfo { contract_id: contract(4), rgb_amount: 1 }.encode();
    for n in 0..data.len() {
        assert_eq!(TransferInfo::decode(&data[..n]), None);
    }
}

#[test]
fn trailing_data_is_not_looked_at() {
    let info = TransferInfo { contract_id: contract(4), rgb_amount: 1 };
    let mut data = info.encode();
    data.push(99);
    assert_eq!(TransferInfo::decode(&data), Some(info));
}

#[test]
fn flag_beyond_one_is_no_record() {
    let info = RgbPaymentInfo {
        contract_id: contract(3),
        amount: 5,
        local_rgb_amount: 6,
        remote_rgb_amount: 7,
        swap_payment: true,
        inbound: true,
    };
    let mut data = info.encode();
    let last = data.len() - 1;
    data[last] = 2;
    assert_eq!(RgbPaymentInfo::decode(&data), None);
}

#[test]
fn bad_contract_id_is_no_record() {
    let mut data = 3u64.to_le_bytes().to_vec();
    data.extend_from_slice(b"rgb");
    data.extend_from_slice(&[0; 8]);
    assert_eq!(TransferInfo::decode(&data), None);
}

#[test]
fn hexadecimal_text() {
    let mut bytes = [0u8; 32];
    bytes[0] = 0xab;
    bytes[31] = 0x0f;
    assert_eq!(ChannelId(bytes).to_text(), format!("ab{}0f", "00".repeat(30)));
    assert_eq!(PaymentHash(bytes).to_text(), format!("ab{}0f", "00".repeat(30)));
}

#[test]
fn decimal_numbers() {
    assert_eq!(decimal_text(0), "0");
    assert_eq!(decimal_text(9), "9");
    assert_eq!(decimal_text(10), "10");
    assert_eq!(decimal_text(1234567890), "1234567890");
    assert_eq!(decimal_text(usize::MAX), usize::MAX.to_string());
}

#[test]
fn concatenation() {
    assert_eq!(join("ab", "cd"), "abcd");
    assert_eq!(join("", ""), "");
}
