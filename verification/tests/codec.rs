use shopchain_escrow::codec::{decode_record, encode_record};
use shopchain_escrow::{AccountId, Deal, DealState};

fn sample_deal(state: DealState) -> Deal {
    Deal {
        buyer: AccountId::new([1; 32]),
        seller: AccountId::new([2; 32]),
        amount: 1000,
        deal_id: 7,
        state,
        bump: 254,
    }
}

#[test]
fn record_image_is_exact() {
    let bytes = encode_record(&sample_deal(DealState::Funded));
    assert_eq!(bytes.len(), Deal::LEN);
    assert_eq!(&bytes[0..32], &[1u8; 32]);
    assert_eq!(&bytes[32..64], &[2u8; 32]);
    assert_eq!(&bytes[64..72], &1000u64.to_le_bytes());
    assert_eq!(&bytes[72..80], &7u64.to_le_bytes());
    assert_eq!(bytes[80], 1);
    assert_eq!(bytes[81], 254);
}

#[test]
fn record_round_trips() {
    for state in [DealState::Created, DealState::Funded, DealState::Released] {
        let deal = sample_deal(state);
        let decoded = decode_record(&encode_record(&deal)).expect("a fresh image decodes");
        assert_eq!(decoded, deal);
    }
}

#[test]
fn bad_images_are_refused() {
    let mut bytes = encode_record(&sample_deal(DealState::Created));
    bytes[80] = 3;
    assert_eq!(decode_record(&bytes), None);
    let mut short = encode_record(&sample_deal(DealState::Created));
    short.pop();
    assert_eq!(decode_record(&short), None);
}
