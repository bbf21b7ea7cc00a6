use borsh::BorshSerialize;
use bridge_core::chunk::ChunkedEventAssembler;
use bridge_core::state::{DepositTokenEventWithLen, WithdrawalTokenEventWithLen};
use bridge_core::types::{EverAddress, MsgAddrStd, Pubkey};

fn identity(n: u8) -> Pubkey {
    Pubkey::new_from_array([n; 32])
}

fn account(workchain_id: i8, n: u8) -> EverAddress {
    EverAddress::AddrStd(MsgAddrStd { workchain_id, address: [n; 32] })
}

#[test]
fn deposit_event_packs_to_its_length_and_fields() {
    let event = DepositTokenEventWithLen::new(
        identity(0x11),
        0x0102030405060708,
        account(-1, 0x22),
        account(0, 0x33),
    );
    let mut expected: Vec<u8> = vec![108, 0, 0, 0];
    expected.extend_from_slice(&[0x11; 32]);
    expected.extend_from_slice(&[8, 7, 6, 5, 4, 3, 2, 1]);
    expected.extend_from_slice(&[0, 0xFF]);
    expected.extend_from_slice(&[0x22; 32]);
    expected.extend_from_slice(&[0, 0]);
    expected.extend_from_slice(&[0x33; 32]);
    let packed = event.pack();
    assert_eq!(packed, expected);
    assert_eq!(packed.len(), 112);
    assert_eq!(event.len as usize, packed.len() - 4);
}

#[test]
fn withdrawal_event_packs_to_its_length_and_fields() {
    let event = WithdrawalTokenEventWithLen::new(
        account(127, 0x44),
        258,
        identity(0x55),
        String::from("USDT"),
    )
    .unwrap();
    let mut expected: Vec<u8> = vec![82, 0, 0, 0];
    expected.extend_from_slice(&[0, 127]);
    expected.extend_from_slice(&[0x44; 32]);
    expected.extend_from_slice(&[2, 1, 0, 0, 0, 0, 0, 0]);
    expected.extend_from_slice(&[0x55; 32]);
    expected.extend_from_slice(&[4, 0, 0, 0, b'U', b'S', b'D', b'T']);
    let packed = event.pack().unwrap();
    assert_eq!(packed, expected);
    assert_eq!(packed.len(), 86);
    assert_eq!(event.len as usize, packed.len() - 4);
}

#[test]
fn length_field_counts_the_bytes_after_it_for_any_symbol() {
    for symbol in ["", "A", "WEVER", "é€", "a-rather-long-token-symbol-0123456789"] {
        let event =
            WithdrawalTokenEventWithLen::new(account(0, 1), 1, identity(2), String::from(symbol))
                .unwrap();
        let packed = event.pack().unwrap();
        assert_eq!(event.len as usize, 78 + symbol.len());
        assert_eq!(packed.len(), 4 + event.len as usize);
        assert_eq!(&packed[0..4], &event.len.to_le_bytes());
        assert_eq!(&packed[82..], symbol.as_bytes());
    }
}

#[test]
fn negative_workchains_pack_in_twos_complement() {
    for (workchain_id, byte) in [(0i8, 0u8), (1, 1), (127, 127), (-1, 255), (-128, 128)] {
        let event =
            DepositTokenEventWithLen::new(identity(1), 0, account(workchain_id, 2), account(0, 3));
        assert_eq!(event.pack()[45], byte);
    }
}

#[test]
fn fields_pack_as_borsh_packs_them() {
    let event = WithdrawalTokenEventWithLen::new(
        account(-5, 0x44),
        0xDEADBEEF00112233,
        identity(0x55),
        String::from("wToken"),
    )
    .unwrap();
    let packed = event.pack().unwrap();
    assert_eq!(&packed[0..4], event.len.try_to_vec().unwrap().as_slice());
    assert_eq!(&packed[5..6], (-5i8).try_to_vec().unwrap().as_slice());
    assert_eq!(&packed[6..38], [0x44u8; 32].try_to_vec().unwrap().as_slice());
    assert_eq!(
        &packed[38..46],
        0xDEADBEEF00112233u64.try_to_vec().unwrap().as_slice()
    );
    assert_eq!(&packed[46..78], [0x55u8; 32].try_to_vec().unwrap().as_slice());
    assert_eq!(
        &packed[78..],
        String::from("wToken").try_to_vec().unwrap().as_slice()
    );
}

#[test]
fn withdrawal_payload_is_assembled_from_chunks_in_any_order() {
    let event = WithdrawalTokenEventWithLen::new(
        account(0, 7),
        900,
        identity(8),
        "S".repeat(2000),
    )
    .unwrap();
    let payload = event.pack().unwrap();
    assert_eq!(payload.len(), 2082);
    let pieces: Vec<(u32, Vec<u8>)> = vec![
        (0, payload[0..800].to_vec()),
        (800, payload[800..1600].to_vec()),
        (1600, payload[1600..].to_vec()),
    ];
    let orders: Vec<Vec<usize>> = vec![
        vec![0, 1, 2],
        vec![0, 2, 1],
        vec![1, 0, 2],
        vec![1, 2, 0],
        vec![2, 0, 1],
        vec![2, 1, 0],
    ];
    for order in orders {
        let mut assembler = ChunkedEventAssembler::new(5000);
        for index in order {
            assert_eq!(assembler.write(pieces[index].0, &pieces[index].1), Ok(()));
        }
        assert_eq!(assembler.payload(), Some(payload.clone()));
    }
}

#[test]
fn withdrawal_payload_with_a_missing_byte_is_not_complete() {
    let event =
        WithdrawalTokenEventWithLen::new(account(0, 7), 900, identity(8), String::from("USDT"))
            .unwrap();
    let payload = event.pack().unwrap();
    let last: usize = payload.len() - 1;
    let mut assembler = ChunkedEventAssembler::new(5000);
    assert_eq!(assembler.write(0, &payload[0..last].to_vec()), Ok(()));
    assert!(!assembler.is_complete());
    assert_eq!(assembler.payload(), None);
    assert_eq!(assembler.write(last as u32, &payload[last..].to_vec()), Ok(()));
    assert!(assembler.is_complete());
    assert_eq!(assembler.payload(), Some(payload));
}
