use bridge_core::chunk::ChunkedEventAssembler;
use bridge_core::error::RoundLoaderError;
use bridge_core::event::RelayRoundProposalEvent;
use bridge_core::types::Pubkey;

fn relay(n: u8) -> Pubkey {
    Pubkey::new_from_array([n; 32])
}

fn event_of(count: u8) -> RelayRoundProposalEvent {
    let keys: Vec<Pubkey> = (1..=count).map(relay).collect();
    RelayRoundProposalEvent::new(1, keys, 1759950990).unwrap()
}

#[test]
fn event_packs_to_the_documented_bytes() {
    let event = RelayRoundProposalEvent::new(0x01020304, vec![relay(0xAA)], 0x0A0B0C0D).unwrap();
    let mut expected: Vec<u8> = vec![44, 0, 0, 0, 4, 3, 2, 1, 1, 0, 0, 0];
    expected.extend_from_slice(&[0xAA; 32]);
    expected.extend_from_slice(&[0x0D, 0x0C, 0x0B, 0x0A]);
    assert_eq!(event.len(), 44);
    assert_eq!(event.pack(), expected);
}

#[test]
fn event_length_is_twelve_plus_thirty_two_per_relay() {
    assert_eq!(event_of(0).len(), 12);
    assert_eq!(event_of(3).len(), 108);
    assert_eq!(event_of(60).len(), 1932);
    assert_eq!(event_of(3).pack().len(), 112);
}

#[test]
fn event_unpacks_to_what_was_packed() {
    let event = event_of(3);
    let back = RelayRoundProposalEvent::unpack(&event.pack()).unwrap();
    assert_eq!(back.round_num, 1);
    assert_eq!(back.round_end, 1759950990);
    assert_eq!(back.relays.to_vec(), vec![relay(1), relay(2), relay(3)]);
}

#[test]
fn event_with_repeated_relay_cannot_be_made_or_unpacked() {
    assert!(RelayRoundProposalEvent::new(1, vec![relay(1), relay(1)], 5).is_none());
    let mut bytes: Vec<u8> = vec![76, 0, 0, 0, 1, 0, 0, 0, 2, 0, 0, 0];
    bytes.extend_from_slice(&[7; 64]);
    bytes.extend_from_slice(&[5, 0, 0, 0]);
    assert!(RelayRoundProposalEvent::unpack(&bytes).is_none());
    bytes[12] = 8;
    assert!(RelayRoundProposalEvent::unpack(&bytes).is_some());
}

#[test]
fn unpack_refuses_wrong_lengths() {
    let good = event_of(2).pack();
    assert!(RelayRoundProposalEvent::unpack(&good).is_some());
    let mut short = good.clone();
    short.pop();
    assert!(RelayRoundProposalEvent::unpack(&short).is_none());
    let mut long = good.clone();
    long.push(0);
    assert!(RelayRoundProposalEvent::unpack(&long).is_none());
    let mut prefix = good.clone();
    prefix[0] = prefix[0].wrapping_add(1);
    assert!(RelayRoundProposalEvent::unpack(&prefix).is_none());
    let mut count = good.clone();
    count[8] = 3;
    assert!(RelayRoundProposalEvent::unpack(&count).is_none());
    assert!(RelayRoundProposalEvent::unpack(&Vec::new()).is_none());
    assert!(RelayRoundProposalEvent::unpack(&vec![0u8; 15]).is_none());
}

#[test]
fn unpack_takes_the_smallest_event() {
    let bytes: Vec<u8> = vec![12, 0, 0, 0, 9, 0, 0, 0, 0, 0, 0, 0, 3, 0, 0, 0];
    let event = RelayRoundProposalEvent::unpack(&bytes).unwrap();
    assert_eq!(event.round_num, 9);
    assert_eq!(event.round_end, 3);
    assert_eq!(event.relays.len(), 0);
}

#[test]
fn assembler_starts_zeroed_and_incomplete() {
    let assembler = ChunkedEventAssembler::new(64);
    assert_eq!(assembler.capacity(), 64);
    assert!(!assembler.is_sealed());
    assert!(!assembler.is_complete());
    assert_eq!(assembler.payload(), None);
}

#[test]
fn chunk_past_the_end_is_refused() {
    let mut assembler = ChunkedEventAssembler::new(10);
    assert_eq!(assembler.write(0, &vec![1u8; 10]), Ok(()));
    assert_eq!(
        assembler.write(1, &vec![1u8; 10]),
        Err(RoundLoaderError::InvalidChunkOffset)
    );
    assert_eq!(
        assembler.write(11, &Vec::new()),
        Err(RoundLoaderError::InvalidChunkOffset)
    );
    assert_eq!(assembler.write(10, &Vec::new()), Ok(()));
    assert_eq!(
        assembler.write(u32::MAX, &vec![1u8; 1]),
        Err(RoundLoaderError::InvalidChunkOffset)
    );
    assert_eq!(
        assembler.write(0, &vec![1u8; 11]),
        Err(RoundLoaderError::InvalidChunkOffset)
    );
}

#[test]
fn chunks_in_any_order_give_the_same_payload() {
    let payload = event_of(60).pack();
    assert_eq!(payload.len(), 1936);
    let pieces: Vec<(u32, Vec<u8>)> = vec![
        (0, payload[0..800].to_vec()),
        (800, payload[800..1600].to_vec()),
        (1600, payload[1600..1936].to_vec()),
    ];
    let orders: Vec<Vec<usize>> = vec![
        vec![0, 1, 2],
        vec![0, 2, 1],
        vec![1, 0, 2],
        vec![1, 2, 0],
        vec![2, 0, 1],
        vec![2, 1, 0],
    ];
    for order in orders {
        let mut assembler = ChunkedEventAssembler::new(5000);
        for index in order {
            assert_eq!(assembler.write(pieces[index].0, &pieces[index].1), Ok(()));
        }
        assert!(assembler.is_complete());
        assert_eq!(assembler.payload(), Some(payload.clone()));
    }
}

#[test]
fn payload_is_missing_until_every_byte_is_written() {
    let payload = event_of(60).pack();
    let mut assembler = ChunkedEventAssembler::new(5000);
    assert_eq!(assembler.write(0, &payload[0..800].to_vec()), Ok(()));
    assert_eq!(assembler.payload(), None);
    assert_eq!(assembler.write(1600, &payload[1600..1936].to_vec()), Ok(()));
    assert_eq!(assembler.payload(), None);
    assert_eq!(assembler.write(801, &payload[801..1600].to_vec()), Ok(()));
    assert_eq!(assembler.payload(), None);
    assert_eq!(assembler.write(800, &payload[800..801].to_vec()), Ok(()));
    assert_eq!(assembler.payload(), Some(payload));
}

#[test]
fn length_prefix_must_be_written_itself() {
    let mut assembler = ChunkedEventAssembler::new(16);
    assert!(!assembler.is_complete());
    assert_eq!(assembler.write(0, &vec![0u8, 0, 0]), Ok(()));
    assert!(!assembler.is_complete());
    assert_eq!(assembler.write(3, &vec![0u8]), Ok(()));
    assert!(assembler.is_complete());
    assert_eq!(assembler.payload(), Some(vec![0u8, 0, 0, 0]));
}

#[test]
fn declared_length_beyond_the_buffer_is_never_complete() {
    let mut assembler = ChunkedEventAssembler::new(8);
    assert_eq!(assembler.write(0, &vec![5u8, 0, 0, 0, 1, 2, 3, 4]), Ok(()));
    assert!(!assembler.is_complete());
    assert_eq!(assembler.write(0, &vec![4u8]), Ok(()));
    assert!(assembler.is_complete());
    assert_eq!(assembler.payload(), Some(vec![4u8, 0, 0, 0, 1, 2, 3, 4]));
}

#[test]
fn rewriting_a_window_is_harmless_and_the_last_write_wins() {
    let mut assembler = ChunkedEventAssembler::new(8);
    assert_eq!(assembler.write(0, &vec![2u8, 0, 0, 0, 9, 9]), Ok(()));
    assert_eq!(assembler.write(0, &vec![2u8, 0, 0, 0, 9, 9]), Ok(()));
    assert_eq!(assembler.payload(), Some(vec![2u8, 0, 0, 0, 9, 9]));
    assert_eq!(assembler.write(4, &vec![7u8]), Ok(()));
    assert_eq!(assembler.payload(), Some(vec![2u8, 0, 0, 0, 7, 9]));
}

#[test]
fn sealed_assembler_takes_no_chunk() {
    let mut assembler = ChunkedEventAssembler::new(8);
    assert_eq!(assembler.write(0, &vec![0u8, 0, 0, 0]), Ok(()));
    assembler.seal();
    assert!(assembler.is_sealed());
    assert_eq!(
        assembler.write(4, &vec![1u8]),
        Err(RoundLoaderError::AlreadyInitialized)
    );
    assert_eq!(
        assembler.write(100, &vec![1u8]),
        Err(RoundLoaderError::AlreadyInitialized)
    );
    assert_eq!(assembler.payload(), Some(vec![0u8, 0, 0, 0]));
}

#[test]
fn tiny_buffer_is_never_complete() {
    let mut assembler = ChunkedEventAssembler::new(3);
    assert_eq!(assembler.write(0, &vec![0u8, 0, 0]), Ok(()));
    assert!(!assembler.is_complete());
    let empty = ChunkedEventAssembler::new(0);
    assert!(!empty.is_complete());
}
