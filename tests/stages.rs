use sf_indexer::natives::{GasParameters, NFE_EXPECTED_STRUCT_TYPE_TAG, NFE_UNABLE_TO_PARSE_ADDRESS};
use sf_indexer::processor::{BlockProcessor, BlockRow, WritePlan};
use sf_indexer::progress::{get_start_height, settle_commit};
use sf_indexer::reader::{BlockData, ProviderMessage, ReaderAction, ReaderError, ReaderPhase, WindowedReader};
use sf_indexer::window::{BlockWindow, WINDOW_SIZE};
use std::collections::HashMap;

fn data(height: u64) -> BlockData {
    BlockData { height, payload: vec![1, 2, height as u8], cursor: format!("c{}", height) }
}

#[test]
fn zero_gas_table() {
    let g = GasParameters::zeros();
    assert_eq!(g.account.create_address.base_cost, 0);
    assert_eq!(g.bls12381.per_byte_hashing_cost, 0);
    assert_eq!(g.ristretto255.scalar_from_512_bits.from_512_bits_cost, 0);
    assert_eq!(g.signature.ed25519_verify.per_msg_byte_hashing_cost, 0);
    assert_eq!(g.type_info.name_of_type.unit_cost, 0);
    assert_eq!(g.event.write_to_event_store.unit_cost, 0);
    assert_eq!(NFE_EXPECTED_STRUCT_TYPE_TAG, 1);
    assert_eq!(NFE_UNABLE_TO_PARSE_ADDRESS, 2);
}

#[test]
fn windows_follow_each_other() {
    let w = BlockWindow::starting_at(7).unwrap();
    assert_eq!((w.start, w.end), (7, 7 + WINDOW_SIZE));
    let n = w.next().unwrap();
    assert_eq!((n.start, n.end), (507, 1007));
    assert!(w.contains(7));
    assert!(w.contains(506));
    assert!(!w.contains(507));
    assert!(!w.contains(6));
}

#[test]
fn window_past_the_top_is_refused() {
    assert!(BlockWindow::starting_at(u64::MAX - 499).is_none());
    let last = BlockWindow::starting_at(u64::MAX - 500).unwrap();
    assert_eq!(last.end, u64::MAX);
    assert!(last.next().is_none());
}

#[test]
fn reader_delivers_and_refills() {
    let mut r = WindowedReader::new(0).unwrap();
    assert_eq!(r.phase(), ReaderPhase::Init);
    assert!(matches!(r.on_message(ProviderMessage::EndOfStream), Err(ReaderError::WrongPhase)));
    assert_eq!(r.open().map(|w| (w.start, w.end)), Ok((0, 500)));
    assert_eq!(r.open().map(|w| w.start), Err(ReaderError::WrongPhase));
    match r.on_message(ProviderMessage::NewBlock(data(0))) {
        Ok(ReaderAction::Deliver(d)) => {
            assert_eq!(d.height, 0);
            assert_eq!(d.payload, vec![1, 2, 0]);
            assert_eq!(d.cursor, "c0");
        }
        other => panic!("expected a block, got {:?}", other),
    }
    match r.on_message(ProviderMessage::EndOfWindow) {
        Ok(ReaderAction::Open(w)) => assert_eq!((w.start, w.end), (500, 1000)),
        other => panic!("expected a new window, got {:?}", other),
    }
    assert_eq!(r.phase(), ReaderPhase::Streaming);
    assert_eq!(r.refills(), 1);
    assert_eq!(r.window().start, 500);
    assert!(matches!(r.on_message(ProviderMessage::EndOfStream), Ok(ReaderAction::Closed)));
    assert_eq!(r.phase(), ReaderPhase::Closed);
    assert!(matches!(r.on_message(ProviderMessage::NewBlock(data(1))), Err(ReaderError::WrongPhase)));
    assert_eq!(r.phase(), ReaderPhase::Closed);
}

#[test]
fn reader_counts_two_refills_for_twelve_hundred_blocks() {
    let mut r = WindowedReader::new(0).unwrap();
    r.open().unwrap();
    let mut delivered = Vec::new();
    for h in 0..1200u64 {
        if h > 0 && h % 500 == 0 {
            assert!(matches!(r.on_message(ProviderMessage::EndOfWindow), Ok(ReaderAction::Open(_))));
        }
        match r.on_message(ProviderMessage::NewBlock(data(h))) {
            Ok(ReaderAction::Deliver(d)) => delivered.push(d.height),
            other => panic!("expected a block, got {:?}", other),
        }
    }
    assert!(matches!(r.on_message(ProviderMessage::EndOfStream), Ok(ReaderAction::Closed)));
    assert_eq!(r.refills(), 2);
    assert_eq!(delivered, (0..1200u64).collect::<Vec<u64>>());
}

#[test]
fn reader_window_overflow_keeps_state() {
    assert!(WindowedReader::new(u64::MAX - 499).is_none());
    let mut r = WindowedReader::new(u64::MAX - 500).unwrap();
    r.open().unwrap();
    assert!(matches!(r.on_message(ProviderMessage::EndOfWindow), Err(ReaderError::WindowOverflow)));
    assert_eq!(r.phase(), ReaderPhase::Streaming);
    assert_eq!(r.refills(), 0);
    assert_eq!(r.window().start, u64::MAX - 500);
}

#[test]
fn start_height_from_marker() {
    assert_eq!(get_start_height(None), Some(0));
    assert_eq!(get_start_height(Some(0)), Some(1));
    assert_eq!(get_start_height(Some(1199)), Some(1200));
    assert_eq!(get_start_height(Some(u64::MAX)), None);
}

#[test]
fn settle_commit_moves_marker_only_on_success() {
    let mut marker = Some(5u64);
    settle_commit(&mut marker, 6, false);
    assert_eq!(marker, Some(5));
    settle_commit(&mut marker, 6, true);
    assert_eq!(marker, Some(6));
    let mut none: Option<u64> = None;
    settle_commit(&mut none, 0, false);
    assert_eq!(none, None);
    settle_commit(&mut none, 0, true);
    assert_eq!(none, Some(0));
}

#[test]
fn processor_dispatch_by_module_name() {
    assert_eq!(BlockProcessor::for_module(&"block_to_block_output".to_string()), Some(BlockProcessor::BlockOutput));
    assert_eq!(BlockProcessor::for_module(&"block_to_block".to_string()), None);
    assert_eq!(BlockProcessor::for_module(&"block_to_block_output ".to_string()), None);
    assert_eq!(BlockProcessor::for_module(&String::new()), None);
}

fn apply(store: &mut HashMap<u64, Vec<BlockRow>>, plan: WritePlan) {
    store.insert(plan.height, plan.rows);
}

fn rows_of(store: &HashMap<u64, Vec<BlockRow>>) -> Vec<(u64, u64, Vec<u8>, String)> {
    let mut out: Vec<(u64, u64, Vec<u8>, String)> = store
        .iter()
        .flat_map(|(k, rows)| rows.iter().map(move |r| (*k, r.height, r.payload.clone(), r.cursor.clone())))
        .collect();
    out.sort();
    out
}

#[test]
fn replaying_a_block_writes_the_same_rows() {
    let p = BlockProcessor::BlockOutput;
    let mut once: HashMap<u64, Vec<BlockRow>> = HashMap::new();
    apply(&mut once, p.plan(data(3), 3));
    let mut twice: HashMap<u64, Vec<BlockRow>> = HashMap::new();
    apply(&mut twice, p.plan(data(3), 3));
    apply(&mut twice, p.plan(data(3), 3));
    assert_eq!(rows_of(&once), rows_of(&twice));
    assert_eq!(rows_of(&once), vec![(3, 3, vec![1, 2, 3], "c3".to_string())]);
}
