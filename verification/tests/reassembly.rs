use rusty_sftp::reassembly::OrderedReassembler;

fn permutations(items: Vec<usize>) -> Vec<Vec<usize>> {
    if items.len() <= 1 {
        return vec![items];
    }
    let mut all = Vec::new();
    for i in 0..items.len() {
        let mut rest = items.clone();
        let first = rest.remove(i);
        for mut tail in permutations(rest) {
            tail.insert(0, first);
            all.push(tail);
        }
    }
    all
}

fn source_chunks() -> Vec<Vec<u8>> {
    vec![
        b"alpha".to_vec(),
        b"be".to_vec(),
        Vec::new(),
        b"gamma-gamma".to_vec(),
        b"d".to_vec(),
    ]
}

#[test]
fn new_reassembler_expects_chunk_zero() {
    let reassembler = OrderedReassembler::new();
    assert_eq!(reassembler.next_expected(), 0);
}

#[test]
fn chunks_in_order_leave_at_once() {
    let mut reassembler = OrderedReassembler::new();
    assert_eq!(reassembler.accept(0, b"ab".to_vec()), vec![b"ab".to_vec()]);
    assert_eq!(reassembler.accept(1, b"cd".to_vec()), vec![b"cd".to_vec()]);
    assert_eq!(reassembler.accept(2, b"ef".to_vec()), vec![b"ef".to_vec()]);
    assert_eq!(reassembler.next_expected(), 3);
}

#[test]
fn chunk_ahead_of_its_turn_is_held_back() {
    let mut reassembler = OrderedReassembler::new();
    assert_eq!(reassembler.accept(2, b"ef".to_vec()), Vec::<Vec<u8>>::new());
    assert_eq!(reassembler.accept(1, b"cd".to_vec()), Vec::<Vec<u8>>::new());
    assert_eq!(reassembler.next_expected(), 0);
    assert_eq!(
        reassembler.accept(0, b"ab".to_vec()),
        vec![b"ab".to_vec(), b"cd".to_vec(), b"ef".to_vec()]
    );
    assert_eq!(reassembler.next_expected(), 3);
}

#[test]
fn release_stops_at_the_first_missing_number() {
    let mut reassembler = OrderedReassembler::new();
    assert!(reassembler.accept(1, b"one".to_vec()).is_empty());
    assert!(reassembler.accept(3, b"three".to_vec()).is_empty());
    assert_eq!(
        reassembler.accept(0, b"zero".to_vec()),
        vec![b"zero".to_vec(), b"one".to_vec()]
    );
    assert_eq!(reassembler.next_expected(), 2);
    assert_eq!(
        reassembler.accept(2, b"two".to_vec()),
        vec![b"two".to_vec(), b"three".to_vec()]
    );
    assert_eq!(reassembler.next_expected(), 4);
}

#[test]
fn every_completion_order_restores_the_source() {
    let chunks = source_chunks();
    let expected: Vec<u8> = chunks.concat();
    let orders = permutations((0..chunks.len()).collect());
    assert_eq!(orders.len(), 120);
    for order in orders {
        let mut reassembler = OrderedReassembler::new();
        let mut released: Vec<Vec<u8>> = Vec::new();
        for &number in &order {
            released.extend(reassembler.accept(number, chunks[number].clone()));
        }
        assert_eq!(released, chunks, "order {:?}", order);
        assert_eq!(released.concat(), expected);
        assert_eq!(reassembler.next_expected(), chunks.len());
    }
}

#[test]
fn later_copy_of_a_held_chunk_replaces_it() {
    let mut reassembler = OrderedReassembler::new();
    assert!(reassembler.accept(1, b"old".to_vec()).is_empty());
    assert!(reassembler.accept(1, b"new".to_vec()).is_empty());
    assert_eq!(
        reassembler.accept(0, b"zero".to_vec()),
        vec![b"zero".to_vec(), b"new".to_vec()]
    );
}

#[test]
fn copy_of_a_released_chunk_is_never_released_again() {
    let mut reassembler = OrderedReassembler::new();
    assert_eq!(reassembler.accept(0, b"zero".to_vec()), vec![b"zero".to_vec()]);
    assert!(reassembler.accept(0, b"again".to_vec()).is_empty());
    assert_eq!(reassembler.accept(1, b"one".to_vec()), vec![b"one".to_vec()]);
    assert_eq!(reassembler.next_expected(), 2);
}

#[test]
fn stopped_reassembler_drops_the_arrival() {
    let mut reassembler = OrderedReassembler::new();
    assert!(reassembler.accept_unless(true, 0, b"zero".to_vec()).is_empty());
    assert_eq!(reassembler.next_expected(), 0);
    assert!(reassembler.accept_unless(false, 1, b"one".to_vec()).is_empty());
    // chunk 0 was dropped, not held: giving it again releases both
    assert_eq!(
        reassembler.accept_unless(false, 0, b"zero".to_vec()),
        vec![b"zero".to_vec(), b"one".to_vec()]
    );
}

#[test]
fn empty_payload_is_a_chunk_like_any_other() {
    let mut reassembler = OrderedReassembler::new();
    assert_eq!(reassembler.accept(0, Vec::new()), vec![Vec::<u8>::new()]);
    assert_eq!(reassembler.next_expected(), 1);
}

#[test]
fn what_is_released_is_always_a_prefix_of_the_source() {
    let chunks = source_chunks();
    for order in permutations((0..chunks.len()).collect()) {
        let mut reassembler = OrderedReassembler::new();
        let mut released: Vec<Vec<u8>> = Vec::new();
        for &number in &order {
            released.extend(reassembler.accept(number, chunks[number].clone()));
            assert_eq!(released.len(), reassembler.next_expected());
            assert_eq!(released[..], chunks[..released.len()], "order {:?}", order);
        }
    }
}
