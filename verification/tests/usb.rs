use embassy_stm32f469i_disco::PacketSplitter;

fn packets(len: usize, max: usize) -> Vec<(usize, usize)> {
    let mut s = PacketSplitter::new(len, max);
    let mut out = Vec::new();
    while let Some(p) = s.next_packet() {
        out.push(p);
    }
    assert_eq!(s.next_packet(), None);
    out
}

#[test]
fn empty_write_sends_nothing() {
    assert!(packets(0, 64).is_empty());
}

#[test]
fn short_write_is_one_packet() {
    assert_eq!(packets(4, 64), vec![(0, 4)]);
}

#[test]
fn exact_multiple_gets_zlp() {
    assert_eq!(packets(64, 64), vec![(0, 64), (64, 64)]);
    assert_eq!(packets(128, 64), vec![(0, 64), (64, 128), (128, 128)]);
}

#[test]
fn partial_last_packet_needs_no_zlp() {
    assert_eq!(packets(130, 64), vec![(0, 64), (64, 128), (128, 130)]);
    assert_eq!(packets(5, 1), vec![(0, 1), (1, 2), (2, 3), (3, 4), (4, 5), (5, 5)]);
}

#[test]
fn zero_packet_size_makes_no_progress() {
    let mut s = PacketSplitter::new(10, 0);
    for _ in 0..5 {
        assert_eq!(s.next_packet(), Some((0, 0)));
    }
    let mut empty = PacketSplitter::new(0, 0);
    assert_eq!(empty.next_packet(), None);
}
