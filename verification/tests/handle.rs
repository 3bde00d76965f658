use bounty_benchmarking::handle::{
    get_byte, handle_from_id, work_entrant_member_index, WORK_ENTRANT_INDEX_BASE,
};

#[test]
fn get_byte_reads_each_byte_least_significant_first() {
    let num: u32 = 0x1234_5678;
    assert_eq!(get_byte(num, 0), 0x78);
    assert_eq!(get_byte(num, 1), 0x56);
    assert_eq!(get_byte(num, 2), 0x34);
    assert_eq!(get_byte(num, 3), 0x12);
}

#[test]
fn get_byte_of_extremes() {
    for k in 0..4u8 {
        assert_eq!(get_byte(0, k), 0);
        assert_eq!(get_byte(u32::MAX, k), 0xff);
    }
    assert_eq!(get_byte(0x8000_0000, 3), 0x80);
    assert_eq!(get_byte(0x0000_0100, 0), 0x00);
    assert_eq!(get_byte(0x0000_0100, 1), 0x01);
}

#[test]
fn handle_from_id_is_little_endian() {
    assert_eq!(handle_from_id(0), vec![0, 0, 0, 0]);
    assert_eq!(handle_from_id(1), vec![1, 0, 0, 0]);
    assert_eq!(handle_from_id(1000), vec![0xe8, 0x03, 0, 0]);
    assert_eq!(handle_from_id(0xdead_beef), vec![0xef, 0xbe, 0xad, 0xde]);
    assert_eq!(handle_from_id(0xdead_beef), 0xdead_beefu32.to_le_bytes().to_vec());
}

#[test]
fn handle_is_never_empty() {
    for id in [0u32, 7, 1000, u32::MAX] {
        assert_eq!(handle_from_id(id).len(), 4);
    }
}

#[test]
fn handle_decodes_to_its_index() {
    for id in [0u32, 1, 255, 256, 1000, 65_535, 65_536, 0x0100_0000, u32::MAX] {
        let h = handle_from_id(id);
        let back = u32::from_le_bytes([h[0], h[1], h[2], h[3]]);
        assert_eq!(back, id);
    }
}

#[test]
fn distinct_indices_give_distinct_handles() {
    let ids = [0u32, 1, 2, 255, 256, 257, 1000, 1001, 65_536, u32::MAX];
    for a in ids {
        for b in ids {
            assert_eq!(a == b, handle_from_id(a) == handle_from_id(b));
        }
    }
}

#[test]
fn work_entrant_indices_start_at_base() {
    assert_eq!(WORK_ENTRANT_INDEX_BASE, 1000);
    assert_eq!(work_entrant_member_index(0), 1000);
    assert_eq!(work_entrant_member_index(7), 1007);
    assert_eq!(work_entrant_member_index(u32::MAX - 1000), u32::MAX);
}

#[test]
fn work_entrant_handles_do_not_collide_with_other_members() {
    let others = [handle_from_id(0), handle_from_id(1)];
    let entrants: Vec<Vec<u8>> =
        (0..50u32).map(|i| handle_from_id(work_entrant_member_index(i))).collect();
    for (i, a) in entrants.iter().enumerate() {
        assert!(!others.contains(a));
        for (j, b) in entrants.iter().enumerate() {
            assert_eq!(i == j, a == b);
        }
    }
}
