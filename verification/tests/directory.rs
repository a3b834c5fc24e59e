use meshcom::directory::{place, upsert_record};
use meshcom::types::PeerRecord;

fn bare(num: u32) -> PeerRecord {
    PeerRecord { num, long_name: None }
}

fn named(num: u32, name: &str) -> PeerRecord {
    PeerRecord { num, long_name: Some(name.to_string()) }
}

#[test]
fn the_place_of_a_number_is_the_count_of_lower_numbers() {
    let listing: Vec<PeerRecord> = vec![bare(10), bare(20), bare(30), bare(40)];
    assert_eq!(place(&listing, 0), 0);
    assert_eq!(place(&listing, 10), 0);
    assert_eq!(place(&listing, 11), 1);
    assert_eq!(place(&listing, 20), 1);
    assert_eq!(place(&listing, 35), 3);
    assert_eq!(place(&listing, 40), 3);
    assert_eq!(place(&listing, 41), 4);
    assert_eq!(place(&listing, u32::MAX), 4);
    assert_eq!(place(&Vec::new(), 7), 0);
}

#[test]
fn a_new_record_is_put_at_its_place() {
    let mut listing: Vec<PeerRecord> = Vec::new();
    assert_eq!(upsert_record(&mut listing, bare(20)), (0, false));
    assert_eq!(upsert_record(&mut listing, bare(40)), (1, false));
    assert_eq!(upsert_record(&mut listing, bare(10)), (0, false));
    assert_eq!(upsert_record(&mut listing, bare(30)), (2, false));
    assert_eq!(listing, vec![bare(10), bare(20), bare(30), bare(40)]);
}

#[test]
fn a_known_record_is_replaced_where_it_stands() {
    let mut listing: Vec<PeerRecord> = vec![bare(10), bare(20), bare(30)];
    assert_eq!(upsert_record(&mut listing, named(20, "twenty")), (1, true));
    assert_eq!(upsert_record(&mut listing, named(30, "thirty")), (2, true));
    assert_eq!(upsert_record(&mut listing, named(10, "ten")), (0, true));
    assert_eq!(listing, vec![named(10, "ten"), named(20, "twenty"), named(30, "thirty")]);
    assert_eq!(upsert_record(&mut listing, bare(20)), (1, true));
    assert_eq!(listing, vec![named(10, "ten"), bare(20), named(30, "thirty")]);
}

#[test]
fn many_records_in_any_order_end_up_ascending() {
    let mut listing: Vec<PeerRecord> = Vec::new();
    let mut num: u32 = 1;
    for _ in 0..500 {
        num = num.wrapping_mul(1_103_515_245).wrapping_add(12_345);
        upsert_record(&mut listing, bare(num % 300));
    }
    assert!(listing.len() <= 300);
    for pair in listing.windows(2) {
        assert!(pair[0].num < pair[1].num);
    }
}
