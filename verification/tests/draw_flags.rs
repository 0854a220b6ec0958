use pholidota::draw_flags::{DrawFlags, USED_BIT, VISIBLE_BIT};

#[test]
fn flag_bits_are_one_and_two() {
    assert_eq!(USED_BIT, 1);
    assert_eq!(VISIBLE_BIT, 2);
    assert_eq!(DrawFlags::USED().bits(), 1);
    assert_eq!(DrawFlags::VISIBLE().bits(), 2);
    assert_eq!(DrawFlags::empty().bits(), 0);
    assert_eq!(DrawFlags::all().bits(), 3);
}

#[test]
fn from_bits_reads_back_every_set() {
    for bits in 0u8..=3 {
        assert_eq!(DrawFlags::from_bits(bits).unwrap().bits(), bits);
    }
    assert_eq!(DrawFlags::from_bits(3), Some(DrawFlags { used: true, visible: true }));
    assert_eq!(DrawFlags::from_bits(2), Some(DrawFlags { used: false, visible: true }));
}

#[test]
fn from_bits_refuses_unknown_bits() {
    assert_eq!(DrawFlags::from_bits(4), None);
    assert_eq!(DrawFlags::from_bits(255), None);
}

#[test]
fn insert_of_both_flags_gives_all() {
    let mut flags = DrawFlags::empty();
    assert!(flags.is_empty());
    flags.insert(DrawFlags::USED().union(DrawFlags::VISIBLE()));
    assert_eq!(flags, DrawFlags::all());
    assert!(flags.contains(DrawFlags::USED()));
    assert!(flags.contains(DrawFlags::VISIBLE()));
    assert!(!flags.is_empty());
}

#[test]
fn remove_used_keeps_visible() {
    let mut flags = DrawFlags::all();
    flags.remove(DrawFlags::USED());
    assert_eq!(flags, DrawFlags::VISIBLE());
    assert!(!flags.contains(DrawFlags::USED()));
    assert!(!flags.contains(DrawFlags::all()));
    assert!(flags.contains(DrawFlags::empty()));
}

#[test]
fn set_switches_one_flag() {
    let mut flags = DrawFlags::all();
    flags.set(DrawFlags::VISIBLE(), false);
    assert_eq!(flags, DrawFlags::USED());
    flags.set(DrawFlags::VISIBLE(), true);
    assert_eq!(flags, DrawFlags::all());
}
