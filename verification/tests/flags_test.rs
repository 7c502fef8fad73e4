use game::flags::{has_flag, set_flag};

#[test]
fn set_flag_is_seen_once() {
    let mut flags: Vec<u16> = Vec::new();
    assert!(!has_flag(&flags, 7));
    assert!(set_flag(&mut flags, 7));
    assert!(has_flag(&flags, 7));
    assert!(!set_flag(&mut flags, 7));
    assert_eq!(flags, vec![7]);
}
