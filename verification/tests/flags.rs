use render_callback::action_flags::{
    ActionFlags, ALL, DO_NOT_CHECK_RENDER_ARGS, OFFLINE_COMPLETE, OFFLINE_PREFLIGHT,
    OFFLINE_RENDER, OUTPUT_IS_SILENCE, POST_RENDER, POST_RENDER_ERROR, PRE_RENDER,
};

fn flags(bits: u32) -> ActionFlags {
    ActionFlags::from_bits(bits).unwrap()
}

#[test]
fn action_flag_values_are_the_engines() {
    assert_eq!(PRE_RENDER, 1 << 2);
    assert_eq!(POST_RENDER, 1 << 3);
    assert_eq!(OUTPUT_IS_SILENCE, 1 << 4);
    assert_eq!(OFFLINE_PREFLIGHT, 1 << 5);
    assert_eq!(OFFLINE_RENDER, 1 << 6);
    assert_eq!(OFFLINE_COMPLETE, 1 << 7);
    assert_eq!(POST_RENDER_ERROR, 1 << 8);
    assert_eq!(DO_NOT_CHECK_RENDER_ARGS, 1 << 9);
    assert_eq!(ALL, 0x3fc);
}

#[test]
fn unnamed_bits_are_left_out() {
    let read = ActionFlags::from_bits_truncate(0x8000_0003);
    assert!(read.is_empty());
    assert_eq!(read.bits(), 0);
    assert_eq!(read.bits(), ActionFlags::empty().bits());
}

#[test]
fn unnamed_bits_beside_named_ones_are_left_out() {
    let read = ActionFlags::from_bits_truncate(PRE_RENDER | POST_RENDER | 1 | 0x400);
    assert_eq!(read.bits(), PRE_RENDER | POST_RENDER);
}

#[test]
fn every_word_reads_as_named_flags_only() {
    let words: [u32; 6] = [0, 1, 0x3fc, 0x3fd, 0xffff_ffff, 0x8000_0200];
    for word in words {
        let read = ActionFlags::from_bits_truncate(word);
        assert_eq!(read.bits(), word & ALL);
        assert_eq!(read.bits() & !ALL, 0);
    }
}

#[test]
fn from_bits_takes_named_bits_only() {
    assert_eq!(ActionFlags::from_bits(0).unwrap().bits(), 0);
    assert_eq!(ActionFlags::from_bits(ALL).unwrap().bits(), ALL);
    assert_eq!(ActionFlags::from_bits(OFFLINE_RENDER).unwrap().bits(), OFFLINE_RENDER);
    assert!(ActionFlags::from_bits(1).is_none());
    assert!(ActionFlags::from_bits(PRE_RENDER | 0x400).is_none());
    assert!(ActionFlags::from_bits(0x8000_0000).is_none());
}

#[test]
fn empty_and_all() {
    assert!(ActionFlags::empty().is_empty());
    assert!(!ActionFlags::all().is_empty());
    assert_eq!(ActionFlags::all().bits(), ALL);
}

#[test]
fn contains_asks_for_every_flag() {
    let both = flags(PRE_RENDER | OUTPUT_IS_SILENCE);
    assert!(both.contains(flags(PRE_RENDER)));
    assert!(both.contains(flags(OUTPUT_IS_SILENCE)));
    assert!(both.contains(both));
    assert!(both.contains(ActionFlags::empty()));
    assert!(!both.contains(flags(POST_RENDER)));
    assert!(!both.contains(flags(PRE_RENDER | POST_RENDER)));
    assert!(ActionFlags::all().contains(both));
}

#[test]
fn union_joins_two_sets() {
    let joined = flags(PRE_RENDER).union(flags(POST_RENDER_ERROR));
    assert_eq!(joined.bits(), PRE_RENDER | POST_RENDER_ERROR);
    assert_eq!(joined.union(joined).bits(), joined.bits());
    assert_eq!(joined.union(ActionFlags::empty()).bits(), joined.bits());
}

#[test]
fn a_single_flag_renders_as_its_name() {
    assert_eq!(flags(PRE_RENDER).to_string(), "PRE_RENDER");
    assert_eq!(flags(POST_RENDER).to_string(), "POST_RENDER");
    assert_eq!(flags(OUTPUT_IS_SILENCE).to_string(), "OUTPUT_IS_SILENCE");
    assert_eq!(flags(OFFLINE_PREFLIGHT).to_string(), "OFFLINE_PREFLIGHT");
    assert_eq!(flags(OFFLINE_RENDER).to_string(), "OFFLINE_RENDER");
    assert_eq!(flags(OFFLINE_COMPLETE).to_string(), "OFFLINE_COMPLETE");
    assert_eq!(flags(POST_RENDER_ERROR).to_string(), "POST_RENDER_ERROR");
    assert_eq!(flags(DO_NOT_CHECK_RENDER_ARGS).to_string(), "DO_NOT_CHECK_RENDER_ARGS");
}

#[test]
fn several_flags_render_from_the_lowest_bit_up() {
    assert_eq!(flags(POST_RENDER | PRE_RENDER).to_string(), "PRE_RENDER, POST_RENDER");
    assert_eq!(
        flags(DO_NOT_CHECK_RENDER_ARGS | OFFLINE_RENDER | OUTPUT_IS_SILENCE).to_string(),
        "OUTPUT_IS_SILENCE, OFFLINE_RENDER, DO_NOT_CHECK_RENDER_ARGS"
    );
    assert_eq!(
        ActionFlags::all().to_string(),
        "PRE_RENDER, POST_RENDER, OUTPUT_IS_SILENCE, OFFLINE_PREFLIGHT, OFFLINE_RENDER, \
         OFFLINE_COMPLETE, POST_RENDER_ERROR, DO_NOT_CHECK_RENDER_ARGS"
    );
}

#[test]
fn the_empty_set_renders_as_unknown() {
    assert_eq!(ActionFlags::empty().to_string(), "<Unknown ActionFlags>");
    assert_eq!(ActionFlags::from_bits_truncate(0x8000_0001).to_string(), "<Unknown ActionFlags>");
}
