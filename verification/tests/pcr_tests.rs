use tpm2_structs::algorithms::HashingAlgorithm;
use tpm2_structs::errors::WrapperErrorKind;
use tpm2_structs::pcr::{
    PcrSelectSize, PcrSelections, PcrSelectionsBuilder, PcrSlot, TpmlPcrSelection,
    TpmsPcrSelection,
};

#[test]
fn selection_set_round_trips_through_the_list_structure() {
    let selections = PcrSelectionsBuilder::new()
        .with_selection(HashingAlgorithm::Sha256, &[PcrSlot::Slot0])
        .build();
    let tpml = TpmlPcrSelection::from_selections(selections.clone());
    let back = PcrSelections::try_from(tpml).unwrap();
    assert_eq!(back.size_of_select, selections.size_of_select);
    assert_eq!(back.items, selections.items);
    assert_eq!(back.items, vec![(HashingAlgorithm::Sha256, 0x0000_0001)]);
}

#[test]
fn merging_the_same_selection_twice_equals_merging_once() {
    let once = PcrSelectionsBuilder::new()
        .with_selection(HashingAlgorithm::Sha256, &[PcrSlot::Slot0, PcrSlot::Slot5])
        .build();
    let twice = PcrSelectionsBuilder::new()
        .with_selection(HashingAlgorithm::Sha256, &[PcrSlot::Slot0, PcrSlot::Slot5])
        .with_selection(HashingAlgorithm::Sha256, &[PcrSlot::Slot0, PcrSlot::Slot5])
        .build();
    assert_eq!(once.items, twice.items);
    assert_eq!(once.size_of_select, twice.size_of_select);
}

#[test]
fn repeated_selections_accumulate_by_bitwise_or() {
    let selections = PcrSelectionsBuilder::new()
        .with_selection(HashingAlgorithm::Sha256, &[PcrSlot::Slot0])
        .with_selection(HashingAlgorithm::Sha256, &[PcrSlot::Slot1])
        .with_selection(HashingAlgorithm::Sha1, &[PcrSlot::Slot23])
        .build();
    assert_eq!(
        selections.items,
        vec![(HashingAlgorithm::Sha256, 0x0000_0003), (HashingAlgorithm::Sha1, 0x0080_0000)]
    );
}

#[test]
fn builder_size_of_select_defaults_to_three_bytes() {
    let selections = PcrSelectionsBuilder::new().build();
    assert_eq!(selections.size_of_select, PcrSelectSize::ThreeBytes);
    assert!(selections.items.is_empty());
    let sized = PcrSelectionsBuilder::new()
        .with_size_of_select(PcrSelectSize::TwoBytes)
        .build();
    assert_eq!(sized.size_of_select, PcrSelectSize::TwoBytes);
}

#[test]
fn emitted_list_encodes_each_entry_little_endian() {
    let selections = PcrSelectionsBuilder::new()
        .with_selection(HashingAlgorithm::Sha256, &[PcrSlot::Slot0, PcrSlot::Slot8, PcrSlot::Slot16])
        .build();
    let tpml = TpmlPcrSelection::from_selections(selections);
    assert_eq!(tpml.count, 1);
    assert_eq!(tpml.pcr_selections.len(), 16);
    let entry = tpml.pcr_selections[0];
    assert_eq!(entry.hash, 0x000B);
    assert_eq!(entry.sizeof_select, 3);
    assert_eq!(entry.pcr_select, [0x01, 0x01, 0x01, 0x00]);
}

fn entry(hash: u16, sizeof_select: u8, pcr_select: [u8; 4]) -> TpmsPcrSelection {
    TpmsPcrSelection { hash, sizeof_select, pcr_select }
}

fn list_of(mut entries: Vec<TpmsPcrSelection>) -> TpmlPcrSelection {
    let count = entries.len() as u32;
    while entries.len() < 16 {
        entries.push(entry(0, 0, [0, 0, 0, 0]));
    }
    TpmlPcrSelection { count, pcr_selections: entries }
}

#[test]
fn parsing_an_empty_list_yields_the_default_selection() {
    let parsed = PcrSelections::try_from(list_of(vec![])).unwrap();
    assert_eq!(parsed.size_of_select, PcrSelectSize::ThreeBytes);
    assert!(parsed.items.is_empty());
}

#[test]
fn parsing_merges_entries_for_the_same_algorithm() {
    let tpml = list_of(vec![
        entry(0x000B, 3, [0x01, 0, 0, 0]),
        entry(0x000B, 3, [0x02, 0, 0, 0]),
        entry(0x0004, 3, [0x04, 0, 0, 0]),
    ]);
    let parsed = PcrSelections::try_from(tpml).unwrap();
    assert_eq!(
        parsed.items,
        vec![(HashingAlgorithm::Sha256, 0x0000_0003), (HashingAlgorithm::Sha1, 0x0000_0004)]
    );
    assert_eq!(parsed.size_of_select, PcrSelectSize::ThreeBytes);
}

#[test]
fn parsing_rejects_out_of_range_slot_bits() {
    let tpml = list_of(vec![entry(0x000B, 3, [0, 0, 0, 0x01])]);
    assert!(matches!(PcrSelections::try_from(tpml), Err(WrapperErrorKind::UnsupportedParam)));
}

#[test]
fn parsing_rejects_an_unrecognized_select_size() {
    let tpml = list_of(vec![entry(0x000B, 5, [0x01, 0, 0, 0])]);
    assert!(matches!(PcrSelections::try_from(tpml), Err(WrapperErrorKind::InvalidParam)));
}

#[test]
fn parsing_rejects_divergent_select_sizes() {
    let tpml = list_of(vec![
        entry(0x000B, 3, [0x01, 0, 0, 0]),
        entry(0x0004, 4, [0x01, 0, 0, 0]),
    ]);
    assert!(matches!(PcrSelections::try_from(tpml), Err(WrapperErrorKind::UnsupportedParam)));
}

#[test]
fn parsing_rejects_an_unrecognized_hash_algorithm() {
    let tpml = list_of(vec![entry(0x7777, 3, [0x01, 0, 0, 0])]);
    assert!(matches!(PcrSelections::try_from(tpml), Err(WrapperErrorKind::InvalidParam)));
}

#[test]
fn select_size_bytes_round_trip() {
    let sizes = [
        PcrSelectSize::OneByte,
        PcrSelectSize::TwoBytes,
        PcrSelectSize::ThreeBytes,
        PcrSelectSize::FourBytes,
    ];
    for size in sizes {
        assert_eq!(PcrSelectSize::from_u8(size.to_u8()), Some(size));
    }
    assert_eq!(PcrSelectSize::from_u8(0), None);
    assert_eq!(PcrSelectSize::from_u8(5), None);
}

#[test]
fn slot_masks_are_single_distinct_bits() {
    let slots = [
        PcrSlot::Slot0,
        PcrSlot::Slot1,
        PcrSlot::Slot7,
        PcrSlot::Slot8,
        PcrSlot::Slot15,
        PcrSlot::Slot16,
        PcrSlot::Slot23,
    ];
    let expected: [u32; 7] =
        [0x1, 0x2, 0x80, 0x100, 0x8000, 0x1_0000, 0x80_0000];
    for (slot, mask) in slots.iter().zip(expected.iter()) {
        assert_eq!(slot.mask(), *mask);
    }
}
