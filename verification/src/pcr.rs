//! PCR selections: a mapping from hash algorithm to a 24-bit slot mask,
//! with one selection size shared by every entry, convertible to and from
//! the fixed-capacity selection list used in PCR read and quote
//! operations.

use vstd::prelude::*;
use vstd::set_lib::{lemma_int_range, lemma_len_subset, set_int_range};
use crate::algorithms::{HashingAlgorithm, spec_hash_alg_id, spec_hash_alg_of_id};
use crate::errors::WrapperErrorKind;

verus! {

/// The number of PCR banks a selection list can carry.
pub const TPM2_NUM_PCR_BANKS: usize = 16;

/// One PCR slot, named by its index.
#[derive(Clone, Copy, Debug, PartialEq, Eq, Structural, Hash)]
pub enum PcrSlot {
    Slot0,
    Slot1,
    Slot2,
    Slot3,
    Slot4,
    Slot5,
    Slot6,
    Slot7,
    Slot8,
    Slot9,
    Slot10,
    Slot11,
    Slot12,
    Slot13,
    Slot14,
    Slot15,
    Slot16,
    Slot17,
    Slot18,
    Slot19,
    Slot20,
    Slot21,
    Slot22,
    Slot23,
}

/// The single-bit mask of each slot.
pub open spec fn spec_slot_mask(s: PcrSlot) -> u32 {
    match s {
        PcrSlot::Slot0 => 0x0000_0001,
        PcrSlot::Slot1 => 0x0000_0002,
        PcrSlot::Slot2 => 0x0000_0004,
        PcrSlot::Slot3 => 0x0000_0008,
        PcrSlot::Slot4 => 0x0000_0010,
        PcrSlot::Slot5 => 0x0000_0020,
        PcrSlot::Slot6 => 0x0000_0040,
        PcrSlot::Slot7 => 0x0000_0080,
        PcrSlot::Slot8 => 0x0000_0100,
        PcrSlot::Slot9 => 0x0000_0200,
        PcrSlot::Slot10 => 0x0000_0400,
        PcrSlot::Slot11 => 0x0000_0800,
        PcrSlot::Slot12 => 0x0000_1000,
        PcrSlot::Slot13 => 0x0000_2000,
        PcrSlot::Slot14 => 0x0000_4000,
        PcrSlot::Slot15 => 0x0000_8000,
        PcrSlot::Slot16 => 0x0001_0000,
        PcrSlot::Slot17 => 0x0002_0000,
        PcrSlot::Slot18 => 0x0004_0000,
        PcrSlot::Slot19 => 0x0008_0000,
        PcrSlot::Slot20 => 0x0010_0000,
        PcrSlot::Slot21 => 0x0020_0000,
        PcrSlot::Slot22 => 0x0040_0000,
        PcrSlot::Slot23 => 0x0080_0000,
    }
}

impl PcrSlot {
    /// The single-bit mask of this slot.
    pub fn mask(self) -> (m: u32)
        ensures
            m == spec_slot_mask(self),
    {
        match self {
            PcrSlot::Slot0 => 0x0000_0001,
            PcrSlot::Slot1 => 0x0000_0002,
            PcrSlot::Slot2 => 0x0000_0004,
            PcrSlot::Slot3 => 0x0000_0008,
            PcrSlot::Slot4 => 0x0000_0010,
            PcrSlot::Slot5 => 0x0000_0020,
            PcrSlot::Slot6 => 0x0000_0040,
            PcrSlot::Slot7 => 0x0000_0080,
            PcrSlot::Slot8 => 0x0000_0100,
            PcrSlot::Slot9 => 0x0000_0200,
            PcrSlot::Slot10 => 0x0000_0400,
            PcrSlot::Slot11 => 0x0000_0800,
            PcrSlot::Slot12 => 0x0000_1000,
            PcrSlot::Slot13 => 0x0000_2000,
            PcrSlot::Slot14 => 0x0000_4000,
            PcrSlot::Slot15 => 0x0000_8000,
            PcrSlot::Slot16 => 0x0001_0000,
            PcrSlot::Slot17 => 0x0002_0000,
            PcrSlot::Slot18 => 0x0004_0000,
            PcrSlot::Slot19 => 0x0008_0000,
            PcrSlot::Slot20 => 0x0010_0000,
            PcrSlot::Slot21 => 0x0020_0000,
            PcrSlot::Slot22 => 0x0040_0000,
            PcrSlot::Slot23 => 0x0080_0000,
        }
    }
}

/// The permitted values of a selection's size-of-select byte.
#[derive(Clone, Copy, Debug, PartialEq, Eq, Structural, Hash)]
pub enum PcrSelectSize {
    OneByte,
    TwoBytes,
    ThreeBytes,
    FourBytes,
}

/// The byte value of each selection size.
pub open spec fn spec_select_size_u8(s: PcrSelectSize) -> u8 {
    match s {
        PcrSelectSize::OneByte => 1u8,
        PcrSelectSize::TwoBytes => 2u8,
        PcrSelectSize::ThreeBytes => 3u8,
        PcrSelectSize::FourBytes => 4u8,
    }
}

/// The selection size a byte value encodes, if any.
pub open spec fn spec_select_size_of_u8(v: u8) -> Option<PcrSelectSize> {
    if v == 1 {
        Some(PcrSelectSize::OneByte)
    } else if v == 2 {
        Some(PcrSelectSize::TwoBytes)
    } else if v == 3 {
        Some(PcrSelectSize::ThreeBytes)
    } else if v == 4 {
        Some(PcrSelectSize::FourBytes)
    } else {
        None
    }
}

impl PcrSelectSize {
    /// The byte value of this selection size.
    pub fn to_u8(self) -> (v: u8)
        ensures
            v == spec_select_size_u8(self),
    {
        match self {
            PcrSelectSize::OneByte => 1,
            PcrSelectSize::TwoBytes => 2,
            PcrSelectSize::ThreeBytes => 3,
            PcrSelectSize::FourBytes => 4,
        }
    }

    /// The selection size a byte value encodes, if any.
    pub fn from_u8(v: u8) -> (r: Option<PcrSelectSize>)
        ensures
            r == spec_select_size_of_u8(v),
    {
        if v == 1 {
            Some(PcrSelectSize::OneByte)
        } else if v == 2 {
            Some(PcrSelectSize::TwoBytes)
        } else if v == 3 {
            Some(PcrSelectSize::ThreeBytes)
        } else if v == 4 {
            Some(PcrSelectSize::FourBytes)
        } else {
            None
        }
    }
}

impl Default for PcrSelectSize {
    /// The default selection size is three bytes, which suits most
    /// platforms.
    fn default() -> (s: PcrSelectSize)
        ensures
            s == PcrSelectSize::ThreeBytes,
    {
        PcrSelectSize::ThreeBytes
    }
}

/// The index of each hash algorithm among the recognized algorithms; used
/// to bound how many distinct keys a selection can hold.
pub open spec fn spec_alg_index(a: HashingAlgorithm) -> int {
    match a {
        HashingAlgorithm::Sha1 => 0,
        HashingAlgorithm::Sha256 => 1,
        HashingAlgorithm::Sha384 => 2,
        HashingAlgorithm::Sha512 => 3,
        HashingAlgorithm::Sm3_256 => 4,
        HashingAlgorithm::Sha3_256 => 5,
        HashingAlgorithm::Sha3_384 => 6,
        HashingAlgorithm::Sha3_512 => 7,
    }
}

/// The number of distinct hash algorithms.
pub open spec fn spec_alg_count() -> int {
    8
}

/// No two entries of the association list share a hash algorithm.
pub open spec fn spec_keys_distinct(items: Seq<(HashingAlgorithm, u32)>) -> bool {
    forall|i: int, j: int| 0 <= i < j < items.len() ==> items[i].0 != items[j].0
}

/// Every slot mask of the association list uses only the slot bits.
pub open spec fn spec_masks_in_range(items: Seq<(HashingAlgorithm, u32)>) -> bool {
    forall|i: int| 0 <= i < items.len() ==> items[i].1 < 0x100_0000u32
}

/// The mapping an association list stands for.
pub open spec fn spec_items_map(items: Seq<(HashingAlgorithm, u32)>) -> Map<HashingAlgorithm, u32>
    decreases items.len(),
{
    if items.len() == 0 {
        Map::empty()
    } else {
        spec_items_map(items.drop_last()).insert(items.last().0, items.last().1)
    }
}

/// The slot mask selected for `alg`, zero if the mapping has no entry for
/// it.
pub open spec fn spec_selected(m: Map<HashingAlgorithm, u32>, alg: HashingAlgorithm) -> u32 {
    if m.dom().contains(alg) {
        m[alg]
    } else {
        0u32
    }
}

/// In a distinct-key association list, each entry is visible in the
/// mapping under its own key.
proof fn lemma_items_map_index(items: Seq<(HashingAlgorithm, u32)>, i: int)
    requires
        spec_keys_distinct(items),
        0 <= i < items.len(),
    ensures
        spec_items_map(items).dom().contains(items[i].0),
        spec_items_map(items)[items[i].0] == items[i].1,
    decreases items.len(),
{
    if i < items.len() - 1 {
        assert(spec_keys_distinct(items.drop_last()));
        lemma_items_map_index(items.drop_last(), i);
        assert(items.drop_last()[i] == items[i]);
        assert(items[i].0 != items.last().0);
    }
}

/// A key under which no entry stands is absent from the mapping.
proof fn lemma_items_map_absent(items: Seq<(HashingAlgorithm, u32)>, k: HashingAlgorithm)
    requires
        forall|j: int| 0 <= j < items.len() ==> items[j].0 != k,
    ensures
        !spec_items_map(items).dom().contains(k),
    decreases items.len(),
{
    if items.len() > 0 {
        lemma_items_map_absent(items.drop_last(), k);
    }
}

/// Replacing the mask of entry `i` replaces that key's value in the
/// mapping.
proof fn lemma_items_map_update(items: Seq<(HashingAlgorithm, u32)>, i: int, v: u32)
    requires
        spec_keys_distinct(items),
        0 <= i < items.len(),
    ensures
        spec_items_map(items.update(i, (items[i].0, v))) == spec_items_map(items).insert(
            items[i].0,
            v,
        ),
    decreases items.len(),
{
    let u = items.update(i, (items[i].0, v));
    if i == items.len() - 1 {
        assert(u.drop_last() =~= items.drop_last());
        assert(u.last() == (items[i].0, v));
        assert(spec_items_map(items.drop_last()).insert(items[i].0, v) =~= spec_items_map(
            items.drop_last(),
        ).insert(items[i].0, items[i].1).insert(items[i].0, v));
    } else {
        assert(spec_keys_distinct(items.drop_last()));
        lemma_items_map_update(items.drop_last(), i, v);
        assert(u.drop_last() =~= items.drop_last().update(i, (items[i].0, v)));
        assert(u.last() == items.last());
        assert(items.drop_last()[i] == items[i]);
        assert(items[i].0 != items.last().0);
        assert(spec_items_map(items.drop_last()).insert(items[i].0, v).insert(
            items.last().0,
            items.last().1,
        ) =~= spec_items_map(items.drop_last()).insert(items.last().0, items.last().1).insert(
            items[i].0,
            v,
        ));
    }
}

/// Merge a slot mask into the association list: an existing entry for the
/// algorithm accumulates by bitwise or, and a missing one is appended.
fn merge_item(items: &mut Vec<(HashingAlgorithm, u32)>, alg: HashingAlgorithm, mask: u32)
    requires
        spec_keys_distinct(old(items)@),
        spec_masks_in_range(old(items)@),
        mask < 0x100_0000u32,
    ensures
        spec_keys_distinct(final(items)@),
        spec_masks_in_range(final(items)@),
        spec_items_map(final(items)@) == spec_items_map(old(items)@).insert(
            alg,
            spec_selected(spec_items_map(old(items)@), alg) | mask,
        ),
{
    let ghost orig = items@;
    let mut i: usize = 0;
    while i < items.len()
        invariant
            items@ == orig,
            old(items)@ == orig,
            spec_keys_distinct(orig),
            spec_masks_in_range(orig),
            mask < 0x100_0000u32,
            i <= orig.len(),
            forall|j: int| 0 <= j < i ==> orig[j].0 != alg,
        decreases orig.len() - i,
    {
        let current = items[i];
        if current.0 == alg {
            let current_mask: u32 = current.1;
            let merged: u32 = current_mask | mask;
            items.set(i, (alg, merged));
            proof {
                assert(merged < 0x100_0000u32) by (bit_vector)
                    requires
                        merged == current_mask | mask,
                        current_mask < 0x100_0000u32,
                        mask < 0x100_0000u32,
                ;
                lemma_items_map_index(orig, i as int);
                lemma_items_map_update(orig, i as int, merged);
                assert(spec_masks_in_range(items@));
            }
            return ;
        }
        i = i + 1;
    }
    items.push((alg, mask));
    proof {
        lemma_items_map_absent(orig, alg);
        assert(items@.drop_last() =~= orig);
        assert(spec_selected(spec_items_map(orig), alg) == 0u32);
        assert(0u32 | mask == mask) by (bit_vector);
        assert(spec_keys_distinct(items@));
        assert(spec_masks_in_range(items@));
    }
}

/// The combined mask of a sequence of slots.
pub open spec fn spec_slots_mask(slots: Seq<PcrSlot>) -> u32
    decreases slots.len(),
{
    if slots.len() == 0 {
        0u32
    } else {
        spec_slots_mask(slots.drop_last()) | spec_slot_mask(slots.last())
    }
}

/// A combined slot mask uses only the slot bits.
proof fn lemma_slots_mask_in_range(slots: Seq<PcrSlot>)
    ensures
        spec_slots_mask(slots) < 0x100_0000u32,
    decreases slots.len(),
{
    if slots.len() == 0 {
    } else {
        lemma_slots_mask_in_range(slots.drop_last());
        let a = spec_slots_mask(slots.drop_last());
        let b = spec_slot_mask(slots.last());
        assert(a | b < 0x100_0000u32) by (bit_vector)
            requires
                a < 0x100_0000u32,
                b < 0x100_0000u32,
        ;
    }
}

/// The combined mask of a slice of slots.
fn slots_to_mask(pcr_slots: &[PcrSlot]) -> (mask: u32)
    ensures
        mask == spec_slots_mask(pcr_slots@),
        mask < 0x100_0000u32,
{
    let mut mask: u32 = 0;
    let mut i: usize = 0;
    while i < pcr_slots.len()
        invariant
            i <= pcr_slots@.len(),
            mask == spec_slots_mask(pcr_slots@.take(i as int)),
        decreases pcr_slots@.len() - i,
    {
        mask = mask | pcr_slots[i].mask();
        i = i + 1;
        proof {
            assert(pcr_slots@.take(i as int).drop_last() =~= pcr_slots@.take(i as int - 1));
            assert(pcr_slots@.take(i as int).last() == pcr_slots@[i as int - 1]);
        }
    }
    proof {
        assert(pcr_slots@.take(pcr_slots@.len() as int) =~= pcr_slots@);
        lemma_slots_mask_in_range(pcr_slots@);
    }
    mask
}

/// A set of PCR selections: one entry per hash algorithm, each carrying a
/// 24-bit slot mask, and the selection size shared by every entry.
#[derive(Clone, Debug)]
pub struct PcrSelections {
    pub size_of_select: PcrSelectSize,
    pub items: Vec<(HashingAlgorithm, u32)>,
}

impl PcrSelections {
    /// The entries name distinct hash algorithms and every mask uses only
    /// the slot bits.
    pub open spec fn wf(&self) -> bool {
        spec_keys_distinct(self.items@) && spec_masks_in_range(self.items@)
    }

    /// The mapping from hash algorithm to slot mask that this selection
    /// stands for.
    pub open spec fn view_map(&self) -> Map<HashingAlgorithm, u32> {
        spec_items_map(self.items@)
    }
}

impl Default for PcrSelections {
    /// The default selection is empty, with the default selection size.
    fn default() -> (s: PcrSelections)
        ensures
            s.size_of_select == PcrSelectSize::ThreeBytes,
            s.items@ == Seq::<(HashingAlgorithm, u32)>::empty(),
            s.wf(),
    {
        PcrSelections { size_of_select: PcrSelectSize::ThreeBytes, items: Vec::new() }
    }
}

/// A builder that accumulates PCR selections, merging repeated selections
/// for the same hash algorithm by bitwise or.
#[derive(Clone, Debug)]
pub struct PcrSelectionsBuilder {
    pub size_of_select: Option<PcrSelectSize>,
    pub items: Vec<(HashingAlgorithm, u32)>,
}

impl PcrSelectionsBuilder {
    /// The entries name distinct hash algorithms and every mask uses only
    /// the slot bits.
    pub open spec fn wf(&self) -> bool {
        spec_keys_distinct(self.items@) && spec_masks_in_range(self.items@)
    }

    /// A builder with no selections and no selection size chosen.
    pub fn new() -> (b: PcrSelectionsBuilder)
        ensures
            b.size_of_select is None,
            b.items@ == Seq::<(HashingAlgorithm, u32)>::empty(),
            b.wf(),
    {
        PcrSelectionsBuilder { size_of_select: None, items: Vec::new() }
    }

    /// Set the selection size used for all selections.
    pub fn with_size_of_select(self, size_of_select: PcrSelectSize) -> (b: PcrSelectionsBuilder)
        ensures
            b.size_of_select == Some(size_of_select),
            b.items@ == self.items@,
    {
        PcrSelectionsBuilder { size_of_select: Some(size_of_select), items: self.items }
    }

    /// Add a selection associated with a hash algorithm.  A selection
    /// already present for that algorithm is updated, not overwritten: the
    /// new slots are merged into it.
    pub fn with_selection(self, hash_algorithm: HashingAlgorithm, pcr_slots: &[PcrSlot]) -> (b:
        PcrSelectionsBuilder)
        requires
            self.wf(),
        ensures
            b.wf(),
            b.size_of_select == self.size_of_select,
            spec_items_map(b.items@) == spec_items_map(self.items@).insert(
                hash_algorithm,
                spec_selected(spec_items_map(self.items@), hash_algorithm) | spec_slots_mask(
                    pcr_slots@,
                ),
            ),
    {
        let mask = slots_to_mask(pcr_slots);
        let mut items = self.items;
        merge_item(&mut items, hash_algorithm, mask);
        PcrSelectionsBuilder { size_of_select: self.size_of_select, items }
    }

    /// Build the selection set; a selection size never supplied defaults
    /// to three bytes.
    pub fn build(self) -> (s: PcrSelections)
        requires
            self.wf(),
        ensures
            s.wf(),
            s.size_of_select == match self.size_of_select {
                Some(size) => size,
                None => PcrSelectSize::ThreeBytes,
            },
            s.items@ == self.items@,
    {
        let select_size = match self.size_of_select {
            Some(size) => size,
            None => PcrSelectSize::ThreeBytes,
        };
        PcrSelections { size_of_select: select_size, items: self.items }
    }
}

/// Merging the same hash-algorithm/slot mask into a selection mapping
/// twice yields the same mapping as merging it once: the merge is
/// idempotent, because bitwise or is.
pub proof fn lemma_selection_merge_idempotent(
    m: Map<HashingAlgorithm, u32>,
    alg: HashingAlgorithm,
    mask: u32,
)
    ensures
        ({
            let once = m.insert(alg, spec_selected(m, alg) | mask);
            once.insert(alg, spec_selected(once, alg) | mask) == once
        }),
{
    let once = m.insert(alg, spec_selected(m, alg) | mask);
    let x = spec_selected(m, alg);
    assert((x | mask) | mask == x | mask) by (bit_vector);
    assert(once.insert(alg, spec_selected(once, alg) | mask) =~= once);
}

/// One entry of the wire selection list: a hash-algorithm identifier, the
/// size-of-select byte, and the slot mask as four little-endian bytes.
#[derive(Clone, Copy, Debug)]
pub struct TpmsPcrSelection {
    pub hash: u16,
    pub sizeof_select: u8,
    pub pcr_select: [u8; 4],
}

/// The value that a little-endian four-byte field holds.
pub open spec fn spec_le_u32(b: [u8; 4]) -> int {
    b[0] + 0x100 * b[1] + 0x1_0000 * b[2] + 0x100_0000 * b[3]
}

/// Read a little-endian four-byte field.
fn le_bytes_to_u32(b: &[u8; 4]) -> (m: u32)
    ensures
        m == spec_le_u32(*b),
{
    let b0 = b[0] as u32;
    let b1 = b[1] as u32;
    let b2 = b[2] as u32;
    let b3 = b[3] as u32;
    b0 + 0x100 * b1 + 0x1_0000 * b2 + 0x100_0000 * b3
}

/// Write a value as a little-endian four-byte field.
fn u32_to_le_bytes(m: u32) -> (b: [u8; 4])
    ensures
        spec_le_u32(b) == m,
{
    let b0 = (m & 0xFF) as u8;
    let b1 = ((m >> 8u32) & 0xFF) as u8;
    let b2 = ((m >> 16u32) & 0xFF) as u8;
    let b3 = ((m >> 24u32) & 0xFF) as u8;
    proof {
        assert(((m & 0xFF) as u8) + 0x100 * (((m >> 8u32) & 0xFF) as u8) + 0x1_0000 * (((m
            >> 16u32) & 0xFF) as u8) + 0x100_0000 * (((m >> 24u32) & 0xFF) as u8) == m)
            by (bit_vector);
    }
    [b0, b1, b2, b3]
}

/// The wire selection list: a count of meaningful entries over a
/// fixed-capacity array of selections.
#[derive(Clone, Debug)]
pub struct TpmlPcrSelection {
    pub count: u32,
    pub pcr_selections: Vec<TpmsPcrSelection>,
}

impl TpmlPcrSelection {
    /// The array holds exactly its fixed capacity, and the count stays
    /// within it.
    pub open spec fn wf(&self) -> bool {
        self.pcr_selections@.len() == TPM2_NUM_PCR_BANKS && self.count <= TPM2_NUM_PCR_BANKS
    }
}

/// What parsing the meaningful entries of a selection list yields,
/// processed front to back from an accumulated mapping and the selection
/// size seen so far.  Per entry: a slot mask with bits outside the slot
/// range is `UnsupportedParam`; an unrecognized size-of-select byte is
/// `InvalidParam`; a size that differs from an earlier entry's is
/// `UnsupportedParam`; an unrecognized hash algorithm is `InvalidParam`;
/// otherwise the mask is merged into the mapping under its algorithm.
pub open spec fn spec_pcr_parse(
    entries: Seq<TpmsPcrSelection>,
    m: Map<HashingAlgorithm, u32>,
    size: Option<PcrSelectSize>,
) -> Result<(Map<HashingAlgorithm, u32>, Option<PcrSelectSize>), WrapperErrorKind>
    decreases entries.len(),
{
    if entries.len() == 0 {
        Ok((m, size))
    } else {
        let e = entries[0];
        if spec_le_u32(e.pcr_select) >= 0x100_0000 {
            Err(WrapperErrorKind::UnsupportedParam)
        } else {
            match spec_select_size_of_u8(e.sizeof_select) {
                None => Err(WrapperErrorKind::InvalidParam),
                Some(sz) => if size matches Some(prev) && prev != sz {
                    Err(WrapperErrorKind::UnsupportedParam)
                } else {
                    match spec_hash_alg_of_id(e.hash) {
                        None => Err(WrapperErrorKind::InvalidParam),
                        Some(alg) => spec_pcr_parse(
                            entries.drop_first(),
                            m.insert(
                                alg,
                                spec_selected(m, alg) | (spec_le_u32(e.pcr_select) as u32),
                            ),
                            Some(sz),
                        ),
                    }
                },
            }
        }
    }
}

impl PcrSelections {
    /// Parse a selection set from the wire selection list.  An empty list
    /// yields the empty set with the default selection size; this is a
    /// permitted degenerate case, not an error.
    pub fn try_from(tpml_pcr_selection: TpmlPcrSelection) -> (r: Result<
        PcrSelections,
        WrapperErrorKind,
    >)
        requires
            tpml_pcr_selection.count <= tpml_pcr_selection.pcr_selections@.len(),
        ensures
            ({
                let parsed = spec_pcr_parse(
                    tpml_pcr_selection.pcr_selections@.take(tpml_pcr_selection.count as int),
                    Map::empty(),
                    None,
                );
                &&& r is Ok <==> parsed is Ok
                &&& (r matches Err(e) ==> parsed == Err::<
                    (Map<HashingAlgorithm, u32>, Option<PcrSelectSize>),
                    WrapperErrorKind,
                >(e))
                &&& (r matches Ok(s) ==> (parsed matches Ok((m, size)) && s.wf() && s.view_map()
                    == m && s.size_of_select == (match size {
                    Some(sz) => sz,
                    None => PcrSelectSize::ThreeBytes,
                })))
            }),
    {
        let ghost entries = tpml_pcr_selection.pcr_selections@.take(
            tpml_pcr_selection.count as int,
        );
        let count = tpml_pcr_selection.count as usize;
        let mut items: Vec<(HashingAlgorithm, u32)> = Vec::new();
        let mut size_of_select: Option<PcrSelectSize> = None;
        let mut i: usize = 0;
        proof {
            assert(entries.subrange(0, count as int) =~= entries);
            assert(items@ =~= Seq::<(HashingAlgorithm, u32)>::empty());
        }
        while i < count
            invariant
                i <= count,
                count == tpml_pcr_selection.count,
                count <= tpml_pcr_selection.pcr_selections@.len(),
                entries == tpml_pcr_selection.pcr_selections@.take(count as int),
                spec_keys_distinct(items@),
                spec_masks_in_range(items@),
                spec_pcr_parse(entries, Map::empty(), None) == spec_pcr_parse(
                    entries.subrange(i as int, count as int),
                    spec_items_map(items@),
                    size_of_select,
                ),
            decreases count - i,
        {
            let ghost rest = entries.subrange(i as int, count as int);
            proof {
                assert(rest.len() > 0);
                assert(rest[0] == tpml_pcr_selection.pcr_selections@[i as int]);
                assert(rest.drop_first() =~= entries.subrange(i as int + 1, count as int));
            }
            let selection = tpml_pcr_selection.pcr_selections[i];
            // Parse the slot mask from the little-endian select field.
            let mask = le_bytes_to_u32(&selection.pcr_select);
            if mask >= 0x100_0000 {
                return Err(WrapperErrorKind::UnsupportedParam);
            }
            // Parse the size-of-select byte.
            let parsed_size_of_select = match PcrSelectSize::from_u8(selection.sizeof_select) {
                Some(val) => val,
                None => {
                    return Err(WrapperErrorKind::InvalidParam);
                },
            };
            // Every entry must share one selection size.
            match size_of_select {
                Some(prev) => if prev != parsed_size_of_select {
                    return Err(WrapperErrorKind::UnsupportedParam);
                },
                None => {},
            }
            // Parse the hash algorithm.
            let parsed_hash_algorithm = match HashingAlgorithm::try_from_alg_id(selection.hash) {
                Ok(alg) => alg,
                Err(_) => {
                    return Err(WrapperErrorKind::InvalidParam);
                },
            };
            // Merge into the accumulated selection for that algorithm.
            merge_item(&mut items, parsed_hash_algorithm, mask);
            size_of_select = Some(parsed_size_of_select);
            i = i + 1;
        }
        proof {
            assert(entries.subrange(count as int, count as int) =~= Seq::<
                TpmsPcrSelection,
            >::empty());
        }
        let final_size = match size_of_select {
            Some(sz) => sz,
            None => PcrSelectSize::ThreeBytes,
        };
        Ok(PcrSelections { size_of_select: final_size, items })
    }
}

/// How one emitted wire entry encodes one selection entry.
pub open spec fn spec_entry_encodes(
    e: TpmsPcrSelection,
    item: (HashingAlgorithm, u32),
    size: PcrSelectSize,
) -> bool {
    &&& e.hash == spec_hash_alg_id(item.0)
    &&& e.sizeof_select == spec_select_size_u8(size)
    &&& spec_le_u32(e.pcr_select) == item.1
}

impl TpmlPcrSelection {
    /// Emit a selection set as the wire selection list: one entry per hash
    /// algorithm in the set's own order, the shared size-of-select byte on
    /// each, and the remaining capacity zero-filled.
    pub fn from_selections(pcr_selections: PcrSelections) -> (t: TpmlPcrSelection)
        requires
            pcr_selections.wf(),
        ensures
            t.wf(),
            t.count == pcr_selections.items@.len(),
            forall|j: int| 0 <= j < t.count ==> spec_entry_encodes(
                #[trigger] t.pcr_selections@[j],
                pcr_selections.items@[j],
                pcr_selections.size_of_select,
            ),
    {
        proof {
            lemma_distinct_keys_bound(pcr_selections.items@);
        }
        let count = pcr_selections.items.len();
        let mut out: Vec<TpmsPcrSelection> = Vec::new();
        let mut i: usize = 0;
        while i < count
            invariant
                i <= count,
                count == pcr_selections.items@.len(),
                out@.len() == i,
                forall|j: int| 0 <= j < i ==> spec_entry_encodes(
                    #[trigger] out@[j],
                    pcr_selections.items@[j],
                    pcr_selections.size_of_select,
                ),
            decreases count - i,
        {
            let item = pcr_selections.items[i];
            out.push(TpmsPcrSelection {
                hash: item.0.alg_id(),
                sizeof_select: pcr_selections.size_of_select.to_u8(),
                pcr_select: u32_to_le_bytes(item.1),
            });
            i = i + 1;
        }
        // Zero-fill the unused capacity of the fixed-size list.
        while out.len() < TPM2_NUM_PCR_BANKS
            invariant
                count <= out@.len() <= TPM2_NUM_PCR_BANKS,
                count == pcr_selections.items@.len(),
                forall|j: int| 0 <= j < count ==> spec_entry_encodes(
                    #[trigger] out@[j],
                    pcr_selections.items@[j],
                    pcr_selections.size_of_select,
                ),
            decreases TPM2_NUM_PCR_BANKS - out@.len(),
        {
            out.push(TpmsPcrSelection { hash: 0, sizeof_select: 0, pcr_select: [0, 0, 0, 0] });
        }
        TpmlPcrSelection { count: count as u32, pcr_selections: out }
    }
}

/// The mapping obtained by inserting an association list's entries into
/// `m`, front to back.
pub open spec fn spec_items_fold(
    m: Map<HashingAlgorithm, u32>,
    items: Seq<(HashingAlgorithm, u32)>,
) -> Map<HashingAlgorithm, u32>
    decreases items.len(),
{
    if items.len() == 0 {
        m
    } else {
        spec_items_fold(m.insert(items[0].0, items[0].1), items.drop_first())
    }
}

/// Folding one more entry at the back is one more insertion at the end.
proof fn lemma_items_fold_push(
    m: Map<HashingAlgorithm, u32>,
    items: Seq<(HashingAlgorithm, u32)>,
    p: (HashingAlgorithm, u32),
)
    ensures
        spec_items_fold(m, items.push(p)) == spec_items_fold(m, items).insert(p.0, p.1),
    decreases items.len(),
{
    if items.len() == 0 {
        assert(items.push(p)[0] == p);
        assert(items.push(p).drop_first() =~= Seq::<(HashingAlgorithm, u32)>::empty());
        assert(spec_items_fold(m, items.push(p)) == spec_items_fold(
            m.insert(p.0, p.1),
            items.push(p).drop_first(),
        ));
        assert(spec_items_fold(m.insert(p.0, p.1), items.push(p).drop_first()) == m.insert(
            p.0,
            p.1,
        ));
        assert(spec_items_fold(m, items) == m);
    } else {
        assert(items.push(p)[0] == items[0]);
        assert(items.push(p).drop_first() =~= items.drop_first().push(p));
        lemma_items_fold_push(m.insert(items[0].0, items[0].1), items.drop_first(), p);
        assert(spec_items_fold(m, items.push(p)) == spec_items_fold(
            m.insert(items[0].0, items[0].1),
            items.drop_first().push(p),
        ));
        assert(spec_items_fold(m, items) == spec_items_fold(
            m.insert(items[0].0, items[0].1),
            items.drop_first(),
        ));
    }
}

/// Folding an association list into the empty mapping yields the mapping
/// the list stands for.
proof fn lemma_items_fold_is_map(items: Seq<(HashingAlgorithm, u32)>)
    ensures
        spec_items_fold(Map::empty(), items) == spec_items_map(items),
    decreases items.len(),
{
    if items.len() == 0 {
    } else {
        lemma_items_fold_is_map(items.drop_last());
        assert(items.drop_last().push(items.last()) =~= items);
        lemma_items_fold_push(Map::empty(), items.drop_last(), items.last());
    }
}

/// Parsing entries that each encode one entry of a distinct-key
/// association list succeeds and folds the list into the accumulated
/// mapping; the selection size seen afterwards is the shared one.
proof fn lemma_parse_encoded(
    entries: Seq<TpmsPcrSelection>,
    items: Seq<(HashingAlgorithm, u32)>,
    m: Map<HashingAlgorithm, u32>,
    size: PcrSelectSize,
    size0: Option<PcrSelectSize>,
)
    requires
        entries.len() == items.len(),
        forall|j: int| 0 <= j < entries.len() ==> spec_entry_encodes(
            #[trigger] entries[j],
            items[j],
            size,
        ),
        spec_keys_distinct(items),
        spec_masks_in_range(items),
        forall|j: int| 0 <= j < items.len() ==> !m.dom().contains(#[trigger] items[j].0),
        size0 is None || size0 == Some(size),
    ensures
        spec_pcr_parse(entries, m, size0) == Ok::<_, WrapperErrorKind>(
            (
                spec_items_fold(m, items),
                if entries.len() > 0 {
                    Some(size)
                } else {
                    size0
                },
            ),
        ),
    decreases entries.len(),
{
    if entries.len() > 0 {
        let e = entries[0];
        let item = items[0];
        let alg = item.0;
        let mask = item.1;
        assert(spec_entry_encodes(e, item, size));
        assert(spec_hash_alg_of_id(e.hash) == Some(alg)) by {
            crate::algorithms::lemma_hash_alg_id_round_trip(alg, e.hash);
        }
        assert(spec_select_size_of_u8(e.sizeof_select) == Some(size));
        assert(spec_le_u32(e.pcr_select) == mask);
        assert((spec_le_u32(e.pcr_select) as u32) == mask);
        assert(spec_selected(m, alg) == 0u32);
        assert(0u32 | mask == mask) by (bit_vector);
        let m1 = m.insert(alg, mask);
        let rest = items.drop_first();
        assert(forall|j: int| 0 <= j < rest.len() ==> rest[j] == items[j + 1]);
        assert(spec_keys_distinct(rest));
        assert(spec_masks_in_range(rest));
        assert(forall|j: int| 0 <= j < rest.len() ==> #[trigger] rest[j].0 != alg);
        assert(forall|j: int| 0 <= j < rest.len() ==> !m1.dom().contains(#[trigger] rest[j].0));
        lemma_parse_encoded(entries.drop_first(), rest, m1, size, Some(size));
        assert(spec_items_fold(m, items) == spec_items_fold(m1, items.drop_first()));
    }
}

/// Encoding a selection set into the wire selection list and parsing the
/// list back yields the same hash-algorithm-to-mask mapping, and, when
/// the set has any entry, the same selection size; parsing what the
/// encoding produced never fails.
pub proof fn lemma_pcr_selection_round_trip(s: PcrSelections, t: TpmlPcrSelection)
    requires
        s.wf(),
        t.count == s.items@.len(),
        forall|j: int| 0 <= j < t.count ==> spec_entry_encodes(
            #[trigger] t.pcr_selections@[j],
            s.items@[j],
            s.size_of_select,
        ),
        t.count <= t.pcr_selections@.len(),
    ensures
        ({
            let parsed = spec_pcr_parse(
                t.pcr_selections@.take(t.count as int),
                Map::empty(),
                None,
            );
            &&& parsed matches Ok((m, sz)) && m == s.view_map()
            &&& (t.count > 0 ==> (parsed matches Ok((m, sz)) && sz == Some(s.size_of_select)))
            &&& (t.count == 0 ==> (parsed matches Ok((m, sz)) && sz is None))
        }),
{
    let entries = t.pcr_selections@.take(t.count as int);
    assert(forall|j: int| 0 <= j < entries.len() ==> entries[j] == t.pcr_selections@[j]);
    lemma_parse_encoded(entries, s.items@, Map::empty(), s.size_of_select, None);
    lemma_items_fold_is_map(s.items@);
}

/// An association list of distinct hash algorithms has at most one entry
/// per algorithm, so no more than the number of algorithms.
proof fn lemma_distinct_keys_bound(items: Seq<(HashingAlgorithm, u32)>)
    requires
        spec_keys_distinct(items),
    ensures
        items.len() <= spec_alg_count(),
{
    let keys = items.map_values(|p: (HashingAlgorithm, u32)| spec_alg_index(p.0));
    assert(keys.no_duplicates());
    keys.unique_seq_to_set();
    assert(keys.to_set().subset_of(set_int_range(0, spec_alg_count()))) by {
        assert forall|x: int| keys.to_set().contains(x) implies set_int_range(
            0,
            spec_alg_count(),
        ).contains(x) by {
            let j = choose|j: int| 0 <= j < keys.len() && keys[j] == x;
            assert(0 <= spec_alg_index(items[j].0) < spec_alg_count());
        }
    }
    lemma_int_range(0, spec_alg_count());
    lemma_len_subset(keys.to_set(), set_int_range(0, spec_alg_count()));
}

} // verus!
