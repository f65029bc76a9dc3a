use vstd::prelude::*;

verus! {

/// One slot of the cross-section triangle strip: which side of the polygon
/// its angle comes from, and whether it sits on the near (`end == 0`, swept
/// origin) or far (`end == 1`, swept tip) ring of the extruded tube.
///
/// The angle a slot stands for is one full turn times `side / sides`; slot
/// values only fix that fraction, so equal slots always evaluate to equal
/// vertices.
#[derive(Clone, Copy, Debug, PartialEq, Eq, Structural)]
pub struct SectionSlot {
    /// Index into the polygon's sides; runs up to and including `sides`,
    /// where the final value closes the ring with a full turn.
    pub side: u32,
    /// 0 on the near ring, 1 on the far ring.
    pub end: u32,
}

/// The slot at strip position `i`: positions pair up near and far vertices
/// side by side, so the strip alternates between the two rings while the
/// side index advances every other position.
pub open spec fn section_slot_spec(i: int) -> SectionSlot {
    SectionSlot { side: (i / 2) as u32, end: (i % 2) as u32 }
}

/// Builds the cross-section strip pattern for a polygon with `sides` sides:
/// exactly `2 * sides + 2` slots, pairing the near and far rings side by
/// side, with one closing pair whose side index equals `sides` (a full
/// turn, the same direction as side 0).
pub fn cross_section_slots(sides: u32) -> (r: Vec<SectionSlot>)
    requires
        3 <= sides <= 2147483646,
    ensures
        r@.len() == 2 * sides + 2,
        forall|i: int| 0 <= i < r@.len() ==> r@[i] == section_slot_spec(i),
{
    let count: u32 = 2 * sides + 2;
    let mut r: Vec<SectionSlot> = Vec::new();
    let mut i: u32 = 0;
    while i < count
        invariant
            i <= count,
            count == 2 * sides + 2,
            r@.len() == i,
            forall|j: int| 0 <= j < i ==> r@[j] == section_slot_spec(j),
        decreases count - i,
    {
        r.push(SectionSlot { side: i / 2, end: i % 2 });
        i = i + 1;
    }
    r
}

/// The strip closes on itself: its first pair sits on side 0 and its last
/// pair on side `sides`, which is the same fraction of a full turn modulo
/// the polygon, and near/far alternation is the same at both seams.
pub proof fn lemma_section_strip_closes(sides: int)
    requires
        3 <= sides <= 2147483646,
    ensures
        section_slot_spec(0).side == 0,
        section_slot_spec(1).side == 0,
        section_slot_spec(2 * sides).side == sides,
        section_slot_spec(2 * sides + 1).side == sides,
        sides % sides == 0,
        section_slot_spec(0).end == section_slot_spec(2 * sides).end,
        section_slot_spec(1).end == section_slot_spec(2 * sides + 1).end,
{
    assert((2 * sides) / 2 == sides);
    assert((2 * sides + 1) / 2 == sides);
    assert((2 * sides) % 2 == 0);
    assert((2 * sides + 1) % 2 == 1);
}

} // verus!
