use tube_strands::cross_section_slots;

#[test]
fn eight_sides_give_eighteen_slots() {
    let slots = cross_section_slots(8);
    assert_eq!(slots.len(), 18);
}

#[test]
fn slots_pair_rings_and_advance_sides() {
    let slots = cross_section_slots(8);
    for (i, slot) in slots.iter().enumerate() {
        assert_eq!(slot.side as usize, i / 2, "side at slot {}", i);
        assert_eq!(slot.end as usize, i % 2, "ring at slot {}", i);
    }
    assert_eq!(slots[16].side, 8);
    assert_eq!(slots[17].side, 8);
}

#[test]
fn triangle_gives_eight_slots() {
    let slots = cross_section_slots(3);
    assert_eq!(slots.len(), 2 * 3 + 2);
}

#[test]
fn evaluated_ring_is_unit_and_closes() {
    // Evaluate the slot pattern the way the render shell does: the angle is
    // one full turn times side / sides, the near ring sits at z = 0 and the
    // far ring at z = 1.
    let sides = 8u32;
    let slots = cross_section_slots(sides);
    let eval = |side: u32, end: u32| -> (f32, f32, f32) {
        let angle = std::f32::consts::TAU * (side as f32) / (sides as f32);
        (angle.cos(), angle.sin(), end as f32)
    };
    for slot in slots.iter() {
        let (x, y, _z) = eval(slot.side, slot.end);
        let radius = (x * x + y * y).sqrt();
        assert!((radius - 1.0).abs() < 1e-5);
    }
    // The closing pair lands on the same vertices as the opening pair.
    let (x0, y0, z0) = eval(slots[0].side, slots[0].end);
    let (x16, y16, z16) = eval(slots[16].side, slots[16].end);
    assert!((x0 - x16).abs() < 1e-5 && (y0 - y16).abs() < 1e-5 && (z0 - z16).abs() < 1e-5);
    let (x1, y1, z1) = eval(slots[1].side, slots[1].end);
    let (x17, y17, z17) = eval(slots[17].side, slots[17].end);
    assert!((x1 - x17).abs() < 1e-5 && (y1 - y17).abs() < 1e-5 && (z1 - z17).abs() < 1e-5);
}
