use std::collections::HashMap;
use vstd::prelude::*;

verus! {

broadcast use vstd::std_specs::hash::group_hash_axioms;

/// The table that drives translation: which MIDI controller (or note) each
/// event code of a device stands for. A code without an entry has no
/// translation; there is no default controller.
pub struct Mapping {
    /// Name of the device the table was written for. Informational.
    pub device_name: String,
    /// Event code to controller number.
    pub map: HashMap<u16, u8>,
}

impl Mapping {
    /// The table as a mathematical map.
    pub open spec fn table(&self) -> Map<u16, u8> {
        self.map@
    }

    /// The controller for a code, if the table has one.
    pub open spec fn lookup(&self, code: u16) -> Option<u8> {
        if self.map@.contains_key(code) {
            Some(self.map@[code])
        } else {
            None
        }
    }

    pub fn controller(&self, code: u16) -> (c: Option<u8>)
        ensures
            c == self.lookup(code),
    {
        match self.map.get(&code) {
            Some(byte) => Some(*byte),
            None => None,
        }
    }
}

/// The controller that the TRAKTOR Kontrol X1 Mk1 table gives to a code. The
/// controls are numbered bottom-up and left to right.
pub open spec fn kontrol_x1_controller(code: u16) -> Option<u8> {
    match code {
        // Transport, deck A
        256 => Some(1u8),
        279 => Some(2u8),
        257 => Some(3u8),
        278 => Some(4u8),
        258 => Some(5u8),
        277 => Some(6u8),
        276 => Some(7u8),
        259 => Some(8u8),
        // Loop and load, deck A (the encoder that would be 14 is dead)
        282 => Some(9u8),
        2 => Some(10u8),
        265 => Some(11u8),
        264 => Some(12u8),
        280 => Some(13u8),
        // Effects, deck A
        287 => Some(15u8),
        22 => Some(16u8),
        286 => Some(17u8),
        20 => Some(18u8),
        285 => Some(19u8),
        18 => Some(20u8),
        284 => Some(21u8),
        16 => Some(22u8),
        // Transport, deck B
        272 => Some(23u8),
        271 => Some(24u8),
        273 => Some(25u8),
        270 => Some(26u8),
        274 => Some(27u8),
        269 => Some(28u8),
        268 => Some(29u8),
        275 => Some(30u8),
        // Loop and load, deck B
        283 => Some(31u8),
        40 => Some(32u8),
        294 => Some(33u8),
        293 => Some(34u8),
        281 => Some(35u8),
        1 => Some(36u8),
        // Effects, deck B
        23 => Some(37u8),
        291 => Some(38u8),
        21 => Some(39u8),
        290 => Some(40u8),
        19 => Some(41u8),
        289 => Some(42u8),
        17 => Some(43u8),
        288 => Some(44u8),
        // Shift and hotcue
        295 => Some(45u8),
        292 => Some(46u8),
        _ => None,
    }
}

/// The TRAKTOR Kontrol X1 Mk1 table as a map.
pub open spec fn kontrol_x1_table() -> Map<u16, u8> {
    Map::new(
        |code: u16| kontrol_x1_controller(code).is_some(),
        |code: u16| kontrol_x1_controller(code).unwrap(),
    )
}

/// Builds the table for the TRAKTOR Kontrol X1 Mk1.
pub fn create() -> (mapping: HashMap<u16, u8>)
    ensures
        mapping@ == kontrol_x1_table(),
{
    let mut mapping: HashMap<u16, u8> = HashMap::new();
    // Transport, deck A
    mapping.insert(256, 1);
    mapping.insert(279, 2);
    mapping.insert(257, 3);
    mapping.insert(278, 4);
    mapping.insert(258, 5);
    mapping.insert(277, 6);
    mapping.insert(276, 7);
    mapping.insert(259, 8);
    // Loop and load, deck A (the encoder that would be 14 is dead)
    mapping.insert(282, 9);
    mapping.insert(2, 10);
    mapping.insert(265, 11);
    mapping.insert(264, 12);
    mapping.insert(280, 13);
    // Effects, deck A
    mapping.insert(287, 15);
    mapping.insert(22, 16);
    mapping.insert(286, 17);
    mapping.insert(20, 18);
    mapping.insert(285, 19);
    mapping.insert(18, 20);
    mapping.insert(284, 21);
    mapping.insert(16, 22);
    // Transport, deck B
    mapping.insert(272, 23);
    mapping.insert(271, 24);
    mapping.insert(273, 25);
    mapping.insert(270, 26);
    mapping.insert(274, 27);
    mapping.insert(269, 28);
    mapping.insert(268, 29);
    mapping.insert(275, 30);
    // Loop and load, deck B
    mapping.insert(283, 31);
    mapping.insert(40, 32);
    mapping.insert(294, 33);
    mapping.insert(293, 34);
    mapping.insert(281, 35);
    mapping.insert(1, 36);
    // Effects, deck B
    mapping.insert(23, 37);
    mapping.insert(291, 38);
    mapping.insert(21, 39);
    mapping.insert(290, 40);
    mapping.insert(19, 41);
    mapping.insert(289, 42);
    mapping.insert(17, 43);
    mapping.insert(288, 44);
    // Shift and hotcue
    mapping.insert(295, 45);
    mapping.insert(292, 46);
    assert(mapping@ =~= kontrol_x1_table());
    mapping
}

/// No two codes of the Kontrol X1 table share a controller, and the
/// controllers are 1 to 46 without 14.
pub proof fn lemma_kontrol_x1_controllers(a: u16, b: u16)
    requires
        kontrol_x1_table().contains_key(a),
        kontrol_x1_table().contains_key(b),
    ensures
        1 <= kontrol_x1_table()[a] <= 46,
        kontrol_x1_table()[a] != 14,
        kontrol_x1_table()[a] == kontrol_x1_table()[b] ==> a == b,
{
}

} // verus!
