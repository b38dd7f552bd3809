//! The structured status of the local player, as decoded from a snapshot's
//! payload.

use vstd::prelude::*;
use crate::geometry::Position;

verus! {

/// A named thing in one of the status lists: an item, a piece of equipment,
/// something near enough to interact with, or something that can be built.
#[derive(Clone, Debug)]
pub struct Entry {
    pub id: u32,
    pub name: String,
}

/// The player's numbers in a fight.
#[derive(Clone, Copy, Debug, PartialEq, Eq, Structural)]
pub struct CombatStats {
    pub max_hp: i32,
    pub hp: i32,
    pub defense: i32,
    pub power: i32,
}

/// Where the player stands, the player's hit points and the log of events.
#[derive(Clone, Debug)]
pub struct MyInfo {
    pub pos: Position,
    pub hp: i32,
    pub max_hp: i32,
    pub player_log: Vec<String>,
}

/// The decoded status of the local player.
#[derive(Clone, Debug)]
pub struct PlayerInfo {
    pub inventaire: Vec<Entry>,
    pub close_interations: Vec<Entry>,
    pub my_info: MyInfo,
    pub possible_builds: Vec<Entry>,
    pub equipement: Vec<Entry>,
    pub combat_stats: CombatStats,
}

/// The text of the diagnostic that a failed decode gives.
pub open spec fn decode_diagnostic() -> Seq<char> {
    "unable to deserialize json"@
}

/// Whether a status is the one held before anything was decoded: the player
/// at the origin with no hit points, every list empty, every number zero.
pub open spec fn blank(info: PlayerInfo) -> bool {
    &&& info.inventaire@.len() == 0
    &&& info.close_interations@.len() == 0
    &&& info.possible_builds@.len() == 0
    &&& info.equipement@.len() == 0
    &&& info.my_info.pos == (Position { x: 0, y: 0 })
    &&& info.my_info.hp == 0
    &&& info.my_info.max_hp == 0
    &&& info.my_info.player_log@.len() == 0
    &&& info.combat_stats == (CombatStats { max_hp: 0, hp: 0, defense: 0, power: 0 })
}

impl PlayerInfo {
    /// The status before anything was decoded.
    pub fn new() -> (info: PlayerInfo)
        ensures
            blank(info),
    {
        PlayerInfo {
            inventaire: Vec::new(),
            close_interations: Vec::new(),
            my_info: MyInfo {
                pos: Position { x: 0, y: 0 },
                hp: 0,
                max_hp: 0,
                player_log: Vec::new(),
            },
            possible_builds: Vec::new(),
            equipement: Vec::new(),
            combat_stats: CombatStats { max_hp: 0, hp: 0, defense: 0, power: 0 },
        }
    }

    /// Takes in what became of decoding a payload. A decoded status replaces
    /// the one held. A failed decode (`None`) leaves the one held as it is
    /// and gives one diagnostic.
    pub fn refresh(&mut self, decoded: Option<PlayerInfo>) -> (diagnostic: Option<String>)
        ensures
            *final(self) == (match decoded {
                Some(info) => info,
                None => *old(self),
            }),
            diagnostic.is_some() == decoded.is_none(),
            diagnostic.is_some() ==> diagnostic.unwrap()@ == decode_diagnostic(),
    {
        match decoded {
            Some(info) => {
                *self = info;
                None
            },
            None => Some(String::from_str("unable to deserialize json")),
        }
    }
}

} // verus!
