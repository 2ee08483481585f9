use vstd::prelude::*;

use crate::consts::{BASE_TOWER_HP, BASE_WALLS_HP};
use crate::resource::{Resource, ResourceType};

verus! {

/// The authoritative status of one player: one ledger for each resource kind
/// and the health of the tower and of the walls.
#[derive(Clone, Copy, Debug)]
pub struct Player {
    pub tower_hp: i32,
    pub walls_hp: i32,
    pub tools: Resource,
    pub magic: Resource,
    pub soldiers: Resource,
}

impl Player {
    /// The ledger that this player keeps for `kind`.
    pub open spec fn ledger(self, kind: ResourceType) -> Resource {
        match kind {
            ResourceType::Tools => self.tools,
            ResourceType::Magic => self.magic,
            ResourceType::Soldiers => self.soldiers,
        }
    }

    /// A player at the start of a game: base health and fresh ledgers.
    pub fn new() -> (r: Player)
        ensures
            r.tower_hp == BASE_TOWER_HP,
            r.walls_hp == BASE_WALLS_HP,
            r.tools.is_fresh(),
            r.magic.is_fresh(),
            r.soldiers.is_fresh(),
    {
        Player {
            tower_hp: BASE_TOWER_HP,
            walls_hp: BASE_WALLS_HP,
            tools: Resource::new(),
            magic: Resource::new(),
            soldiers: Resource::new(),
        }
    }

    /// The ledger for `kind`.
    pub fn resource(&self, kind: ResourceType) -> (r: &Resource)
        ensures
            *r == self.ledger(kind),
    {
        match kind {
            ResourceType::Tools => &self.tools,
            ResourceType::Magic => &self.magic,
            ResourceType::Soldiers => &self.soldiers,
        }
    }
}

} // verus!
