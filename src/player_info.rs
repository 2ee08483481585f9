use vstd::prelude::*;

use crate::consts::{BASE_RESOURCE_AMOUNT, BASE_RESOURCE_PRODUCTION, BASE_TOWER_HP, BASE_WALLS_HP};
use crate::player::Player;
use crate::resource::{Resource, ResourceType};

verus! {

/// The image shown beside each resource kind.
pub open spec fn icon_of(kind: ResourceType) -> Seq<char> {
    match kind {
        ResourceType::Tools => "/tools.png"@,
        ResourceType::Magic => "/potionBlue.png"@,
        ResourceType::Soldiers => "/axe.png"@,
    }
}

/// The path of the image shown beside `kind`: tools, a blue potion, an axe.
pub fn icon_path(kind: ResourceType) -> (r: &'static str)
    ensures
        r@ == icon_of(kind),
{
    match kind {
        ResourceType::Tools => "/tools.png",
        ResourceType::Magic => "/potionBlue.png",
        ResourceType::Soldiers => "/axe.png",
    }
}

/// The displayed copy of one ledger.
#[derive(Clone, Copy, Debug)]
pub struct ResourceInfo {
    pub amount: i32,
    pub production: i32,
}

impl ResourceInfo {
    /// True when this copy holds exactly the values of `r`.
    pub open spec fn shows(self, r: Resource) -> bool {
        self.amount == r.amount && self.production == r.production
    }

    /// A copy that shows a fresh ledger.
    pub fn new() -> (r: ResourceInfo)
        ensures
            r.amount == BASE_RESOURCE_AMOUNT,
            r.production == BASE_RESOURCE_PRODUCTION,
    {
        ResourceInfo { amount: BASE_RESOURCE_AMOUNT, production: BASE_RESOURCE_PRODUCTION }
    }

    /// Overwrites both values with those of `resource`.
    pub fn update_values(&mut self, resource: &Resource)
        ensures
            final(self).shows(*resource),
    {
        self.amount = resource.amount;
        self.production = resource.production;
    }
}

/// What a [`PlayerInfo`] holds.
pub struct PlayerInfoView {
    pub active: bool,
    pub align_right: bool,
    pub name: Seq<char>,
    pub avatar_path: Seq<char>,
    pub tower_hp: i32,
    pub walls_hp: i32,
    pub tools: ResourceInfo,
    pub magic: ResourceInfo,
    pub soldiers: ResourceInfo,
}

impl PlayerInfoView {
    /// The displayed copy for `kind`.
    pub open spec fn info(self, kind: ResourceType) -> ResourceInfo {
        match kind {
            ResourceType::Tools => self.tools,
            ResourceType::Magic => self.magic,
            ResourceType::Soldiers => self.soldiers,
        }
    }

    /// True when every tracked field equals the corresponding value of `p`:
    /// both health values and the amount and production of each kind.
    pub open spec fn shows(self, p: Player) -> bool {
        &&& self.tower_hp == p.tower_hp
        &&& self.walls_hp == p.walls_hp
        &&& forall|kind: ResourceType| #[trigger] self.info(kind).shows(p.ledger(kind))
    }

    /// The mirror after a sync from `p`: every tracked field replaced by the
    /// value of `p`, everything else kept.
    pub open spec fn synced(self, p: Player) -> PlayerInfoView {
        PlayerInfoView {
            active: self.active,
            align_right: self.align_right,
            name: self.name,
            avatar_path: self.avatar_path,
            tower_hp: p.tower_hp,
            walls_hp: p.walls_hp,
            tools: ResourceInfo { amount: p.tools.amount, production: p.tools.production },
            magic: ResourceInfo { amount: p.magic.amount, production: p.magic.production },
            soldiers: ResourceInfo { amount: p.soldiers.amount, production: p.soldiers.production },
        }
    }
}

/// The display-side mirror of one player's status.
///
/// It never refers to the live [`Player`]: [`PlayerInfo::update_info`] copies
/// the values, and between two syncs the mirror keeps what it copied last.
pub struct PlayerInfo {
    active: bool,
    align_right: bool,
    name: String,
    avatar_path: String,
    tower_hp: i32,
    walls_hp: i32,
    tools: ResourceInfo,
    magic: ResourceInfo,
    soldiers: ResourceInfo,
}

impl View for PlayerInfo {
    type V = PlayerInfoView;

    closed spec fn view(&self) -> PlayerInfoView {
        PlayerInfoView {
            active: self.active,
            align_right: self.align_right,
            name: self.name@,
            avatar_path: self.avatar_path@,
            tower_hp: self.tower_hp,
            walls_hp: self.walls_hp,
            tools: self.tools,
            magic: self.magic,
            soldiers: self.soldiers,
        }
    }
}

impl PlayerInfo {
    /// A mirror with base health and a copy of a fresh ledger for each kind.
    /// `align_right` anchors the panel to the right edge of the screen.
    pub fn new(name: String, active: bool, avatar_path: String, align_right: bool) -> (r:
        PlayerInfo)
        ensures
            r@.name == name@,
            r@.active == active,
            r@.avatar_path == avatar_path@,
            r@.align_right == align_right,
            r@.tower_hp == BASE_TOWER_HP,
            r@.walls_hp == BASE_WALLS_HP,
            forall|kind: ResourceType|
                #![trigger r@.info(kind)]
                r@.info(kind).amount == BASE_RESOURCE_AMOUNT && r@.info(kind).production
                    == BASE_RESOURCE_PRODUCTION,
    {
        PlayerInfo {
            active,
            align_right,
            name,
            avatar_path,
            tower_hp: BASE_TOWER_HP,
            walls_hp: BASE_WALLS_HP,
            tools: ResourceInfo::new(),
            magic: ResourceInfo::new(),
            soldiers: ResourceInfo::new(),
        }
    }

    /// Copies both health values and every ledger of `player` into the mirror,
    /// whatever it held before.
    pub fn update_info(&mut self, player: &Player)
        ensures
            final(self)@ == old(self)@.synced(*player),
            final(self)@.shows(*player),
    {
        self.walls_hp = player.walls_hp;
        self.tower_hp = player.tower_hp;

        self.tools.update_values(player.resource(ResourceType::Tools));
        self.magic.update_values(player.resource(ResourceType::Magic));
        self.soldiers.update_values(player.resource(ResourceType::Soldiers));
    }

    pub fn name(&self) -> (r: &str)
        ensures
            r@ == self@.name,
    {
        self.name.as_str()
    }

    pub fn is_active(&self) -> (r: bool)
        ensures
            r == self@.active,
    {
        self.active
    }

    pub fn avatar_path(&self) -> (r: &str)
        ensures
            r@ == self@.avatar_path,
    {
        self.avatar_path.as_str()
    }

    pub fn align_right(&self) -> (r: bool)
        ensures
            r == self@.align_right,
    {
        self.align_right
    }

    pub fn tower_hp(&self) -> (r: i32)
        ensures
            r == self@.tower_hp,
    {
        self.tower_hp
    }

    pub fn walls_hp(&self) -> (r: i32)
        ensures
            r == self@.walls_hp,
    {
        self.walls_hp
    }

    /// The displayed copy of the ledger for `kind`.
    pub fn resource_info(&self, kind: ResourceType) -> (r: &ResourceInfo)
        ensures
            *r == self@.info(kind),
    {
        match kind {
            ResourceType::Tools => &self.tools,
            ResourceType::Magic => &self.magic,
            ResourceType::Soldiers => &self.soldiers,
        }
    }
}

/// A sync overwrites every tracked field: whatever the mirror held before, it
/// then shows exactly the snapshot, and keeps its own name, avatar, activity
/// and alignment.
pub proof fn lemma_sync_overwrites(m: PlayerInfoView, p: Player)
    ensures
        m.synced(p).shows(p),
        m.synced(p).tower_hp == p.tower_hp,
        m.synced(p).walls_hp == p.walls_hp,
        forall|kind: ResourceType| #[trigger]
            m.synced(p).info(kind).amount == p.ledger(kind).amount
                && m.synced(p).info(kind).production == p.ledger(kind).production,
        m.synced(p).name == m.name,
        m.synced(p).avatar_path == m.avatar_path,
        m.synced(p).active == m.active,
        m.synced(p).align_right == m.align_right,
{
}

/// A sync copies values and keeps no link to the snapshot: once synced from
/// `p`, the mirror shows a later snapshot `q` only when `q` equals `p`, and it
/// shows `q` after the next sync.
pub proof fn lemma_sync_isolation(m: PlayerInfoView, p: Player, q: Player)
    ensures
        m.synced(p).shows(p),
        m.synced(p).shows(q) <==> q == p,
        m.synced(p).synced(q).shows(q),
{
    let s = m.synced(p);
    if s.shows(q) {
        assert(s.info(ResourceType::Tools).shows(q.ledger(ResourceType::Tools)));
        assert(s.info(ResourceType::Magic).shows(q.ledger(ResourceType::Magic)));
        assert(s.info(ResourceType::Soldiers).shows(q.ledger(ResourceType::Soldiers)));
    }
}

} // verus!
