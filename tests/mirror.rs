use castle_economy::consts::{BASE_TOWER_HP, BASE_WALLS_HP};
use castle_economy::player::Player;
use castle_economy::player_info::{icon_path, PlayerInfo};
use castle_economy::resource::ResourceType;

const KINDS: [ResourceType; 3] = [ResourceType::Tools, ResourceType::Magic, ResourceType::Soldiers];

fn mirror() -> PlayerInfo {
    PlayerInfo::new("Left".to_string(), true, "/avatar1.png".to_string(), false)
}

#[test]
fn new_mirror_has_base_health_and_keeps_settings() {
    let m = PlayerInfo::new("Right".to_string(), false, "/avatar2.png".to_string(), true);
    assert_eq!(m.tower_hp(), BASE_TOWER_HP);
    assert_eq!(m.tower_hp(), 100);
    assert_eq!(m.walls_hp(), BASE_WALLS_HP);
    assert_eq!(m.name(), "Right");
    assert!(!m.is_active());
    assert_eq!(m.avatar_path(), "/avatar2.png");
    assert!(m.align_right());
    for kind in KINDS {
        assert_eq!(m.resource_info(kind).amount, 0);
        assert_eq!(m.resource_info(kind).production, 5);
    }
}

#[test]
fn new_player_has_base_health_and_fresh_ledgers() {
    let p = Player::new();
    assert_eq!(p.tower_hp, BASE_TOWER_HP);
    assert_eq!(p.walls_hp, BASE_WALLS_HP);
    for kind in KINDS {
        assert_eq!(p.resource(kind).amount, 0);
        assert_eq!(p.resource(kind).production, 5);
    }
}

#[test]
fn sync_copies_tower_health_and_later_changes_stay_out() {
    let mut m = mirror();
    assert_eq!(m.tower_hp(), 100);
    let mut p = Player::new();
    p.tower_hp = 42;
    m.update_info(&p);
    assert_eq!(m.tower_hp(), 42);
    p.tower_hp = 7;
    assert_eq!(m.tower_hp(), 42);
    m.update_info(&p);
    assert_eq!(m.tower_hp(), 7);
}

#[test]
fn sync_overwrites_every_tracked_field() {
    let mut m = mirror();
    let mut first = Player::new();
    first.walls_hp = 3;
    first.tools.change_amount(40);
    m.update_info(&first);

    let mut p = Player::new();
    p.tower_hp = 61;
    p.walls_hp = 0;
    p.tools.amount = -8;
    p.tools.production = 2;
    p.magic.amount = 300;
    p.magic.production = 0;
    p.soldiers.amount = 11;
    p.soldiers.production = -1;
    m.update_info(&p);

    assert_eq!(m.tower_hp(), 61);
    assert_eq!(m.walls_hp(), 0);
    for kind in KINDS {
        assert_eq!(m.resource_info(kind).amount, p.resource(kind).amount);
        assert_eq!(m.resource_info(kind).production, p.resource(kind).production);
    }
    assert_eq!(m.resource_info(ResourceType::Magic).amount, 300);
    assert_eq!(m.name(), "Left");
    assert!(m.is_active());
    assert!(!m.align_right());
}

#[test]
fn ledgers_changed_after_sync_do_not_reach_the_mirror() {
    let mut m = mirror();
    let mut p = Player::new();
    p.soldiers.produce();
    m.update_info(&p);
    p.soldiers.produce();
    p.magic.change_amount(-9);
    p.walls_hp = 1;
    assert_eq!(m.resource_info(ResourceType::Soldiers).amount, 5);
    assert_eq!(m.resource_info(ResourceType::Magic).amount, 0);
    assert_eq!(m.walls_hp(), BASE_WALLS_HP);
}

#[test]
fn each_kind_has_its_own_icon() {
    assert_eq!(icon_path(ResourceType::Tools), "/tools.png");
    assert_eq!(icon_path(ResourceType::Magic), "/potionBlue.png");
    assert_eq!(icon_path(ResourceType::Soldiers), "/axe.png");
}
