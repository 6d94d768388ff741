use sdk::classes::entity::{CEntity, EntityState};
use sdk::classes::utl_vector::CUtlVec;
use sdk::classes::weapon::{CWeapon, WeaponState};
use sdk::definitions::bones::{get_bone_list, Bones};
use sdk::definitions::weapon_data::{get_type, WeaponId, WeaponType};
use sdk::interface::Interface;
use sdk::interfaces::engine_trace::{
    is_armored, HitGroup, TraceFilterGeneric, TraceFilterTrait, TraceType,
};
use sdk::interfaces::entity_list::IEntityList;
use sdk::interfaces::surface::Color;
use sdk::utils::memory::NotNull;
use sdk::utils::string::from_char_slice;
use sdk::{
    get_all_entities, get_all_players, get_entity_by_id, get_local_player, search_closest_entity,
    EntityReport,
};

fn answer(address: usize) -> NotNull<CEntity> {
    NotNull::new(CEntity::from_raw_unchecked(address))
}

fn report(address: usize, is_player: bool, is_alive: bool, is_dormant: bool) -> EntityReport {
    EntityReport { address, state: EntityState { is_player, is_alive, is_dormant } }
}

fn ptrs(views: &Vec<CEntity>) -> Vec<usize> {
    views.iter().map(|view| view.as_ptr()).collect()
}

#[test]
fn null_answer_of_the_directory_is_no_object() {
    let list = IEntityList::from_raw_unchecked(0x100);
    let by_index: Option<CEntity> = list.get_entity_by_id(5, answer(0));
    assert!(by_index.is_none());
    let by_handle: Option<CWeapon> = list.get_entity_from_handle(0x7FF, answer(0));
    assert!(by_handle.is_none());
    assert!(get_entity_by_id(0).is_none());
}

#[test]
fn view_holds_the_address_that_the_directory_reported() {
    let list = IEntityList::from_raw_unchecked(0x100);
    let by_index: Option<CEntity> = list.get_entity_by_id(5, answer(0x7000));
    assert_eq!(by_index.unwrap().as_ptr(), 0x7000);
    let by_handle: Option<CWeapon> = list.get_entity_from_handle(0x7FF, answer(0x8000));
    assert_eq!(by_handle.unwrap().as_ptr(), 0x8000);
    assert_eq!(get_entity_by_id(0x7000).unwrap().as_ptr(), 0x7000);
    assert_eq!(get_entity_by_id(1).unwrap().as_ptr(), 1);
    assert_eq!(get_entity_by_id(usize::MAX).unwrap().as_ptr(), usize::MAX);
    assert_eq!(get_local_player(0x7000).as_ptr(), 0x7000);
}

#[test]
fn entities_are_the_live_answers_in_order() {
    assert_eq!(ptrs(&get_all_entities(&vec![0, 0x10, 0, 0x30, 0x20, 0])), vec![0x10, 0x30, 0x20]);
    assert_eq!(ptrs(&get_all_entities(&vec![0, 0])), Vec::<usize>::new());
    assert_eq!(ptrs(&get_all_entities(&Vec::new())), Vec::<usize>::new());
}

#[test]
fn players_are_alive_updated_and_not_oneself() {
    let local = CEntity::from_raw_unchecked(0x10);
    let reports = vec![
        report(0, true, true, false),
        report(0x10, true, true, false),
        report(0x20, true, true, false),
        report(0x30, false, true, false),
        report(0x40, true, false, false),
        report(0x50, true, true, true),
        report(0x60, true, true, false),
    ];
    assert_eq!(ptrs(&get_all_players(&reports, &local)), vec![0x20, 0x60]);
    let nobody = CEntity::default();
    assert_eq!(ptrs(&get_all_players(&reports, &nobody)), vec![0x10, 0x20, 0x60]);
}

#[test]
fn validity_of_a_player() {
    let local = CEntity::from_raw_unchecked(0x10);
    let other = CEntity::from_raw_unchecked(0x20);
    let fine = EntityState { is_player: true, is_alive: true, is_dormant: false };
    assert!(other.is_valid_player(&fine, &local));
    assert!(!local.is_valid_player(&fine, &local));
    assert!(!other.is_valid_player(&EntityState { is_player: false, ..fine }, &local));
    assert!(!other.is_valid_player(&EntityState { is_alive: false, ..fine }, &local));
    assert!(!other.is_valid_player(&EntityState { is_dormant: true, ..fine }, &local));
}

#[test]
fn same_object_means_same_address() {
    let a = CEntity::from_raw_unchecked(0x20);
    let b = CEntity::from_raw_unchecked(0x20);
    let c = CEntity::from_raw_unchecked(0x30);
    assert!(a.same_as(&b));
    assert!(!a.same_as(&c));
    assert!(CEntity::default().same_as(&CEntity::from_raw_unchecked(0)));
}

fn with_distances(distances: [u32; 4]) -> Vec<(CEntity, u32)> {
    [0x10, 0x20, 0x30, 0x40]
        .iter()
        .zip(distances)
        .map(|(address, distance)| (CEntity::from_raw_unchecked(*address), distance))
        .collect()
}

#[test]
fn closest_entity_is_the_first_of_the_nearest() {
    assert_eq!(search_closest_entity(&with_distances([9, 4, 7, 4])).unwrap().as_ptr(), 0x20);
    assert_eq!(search_closest_entity(&with_distances([1, 4, 7, 4])).unwrap().as_ptr(), 0x10);
    assert_eq!(search_closest_entity(&with_distances([9, 4, 7, 0])).unwrap().as_ptr(), 0x40);
    assert_eq!(search_closest_entity(&with_distances([5, 5, 5, 5])).unwrap().as_ptr(), 0x10);
    assert!(search_closest_entity(&Vec::new()).is_none());
    let bits = |d: f32| d.to_bits();
    let by_distance = with_distances([bits(3.5), bits(0.25), bits(120.0), bits(0.5)]);
    assert_eq!(search_closest_entity(&by_distance).unwrap().as_ptr(), 0x20);
}

#[test]
fn sound_of_the_entity_makes_it_audible() {
    let entity = CEntity::from_raw_unchecked(0x20);
    assert!(entity.is_audible(&vec![0, 0x10, 0x20]));
    assert!(!entity.is_audible(&vec![0, 0x10, 0x30]));
    assert!(!entity.is_audible(&Vec::new()));
    assert!(!CEntity::default().is_audible(&vec![0, 0]));
}

#[test]
fn held_weapon_is_what_the_directory_reports() {
    let list = IEntityList::from_raw_unchecked(0x100);
    let entity = CEntity::from_raw_unchecked(0x20);
    assert!(entity.get_weapon(&list, 0x123, answer(0)).is_none());
    assert_eq!(entity.get_weapon(&list, 0x123, answer(0x9000)).unwrap().as_ptr(), 0x9000);
}

fn rifle() -> WeaponState {
    WeaponState { id: 7, clip: 30, reloading: false, cooling_down: false }
}

#[test]
fn weapon_fires_when_nothing_holds_it_back() {
    let weapon = CWeapon::from_raw_unchecked(0x9000);
    assert!(weapon.can_fire(&rifle()));
    assert!(!weapon.can_fire(&WeaponState { cooling_down: true, ..rifle() }));
    assert!(!weapon.can_fire(&WeaponState { clip: 0, ..rifle() }));
    assert!(!weapon.can_fire(&WeaponState { reloading: true, ..rifle() }));
    assert!(!weapon.can_fire(&WeaponState { id: 42, ..rifle() }));
    assert!(!weapon.can_fire(&WeaponState { id: 44, ..rifle() }));
    assert!(!weapon.can_fire(&WeaponState { id: 49, ..rifle() }));
    assert!(!weapon.can_fire(&WeaponState { id: 0, ..rifle() }));
    assert!(weapon.can_fire(&WeaponState { clip: -1, ..rifle() }));
    assert!(weapon.can_fire(&WeaponState { id: 9, clip: 1, ..rifle() }));
}

#[test]
fn entity_fires_with_the_weapon_it_holds() {
    let entity = CEntity::from_raw_unchecked(0x20);
    let weapon = CWeapon::from_raw_unchecked(0x9000);
    assert!(!entity.can_fire(None));
    assert!(entity.can_fire(Some((weapon, rifle()))));
    assert!(!entity.can_fire(Some((weapon, WeaponState { clip: 0, ..rifle() }))));
}

#[test]
fn kinds_of_weapon() {
    let weapon = CWeapon::from_raw_unchecked(0x9000);
    let state = |id: i16| WeaponState { id, ..rifle() };
    assert_eq!(weapon.get_type(&state(7)), WeaponType::AssaultRifle);
    assert!(weapon.is_type(&state(7), WeaponType::AssaultRifle));
    assert!(!weapon.is_type(&state(7), WeaponType::Pistol));
    assert!(!weapon.is_melee(&state(7)));
    assert!(weapon.is_melee(&state(42)));
    assert!(weapon.is_melee(&state(507)));
    assert!(weapon.is_melee(&state(43)));
    assert!(weapon.is_melee(&state(1200)));
    assert!(weapon.is_melee(&state(-5)));
    let table = [
        (1, WeaponType::Pistol),
        (2, WeaponType::Pistol),
        (3, WeaponType::Pistol),
        (4, WeaponType::Pistol),
        (20, WeaponType::Pistol),
        (32, WeaponType::Pistol),
        (36, WeaponType::Pistol),
        (61, WeaponType::Pistol),
        (64, WeaponType::Pistol),
        (63, WeaponType::Unknown),
        (30, WeaponType::Unknown),
        (7, WeaponType::AssaultRifle),
        (10, WeaponType::AssaultRifle),
        (13, WeaponType::AssaultRifle),
        (16, WeaponType::AssaultRifle),
        (60, WeaponType::AssaultRifle),
        (8, WeaponType::Unknown),
        (39, WeaponType::Unknown),
        (14, WeaponType::MachineGun),
        (28, WeaponType::MachineGun),
        (17, WeaponType::MachinePistol),
        (19, WeaponType::MachinePistol),
        (24, WeaponType::MachinePistol),
        (26, WeaponType::MachinePistol),
        (33, WeaponType::MachinePistol),
        (34, WeaponType::Unknown),
        (23, WeaponType::Unknown),
        (25, WeaponType::Shotgun),
        (27, WeaponType::Shotgun),
        (29, WeaponType::Shotgun),
        (35, WeaponType::Unknown),
        (9, WeaponType::Sniper),
        (40, WeaponType::Sniper),
        (11, WeaponType::AutoSniper),
        (38, WeaponType::AutoSniper),
        (41, WeaponType::Melee),
        (42, WeaponType::Melee),
        (59, WeaponType::Melee),
        (75, WeaponType::Melee),
        (80, WeaponType::Melee),
        (500, WeaponType::Melee),
        (525, WeaponType::Melee),
        (76, WeaponType::Unknown),
        (78, WeaponType::Unknown),
        (43, WeaponType::Grenade),
        (48, WeaponType::Grenade),
        (68, WeaponType::Unknown),
        (49, WeaponType::Unknown),
        (0, WeaponType::Unknown),
        (5, WeaponType::Unknown),
        (-1, WeaponType::Unknown),
        (5035, WeaponType::Unknown),
        (i16::MAX, WeaponType::Unknown),
        (i16::MIN, WeaponType::Unknown),
    ];
    for (id, kind) in table {
        assert_eq!(get_type(id), kind);
    }
}

#[test]
fn items_are_known_by_their_numbers() {
    assert_eq!(WeaponId::from_i16(1), Some(WeaponId::Deagle));
    assert_eq!(WeaponId::from_i16(7), Some(WeaponId::Ak47));
    assert_eq!(WeaponId::from_i16(5035), Some(WeaponId::GloveHydra));
    assert_eq!(WeaponId::from_i16(0), Some(WeaponId::Unknown));
    assert_eq!(WeaponId::from_i16(5), None);
    assert_eq!(WeaponId::from_i16(-1), None);
    assert_eq!(WeaponId::Ak47.id(), 7);
    assert_eq!(WeaponId::SkeletonKnife.id(), 525);
    assert_eq!(WeaponId::from_i32(7), Some(WeaponId::Ak47));
    assert_eq!(WeaponId::from_i32(65536 + 1), Some(WeaponId::Deagle));
    assert_eq!(WeaponId::from_i32(65536 + 5), None);
    assert_eq!(WeaponId::from_i32(-65536 + 42), Some(WeaponId::Knife));
    for id in i16::MIN..=i16::MAX {
        if let Some(item) = WeaponId::from_i16(id) {
            assert_eq!(item.id(), id);
        }
    }
}

#[test]
fn bones_are_tried_from_the_head_down() {
    assert_eq!(get_bone_list(), [8, 7, 3, 4, 5, 6, 65, 66, 72, 73, 69, 76]);
    assert_eq!(Bones::Head.index(), 8);
    assert_eq!(Bones::FootR.index(), 76);
}

#[test]
fn best_bone_is_the_first_that_is_seen() {
    let entity = CEntity::from_raw_unchecked(0x20);
    let mut visible = [false; 12];
    assert_eq!(entity.get_best_bone(&visible), None);
    assert!(!entity.can_see(&visible));
    visible[11] = true;
    assert_eq!(entity.get_best_bone(&visible), Some(76));
    assert!(entity.can_see(&visible));
    visible[6] = true;
    assert_eq!(entity.get_best_bone(&visible), Some(65));
    visible[0] = true;
    assert_eq!(entity.get_best_bone(&visible), Some(8));
    assert_eq!(entity.get_best_bone(&[true; 12]), Some(8));
}

#[test]
fn ray_reaches_its_target_or_is_not_stopped() {
    let entity = CEntity::from_raw_unchecked(0x20);
    let target = CEntity::from_raw_unchecked(0x30);
    assert!(entity.is_visible(&target, 0x30, false));
    assert!(entity.is_visible(&target, 0x40, true));
    assert!(entity.is_visible(&target, 0x30, true));
    assert!(!entity.is_visible(&target, 0x40, false));
}

#[test]
fn bone_transform_lies_at_its_stride() {
    let entity = CEntity::from_raw_unchecked(0x20);
    assert_eq!(entity.bone_matrix_address(0, 8), None);
    assert_eq!(entity.bone_matrix_address(0x10000, 0), Some(0x10000));
    assert_eq!(entity.bone_matrix_address(0x10000, 8), Some(0x10000 + 0x30 * 8));
    assert_eq!(entity.bone_matrix_address(0x10000, 76), Some(0x10000 + 0x30 * 76));
}

#[test]
fn name_is_the_text_before_the_padding() {
    let entity = CEntity::from_raw_unchecked(0x20);
    let mut buffer = [0i8; 128];
    for (i, byte) in "player one".bytes().enumerate() {
        buffer[i] = byte as i8;
    }
    assert_eq!(entity.get_name(&buffer), "player one");
    assert_eq!(from_char_slice(&[0, 0, 0]), "");
    assert_eq!(from_char_slice(&[]), "");
    assert_eq!(from_char_slice(&[b'a' as i8, 0, b'b' as i8, 0]), "ab");
    let wide: Vec<i8> = "héllo ✓".bytes().map(|b| b as i8).collect();
    assert_eq!(from_char_slice(&wide), "héllo ✓");
    assert_eq!(from_char_slice(&[b'a' as i8, -1, b'b' as i8]), "");
    assert_eq!(from_char_slice(&[-61]), "");
}

#[test]
fn armor_covers_the_trunk_and_the_helmeted_head() {
    assert!(is_armored(1, true));
    assert!(!is_armored(1, false));
    for part in 2..=5 {
        assert!(is_armored(part, false));
        assert!(is_armored(part, true));
    }
    for part in [-1, 0, 6, 7, 8, 9, i32::MAX, i32::MIN] {
        assert!(!is_armored(part, true));
    }
    assert_eq!(HitGroup::try_from(1), Ok(HitGroup::Head));
    assert_eq!(HitGroup::try_from(7), Ok(HitGroup::RightLeg));
    assert_eq!(HitGroup::try_from(6), Err(()));
    assert_eq!(HitGroup::try_from(0), Err(()));
    assert_eq!(HitGroup::try_from(8), Err(()));
    assert_eq!(HitGroup::Invalid.number(), -1);
    assert_eq!(HitGroup::Gear.number(), 8);
}

#[test]
fn filter_skips_the_object_the_ray_starts_at() {
    let filter = TraceFilterGeneric::new(0x20);
    assert!(!filter.should_hit_entity(0x20, 0x4600400B));
    assert!(filter.should_hit_entity(0x30, 0x4600400B));
    assert!(filter.should_hit_entity(0, 0));
    assert_eq!(filter.get_trace_type(), TraceType::EVERYTHING);
}

#[test]
fn colors_are_opaque_unless_told_otherwise() {
    assert_eq!(Color::new_rgb(1, 2, 3), Color { r: 1, g: 2, b: 3, a: 255 });
    assert_eq!(Color::new_rgba(1, 2, 3, 4), Color { r: 1, g: 2, b: 3, a: 4 });
}

#[test]
fn array_of_the_host_is_read_by_index() {
    let array = CUtlVec::new(vec![10, 20, 30]);
    assert_eq!(array.size(), 3);
    assert_eq!(array.get(0), Some(&10));
    assert_eq!(array.get(2), Some(&30));
    assert_eq!(array.get(3), None);
    assert_eq!(array.get(-1), None);
    let empty: CUtlVec<i32> = CUtlVec::new(Vec::new());
    assert_eq!(empty.size(), 0);
    assert_eq!(empty.get(0), None);
}
