use std::cell::Cell;

use sdk::classes::entity::{CEntity, EntityField};
use sdk::classes::weapon::{
    CBaseViewModel, CWeapon, FieldWrite, ViewModelField, WeaponField, WeaponState,
};
use sdk::definitions::weapon_data::WeaponId;
use sdk::netvar::accessor::ValueKind;
use sdk::definitions::recv_props::{CRecvProp, CRecvTable, EPropType};
use sdk::interface::Interface;
use sdk::interfaces::client::ClientClass;
use sdk::netvar::accessor::Netvar;
use sdk::netvar::hook::{find_prop, hook_netvar, RecvProxyHook};
use sdk::netvar::manager::scan;
use sdk::netvar::NetVars;

fn leaf(name: &str, offset: usize, address: usize) -> CRecvProp {
    CRecvProp {
        prop_name: name.to_string(),
        prop_type: EPropType::Int,
        proxy_fn: 0x1234,
        data_table: None,
        offset,
        address,
    }
}

fn class(name: &str, props: Vec<CRecvProp>) -> ClientClass {
    ClientClass {
        network_name: name.to_string(),
        recv_table: CRecvTable { props, table_name: "DT_Root".to_string() },
        class_id: 1,
    }
}

fn player_tables() -> NetVars {
    let classes = vec![
        class(
            "DT_BasePlayer",
            vec![leaf("m_iHealth", 0x100, 0x5000), leaf("m_fFlags", 0x104, 0x5040)],
        ),
        class("DT_BaseAnimating", vec![leaf("m_nForceBone", 0x2600, 0x6000)]),
        class(
            "DT_BaseCombatWeapon",
            vec![leaf("m_flNextPrimaryAttack", 0x3200, 0x7000), leaf("m_iClip1", 0x3240, 0x7040)],
        ),
    ];
    let mut netvars = NetVars::new();
    assert!(scan(&mut netvars, &classes).is_ok());
    netvars
}

#[test]
fn hook_keeps_the_original_and_reset_restores_it() {
    let netvars = player_tables();
    let mut live: usize = 0x1234;
    let mut hook = hook_netvar(&netvars, "DT_BasePlayer->m_iHealth", &mut live, 0x9999).unwrap();
    assert_eq!(live, 0x9999);
    assert_eq!(hook.get_original(), 0x1234);
    assert_eq!(hook.get_property(), 0x5000);
    hook.reset(&mut live);
    assert_eq!(live, 0x1234);
    assert_eq!(hook.get_original(), 0x1234);
}

#[test]
fn hook_of_an_unknown_field_changes_nothing() {
    let netvars = player_tables();
    let mut live: usize = 0x1234;
    assert!(hook_netvar(&netvars, "DT_BasePlayer->m_missing", &mut live, 0x9999).is_none());
    assert_eq!(live, 0x1234);
    assert_eq!(find_prop(&netvars, "DT_BasePlayer->m_missing"), None);
    assert_eq!(find_prop(&netvars, "DT_BasePlayer->m_fFlags"), Some(0x5040));
}

#[test]
fn second_hook_hands_on_to_the_first() {
    let mut live: usize = 0x1234;
    let mut first = RecvProxyHook::hook(0x5000, &mut live, 0x1111);
    let mut second = RecvProxyHook::hook(0x5000, &mut live, 0x2222);
    assert_eq!(second.get_original(), 0x1111);
    assert_eq!(live, 0x2222);
    second.reset(&mut live);
    assert_eq!(live, 0x1111);
    first.reset(&mut live);
    assert_eq!(live, 0x1234);
}

#[test]
fn getter_reads_where_the_field_lies() {
    let netvars = player_tables();
    let health = Netvar::new("DT_BasePlayer", "m_iHealth", 0);
    assert!(health.in_reach(&netvars, 0x40000));
    assert_eq!(health.address(&netvars, 0x40000), Some(0x40100));
    let value = health.get(&netvars, 0x40000, 0i32, |at| {
        assert_eq!(at, 0x40100);
        87
    });
    assert_eq!(value, 87);
    let behind = Netvar::new("DT_BasePlayer", "m_iHealth", 0x5c);
    assert_eq!(behind.address(&netvars, 0x40000), Some(0x4015c));
}

#[test]
fn getter_on_no_object_gives_the_zero_value() {
    let netvars = player_tables();
    let health = Netvar::new("DT_BasePlayer", "m_iHealth", 0);
    let touched = Cell::new(false);
    let value = health.get(&netvars, 0, 0i32, |_| {
        touched.set(true);
        87
    });
    assert_eq!(value, 0);
    assert!(!touched.get());
    assert_eq!(health.address(&netvars, 0), None);
    let flag = health.get(&netvars, 0, false, |_| true);
    assert!(!flag);
}

#[test]
fn setter_on_no_object_does_nothing() {
    let netvars = player_tables();
    let health = Netvar::new("DT_BasePlayer", "m_iHealth", 0);
    let written = Cell::new(None);
    assert!(!health.set(&netvars, 0, 55i32, |at, state| written.set(Some((at, state)))));
    assert_eq!(written.get(), None);
    assert!(health.set(&netvars, 0x40000, 55i32, |at, state| written.set(Some((at, state)))));
    assert_eq!(written.get(), Some((0x40100, 55)));
}

#[test]
fn unknown_field_is_read_at_the_start_of_the_object() {
    let netvars = NetVars::new();
    let health = Netvar::new("DT_BasePlayer", "m_iHealth", 0);
    assert_eq!(health.address(&netvars, 0x40000), Some(0x40000));
    let behind = Netvar::new("DT_BasePlayer", "m_iHealth", 8);
    assert_eq!(behind.address(&netvars, 0x40000), Some(0x40008));
}

#[test]
fn field_that_leaves_the_addresses_is_out_of_reach() {
    let netvars = player_tables();
    let health = Netvar::new("DT_BasePlayer", "m_iHealth", 0);
    assert!(health.in_reach(&netvars, usize::MAX - 0x100));
    assert!(!health.in_reach(&netvars, usize::MAX - 0xFF));
    let far = Netvar::new("DT_BasePlayer", "m_iHealth", usize::MAX);
    assert!(!far.in_reach(&netvars, 0));
    assert_eq!(far.address(&netvars, 0), None);
}

#[test]
fn fields_of_the_views_name_their_tables() {
    let health = EntityField::Health.netvar();
    assert_eq!((health.table, health.name, health.extra), ("DT_BasePlayer", "m_iHealth", 0));
    let armor = EntityField::Armor.netvar();
    assert_eq!((armor.table, armor.name, armor.extra), ("DT_CSPlayer", "m_ArmorValue", 0));
    let flags = EntityField::Flags.netvar();
    assert_eq!((flags.table, flags.name, flags.extra), ("DT_BasePlayer", "m_fFlags", 0));
    let origin = EntityField::Origin.netvar();
    assert_eq!((origin.table, origin.name, origin.extra), ("DT_BaseEntity", "m_vecOrigin", 0));
    let active = EntityField::ActiveWeapon.netvar();
    assert_eq!(
        (active.table, active.name, active.extra),
        ("DT_BaseCombatCharacter", "m_hActiveWeapon", 0)
    );
    let tick = EntityField::Tickbase.netvar();
    assert_eq!((tick.table, tick.name, tick.extra), ("DT_BasePlayer", "m_nTickBase", 0));
    let bones = EntityField::BoneMatrix.netvar();
    assert_eq!((bones.table, bones.name, bones.extra), ("DT_BaseAnimating", "m_nForceBone", 0x1C));
    let next = WeaponField::NextAttack.netvar();
    assert_eq!(
        (next.table, next.name, next.extra),
        ("DT_BaseCombatWeapon", "m_flNextPrimaryAttack", 0)
    );
    let reloading = WeaponField::Reloading.netvar();
    assert_eq!(
        (reloading.table, reloading.name, reloading.extra),
        ("DT_BaseCombatWeapon", "m_flNextPrimaryAttack", 0x6D)
    );
    let id = WeaponField::Id.netvar();
    assert_eq!(
        (id.table, id.name, id.extra),
        ("DT_BaseAttributableItem", "m_iItemDefinitionIndex", 0)
    );
    let clip = WeaponField::Clip.netvar();
    assert_eq!((clip.table, clip.name, clip.extra), ("DT_BaseCombatWeapon", "m_iClip1", 0));
}

#[test]
fn view_of_no_object_reads_zero_and_writes_nothing() {
    let netvars = player_tables();
    let nobody = CEntity::default();
    assert!(nobody.is_null());
    let touched = Cell::new(false);
    for field in [
        EntityField::Health,
        EntityField::Armor,
        EntityField::Flags,
        EntityField::FlashDuration,
        EntityField::Spotted,
        EntityField::Origin,
        EntityField::ViewModel,
        EntityField::ActiveWeapon,
        EntityField::Tickbase,
        EntityField::Weapons,
        EntityField::BoneMatrix,
    ] {
        let value = nobody.get_value(&netvars, field, 0i32, |_| {
            touched.set(true);
            1
        });
        assert_eq!(value, 0);
        assert!(!nobody.set_value(&netvars, field, 1i32, |_, _| touched.set(true)));
    }
    assert_eq!(nobody.get_weapons(&netvars, [0; 48], |_| [7; 48]), [0; 48]);
    let nothing = CWeapon::default();
    for field in [
        WeaponField::NextAttack,
        WeaponField::Reloading,
        WeaponField::Id,
        WeaponField::Clip,
        WeaponField::FallbackPaintKit,
        WeaponField::AccountId,
    ] {
        let value = nothing.get_value(&netvars, field, 0i16, |_| {
            touched.set(true);
            1
        });
        assert_eq!(value, 0);
        assert!(!nothing.set_value(&netvars, field, 1i16, |_, _| touched.set(true)));
    }
    assert!(nothing.apply_skin(&netvars, 1, 2, 3, 4, 5).is_empty());
    let unseen = CBaseViewModel::from_raw_unchecked(0);
    for field in [ViewModelField::Weapon, ViewModelField::ModelIndex] {
        assert_eq!(unseen.get_value(&netvars, field, 0u32, |_| 1), 0);
        assert!(!unseen.set_value(&netvars, field, 1u32, |_, _| touched.set(true)));
    }
    assert!(!touched.get());
}

#[test]
fn view_of_an_object_reads_and_writes_its_fields() {
    let netvars = player_tables();
    let player = CEntity::from_raw(0x40000).unwrap();
    assert!(player.in_reach(&netvars, EntityField::Health));
    assert_eq!(player.get_value(&netvars, EntityField::Health, 0usize, |at| at), 0x40100);
    assert_eq!(player.get_value(&netvars, EntityField::BoneMatrix, 0usize, |at| at), 0x4261C);
    let written = Cell::new(0);
    assert!(!player.set_value(&netvars, EntityField::Flags, 3i32, |at, _| written.set(at)));
    assert_eq!(written.get(), 0);
    assert!(player.set_value(&netvars, EntityField::ViewModel, 3i32, |at, _| written.set(at)));
    assert_eq!(written.get(), 0x40000);
    assert_eq!(player.get_weapons(&netvars, [0; 48], |at| [at as u32; 48]), [0x40000; 48]);
    let weapon = CWeapon::from_raw(0x80000).unwrap();
    assert!(weapon.in_reach(&netvars, WeaponField::Reloading));
    assert_eq!(weapon.get_value(&netvars, WeaponField::Reloading, 0usize, |at| at), 0x8326D);
    assert_eq!(weapon.get_value(&netvars, WeaponField::Clip, 0usize, |at| at), 0x83240);
    assert!(CEntity::from_raw(0).is_err());
    assert!(CWeapon::from_raw(0).is_err());
}

#[test]
fn setters_exist_where_they_are_declared() {
    let writable = [EntityField::FlashDuration, EntityField::Spotted, EntityField::ViewModel];
    for field in writable {
        assert!(field.has_setter());
    }
    for field in [
        EntityField::Health,
        EntityField::Armor,
        EntityField::Flags,
        EntityField::Origin,
        EntityField::Money,
        EntityField::Weapons,
        EntityField::BoneMatrix,
    ] {
        assert!(!field.has_setter());
    }
    for field in [
        WeaponField::FallbackPaintKit,
        WeaponField::EntityQuality,
        WeaponField::FallbackSeed,
        WeaponField::FallbackStatTrak,
        WeaponField::FallbackWear,
        WeaponField::WeaponWorldModel,
        WeaponField::IdHigh,
        WeaponField::Id,
        WeaponField::ModelIndex,
        WeaponField::AccountId,
    ] {
        assert!(field.has_setter());
    }
    for field in [
        WeaponField::NextAttack,
        WeaponField::Reloading,
        WeaponField::OwnerEntity,
        WeaponField::Origin,
        WeaponField::Clip,
    ] {
        assert!(!field.has_setter());
    }
    assert!(ViewModelField::Weapon.has_setter());
    assert!(ViewModelField::ModelIndex.has_setter());
}

#[test]
fn declared_fields_have_their_tables_and_kinds() {
    let crosshair = EntityField::CrosshairId.netvar();
    assert_eq!(
        (crosshair.table, crosshair.name, crosshair.extra),
        ("DT_CSPlayer", "m_bHasDefuser", 0x5C)
    );
    let glow = EntityField::GlowIndex.netvar();
    assert_eq!((glow.table, glow.name, glow.extra), ("DT_CSPlayer", "m_flFlashDuration", 0x18));
    let collision = EntityField::CollideableMax.netvar();
    assert_eq!(
        (collision.table, collision.name, collision.extra),
        ("DT_BaseEntity", "m_Collision", 0x14)
    );
    let model = EntityField::ViewModel.netvar();
    assert_eq!((model.table, model.name, model.extra), ("DT_BasePlayer", "m_hViewModel[0]", 0));
    let weapons = EntityField::Weapons.netvar();
    assert_eq!(
        (weapons.table, weapons.name, weapons.extra),
        ("DT_BaseCombatCharacter", "m_hMyWeapons", 0)
    );
    let owner = WeaponField::OwnerEntity.netvar();
    assert_eq!((owner.table, owner.name, owner.extra), ("DT_CSPlayer", "m_hOwnerEntity", 0));
    let hand = ViewModelField::Weapon.netvar();
    assert_eq!((hand.table, hand.name, hand.extra), ("DT_BaseViewModel", "m_hWeapon", 0));
    assert_eq!(EntityField::Health.kind(), ValueKind::Int32);
    assert_eq!(EntityField::Spotted.kind(), ValueKind::Bool);
    assert_eq!(EntityField::Origin.kind(), ValueKind::Vec3);
    assert_eq!(EntityField::AimPunch.kind(), ValueKind::Vec2);
    assert_eq!(EntityField::GlowIndex.kind(), ValueKind::Word);
    assert_eq!(EntityField::NextAttack.kind(), ValueKind::Float);
    assert_eq!(EntityField::Weapons.kind(), ValueKind::Handles);
    assert_eq!(EntityField::FlashDuration.kind(), ValueKind::Int32);
    assert_eq!(WeaponField::Id.kind(), ValueKind::Int16);
    assert_eq!(WeaponField::AccountId.kind(), ValueKind::UInt32);
    assert_eq!(WeaponField::FallbackWear.kind(), ValueKind::Float);
    assert_eq!(ViewModelField::ModelIndex.kind(), ValueKind::UInt32);
}

#[test]
fn look_of_a_weapon_is_six_writes_in_order() {
    let classes = vec![class(
        "DT_BaseAttributableItem",
        vec![
            leaf("m_iItemIDHigh", 0x10, 0x5000),
            leaf("m_iAccountID", 0x20, 0x5010),
            leaf("m_nFallbackPaintKit", 0x30, 0x5020),
            leaf("m_flFallbackWear", 0x40, 0x5030),
            leaf("m_nFallbackStatTrak", 0x50, 0x5040),
            leaf("m_nFallbackSeed", 0x60, 0x5050),
        ],
    )];
    let mut netvars = NetVars::new();
    assert!(scan(&mut netvars, &classes).is_ok());
    let weapon = CWeapon::from_raw(0x80000).unwrap();
    let wear = 0.25f32.to_bits();
    let writes = weapon.apply_skin(&netvars, 77, 38, wear, -1, 661);
    let write = |address, field, bits| FieldWrite { address, field, bits };
    assert_eq!(
        writes,
        vec![
            write(0x80010, WeaponField::IdHigh, 0xFFFF_FFFF),
            write(0x80020, WeaponField::AccountId, 77),
            write(0x80030, WeaponField::FallbackPaintKit, 38),
            write(0x80040, WeaponField::FallbackWear, wear),
            write(0x80050, WeaponField::FallbackStatTrak, 0xFFFF_FFFF),
            write(0x80060, WeaponField::FallbackSeed, 661),
        ]
    );
    let counted = weapon.apply_skin(&netvars, 77, 38, wear, 1337, 661);
    assert_eq!(counted[4].bits, 1337);
    assert!(CWeapon::default().apply_skin(&netvars, 77, 38, wear, 1337, 661).is_empty());
}

#[test]
fn weapon_is_named_by_its_number() {
    let weapon = CWeapon::from_raw_unchecked(0x9000);
    let state = |id: i16| WeaponState { id, clip: 1, reloading: false, cooling_down: false };
    assert_eq!(weapon.get_weapon_name(&state(7)), WeaponId::Ak47);
    assert_eq!(weapon.get_weapon_name(&state(507)), WeaponId::Karambit);
    assert_eq!(weapon.get_weapon_name(&state(0)), WeaponId::Unknown);
    assert_eq!(weapon.get_weapon_name(&state(5)), WeaponId::Unknown);
    assert_eq!(weapon.get_weapon_name(&state(-1)), WeaponId::Unknown);
}
