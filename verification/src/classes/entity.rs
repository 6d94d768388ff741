//! The view of an entity.

use vstd::prelude::*;
use crate::classes::weapon::{CWeapon, WeaponState};
use crate::classes::Entity;
use crate::definitions::bones::{bone_order, get_bone_list, Bones};
use crate::interface::Interface;
use crate::interfaces::entity_list::IEntityList;
use crate::netvar::accessor::{Netvar, ValueKind};
use crate::netvar::NetVars;
use crate::utils::memory::NotNull;
use crate::utils::string::{from_char_slice, nonzero_bytes};
use vstd::utf8::{decode_utf8, valid_utf8};

verus! {

/// The fields of an entity that have an accessor.
#[derive(Debug, Clone, Copy, PartialEq, Eq, Structural)]
pub enum EntityField {
    Health,
    Armor,
    Scoped,
    Defusing,
    CrosshairId,
    Flags,
    FlashDuration,
    Spotted,
    Origin,
    ViewOffset,
    Velocity,
    ViewModel,
    CollideableMax,
    GlowIndex,
    ObserverMode,
    WeaponCooldown,
    ActiveWeapon,
    Tickbase,
    NextAttack,
    ShotsFired,
    AimPunch,
    LifeState,
    Immune,
    Helmet,
    Money,
    Weapons,
    BoneMatrix,
}

impl EntityField {
    /// The table that holds this field.
    pub open spec fn spec_table(&self) -> Seq<char> {
        match self {
            EntityField::Health | EntityField::Flags | EntityField::ViewOffset
            | EntityField::Velocity | EntityField::ViewModel | EntityField::ObserverMode
            | EntityField::Tickbase | EntityField::AimPunch | EntityField::LifeState => {
                "DT_BasePlayer"@
            },
            EntityField::Armor | EntityField::Scoped | EntityField::Defusing
            | EntityField::CrosshairId | EntityField::FlashDuration | EntityField::GlowIndex
            | EntityField::ShotsFired | EntityField::Immune | EntityField::Helmet
            | EntityField::Money => "DT_CSPlayer"@,
            EntityField::Spotted | EntityField::Origin | EntityField::CollideableMax => {
                "DT_BaseEntity"@
            },
            EntityField::WeaponCooldown => "DT_BaseCombatWeapon"@,
            EntityField::ActiveWeapon | EntityField::NextAttack | EntityField::Weapons => {
                "DT_BaseCombatCharacter"@
            },
            EntityField::BoneMatrix => "DT_BaseAnimating"@,
        }
    }

    /// The name of this field in its table.
    pub open spec fn spec_name(&self) -> Seq<char> {
        match self {
            EntityField::Health => "m_iHealth"@,
            EntityField::Armor => "m_ArmorValue"@,
            EntityField::Scoped => "m_bIsScoped"@,
            EntityField::Defusing => "m_bIsDefusing"@,
            EntityField::CrosshairId => "m_bHasDefuser"@,
            EntityField::Flags => "m_fFlags"@,
            EntityField::FlashDuration => "m_flFlashDuration"@,
            EntityField::Spotted => "m_bSpotted"@,
            EntityField::Origin => "m_vecOrigin"@,
            EntityField::ViewOffset => "m_vecViewOffset"@,
            EntityField::Velocity => "m_vecVelocity"@,
            EntityField::ViewModel => "m_hViewModel[0]"@,
            EntityField::CollideableMax => "m_Collision"@,
            EntityField::GlowIndex => "m_flFlashDuration"@,
            EntityField::ObserverMode => "m_iObserverMode"@,
            EntityField::WeaponCooldown => "m_flNextPrimaryAttack"@,
            EntityField::ActiveWeapon => "m_hActiveWeapon"@,
            EntityField::Tickbase => "m_nTickBase"@,
            EntityField::NextAttack => "m_flNextAttack"@,
            EntityField::ShotsFired => "m_iShotsFired"@,
            EntityField::AimPunch => "m_aimPunchAngle"@,
            EntityField::LifeState => "m_lifeState"@,
            EntityField::Immune => "m_bGunGameImmunity"@,
            EntityField::Helmet => "m_bHasHelmet"@,
            EntityField::Money => "m_iAccount"@,
            EntityField::Weapons => "m_hMyWeapons"@,
            EntityField::BoneMatrix => "m_nForceBone"@,
        }
    }

    /// How many bytes behind the field the value lies.
    pub open spec fn spec_extra(&self) -> usize {
        match self {
            EntityField::CrosshairId => 0x5C,
            EntityField::CollideableMax => 0x14,
            EntityField::GlowIndex => 0x18,
            EntityField::BoneMatrix => 0x1C,
            _ => 0,
        }
    }

    /// Whether this field has a setter beside its getter.
    pub open spec fn spec_has_setter(&self) -> bool {
        match self {
            EntityField::FlashDuration | EntityField::Spotted | EntityField::ViewModel => true,
            _ => false,
        }
    }

    /// The kind of value that this field holds.
    pub open spec fn spec_kind(&self) -> ValueKind {
        match self {
            EntityField::Health | EntityField::Armor | EntityField::CrosshairId
            | EntityField::Flags | EntityField::FlashDuration | EntityField::ViewModel
            | EntityField::ObserverMode | EntityField::WeaponCooldown
            | EntityField::ActiveWeapon | EntityField::Tickbase | EntityField::ShotsFired
            | EntityField::LifeState | EntityField::Money => ValueKind::Int32,
            EntityField::Scoped | EntityField::Defusing | EntityField::Spotted
            | EntityField::Immune | EntityField::Helmet => ValueKind::Bool,
            EntityField::Origin | EntityField::ViewOffset | EntityField::Velocity
            | EntityField::CollideableMax => ValueKind::Vec3,
            EntityField::GlowIndex | EntityField::BoneMatrix => ValueKind::Word,
            EntityField::NextAttack => ValueKind::Float,
            EntityField::AimPunch => ValueKind::Vec2,
            EntityField::Weapons => ValueKind::Handles,
        }
    }

    /// The accessor of this field.
    pub fn netvar(&self) -> (netvar: Netvar)
        ensures
            netvar.table@ == self.spec_table(),
            netvar.name@ == self.spec_name(),
            netvar.extra == self.spec_extra(),
    {
        match self {
            EntityField::Health => Netvar::new("DT_BasePlayer", "m_iHealth", 0),
            EntityField::Armor => Netvar::new("DT_CSPlayer", "m_ArmorValue", 0),
            EntityField::Scoped => Netvar::new("DT_CSPlayer", "m_bIsScoped", 0),
            EntityField::Defusing => Netvar::new("DT_CSPlayer", "m_bIsDefusing", 0),
            EntityField::CrosshairId => Netvar::new("DT_CSPlayer", "m_bHasDefuser", 0x5C),
            EntityField::Flags => Netvar::new("DT_BasePlayer", "m_fFlags", 0),
            EntityField::FlashDuration => Netvar::new("DT_CSPlayer", "m_flFlashDuration", 0),
            EntityField::Spotted => Netvar::new("DT_BaseEntity", "m_bSpotted", 0),
            EntityField::Origin => Netvar::new("DT_BaseEntity", "m_vecOrigin", 0),
            EntityField::ViewOffset => Netvar::new("DT_BasePlayer", "m_vecViewOffset", 0),
            EntityField::Velocity => Netvar::new("DT_BasePlayer", "m_vecVelocity", 0),
            EntityField::ViewModel => Netvar::new("DT_BasePlayer", "m_hViewModel[0]", 0),
            EntityField::CollideableMax => Netvar::new("DT_BaseEntity", "m_Collision", 0x14),
            EntityField::GlowIndex => Netvar::new("DT_CSPlayer", "m_flFlashDuration", 0x18),
            EntityField::ObserverMode => Netvar::new("DT_BasePlayer", "m_iObserverMode", 0),
            EntityField::WeaponCooldown => Netvar::new(
                "DT_BaseCombatWeapon",
                "m_flNextPrimaryAttack",
                0,
            ),
            EntityField::ActiveWeapon => Netvar::new(
                "DT_BaseCombatCharacter",
                "m_hActiveWeapon",
                0,
            ),
            EntityField::Tickbase => Netvar::new("DT_BasePlayer", "m_nTickBase", 0),
            EntityField::NextAttack => Netvar::new("DT_BaseCombatCharacter", "m_flNextAttack", 0),
            EntityField::ShotsFired => Netvar::new("DT_CSPlayer", "m_iShotsFired", 0),
            EntityField::AimPunch => Netvar::new("DT_BasePlayer", "m_aimPunchAngle", 0),
            EntityField::LifeState => Netvar::new("DT_BasePlayer", "m_lifeState", 0),
            EntityField::Immune => Netvar::new("DT_CSPlayer", "m_bGunGameImmunity", 0),
            EntityField::Helmet => Netvar::new("DT_CSPlayer", "m_bHasHelmet", 0),
            EntityField::Money => Netvar::new("DT_CSPlayer", "m_iAccount", 0),
            EntityField::Weapons => Netvar::new("DT_BaseCombatCharacter", "m_hMyWeapons", 0),
            EntityField::BoneMatrix => Netvar::new("DT_BaseAnimating", "m_nForceBone", 0x1C),
        }
    }

    /// Whether this field has a setter beside its getter.
    #[verifier::when_used_as_spec(spec_has_setter)]
    pub fn has_setter(&self) -> (writable: bool)
        ensures
            writable == self.spec_has_setter(),
    {
        match self {
            EntityField::FlashDuration | EntityField::Spotted | EntityField::ViewModel => true,
            _ => false,
        }
    }

    /// The kind of value that this field holds.
    #[verifier::when_used_as_spec(spec_kind)]
    pub fn kind(&self) -> (kind: ValueKind)
        ensures
            kind == self.spec_kind(),
    {
        match self {
            EntityField::Health | EntityField::Armor | EntityField::CrosshairId
            | EntityField::Flags | EntityField::FlashDuration | EntityField::ViewModel
            | EntityField::ObserverMode | EntityField::WeaponCooldown
            | EntityField::ActiveWeapon | EntityField::Tickbase | EntityField::ShotsFired
            | EntityField::LifeState | EntityField::Money => ValueKind::Int32,
            EntityField::Scoped | EntityField::Defusing | EntityField::Spotted
            | EntityField::Immune | EntityField::Helmet => ValueKind::Bool,
            EntityField::Origin | EntityField::ViewOffset | EntityField::Velocity
            | EntityField::CollideableMax => ValueKind::Vec3,
            EntityField::GlowIndex | EntityField::BoneMatrix => ValueKind::Word,
            EntityField::NextAttack => ValueKind::Float,
            EntityField::AimPunch => ValueKind::Vec2,
            EntityField::Weapons => ValueKind::Handles,
        }
    }
}

/// How an entity takes part in collisions.
#[derive(Debug, Clone, Copy, PartialEq, Eq, Structural)]
pub enum ESolidType {
    SolidNone,
    SolidBsp,
    SolidBbox,
    SolidObb,
    SolidObbYaw,
    SolidCustom,
    SolidVphysics,
    SolidLast,
}

impl ESolidType {
    /// The number by which the host knows this way of colliding.
    pub open spec fn spec_number(&self) -> i32 {
        match self {
            ESolidType::SolidNone => 0i32,
            ESolidType::SolidBsp => 1,
            ESolidType::SolidBbox => 2,
            ESolidType::SolidObb => 3,
            ESolidType::SolidObbYaw => 4,
            ESolidType::SolidCustom => 5,
            ESolidType::SolidVphysics => 6,
            ESolidType::SolidLast => 7,
        }
    }

    /// The number by which the host knows this way of colliding.
    #[verifier::when_used_as_spec(spec_number)]
    pub fn number(&self) -> (n: i32)
        ensures
            n == self.spec_number(),
    {
        match self {
            ESolidType::SolidNone => 0,
            ESolidType::SolidBsp => 1,
            ESolidType::SolidBbox => 2,
            ESolidType::SolidObb => 3,
            ESolidType::SolidObbYaw => 4,
            ESolidType::SolidCustom => 5,
            ESolidType::SolidVphysics => 6,
            ESolidType::SolidLast => 7,
        }
    }
}

/// The mark by which the host knows an entity that thinks.
#[derive(Debug, Clone, Copy)]
pub struct CClientThinkHandle;

/// What the host says of one entity at one moment.
#[derive(Debug, Clone, Copy)]
pub struct EntityState {
    /// Whether the entity is a player.
    pub is_player: bool,
    /// Whether the entity is alive.
    pub is_alive: bool,
    /// Whether the host has stopped updating the entity.
    pub is_dormant: bool,
}

/// The number of bytes of one bone transform in the array of an entity.
pub const BONE_MATRIX_STRIDE: usize = 0x30;

/// The first place at which `visible` holds `true`, if there is one.
pub open spec fn first_visible(visible: Seq<bool>) -> Option<int>
    decreases visible.len(),
{
    if visible.len() == 0 {
        None
    } else if first_visible(visible.drop_last()) is Some {
        first_visible(visible.drop_last())
    } else if visible.last() {
        Some(visible.len() - 1)
    } else {
        None
    }
}

/// The first place found by [`first_visible`] holds `true`, and no place
/// before it does; where there is none, no place holds `true`.
pub proof fn lemma_first_visible(visible: Seq<bool>)
    ensures
        match first_visible(visible) {
            Some(at) => 0 <= at < visible.len() && visible[at] && forall|j: int|
                0 <= j < at ==> !visible[j],
            None => forall|j: int| 0 <= j < visible.len() ==> !visible[j],
        },
    decreases visible.len(),
{
    if visible.len() > 0 {
        lemma_first_visible(visible.drop_last());
        assert forall|j: int| 0 <= j < visible.len() - 1 implies visible[j]
            == visible.drop_last()[j] by {}
    }
}

/// A view of an entity of the host.
#[derive(Debug, Clone, Copy)]
pub struct CEntity {
    base: usize,
}

impl Interface for CEntity {
    closed spec fn address(&self) -> usize {
        self.base
    }

    fn from_raw_unchecked(ptr: usize) -> (view: Self) {
        Self { base: ptr }
    }

    fn is_null(&self) -> (null: bool) {
        self.base == 0
    }

    fn as_ptr(&self) -> (ptr: usize) {
        self.base
    }
}

impl Entity for CEntity {
}

impl CEntity {
    /// A view of the object at `addr`, which must not be 0.
    pub fn from_raw(addr: usize) -> (view: Result<Self, ()>)
        ensures
            view is Err <==> addr == 0,
            view is Ok ==> view->Ok_0.address() == addr,
    {
        if addr == 0 {
            return Err(());
        }
        Ok(Self { base: addr })
    }

    /// The view of no object.
    pub fn default() -> (view: Self)
        ensures
            view.address() == 0,
    {
        Self { base: 0 }
    }

    /// Where the value of `field` lies in the object.
    pub open spec fn field_address(&self, netvars: &NetVars, field: EntityField) -> int {
        self.address() + netvars.spec_offset(field.spec_table(), field.spec_name())
            + field.spec_extra()
    }

    /// Whether the value of `field` lies at an address: what the getter and
    /// the setter ask of a view of an object.
    pub fn in_reach(&self, netvars: &NetVars, field: EntityField) -> (reachable: bool)
        ensures
            reachable == (self.field_address(netvars, field) <= usize::MAX),
    {
        field.netvar().in_reach(netvars, self.base)
    }

    /// The getter of `field`: the value that `read` finds where the field
    /// lies. On a view of no object it is `zero`, and nothing is read.
    pub fn get_value<T, F: FnOnce(usize) -> T>(
        &self,
        netvars: &NetVars,
        field: EntityField,
        zero: T,
        read: F,
    ) -> (value: T)
        requires
            self.address() != 0 ==> self.field_address(netvars, field) <= usize::MAX,
            self.address() != 0 ==> read.requires((self.field_address(netvars, field) as usize,)),
        ensures
            self.address() == 0 ==> value == zero,
            self.address() != 0 ==> read.ensures(
                (self.field_address(netvars, field) as usize,),
                value,
            ),
    {
        field.netvar().get(netvars, self.base, zero, read)
    }

    /// The setter of `field`: hands `state` to `write` with the address
    /// where the field lies, and says that it did. Nothing is written, and
    /// the answer is `false`, on a view of no object and for a field that
    /// has no setter.
    pub fn set_value<T, F: FnOnce(usize, T)>(
        &self,
        netvars: &NetVars,
        field: EntityField,
        state: T,
        write: F,
    ) -> (written: bool)
        requires
            self.address() != 0 && field.spec_has_setter() ==> self.field_address(netvars, field)
                <= usize::MAX,
            self.address() != 0 && field.spec_has_setter() ==> write.requires(
                (self.field_address(netvars, field) as usize, state),
            ),
        ensures
            written == (self.address() != 0 && field.spec_has_setter()),
            written ==> write.ensures((self.field_address(netvars, field) as usize, state), ()),
    {
        if !field.has_setter() {
            return false;
        }
        field.netvar().set(netvars, self.base, state, write)
    }

    /// The handles of the weapons that the entity carries, as `read` finds
    /// them where they lie. On a view of no object they are `zero`, and
    /// nothing is read.
    pub fn get_weapons<F: FnOnce(usize) -> [u32; 48]>(
        &self,
        netvars: &NetVars,
        zero: [u32; 48],
        read: F,
    ) -> (handles: [u32; 48])
        requires
            self.address() != 0 ==> self.field_address(netvars, EntityField::Weapons)
                <= usize::MAX,
            self.address() != 0 ==> read.requires(
                (self.field_address(netvars, EntityField::Weapons) as usize,),
            ),
        ensures
            self.address() == 0 ==> handles == zero,
            self.address() != 0 ==> read.ensures(
                (self.field_address(netvars, EntityField::Weapons) as usize,),
                handles,
            ),
    {
        self.get_value(netvars, EntityField::Weapons, zero, read)
    }

    /// Whether the two views are views of one object.
    pub fn same_as(&self, other: &CEntity) -> (same: bool)
        ensures
            same == (self.address() == other.address()),
    {
        self.base == other.base
    }

    /// Whether the entity is a player to reckon with: a player that is
    /// alive, that the host keeps up to date, and that is not the local
    /// player.
    pub fn is_valid_player(&self, state: &EntityState, local_player: &CEntity) -> (valid: bool)
        ensures
            valid == (state.is_player && state.is_alive && !state.is_dormant
                && local_player.address() != self.address()),
    {
        state.is_player && state.is_alive && !state.is_dormant && !local_player.same_as(self)
    }

    /// The name of the player, read from `name`, the buffer in which the
    /// host keeps it: the text of the bytes that are not 0, or the empty
    /// text where these are no text.
    pub fn get_name(&self, name: &[i8]) -> (text: String)
        ensures
            text@ == if valid_utf8(nonzero_bytes(name@)) {
                decode_utf8(nonzero_bytes(name@))
            } else {
                Seq::<char>::empty()
            },
    {
        from_char_slice(name)
    }

    /// Whether one of the sounds that are playing comes from this entity.
    /// `sound_sources` holds, for each sound, the answer of the directory
    /// of live objects for the source of the sound.
    pub fn is_audible(&self, sound_sources: &Vec<usize>) -> (audible: bool)
        ensures
            audible == exists|i: int|
                0 <= i < sound_sources@.len() && #[trigger] sound_sources@[i] != 0
                    && sound_sources@[i] == self.address(),
    {
        let mut i: usize = 0;
        while i < sound_sources.len()
            invariant
                i <= sound_sources@.len(),
                forall|j: int|
                    0 <= j < i ==> !(#[trigger] sound_sources@[j] != 0 && sound_sources@[j]
                        == self.address()),
            decreases sound_sources@.len() - i,
        {
            let source = sound_sources[i];
            if source != 0 && source == self.base {
                return true;
            }
            i += 1;
        }
        false
    }

    /// The weapon that the entity holds, for whose handle the directory of
    /// live objects answered `reported`.
    pub fn get_weapon(
        &self,
        entity_list: &IEntityList,
        handle: i32,
        reported: NotNull<CEntity>,
    ) -> (weapon: Option<CWeapon>)
        ensures
            weapon is None <==> reported.address() == 0,
            weapon is Some ==> weapon->0.address() == reported.address(),
    {
        entity_list.get_entity_from_handle::<CWeapon>(handle, reported)
    }

    /// Whether the entity can fire now: it holds a weapon, and that weapon
    /// can fire.
    pub fn can_fire(&self, weapon: Option<(CWeapon, WeaponState)>) -> (ready: bool)
        ensures
            ready == match weapon {
                Some(held) => CWeapon::spec_can_fire(held.1),
                None => false,
            },
    {
        match weapon {
            Some(held) => held.0.can_fire(&held.1),
            None => false,
        }
    }

    /// Whether a ray from the eyes of this entity to a bone of `other`
    /// reaches it: the ray ends on `other`, whose address is then `hit`, or
    /// it was not stopped on its way.
    pub fn is_visible(&self, other: &CEntity, hit: usize, unobstructed: bool) -> (visible: bool)
        ensures
            visible == (hit == other.address() || unobstructed),
    {
        hit == other.base || unobstructed
    }

    /// Whether the entity sees another one: whether it sees one of its
    /// bones. `visible` says of each bone, in the order of
    /// [`get_bone_list`], whether it is seen.
    pub fn can_see(&self, visible: &[bool; 12]) -> (seen: bool)
        ensures
            seen == first_visible(visible@) is Some,
    {
        self.get_best_bone(visible).is_some()
    }

    /// The first bone of another entity, in the order of [`get_bone_list`],
    /// that the entity sees.
    pub fn get_best_bone(&self, visible: &[bool; 12]) -> (bone: Option<i32>)
        ensures
            bone is Some <==> first_visible(visible@) is Some,
            bone is Some ==> bone->0 == bone_order()[first_visible(visible@)->0].spec_index(),
    {
        let bones = get_bone_list();
        let mut i: usize = 0;
        while i < 12
            invariant
                i <= 12,
                visible@.len() == 12,
                bones@ == bone_order().map_values(|bone: Bones| bone.spec_index()),
                forall|j: int| 0 <= j < i ==> !visible@[j],
            decreases 12 - i,
        {
            if visible[i] {
                proof {
                    lemma_first_visible(visible@);
                }
                return Some(bones[i]);
            }
            i += 1;
        }
        proof {
            lemma_first_visible(visible@);
        }
        None
    }

    /// Where the transform of the bone `bone` lies in the array of bone
    /// transforms at `bones`, or `None` where the entity has no such array.
    pub fn bone_matrix_address(&self, bones: usize, bone: i32) -> (address: Option<usize>)
        requires
            bone >= 0,
            bones + BONE_MATRIX_STRIDE * bone <= usize::MAX,
        ensures
            address == if bones == 0 {
                None
            } else {
                Some((bones + BONE_MATRIX_STRIDE * bone) as usize)
            },
    {
        if bones == 0 {
            return None;
        }
        Some(bones + BONE_MATRIX_STRIDE * (bone as usize))
    }
}

} // verus!
