//! The view of a weapon.

use vstd::prelude::*;
use crate::classes::Entity;
use crate::definitions::weapon_data::{get_type, type_of_id, WeaponId, WeaponType};
use crate::interface::Interface;
use crate::netvar::accessor::{Netvar, ValueKind};
use crate::netvar::NetVars;

verus! {

/// The fields of a weapon that have an accessor.
#[derive(Debug, Clone, Copy, PartialEq, Eq, Structural)]
pub enum WeaponField {
    NextAttack,
    Reloading,
    FallbackPaintKit,
    EntityQuality,
    FallbackSeed,
    FallbackStatTrak,
    FallbackWear,
    WeaponWorldModel,
    IdHigh,
    Id,
    ModelIndex,
    AccountId,
    OwnerEntity,
    Origin,
    Clip,
}

impl WeaponField {
    /// The table that holds this field.
    pub open spec fn spec_table(&self) -> Seq<char> {
        match self {
            WeaponField::NextAttack | WeaponField::Reloading | WeaponField::WeaponWorldModel
            | WeaponField::Clip => "DT_BaseCombatWeapon"@,
            WeaponField::FallbackPaintKit | WeaponField::EntityQuality
            | WeaponField::FallbackSeed | WeaponField::FallbackStatTrak
            | WeaponField::FallbackWear | WeaponField::IdHigh | WeaponField::Id
            | WeaponField::AccountId => "DT_BaseAttributableItem"@,
            WeaponField::ModelIndex | WeaponField::Origin => "DT_BaseEntity"@,
            WeaponField::OwnerEntity => "DT_CSPlayer"@,
        }
    }

    /// The name of this field in its table.
    pub open spec fn spec_name(&self) -> Seq<char> {
        match self {
            WeaponField::NextAttack => "m_flNextPrimaryAttack"@,
            WeaponField::Reloading => "m_flNextPrimaryAttack"@,
            WeaponField::FallbackPaintKit => "m_nFallbackPaintKit"@,
            WeaponField::EntityQuality => "m_iEntityQuality"@,
            WeaponField::FallbackSeed => "m_nFallbackSeed"@,
            WeaponField::FallbackStatTrak => "m_nFallbackStatTrak"@,
            WeaponField::FallbackWear => "m_flFallbackWear"@,
            WeaponField::WeaponWorldModel => "m_hWeaponWorldModel"@,
            WeaponField::IdHigh => "m_iItemIDHigh"@,
            WeaponField::Id => "m_iItemDefinitionIndex"@,
            WeaponField::ModelIndex => "m_nModelIndex"@,
            WeaponField::AccountId => "m_iAccountID"@,
            WeaponField::OwnerEntity => "m_hOwnerEntity"@,
            WeaponField::Origin => "m_vecOrigin"@,
            WeaponField::Clip => "m_iClip1"@,
        }
    }

    /// How many bytes behind the field the value lies.
    pub open spec fn spec_extra(&self) -> usize {
        match self {
            WeaponField::Reloading => 0x6D,
            _ => 0,
        }
    }

    /// Whether this field has a setter beside its getter.
    pub open spec fn spec_has_setter(&self) -> bool {
        match self {
            WeaponField::FallbackPaintKit | WeaponField::EntityQuality
            | WeaponField::FallbackSeed | WeaponField::FallbackStatTrak
            | WeaponField::FallbackWear | WeaponField::WeaponWorldModel
            | WeaponField::IdHigh | WeaponField::Id | WeaponField::ModelIndex
            | WeaponField::AccountId => true,
            _ => false,
        }
    }

    /// The kind of value that this field holds.
    pub open spec fn spec_kind(&self) -> ValueKind {
        match self {
            WeaponField::NextAttack | WeaponField::FallbackWear => ValueKind::Float,
            WeaponField::Reloading => ValueKind::Bool,
            WeaponField::FallbackPaintKit | WeaponField::FallbackSeed
            | WeaponField::ModelIndex | WeaponField::AccountId => ValueKind::UInt32,
            WeaponField::EntityQuality | WeaponField::FallbackStatTrak
            | WeaponField::WeaponWorldModel | WeaponField::IdHigh | WeaponField::OwnerEntity
            | WeaponField::Clip => ValueKind::Int32,
            WeaponField::Id => ValueKind::Int16,
            WeaponField::Origin => ValueKind::Vec3,
        }
    }

    /// The accessor of this field.
    pub fn netvar(&self) -> (netvar: Netvar)
        ensures
            netvar.table@ == self.spec_table(),
            netvar.name@ == self.spec_name(),
            netvar.extra == self.spec_extra(),
    {
        match self {
            WeaponField::NextAttack => Netvar::new(
                "DT_BaseCombatWeapon",
                "m_flNextPrimaryAttack",
                0,
            ),
            WeaponField::Reloading => Netvar::new(
                "DT_BaseCombatWeapon",
                "m_flNextPrimaryAttack",
                0x6D,
            ),
            WeaponField::FallbackPaintKit => Netvar::new(
                "DT_BaseAttributableItem",
                "m_nFallbackPaintKit",
                0,
            ),
            WeaponField::EntityQuality => Netvar::new(
                "DT_BaseAttributableItem",
                "m_iEntityQuality",
                0,
            ),
            WeaponField::FallbackSeed => Netvar::new(
                "DT_BaseAttributableItem",
                "m_nFallbackSeed",
                0,
            ),
            WeaponField::FallbackStatTrak => Netvar::new(
                "DT_BaseAttributableItem",
                "m_nFallbackStatTrak",
                0,
            ),
            WeaponField::FallbackWear => Netvar::new(
                "DT_BaseAttributableItem",
                "m_flFallbackWear",
                0,
            ),
            WeaponField::WeaponWorldModel => Netvar::new(
                "DT_BaseCombatWeapon",
                "m_hWeaponWorldModel",
                0,
            ),
            WeaponField::IdHigh => Netvar::new("DT_BaseAttributableItem", "m_iItemIDHigh", 0),
            WeaponField::Id => Netvar::new("DT_BaseAttributableItem", "m_iItemDefinitionIndex", 0),
            WeaponField::ModelIndex => Netvar::new("DT_BaseEntity", "m_nModelIndex", 0),
            WeaponField::AccountId => Netvar::new("DT_BaseAttributableItem", "m_iAccountID", 0),
            WeaponField::OwnerEntity => Netvar::new("DT_CSPlayer", "m_hOwnerEntity", 0),
            WeaponField::Origin => Netvar::new("DT_BaseEntity", "m_vecOrigin", 0),
            WeaponField::Clip => Netvar::new("DT_BaseCombatWeapon", "m_iClip1", 0),
        }
    }

    /// Whether this field has a setter beside its getter.
    #[verifier::when_used_as_spec(spec_has_setter)]
    pub fn has_setter(&self) -> (writable: bool)
        ensures
            writable == self.spec_has_setter(),
    {
        match self {
            WeaponField::FallbackPaintKit | WeaponField::EntityQuality
            | WeaponField::FallbackSeed | WeaponField::FallbackStatTrak
            | WeaponField::FallbackWear | WeaponField::WeaponWorldModel
            | WeaponField::IdHigh | WeaponField::Id | WeaponField::ModelIndex
            | WeaponField::AccountId => true,
            _ => false,
        }
    }

    /// The kind of value that this field holds.
    #[verifier::when_used_as_spec(spec_kind)]
    pub fn kind(&self) -> (kind: ValueKind)
        ensures
            kind == self.spec_kind(),
    {
        match self {
            WeaponField::NextAttack | WeaponField::FallbackWear => ValueKind::Float,
            WeaponField::Reloading => ValueKind::Bool,
            WeaponField::FallbackPaintKit | WeaponField::FallbackSeed
            | WeaponField::ModelIndex | WeaponField::AccountId => ValueKind::UInt32,
            WeaponField::EntityQuality | WeaponField::FallbackStatTrak
            | WeaponField::WeaponWorldModel | WeaponField::IdHigh | WeaponField::OwnerEntity
            | WeaponField::Clip => ValueKind::Int32,
            WeaponField::Id => ValueKind::Int16,
            WeaponField::Origin => ValueKind::Vec3,
        }
    }
}

/// The fields of a view model that have an accessor.
#[derive(Debug, Clone, Copy, PartialEq, Eq, Structural)]
pub enum ViewModelField {
    Weapon,
    ModelIndex,
}

impl ViewModelField {
    /// The table that holds this field.
    pub open spec fn spec_table(&self) -> Seq<char> {
        match self {
            ViewModelField::Weapon => "DT_BaseViewModel"@,
            ViewModelField::ModelIndex => "DT_BaseEntity"@,
        }
    }

    /// The name of this field in its table.
    pub open spec fn spec_name(&self) -> Seq<char> {
        match self {
            ViewModelField::Weapon => "m_hWeapon"@,
            ViewModelField::ModelIndex => "m_nModelIndex"@,
        }
    }

    /// How many bytes behind the field the value lies.
    pub open spec fn spec_extra(&self) -> usize {
        match self {
            _ => 0,
        }
    }

    /// Whether this field has a setter beside its getter.
    pub open spec fn spec_has_setter(&self) -> bool {
        match self {
            ViewModelField::Weapon | ViewModelField::ModelIndex => true,
            _ => false,
        }
    }

    /// The kind of value that this field holds.
    pub open spec fn spec_kind(&self) -> ValueKind {
        match self {
            ViewModelField::Weapon => ValueKind::Int32,
            ViewModelField::ModelIndex => ValueKind::UInt32,
        }
    }

    /// The accessor of this field.
    pub fn netvar(&self) -> (netvar: Netvar)
        ensures
            netvar.table@ == self.spec_table(),
            netvar.name@ == self.spec_name(),
            netvar.extra == self.spec_extra(),
    {
        match self {
            ViewModelField::Weapon => Netvar::new("DT_BaseViewModel", "m_hWeapon", 0),
            ViewModelField::ModelIndex => Netvar::new("DT_BaseEntity", "m_nModelIndex", 0),
        }
    }

    /// Whether this field has a setter beside its getter.
    #[verifier::when_used_as_spec(spec_has_setter)]
    pub fn has_setter(&self) -> (writable: bool)
        ensures
            writable == self.spec_has_setter(),
    {
        match self {
            ViewModelField::Weapon | ViewModelField::ModelIndex => true,
            _ => false,
        }
    }

    /// The kind of value that this field holds.
    #[verifier::when_used_as_spec(spec_kind)]
    pub fn kind(&self) -> (kind: ValueKind)
        ensures
            kind == self.spec_kind(),
    {
        match self {
            ViewModelField::Weapon => ValueKind::Int32,
            ViewModelField::ModelIndex => ValueKind::UInt32,
        }
    }
}

/// One value of 32 bits that is to be written to a field of a weapon.
#[derive(Debug, Clone, Copy, PartialEq, Eq, Structural)]
pub struct FieldWrite {
    /// Where the value is written.
    pub address: usize,
    /// The field that lies there.
    pub field: WeaponField,
    /// The 32 bits of the value.
    pub bits: u32,
}

/// What the host holds of one weapon at one moment.
#[derive(Debug, Clone, Copy)]
pub struct WeaponState {
    /// The number by which the host knows the item.
    pub id: i16,
    /// How many rounds are left in the clip.
    pub clip: i32,
    /// Whether the weapon is being reloaded.
    pub reloading: bool,
    /// Whether the time of the next attack still lies ahead of the host's
    /// simulation clock.
    pub cooling_down: bool,
}

/// A view of a weapon of the host.
#[derive(Debug, Clone, Copy)]
pub struct CWeapon {
    base: usize,
}

impl Interface for CWeapon {
    closed spec fn address(&self) -> usize {
        self.base
    }

    fn from_raw_unchecked(ptr: usize) -> (view: Self) {
        Self { base: ptr }
    }

    fn is_null(&self) -> (null: bool) {
        self.base == 0
    }

    fn as_ptr(&self) -> (ptr: usize) {
        self.base
    }
}

impl Entity for CWeapon {
}

impl CWeapon {
    /// A view of the object at `addr`, which must not be 0.
    pub fn from_raw(addr: usize) -> (view: Result<Self, ()>)
        ensures
            view is Err <==> addr == 0,
            view is Ok ==> view->Ok_0.address() == addr,
    {
        if addr == 0 {
            return Err(());
        }
        Ok(Self { base: addr })
    }

    /// The view of no object.
    pub fn default() -> (view: Self)
        ensures
            view.address() == 0,
    {
        Self { base: 0 }
    }

    /// Where the value of `field` lies in the object.
    pub open spec fn field_address(&self, netvars: &NetVars, field: WeaponField) -> int {
        self.address() + netvars.spec_offset(field.spec_table(), field.spec_name())
            + field.spec_extra()
    }

    /// Whether the value of `field` lies at an address: what the getter and
    /// the setter ask of a view of an object.
    pub fn in_reach(&self, netvars: &NetVars, field: WeaponField) -> (reachable: bool)
        ensures
            reachable == (self.field_address(netvars, field) <= usize::MAX),
    {
        field.netvar().in_reach(netvars, self.base)
    }

    /// The getter of `field`: the value that `read` finds where the field
    /// lies. On a view of no object it is `zero`, and nothing is read.
    pub fn get_value<T, F: FnOnce(usize) -> T>(
        &self,
        netvars: &NetVars,
        field: WeaponField,
        zero: T,
        read: F,
    ) -> (value: T)
        requires
            self.address() != 0 ==> self.field_address(netvars, field) <= usize::MAX,
            self.address() != 0 ==> read.requires((self.field_address(netvars, field) as usize,)),
        ensures
            self.address() == 0 ==> value == zero,
            self.address() != 0 ==> read.ensures(
                (self.field_address(netvars, field) as usize,),
                value,
            ),
    {
        field.netvar().get(netvars, self.base, zero, read)
    }

    /// The setter of `field`: hands `state` to `write` with the address
    /// where the field lies, and says that it did. Nothing is written, and
    /// the answer is `false`, on a view of no object and for a field that
    /// has no setter.
    pub fn set_value<T, F: FnOnce(usize, T)>(
        &self,
        netvars: &NetVars,
        field: WeaponField,
        state: T,
        write: F,
    ) -> (written: bool)
        requires
            self.address() != 0 && field.spec_has_setter() ==> self.field_address(netvars, field)
                <= usize::MAX,
            self.address() != 0 && field.spec_has_setter() ==> write.requires(
                (self.field_address(netvars, field) as usize, state),
            ),
        ensures
            written == (self.address() != 0 && field.spec_has_setter()),
            written ==> write.ensures((self.field_address(netvars, field) as usize, state), ()),
    {
        if !field.has_setter() {
            return false;
        }
        field.netvar().set(netvars, self.base, state, write)
    }

    /// The item that the weapon is: the item that the host knows by the
    /// number of the weapon, or [`WeaponId::Unknown`] where it knows none.
    pub fn get_weapon_name(&self, state: &WeaponState) -> (name: WeaponId)
        ensures
            name.spec_id() == state.id || (name == WeaponId::Unknown && forall|any: WeaponId|
                any.spec_id() != state.id),
    {
        match WeaponId::from_i16(state.id) {
            Some(weapon) => weapon,
            None => WeaponId::Unknown,
        }
    }

    /// The write of `bits` to `field` of this weapon.
    pub open spec fn field_write(&self, netvars: &NetVars, field: WeaponField, bits: u32)
        -> FieldWrite {
        FieldWrite { address: self.field_address(netvars, field) as usize, field, bits }
    }

    /// The writes that give the weapon another look, in their order: the
    /// item is marked as one of its owner's own, and then the owner, the
    /// paint, the wear, the counter and the seed of the pattern are set.
    /// There are none for a view of no object.
    pub open spec fn skin_writes(
        &self,
        netvars: &NetVars,
        account_id: u32,
        paint_kit: u32,
        wear: u32,
        stat_track: i32,
        seed: u32,
    ) -> Seq<FieldWrite> {
        if self.address() == 0 {
            Seq::empty()
        } else {
            seq![
                self.field_write(netvars, WeaponField::IdHigh, 0xFFFF_FFFF),
                self.field_write(netvars, WeaponField::AccountId, account_id),
                self.field_write(netvars, WeaponField::FallbackPaintKit, paint_kit),
                self.field_write(netvars, WeaponField::FallbackWear, wear),
                self.field_write(netvars, WeaponField::FallbackStatTrak, stat_track as u32),
                self.field_write(netvars, WeaponField::FallbackSeed, seed),
            ]
        }
    }

    /// Whether the six fields of a look lie at addresses: what
    /// [`CWeapon::apply_skin`] asks of a view of an object.
    pub open spec fn skin_in_reach(&self, netvars: &NetVars) -> bool {
        &&& self.field_address(netvars, WeaponField::IdHigh) <= usize::MAX
        &&& self.field_address(netvars, WeaponField::AccountId) <= usize::MAX
        &&& self.field_address(netvars, WeaponField::FallbackPaintKit) <= usize::MAX
        &&& self.field_address(netvars, WeaponField::FallbackWear) <= usize::MAX
        &&& self.field_address(netvars, WeaponField::FallbackStatTrak) <= usize::MAX
        &&& self.field_address(netvars, WeaponField::FallbackSeed) <= usize::MAX
    }

    /// The write of `bits` to `field` of this weapon, which is there.
    fn plan_write(&self, netvars: &NetVars, field: WeaponField, bits: u32) -> (write: FieldWrite)
        requires
            self.address() != 0,
            self.field_address(netvars, field) <= usize::MAX,
        ensures
            write == self.field_write(netvars, field, bits),
    {
        match field.netvar().address(netvars, self.base) {
            Some(address) => FieldWrite { address, field, bits },
            None => FieldWrite { address: 0, field, bits },
        }
    }

    /// The writes that give the weapon another look. `wear` holds the bits
    /// of the fraction that says how worn the paint is. On a view of no
    /// object nothing is to be written.
    pub fn apply_skin(
        &self,
        netvars: &NetVars,
        account_id: u32,
        paint_kit: u32,
        wear: u32,
        stat_track: i32,
        seed: u32,
    ) -> (writes: Vec<FieldWrite>)
        requires
            self.address() != 0 ==> self.skin_in_reach(netvars),
        ensures
            writes@ == self.skin_writes(netvars, account_id, paint_kit, wear, stat_track, seed),
    {
        let mut writes: Vec<FieldWrite> = Vec::new();
        if self.is_null() {
            return writes;
        }
        let counter: u32 = #[verifier::truncate] (stat_track as u32);
        writes.push(self.plan_write(netvars, WeaponField::IdHigh, 0xFFFF_FFFF));
        writes.push(self.plan_write(netvars, WeaponField::AccountId, account_id));
        writes.push(self.plan_write(netvars, WeaponField::FallbackPaintKit, paint_kit));
        writes.push(self.plan_write(netvars, WeaponField::FallbackWear, wear));
        writes.push(self.plan_write(netvars, WeaponField::FallbackStatTrak, counter));
        writes.push(self.plan_write(netvars, WeaponField::FallbackSeed, seed));
        assert(writes@ =~= self.skin_writes(
            netvars,
            account_id,
            paint_kit,
            wear,
            stat_track,
            seed,
        ));
        writes
    }

    /// The kind of the weapon.
    pub fn get_type(&self, state: &WeaponState) -> (kind: WeaponType)
        ensures
            kind == type_of_id(state.id as int),
    {
        get_type(state.id)
    }

    /// Whether the weapon is of the kind `weapon_type`.
    pub fn is_type(&self, state: &WeaponState, weapon_type: WeaponType) -> (same: bool)
        ensures
            same == (type_of_id(state.id as int) == weapon_type),
    {
        self.get_type(state) == weapon_type
    }

    /// Whether the weapon fires no bullets: a melee weapon, a grenade, or
    /// an item of unknown kind.
    pub open spec fn spec_is_melee(state: WeaponState) -> bool {
        let kind = type_of_id(state.id as int);
        kind == WeaponType::Unknown || kind == WeaponType::Melee || kind == WeaponType::Grenade
    }

    /// Whether the weapon fires no bullets: a melee weapon, a grenade, or
    /// an item of unknown kind.
    pub fn is_melee(&self, state: &WeaponState) -> (melee: bool)
        ensures
            melee == Self::spec_is_melee(*state),
    {
        self.is_type(state, WeaponType::Unknown) || self.is_type(state, WeaponType::Melee)
            || self.is_type(state, WeaponType::Grenade)
    }

    /// Whether the weapon can fire now: the time of its next attack has
    /// come, it fires bullets, its clip is not empty, and it is not being
    /// reloaded.
    pub open spec fn spec_can_fire(state: WeaponState) -> bool {
        &&& !state.cooling_down
        &&& !Self::spec_is_melee(state)
        &&& state.clip != 0
        &&& !state.reloading
    }

    /// Whether the weapon can fire now.
    pub fn can_fire(&self, state: &WeaponState) -> (ready: bool)
        ensures
            ready == Self::spec_can_fire(*state),
    {
        if state.cooling_down {
            return false;
        }
        let kind = self.get_type(state);
        if kind == WeaponType::Melee || kind == WeaponType::Grenade || kind == WeaponType::Unknown {
            return false;
        }
        if state.clip == 0 || state.reloading {
            return false;
        }
        true
    }
}

/// A view of the model of the weapon that the local player sees in hand.
#[derive(Debug, Clone, Copy)]
pub struct CBaseViewModel {
    base: usize,
}

impl Interface for CBaseViewModel {
    closed spec fn address(&self) -> usize {
        self.base
    }

    fn from_raw_unchecked(ptr: usize) -> (view: Self) {
        Self { base: ptr }
    }

    fn is_null(&self) -> (null: bool) {
        self.base == 0
    }

    fn as_ptr(&self) -> (ptr: usize) {
        self.base
    }
}

impl Entity for CBaseViewModel {

}

impl CBaseViewModel {
    /// Where the value of `field` lies in the object.
    pub open spec fn field_address(&self, netvars: &NetVars, field: ViewModelField) -> int {
        self.address() + netvars.spec_offset(field.spec_table(), field.spec_name())
            + field.spec_extra()
    }

    /// Whether the value of `field` lies at an address.
    pub fn in_reach(&self, netvars: &NetVars, field: ViewModelField) -> (reachable: bool)
        ensures
            reachable == (self.field_address(netvars, field) <= usize::MAX),
    {
        field.netvar().in_reach(netvars, self.base)
    }

    /// The getter of `field`: the value that `read` finds where the field
    /// lies. On a view of no object it is `zero`, and nothing is read.
    pub fn get_value<T, F: FnOnce(usize) -> T>(
        &self,
        netvars: &NetVars,
        field: ViewModelField,
        zero: T,
        read: F,
    ) -> (value: T)
        requires
            self.address() != 0 ==> self.field_address(netvars, field) <= usize::MAX,
            self.address() != 0 ==> read.requires((self.field_address(netvars, field) as usize,)),
        ensures
            self.address() == 0 ==> value == zero,
            self.address() != 0 ==> read.ensures(
                (self.field_address(netvars, field) as usize,),
                value,
            ),
    {
        field.netvar().get(netvars, self.base, zero, read)
    }

    /// The setter of `field`: hands `state` to `write` with the address
    /// where the field lies, and says that it did. Nothing is written, and
    /// the answer is `false`, on a view of no object and for a field that
    /// has no setter.
    pub fn set_value<T, F: FnOnce(usize, T)>(
        &self,
        netvars: &NetVars,
        field: ViewModelField,
        state: T,
        write: F,
    ) -> (written: bool)
        requires
            self.address() != 0 && field.spec_has_setter() ==> self.field_address(netvars, field)
                <= usize::MAX,
            self.address() != 0 && field.spec_has_setter() ==> write.requires(
                (self.field_address(netvars, field) as usize, state),
            ),
        ensures
            written == (self.address() != 0 && field.spec_has_setter()),
            written ==> write.ensures((self.field_address(netvars, field) as usize, state), ()),
    {
        if !field.has_setter() {
            return false;
        }
        field.netvar().set(netvars, self.base, state, write)
    }
}

} // verus!
