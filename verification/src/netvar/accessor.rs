//! Accessors of fields by name: where a field of an object is read and
//! written, given the tables of a discovery pass.
//!
//! An accessor is declared by the name of a table, the name of a field and
//! a distance in bytes behind that field. It looks the field up when it is
//! used, not when it is declared, so it can be declared before any pass has
//! run. On a view of no object a getter gives the zero value and a setter
//! does nothing.

use vstd::prelude::*;
use crate::netvar::{get_offset, NetVars};

verus! {

/// The kind of value that a declared accessor reads and writes.
#[derive(Debug, Clone, Copy, PartialEq, Eq, Structural)]
pub enum ValueKind {
    /// One byte that is 0 or 1.
    Bool,
    /// A signed integer of 16 bits.
    Int16,
    /// A signed integer of 32 bits.
    Int32,
    /// An unsigned integer of 32 bits.
    UInt32,
    /// A machine word.
    Word,
    /// A fraction of 32 bits.
    Float,
    /// Two fractions of 32 bits.
    Vec2,
    /// Three fractions of 32 bits.
    Vec3,
    /// The 48 handles of the weapons that an entity carries.
    Handles,
}

/// A declared accessor.
#[derive(Debug, Clone, Copy)]
pub struct Netvar {
    /// The table that holds the field, such as `"DT_BasePlayer"`.
    pub table: &'static str,
    /// The name of the field, such as `"m_iHealth"`.
    pub name: &'static str,
    /// How many bytes behind the field the value lies.
    pub extra: usize,
}

impl Netvar {
    /// How far into an object the value lies: the offset of the field, which
    /// is 0 where no pass has found the field, and the distance behind it.
    pub open spec fn spec_offset(&self, netvars: &NetVars) -> int {
        netvars.spec_offset(self.table@, self.name@) + self.extra
    }

    /// Where the value lies for the object at `base`.
    pub open spec fn spec_address(&self, netvars: &NetVars, base: usize) -> int {
        base + self.spec_offset(netvars)
    }

    /// The accessor of the field `name` of `table`, `extra` bytes behind it.
    pub fn new(table: &'static str, name: &'static str, extra: usize) -> (netvar: Netvar)
        ensures
            netvar.table@ == table@,
            netvar.name@ == name@,
            netvar.extra == extra,
    {
        Netvar { table, name, extra }
    }

    /// Whether the value lies at an address for the object at `base`: what
    /// the other operations ask of an object that is there.
    pub fn in_reach(&self, netvars: &NetVars, base: usize) -> (reachable: bool)
        ensures
            reachable == (self.spec_address(netvars, base) <= usize::MAX),
    {
        let offset = get_offset(netvars, self.table, self.name);
        match offset.checked_add(self.extra) {
            Some(distance) => base.checked_add(distance).is_some(),
            None => false,
        }
    }

    /// Where the value lies for the object at `base`, or `None` for a view
    /// of no object.
    pub fn address(&self, netvars: &NetVars, base: usize) -> (address: Option<usize>)
        requires
            base != 0 ==> self.spec_address(netvars, base) <= usize::MAX,
        ensures
            base == 0 ==> address is None,
            base != 0 ==> address == Some(self.spec_address(netvars, base) as usize),
    {
        if base == 0 {
            return None;
        }
        Some(base + (get_offset(netvars, self.table, self.name) + self.extra))
    }

    /// The getter: the value that `read` finds where the field lies, or
    /// `zero` for a view of no object, for which `read` is not called.
    pub fn get<T, F: FnOnce(usize) -> T>(
        &self,
        netvars: &NetVars,
        base: usize,
        zero: T,
        read: F,
    ) -> (value: T)
        requires
            base != 0 ==> self.spec_address(netvars, base) <= usize::MAX,
            base != 0 ==> read.requires((self.spec_address(netvars, base) as usize,)),
        ensures
            base == 0 ==> value == zero,
            base != 0 ==> read.ensures((self.spec_address(netvars, base) as usize,), value),
    {
        match self.address(netvars, base) {
            Some(address) => read(address),
            None => zero,
        }
    }

    /// The setter: hands `state` to `write` with the address where the field
    /// lies, and says that it did. For a view of no object `write` is not
    /// called, and the answer is `false`.
    pub fn set<T, F: FnOnce(usize, T)>(
        &self,
        netvars: &NetVars,
        base: usize,
        state: T,
        write: F,
    ) -> (written: bool)
        requires
            base != 0 ==> self.spec_address(netvars, base) <= usize::MAX,
            base != 0 ==> write.requires((self.spec_address(netvars, base) as usize, state)),
        ensures
            written == (base != 0),
            base != 0 ==> write.ensures((self.spec_address(netvars, base) as usize, state), ()),
    {
        match self.address(netvars, base) {
            Some(address) => {
                write(address, state);
                true
            },
            None => false,
        }
    }
}

} // verus!
