//! The tables of discovered fields, and the lookups on them.

use vstd::prelude::*;
use vstd::string::*;
use crate::netvar::names::NameMap;
use crate::utils::string::first_char;

pub mod accessor;
pub mod flattening;
pub mod hook;
pub mod manager;
pub mod names;

verus! {

/// What a discovery pass found: where each field lies, and where the host
/// keeps the descriptor of each field.
pub struct NetVars {
    /// From `"Table->field"` to the field's offset in bytes from the start of
    /// an object.
    pub offsets: NameMap,
    /// From `"Class->field"` to the address of the field's descriptor.
    pub props: NameMap,
}

/// The key of a field: the name of its group, an arrow, and its own name.
pub open spec fn spec_key(group: Seq<char>, name: Seq<char>) -> Seq<char> {
    group + "->"@ + name
}

/// The key under which a field is looked up: a leading `C`, the mark of a
/// class name, gives way to `DT_`, the mark of a table name.
pub open spec fn spec_normalize(key: Seq<char>) -> Seq<char> {
    if key.len() > 0 && key[0] == 'C' {
        "DT_"@ + key.skip(1)
    } else {
        key
    }
}

/// The key of a field: the name of its group, an arrow, and its own name.
pub fn make_key(group: &str, name: &str) -> (key: String)
    ensures
        key@ == spec_key(group@, name@),
{
    String::from_str(group).concat("->").concat(name)
}

/// The key under which a field is looked up.
pub fn normalize_key(key: &str) -> (public: String)
    ensures
        public@ == spec_normalize(key@),
{
    match first_char(key) {
        Some(c) => {
            if c == 'C' {
                let n = key.unicode_len();
                let rest = key.substring_char(1, n);
                assert(rest@ =~= key@.skip(1));
                String::from_str("DT_").concat(rest)
            } else {
                String::from_str(key)
            }
        },
        None => String::from_str(key),
    }
}

impl NetVars {
    /// Tables that hold nothing, as before the first discovery pass.
    pub fn new() -> (nv: NetVars)
        ensures
            nv.offsets@ == Map::<Seq<char>, usize>::empty(),
            nv.props@ == Map::<Seq<char>, usize>::empty(),
    {
        NetVars { offsets: NameMap::new(), props: NameMap::new() }
    }

    /// The offset of `netvar` in `table`, if it was discovered.
    pub open spec fn spec_find_offset(&self, table: Seq<char>, netvar: Seq<char>) -> Option<
        usize,
    > {
        self.offsets.spec_get(spec_key(table, netvar))
    }

    /// The offset of `netvar` in `table`, or 0 where it was not discovered.
    pub open spec fn spec_offset(&self, table: Seq<char>, netvar: Seq<char>) -> usize {
        match self.spec_find_offset(table, netvar) {
            Some(offset) => offset,
            None => 0,
        }
    }

    /// The offset of `netvar` in `table`, if it was discovered. Unlike
    /// [`get_offset`], this tells an unknown field from one at offset 0.
    pub fn find_offset(&self, table: &str, netvar: &str) -> (offset: Option<usize>)
        ensures
            offset == self.spec_find_offset(table@, netvar@),
    {
        let key = make_key(table, netvar);
        self.offsets.get(&key)
    }
}

/// The offset of `netvar` in `table`, or 0 where it was not discovered.
pub fn get_offset(netvars: &NetVars, table: &str, netvar: &str) -> (offset: usize)
    ensures
        offset == netvars.spec_offset(table@, netvar@),
{
    match netvars.find_offset(table, netvar) {
        Some(offset) => offset,
        None => 0,
    }
}

} // verus!
