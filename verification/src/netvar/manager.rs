//! The discovery pass: the walk over the host's network classes that fills
//! the tables of [`NetVars`].

use vstd::prelude::*;
use vstd::string::*;
use crate::definitions::recv_props::{CRecvProp, CRecvTable, EPropType};
use crate::interfaces::client::ClientClass;
use crate::netvar::names::{lemma_write_all_concat, write_all};
use crate::netvar::{make_key, normalize_key, spec_key, spec_normalize, NetVars};
use crate::utils::error::{Error, ErrorKind};
use crate::utils::string::{
    first_char, is_decimal_digit, same_text, spec_is_decimal_digit, spec_starts_with, starts_with,
};

verus! {

/// One field that the walk stores.
pub struct NetvarRecord {
    /// The name of the class whose walk found the field.
    pub group: Seq<char>,
    /// The name of the field.
    pub name: Seq<char>,
    /// Where the field lies, in bytes from the start of an object of the class.
    pub offset: int,
    /// Where the host keeps the descriptor of the field.
    pub prop: usize,
}

impl NetvarRecord {
    /// The key of the field in the table of descriptors.
    pub open spec fn key(&self) -> Seq<char> {
        spec_key(self.group, self.name)
    }

    /// The key of the field in the table of offsets.
    pub open spec fn public_key(&self) -> Seq<char> {
        spec_normalize(self.key())
    }
}

/// Whether a field of this name is left out of the tables: a name that
/// begins with a decimal digit stands for an element of an array, and
/// `baseclass` for the table of the parent class.
pub open spec fn is_reserved_name(name: Seq<char>) -> bool {
    (name.len() > 0 && spec_is_decimal_digit(name[0])) || name == "baseclass"@
}

/// Whether the walk descends into the table that `prop` embeds: the field
/// is a data table, and the name of the embedded table begins with `D`.
pub open spec fn is_flattened(prop: CRecvProp) -> bool {
    &&& prop.data_table is Some
    &&& prop.prop_type == EPropType::DataTable
    &&& spec_starts_with(prop.data_table->0.table_name@, 'D')
}

/// The record of `prop` itself, found at `base` bytes into an object.
pub open spec fn own_record(group: Seq<char>, prop: CRecvProp, base: int) -> NetvarRecord {
    NetvarRecord { group, name: prop.prop_name@, offset: base + prop.offset, prop: prop.address }
}

/// The fields that the walk of `table` stores, in the order in which it
/// stores them, when the table lies `base` bytes into an object.
pub open spec fn table_records(group: Seq<char>, table: CRecvTable, base: int) -> Seq<
    NetvarRecord,
>
    decreases table, 0nat,
{
    props_records(group, table.props@, base)
}

/// The fields that the walk of the descriptors `props` stores, in order.
pub open spec fn props_records(group: Seq<char>, props: Seq<CRecvProp>, base: int) -> Seq<
    NetvarRecord,
>
    decreases props, 1nat,
{
    if props.len() == 0 {
        Seq::empty()
    } else {
        props_records(group, props.drop_last(), base) + prop_records(group, props.last(), base)
    }
}

/// The fields that the walk stores for one descriptor: nothing for a
/// reserved name; otherwise the fields of the embedded table, where the walk
/// descends into it, and then the field itself.
pub open spec fn prop_records(group: Seq<char>, prop: CRecvProp, base: int) -> Seq<NetvarRecord>
    decreases prop, 2nat,
{
    if is_reserved_name(prop.prop_name@) {
        Seq::empty()
    } else if is_flattened(prop) {
        table_records(group, *prop.data_table->0, base + prop.offset).push(
            own_record(group, prop, base),
        )
    } else {
        seq![own_record(group, prop, base)]
    }
}

/// The fields that a pass over `classes` stores, in order: those of the
/// first class, then those of the second, and so on.
pub open spec fn class_records(classes: Seq<ClientClass>) -> Seq<NetvarRecord>
    decreases classes.len(),
{
    if classes.len() == 0 {
        Seq::empty()
    } else {
        class_records(classes.drop_last()) + table_records(
            classes.last().network_name@,
            classes.last().recv_table,
            0,
        )
    }
}

/// Whether every offset that the walk of `table` computes fits a machine
/// word, when the table lies `base` bytes into an object.
pub open spec fn table_fits(table: CRecvTable, base: int) -> bool
    decreases table, 0nat,
{
    props_fit(table.props@, base)
}

/// Whether every offset that the walk of `props` computes fits a machine word.
pub open spec fn props_fit(props: Seq<CRecvProp>, base: int) -> bool
    decreases props, 1nat,
{
    props.len() == 0 || (props_fit(props.drop_last(), base) && prop_fits(props.last(), base))
}

/// Whether every offset that the walk computes for `prop` fits a machine word.
pub open spec fn prop_fits(prop: CRecvProp, base: int) -> bool
    decreases prop, 2nat,
{
    is_reserved_name(prop.prop_name@) || (base + prop.offset <= usize::MAX && (is_flattened(prop)
        ==> table_fits(*prop.data_table->0, base + prop.offset)))
}

/// Whether every offset that a pass over `classes` computes fits a machine word.
pub open spec fn classes_fit(classes: Seq<ClientClass>) -> bool {
    forall|i: int| 0 <= i < classes.len() ==> table_fits((#[trigger] classes[i]).recv_table, 0)
}

/// The writes to the table of offsets that storing `records` makes.
pub open spec fn offset_writes(records: Seq<NetvarRecord>) -> Seq<(Seq<char>, usize)> {
    records.map_values(|r: NetvarRecord| (r.public_key(), r.offset as usize))
}

/// The writes to the table of descriptors that storing `records` makes.
pub open spec fn prop_writes(records: Seq<NetvarRecord>) -> Seq<(Seq<char>, usize)> {
    records.map_values(|r: NetvarRecord| (r.key(), r.prop))
}

/// The records of the first `i + 1` descriptors are those of the first `i`
/// and then those of descriptor `i`.
proof fn lemma_props_records_step(group: Seq<char>, props: Seq<CRecvProp>, base: int, i: int)
    requires
        0 <= i < props.len(),
    ensures
        props_records(group, props.take(i + 1), base) == props_records(group, props.take(i), base)
            + prop_records(group, props[i], base),
{
    assert(props.take(i + 1).drop_last() =~= props.take(i));
    assert(props.take(i + 1).last() == props[i]);
}

/// If the offsets of a sequence of descriptors fit, those of each one do.
proof fn lemma_props_fit_index(props: Seq<CRecvProp>, base: int, i: int)
    requires
        props_fit(props, base),
        0 <= i < props.len(),
    ensures
        prop_fits(props[i], base),
    decreases props.len(),
{
    if i < props.len() - 1 {
        assert(props.drop_last()[i] == props[i]);
        lemma_props_fit_index(props.drop_last(), base, i);
    }
}

/// If the offsets of each descriptor fit, those of the sequence do.
proof fn lemma_props_fit_all(props: Seq<CRecvProp>, base: int)
    requires
        forall|i: int| 0 <= i < props.len() ==> prop_fits(#[trigger] props[i], base),
    ensures
        props_fit(props, base),
    decreases props.len(),
{
    if props.len() > 0 {
        assert forall|i: int| 0 <= i < props.drop_last().len() implies prop_fits(
            #[trigger] props.drop_last()[i],
            base,
        ) by {
            assert(props.drop_last()[i] == props[i]);
        }
        lemma_props_fit_all(props.drop_last(), base);
    }
}

/// Storing `a + b` writes what storing `a` writes and then what storing `b`
/// writes, in both tables.
proof fn lemma_writes_concat(a: Seq<NetvarRecord>, b: Seq<NetvarRecord>)
    ensures
        offset_writes(a + b) == offset_writes(a) + offset_writes(b),
        prop_writes(a + b) == prop_writes(a) + prop_writes(b),
{
    assert(offset_writes(a + b) =~= offset_writes(a) + offset_writes(b));
    assert(prop_writes(a + b) =~= prop_writes(a) + prop_writes(b));
}

/// Writing the records `a + b` to both tables is writing `a` and then `b`.
proof fn lemma_store_concat(
    offsets: Map<Seq<char>, usize>,
    props: Map<Seq<char>, usize>,
    a: Seq<NetvarRecord>,
    b: Seq<NetvarRecord>,
)
    ensures
        write_all(offsets, offset_writes(a + b)) == write_all(
            write_all(offsets, offset_writes(a)),
            offset_writes(b),
        ),
        write_all(props, prop_writes(a + b)) == write_all(
            write_all(props, prop_writes(a)),
            prop_writes(b),
        ),
{
    lemma_writes_concat(a, b);
    lemma_write_all_concat(offsets, offset_writes(a), offset_writes(b));
    lemma_write_all_concat(props, prop_writes(a), prop_writes(b));
}

/// Writing one record to both tables is one insertion into each.
proof fn lemma_store_one(
    offsets: Map<Seq<char>, usize>,
    props: Map<Seq<char>, usize>,
    r: NetvarRecord,
)
    ensures
        write_all(offsets, offset_writes(seq![r])) == offsets.insert(
            r.public_key(),
            r.offset as usize,
        ),
        write_all(props, prop_writes(seq![r])) == props.insert(r.key(), r.prop),
{
    let ow = offset_writes(seq![r]);
    let pw = prop_writes(seq![r]);
    assert(ow.drop_last() =~= Seq::empty());
    assert(pw.drop_last() =~= Seq::empty());
    assert(ow.last() == (r.public_key(), r.offset as usize));
    assert(pw.last() == (r.key(), r.prop));
    assert(write_all(offsets, ow.drop_last()) == offsets);
    assert(write_all(props, pw.drop_last()) == props);
}

/// Whether a field of this name is left out of the tables.
pub fn reserved_name(name: &str) -> (reserved: bool)
    ensures
        reserved == is_reserved_name(name@),
{
    let numbered = match first_char(name) {
        Some(c) => is_decimal_digit(c),
        None => false,
    };
    numbered || same_text(name, "baseclass")
}

/// Whether the walk descends into the table that `prop` embeds.
pub fn flattened(prop: &CRecvProp) -> (descends: bool)
    ensures
        descends == is_flattened(*prop),
{
    match &prop.data_table {
        Some(child) => prop.prop_type == EPropType::DataTable && starts_with(
            child.table_name.as_str(),
            'D',
        ),
        None => false,
    }
}

/// Walks `recv_table`, which lies `child_offset` bytes into an object of the
/// class `group_name`, and stores every field it finds: first the fields of
/// an embedded table, then the field that embeds it.
pub fn store_props(
    netvars: &mut NetVars,
    group_name: &str,
    recv_table: &CRecvTable,
    child_offset: usize,
)
    requires
        table_fits(*recv_table, child_offset as int),
    ensures
        final(netvars).offsets@ == write_all(
            old(netvars).offsets@,
            offset_writes(table_records(group_name@, *recv_table, child_offset as int)),
        ),
        final(netvars).props@ == write_all(
            old(netvars).props@,
            prop_writes(table_records(group_name@, *recv_table, child_offset as int)),
        ),
    decreases recv_table,
{
    let ghost base = child_offset as int;
    let ghost all = recv_table.props@;
    let mut i: usize = 0;
    proof {
        assert(all.take(0) =~= Seq::empty());
        assert(offset_writes(Seq::empty()) =~= Seq::empty());
        assert(prop_writes(Seq::empty()) =~= Seq::empty());
    }
    while i < recv_table.props.len()
        invariant
            i <= all.len(),
            all == recv_table.props@,
            base == child_offset as int,
            props_fit(all, base),
            netvars.offsets@ == write_all(
                old(netvars).offsets@,
                offset_writes(props_records(group_name@, all.take(i as int), base)),
            ),
            netvars.props@ == write_all(
                old(netvars).props@,
                prop_writes(props_records(group_name@, all.take(i as int), base)),
            ),
        decreases all.len() - i,
    {
        let prop = &recv_table.props[i];
        let ghost before = props_records(group_name@, all.take(i as int), base);
        let ghost offsets0 = netvars.offsets@;
        let ghost props0 = netvars.props@;
        proof {
            lemma_props_records_step(group_name@, all, base, i as int);
            lemma_props_fit_index(all, base, i as int);
            lemma_store_concat(
                old(netvars).offsets@,
                old(netvars).props@,
                before,
                prop_records(group_name@, *prop, base),
            );
        }
        if !reserved_name(prop.prop_name.as_str()) {
            let offset = prop.offset + child_offset;
            let ghost own = own_record(group_name@, *prop, base);
            let ghost inner = Seq::<NetvarRecord>::empty();
            if flattened(prop) {
                match &prop.data_table {
                    Some(child) => {
                        store_props(netvars, group_name, child, offset);
                        proof {
                            inner = table_records(group_name@, **child, base + prop.offset);
                        }
                    },
                    None => {},
                }
            }
            let key = make_key(group_name, prop.prop_name.as_str());
            let public = normalize_key(key.as_str());
            proof {
                assert(prop_records(group_name@, *prop, base) =~= inner + seq![own]);
                lemma_store_concat(offsets0, props0, inner, seq![own]);
                lemma_store_one(netvars.offsets@, netvars.props@, own);
                assert(inner.len() == 0 ==> offset_writes(inner) =~= Seq::empty());
                assert(inner.len() == 0 ==> prop_writes(inner) =~= Seq::empty());
            }
            netvars.props.insert(key, prop.address);
            netvars.offsets.insert(public, offset);
        } else {
            proof {
                assert(offset_writes(Seq::empty()) =~= Seq::empty());
                assert(prop_writes(Seq::empty()) =~= Seq::empty());
            }
        }
        i += 1;
    }
    proof {
        assert(all.take(all.len() as int) =~= all);
    }
}

/// Whether every offset that the walk of `recv_table` computes fits a
/// machine word, when the table lies `child_offset` bytes into an object.
pub fn table_offsets_fit(recv_table: &CRecvTable, child_offset: usize) -> (fits: bool)
    ensures
        fits == table_fits(*recv_table, child_offset as int),
    decreases recv_table,
{
    let ghost base = child_offset as int;
    let ghost all = recv_table.props@;
    let mut i: usize = 0;
    while i < recv_table.props.len()
        invariant
            i <= all.len(),
            all == recv_table.props@,
            base == child_offset as int,
            forall|j: int| 0 <= j < i ==> prop_fits(#[trigger] all[j], base),
        decreases all.len() - i,
    {
        let prop = &recv_table.props[i];
        if !reserved_name(prop.prop_name.as_str()) {
            match child_offset.checked_add(prop.offset) {
                Some(offset) => {
                    if flattened(prop) {
                        let inner = match &prop.data_table {
                            Some(child) => table_offsets_fit(child, offset),
                            None => true,
                        };
                        if !inner {
                            proof {
                                if props_fit(all, base) {
                                    lemma_props_fit_index(all, base, i as int);
                                }
                            }
                            return false;
                        }
                    }
                },
                None => {
                    proof {
                        if props_fit(all, base) {
                            lemma_props_fit_index(all, base, i as int);
                        }
                    }
                    return false;
                },
            }
        }
        i += 1;
    }
    proof {
        lemma_props_fit_all(all, base);
    }
    true
}

/// Whether every offset that a pass over `classes` computes fits a machine
/// word: what [`scan`] asks of its input.
pub fn offsets_fit(classes: &Vec<ClientClass>) -> (fits: bool)
    ensures
        fits == classes_fit(classes@),
{
    let mut i: usize = 0;
    while i < classes.len()
        invariant
            i <= classes@.len(),
            forall|j: int| 0 <= j < i ==> table_fits((#[trigger] classes@[j]).recv_table, 0),
        decreases classes@.len() - i,
    {
        if !table_offsets_fit(&classes[i].recv_table, 0) {
            return false;
        }
        i += 1;
    }
    true
}

/// The records of the first `i + 1` classes are those of the first `i` and
/// then those of class `i`.
proof fn lemma_class_records_step(classes: Seq<ClientClass>, i: int)
    requires
        0 <= i < classes.len(),
    ensures
        class_records(classes.take(i + 1)) == class_records(classes.take(i)) + table_records(
            classes[i].network_name@,
            classes[i].recv_table,
            0,
        ),
{
    assert(classes.take(i + 1).drop_last() =~= classes.take(i));
    assert(classes.take(i + 1).last() == classes[i]);
}

/// Storing records leaves a table empty only if there was nothing to store.
proof fn lemma_offsets_empty(records: Seq<NetvarRecord>)
    ensures
        (write_all(Map::empty(), offset_writes(records)) == Map::<Seq<char>, usize>::empty())
            <==> records.len() == 0,
{
    let writes = offset_writes(records);
    if records.len() > 0 {
        assert(write_all(Map::empty(), writes).dom().contains(writes.last().0));
    } else {
        assert(writes =~= Seq::empty());
    }
}

/// One discovery pass over the host's network classes, given in the order of
/// the host's list. A pass that succeeds replaces what an earlier pass left
/// in `netvars`; a pass that fails leaves `netvars` as it was.
///
/// An empty list is the host's null list head: the pass fails with
/// [`Error::Null`]. A list in which no field can be stored fails with
/// [`Error::Unknown`].
pub fn scan(netvars: &mut NetVars, classes: &Vec<ClientClass>) -> (result: Result<(), Error>)
    requires
        classes_fit(classes@),
    ensures
        classes@.len() == 0 ==> {
            &&& result is Err
            &&& result->Err_0.spec_kind() == ErrorKind::Null
            &&& result->Err_0.text() == "ClientClass"@
        },
        classes@.len() > 0 && class_records(classes@).len() == 0 ==> {
            &&& result is Err
            &&& result->Err_0.spec_kind() == ErrorKind::Unknown
            &&& result->Err_0.text() == "Failed to scan NetVars."@
        },
        result is Err ==> *final(netvars) == *old(netvars),
        classes@.len() > 0 && class_records(classes@).len() > 0 ==> {
            &&& result is Ok
            &&& final(netvars).offsets@ == write_all(
                Map::empty(),
                offset_writes(class_records(classes@)),
            )
            &&& final(netvars).props@ == write_all(
                Map::empty(),
                prop_writes(class_records(classes@)),
            )
        },
{
    if classes.len() == 0 {
        return Err(Error::null("ClientClass"));
    }
    let mut found = NetVars::new();
    let mut i: usize = 0;
    proof {
        assert(classes@.take(0) =~= Seq::empty());
        assert(offset_writes(Seq::empty()) =~= Seq::empty());
        assert(prop_writes(Seq::empty()) =~= Seq::empty());
    }
    while i < classes.len()
        invariant
            i <= classes@.len(),
            classes_fit(classes@),
            found.offsets@ == write_all(
                Map::empty(),
                offset_writes(class_records(classes@.take(i as int))),
            ),
            found.props@ == write_all(
                Map::empty(),
                prop_writes(class_records(classes@.take(i as int))),
            ),
        decreases classes@.len() - i,
    {
        let class = &classes[i];
        proof {
            lemma_class_records_step(classes@, i as int);
            lemma_store_concat(
                Map::empty(),
                Map::empty(),
                class_records(classes@.take(i as int)),
                table_records(class.network_name@, class.recv_table, 0),
            );
        }
        store_props(&mut found, class.network_name.as_str(), &class.recv_table, 0);
        i += 1;
    }
    proof {
        assert(classes@.take(classes@.len() as int) =~= classes@);
        lemma_offsets_empty(class_records(classes@));
    }
    if found.offsets.is_empty() {
        return Err(Error::unknown("Failed to scan NetVars."));
    }
    *netvars = found;
    Ok(())
}

} // verus!
