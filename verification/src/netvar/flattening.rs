//! What holds of every discovery pass: which fields reach the tables, under
//! which keys, and which of two writes of one key stays.

use vstd::prelude::*;
use crate::definitions::recv_props::{CRecvProp, CRecvTable};
use crate::interfaces::client::ClientClass;
use crate::netvar::manager::{
    class_records, is_flattened, is_reserved_name, offset_writes, own_record, prop_records,
    prop_writes, props_records, table_records, NetvarRecord,
};
use crate::netvar::names::{
    last_write, lemma_last_write_concat, lemma_last_write_some, lemma_write_all_last_wins,
    lemma_write_all_last_write, write_all,
};
use crate::netvar::{spec_key, spec_normalize};

verus! {

/// The writes to the table of offsets that the walk of one class makes.
pub open spec fn class_offset_writes(class: ClientClass) -> Seq<(Seq<char>, usize)> {
    offset_writes(table_records(class.network_name@, class.recv_table, 0))
}

/// The table of offsets that a pass over `classes` leaves when it succeeds.
pub open spec fn scanned_offsets(classes: Seq<ClientClass>) -> Map<Seq<char>, usize> {
    write_all(Map::empty(), offset_writes(class_records(classes)))
}

/// The table of descriptors that a pass over `classes` leaves when it
/// succeeds.
pub open spec fn scanned_props(classes: Seq<ClientClass>) -> Map<Seq<char>, usize> {
    write_all(Map::empty(), prop_writes(class_records(classes)))
}

/// Whether a record carries the name of the class `group` and a field name
/// that is not reserved.
pub open spec fn is_named(r: NetvarRecord, group: Seq<char>) -> bool {
    r.group == group && !is_reserved_name(r.name)
}

/// Every record of a walk carries the name of the class that was walked,
/// and no record carries a reserved name.
pub proof fn lemma_table_records_named(group: Seq<char>, table: CRecvTable, base: int)
    ensures
        forall|k: int|
            0 <= k < table_records(group, table, base).len() ==> is_named(
                #[trigger] table_records(group, table, base)[k],
                group,
            ),
    decreases table, 0nat,
{
    lemma_props_records_named(group, table.props@, base);
    assert(table_records(group, table, base) == props_records(group, table.props@, base));
}

proof fn lemma_props_records_named(group: Seq<char>, props: Seq<CRecvProp>, base: int)
    ensures
        forall|k: int|
            0 <= k < props_records(group, props, base).len() ==> is_named(
                #[trigger] props_records(group, props, base)[k],
                group,
            ),
    decreases props, 1nat,
{
    if props.len() > 0 {
        let front = props_records(group, props.drop_last(), base);
        let back = prop_records(group, props.last(), base);
        lemma_props_records_named(group, props.drop_last(), base);
        lemma_prop_records_named(group, props.last(), base);
        assert forall|k: int| 0 <= k < (front + back).len() implies is_named(
            #[trigger] (front + back)[k],
            group,
        ) by {
            if k < front.len() {
                assert(is_named(front[k], group));
            } else {
                assert(is_named(back[k - front.len()], group));
            }
        }
    }
}

proof fn lemma_prop_records_named(group: Seq<char>, prop: CRecvProp, base: int)
    ensures
        forall|k: int|
            0 <= k < prop_records(group, prop, base).len() ==> is_named(
                #[trigger] prop_records(group, prop, base)[k],
                group,
            ),
    decreases prop, 2nat,
{
    if !is_reserved_name(prop.prop_name@) && is_flattened(prop) {
        let inner = table_records(group, *prop.data_table->0, base + prop.offset);
        let own = own_record(group, prop, base);
        lemma_table_records_named(group, *prop.data_table->0, base + prop.offset);
        assert forall|k: int| 0 <= k < inner.push(own).len() implies is_named(
            #[trigger] inner.push(own)[k],
            group,
        ) by {
            if k < inner.len() {
                assert(is_named(inner[k], group));
            }
        }
    }
}

/// No record of a pass carries a reserved name: a field named `0`, `1` or
/// `baseclass` is never stored, whatever the classes hold.
pub proof fn lemma_reserved_names_never_recorded(classes: Seq<ClientClass>)
    ensures
        forall|k: int|
            0 <= k < class_records(classes).len() ==> !is_reserved_name(
                (#[trigger] class_records(classes)[k]).name,
            ),
        is_reserved_name("0"@),
        is_reserved_name("1"@),
        is_reserved_name("baseclass"@),
    decreases classes.len(),
{
    reveal_strlit("0");
    reveal_strlit("1");
    if classes.len() > 0 {
        let last = classes.last();
        let front = class_records(classes.drop_last());
        let back = table_records(last.network_name@, last.recv_table, 0);
        lemma_reserved_names_never_recorded(classes.drop_last());
        lemma_table_records_named(last.network_name@, last.recv_table, 0);
        assert forall|k: int| 0 <= k < (front + back).len() implies !is_reserved_name(
            (#[trigger] (front + back)[k]).name,
        ) by {
            if k < front.len() {
                assert(!is_reserved_name(front[k].name));
            } else {
                assert(is_named(back[k - front.len()], last.network_name@));
            }
        }
    }
}

/// Each key of the two tables that a pass leaves is the key of a record of
/// that pass, so of a field whose name is not reserved.
pub proof fn lemma_stored_keys_are_recorded(classes: Seq<ClientClass>, key: Seq<char>)
    ensures
        scanned_props(classes).dom().contains(key) ==> exists|k: int|
            0 <= k < class_records(classes).len() && (#[trigger] class_records(classes)[k]).key()
                == key && !is_reserved_name(class_records(classes)[k].name),
        scanned_offsets(classes).dom().contains(key) ==> exists|k: int|
            0 <= k < class_records(classes).len() && (#[trigger] class_records(
                classes,
            )[k]).public_key() == key && !is_reserved_name(class_records(classes)[k].name),
{
    let records = class_records(classes);
    lemma_reserved_names_never_recorded(classes);
    lemma_write_all_last_write(Map::empty(), prop_writes(records), key);
    lemma_write_all_last_write(Map::empty(), offset_writes(records), key);
    lemma_last_write_some(prop_writes(records), key);
    lemma_last_write_some(offset_writes(records), key);
    if scanned_props(classes).dom().contains(key) {
        let k = choose|k: int|
            0 <= k < prop_writes(records).len() && #[trigger] prop_writes(records)[k].0 == key;
        assert(records[k].key() == key);
    }
    if scanned_offsets(classes).dom().contains(key) {
        let k = choose|k: int|
            0 <= k < offset_writes(records).len() && #[trigger] offset_writes(records)[k].0
                == key;
        assert(records[k].public_key() == key);
    }
}

/// What the walk stores for one descriptor is among what it stores for the
/// sequence that holds the descriptor.
proof fn lemma_prop_records_within(
    group: Seq<char>,
    props: Seq<CRecvProp>,
    base: int,
    i: int,
    r: NetvarRecord,
)
    requires
        0 <= i < props.len(),
        prop_records(group, props[i], base).contains(r),
    ensures
        props_records(group, props, base).contains(r),
    decreases props.len(),
{
    let front = props_records(group, props.drop_last(), base);
    let back = prop_records(group, props.last(), base);
    if i == props.len() - 1 {
        let k = choose|k: int| 0 <= k < back.len() && back[k] == r;
        assert((front + back)[front.len() + k] == r);
    } else {
        assert(props.drop_last()[i] == props[i]);
        lemma_prop_records_within(group, props.drop_last(), base, i, r);
        let k = choose|k: int| 0 <= k < front.len() && front[k] == r;
        assert((front + back)[k] == r);
    }
}

/// A field whose name is not reserved is stored, at the offset of its table
/// plus its own.
pub proof fn lemma_field_is_recorded(group: Seq<char>, table: CRecvTable, base: int, i: int)
    requires
        0 <= i < table.props@.len(),
        !is_reserved_name(table.props@[i].prop_name@),
    ensures
        table_records(group, table, base).contains(own_record(group, table.props@[i], base)),
{
    let prop = table.props@[i];
    let own = own_record(group, prop, base);
    let recorded = prop_records(group, prop, base);
    assert(recorded.last() == own);
    assert(recorded[recorded.len() - 1] == own);
    lemma_prop_records_within(group, table.props@, base, i, own);
}

/// A field of an embedded table into which the walk descends is stored under
/// the name of the walked class, at the sum of three offsets: that of the
/// outer table, that of the embedding field, and its own.
pub proof fn lemma_nested_field_is_recorded(
    group: Seq<char>,
    table: CRecvTable,
    base: int,
    i: int,
    j: int,
)
    requires
        0 <= i < table.props@.len(),
        !is_reserved_name(table.props@[i].prop_name@),
        is_flattened(table.props@[i]),
        0 <= j < table.props@[i].data_table->0.props@.len(),
        !is_reserved_name(table.props@[i].data_table->0.props@[j].prop_name@),
    ensures
        table_records(group, table, base).contains(
            NetvarRecord {
                group,
                name: table.props@[i].data_table->0.props@[j].prop_name@,
                offset: base + table.props@[i].offset
                    + table.props@[i].data_table->0.props@[j].offset,
                prop: table.props@[i].data_table->0.props@[j].address,
            },
        ),
{
    let outer = table.props@[i];
    let child = *outer.data_table->0;
    let leaf = own_record(group, child.props@[j], base + outer.offset);
    lemma_field_is_recorded(group, child, base + outer.offset, j);
    let inner = table_records(group, child, base + outer.offset);
    let k = choose|k: int| 0 <= k < inner.len() && inner[k] == leaf;
    assert(prop_records(group, outer, base)[k] == leaf);
    lemma_prop_records_within(group, table.props@, base, i, leaf);
}

/// Where the walk does not descend into an embedded table, it stores the
/// embedding field and nothing of the embedded table.
pub proof fn lemma_unflattened_table_is_skipped(group: Seq<char>, prop: CRecvProp, base: int)
    requires
        !is_flattened(prop),
    ensures
        prop_records(group, prop, base) == if is_reserved_name(prop.prop_name@) {
            Seq::<NetvarRecord>::empty()
        } else {
            seq![own_record(group, prop, base)]
        },
{
}

/// Every record of a pass is in both tables that the pass leaves, under its
/// two keys.
pub proof fn lemma_recorded_field_is_stored(classes: Seq<ClientClass>, k: int)
    requires
        0 <= k < class_records(classes).len(),
    ensures
        scanned_offsets(classes).dom().contains(class_records(classes)[k].public_key()),
        scanned_props(classes).dom().contains(class_records(classes)[k].key()),
{
    let records = class_records(classes);
    let r = records[k];
    lemma_write_all_last_write(Map::empty(), prop_writes(records), r.key());
    lemma_write_all_last_write(Map::empty(), offset_writes(records), r.public_key());
    lemma_last_write_some(prop_writes(records), r.key());
    lemma_last_write_some(offset_writes(records), r.public_key());
    assert(prop_writes(records)[k].0 == r.key());
    assert(offset_writes(records)[k].0 == r.public_key());
}

/// The writes of a pass are those of the classes before `i`, then those of
/// class `i`, then those of the classes after it.
proof fn lemma_last_write_of_classes(classes: Seq<ClientClass>, later: int, key: Seq<char>)
    requires
        0 <= later < classes.len(),
        last_write(class_offset_writes(classes[later]), key) is Some,
        forall|k: int|
            later < k < classes.len() ==> last_write(
                class_offset_writes(#[trigger] classes[k]),
                key,
            ) is None,
    ensures
        last_write(offset_writes(class_records(classes)), key) == last_write(
            class_offset_writes(classes[later]),
            key,
        ),
    decreases classes.len(),
{
    let front = class_records(classes.drop_last());
    let last = classes.last();
    let back = table_records(last.network_name@, last.recv_table, 0);
    assert(offset_writes(front + back) =~= offset_writes(front) + offset_writes(back));
    lemma_last_write_concat(offset_writes(front), offset_writes(back), key);
    if later < classes.len() - 1 {
        assert(classes[classes.len() - 1] == last);
        assert(classes.drop_last()[later] == classes[later]);
        assert forall|k: int| later < k < classes.drop_last().len() implies last_write(
            class_offset_writes(#[trigger] classes.drop_last()[k]),
            key,
        ) is None by {
            assert(classes.drop_last()[k] == classes[k]);
        }
        lemma_last_write_of_classes(classes.drop_last(), later, key);
    }
}

/// Of the classes that store an offset under one key, the one that comes
/// last in the list decides: the table holds the offset that the walk of
/// that class wrote last, whatever the classes before it wrote.
pub proof fn lemma_later_class_wins(classes: Seq<ClientClass>, later: int, key: Seq<char>)
    requires
        0 <= later < classes.len(),
        last_write(class_offset_writes(classes[later]), key) is Some,
        forall|k: int|
            later < k < classes.len() ==> last_write(
                class_offset_writes(#[trigger] classes[k]),
                key,
            ) is None,
    ensures
        scanned_offsets(classes).dom().contains(key),
        scanned_offsets(classes)[key] == last_write(class_offset_writes(classes[later]), key)->0,
{
    lemma_last_write_of_classes(classes, later, key);
    lemma_write_all_last_write(Map::empty(), offset_writes(class_records(classes)), key);
}

/// What the walk of one class stores is among what the pass stores.
pub proof fn lemma_class_records_within(classes: Seq<ClientClass>, c: int, r: NetvarRecord)
    requires
        0 <= c < classes.len(),
        table_records(classes[c].network_name@, classes[c].recv_table, 0).contains(r),
    ensures
        class_records(classes).contains(r),
    decreases classes.len(),
{
    let front = class_records(classes.drop_last());
    let last = classes.last();
    let back = table_records(last.network_name@, last.recv_table, 0);
    if c == classes.len() - 1 {
        let k = choose|k: int| 0 <= k < back.len() && back[k] == r;
        assert((front + back)[front.len() + k] == r);
    } else {
        assert(classes.drop_last()[c] == classes[c]);
        lemma_class_records_within(classes.drop_last(), c, r);
        let k = choose|k: int| 0 <= k < front.len() && front[k] == r;
        assert((front + back)[k] == r);
    }
}

/// In the table of offsets that a pass leaves, a key holds the offset of the
/// last record of the pass that has this key, and a key of no record is not
/// held.
pub proof fn lemma_scan_keeps_last_write(classes: Seq<ClientClass>, key: Seq<char>)
    ensures
        scanned_offsets(classes).dom().contains(key) <==> last_write(
            offset_writes(class_records(classes)),
            key,
        ) is Some,
        scanned_offsets(classes).dom().contains(key) ==> scanned_offsets(classes)[key]
            == last_write(offset_writes(class_records(classes)), key)->0,
{
    lemma_write_all_last_write(Map::empty(), offset_writes(class_records(classes)), key);
}

/// A record whose key no later record of the pass has decides what the two
/// tables hold under its keys: its offset and the address of its descriptor.
pub proof fn lemma_last_record_decides(classes: Seq<ClientClass>, k: int)
    requires
        0 <= k < class_records(classes).len(),
        forall|j: int|
            k < j < class_records(classes).len() ==> (#[trigger] class_records(classes)[j]).key()
                != class_records(classes)[k].key(),
        forall|j: int|
            k < j < class_records(classes).len() ==> (#[trigger] class_records(
                classes,
            )[j]).public_key() != class_records(classes)[k].public_key(),
    ensures
        scanned_offsets(classes)[class_records(classes)[k].public_key()] == class_records(
            classes,
        )[k].offset as usize,
        scanned_props(classes)[class_records(classes)[k].key()] == class_records(classes)[k].prop,
{
    let records = class_records(classes);
    let ow = offset_writes(records);
    let pw = prop_writes(records);
    assert forall|j: int| k < j < ow.len() implies (#[trigger] ow[j]).0 != ow[k].0 by {
        assert(records[j].public_key() != records[k].public_key());
    }
    assert forall|j: int| k < j < pw.len() implies (#[trigger] pw[j]).0 != pw[k].0 by {
        assert(records[j].key() != records[k].key());
    }
    lemma_write_all_last_wins(Map::empty(), ow, k);
    lemma_write_all_last_wins(Map::empty(), pw, k);
}

/// A pass stores every field of an embedded table into which the walk
/// descends: the table of offsets has the key made of the name of the class
/// and the name of the field, and the table of descriptors likewise.
pub proof fn lemma_scan_stores_nested_field(classes: Seq<ClientClass>, c: int, i: int, j: int)
    requires
        0 <= c < classes.len(),
        0 <= i < classes[c].recv_table.props@.len(),
        !is_reserved_name(classes[c].recv_table.props@[i].prop_name@),
        is_flattened(classes[c].recv_table.props@[i]),
        0 <= j < classes[c].recv_table.props@[i].data_table->0.props@.len(),
        !is_reserved_name(classes[c].recv_table.props@[i].data_table->0.props@[j].prop_name@),
    ensures
        scanned_offsets(classes).dom().contains(
            spec_normalize(
                spec_key(
                    classes[c].network_name@,
                    classes[c].recv_table.props@[i].data_table->0.props@[j].prop_name@,
                ),
            ),
        ),
        scanned_props(classes).dom().contains(
            spec_key(
                classes[c].network_name@,
                classes[c].recv_table.props@[i].data_table->0.props@[j].prop_name@,
            ),
        ),
{
    let class = classes[c];
    let outer = class.recv_table.props@[i];
    let leaf = outer.data_table->0.props@[j];
    let r = NetvarRecord {
        group: class.network_name@,
        name: leaf.prop_name@,
        offset: 0 + outer.offset + leaf.offset,
        prop: leaf.address,
    };
    lemma_nested_field_is_recorded(class.network_name@, class.recv_table, 0, i, j);
    lemma_class_records_within(classes, c, r);
    let records = class_records(classes);
    let k = choose|k: int| 0 <= k < records.len() && records[k] == r;
    lemma_recorded_field_is_stored(classes, k);
}

} // verus!
