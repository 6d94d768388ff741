use sdk::definitions::recv_props::{CRecvProp, CRecvTable, EPropType};
use sdk::interfaces::client::ClientClass;
use sdk::netvar::hook::find_prop;
use sdk::netvar::manager::{offsets_fit, scan, store_props, table_offsets_fit};
use sdk::netvar::{get_offset, make_key, normalize_key, NetVars};
use sdk::utils::error::{Error, ErrorKind};

fn leaf(name: &str, offset: usize, address: usize) -> CRecvProp {
    CRecvProp {
        prop_name: name.to_string(),
        prop_type: EPropType::Int,
        proxy_fn: 0,
        data_table: None,
        offset,
        address,
    }
}

fn embedded(name: &str, offset: usize, address: usize, table: CRecvTable) -> CRecvProp {
    CRecvProp {
        prop_name: name.to_string(),
        prop_type: EPropType::DataTable,
        proxy_fn: 0,
        data_table: Some(Box::new(table)),
        offset,
        address,
    }
}

fn table(name: &str, props: Vec<CRecvProp>) -> CRecvTable {
    CRecvTable { props, table_name: name.to_string() }
}

fn class(name: &str, props: Vec<CRecvProp>) -> ClientClass {
    ClientClass { network_name: name.to_string(), recv_table: table("DT_Root", props), class_id: 1 }
}

fn scanned(classes: &Vec<ClientClass>) -> NetVars {
    assert!(offsets_fit(classes));
    let mut netvars = NetVars::new();
    assert!(scan(&mut netvars, classes).is_ok());
    netvars
}

#[test]
fn leaf_field_is_found_at_its_offset() {
    let netvars = scanned(&vec![class("DT_Player", vec![leaf("m_iHealth", 0x100, 0x5000)])]);
    assert_eq!(get_offset(&netvars, "DT_Player", "m_iHealth"), 0x100);
    assert_eq!(netvars.find_offset("DT_Player", "m_iHealth"), Some(0x100));
    assert_eq!(find_prop(&netvars, "DT_Player->m_iHealth"), Some(0x5000));
}

#[test]
fn nested_table_is_flattened_additively() {
    let inner = table("DCollision", vec![leaf("m_vec", 0x8, 0x6000)]);
    let netvars =
        scanned(&vec![class("DT_Player", vec![embedded("m_Collision", 0x14, 0x5000, inner)])]);
    assert_eq!(get_offset(&netvars, "DT_Player", "m_vec"), 0x1C);
    assert_eq!(find_prop(&netvars, "DT_Player->m_vec"), Some(0x6000));
}

#[test]
fn embedding_field_is_stored_beside_its_fields() {
    let inner = table("DCollision", vec![leaf("m_vec", 0x8, 0x6000)]);
    let netvars =
        scanned(&vec![class("DT_Player", vec![embedded("m_Collision", 0x14, 0x5000, inner)])]);
    assert_eq!(netvars.find_offset("DT_Player", "m_Collision"), Some(0x14));
    assert_eq!(find_prop(&netvars, "DT_Player->m_Collision"), Some(0x5000));
    assert_eq!(netvars.offsets.len(), 2);
    assert_eq!(netvars.props.len(), 2);
}

#[test]
fn offsets_add_up_over_three_levels() {
    let deepest = table("DT_Deep", vec![leaf("m_z", 0x4, 0x7000)]);
    let middle = table("DT_Mid", vec![embedded("m_mid", 0x20, 0x6000, deepest)]);
    let netvars =
        scanned(&vec![class("DT_Player", vec![embedded("m_top", 0x300, 0x5000, middle)])]);
    assert_eq!(netvars.find_offset("DT_Player", "m_z"), Some(0x324));
    assert_eq!(netvars.find_offset("DT_Player", "m_mid"), Some(0x320));
    assert_eq!(netvars.find_offset("DT_Player", "m_top"), Some(0x300));
}

#[test]
fn table_without_the_sentinel_is_not_flattened() {
    let inner = table("XCollision", vec![leaf("m_vec", 0x8, 0x6000)]);
    let netvars =
        scanned(&vec![class("DT_Player", vec![embedded("m_Collision", 0x14, 0x5000, inner)])]);
    assert_eq!(netvars.find_offset("DT_Player", "m_vec"), None);
    assert_eq!(get_offset(&netvars, "DT_Player", "m_vec"), 0);
    assert_eq!(find_prop(&netvars, "DT_Player->m_vec"), None);
    assert_eq!(netvars.find_offset("DT_Player", "m_Collision"), Some(0x14));
}

#[test]
fn table_with_an_empty_name_is_not_flattened() {
    let inner = table("", vec![leaf("m_vec", 0x8, 0x6000)]);
    let netvars =
        scanned(&vec![class("DT_Player", vec![embedded("m_Collision", 0x14, 0x5000, inner)])]);
    assert_eq!(netvars.find_offset("DT_Player", "m_vec"), None);
}

#[test]
fn embedded_table_of_another_type_is_not_flattened() {
    let inner = table("DCollision", vec![leaf("m_vec", 0x8, 0x6000)]);
    let mut holder = embedded("m_Collision", 0x14, 0x5000, inner);
    holder.prop_type = EPropType::Array;
    let netvars = scanned(&vec![class("DT_Player", vec![holder])]);
    assert_eq!(netvars.find_offset("DT_Player", "m_vec"), None);
    assert_eq!(netvars.find_offset("DT_Player", "m_Collision"), Some(0x14));
}

#[test]
fn reserved_names_are_never_stored() {
    let parent = table("DT_Base", vec![leaf("m_inherited", 0x10, 0x6000)]);
    let netvars = scanned(&vec![class(
        "DT_Player",
        vec![
            leaf("0", 0x4, 0x5000),
            leaf("1", 0x8, 0x5010),
            leaf("007", 0xC, 0x5020),
            embedded("baseclass", 0, 0x5030, parent),
            leaf("m_iHealth", 0x100, 0x5040),
        ],
    )]);
    for name in ["0", "1", "007", "baseclass", "m_inherited"] {
        assert_eq!(netvars.find_offset("DT_Player", name), None);
        assert_eq!(find_prop(&netvars, make_key("DT_Player", name).as_str()), None);
    }
    assert_eq!(netvars.offsets.len(), 1);
    assert_eq!(netvars.props.len(), 1);
    assert_eq!(netvars.find_offset("DT_Player", "m_iHealth"), Some(0x100));
}

#[test]
fn name_with_a_digit_inside_is_stored() {
    let netvars = scanned(&vec![class("DT_Player", vec![leaf("m_hViewModel[0]", 0x30, 0x5000)])]);
    assert_eq!(netvars.find_offset("DT_Player", "m_hViewModel[0]"), Some(0x30));
}

#[test]
fn field_without_a_name_is_stored() {
    let netvars = scanned(&vec![class("DT_Player", vec![leaf("", 0x30, 0x5000)])]);
    assert_eq!(netvars.find_offset("DT_Player", ""), Some(0x30));
}

#[test]
fn later_class_overwrites_an_equal_key() {
    let netvars = scanned(&vec![
        class("DT_Player", vec![leaf("m_iHealth", 0x100, 0x5000)]),
        class("CPlayer", vec![leaf("m_iHealth", 0x200, 0x6000)]),
    ]);
    assert_eq!(get_offset(&netvars, "DT_Player", "m_iHealth"), 0x200);
    assert_eq!(netvars.offsets.len(), 1);
    let swapped = scanned(&vec![
        class("CPlayer", vec![leaf("m_iHealth", 0x200, 0x6000)]),
        class("DT_Player", vec![leaf("m_iHealth", 0x100, 0x5000)]),
    ]);
    assert_eq!(get_offset(&swapped, "DT_Player", "m_iHealth"), 0x100);
}

#[test]
fn later_field_overwrites_an_equal_key_within_a_class() {
    let inner = table("DT_Inner", vec![leaf("m_x", 0x8, 0x6000)]);
    let netvars = scanned(&vec![class(
        "DT_Player",
        vec![leaf("m_x", 0x4, 0x5000), embedded("m_inner", 0x40, 0x5010, inner)],
    )]);
    assert_eq!(get_offset(&netvars, "DT_Player", "m_x"), 0x48);
    assert_eq!(find_prop(&netvars, "DT_Player->m_x"), Some(0x6000));
}

#[test]
fn class_name_is_rewritten_to_a_table_name() {
    let netvars = scanned(&vec![class("CBasePlayer", vec![leaf("m_iHealth", 0x100, 0x5000)])]);
    assert_eq!(get_offset(&netvars, "DT_BasePlayer", "m_iHealth"), 0x100);
    assert_eq!(netvars.find_offset("CBasePlayer", "m_iHealth"), None);
    assert_eq!(find_prop(&netvars, "CBasePlayer->m_iHealth"), Some(0x5000));
    assert_eq!(find_prop(&netvars, "DT_BasePlayer->m_iHealth"), None);
}

#[test]
fn only_a_leading_mark_is_rewritten() {
    assert_eq!(normalize_key("CBaseViewModel->m_nSequence"), "DT_BaseViewModel->m_nSequence");
    assert_eq!(normalize_key("DT_Player->m_Collision"), "DT_Player->m_Collision");
    assert_eq!(normalize_key("C"), "DT_");
    assert_eq!(normalize_key(""), "");
    assert_eq!(normalize_key("Ünit->C"), "Ünit->C");
    assert_eq!(make_key("DT_Player", "m_iHealth"), "DT_Player->m_iHealth");
}

#[test]
fn empty_list_is_a_null_registry() {
    let classes: Vec<ClientClass> = Vec::new();
    let mut netvars = scanned(&vec![class("DT_Player", vec![leaf("m_iHealth", 0x100, 0x5000)])]);
    match scan(&mut netvars, &classes) {
        Err(error) => {
            assert_eq!(error.kind(), ErrorKind::Null);
            assert!(matches!(&error, Error::Null { item } if item == "ClientClass"));
            assert_eq!(error.message(), "ClientClass is null.");
        }
        Ok(()) => panic!("an empty list must be reported as a null pointer"),
    }
    assert_eq!(get_offset(&netvars, "DT_Player", "m_iHealth"), 0x100);
}

#[test]
fn list_without_fields_is_an_incomplete_discovery() {
    let classes = vec![class("DT_Player", vec![]), class("DT_Other", vec![leaf("0", 0, 0x5000)])];
    let mut netvars = NetVars::new();
    match scan(&mut netvars, &classes) {
        Err(error) => {
            assert_eq!(error.kind(), ErrorKind::Unknown);
            assert!(
                matches!(&error, Error::Unknown { message } if message == "Failed to scan NetVars.")
            );
            assert_eq!(error.message(), "unknown error: Failed to scan NetVars.");
        }
        Ok(()) => panic!("a pass that stores nothing must fail"),
    }
    assert!(netvars.offsets.is_empty());
    assert!(netvars.props.is_empty());
}

#[test]
fn failed_second_pass_leaves_the_first() {
    let mut netvars = scanned(&vec![class("DT_Player", vec![leaf("m_iHealth", 0x100, 0x5000)])]);
    let nothing = vec![class("DT_Weapon", vec![leaf("0", 0x40, 0x7000)])];
    match scan(&mut netvars, &nothing) {
        Err(error) => assert_eq!(error.kind(), ErrorKind::Unknown),
        Ok(()) => panic!("a pass that stores nothing must fail"),
    }
    assert_eq!(netvars.find_offset("DT_Player", "m_iHealth"), Some(0x100));
    assert_eq!(find_prop(&netvars, "DT_Player->m_iHealth"), Some(0x5000));
    assert_eq!(netvars.offsets.len(), 1);
    assert_eq!(netvars.props.len(), 1);
    assert!(scan(&mut netvars, &Vec::new()).is_err());
    assert_eq!(netvars.find_offset("DT_Player", "m_iHealth"), Some(0x100));
}

#[test]
fn second_pass_replaces_the_first() {
    let mut netvars = scanned(&vec![class("DT_Player", vec![leaf("m_iHealth", 0x100, 0x5000)])]);
    let next = vec![class("DT_Weapon", vec![leaf("m_iClip1", 0x40, 0x7000)])];
    assert!(scan(&mut netvars, &next).is_ok());
    assert_eq!(netvars.find_offset("DT_Player", "m_iHealth"), None);
    assert_eq!(netvars.find_offset("DT_Weapon", "m_iClip1"), Some(0x40));
    assert_eq!(find_prop(&netvars, "DT_Player->m_iHealth"), None);
}

#[test]
fn unknown_field_has_the_offset_zero() {
    let netvars = scanned(&vec![class("DT_Player", vec![leaf("m_first", 0, 0x5000)])]);
    assert_eq!(get_offset(&netvars, "DT_Player", "m_missing"), 0);
    assert_eq!(netvars.find_offset("DT_Player", "m_missing"), None);
    assert_eq!(get_offset(&netvars, "DT_Player", "m_first"), 0);
    assert_eq!(netvars.find_offset("DT_Player", "m_first"), Some(0));
}

#[test]
fn offsets_that_leave_the_machine_word_do_not_fit() {
    let inner = table("DT_Inner", vec![leaf("m_x", 2, 0x6000)]);
    let classes = vec![class("DT_Player", vec![embedded("m_inner", usize::MAX - 1, 0x5000, inner)])];
    assert!(!offsets_fit(&classes));
    let shallow = table("DT_Inner", vec![leaf("m_x", 1, 0x6000)]);
    let fitting =
        vec![class("DT_Player", vec![embedded("m_inner", usize::MAX - 1, 0x5000, shallow)])];
    let netvars = scanned(&fitting);
    assert_eq!(netvars.find_offset("DT_Player", "m_x"), Some(usize::MAX));
    let reserved = table("DT_Root", vec![leaf("0", usize::MAX, 0x5000)]);
    assert!(table_offsets_fit(&reserved, 1));
    let plain = table("DT_Root", vec![leaf("m_x", usize::MAX, 0x5000)]);
    assert!(!table_offsets_fit(&plain, 1));
}

#[test]
fn walk_adds_to_what_the_tables_hold() {
    let mut netvars = NetVars::new();
    let first = table("DT_Root", vec![leaf("m_a", 0x10, 0x5000)]);
    let second = table("DT_Root", vec![leaf("m_b", 0x20, 0x6000)]);
    store_props(&mut netvars, "DT_Player", &first, 0);
    store_props(&mut netvars, "DT_Player", &second, 0x100);
    assert_eq!(netvars.find_offset("DT_Player", "m_a"), Some(0x10));
    assert_eq!(netvars.find_offset("DT_Player", "m_b"), Some(0x120));
}

#[test]
fn type_tags_have_the_numbers_of_the_host() {
    let tags = [
        EPropType::Int,
        EPropType::Float,
        EPropType::Vec,
        EPropType::VecXY,
        EPropType::String,
        EPropType::Array,
        EPropType::DataTable,
        EPropType::Int64,
    ];
    for (number, tag) in tags.iter().enumerate() {
        assert_eq!(tag.tag(), number as i32);
        assert_eq!(EPropType::from_tag(number as i32), Some(*tag));
    }
    assert_eq!(EPropType::from_tag(8), None);
    assert_eq!(EPropType::from_tag(-1), None);
}
