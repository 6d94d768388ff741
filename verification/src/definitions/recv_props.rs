//! Field tables and field descriptors, as the host publishes them.

use vstd::prelude::*;

verus! {

/// The address of a routine that decodes the value of a field.
pub type RecvVarProxyFn = usize;

/// The type tag of a field.
#[derive(Debug, Copy, Clone, PartialEq, Eq, Structural)]
pub enum EPropType {
    Int,
    Float,
    Vec,
    VecXY,
    String,
    Array,
    DataTable,
    Int64,
}

impl EPropType {
    /// The number that the host writes for this tag.
    pub open spec fn spec_tag(&self) -> i32 {
        match self {
            EPropType::Int => 0,
            EPropType::Float => 1,
            EPropType::Vec => 2,
            EPropType::VecXY => 3,
            EPropType::String => 4,
            EPropType::Array => 5,
            EPropType::DataTable => 6,
            EPropType::Int64 => 7,
        }
    }

    /// The number that the host writes for this tag.
    #[verifier::when_used_as_spec(spec_tag)]
    pub fn tag(&self) -> (n: i32)
        ensures
            n == self.spec_tag(),
    {
        match self {
            EPropType::Int => 0,
            EPropType::Float => 1,
            EPropType::Vec => 2,
            EPropType::VecXY => 3,
            EPropType::String => 4,
            EPropType::Array => 5,
            EPropType::DataTable => 6,
            EPropType::Int64 => 7,
        }
    }

    /// The tag that the host writes as `n`, if `n` is the number of a tag.
    pub fn from_tag(n: i32) -> (t: Option<EPropType>)
        ensures
            t is Some <==> 0 <= n <= 7,
            t is Some ==> t->0.spec_tag() == n,
    {
        match n {
            0 => Some(EPropType::Int),
            1 => Some(EPropType::Float),
            2 => Some(EPropType::Vec),
            3 => Some(EPropType::VecXY),
            4 => Some(EPropType::String),
            5 => Some(EPropType::Array),
            6 => Some(EPropType::DataTable),
            7 => Some(EPropType::Int64),
            _ => None,
        }
    }
}

/// A field table: a named, ordered group of field descriptors.
pub struct CRecvTable {
    /// The descriptors of the table, in the host's order.
    pub props: Vec<CRecvProp>,
    /// The name under which the host exports the table.
    pub table_name: String,
}

/// A field descriptor.
pub struct CRecvProp {
    /// The name of the field.
    pub prop_name: String,
    /// The type tag of the field.
    pub prop_type: EPropType,
    /// The routine that decodes the field's value.
    pub proxy_fn: RecvVarProxyFn,
    /// The table of the embedded object, where the field embeds one.
    pub data_table: Option<Box<CRecvTable>>,
    /// Where the field lies, in bytes from the start of the table that holds it.
    pub offset: usize,
    /// Where the host keeps this descriptor.
    pub address: usize,
}

} // verus!
