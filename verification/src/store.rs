//! What the record store is asked to do: one put of one item into one table.

use vstd::prelude::*;
use vstd::string::*;
use crate::model::{ContactRecord, StoreError, StoreErrorKind};

verus! {

/// One attribute of a stored item: its name and its string value.
#[derive(Clone, Debug, PartialEq, Eq)]
pub struct Attribute {
    pub name: String,
    pub value: String,
}

impl View for Attribute {
    type V = (Seq<char>, Seq<char>);

    open spec fn view(&self) -> (Seq<char>, Seq<char>) {
        (self.name@, self.value@)
    }
}

/// A write-by-key request: the table, and the item's attributes.
#[derive(Clone, Debug, PartialEq, Eq)]
pub struct PutRequest {
    pub table: String,
    pub item: Vec<Attribute>,
}

/// The attributes under which a record is stored, in order: its key `id`,
/// then `firstName` and `lastName`.
pub open spec fn item_of(id: Seq<char>, first_name: Seq<char>, last_name: Seq<char>) -> Seq<
    (Seq<char>, Seq<char>),
> {
    seq![("id"@, id), ("firstName"@, first_name), ("lastName"@, last_name)]
}

/// The table that records go to where the configuration names no other.
pub fn default_table() -> (table: String)
    ensures
        table@ == "Contacts_SS"@,
{
    String::from_str("Contacts_SS")
}

/// The single put that stores `record` in `table`.
pub fn put_request(table: &str, record: &ContactRecord) -> (req: PutRequest)
    ensures
        req.table@ == table@,
        req.item@.len() == 3,
        forall|i: int|
            0 <= i < 3 ==> (#[trigger] req.item@[i])@ == item_of(
                record.id@,
                record.first_name@,
                record.last_name@,
            )[i],
{
    let mut item: Vec<Attribute> = Vec::new();
    item.push(Attribute { name: String::from_str("id"), value: record.id.clone() });
    item.push(
        Attribute { name: String::from_str("firstName"), value: record.first_name.clone() },
    );
    item.push(Attribute { name: String::from_str("lastName"), value: record.last_name.clone() });
    PutRequest { table: String::from_str(table), item }
}

/// How a write can go wrong, as the backend's client reports it.
#[derive(Clone, Copy, Debug, PartialEq, Eq, Structural)]
pub enum BackendFault {
    /// No answer came within the time allowed.
    TimedOut,
    /// The backend refused the write for the moment: throttling, or a fault
    /// on its side.
    Throttled,
    /// The backend could not be reached.
    Network,
    /// The credentials were missing, wrong, or not allowed to write.
    Denied,
    /// Anything else.
    Other,
}

/// The class of store error that each fault is surfaced as.
pub open spec fn kind_of(fault: BackendFault) -> StoreErrorKind {
    match fault {
        BackendFault::TimedOut => StoreErrorKind::Timeout,
        BackendFault::Throttled => StoreErrorKind::Unavailable,
        BackendFault::Network => StoreErrorKind::Unavailable,
        BackendFault::Denied => StoreErrorKind::Unauthorized,
        BackendFault::Other => StoreErrorKind::Unknown,
    }
}

/// Surfaces a fault of the backend as a store error, with the backend's text
/// kept for the log.
pub fn store_error(fault: BackendFault, detail: String) -> (error: StoreError)
    ensures
        error.kind == kind_of(fault),
        error.detail@ == detail@,
{
    let kind = match fault {
        BackendFault::TimedOut => StoreErrorKind::Timeout,
        BackendFault::Throttled => StoreErrorKind::Unavailable,
        BackendFault::Network => StoreErrorKind::Unavailable,
        BackendFault::Denied => StoreErrorKind::Unauthorized,
        BackendFault::Other => StoreErrorKind::Unknown,
    };
    StoreError { kind, detail }
}

} // verus!
