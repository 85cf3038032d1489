//! The two stores as the library sees them: the calls it asks for, the
//! replies it understands, and a mathematical model of what a call does.
//!
//! The metadata table and the blob store fail independently and share no
//! transaction. The library never reaches them; it hands out a [`Command`]
//! and is told the [`Reply`].

use vstd::prelude::*;
use crate::record::PhotoRecord;

verus! {

/// One call on one of the two stores. Every call names a single image.
#[derive(Clone, Copy, PartialEq, Eq, Debug, Structural)]
pub enum StoreCall {
    /// Insert the record into the metadata table.
    InsertRecord { record: PhotoRecord },
    /// Look the record of `id` up in the metadata table.
    FindRecord { id: u128 },
    /// Delete the record of `id` from the metadata table.
    DeleteRecord { id: u128 },
    /// Write the bytes of the upload in progress as the blob of `id`.
    WriteBlob { id: u128 },
    /// Delete the blob of `id`.
    DeleteBlob { id: u128 },
}

/// A store call together with the pause owed before it is made.
#[derive(Clone, Copy, PartialEq, Eq, Debug, Structural)]
pub struct Command {
    /// Milliseconds to wait before making the call.
    pub wait_ms: u64,
    /// The call to make.
    pub call: StoreCall,
}

/// What a store answered.
#[derive(Clone, Copy, PartialEq, Eq, Debug, Structural)]
pub enum Reply {
    /// The call was carried out; a lookup found its record.
    Done,
    /// The store was reached and holds nothing under that identifier.
    Missing,
    /// The call failed and changed nothing.
    Failed,
}

impl StoreCall {
    /// The image that the call is about.
    pub open spec fn subject(self) -> u128 {
        match self {
            StoreCall::InsertRecord { record } => record.id,
            StoreCall::FindRecord { id } => id,
            StoreCall::DeleteRecord { id } => id,
            StoreCall::WriteBlob { id } => id,
            StoreCall::DeleteBlob { id } => id,
        }
    }
}

/// The contents of both stores: upload times by image in the metadata
/// table, bytes by image in the blob store.
pub struct Stores {
    pub records: Map<u128, i64>,
    pub blobs: Map<u128, Seq<u8>>,
}

impl Stores {
    /// Whether the metadata table holds exactly this record for its image.
    pub open spec fn holds(self, record: PhotoRecord) -> bool {
        self.records.contains_pair(record.id, record.uploaded_at)
    }

    /// Whether neither store holds anything for `id`.
    pub open spec fn forgot(self, id: u128) -> bool {
        !self.records.contains_key(id) && !self.blobs.contains_key(id)
    }

    /// Whether both stores hold for `id` what `other` holds for it.
    pub open spec fn agrees_on(self, other: Stores, id: u128) -> bool {
        &&& self.records.contains_key(id) == other.records.contains_key(id)
        &&& self.records.contains_key(id) ==> self.records[id] == other.records[id]
        &&& self.blobs.contains_key(id) == other.blobs.contains_key(id)
        &&& self.blobs.contains_key(id) ==> self.blobs[id] == other.blobs[id]
    }

    /// The stores after `call` was answered with `reply`, where `payload`
    /// is what a blob write carries. A failed call changes nothing; a
    /// delete answered `Missing` leaves the entry absent, as it was; an
    /// insert or a write counts only when it is answered `Done`.
    pub open spec fn after(self, call: StoreCall, payload: Seq<u8>, reply: Reply) -> Stores {
        match call {
            StoreCall::InsertRecord { record } => if reply == Reply::Done {
                Stores { records: self.records.insert(record.id, record.uploaded_at), ..self }
            } else {
                self
            },
            StoreCall::FindRecord { id } => self,
            StoreCall::DeleteRecord { id } => if reply != Reply::Failed {
                Stores { records: self.records.remove(id), ..self }
            } else {
                self
            },
            StoreCall::WriteBlob { id } => if reply == Reply::Done {
                Stores { blobs: self.blobs.insert(id, payload), ..self }
            } else {
                self
            },
            StoreCall::DeleteBlob { id } => if reply != Reply::Failed {
                Stores { blobs: self.blobs.remove(id), ..self }
            } else {
                self
            },
        }
    }

    /// Whether stores in this state can give `reply` to `call`: a lookup
    /// finds a record only if it is there and misses it only if it is not,
    /// and a delete reports `Missing` only for what is absent.
    pub open spec fn can_answer(self, call: StoreCall, reply: Reply) -> bool {
        match call {
            StoreCall::FindRecord { id } => {
                &&& reply == Reply::Done ==> self.records.contains_key(id)
                &&& reply == Reply::Missing ==> !self.records.contains_key(id)
            },
            StoreCall::DeleteRecord { id } => reply == Reply::Missing ==> !self.records.contains_key(id),
            StoreCall::DeleteBlob { id } => reply == Reply::Missing ==> !self.blobs.contains_key(id),
            _ => true,
        }
    }
}

/// A call changes nothing but the entries of the image it names. Calls
/// about different images therefore never contend, in whatever order they
/// are made.
pub proof fn call_touches_only_its_image(
    stores: Stores,
    call: StoreCall,
    payload: Seq<u8>,
    reply: Reply,
    other: u128,
)
    requires
        other != call.subject(),
    ensures
        stores.after(call, payload, reply).agrees_on(stores, other),
{
}

} // verus!
