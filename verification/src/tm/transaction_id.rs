//! A transaction id that keeps the NULL id apart from the others.

use crate::tm::tm_error::TmError;
use crate::xa_transaction_id::{describe_parts, encode, Xid};
use vstd::prelude::*;

verus! {

/// Maximum allowed value for `format_id`.
pub const MAX_FORMAT_ID: u32 = 0x7FFF_FFFF;

/// maximum size in bytes of `TransactionId::global_ta`
pub const MAX_GTRID_SIZE: usize = 64;

/// maximum size in bytes of `TransactionId::branch_qualifier`
pub const MAX_BQUAL_SIZE: usize = 64;

/// The three components of a transaction id that is not NULL.
#[derive(Debug)]
struct Tid {
    format_id: u32,
    global_ta: Vec<u8>,
    branch_qualifier: Vec<u8>,
}

/// The ID of a distributed transaction, analogous to the
/// [X/Open XA standard](http://pubs.opengroup.org/onlinepubs/009680699/toc.pdf).
///
/// It is either NULL or made of a format id that is not negative and two
/// byte sequences of at most 64 bytes each.
#[derive(Debug)]
pub struct TransactionId {
    id: Option<Tid>,
}

/// Why these three components do not make a transaction id, if they do not:
/// the first of the three bounds that is broken.
pub open spec fn rejection(format_id: u32, global_len: nat, branch_len: nat) -> Option<TmError> {
    if format_id > MAX_FORMAT_ID {
        Some(TmError::Usage("Bad XA transaction id: invalid format-id"))
    } else if global_len > MAX_GTRID_SIZE {
        Some(TmError::Usage("Bad XA transaction id: invalid global ta id (too long)"))
    } else if branch_len > MAX_BQUAL_SIZE {
        Some(TmError::Usage("Bad XA transaction id: invalid branch_qualifier (too long)"))
    } else {
        None
    }
}

impl View for TransactionId {
    type V = Xid;

    closed spec fn view(&self) -> Xid {
        match self.id {
            None => Xid::null(),
            Some(tid) => Xid {
                format_id: tid.format_id as int,
                global_tid: tid.global_ta@,
                branch_qualifier: tid.branch_qualifier@,
            },
        }
    }
}

impl Clone for TransactionId {
    fn clone(&self) -> (copy: TransactionId)
        ensures
            copy@ == self@,
    {
        proof {
            use_type_invariant(self);
        }
        match &self.id {
            None => TransactionId { id: None },
            Some(tid) => TransactionId {
                id: Some(
                    Tid {
                        format_id: tid.format_id,
                        global_ta: tid.global_ta.clone(),
                        branch_qualifier: tid.branch_qualifier.clone(),
                    },
                ),
            },
        }
    }
}

impl TransactionId {
    #[verifier::type_invariant]
    spec fn within_bounds(&self) -> bool {
        match self.id {
            None => true,
            Some(tid) => {
                &&& tid.format_id <= MAX_FORMAT_ID
                &&& tid.global_ta@.len() <= MAX_GTRID_SIZE
                &&& tid.branch_qualifier@.len() <= MAX_BQUAL_SIZE
            },
        }
    }

    /// Creates an instance of `TransactionId` from the three components format_id, global_ta, and
    /// branch_qualifier.
    ///
    /// Note that the lengths of the binary parameters must not exceed 64.
    pub fn new(format_id: u32, global_ta: Vec<u8>, branch_qualifier: Vec<u8>) -> (r: Result<
        TransactionId,
        TmError,
    >)
        ensures
            match rejection(format_id, global_ta@.len(), branch_qualifier@.len()) {
                Some(e) => r == Err::<TransactionId, TmError>(e),
                None => r is Ok && r->Ok_0@ == (Xid {
                    format_id: format_id as int,
                    global_tid: global_ta@,
                    branch_qualifier: branch_qualifier@,
                }),
            },
    {
        if format_id > MAX_FORMAT_ID {
            Err(TmError::Usage("Bad XA transaction id: invalid format-id"))
        } else if global_ta.len() > MAX_GTRID_SIZE {
            Err(TmError::Usage("Bad XA transaction id: invalid global ta id (too long)"))
        } else if branch_qualifier.len() > MAX_BQUAL_SIZE {
            Err(TmError::Usage("Bad XA transaction id: invalid branch_qualifier (too long)"))
        } else {
            Ok(TransactionId { id: Some(Tid { format_id, global_ta, branch_qualifier }) })
        }
    }

    /// Creates an instance of `TransactionId` that represents NULL.
    pub fn null() -> (id: TransactionId)
        ensures
            id@ == Xid::null(),
    {
        TransactionId { id: None }
    }

    /// Returns the format-id: -1 for NULL.
    pub fn get_format_id(&self) -> (format_id: i32)
        ensures
            format_id == self@.format_id,
            format_id >= -1,
    {
        proof {
            use_type_invariant(self);
        }
        match &self.id {
            None => -1,
            Some(tid) => tid.format_id as i32,
        }
    }

    /// Returns a clone of the global transaction id, or None (for a NULL-instance).
    pub fn get_global_ta(&self) -> (global_ta: Option<Vec<u8>>)
        ensures
            global_ta is None <==> self@.format_id == -1,
            global_ta matches Some(bytes) ==> bytes@ == self@.global_tid,
    {
        match &self.id {
            None => None,
            Some(tid) => Some(tid.global_ta.clone()),
        }
    }

    /// Returns a clone of the branch qualifier, or None (for a NULL-instance).
    pub fn get_branch_qualifier(&self) -> (branch_qualifier: Option<Vec<u8>>)
        ensures
            branch_qualifier is None <==> self@.format_id == -1,
            branch_qualifier matches Some(bytes) ==> bytes@ == self@.branch_qualifier,
    {
        match &self.id {
            None => None,
            Some(tid) => Some(tid.branch_qualifier.clone()),
        }
    }

    /// Provides a binary representation.
    /// If padding is true, and the combined length of the binary fields is below 128 bytes,
    /// the missing number of zero bytes are appended to make the byte pattern compatible with
    /// the XA structure in C.
    ///
    /// # Errors
    ///
    /// None: the result is always `Ok`.
    pub fn as_bytes(&self, padding: bool) -> (r: Result<Vec<u8>, std::io::Error>)
        ensures
            r is Ok,
            r->Ok_0@ == self@.encoding(padding),
            r->Ok_0@.len() == self@.encoded_len(padding),
    {
        proof {
            use_type_invariant(self);
            crate::xa_transaction_id::lemma_encoding_len(self@, padding);
        }
        match &self.id {
            None => {
                let none = Vec::new();
                Ok(encode(-1, &none, &none, padding))
            },
            Some(tid) => Ok(
                encode(tid.format_id as i32, &tid.global_ta, &tid.branch_qualifier, padding),
            ),
        }
    }

    /// A description of the id for messages: `TransactionId {NULL}` for
    /// the NULL id, and otherwise the three components by their names, the
    /// format id as a decimal and each byte sequence as a list of decimals.
    pub fn describe(&self) -> (text: String)
        ensures
            text@ == self@.description("TransactionId"@, "global_ta"@),
    {
        proof {
            use_type_invariant(self);
        }
        match &self.id {
            None => {
                let none = Vec::new();
                describe_parts("TransactionId", "global_ta", -1, &none, &none)
            },
            Some(tid) => describe_parts(
                "TransactionId",
                "global_ta",
                tid.format_id as i32,
                &tid.global_ta,
                &tid.branch_qualifier,
            ),
        }
    }
}

} // verus!
