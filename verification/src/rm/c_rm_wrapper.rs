//! The adapter from the requests of the XA standard to those of a
//! `ResourceManager`.

use crate::flags::{Flags, END_RECOVERY_SCAN, FAIL, JOIN, ONE_PHASE, RESUME, START_RECOVERY_SCAN, SUCCESS, SUSPEND};
use crate::return_code::ReturnCode;
use crate::rm::c_resource_manager::{CExchange, CResourceManager};
use crate::rm::resource_manager::{Exchange, Operation, ResourceManager, Scan};
use crate::rm_error::RmError;
use crate::xa_transaction_id::XaTransactionId;
use vstd::prelude::*;

verus! {

/// Wraps an instance of `CResourceManager` and implements `ResourceManager`.
///
/// For registering an instance of "`YourCResourceManager`" at a transaction manager,
/// just use a `CRmWrapper(YourCResourceManager)`.
///
/// Every request is handed on as the one request of the wrapped resource
/// manager that stands for it, with the flags that tell it apart.
#[derive(Debug)]
pub struct CRmWrapper<T>(pub T);

impl Operation {
    /// The bits of the flags that tell this request apart from the others
    /// that the XA standard makes in the same way.
    pub open spec fn flag_bits(self) -> u32 {
        match self {
            Operation::StartByJoining => JOIN,
            Operation::StartByResuming => RESUME,
            Operation::EndSuccess => SUCCESS,
            Operation::EndFailure => FAIL,
            Operation::EndSuspend => SUSPEND,
            Operation::CommitOnePhase => ONE_PHASE,
            _ => 0,
        }
    }

    /// The flags that tell this request apart from the others that the XA
    /// standard makes in the same way.
    pub fn flags(self) -> (flags: Flags)
        ensures
            flags@ == self.flag_bits(),
    {
        match self {
            Operation::StartByJoining => Flags::join(),
            Operation::StartByResuming => Flags::resume(),
            Operation::EndSuccess => Flags::success(),
            Operation::EndFailure => Flags::fail(),
            Operation::EndSuspend => Flags::suspend(),
            Operation::CommitOnePhase => Flags::one_phase(),
            _ => Flags::default(),
        }
    }
}

impl Scan {
    /// The bits of the flags of a recovery request of this scope.
    pub open spec fn flag_bits(self) -> u32 {
        match self {
            Scan::Whole => START_RECOVERY_SCAN | END_RECOVERY_SCAN,
            Scan::Begin => START_RECOVERY_SCAN,
            Scan::End => END_RECOVERY_SCAN,
        }
    }

    /// The flags of a recovery request of this scope.
    pub fn flags(self) -> (flags: Flags)
        ensures
            flags@ == self.flag_bits(),
    {
        match self {
            Scan::Whole => Flags::start_recovery_scan() | Flags::end_recovery_scan(),
            Scan::Begin => Flags::start_recovery_scan(),
            Scan::End => Flags::end_recovery_scan(),
        }
    }
}

/// The flags of a request tell which request it is: a request of the XA
/// standard that is made with the flags of a request of `ResourceManager`
/// is that request under its name.
pub proof fn lemma_flags_name_the_request(
    op: Operation,
    scan: Scan,
    xid: crate::xa_transaction_id::Xid,
    outcome: Result<ReturnCode, RmError>,
    found: Result<Seq<crate::xa_transaction_id::Xid>, RmError>,
)
    ensures
        (op is Start || op is StartByJoining || op is StartByResuming) ==> (CExchange::Start {
            xid,
            flags: op.flag_bits(),
            outcome,
        }).named() == (Exchange::Branch { op, xid, outcome }),
        (op is EndSuccess || op is EndFailure || op is EndSuspend) ==> (CExchange::End {
            xid,
            flags: op.flag_bits(),
            outcome,
        }).named() == (Exchange::Branch { op, xid, outcome }),
        (op is Commit || op is CommitOnePhase) ==> (CExchange::Commit {
            xid,
            flags: op.flag_bits(),
            outcome,
        }).named() == (Exchange::Branch { op, xid, outcome }),
        (CExchange::Recover { flags: scan.flag_bits(), found }).named() == (Exchange::Recovery {
            scan,
            found,
        }),
{
    lemma_whole_scan_flags();
}

/// The exchanges `requests` as `ResourceManager` names them.
pub open spec fn named_all(requests: Seq<CExchange>) -> Seq<Exchange> {
    requests.map_values(|e: CExchange| e.named())
}

/// One more exchange is one more named exchange.
proof fn lemma_named_push(requests: Seq<CExchange>, e: CExchange)
    ensures
        named_all(requests.push(e)) == named_all(requests).push(e.named()),
{
}

/// What the bits of two flags together are, for the one pair of flags that
/// a request is made with.
proof fn lemma_whole_scan_flags()
    ensures
        START_RECOVERY_SCAN | END_RECOVERY_SCAN == 0x0180_0000u32,
{
    assert(0x0100_0000u32 | 0x0080_0000u32 == 0x0180_0000u32) by (bit_vector);
}

impl<T: CResourceManager> ResourceManager for CRmWrapper<T> {
    open spec fn history(&self) -> Seq<Exchange> {
        named_all(self.0.requests())
    }

    fn start(&mut self, id: &XaTransactionId) -> (r: Result<ReturnCode, RmError>)
        ensures
            final(self).0.requests() == old(self).0.requests().push(
                CExchange::Start { xid: id@, flags: 0, outcome: r },
            ),
    {
        let r = self.0.start(id, Operation::Start.flags());
        proof {
            lemma_named_push(
                old(self).0.requests(),
                CExchange::Start { xid: id@, flags: 0, outcome: r },
            );
        }
        r
    }

    fn start_by_joining(&mut self, id: &XaTransactionId) -> (r: Result<ReturnCode, RmError>)
        ensures
            final(self).0.requests() == old(self).0.requests().push(
                CExchange::Start { xid: id@, flags: JOIN, outcome: r },
            ),
    {
        let r = self.0.start(id, Operation::StartByJoining.flags());
        proof {
            lemma_named_push(
                old(self).0.requests(),
                CExchange::Start { xid: id@, flags: JOIN, outcome: r },
            );
        }
        r
    }

    fn start_by_resuming(&mut self, id: &XaTransactionId) -> (r: Result<ReturnCode, RmError>)
        ensures
            final(self).0.requests() == old(self).0.requests().push(
                CExchange::Start { xid: id@, flags: RESUME, outcome: r },
            ),
    {
        let r = self.0.start(id, Operation::StartByResuming.flags());
        proof {
            lemma_named_push(
                old(self).0.requests(),
                CExchange::Start { xid: id@, flags: RESUME, outcome: r },
            );
        }
        r
    }

    fn end_success(&mut self, id: &XaTransactionId) -> (r: Result<ReturnCode, RmError>)
        ensures
            final(self).0.requests() == old(self).0.requests().push(
                CExchange::End { xid: id@, flags: SUCCESS, outcome: r },
            ),
    {
        let r = self.0.end(id, Operation::EndSuccess.flags());
        proof {
            lemma_named_push(
                old(self).0.requests(),
                CExchange::End { xid: id@, flags: SUCCESS, outcome: r },
            );
        }
        r
    }

    fn end_failure(&mut self, id: &XaTransactionId) -> (r: Result<ReturnCode, RmError>)
        ensures
            final(self).0.requests() == old(self).0.requests().push(
                CExchange::End { xid: id@, flags: FAIL, outcome: r },
            ),
    {
        let r = self.0.end(id, Operation::EndFailure.flags());
        proof {
            lemma_named_push(
                old(self).0.requests(),
                CExchange::End { xid: id@, flags: FAIL, outcome: r },
            );
        }
        r
    }

    fn end_suspend(&mut self, id: &XaTransactionId) -> (r: Result<ReturnCode, RmError>)
        ensures
            final(self).0.requests() == old(self).0.requests().push(
                CExchange::End { xid: id@, flags: SUSPEND, outcome: r },
            ),
    {
        let r = self.0.end(id, Operation::EndSuspend.flags());
        proof {
            lemma_named_push(
                old(self).0.requests(),
                CExchange::End { xid: id@, flags: SUSPEND, outcome: r },
            );
        }
        r
    }

    fn prepare(&mut self, id: &XaTransactionId) -> (r: Result<ReturnCode, RmError>)
        ensures
            final(self).0.requests() == old(self).0.requests().push(
                CExchange::Prepare { xid: id@, outcome: r },
            ),
    {
        let r = self.0.prepare(id);
        proof {
            lemma_named_push(old(self).0.requests(), CExchange::Prepare { xid: id@, outcome: r });
        }
        r
    }

    fn commit(&mut self, id: &XaTransactionId) -> (r: Result<ReturnCode, RmError>)
        ensures
            final(self).0.requests() == old(self).0.requests().push(
                CExchange::Commit { xid: id@, flags: 0, outcome: r },
            ),
    {
        let r = self.0.commit(id, Operation::Commit.flags());
        proof {
            lemma_named_push(
                old(self).0.requests(),
                CExchange::Commit { xid: id@, flags: 0, outcome: r },
            );
        }
        r
    }

    fn commit_one_phase(&mut self, id: &XaTransactionId) -> (r: Result<ReturnCode, RmError>)
        ensures
            final(self).0.requests() == old(self).0.requests().push(
                CExchange::Commit { xid: id@, flags: ONE_PHASE, outcome: r },
            ),
    {
        let r = self.0.commit(id, Operation::CommitOnePhase.flags());
        proof {
            lemma_named_push(
                old(self).0.requests(),
                CExchange::Commit { xid: id@, flags: ONE_PHASE, outcome: r },
            );
        }
        r
    }

    fn rollback(&mut self, id: &XaTransactionId) -> (r: Result<ReturnCode, RmError>)
        ensures
            final(self).0.requests() == old(self).0.requests().push(
                CExchange::Rollback { xid: id@, outcome: r },
            ),
    {
        let r = self.0.rollback(id);
        proof {
            lemma_named_push(old(self).0.requests(), CExchange::Rollback { xid: id@, outcome: r });
        }
        r
    }

    fn forget(&mut self, id: &XaTransactionId) -> (r: Result<ReturnCode, RmError>)
        ensures
            final(self).0.requests() == old(self).0.requests().push(
                CExchange::Forget { xid: id@, outcome: r },
            ),
    {
        let r = self.0.forget(id);
        proof {
            lemma_named_push(old(self).0.requests(), CExchange::Forget { xid: id@, outcome: r });
        }
        r
    }

    fn recover(&mut self) -> (r: Result<Vec<XaTransactionId>, RmError>)
        ensures
            final(self).0.requests() == old(self).0.requests().push(
                CExchange::Recover {
                    flags: START_RECOVERY_SCAN | END_RECOVERY_SCAN,
                    found: crate::rm::resource_manager::found(r),
                },
            ),
    {
        let r = self.0.recover(Scan::Whole.flags());
        proof {
            lemma_whole_scan_flags();
            lemma_named_push(
                old(self).0.requests(),
                CExchange::Recover {
                    flags: START_RECOVERY_SCAN | END_RECOVERY_SCAN,
                    found: crate::rm::resource_manager::found(r),
                },
            );
        }
        r
    }

    fn begin_recover(&mut self) -> (r: Result<Vec<XaTransactionId>, RmError>)
        ensures
            final(self).0.requests() == old(self).0.requests().push(
                CExchange::Recover {
                    flags: START_RECOVERY_SCAN,
                    found: crate::rm::resource_manager::found(r),
                },
            ),
    {
        let r = self.0.recover(Scan::Begin.flags());
        proof {
            lemma_named_push(
                old(self).0.requests(),
                CExchange::Recover {
                    flags: START_RECOVERY_SCAN,
                    found: crate::rm::resource_manager::found(r),
                },
            );
        }
        r
    }

    fn end_recover(&mut self) -> (r: Result<Vec<XaTransactionId>, RmError>)
        ensures
            final(self).0.requests() == old(self).0.requests().push(
                CExchange::Recover {
                    flags: END_RECOVERY_SCAN,
                    found: crate::rm::resource_manager::found(r),
                },
            ),
    {
        let r = self.0.recover(Scan::End.flags());
        proof {
            lemma_named_push(
                old(self).0.requests(),
                CExchange::Recover {
                    flags: END_RECOVERY_SCAN,
                    found: crate::rm::resource_manager::found(r),
                },
            );
        }
        r
    }
}

} // verus!
