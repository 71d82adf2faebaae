use dist_tx::rm::{
    perform, CHistory, CResourceManager, CRmWrapper, History, Operation, ResourceManager,
};
use dist_tx::tm::simple_transaction_manager::{identity_from_hash, new_xatid};
use dist_tx::tm::{SimpleTransactionManager, Status, TransactionManager, FORMAT_ID};
use dist_tx::{ErrorCode, Flags, ReturnCode, RmError, XaError, XaTransactionId};
use std::cell::RefCell;
use std::rc::Rc;

/// What a resource manager was asked: the request and the three components
/// of the id.
#[derive(Clone, Debug, PartialEq)]
struct Asked {
    op: &'static str,
    format_id: i32,
    global_tid: Vec<u8>,
    branch_qualifier: Vec<u8>,
}

type Log = Rc<RefCell<Vec<Asked>>>;

/// A resource manager that writes down what it is asked, and fails the
/// requests it was told to fail.
struct FakeRm {
    name: &'static str,
    log: Log,
    always: Vec<&'static str>,
    times: Vec<(&'static str, u32)>,
    recovered: Option<Vec<XaTransactionId>>,
}

impl FakeRm {
    fn new(name: &'static str) -> (FakeRm, Log) {
        let log: Log = Rc::new(RefCell::new(Vec::new()));
        let rm = FakeRm {
            name,
            log: log.clone(),
            always: Vec::new(),
            times: Vec::new(),
            recovered: Some(Vec::new()),
        };
        (rm, log)
    }

    fn sharing(name: &'static str, log: &Log, ops: &[&'static str]) -> FakeRm {
        let (mut rm, _) = FakeRm::new(name);
        rm.log = log.clone();
        rm.always = ops.to_vec();
        rm
    }

    fn failing(name: &'static str, ops: &[&'static str]) -> (FakeRm, Log) {
        let (mut rm, log) = FakeRm::new(name);
        rm.always = ops.to_vec();
        (rm, log)
    }

    fn failing_once(name: &'static str, op: &'static str) -> (FakeRm, Log) {
        let (mut rm, log) = FakeRm::new(name);
        rm.times = vec![(op, 1)];
        (rm, log)
    }

    fn answer(&mut self, op: &'static str, id: &XaTransactionId) -> Result<ReturnCode, RmError> {
        self.log.borrow_mut().push(Asked {
            op,
            format_id: id.get_format_id(),
            global_tid: id.get_global_tid().clone(),
            branch_qualifier: id.get_branch_qualifier().clone(),
        });
        let mut fails = self.always.contains(&op);
        for (failing, left) in self.times.iter_mut() {
            if *failing == op && *left > 0 {
                *left -= 1;
                fails = true;
            }
        }
        if fails {
            Err(RmError::new(ErrorCode::RmFailure, format!("{} failed by {}", op, self.name)))
        } else {
            Ok(ReturnCode::Okay)
        }
    }

    fn scan(&mut self, op: &'static str) -> Result<Vec<XaTransactionId>, RmError> {
        self.log.borrow_mut().push(Asked {
            op,
            format_id: 0,
            global_tid: Vec::new(),
            branch_qualifier: Vec::new(),
        });
        match &self.recovered {
            Some(ids) => Ok(ids.clone()),
            None => Err(RmError::new(ErrorCode::RmFailure, format!("{} failed by {}", op, self.name))),
        }
    }
}

impl ResourceManager for FakeRm {
    fn history(&self) -> History {
        unreachable!()
    }

    fn start(&mut self, id: &XaTransactionId) -> Result<ReturnCode, RmError> {
        self.answer("start", id)
    }

    fn start_by_joining(&mut self, id: &XaTransactionId) -> Result<ReturnCode, RmError> {
        self.answer("start_by_joining", id)
    }

    fn start_by_resuming(&mut self, id: &XaTransactionId) -> Result<ReturnCode, RmError> {
        self.answer("start_by_resuming", id)
    }

    fn end_success(&mut self, id: &XaTransactionId) -> Result<ReturnCode, RmError> {
        self.answer("end_success", id)
    }

    fn end_failure(&mut self, id: &XaTransactionId) -> Result<ReturnCode, RmError> {
        self.answer("end_failure", id)
    }

    fn end_suspend(&mut self, id: &XaTransactionId) -> Result<ReturnCode, RmError> {
        self.answer("end_suspend", id)
    }

    fn prepare(&mut self, id: &XaTransactionId) -> Result<ReturnCode, RmError> {
        self.answer("prepare", id)
    }

    fn commit(&mut self, id: &XaTransactionId) -> Result<ReturnCode, RmError> {
        self.answer("commit", id)
    }

    fn commit_one_phase(&mut self, id: &XaTransactionId) -> Result<ReturnCode, RmError> {
        self.answer("commit_one_phase", id)
    }

    fn rollback(&mut self, id: &XaTransactionId) -> Result<ReturnCode, RmError> {
        self.answer("rollback", id)
    }

    fn forget(&mut self, id: &XaTransactionId) -> Result<ReturnCode, RmError> {
        self.answer("forget", id)
    }

    fn recover(&mut self) -> Result<Vec<XaTransactionId>, RmError> {
        self.scan("recover")
    }

    fn begin_recover(&mut self) -> Result<Vec<XaTransactionId>, RmError> {
        self.scan("begin_recover")
    }

    fn end_recover(&mut self) -> Result<Vec<XaTransactionId>, RmError> {
        self.scan("end_recover")
    }
}

/// A resource manager in the form of the XA standard that writes down the
/// requests with their flags.
struct FakeCRm {
    log: Rc<RefCell<Vec<(&'static str, u32)>>>,
}

impl CResourceManager for FakeCRm {
    fn requests(&self) -> CHistory {
        unreachable!()
    }

    fn start(&mut self, _id: &XaTransactionId, flag: Flags) -> Result<ReturnCode, RmError> {
        self.log.borrow_mut().push(("start", flag.bits()));
        Ok(ReturnCode::Okay)
    }

    fn end(&mut self, _id: &XaTransactionId, flag: Flags) -> Result<ReturnCode, RmError> {
        self.log.borrow_mut().push(("end", flag.bits()));
        Ok(ReturnCode::Okay)
    }

    fn prepare(&mut self, _id: &XaTransactionId) -> Result<ReturnCode, RmError> {
        self.log.borrow_mut().push(("prepare", 0));
        Ok(ReturnCode::ReadOnlyCommitted)
    }

    fn commit(&mut self, _id: &XaTransactionId, flag: Flags) -> Result<ReturnCode, RmError> {
        self.log.borrow_mut().push(("commit", flag.bits()));
        Ok(ReturnCode::Okay)
    }

    fn rollback(&mut self, _id: &XaTransactionId) -> Result<ReturnCode, RmError> {
        self.log.borrow_mut().push(("rollback", 0));
        Err(RmError::new(ErrorCode::ProtocolError, String::from("no rollback")))
    }

    fn forget(&mut self, _id: &XaTransactionId) -> Result<ReturnCode, RmError> {
        self.log.borrow_mut().push(("forget", 0));
        Ok(ReturnCode::Okay)
    }

    fn recover(&mut self, flag: Flags) -> Result<Vec<XaTransactionId>, RmError> {
        self.log.borrow_mut().push(("recover", flag.bits()));
        Ok(vec![XaTransactionId::null_ta()])
    }
}

fn ops(log: &Log) -> Vec<&'static str> {
    log.borrow().iter().map(|a| a.op).collect()
}

fn le(n: u64) -> Vec<u8> {
    n.to_le_bytes().to_vec()
}

fn descriptions(errors: &[RmError]) -> Vec<String> {
    errors.iter().map(|e| e.get_description()).collect()
}

/// The identity of the transaction manager with the name `name`, as the
/// ids of its branches show it.
fn identity_of(name: &str) -> Vec<u8> {
    let mut tm = SimpleTransactionManager::<FakeRm>::new(name);
    let (rm, log) = FakeRm::new("probe");
    tm.register(rm, 0, false).unwrap();
    tm.start_transaction().unwrap();
    let identity = log.borrow()[0].branch_qualifier[..8].to_vec();
    identity
}

#[test]
fn a_new_transaction_manager_is_idle() {
    let mut tm = SimpleTransactionManager::<FakeRm>::new("XA Demo");
    assert_eq!(tm.name(), "XA Demo");
    assert_eq!(tm.get_status().unwrap(), Status::Idle);
    assert_eq!(tm.get_gtid(), None);
}

#[test]
fn the_identity_leaves_the_lowest_byte_free() {
    assert_eq!(identity_from_hash(0x1234_5678_9abc_deff), 0x1234_5678_9abc_de00);
    assert_eq!(identity_from_hash(0xff), 0);
    assert_eq!(identity_from_hash(u64::MAX), 0xffff_ffff_ffff_ff00);
    assert_eq!(identity_from_hash(0x100), 0x100);
    assert_eq!(identity_of("T")[0], 0);
    assert_eq!(identity_of("another name")[0], 0);
}

#[test]
fn the_identity_comes_from_the_name() {
    assert_eq!(identity_of("T"), identity_of("T"));
    assert_ne!(identity_of("T"), identity_of("U"));
    assert_ne!(identity_of("T"), vec![0; 8]);
}

#[test]
fn the_id_of_a_branch() {
    let id = new_xatid(1, 0x1122_3344_5566_7700, 2);
    assert_eq!(FORMAT_ID, 99);
    assert_eq!(id.get_format_id(), 99);
    assert_eq!(id.get_global_tid(), &vec![1, 0, 0, 0, 0, 0, 0, 0]);
    assert_eq!(
        id.get_branch_qualifier(),
        &vec![0, 0x77, 0x66, 0x55, 0x44, 0x33, 0x22, 0x11, 2, 0, 0, 0, 0, 0, 0, 0]
    );
    let id = new_xatid(u64::MAX, 0, 0x0102_0304_0506_0708);
    assert_eq!(id.get_global_tid(), &vec![255; 8]);
    assert_eq!(
        id.get_branch_qualifier(),
        &vec![0, 0, 0, 0, 0, 0, 0, 0, 8, 7, 6, 5, 4, 3, 2, 1]
    );
}

#[test]
fn a_second_registration_under_one_id_is_refused() {
    let mut tm = SimpleTransactionManager::new("T");
    let (first, first_log) = FakeRm::new("first");
    let (second, second_log) = FakeRm::new("second");
    tm.register(first, 1, false).unwrap();
    match tm.register(second, 1, true) {
        Err(XaError::Usage(s)) => {
            assert_eq!(s, "cannot register with given rm_id, which is already in use")
        }
        other => panic!("unexpected: {:?}", other),
    }
    tm.start_transaction().unwrap();
    tm.commit_transaction().unwrap();
    assert_eq!(ops(&first_log), ["start", "commit_one_phase"]);
    assert!(second_log.borrow().is_empty());
}

#[test]
fn starting_while_a_transaction_is_active_is_refused() {
    let mut tm = SimpleTransactionManager::new("T");
    let (rm, log) = FakeRm::new("rm");
    tm.register(rm, 1, false).unwrap();
    tm.start_transaction().unwrap();
    match tm.start_transaction() {
        Err(XaError::UsageDetails(s)) => assert_eq!(
            s,
            "SimpleTransactionManager is in state ACTIVE, but state IDLE | COMMITTED | ROLLEDBACK is required"
        ),
        other => panic!("unexpected: {:?}", other),
    }
    assert_eq!(tm.get_status().unwrap(), Status::Active);
    assert_eq!(tm.get_gtid(), Some(1));
    assert_eq!(ops(&log), ["start"]);
}

#[test]
fn one_resource_manager_commits_in_one_phase() {
    let mut tm = SimpleTransactionManager::new("T");
    let (rm, log) = FakeRm::new("rm");
    tm.register(rm, 5, false).unwrap();
    tm.start_transaction().unwrap();
    assert_eq!(tm.get_status().unwrap(), Status::Active);
    tm.commit_transaction().unwrap();
    assert_eq!(tm.get_status().unwrap(), Status::Committed);
    assert_eq!(tm.get_gtid(), None);
    assert_eq!(ops(&log), ["start", "commit_one_phase"]);
    let started = log.borrow()[0].clone();
    let committed = log.borrow()[1].clone();
    assert_eq!(started.global_tid, le(1));
    assert_eq!(started.branch_qualifier[8..], le(5)[..]);
    assert_eq!(committed.global_tid, started.global_tid);
    assert_eq!(committed.branch_qualifier, started.branch_qualifier);
}

#[test]
fn a_failed_one_phase_commit_is_not_rolled_back() {
    let mut tm = SimpleTransactionManager::new("T");
    let (rm, log) = FakeRm::failing("rm", &["commit_one_phase"]);
    tm.register(rm, 5, false).unwrap();
    tm.start_transaction().unwrap();
    match tm.commit_transaction() {
        Err(XaError::RmErrors(errors)) => {
            assert_eq!(descriptions(&errors), ["commit_one_phase failed by rm"]);
            assert_eq!(errors[0].get_code(), ErrorCode::RmFailure);
        }
        other => panic!("unexpected: {:?}", other),
    }
    assert_eq!(ops(&log), ["start", "commit_one_phase"]);
    assert_eq!(tm.get_status().unwrap(), Status::Committing);
    assert_eq!(tm.get_gtid(), Some(1));
    tm.rollback_transaction().unwrap();
    assert_eq!(ops(&log), ["start", "commit_one_phase"]);
    assert_eq!(tm.get_status().unwrap(), Status::RolledBack);
    assert_eq!(tm.get_gtid(), None);
}

#[test]
fn without_resource_managers_a_transaction_commits() {
    let mut tm = SimpleTransactionManager::<FakeRm>::new("T");
    tm.start_transaction().unwrap();
    assert_eq!(tm.get_gtid(), Some(1));
    tm.commit_transaction().unwrap();
    assert_eq!(tm.get_status().unwrap(), Status::Committed);
    tm.start_transaction().unwrap();
    assert_eq!(tm.get_gtid(), Some(2));
    tm.rollback_transaction().unwrap();
    assert_eq!(tm.get_status().unwrap(), Status::RolledBack);
}

#[test]
fn two_resource_managers_commit_in_two_phases() {
    let mut tm = SimpleTransactionManager::new("T");
    let (one, one_log) = FakeRm::new("one");
    let (two, two_log) = FakeRm::new("two");
    tm.register(one, 1, false).unwrap();
    tm.register(two, 2, false).unwrap();

    tm.start_transaction().unwrap();
    assert_eq!(tm.get_status().unwrap(), Status::Active);
    assert_eq!(tm.get_gtid(), Some(1));
    let a = one_log.borrow()[0].clone();
    let b = two_log.borrow()[0].clone();
    assert_eq!(a.op, "start");
    assert_eq!(b.op, "start");
    assert_eq!(a.format_id, 99);
    assert_eq!(b.format_id, 99);
    assert_eq!(a.global_tid, le(1));
    assert_eq!(b.global_tid, le(1));
    assert_eq!(a.branch_qualifier.len(), 16);
    assert_eq!(a.branch_qualifier[..8], b.branch_qualifier[..8]);
    assert_eq!(a.branch_qualifier[..8], identity_of("T")[..]);
    assert_eq!(a.branch_qualifier[8..], le(1)[..]);
    assert_eq!(b.branch_qualifier[8..], le(2)[..]);

    tm.commit_transaction().unwrap();
    assert_eq!(tm.get_status().unwrap(), Status::Committed);
    assert_eq!(ops(&one_log), ["start", "end_success", "prepare", "commit"]);
    assert_eq!(ops(&two_log), ["start", "end_success", "prepare", "commit"]);
    for asked in one_log.borrow().iter() {
        assert_eq!(asked.global_tid, a.global_tid);
        assert_eq!(asked.branch_qualifier, a.branch_qualifier);
    }
    for asked in two_log.borrow().iter() {
        assert_eq!(asked.global_tid, b.global_tid);
        assert_eq!(asked.branch_qualifier, b.branch_qualifier);
    }
}

/// What a common log shows: the requests with the id of the resource
/// manager that was asked.
fn requests(log: &Log) -> Vec<(&'static str, u64)> {
    log.borrow()
        .iter()
        .map(|a| {
            let mut rm_id = [0u8; 8];
            rm_id.copy_from_slice(&a.branch_qualifier[8..]);
            (a.op, u64::from_le_bytes(rm_id))
        })
        .collect()
}

#[test]
fn the_steps_come_one_after_the_other() {
    let log: Log = Rc::new(RefCell::new(Vec::new()));
    let mut tm = SimpleTransactionManager::new("T");
    tm.register(FakeRm::sharing("one", &log, &[]), 1, false).unwrap();
    tm.register(FakeRm::sharing("two", &log, &[]), 2, false).unwrap();
    tm.register(FakeRm::sharing("three", &log, &[]), 3, false).unwrap();
    tm.start_transaction().unwrap();
    tm.commit_transaction().unwrap();
    assert_eq!(
        requests(&log),
        [
            ("start", 1),
            ("start", 2),
            ("start", 3),
            ("end_success", 1),
            ("end_success", 2),
            ("end_success", 3),
            ("prepare", 1),
            ("prepare", 2),
            ("prepare", 3),
            ("commit", 1),
            ("commit", 2),
            ("commit", 3)
        ]
    );
}

#[test]
fn a_step_asks_all_before_the_rollback_begins() {
    let log: Log = Rc::new(RefCell::new(Vec::new()));
    let mut tm = SimpleTransactionManager::new("T");
    tm.register(FakeRm::sharing("one", &log, &["prepare"]), 1, false).unwrap();
    tm.register(FakeRm::sharing("two", &log, &[]), 2, false).unwrap();
    tm.start_transaction().unwrap();
    assert!(tm.commit_transaction().is_err());
    assert_eq!(
        requests(&log),
        [
            ("start", 1),
            ("start", 2),
            ("end_success", 1),
            ("end_success", 2),
            ("prepare", 1),
            ("prepare", 2),
            ("rollback", 1),
            ("rollback", 2)
        ]
    );

    let log: Log = Rc::new(RefCell::new(Vec::new()));
    let mut tm = SimpleTransactionManager::new("T");
    tm.register(FakeRm::sharing("one", &log, &["end_failure"]), 1, false).unwrap();
    tm.register(FakeRm::sharing("two", &log, &[]), 2, false).unwrap();
    tm.start_transaction().unwrap();
    assert!(tm.rollback_transaction().is_err());
    assert_eq!(
        requests(&log),
        [
            ("start", 1),
            ("start", 2),
            ("end_failure", 1),
            ("end_failure", 2),
            ("rollback", 1),
            ("rollback", 2)
        ]
    );
}

#[test]
fn a_failed_prepare_rolls_back_all() {
    let mut tm = SimpleTransactionManager::new("T");
    let (one, one_log) = FakeRm::new("one");
    let (two, two_log) = FakeRm::failing("two", &["prepare"]);
    let (three, three_log) = FakeRm::new("three");
    tm.register(one, 1, false).unwrap();
    tm.register(two, 2, false).unwrap();
    tm.register(three, 3, false).unwrap();
    tm.start_transaction().unwrap();
    match tm.commit_transaction() {
        Err(XaError::RmErrors(errors)) => {
            assert_eq!(descriptions(&errors), ["prepare failed by two"])
        }
        other => panic!("unexpected: {:?}", other),
    }
    assert_eq!(tm.get_status().unwrap(), Status::Idle);
    assert_eq!(tm.get_gtid(), None);
    for log in [&one_log, &two_log, &three_log] {
        assert_eq!(ops(log), ["start", "end_success", "prepare", "rollback"]);
    }
}

#[test]
fn a_failed_end_rolls_back_all() {
    let mut tm = SimpleTransactionManager::new("T");
    let (one, one_log) = FakeRm::failing("one", &["end_success"]);
    let (two, two_log) = FakeRm::failing("two", &["end_success"]);
    tm.register(one, 1, false).unwrap();
    tm.register(two, 2, false).unwrap();
    tm.start_transaction().unwrap();
    match tm.commit_transaction() {
        Err(XaError::RmErrors(errors)) => assert_eq!(
            descriptions(&errors),
            ["end_success failed by one", "end_success failed by two"]
        ),
        other => panic!("unexpected: {:?}", other),
    }
    assert_eq!(tm.get_status().unwrap(), Status::Idle);
    for log in [&one_log, &two_log] {
        assert_eq!(ops(log), ["start", "end_success", "rollback"]);
    }
}

#[test]
fn a_failed_commit_step_rolls_back_all() {
    let mut tm = SimpleTransactionManager::new("T");
    let (one, one_log) = FakeRm::new("one");
    let (two, two_log) = FakeRm::failing("two", &["commit"]);
    tm.register(one, 1, false).unwrap();
    tm.register(two, 2, false).unwrap();
    tm.start_transaction().unwrap();
    match tm.commit_transaction() {
        Err(XaError::RmErrors(errors)) => {
            assert_eq!(descriptions(&errors), ["commit failed by two"])
        }
        other => panic!("unexpected: {:?}", other),
    }
    assert_eq!(tm.get_status().unwrap(), Status::Idle);
    for log in [&one_log, &two_log] {
        assert_eq!(ops(log), ["start", "end_success", "prepare", "commit", "rollback"]);
    }
    tm.start_transaction().unwrap();
    assert_eq!(tm.get_gtid(), Some(2));
}

#[test]
fn a_failed_rollback_after_a_failed_step_is_an_inconsistency() {
    let steps = [
        ("end_success", "rm_rollback() failed after a failed rm_end_success()"),
        ("prepare", "rm_rollback() failed after a failed rm_prepare()"),
        ("commit", "rm_rollback() failed after a failed rm_commit()"),
    ];
    for (step, message) in steps {
        let mut tm = SimpleTransactionManager::new("T");
        let (one, one_log) = FakeRm::failing("one", &["rollback"]);
        let (two, two_log) = FakeRm::failing("two", &[step]);
        let (three, three_log) = FakeRm::failing("three", &["rollback"]);
        tm.register(one, 1, false).unwrap();
        tm.register(two, 2, false).unwrap();
        tm.register(three, 3, false).unwrap();
        tm.start_transaction().unwrap();
        match tm.commit_transaction() {
            Err(XaError::Inconsistency(text, errors)) => {
                assert_eq!(text, message);
                assert_eq!(
                    descriptions(&errors),
                    ["rollback failed by one", "rollback failed by three"]
                );
            }
            other => panic!("unexpected: {:?}", other),
        }
        assert_eq!(tm.get_status().unwrap(), Status::Idle);
        assert_eq!(tm.get_gtid(), None);
        for log in [&one_log, &two_log, &three_log] {
            assert_eq!(ops(log).last(), Some(&"rollback"));
            assert_eq!(ops(log).iter().filter(|op| **op == "rollback").count(), 1);
        }
    }
}

#[test]
fn cleanup_forgets_the_own_branches_only() {
    let identity = identity_of("T");
    let mut other_identity = identity.clone();
    other_identity[7] ^= 0x55;
    let stamp = |identity: &[u8], rm_id: u64| {
        let mut bq = identity.to_vec();
        bq.extend(le(rm_id));
        bq
    };
    let mine = XaTransactionId::try_new(99, le(12), stamp(&identity, 7)).unwrap();
    let foreign = XaTransactionId::try_new(99, le(12), stamp(&other_identity, 7)).unwrap();
    let other_rm = XaTransactionId::try_new(99, le(13), stamp(&identity, 8)).unwrap();
    let other_format = XaTransactionId::try_new(98, le(14), stamp(&identity, 7)).unwrap();
    let short = XaTransactionId::try_new(99, le(15), identity.clone()).unwrap();
    let mine_too = XaTransactionId::try_new(99, vec![], stamp(&identity, 7)).unwrap();

    let mut tm = SimpleTransactionManager::new("T");
    let (mut rm, log) = FakeRm::failing("rm", &["forget"]);
    rm.recovered = Some(vec![mine, foreign, other_rm, other_format, short, mine_too]);
    tm.register(rm, 7, true).unwrap();
    assert_eq!(ops(&log), ["recover", "forget", "forget"]);
    assert_eq!(log.borrow()[1].global_tid, le(12));
    assert_eq!(log.borrow()[1].branch_qualifier, stamp(&identity, 7));
    assert_eq!(log.borrow()[2].global_tid, Vec::<u8>::new());
    assert_eq!(log.borrow()[2].branch_qualifier, stamp(&identity, 7));

    tm.start_transaction().unwrap();
    assert_eq!(ops(&log), ["recover", "forget", "forget", "start"]);
}

#[test]
fn cleanup_forgets_one_of_two() {
    let identity = identity_of("T");
    let mut other_identity = identity.clone();
    other_identity[1] = other_identity[1].wrapping_add(1);
    let mut bq = identity.clone();
    bq.extend(le(7));
    let mut other_bq = other_identity;
    other_bq.extend(le(7));
    let mine = XaTransactionId::try_new(99, le(1), bq.clone()).unwrap();
    let foreign = XaTransactionId::try_new(99, le(1), other_bq).unwrap();

    let mut tm = SimpleTransactionManager::new("T");
    let (mut rm, log) = FakeRm::new("rm");
    rm.recovered = Some(vec![mine, foreign]);
    tm.register(rm, 7, true).unwrap();
    assert_eq!(ops(&log), ["recover", "forget"]);
    assert_eq!(log.borrow()[1].branch_qualifier, bq);
}

#[test]
fn registration_without_cleanup_asks_nothing() {
    let mut tm = SimpleTransactionManager::new("T");
    let (mut rm, log) = FakeRm::new("rm");
    rm.recovered = Some(vec![XaTransactionId::null_ta()]);
    tm.register(rm, 7, false).unwrap();
    assert!(log.borrow().is_empty());
}

#[test]
fn a_failed_scan_forgets_nothing() {
    let mut tm = SimpleTransactionManager::new("T");
    let (mut rm, log) = FakeRm::new("rm");
    rm.recovered = None;
    tm.register(rm, 7, true).unwrap();
    assert_eq!(ops(&log), ["recover"]);
    tm.start_transaction().unwrap();
    assert_eq!(ops(&log), ["recover", "start"]);
}

#[test]
fn a_failed_start_is_tried_again() {
    let mut tm = SimpleTransactionManager::new("T");
    let (one, one_log) = FakeRm::failing_once("one", "start");
    let (two, two_log) = FakeRm::failing("two", &["end_failure", "rollback"]);
    tm.register(one, 1, false).unwrap();
    tm.register(two, 2, false).unwrap();
    tm.start_transaction().unwrap();
    assert_eq!(tm.get_status().unwrap(), Status::Active);
    assert_eq!(tm.get_gtid(), Some(1));
    for log in [&one_log, &two_log] {
        assert_eq!(ops(log), ["start", "end_failure", "rollback", "start"]);
        for asked in log.borrow().iter() {
            assert_eq!(asked.global_tid, le(1));
        }
    }
}

#[test]
fn a_start_that_fails_twice_leaves_the_transaction_manager_idle() {
    let mut tm = SimpleTransactionManager::new("T");
    let (one, one_log) = FakeRm::failing_once("one", "start");
    let (two, two_log) = FakeRm::failing("two", &["start"]);
    let (three, three_log) = FakeRm::failing("three", &["start"]);
    tm.register(one, 1, false).unwrap();
    tm.register(two, 2, false).unwrap();
    tm.register(three, 3, false).unwrap();
    match tm.start_transaction() {
        Err(XaError::RmErrors(errors)) => {
            assert_eq!(descriptions(&errors), ["start failed by two", "start failed by three"])
        }
        other => panic!("unexpected: {:?}", other),
    }
    assert_eq!(tm.get_status().unwrap(), Status::Idle);
    assert_eq!(tm.get_gtid(), None);
    for log in [&one_log, &two_log, &three_log] {
        assert_eq!(ops(log), ["start", "end_failure", "rollback", "start"]);
    }
    assert!(tm.start_transaction().is_err());
    assert_eq!(one_log.borrow().last().unwrap().global_tid, le(2));
    assert_eq!(one_log.borrow()[0].global_tid, le(1));
}

#[test]
fn committing_without_a_transaction_is_refused() {
    let mut tm = SimpleTransactionManager::new("T");
    let (rm, log) = FakeRm::new("rm");
    tm.register(rm, 1, false).unwrap();
    assert!(matches!(
        tm.commit_transaction(),
        Err(XaError::Usage("No current transaction set"))
    ));
    assert_eq!(tm.get_status().unwrap(), Status::Idle);
    tm.start_transaction().unwrap();
    tm.commit_transaction().unwrap();
    assert!(matches!(
        tm.commit_transaction(),
        Err(XaError::Usage("No current transaction set"))
    ));
    assert_eq!(tm.get_status().unwrap(), Status::Committed);
    assert_eq!(ops(&log), ["start", "commit_one_phase"]);
}

#[test]
fn committing_what_is_marked_for_rollback_is_refused() {
    let mut tm = SimpleTransactionManager::new("T");
    let (rm, log) = FakeRm::new("rm");
    tm.register(rm, 1, false).unwrap();
    tm.start_transaction().unwrap();
    tm.set_transaction_rollbackonly().unwrap();
    assert_eq!(tm.get_status().unwrap(), Status::RollbackOnly);
    match tm.commit_transaction() {
        Err(XaError::UsageDetails(s)) => assert_eq!(
            s,
            "SimpleTransactionManager is in state ROLLBACK_ONLY, but state ACTIVE is required"
        ),
        other => panic!("unexpected: {:?}", other),
    }
    assert_eq!(tm.get_status().unwrap(), Status::RollbackOnly);
    tm.rollback_transaction().unwrap();
    assert_eq!(tm.get_status().unwrap(), Status::RolledBack);
    assert_eq!(ops(&log), ["start", "rollback"]);
    assert_eq!(tm.get_gtid(), None);
}

#[test]
fn rolling_back_an_active_transaction() {
    let mut tm = SimpleTransactionManager::new("T");
    let (one, one_log) = FakeRm::new("one");
    let (two, two_log) = FakeRm::new("two");
    tm.register(one, 1, false).unwrap();
    tm.register(two, 2, false).unwrap();
    tm.start_transaction().unwrap();
    tm.rollback_transaction().unwrap();
    assert_eq!(tm.get_status().unwrap(), Status::RolledBack);
    assert_eq!(tm.get_gtid(), None);
    for log in [&one_log, &two_log] {
        assert_eq!(ops(log), ["start", "end_failure", "rollback"]);
    }
    tm.start_transaction().unwrap();
    assert_eq!(tm.get_gtid(), Some(2));
    assert_eq!(one_log.borrow().last().unwrap().global_tid, le(2));
}

#[test]
fn rolling_back_without_a_transaction_is_refused() {
    let mut tm = SimpleTransactionManager::new("T");
    let (rm, log) = FakeRm::new("rm");
    tm.register(rm, 1, false).unwrap();
    assert!(matches!(
        tm.rollback_transaction(),
        Err(XaError::Usage("No current transaction set"))
    ));
    assert_eq!(tm.get_status().unwrap(), Status::Idle);
    tm.set_transaction_rollbackonly().unwrap();
    assert!(matches!(
        tm.rollback_transaction(),
        Err(XaError::Usage("No current transaction set"))
    ));
    assert_eq!(tm.get_status().unwrap(), Status::RollbackOnly);
    assert!(log.borrow().is_empty());
}

#[test]
fn a_rollback_reports_every_failure() {
    let mut tm = SimpleTransactionManager::new("T");
    let (one, one_log) = FakeRm::failing("one", &["end_failure"]);
    let (two, two_log) = FakeRm::failing("two", &["rollback"]);
    let (three, three_log) = FakeRm::failing("three", &["end_failure", "rollback"]);
    tm.register(one, 1, false).unwrap();
    tm.register(two, 2, false).unwrap();
    tm.register(three, 3, false).unwrap();
    tm.start_transaction().unwrap();
    match tm.rollback_transaction() {
        Err(XaError::RmErrors(errors)) => assert_eq!(
            descriptions(&errors),
            [
                "end_failure failed by one",
                "end_failure failed by three",
                "rollback failed by two",
                "rollback failed by three"
            ]
        ),
        other => panic!("unexpected: {:?}", other),
    }
    assert_eq!(tm.get_status().unwrap(), Status::RolledBack);
    assert_eq!(tm.get_gtid(), None);
    for log in [&one_log, &two_log, &three_log] {
        assert_eq!(ops(log), ["start", "end_failure", "rollback"]);
    }

    let mut tm = SimpleTransactionManager::new("T");
    let (one, _) = FakeRm::new("one");
    let (two, _) = FakeRm::failing("two", &["rollback"]);
    tm.register(one, 1, false).unwrap();
    tm.register(two, 2, false).unwrap();
    tm.start_transaction().unwrap();
    match tm.rollback_transaction() {
        Err(XaError::RmErrors(errors)) => {
            assert_eq!(descriptions(&errors), ["rollback failed by two"])
        }
        other => panic!("unexpected: {:?}", other),
    }
    assert_eq!(tm.get_status().unwrap(), Status::RolledBack);

    let mut tm = SimpleTransactionManager::new("T");
    let (one, _) = FakeRm::failing("one", &["end_failure"]);
    tm.register(one, 1, false).unwrap();
    tm.start_transaction().unwrap();
    match tm.rollback_transaction() {
        Err(XaError::RmErrors(errors)) => {
            assert_eq!(descriptions(&errors), ["end_failure failed by one"])
        }
        other => panic!("unexpected: {:?}", other),
    }
    assert_eq!(tm.get_status().unwrap(), Status::RolledBack);
}

#[test]
fn marking_for_rollback_is_allowed_in_four_states() {
    let mut tm = SimpleTransactionManager::<FakeRm>::new("T");
    tm.set_transaction_rollbackonly().unwrap();
    assert_eq!(tm.get_status().unwrap(), Status::RollbackOnly);
    tm.set_transaction_rollbackonly().unwrap();
    assert_eq!(tm.get_status().unwrap(), Status::RollbackOnly);
    assert_eq!(tm.get_gtid(), None);

    let mut tm = SimpleTransactionManager::<FakeRm>::new("T");
    tm.start_transaction().unwrap();
    tm.set_transaction_rollbackonly().unwrap();
    assert_eq!(tm.get_status().unwrap(), Status::RollbackOnly);
    assert_eq!(tm.get_gtid(), Some(1));

    let mut tm = SimpleTransactionManager::<FakeRm>::new("T");
    tm.start_transaction().unwrap();
    tm.commit_transaction().unwrap();
    match tm.set_transaction_rollbackonly() {
        Err(XaError::UsageDetails(s)) => assert_eq!(
            s,
            "SimpleTransactionManager is in state COMMITTED, but state IDLE | ACTIVE | PREPARED | ROLLBACK_ONLY is required"
        ),
        other => panic!("unexpected: {:?}", other),
    }
    assert_eq!(tm.get_status().unwrap(), Status::Committed);
}

#[test]
fn starting_what_is_marked_for_rollback_is_refused() {
    let mut tm = SimpleTransactionManager::<FakeRm>::new("T");
    tm.set_transaction_rollbackonly().unwrap();
    match tm.start_transaction() {
        Err(XaError::UsageDetails(s)) => assert_eq!(
            s,
            "SimpleTransactionManager is in state ROLLBACK_ONLY, but state IDLE | COMMITTED | ROLLEDBACK is required"
        ),
        other => panic!("unexpected: {:?}", other),
    }
    assert_eq!(tm.get_gtid(), None);
}

#[test]
fn an_unregistered_resource_manager_is_asked_no_more() {
    let mut tm = SimpleTransactionManager::new("T");
    let (one, one_log) = FakeRm::new("one");
    let (two, two_log) = FakeRm::new("two");
    let (three, three_log) = FakeRm::new("three");
    tm.register(one, 1, false).unwrap();
    tm.register(two, 2, false).unwrap();
    tm.register(three, 3, false).unwrap();
    tm.unregister(2).unwrap();
    tm.unregister(2).unwrap();
    tm.unregister(99).unwrap();
    tm.start_transaction().unwrap();
    tm.commit_transaction().unwrap();
    assert_eq!(ops(&one_log), ["start", "end_success", "prepare", "commit"]);
    assert!(two_log.borrow().is_empty());
    assert_eq!(ops(&three_log), ["start", "end_success", "prepare", "commit"]);

    let (again, again_log) = FakeRm::new("again");
    tm.register(again, 2, false).unwrap();
    tm.unregister(1).unwrap();
    tm.start_transaction().unwrap();
    assert_eq!(ops(&again_log), ["start"]);
    assert_eq!(again_log.borrow()[0].branch_qualifier[8..], le(2)[..]);
    assert_eq!(one_log.borrow().len(), 4);
    assert_eq!(three_log.borrow().len(), 5);
}

#[test]
fn an_unfinished_transaction_is_rolled_back_at_the_end() {
    let mut tm = SimpleTransactionManager::new("T");
    let (one, one_log) = FakeRm::failing("one", &["rollback"]);
    let (two, two_log) = FakeRm::new("two");
    tm.register(one, 1, false).unwrap();
    tm.register(two, 2, false).unwrap();
    tm.rollback_unfinished();
    assert!(one_log.borrow().is_empty());

    tm.start_transaction().unwrap();
    tm.rollback_unfinished();
    assert_eq!(tm.get_status().unwrap(), Status::Active);
    assert_eq!(tm.get_gtid(), Some(1));
    for log in [&one_log, &two_log] {
        assert_eq!(ops(log), ["start", "rollback"]);
        assert_eq!(log.borrow()[1].global_tid, le(1));
    }

    tm.rollback_transaction().unwrap_err();
    let asked = one_log.borrow().len();
    tm.rollback_unfinished();
    assert_eq!(one_log.borrow().len(), asked);
}

#[test]
fn a_transaction_marked_while_idle_is_rolled_back_at_the_end_as_number_0() {
    let mut tm = SimpleTransactionManager::new("T");
    let (rm, log) = FakeRm::new("rm");
    tm.register(rm, 1, false).unwrap();
    tm.set_transaction_rollbackonly().unwrap();
    tm.rollback_unfinished();
    assert_eq!(ops(&log), ["rollback"]);
    assert_eq!(log.borrow()[0].global_tid, le(0));
}

#[test]
fn resource_managers_of_different_kinds() {
    let mut tm = SimpleTransactionManager::<Box<dyn ResourceManager>>::new("T");
    let (plain, plain_log) = FakeRm::new("plain");
    let c_log = Rc::new(RefCell::new(Vec::new()));
    let wrapped = CRmWrapper(FakeCRm { log: c_log.clone() });
    tm.register(Box::new(plain), 1, true).unwrap();
    tm.register(Box::new(wrapped), 2, true).unwrap();
    tm.start_transaction().unwrap();
    tm.commit_transaction().unwrap();
    assert_eq!(tm.get_status().unwrap(), Status::Committed);
    assert_eq!(ops(&plain_log), ["recover", "start", "end_success", "prepare", "commit"]);
    assert_eq!(
        *c_log.borrow(),
        [
            ("recover", 0x0180_0000),
            ("start", 0),
            ("end", 0x0400_0000),
            ("prepare", 0),
            ("commit", 0)
        ]
    );
}

#[test]
fn the_wrapper_tells_requests_apart_by_flags() {
    let log = Rc::new(RefCell::new(Vec::new()));
    let mut rm = CRmWrapper(FakeCRm { log: log.clone() });
    let id = XaTransactionId::null_ta();
    assert_eq!(rm.start(&id).unwrap(), ReturnCode::Okay);
    rm.start_by_joining(&id).unwrap();
    rm.start_by_resuming(&id).unwrap();
    rm.end_success(&id).unwrap();
    rm.end_failure(&id).unwrap();
    rm.end_suspend(&id).unwrap();
    assert_eq!(rm.prepare(&id).unwrap(), ReturnCode::ReadOnlyCommitted);
    rm.commit(&id).unwrap();
    rm.commit_one_phase(&id).unwrap();
    assert_eq!(rm.rollback(&id).unwrap_err().get_code(), ErrorCode::ProtocolError);
    rm.forget(&id).unwrap();
    assert_eq!(rm.recover().unwrap().len(), 1);
    rm.begin_recover().unwrap();
    rm.end_recover().unwrap();
    assert_eq!(
        *log.borrow(),
        [
            ("start", 0),
            ("start", 0x0020_0000),
            ("start", 0x0800_0000),
            ("end", 0x0400_0000),
            ("end", 0x2000_0000),
            ("end", 0x0200_0000),
            ("prepare", 0),
            ("commit", 0),
            ("commit", 0x4000_0000),
            ("rollback", 0),
            ("forget", 0),
            ("recover", 0x0180_0000),
            ("recover", 0x0100_0000),
            ("recover", 0x0080_0000)
        ]
    );
    assert_eq!(rm.0.log.borrow().len(), 14);
}

#[test]
fn a_request_by_its_name() {
    let (mut rm, log) = FakeRm::failing("rm", &["forget"]);
    let id = XaTransactionId::try_new(3, vec![1], vec![2]).unwrap();
    let all = [
        (Operation::Start, "start"),
        (Operation::StartByJoining, "start_by_joining"),
        (Operation::StartByResuming, "start_by_resuming"),
        (Operation::EndSuccess, "end_success"),
        (Operation::EndFailure, "end_failure"),
        (Operation::EndSuspend, "end_suspend"),
        (Operation::Prepare, "prepare"),
        (Operation::Commit, "commit"),
        (Operation::CommitOnePhase, "commit_one_phase"),
        (Operation::Rollback, "rollback"),
        (Operation::Forget, "forget"),
    ];
    for (op, name) in all {
        let r = perform(&mut rm, op, &id);
        assert_eq!(r.is_err(), name == "forget");
        let last = log.borrow().last().unwrap().clone();
        assert_eq!(last.op, name);
        assert_eq!(last.format_id, 3);
        assert_eq!(last.global_tid, [1]);
        assert_eq!(last.branch_qualifier, [2]);
    }
    let mut boxed: Box<dyn ResourceManager> = Box::new(rm);
    perform(&mut boxed, Operation::Prepare, &id).unwrap();
    boxed.begin_recover().unwrap();
    boxed.end_recover().unwrap();
    assert_eq!(ops(&log)[11..], ["prepare", "begin_recover", "end_recover"]);
}

#[test]
fn the_names_of_the_states() {
    let all = [
        (Status::Idle, "IDLE"),
        (Status::Activating, "ACTIVATING"),
        (Status::Active, "ACTIVE"),
        (Status::Preparing, "PREPARING"),
        (Status::Prepared, "PREPARED"),
        (Status::Committing, "COMMITTING"),
        (Status::Committed, "COMMITTED"),
        (Status::RollbackOnly, "ROLLBACK_ONLY"),
        (Status::RollingBack, "ROLLINGBACK"),
        (Status::RolledBack, "ROLLEDBACK"),
    ];
    for (status, name) in all {
        assert_eq!(status.as_str(), name);
    }
    assert_eq!(Status::join_names(&[]), "");
    assert_eq!(Status::join_names(&[Status::Active]), "ACTIVE");
    assert_eq!(
        Status::join_names(&[Status::Idle, Status::Committed, Status::RolledBack]),
        "IDLE | COMMITTED | ROLLEDBACK"
    );
    assert!(Status::Idle.is_one_of(&[Status::Active, Status::Idle]));
    assert!(!Status::Idle.is_one_of(&[Status::Active, Status::Committed]));
    assert!(!Status::Idle.is_one_of(&[]));
}
