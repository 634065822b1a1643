//! The audit log: a bounded, append-only record of issuance attempts, with the
//! oldest entries evicted first.
use vstd::prelude::*;

verus! {

/// How many entries the log keeps.
pub const AUDIT_CAPACITY: usize = 10000;

pub struct QueryLogEntry {
    pub tenant: String,
    pub query: String,
    pub timestamp: i64,
    pub receipt_id: u128,
    pub success: bool,
    pub error: Option<String>,
}

/// The last `AUDIT_CAPACITY` elements of `s`, or all of them if there are fewer.
pub open spec fn keep_newest<T>(s: Seq<T>) -> Seq<T> {
    if s.len() > AUDIT_CAPACITY {
        s.subrange(s.len() - AUDIT_CAPACITY, s.len() as int)
    } else {
        s
    }
}

/// How many entries record a successful query.
pub open spec fn count_successes(s: Seq<QueryLogEntry>) -> nat
    decreases s.len(),
{
    if s.len() == 0 {
        0
    } else {
        count_successes(s.drop_last()) + if s.last().success {
            1nat
        } else {
            0nat
        }
    }
}

/// Counts over the audit log.
#[derive(PartialEq, Eq, Structural, Clone, Copy, Debug)]
pub struct Statistics {
    pub total_queries: usize,
    pub successful_queries: usize,
    pub failed_queries: usize,
}

pub struct AuditLog {
    entries: Vec<QueryLogEntry>,
}

impl View for AuditLog {
    type V = Seq<QueryLogEntry>;

    closed spec fn view(&self) -> Seq<QueryLogEntry> {
        self.entries@
    }
}

impl AuditLog {
    pub open spec fn wf(&self) -> bool {
        self@.len() <= AUDIT_CAPACITY
    }

    pub fn new() -> (r: AuditLog)
        ensures
            r.wf(),
            r@ == Seq::<QueryLogEntry>::empty(),
    {
        AuditLog { entries: Vec::new() }
    }

    /// Appends `entry`, evicting the oldest entry when the log is full.
    pub fn append(&mut self, entry: QueryLogEntry)
        requires
            old(self).wf(),
        ensures
            final(self).wf(),
            final(self)@ == keep_newest(old(self)@.push(entry)),
    {
        self.entries.push(entry);
        if self.entries.len() > AUDIT_CAPACITY {
            let ghost pushed = self.entries@;
            self.entries.remove(0);
            assert(self.entries@ =~= pushed.subrange(pushed.len() - AUDIT_CAPACITY, pushed.len() as int));
        }
    }

    /// The number of entries.
    pub fn len(&self) -> (r: usize)
        ensures
            r == self@.len(),
    {
        self.entries.len()
    }

    /// The totals of recorded, successful and failed queries.
    pub fn statistics(&self) -> (r: Statistics)
        ensures
            r.total_queries == self@.len(),
            r.successful_queries == count_successes(self@),
            r.failed_queries == self@.len() - count_successes(self@),
    {
        let n: usize = self.entries.len();
        let mut ok: usize = 0;
        let mut i: usize = 0;
        while i < n
            invariant
                n == self@.len(),
                i <= n,
                ok == count_successes(self@.subrange(0, i as int)),
                ok <= i,
            decreases n - i,
        {
            let ghost before = self@.subrange(0, i as int);
            assert(self@.subrange(0, (i + 1) as int).drop_last() =~= before);
            if self.entries[i].success {
                ok = ok + 1;
            }
            i = i + 1;
        }
        assert(self@.subrange(0, n as int) =~= self@);
        Statistics { total_queries: n, successful_queries: ok, failed_queries: n - ok }
    }
}

} // verus!
