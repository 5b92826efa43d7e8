use vstd::prelude::*;
use crate::bytes::same_text;
use vstd::string::StrSliceExecFns;

pub use crate::sst::CF_DEFAULT;

verus! {

pub const CF_LOCK: &'static str = "lock";
pub const CF_WRITE: &'static str = "write";

pub const STAT_PROCESSED_KEYS: &'static str = "processed_keys";
pub const STAT_GET: &'static str = "get";
pub const STAT_NEXT: &'static str = "next";
pub const STAT_PREV: &'static str = "prev";
pub const STAT_SEEK: &'static str = "seek";
pub const STAT_SEEK_FOR_PREV: &'static str = "seek_for_prev";
pub const STAT_OVER_SEEK_BOUND: &'static str = "over_seek_bound";

/// `a + b`, or the largest `usize` when that overflows.
pub open spec fn sat_add(a: usize, b: usize) -> usize {
    if a + b > usize::MAX {
        usize::MAX
    } else {
        (a + b) as usize
    }
}

/// The kinds of counted operations, as labels.
#[allow(non_camel_case_types)]
#[derive(Clone, Copy, Debug, PartialEq, Eq, Structural)]
pub enum GcKeysDetail {
    processed_keys,
    get,
    next,
    prev,
    seek,
    seek_for_prev,
    over_seek_bound,
}

/// The column families that statistics are kept for, as labels.
#[allow(non_camel_case_types)]
#[derive(Clone, Copy, Debug, PartialEq, Eq, Structural)]
pub enum GcKeysCF {
    default,
    lock,
    write,
}

/// Bytes and keys read, as reported for flow control.
#[derive(Default, Clone, Copy, Debug, PartialEq, Eq, Structural)]
pub struct FlowStatistics {
    pub read_keys: usize,
    pub read_bytes: usize,
}

impl FlowStatistics {
    /// Adds `other` field by field, saturating.
    pub fn add(&mut self, other: &Self)
        ensures
            final(self).read_keys == sat_add(old(self).read_keys, other.read_keys),
            final(self).read_bytes == sat_add(old(self).read_bytes, other.read_bytes),
    {
        self.read_bytes = self.read_bytes.saturating_add(other.read_bytes);
        self.read_keys = self.read_keys.saturating_add(other.read_keys);
    }
}

/// Processed and total operation counts of one column family.
#[derive(Default, Clone, Copy, Debug, PartialEq, Eq, Structural)]
pub struct ScanInfo {
    pub processed: i64,
    pub total: i64,
}

/// Scan counts of the three column families.
#[derive(Default, Clone, Copy, Debug, PartialEq, Eq, Structural)]
pub struct ScanDetail {
    pub write: ScanInfo,
    pub lock: ScanInfo,
    pub data: ScanInfo,
}

/// The operations taken on one column family while fetching data.
#[derive(Default, Clone, Copy, Debug, PartialEq, Eq, Structural)]
pub struct CfStatistics {
    /// Keys visible to the user.
    pub processed_keys: usize,
    pub get: usize,
    pub next: usize,
    pub prev: usize,
    pub seek: usize,
    pub seek_for_prev: usize,
    pub over_seek_bound: usize,
    pub flow_stats: FlowStatistics,
}

impl CfStatistics {
    pub open spec fn spec_total_op_count(&self) -> int {
        self.get + self.next + self.prev + self.seek + self.seek_for_prev
    }

    /// The number of engine operations: gets, nexts, prevs and both kinds of seek.
    pub fn total_op_count(&self) -> (r: usize)
        requires
            self.spec_total_op_count() <= usize::MAX,
        ensures
            r == self.spec_total_op_count(),
    {
        self.get + self.next + self.prev + self.seek + self.seek_for_prev
    }

    pub open spec fn details_spec(&self) -> Seq<(&'static str, usize)> {
        seq![
            (STAT_PROCESSED_KEYS, self.processed_keys),
            (STAT_GET, self.get),
            (STAT_NEXT, self.next),
            (STAT_PREV, self.prev),
            (STAT_SEEK, self.seek),
            (STAT_SEEK_FOR_PREV, self.seek_for_prev),
            (STAT_OVER_SEEK_BOUND, self.over_seek_bound),
        ]
    }

    pub open spec fn details_enum_spec(&self) -> Seq<(GcKeysDetail, usize)> {
        seq![
            (GcKeysDetail::processed_keys, self.processed_keys),
            (GcKeysDetail::get, self.get),
            (GcKeysDetail::next, self.next),
            (GcKeysDetail::prev, self.prev),
            (GcKeysDetail::seek, self.seek),
            (GcKeysDetail::seek_for_prev, self.seek_for_prev),
            (GcKeysDetail::over_seek_bound, self.over_seek_bound),
        ]
    }

    pub open spec fn spec_scan_info(&self) -> ScanInfo {
        ScanInfo { processed: self.processed_keys as i64, total: self.spec_total_op_count() as usize as i64 }
    }

    /// Each counter under its name.
    pub fn details(&self) -> (r: [(&'static str, usize); 7])
        ensures
            r@ == self.details_spec(),
    {
        let r = [
            (STAT_PROCESSED_KEYS, self.processed_keys),
            (STAT_GET, self.get),
            (STAT_NEXT, self.next),
            (STAT_PREV, self.prev),
            (STAT_SEEK, self.seek),
            (STAT_SEEK_FOR_PREV, self.seek_for_prev),
            (STAT_OVER_SEEK_BOUND, self.over_seek_bound),
        ];
        assert(r@ =~= self.details_spec());
        r
    }

    /// Each counter under its label.
    pub fn details_enum(&self) -> (r: [(GcKeysDetail, usize); 7])
        ensures
            r@ == self.details_enum_spec(),
    {
        let r = [
            (GcKeysDetail::processed_keys, self.processed_keys),
            (GcKeysDetail::get, self.get),
            (GcKeysDetail::next, self.next),
            (GcKeysDetail::prev, self.prev),
            (GcKeysDetail::seek, self.seek),
            (GcKeysDetail::seek_for_prev, self.seek_for_prev),
            (GcKeysDetail::over_seek_bound, self.over_seek_bound),
        ];
        assert(r@ =~= self.details_enum_spec());
        r
    }

    /// `self` plus `other`, counter by counter, saturating.
    pub open spec fn spec_add(self, other: Self) -> Self {
        CfStatistics {
            processed_keys: sat_add(self.processed_keys, other.processed_keys),
            get: sat_add(self.get, other.get),
            next: sat_add(self.next, other.next),
            prev: sat_add(self.prev, other.prev),
            seek: sat_add(self.seek, other.seek),
            seek_for_prev: sat_add(self.seek_for_prev, other.seek_for_prev),
            over_seek_bound: sat_add(self.over_seek_bound, other.over_seek_bound),
            flow_stats: FlowStatistics {
                read_keys: sat_add(self.flow_stats.read_keys, other.flow_stats.read_keys),
                read_bytes: sat_add(self.flow_stats.read_bytes, other.flow_stats.read_bytes),
            },
        }
    }

    /// Adds `other` counter by counter, saturating.
    pub fn add(&mut self, other: &Self)
        ensures
            *final(self) == old(self).spec_add(*other),
    {
        self.processed_keys = self.processed_keys.saturating_add(other.processed_keys);
        self.get = self.get.saturating_add(other.get);
        self.next = self.next.saturating_add(other.next);
        self.prev = self.prev.saturating_add(other.prev);
        self.seek = self.seek.saturating_add(other.seek);
        self.seek_for_prev = self.seek_for_prev.saturating_add(other.seek_for_prev);
        self.over_seek_bound = self.over_seek_bound.saturating_add(other.over_seek_bound);
        self.flow_stats.add(&other.flow_stats);
    }

    /// Processed keys and the operation count, in the form a scan reports them.
    pub fn scan_info(&self) -> (r: ScanInfo)
        requires
            self.spec_total_op_count() <= usize::MAX,
        ensures
            r == self.spec_scan_info(),
    {
        ScanInfo { processed: self.processed_keys as i64, total: self.total_op_count() as i64 }
    }
}

/// The operations taken on each column family while fetching data.
#[derive(Default, Clone, Copy, Debug, PartialEq, Eq, Structural)]
pub struct Statistics {
    pub lock: CfStatistics,
    pub write: CfStatistics,
    pub data: CfStatistics,
}

/// Whether `cf` names a column family that statistics are kept for; the empty
/// name stands for the default one.
pub open spec fn is_stats_cf(cf: Seq<char>) -> bool {
    cf.len() == 0 || cf == CF_DEFAULT@ || cf == CF_LOCK@ || cf == CF_WRITE@
}

impl Statistics {
    /// Each column family's counters under its name: default (the data
    /// column family), lock, then write.
    pub fn details(&self) -> (r: [(&'static str, [(&'static str, usize); 7]); 3])
        ensures
            r@.len() == 3,
            r@[0].0 == CF_DEFAULT && r@[0].1@ == self.data.details_spec(),
            r@[1].0 == CF_LOCK && r@[1].1@ == self.lock.details_spec(),
            r@[2].0 == CF_WRITE && r@[2].1@ == self.write.details_spec(),
    {
        [(CF_DEFAULT, self.data.details()), (CF_LOCK, self.lock.details()), (CF_WRITE, self.write.details())]
    }

    /// Each column family's counters under its label, in the order of `details`.
    pub fn details_enum(&self) -> (r: [(GcKeysCF, [(GcKeysDetail, usize); 7]); 3])
        ensures
            r@.len() == 3,
            r@[0].0 == GcKeysCF::default && r@[0].1@ == self.data.details_enum_spec(),
            r@[1].0 == GcKeysCF::lock && r@[1].1@ == self.lock.details_enum_spec(),
            r@[2].0 == GcKeysCF::write && r@[2].1@ == self.write.details_enum_spec(),
    {
        [
            (GcKeysCF::default, self.data.details_enum()),
            (GcKeysCF::lock, self.lock.details_enum()),
            (GcKeysCF::write, self.write.details_enum()),
        ]
    }

    /// `self` plus `other`, column family by column family.
    pub open spec fn spec_add(self, other: Self) -> Self {
        Statistics {
            lock: self.lock.spec_add(other.lock),
            write: self.write.spec_add(other.write),
            data: self.data.spec_add(other.data),
        }
    }

    /// Adds `other` column family by column family, saturating.
    pub fn add(&mut self, other: &Self)
        ensures
            *final(self) == old(self).spec_add(*other),
    {
        self.lock.add(&other.lock);
        self.write.add(&other.write);
        self.data.add(&other.data);
    }

    /// The scan counts of the three column families.
    pub fn scan_detail(&self) -> (r: ScanDetail)
        requires
            self.data.spec_total_op_count() <= usize::MAX,
            self.lock.spec_total_op_count() <= usize::MAX,
            self.write.spec_total_op_count() <= usize::MAX,
        ensures
            r.data == self.data.spec_scan_info(),
            r.lock == self.lock.spec_scan_info(),
            r.write == self.write.spec_scan_info(),
    {
        ScanDetail { data: self.data.scan_info(), lock: self.lock.scan_info(), write: self.write.scan_info() }
    }

    /// The counters of column family `cf`; the empty name is the default one.
    pub fn mut_cf_statistics(&mut self, cf: &str) -> (r: &mut CfStatistics)
        requires
            is_stats_cf(cf@),
        ensures
            (cf@.len() == 0 || cf@ == CF_DEFAULT@) ==> *r == old(self).data
                && *final(self) == (Statistics { data: *final(r), ..*old(self) }),
            cf@ == CF_LOCK@ ==> *r == old(self).lock
                && *final(self) == (Statistics { lock: *final(r), ..*old(self) }),
            cf@ == CF_WRITE@ ==> *r == old(self).write
                && *final(self) == (Statistics { write: *final(r), ..*old(self) }),
    {
        proof {
            reveal_strlit("default");
            reveal_strlit("lock");
            reveal_strlit("write");
        }
        if cf.unicode_len() == 0 || same_text(cf, CF_DEFAULT) {
            &mut self.data
        } else if same_text(cf, CF_LOCK) {
            &mut self.lock
        } else {
            &mut self.write
        }
    }
}

/// Statistics summed over a number of requests.
#[derive(Default, Clone, Copy, Debug, PartialEq, Eq, Structural)]
pub struct StatisticsSummary {
    pub stat: Statistics,
    pub count: u64,
}

impl StatisticsSummary {
    /// Adds the statistics of one more request.
    pub fn add_statistics(&mut self, v: &Statistics)
        requires
            old(self).count < u64::MAX,
        ensures
            final(self).stat == old(self).stat.spec_add(*v),
            final(self).count == old(self).count + 1,
    {
        self.stat.add(v);
        self.count = self.count + 1;
    }
}

} // verus!
