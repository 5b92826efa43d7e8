use vstd::prelude::*;
use crate::bytes::{bytes_lt, copy_bytes, less_than, same_text};
use crate::compression::{select, spec_select, CompressionError, CompressionType};

verus! {

/// The column family used when a builder names none.
pub const CF_DEFAULT: &'static str = "default";

/// Where the bytes of a file live.
#[derive(Clone, Copy, Debug, PartialEq, Eq, Structural)]
pub enum FileEnv {
    /// The process-wide default environment (the real filesystem).
    Default,
    /// An environment shared with a source database, identified by its handle.
    Shared(u64),
    /// A fresh memory-backed environment owned by one writer.
    Memory,
}

/// The part of a column family's options that the writer resolves.
#[derive(Clone, Debug)]
pub struct CfOptions {
    pub compression: CompressionType,
    pub compression_per_level: Vec<CompressionType>,
    pub bottommost_compression: CompressionType,
    pub env: FileEnv,
}

impl CfOptions {
    /// Options of a column family created from scratch.
    pub fn new() -> (r: CfOptions)
        ensures
            r.compression == CompressionType::Snappy,
            r.compression_per_level@ == Seq::<CompressionType>::empty(),
            r.bottommost_compression == CompressionType::Disable,
            r.env == FileEnv::Default,
    {
        CfOptions {
            compression: CompressionType::Snappy,
            compression_per_level: Vec::new(),
            bottommost_compression: CompressionType::Disable,
            env: FileEnv::Default,
        }
    }
}

/// One column family of a source database: its name and current options.
#[derive(Clone, Debug)]
pub struct ColumnFamily {
    pub name: String,
    pub options: CfOptions,
}

/// What a builder reads from an open database: its column families and the
/// environment it runs in, if any.
#[derive(Clone, Debug)]
pub struct SourceDb {
    pub column_families: Vec<ColumnFamily>,
    pub env: Option<u64>,
}

/// `i` is the first position of a column family called `name`.
pub open spec fn is_first_cf(cfs: Seq<ColumnFamily>, name: Seq<char>, i: int) -> bool {
    &&& 0 <= i < cfs.len()
    &&& cfs[i].name@ == name
    &&& forall|j: int| 0 <= j < i ==> cfs[j].name@ != name
}

/// Whether `cfs` holds a column family called `name`.
pub open spec fn has_cf(cfs: Seq<ColumnFamily>, name: Seq<char>) -> bool {
    exists|i: int| 0 <= i < cfs.len() && cfs[i].name@ == name
}

/// The first column family called `name`; meaningful when `has_cf` holds.
pub open spec fn cf_named(cfs: Seq<ColumnFamily>, name: Seq<char>) -> ColumnFamily {
    cfs[choose|i: int| is_first_cf(cfs, name, i)]
}

impl SourceDb {
    /// Looks up a column family by name, the first one if several share it.
    pub fn cf_handle(&self, name: &str) -> (r: Option<usize>)
        ensures
            r.is_none() <==> !has_cf(self.column_families@, name@),
            r.is_some() ==> is_first_cf(self.column_families@, name@, r.unwrap() as int),
            r.is_some() ==> self.column_families@[r.unwrap() as int] == cf_named(self.column_families@, name@),
    {
        let mut i: usize = 0;
        while i < self.column_families.len()
            invariant
                i <= self.column_families@.len(),
                forall|j: int| 0 <= j < i ==> self.column_families@[j].name@ != name@,
            decreases self.column_families@.len() - i,
        {
            if same_text(self.column_families[i].name.as_str(), name) {
                let ghost cfs = self.column_families@;
                proof {
                    assert(is_first_cf(cfs, name@, i as int));
                    let k = choose|k: int| is_first_cf(cfs, name@, k);
                    if k < i {
                        assert(cfs[k].name@ != name@);
                    } else if k > i {
                        assert(cfs[i as int].name@ != name@);
                    }
                }
                return Some(i);
            }
            i = i + 1;
        }
        None
    }
}

/// Errors of building and finishing SST files.
#[derive(Clone, Debug, PartialEq, Eq)]
pub enum SstError {
    /// The source database has no column family of the requested name.
    ColumnFamilyNotFound(String),
    /// The requested compression algorithm is not supported by the engine.
    UnsupportedCompression(CompressionType),
    /// A key did not sort after every key appended before it.
    KeyOutOfOrder,
    /// Read-back was requested from a writer that owns no environment.
    MissingEnvironment,
    /// The finished file's path is not text the engine accepts.
    InvalidPath,
    /// The engine reported a failure.
    Engine(String),
}

/// A builder that gathers the configuration of an `SstWriter`.
#[derive(Clone, Debug)]
pub struct SstWriterBuilder {
    cf: Option<&'static str>,
    db: Option<SourceDb>,
    in_memory: bool,
    compression_type: Option<CompressionType>,
}

impl SstWriterBuilder {
    /// The column family requested, if any.
    pub closed spec fn spec_cf(&self) -> Option<&'static str> {
        self.cf
    }

    /// The source database, if any.
    pub closed spec fn spec_db(&self) -> Option<SourceDb> {
        self.db
    }

    /// Whether the file is to live in memory.
    pub closed spec fn spec_in_memory(&self) -> bool {
        self.in_memory
    }

    /// The explicitly requested algorithm, if any.
    pub closed spec fn spec_compression_type(&self) -> Option<CompressionType> {
        self.compression_type
    }

    /// The name of the column family the writer takes its options from.
    pub open spec fn target_cf(&self) -> Seq<char> {
        match self.spec_cf() {
            Some(cf) => cf@,
            None => CF_DEFAULT@,
        }
    }

    /// A builder for a disk file with default options and the fastest compression.
    pub fn new() -> (r: SstWriterBuilder)
        ensures
            r.spec_cf().is_none(),
            r.spec_db().is_none(),
            !r.spec_in_memory(),
            r.spec_compression_type().is_none(),
    {
        SstWriterBuilder { cf: None, in_memory: false, db: None, compression_type: None }
    }

    /// Takes options and environment from `db`.
    pub fn set_db(self, db: SourceDb) -> (r: Self)
        ensures
            r.spec_db() == Some(db),
            r.spec_cf() == self.spec_cf(),
            r.spec_in_memory() == self.spec_in_memory(),
            r.spec_compression_type() == self.spec_compression_type(),
    {
        let mut b = self;
        b.db = Some(db);
        b
    }

    /// Takes options from the column family `cf` of the database.
    pub fn set_cf(self, cf: &'static str) -> (r: Self)
        ensures
            r.spec_cf() == Some(cf),
            r.spec_db() == self.spec_db(),
            r.spec_in_memory() == self.spec_in_memory(),
            r.spec_compression_type() == self.spec_compression_type(),
    {
        let mut b = self;
        b.cf = Some(cf);
        b
    }

    /// Chooses between a memory-backed file and a file on disk.
    pub fn set_in_memory(self, in_memory: bool) -> (r: Self)
        ensures
            r.spec_in_memory() == in_memory,
            r.spec_cf() == self.spec_cf(),
            r.spec_db() == self.spec_db(),
            r.spec_compression_type() == self.spec_compression_type(),
    {
        let mut b = self;
        b.in_memory = in_memory;
        b
    }

    /// Requests an explicit compression algorithm, or the fastest supported one.
    pub fn set_compression_type(self, compression_type: Option<CompressionType>) -> (r: Self)
        ensures
            r.spec_compression_type() == compression_type,
            r.spec_cf() == self.spec_cf(),
            r.spec_db() == self.spec_db(),
            r.spec_in_memory() == self.spec_in_memory(),
    {
        let mut b = self;
        b.compression_type = compression_type;
        b
    }

    /// Whether building fails because the source database lacks the column family.
    pub open spec fn spec_cf_missing(&self) -> bool {
        self.spec_db().is_some() && !has_cf(self.spec_db().unwrap().column_families@, self.target_cf())
    }

    /// The environment the writer's options end up with.
    pub open spec fn spec_env(&self) -> FileEnv {
        if self.spec_in_memory() {
            FileEnv::Memory
        } else {
            match self.spec_db() {
                None => FileEnv::Default,
                Some(db) => match db.env {
                    Some(id) => FileEnv::Shared(id),
                    None => cf_named(db.column_families@, self.target_cf()).options.env,
                },
            }
        }
    }

    /// Resolves the configuration and yields a writer for the file at `path`.
    /// `supported` is the set of compression algorithms compiled into the engine.
    /// No file is touched here: the caller opens the engine's file once this succeeds.
    pub fn build(self, path: &str, supported: &Vec<CompressionType>) -> (r: Result<SstWriter, SstError>)
        ensures
            self.spec_cf_missing() ==> (r matches Err(SstError::ColumnFamilyNotFound(name))
                && name@ == self.target_cf()),
            !self.spec_cf_missing() && spec_select(supported@, self.spec_compression_type()) is Err
                ==> r == Err::<SstWriter, SstError>(SstError::UnsupportedCompression(
                    self.spec_compression_type().unwrap())),
            !self.spec_cf_missing() && spec_select(supported@, self.spec_compression_type()) is Ok
                ==> r is Ok,
            r is Ok ==> {
                let w = r.unwrap();
                &&& w.wf()
                &&& w.path()@ == path@
                &&& w.owns_env() == self.spec_in_memory()
                &&& w.records() == Seq::<RecordView>::empty()
                &&& w.options().compression == spec_select(supported@, self.spec_compression_type()).unwrap()
                &&& w.options().compression_per_level@ == Seq::<CompressionType>::empty()
                &&& w.options().bottommost_compression == CompressionType::Disable
                &&& w.options().env == self.spec_env()
            },
    {
        let target: &'static str = match self.cf {
            Some(cf) => cf,
            None => CF_DEFAULT,
        };
        let mut shared_env: Option<u64> = None;
        let mut options = match self.db {
            Some(db) => {
                shared_env = db.env;
                let found = db.cf_handle(target);
                match found {
                    None => {
                        return Err(SstError::ColumnFamilyNotFound(target.to_owned()));
                    },
                    Some(i) => {
                        let mut cfs = db.column_families;
                        let cf = cfs.swap_remove(i);
                        cf.options
                    },
                }
            },
            None => CfOptions::new(),
        };
        if self.in_memory {
            options.env = FileEnv::Memory;
        } else if let Some(id) = shared_env {
            options.env = FileEnv::Shared(id);
        }
        let compression = match select(supported, self.compression_type) {
            Ok(ct) => ct,
            Err(CompressionError::Unsupported(ct)) => {
                return Err(SstError::UnsupportedCompression(ct));
            },
        };
        options.compression = compression;
        // The engine prefers per-level and bottommost settings over the single
        // algorithm, so both are cleared for the choice above to take effect.
        options.compression_per_level = Vec::new();
        options.bottommost_compression = CompressionType::Disable;
        Ok(SstWriter { path: path.to_owned(), options, owns_env: self.in_memory, records: Vec::new() })
    }
}

/// One record of an SST file.
#[derive(Clone, Debug, PartialEq, Eq)]
pub enum SstRecord {
    /// A live key with its value.
    Put { key: Vec<u8>, value: Vec<u8> },
    /// A tombstone for a key.
    Delete { key: Vec<u8> },
}

/// What a record holds, as byte sequences.
pub enum RecordView {
    Put(Seq<u8>, Seq<u8>),
    Delete(Seq<u8>),
}

impl RecordView {
    pub open spec fn key(self) -> Seq<u8> {
        match self {
            RecordView::Put(k, _) => k,
            RecordView::Delete(k) => k,
        }
    }
}

impl View for SstRecord {
    type V = RecordView;

    open spec fn view(&self) -> RecordView {
        match self {
            SstRecord::Put { key, value } => RecordView::Put(key@, value@),
            SstRecord::Delete { key } => RecordView::Delete(key@),
        }
    }
}

impl SstRecord {
    pub open spec fn spec_key(&self) -> Seq<u8> {
        self@.key()
    }

    /// The record's key.
    pub fn key(&self) -> (r: &Vec<u8>)
        ensures
            r@ == self.spec_key(),
    {
        match self {
            SstRecord::Put { key, .. } => key,
            SstRecord::Delete { key } => key,
        }
    }
}

/// Keys strictly increase from each record to the next.
pub open spec fn keys_increasing(records: Seq<RecordView>) -> bool {
    forall|i: int| 0 < i < records.len() ==> bytes_lt(#[trigger] records[i - 1].key(), records[i].key())
}

/// Whether a record with key `key` may follow `records`.
pub open spec fn may_append(records: Seq<RecordView>, key: Seq<u8>) -> bool {
    records.len() == 0 || bytes_lt(records.last().key(), key)
}

/// The records after appending each of `ops` in turn, or `None` once one is refused.
pub open spec fn append_all(records: Seq<RecordView>, ops: Seq<RecordView>) -> Option<Seq<RecordView>>
    decreases ops.len(),
{
    if ops.len() == 0 {
        Some(records)
    } else {
        match append_all(records, ops.drop_last()) {
            None => None,
            Some(prev) => if may_append(prev, ops.last().key()) {
                Some(prev.push(ops.last()))
            } else {
                None
            },
        }
    }
}

/// A writer of one SST file: an append-only stream of records whose keys
/// strictly increase, with the resolved options of its file.
#[derive(Debug)]
pub struct SstWriter {
    path: String,
    options: CfOptions,
    owns_env: bool,
    records: Vec<SstRecord>,
}

/// A finished SST file: where it goes, how it is written, and what it holds.
#[derive(Debug)]
pub struct FinishedSst {
    pub file_path: String,
    pub options: CfOptions,
    pub in_memory: bool,
    pub records: Vec<SstRecord>,
}

impl FinishedSst {
    /// The number of records in the file.
    pub fn num_entries(&self) -> (r: u64)
        ensures
            r == self.records@.len(),
    {
        self.records.len() as u64
    }
}

impl SstWriter {
    /// The path of the file being written.
    pub closed spec fn path(&self) -> String {
        self.path
    }

    /// The options the file is written with.
    pub closed spec fn options(&self) -> CfOptions {
        self.options
    }

    /// Whether the writer owns a memory environment.
    pub closed spec fn owns_env(&self) -> bool {
        self.owns_env
    }

    /// The records appended so far.
    pub closed spec fn records(&self) -> Seq<RecordView> {
        self.records@.map_values(|r: SstRecord| r@)
    }

    /// Records appended so far keep strictly increasing keys.
    pub closed spec fn wf(&self) -> bool {
        keys_increasing(self.records())
    }

    /// The path of the file being written.
    pub fn file_path(&self) -> (r: &String)
        ensures
            *r == self.path(),
    {
        &self.path
    }

    /// The options the file is written with.
    pub fn resolved_options(&self) -> (r: &CfOptions)
        ensures
            *r == self.options(),
    {
        &self.options
    }

    /// Whether the writer owns a memory environment holding the file.
    pub fn in_memory(&self) -> (r: bool)
        ensures
            r == self.owns_env(),
    {
        self.owns_env
    }

    /// The number of records appended so far.
    pub fn num_entries(&self) -> (r: u64)
        ensures
            r == self.records().len(),
    {
        self.records.len() as u64
    }

    fn append(&mut self, rec: SstRecord) -> (r: Result<(), SstError>)
        requires
            old(self).wf(),
        ensures
            final(self).wf(),
            final(self).path() == old(self).path(),
            final(self).options() == old(self).options(),
            final(self).owns_env() == old(self).owns_env(),
            may_append(old(self).records(), rec.spec_key()) ==> r is Ok && final(self).records()
                == old(self).records().push(rec@),
            !may_append(old(self).records(), rec.spec_key()) ==> r == Err::<(), SstError>(
                SstError::KeyOutOfOrder) && final(self).records() == old(self).records(),
    {
        let n = self.records.len();
        if n > 0 && !less_than(self.records[n - 1].key().as_slice(), rec.key().as_slice()) {
            return Err(SstError::KeyOutOfOrder);
        }
        self.records.push(rec);
        assert(self.records() =~= old(self).records().push(rec@));
        Ok(())
    }

    /// Appends a live key/value record; `key` must sort after every key appended before.
    pub fn put(&mut self, key: &[u8], val: &[u8]) -> (r: Result<(), SstError>)
        requires
            old(self).wf(),
        ensures
            final(self).wf(),
            final(self).path() == old(self).path(),
            final(self).options() == old(self).options(),
            final(self).owns_env() == old(self).owns_env(),
            may_append(old(self).records(), key@) ==> r is Ok && final(self).records()
                == old(self).records().push(RecordView::Put(key@, val@)),
            !may_append(old(self).records(), key@) ==> r == Err::<(), SstError>(
                SstError::KeyOutOfOrder) && final(self).records() == old(self).records(),
    {
        let rec = SstRecord::Put { key: copy_bytes(key), value: copy_bytes(val) };
        self.append(rec)
    }

    /// Appends a tombstone for `key`; `key` must sort after every key appended before.
    pub fn delete(&mut self, key: &[u8]) -> (r: Result<(), SstError>)
        requires
            old(self).wf(),
        ensures
            final(self).wf(),
            final(self).path() == old(self).path(),
            final(self).options() == old(self).options(),
            final(self).owns_env() == old(self).owns_env(),
            may_append(old(self).records(), key@) ==> r is Ok && final(self).records()
                == old(self).records().push(RecordView::Delete(key@)),
            !may_append(old(self).records(), key@) ==> r == Err::<(), SstError>(
                SstError::KeyOutOfOrder) && final(self).records() == old(self).records(),
    {
        let rec = SstRecord::Delete { key: copy_bytes(key) };
        self.append(rec)
    }

    /// Closes the stream of records; the writer is consumed.
    pub fn finish(self) -> (r: FinishedSst)
        ensures
            r.file_path@ == self.path()@,
            r.options == self.options(),
            r.in_memory == self.owns_env(),
            r.records@.map_values(|x: SstRecord| x@) == self.records(),
    {
        FinishedSst {
            file_path: self.path,
            options: self.options,
            in_memory: self.owns_env,
            records: self.records,
        }
    }

    /// Closes the stream of records for reading back through the writer's own
    /// memory environment; a writer built for disk owns none.
    pub fn finish_read(self) -> (r: Result<FinishedSst, SstError>)
        ensures
            !self.owns_env() ==> r == Err::<FinishedSst, SstError>(SstError::MissingEnvironment),
            self.owns_env() ==> r is Ok,
            r is Ok ==> {
                let f = r.unwrap();
                &&& f.file_path@ == self.path()@
                &&& f.options == self.options()
                &&& f.in_memory
                &&& f.records@.map_values(|x: SstRecord| x@) == self.records()
            },
    {
        if !self.owns_env {
            return Err(SstError::MissingEnvironment);
        }
        Ok(self.finish())
    }
}

/// A stream whose keys strictly increase is accepted whole: appending its
/// records one by one to an empty writer keeps every record, in order.
pub proof fn lemma_increasing_stream_kept(ops: Seq<RecordView>)
    requires
        keys_increasing(ops),
    ensures
        append_all(Seq::empty(), ops) == Some(ops),
    decreases ops.len(),
{
    if ops.len() > 0 {
        let init = ops.drop_last();
        assert forall|i: int| 0 < i < init.len() implies bytes_lt(#[trigger] init[i - 1].key(), init[i].key()) by {
            assert(init[i - 1] == ops[i - 1]);
            assert(init[i] == ops[i]);
            assert(bytes_lt(ops[i - 1].key(), ops[i].key()));
        }
        lemma_increasing_stream_kept(init);
        if init.len() > 0 {
            assert(init.last() == ops[ops.len() - 2]);
            assert(bytes_lt(ops[ops.len() - 1 - 1].key(), ops[ops.len() - 1].key()));
        }
        assert(init.push(ops.last()) =~= ops);
    }
}

/// Once a stream of N records with strictly increasing keys is appended to an
/// empty writer, it holds exactly N entries.
pub proof fn lemma_entry_count(ops: Seq<RecordView>)
    requires
        keys_increasing(ops),
    ensures
        append_all(Seq::empty(), ops) is Some,
        append_all(Seq::empty(), ops).unwrap().len() == ops.len(),
{
    lemma_increasing_stream_kept(ops);
}

/// Every record sequence a writer accepts has strictly increasing keys.
pub proof fn lemma_accepted_streams_increase(records: Seq<RecordView>, ops: Seq<RecordView>)
    requires
        keys_increasing(records),
        append_all(records, ops) is Some,
    ensures
        keys_increasing(append_all(records, ops).unwrap()),
        append_all(records, ops).unwrap() == records + ops,
    decreases ops.len(),
{
    if ops.len() == 0 {
        assert(records + ops =~= records);
    } else {
        lemma_accepted_streams_increase(records, ops.drop_last());
        let prev = append_all(records, ops.drop_last()).unwrap();
        let next = prev.push(ops.last());
        assert forall|i: int| 0 < i < next.len() implies bytes_lt(#[trigger] next[i - 1].key(), next[i].key()) by {
            if i < prev.len() {
                assert(next[i - 1] == prev[i - 1]);
                assert(next[i] == prev[i]);
            }
        }
        assert(records + ops.drop_last() + seq![ops.last()] =~= records + ops);
        assert(prev.push(ops.last()) =~= prev + seq![ops.last()]);
    }
}

} // verus!
