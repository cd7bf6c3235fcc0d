//! Per-connection sample buffering: samples accumulate in memory and are
//! written out as CSV files when the configured flush policy fires. The
//! writing itself is the caller's job: the buffer renders the file name and
//! content, and is told afterwards that the write succeeded.

use crate::message::{typ_str, EventTyp};
use crate::text::{dec_chars, u128_to_string};
use vstd::prelude::*;

verus! {

/// One key event sample: the key token, its relative receive time in
/// milliseconds, the event kind, and the numeric key code.
pub struct Data {
    pub key: String,
    pub timestamp: u64,
    pub typ: EventTyp,
    pub key_code: u16,
}

/// The mathematical shape of a sample, with the key as a character
/// sequence.
pub ghost struct DataModel {
    pub key: Seq<char>,
    pub timestamp: u64,
    pub typ: EventTyp,
    pub key_code: u16,
}

impl View for Data {
    type V = DataModel;

    open spec fn view(&self) -> DataModel {
        DataModel {
            key: self.key@,
            timestamp: self.timestamp,
            typ: self.typ,
            key_code: self.key_code,
        }
    }
}

impl DeepView for Data {
    type V = DataModel;

    open spec fn deep_view(&self) -> DataModel {
        self.view()
    }
}

/// A predicate over samples: a sample matches when both its key code and
/// its event kind equal the rule's.
#[derive(Clone, Copy, Debug)]
pub struct KeyRule {
    pub key_code: u16,
    pub typ: EventTyp,
}

impl KeyRule {
    pub open spec fn matches(self, d: DataModel) -> bool {
        d.key_code == self.key_code && d.typ == self.typ
    }

    pub fn check(&self, d: &Data) -> (r: bool)
        ensures
            r == self.matches(d@),
    {
        d.key_code == self.key_code && d.typ == self.typ
    }
}

/// When the buffer flushes on a push: after a fixed number of pushes, or
/// whenever the pushed sample matches a rule.
#[derive(Clone, Copy, Debug)]
pub enum WriteOn {
    Count(usize),
    Filter(KeyRule),
}

/// Whether a push flushes: `count_after` is the push counter as this push
/// leaves it, `d` the sample being pushed. With no policy nothing ever
/// flushes on push.
pub open spec fn write_on_triggers(on: Option<WriteOn>, count_after: int, d: DataModel) -> bool {
    match on {
        None => false,
        Some(WriteOn::Count(n)) => count_after == n,
        Some(WriteOn::Filter(rule)) => rule.matches(d),
    }
}

/// Law: under a filter policy, exactly the matching samples trigger a
/// flush; what the push counter stands at has no part in it.
pub proof fn lemma_filter_only_matching(rule: KeyRule, count_after: int, d: DataModel)
    ensures
        write_on_triggers(Some(WriteOn::Filter(rule)), count_after, d) == rule.matches(d),
{
}

/// Law: a count policy fires on the push that reaches the threshold and on
/// no other; since the push counter only grows, it fires at most once in a
/// session's lifetime.
pub proof fn lemma_count_fires_once(n: usize, c1: int, c2: int, d1: DataModel, d2: DataModel)
    requires
        c1 != c2,
    ensures
        write_on_triggers(Some(WriteOn::Count(n)), c1, d1) == (c1 == n),
        !(write_on_triggers(Some(WriteOn::Count(n)), c1, d1) && write_on_triggers(
            Some(WriteOn::Count(n)),
            c2,
            d2,
        )),
{
}

/// A sample's timestamp relative to the session baseline, truncated to 64
/// bits; a clock that moved backwards past the baseline reports 0.
pub open spec fn relative_spec(now_ms: u128, baseline: u128) -> u64 {
    if now_ms >= baseline {
        (now_ms - baseline) as u64
    } else {
        0
    }
}

pub fn relative_timestamp(now_ms: u128, baseline: u128) -> (r: u64)
    ensures
        r == relative_spec(now_ms, baseline),
{
    if now_ms >= baseline {
        #[verifier::truncate] ((now_ms - baseline) as u64)
    } else {
        0
    }
}

/// Law: within a session, relative timestamps never decrease as the clock
/// moves forward, so the first sample carries the smallest one, as long as
/// the session's span still fits in 64 bits.
pub proof fn lemma_relative_monotonic(baseline: u128, t1: u128, t2: u128)
    requires
        t1 <= t2,
        t2 >= baseline ==> t2 - baseline <= u64::MAX,
    ensures
        relative_spec(t1, baseline) <= relative_spec(t2, baseline),
{
}

/// One CSV row: the key, the relative timestamp, the key code, the event
/// kind, and the round-trip time the whole flush was written with.
pub open spec fn row_spec(d: DataModel, rtt: u128) -> Seq<char> {
    d.key + ","@ + dec_chars(d.timestamp as nat) + ","@ + dec_chars(d.key_code as nat) + ","@
        + typ_str(d.typ) + ","@ + dec_chars(rtt as nat) + "\n"@
}

/// The rows of a flush, in insertion order.
pub open spec fn rows_spec(rows: Seq<DataModel>, rtt: u128) -> Seq<char>
    decreases rows.len(),
{
    if rows.len() == 0 {
        Seq::empty()
    } else {
        rows_spec(rows.drop_last(), rtt) + row_spec(rows.last(), rtt)
    }
}

/// A whole flush file: the header row, then one row per sample.
pub open spec fn csv_spec(rows: Seq<DataModel>, rtt: u128) -> Seq<char> {
    "key,timestamp,key_code,typ,rtt\n"@ + rows_spec(rows, rtt)
}

/// The name of the next flush file: prefix, connection number and file
/// sequence number.
pub open spec fn file_name_spec(prefix: Seq<char>, conn: nat, file: nat) -> Seq<char> {
    prefix + "_"@ + dec_chars(conn) + "_"@ + dec_chars(file) + ".csv"@
}

/// Render one CSV row.
fn render_row(d: &Data, rtt: u128) -> (r: String)
    ensures
        r@ == row_spec(d@, rtt),
{
    let mut out = d.key.clone();
    out.append(",");
    let ts = u128_to_string(d.timestamp as u128);
    out.append(ts.as_str());
    out.append(",");
    let kc = u128_to_string(d.key_code as u128);
    out.append(kc.as_str());
    out.append(",");
    out.append(d.typ.as_str());
    out.append(",");
    let rt = u128_to_string(rtt);
    out.append(rt.as_str());
    out.append("\n");
    out
}

/// The per-connection sample buffer. Samples accumulate in `buffer`;
/// `counter` counts every push; `file_counter` numbers the flush files
/// already written; `rtt` is the most recently measured round-trip time,
/// stamped on every row of a flush.
pub struct DataHolder {
    pub buffer: Vec<Data>,
    pub counter: usize,
    pub out_dir: String,
    pub file_counter: usize,
    pub connection_counter: usize,
    pub write_on: Option<WriteOn>,
    pub out_prefix: &'static str,
    pub rtt: u128,
    pub first_timestamp: u128,
}

impl DataHolder {
    /// The buffered samples, as their mathematical shapes, in insertion
    /// order.
    pub open spec fn rows(self) -> Seq<DataModel> {
        self.buffer.deep_view()
    }

    /// The parts of the holder that no push or flush may touch.
    pub open spec fn same_config(self, other: DataHolder) -> bool {
        &&& self.out_dir@ == other.out_dir@
        &&& self.out_prefix@ == other.out_prefix@
        &&& self.connection_counter == other.connection_counter
        &&& self.write_on == other.write_on
        &&& self.first_timestamp == other.first_timestamp
    }

    pub fn new(
        write_on: Option<WriteOn>,
        out_dir: String,
        out_prefix: &'static str,
        connection_counter: usize,
        first_timestamp: u128,
    ) -> (r: DataHolder)
        ensures
            r.rows() =~= Seq::<DataModel>::empty(),
            r.counter == 0,
            r.file_counter == 0,
            r.rtt == 0,
            r.out_dir@ == out_dir@,
            r.out_prefix@ == out_prefix@,
            r.connection_counter == connection_counter,
            r.write_on == write_on,
            r.first_timestamp == first_timestamp,
    {
        DataHolder {
            buffer: Vec::new(),
            counter: 0,
            out_dir,
            file_counter: 0,
            connection_counter,
            write_on,
            out_prefix,
            rtt: 0,
            first_timestamp,
        }
    }

    /// The session baseline: the absolute time this holder was created.
    pub fn first_timestamp(&self) -> (r: u128)
        ensures
            r == self.first_timestamp,
    {
        self.first_timestamp
    }

    /// Record a freshly measured round-trip time; only future flushes use
    /// it.
    pub fn update_rtt(&mut self, rtt: u128)
        ensures
            final(self).rtt == rtt,
            final(self).rows() == old(self).rows(),
            final(self).counter == old(self).counter,
            final(self).file_counter == old(self).file_counter,
            final(self).same_config(*old(self)),
    {
        self.rtt = rtt;
    }

    /// Append a sample and say whether the flush policy fires on it: a
    /// count policy fires when this push makes the counter reach it, a
    /// filter policy when the sample matches. The caller then writes the
    /// rendered file and reports back through `complete_flush`.
    pub fn push(&mut self, value: Data) -> (flush_now: bool)
        requires
            old(self).counter < usize::MAX,
        ensures
            final(self).rows() == old(self).rows().push(value@),
            final(self).counter == old(self).counter + 1,
            flush_now == write_on_triggers(old(self).write_on, old(self).counter + 1, value@),
            final(self).file_counter == old(self).file_counter,
            final(self).rtt == old(self).rtt,
            final(self).same_config(*old(self)),
    {
        let flush_now = match &self.write_on {
            None => false,
            Some(WriteOn::Count(n)) => self.counter + 1 == *n,
            Some(WriteOn::Filter(rule)) => rule.check(&value),
        };
        let ghost pre = self.buffer.deep_view();
        let ghost v = value@;
        self.buffer.push(value);
        self.counter = self.counter + 1;
        proof {
            assert(self.buffer.deep_view() =~= pre.push(v));
        }
        flush_now
    }

    /// The name of the file the next flush writes.
    pub fn flush_file_name(&self) -> (r: String)
        ensures
            r@ == file_name_spec(
                self.out_prefix@,
                self.connection_counter as nat,
                self.file_counter as nat,
            ),
    {
        let mut out = self.out_prefix.to_owned();
        out.append("_");
        let conn = u128_to_string(self.connection_counter as u128);
        out.append(conn.as_str());
        out.append("_");
        let file = u128_to_string(self.file_counter as u128);
        out.append(file.as_str());
        out.append(".csv");
        out
    }

    /// The content of the file the next flush writes: the header, then each
    /// buffered sample in insertion order, every row stamped with the
    /// current round-trip time.
    pub fn flush_content(&self) -> (r: String)
        ensures
            r@ == csv_spec(self.rows(), self.rtt),
    {
        let mut out = "key,timestamp,key_code,typ,rtt\n".to_owned();
        let mut i: usize = 0;
        let n = self.buffer.len();
        while i < n
            invariant
                n == self.buffer.len(),
                0 <= i <= n,
                out@ == "key,timestamp,key_code,typ,rtt\n"@ + rows_spec(
                    self.rows().take(i as int),
                    self.rtt,
                ),
            decreases n - i,
        {
            let row = render_row(&self.buffer[i], self.rtt);
            out.append(row.as_str());
            proof {
                assert(self.rows().take(i + 1).drop_last() =~= self.rows().take(i as int));
                assert(self.rows().take(i + 1).last() == self.rows()[i as int]);
                assert(self.rows()[i as int] == self.buffer[i as int]@);
            }
            i = i + 1;
        }
        proof {
            assert(self.rows().take(n as int) =~= self.rows());
        }
        out
    }

    /// Note that the rendered flush file was written: clear the buffer and
    /// move to the next file sequence number. The push counter is not
    /// reset.
    pub fn complete_flush(&mut self)
        requires
            old(self).file_counter < usize::MAX,
        ensures
            final(self).rows() =~= Seq::<DataModel>::empty(),
            final(self).file_counter == old(self).file_counter + 1,
            final(self).counter == old(self).counter,
            final(self).rtt == old(self).rtt,
            final(self).same_config(*old(self)),
    {
        self.buffer.clear();
        self.file_counter = self.file_counter + 1;
    }
}

/// The dispatcher's per-service configuration: where flush files go, what
/// their names start with, the flush policy every connection starts with,
/// and the number the next connection gets.
pub struct Distributer {
    pub out_dir: String,
    pub write_on: Option<WriteOn>,
    pub out_prefix: &'static str,
    pub next_connection: usize,
}

impl Distributer {
    pub fn new(write_on: Option<WriteOn>, out_dir: String, out_prefix: &'static str) -> (r:
        Distributer)
        ensures
            r.out_dir@ == out_dir@,
            r.write_on == write_on,
            r.out_prefix@ == out_prefix@,
            r.next_connection == 0,
    {
        Distributer { out_dir, write_on, out_prefix, next_connection: 0 }
    }

    /// A fresh holder for a newly accepted connection: it takes the shared
    /// configuration, the next connection number, and a baseline timestamp
    /// read from the clock now.
    pub fn new_connection(&mut self) -> (r: DataHolder)
        requires
            old(self).next_connection < usize::MAX,
        ensures
            r.rows() =~= Seq::<DataModel>::empty(),
            r.counter == 0,
            r.file_counter == 0,
            r.rtt == 0,
            r.out_dir@ == old(self).out_dir@,
            r.out_prefix@ == old(self).out_prefix@,
            r.write_on == old(self).write_on,
            r.connection_counter == old(self).next_connection,
            final(self).next_connection == old(self).next_connection + 1,
            final(self).out_dir@ == old(self).out_dir@,
            final(self).out_prefix@ == old(self).out_prefix@,
            final(self).write_on == old(self).write_on,
    {
        let baseline = crate::time::now();
        let holder = DataHolder::new(
            self.write_on,
            self.out_dir.clone(),
            self.out_prefix,
            self.next_connection,
            baseline,
        );
        self.next_connection = self.next_connection + 1;
        holder
    }
}

} // verus!
