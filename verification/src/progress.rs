//! The progress decorator: a byte source that counts what passes through it and reports
//! the count after every read that yields bytes.
//!
//! The decorator wraps the raw source, beneath any decoder. It measures the bytes that
//! arrive from the transport, not the bytes that come out of decompression. It reports
//! to a [`ProgressSink`]: to a [`Callback`], which calls a function, or to a
//! [`ProgressLog`], which keeps the reports.

use vstd::prelude::*;
use crate::stream::ByteSource;
use crate::stream::CHUNK_SIZE;

verus! {

/// Whether `log` is what a progress decorator has reported by the time it has counted
/// `bytes_read` bytes: every report carries `total`, the counts are positive and rise
/// from each report to the next, and the last count is `bytes_read`. Without a report
/// nothing has been counted.
pub open spec fn is_progress_log(log: Seq<(u64, u64)>, bytes_read: u64, total: u64) -> bool {
    &&& forall|i: int| 0 <= i < log.len() ==> (#[trigger] log[i]).1 == total && 0 < log[i].0
    &&& forall|i: int, j: int| 0 <= i < j < log.len() ==> (#[trigger] log[i]).0 < (#[trigger] log[j]).0
    &&& if log.len() == 0 {
        bytes_read == 0
    } else {
        log.last().0 == bytes_read
    }
}

/// Whether a sink that held the reports `before` holds `after` once `bytes_read` bytes
/// have been read through a progress decorator: all that it held before, followed by the
/// progress log of the read.
pub open spec fn has_taken_progress(
    before: Seq<(u64, u64)>,
    after: Seq<(u64, u64)>,
    bytes_read: u64,
    total: u64,
) -> bool {
    &&& before.is_prefix_of(after)
    &&& is_progress_log(after.skip(before.len() as int), bytes_read, total)
}

/// Where progress is reported to.
pub trait ProgressSink {
    /// What must hold of the sink between calls.
    spec fn inv(&self) -> bool;

    /// All the reports that the sink has taken so far, in order: the count and the total
    /// of each.
    spec fn reports(&self) -> Seq<(u64, u64)>;

    /// Takes one report: `count` bytes have been read so far, of `total`.
    fn report(&mut self, count: u64, total: u64)
        requires
            old(self).inv(),
        ensures
            final(self).inv(),
            final(self).reports() == old(self).reports().push((count, total)),
    ;
}

/// A sink that keeps the reports it takes.
#[derive(Debug)]
pub struct ProgressLog {
    entries: Vec<(u64, u64)>,
}

impl ProgressLog {
    /// The reports kept.
    pub closed spec fn kept(&self) -> Seq<(u64, u64)> {
        self.entries@
    }

    /// A sink that has taken no report yet.
    pub fn new() -> (log: ProgressLog)
        ensures
            log.kept() == Seq::<(u64, u64)>::empty(),
    {
        ProgressLog { entries: Vec::new() }
    }

    /// Hands out the reports kept, in the order in which they were taken.
    pub fn into_vec(self) -> (entries: Vec<(u64, u64)>)
        ensures
            entries@ == self.kept(),
    {
        self.entries
    }
}

impl ProgressSink for ProgressLog {
    open spec fn inv(&self) -> bool {
        true
    }

    open spec fn reports(&self) -> Seq<(u64, u64)> {
        self.kept()
    }

    fn report(&mut self, count: u64, total: u64) {
        self.entries.push((count, total));
    }
}

/// A sink that hands every report to a callback: it calls the callback with the count
/// and the total.
pub struct Callback<F> {
    callback: F,
    made: Ghost<Seq<(u64, u64)>>,
}

impl<F: Fn(u64, u64)> Callback<F> {
    /// The calls of the callback made so far: the arguments of each, in order.
    pub closed spec fn calls(&self) -> Seq<(u64, u64)> {
        self.made@
    }

    /// Whether the callback can be called with every count and total.
    pub closed spec fn callable(&self) -> bool {
        forall|count: u64, total: u64| call_requires(self.callback, (count, total))
    }

    /// A sink that reports to `callback`, which has not been called yet.
    pub fn new(callback: F) -> (sink: Self)
        requires
            forall|count: u64, total: u64| call_requires(callback, (count, total)),
        ensures
            sink.callable(),
            sink.calls() == Seq::<(u64, u64)>::empty(),
    {
        Callback { callback, made: Ghost(Seq::empty()) }
    }
}

impl<F: Fn(u64, u64)> ProgressSink for Callback<F> {
    open spec fn inv(&self) -> bool {
        self.callable()
    }

    open spec fn reports(&self) -> Seq<(u64, u64)> {
        self.calls()
    }

    fn report(&mut self, count: u64, total: u64) {
        (self.callback)(count, total);
        self.made = Ghost(self.made@.push((count, total)));
    }
}

/// A byte source that reports how many bytes have been read through it.
pub struct ProgressReader<R, S> {
    inner: R,
    bytes_read: u64,
    total_size: Option<u64>,
    sink: S,
    before: Ghost<nat>,
    length: Ghost<nat>,
}

impl<R: ByteSource, S: ProgressSink> ProgressReader<R, S> {
    /// All the reports that the sink of the decorator has taken so far, those from
    /// before the decorator was made included.
    pub closed spec fn sink_reports(&self) -> Seq<(u64, u64)> {
        self.sink.reports()
    }

    /// The reports that the decorator has made so far, in order.
    pub closed spec fn reports(&self) -> Seq<(u64, u64)> {
        self.sink.reports().skip(self.before@ as int)
    }

    /// The number of bytes read through the decorator so far.
    pub closed spec fn bytes_read(&self) -> u64 {
        self.bytes_read
    }

    /// The total size that the decorator was made with; `None` where it is unknown.
    pub closed spec fn total_size(&self) -> Option<u64> {
        self.total_size
    }

    /// The number of bytes that the wrapped source held when the decorator was made.
    pub closed spec fn source_length(&self) -> nat {
        self.length@
    }

    /// The bytes that the wrapped source has yet to hand out.
    pub closed spec fn unread(&self) -> Seq<u8> {
        self.inner.remaining()
    }

    /// The total that every report carries: the total size, or zero where it is unknown.
    pub open spec fn reported_total(&self) -> u64 {
        match self.total_size() {
            Some(total) => total,
            None => 0,
        }
    }

    /// What must hold of the decorator between calls.
    pub closed spec fn wf(&self) -> bool {
        &&& self.inner.inv()
        &&& self.sink.inv()
        &&& self.before@ <= self.sink.reports().len()
        &&& self.bytes_read + self.inner.remaining().len() == self.length@
        &&& self.length@ <= u64::MAX
        &&& is_progress_log(self.reports(), self.bytes_read, self.reported_total())
    }

    /// Wraps `inner`, to report to `sink`. Nothing has been read or reported yet.
    pub fn new(inner: R, total_size: Option<u64>, sink: S) -> (reader: Self)
        requires
            inner.inv(),
            sink.inv(),
        ensures
            reader.wf(),
            reader.unread() == inner.remaining(),
            reader.source_length() == inner.remaining().len(),
            reader.total_size() == total_size,
            reader.bytes_read() == 0,
            reader.reports() == Seq::<(u64, u64)>::empty(),
            reader.sink_reports() == sink.reports(),
    {
        proof {
            inner.lemma_remaining_fits();
        }
        ProgressReader {
            inner,
            bytes_read: 0,
            total_size,
            sink,
            before: Ghost(sink.reports().len()),
            length: Ghost(inner.remaining().len()),
        }
    }

    /// Ends the decorator and hands out its sink, which holds what was reported.
    pub fn into_sink(self) -> (sink: S)
        requires
            self.wf(),
        ensures
            sink.inv(),
            sink.reports() == self.sink_reports(),
    {
        self.sink
    }

    /// The number of bytes read through the decorator so far.
    pub fn count(&self) -> (n: u64)
        ensures
            n == self.bytes_read(),
    {
        self.bytes_read
    }

    /// Reads the wrapped source to its end through the decorator, reporting after every
    /// chunk, and returns all that was read.
    pub fn read_to_end(&mut self) -> (data: Vec<u8>)
        requires
            old(self).wf(),
        ensures
            final(self).wf(),
            data@ == old(self).unread(),
            final(self).unread().len() == 0,
            final(self).total_size() == old(self).total_size(),
            final(self).source_length() == old(self).source_length(),
            final(self).bytes_read() == old(self).bytes_read() + data@.len(),
            old(self).reports().is_prefix_of(final(self).reports()),
            final(self).sink_reports() == old(self).sink_reports() + final(self).reports().skip(
                old(self).reports().len() as int,
            ),
    {
        let ghost all = self.unread();
        let ghost taken = self.sink_reports();
        let ghost reports = self.reports();
        let ghost start = self.bytes_read();
        let ghost total = self.total_size();
        let ghost length = self.source_length();
        let mut data: Vec<u8> = Vec::new();
        loop
            invariant
                self.wf(),
                data@ + self.unread() == all,
                self.total_size() == total,
                self.source_length() == length,
                self.bytes_read() == start + data@.len(),
                reports.is_prefix_of(self.reports()),
                self.sink_reports() == taken + self.reports().skip(reports.len() as int),
            ensures
                self.wf(),
                data@ == all,
                self.unread().len() == 0,
                self.total_size() == total,
                self.source_length() == length,
                self.bytes_read() == start + data@.len(),
                reports.is_prefix_of(self.reports()),
                self.sink_reports() == taken + self.reports().skip(reports.len() as int),
            decreases self.unread().len(),
        {
            let mut chunk = self.read(CHUNK_SIZE);
            if chunk.len() == 0 {
                break;
            }
            data.append(&mut chunk);
        }
        data
    }

    /// The reports follow the rules of a progress log.
    pub proof fn lemma_reports_form_a_log(&self)
        requires
            self.wf(),
        ensures
            is_progress_log(self.reports(), self.bytes_read(), self.reported_total()),
    {
    }

    /// The count of a report is never below the count of an earlier report.
    pub proof fn lemma_reports_never_decrease(&self, i: int, j: int)
        requires
            self.wf(),
            0 <= i <= j < self.reports().len(),
        ensures
            self.reports()[i].0 <= self.reports()[j].0,
    {
    }

    /// The count is the number of bytes that have left the wrapped source. Once the
    /// source is at its end, the count, and with it the last report, is the length of
    /// the source.
    pub proof fn lemma_count_is_what_was_read(&self)
        requires
            self.wf(),
        ensures
            self.bytes_read() + self.unread().len() == self.source_length(),
            self.reports().len() > 0 ==> self.reports().last().0 == self.bytes_read(),
            self.reports().len() == 0 ==> self.bytes_read() == 0,
    {
    }

    /// Where the total size given is no less than the length of the source, no report
    /// counts more than the total.
    pub proof fn lemma_reports_within_total(&self, i: int)
        requires
            self.wf(),
            self.total_size() matches Some(total) && self.source_length() <= total,
            0 <= i < self.reports().len(),
        ensures
            self.reports()[i].0 <= self.reported_total(),
    {
    }
}

impl<R: ByteSource, S: ProgressSink> ByteSource for ProgressReader<R, S> {
    open spec fn inv(&self) -> bool {
        self.wf()
    }

    open spec fn remaining(&self) -> Seq<u8> {
        self.unread()
    }

    proof fn lemma_remaining_fits(&self) {
        self.inner.lemma_remaining_fits();
    }

    /// Reads from the wrapped source. Where that yields bytes, they are added to the
    /// count, and the count and the total are reported to the sink. A read that yields
    /// nothing, as at the end of the stream, reports nothing.
    fn read(&mut self, limit: usize) -> (chunk: Vec<u8>)
        ensures
            final(self).total_size() == old(self).total_size(),
            final(self).source_length() == old(self).source_length(),
            final(self).bytes_read() == old(self).bytes_read() + chunk@.len(),
            final(self).reports() == if chunk@.len() > 0 {
                old(self).reports().push((final(self).bytes_read(), old(self).reported_total()))
            } else {
                old(self).reports()
            },
            final(self).sink_reports() == if chunk@.len() > 0 {
                old(self).sink_reports().push(
                    (final(self).bytes_read(), old(self).reported_total()),
                )
            } else {
                old(self).sink_reports()
            },
    {
        let chunk = self.inner.read(limit);
        let n = chunk.len();
        if n > 0 {
            self.bytes_read = self.bytes_read + n as u64;
            let total = match self.total_size {
                Some(total) => total,
                None => 0,
            };
            let ghost taken = self.sink.reports();
            self.sink.report(self.bytes_read, total);
            assert(self.sink.reports().skip(self.before@ as int) =~= taken.skip(
                self.before@ as int,
            ).push((self.bytes_read, total)));
        }
        chunk
    }
}

} // verus!
