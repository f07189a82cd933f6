//! The progress of one download: counters fed by the arriving chunks, and a
//! status line that is emitted no more often than once per interval.
//!
//! The tracker never reads a clock. Its caller hands it the time of each event
//! in milliseconds since an origin of its choice.

use vstd::prelude::*;
use crate::text::{
    decimal, decimal_string, fixed1, fixed1_string, push_decimal, right_align, right_align_string,
};

verus! {

/// The least time, in milliseconds, that lies between two status lines.
pub const INTERVAL_MS: u64 = 1000;

/// The counters of one download.
pub struct ProgressTracker {
    content_length: u64,
    total_read: u64,
    incremental_read: u64,
    start: u64,
    timer: u64,
}

/// The mathematical value of a `ProgressTracker`.
pub struct TrackerView {
    /// The number of bytes that the download announced.
    pub total: nat,
    /// The number of bytes received so far.
    pub received: nat,
    /// The number of bytes received since the last status line.
    pub window_bytes: nat,
    /// When the download started.
    pub start: nat,
    /// When the last status line was emitted, or the start before the first.
    pub window_start: nat,
}

/// The time from `since` to `now`; a clock that went backwards counts as no time.
pub open spec fn elapsed(since: nat, now: nat) -> nat {
    if now >= since {
        (now - since) as nat
    } else {
        0
    }
}

/// An update at `now` emits a status line: more than the interval has passed
/// since the last one.
pub open spec fn emits(t: TrackerView, now: nat) -> bool {
    elapsed(t.window_start, now) > INTERVAL_MS
}

/// The tracker after `read` more bytes arrived at `now`.
pub open spec fn after_update(t: TrackerView, read: nat, now: nat) -> TrackerView {
    if emits(t, now) {
        TrackerView { received: t.received + read, window_bytes: 0, window_start: now, ..t }
    } else {
        TrackerView {
            received: t.received + read,
            window_bytes: t.window_bytes + read,
            ..t
        }
    }
}

/// The tracker after a flush at `now`.
pub open spec fn after_flush(t: TrackerView, now: nat) -> TrackerView {
    TrackerView { window_bytes: 0, window_start: now, ..t }
}

/// The download is complete: exactly the announced number of bytes arrived.
pub open spec fn complete(t: TrackerView) -> bool {
    t.received == t.total
}

/// The share of the download that has arrived, in tenths of a percent, rounded
/// down. An empty download stands at zero.
pub open spec fn percent_tenths(received: nat, total: nat) -> nat {
    if total == 0 {
        0
    } else {
        received * 1000 / total
    }
}

/// The number of filled cells of the ten-cell bar: one for each full ten
/// percent that the download has gone beyond, so that exactly 10% still shows
/// none and exactly 100% shows nine.
pub open spec fn bar_filled(received: nat, total: nat) -> nat {
    if total == 0 || received == 0 {
        0
    } else {
        let reached = (received * 10 + total - 1) / (total as int);
        if reached > 10 {
            10
        } else {
            (reached - 1) as nat
        }
    }
}

/// The bar with `filled` of its ten cells filled.
pub open spec fn bar(filled: nat) -> Seq<char> {
    Seq::new(
        10,
        |i: int|
            if i < filled {
                '⣿'
            } else {
                '·'
            },
    )
}

/// The throughput of `bytes` in `millis` milliseconds, in tenths of a kilobyte
/// per second, rounded down; no time gives zero.
pub open spec fn rate_tenths(bytes: nat, millis: nat) -> nat {
    if millis == 0 {
        0
    } else {
        bytes * 10 / millis
    }
}

/// The estimated number of whole minutes left, from the average rate since the
/// start in whole bytes per whole second. There is no estimate within the first
/// second nor while that rate is zero.
pub open spec fn eta_minutes(total: nat, received: nat, seconds: nat) -> Option<nat> {
    if seconds == 0 || received / seconds == 0 {
        None
    } else {
        let remaining = if total >= received {
            (total - received) as nat
        } else {
            0
        };
        Some(remaining / (received / seconds) / 60)
    }
}

/// The percentage with one decimal place in a field of five, then the bar.
pub open spec fn progress_text(received: nat, total: nat) -> Seq<char> {
    right_align(fixed1(percent_tenths(received, total)), 5) + "%  ["@ + bar(
        bar_filled(received, total),
    ) + "]"@
}

/// The throughput with one decimal place in a field of five: in kB/s up to
/// 1000 kB/s, in MB/s above.
pub open spec fn rate_text(tenths: nat) -> Seq<char> {
    if tenths > 10000 {
        right_align(fixed1(tenths / 1000), 5) + " MB/s"@
    } else {
        right_align(fixed1(tenths), 5) + " kB/s"@
    }
}

/// A number of seconds as "42s" or "3min7s".
pub open spec fn elapsed_text(seconds: nat) -> Seq<char> {
    if seconds < 60 {
        decimal(seconds) + "s"@
    } else {
        decimal(seconds / 60) + "min"@ + decimal(seconds % 60) + "s"@
    }
}

/// The estimate as the last part of a status line; nothing where there is none.
pub open spec fn eta_text(eta: Option<nat>) -> Seq<char> {
    match eta {
        Some(minutes) => " | estimated "@ + decimal(minutes) + " min"@,
        None => Seq::empty(),
    }
}

/// The status line of a download of `total` bytes of which `received` have
/// arrived, `window_bytes` of them within the last `window_ms` milliseconds,
/// `elapsed_ms` milliseconds after its start.
pub open spec fn status_line(
    total: nat,
    received: nat,
    window_bytes: nat,
    window_ms: nat,
    elapsed_ms: nat,
) -> Seq<char> {
    progress_text(received, total) + " | "@ + rate_text(rate_tenths(window_bytes, window_ms))
        + " | "@ + elapsed_text(elapsed_ms / 1000) + eta_text(
        eta_minutes(total, received, elapsed_ms / 1000),
    )
}

/// The status line that an update of `read` bytes at `now` emits.
pub open spec fn update_line(t: TrackerView, read: nat, now: nat) -> Seq<char> {
    status_line(
        t.total,
        t.received + read,
        t.window_bytes + read,
        elapsed(t.window_start, now),
        elapsed(t.start, now),
    )
}

/// The final line: the bytes received of those announced, and the verdict.
pub open spec fn flush_line(t: TrackerView) -> Seq<char> {
    decimal(t.received) + "/"@ + decimal(t.total) + if complete(t) {
        " complete"@
    } else {
        " truncated"@
    }
}

/// The announcement of a download's size: megabytes with one decimal place,
/// rounded down, then the exact number of bytes.
pub open spec fn content_size_text(len: nat) -> Seq<char> {
    "Content Size "@ + fixed1(len / 100000) + "mb ("@ + decimal(len) + " bytes)"@
}

/// One chunk of a download: how many bytes arrived, and when.
pub struct Chunk {
    pub read: nat,
    pub at: nat,
}

/// A tracker as `new` makes it.
pub open spec fn fresh(total: nat, start: nat) -> TrackerView {
    TrackerView { total, received: 0, window_bytes: 0, start, window_start: start }
}

/// The number of bytes in a run of chunks.
pub open spec fn bytes_of(chunks: Seq<Chunk>) -> nat
    decreases chunks.len(),
{
    if chunks.len() == 0 {
        0
    } else {
        bytes_of(chunks.drop_last()) + chunks.last().read
    }
}

/// The tracker after one update for each chunk of a run, in order.
pub open spec fn after_updates(t: TrackerView, chunks: Seq<Chunk>) -> TrackerView
    decreases chunks.len(),
{
    if chunks.len() == 0 {
        t
    } else {
        after_update(after_updates(t, chunks.drop_last()), chunks.last().read, chunks.last().at)
    }
}

/// The update for chunk `i` of a run emits a status line.
pub open spec fn emits_at(t: TrackerView, chunks: Seq<Chunk>, i: int) -> bool {
    emits(after_updates(t, chunks.take(i)), chunks[i].at)
}

/// Updates add up: after a run of chunks the tracker has received what it had
/// plus the bytes of the run, and still expects the same total.
pub proof fn lemma_updates_add_up(t: TrackerView, chunks: Seq<Chunk>)
    ensures
        after_updates(t, chunks).received == t.received + bytes_of(chunks),
        after_updates(t, chunks).total == t.total,
        after_updates(t, chunks).start == t.start,
    decreases chunks.len(),
{
    if chunks.len() > 0 {
        lemma_updates_add_up(t, chunks.drop_last());
    }
}

/// The bytes received never become fewer: after a longer run of chunks the
/// tracker has received at least what it had after any shorter beginning of it.
pub proof fn lemma_received_never_falls(t: TrackerView, chunks: Seq<Chunk>, i: int)
    requires
        0 <= i <= chunks.len(),
    ensures
        after_updates(t, chunks.take(i)).received <= after_updates(t, chunks).received,
{
    lemma_updates_add_up(t, chunks.take(i));
    lemma_updates_add_up(t, chunks);
    lemma_bytes_of_prefix(chunks, i);
}

proof fn lemma_bytes_of_prefix(chunks: Seq<Chunk>, i: int)
    requires
        0 <= i <= chunks.len(),
    ensures
        bytes_of(chunks.take(i)) <= bytes_of(chunks),
    decreases chunks.len(),
{
    if i == chunks.len() {
        assert(chunks.take(i) == chunks);
    } else {
        assert(chunks.drop_last().take(i) == chunks.take(i));
        lemma_bytes_of_prefix(chunks.drop_last(), i);
    }
}

/// A download is reported complete exactly when the bytes of its chunks sum to
/// the announced total: the final line of a flush then ends in " complete",
/// and in " truncated" after any other run, a shorter one in particular.
pub proof fn lemma_complete_iff_all_arrived(total: nat, start: nat, chunks: Seq<Chunk>)
    ensures
        complete(after_updates(fresh(total, start), chunks)) <==> bytes_of(chunks) == total,
        bytes_of(chunks) == total ==> flush_line(after_updates(fresh(total, start), chunks))
            == decimal(total) + "/"@ + decimal(total) + " complete"@,
        bytes_of(chunks) != total ==> flush_line(after_updates(fresh(total, start), chunks))
            == decimal(bytes_of(chunks)) + "/"@ + decimal(total) + " truncated"@,
{
    lemma_updates_add_up(fresh(total, start), chunks);
}

/// After an update that emitted, the window never again starts before the
/// time of that update.
proof fn lemma_window_start(t: TrackerView, chunks: Seq<Chunk>, i: int)
    requires
        0 <= i < chunks.len(),
        emits_at(t, chunks, i),
    ensures
        after_updates(t, chunks).window_start >= chunks[i].at,
    decreases chunks.len(),
{
    if i == chunks.len() - 1 {
        assert(chunks.take(i) == chunks.drop_last());
    } else {
        assert(chunks.drop_last().take(i) == chunks.take(i));
        lemma_window_start(t, chunks.drop_last(), i);
    }
}

/// Status lines are at least an interval apart: where two updates of a run
/// both emit, the later one comes more than `INTERVAL_MS` after the earlier,
/// however many chunks arrive in between and however close together.
pub proof fn lemma_rate_limit(t: TrackerView, chunks: Seq<Chunk>, i: int, j: int)
    requires
        0 <= i < j < chunks.len(),
        emits_at(t, chunks, i),
        emits_at(t, chunks, j),
    ensures
        chunks[j].at > chunks[i].at + INTERVAL_MS,
{
    assert(chunks.take(j).take(i) == chunks.take(i));
    lemma_window_start(t, chunks.take(j), i);
}

/// Within an interval of a status line no update emits another.
pub proof fn lemma_quiet_after_line(t: TrackerView, read: nat, now: nat, later: nat)
    requires
        emits(t, now),
        later <= now + INTERVAL_MS,
    ensures
        !emits(after_update(t, read, now), later),
{
}

fn time_between(since: u64, now: u64) -> (r: u64)
    ensures
        r == elapsed(since as nat, now as nat),
{
    if now >= since {
        now - since
    } else {
        0
    }
}

fn progress_string(received: u64, total: u64) -> (out: String)
    ensures
        out@ == progress_text(received as nat, total as nat),
{
    let percent: u128 = if total == 0 {
        0
    } else {
        received as u128 * 1000 / total as u128
    };
    let filled: u128 = if total == 0 || received == 0 {
        0
    } else {
        let reached: u128 = (received as u128 * 10 + total as u128 - 1) / total as u128;
        if reached > 10 {
            10
        } else {
            assert(reached >= 1) by (nonlinear_arith)
                requires
                    reached == (received * 10 + total - 1) / (total as int),
                    received >= 1,
                    total >= 1,
            ;
            reached - 1
        }
    };
    let number = fixed1_string(percent);
    let mut out = right_align_string(number.as_str(), 5);
    out.append("%  [");
    let ghost before = out@;
    let mut i: u128 = 0;
    while i < 10
        invariant
            i <= 10,
            filled <= 10,
            out@ == before + bar(filled as nat).take(i as int),
        decreases 10 - i,
    {
        if i < filled {
            out.push('⣿');
        } else {
            out.push('·');
        }
        assert(bar(filled as nat).take(i + 1) =~= bar(filled as nat).take(i as int).push(
            bar(filled as nat)[i as int],
        ));
        i += 1;
    }
    assert(bar(filled as nat).take(10) =~= bar(filled as nat));
    out.append("]");
    out
}

fn rate_string(window_bytes: u64, window_ms: u64) -> (out: String)
    ensures
        out@ == rate_text(rate_tenths(window_bytes as nat, window_ms as nat)),
{
    let tenths: u128 = if window_ms == 0 {
        0
    } else {
        window_bytes as u128 * 10 / window_ms as u128
    };
    if tenths > 10000 {
        let number = fixed1_string(tenths / 1000);
        let mut out = right_align_string(number.as_str(), 5);
        out.append(" MB/s");
        out
    } else {
        let number = fixed1_string(tenths);
        let mut out = right_align_string(number.as_str(), 5);
        out.append(" kB/s");
        out
    }
}

fn elapsed_string(seconds: u64) -> (out: String)
    ensures
        out@ == elapsed_text(seconds as nat),
{
    if seconds < 60 {
        let mut out = decimal_string(seconds as u128);
        out.append("s");
        out
    } else {
        let mut out = decimal_string((seconds / 60) as u128);
        out.append("min");
        push_decimal(&mut out, (seconds % 60) as u128);
        out.append("s");
        out
    }
}

fn estimate(total: u64, received: u64, seconds: u64) -> (eta: Option<u64>)
    ensures
        match eta {
            Some(minutes) => eta_minutes(total as nat, received as nat, seconds as nat) == Some(
                minutes as nat,
            ),
            None => eta_minutes(total as nat, received as nat, seconds as nat).is_none(),
        },
{
    if seconds == 0 {
        return None;
    }
    let rate = received / seconds;
    if rate == 0 {
        return None;
    }
    let remaining = if total >= received {
        total - received
    } else {
        0
    };
    Some(remaining / rate / 60)
}

fn status_string(total: u64, received: u64, window_bytes: u64, window_ms: u64, elapsed_ms: u64) -> (out:
    String)
    ensures
        out@ == status_line(
            total as nat,
            received as nat,
            window_bytes as nat,
            window_ms as nat,
            elapsed_ms as nat,
        ),
{
    let seconds = elapsed_ms / 1000;
    let mut out = progress_string(received, total);
    out.append(" | ");
    out.append(rate_string(window_bytes, window_ms).as_str());
    out.append(" | ");
    out.append(elapsed_string(seconds).as_str());
    match estimate(total, received, seconds) {
        Some(minutes) => {
            let mut eta = String::new();
            eta.append(" | estimated ");
            push_decimal(&mut eta, minutes as u128);
            eta.append(" min");
            assert(eta@ =~= eta_text(Some(minutes as nat)));
            out.append(eta.as_str());
        },
        None => {
            assert(out@ + Seq::<char>::empty() =~= out@);
        },
    }
    out
}

/// The announcement of a download's size.
pub fn content_size_message(len: u64) -> (out: String)
    ensures
        out@ == content_size_text(len as nat),
{
    let mut out = String::new();
    out.append("Content Size ");
    out.append(fixed1_string((len / 100000) as u128).as_str());
    out.append("mb (");
    push_decimal(&mut out, len as u128);
    out.append(" bytes)");
    assert(out@ =~= content_size_text(len as nat));
    out
}

impl View for ProgressTracker {
    type V = TrackerView;

    closed spec fn view(&self) -> TrackerView {
        TrackerView {
            total: self.content_length as nat,
            received: self.total_read as nat,
            window_bytes: self.incremental_read as nat,
            start: self.start as nat,
            window_start: self.timer as nat,
        }
    }
}

impl ProgressTracker {
    #[verifier::type_invariant]
    spec fn window_within_received(self) -> bool {
        self.incremental_read <= self.total_read
    }

    /// A tracker for a download of `content_length` bytes that starts at `now`.
    pub fn new(content_length: u64, now: u64) -> (tracker: Self)
        ensures
            tracker@ == (TrackerView {
                total: content_length as nat,
                received: 0,
                window_bytes: 0,
                start: now as nat,
                window_start: now as nat,
            }),
    {
        ProgressTracker {
            content_length,
            total_read: 0,
            incremental_read: 0,
            start: now,
            timer: now,
        }
    }

    /// The number of bytes that the download announced.
    pub fn content_length(&self) -> (n: u64)
        ensures
            n == self@.total,
    {
        self.content_length
    }

    /// The number of bytes received so far.
    pub fn total_read(&self) -> (n: u64)
        ensures
            n == self@.received,
    {
        self.total_read
    }

    /// Whether exactly the announced number of bytes has arrived.
    pub fn is_complete(&self) -> (r: bool)
        ensures
            r == complete(self@),
    {
        self.total_read == self.content_length
    }

    /// Records that `read` more bytes arrived at `now`. Where more than the
    /// interval has passed since the last status line, the next one is
    /// returned and a new window begins at `now`.
    pub fn update(&mut self, read: u64, now: u64) -> (line: Option<String>)
        requires
            old(self)@.received + read <= u64::MAX,
        ensures
            final(self)@ == after_update(old(self)@, read as nat, now as nat),
            match line {
                Some(text) => emits(old(self)@, now as nat) && text@ == update_line(
                    old(self)@,
                    read as nat,
                    now as nat,
                ),
                None => !emits(old(self)@, now as nat),
            },
    {
        proof {
            use_type_invariant(&*self);
        }
        self.total_read = self.total_read + read;
        self.incremental_read = self.incremental_read + read;
        let window_ms = time_between(self.timer, now);
        if window_ms > INTERVAL_MS {
            let text = status_string(
                self.content_length,
                self.total_read,
                self.incremental_read,
                window_ms,
                time_between(self.start, now),
            );
            self.incremental_read = 0;
            self.timer = now;
            Some(text)
        } else {
            None
        }
    }

    /// Ends the download at `now`: returns the final line, whatever time has
    /// passed since the last one, and begins a new window.
    pub fn flush(&mut self, now: u64) -> (line: String)
        ensures
            final(self)@ == after_flush(old(self)@, now as nat),
            line@ == flush_line(old(self)@),
    {
        let mut line = decimal_string(self.total_read as u128);
        line.append("/");
        push_decimal(&mut line, self.content_length as u128);
        if self.total_read == self.content_length {
            line.append(" complete");
        } else {
            line.append(" truncated");
        }
        self.incremental_read = 0;
        self.timer = now;
        line
    }
}

} // verus!
