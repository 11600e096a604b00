//! Processing of log payloads received from the rover: a `TransmitLogs`
//! body is JSON of the shape `{"logs": [{"severity": n, "msg": "..."}]}`;
//! exactly the well-formed entries whose severity value names a severity
//! are appended to the log sink, in order, and malformed entries are
//! skipped silently.

use vstd::prelude::*;

use crate::jsontext::{extract_log_entries, has_log_array, is_json, log_entries_of};
use crate::logger::{spec_severity_of, Log, Logger, Severity};

verus! {

/// The severity-and-message views of a run of log entries.
pub open spec fn spec_log_views(logs: Seq<Log>) -> Seq<(Severity, Seq<char>)> {
    logs.map_values(|l: Log| (l.severity, l.msg@))
}

/// What one received entry contributes to the log sink: its severity and
/// message when it is well formed and its severity value names a
/// severity, nothing otherwise.
pub open spec fn spec_entry_contribution(entry: Option<(u64, Seq<char>)>) -> Seq<
    (Severity, Seq<char>),
> {
    match entry {
        Some((value, msg)) => match spec_severity_of(value) {
            Some(severity) => seq![(severity, msg)],
            None => Seq::empty(),
        },
        None => Seq::empty(),
    }
}

/// Everything a run of received entries contributes to the log sink, in
/// order.
pub open spec fn spec_forwarded_entries(entries: Seq<Option<(u64, Seq<char>)>>) -> Seq<
    (Severity, Seq<char>),
>
    decreases entries.len(),
{
    if entries.len() == 0 {
        Seq::empty()
    } else {
        spec_entry_contribution(entries[0]) + spec_forwarded_entries(entries.drop_first())
    }
}

/// Appending one entry appends its contribution.
proof fn lemma_forwarded_entries_push(entries: Seq<Option<(u64, Seq<char>)>>, x: Option<
    (u64, Seq<char>),
>)
    ensures
        spec_forwarded_entries(entries.push(x)) == spec_forwarded_entries(entries)
            + spec_entry_contribution(x),
    decreases entries.len(),
{
    if entries.len() == 0 {
        assert(entries.push(x)[0] == x);
        assert(entries.push(x).drop_first() =~= Seq::<Option<(u64, Seq<char>)>>::empty());
        assert(spec_forwarded_entries(entries.push(x)) == spec_entry_contribution(x)
            + spec_forwarded_entries(Seq::<Option<(u64, Seq<char>)>>::empty()));
        assert(spec_forwarded_entries(entries.push(x)) =~= spec_forwarded_entries(entries)
            + spec_entry_contribution(x));
    } else {
        assert(entries.push(x)[0] == entries[0]);
        assert(entries.push(x).drop_first() =~= entries.drop_first().push(x));
        lemma_forwarded_entries_push(entries.drop_first(), x);
        assert(spec_forwarded_entries(entries.push(x)) == spec_entry_contribution(entries[0]) + (
        spec_forwarded_entries(entries.drop_first()) + spec_entry_contribution(x)));
        assert(spec_forwarded_entries(entries.push(x)) =~= spec_forwarded_entries(entries)
            + spec_entry_contribution(x));
    }
}

/// Appends one received entry to the sink: severity values that name a
/// severity are appended with their message; any other value appends
/// nothing and reports `None`.
pub fn proc_rx_logs_process_log(logger: &mut Logger, severity_value: u64, msg: &str) -> (r:
    Option<()>)
    ensures
        (spec_severity_of(severity_value) matches Some(severity) ==> r == Some(()) && final(logger).logs@.len() == old(logger).logs@.len() + 1 && final(logger).logs@.subrange(
            0,
            old(logger).logs@.len() as int,
        ) == old(logger).logs@ && final(logger).logs@.last().severity == severity && final(logger).logs@.last().msg@ == msg@),
        spec_severity_of(severity_value) is None ==> r is None && final(logger).logs@ == old(logger).logs@,
{
    let severity = match Severity::from_value(severity_value) {
        Some(s) => s,
        None => { return None },
    };
    logger.log(severity, msg);
    Some(())
}

/// Forwards the entries of a received `TransmitLogs` payload to the log
/// sink.  Succeeds exactly when the payload is a JSON object holding a
/// `logs` array; then exactly the named entries whose severity value
/// names a severity are appended, in order, with their messages, and
/// everything already logged stays in place.  Anything else appends
/// nothing and reports `None`.
pub fn proc_rx_logs(logger: &mut Logger, logs_text: &str) -> (r: Option<()>)
    ensures
        final(logger).logs@.len() >= old(logger).logs@.len(),
        final(logger).logs@.subrange(0, old(logger).logs@.len() as int) == old(logger).logs@,
        r is Some <==> has_log_array(logs_text@),
        !is_json(logs_text@) ==> r is None,
        r is None ==> final(logger).logs@ == old(logger).logs@,
        r is Some ==> spec_log_views(final(logger).logs@) == spec_log_views(old(logger).logs@)
            + spec_forwarded_entries(log_entries_of(logs_text@)),
{
    let entries = match extract_log_entries(logs_text) {
        Some(v) => v,
        None => { return None },
    };
    let ghost named = log_entries_of(logs_text@);
    let ghost base = logger.logs@;
    proof {
        assert(named.len() == entries@.len());
        assert(named.take(0) =~= Seq::<Option<(u64, Seq<char>)>>::empty());
        assert(spec_log_views(base) + spec_forwarded_entries(named.take(0)) =~= spec_log_views(
            base,
        ));
    }
    let mut i: usize = 0;
    while i < entries.len()
        invariant
            i <= entries@.len(),
            entries.deep_view() == named,
            named.len() == entries@.len(),
            logger.logs@.len() >= base.len(),
            logger.logs@.subrange(0, base.len() as int) == base,
            spec_log_views(logger.logs@) == spec_log_views(base) + spec_forwarded_entries(
                named.take(i as int),
            ),
        decreases entries@.len() - i,
    {
        let ghost logs_before = logger.logs@;
        proof {
            assert(named[i as int] == entries@[i as int].deep_view());
        }
        match &entries[i] {
            Some(pair) => {
                proc_rx_logs_process_log(logger, pair.0, pair.1.as_str());
            },
            None => {},
        }
        proof {
            assert(named.take(i + 1) =~= named.take(i as int).push(named[i as int]));
            lemma_forwarded_entries_push(named.take(i as int), named[i as int]);
            assert(spec_log_views(logger.logs@) =~= spec_log_views(logs_before)
                + spec_entry_contribution(named[i as int]));
            assert(spec_log_views(logger.logs@) =~= spec_log_views(base)
                + spec_forwarded_entries(named.take(i + 1)));
            assert(logger.logs@.subrange(0, base.len() as int) =~= logs_before.subrange(
                0,
                base.len() as int,
            ));
        }
        i += 1;
    }
    proof {
        assert(named.take(named.len() as int) =~= named);
    }
    Some(())
}

} // verus!
