use vstd::prelude::*;

verus! {

/// Severity of a log record.
#[derive(Debug, Copy, Clone, PartialEq, Eq, Structural)]
pub enum Severity {
    Debug,
    Info,
    Warn,
    Error,
}

/// One logged message.
#[derive(Debug)]
pub struct LogRecord {
    pub severity: Severity,
    pub message: String,
}

/// Severity and text of each record.
pub open spec fn records_view(s: Seq<LogRecord>) -> Seq<(Severity, Seq<char>)> {
    s.map_values(|r: LogRecord| (r.severity, r.message@))
}

/// The application log: the records logged so far, oldest first.
pub struct Logger {
    records: Vec<LogRecord>,
}

impl View for Logger {
    type V = Seq<(Severity, Seq<char>)>;

    closed spec fn view(&self) -> Seq<(Severity, Seq<char>)> {
        records_view(self.records@)
    }
}

impl Logger {
    /// An empty log.
    pub fn new() -> (r: Logger)
        ensures
            r@ == Seq::<(Severity, Seq<char>)>::empty(),
    {
        Logger { records: Vec::new() }
    }

    /// Number of records.
    pub fn len(&self) -> (r: usize)
        ensures
            r == self@.len(),
    {
        self.records.len()
    }

    /// Severity and text of the record at `i`.
    pub fn record(&self, i: usize) -> (r: (Severity, String))
        requires
            i < self@.len(),
        ensures
            (r.0, r.1@) == self@[i as int],
    {
        let rec = &self.records[i];
        (rec.severity, rec.message.clone())
    }

    /// Append a record.
    pub fn log(&mut self, severity: Severity, message: &str)
        ensures
            final(self)@ == old(self)@.push((severity, message@)),
    {
        self.records.push(LogRecord { severity, message: String::from_str(message) });
        proof {
            assert(final(self)@ =~= old(self)@.push((severity, message@)));
        }
    }

    /// An independent copy of the log.
    pub fn copy(&self) -> (r: Logger)
        ensures
            r@ == self@,
    {
        let mut out: Vec<LogRecord> = Vec::new();
        let mut i: usize = 0;
        while i < self.records.len()
            invariant
                i <= self.records@.len(),
                out@.len() == i,
                records_view(out@) == self@.subrange(0, i as int),
            decreases self.records@.len() - i,
        {
            let ghost prev = out@;
            let rec = &self.records[i];
            out.push(LogRecord { severity: rec.severity, message: rec.message.clone() });
            i = i + 1;
            proof {
                assert forall|k: int| 0 <= k < i implies records_view(out@)[k]
                    == self@[k] by {
                    if k < i - 1 {
                        assert(records_view(prev)[k] == self@.subrange(0, i - 1)[k]);
                    }
                }
                assert(records_view(out@) =~= self@.subrange(0, i as int));
            }
        }
        let r = Logger { records: out };
        proof {
            assert(r@ =~= self@);
        }
        r
    }
}

} // verus!
