use vstd::prelude::*;

verus! {

/// How many lines each category of the sidecar log keeps.
pub const LOG_CAPACITY: usize = 10;

/// The category of a sidecar log line.
#[derive(Clone, Copy, PartialEq, Eq, Structural, Debug)]
pub enum LogType {
    Info,
    Error,
}

/// The most recent sidecar log lines, per category.
pub struct AppData {
    pub log_buffer: Vec<String>,
    pub error_log_buffer: Vec<String>,
}

pub struct AppDataView {
    pub info: Seq<Seq<char>>,
    pub error: Seq<Seq<char>>,
}

pub open spec fn lines_view(v: Seq<String>) -> Seq<Seq<char>> {
    v.map_values(|s: String| s@)
}

impl View for AppData {
    type V = AppDataView;

    open spec fn view(&self) -> AppDataView {
        AppDataView { info: lines_view(self.log_buffer@), error: lines_view(self.error_log_buffer@) }
    }
}

/// Appends `line`, then drops the oldest line if the buffer holds more than
/// its capacity: first in, first out.
pub open spec fn bounded_push(buffer: Seq<Seq<char>>, line: Seq<char>) -> Seq<Seq<char>> {
    let pushed = buffer.push(line);
    if pushed.len() > LOG_CAPACITY {
        pushed.drop_first()
    } else {
        pushed
    }
}

/// The lines joined with a newline between each two.
pub open spec fn joined(lines: Seq<Seq<char>>) -> Seq<char>
    decreases lines.len(),
{
    if lines.len() == 0 {
        seq![]
    } else if lines.len() == 1 {
        lines[0]
    } else {
        joined(lines.drop_last()) + "\n"@ + lines.last()
    }
}

impl AppDataView {
    pub open spec fn buffer(self, log_type: LogType) -> Seq<Seq<char>> {
        match log_type {
            LogType::Info => self.info,
            LogType::Error => self.error,
        }
    }

    pub open spec fn wf(self) -> bool {
        self.info.len() <= LOG_CAPACITY && self.error.len() <= LOG_CAPACITY
    }
}

fn push_bounded(buffer: &mut Vec<String>, line: String)
    ensures
        lines_view(final(buffer)@) == bounded_push(lines_view(old(buffer)@), line@),
{
    let ghost before = lines_view(buffer@);
    buffer.push(line);
    assert(lines_view(buffer@) =~= before.push(line@));
    if buffer.len() > LOG_CAPACITY {
        buffer.remove(0);
        assert(lines_view(buffer@) =~= before.push(line@).drop_first());
    }
}

fn join_lines(lines: &Vec<String>) -> (r: String)
    ensures
        r@ == joined(lines_view(lines@)),
{
    let ghost all = lines_view(lines@);
    let mut out = String::new();
    let mut i: usize = 0;
    while i < lines.len()
        invariant
            all == lines_view(lines@),
            i <= lines.len(),
            out@ == joined(all.subrange(0, i as int)),
        decreases lines.len() - i,
    {
        if i > 0 {
            out.append("\n");
        }
        out.append(lines[i].as_str());
        proof {
            let next = all.subrange(0, i + 1);
            assert(next.drop_last() =~= all.subrange(0, i as int));
            if i == 0 {
                assert(all.subrange(0, 0) =~= Seq::<Seq<char>>::empty());
            }
        }
        i = i + 1;
    }
    assert(all.subrange(0, lines.len() as int) =~= all);
    out
}

impl AppData {
    /// Both buffers empty.
    pub fn new() -> (r: AppData)
        ensures
            r@.info.len() == 0,
            r@.error.len() == 0,
            r@.wf(),
    {
        let r = AppData { log_buffer: Vec::new(), error_log_buffer: Vec::new() };
        assert(r@.info =~= Seq::<Seq<char>>::empty());
        assert(r@.error =~= Seq::<Seq<char>>::empty());
        r
    }

    /// Appends a line to the buffer of its category, evicting that buffer's
    /// oldest line when it is full; the other buffer is untouched.
    pub fn write(&mut self, log: String, log_type: LogType)
        ensures
            final(self)@.buffer(log_type) == bounded_push(old(self)@.buffer(log_type), log@),
            log_type == LogType::Info ==> final(self)@.error == old(self)@.error,
            log_type == LogType::Error ==> final(self)@.info == old(self)@.info,
            old(self)@.wf() ==> final(self)@.wf(),
    {
        match log_type {
            LogType::Info => push_bounded(&mut self.log_buffer, log),
            LogType::Error => push_bounded(&mut self.error_log_buffer, log),
        }
    }

    /// The lines of one category, oldest first, joined by newlines.
    pub fn read(&self, log_type: LogType) -> (r: String)
        ensures
            r@ == joined(self@.buffer(log_type)),
    {
        match log_type {
            LogType::Info => join_lines(&self.log_buffer),
            LogType::Error => join_lines(&self.error_log_buffer),
        }
    }
}

/// The error log when `is_error` holds, the informational log otherwise.
pub fn read_logs(app_data: &AppData, is_error: bool) -> (r: String)
    ensures
        r@ == joined(app_data@.buffer(if is_error { LogType::Error } else { LogType::Info })),
{
    let log_type = if is_error {
        LogType::Error
    } else {
        LogType::Info
    };
    app_data.read(log_type)
}

/// A buffer never holds more than its capacity; a push into a full buffer
/// evicts exactly the oldest line, and a push into any other keeps every line.
pub proof fn lemma_bounded_log_fifo(buffer: Seq<Seq<char>>, line: Seq<char>)
    requires
        buffer.len() <= LOG_CAPACITY,
    ensures
        bounded_push(buffer, line).len() <= LOG_CAPACITY,
        bounded_push(buffer, line).last() == line,
        buffer.len() == LOG_CAPACITY ==> bounded_push(buffer, line) == buffer.drop_first().push(
            line,
        ),
        buffer.len() < LOG_CAPACITY ==> bounded_push(buffer, line) == buffer.push(line),
{
    if buffer.len() == LOG_CAPACITY {
        assert(buffer.push(line).drop_first() =~= buffer.drop_first().push(line));
    }
}

} // verus!
