//! Per-session statistics: the commands, Rust edits and MCP tool uses seen, and the summary
//! printed at the end. Times are milliseconds since the Unix epoch.
use vstd::prelude::*;

use crate::command_validator::CommandValidation;
use crate::text::{
    char_prefix, ends_with_seq, ends_with_text, int_text, join_text, prefix_of, push_int, same_text,
};

verus! {

#[verifier::external_type_specification]
#[verifier::external_body]
pub struct ExJsonValue(serde_json::Value);

/// A shell command that was seen.
#[derive(Debug)]
pub struct BashCommand {
    pub timestamp: i64,
    pub command: String,
    pub session_id: String,
    pub cwd: String,
    pub is_destructive: bool,
    pub is_system_level: bool,
}

/// An edit of a Rust file, and whether formatting and linting followed it.
#[derive(Debug)]
pub struct RustOperation {
    pub timestamp: i64,
    pub operation_type: String,
    pub file_path: String,
    pub session_id: String,
    pub lint_applied: bool,
    pub format_applied: bool,
}

/// A documentation lookup through an MCP tool, and what it brought back.
#[derive(Debug)]
pub struct InfoSession {
    pub timestamp: i64,
    pub session_id: String,
    pub tool_name: String,
    pub query_info: serde_json::Value,
    pub result_summary: Option<String>,
}

/// The `content` field of a tool's response, as the summary of a lookup reads it.
#[derive(Debug)]
pub enum ResponseContent {
    /// The response has no `content` field.
    Missing,
    /// The field is there but is not a string.
    NotText,
    /// The field is the string given.
    Text(String),
}

/// The statistics of one session.
#[derive(Debug)]
pub struct SessionStats {
    pub session_id: String,
    pub start_time: Option<i64>,
    pub bash_commands: Vec<BashCommand>,
    pub rust_operations: Vec<RustOperation>,
    /// Uses per MCP server, in the order servers were first seen; each server once.
    pub mcp_usage: Vec<(String, u32)>,
    pub info_gathering_sessions: Vec<InfoSession>,
}

/// Whether no server appears twice in `usage`.
pub open spec fn keys_unique(usage: Seq<(String, u32)>) -> bool {
    forall|i: int, j: int|
        0 <= i < usage.len() && 0 <= j < usage.len() && i != j ==> (#[trigger] usage[i]).0@
            != (#[trigger] usage[j]).0@
}

/// The summary text of a finished lookup.
pub open spec fn summary_text(content: ResponseContent) -> Seq<char> {
    match content {
        ResponseContent::Missing => "Information retrieved successfully"@,
        ResponseContent::NotText => "Retrieved: Data retrieved"@,
        ResponseContent::Text(s) => "Retrieved: "@ + prefix_of(s@, 100),
    }
}

/// The last lookup of `tool_name` in session `session_id`, if any.
pub open spec fn last_lookup(v: Seq<InfoSession>, tool_name: Seq<char>, session_id: Seq<char>) -> Option<int>
    decreases v.len(),
{
    if v.len() == 0 {
        None
    } else if v.last().tool_name@ == tool_name && v.last().session_id@ == session_id {
        Some(v.len() - 1)
    } else {
        last_lookup(v.drop_last(), tool_name, session_id)
    }
}

/// The last edit of `file_path` in session `session_id`, if any.
pub open spec fn last_edit(v: Seq<RustOperation>, file_path: Seq<char>, session_id: Seq<char>) -> Option<int>
    decreases v.len(),
{
    if v.len() == 0 {
        None
    } else if v.last().file_path@ == file_path && v.last().session_id@ == session_id {
        Some(v.len() - 1)
    } else {
        last_edit(v.drop_last(), file_path, session_id)
    }
}

/// How many items of `v` satisfy `f`.
pub open spec fn count_where<T>(v: Seq<T>, f: spec_fn(T) -> bool) -> nat
    decreases v.len(),
{
    if v.len() == 0 {
        0
    } else {
        count_where(v.drop_last(), f) + if f(v.last()) {
            1nat
        } else {
            0nat
        }
    }
}

/// Whole minutes from `start` to `now`, both in milliseconds, rounded toward zero.
pub open spec fn minutes_between(start: int, now: int) -> int {
    if now >= start {
        (now - start) / 60000
    } else {
        -((start - now) / 60000)
    }
}

/// `text` as a line when `cond` holds, else nothing.
pub open spec fn line_if(cond: bool, text: Seq<char>) -> Seq<Seq<char>> {
    if cond {
        seq![text]
    } else {
        Seq::empty()
    }
}

/// The lines that list MCP usage, one per server.
pub open spec fn usage_lines(usage: Seq<(String, u32)>) -> Seq<Seq<char>>
    decreases usage.len(),
{
    if usage.len() == 0 {
        Seq::empty()
    } else {
        usage_lines(usage.drop_last()) + seq![
            "    "@ + usage.last().0@ + " x"@ + int_text(usage.last().1 as int),
        ]
    }
}

pub open spec fn destructive_count(v: Seq<BashCommand>) -> nat {
    count_where(v, |c: BashCommand| c.is_destructive)
}

pub open spec fn system_level_count(v: Seq<BashCommand>) -> nat {
    count_where(v, |c: BashCommand| c.is_system_level)
}

pub open spec fn formatted_count(v: Seq<RustOperation>) -> nat {
    count_where(v, |o: RustOperation| o.format_applied)
}

pub open spec fn linted_count(v: Seq<RustOperation>) -> nat {
    count_where(v, |o: RustOperation| o.lint_applied)
}

/// The summary's lines on how long the session has run.
pub open spec fn duration_lines(start_time: Option<i64>, now: int) -> Seq<Seq<char>> {
    match start_time {
        Some(start) => seq![
            "  ⏱️  Duration: "@ + int_text(minutes_between(start as int, now)) + " minutes"@,
        ],
        None => Seq::empty(),
    }
}

/// The summary's lines on shell commands.
pub open spec fn bash_lines(bash: Seq<BashCommand>) -> Seq<Seq<char>> {
    if bash.len() > 0 {
        seq!["  💻 Bash Commands: "@ + int_text(bash.len() as int)] + line_if(
            destructive_count(bash) > 0,
            "    ⚠️  Destructive commands: "@ + int_text(destructive_count(bash) as int),
        ) + line_if(
            system_level_count(bash) > 0,
            "    🔧 System-level commands: "@ + int_text(system_level_count(bash) as int),
        )
    } else {
        Seq::empty()
    }
}

/// The summary's lines on Rust edits.
pub open spec fn rust_lines(ops: Seq<RustOperation>) -> Seq<Seq<char>> {
    if ops.len() > 0 {
        seq!["  🦀 Rust Operations: "@ + int_text(ops.len() as int)] + line_if(
            formatted_count(ops) > 0,
            "    ✨ Auto-formatted: "@ + int_text(formatted_count(ops) as int),
        ) + line_if(
            linted_count(ops) > 0,
            "    🔍 Auto-linted: "@ + int_text(linted_count(ops) as int),
        )
    } else {
        Seq::empty()
    }
}

/// The summary's lines on MCP servers.
pub open spec fn mcp_lines(usage: Seq<(String, u32)>) -> Seq<Seq<char>> {
    if usage.len() > 0 {
        seq!["  🔌 MCP Usage:"@] + usage_lines(usage)
    } else {
        Seq::empty()
    }
}

/// The summary printed at the end of session `s` at time `now`.
pub open spec fn summary_of(s: SessionStats, now: int) -> Seq<Seq<char>> {
    seq!["\n📊 Session Summary ("@ + s.session_id@ + ")"@] + duration_lines(s.start_time, now)
        + bash_lines(s.bash_commands@) + rust_lines(s.rust_operations@) + mcp_lines(s.mcp_usage@)
        + line_if(
        s.info_gathering_sessions@.len() > 0,
        "  📚 Information Sessions: "@ + int_text(s.info_gathering_sessions@.len() as int),
    )
}

/// The texts of a list of strings.
pub open spec fn texts(v: Seq<String>) -> Seq<Seq<char>> {
    v.map_values(|s: String| s@)
}

/// `prefix` followed by the decimal notation of `n`.
fn numbered(prefix: &str, n: i64) -> (r: String)
    ensures
        r@ == prefix@ + int_text(n as int),
{
    let mut r = String::from_str(prefix);
    push_int(&mut r, n);
    r
}

/// Where server `name` stands in `usage`, if it does.
fn find_server(usage: &Vec<(String, u32)>, name: &str) -> (r: Option<usize>)
    ensures
        r matches Some(i) ==> i < usage@.len() && usage@[i as int].0@ == name@,
        r is None ==> forall|i: int| 0 <= i < usage@.len() ==> (#[trigger] usage@[i]).0@ != name@,
{
    let mut i: usize = 0;
    while i < usage.len()
        invariant
            i <= usage.len(),
            forall|k: int| 0 <= k < i ==> (#[trigger] usage@[k]).0@ != name@,
        decreases usage.len() - i,
    {
        if same_text(usage[i].0.as_str(), name) {
            return Some(i);
        }
        i = i + 1;
    }
    None
}

/// Where the last lookup of `tool_name` in session `session_id` stands, if there is one.
fn find_last_lookup(v: &Vec<InfoSession>, tool_name: &str, session_id: &str) -> (r: Option<usize>)
    ensures
        r matches Some(i) ==> i < v@.len() && last_lookup(v@, tool_name@, session_id@) == Some(
            i as int,
        ),
        r is None ==> last_lookup(v@, tool_name@, session_id@) is None,
{
    let mut k: usize = v.len();
    assert(v@.take(k as int) =~= v@);
    while k > 0
        invariant
            k <= v.len(),
            last_lookup(v@, tool_name@, session_id@) == last_lookup(
                v@.take(k as int),
                tool_name@,
                session_id@,
            ),
        decreases k,
    {
        let ghost prefix = v@.take(k as int);
        assert(prefix.last() == v@[k - 1]);
        if same_text(v[k - 1].tool_name.as_str(), tool_name) && same_text(
            v[k - 1].session_id.as_str(),
            session_id,
        ) {
            return Some(k - 1);
        }
        assert(prefix.drop_last() =~= v@.take(k - 1));
        k = k - 1;
    }
    None
}

/// Where the last edit of `file_path` in session `session_id` stands, if there is one.
fn find_last_edit(v: &Vec<RustOperation>, file_path: &str, session_id: &str) -> (r: Option<usize>)
    ensures
        r matches Some(i) ==> i < v@.len() && last_edit(v@, file_path@, session_id@) == Some(
            i as int,
        ),
        r is None ==> last_edit(v@, file_path@, session_id@) is None,
{
    let mut k: usize = v.len();
    assert(v@.take(k as int) =~= v@);
    while k > 0
        invariant
            k <= v.len(),
            last_edit(v@, file_path@, session_id@) == last_edit(
                v@.take(k as int),
                file_path@,
                session_id@,
            ),
        decreases k,
    {
        let ghost prefix = v@.take(k as int);
        assert(prefix.last() == v@[k - 1]);
        if same_text(v[k - 1].file_path.as_str(), file_path) && same_text(
            v[k - 1].session_id.as_str(),
            session_id,
        ) {
            return Some(k - 1);
        }
        assert(prefix.drop_last() =~= v@.take(k - 1));
        k = k - 1;
    }
    None
}

/// `prefix` followed by the decimal notation of the count `n`.
fn counted(prefix: &str, n: usize) -> (r: String)
    ensures
        r@ == prefix@ + int_text(n as int),
{
    let mut r = String::from_str(prefix);
    crate::text::push_decimal(&mut r, n as u64);
    r
}

fn count_destructive(v: &Vec<BashCommand>) -> (r: usize)
    ensures
        r == destructive_count(v@),
{
    let mut n: usize = 0;
    let mut i: usize = 0;
    while i < v.len()
        invariant
            i <= v.len(),
            n <= i,
            n == count_where(v@.take(i as int), |c: BashCommand| c.is_destructive),
        decreases v.len() - i,
    {
        assert(v@.take(i + 1).drop_last() =~= v@.take(i as int));
        if v[i].is_destructive {
            n = n + 1;
        }
        i = i + 1;
    }
    assert(v@.take(i as int) =~= v@);
    n
}

fn count_system_level(v: &Vec<BashCommand>) -> (r: usize)
    ensures
        r == system_level_count(v@),
{
    let mut n: usize = 0;
    let mut i: usize = 0;
    while i < v.len()
        invariant
            i <= v.len(),
            n <= i,
            n == count_where(v@.take(i as int), |c: BashCommand| c.is_system_level),
        decreases v.len() - i,
    {
        assert(v@.take(i + 1).drop_last() =~= v@.take(i as int));
        if v[i].is_system_level {
            n = n + 1;
        }
        i = i + 1;
    }
    assert(v@.take(i as int) =~= v@);
    n
}

fn count_formatted(v: &Vec<RustOperation>) -> (r: usize)
    ensures
        r == formatted_count(v@),
{
    let mut n: usize = 0;
    let mut i: usize = 0;
    while i < v.len()
        invariant
            i <= v.len(),
            n <= i,
            n == count_where(v@.take(i as int), |o: RustOperation| o.format_applied),
        decreases v.len() - i,
    {
        assert(v@.take(i + 1).drop_last() =~= v@.take(i as int));
        if v[i].format_applied {
            n = n + 1;
        }
        i = i + 1;
    }
    assert(v@.take(i as int) =~= v@);
    n
}

fn count_linted(v: &Vec<RustOperation>) -> (r: usize)
    ensures
        r == linted_count(v@),
{
    let mut n: usize = 0;
    let mut i: usize = 0;
    while i < v.len()
        invariant
            i <= v.len(),
            n <= i,
            n == count_where(v@.take(i as int), |o: RustOperation| o.lint_applied),
        decreases v.len() - i,
    {
        assert(v@.take(i + 1).drop_last() =~= v@.take(i as int));
        if v[i].lint_applied {
            n = n + 1;
        }
        i = i + 1;
    }
    assert(v@.take(i as int) =~= v@);
    n
}

/// Whole minutes from `start` to `now`, rounded toward zero.
fn elapsed_minutes(start: i64, now: i64) -> (r: i64)
    ensures
        r == minutes_between(start as int, now as int),
{
    let d: i128 = now as i128 - start as i128;
    if d >= 0 {
        let m: i128 = d / 60000;
        assert(m <= d) by (nonlinear_arith) requires m == d / 60000, d >= 0;
        m as i64
    } else {
        let e: i128 = 0 - d;
        let m: i128 = e / 60000;
        assert(m <= e) by (nonlinear_arith) requires m == e / 60000, e >= 0;
        (0 - m) as i64
    }
}

/// Appends `line` to `lines`.
fn push_line(lines: &mut Vec<String>, line: String)
    ensures
        texts(final(lines)@) == texts(old(lines)@).push(line@),
{
    lines.push(line);
    assert(texts(final(lines)@) =~= texts(old(lines)@).push(line@));
}

impl SessionStats {
    /// Whether each MCP server is listed once.
    pub open spec fn wf(&self) -> bool {
        keys_unique(self.mcp_usage@)
    }

    /// A new session `session_id`, started at `now`.
    pub fn new(session_id: String, now: i64) -> (r: Self)
        ensures
            r.wf(),
            r.session_id == session_id,
            r.start_time == Some(now),
            r.bash_commands@.len() == 0,
            r.rust_operations@.len() == 0,
            r.mcp_usage@.len() == 0,
            r.info_gathering_sessions@.len() == 0,
    {
        SessionStats {
            session_id,
            start_time: Some(now),
            bash_commands: Vec::new(),
            rust_operations: Vec::new(),
            mcp_usage: Vec::new(),
            info_gathering_sessions: Vec::new(),
        }
    }

    /// Records the shell command that `validation` describes, seen at `now` in session
    /// `session_id` and directory `cwd`.
    pub fn record_bash_command(
        &mut self,
        validation: &CommandValidation,
        session_id: &str,
        cwd: &str,
        now: i64,
    )
        ensures
            final(self).bash_commands@.len() == old(self).bash_commands@.len() + 1,
            final(self).bash_commands@.drop_last() == old(self).bash_commands@,
            final(self).bash_commands@.last().timestamp == now,
            final(self).bash_commands@.last().command@ == validation.command@,
            final(self).bash_commands@.last().session_id@ == session_id@,
            final(self).bash_commands@.last().cwd@ == cwd@,
            final(self).bash_commands@.last().is_destructive == validation.is_destructive,
            final(self).bash_commands@.last().is_system_level == validation.is_system_level,
            final(self).session_id == old(self).session_id,
            final(self).start_time == old(self).start_time,
            final(self).rust_operations == old(self).rust_operations,
            final(self).mcp_usage == old(self).mcp_usage,
            final(self).info_gathering_sessions == old(self).info_gathering_sessions,
    {
        let record = BashCommand {
            timestamp: now,
            command: String::from_str(validation.command.as_str()),
            session_id: String::from_str(session_id),
            cwd: String::from_str(cwd),
            is_destructive: validation.is_destructive,
            is_system_level: validation.is_system_level,
        };
        self.bash_commands.push(record);
        assert(self.bash_commands@.drop_last() =~= old(self).bash_commands@);
    }

    /// Records, at `now`, the use of tool `tool_name` on `file_path` in session `session_id`,
    /// when the file is a Rust source file; does nothing otherwise.
    pub fn record_rust_operation(
        &mut self,
        tool_name: &str,
        file_path: &str,
        session_id: &str,
        now: i64,
    )
        ensures
            !ends_with_seq(file_path@, ".rs"@) ==> final(self).rust_operations == old(
                self,
            ).rust_operations,
            ends_with_seq(file_path@, ".rs"@) ==> {
                &&& final(self).rust_operations@.len() == old(self).rust_operations@.len() + 1
                &&& final(self).rust_operations@.drop_last() == old(self).rust_operations@
                &&& final(self).rust_operations@.last().timestamp == now
                &&& final(self).rust_operations@.last().operation_type@ == tool_name@
                &&& final(self).rust_operations@.last().file_path@ == file_path@
                &&& final(self).rust_operations@.last().session_id@ == session_id@
                &&& !final(self).rust_operations@.last().lint_applied
                &&& !final(self).rust_operations@.last().format_applied
            },
            final(self).session_id == old(self).session_id,
            final(self).start_time == old(self).start_time,
            final(self).bash_commands == old(self).bash_commands,
            final(self).mcp_usage == old(self).mcp_usage,
            final(self).info_gathering_sessions == old(self).info_gathering_sessions,
    {
        if ends_with_text(file_path, ".rs") {
            let record = RustOperation {
                timestamp: now,
                operation_type: String::from_str(tool_name),
                file_path: String::from_str(file_path),
                session_id: String::from_str(session_id),
                lint_applied: false,
                format_applied: false,
            };
            self.rust_operations.push(record);
            assert(self.rust_operations@.drop_last() =~= old(self).rust_operations@);
        }
    }

    /// Counts one more use of MCP server `server_name` (a count stops at the largest `u32`),
    /// and records `lookup`, a documentation lookup, when there is one.
    pub fn record_mcp_usage(&mut self, server_name: &str, lookup: Option<InfoSession>)
        requires
            old(self).wf(),
        ensures
            final(self).wf(),
            (exists|i: int|
                0 <= i < old(self).mcp_usage@.len() && (#[trigger] old(self).mcp_usage@[i]).0@
                    == server_name@) ==> {
                let i = choose|i: int|
                    0 <= i < old(self).mcp_usage@.len() && (#[trigger] old(
                        self,
                    ).mcp_usage@[i]).0@ == server_name@;
                let c = old(self).mcp_usage@[i].1;
                final(self).mcp_usage@ == old(self).mcp_usage@.update(
                    i,
                    (old(self).mcp_usage@[i].0, if c < u32::MAX { (c + 1) as u32 } else { c }),
                )
            },
            (forall|i: int|
                0 <= i < old(self).mcp_usage@.len() ==> (#[trigger] old(self).mcp_usage@[i]).0@
                    != server_name@) ==> {
                &&& final(self).mcp_usage@.len() == old(self).mcp_usage@.len() + 1
                &&& final(self).mcp_usage@.drop_last() == old(self).mcp_usage@
                &&& final(self).mcp_usage@.last().0@ == server_name@
                &&& final(self).mcp_usage@.last().1 == 1
            },
            final(self).info_gathering_sessions@ == match lookup {
                Some(l) => old(self).info_gathering_sessions@.push(l),
                None => old(self).info_gathering_sessions@,
            },
            final(self).session_id == old(self).session_id,
            final(self).start_time == old(self).start_time,
            final(self).bash_commands == old(self).bash_commands,
            final(self).rust_operations == old(self).rust_operations,
    {
        let found = find_server(&self.mcp_usage, server_name);
        if let Some(i) = found {
            let (name, count) = self.mcp_usage.remove(i);
            let next = if count < u32::MAX {
                count + 1
            } else {
                count
            };
            self.mcp_usage.insert(i, (name, next));
            proof {
                let j = choose|j: int|
                    0 <= j < old(self).mcp_usage@.len() && (#[trigger] old(
                        self,
                    ).mcp_usage@[j]).0@ == server_name@;
                if j != i {
                    assert(old(self).mcp_usage@[j].0@ != old(self).mcp_usage@[i as int].0@);
                }
                assert(self.mcp_usage@ =~= old(self).mcp_usage@.update(i as int, (name, next)));
                assert(keys_unique(self.mcp_usage@)) by {
                    assert forall|a: int, b: int|
                        0 <= a < self.mcp_usage@.len() && 0 <= b < self.mcp_usage@.len() && a != b
                            implies (#[trigger] self.mcp_usage@[a]).0@
                        != (#[trigger] self.mcp_usage@[b]).0@ by {
                        assert(self.mcp_usage@[a].0 == old(self).mcp_usage@[a].0);
                        assert(self.mcp_usage@[b].0 == old(self).mcp_usage@[b].0);
                    }
                }
            }
        } else {
            self.mcp_usage.push((String::from_str(server_name), 1));
            assert(self.mcp_usage@.drop_last() =~= old(self).mcp_usage@);
            assert(keys_unique(self.mcp_usage@)) by {
                assert forall|a: int, b: int|
                    0 <= a < self.mcp_usage@.len() && 0 <= b < self.mcp_usage@.len() && a != b
                        implies (#[trigger] self.mcp_usage@[a]).0@
                    != (#[trigger] self.mcp_usage@[b]).0@ by {
                    if a < old(self).mcp_usage@.len() && b < old(self).mcp_usage@.len() {
                        assert(self.mcp_usage@[a] == old(self).mcp_usage@[a]);
                        assert(self.mcp_usage@[b] == old(self).mcp_usage@[b]);
                    } else if a < old(self).mcp_usage@.len() {
                        assert(self.mcp_usage@[a] == old(self).mcp_usage@[a]);
                    } else {
                        assert(self.mcp_usage@[b] == old(self).mcp_usage@[b]);
                    }
                }
            }
        }
        if let Some(l) = lookup {
            self.info_gathering_sessions.push(l);
        }
    }

    /// Sets the summary of the last lookup through tool `tool_name` in session `session_id`
    /// from the response's `content`; does nothing when there is no such lookup.
    pub fn update_info_session_result(
        &mut self,
        tool_name: &str,
        session_id: &str,
        content: &ResponseContent,
    )
        ensures
            final(self).info_gathering_sessions@.len() == old(self).info_gathering_sessions@.len(),
            match last_lookup(old(self).info_gathering_sessions@, tool_name@, session_id@) {
                None => final(self).info_gathering_sessions == old(self).info_gathering_sessions,
                Some(i) => {
                    &&& forall|j: int|
                        0 <= j < old(self).info_gathering_sessions@.len() && j != i
                            ==> #[trigger] final(self).info_gathering_sessions@[j] == old(
                            self,
                        ).info_gathering_sessions@[j]
                    &&& final(self).info_gathering_sessions@[i].timestamp == old(
                        self,
                    ).info_gathering_sessions@[i].timestamp
                    &&& final(self).info_gathering_sessions@[i].session_id == old(
                        self,
                    ).info_gathering_sessions@[i].session_id
                    &&& final(self).info_gathering_sessions@[i].tool_name == old(
                        self,
                    ).info_gathering_sessions@[i].tool_name
                    &&& final(self).info_gathering_sessions@[i].query_info == old(
                        self,
                    ).info_gathering_sessions@[i].query_info
                    &&& final(self).info_gathering_sessions@[i].result_summary matches Some(t)
                        && t@ == summary_text(*content)
                },
            },
            final(self).session_id == old(self).session_id,
            final(self).start_time == old(self).start_time,
            final(self).bash_commands == old(self).bash_commands,
            final(self).rust_operations == old(self).rust_operations,
            final(self).mcp_usage == old(self).mcp_usage,
    {
        let k = match find_last_lookup(&self.info_gathering_sessions, tool_name, session_id) {
            Some(i) => i,
            None => {
                return;
            },
        };
        let summary = match content {
            ResponseContent::Missing => String::from_str("Information retrieved successfully"),
            ResponseContent::NotText => String::from_str("Retrieved: Data retrieved"),
            ResponseContent::Text(s) => join_text("Retrieved: ", char_prefix(s.as_str(), 100).as_str()),
        };
        let ghost before = self.info_gathering_sessions@;
        let mut session = self.info_gathering_sessions.remove(k);
        session.result_summary = Some(summary);
        self.info_gathering_sessions.insert(k, session);
        assert forall|j: int|
            0 <= j < before.len() && j != k implies #[trigger] self.info_gathering_sessions@[j]
            == before[j] by {
            if j < k {
                assert(self.info_gathering_sessions@[j] == before[j]);
            } else {
                assert(self.info_gathering_sessions@[j] == before[j]);
            }
        }
    }

    /// Sets whether formatting and linting followed the last edit of `file_path` in session
    /// `session_id`; does nothing when there is no such edit.
    pub fn update_rust_operation(
        &mut self,
        file_path: &str,
        session_id: &str,
        format_applied: bool,
        lint_applied: bool,
    )
        ensures
            final(self).rust_operations@.len() == old(self).rust_operations@.len(),
            match last_edit(old(self).rust_operations@, file_path@, session_id@) {
                None => final(self).rust_operations == old(self).rust_operations,
                Some(i) => {
                    &&& forall|j: int|
                        0 <= j < old(self).rust_operations@.len() && j != i
                            ==> #[trigger] final(self).rust_operations@[j] == old(
                            self,
                        ).rust_operations@[j]
                    &&& final(self).rust_operations@[i].timestamp == old(
                        self,
                    ).rust_operations@[i].timestamp
                    &&& final(self).rust_operations@[i].operation_type == old(
                        self,
                    ).rust_operations@[i].operation_type
                    &&& final(self).rust_operations@[i].file_path == old(
                        self,
                    ).rust_operations@[i].file_path
                    &&& final(self).rust_operations@[i].session_id == old(
                        self,
                    ).rust_operations@[i].session_id
                    &&& final(self).rust_operations@[i].format_applied == format_applied
                    &&& final(self).rust_operations@[i].lint_applied == lint_applied
                },
            },
            final(self).session_id == old(self).session_id,
            final(self).start_time == old(self).start_time,
            final(self).bash_commands == old(self).bash_commands,
            final(self).mcp_usage == old(self).mcp_usage,
            final(self).info_gathering_sessions == old(self).info_gathering_sessions,
    {
        let k = match find_last_edit(&self.rust_operations, file_path, session_id) {
            Some(i) => i,
            None => {
                return;
            },
        };
        let ghost before = self.rust_operations@;
        let mut op = self.rust_operations.remove(k);
        op.format_applied = format_applied;
        op.lint_applied = lint_applied;
        self.rust_operations.insert(k, op);
        assert forall|j: int|
            0 <= j < before.len() && j != k implies #[trigger] self.rust_operations@[j]
            == before[j] by {
            assert(self.rust_operations@[j] == before[j]);
        }
    }

    /// The lines of the summary printed at the end of the session, at time `now`.
    pub fn summary_lines(&self, now: i64) -> (r: Vec<String>)
        ensures
            texts(r@) == summary_of(*self, now as int),
    {
        let mut lines: Vec<String> = Vec::new();
        let mut head = join_text("\n📊 Session Summary (", self.session_id.as_str());
        head.append(")");
        push_line(&mut lines, head);
        push_duration(&mut lines, self.start_time, now);
        push_bash(&mut lines, &self.bash_commands);
        push_rust(&mut lines, &self.rust_operations);
        push_mcp(&mut lines, &self.mcp_usage);
        let ghost part = texts(lines@);
        let sessions = self.info_gathering_sessions.len();
        if sessions > 0 {
            push_line(&mut lines, counted("  📚 Information Sessions: ", sessions));
        }
        assert(texts(lines@) =~= part + line_if(
            sessions > 0,
            "  📚 Information Sessions: "@ + int_text(sessions as int),
        ));
        assert(texts(lines@) =~= summary_of(*self, now as int));
        lines
    }
}

fn push_duration(lines: &mut Vec<String>, start_time: Option<i64>, now: i64)
    ensures
        texts(final(lines)@) == texts(old(lines)@) + duration_lines(start_time, now as int),
{
    if let Some(start) = start_time {
        let mut line = numbered("  ⏱️  Duration: ", elapsed_minutes(start, now));
        line.append(" minutes");
        push_line(lines, line);
    }
    assert(texts(final(lines)@) =~= texts(old(lines)@) + duration_lines(start_time, now as int));
}

fn push_bash(lines: &mut Vec<String>, bash: &Vec<BashCommand>)
    ensures
        texts(final(lines)@) == texts(old(lines)@) + bash_lines(bash@),
{
    if bash.len() > 0 {
        push_line(lines, counted("  💻 Bash Commands: ", bash.len()));
        let destructive = count_destructive(bash);
        if destructive > 0 {
            push_line(lines, counted("    ⚠️  Destructive commands: ", destructive));
        }
        let system = count_system_level(bash);
        if system > 0 {
            push_line(lines, counted("    🔧 System-level commands: ", system));
        }
    }
    assert(texts(final(lines)@) =~= texts(old(lines)@) + bash_lines(bash@));
}

fn push_rust(lines: &mut Vec<String>, ops: &Vec<RustOperation>)
    ensures
        texts(final(lines)@) == texts(old(lines)@) + rust_lines(ops@),
{
    if ops.len() > 0 {
        push_line(lines, counted("  🦀 Rust Operations: ", ops.len()));
        let formatted = count_formatted(ops);
        if formatted > 0 {
            push_line(lines, counted("    ✨ Auto-formatted: ", formatted));
        }
        let linted = count_linted(ops);
        if linted > 0 {
            push_line(lines, counted("    🔍 Auto-linted: ", linted));
        }
    }
    assert(texts(final(lines)@) =~= texts(old(lines)@) + rust_lines(ops@));
}

fn push_mcp(lines: &mut Vec<String>, usage: &Vec<(String, u32)>)
    ensures
        texts(final(lines)@) == texts(old(lines)@) + mcp_lines(usage@),
{
    if usage.len() > 0 {
        push_line(lines, String::from_str("  🔌 MCP Usage:"));
        let ghost base = texts(lines@);
        let mut i: usize = 0;
        while i < usage.len()
            invariant
                i <= usage.len(),
                texts(lines@) == base + usage_lines(usage@.take(i as int)),
            decreases usage.len() - i,
        {
            let mut line = join_text("    ", usage[i].0.as_str());
            line.append(" x");
            crate::text::push_decimal(&mut line, usage[i].1 as u64);
            push_line(lines, line);
            assert(usage@.take(i + 1).drop_last() =~= usage@.take(i as int));
            i = i + 1;
            assert(texts(lines@) =~= base + usage_lines(usage@.take(i as int)));
        }
        assert(usage@.take(i as int) =~= usage@);
    }
    assert(texts(final(lines)@) =~= texts(old(lines)@) + mcp_lines(usage@));
}

impl Default for SessionStats {
    fn default() -> (r: Self)
        ensures
            r.wf(),
            r.session_id@.len() == 0,
            r.start_time is None,
            r.bash_commands@.len() == 0,
            r.rust_operations@.len() == 0,
            r.mcp_usage@.len() == 0,
            r.info_gathering_sessions@.len() == 0,
    {
        SessionStats {
            session_id: String::new(),
            start_time: None,
            bash_commands: Vec::new(),
            rust_operations: Vec::new(),
            mcp_usage: Vec::new(),
            info_gathering_sessions: Vec::new(),
        }
    }
}

} // verus!
