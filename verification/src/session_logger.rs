//! The log of completed sessions: one CSV line per session after a header
//! line, and the count of sessions read back from such a file.
use crate::clock::{formatted_instant, Timestamp};
use crate::text::{
    chars_of, decimal, decimal_string, join, join_strings, lacks, law_split_undoes_join, lemma_split_on_nonempty, lines, lines_of,
    no_newline, push_char, split_on, str_equal, texts, to_owned_string,
};
use vstd::prelude::*;
use vstd::string::*;

verus! {

/// The failures of a session log.
pub enum LoggerError {
    Io(String),
    Serialization(String),
    Csv(String),
    Database(String),
}

impl LoggerError {
    /// The text that the error displays.
    pub open spec fn message_text(&self) -> Seq<char> {
        match self {
            LoggerError::Io(e) => "IO Error: "@ + e@,
            LoggerError::Serialization(e) => "Serialization error: "@ + e@,
            LoggerError::Csv(e) => "CSV error: "@ + e@,
            LoggerError::Database(e) => "Database error: "@ + e@,
        }
    }

    /// The text that the error displays.
    pub fn message(&self) -> (r: String)
        ensures
            r@ == self.message_text(),
    {
        let (prefix, detail) = match self {
            LoggerError::Io(e) => ("IO Error: ", e),
            LoggerError::Serialization(e) => ("Serialization error: ", e),
            LoggerError::Csv(e) => ("CSV error: ", e),
            LoggerError::Database(e) => ("Database error: ", e),
        };
        let mut r = to_owned_string(prefix);
        r.append(detail.as_str());
        r
    }
}

/// The text of an optional string.
pub open spec fn opt_text(o: Option<String>) -> Option<Seq<char>> {
    match o {
        Some(s) => Some(s@),
        None => None,
    }
}

/// The text, or nothing when there is none.
pub open spec fn or_empty(o: Option<Seq<char>>) -> Seq<char> {
    match o {
        Some(s) => s,
        None => Seq::<char>::empty(),
    }
}

/// A copy of an optional string.
pub fn copy_opt_string(o: &Option<String>) -> (r: Option<String>)
    ensures
        opt_text(r) == opt_text(*o),
{
    match o {
        Some(s) => Some(s.clone()),
        None => None,
    }
}

/// A copy of a list of strings.
pub fn copy_strings(v: &Vec<String>) -> (r: Vec<String>)
    ensures
        texts(r@) == texts(v@),
{
    let mut r: Vec<String> = Vec::new();
    let mut i: usize = 0;
    while i < v.len()
        invariant
            i <= v.len(),
            texts(r@) == texts(v@).take(i as int),
        decreases v.len() - i,
    {
        let ghost before = r@;
        let item = v[i].clone();
        r.push(item);
        assert(r@ == before.push(item));
        assert(texts(before).len() == before.len());
        assert(texts(v@).take(i as int).len() == i);
        assert(texts(r@).len() == i + 1);
        assert(texts(r@)[i as int] == v@[i as int]@);
        assert forall|k: int| 0 <= k < i + 1 implies texts(r@)[k] == texts(v@).take(i + 1)[k] by {
            if k < i {
                assert(texts(before)[k] == texts(v@).take(i as int)[k]);
            }
        }
        assert(texts(r@) =~= texts(v@).take(i + 1));
        i = i + 1;
    }
    assert(texts(v@).take(v.len() as int) =~= texts(v@));
    r
}

/// The strftime pattern of the time column.
pub open spec fn csv_time_pattern() -> Seq<char> {
    "%Y-%m-%d %H:%M:%S UTC"@
}

/// The header line of the log (without its line break).
pub open spec fn csv_header_text() -> Seq<char> {
    "session_id,timestamp,names,weapon_choice,land_choice,companion_choice,photo_path,email,print_job_id,duration_seconds"@
}

/// A completed session as the log records it.
pub struct SessionRecord {
    pub session_id: String,
    pub timestamp: Timestamp,
    pub names: Vec<String>,
    pub weapon_choice: Option<String>,
    pub land_choice: Option<String>,
    pub companion_choice: Option<String>,
    pub photo_path: Option<String>,
    pub email: Option<String>,
    pub print_job_id: Option<String>,
    pub session_duration_seconds: Option<u64>,
}

/// The content of a [`SessionRecord`].
pub struct SessionRecordView {
    pub session_id: Seq<char>,
    pub timestamp: (i64, u32),
    pub names: Seq<Seq<char>>,
    pub weapon_choice: Option<Seq<char>>,
    pub land_choice: Option<Seq<char>>,
    pub companion_choice: Option<Seq<char>>,
    pub photo_path: Option<Seq<char>>,
    pub email: Option<Seq<char>>,
    pub print_job_id: Option<Seq<char>>,
    pub session_duration_seconds: Option<u64>,
}

impl View for SessionRecord {
    type V = SessionRecordView;

    open spec fn view(&self) -> SessionRecordView {
        SessionRecordView {
            session_id: self.session_id@,
            timestamp: self.timestamp@,
            names: texts(self.names@),
            weapon_choice: opt_text(self.weapon_choice),
            land_choice: opt_text(self.land_choice),
            companion_choice: opt_text(self.companion_choice),
            photo_path: opt_text(self.photo_path),
            email: opt_text(self.email),
            print_job_id: opt_text(self.print_job_id),
            session_duration_seconds: self.session_duration_seconds,
        }
    }
}

/// The ten columns of the CSV row of a record whose time column reads
/// `time_text`: the names separated by semicolons, absent values empty and an
/// absent duration written as 0.
pub open spec fn csv_columns(r: SessionRecordView, time_text: Seq<char>) -> Seq<Seq<char>> {
    seq![
        r.session_id,
        time_text,
        join(r.names, seq![';']),
        or_empty(r.weapon_choice),
        or_empty(r.land_choice),
        or_empty(r.companion_choice),
        or_empty(r.photo_path),
        or_empty(r.email),
        or_empty(r.print_job_id),
        decimal(
            match r.session_duration_seconds {
                Some(d) => d as nat,
                None => 0nat,
            },
        ),
    ]
}

/// The CSV row of a record whose time column reads `time_text`: its
/// columns separated by commas.
pub open spec fn csv_row_text(r: SessionRecordView, time_text: Seq<char>) -> Seq<char> {
    join(csv_columns(r, time_text), seq![','])
}

/// The CSV row of a record, its time column rendered by the time library.
pub open spec fn csv_row_of(r: SessionRecordView) -> Seq<char> {
    csv_row_text(r, formatted_instant(r.timestamp.0, r.timestamp.1, csv_time_pattern()))
}

/// `o`, or the empty string when it is absent.
fn opt_or_empty(o: &Option<String>) -> (r: String)
    ensures
        r@ == or_empty(opt_text(*o)),
{
    match o {
        Some(v) => v.clone(),
        None => String::new(),
    }
}

impl SessionRecord {
    /// An empty record of the session `session_id`, stamped with `timestamp`.
    pub fn new_at(session_id: String, timestamp: Timestamp) -> (r: SessionRecord)
        ensures
            r@ == (SessionRecordView {
                session_id: session_id@,
                timestamp: timestamp@,
                names: Seq::<Seq<char>>::empty(),
                weapon_choice: None,
                land_choice: None,
                companion_choice: None,
                photo_path: None,
                email: None,
                print_job_id: None,
                session_duration_seconds: None,
            }),
    {
        let r = SessionRecord {
            session_id,
            timestamp,
            names: Vec::new(),
            weapon_choice: None,
            land_choice: None,
            companion_choice: None,
            photo_path: None,
            email: None,
            print_job_id: None,
            session_duration_seconds: None,
        };
        assert(texts(r.names@) =~= Seq::<Seq<char>>::empty());
        r
    }

    /// An empty record of the session `session_id`, stamped now; `None`
    /// when the clock cannot be read as an instant after the epoch.
    pub fn new(session_id: String) -> (r: Option<SessionRecord>)
        ensures
            r matches Some(rec) ==> ({
                &&& rec@.session_id == session_id@
                &&& rec@.timestamp.0 >= 0
                &&& rec@.names.len() == 0
                &&& rec@.weapon_choice is None
                &&& rec@.land_choice is None
                &&& rec@.companion_choice is None
                &&& rec@.photo_path is None
                &&& rec@.email is None
                &&& rec@.print_job_id is None
                &&& rec@.session_duration_seconds is None
            }),
    {
        match Timestamp::now() {
            Some(now) => Some(Self::new_at(session_id, now)),
            None => None,
        }
    }

    /// The CSV row of this record with the time column `time_text`.
    pub fn csv_row(&self, time_text: &str) -> (r: String)
        ensures
            r@ == csv_row_text(self@, time_text@),
    {
        let mut cols: Vec<String> = Vec::new();
        cols.push(self.session_id.clone());
        cols.push(to_owned_string(time_text));
        cols.push(join_strings(&self.names, ";"));
        cols.push(opt_or_empty(&self.weapon_choice));
        cols.push(opt_or_empty(&self.land_choice));
        cols.push(opt_or_empty(&self.companion_choice));
        cols.push(opt_or_empty(&self.photo_path));
        cols.push(opt_or_empty(&self.email));
        cols.push(opt_or_empty(&self.print_job_id));
        let duration = match self.session_duration_seconds {
            Some(d) => d,
            None => 0,
        };
        cols.push(decimal_string(duration));
        proof {
            reveal_strlit(";");
            reveal_strlit(",");
            assert(";"@ =~= seq![';']);
            assert(","@ =~= seq![',']);
            assert(texts(cols@) =~= csv_columns(self@, time_text@));
        }
        join_strings(&cols, ",")
    }

    /// The CSV row of this record, its time column rendered as
    /// `YYYY-MM-DD HH:MM:SS UTC`.
    pub fn to_csv_row(&self) -> (r: String)
        ensures
            r@ == csv_row_of(self@),
    {
        let time_text = self.timestamp.format("%Y-%m-%d %H:%M:%S UTC");
        self.csv_row(time_text.as_str())
    }

    /// The header line of the log.
    pub fn csv_header() -> (r: &'static str)
        ensures
            r@ == csv_header_text(),
    {
        "session_id,timestamp,names,weapon_choice,land_choice,companion_choice,photo_path,email,print_job_id,duration_seconds"
    }
}

/// The kinds of session log.
pub enum LoggerKind {
    Csv(CsvLogger),
    Sqlite(SqliteLogger),
}

/// The log that a configuration name selects: `"sqlite"` selects the SQLite
/// log at `./sessions.db`; `"csv"` and every other name the CSV log at
/// `./sessions.csv`.
pub fn new_logger(logger_type: &str) -> (r: LoggerKind)
    ensures
        logger_type@ == "sqlite"@ ==> (r matches LoggerKind::Sqlite(l) && l.db_path@
            == "./sessions.db"@),
        logger_type@ != "sqlite"@ ==> (r matches LoggerKind::Csv(l) && l.file_path@
            == "./sessions.csv"@),
{
    if str_equal(logger_type, "sqlite") {
        LoggerKind::Sqlite(SqliteLogger::new("./sessions.db"))
    } else {
        LoggerKind::Csv(CsvLogger::new("./sessions.csv"))
    }
}

/// The number of records that a log file holds: its lines less the header
/// line; none when the file holds nothing or cannot be read.
pub open spec fn records_in(content: Option<Seq<char>>) -> nat {
    match content {
        Some(c) => if lines(c).len() > 0 {
            (lines(c).len() - 1) as nat
        } else {
            0
        },
        None => 0,
    }
}

/// The number of occurrences of `c` in `s`.
pub open spec fn count_char(s: Seq<char>, c: char) -> nat
    decreases s.len(),
{
    if s.len() == 0 {
        0
    } else {
        count_char(s.drop_last(), c) + if s.last() == c {
            1nat
        } else {
            0nat
        }
    }
}

/// The lines that logging the rows appends: each row and a line break.
pub open spec fn rows_text(rows: Seq<Seq<char>>) -> Seq<char>
    decreases rows.len(),
{
    if rows.len() == 0 {
        Seq::<char>::empty()
    } else {
        rows_text(rows.drop_last()) + rows.last().push('\n')
    }
}

/// A log file begun with `header` and then given the rows.
pub open spec fn log_text(header: Seq<char>, rows: Seq<Seq<char>>) -> Seq<char> {
    header.push('\n') + rows_text(rows)
}

/// There is one more piece than separators.
proof fn lemma_split_on_count(s: Seq<char>, sep: char)
    ensures
        split_on(s, sep).len() == count_char(s, sep) + 1,
    decreases s.len(),
{
    if s.len() > 0 {
        lemma_split_on_count(s.drop_last(), sep);
        lemma_split_on_nonempty(s.drop_last(), sep);
    }
}

/// Occurrences add up over a concatenation.
proof fn lemma_count_char_concat(a: Seq<char>, b: Seq<char>, c: char)
    ensures
        count_char(a + b, c) == count_char(a, c) + count_char(b, c),
    decreases b.len(),
{
    if b.len() == 0 {
        assert(a + b =~= a);
    } else {
        assert((a + b).drop_last() =~= a + b.drop_last());
        lemma_count_char_concat(a, b.drop_last(), c);
    }
}

/// A text without line breaks holds none.
proof fn lemma_count_no_newline(s: Seq<char>)
    requires
        no_newline(s),
    ensures
        count_char(s, '\n') == 0,
    decreases s.len(),
{
    if s.len() > 0 {
        lemma_count_no_newline(s.drop_last());
    }
}

/// Logged rows without line breaks add one line break each.
proof fn lemma_rows_text_count(rows: Seq<Seq<char>>)
    requires
        forall|i: int| 0 <= i < rows.len() ==> no_newline(#[trigger] rows[i]),
    ensures
        count_char(rows_text(rows), '\n') == rows.len(),
    decreases rows.len(),
{
    if rows.len() > 0 {
        let init = rows.drop_last();
        assert forall|i: int| 0 <= i < init.len() implies no_newline(#[trigger] init[i]) by {
            assert(init[i] == rows[i]);
        }
        lemma_rows_text_count(init);
        let last = rows.last();
        assert(no_newline(rows[rows.len() - 1]));
        lemma_count_no_newline(last);
        lemma_count_char_concat(rows_text(init), last.push('\n'), '\n');
        assert(last.push('\n').drop_last() =~= last);
    }
}

/// A text that ends with a line break has as many lines as line breaks.
proof fn lemma_lines_of_terminated(s: Seq<char>)
    requires
        s.len() > 0,
        s.last() == '\n',
    ensures
        lines(s).len() == count_char(s, '\n'),
{
    lemma_split_on_count(s, '\n');
    lemma_split_on_nonempty(s.drop_last(), '\n');
}

/// Law: a text has one line per line break, and one more when it does not
/// end with a line break and is not empty.
pub proof fn law_line_count(s: Seq<char>)
    ensures
        lines(s).len() == count_char(s, '\n') + if s.len() > 0 && s.last() != '\n' {
            1nat
        } else {
            0nat
        },
{
    lemma_split_on_count(s, '\n');
    if s.len() > 0 {
        lemma_split_on_nonempty(s.drop_last(), '\n');
    }
}

/// Law: a log file begun with a header line and then given one line per
/// logged row reads back as holding exactly as many records as rows were
/// logged, provided neither the header nor a row holds a line break.
pub proof fn law_logged_rows_are_counted(header: Seq<char>, rows: Seq<Seq<char>>)
    requires
        no_newline(header),
        forall|i: int| 0 <= i < rows.len() ==> no_newline(#[trigger] rows[i]),
    ensures
        records_in(Some(log_text(header, rows))) == rows.len(),
{
    let text = log_text(header, rows);
    lemma_rows_text_count(rows);
    lemma_count_no_newline(header);
    lemma_count_char_concat(header.push('\n'), rows_text(rows), '\n');
    assert(header.push('\n').drop_last() =~= header);
    if rows.len() > 0 {
        assert(text.last() == rows_text(rows).last());
        assert(rows_text(rows).last() == '\n');
    } else {
        assert(rows_text(rows) =~= Seq::<char>::empty());
        assert(text =~= header.push('\n'));
    }
    lemma_lines_of_terminated(text);
}

/// Law: a log file created with the header line and then given the line of
/// each logged session reads back as holding exactly as many sessions as
/// were logged, provided no session's row holds a line break.
pub proof fn law_logged_sessions_are_counted(records: Seq<SessionRecordView>)
    requires
        forall|i: int| 0 <= i < records.len() ==> no_newline(#[trigger] csv_row_of(records[i])),
    ensures
        records_in(
            Some(log_text(csv_header_text(), records.map_values(|r: SessionRecordView| csv_row_of(r)))),
        ) == records.len(),
{
    let rows = records.map_values(|r: SessionRecordView| csv_row_of(r));
    lemma_header_single_line();
    assert forall|i: int| 0 <= i < rows.len() implies no_newline(#[trigger] rows[i]) by {
        assert(rows[i] == csv_row_of(records[i]));
    }
    law_logged_rows_are_counted(csv_header_text(), rows);
}

/// The log's header line holds no line break.
pub proof fn lemma_header_single_line()
    ensures
        no_newline(csv_header_text()),
{
    reveal_strlit(
        "session_id,timestamp,names,weapon_choice,land_choice,companion_choice,photo_path,email,print_job_id,duration_seconds",
    );
}

/// Joined parts hold no line break when neither the parts nor the separator do.
proof fn lemma_join_single_line(parts: Seq<Seq<char>>, sep: Seq<char>)
    requires
        forall|i: int| 0 <= i < parts.len() ==> no_newline(#[trigger] parts[i]),
        no_newline(sep),
    ensures
        no_newline(join(parts, sep)),
    decreases parts.len(),
{
    if parts.len() > 1 {
        let init = parts.drop_last();
        assert forall|i: int| 0 <= i < init.len() implies no_newline(#[trigger] init[i]) by {
            assert(init[i] == parts[i]);
        }
        lemma_join_single_line(init, sep);
        assert(no_newline(parts[parts.len() - 1]));
        let j = join(init, sep);
        let whole = j + sep + parts.last();
        assert forall|k: int| 0 <= k < whole.len() implies whole[k] != '\n' by {
            if k < j.len() {
            } else if k < j.len() + sep.len() {
                assert(whole[k] == sep[k - j.len()]);
            } else {
                assert(whole[k] == parts.last()[k - j.len() - sep.len()]);
            }
        }
    } else if parts.len() == 1 {
        assert(no_newline(parts[0]));
    }
}

/// Decimal numerals hold no line break.
proof fn lemma_decimal_single_line(n: nat)
    ensures
        no_newline(decimal(n)),
    decreases n,
{
    if n >= 10 {
        lemma_decimal_single_line(n / 10);
    }
}

/// The CSV row of a record holds no line break when none of its texts and
/// its time column hold one.
pub proof fn lemma_csv_row_single_line(r: SessionRecordView, time_text: Seq<char>)
    requires
        no_newline(r.session_id),
        no_newline(time_text),
        forall|i: int| 0 <= i < r.names.len() ==> no_newline(#[trigger] r.names[i]),
        no_newline(or_empty(r.weapon_choice)),
        no_newline(or_empty(r.land_choice)),
        no_newline(or_empty(r.companion_choice)),
        no_newline(or_empty(r.photo_path)),
        no_newline(or_empty(r.email)),
        no_newline(or_empty(r.print_job_id)),
    ensures
        no_newline(csv_row_text(r, time_text)),
{
    lemma_join_single_line(r.names, seq![';']);
    lemma_decimal_single_line(
        match r.session_duration_seconds {
            Some(d) => d as nat,
            None => 0nat,
        },
    );
    let cols = csv_columns(r, time_text);
    assert forall|i: int| 0 <= i < cols.len() implies no_newline(#[trigger] cols[i]) by {}
    lemma_join_single_line(cols, seq![',']);
}

/// Law: a CSV row reads back into the columns it was written from, when no
/// column holds a comma.
pub proof fn law_csv_row_reads_back(r: SessionRecordView, time_text: Seq<char>)
    requires
        forall|i: int|
            0 <= i < csv_columns(r, time_text).len() ==> lacks(
                #[trigger] csv_columns(r, time_text)[i],
                ',',
            ),
    ensures
        split_on(csv_row_text(r, time_text), ',') == csv_columns(r, time_text),
{
    law_split_undoes_join(csv_columns(r, time_text), ',');
}

/// Law: the names column reads back into the names it was written from,
/// when there is at least one name and none holds a semicolon.
pub proof fn law_names_read_back(names: Seq<Seq<char>>)
    requires
        names.len() > 0,
        forall|i: int| 0 <= i < names.len() ==> lacks(#[trigger] names[i], ';'),
    ensures
        split_on(join(names, seq![';']), ';') == names,
{
    law_split_undoes_join(names, ';');
}

/// A session log kept as a CSV file.
pub struct CsvLogger {
    pub file_path: String,
}

impl CsvLogger {
    /// The log kept in the file at `file_path`.
    pub fn new(file_path: &str) -> (r: CsvLogger)
        ensures
            r.file_path@ == file_path@,
    {
        CsvLogger { file_path: to_owned_string(file_path) }
    }

    /// What a new log file is created with: the header and a line break.
    pub fn header_line() -> (r: String)
        ensures
            r@ == csv_header_text().push('\n'),
    {
        let mut r = to_owned_string(SessionRecord::csv_header());
        push_char(&mut r, '\n');
        r
    }

    /// What logging `record` appends to the file: its row and a line break.
    pub fn record_line(record: &SessionRecord) -> (r: String)
        ensures
            r@ == csv_row_of(record@).push('\n'),
    {
        let mut r = record.to_csv_row();
        push_char(&mut r, '\n');
        r
    }

    /// The number of sessions this log holds, given the content of its file
    /// (`None` when the file could not be read).
    pub fn get_session_count(&self, content: Option<&str>) -> (r: u64)
        ensures
            r as nat == records_in(
                match content {
                    Some(c) => Some(c@),
                    None => None,
                },
            ),
    {
        match content {
            Some(c) => {
                let chars = chars_of(c);
                let ls = lines_of(&chars);
                assert(ls@.len() == lines(c@).len());
                let n = ls.len();
                if n > 0 {
                    (n - 1) as u64
                } else {
                    0
                }
            },
            None => 0,
        }
    }

    /// The kind of this log.
    pub fn logger_type(&self) -> (r: &'static str)
        ensures
            r@ == "csv"@,
    {
        "csv"
    }
}

/// A session log kept in an SQLite database, which records nothing yet.
pub struct SqliteLogger {
    pub db_path: String,
}

impl SqliteLogger {
    /// The log kept in the database at `db_path`.
    pub fn new(db_path: &str) -> (r: SqliteLogger)
        ensures
            r.db_path@ == db_path@,
    {
        SqliteLogger { db_path: to_owned_string(db_path) }
    }

    /// The number of sessions it reports: none, as it records nothing.
    pub fn get_session_count(&self) -> (r: u64)
        ensures
            r == 0,
    {
        0
    }

    /// The kind of this log.
    pub fn logger_type(&self) -> (r: &'static str)
        ensures
            r@ == "sqlite"@,
    {
        "sqlite"
    }
}

} // verus!
