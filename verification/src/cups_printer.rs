//! The printers driven through the CUPS library: which one a configuration
//! selects, which CUPS printer stands for the Brother printer, the options a
//! print job is sent with, and what the printers report.
use crate::clock::{formatted_instant, Timestamp};
use crate::text::{
    chars_equal, chars_of, contains, decimal, decimal_string, seq_contains, str_equal, texts,
    to_owned_string,
};
use vstd::prelude::*;
use vstd::string::*;

verus! {

/// The failures of a printer.
pub enum PrinterError {
    NotFound(String),
    NotReady(String),
    PrintFailed(String),
    IoError(String),
}

impl PrinterError {
    /// The text that the error displays.
    pub open spec fn message_text(&self) -> Seq<char> {
        match self {
            PrinterError::NotFound(m) => "Printer not found: "@ + m@,
            PrinterError::NotReady(m) => "Printer not ready: "@ + m@,
            PrinterError::PrintFailed(m) => "Print failed: "@ + m@,
            PrinterError::IoError(m) => "IO error: "@ + m@,
        }
    }

    /// The text that the error displays.
    pub fn message(&self) -> (r: String)
        ensures
            r@ == self.message_text(),
    {
        let (prefix, detail) = match self {
            PrinterError::NotFound(m) => ("Printer not found: ", m),
            PrinterError::NotReady(m) => ("Printer not ready: ", m),
            PrinterError::PrintFailed(m) => ("Print failed: ", m),
            PrinterError::IoError(m) => ("IO error: ", m),
        };
        let mut r = to_owned_string(prefix);
        r.append(detail.as_str());
        r
    }
}

/// Paper sizes.
#[derive(Clone, Copy, Debug, PartialEq, Eq, Structural)]
pub enum PaperSize {
    Letter,
    A4,
    Photo4x6,
    Photo5x7,
}

/// Print qualities.
#[derive(Clone, Copy, Debug, PartialEq, Eq, Structural)]
pub enum PrintQuality {
    Draft,
    Normal,
    High,
}

/// A request to print a file.
pub struct PrintJob {
    pub file_path: String,
    pub copies: u32,
    pub paper_size: PaperSize,
    pub quality: PrintQuality,
}

/// What a printer reports of itself.
pub struct PrinterStatus {
    pub is_online: bool,
    pub paper_level: Option<u32>,
    pub toner_level: Option<u32>,
    pub error_message: Option<String>,
}

/// What `str::to_lowercase` gives for the text.
pub uninterp spec fn lowercase_text(s: Seq<char>) -> Seq<char>;

/// `str::to_lowercase`: the text with every character mapped to its Unicode
/// lowercase form. Only the name of the result is stated.
#[verifier::external_body]
fn to_lowercase(s: &str) -> (r: String)
    ensures
        r@ == lowercase_text(s@),
{
    s.to_lowercase()
}

/// Printer `i` bears the wanted name, compared without regard to case.
pub open spec fn names_alike(names: Seq<Seq<char>>, wanted: Seq<char>, i: int) -> bool {
    lowercase_text(names[i]) == lowercase_text(wanted)
}

/// Printer `i` has `brother` in its lowercased name.
pub open spec fn brother_named(names: Seq<Seq<char>>, i: int) -> bool {
    contains(lowercase_text(names[i]), "brother"@)
}

/// Printer `i` is the first that bears the wanted name.
pub open spec fn first_alike(names: Seq<Seq<char>>, wanted: Seq<char>, i: int) -> bool {
    &&& 0 <= i < names.len()
    &&& names_alike(names, wanted, i)
    &&& forall|j: int| 0 <= j < i ==> !#[trigger] names_alike(names, wanted, j)
}

/// Printer `i` is the first with `brother` in its name.
pub open spec fn first_brother(names: Seq<Seq<char>>, i: int) -> bool {
    &&& 0 <= i < names.len()
    &&& brother_named(names, i)
    &&& forall|j: int| 0 <= j < i ==> !#[trigger] brother_named(names, j)
}

/// The printer that stands for `wanted` among the printers CUPS lists: the
/// first whose name matches it without regard to case, else the first with
/// `brother` in its name, else none.
pub open spec fn chosen_printer(names: Seq<Seq<char>>, wanted: Seq<char>) -> Option<int> {
    if exists|i: int| first_alike(names, wanted, i) {
        Some(choose|i: int| first_alike(names, wanted, i))
    } else if exists|i: int| first_brother(names, i) {
        Some(choose|i: int| first_brother(names, i))
    } else {
        None
    }
}

/// The position of the printer that stands for `wanted` among the printers
/// named `names`.
pub fn choose_printer(names: &Vec<String>, wanted: &str) -> (r: Option<usize>)
    ensures
        match r {
            Some(i) => chosen_printer(texts(names@), wanted@) == Some(i as int),
            None => chosen_printer(texts(names@), wanted@) is None,
        },
{
    let ghost nv = texts(names@);
    let want = to_lowercase(wanted);
    let want_chars = chars_of(want.as_str());
    let mut lowered: Vec<Vec<char>> = Vec::new();
    let mut i: usize = 0;
    while i < names.len()
        invariant
            i <= names.len(),
            nv == texts(names@),
            want_chars@ == lowercase_text(wanted@),
            lowered@.len() == i,
            forall|k: int| 0 <= k < i ==> #[trigger] lowered@[k]@ == lowercase_text(nv[k]),
            forall|k: int| 0 <= k < i ==> !#[trigger] names_alike(nv, wanted@, k),
        decreases names.len() - i,
    {
        let low = to_lowercase(names[i].as_str());
        let low_chars = chars_of(low.as_str());
        assert(names@[i as int]@ == nv[i as int]);
        if chars_equal(&low_chars, &want_chars) {
            assert(first_alike(nv, wanted@, i as int));
            proof {
                let k = choose|k: int| first_alike(nv, wanted@, k);
                if k < i {
                    assert(!names_alike(nv, wanted@, k));
                } else if k > i {
                    assert(!names_alike(nv, wanted@, i as int));
                }
            }
            return Some(i);
        }
        lowered.push(low_chars);
        i = i + 1;
    }
    assert(!exists|k: int| first_alike(nv, wanted@, k));
    let brother = chars_of("brother");
    let mut j: usize = 0;
    while j < lowered.len()
        invariant
            j <= lowered.len(),
            lowered@.len() == nv.len(),
            nv == texts(names@),
            brother@ == "brother"@,
            !exists|k: int| first_alike(nv, wanted@, k),
            forall|k: int| 0 <= k < nv.len() ==> #[trigger] lowered@[k]@ == lowercase_text(nv[k]),
            forall|k: int| 0 <= k < j ==> !#[trigger] brother_named(nv, k),
        decreases lowered.len() - j,
    {
        assert(lowered@[j as int]@ == lowercase_text(nv[j as int]));
        if seq_contains(&lowered[j], &brother) {
            assert(first_brother(nv, j as int));
            proof {
                let k = choose|k: int| first_brother(nv, k);
                if k < j {
                    assert(!brother_named(nv, k));
                } else if k > j {
                    assert(!brother_named(nv, j as int));
                }
            }
            return Some(j);
        }
        j = j + 1;
    }
    assert(!exists|k: int| first_brother(nv, k));
    None
}

/// The error when no CUPS printer stands for `printer_name`.
pub fn printer_not_found(printer_name: &str) -> (r: PrinterError)
    ensures
        r matches PrinterError::NotFound(m) && m@ == "Printer '"@ + printer_name@
            + "' not found in CUPS"@,
{
    let mut m = to_owned_string("Printer '");
    m.append(printer_name);
    m.append("' not found in CUPS");
    PrinterError::NotFound(m)
}

/// The CUPS value of a paper size.
pub open spec fn media_value(p: PaperSize) -> Seq<char> {
    match p {
        PaperSize::Letter => "Letter"@,
        PaperSize::A4 => "A4"@,
        PaperSize::Photo4x6 => "4x6"@,
        PaperSize::Photo5x7 => "5x7"@,
    }
}

/// The CUPS value of a print quality.
pub open spec fn quality_value(q: PrintQuality) -> Seq<char> {
    match q {
        PrintQuality::Draft => "draft"@,
        PrintQuality::Normal => "normal"@,
        PrintQuality::High => "high"@,
    }
}

/// The name and value texts of a list of job options.
pub open spec fn option_texts(v: Seq<(String, String)>) -> Seq<(Seq<char>, Seq<char>)> {
    v.map_values(|p: (String, String)| (p.0@, p.1@))
}

/// The CUPS options a photo is printed with: the copies, the paper, the
/// quality, photo media and colour.
pub fn job_options(job: &PrintJob) -> (r: Vec<(String, String)>)
    ensures
        option_texts(r@) == seq![
            ("copies"@, decimal(job.copies as nat)),
            ("media"@, media_value(job.paper_size)),
            ("print-quality"@, quality_value(job.quality)),
            ("media-type"@, "photo"@),
            ("print-color-mode"@, "color"@),
        ],
{
    let mut r: Vec<(String, String)> = Vec::new();
    r.push((to_owned_string("copies"), decimal_string(job.copies as u64)));
    let media = match job.paper_size {
        PaperSize::Letter => "Letter",
        PaperSize::A4 => "A4",
        PaperSize::Photo4x6 => "4x6",
        PaperSize::Photo5x7 => "5x7",
    };
    r.push((to_owned_string("media"), to_owned_string(media)));
    let quality = match job.quality {
        PrintQuality::Draft => "draft",
        PrintQuality::Normal => "normal",
        PrintQuality::High => "high",
    };
    r.push((to_owned_string("print-quality"), to_owned_string(quality)));
    r.push((to_owned_string("media-type"), to_owned_string("photo")));
    r.push((to_owned_string("print-color-mode"), to_owned_string("color")));
    assert(option_texts(r@) =~= seq![
        ("copies"@, decimal(job.copies as nat)),
        ("media"@, media_value(job.paper_size)),
        ("print-quality"@, quality_value(job.quality)),
        ("media-type"@, "photo"@),
        ("print-color-mode"@, "color"@),
    ]);
    r
}

/// The title of a print job sent at `now`: `PhotoBooth-YYYYMMDD-HHMMSS`.
pub fn job_title(now: &Timestamp) -> (r: String)
    ensures
        r@ == "PhotoBooth-"@ + formatted_instant(now@.0, now@.1, "%Y%m%d-%H%M%S"@),
{
    let stamp = now.format("%Y%m%d-%H%M%S");
    let mut r = to_owned_string("PhotoBooth-");
    r.append(stamp.as_str());
    r
}

/// The outcome of handing a file to CUPS: the job number as text, or a
/// failed print that quotes the CUPS error.
pub fn print_outcome(submitted: Result<u64, String>) -> (r: Result<String, PrinterError>)
    ensures
        submitted matches Ok(id) ==> (r matches Ok(t) && t@ == decimal(id as nat)),
        submitted matches Err(e) ==> (r matches Err(PrinterError::PrintFailed(m)) && m@
            == "CUPS error: "@ + e@),
{
    match submitted {
        Ok(id) => Ok(decimal_string(id)),
        Err(e) => {
            let mut m = to_owned_string("CUPS error: ");
            m.append(e.as_str());
            Err(PrinterError::PrintFailed(m))
        },
    }
}

/// The error when the photo to print is missing.
pub fn missing_file(file_path: &str) -> (r: PrinterError)
    ensures
        r matches PrinterError::IoError(m) && m@ == "File not found: "@ + file_path@,
{
    let mut m = to_owned_string("File not found: ");
    m.append(file_path);
    PrinterError::IoError(m)
}

/// The error when no CUPS printer was found at start.
pub fn not_initialized() -> (r: PrinterError)
    ensures
        r matches PrinterError::NotReady(m) && m@ == "Printer not initialized"@,
{
    PrinterError::NotReady(to_owned_string("Printer not initialized"))
}

/// The status of a CUPS printer: online exactly when CUPS listed it; no
/// paper or toner level, no error.
pub fn cups_status(has_printer: bool) -> (r: PrinterStatus)
    ensures
        r.is_online == has_printer,
        r.paper_level is None,
        r.toner_level is None,
        r.error_message is None,
{
    PrinterStatus { is_online: has_printer, paper_level: None, toner_level: None, error_message: None }
}

/// The name of the CUPS-driven Brother printer.
pub fn brother_kind_name() -> (r: &'static str)
    ensures
        r@ == "Brother CUPS Printer"@,
{
    "Brother CUPS Printer"
}

/// A lowercase hexadecimal digit.
pub open spec fn is_lower_hex(c: char) -> bool {
    ('0' <= c && c <= '9') || ('a' <= c && c <= 'f')
}

/// `Uuid::new_v4().as_simple().to_string()`: a random UUID written as 32
/// lowercase hexadecimal digits, as the crate documents its simple form.
#[verifier::external_body]
fn random_uuid_simple() -> (r: String)
    ensures
        r@.len() == 32,
        forall|i: int| 0 <= i < 32 ==> is_lower_hex(#[trigger] r@[i]),
{
    uuid::Uuid::new_v4().as_simple().to_string()
}

/// The simulated printer.
pub struct MockPrinter;

impl MockPrinter {
    /// The job identifier of a simulated print: `mock-job-` and a UUID.
    pub fn job_id_with(uuid_simple: &str) -> (r: String)
        ensures
            r@ == "mock-job-"@ + uuid_simple@,
    {
        let mut r = to_owned_string("mock-job-");
        r.append(uuid_simple);
        r
    }

    /// A fresh job identifier: `mock-job-` and a random UUID in its simple form.
    pub fn new_job_id() -> (r: String)
        ensures
            exists|u: Seq<char>| #![trigger u.len()] r@ == "mock-job-"@ + u && u.len() == 32 && forall|i: int|
                0 <= i < 32 ==> is_lower_hex(#[trigger] u[i]),
    {
        let u = random_uuid_simple();
        let r = Self::job_id_with(u.as_str());
        assert(u@.len() == 32);
        r
    }

    /// Always ready.
    pub fn is_ready(&self) -> (r: bool)
        ensures
            r,
    {
        true
    }

    /// Online, paper at 85, toner at 60, no error.
    pub fn get_status(&self) -> (r: PrinterStatus)
        ensures
            r.is_online,
            r.paper_level == Some(85u32),
            r.toner_level == Some(60u32),
            r.error_message is None,
    {
        PrinterStatus {
            is_online: true,
            paper_level: Some(85),
            toner_level: Some(60),
            error_message: None,
        }
    }

    /// The printer's name.
    pub fn kind_name(&self) -> (r: &'static str)
        ensures
            r@ == "Mock Printer"@,
    {
        "Mock Printer"
    }
}

/// The printers a configuration can select.
pub enum CupsPrinterKind {
    /// The Brother printer, looked for in CUPS under each of these names in turn.
    Brother(Vec<String>),
    Mock,
}

/// The printer that a configuration name selects: `"brother-hl-l2405w"` the
/// Brother printer, tried under the names `brother`, `Brother`,
/// `HL-L2405W` and `Brother_HL-L2405W`; `"mock"` the simulated one; any
/// other name is not found.
pub fn new_printer(printer_type: &str) -> (r: Result<CupsPrinterKind, PrinterError>)
    ensures
        printer_type@ == "brother-hl-l2405w"@ ==> (r matches Ok(CupsPrinterKind::Brother(names))
            && texts(names@) == seq!["brother"@, "Brother"@, "HL-L2405W"@, "Brother_HL-L2405W"@]),
        printer_type@ == "mock"@ ==> r matches Ok(CupsPrinterKind::Mock),
        printer_type@ != "brother-hl-l2405w"@ && printer_type@ != "mock"@ ==> (r matches Err(
            PrinterError::NotFound(m),
        ) && m@ == "Unknown printer type: "@ + printer_type@),
{
    proof {
        reveal_strlit("brother-hl-l2405w");
        reveal_strlit("mock");
        assert("brother-hl-l2405w"@.len() != "mock"@.len());
    }
    if str_equal(printer_type, "brother-hl-l2405w") {
        let mut names: Vec<String> = Vec::new();
        names.push(to_owned_string("brother"));
        names.push(to_owned_string("Brother"));
        names.push(to_owned_string("HL-L2405W"));
        names.push(to_owned_string("Brother_HL-L2405W"));
        assert(texts(names@) =~= seq!["brother"@, "Brother"@, "HL-L2405W"@, "Brother_HL-L2405W"@]);
        Ok(CupsPrinterKind::Brother(names))
    } else if str_equal(printer_type, "mock") {
        Ok(CupsPrinterKind::Mock)
    } else {
        let mut m = to_owned_string("Unknown printer type: ");
        m.append(printer_type);
        Err(PrinterError::NotFound(m))
    }
}

/// What to do next while looking for the Brother printer under its names.
#[derive(Clone, Copy, Debug, PartialEq, Eq, Structural)]
pub enum BrotherSearch {
    /// Try the name at this position.
    Try(usize),
    /// The name at this position found the printer: use it.
    Found(usize),
    /// No name found it: the Brother printer is not found.
    NotFound,
}

/// The step after trying the name at position `tried` out of `count`: use
/// it when it found the printer, otherwise try the next name, or give up
/// after the last.
pub open spec fn search_step(count: int, tried: int, succeeded: bool) -> BrotherSearch {
    if succeeded {
        BrotherSearch::Found(tried as usize)
    } else if tried + 1 < count {
        BrotherSearch::Try((tried + 1) as usize)
    } else {
        BrotherSearch::NotFound
    }
}

/// Where a search that tries the names from position `i` on ends, when
/// trying name `k` succeeds exactly when `outcomes[k]` holds.
pub open spec fn search_from(outcomes: Seq<bool>, i: int) -> BrotherSearch
    decreases outcomes.len() - i,
{
    if i < 0 || i >= outcomes.len() {
        BrotherSearch::NotFound
    } else if outcomes[i] {
        BrotherSearch::Found(i as usize)
    } else {
        search_from(outcomes, i + 1)
    }
}

/// The first step of the search for the Brother printer under `names`.
pub fn brother_search_start(names: &Vec<String>) -> (r: BrotherSearch)
    ensures
        names@.len() > 0 ==> r == BrotherSearch::Try(0),
        names@.len() == 0 ==> r == BrotherSearch::NotFound,
{
    if names.len() > 0 {
        BrotherSearch::Try(0)
    } else {
        BrotherSearch::NotFound
    }
}

/// The step after trying the name at position `tried` with the given
/// outcome.
pub fn brother_search_next(names: &Vec<String>, tried: usize, succeeded: bool) -> (r: BrotherSearch)
    requires
        tried < names@.len(),
    ensures
        r == search_step(names@.len() as int, tried as int, succeeded),
{
    if succeeded {
        BrotherSearch::Found(tried)
    } else if tried < names.len() - 1 {
        BrotherSearch::Try(tried + 1)
    } else {
        BrotherSearch::NotFound
    }
}

/// Law: each step of the search moves on to the next name or ends where
/// the search from that name ends.
pub proof fn law_brother_search_steps(outcomes: Seq<bool>, i: int)
    requires
        0 <= i < outcomes.len() <= usize::MAX,
    ensures
        search_step(outcomes.len() as int, i, outcomes[i]) matches BrotherSearch::Try(j) ==> j
            == i + 1 && search_from(outcomes, j as int) == search_from(outcomes, i),
        !(search_step(outcomes.len() as int, i, outcomes[i]) is Try) ==> search_step(
            outcomes.len() as int,
            i,
            outcomes[i],
        ) == search_from(outcomes, i),
{
    if !outcomes[i] && i + 1 >= outcomes.len() {
        assert(search_from(outcomes, i + 1) == BrotherSearch::NotFound);
    }
}

/// Where the search from position `i` ends: at the first name from `i` on
/// that finds the printer, or nowhere when none does.
proof fn lemma_search_from(outcomes: Seq<bool>, i: int)
    requires
        0 <= i <= outcomes.len() <= usize::MAX,
    ensures
        search_from(outcomes, i) matches BrotherSearch::Found(k) ==> i <= k < outcomes.len()
            && outcomes[k as int] && forall|j: int| i <= j < k ==> !outcomes[j],
        search_from(outcomes, i) is NotFound ==> forall|j: int|
            i <= j < outcomes.len() ==> !outcomes[j],
        !(search_from(outcomes, i) is Try),
    decreases outcomes.len() - i,
{
    if i < outcomes.len() && !outcomes[i] {
        lemma_search_from(outcomes, i + 1);
    }
}

/// Law: the search for the Brother printer uses the first name under which
/// it is found, and reports it not found only when no name finds it.
pub proof fn law_brother_search_finds_first(outcomes: Seq<bool>)
    requires
        outcomes.len() <= usize::MAX,
    ensures
        search_from(outcomes, 0) matches BrotherSearch::Found(k) ==> k < outcomes.len()
            && outcomes[k as int] && forall|j: int| 0 <= j < k ==> !outcomes[j],
        search_from(outcomes, 0) is NotFound <==> forall|j: int|
            0 <= j < outcomes.len() ==> !outcomes[j],
        !(search_from(outcomes, 0) is Try),
{
    lemma_search_from(outcomes, 0);
    if forall|j: int| 0 <= j < outcomes.len() ==> !outcomes[j] {
        match search_from(outcomes, 0) {
            BrotherSearch::Found(k) => {
                assert(outcomes[k as int]);
            },
            _ => {},
        }
    }
}

/// The error when the Brother printer was found under none of its names.
pub fn brother_not_found() -> (r: PrinterError)
    ensures
        r matches PrinterError::NotFound(m) && m@
            == "Brother printer not found with any expected name"@,
{
    PrinterError::NotFound(to_owned_string("Brother printer not found with any expected name"))
}

} // verus!
