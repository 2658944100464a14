//! The printers driven through the CUPS command-line tools (`lpstat`, `lp`):
//! which one a configuration selects, how the Brother HL-L2405W is found in
//! the `lpstat` listing, how a print job becomes an `lp` command, and how
//! the tools' answers are read.
use crate::text::{
    char_seqs, chars_of, contains, decimal, decimal_string, lines, lines_of, seq_contains,
    str_contains, str_equal, string_from_chars, texts, to_owned_string, trim, trim_chars,
    utf8_lossy, utf8_lossy_text, words, words_of,
};
use crate::picture::{gray_decoding, gray_encoding, GrayImage};
use vstd::prelude::*;
use vstd::string::*;

verus! {

/// The failures of a printer.
pub enum PrinterError {
    UnknownType(String),
    NotFound,
    PrintFailed(String),
    FileNotFound(String),
    Io(String),
    ImageError(String),
}

impl PrinterError {
    /// The text that the error displays.
    pub open spec fn message_text(&self) -> Seq<char> {
        match self {
            PrinterError::UnknownType(t) => "Unknown printer type requested: "@ + t@,
            PrinterError::NotFound => "Printer not found or not connected"@,
            PrinterError::PrintFailed(m) => "Print job failed: "@ + m@,
            PrinterError::FileNotFound(p) => "File not found: "@ + p@,
            PrinterError::Io(e) => "IO Error: "@ + e@,
            PrinterError::ImageError(e) => "Image processing error: "@ + e@,
        }
    }

    /// The text that the error displays.
    pub fn message(&self) -> (r: String)
        ensures
            r@ == self.message_text(),
    {
        let (prefix, detail): (&str, Option<&String>) = match self {
            PrinterError::UnknownType(t) => ("Unknown printer type requested: ", Some(t)),
            PrinterError::NotFound => ("Printer not found or not connected", None),
            PrinterError::PrintFailed(m) => ("Print job failed: ", Some(m)),
            PrinterError::FileNotFound(p) => ("File not found: ", Some(p)),
            PrinterError::Io(e) => ("IO Error: ", Some(e)),
            PrinterError::ImageError(e) => ("Image processing error: ", Some(e)),
        };
        let mut r = to_owned_string(prefix);
        match detail {
            Some(d) => {
                r.append(d.as_str());
            },
            None => {},
        }
        r
    }
}

/// Paper sizes.
#[derive(Clone, Copy, Debug, PartialEq, Eq, Structural)]
pub enum PaperSize {
    Letter,
    A4,
    Photo4x6,
}

/// Print qualities.
#[derive(Clone, Copy, Debug, PartialEq, Eq, Structural)]
pub enum PrintQuality {
    Draft,
    Normal,
    High,
}

/// A request to print a file.
pub struct PrintJob {
    pub file_path: String,
    pub copies: u32,
    pub paper_size: PaperSize,
    pub quality: PrintQuality,
}

impl Default for PrintJob {
    /// One copy of no file, on letter paper at normal quality.
    fn default() -> (r: PrintJob)
        ensures
            r.file_path@ == Seq::<char>::empty(),
            r.copies == 1,
            r.paper_size == PaperSize::Letter,
            r.quality == PrintQuality::Normal,
    {
        PrintJob {
            file_path: String::new(),
            copies: 1,
            paper_size: PaperSize::Letter,
            quality: PrintQuality::Normal,
        }
    }
}

/// What a printer reports of itself.
pub struct PrinterStatus {
    pub is_online: bool,
    pub paper_level: Option<String>,
    pub toner_level: Option<String>,
    pub error_message: Option<String>,
}

/// The printers a configuration can select.
#[derive(Clone, Copy, Debug, PartialEq, Eq, Structural)]
pub enum PrinterKind {
    BrotherHLL2405W,
    Mock,
}

/// The printer that a configuration name selects: `"brother-hl-l2405w"` the
/// Brother laser printer, `"mock"` the simulated one; any other name is
/// refused.
pub fn new_printer(printer_type: &str) -> (r: Result<PrinterKind, PrinterError>)
    ensures
        printer_type@ == "brother-hl-l2405w"@ ==> r == Ok::<PrinterKind, PrinterError>(
            PrinterKind::BrotherHLL2405W,
        ),
        printer_type@ == "mock"@ ==> r == Ok::<PrinterKind, PrinterError>(PrinterKind::Mock),
        printer_type@ != "brother-hl-l2405w"@ && printer_type@ != "mock"@ ==> (r matches Err(
            PrinterError::UnknownType(t),
        ) && t@ == printer_type@),
{
    proof {
        reveal_strlit("brother-hl-l2405w");
        reveal_strlit("mock");
        assert("brother-hl-l2405w"@.len() != "mock"@.len());
    }
    if str_equal(printer_type, "brother-hl-l2405w") {
        Ok(PrinterKind::BrotherHLL2405W)
    } else if str_equal(printer_type, "mock") {
        Ok(PrinterKind::Mock)
    } else {
        Err(PrinterError::UnknownType(to_owned_string(printer_type)))
    }
}

/// The name the Brother printer is given when `lpstat` does not list it.
pub open spec fn default_brother_name() -> Seq<char> {
    "Brother_HL-L2405W"@
}

/// A line of the `lpstat` listing that speaks of the Brother printer.
pub open spec fn mentions_brother(line: Seq<char>) -> bool {
    contains(line, "Brother"@) || contains(line, "HL-L2405W"@)
}

/// Line `i` is the first line that speaks of the Brother printer.
pub open spec fn first_brother_line(ls: Seq<Seq<char>>, i: int) -> bool {
    &&& 0 <= i < ls.len()
    &&& mentions_brother(ls[i])
    &&& forall|j: int| 0 <= j < i ==> !mentions_brother(#[trigger] ls[j])
}

/// The printer name read from an `lpstat -p` listing: the second word of
/// the first line that speaks of the Brother printer, or the default name
/// when no line does or that line has a single word.
pub open spec fn lpstat_printer_name(listing: Seq<char>) -> Seq<char> {
    let ls = lines(listing);
    if exists|i: int| first_brother_line(ls, i) {
        let i = choose|i: int| first_brother_line(ls, i);
        let w = words(ls[i]);
        if w.len() >= 2 {
            w[1]
        } else {
            default_brother_name()
        }
    } else {
        default_brother_name()
    }
}

/// What `Path::parent` gives for the path.
pub uninterp spec fn path_parent_text(path: Seq<char>) -> Option<Seq<char>>;

/// What `Path::file_name` gives for the path.
pub uninterp spec fn path_file_name_text(path: Seq<char>) -> Option<Seq<char>>;

/// What `Path::join` gives for the two paths.
pub uninterp spec fn path_join_text(base: Seq<char>, name: Seq<char>) -> Seq<char>;

/// `Path::parent`: the path without its final component, if it has one.
#[verifier::external_body]
fn path_parent(path: &str) -> (r: Option<String>)
    ensures
        match r {
            Some(p) => path_parent_text(path@) == Some(p@),
            None => path_parent_text(path@) is None,
        },
{
    std::path::Path::new(path).parent().map(|p| p.to_string_lossy().into_owned())
}

/// `Path::file_name`: the final component of the path, if it is a file name.
#[verifier::external_body]
fn path_file_name(path: &str) -> (r: Option<String>)
    ensures
        match r {
            Some(p) => path_file_name_text(path@) == Some(p@),
            None => path_file_name_text(path@) is None,
        },
{
    std::path::Path::new(path).file_name().map(|p| p.to_string_lossy().into_owned())
}

/// `Path::join`: `name` appended to `base` as a further component.
#[verifier::external_body]
fn path_join(base: &str, name: &str) -> (r: String)
    ensures
        r@ == path_join_text(base@, name@),
{
    std::path::Path::new(base).join(name).to_string_lossy().into_owned()
}

/// The path of the black-and-white copy printed in place of the photo at
/// `input`: `print_<file name>` beside it (in `./` when it has no parent).
pub open spec fn print_copy_path_text(input: Seq<char>, file_name: Seq<char>) -> Seq<char> {
    let dir = match path_parent_text(input) {
        Some(p) => p,
        None => "./"@,
    };
    path_join_text(dir, "print_"@ + file_name)
}

/// The Brother HL-L2405W laser printer, known to CUPS under `printer_name`.
pub struct BrotherHLL2405W {
    pub printer_name: String,
}

impl BrotherHLL2405W {
    /// The printer once `lpstat -p` has run: not found when the command
    /// failed, otherwise named as its listing says.
    pub fn new(lpstat_succeeded: bool, lpstat_stdout: &[u8]) -> (r: Result<
        BrotherHLL2405W,
        PrinterError,
    >)
        ensures
            !lpstat_succeeded ==> r matches Err(PrinterError::NotFound),
            lpstat_succeeded ==> (r matches Ok(p) && p.printer_name@ == lpstat_printer_name(
                utf8_lossy_text(lpstat_stdout@),
            )),
    {
        if !lpstat_succeeded {
            return Err(PrinterError::NotFound);
        }
        let listing = utf8_lossy(lpstat_stdout);
        let name = Self::name_from_listing(listing.as_str());
        Ok(BrotherHLL2405W { printer_name: name })
    }

    /// The printer name read from an `lpstat -p` listing.
    pub fn name_from_listing(listing: &str) -> (r: String)
        ensures
            r@ == lpstat_printer_name(listing@),
    {
        let chars = chars_of(listing);
        let ls = lines_of(&chars);
        let ghost lv = lines(listing@);
        assert(char_seqs(ls@) == lv);
        let brother = chars_of("Brother");
        let model = chars_of("HL-L2405W");
        let mut i: usize = 0;
        while i < ls.len()
            invariant
                i <= ls.len(),
                char_seqs(ls@) == lv,
                lv == lines(listing@),
                brother@ == "Brother"@,
                model@ == "HL-L2405W"@,
                forall|j: int| 0 <= j < i ==> !mentions_brother(#[trigger] lv[j]),
            decreases ls.len() - i,
        {
            assert(ls@[i as int]@ == lv[i as int]);
            if seq_contains(&ls[i], &brother) || seq_contains(&ls[i], &model) {
                assert(first_brother_line(lv, i as int));
                proof {
                    let k = choose|k: int| first_brother_line(lv, k);
                    if k < i {
                        assert(!mentions_brother(lv[k]));
                    } else if k > i {
                        assert(!mentions_brother(lv[i as int]));
                    }
                    assert(k == i);
                }
                let w = words_of(&ls[i]);
                assert(char_seqs(w@) == words(lv[i as int]));
                if w.len() >= 2 {
                    assert(w@[1]@ == words(lv[i as int])[1]);
                    return string_from_chars(&w[1]);
                } else {
                    return to_owned_string("Brother_HL-L2405W");
                }
            }
            i = i + 1;
        }
        assert(!exists|k: int| first_brother_line(lv, k));
        to_owned_string("Brother_HL-L2405W")
    }

    /// The path of the black-and-white copy printed in place of the photo at
    /// `input_path`, which must name a file.
    pub fn print_copy_path(input_path: &str) -> (r: String)
        requires
            path_file_name_text(input_path@) is Some,
        ensures
            r@ == print_copy_path_text(input_path@, path_file_name_text(input_path@)->0),
    {
        let dir = match path_parent(input_path) {
            Some(p) => p,
            None => to_owned_string("./"),
        };
        let file_name = match path_file_name(input_path) {
            Some(f) => f,
            None => String::new(),
        };
        let mut name = to_owned_string("print_");
        name.append(file_name.as_str());
        path_join(dir.as_str(), name.as_str())
    }

    /// The path of the black-and-white copy, or `None` when `input_path`
    /// does not name a file.
    pub fn try_print_copy_path(input_path: &str) -> (r: Option<String>)
        ensures
            path_file_name_text(input_path@) is None ==> r is None,
            path_file_name_text(input_path@) matches Some(f) ==> (r matches Some(p) && p@
                == print_copy_path_text(input_path@, f)),
    {
        match path_file_name(input_path) {
            Some(_) => Some(Self::print_copy_path(input_path)),
            None => None,
        }
    }

    /// The black-and-white copy printed in place of the photo at
    /// `input_path`, whose file holds `image_bytes`: its path and the bytes
    /// to write there. A failure to decode the photo or to encode the copy is
    /// an image error that quotes the image library.
    pub fn prepare_print_copy(input_path: &str, image_bytes: &[u8]) -> (r: Result<
        (String, Vec<u8>),
        PrinterError,
    >)
        ensures
            match gray_decoding(image_bytes@, input_path@) {
                Err(e) => r matches Err(PrinterError::ImageError(m)) && m@ == e,
                Ok((w, h, p)) => path_file_name_text(input_path@) is Some && ({
                    let out = print_copy_path_text(
                        input_path@,
                        path_file_name_text(input_path@)->0,
                    );
                    match gray_encoding(w, h, p, out) {
                        Ok(b) => r matches Ok((path, bytes)) && path@ == out && bytes@ == b,
                        Err(e) => r matches Err(PrinterError::ImageError(m)) && m@ == e,
                    }
                }),
            },
    {
        let gray = match GrayImage::decode(image_bytes, input_path) {
            Ok(g) => g,
            Err(e) => return Err(PrinterError::ImageError(e)),
        };
        let out = Self::print_copy_path(input_path);
        match gray.encode(out.as_str()) {
            Ok(bytes) => Ok((out, bytes)),
            Err(e) => Err(PrinterError::ImageError(e)),
        }
    }

    /// The arguments of the `lp` command that prints `file` for `job` on
    /// this printer.
    pub fn lp_args(&self, job: &PrintJob, file: &str) -> (r: Vec<String>)
        ensures
            texts(r@) == seq![
                "-d"@,
                self.printer_name@,
                "-n"@,
                decimal(job.copies as nat),
                "-o"@,
                media_option(job.paper_size),
                "-o"@,
                quality_option(job.quality),
                file@,
            ],
    {
        let mut r: Vec<String> = Vec::new();
        r.push(to_owned_string("-d"));
        r.push(self.printer_name.clone());
        r.push(to_owned_string("-n"));
        r.push(decimal_string(job.copies as u64));
        r.push(to_owned_string("-o"));
        r.push(
            to_owned_string(
                match job.paper_size {
                    PaperSize::Letter => "media=Letter",
                    PaperSize::A4 => "media=A4",
                    PaperSize::Photo4x6 => "media=4x6",
                },
            ),
        );
        r.push(to_owned_string("-o"));
        r.push(
            to_owned_string(
                match job.quality {
                    PrintQuality::Draft => "print-quality=3",
                    PrintQuality::Normal => "print-quality=4",
                    PrintQuality::High => "print-quality=5",
                },
            ),
        );
        r.push(to_owned_string(file));
        assert(texts(r@) =~= seq![
            "-d"@,
            self.printer_name@,
            "-n"@,
            decimal(job.copies as nat),
            "-o"@,
            media_option(job.paper_size),
            "-o"@,
            quality_option(job.quality),
            file@,
        ]);
        r
    }

    /// The outcome of an `lp` run: on success the job identifier it printed
    /// (without surrounding white space), otherwise a failed print that
    /// quotes its standard error.
    pub fn lp_outcome(succeeded: bool, stdout: &[u8], stderr: &[u8]) -> (r: Result<
        String,
        PrinterError,
    >)
        ensures
            succeeded ==> (r matches Ok(id) && id@ == trim(utf8_lossy_text(stdout@))),
            !succeeded ==> (r matches Err(PrinterError::PrintFailed(m)) && m@ == utf8_lossy_text(
                stderr@,
            )),
    {
        if succeeded {
            let out = utf8_lossy(stdout);
            let chars = chars_of(out.as_str());
            let trimmed = trim_chars(&chars);
            Ok(string_from_chars(&trimmed))
        } else {
            Err(PrinterError::PrintFailed(utf8_lossy(stderr)))
        }
    }

    /// Whether the black-and-white copy differs from the photo and is to be
    /// removed once printed.
    pub fn copy_to_remove(print_path: &str, photo_path: &str) -> (r: bool)
        ensures
            r == (print_path@ != photo_path@),
    {
        !str_equal(print_path, photo_path)
    }

    /// Whether `lpstat -p` reports the printer ready: the command ran and
    /// its listing says `enabled` and never `disabled`.
    pub fn ready_from_listing(listing: Option<&[u8]>) -> (r: bool)
        ensures
            match listing {
                Some(b) => r == (contains(utf8_lossy_text(b@), "enabled"@) && !contains(
                    utf8_lossy_text(b@),
                    "disabled"@,
                )),
                None => !r,
            },
    {
        match listing {
            Some(b) => {
                let text = utf8_lossy(b);
                str_contains(text.as_str(), "enabled") && !str_contains(text.as_str(), "disabled")
            },
            None => false,
        }
    }

    /// The status read from a long `lpstat -p` listing: online when it says
    /// `enabled`, in error when it says `disabled`; no paper or toner level.
    pub fn status_from_listing(listing: &[u8]) -> (r: PrinterStatus)
        ensures
            r.is_online == contains(utf8_lossy_text(listing@), "enabled"@),
            r.paper_level is None,
            r.toner_level is None,
            contains(utf8_lossy_text(listing@), "disabled"@) ==> (r.error_message matches Some(m)
                && m@ == "Printer is disabled or has an error"@),
            !contains(utf8_lossy_text(listing@), "disabled"@) ==> r.error_message is None,
    {
        let text = utf8_lossy(listing);
        let error_message = if str_contains(text.as_str(), "disabled") {
            Some(to_owned_string("Printer is disabled or has an error"))
        } else {
            None
        };
        PrinterStatus {
            is_online: str_contains(text.as_str(), "enabled"),
            paper_level: None,
            toner_level: None,
            error_message,
        }
    }

    /// The printer's name.
    pub fn kind_name(&self) -> (r: &'static str)
        ensures
            r@ == "brother-hl-l2405w"@,
    {
        "brother-hl-l2405w"
    }
}

/// The `lp` option that selects a paper size.
pub open spec fn media_option(p: PaperSize) -> Seq<char> {
    match p {
        PaperSize::Letter => "media=Letter"@,
        PaperSize::A4 => "media=A4"@,
        PaperSize::Photo4x6 => "media=4x6"@,
    }
}

/// The `lp` option that selects a print quality.
pub open spec fn quality_option(q: PrintQuality) -> Seq<char> {
    match q {
        PrintQuality::Draft => "print-quality=3"@,
        PrintQuality::Normal => "print-quality=4"@,
        PrintQuality::High => "print-quality=5"@,
    }
}

/// The simulated printer.
pub struct MockPrinter;

impl MockPrinter {
    /// The simulated printer.
    pub fn new() -> (r: MockPrinter) {
        MockPrinter
    }

    /// The job identifier of a simulated print made at Unix second `secs`.
    pub fn job_id(secs: u64) -> (r: String)
        ensures
            r@ == "mock-job-"@ + decimal(secs as nat),
    {
        let mut r = to_owned_string("mock-job-");
        crate::text::push_decimal(&mut r, secs);
        r
    }

    /// The job identifier of a simulated print made now; `None` when the
    /// clock reads before the epoch.
    pub fn new_job_id() -> (r: Option<String>)
        ensures
            r matches Some(id) ==> exists|secs: u64| id@ == "mock-job-"@ + decimal(secs as nat),
    {
        match crate::clock::unix_seconds_now() {
            Some(secs) => Some(Self::job_id(secs)),
            None => None,
        }
    }

    /// Always ready.
    pub fn is_ready(&self) -> (r: bool)
        ensures
            r,
    {
        true
    }

    /// Online, paper full, toner at 75%, no error.
    pub fn get_status(&self) -> (r: PrinterStatus)
        ensures
            r.is_online,
            r.paper_level matches Some(p) && p@ == "Full"@,
            r.toner_level matches Some(t) && t@ == "75%"@,
            r.error_message is None,
    {
        PrinterStatus {
            is_online: true,
            paper_level: Some(to_owned_string("Full")),
            toner_level: Some(to_owned_string("75%")),
            error_message: None,
        }
    }

    /// The printer's name.
    pub fn kind_name(&self) -> (r: &'static str)
        ensures
            r@ == "mock"@,
    {
        "mock"
    }
}

/// Law: simulated prints made at different seconds get different job
/// identifiers.
pub proof fn law_mock_job_ids_differ_by_second(a: u64, b: u64)
    ensures
        a != b ==> "mock-job-"@ + decimal(a as nat) != "mock-job-"@ + decimal(b as nat),
{
    let e = Seq::<char>::empty();
    assert("mock-job-"@ + decimal(a as nat) + e =~= "mock-job-"@ + decimal(a as nat));
    assert("mock-job-"@ + decimal(b as nat) + e =~= "mock-job-"@ + decimal(b as nat));
    crate::text::law_framed_decimal_injective("mock-job-"@, e, a as nat, b as nat);
}

} // verus!
