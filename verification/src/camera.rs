//! The cameras: which one a configuration selects, how the system camera is
//! driven through `libcamera-still`, how its failures are told apart, and
//! how busy captures are retried.
use crate::text::{
    contains, decimal, push_decimal, str_contains, str_equal, texts, to_owned_string,
    utf8_lossy, utf8_lossy_text,
};
use crate::clock::unix_seconds_now;
use crate::picture::{filled_pixels, rgb_decoding, rgb_encoding, RgbImage};
use vstd::prelude::*;
use vstd::string::*;

verus! {

/// The failures of a camera.
pub enum CameraError {
    UnknownType(String),
    DeviceError(String),
    ImageDecodeError(String),
    Io(String),
    NotFound(String),
    CommandFailed(String),
    Busy,
}

impl CameraError {
    /// The text that the error displays.
    pub open spec fn message_text(&self) -> Seq<char> {
        match self {
            CameraError::UnknownType(t) => "Unknown camera type requested: "@ + t@,
            CameraError::DeviceError(e) => "Failed to access camera device with rscam: "@ + e@,
            CameraError::ImageDecodeError(e) => "Failed to decode image from camera frame: "@ + e@,
            CameraError::Io(e) => "Camera IO Error: "@ + e@,
            CameraError::NotFound(p) => "Camera not found at device path: "@ + p@,
            CameraError::CommandFailed(m) => "Command execution failed: "@ + m@,
            CameraError::Busy => "Camera is busy, please try again"@,
        }
    }

    /// The text that the error displays.
    pub fn message(&self) -> (r: String)
        ensures
            r@ == self.message_text(),
    {
        let (prefix, detail): (&str, Option<&String>) = match self {
            CameraError::UnknownType(t) => ("Unknown camera type requested: ", Some(t)),
            CameraError::DeviceError(e) => ("Failed to access camera device with rscam: ", Some(e)),
            CameraError::ImageDecodeError(e) => (
                "Failed to decode image from camera frame: ",
                Some(e),
            ),
            CameraError::Io(e) => ("Camera IO Error: ", Some(e)),
            CameraError::NotFound(p) => ("Camera not found at device path: ", Some(p)),
            CameraError::CommandFailed(m) => ("Command execution failed: ", Some(m)),
            CameraError::Busy => ("Camera is busy, please try again", None),
        };
        let mut r = to_owned_string(prefix);
        match detail {
            Some(d) => {
                r.append(d.as_str());
            },
            None => {
                assert(r@ == self.message_text());
            },
        }
        r
    }

    /// Whether this is the busy error.
    pub fn is_busy(&self) -> (r: bool)
        ensures
            r == (self is Busy),
    {
        match self {
            CameraError::Busy => true,
            _ => false,
        }
    }
}

/// The photo decoded from the bytes of the file named `path`; a failure is
/// an image decoding error that quotes the image library.
pub fn decode_rgb(bytes: &[u8], path: &str) -> (r: Result<RgbImage, CameraError>)
    ensures
        match rgb_decoding(bytes@, path@) {
            Ok((w, h, p)) => r matches Ok(img) && img@ == (w, h, p),
            Err(e) => r matches Err(CameraError::ImageDecodeError(m)) && m@ == e,
        },
{
    match RgbImage::decode(bytes, path) {
        Ok(img) => Ok(img),
        Err(e) => Err(CameraError::ImageDecodeError(e)),
    }
}

/// The bytes of the file named `path` that holds the photo; a failure is an
/// image error that quotes the image library.
pub fn encode_photo(photo: &RgbImage, path: &str) -> (r: Result<Vec<u8>, CameraError>)
    ensures
        match rgb_encoding(photo@.0, photo@.1, photo@.2, path@) {
            Ok(b) => r matches Ok(v) && v@ == b,
            Err(e) => r matches Err(CameraError::ImageDecodeError(m)) && m@ == e,
        },
{
    match photo.encode(path) {
        Ok(v) => Ok(v),
        Err(e) => Err(CameraError::ImageDecodeError(e)),
    }
}

/// The cameras a configuration can select.
#[derive(Clone, Copy, Debug, PartialEq, Eq, Structural)]
pub enum CameraKind {
    Libcamera,
    Mock,
}

/// The camera that a configuration name selects: `"libcamera"` the system
/// camera, `"mock"` the simulated one; any other name is refused.
pub fn new_camera(cam_type: &str) -> (r: Result<CameraKind, CameraError>)
    ensures
        cam_type@ == "libcamera"@ ==> r == Ok::<CameraKind, CameraError>(CameraKind::Libcamera),
        cam_type@ == "mock"@ ==> r == Ok::<CameraKind, CameraError>(CameraKind::Mock),
        cam_type@ != "libcamera"@ && cam_type@ != "mock"@ ==> (r matches Err(
            CameraError::UnknownType(t),
        ) && t@ == cam_type@),
{
    proof {
        reveal_strlit("libcamera");
        reveal_strlit("mock");
        assert("libcamera"@.len() != "mock"@.len());
    }
    if str_equal(cam_type, "libcamera") {
        Ok(CameraKind::Libcamera)
    } else if str_equal(cam_type, "mock") {
        Ok(CameraKind::Mock)
    } else {
        Err(CameraError::UnknownType(to_owned_string(cam_type)))
    }
}

/// The file name of a photo taken at Unix second `secs` in `dir`.
pub open spec fn photo_file_text(dir: Seq<char>, secs: u64) -> Seq<char> {
    dir + "/photo_"@ + decimal(secs as nat) + ".jpg"@
}

/// `dir/photo_<secs>.jpg`.
fn photo_file_name(dir: &str, secs: u64) -> (r: String)
    ensures
        r@ == photo_file_text(dir@, secs),
{
    let mut r = to_owned_string(dir);
    r.append("/photo_");
    push_decimal(&mut r, secs);
    r.append(".jpg");
    r
}

/// The simulated camera.
pub struct MockCamera;

impl MockCamera {
    /// Where the simulated camera stores the photo it takes at Unix second
    /// `secs`.
    pub fn photo_filename(secs: u64) -> (r: String)
        ensures
            r@ == photo_file_text("./photos"@, secs),
    {
        photo_file_name("./photos", secs)
    }

    /// The frame the simulated camera takes: 800 x 600 pixels of dark grey
    /// (50, 50, 50).
    pub fn frame() -> (r: RgbImage)
        ensures
            r@ == (800u32, 600u32, filled_pixels(800, 600, 50, 50, 50)),
    {
        RgbImage::filled(800, 600, 50, 50, 50)
    }

    /// Where the simulated camera stores a photo taken now; `None` when the
    /// clock reads before the epoch.
    pub fn new_photo_filename() -> (r: Option<String>)
        ensures
            r matches Some(f) ==> exists|secs: u64| f@ == photo_file_text("./photos"@, secs),
    {
        match unix_seconds_now() {
            Some(secs) => Some(Self::photo_filename(secs)),
            None => None,
        }
    }

    /// The camera's name.
    pub fn kind_name(&self) -> (r: &'static str)
        ensures
            r@ == "mock"@,
    {
        "mock"
    }
}

/// The most captures one photo request makes.
pub const MAX_CAPTURE_ATTEMPTS: u32 = 5;

/// What follows one capture attempt.
pub enum CaptureStep {
    /// The photo was taken.
    Done,
    /// The camera was busy: free it, wait, and make attempt `next_attempt`.
    Retry { next_attempt: u32 },
    /// The request fails with this error.
    Fail(CameraError),
}

/// A program with two arguments.
fn command2(program: &str, a: &str, b: &str) -> (r: Vec<String>)
    ensures
        texts(r@) == seq![program@, a@, b@],
{
    let mut r: Vec<String> = Vec::new();
    r.push(to_owned_string(program));
    r.push(to_owned_string(a));
    r.push(to_owned_string(b));
    assert(texts(r@) =~= seq![program@, a@, b@]);
    r
}

/// A program with three arguments.
fn command3(program: &str, a: &str, b: &str, c: &str) -> (r: Vec<String>)
    ensures
        texts(r@) == seq![program@, a@, b@, c@],
{
    let mut r: Vec<String> = Vec::new();
    r.push(to_owned_string(program));
    r.push(to_owned_string(a));
    r.push(to_owned_string(b));
    r.push(to_owned_string(c));
    assert(texts(r@) =~= seq![program@, a@, b@, c@]);
    r
}

/// The commands that free the camera, each a program and its arguments.
pub open spec fn freeing_command_texts() -> Seq<Seq<Seq<char>>> {
    seq![
        seq!["systemctl"@, "--user"@, "stop"@, "pipewire-pulse"@],
        seq!["systemctl"@, "--user"@, "stop"@, "wireplumber"@],
        seq!["systemctl"@, "--user"@, "stop"@, "pipewire"@],
        seq!["pkill"@, "-f"@, "libcamera-still"@],
        seq!["pkill"@, "-f"@, "libcamera-vid"@],
        seq!["pkill"@, "-f"@, "rpicam-still"@],
        seq!["pkill"@, "-f"@, "rpicam-vid"@],
        seq![
            "bash"@,
            "-c"@,
            "lsof /dev/video* 2>/dev/null | awk 'NR>1 {print $2}' | xargs -r kill -9"@,
        ],
    ]
}

/// The system camera, driven through the `libcamera-still` command.
pub struct LibcameraSystemCamera {
    pub output_dir: String,
}

impl LibcameraSystemCamera {
    /// The camera once `libcamera-still --help` has run: usable, with its
    /// photos in `./photos`, when the command succeeded; otherwise the
    /// command is missing.
    pub fn new(help_succeeded: bool) -> (r: Result<LibcameraSystemCamera, CameraError>)
        ensures
            help_succeeded ==> (r matches Ok(c) && c.output_dir@ == "./photos"@),
            !help_succeeded ==> (r matches Err(CameraError::NotFound(m)) && m@
                == "libcamera-still command not found"@),
    {
        if help_succeeded {
            Ok(LibcameraSystemCamera { output_dir: to_owned_string("./photos") })
        } else {
            Err(CameraError::NotFound(to_owned_string("libcamera-still command not found")))
        }
    }

    /// Where a photo taken at Unix second `secs` is stored.
    pub fn photo_filename(&self, secs: u64) -> (r: String)
        ensures
            r@ == photo_file_text(self.output_dir@, secs),
    {
        photo_file_name(self.output_dir.as_str(), secs)
    }

    /// The commands that free the camera before a capture, run in order
    /// (their outcomes are ignored): stop the PipeWire user services, kill
    /// the camera tools, and kill whatever holds a video device.
    pub fn freeing_commands() -> (r: Vec<Vec<String>>)
        ensures
            r@.map_values(|c: Vec<String>| texts(c@)) == freeing_command_texts(),
    {
        let mut r: Vec<Vec<String>> = Vec::new();
        r.push(command3("systemctl", "--user", "stop", "pipewire-pulse"));
        r.push(command3("systemctl", "--user", "stop", "wireplumber"));
        r.push(command3("systemctl", "--user", "stop", "pipewire"));
        r.push(command2("pkill", "-f", "libcamera-still"));
        r.push(command2("pkill", "-f", "libcamera-vid"));
        r.push(command2("pkill", "-f", "rpicam-still"));
        r.push(command2("pkill", "-f", "rpicam-vid"));
        r.push(
            command2(
                "bash",
                "-c",
                "lsof /dev/video* 2>/dev/null | awk 'NR>1 {print $2}' | xargs -r kill -9",
            ),
        );
        assert(r@.map_values(|c: Vec<String>| texts(c@)) =~= freeing_command_texts());
        r
    }

    /// How long to wait, in milliseconds, once the camera has been freed.
    pub fn settle_millis() -> (r: u64)
        ensures
            r == 1500,
    {
        1500
    }

    /// How long to wait, in milliseconds, before retrying a busy camera.
    pub fn retry_pause_millis() -> (r: u64)
        ensures
            r == 2000,
    {
        2000
    }

    /// Where a photo taken now is stored; `None` when the clock reads before
    /// the epoch.
    pub fn new_photo_filename(&self) -> (r: Option<String>)
        ensures
            r matches Some(f) ==> exists|secs: u64| f@ == photo_file_text(self.output_dir@, secs),
    {
        match unix_seconds_now() {
            Some(secs) => Some(self.photo_filename(secs)),
            None => None,
        }
    }

    /// The arguments of `libcamera-still` that take a 1280x720 photo at
    /// quality 95 into `filename`, without preview, waiting at most three
    /// seconds.
    pub fn capture_args(filename: &str) -> (r: Vec<String>)
        ensures
            texts(r@) == seq![
                "--output"@,
                filename@,
                "--width"@,
                "1280"@,
                "--height"@,
                "720"@,
                "--quality"@,
                "95"@,
                "--timeout"@,
                "3000"@,
                "--nopreview"@,
                "--immediate"@,
            ],
    {
        let mut r: Vec<String> = Vec::new();
        r.push(to_owned_string("--output"));
        r.push(to_owned_string(filename));
        r.push(to_owned_string("--width"));
        r.push(to_owned_string("1280"));
        r.push(to_owned_string("--height"));
        r.push(to_owned_string("720"));
        r.push(to_owned_string("--quality"));
        r.push(to_owned_string("95"));
        r.push(to_owned_string("--timeout"));
        r.push(to_owned_string("3000"));
        r.push(to_owned_string("--nopreview"));
        r.push(to_owned_string("--immediate"));
        assert(texts(r@) =~= seq![
            "--output"@,
            filename@,
            "--width"@,
            "1280"@,
            "--height"@,
            "720"@,
            "--quality"@,
            "95"@,
            "--timeout"@,
            "3000"@,
            "--nopreview"@,
            "--immediate"@,
        ]);
        r
    }

    /// The error of a failed `libcamera-still` run with the given standard
    /// error: busy when it reports the pipeline handler in use or the device
    /// busy, otherwise a failed command that quotes it.
    pub fn capture_failure(stderr: &[u8]) -> (r: CameraError)
        ensures
            ({
                let text = utf8_lossy_text(stderr@);
                if contains(text, "Pipeline handler in use"@) || contains(
                    text,
                    "Device or resource busy"@,
                ) {
                    r is Busy
                } else {
                    r matches CameraError::CommandFailed(m) && m@ == "libcamera-still failed: "@
                        + text
                }
            }),
    {
        let text = utf8_lossy(stderr);
        if str_contains(text.as_str(), "Pipeline handler in use") || str_contains(
            text.as_str(),
            "Device or resource busy",
        ) {
            CameraError::Busy
        } else {
            let mut m = to_owned_string("libcamera-still failed: ");
            m.append(text.as_str());
            CameraError::CommandFailed(m)
        }
    }

    /// What follows capture attempt number `attempt` (counted from 1) with
    /// the given outcome: a busy camera is retried until the last attempt,
    /// every other failure ends the request at once.
    pub fn after_capture(attempt: u32, outcome: Result<(), CameraError>) -> (r: CaptureStep)
        requires
            1 <= attempt <= MAX_CAPTURE_ATTEMPTS,
        ensures
            outcome is Ok ==> r is Done,
            outcome matches Err(e) ==> if e is Busy && attempt < MAX_CAPTURE_ATTEMPTS {
                r matches CaptureStep::Retry { next_attempt } && next_attempt == attempt + 1
            } else {
                r matches CaptureStep::Fail(f) && f == e
            },
    {
        match outcome {
            Ok(()) => CaptureStep::Done,
            Err(e) => {
                if e.is_busy() && attempt < MAX_CAPTURE_ATTEMPTS {
                    CaptureStep::Retry { next_attempt: attempt + 1 }
                } else {
                    CaptureStep::Fail(e)
                }
            },
        }
    }

    /// The camera's name.
    pub fn kind_name(&self) -> (r: &'static str)
        ensures
            r@ == "libcamera-system"@,
    {
        "libcamera-system"
    }
}

/// The attempt numbers of one photo request: it starts at attempt 1 and
/// each later attempt is the retry that `after_capture` orders after the
/// one before it.
pub open spec fn retry_chain(run: Seq<u32>) -> bool {
    &&& run.len() > 0
    &&& run[0] == 1
    &&& forall|i: int|
        0 <= i < run.len() - 1 ==> #[trigger] run[i] < MAX_CAPTURE_ATTEMPTS && run[i + 1] == run[i]
            + 1
}

/// Law: a photo request captures at most five times, its attempts numbered
/// 1, 2, ... in turn.
pub proof fn law_capture_attempts_bounded(run: Seq<u32>)
    requires
        retry_chain(run),
    ensures
        run.len() <= MAX_CAPTURE_ATTEMPTS,
        forall|i: int| 0 <= i < run.len() ==> #[trigger] run[i] == i + 1,
{
    assert forall|i: int| 0 <= i < run.len() implies #[trigger] run[i] == i + 1 by {
        lemma_chain_numbering(run, i);
    }
    if run.len() > 1 {
        assert(run[run.len() - 2] < MAX_CAPTURE_ATTEMPTS);
        lemma_chain_numbering(run, run.len() - 2);
    }
}

/// The attempts of a retry chain are numbered from 1 in turn.
proof fn lemma_chain_numbering(run: Seq<u32>, i: int)
    requires
        retry_chain(run),
        0 <= i < run.len(),
    ensures
        run[i] == i + 1,
    decreases i,
{
    if i > 0 {
        lemma_chain_numbering(run, i - 1);
        assert(run[i - 1] < MAX_CAPTURE_ATTEMPTS && run[i] == run[i - 1] + 1);
    }
}

/// Law: photos taken at different seconds are stored under different file
/// names, so a later photo never overwrites an earlier one.
pub proof fn law_photo_names_differ_by_second(dir: Seq<char>, a: u64, b: u64)
    ensures
        a != b ==> photo_file_text(dir, a) != photo_file_text(dir, b),
{
    crate::text::law_framed_decimal_injective(dir + "/photo_"@, ".jpg"@, a as nat, b as nat);
}

} // verus!
