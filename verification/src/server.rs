//! The rules of the web server around the booth: how embedded images are
//! served and whether it runs plain HTTP or HTTPS.
use crate::text::{ends_with, str_ends_with, str_equal, to_owned_string};
use vstd::prelude::*;
use vstd::string::*;

verus! {

/// The content type of an embedded image: JPEG for `.jpg` and `.jpeg`, PNG
/// for `.png`, bytes otherwise.
pub open spec fn image_content_type_text(filename: Seq<char>) -> Seq<char> {
    if ends_with(filename, ".jpg"@) || ends_with(filename, ".jpeg"@) {
        "image/jpeg"@
    } else if ends_with(filename, ".png"@) {
        "image/png"@
    } else {
        "application/octet-stream"@
    }
}

/// The content type an embedded image is served with.
pub fn image_content_type(filename: &str) -> (r: &'static str)
    ensures
        r@ == image_content_type_text(filename@),
{
    if str_ends_with(filename, ".jpg") || str_ends_with(filename, ".jpeg") {
        "image/jpeg"
    } else if str_ends_with(filename, ".png") {
        "image/png"
    } else {
        "application/octet-stream"
    }
}

/// Where an image is found among the embedded files.
pub fn image_asset_path(filename: &str) -> (r: String)
    ensures
        r@ == "static/images/"@ + filename@,
{
    let mut r = to_owned_string("static/images/");
    r.append(filename);
    r
}

/// The entity tag of an image: its file name in double quotes.
pub fn image_etag(filename: &str) -> (r: String)
    ensures
        r@ == "\""@ + filename@ + "\""@,
{
    let mut r = to_owned_string("\"");
    r.append(filename);
    r.append("\"");
    r
}

/// How the server listens.
#[derive(Clone, Copy, Debug, PartialEq, Eq, Structural)]
pub enum ServerMode {
    Http,
    Https,
}

/// Whether the booth runs as a kiosk: the `KIOSK_MODE` variable is set, the
/// file `/tmp/kiosk_mode` exists, or an argument is `--kiosk`.
pub fn kiosk_mode(env_set: bool, flag_file_exists: bool, args: &Vec<String>) -> (r: bool)
    ensures
        r == (env_set || flag_file_exists || exists|i: int|
            0 <= i < args@.len() && #[trigger] args@[i]@ == "--kiosk"@),
{
    if env_set || flag_file_exists {
        return true;
    }
    let mut i: usize = 0;
    while i < args.len()
        invariant
            i <= args.len(),
            forall|k: int| 0 <= k < i ==> #[trigger] args@[k]@ != "--kiosk"@,
        decreases args.len() - i,
    {
        if str_equal(args[i].as_str(), "--kiosk") {
            return true;
        }
        i = i + 1;
    }
    false
}

/// How the server listens: plain HTTP in kiosk mode, HTTPS when both the
/// certificate and the key are present, plain HTTP otherwise.
pub fn server_mode(kiosk: bool, cert_exists: bool, key_exists: bool) -> (r: ServerMode)
    ensures
        r == (if !kiosk && cert_exists && key_exists {
            ServerMode::Https
        } else {
            ServerMode::Http
        }),
{
    if kiosk {
        ServerMode::Http
    } else if cert_exists && key_exists {
        ServerMode::Https
    } else {
        ServerMode::Http
    }
}

} // verus!
