//! The four kinds of failure and the message each one carries.
use vstd::prelude::*;

verus! {

/// What went wrong, by the part of the work that failed.
#[derive(Clone, Copy, Debug, PartialEq, Eq, Structural)]
pub enum ErrorKind {
    /// The user's home directory could not be determined.
    Environment,
    /// Creating a directory, or opening, writing or moving a file failed.
    Filesystem,
    /// The download failed.
    Network,
    /// The archive was unreadable, unsafe, or lacked the font.
    Extraction,
}

/// A failure with a message for whoever has to diagnose it.
#[derive(Debug)]
pub struct ProvisionError {
    pub kind: ErrorKind,
    pub message: String,
}

/// The mathematical content of a [`ProvisionError`].
pub ghost struct ErrorView {
    pub kind: ErrorKind,
    pub message: Seq<char>,
}

impl View for ProvisionError {
    type V = ErrorView;

    open spec fn view(&self) -> ErrorView {
        ErrorView { kind: self.kind, message: self.message@ }
    }
}

impl ProvisionError {
    /// A copy of this error.
    pub fn duplicate(&self) -> (r: ProvisionError)
        ensures
            r@ == self@,
    {
        ProvisionError { kind: self.kind, message: self.message.clone() }
    }

    /// The message, for display.
    pub fn describe(&self) -> (r: String)
        ensures
            r@ == self@.message,
    {
        self.message.clone()
    }
}

/// `a`, then `b`, then `c`, as one string.
fn concat3(a: &str, b: &str, c: &str) -> (r: String)
    ensures
        r@ == a@ + b@ + c@,
{
    let mut r = String::from_str(a);
    r.append(b);
    r.append(c);
    r
}

/// `a`, then `b`, then `c`, then `d`, as one string.
fn concat4(a: &str, b: &str, c: &str, d: &str) -> (r: String)
    ensures
        r@ == a@ + b@ + c@ + d@,
{
    let mut r = concat3(a, b, c);
    r.append(d);
    r
}

/// The failure when no home directory is known.
pub open spec fn environment_error_of() -> ErrorView {
    ErrorView { kind: ErrorKind::Environment, message: "the home directory could not be determined"@ }
}

/// The home directory is unset or empty.
pub fn environment_error() -> (r: ProvisionError)
    ensures
        r@ == environment_error_of(),
{
    ProvisionError {
        kind: ErrorKind::Environment,
        message: String::from_str("the home directory could not be determined"),
    }
}

/// The failure when the directory `dir` could not be created.
pub open spec fn create_dir_error_of(dir: Seq<char>, cause: Seq<char>) -> ErrorView {
    ErrorView {
        kind: ErrorKind::Filesystem,
        message: "could not create directory "@ + dir + ": "@ + cause,
    }
}

/// Creating the directory `dir` failed with `cause`.
pub fn create_dir_error(dir: &str, cause: &str) -> (r: ProvisionError)
    ensures
        r@ == create_dir_error_of(dir@, cause@),
{
    ProvisionError {
        kind: ErrorKind::Filesystem,
        message: concat4("could not create directory ", dir, ": ", cause),
    }
}

/// The failure when something other than a directory stands at `dir`.
pub open spec fn not_a_directory_error_of(dir: Seq<char>) -> ErrorView {
    ErrorView { kind: ErrorKind::Filesystem, message: dir + " exists and is not a directory"@ }
}

/// Something other than a directory stands at `dir`.
pub fn not_a_directory_error(dir: &str) -> (r: ProvisionError)
    ensures
        r@ == not_a_directory_error_of(dir@),
{
    let mut message = String::from_str(dir);
    message.append(" exists and is not a directory");
    ProvisionError { kind: ErrorKind::Filesystem, message }
}

/// The failure when the file `path` could not be created or written.
pub open spec fn write_error_of(path: Seq<char>, cause: Seq<char>) -> ErrorView {
    ErrorView { kind: ErrorKind::Filesystem, message: "could not write "@ + path + ": "@ + cause }
}

/// Creating or writing the file `path` failed with `cause`.
pub fn write_error(path: &str, cause: &str) -> (r: ProvisionError)
    ensures
        r@ == write_error_of(path@, cause@),
{
    ProvisionError {
        kind: ErrorKind::Filesystem,
        message: concat4("could not write ", path, ": ", cause),
    }
}

/// The failure when the transfer from `url` broke off.
pub open spec fn download_error_of(url: Seq<char>, cause: Seq<char>) -> ErrorView {
    ErrorView {
        kind: ErrorKind::Network,
        message: "could not download the font from "@ + url + ": "@ + cause,
    }
}

/// Fetching `url` failed in transport with `cause`.
pub fn download_error(url: &str, cause: &str) -> (r: ProvisionError)
    ensures
        r@ == download_error_of(url@, cause@),
{
    ProvisionError {
        kind: ErrorKind::Network,
        message: concat4("could not download the font from ", url, ": ", cause),
    }
}

/// The failure when the server refused `url` with `status_line`.
pub open spec fn status_error_of(url: Seq<char>, status_line: Seq<char>) -> ErrorView {
    ErrorView {
        kind: ErrorKind::Network,
        message: "could not download the font from "@ + url + ": the server answered "@
            + status_line,
    }
}

/// The server answered `url` with the unsuccessful status `status_line`.
pub fn status_error(url: &str, status_line: &str) -> (r: ProvisionError)
    ensures
        r@ == status_error_of(url@, status_line@),
{
    ProvisionError {
        kind: ErrorKind::Network,
        message: concat4("could not download the font from ", url, ": the server answered ", status_line),
    }
}

/// The failure when `from` could not be moved to `to`.
pub open spec fn rename_error_of(from: Seq<char>, to: Seq<char>, cause: Seq<char>) -> ErrorView {
    ErrorView {
        kind: ErrorKind::Filesystem,
        message: "could not move "@ + from + " to "@ + to + ": "@ + cause,
    }
}

/// Moving the file `from` to `to` failed with `cause`.
pub fn rename_error(from: &str, to: &str, cause: &str) -> (r: ProvisionError)
    ensures
        r@ == rename_error_of(from@, to@, cause@),
{
    let mut message = concat4("could not move ", from, " to ", to);
    message.append(": ");
    message.append(cause);
    ProvisionError { kind: ErrorKind::Filesystem, message }
}

/// The failure when `archive` could not be unpacked.
pub open spec fn extract_error_of(archive: Seq<char>, cause: Seq<char>) -> ErrorView {
    ErrorView { kind: ErrorKind::Extraction, message: "could not extract "@ + archive + ": "@ + cause }
}

/// Unpacking `archive` failed with `cause`.
pub fn extract_error(archive: &str, cause: &str) -> (r: ProvisionError)
    ensures
        r@ == extract_error_of(archive@, cause@),
{
    ProvisionError {
        kind: ErrorKind::Extraction,
        message: concat4("could not extract ", archive, ": ", cause),
    }
}

/// The failure when unpacking `archive` left no `font` behind.
pub open spec fn missing_font_error_of(archive: Seq<char>, font: Seq<char>) -> ErrorView {
    ErrorView { kind: ErrorKind::Extraction, message: "the archive "@ + archive + " holds no "@ + font }
}

/// `archive` was unpacked, and `font` is still not there.
pub fn missing_font_error(archive: &str, font: &str) -> (r: ProvisionError)
    ensures
        r@ == missing_font_error_of(archive@, font@),
{
    ProvisionError {
        kind: ErrorKind::Extraction,
        message: concat4("the archive ", archive, " holds no ", font),
    }
}

} // verus!
