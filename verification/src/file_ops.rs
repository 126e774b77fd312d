//! File-side operations around the pipeline: output-folder creation, the
//! idempotency probe ("does the output already exist, and may it be
//! overwritten?") and output line counting.
//!
//! What is on disk is environmental, so the probes carry no value contract;
//! the decisions taken on their results are verified in the callers, and
//! the pure line-counting core is exact (`text::count_lines`).

use vstd::prelude::*;

use crate::art::glob_first;
use crate::art::GlobFirst;
use crate::text::count_lines;

verus! {

/// Relies on std::path::Path::is_file: whether the path points at an
/// existing regular file at the moment of the call.
#[verifier::external_body]
pub(crate) fn path_is_file(p: &String) -> bool {
    std::path::Path::new(p).is_file()
}

/// Relies on fs_extra::dir::create_all with `erase` false: creates the
/// directory and every missing parent, keeping existing content; reports
/// whether it succeeded.
#[verifier::external_body]
fn create_dirs_ok(p: &String) -> bool {
    fs_extra::dir::create_all(p, false).is_ok()
}

/// Relies on fs_extra::file::write_all with empty content: truncates the
/// file (creating it if needed); reports whether it succeeded.
#[verifier::external_body]
fn truncate_file_ok(p: &String) -> bool {
    fs_extra::file::write_all(p, "").is_ok()
}

/// Relies on fs_extra::file::read_to_string: the file's content as text,
/// or nothing when it cannot be read.
#[verifier::external_body]
fn read_file_string(p: &String) -> Option<String> {
    match fs_extra::file::read_to_string(p) {
        Ok(s) => Some(s),
        Err(_) => None,
    }
}

/// Relies on inquire::Confirm::prompt with default `false`: the operator's
/// yes/no answer, or nothing when the prompt is canceled or fails.
#[verifier::external_body]
fn ask_confirm(msg: &String) -> Option<bool> {
    let ans = inquire::Confirm::new(msg.as_str())
        .with_default(false)
        .with_help_message("Overwrite the file if you want to rerun the command.")
        .prompt();
    match ans {
        Ok(b) => Some(b),
        Err(_) => None,
    }
}

/// Create the folder (and its missing parents), idempotently: existing
/// content is kept. Reports whether the folder is in place.
pub fn make_folders(out_path: &String) -> bool {
    create_dirs_ok(out_path)
}

/// Ask whether an existing file may be overwritten. In silent mode nothing
/// is asked and the file is kept; interactively, a confirmed answer
/// truncates the file so the task can rerun.
fn user_file_overwrite(silent: bool, file_path: &String) -> (r: bool)
    ensures
        silent ==> !r,
{
    if silent {
        return false;
    }
    let mut msg: String = "File exists: ".to_owned();
    msg.append(file_path.as_str());
    msg.append("\nDo you want to overwrite the file?");
    match ask_confirm(&msg) {
        Some(true) => {
            truncate_file_ok(file_path);
            true
        },
        Some(false) => false,
        None => false,
    }
}

/// The idempotency probe: whether a task may (re)write its output file.
/// Yields `true` when no output exists there yet (neither literally nor as
/// a glob match); when one exists, only an interactive overwrite
/// confirmation makes it `true` again — in silent mode an existing output
/// always stands, so a rerun never touches it.
pub fn file_exists_overwrite(file_path: &String, silent: bool) -> (r: bool) {
    if path_is_file(file_path) {
        return user_file_overwrite(silent, file_path);
    }
    match glob_first(file_path) {
        GlobFirst::Found(g) => user_file_overwrite(silent, &g),
        GlobFirst::NoMatch => true,
        GlobFirst::BadPattern => true,
    }
}

/// Count the lines of the file at `file_path`: the exact line count of its
/// content when it can be read (falling back to the first glob match when
/// the literal path is no file), and 0 otherwise.
pub fn line_count(file_path: &String) -> (n: usize) {
    match read_file_string(file_path) {
        Some(content) => count_lines(content.as_str()),
        None => {
            match glob_first(file_path) {
                GlobFirst::Found(g) => {
                    match read_file_string(&g) {
                        Some(content) => count_lines(content.as_str()),
                        None => 0,
                    }
                },
                GlobFirst::NoMatch => 0,
                GlobFirst::BadPattern => 0,
            }
        },
    }
}

/// What probing an artefact for readability reported. Files on a mounted
/// volume can be locked: reading them is denied even though they exist.
#[derive(Debug, Clone, Copy, PartialEq, Eq)]
pub enum AccessProbe {
    /// The artefact (or the first file under it) could be read.
    Readable,
    /// Reading was denied: the artefact needs the extraction fallback.
    Unreadable,
}

/// Relies on fs_extra::file::read_to_string: attempts to read the file as
/// text. Non-text content still counts as readable; a permission refusal
/// (how a mounted volume's lock surfaces) or any other failure does not.
#[verifier::external_body]
fn readable_file(p: &String) -> bool {
    match fs_extra::file::read_to_string(p) {
        Ok(_) => true,
        Err(e) => match e.kind {
            fs_extra::error::ErrorKind::Io(ioe) => ioe.kind() == std::io::ErrorKind::InvalidData,
            _ => false,
        },
    }
}

/// Probe whether an artefact is readable: a file is read directly; for a
/// folder, its first entry that is a file is read in its place (a folder
/// with no file to try counts as readable).
pub fn check_access(filepath: &String) -> AccessProbe {
    if path_is_file(filepath) {
        if readable_file(filepath) {
            return AccessProbe::Readable;
        }
        return AccessProbe::Unreadable;
    }
    let mut pattern = filepath.clone();
    pattern.append("/*");
    match glob_first(&pattern) {
        GlobFirst::Found(entry) => {
            if path_is_file(&entry) && !readable_file(&entry) {
                AccessProbe::Unreadable
            } else {
                AccessProbe::Readable
            }
        },
        GlobFirst::NoMatch => AccessProbe::Readable,
        GlobFirst::BadPattern => AccessProbe::Readable,
    }
}

/// Whether a string is a valid calendar date in year-month-day form, as
/// the date library's parser decides it: a function of the string alone.
pub uninterp spec fn is_chrono_date(s: Seq<char>) -> bool;

/// Relies on chrono::NaiveDate::parse_from_str with the year-month-day
/// format: whether the string parses as a valid calendar date.
#[verifier::external_body]
fn chrono_date_ok(s: &String) -> (r: bool)
    ensures
        r == is_chrono_date(s@),
{
    chrono::NaiveDate::parse_from_str(s, "%Y-%m-%d").is_ok()
}

/// Relies on inquire::CustomType over chrono::NaiveDate: keeps prompting
/// until the operator types a valid calendar date, handed back in
/// year-month-day form; nothing when the prompt is canceled or fails.
#[verifier::external_body]
fn ask_date(msg: &String) -> Option<String> {
    let ans: Result<chrono::NaiveDate, inquire::InquireError> = inquire::CustomType::new(
        msg.as_str(),
    )
        .with_placeholder("yyyy-mm-dd")
        .with_error_message("Please type a valid date.")
        .with_help_message("Set the date with the right format.")
        .prompt();
    match ans {
        Ok(d) => Some(format!("{}", d)),
        Err(_) => None,
    }
}

/// Confirm that a date string is a valid year-month-day date: a valid date
/// passes through unchanged; an invalid one is kept as typed in silent
/// runs, and interactively the operator is asked for a replacement (the
/// date stands as given when the prompt is canceled).
pub fn check_date(date: String, date_type: &String, silent: bool) -> (r: String)
    ensures
        is_chrono_date(date@) ==> r@ == date@,
        silent ==> r@ == date@,
{
    if chrono_date_ok(&date) || silent {
        return date;
    }
    let mut msg: String = "Invalid date: ".to_owned();
    msg.append(date.as_str());
    msg.append(" What is the ");
    msg.append(date_type.as_str());
    msg.append(" date?");
    match ask_date(&msg) {
        Some(d) => d,
        None => date,
    }
}

} // verus!
