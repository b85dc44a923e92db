//! The three operations of the facade, over what the file system returned.
//!
//! The host reads and writes; it reports a read as the file's bytes or as the
//! operating system's description of what went wrong. From that report the
//! functions here make the answer that the caller gets.

use crate::text::{bytes_of, slice_is_utf8, stored_text_reads_back, string_from_utf8, text_of};
use vstd::prelude::*;

verus! {

/// What a caller is told when a file was read and its bytes are not text. The
/// words are those of the standard library for a file that cannot be read into
/// a string because it is not UTF-8.
pub const NOT_TEXT: &'static str = "stream did not contain valid UTF-8";

/// The host's report of a read, as plain values.
pub open spec fn report_of(read: Result<Vec<u8>, String>) -> Result<Seq<u8>, Seq<char>> {
    match read {
        Ok(bytes) => Ok(bytes@),
        Err(reason) => Err(reason@),
    }
}

/// The answer to a read request, given the host's report: the file's text;
/// [`NOT_TEXT`] where the file was read and did not hold text; the operating
/// system's own words where the file could not be read.
pub open spec fn read_answer(report: Result<Seq<u8>, Seq<char>>) -> Result<Seq<char>, Seq<char>> {
    match report {
        Ok(bytes) => match text_of(bytes) {
            Some(text) => Ok(text),
            None => Err(NOT_TEXT@),
        },
        Err(reason) => Err(reason),
    }
}

/// Answers a request for a file's text from the host's report of the read.
///
/// Every report has an answer: a file that is missing, unreadable or not text
/// gives an `Err` with the reason, as [`read_answer`] says.
pub fn read_file_to_string(read: Result<Vec<u8>, String>) -> (answer: Result<String, String>)
    ensures
        match read_answer(report_of(read)) {
            Ok(text) => answer matches Ok(contents) && contents@ == text,
            Err(reason) => answer matches Err(told) && told@ == reason,
        },
{
    match read {
        Ok(bytes) => match string_from_utf8(bytes) {
            Some(contents) => {
                proof {
                    stored_text_reads_back(contents@);
                }
                Ok(contents)
            },
            None => Err(NOT_TEXT.to_owned()),
        },
        Err(reason) => Err(reason),
    }
}

/// The bytes that a write request puts in the file in place of whatever it
/// held: those of `contents`, and nothing of an earlier state.
pub fn bytes_to_write(contents: &str) -> (bytes: &[u8])
    ensures
        bytes@ == bytes_of(contents@),
{
    contents.as_bytes()
}

/// Whether the configuration file was read and holds text, so that
/// [`read_fixed_config`] has an answer.
pub fn config_is_available(read: &Result<Vec<u8>, String>) -> (available: bool)
    ensures
        available == read_answer(report_of(*read)) is Ok,
{
    match read {
        Ok(bytes) => slice_is_utf8(bytes.as_slice()),
        Err(_) => false,
    }
}

/// The text of the configuration file, from the host's report of reading it.
///
/// This operation has no error to return: where the file could not be read or
/// is not text its host ends the process, so such reports are not accepted
/// here. [`config_is_available`] tells them apart.
pub fn read_fixed_config(read: Result<Vec<u8>, String>) -> (contents: String)
    requires
        read_answer(report_of(read)) is Ok,
    ensures
        read_answer(report_of(read)) == Ok::<Seq<char>, Seq<char>>(contents@),
{
    match read_file_to_string(read) {
        Ok(contents) => contents,
        Err(_) => vstd::pervasive::unreached(),
    }
}

/// Writing `contents` and then reading the file answers with `contents`: the
/// bytes that a write request stores are answered, when the host reports them
/// back unchanged, with exactly the text that was written.
pub proof fn written_contents_are_read(contents: Seq<char>)
    ensures
        read_answer(Ok(bytes_of(contents))) == Ok::<Seq<char>, Seq<char>>(contents),
{
    stored_text_reads_back(contents);
}

} // verus!
