//! How an exam lies in a file: as JSON text, plain or wrapped in gzip.

use crate::event::{LoadTask, Messages, SaveTask};
use crate::exam::{Exam, ExamView};
use crate::listing::{PathEntry, PathEntryView};
use vstd::prelude::*;

verus! {

/// The two ways an exam is stored.
#[derive(Clone, Copy, Debug, PartialEq, Eq, Structural)]
pub enum Format {
    /// JSON text as it is.
    Json,
    /// JSON text inside a gzip stream.
    Gzip,
}

/// Why a load did not produce an exam.
#[derive(Clone, Copy, Debug, PartialEq, Eq, Structural)]
pub enum LoadError {
    /// The name of the file is not that of a file that holds an exam.
    NotAnExamFile,
    /// The file could not be opened or read.
    Unreadable,
    /// The gzip stream is damaged.
    Corrupt,
    /// The text is not the JSON of an exam.
    Malformed,
    /// An answer names an option that its question does not have.
    AnswerOutOfRange,
}

/// Why a save did not reach the file.
#[derive(Clone, Copy, Debug, PartialEq, Eq, Structural)]
pub enum SaveError {
    /// The exam could not be turned into bytes.
    Unencodable,
    /// The file could not be created or written.
    Unwritable,
}

/// Whether `name` has a stem, a dot and then `ext`. For an `ext` without a
/// dot this is to say that the extension of the file name is `ext`.
pub open spec fn has_extension(name: Seq<char>, ext: Seq<char>) -> bool {
    let stem = name.len() - ext.len() - 1;
    stem > 0 && name[stem] == '.' && name.skip(stem + 1) == ext
}

/// The format that a file of this name is stored in: `.json` is plain
/// JSON, `.exhaust` and `.gz` are gzip; a file of another name holds no exam.
pub open spec fn format_of(name: Seq<char>) -> Option<Format> {
    if has_extension(name, "json"@) {
        Some(Format::Json)
    } else if has_extension(name, "exhaust"@) || has_extension(name, "gz"@) {
        Some(Format::Gzip)
    } else {
        None
    }
}

/// Whether `name` ends in a dot and `ext`, after a stem that is not empty.
fn ends_in(name: &str, ext: &str) -> (r: bool)
    ensures
        r == has_extension(name@, ext@),
{
    let n: usize = name.unicode_len();
    let m: usize = ext.unicode_len();
    if m >= n || n - m < 2 {
        return false;
    }
    let stem: usize = n - m - 1;
    if name.get_char(stem) != '.' {
        return false;
    }
    let mut i: usize = 0;
    while i < m
        invariant
            i <= m,
            n == name@.len(),
            m == ext@.len(),
            stem == n - m - 1,
            stem > 0,
            forall|j: int| 0 <= j < i ==> name@[stem + 1 + j] == ext@[j],
        decreases m - i,
    {
        if name.get_char(stem + 1 + i) != ext.get_char(i) {
            assert(name@.skip(stem + 1)[i as int] != ext@[i as int]);
            return false;
        }
        i += 1;
    }
    assert(name@.skip(stem + 1) =~= ext@);
    true
}

impl Format {
    /// The format that a file of this name is stored in, if it holds an exam.
    pub fn of_name(file_name: &str) -> (r: Option<Format>)
        ensures
            r == format_of(file_name@),
    {
        if ends_in(file_name, "json") {
            Some(Format::Json)
        } else if ends_in(file_name, "exhaust") || ends_in(file_name, "gz") {
            Some(Format::Gzip)
        } else {
            None
        }
    }
}

/// The bytes that a gzip stream unpacks to; nothing for bytes that are no
/// gzip stream, or a damaged one.
pub uninterp spec fn gzip_payload(stream: Seq<u8>) -> Option<Seq<u8>>;

/// Unpacks a gzip stream with `libflate::gzip::Decoder`, read to its end.
///
/// Trusted: whether the decoder accepts the stream, and what it gives,
/// depends on the bytes alone; the contract names that result and says no
/// more of it.
#[verifier::external_body]
fn gzip_decode(stream: &[u8]) -> (data: Option<Vec<u8>>)
    ensures
        match data {
            Some(data) => gzip_payload(stream@) == Some(data@),
            None => gzip_payload(stream@) is None,
        },
{
    let mut decoder = libflate::gzip::Decoder::new(stream).ok()?;
    let mut data = Vec::new();
    std::io::Read::read_to_end(&mut decoder, &mut data).ok()?;
    Some(data)
}

/// Packs bytes into a gzip stream with `libflate::gzip::Encoder`.
///
/// Trusted: a stream that the encoder has finished without an error is one
/// that the decoder unpacks to the bytes that went in. The stream itself is
/// not named: its header holds the time of the call.
#[verifier::external_body]
fn gzip_encode(data: &[u8]) -> (stream: Option<Vec<u8>>)
    ensures
        stream matches Some(stream) ==> gzip_payload(stream@) == Some(data@),
{
    let mut encoder = libflate::gzip::Encoder::new(Vec::new()).ok()?;
    std::io::Write::write_all(&mut encoder, data).ok()?;
    encoder.finish().into_result().ok()
}

/// The text that the bytes of a file hold in `format`, if they hold any.
pub open spec fn unpacked(format: Format, bytes: Seq<u8>) -> Option<Seq<u8>> {
    match format {
        Format::Json => Some(bytes),
        Format::Gzip => gzip_payload(bytes),
    }
}

impl Format {
    /// What a load makes of the end of unpacking: the text that came out,
    /// or the report of a damaged stream.
    pub fn unpack_result(unpacked: Option<Vec<u8>>) -> (r: Result<Vec<u8>, LoadError>)
        ensures
            r == match unpacked {
                Some(text) => Ok::<Vec<u8>, LoadError>(text),
                None => Err::<Vec<u8>, LoadError>(LoadError::Corrupt),
            },
    {
        match unpacked {
            Some(text) => Ok(text),
            None => Err(LoadError::Corrupt),
        }
    }

    /// What a save makes of the end of packing: the bytes for the file, or
    /// the report that there are none.
    pub fn pack_result(packed: Option<Vec<u8>>) -> (r: Result<Vec<u8>, SaveError>)
        ensures
            r == match packed {
                Some(bytes) => Ok::<Vec<u8>, SaveError>(bytes),
                None => Err::<Vec<u8>, SaveError>(SaveError::Unencodable),
            },
    {
        match packed {
            Some(bytes) => Ok(bytes),
            None => Err(SaveError::Unencodable),
        }
    }

    /// The text that the bytes of a file hold in this format. Plain text is
    /// the bytes themselves; a gzip stream is unpacked, and reported as
    /// corrupt if that fails.
    pub fn unpack(self, bytes: Vec<u8>) -> (r: Result<Vec<u8>, LoadError>)
        ensures
            match unpacked(self, bytes@) {
                Some(text) => r matches Ok(found) && found@ == text,
                None => r == Err::<Vec<u8>, LoadError>(LoadError::Corrupt),
            },
    {
        match self {
            Format::Json => Ok(bytes),
            Format::Gzip => Format::unpack_result(gzip_decode(bytes.as_slice())),
        }
    }

    /// The bytes of a file that holds `text` in this format. Whatever comes
    /// out unpacks to `text` again. Plain text always comes out, as it is;
    /// packing into a gzip stream can fail, with nothing to write.
    pub fn pack(self, text: Vec<u8>) -> (r: Result<Vec<u8>, SaveError>)
        ensures
            self == Format::Json ==> r == Ok::<Vec<u8>, SaveError>(text),
            r matches Ok(bytes) ==> unpacked(self, bytes@) == Some(text@),
            r matches Err(error) ==> error == SaveError::Unencodable,
    {
        match self {
            Format::Json => Ok(text),
            Format::Gzip => Format::pack_result(gzip_encode(text.as_slice())),
        }
    }
}

/// What stands against taking in `exam` as read from `source`, if
/// anything does: a source that no save could write to, because its name
/// is not that of an exam file; an object that holds one key twice; an
/// answer that names an option its question does not have.
pub open spec fn refusal(exam: ExamView, source: PathEntryView) -> Option<LoadError> {
    if format_of(source.file_name) is None {
        Some(LoadError::NotAnExamFile)
    } else if !exam.keys_distinct() {
        Some(LoadError::Malformed)
    } else if !exam.answers_in_range() {
        Some(LoadError::AnswerOutOfRange)
    } else {
        None
    }
}

/// What stands against taking in `exam` as read from `source`.
pub fn find_refusal(exam: &Exam, source: &PathEntry) -> (r: Option<LoadError>)
    ensures
        r == refusal(exam@, source@),
{
    if Format::of_name(source.file_name.as_str()).is_none() {
        Some(LoadError::NotAnExamFile)
    } else if !exam.keys_distinct() {
        Some(LoadError::Malformed)
    } else if !exam.answers_in_range() {
        Some(LoadError::AnswerOutOfRange)
    } else {
        None
    }
}

/// The event that ends a load. A load that failed before its text could
/// be parsed ends with that failure. Text that is no exam ends it as
/// malformed. An exam ends it as loaded, unless something stands against
/// taking it in.
pub open spec fn load_completed(
    task: LoadTask,
    outcome: Result<Option<Exam>, LoadError>,
) -> Messages {
    match outcome {
        Ok(Some(exam)) => match refusal(exam@, task.source@) {
            None => Messages::FileLoaded(exam, task.source),
            Some(error) => Messages::LoadFailed(error),
        },
        Ok(None) => Messages::LoadFailed(LoadError::Malformed),
        Err(error) => Messages::LoadFailed(error),
    }
}

/// The event that ends a save. A save that failed before anything could
/// be written ends with that failure. One whose bytes did not reach the
/// file ends as unwritable. One whose bytes did ends with the word that
/// nothing is unsaved.
pub open spec fn save_completed(outcome: Result<bool, SaveError>) -> Messages {
    match outcome {
        Ok(true) => Messages::UnsavedChanges(false),
        Ok(false) => Messages::SaveFailed(SaveError::Unwritable),
        Err(error) => Messages::SaveFailed(error),
    }
}

impl LoadTask {
    /// What the load makes of the read of its file: the text to parse, or
    /// the report of a file that could not be read or unpacked.
    pub fn unpack(&self, read: Option<Vec<u8>>) -> (r: Result<Vec<u8>, LoadError>)
        ensures
            match read {
                Some(bytes) => match unpacked(self.format, bytes@) {
                    Some(text) => r matches Ok(found) && found@ == text,
                    None => r == Err::<Vec<u8>, LoadError>(LoadError::Corrupt),
                },
                None => r == Err::<Vec<u8>, LoadError>(LoadError::Unreadable),
            },
    {
        match read {
            Some(bytes) => self.format.unpack(bytes),
            None => Err(LoadError::Unreadable),
        }
    }

    /// The event that ends the load, given how far it got: the failure to
    /// read or unpack, or what parsing the text gave.
    pub fn completed(self, outcome: Result<Option<Exam>, LoadError>) -> (event: Messages)
        ensures
            event == load_completed(self, outcome),
    {
        match outcome {
            Ok(Some(exam)) => match find_refusal(&exam, &self.source) {
                None => Messages::FileLoaded(exam, self.source),
                Some(error) => Messages::LoadFailed(error),
            },
            Ok(None) => Messages::LoadFailed(LoadError::Malformed),
            Err(error) => Messages::LoadFailed(error),
        }
    }
}

impl SaveTask {
    /// What the save makes of the text of its exam: the bytes to write,
    /// which unpack to that text, or the report that there are none.
    pub fn pack(&self, text: Option<Vec<u8>>) -> (r: Result<Vec<u8>, SaveError>)
        ensures
            text is None ==> r == Err::<Vec<u8>, SaveError>(SaveError::Unencodable),
            text is Some && self.format == Format::Json ==> r == Ok::<Vec<u8>, SaveError>(
                text->0,
            ),
            r matches Ok(bytes) ==> text is Some && unpacked(self.format, bytes@) == Some(
                text->0@,
            ),
            r matches Err(error) ==> error == SaveError::Unencodable,
    {
        match text {
            Some(text) => self.format.pack(text),
            None => Err(SaveError::Unencodable),
        }
    }

    /// The event that ends the save, given how far it got: the failure to
    /// pack, or whether the bytes reached the file.
    pub fn completed(&self, outcome: Result<bool, SaveError>) -> (event: Messages)
        ensures
            event == save_completed(outcome),
    {
        match outcome {
            Ok(true) => Messages::UnsavedChanges(false),
            Ok(false) => Messages::SaveFailed(SaveError::Unwritable),
            Err(error) => Messages::SaveFailed(error),
        }
    }
}

} // verus!
