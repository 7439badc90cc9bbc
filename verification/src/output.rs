//! Where a job's output goes and what it is called: the temporary and the
//! final name, the name with and without a checksum stamp, and the test on
//! free disk space.

use crate::model::{MuxSettings, MuxSettingsView};
use crate::text::{
    chars_of, decimal_digits, is_blank, is_blank_str, last_index_of, push_decimal, rfind_char,
    string_of_range, trim, trim_end_matches, trim_end_matches_str, trim_str,
};
use vstd::prelude::*;
use vstd::string::StringExecFns;

verus! {

/// The names under which a job's output is written and kept.
#[derive(Clone, Debug, PartialEq, Eq)]
pub struct OutputNames {
    /// The directory that the output is written to.
    pub directory: String,
    /// The name of the file that the multiplexer writes.
    pub output_name: String,
    /// The name that the finished file gets.
    pub final_name: String,
    /// Whether the output takes the place of the source.
    pub overwrite_mode: bool,
}

/// What the names are, as sequences of characters.
pub struct OutputNamesView {
    pub directory: Seq<char>,
    pub output_name: Seq<char>,
    pub final_name: Seq<char>,
    pub overwrite_mode: bool,
}

impl DeepView for OutputNames {
    type V = OutputNamesView;

    open spec fn deep_view(&self) -> OutputNamesView {
        OutputNamesView {
            directory: self.directory@,
            output_name: self.output_name@,
            final_name: self.final_name@,
            overwrite_mode: self.overwrite_mode,
        }
    }
}

impl View for OutputNames {
    type V = OutputNamesView;

    open spec fn view(&self) -> OutputNamesView {
        self.deep_view()
    }
}

/// Whether the output takes the place of the source: no destination is
/// set, or the settings ask for it.
pub open spec fn overwrite_mode(settings: MuxSettingsView) -> bool {
    is_blank(settings.destination_dir) || settings.overwrite_source
}

/// The directory that outputs go to: the destination, or the source's own
/// directory where no destination is set.
pub open spec fn output_directory(source_dir: Seq<char>, settings: MuxSettingsView) -> Seq<char> {
    if is_blank(settings.destination_dir) {
        source_dir
    } else {
        settings.destination_dir
    }
}

/// The name of the finished file.
pub open spec fn final_name(stem: Seq<char>) -> Seq<char> {
    stem + ".mkv"@
}

/// The name under which the output is written while the source is still in
/// place: the stem, `#`, and the time in seconds.
pub open spec fn temporary_name(stem: Seq<char>, now_secs: u64) -> Seq<char> {
    stem + "#"@ + decimal_digits(now_secs as nat) + ".mkv"@
}

/// The names for a job whose source lies in `source_dir` and has the stem
/// `stem`, at the time `now_secs`.
pub open spec fn output_names(
    source_dir: Seq<char>,
    stem: Seq<char>,
    settings: MuxSettingsView,
    now_secs: u64,
) -> OutputNamesView {
    OutputNamesView {
        directory: output_directory(source_dir, settings),
        output_name: if overwrite_mode(settings) {
            temporary_name(stem, now_secs)
        } else {
            final_name(stem)
        },
        final_name: final_name(stem),
        overwrite_mode: overwrite_mode(settings),
    }
}

/// The directory that the outputs of a job go to.
pub fn output_dir(source_dir: &str, settings: &MuxSettings) -> (out: String)
    ensures
        out@ == output_directory(source_dir@, settings@),
{
    if is_blank_str(settings.destination_dir.as_str()) {
        String::from_str(source_dir)
    } else {
        settings.destination_dir.clone()
    }
}

/// The names under which a job's output is written and kept.
pub fn get_output_paths(source_dir: &str, file_stem: &str, settings: &MuxSettings, now_secs: u64) -> (out:
    OutputNames)
    ensures
        out@ == output_names(source_dir@, file_stem@, settings@, now_secs),
{
    let overwrite = is_blank_str(settings.destination_dir.as_str()) || settings.overwrite_source;
    let mut last = String::from_str(file_stem);
    last.append(".mkv");
    let output_name = if overwrite {
        let mut name = String::from_str(file_stem);
        name.append("#");
        push_decimal(&mut name, now_secs as u128);
        name.append(".mkv");
        name
    } else {
        last.clone()
    };
    OutputNames {
        directory: output_dir(source_dir, settings),
        output_name,
        final_name: last,
        overwrite_mode: overwrite,
    }
}

/// A file name with the checksum stamp `crc` in brackets before the
/// extension.
pub open spec fn name_with_crc(file_name: Seq<char>, crc: Seq<char>) -> Seq<char> {
    trim_end_matches(file_name, ".mkv"@) + " ["@ + crc + "].mkv"@
}

/// A file name without a bracketed stamp at its end. The stem is the name
/// without its extension. Where the stem ends in `]`, it is cut before its
/// last `[` and trimmed; a bracket anywhere else stays. The extension is put
/// back.
pub open spec fn name_without_crc(file_name: Seq<char>) -> Seq<char> {
    let stem = trim_end_matches(file_name, ".mkv"@);
    (match last_index_of(stem, '[') {
        Some(i) => if stem.last() == ']' {
            trim(stem.take(i))
        } else {
            stem
        },
        None => stem,
    }) + ".mkv"@
}

/// The file name with the checksum stamp `crc` in brackets before the
/// extension.
pub fn file_name_with_crc(file_name: &str, crc: &str) -> (out: String)
    ensures
        out@ == name_with_crc(file_name@, crc@),
{
    let mut out = trim_end_matches_str(file_name, ".mkv");
    out.append(" [");
    out.append(crc);
    out.append("].mkv");
    out
}

/// The file name without a bracketed stamp at its end.
pub fn file_name_without_crc(file_name: &str) -> (out: String)
    ensures
        out@ == name_without_crc(file_name@),
{
    let stem = trim_end_matches_str(file_name, ".mkv");
    let chars = chars_of(stem.as_str());
    let mut out = match rfind_char(&chars, '[') {
        Some(i) => {
            if chars[chars.len() - 1] == ']' {
                let head = string_of_range(&chars, 0, i);
                assert(chars@.subrange(0, i as int) == chars@.take(i as int));
                trim_str(head.as_str())
            } else {
                stem
            }
        },
        None => stem,
    };
    out.append(".mkv");
    out
}

/// What the free-space test says where there is too little room.
pub open spec fn space_message(required_bytes: u64) -> Seq<char> {
    "Not enough free space. Required: "@ + decimal_digits(required_bytes as nat) + " bytes"@
}

/// Tests whether `available` bytes are enough for `required_bytes`: they
/// are unless there are fewer.
pub fn check_free_space(available: u64, required_bytes: u64) -> (r: Result<(), String>)
    ensures
        r is Ok <==> available >= required_bytes,
        r matches Err(message) ==> message@ == space_message(required_bytes),
{
    if available < required_bytes {
        let mut message = String::from_str("Not enough free space. Required: ");
        push_decimal(&mut message, required_bytes as u128);
        message.append(" bytes");
        return Err(message);
    }
    Ok(())
}

} // verus!
