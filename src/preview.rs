use vstd::prelude::*;
use vstd::string::{StrSliceExecFns, StringExecFns};
use vstd::utf8::encode_utf8;

verus! {

/// The longest preview, in characters, shown without truncation.
pub const PREVIEW_LIMIT: usize = 10000;

/// The decimal digit that stands for `d`.
pub open spec fn digit_char(d: nat) -> char {
    if d == 0 { '0' }
    else if d == 1 { '1' }
    else if d == 2 { '2' }
    else if d == 3 { '3' }
    else if d == 4 { '4' }
    else if d == 5 { '5' }
    else if d == 6 { '6' }
    else if d == 7 { '7' }
    else if d == 8 { '8' }
    else { '9' }
}

/// The decimal digits of `n`, most significant first, with no leading zero.
pub open spec fn decimal(n: nat) -> Seq<char>
    decreases n,
{
    if n < 10 {
        seq![digit_char(n)]
    } else {
        decimal(n / 10).push(digit_char(n % 10))
    }
}

/// Relies on `usize`'s `Display`, through `to_string`: plain decimal digits.
#[verifier::external_body]
pub(crate) fn decimal_text(n: usize) -> (r: String)
    ensures
        r@ == decimal(n as nat),
{
    n.to_string()
}

/// What the preview pane shows when the catalog is empty.
pub open spec fn no_files_text() -> Seq<char> {
    "no files available"@
}

/// What the preview pane shows for a file with no content.
pub open spec fn empty_file_text() -> Seq<char> {
    "<empty file>"@
}

/// The notice that follows a truncated preview, naming the file's length in
/// bytes.
pub open spec fn truncation_notice(bytes: nat) -> Seq<char> {
    "\n\n... (truncated, file is "@ + decimal(bytes) + " bytes)"@
}

/// The length in bytes of a text's UTF-8 encoding, as `str::len` gives it.
pub open spec fn utf8_len(s: Seq<char>) -> usize {
    encode_utf8(s).len() as usize
}

/// The preview of a file whose text was read.
pub open spec fn preview_of_content(content: Seq<char>) -> Seq<char> {
    if content.len() == 0 {
        empty_file_text()
    } else if content.len() > PREVIEW_LIMIT {
        content.subrange(0, PREVIEW_LIMIT as int) + truncation_notice(utf8_len(content) as nat)
    } else {
        content
    }
}

/// The preview of a file that could not be read, given the error's
/// description.
pub open spec fn preview_of_error(error: Seq<char>) -> Seq<char> {
    "Error reading file: "@ + error
}

/// The preview for the outcome of reading a file as text.
pub open spec fn preview_of(read: Result<String, String>) -> Seq<char> {
    match read {
        Ok(content) => preview_of_content(content@),
        Err(error) => preview_of_error(error@),
    }
}

/// The text shown for the outcome of reading a file: the content, a note
/// for an empty file, the first characters of a long one with a notice, or
/// the error's description.
pub fn preview_text(read: Result<String, String>) -> (r: String)
    ensures
        r@ == preview_of(read),
{
    match read {
        Ok(content) => {
            let s = content.as_str();
            let chars = s.unicode_len();
            if chars == 0 {
                String::from_str("<empty file>")
            } else if chars > PREVIEW_LIMIT {
                let mut r = String::from_str(s.substring_char(0, PREVIEW_LIMIT));
                r.append("\n\n... (truncated, file is ");
                let bytes = decimal_text(s.len());
                r.append(bytes.as_str());
                r.append(" bytes)");
                proof {
                    assert(r@ =~= preview_of_content(content@));
                }
                r
            } else {
                content
            }
        },
        Err(error) => {
            let mut r = String::from_str("Error reading file: ");
            r.append(error.as_str());
            r
        },
    }
}

} // verus!
