//! Listings and file transfer through the interpreter: the small programs
//! that the device runs, and what their output means.

use vstd::prelude::*;
use vstd::string::StringExecFns;
use crate::base64::{
    base64_decode,
    base64_encode,
    decode,
    encode,
    lemma_decode_encode,
    lemma_encoding_alphabet,
    lemma_padding,
};
use crate::error::{Error, ErrorView};
use crate::search::{contains, occurs_at};
use crate::text::{
    chars_of,
    has_prefix,
    lines,
    rows,
    split_lines,
    string_of,
    text_contains,
    text_starts_with,
    texts,
    to_strings,
    trim,
    trim_end,
    trim_start,
    trimmed,
};

verus! {

/// The content size, in bytes, above which an upload through the interpreter
/// is announced as large. The upload itself is the same at every size.
pub const LARGE_UPLOAD: usize = 10000;

/// The lines of a text, each without the white space around it.
pub open spec fn trimmed_lines(text: Seq<char>) -> Seq<Seq<char>> {
    lines(text).map_values(|line: Seq<char>| trimmed(line))
}

/// Which lines of an output count.
#[derive(Clone, Copy, Debug, PartialEq, Eq, Structural)]
pub enum LineRule {
    /// Names of a listing made by the interpreter: every line that is not
    /// empty and does not begin with `Error:`.
    Names,
    /// Names of a listing made by the shell: every line that is not empty
    /// and holds no prompt `$:`.
    ShellNames,
}

impl LineRule {
    /// The rule keeps the line.
    pub open spec fn keeps(self, line: Seq<char>) -> bool {
        line.len() > 0 && match self {
            LineRule::Names => !has_prefix(line, "Error:"@),
            LineRule::ShellNames => !contains(line, "$:"@),
        }
    }

    /// Whether the rule keeps the line.
    pub fn keeps_line(&self, line: &[char]) -> (r: bool)
        ensures
            r == self.keeps(line@),
    {
        if line.len() == 0 {
            return false;
        }
        match self {
            LineRule::Names => !text_starts_with(line, "Error:"),
            LineRule::ShellNames => !text_contains(line, "$:"),
        }
    }
}

/// The trimmed lines of a text that a rule keeps, in order.
pub open spec fn selected(text: Seq<char>, rule: LineRule) -> Seq<Seq<char>> {
    trimmed_lines(text).filter(|line: Seq<char>| rule.keeps(line))
}

/// The trimmed lines of a text that a rule keeps, in order.
pub fn select_lines(text: &str, rule: LineRule) -> (r: Vec<Vec<char>>)
    ensures
        rows(r@) == selected(text@, rule),
{
    let chars = chars_of(text);
    let all = split_lines(chars.as_slice());
    let ghost src = trimmed_lines(text@);
    let ghost keep = |line: Seq<char>| rule.keeps(line);
    let mut r: Vec<Vec<char>> = Vec::new();
    let mut i: usize = 0;
    proof {
        reveal(Seq::filter);
        assert(src.take(0).filter(keep) =~= Seq::<Seq<char>>::empty());
        assert(rows(r@) =~= Seq::<Seq<char>>::empty());
    }
    while i < all.len()
        invariant
            i <= all.len(),
            rows(all@) == lines(text@),
            src == trimmed_lines(text@),
            keep == |line: Seq<char>| rule.keeps(line),
            rows(r@) == src.take(i as int).filter(keep),
        decreases all.len() - i,
    {
        let ghost before = rows(r@);
        let line = trim(all[i].as_slice());
        proof {
            assert(rows(all@)[i as int] == all@[i as int]@);
            assert(src[i as int] == line@);
            assert(src.take(i + 1) =~= src.take(i as int).push(line@));
            src.take(i as int).lemma_filter_push(line@, keep);
        }
        if rule.keeps_line(line.as_slice()) {
            r.push(line);
            proof {
                assert(rows(r@) =~= before.push(line@));
            }
        }
        i += 1;
    }
    proof {
        assert(src.take(src.len() as int) =~= src);
    }
    r
}

/// The program that prints the names in a directory, one to a line.
pub open spec fn listing_program(path: Seq<char>) -> Seq<char> {
    "import os\ntry:\n    files = os.listdir(\""@ + path
        + "\")\n    for f in files:\n        print(f)\nexcept OSError as e:\n    print(\"Error:\", e)"@
}

/// The program that prints the names in the directory `path`.
pub fn list_files_program(path: &str) -> (r: String)
    ensures
        r@ == listing_program(path@),
{
    let mut r = "import os\ntry:\n    files = os.listdir(\"".to_owned();
    r.append(path);
    r.append("\")\n    for f in files:\n        print(f)\nexcept OSError as e:\n    print(\"Error:\", e)");
    r
}

/// The names that the output of the listing program holds.
pub fn list_files_entries(output: &str) -> (r: Vec<String>)
    ensures
        texts(r@) == selected(output@, LineRule::Names),
{
    let table = select_lines(output, LineRule::Names);
    to_strings(&table)
}

/// The program that writes content to a file. It holds the whole encoded
/// content, however long it is.
pub open spec fn upload_program(encoded: Seq<char>, path: Seq<char>) -> Seq<char> {
    "import ubinascii\ndata = ubinascii.a2b_base64('"@ + encoded + "')\nwith open('"@ + path
        + "', 'wb') as f:\n    f.write(data)\nprint('OK')"@
}

/// The program that writes `content` to the file `path` on the device: one
/// program with the whole encoded content in it, whatever the size.
pub fn put_file_program(content: &[u8], path: &str) -> (r: String)
    ensures
        r@ == upload_program(encode(content@), path@),
{
    let encoded = base64_encode(content);
    let mut r = "import ubinascii\ndata = ubinascii.a2b_base64('".to_owned();
    r.append(encoded.as_str());
    r.append("')\nwith open('");
    r.append(path);
    r.append("', 'wb') as f:\n    f.write(data)\nprint('OK')");
    r
}

/// An upload is one payload at every size: the program holds the whole
/// encoding of the content in one piece, right after its opening text, and
/// that piece decodes to the content.
pub proof fn lemma_upload_is_one_payload(content: Seq<u8>, path: Seq<char>)
    ensures
        occurs_at(
            upload_program(encode(content), path),
            encode(content),
            "import ubinascii\ndata = ubinascii.a2b_base64('"@.len() as int,
        ),
        decode(encode(content)) == content,
{
    lemma_decode_encode(content);
    let head = "import ubinascii\ndata = ubinascii.a2b_base64('"@;
    let whole = upload_program(encode(content), path);
    let from = head.len() as int;
    assert(whole.subrange(from, from + encode(content).len()) =~= encode(content));
}

/// Whether an upload of this many bytes is announced as large.
pub fn is_large_upload(size: usize) -> (r: bool)
    ensures
        r == (size > LARGE_UPLOAD),
{
    size > LARGE_UPLOAD
}

/// The output of the upload program says that the file was written: it
/// holds the success token `OK`.
pub open spec fn upload_accepted(output: Seq<char>) -> bool {
    contains(output, "OK"@)
}

/// What the output of the upload program means: success, or the device's
/// own error with the output as its text.
pub fn put_file_result(output: &str) -> (r: Result<(), Error>)
    ensures
        match r {
            Ok(_) => upload_accepted(output@),
            Err(e) => !upload_accepted(output@) && e@ == ErrorView::Remote(output@),
        },
{
    let chars = chars_of(output);
    if text_contains(chars.as_slice(), "OK") {
        Ok(())
    } else {
        Err(Error::Remote(string_of(chars.as_slice())))
    }
}

/// The program that prints the encoded content of a file.
pub open spec fn download_program(path: Seq<char>) -> Seq<char> {
    "import ubinascii\ntry:\n    with open('"@ + path
        + "', 'rb') as f:\n        data = f.read()\n        print(ubinascii.b2a_base64(data).decode().strip())\nexcept OSError as e:\n    print('Error:', e)"@
}

/// The program that prints the encoded content of the file `path`.
pub fn get_file_program(path: &str) -> (r: String)
    ensures
        r@ == download_program(path@),
{
    let mut r = "import ubinascii\ntry:\n    with open('".to_owned();
    r.append(path);
    r.append(
        "', 'rb') as f:\n        data = f.read()\n        print(ubinascii.b2a_base64(data).decode().strip())\nexcept OSError as e:\n    print('Error:', e)",
    );
    r
}

/// What the output of the download program means: the device's own error,
/// with the output as its text, if the output holds `Error:`; no content,
/// if the output is nothing but white space; else the bytes that the output
/// decodes to, whatever characters it holds.
pub open spec fn download_result(output: Seq<char>) -> Result<Seq<u8>, ErrorView> {
    if contains(output, "Error:"@) {
        Err(ErrorView::Remote(output))
    } else if trimmed(output).len() == 0 {
        Err(ErrorView::NoContent)
    } else {
        Ok(decode(output))
    }
}

/// What the output of the download program means.
pub fn get_file_content(output: &str) -> (r: Result<Vec<u8>, Error>)
    ensures
        match r {
            Ok(content) => download_result(output@) == Ok::<Seq<u8>, ErrorView>(content@),
            Err(e) => download_result(output@) == Err::<Seq<u8>, ErrorView>(e@),
        },
{
    let chars = chars_of(output);
    if text_contains(chars.as_slice(), "Error:") {
        return Err(Error::Remote(string_of(chars.as_slice())));
    }
    let cut = trim(chars.as_slice());
    if cut.len() == 0 {
        return Err(Error::NoContent);
    }
    Ok(base64_decode(output))
}

/// A download gives back what the device holds: where the output of the
/// download program is the encoding of a content that is not empty, the
/// result is that content, whatever characters of the alphabet the encoding
/// is made of.
pub proof fn lemma_download_gives_back(content: Seq<u8>)
    requires
        content.len() > 0,
    ensures
        download_result(encode(content)) == Ok::<Seq<u8>, ErrorView>(content),
{
    let printed = encode(content);
    lemma_decode_encode(content);
    assert(!contains(printed, "Error:"@)) by {
        reveal_strlit("Error:");
        if contains(printed, "Error:"@) {
            let i = choose|i: int| occurs_at(printed, "Error:"@, i);
            assert(printed.subrange(i, i + 6)[5] == ':');
            lemma_encoding_alphabet(content, i + 5);
        }
    }
    lemma_encoding_alphabet(content, 0);
    lemma_encoding_alphabet(content, printed.len() - 1);
    lemma_padding(content);
    assert(trim_start(printed) == printed);
    assert(trim_end(printed) == printed);
}

} // verus!
