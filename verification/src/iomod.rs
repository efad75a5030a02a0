//! Paths as text, and the colours of what is shown on a terminal.

use vstd::prelude::*;
use vstd::string::*;

verus! {

// ANSI escape codes
pub const RESET: &'static str = "\x1b[m";

pub const RED: &'static str = "\x1b[91m";  // error

pub const BLUE: &'static str = "\x1b[94m";  // options

pub const CYAN: &'static str = "\x1b[96m";  // information

/// A path in the form that separates its components by `/` only.
pub open spec fn unix_form(path: Seq<char>) -> Seq<char> {
    path.map_values(
        |c: char|
            if c == '\\' {
                '/'
            } else {
                c
            },
    )
}

/// `text` wrapped in a colour: the colour's escape code, the text, and the
/// code that ends every colour.
pub open spec fn painted(color: Seq<char>, text: Seq<char>) -> Seq<char> {
    color + text + RESET@
}

/// What `{:?}` shows of a string: the string in double quotes, with the
/// characters escaped that cannot stand for themselves.
pub uninterp spec fn debug_form(text: Seq<char>) -> Seq<char>;

/// `str::replace` with a pattern of one character: every occurrence of
/// `from` becomes `to`, every other character stays.
#[verifier::external_body]
fn replace_char(text: &str, from: char, to: char) -> (out: String)
    ensures
        out@ == text@.map_values(
            |c: char|
                if c == from {
                    to
                } else {
                    c
                },
        ),
{
    text.replace(from, to.encode_utf8(&mut [0u8; 4]))
}

/// `std::path::Path::file_name`, made text again: the final component of a
/// path, where it has one. A component is never empty and is a part of the
/// path; the empty path has none. Where one component ends and the next
/// begins depends on the platform.
#[verifier::external_body]
fn final_component(path: &str) -> (name: Option<String>)
    ensures
        path@.len() == 0 ==> name is None,
        name matches Some(n) ==> n@.len() > 0 && is_part_of(n@, path@),
{
    match std::path::Path::new(path).file_name() {
        Some(name) => Some(name.to_string_lossy().to_string()),
        None => None,
    }
}

/// The `Debug` form of a string, as `format!` writes it for `{:?}`.
#[verifier::external_body]
fn debug_text(text: &str) -> (out: String)
    ensures
        out@ == debug_form(text@),
{
    format!("{:?}", text)
}

/// `part` stands somewhere in `whole`, unbroken.
pub open spec fn is_part_of(part: Seq<char>, whole: Seq<char>) -> bool {
    exists|i: int|
        0 <= i && i + part.len() <= whole.len() && #[trigger] whole.subrange(i, i + part.len())
            == part
}

/// A path as an owned string.
pub fn path_to_string(path: &str) -> (s: String)
    ensures
        s@ == path@,
{
    path.to_owned()
}

/// A path with every `\` turned into `/`.
pub fn path_to_unix(path: &str) -> (s: String)
    ensures
        s@ == unix_form(path@),
        s@.len() == path@.len(),
{
    let s = path_to_string(path);
    replace_char(s.as_str(), '\\', '/')
}

/// The final component of a path, or `None` where it has none, as the
/// empty path, the root and a path that ends in `..`.
pub fn get_filename(path: &str) -> (name: Option<String>)
    ensures
        path@.len() == 0 ==> name is None,
        name matches Some(n) ==> n@.len() > 0 && is_part_of(n@, path@),
{
    final_component(path)
}

// Wraps a message in a colour.
fn paint(color: &str, msg: &str) -> (s: String)
    ensures
        s@ == painted(color@, msg@),
{
    let mut s = color.to_owned();
    s.append(msg);
    s.append(RESET);
    s
}

/// A message in the colour of errors.
pub fn red(msg: &str) -> (s: String)
    ensures
        s@ == painted(RED@, msg@),
{
    paint(RED, msg)
}

/// A message in the colour of options.
pub fn blue(msg: &str) -> (s: String)
    ensures
        s@ == painted(BLUE@, msg@),
{
    paint(BLUE, msg)
}

/// A message in the colour of information.
pub fn cyan(msg: &str) -> (s: String)
    ensures
        s@ == painted(CYAN@, msg@),
{
    paint(CYAN, msg)
}

/// The message of a failure, given the file as it is to be shown: the
/// operation that failed, in red; the file; and the cause, in red.
pub open spec fn error_form(msg: Seq<char>, shown: Seq<char>, e: Seq<char>) -> Seq<char> {
    painted(RED@, msg) + seq![':', ' '] + shown + seq![' '] + painted(RED@, e)
}

/// The message of a failure: the operation that failed, in red; the file it
/// failed on, quoted; and the cause, in red.
pub fn error(msg: &str, file: &str, e: &str) -> (s: String)
    ensures
        s@ == error_form(msg@, debug_form(file@), e@),
{
    error_of(msg, debug_text(file).as_str(), e)
}

/// The message of a failure, given the file as it is to be shown.
pub fn error_of(msg: &str, shown: &str, e: &str) -> (s: String)
    ensures
        s@ == error_form(msg@, shown@, e@),
{
    let mut s = red(msg);
    proof {
        reveal_strlit(": ");
        reveal_strlit(" ");
        assert(": "@ =~= seq![':', ' ']);
        assert(" "@ =~= seq![' ']);
    }
    s.append(": ");
    s.append(shown);
    s.append(" ");
    s.append(red(e).as_str());
    s
}

/// What counts as white space: what `char::is_whitespace` returns.
pub uninterp spec fn white_space(c: char) -> bool;

/// A text without the white space at its end.
pub open spec fn trimmed(text: Seq<char>) -> Seq<char>
    decreases text.len(),
{
    if text.len() == 0 || !white_space(text.last()) {
        text
    } else {
        trimmed(text.drop_last())
    }
}

/// `str::trim_end`: the text without the white space at its end, where
/// white space is what `char::is_whitespace` takes for it; line ends are
/// among it.
#[verifier::external_body]
fn trim_end(text: &str) -> (out: String)
    ensures
        out@ == trimmed(text@),
        out@.len() > 0 ==> !white_space(out@.last()),
{
    text.trim_end().to_string()
}

/// The state of a file that is read or written line by line.
#[derive(Debug, Clone)]
pub struct FD {
    pub path: String,  // shown where reading or writing fails
    pub buf: String,  // the line read last, or the line to write
    pub line_number: u32,  // lines read or written so far
    pub eof: bool,  // reading has come to the end
}

impl FD {
    /// The line read last, or the line to write.
    pub fn _get_buf(&self) -> (buf: String)
        ensures
            buf == self.buf,
    {
        self.buf.clone()
    }
}

/// The state of a file that was just opened.
pub fn _open(path: &str) -> (fd: FD)
    ensures
        fd.path@ == path@,
        fd.buf@ == Seq::<char>::empty(),
        fd.line_number == 0,
        !fd.eof,
{
    FD { path: path.to_owned(), buf: String::new(), line_number: 0, eof: false }
}

/// What a read brought: nothing once the end was reached before, whatever
/// the caller hands in.
pub open spec fn read_of(fd: FD, line: Seq<char>) -> Seq<char> {
    if fd.eof {
        Seq::empty()
    } else {
        line
    }
}

/// The state of a file after a read, given the line as it is to be kept.
pub open spec fn after_read(fd: FD, line: Seq<char>, kept: String) -> FD {
    FD {
        path: fd.path,
        buf: kept,
        line_number: if read_of(fd, line).len() > 0 {
            (fd.line_number + 1) as u32
        } else {
            fd.line_number
        },
        eof: read_of(fd, line).len() == 0,
    }
}

/// Takes in the line that a read brought, with its line end; a read that
/// brought nothing has come to the end of the file. The line is kept
/// without the white space at its end, and counted.
pub fn _read(fd: FD, line: &str) -> (next: FD)
    requires
        fd.line_number < u32::MAX || fd.eof || line@.len() == 0,
    ensures
        next.buf@ == trimmed(read_of(fd, line@)),
        next == after_read(fd, line@, next.buf),
{
    let nothing = String::new();
    let kept: String = if fd.eof {
        trim_end(nothing.as_str())
    } else {
        trim_end(line)
    };
    _read_of(fd, line, kept)
}

/// Takes in the line that a read brought, given the line as it is to be
/// kept.
pub fn _read_of(fd: FD, line: &str, kept: String) -> (next: FD)
    requires
        fd.line_number < u32::MAX || fd.eof || line@.len() == 0,
    ensures
        next == after_read(fd, line@, kept),
{
    let mut fd = fd;
    let mut len: usize = 0;
    if !fd.eof {
        len = line.unicode_len();
        if len > 0 {
            fd.line_number += 1;
        }
    }
    fd.buf = kept;
    fd.eof = len == 0;
    fd
}

/// Counts the line to write and returns it with its line end.
pub fn _write(fd: FD) -> (done: (FD, String))
    requires
        fd.line_number < u32::MAX,
    ensures
        done.0.path == fd.path,
        done.0.buf == fd.buf,
        done.0.eof == fd.eof,
        done.0.line_number == fd.line_number + 1,
        done.1@ == fd.buf@.push('\n'),
{
    let mut fd = fd;
    let mut text = fd._get_buf();
    proof {
        reveal_strlit("\n");
        assert(fd.buf@ + "\n"@ =~= fd.buf@.push('\n'));
    }
    text.append("\n");
    fd.line_number += 1;
    (fd, text)
}

} // verus!
