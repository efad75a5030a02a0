use treemirror::iomod::blue;
use treemirror::iomod::cyan;
use treemirror::iomod::error;
use treemirror::iomod::get_filename;
use treemirror::iomod::path_to_string;
use treemirror::iomod::path_to_unix;
use treemirror::iomod::red;

const _TEST: &str = "../foo/var";

#[test]
fn path_test() {
    let path: &str = _TEST;
    let sp: String = path_to_string(path);
    assert_eq!(_TEST, sp);
    println!("ok, Path-->String: {}", sp);
}

#[test]
fn unix_form_turns_every_backslash() {
    assert_eq!("c:/a/b/c.txt", path_to_unix(r"c:\a\b/c.txt"));
    assert_eq!("//?/D:/foo", path_to_unix(r"\\?\D:\foo"));
    assert_eq!("plain", path_to_unix("plain"));
    assert_eq!("", path_to_unix(""));
}

#[test]
fn unix_form_keeps_other_characters() {
    assert_eq!("日本/語 x", path_to_unix("日本\\語 x"));
}

#[test]
fn filename_is_the_final_component() {
    assert_eq!(Some("var".to_string()), get_filename("../foo/var"));
    assert_eq!(Some("bin".to_string()), get_filename("/usr/bin/"));
    assert_eq!(Some("a.txt".to_string()), get_filename("a.txt"));
}

#[test]
fn filename_of_a_path_without_one() {
    assert_eq!(None, get_filename(""));
    assert_eq!(None, get_filename("/"));
    assert_eq!(None, get_filename("foo/.."));
}

#[test]
fn colours_wrap_the_message() {
    assert_eq!("\x1b[91mboom\x1b[m", red("boom"));
    assert_eq!("\x1b[94mMode\x1b[m", blue("Mode"));
    assert_eq!("\x1b[96m0:0:01.123 1/2\x1b[m", cyan("0:0:01.123 1/2"));
    assert_eq!("\x1b[91m\x1b[m", red(""));
}

#[test]
fn error_names_operation_file_and_cause() {
    assert_eq!(
        "\x1b[91mmkdir\x1b[m: \"Z:/foo\" \x1b[91mnot found\x1b[m",
        error("mkdir", "Z:/foo", "not found")
    );
}

#[test]
fn error_quotes_the_file_as_debug_does() {
    assert_eq!(
        "\x1b[91mcopy\x1b[m: \"a\\\\b\\\"c\" \x1b[91me\x1b[m",
        error("copy", "a\\b\"c", "e")
    );
}

#[test]
fn opened_file_has_read_nothing() {
    let fd = treemirror::iomod::_open("SAMPLE.html");
    assert_eq!("SAMPLE.html", fd.path);
    assert_eq!("", fd.buf);
    assert_eq!(0, fd.line_number);
    assert!(!fd.eof);
    assert_eq!("", fd._get_buf());
}

#[test]
fn read_keeps_the_line_without_its_end() {
    let fd = treemirror::iomod::_open("f");
    let fd = treemirror::iomod::_read(fd, "first line \t\r\n");
    assert_eq!("first line", fd._get_buf());
    assert_eq!(1, fd.line_number);
    assert!(!fd.eof);
    let fd = treemirror::iomod::_read(fd, "\n");
    assert_eq!("", fd.buf);
    assert_eq!(2, fd.line_number);
    assert!(!fd.eof);
    let fd = treemirror::iomod::_read(fd, "  last");
    assert_eq!("  last", fd.buf);
    assert_eq!(3, fd.line_number);
    assert_eq!("f", fd.path);
}

#[test]
fn read_of_nothing_is_the_end() {
    let fd = treemirror::iomod::_open("f");
    let fd = treemirror::iomod::_read(fd, "a\n");
    let fd = treemirror::iomod::_read(fd, "");
    assert!(fd.eof);
    assert_eq!("", fd.buf);
    assert_eq!(1, fd.line_number);
    let fd = treemirror::iomod::_read(fd, "ignored\n");
    assert!(fd.eof);
    assert_eq!("", fd.buf);
    assert_eq!(1, fd.line_number);
}

#[test]
fn write_counts_the_line_and_ends_it() {
    let mut fd = treemirror::iomod::_open("out");
    fd.buf = "hello".to_string();
    let (fd, text) = treemirror::iomod::_write(fd);
    assert_eq!("hello\n", text);
    assert_eq!(1, fd.line_number);
    assert_eq!("hello", fd.buf);
    let (fd, text) = treemirror::iomod::_write(fd);
    assert_eq!("hello\n", text);
    assert_eq!(2, fd.line_number);
    assert_eq!("out", fd.path);
}

#[test]
fn error_with_the_file_as_given() {
    assert_eq!(
        "\x1b[91mrmdir\x1b[m: <dir> \x1b[91mbusy\x1b[m",
        treemirror::iomod::error_of("rmdir", "<dir>", "busy")
    );
}

#[test]
fn read_with_the_line_as_kept() {
    let fd = treemirror::iomod::_open("f");
    let fd = treemirror::iomod::_read_of(fd, "abc \n", "kept".to_string());
    assert_eq!("kept", fd.buf);
    assert_eq!(1, fd.line_number);
    assert!(!fd.eof);
    let fd = treemirror::iomod::_read_of(fd, "", "x".to_string());
    assert_eq!("x", fd.buf);
    assert_eq!(1, fd.line_number);
    assert!(fd.eof);
}
