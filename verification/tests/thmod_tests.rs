use treemirror::files::DD;
use treemirror::files::DO;
use treemirror::files::_COPY;
use treemirror::files::_STD;
use treemirror::pattern::Patterns;
use treemirror::thmod::elapsed_time;
use treemirror::thmod::get;
use treemirror::thmod::initialize;
use treemirror::thmod::is_done;
use treemirror::thmod::outstanding_count;
use treemirror::thmod::pack_path;
use treemirror::thmod::progress;
use treemirror::thmod::progress_fin;
use treemirror::thmod::put;
use treemirror::thmod::sequence_number;
use treemirror::thmod::terminator;

fn item(name: &str) -> DD {
    DD {
        input: format!("in/{}", name),
        output: format!("out/{}", name),
        action: DO,
        cmr_mode: _COPY,
        algorithm: _STD,
    }
}

fn names(run: &mut treemirror::thmod::RunContext, n: usize) -> Vec<String> {
    let mut out = Vec::new();
    for _ in 0..n {
        match get(run) {
            Some(dd) => out.push(dd.input),
            None => out.push("-".to_string()),
        }
    }
    out
}

#[test]
fn fifo_hands_out_in_the_order_of_queueing() {
    let mut run = initialize(true, 8);
    put(&mut run, item("a"));
    put(&mut run, item("b"));
    put(&mut run, item("c"));
    assert_eq!(vec!["in/a", "in/b", "in/c"], names(&mut run, 3));
    assert!(get(&mut run).is_none());
}

#[test]
fn lifo_hands_out_in_reverse() {
    let mut run = initialize(false, 8);
    put(&mut run, item("a"));
    put(&mut run, item("b"));
    put(&mut run, item("c"));
    assert_eq!(vec!["in/c", "in/b", "in/a"], names(&mut run, 3));
    assert!(get(&mut run).is_none());
}

#[test]
fn lifo_reverses_whatever_waited_before() {
    let mut run = initialize(false, 0);
    put(&mut run, item("old"));
    put(&mut run, item("a"));
    put(&mut run, item("b"));
    assert_eq!(vec!["in/b", "in/a"], names(&mut run, 2));
    assert_eq!(vec!["in/old", "-"], names(&mut run, 2));
}

#[test]
fn fifo_interleaved_puts_and_gets() {
    let mut run = initialize(true, 0);
    put(&mut run, item("a"));
    put(&mut run, item("b"));
    assert_eq!(vec!["in/a"], names(&mut run, 1));
    put(&mut run, item("c"));
    assert_eq!(vec!["in/b", "in/c", "-"], names(&mut run, 3));
}

#[test]
fn an_item_keeps_all_its_fields() {
    let mut run = initialize(true, 1);
    put(
        &mut run,
        DD { input: "i".to_string(), output: "o".to_string(), action: 2, cmr_mode: 'r', algorithm: 9 },
    );
    let dd = get(&mut run).unwrap();
    assert_eq!("i", dd.input);
    assert_eq!("o", dd.output);
    assert_eq!(2, dd.action);
    assert_eq!('r', dd.cmr_mode);
    assert_eq!(9, dd.algorithm);
}

#[test]
fn empty_queue_hands_out_nothing() {
    let mut fifo = initialize(true, 2048);
    let mut lifo = initialize(false, 2048);
    assert!(get(&mut fifo).is_none());
    assert!(get(&mut lifo).is_none());
    assert_eq!(0, sequence_number(&fifo));
    assert_eq!(0, outstanding_count(&lifo));
}

#[test]
fn outstanding_is_queued_less_processed() {
    let patterns = Patterns::new().unwrap();
    let mut run = initialize(true, 4);
    for name in ["a", "b", "c", "d", "e"] {
        put(&mut run, item(name));
    }
    assert_eq!(5, sequence_number(&run));
    assert_eq!(5, outstanding_count(&run));
    let _ = get(&mut run);
    assert_eq!(5, outstanding_count(&run));
    progress(&mut run, &patterns, Some((0, 0)), "in/a");
    put(&mut run, item("f"));
    let _ = get(&mut run);
    progress(&mut run, &patterns, Some((0, 0)), "in/b");
    assert_eq!(6, sequence_number(&run));
    assert_eq!(4, outstanding_count(&run));
}

#[test]
fn a_report_without_an_item_shows_as_a_negative_count() {
    let patterns = Patterns::new().unwrap();
    let mut run = initialize(true, 0);
    let line = progress(&mut run, &patterns, Some((0, 0)), "x");
    assert_eq!(-1, outstanding_count(&run));
    assert_eq!("\x1b[96m0:0:00.000 -1/0\x1b[m: x\x1b[K\x1b[1A", line);
}

#[test]
fn done_needs_a_finished_producer_and_nothing_outstanding() {
    let patterns = Patterns::new().unwrap();
    let mut run = initialize(true, 0);
    assert!(!is_done(&run));
    put(&mut run, item("a"));
    assert!(!is_done(&run));
    terminator(&mut run);
    assert!(!is_done(&run));
    let _ = get(&mut run);
    assert!(!is_done(&run));
    progress(&mut run, &patterns, Some((1, 0)), "in/a");
    assert!(is_done(&run));
    terminator(&mut run);
    assert!(is_done(&run));
}

#[test]
fn an_empty_run_is_done_once_the_producer_has_finished() {
    let mut run = initialize(false, 0);
    assert!(!is_done(&run));
    terminator(&mut run);
    assert!(is_done(&run));
}

#[test]
fn elapsed_time_under_a_second_shows_milliseconds() {
    assert_eq!("0:0:00.000", elapsed_time(Some((0, 0))));
    assert_eq!("0:0:00.123", elapsed_time(Some((0, 123_456_789))));
    assert_eq!("0:0:00.001", elapsed_time(Some((0, 1_999_999))));
    assert_eq!("0:0:00.999", elapsed_time(Some((0, 999_999_999))));
}

#[test]
fn elapsed_time_shows_leading_digits_of_all_nanoseconds() {
    assert_eq!("0:0:01.100", elapsed_time(Some((1, 5_000_000))));
    assert_eq!("0:0:59.599", elapsed_time(Some((59, 999_999_999))));
    assert_eq!("1:1:01.366", elapsed_time(Some((3661, 123_000_000))));
    assert_eq!("27:46:39.999", elapsed_time(Some((99_999, 0))));
}

#[test]
fn elapsed_time_of_the_longest_time() {
    assert_eq!("5124095576030431:0:15.184", elapsed_time(Some((u64::MAX, 999_999_999))));
}

#[test]
fn short_paths_are_shown_whole() {
    let patterns = Patterns::new().unwrap();
    assert_eq!("a/b/c.txt", pack_path(&patterns, "a/b/c.txt"));
    assert_eq!("a/b/c.txt", pack_path(&patterns, r"a\b\c.txt"));
    assert_eq!("", pack_path(&patterns, ""));
    let exactly = format!("dir/{}", "x".repeat(60));
    assert_eq!(64, exactly.len());
    assert_eq!(exactly, pack_path(&patterns, &exactly));
}

#[test]
fn long_paths_lose_their_first_segments() {
    let patterns = Patterns::new().unwrap();
    let tail = "x".repeat(60);
    let path = format!("dir1/dir2/dir3/{}", tail);
    assert_eq!(format!("… {}", tail), pack_path(&patterns, &path));
    let path = format!("dir1/dir2/dir3/{}", "y".repeat(54));
    assert_eq!(format!("… dir3/{}", "y".repeat(54)), pack_path(&patterns, &path));
}

#[test]
fn one_byte_over_the_width_is_abbreviated() {
    let patterns = Patterns::new().unwrap();
    let path = format!("dir/{}", "x".repeat(61));
    assert_eq!(65, path.len());
    assert_eq!(format!("… {}", "x".repeat(61)), pack_path(&patterns, &path));
}

#[test]
fn a_long_path_without_segments_stays() {
    let patterns = Patterns::new().unwrap();
    let name = "n".repeat(80);
    assert_eq!(name, pack_path(&patterns, &name));
    let rooted = format!("/{}", "n".repeat(80));
    assert_eq!(rooted, pack_path(&patterns, &rooted));
    let ended = format!("{}/", "n".repeat(80));
    assert_eq!("… ", pack_path(&patterns, &ended));
}

#[test]
fn width_counts_bytes_not_characters() {
    let patterns = Patterns::new().unwrap();
    let path = format!("d/{}", "語".repeat(21));
    assert_eq!(65, path.len());
    assert_eq!(format!("… {}", "語".repeat(21)), pack_path(&patterns, &path));
}

#[test]
fn progress_line_shows_time_counts_and_path() {
    let patterns = Patterns::new().unwrap();
    let mut run = initialize(true, 0);
    put(&mut run, item("a.txt"));
    put(&mut run, item("b.txt"));
    let dd = get(&mut run).unwrap();
    let line = progress(&mut run, &patterns, Some((0, 123_456_789)), &dd.input);
    assert_eq!("\x1b[96m0:0:00.123 1/2\x1b[m: in/a.txt\x1b[K\x1b[1A", line);
    let dd = get(&mut run).unwrap();
    let line = progress(&mut run, &patterns, Some((2, 0)), &dd.input);
    assert_eq!("\x1b[96m0:0:02.200 0/2\x1b[m: in/b.txt\x1b[K\x1b[1A", line);
}

#[test]
fn final_line_shows_counts_and_message() {
    let patterns = Patterns::new().unwrap();
    let mut run = initialize(true, 0);
    put(&mut run, item("a.txt"));
    put(&mut run, item("b.txt"));
    assert_eq!("\x1b[96m0:0:00.005 2/2\x1b[m: Started", progress_fin(&run, Some((0, 5_000_000)), "Started"));
    progress(&mut run, &patterns, Some((0, 0)), "in/a.txt");
    progress(&mut run, &patterns, Some((0, 0)), "in/b.txt");
    assert_eq!("\x1b[96m0:1:15.750 0/2\x1b[m: Finished", progress_fin(&run, Some((75, 0)), "Finished"));
}

#[test]
fn a_clock_before_the_start_shows_no_time() {
    let patterns = Patterns::new().unwrap();
    let mut run = initialize(true, 0);
    put(&mut run, item("a"));
    assert_eq!("", elapsed_time(None));
    assert_eq!("\x1b[96m 1/1\x1b[m: Finished", progress_fin(&run, None, "Finished"));
    assert_eq!("\x1b[96m 0/1\x1b[m: in/a\x1b[K\x1b[1A", progress(&mut run, &patterns, None, "in/a"));
}

#[test]
fn a_run_starts_whatever_room_is_asked_for() {
    let mut fifo = initialize(true, usize::MAX);
    let mut lifo = initialize(false, usize::MAX);
    put(&mut fifo, item("a"));
    put(&mut lifo, item("b"));
    assert_eq!(vec!["in/a"], names(&mut fifo, 1));
    assert_eq!(vec!["in/b"], names(&mut lifo, 1));
}

#[test]
fn a_segment_may_hold_any_character_but_a_slash() {
    let patterns = Patterns::new().unwrap();
    let tail = "z".repeat(70);
    assert_eq!(format!("… {}", tail), pack_path(&patterns, &format!("a\nb $1\t/{}", tail)));
    assert_eq!(format!("… {}", tail), pack_path(&patterns, &format!("… /{}", tail)));
    assert_eq!(format!("… {}", tail), pack_path(&patterns, &format!("x//{}", tail)));
    assert_eq!(format!("//{}", tail), pack_path(&patterns, &format!("//{}", tail)));
}
