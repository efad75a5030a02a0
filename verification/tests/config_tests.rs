use treemirror::config::algorithm_name;
use treemirror::config::drives_allow;
use treemirror::config::get_drive;
use treemirror::config::initialize;
use treemirror::config::mode_name;
use treemirror::config::option;
use treemirror::config::option_of;
use treemirror::config::queue_name;
use treemirror::config::Effect;
use treemirror::config::Settings;
use treemirror::config::INPUT_;
use treemirror::config::OUTPUT_;
use treemirror::files::_CHANNEL;
use treemirror::files::_COPY;
use treemirror::files::_MAXBUF;
use treemirror::files::_MOVE;
use treemirror::files::_RENAME;
use treemirror::files::_STD;
use treemirror::files::_TEST;
use treemirror::pattern::Patterns;

fn defaults() -> Settings {
    Settings { fifo: true, cmr_mode: _COPY, threads: 3, capacity: 2048, algorithm: _STD }
}

fn args(list: &[&str]) -> Vec<String> {
    list.iter().map(|a| a.to_string()).collect()
}

#[test]
fn patterns_compile() {
    assert!(Patterns::new().is_ok());
}

#[test]
fn no_options_give_the_defaults() {
    let p = Patterns::new().unwrap();
    let c = initialize(&p, &args(&["prog", "in", "out"])).unwrap();
    assert_eq!("in", c.input);
    assert_eq!("out", c.output);
    assert_eq!(defaults(), c.settings);
    assert!(c.unknown.is_empty());
}

#[test]
fn missing_folders_get_their_names() {
    let p = Patterns::new().unwrap();
    let c = initialize(&p, &args(&[])).unwrap();
    assert_eq!(INPUT_, c.input);
    assert_eq!(OUTPUT_, c.output);
    assert_eq!("_IN", c.input);
    assert_eq!("_OUT", c.output);
    let c = initialize(&p, &args(&["prog", "here"])).unwrap();
    assert_eq!("here", c.input);
    assert_eq!("_OUT", c.output);
    assert_eq!(defaults(), c.settings);
}

#[test]
fn folders_are_no_options() {
    let p = Patterns::new().unwrap();
    let c = initialize(&p, &args(&["-m", "-s", "+7"])).unwrap();
    assert_eq!("-s", c.input);
    assert_eq!("+7", c.output);
    assert_eq!(defaults(), c.settings);
}

#[test]
fn options_set_mode_queue_workers_capacity_and_algorithm() {
    let p = Patterns::new().unwrap();
    let c = initialize(&p, &args(&["prog", "in", "out", "-m", "-s", "-8", "+100", "maxbuf"]))
        .unwrap();
    assert_eq!(
        Settings { fifo: false, cmr_mode: _MOVE, threads: 8, capacity: 100, algorithm: _MAXBUF },
        c.settings
    );
    assert!(c.unknown.is_empty());
}

#[test]
fn a_later_option_overrides_an_earlier_one() {
    let p = Patterns::new().unwrap();
    let c = initialize(
        &p,
        &args(&["prog", "in", "out", "-r", "-s", "-c", "-q", "c", "t", "-2", "-5", "+1", "+0"]),
    )
    .unwrap();
    assert_eq!(
        Settings { fifo: true, cmr_mode: _COPY, threads: 5, capacity: 0, algorithm: _TEST },
        c.settings
    );
}

#[test]
fn unknown_options_are_listed_in_order() {
    let p = Patterns::new().unwrap();
    let c = initialize(&p, &args(&["prog", "in", "out", "-x", "-r", "--", "-", "-cc", "-1a"]))
        .unwrap();
    assert_eq!(vec!["-x", "--", "-", "-cc", "-1a"], c.unknown);
    assert_eq!(_RENAME, c.settings.cmr_mode);
}

#[test]
fn other_arguments_are_passed_over() {
    let p = Patterns::new().unwrap();
    let c = initialize(&p, &args(&["prog", "in", "out", "", "x", "+", "+1x", "12", "Maxbuf"]))
        .unwrap();
    assert_eq!(defaults(), c.settings);
    assert!(c.unknown.is_empty());
}

#[test]
fn a_number_too_large_is_an_error() {
    let p = Patterns::new().unwrap();
    let e = initialize(&p, &args(&["prog", "in", "out", "-m", "-99999999999", "-x"])).unwrap_err();
    assert_eq!("-99999999999", e.arg);
    let e = initialize(&p, &args(&["prog", "in", "out", "+99999999999999999999999", "-4294967296"]))
        .unwrap_err();
    assert_eq!("+99999999999999999999999", e.arg);
    let e = initialize(&p, &args(&["prog", "in", "out", "-2147483648"])).unwrap_err();
    assert_eq!("-2147483648", e.arg);
}

#[test]
fn digits_of_another_script_are_an_error() {
    let p = Patterns::new().unwrap();
    let e = initialize(&p, &args(&["prog", "in", "out", "-٣"])).unwrap_err();
    assert_eq!("-٣", e.arg);
    let e = initialize(&p, &args(&["prog", "in", "out", "+٣"])).unwrap_err();
    assert_eq!("+٣", e.arg);
}

#[test]
fn one_option_at_a_time() {
    let p = Patterns::new().unwrap();
    let s = defaults();
    assert_eq!(Effect::Apply(Settings { cmr_mode: _MOVE, ..s }), option(&p, s, "-m"));
    assert_eq!(Effect::Apply(Settings { cmr_mode: _RENAME, ..s }), option(&p, s, "-r"));
    assert_eq!(Effect::Apply(Settings { fifo: false, ..s }), option(&p, s, "-s"));
    assert_eq!(Effect::Apply(s), option(&p, s, "-q"));
    assert_eq!(Effect::Apply(s), option(&p, s, "-c"));
    assert_eq!(Effect::Apply(s), option(&p, s, "-0"));
    assert_eq!(Effect::Apply(s), option(&p, s, "-000"));
    assert_eq!(Effect::Apply(Settings { threads: 12, ..s }), option(&p, s, "-012"));
    assert_eq!(Effect::Apply(Settings { threads: i32::MAX, ..s }), option(&p, s, "-2147483647"));
    assert_eq!(Effect::Apply(Settings { capacity: 4096, ..s }), option(&p, s, "+4096"));
    assert_eq!(Effect::Apply(Settings { algorithm: _MAXBUF, ..s }), option(&p, s, "m"));
    assert_eq!(Effect::Apply(Settings { algorithm: _CHANNEL, ..s }), option(&p, s, "channel"));
    assert_eq!(Effect::Apply(Settings { algorithm: _TEST, ..s }), option(&p, s, "t-1"));
    assert_eq!(Effect::Unknown, option(&p, s, "-q1"));
    assert_eq!(Effect::Unknown, option(&p, s, "-5\n"));
    assert_eq!(Effect::Invalid, option(&p, s, "-2147483649"));
    assert_eq!(Effect::Apply(s), option(&p, s, "+5\n"));
}

#[test]
fn drive_of_a_verbatim_path() {
    let p = Patterns::new().unwrap();
    assert_eq!("D:", get_drive(&p, r"\\?\D:\foo"));
    assert_eq!("c:", get_drive(&p, "//./c:/"));
    assert_eq!("z:", get_drive(&p, r"\\?\z:/x\y"));
}

#[test]
fn paths_without_a_drive() {
    let p = Patterns::new().unwrap();
    assert_eq!("", get_drive(&p, "/home/user"));
    assert_eq!("", get_drive(&p, r"D:\foo"));
    assert_eq!("", get_drive(&p, r"\\?\D:"));
    assert_eq!("", get_drive(&p, r"\\?\1:\foo"));
    assert_eq!("", get_drive(&p, r"\\!\D:\foo"));
    assert_eq!("", get_drive(&p, r"x\\?\D:\foo"));
    assert_eq!("", get_drive(&p, r"\\?\DD:\foo"));
    assert_eq!("", get_drive(&p, ""));
}

#[test]
fn renaming_cannot_cross_drives() {
    let c = "C:".to_string();
    let d = "D:".to_string();
    assert!(!drives_allow(_RENAME, &c, &d));
    assert!(drives_allow(_RENAME, &c, &c.clone()));
    assert!(drives_allow(_RENAME, &String::new(), &String::new()));
    assert!(drives_allow(_MOVE, &c, &d));
    assert!(drives_allow(_COPY, &c, &d));
}

#[test]
fn settings_have_names() {
    assert_eq!("-c[opy]", mode_name(_COPY));
    assert_eq!("-m[ove]", mode_name(_MOVE));
    assert_eq!("-r[ename]", mode_name(_RENAME));
    assert_eq!("-q[ueue]", queue_name(true));
    assert_eq!("-s[tack]", queue_name(false));
    assert_eq!("std", algorithm_name(_STD));
    assert_eq!("maxbuf", algorithm_name(_MAXBUF));
    assert_eq!("channel", algorithm_name(_CHANNEL));
    assert_eq!("test", algorithm_name(_TEST));
}

#[test]
fn option_given_the_form_of_the_argument() {
    let s = defaults();
    assert_eq!(Effect::Apply(Settings { threads: 12, ..s }), option_of(s, "-12", true, false));
    assert_eq!(Effect::Unknown, option_of(s, "-12", false, false));
    assert_eq!(Effect::Invalid, option_of(s, "-x", true, false));
    assert_eq!(Effect::Apply(Settings { cmr_mode: _MOVE, ..s }), option_of(s, "-m", true, true));
    assert_eq!(Effect::Apply(Settings { capacity: 9, ..s }), option_of(s, "+9", false, true));
    assert_eq!(Effect::Apply(Settings { capacity: 9, ..s }), option_of(s, "9", false, true));
    assert_eq!(Effect::Invalid, option_of(s, "m", false, true));
    assert_eq!(Effect::Apply(Settings { algorithm: _MAXBUF, ..s }), option_of(s, "m", true, false));
    assert_eq!(Effect::Apply(s), option_of(s, "+9", false, false));
}

#[test]
fn a_refused_pattern_is_named() {
    let e = Patterns::assemble(
        regex::Regex::new(treemirror::pattern::RE_PACK),
        regex::Regex::new("("),
        regex::Regex::new(treemirror::pattern::RE_CAPA),
        regex::Regex::new("["),
    )
    .unwrap_err();
    assert_eq!(r"^//[?.]/([a-zA-Z]:)/", e.pattern);
    let e = Patterns::assemble(
        regex::Regex::new(treemirror::pattern::RE_PACK),
        regex::Regex::new(treemirror::pattern::RE_DRIVE),
        regex::Regex::new(treemirror::pattern::RE_CAPA),
        regex::Regex::new("["),
    )
    .unwrap_err();
    assert_eq!(r"^[-]\d+$", e.pattern);
}
