//! The settings of a run, read from the arguments of the program.

use vstd::prelude::*;
use vstd::string::*;

use crate::files::_CHANNEL;
use crate::files::_COPY;
use crate::files::_MAXBUF;
use crate::files::_MOVE;
use crate::files::_RENAME;
use crate::files::_STD;
use crate::files::_TEST;
use crate::iomod::path_to_unix;
use crate::iomod::unix_form;
use crate::pattern::drive_of;
use crate::pattern::regex_matches;
use crate::pattern::Patterns;
use crate::pattern::RE_CAPA;
use crate::pattern::RE_THREAD;
use crate::text::i32_value;
use crate::text::parse_i32;
use crate::text::parse_usize;
use crate::text::usize_value;

verus! {

/// The source folder where none is given.
pub const INPUT_: &'static str = "_IN";

/// The destination folder where none is given.
pub const OUTPUT_: &'static str = "_OUT";

/// What the options of a run settle.
#[derive(Debug, Clone, Copy, PartialEq, Eq)]
pub struct Settings {
    /// First in, first out; otherwise last in, first out.
    pub fifo: bool,
    /// Copy, move or rename.
    pub cmr_mode: char,
    /// The number of workers.
    pub threads: i32,
    /// How many items to make room for in advance.
    pub capacity: usize,
    /// The transfer algorithm.
    pub algorithm: u8,
}

/// What one argument does to the settings.
#[derive(Debug, Clone, Copy, PartialEq, Eq)]
pub enum Effect {
    /// The settings are these from now on.
    Apply(Settings),
    /// The argument looks like an option, but is none.
    Unknown,
    /// The argument gives a number that cannot be used.
    Invalid,
}

/// The settings of a run, and the folders it works on.
#[derive(Debug)]
pub struct Config {
    pub input: String,
    pub output: String,
    pub settings: Settings,
    /// The arguments that look like options but are none, in order.
    pub unknown: Vec<String>,
}

/// An argument gives a number that cannot be used.
#[derive(Debug)]
pub struct ArgError {
    pub arg: String,
}

/// The settings of a run without options: a queue, copying, three workers,
/// room for 2048 items, whole-file copies.
pub open spec fn defaults() -> Settings {
    Settings { fifo: true, cmr_mode: _COPY, threads: 3, capacity: 2048, algorithm: _STD }
}

/// What one argument does to the settings, given whether it has the form
/// of a number of workers and whether it has the form of a capacity. An
/// argument that begins with `-` is an option: one of `-c`, `-m`, `-r`,
/// `-q`, `-s`, or a number of workers, of which zero changes nothing. Any
/// other argument is a capacity, or names an algorithm by its first letter,
/// or is passed over.
pub open spec fn effect_of(s: Settings, arg: Seq<char>, threads: bool, capacity: bool) -> Effect {
    if arg.len() > 0 && arg[0] == '-' {
        if arg == seq!['-', 'c'] {
            Effect::Apply(Settings { cmr_mode: _COPY, ..s })
        } else if arg == seq!['-', 'm'] {
            Effect::Apply(Settings { cmr_mode: _MOVE, ..s })
        } else if arg == seq!['-', 'r'] {
            Effect::Apply(Settings { cmr_mode: _RENAME, ..s })
        } else if arg == seq!['-', 'q'] {
            Effect::Apply(Settings { fifo: true, ..s })
        } else if arg == seq!['-', 's'] {
            Effect::Apply(Settings { fifo: false, ..s })
        } else if threads {
            match i32_value(arg) {
                Some(t) => if t == i32::MIN {
                    Effect::Invalid
                } else if t < 0 {
                    Effect::Apply(Settings { threads: (-t) as i32, ..s })
                } else if t > 0 {
                    Effect::Apply(Settings { threads: t, ..s })
                } else {
                    Effect::Apply(s)
                },
                None => Effect::Invalid,
            }
        } else {
            Effect::Unknown
        }
    } else if capacity {
        match usize_value(arg) {
            Some(capacity) => Effect::Apply(Settings { capacity, ..s }),
            None => Effect::Invalid,
        }
    } else if arg.len() > 0 && arg[0] == 'm' {
        Effect::Apply(Settings { algorithm: _MAXBUF, ..s })
    } else if arg.len() > 0 && arg[0] == 'c' {
        Effect::Apply(Settings { algorithm: _CHANNEL, ..s })
    } else if arg.len() > 0 && arg[0] == 't' {
        Effect::Apply(Settings { algorithm: _TEST, ..s })
    } else {
        Effect::Apply(s)
    }
}

/// What one argument does to the settings. A number of workers has the
/// form `-` and digits, a capacity the form `+` and digits.
pub open spec fn effect(s: Settings, arg: Seq<char>) -> Effect {
    effect_of(s, arg, regex_matches(RE_THREAD@, arg), regex_matches(RE_CAPA@, arg))
}

// Whether an argument is `-` and the letter.
fn is_flag(arg: &str, len: usize, letter: char) -> (yes: bool)
    requires
        len == arg@.len(),
        len > 0,
        arg@[0] == '-',
    ensures
        yes == (arg@ == seq!['-', letter]),
{
    if len == 2 {
        let c = arg.get_char(1);
        assert(c == letter ==> arg@ =~= seq!['-', letter]);
        c == letter
    } else {
        false
    }
}

/// Applies one argument to the settings.
pub fn option(patterns: &Patterns, s: Settings, arg: &str) -> (e: Effect)
    ensures
        e == effect(s, arg@),
{
    let threads: bool = patterns.gives_threads(arg);
    let capacity: bool = patterns.gives_capacity(arg);
    option_of(s, arg, threads, capacity)
}

/// Applies one argument to the settings, given whether it has the form of
/// a number of workers and whether it has the form of a capacity.
pub fn option_of(s: Settings, arg: &str, threads: bool, capacity: bool) -> (e: Effect)
    ensures
        e == effect_of(s, arg@, threads, capacity),
{
    let len: usize = arg.unicode_len();
    let first: char = if len > 0 {
        arg.get_char(0)
    } else {
        ' '
    };
    if len > 0 && first == '-' {
        if is_flag(arg, len, 'c') {
            Effect::Apply(Settings { cmr_mode: _COPY, ..s })
        } else if is_flag(arg, len, 'm') {
            Effect::Apply(Settings { cmr_mode: _MOVE, ..s })
        } else if is_flag(arg, len, 'r') {
            Effect::Apply(Settings { cmr_mode: _RENAME, ..s })
        } else if is_flag(arg, len, 'q') {
            Effect::Apply(Settings { fifo: true, ..s })
        } else if is_flag(arg, len, 's') {
            Effect::Apply(Settings { fifo: false, ..s })
        } else if threads {
            match parse_i32(arg) {
                Some(t) => {
                    if t == i32::MIN {
                        Effect::Invalid
                    } else if t < 0 {
                        Effect::Apply(Settings { threads: -t, ..s })
                    } else if t > 0 {
                        Effect::Apply(Settings { threads: t, ..s })
                    } else {
                        Effect::Apply(s)
                    }
                },
                None => Effect::Invalid,
            }
        } else {
            Effect::Unknown
        }
    } else if capacity {
        match parse_usize(arg) {
            Some(capacity) => Effect::Apply(Settings { capacity, ..s }),
            None => Effect::Invalid,
        }
    } else if len > 0 && first == 'm' {
        Effect::Apply(Settings { algorithm: _MAXBUF, ..s })
    } else if len > 0 && first == 'c' {
        Effect::Apply(Settings { algorithm: _CHANNEL, ..s })
    } else if len > 0 && first == 't' {
        Effect::Apply(Settings { algorithm: _TEST, ..s })
    } else {
        Effect::Apply(s)
    }
}

/// The settings after a row of arguments, and those that looked like
/// options but were none; `None` where an argument gives a number that
/// cannot be used.
pub open spec fn settled(args: Seq<String>) -> Option<(Settings, Seq<String>)>
    decreases args.len(),
{
    if args.len() == 0 {
        Some((defaults(), Seq::empty()))
    } else {
        match settled(args.drop_last()) {
            Some((s, unknown)) => match effect(s, args.last()@) {
                Effect::Apply(next) => Some((next, unknown)),
                Effect::Unknown => Some((s, unknown.push(args.last()))),
                Effect::Invalid => None,
            },
            None => None,
        }
    }
}

/// The first argument of a row that gives a number that cannot be used.
pub open spec fn culprit(args: Seq<String>) -> String
    recommends
        settled(args) is None,
    decreases args.len(),
{
    if args.len() == 0 {
        args.last()
    } else if settled(args.drop_last()) is None {
        culprit(args.drop_last())
    } else {
        args.last()
    }
}

/// The arguments that are options: all after the name of the program and
/// the two folders.
pub open spec fn options_of(args: Seq<String>) -> Seq<String> {
    if args.len() > 3 {
        args.skip(3)
    } else {
        Seq::empty()
    }
}

/// The folder that stands at place `i` of the arguments, or the folder to
/// use where the arguments end before.
pub open spec fn folder(args: Seq<String>, i: int, otherwise: Seq<char>) -> Seq<char> {
    if i < args.len() {
        args[i]@
    } else {
        otherwise
    }
}

/// Reads the arguments of the program: its name, the source folder, the
/// destination folder, and then the options in any order. A later option
/// overrides an earlier one.
pub fn initialize(patterns: &Patterns, args: &Vec<String>) -> (r: Result<Config, ArgError>)
    ensures
        match settled(options_of(args@)) {
            Some((settings, unknown)) => r matches Ok(c) && c.settings == settings && c.unknown@
                == unknown && c.input@ == folder(args@, 1, INPUT_@) && c.output@ == folder(
                args@,
                2,
                OUTPUT_@,
            ),
            None => r matches Err(e) && e.arg == culprit(options_of(args@)),
        },
{
    let len: usize = args.len();
    let input: String = if len > 1 {
        args[1].clone()
    } else {
        INPUT_.to_owned()
    };
    let output: String = if len > 2 {
        args[2].clone()
    } else {
        OUTPUT_.to_owned()
    };
    let mut settings = Settings {
        fifo: true,
        cmr_mode: _COPY,
        threads: 3,
        capacity: 2048,
        algorithm: _STD,
    };
    let mut unknown: Vec<String> = Vec::new();
    let count: usize = if len > 3 {
        len - 3
    } else {
        0
    };
    let mut k: usize = 0;
    let ghost rest = options_of(args@);
    assert(rest.take(0) =~= Seq::<String>::empty());
    while k < count
        invariant
            len == args@.len(),
            rest == options_of(args@),
            count == rest.len(),
            k <= count,
            settled(rest.take(k as int)) == Some((settings, unknown@)),
        decreases count - k,
    {
        proof {
            assert(rest.take(k + 1).drop_last() =~= rest.take(k as int));
            assert(rest.take(k + 1).last() == args@[k + 3]);
        }
        match option(patterns, settings, args[k + 3].as_str()) {
            Effect::Apply(next) => {
                settings = next;
            },
            Effect::Unknown => {
                unknown.push(args[k + 3].clone());
            },
            Effect::Invalid => {
                proof {
                    lemma_culprit(rest, k + 1);
                }
                return Err(ArgError { arg: args[k + 3].clone() });
            },
        }
        k = k + 1;
    }
    assert(rest.take(k as int) =~= rest);
    Ok(Config { input, output, settings, unknown })
}

/// Once an argument cannot be used, no later argument mends it, and the
/// first such argument stays the first.
pub proof fn lemma_culprit(args: Seq<String>, n: int)
    requires
        0 <= n <= args.len(),
        settled(args.take(n)) is None,
    ensures
        settled(args) is None,
        culprit(args) == culprit(args.take(n)),
    decreases args.len(),
{
    if n < args.len() {
        assert(args.drop_last().take(n) =~= args.take(n));
        lemma_culprit(args.drop_last(), n);
    } else {
        assert(args.take(n) =~= args);
    }
}

/// How a mode is shown.
pub fn mode_name(cmr_mode: char) -> (name: &'static str)
    ensures
        name@ == if cmr_mode == _MOVE {
            "-m[ove]"@
        } else if cmr_mode == _RENAME {
            "-r[ename]"@
        } else {
            "-c[opy]"@
        },
{
    if cmr_mode == _MOVE {
        "-m[ove]"
    } else if cmr_mode == _RENAME {
        "-r[ename]"
    } else {
        "-c[opy]"
    }
}

/// How the order of the queue is shown.
pub fn queue_name(fifo: bool) -> (name: &'static str)
    ensures
        name@ == if fifo {
            "-q[ueue]"@
        } else {
            "-s[tack]"@
        },
{
    if fifo {
        "-q[ueue]"
    } else {
        "-s[tack]"
    }
}

/// How an algorithm is shown.
pub fn algorithm_name(algorithm: u8) -> (name: &'static str)
    ensures
        name@ == if algorithm == _MAXBUF {
            "maxbuf"@
        } else if algorithm == _CHANNEL {
            "channel"@
        } else if algorithm == _TEST {
            "test"@
        } else {
            "std"@
        },
{
    if algorithm == _MAXBUF {
        "maxbuf"
    } else if algorithm == _CHANNEL {
        "channel"
    } else if algorithm == _TEST {
        "test"
    } else {
        "std"
    }
}

/// The drive that an absolute path names, as `D:`, or the empty string
/// where it names none. The path may use `\` or `/`.
pub fn get_drive(patterns: &Patterns, abs_path: &str) -> (drive: String)
    ensures
        drive@ == drive_of(unix_form(abs_path@)),
{
    let abs_in = path_to_unix(abs_path);
    match patterns.drive(abs_in.as_str()) {
        Some(drive) => drive,
        None => String::new(),
    }
}

/// Whether a run of this mode can go from the one drive to the other:
/// renaming cannot cross drives, copying and moving can.
pub fn drives_allow(cmr_mode: char, i_drv: &String, o_drv: &String) -> (ok: bool)
    ensures
        ok == !(cmr_mode == _RENAME && i_drv@ != o_drv@),
{
    let same: bool = *i_drv == *o_drv;
    !(cmr_mode == _RENAME && !same)
}

} // verus!
