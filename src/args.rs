use vstd::prelude::*;

use crate::config::{ConfigError, Flag, DEFAULT_TIMEOUT_SECS};

verus! {

/// Where URLs come from: one given directly, or a file that lists them.
#[derive(Debug, Clone, PartialEq, Eq)]
pub enum UrlSource {
    Url(String),
    File(String),
}

/// What the command line asks for, before any URL list file is read.
#[derive(Debug, Clone, PartialEq, Eq)]
pub struct Options {
    /// The URLs and URL list files, in command-line order.
    pub sources: Vec<UrlSource>,
    pub workers: usize,
    pub timeout_secs: u64,
    pub retries: usize,
}

/// What the options parsed so far amount to: sources, workers, timeout and
/// retries.
pub type Parsed = (Seq<UrlSource>, usize, u64, usize);

pub open spec fn is_ascii_digit(c: char) -> bool {
    '0' <= c && c <= '9'
}

/// The number that a string of decimal digits denotes.
pub open spec fn digits_value(d: Seq<char>) -> nat
    decreases d.len(),
{
    if d.len() == 0 {
        0
    } else {
        digits_value(d.drop_last()) * 10 + ((d.last() as u32) - ('0' as u32)) as nat
    }
}

/// The number that `s` denotes when it is an optional `+` followed by one
/// or more decimal digits, and `None` for any other text.
pub open spec fn unsigned_value(s: Seq<char>) -> Option<nat> {
    let d = if s.len() > 0 && s[0] == '+' {
        s.drop_first()
    } else {
        s
    };
    if d.len() > 0 && forall|i: int| 0 <= i < d.len() ==> is_ascii_digit(#[trigger] d[i]) {
        Some(digits_value(d))
    } else {
        None
    }
}

/// The `u64` that `s` denotes, if it denotes one in range.
pub open spec fn u64_value(s: Seq<char>) -> Option<u64> {
    match unsigned_value(s) {
        Some(v) => if v <= u64::MAX {
            Some(v as u64)
        } else {
            None
        },
        None => None,
    }
}

/// The `usize` that `s` denotes, if it denotes one in range.
pub open spec fn usize_value(s: Seq<char>) -> Option<usize> {
    match u64_value(s) {
        Some(v) => if v <= usize::MAX {
            Some(v as usize)
        } else {
            None
        },
        None => None,
    }
}

/// Reads the command line from position `i` on, with what was read before
/// it. `--file`, `--workers`, `--timeout` and `--retries` take the next
/// argument as their value, the later of two settings wins, and any other
/// argument is a URL.
pub open spec fn parse_from(args: Seq<String>, i: int, acc: Parsed) -> Result<Parsed, ConfigError>
    decreases args.len() - i,
{
    if i < 1 || i >= args.len() {
        Ok(acc)
    } else {
        let a = args[i]@;
        if a == "--file"@ {
            if i + 1 >= args.len() {
                Err(ConfigError::MissingValue(Flag::File))
            } else {
                parse_from(args, i + 2, (acc.0.push(UrlSource::File(args[i + 1])), acc.1, acc.2, acc.3))
            }
        } else if a == "--workers"@ {
            if i + 1 >= args.len() {
                Err(ConfigError::MissingValue(Flag::Workers))
            } else {
                match usize_value(args[i + 1]@) {
                    Some(v) => parse_from(args, i + 2, (acc.0, v, acc.2, acc.3)),
                    None => Err(ConfigError::InvalidNumber(Flag::Workers)),
                }
            }
        } else if a == "--timeout"@ {
            if i + 1 >= args.len() {
                Err(ConfigError::MissingValue(Flag::Timeout))
            } else {
                match u64_value(args[i + 1]@) {
                    Some(v) => parse_from(args, i + 2, (acc.0, acc.1, v, acc.3)),
                    None => Err(ConfigError::InvalidNumber(Flag::Timeout)),
                }
            }
        } else if a == "--retries"@ {
            if i + 1 >= args.len() {
                Err(ConfigError::MissingValue(Flag::Retries))
            } else {
                match usize_value(args[i + 1]@) {
                    Some(v) => parse_from(args, i + 2, (acc.0, acc.1, acc.2, v)),
                    None => Err(ConfigError::InvalidNumber(Flag::Retries)),
                }
            }
        } else {
            parse_from(args, i + 1, (acc.0.push(UrlSource::Url(args[i])), acc.1, acc.2, acc.3))
        }
    }
}

/// The options as read, checked: at least one URL or URL list file, at
/// least one worker and a positive timeout, checked in that order.
pub open spec fn checked(p: Result<Parsed, ConfigError>) -> Result<Parsed, ConfigError> {
    match p {
        Ok(q) => if q.0.len() == 0 {
            Err(ConfigError::NoUrls)
        } else if q.1 == 0 {
            Err(ConfigError::NoWorkers)
        } else if q.2 == 0 {
            Err(ConfigError::ZeroTimeout)
        } else {
            Ok(q)
        },
        Err(e) => Err(e),
    }
}

/// The whole command line, whose first argument names the program: no
/// source, `default_workers` workers, the default timeout and no retries
/// unless the options say otherwise; then checked.
pub open spec fn parse_spec(args: Seq<String>, default_workers: usize) -> Result<Parsed, ConfigError> {
    checked(parse_from(args, 1, (Seq::empty(), default_workers, DEFAULT_TIMEOUT_SECS, 0)))
}

/// `r` is the executable form of the parse result `p`.
pub open spec fn options_match(r: Result<Options, ConfigError>, p: Result<Parsed, ConfigError>) -> bool {
    match (r, p) {
        (Ok(o), Ok(q)) => o.sources@ == q.0 && o.workers == q.1 && o.timeout_secs == q.2
            && o.retries == q.3,
        (Err(e), Err(f)) => e == f,
        _ => false,
    }
}

/// Relies on `u64`'s `FromStr` (`str::parse`): it accepts an optional `+`
/// followed by decimal digits only, and refuses empty text and values past
/// `u64::MAX`.
#[verifier::external_body]
fn parse_u64(s: &str) -> (r: Option<u64>)
    ensures
        r == u64_value(s@),
{
    s.parse::<u64>().ok()
}

/// Relies on `num_cpus::get`: the number of CPUs this process may use, which
/// depends on the machine; its documentation promises at least one.
#[verifier::external_body]
fn available_cpus() -> (n: usize)
    ensures
        n >= 1,
{
    num_cpus::get()
}

/// Whether `a` and `b` hold the same characters.
pub fn same_text(a: &str, b: &str) -> (r: bool)
    ensures
        r == (a@ == b@),
{
    let n = a.unicode_len();
    if n != b.unicode_len() {
        return false;
    }
    let mut i: usize = 0;
    while i < n
        invariant
            n == a@.len(),
            n == b@.len(),
            i <= n,
            a@.subrange(0, i as int) == b@.subrange(0, i as int),
        decreases n - i,
    {
        if a.get_char(i) != b.get_char(i) {
            return false;
        }
        assert(a@.subrange(0, i + 1) =~= a@.subrange(0, i as int).push(a@[i as int]));
        assert(b@.subrange(0, i + 1) =~= b@.subrange(0, i as int).push(b@[i as int]));
        i = i + 1;
    }
    assert(a@ =~= a@.subrange(0, n as int));
    assert(b@ =~= b@.subrange(0, n as int));
    true
}

/// Reads a count option's value.
fn parse_count(s: &str) -> (r: Option<usize>)
    ensures
        r == usize_value(s@),
{
    match parse_u64(s) {
        Some(v) => if v <= usize::MAX as u64 {
            Some(v as usize)
        } else {
            None
        },
        None => None,
    }
}

/// Reads the command line `args`, whose first argument names the program,
/// with `default_workers` workers unless `--workers` says otherwise. It is
/// refused when it names no URL and no URL list file, or when the worker
/// count or the timeout comes to zero.
pub fn parse_args_with(args: &Vec<String>, default_workers: usize) -> (r: Result<Options, ConfigError>)
    ensures
        options_match(r, parse_spec(args@, default_workers)),
{
    let mut sources: Vec<UrlSource> = Vec::new();
    let mut workers = default_workers;
    let mut timeout_secs = DEFAULT_TIMEOUT_SECS;
    let mut retries: usize = 0;
    let mut i: usize = 1;
    while i < args.len()
        invariant
            1 <= i,
            parse_spec(args@, default_workers) == checked(
                parse_from(args@, i as int, (sources@, workers, timeout_secs, retries)),
            ),
        decreases args.len() - i,
    {
        let a = args[i].as_str();
        if same_text(a, "--file") {
            if i + 1 >= args.len() {
                return Err(ConfigError::MissingValue(Flag::File));
            }
            sources.push(UrlSource::File(args[i + 1].clone()));
            i = i + 2;
        } else if same_text(a, "--workers") {
            if i + 1 >= args.len() {
                return Err(ConfigError::MissingValue(Flag::Workers));
            }
            match parse_count(args[i + 1].as_str()) {
                Some(v) => workers = v,
                None => return Err(ConfigError::InvalidNumber(Flag::Workers)),
            }
            i = i + 2;
        } else if same_text(a, "--timeout") {
            if i + 1 >= args.len() {
                return Err(ConfigError::MissingValue(Flag::Timeout));
            }
            match parse_u64(args[i + 1].as_str()) {
                Some(v) => timeout_secs = v,
                None => return Err(ConfigError::InvalidNumber(Flag::Timeout)),
            }
            i = i + 2;
        } else if same_text(a, "--retries") {
            if i + 1 >= args.len() {
                return Err(ConfigError::MissingValue(Flag::Retries));
            }
            match parse_count(args[i + 1].as_str()) {
                Some(v) => retries = v,
                None => return Err(ConfigError::InvalidNumber(Flag::Retries)),
            }
            i = i + 2;
        } else {
            sources.push(UrlSource::Url(args[i].clone()));
            i = i + 1;
        }
    }
    if sources.len() == 0 {
        Err(ConfigError::NoUrls)
    } else if workers == 0 {
        Err(ConfigError::NoWorkers)
    } else if timeout_secs == 0 {
        Err(ConfigError::ZeroTimeout)
    } else {
        Ok(Options { sources, workers, timeout_secs, retries })
    }
}

/// Reads the command line `args`, whose first argument names the program.
/// Without `--workers` there are as many workers as this process may use
/// CPUs, a number that depends on the machine and is at least one.
pub fn parse_args(args: &Vec<String>) -> (r: Result<Options, ConfigError>)
    ensures
        exists|default_workers: usize|
            default_workers >= 1 && options_match(r, parse_spec(args@, default_workers)),
{
    parse_args_with(args, available_cpus())
}

/// What `str::trim` leaves of `s`.
pub uninterp spec fn trim_of(s: Seq<char>) -> Seq<char>;

/// Whether a trimmed line of a URL list file names a URL: it is neither blank
/// nor a comment starting with `#`.
pub open spec fn is_url_line_spec(t: Seq<char>) -> bool {
    t.len() > 0 && t[0] != '#'
}

/// The URLs that the lines of a URL list file name, in file order.
pub open spec fn url_lines_spec(lines: Seq<String>) -> Seq<Seq<char>>
    decreases lines.len(),
{
    if lines.len() == 0 {
        Seq::empty()
    } else {
        let rest = url_lines_spec(lines.drop_last());
        let t = trim_of(lines.last()@);
        if is_url_line_spec(t) {
            rest.push(t)
        } else {
            rest
        }
    }
}

/// Relies on `str::trim`: leading and trailing whitespace removed.
#[verifier::external_body]
fn trim(s: &str) -> (r: String)
    ensures
        r@ == trim_of(s@),
{
    s.trim().to_string()
}

/// Whether the trimmed line `t` of a URL list file names a URL.
pub fn is_url_line(t: &str) -> (r: bool)
    ensures
        r == is_url_line_spec(t@),
{
    if t.unicode_len() == 0 {
        false
    } else {
        t.get_char(0) != '#'
    }
}

/// The URLs that the lines of a URL list file name: each line trimmed, and
/// blank lines and comment lines left out.
pub fn url_lines(lines: &Vec<String>) -> (urls: Vec<String>)
    ensures
        urls@.map_values(|u: String| u@) == url_lines_spec(lines@),
{
    let mut urls: Vec<String> = Vec::new();
    let mut i: usize = 0;
    while i < lines.len()
        invariant
            i <= lines@.len(),
            urls@.map_values(|u: String| u@) == url_lines_spec(lines@.subrange(0, i as int)),
        decreases lines@.len() - i,
    {
        let t = trim(lines[i].as_str());
        let ghost before = urls@;
        assert(lines@.subrange(0, i + 1).drop_last() =~= lines@.subrange(0, i as int));
        if is_url_line(t.as_str()) {
            urls.push(t);
            assert(urls@.map_values(|u: String| u@) =~= before.map_values(|u: String| u@).push(
                trim_of(lines@[i as int]@),
            ));
        }
        i = i + 1;
    }
    assert(lines@.subrange(0, lines@.len() as int) =~= lines@);
    urls
}

/// The URL list of a run: the sources in order, each URL as given and each
/// URL list file replaced by the URLs its lines name. `file_lines[i]` holds
/// the lines of source `i` when that source is a file.
pub open spec fn gathered(sources: Seq<UrlSource>, file_lines: Seq<Vec<String>>) -> Seq<Seq<char>>
    decreases sources.len(),
{
    if sources.len() == 0 {
        Seq::empty()
    } else {
        let k = sources.len() - 1;
        let rest = gathered(sources.drop_last(), file_lines.subrange(0, k));
        match sources[k] {
            UrlSource::Url(u) => rest.push(u@),
            UrlSource::File(_) => rest + url_lines_spec(file_lines[k]@),
        }
    }
}

/// Puts together the URL list of a run from the sources and, for each
/// source that is a file, the lines read from it (`file_lines[i]` for
/// source `i`; the entry of a URL source is not read). The URLs of a file
/// take the file's place; repetitions are kept.
pub fn gather_urls(sources: &Vec<UrlSource>, file_lines: &Vec<Vec<String>>) -> (urls: Vec<String>)
    requires
        file_lines.len() == sources.len(),
    ensures
        urls@.map_values(|u: String| u@) == gathered(sources@, file_lines@),
{
    let mut urls: Vec<String> = Vec::new();
    let mut i: usize = 0;
    while i < sources.len()
        invariant
            i <= sources@.len(),
            file_lines.len() == sources.len(),
            urls@.map_values(|u: String| u@) == gathered(
                sources@.subrange(0, i as int),
                file_lines@.subrange(0, i as int),
            ),
        decreases sources@.len() - i,
    {
        let ghost before = urls@;
        assert(sources@.subrange(0, i + 1).drop_last() =~= sources@.subrange(0, i as int));
        assert(file_lines@.subrange(0, i + 1).subrange(0, i as int) =~= file_lines@.subrange(
            0,
            i as int,
        ));
        match &sources[i] {
            UrlSource::Url(u) => {
                urls.push(u.clone());
                assert(urls@.map_values(|u: String| u@) =~= before.map_values(|u: String| u@).push(
                    sources@[i as int]->Url_0@,
                ));
            },
            UrlSource::File(_) => {
                let mut more = url_lines(&file_lines[i]);
                let ghost added = more@;
                urls.append(&mut more);
                assert(urls@.map_values(|u: String| u@) =~= before.map_values(|u: String| u@)
                    + added.map_values(|u: String| u@));
            },
        }
        i = i + 1;
    }
    assert(sources@.subrange(0, sources@.len() as int) =~= sources@);
    assert(file_lines@.subrange(0, sources@.len() as int) =~= file_lines@);
    urls
}

} // verus!
