//! The remote performance test's command line.
//!
//! Options are read left to right: a value option takes the next argument as
//! its value (the last occurrence of an option wins), `-h`/`--help` and an
//! unknown option stop the scan. The server's and client's addresses and the
//! instance type are required.
use vstd::prelude::*;
use vstd::string::StrSliceExecFns;

use crate::text::{chars_of, push_str, str_equal, to_string};

verus! {

pub const PERF_DEFAULT_PORT: u16 = 3090;
pub const PERF_DEFAULT_SSH_USER: &'static str = "alpine";
pub const PERF_DEFAULT_DURATION: u32 = 60;
pub const PERF_DEFAULT_WARMUP: u32 = 5;

/// The settings of a remote performance test.
#[derive(Clone, Debug, PartialEq, Eq)]
pub struct PerfArgs {
    /// Server public address (for SSH).
    pub server_ssh: String,
    /// Client public address (for SSH).
    pub client_ssh: String,
    /// Server private address (for URLs from the client).
    pub server_private: String,
    /// Client private address (for the OTLP endpoint).
    pub client_private: String,
    /// SSH user for both nodes.
    pub ssh_user: String,
    /// Instance type (part of the default results path).
    pub instance_type: String,
    pub port: u16,
    pub duration: u32,
    pub warmup: u32,
    /// The results directory, when given.
    pub results_dir: Option<String>,
}

/// Why a command line gives no settings.
#[derive(Clone, Debug, PartialEq, Eq)]
pub enum PerfArgsError {
    /// `-h` or `--help`: show the usage.
    Help,
    /// An option that is not known.
    UnknownOption(String),
    /// A required option (named) is missing.
    Required(&'static str),
    /// A value option is the last argument.
    MissingValue(String),
    /// A numeric option's value is not a number of its type.
    InvalidNumber(&'static str),
}

// ----- numbers ---------------------------------------------------------------

pub open spec fn is_digit(c: char) -> bool {
    '0' <= c && c <= '9'
}

/// The value of a string of decimal digits.
pub open spec fn digits_value(s: Seq<char>) -> nat
    decreases s.len(),
{
    if s.len() == 0 {
        0
    } else {
        digits_value(s.drop_last()) * 10 + ((s.last() as u32) - 48) as nat
    }
}

/// The text after an optional leading `+`.
pub open spec fn after_sign(s: Seq<char>) -> Seq<char> {
    if s.len() > 0 && s[0] == '+' {
        s.subrange(1, s.len() as int)
    } else {
        s
    }
}

pub open spec fn all_digits(d: Seq<char>) -> bool {
    forall|i: int| 0 <= i < d.len() ==> is_digit(#[trigger] d[i])
}

/// The digits of an unsigned number as `str::parse` reads them: an optional
/// `+`, then at least one digit, nothing else.
pub open spec fn unsigned_digits(s: Seq<char>) -> Option<Seq<char>> {
    let d = after_sign(s);
    if d.len() > 0 && all_digits(d) {
        Some(d)
    } else {
        None
    }
}

/// The number that `str::parse` reads for an unsigned type whose largest
/// value is `max`, if any.
pub open spec fn parsed_unsigned(s: Seq<char>, max: nat) -> Option<nat> {
    match unsigned_digits(s) {
        Some(d) => if digits_value(d) <= max {
            Some(digits_value(d))
        } else {
            None
        },
        None => None,
    }
}

/// Reads an unsigned decimal number no larger than `max`.
pub(crate) fn parse_unsigned(s: &str, max: u64) -> (r: Option<u64>)
    ensures
        r matches Some(v) ==> parsed_unsigned(s@, max as nat) == Some(v as nat),
        r is None ==> parsed_unsigned(s@, max as nat) is None,
{
    let cs = chars_of(s);
    let start: usize = if cs.len() > 0 && cs[0] == '+' { 1 } else { 0 };
    let ghost d = after_sign(s@);
    assert(d =~= cs@.subrange(start as int, cs.len() as int));
    if start >= cs.len() {
        return None;
    }
    let mut value: u64 = 0;
    let mut i: usize = start;
    while i < cs.len()
        invariant
            cs@ == s@,
            start <= i <= cs.len(),
            d == cs@.subrange(start as int, cs.len() as int),
            d == after_sign(s@),
            forall|j: int| start <= j < i ==> is_digit(#[trigger] cs@[j]),
            value as nat == digits_value(cs@.subrange(start as int, i as int)),
            value <= max,
        decreases cs.len() - i,
    {
        let c = cs[i];
        if !('0' <= c && c <= '9') {
            proof {
                let k: int = i - start;
                assert(d[k] == c);
                assert(!is_digit(d[k]));
                assert(!all_digits(d));
            }
            return None;
        }
        let digit: u64 = ((c as u32) - 48) as u64;
        let ghost prefix = cs@.subrange(start as int, i + 1);
        assert(prefix.drop_last() =~= cs@.subrange(start as int, i as int));
        if digit > max || value > (max - digit) / 10 {
            proof {
                assert(value * 10 + digit > max) by (nonlinear_arith)
                    requires digit > max || value > (max - digit) / 10;
                if all_digits(d) {
                    lemma_digits_value_grows(d, (i + 1 - start) as nat);
                    assert(d.subrange(0, (i + 1 - start) as int) =~= prefix);
                }
            }
            return None;
        }
        assert(value * 10 + digit <= max) by (nonlinear_arith)
            requires value <= (max - digit) / 10, digit <= max;
        value = value * 10 + digit;
        i = i + 1;
    }
    assert(cs@.subrange(start as int, cs.len() as int) =~= d);
    Some(value)
}

/// A longer digit string is worth at least its prefix.
proof fn lemma_digits_value_grows(d: Seq<char>, k: nat)
    requires
        k <= d.len(),
        all_digits(d),
    ensures
        digits_value(d.subrange(0, k as int)) <= digits_value(d),
    decreases d.len(),
{
    if k < d.len() {
        assert(d.drop_last().subrange(0, k as int) =~= d.subrange(0, k as int));
        lemma_digits_value_grows(d.drop_last(), k);
        assert(is_digit(d.last()));
    } else {
        assert(d.subrange(0, k as int) =~= d);
    }
}

// ----- the scan --------------------------------------------------------------

/// An option that takes the next argument as its value.
pub open spec fn value_option(a: Seq<char>) -> bool {
    ||| a == "--server-ssh"@
    ||| a == "--client-ssh"@
    ||| a == "--server-private"@
    ||| a == "--client-private"@
    ||| a == "--instance-type"@
    ||| a == "--ssh-user"@
    ||| a == "--port"@
    ||| a == "--duration"@
    ||| a == "--warmup"@
    ||| a == "--results-dir"@
}

pub open spec fn help_option(a: Seq<char>) -> bool {
    a == "-h"@ || a == "--help"@
}

/// The value of a numeric option is a number of the option's type.
pub open spec fn value_ok(option: Seq<char>, value: Seq<char>) -> bool {
    &&& option == "--port"@ ==> parsed_unsigned(value, 0xffff) is Some
    &&& option == "--duration"@ ==> parsed_unsigned(value, 0xffff_ffff) is Some
    &&& option == "--warmup"@ ==> parsed_unsigned(value, 0xffff_ffff) is Some
}

/// The scan passes over the option at `p` and its value.
pub open spec fn steps_on(args: Seq<String>, p: int) -> bool {
    &&& 0 <= p
    &&& p + 1 < args.len()
    &&& value_option(args[p]@)
    &&& value_ok(args[p]@, args[p + 1]@)
}

/// Where the scan that is at `p` stops.
pub open spec fn scan_from(args: Seq<String>, p: int) -> int
    decreases args.len() - p,
{
    if steps_on(args, p) {
        scan_from(args, p + 2)
    } else {
        p
    }
}

/// Where the scan stops: it starts after the program's name.
pub open spec fn scan_stop(args: Seq<String>) -> int {
    scan_from(args, 1)
}

/// The value the scan, arrived at `p`, has last seen for `option`.
pub open spec fn last_value(args: Seq<String>, option: Seq<char>, p: int) -> Option<Seq<char>>
    decreases p,
{
    if p >= 3 {
        if args[p - 2]@ == option {
            Some(args[p - 1]@)
        } else {
            last_value(args, option, p - 2)
        }
    } else {
        None
    }
}

/// The first required option that the scan did not see, if any.
pub open spec fn first_missing(args: Seq<String>, p: int) -> Option<Seq<char>> {
    if last_value(args, "--server-ssh"@, p) is None {
        Some("--server-ssh"@)
    } else if last_value(args, "--client-ssh"@, p) is None {
        Some("--client-ssh"@)
    } else if last_value(args, "--server-private"@, p) is None {
        Some("--server-private"@)
    } else if last_value(args, "--client-private"@, p) is None {
        Some("--client-private"@)
    } else if last_value(args, "--instance-type"@, p) is None {
        Some("--instance-type"@)
    } else {
        None
    }
}

/// A numeric option's last value, or its default.
pub open spec fn number_or(value: Option<Seq<char>>, max: nat, default: nat) -> nat {
    match value {
        Some(v) => parsed_unsigned(v, max).unwrap(),
        None => default,
    }
}

/// The settings read from a command line whose scan ended at `p`.
pub open spec fn settings_match(a: PerfArgs, args: Seq<String>, p: int) -> bool {
    &&& Some(a.server_ssh@) == last_value(args, "--server-ssh"@, p)
    &&& Some(a.client_ssh@) == last_value(args, "--client-ssh"@, p)
    &&& Some(a.server_private@) == last_value(args, "--server-private"@, p)
    &&& Some(a.client_private@) == last_value(args, "--client-private"@, p)
    &&& Some(a.instance_type@) == last_value(args, "--instance-type"@, p)
    &&& a.ssh_user@ == last_value(args, "--ssh-user"@, p).unwrap_or(PERF_DEFAULT_SSH_USER@)
    &&& a.port == number_or(last_value(args, "--port"@, p), 0xffff, PERF_DEFAULT_PORT as nat)
    &&& a.duration == number_or(
        last_value(args, "--duration"@, p),
        0xffff_ffff,
        PERF_DEFAULT_DURATION as nat,
    )
    &&& a.warmup == number_or(
        last_value(args, "--warmup"@, p),
        0xffff_ffff,
        PERF_DEFAULT_WARMUP as nat,
    )
    &&& match a.results_dir {
        Some(d) => last_value(args, "--results-dir"@, p) == Some(d@),
        None => last_value(args, "--results-dir"@, p) is None,
    }
}

fn copy_string(s: &String) -> (r: String)
    ensures
        r@ == s@,
{
    to_string(s.as_str())
}


/// The option names are distinct texts.
proof fn lemma_option_names_distinct()
    ensures
        "--server-ssh"@ != "--client-ssh"@,
        "--server-ssh"@ != "--server-private"@,
        "--server-ssh"@ != "--client-private"@,
        "--server-ssh"@ != "--instance-type"@,
        "--server-ssh"@ != "--ssh-user"@,
        "--server-ssh"@ != "--port"@,
        "--server-ssh"@ != "--duration"@,
        "--server-ssh"@ != "--warmup"@,
        "--server-ssh"@ != "--results-dir"@,
        "--server-ssh"@ != "-h"@,
        "--server-ssh"@ != "--help"@,
        "--client-ssh"@ != "--server-private"@,
        "--client-ssh"@ != "--client-private"@,
        "--client-ssh"@ != "--instance-type"@,
        "--client-ssh"@ != "--ssh-user"@,
        "--client-ssh"@ != "--port"@,
        "--client-ssh"@ != "--duration"@,
        "--client-ssh"@ != "--warmup"@,
        "--client-ssh"@ != "--results-dir"@,
        "--client-ssh"@ != "-h"@,
        "--client-ssh"@ != "--help"@,
        "--server-private"@ != "--client-private"@,
        "--server-private"@ != "--instance-type"@,
        "--server-private"@ != "--ssh-user"@,
        "--server-private"@ != "--port"@,
        "--server-private"@ != "--duration"@,
        "--server-private"@ != "--warmup"@,
        "--server-private"@ != "--results-dir"@,
        "--server-private"@ != "-h"@,
        "--server-private"@ != "--help"@,
        "--client-private"@ != "--instance-type"@,
        "--client-private"@ != "--ssh-user"@,
        "--client-private"@ != "--port"@,
        "--client-private"@ != "--duration"@,
        "--client-private"@ != "--warmup"@,
        "--client-private"@ != "--results-dir"@,
        "--client-private"@ != "-h"@,
        "--client-private"@ != "--help"@,
        "--instance-type"@ != "--ssh-user"@,
        "--instance-type"@ != "--port"@,
        "--instance-type"@ != "--duration"@,
        "--instance-type"@ != "--warmup"@,
        "--instance-type"@ != "--results-dir"@,
        "--instance-type"@ != "-h"@,
        "--instance-type"@ != "--help"@,
        "--ssh-user"@ != "--port"@,
        "--ssh-user"@ != "--duration"@,
        "--ssh-user"@ != "--warmup"@,
        "--ssh-user"@ != "--results-dir"@,
        "--ssh-user"@ != "-h"@,
        "--ssh-user"@ != "--help"@,
        "--port"@ != "--duration"@,
        "--port"@ != "--warmup"@,
        "--port"@ != "--results-dir"@,
        "--port"@ != "-h"@,
        "--port"@ != "--help"@,
        "--duration"@ != "--warmup"@,
        "--duration"@ != "--results-dir"@,
        "--duration"@ != "-h"@,
        "--duration"@ != "--help"@,
        "--warmup"@ != "--results-dir"@,
        "--warmup"@ != "-h"@,
        "--warmup"@ != "--help"@,
        "--results-dir"@ != "-h"@,
        "--results-dir"@ != "--help"@,
        "-h"@ != "--help"@,
{
    reveal_strlit("--server-ssh");
    reveal_strlit("--client-ssh");
    reveal_strlit("--server-private");
    reveal_strlit("--client-private");
    reveal_strlit("--instance-type");
    reveal_strlit("--ssh-user");
    reveal_strlit("--port");
    reveal_strlit("--duration");
    reveal_strlit("--warmup");
    reveal_strlit("--results-dir");
    reveal_strlit("-h");
    reveal_strlit("--help");
    assert("--server-ssh"@[2] != "--client-ssh"@[2]);
    assert("--server-ssh"@.len() != "--server-private"@.len());
    assert("--server-ssh"@.len() != "--client-private"@.len());
    assert("--server-ssh"@.len() != "--instance-type"@.len());
    assert("--server-ssh"@.len() != "--ssh-user"@.len());
    assert("--server-ssh"@.len() != "--port"@.len());
    assert("--server-ssh"@.len() != "--duration"@.len());
    assert("--server-ssh"@.len() != "--warmup"@.len());
    assert("--server-ssh"@.len() != "--results-dir"@.len());
    assert("--server-ssh"@.len() != "-h"@.len());
    assert("--server-ssh"@.len() != "--help"@.len());
    assert("--client-ssh"@.len() != "--server-private"@.len());
    assert("--client-ssh"@.len() != "--client-private"@.len());
    assert("--client-ssh"@.len() != "--instance-type"@.len());
    assert("--client-ssh"@.len() != "--ssh-user"@.len());
    assert("--client-ssh"@.len() != "--port"@.len());
    assert("--client-ssh"@.len() != "--duration"@.len());
    assert("--client-ssh"@.len() != "--warmup"@.len());
    assert("--client-ssh"@.len() != "--results-dir"@.len());
    assert("--client-ssh"@.len() != "-h"@.len());
    assert("--client-ssh"@.len() != "--help"@.len());
    assert("--server-private"@[2] != "--client-private"@[2]);
    assert("--server-private"@.len() != "--instance-type"@.len());
    assert("--server-private"@.len() != "--ssh-user"@.len());
    assert("--server-private"@.len() != "--port"@.len());
    assert("--server-private"@.len() != "--duration"@.len());
    assert("--server-private"@.len() != "--warmup"@.len());
    assert("--server-private"@.len() != "--results-dir"@.len());
    assert("--server-private"@.len() != "-h"@.len());
    assert("--server-private"@.len() != "--help"@.len());
    assert("--client-private"@.len() != "--instance-type"@.len());
    assert("--client-private"@.len() != "--ssh-user"@.len());
    assert("--client-private"@.len() != "--port"@.len());
    assert("--client-private"@.len() != "--duration"@.len());
    assert("--client-private"@.len() != "--warmup"@.len());
    assert("--client-private"@.len() != "--results-dir"@.len());
    assert("--client-private"@.len() != "-h"@.len());
    assert("--client-private"@.len() != "--help"@.len());
    assert("--instance-type"@.len() != "--ssh-user"@.len());
    assert("--instance-type"@.len() != "--port"@.len());
    assert("--instance-type"@.len() != "--duration"@.len());
    assert("--instance-type"@.len() != "--warmup"@.len());
    assert("--instance-type"@.len() != "--results-dir"@.len());
    assert("--instance-type"@.len() != "-h"@.len());
    assert("--instance-type"@.len() != "--help"@.len());
    assert("--ssh-user"@.len() != "--port"@.len());
    assert("--ssh-user"@[2] != "--duration"@[2]);
    assert("--ssh-user"@.len() != "--warmup"@.len());
    assert("--ssh-user"@.len() != "--results-dir"@.len());
    assert("--ssh-user"@.len() != "-h"@.len());
    assert("--ssh-user"@.len() != "--help"@.len());
    assert("--port"@.len() != "--duration"@.len());
    assert("--port"@.len() != "--warmup"@.len());
    assert("--port"@.len() != "--results-dir"@.len());
    assert("--port"@.len() != "-h"@.len());
    assert("--port"@[2] != "--help"@[2]);
    assert("--duration"@.len() != "--warmup"@.len());
    assert("--duration"@.len() != "--results-dir"@.len());
    assert("--duration"@.len() != "-h"@.len());
    assert("--duration"@.len() != "--help"@.len());
    assert("--warmup"@.len() != "--results-dir"@.len());
    assert("--warmup"@.len() != "-h"@.len());
    assert("--warmup"@.len() != "--help"@.len());
    assert("--results-dir"@.len() != "-h"@.len());
    assert("--results-dir"@.len() != "--help"@.len());
    assert("-h"@.len() != "--help"@.len());
}

/// Which option an argument names: the value options in their order, then
/// help (10), then anything else (11).
fn option_kind(a: &str) -> (k: u8)
    ensures
        k == 0 <==> a@ == "--server-ssh"@,
        k == 1 <==> a@ == "--client-ssh"@,
        k == 2 <==> a@ == "--server-private"@,
        k == 3 <==> a@ == "--client-private"@,
        k == 4 <==> a@ == "--instance-type"@,
        k == 5 <==> a@ == "--ssh-user"@,
        k == 6 <==> a@ == "--port"@,
        k == 7 <==> a@ == "--duration"@,
        k == 8 <==> a@ == "--warmup"@,
        k == 9 <==> a@ == "--results-dir"@,
        k == 10 <==> help_option(a@),
        k == 11 <==> !value_option(a@) && !help_option(a@),
        k <= 11,
{
    proof {
        lemma_option_names_distinct();
    }
    if str_equal(a, "--server-ssh") {
        0
    } else if str_equal(a, "--client-ssh") {
        1
    } else if str_equal(a, "--server-private") {
        2
    } else if str_equal(a, "--client-private") {
        3
    } else if str_equal(a, "--instance-type") {
        4
    } else if str_equal(a, "--ssh-user") {
        5
    } else if str_equal(a, "--port") {
        6
    } else if str_equal(a, "--duration") {
        7
    } else if str_equal(a, "--warmup") {
        8
    } else if str_equal(a, "--results-dir") {
        9
    } else if str_equal(a, "-h") || str_equal(a, "--help") {
        10
    } else {
        11
    }
}

/// The scan's state: the last value seen of each text option.
struct Seen {
    server_ssh: Option<String>,
    client_ssh: Option<String>,
    server_private: Option<String>,
    client_private: Option<String>,
    instance_type: Option<String>,
    ssh_user: Option<String>,
    results_dir: Option<String>,
}

spec fn seen_text(v: Option<String>) -> Option<Seq<char>> {
    match v {
        Some(s) => Some(s@),
        None => None,
    }
}

spec fn seen_matches(seen: Seen, args: Seq<String>, p: int) -> bool {
    &&& seen_text(seen.server_ssh) == last_value(args, "--server-ssh"@, p)
    &&& seen_text(seen.client_ssh) == last_value(args, "--client-ssh"@, p)
    &&& seen_text(seen.server_private) == last_value(args, "--server-private"@, p)
    &&& seen_text(seen.client_private) == last_value(args, "--client-private"@, p)
    &&& seen_text(seen.instance_type) == last_value(args, "--instance-type"@, p)
    &&& seen_text(seen.ssh_user) == last_value(args, "--ssh-user"@, p)
    &&& seen_text(seen.results_dir) == last_value(args, "--results-dir"@, p)
}

fn copy_arg(args: &Vec<String>, i: usize) -> (r: String)
    requires
        i < args.len(),
    ensures
        r@ == args@[i as int]@,
{
    copy_string(&args[i])
}

/// Reads the command line (`args[0]` is the program's name).
///
/// The scan stops at the first argument that is not a value option with a
/// usable value; what it stopped on decides the outcome. When it ran to the
/// end, the required options must all have been given.
pub fn parse_perf_args(args: &Vec<String>) -> (r: Result<PerfArgs, PerfArgsError>)
    ensures
        scan_stop(args@) >= args.len() && first_missing(args@, scan_stop(args@)) is None ==> (
        r matches Ok(a) && settings_match(a, args@, scan_stop(args@))),
        scan_stop(args@) >= args.len() && first_missing(args@, scan_stop(args@)) is Some ==> (
        r matches Err(PerfArgsError::Required(name)) && Some(name@) == first_missing(
            args@,
            scan_stop(args@),
        )),
        scan_stop(args@) < args.len() && help_option(args@[scan_stop(args@)]@) ==> r matches Err(
            PerfArgsError::Help,
        ),
        scan_stop(args@) < args.len() && !help_option(args@[scan_stop(args@)]@) && !value_option(
            args@[scan_stop(args@)]@,
        ) ==> (r matches Err(PerfArgsError::UnknownOption(o)) && o@ == args@[scan_stop(args@)]@),
        scan_stop(args@) < args.len() && value_option(args@[scan_stop(args@)]@) && scan_stop(args@)
            + 1 >= args.len() ==> (r matches Err(PerfArgsError::MissingValue(o)) && o@
            == args@[scan_stop(args@)]@),
        scan_stop(args@) < args.len() && value_option(args@[scan_stop(args@)]@) && scan_stop(args@)
            + 1 < args.len() ==> (r matches Err(PerfArgsError::InvalidNumber(o)) && o@
            == args@[scan_stop(args@)]@),
{
    let mut seen = Seen {
        server_ssh: None,
        client_ssh: None,
        server_private: None,
        client_private: None,
        instance_type: None,
        ssh_user: None,
        results_dir: None,
    };
    let mut port: u16 = PERF_DEFAULT_PORT;
    let mut duration: u32 = PERF_DEFAULT_DURATION;
    let mut warmup: u32 = PERF_DEFAULT_WARMUP;
    let mut i: usize = 1;
    proof {
        reveal_strlit("--port");
        reveal_strlit("--duration");
        reveal_strlit("--warmup");
    }
    while i < args.len()
        invariant
            1 <= i,
            scan_from(args@, i as int) == scan_stop(args@),
            seen_matches(seen, args@, i as int),
            port == number_or(last_value(args@, "--port"@, i as int), 0xffff, PERF_DEFAULT_PORT as nat),
            duration == number_or(
                last_value(args@, "--duration"@, i as int),
                0xffff_ffff,
                PERF_DEFAULT_DURATION as nat,
            ),
            warmup == number_or(
                last_value(args@, "--warmup"@, i as int),
                0xffff_ffff,
                PERF_DEFAULT_WARMUP as nat,
            ),
        decreases args.len() - i,
    {
        let kind = option_kind(args[i].as_str());
        if kind == 10 {
            return Err(PerfArgsError::Help);
        }
        if kind == 11 {
            return Err(PerfArgsError::UnknownOption(copy_arg(args, i)));
        }
        if i + 1 >= args.len() {
            return Err(PerfArgsError::MissingValue(copy_arg(args, i)));
        }
        let value = args[i + 1].as_str();
        if kind == 6 {
            match parse_unsigned(value, 0xffff) {
                Some(v) => {
                    port = v as u16;
                },
                None => {
                    return Err(PerfArgsError::InvalidNumber("--port"));
                },
            }
        } else if kind == 7 {
            match parse_unsigned(value, 0xffff_ffff) {
                Some(v) => {
                    duration = v as u32;
                },
                None => {
                    return Err(PerfArgsError::InvalidNumber("--duration"));
                },
            }
        } else if kind == 8 {
            match parse_unsigned(value, 0xffff_ffff) {
                Some(v) => {
                    warmup = v as u32;
                },
                None => {
                    return Err(PerfArgsError::InvalidNumber("--warmup"));
                },
            }
        } else {
            let v = copy_arg(args, i + 1);
            if kind == 0 {
                seen.server_ssh = Some(v);
            } else if kind == 1 {
                seen.client_ssh = Some(v);
            } else if kind == 2 {
                seen.server_private = Some(v);
            } else if kind == 3 {
                seen.client_private = Some(v);
            } else if kind == 4 {
                seen.instance_type = Some(v);
            } else if kind == 5 {
                seen.ssh_user = Some(v);
            } else {
                seen.results_dir = Some(v);
            }
        }
        proof {
            assert(steps_on(args@, i as int));
        }
        i = i + 2;
    }
    let server_ssh = match seen.server_ssh {
        Some(v) => v,
        None => {
            return Err(PerfArgsError::Required("--server-ssh"));
        },
    };
    let client_ssh = match seen.client_ssh {
        Some(v) => v,
        None => {
            return Err(PerfArgsError::Required("--client-ssh"));
        },
    };
    let server_private = match seen.server_private {
        Some(v) => v,
        None => {
            return Err(PerfArgsError::Required("--server-private"));
        },
    };
    let client_private = match seen.client_private {
        Some(v) => v,
        None => {
            return Err(PerfArgsError::Required("--client-private"));
        },
    };
    let instance_type = match seen.instance_type {
        Some(v) => v,
        None => {
            return Err(PerfArgsError::Required("--instance-type"));
        },
    };
    let ssh_user = match seen.ssh_user {
        Some(v) => v,
        None => to_string(PERF_DEFAULT_SSH_USER),
    };
    Ok(
        PerfArgs {
            server_ssh,
            client_ssh,
            server_private,
            client_private,
            ssh_user,
            instance_type,
            port,
            duration,
            warmup,
            results_dir: seen.results_dir,
        },
    )
}

/// `docs/perf/{instance_type}/{timestamp}`: the default results directory.
pub fn perf_results_dir(instance_type: &str, timestamp: &str) -> (r: String)
    ensures
        r@ == "docs/perf/"@ + instance_type@ + "/"@ + timestamp@,
{
    let mut s = to_string("docs/perf/");
    push_str(&mut s, instance_type);
    push_str(&mut s, "/");
    push_str(&mut s, timestamp);
    s
}

impl PerfArgs {
    /// The results directory: the one given, else the default for the
    /// instance type and the run's timestamp.
    pub fn results_dir_or_default(&self, timestamp: &str) -> (r: String)
        ensures
            self.results_dir matches Some(d) ==> r@ == d@,
            self.results_dir is None ==> r@ == "docs/perf/"@ + self.instance_type@ + "/"@
                + timestamp@,
    {
        match &self.results_dir {
            Some(d) => copy_string(d),
            None => perf_results_dir(self.instance_type.as_str(), timestamp),
        }
    }
}

} // verus!
