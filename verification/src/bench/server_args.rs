//! The port a benchmark server listens on, from its command line.
use vstd::prelude::*;

use crate::bench::perf_args::{parse_unsigned, parsed_unsigned};
use crate::text::str_equal;

verus! {

/// The port when the command line names none.
pub const DEFAULT_PORT: u16 = 3000;

/// The first position, from `p` on, of a `--port` that some argument
/// follows.
pub open spec fn port_flag_from(args: Seq<String>, p: int) -> Option<int>
    decreases args.len() - p,
{
    if p < 0 || p + 1 >= args.len() {
        None
    } else if args[p]@ == "--port"@ {
        Some(p)
    } else {
        port_flag_from(args, p + 1)
    }
}

/// The port a server's arguments give: the value after the first `--port`
/// that has one, read as `str::parse` reads a `u16` (none if it cannot be
/// read), else [`DEFAULT_PORT`].
pub open spec fn port_of(args: Seq<String>) -> Option<nat> {
    match port_flag_from(args, 0) {
        Some(i) => parsed_unsigned(args[i + 1]@, 65535),
        None => Some(DEFAULT_PORT as nat),
    }
}

/// The port a server's arguments give (see [`port_of`]); `None` where the
/// value after `--port` is no port number.
pub fn parse_port(args: &[String]) -> (r: Option<u16>)
    ensures
        match port_of(args@) {
            Some(p) => r == Some(p as u16),
            None => r is None,
        },
{
    let n = args.len();
    let mut i: usize = 0;
    while n > 0 && i < n - 1
        invariant
            n == args@.len(),
            i <= n,
            port_flag_from(args@, 0) == port_flag_from(args@, i as int),
        decreases n - i,
    {
        if str_equal(args[i].as_str(), "--port") {
            return match parse_unsigned(args[i + 1].as_str(), 65535) {
                Some(v) => Some(v as u16),
                None => None,
            };
        }
        i = i + 1;
    }
    Some(DEFAULT_PORT)
}

} // verus!
