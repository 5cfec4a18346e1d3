//! Making sure an image exists before a run: inspect it, and where it is
//! missing locally and a build task is known (and building is allowed),
//! build it and inspect it again.
//!
//! The harness runs each command (locally, or over SSH on the server or the
//! client) and reports how it went; this module decides what comes next and
//! words the failures.
use vstd::prelude::*;
use vstd::string::StrSliceExecFns;

use crate::bench::commands::{build_task_command, image_inspect_command};
use crate::bench::config::DeploymentMode;
use crate::text::{chars_of, push_str, string_from_chars, string_push, to_string};

verus! {

/// Where a command runs.
#[derive(Clone, Copy, Debug, PartialEq, Eq, Structural)]
pub enum CommandHost {
    Local,
    Server,
    Client,
}

/// Which image is checked: a server implementation's, or a load generator's.
#[derive(Clone, Copy, Debug, PartialEq, Eq, Structural)]
pub enum ImageRole {
    Server,
    LoadGenerator,
}

/// The steps of a check.
#[derive(Clone, Copy, Debug, PartialEq, Eq, Structural)]
pub enum ImageCheckStep {
    Inspect,
    Build,
    Recheck,
}

/// What became of a command: it could not be run (the error's text), or it
/// ran and exited.
#[derive(Clone, Debug)]
pub enum CommandOutcome {
    NotRun(String),
    Exited { success: bool, stderr: String },
}

/// What to do next: run a command for a step, or finish with the verdict.
#[derive(Debug)]
pub enum ImageCheckAction {
    Run { step: ImageCheckStep, host: CommandHost, command: String },
    Finish(Result<(), String>),
}

/// An image to check.
#[derive(Clone, Debug)]
pub struct ImageCheck {
    pub role: ImageRole,
    pub mode: DeploymentMode,
    pub image: String,
    pub build_task: Option<String>,
    pub build_missing: bool,
}

// ----- whitespace ------------------------------------------------------------

/// `char::is_whitespace`: the Unicode `White_Space` characters.
pub open spec fn is_whitespace(c: char) -> bool {
    let u = c as u32;
    ||| (0x09 <= u && u <= 0x0d)
    ||| u == 0x20
    ||| u == 0x85
    ||| u == 0xa0
    ||| u == 0x1680
    ||| (0x2000 <= u && u <= 0x200a)
    ||| u == 0x2028
    ||| u == 0x2029
    ||| u == 0x202f
    ||| u == 0x205f
    ||| u == 0x3000
}

fn char_is_whitespace(c: char) -> (b: bool)
    ensures
        b == is_whitespace(c),
{
    let u = c as u32;
    (0x09 <= u && u <= 0x0d) || u == 0x20 || u == 0x85 || u == 0xa0 || u == 0x1680 || (0x2000 <= u
        && u <= 0x200a) || u == 0x2028 || u == 0x2029 || u == 0x202f || u == 0x205f || u == 0x3000
}

/// The text without leading and trailing whitespace (`str::trim`): the part
/// from `start` to `end`, where no whitespace precedes `start` or follows `end`
/// except whitespace, and the part starts and ends with a non-whitespace
/// character (or is empty).
pub open spec fn trim_bounds(s: Seq<char>, bounds: (int, int)) -> bool {
    let (start, end) = bounds;
    &&& 0 <= start <= end <= s.len()
    &&& forall|i: int| 0 <= i < start ==> is_whitespace(#[trigger] s[i])
    &&& forall|i: int| end <= i < s.len() ==> is_whitespace(#[trigger] s[i])
    &&& start < end ==> !is_whitespace(s[start]) && !is_whitespace(s[end - 1])
    &&& start == end ==> forall|i: int| 0 <= i < s.len() ==> is_whitespace(#[trigger] s[i])
}

/// The trimmed text.
pub open spec fn trimmed_text(s: Seq<char>) -> Seq<char> {
    let b = choose|b: (int, int)| trim_bounds(s, b);
    s.subrange(b.0, b.1)
}

/// Trimming is well defined: the bounds exist and give one text.
proof fn lemma_trim_bounds_unique(s: Seq<char>, a: int, b: int, c: int, d: int)
    requires
        trim_bounds(s, (a, b)),
        trim_bounds(s, (c, d)),
    ensures
        s.subrange(a, b) == s.subrange(c, d),
{
    if a < b && c < d {
        assert(a == c) by {
            if a < c {
                assert(is_whitespace(s[a]));
            } else if c < a {
                assert(is_whitespace(s[c]));
            }
        }
        assert(b == d) by {
            if b < d {
                assert(is_whitespace(s[b]) || b >= d);
                assert(is_whitespace(s[d - 1]) || d - 1 < b);
            } else if d < b {
                assert(is_whitespace(s[b - 1]) || b - 1 < d);
            }
        }
    } else if a < b {
        assert(is_whitespace(s[a]));
    } else if c < d {
        assert(is_whitespace(s[c]));
    } else {
        assert(s.subrange(a, b) =~= s.subrange(c, d));
    }
}

/// `str::trim`.
pub fn trim(s: &str) -> (r: String)
    ensures
        r@ == trimmed_text(s@),
{
    let cs = chars_of(s);
    let n = cs.len();
    let mut start: usize = 0;
    while start < n && char_is_whitespace(cs[start])
        invariant
            cs@ == s@,
            n == cs.len(),
            start <= n,
            forall|i: int| 0 <= i < start ==> is_whitespace(#[trigger] cs@[i]),
        decreases n - start,
    {
        start = start + 1;
    }
    let mut end: usize = n;
    while end > start && char_is_whitespace(cs[end - 1])
        invariant
            cs@ == s@,
            n == cs.len(),
            start <= end <= n,
            forall|i: int| end <= i < n ==> is_whitespace(#[trigger] cs@[i]),
        decreases end - start,
    {
        end = end - 1;
    }
    let mut out: Vec<char> = Vec::new();
    let mut i: usize = start;
    while i < end
        invariant
            cs@ == s@,
            start <= i <= end <= n,
            n == cs.len(),
            out@ == cs@.subrange(start as int, i as int),
        decreases end - i,
    {
        out.push(cs[i]);
        i = i + 1;
        assert(out@ =~= cs@.subrange(start as int, i as int));
    }
    proof {
        if start == end {
            assert forall|i: int| 0 <= i < s@.len() implies is_whitespace(#[trigger] s@[i]) by {
                if i >= start {
                    assert(i >= end);
                }
            }
        }
        assert(trim_bounds(s@, (start as int, end as int)));
        let b = choose|b: (int, int)| trim_bounds(s@, b);
        lemma_trim_bounds_unique(s@, b.0, b.1, start as int, end as int);
    }
    string_from_chars(&out)
}

// ----- the check ---------------------------------------------------------------

/// `a` runs `command` on `host` for `step`.
pub open spec fn runs(a: ImageCheckAction, step: ImageCheckStep, host: CommandHost, command: Seq<char>) -> bool {
    a matches ImageCheckAction::Run { step: st, host: h, command: c } && st == step && h == host
        && c@ == command
}

/// `a` finishes the check successfully.
pub open spec fn succeeds(a: ImageCheckAction) -> bool {
    a matches ImageCheckAction::Finish(Ok(()))
}

/// `a` finishes the check with the message `msg`.
pub open spec fn fails_with(a: ImageCheckAction, msg: Seq<char>) -> bool {
    a matches ImageCheckAction::Finish(Err(e)) && e@ == msg
}

/// Where the check's inspections run: locally, else on the host the image
/// is for.
pub open spec fn inspect_host(role: ImageRole, mode: DeploymentMode) -> CommandHost {
    match mode {
        DeploymentMode::Local => CommandHost::Local,
        DeploymentMode::Remote => match role {
            ImageRole::Server => CommandHost::Server,
            ImageRole::LoadGenerator => CommandHost::Client,
        },
    }
}

/// The inspection command's text.
pub open spec fn inspect_text(image: Seq<char>) -> Seq<char> {
    "docker image inspect "@ + image + " >/dev/null 2>&1 && echo ok"@
}

/// The words that name the image in messages: "image" for a server image,
/// "load generator image" for the other.
pub open spec fn image_words(role: ImageRole) -> Seq<char> {
    match role {
        ImageRole::Server => "image"@,
        ImageRole::LoadGenerator => "load generator image"@,
    }
}

/// The message when an inspection could not be run.
pub open spec fn inspect_error_text(c: ImageCheck, e: Seq<char>) -> Seq<char> {
    match c.mode {
        DeploymentMode::Local => "failed to inspect local "@ + image_words(c.role) + " "@ + c.image@
            + ": "@ + e,
        DeploymentMode::Remote => "failed to inspect remote "@ + image_words(c.role) + " "@
            + c.image@ + ": "@ + e,
    }
}

/// The message when the image is missing and no build made it exist.
pub open spec fn missing_text(c: ImageCheck) -> Seq<char> {
    match (c.mode, c.role) {
        (DeploymentMode::Local, ImageRole::Server) => "missing local image '"@ + c.image@
            + "' and no successful build path was available"@,
        (DeploymentMode::Local, ImageRole::LoadGenerator) => "missing local load generator image '"@
            + c.image@ + "'"@,
        (DeploymentMode::Remote, ImageRole::Server) => "missing remote image '"@ + c.image@
            + "' on server host"@,
        (DeploymentMode::Remote, ImageRole::LoadGenerator) => "missing remote load generator image '"@
            + c.image@ + "' on client host"@,
    }
}

/// The words that name the build task in messages.
pub open spec fn task_words(role: ImageRole) -> Seq<char> {
    match role {
        ImageRole::Server => "local build task "@,
        ImageRole::LoadGenerator => "load generator build task "@,
    }
}

/// A build is tried: the image is local, building is allowed and a task is known.
pub open spec fn may_build(c: ImageCheck) -> bool {
    c.mode == DeploymentMode::Local && c.build_missing && c.build_task is Some
}

/// The task's text, when there is one.
pub open spec fn task_text(c: ImageCheck) -> Seq<char> {
    match c.build_task {
        Some(t) => t@,
        None => Seq::empty(),
    }
}

impl ImageCheck {
    /// The first action: inspect the image.
    pub fn start(&self) -> (a: ImageCheckAction)
        ensures
            runs(a, ImageCheckStep::Inspect, inspect_host(self.role, self.mode), inspect_text(self.image@)),
    {
        ImageCheckAction::Run {
            step: ImageCheckStep::Inspect,
            host: self.host(),
            command: image_inspect_command(self.image.as_str()),
        }
    }

    fn host(&self) -> (h: CommandHost)
        ensures
            h == inspect_host(self.role, self.mode),
    {
        match self.mode {
            DeploymentMode::Local => CommandHost::Local,
            DeploymentMode::Remote => match self.role {
                ImageRole::Server => CommandHost::Server,
                ImageRole::LoadGenerator => CommandHost::Client,
            },
        }
    }

    fn message_with(&self, lead: &str, words: &str, tail: &str) -> (r: String)
        ensures
            r@ == lead@ + words@ + tail@,
    {
        let mut m = to_string(lead);
        push_str(&mut m, words);
        push_str(&mut m, tail);
        m
    }

    fn missing(&self) -> (r: String)
        ensures
            r@ == missing_text(*self),
    {
        match (self.mode, self.role) {
            (DeploymentMode::Local, ImageRole::Server) => self.message_with(
                "missing local image '",
                self.image.as_str(),
                "' and no successful build path was available",
            ),
            (DeploymentMode::Local, ImageRole::LoadGenerator) => self.message_with(
                "missing local load generator image '",
                self.image.as_str(),
                "'",
            ),
            (DeploymentMode::Remote, ImageRole::Server) => self.message_with(
                "missing remote image '",
                self.image.as_str(),
                "' on server host",
            ),
            (DeploymentMode::Remote, ImageRole::LoadGenerator) => self.message_with(
                "missing remote load generator image '",
                self.image.as_str(),
                "' on client host",
            ),
        }
    }

    fn words(&self) -> (w: &'static str)
        ensures
            w@ == image_words(self.role),
    {
        match self.role {
            ImageRole::Server => "image",
            ImageRole::LoadGenerator => "load generator image",
        }
    }

    fn task_lead(&self) -> (w: &'static str)
        ensures
            w@ == task_words(self.role),
    {
        match self.role {
            ImageRole::Server => "local build task ",
            ImageRole::LoadGenerator => "load generator build task ",
        }
    }

    /// What follows a step's outcome.
    ///
    /// - An inspection that could not run fails the check; one that succeeds
    ///   ends it; one that fails goes on to the build where one may be tried,
    ///   else reports the image missing.
    /// - A build that could not run, or that exited unsuccessfully (with its
    ///   trimmed error output), fails the check; one that succeeds is followed
    ///   by a second inspection.
    /// - A second inspection that could not run fails the check; then the
    ///   image exists, or is reported missing.
    pub fn next(&self, step: ImageCheckStep, outcome: CommandOutcome) -> (a: ImageCheckAction)
        ensures
            step == ImageCheckStep::Inspect ==> match outcome {
                CommandOutcome::NotRun(e) => fails_with(a, inspect_error_text(*self, e@)),
                CommandOutcome::Exited { success, .. } => if success {
                    succeeds(a)
                } else if may_build(*self) {
                    runs(a, ImageCheckStep::Build, CommandHost::Local, "mise run "@ + task_text(*self))
                } else {
                    fails_with(a, missing_text(*self))
                },
            },
            step == ImageCheckStep::Build ==> match outcome {
                CommandOutcome::NotRun(e) => fails_with(
                    a,
                    "failed to run "@ + task_words(self.role) + task_text(*self) + ": "@ + e@,
                ),
                CommandOutcome::Exited { success, stderr } => if success {
                    runs(a, ImageCheckStep::Recheck, CommandHost::Local, inspect_text(self.image@))
                } else {
                    fails_with(
                        a,
                        task_words(self.role) + task_text(*self) + " failed: "@ + trimmed_text(stderr@),
                    )
                },
            },
            step == ImageCheckStep::Recheck ==> match outcome {
                CommandOutcome::NotRun(e) => fails_with(
                    a,
                    "failed to re-check image "@ + self.image@ + ": "@ + e@,
                ),
                CommandOutcome::Exited { success, .. } => if success {
                    succeeds(a)
                } else {
                    fails_with(a, missing_text(*self))
                },
            },
    {
        match step {
            ImageCheckStep::Inspect => match outcome {
                CommandOutcome::NotRun(e) => {
                    let mut m = to_string("failed to inspect ");
                    match self.mode {
                        DeploymentMode::Local => push_str(&mut m, "local "),
                        DeploymentMode::Remote => push_str(&mut m, "remote "),
                    }
                    push_str(&mut m, self.words());
                    push_str(&mut m, " ");
                    push_str(&mut m, self.image.as_str());
                    push_str(&mut m, ": ");
                    push_str(&mut m, e.as_str());
                    proof {
                        reveal_strlit("failed to inspect ");
                        reveal_strlit("local ");
                        reveal_strlit("remote ");
                        reveal_strlit("failed to inspect local ");
                        reveal_strlit("failed to inspect remote ");
                        assert(m@ =~= inspect_error_text(*self, e@));
                    }
                    ImageCheckAction::Finish(Err(m))
                },
                CommandOutcome::Exited { success, .. } => {
                    if success {
                        ImageCheckAction::Finish(Ok(()))
                    } else {
                        match (self.mode, &self.build_task) {
                            (DeploymentMode::Local, Some(task)) => {
                                if self.build_missing {
                                    ImageCheckAction::Run {
                                        step: ImageCheckStep::Build,
                                        host: CommandHost::Local,
                                        command: build_task_command(task.as_str()),
                                    }
                                } else {
                                    ImageCheckAction::Finish(Err(self.missing()))
                                }
                            },
                            _ => ImageCheckAction::Finish(Err(self.missing())),
                        }
                    }
                },
            },
            ImageCheckStep::Build => {
                let task = match &self.build_task {
                    Some(t) => t.as_str(),
                    None => "",
                };
                proof {
                    reveal_strlit("");
                    assert(task@ == task_text(*self));
                }
                match outcome {
                    CommandOutcome::NotRun(e) => {
                        let mut m = to_string("failed to run ");
                        push_str(&mut m, self.task_lead());
                        push_str(&mut m, task);
                        push_str(&mut m, ": ");
                        push_str(&mut m, e.as_str());
                        ImageCheckAction::Finish(Err(m))
                    },
                    CommandOutcome::Exited { success, stderr } => {
                        if success {
                            ImageCheckAction::Run {
                                step: ImageCheckStep::Recheck,
                                host: CommandHost::Local,
                                command: image_inspect_command(self.image.as_str()),
                            }
                        } else {
                            let mut m = to_string(self.task_lead());
                            push_str(&mut m, task);
                            push_str(&mut m, " failed: ");
                            let detail = trim(stderr.as_str());
                            push_str(&mut m, detail.as_str());
                            ImageCheckAction::Finish(Err(m))
                        }
                    },
                }
            },
            ImageCheckStep::Recheck => match outcome {
                CommandOutcome::NotRun(e) => {
                    let m = self.message_with("failed to re-check image ", self.image.as_str(), ": ");
                    let mut m = m;
                    push_str(&mut m, e.as_str());
                    ImageCheckAction::Finish(Err(m))
                },
                CommandOutcome::Exited { success, .. } => {
                    if success {
                        ImageCheckAction::Finish(Ok(()))
                    } else {
                        ImageCheckAction::Finish(Err(self.missing()))
                    }
                },
            },
        }
    }
}

} // verus!
