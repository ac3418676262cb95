//! Launching the browser and finding its endpoint.
//!
//! The browser prints the address of its debugging socket among its
//! diagnostics. The caller spawns the process described by
//! [`launch_command`], feeds what it reads from the diagnostic stream to
//! [`discovery_step`] one event at a time, and stops at the first step that
//! is not [`Discovery::Continue`].

use crate::error::Error;
use crate::wire::text_view;
use tokio::time::error::Elapsed;
use vstd::prelude::*;

verus! {

/// The name of the browser binary.
pub const BROWSER_PROGRAM: &'static str = "chromium";

/// The flag that puts the browser into automation mode.
pub const AUTOMATION_FLAG: &'static str = "--enable-automation";

/// The flag that opens the debugging socket on a port of the system's choice.
pub const DEBUGGING_PORT_FLAG: &'static str = "--remote-debugging-port=0";

/// The pattern of an endpoint in a line of diagnostics: everything from the
/// first `ws://` to the end of the line.
pub const ENDPOINT_PATTERN: &'static str = "ws://.+$";

/// The seconds that the browser has to print its endpoint.
pub const DISCOVERY_DEADLINE_SECS: u64 = 30;

/// How to start the browser: the program and its arguments. The diagnostic
/// stream of the process is to be captured, not inherited.
#[derive(Debug, PartialEq, Eq)]
pub struct LaunchCommand {
    pub program: String,
    pub args: Vec<String>,
}

/// The command that starts the browser for automation.
pub fn launch_command() -> (command: LaunchCommand)
    ensures
        command.program@ == BROWSER_PROGRAM@,
        command.args@.len() == 2,
        command.args@[0]@ == AUTOMATION_FLAG@,
        command.args@[1]@ == DEBUGGING_PORT_FLAG@,
{
    let mut args: Vec<String> = Vec::new();
    args.push(AUTOMATION_FLAG.to_owned());
    args.push(DEBUGGING_PORT_FLAG.to_owned());
    LaunchCommand { program: BROWSER_PROGRAM.to_owned(), args }
}

/// Judges the attempt to spawn the browser. `spawned` is the spawn's own
/// failure, or whether the process came with a diagnostic stream.
pub fn check_spawn(spawned: Result<bool, std::io::Error>) -> (checked: Result<(), Error>)
    ensures
        checked == match spawned {
            Err(e) => Err::<(), Error>(Error::Spawn(e)),
            Ok(false) => Err(Error::NoStderr),
            Ok(true) => Ok(()),
        },
{
    match spawned {
        Err(e) => Err(Error::Spawn(e)),
        Ok(false) => Err(Error::NoStderr),
        Ok(true) => Ok(()),
    }
}

/// The characters that an endpoint begins with.
pub open spec fn scheme() -> Seq<char> {
    seq!['w', 's', ':', '/', '/']
}

/// Whether a line announces an endpoint at index `i`: the scheme stands
/// there, at least one character follows it, and no line feed follows it.
pub open spec fn announced_at(line: Seq<char>, i: int) -> bool {
    &&& 0 <= i
    &&& i + 5 < line.len()
    &&& line.subrange(i, i + 5) == scheme()
    &&& forall|j: int| i + 5 <= j < line.len() ==> line[j] != '\n'
}

/// Whether `found` is what a line announces: the rest of the line from the
/// first index at which an endpoint is announced, and nothing where there is
/// no such index.
pub open spec fn is_endpoint_of(line: Seq<char>, found: Option<Seq<char>>) -> bool {
    match found {
        Some(url) => exists|i: int|
            {
                &&& #[trigger] announced_at(line, i)
                &&& forall|k: int| announced_at(line, k) ==> i <= k
                &&& url == line.subrange(i, line.len() as int)
            },
        None => forall|i: int| !announced_at(line, i),
    }
}

/// The text of the leftmost match of the regular expression `pattern` in
/// `haystack`, as `regex::Regex::captures` finds it; `None` where there is no
/// match or `regex::Regex::new` does not take the pattern.
pub uninterp spec fn first_match(pattern: Seq<char>, haystack: Seq<char>) -> Option<Seq<char>>;

/// Compiles `pattern` with `regex::Regex::new`, searches `haystack` with
/// `Regex::captures` and copies the whole match out. Trusted: the text, or its
/// absence, is what `first_match` names for this pattern and haystack. For
/// the endpoint pattern it is also trusted to be what the crate's syntax
/// gives: a literal scheme, then one or more characters other than a line
/// feed, up to the end of the haystack, starting as far left as possible.
#[verifier::external_body]
fn find_first(pattern: &str, haystack: &str) -> (found: Option<String>)
    ensures
        text_view(found) == first_match(pattern@, haystack@),
        pattern@ == ENDPOINT_PATTERN@ ==> is_endpoint_of(haystack@, text_view(found)),
{
    let captures = regex::Regex::new(pattern).ok()?.captures(haystack)?;
    captures.get(0).map(|whole| whole.as_str().to_string())
}

/// The endpoint that a line of diagnostics announces, if it announces one:
/// everything from the first `ws://` that is followed by something, provided
/// that the rest of the line holds no line feed. An endpoint therefore begins
/// with the scheme and is longer than it.
pub fn find_endpoint(line: &str) -> (found: Option<String>)
    ensures
        text_view(found) == first_match(ENDPOINT_PATTERN@, line@),
        is_endpoint_of(line@, text_view(found)),
        found matches Some(url) ==> url@.len() > 5 && url@.subrange(0, 5) == scheme(),
{
    let found = find_first(ENDPOINT_PATTERN, line);
    proof {
        lemma_endpoint_begins_with_scheme(line@, text_view(found));
    }
    found
}

/// What a line announces begins with the scheme and goes on after it.
pub proof fn lemma_endpoint_begins_with_scheme(line: Seq<char>, found: Option<Seq<char>>)
    requires
        is_endpoint_of(line, found),
    ensures
        found matches Some(url) ==> url.len() > 5 && url.subrange(0, 5) == scheme(),
{
    if let Some(url) = found {
        let i = choose|i: int|
            {
                &&& #[trigger] announced_at(line, i)
                &&& forall|k: int| announced_at(line, k) ==> i <= k
                &&& url == line.subrange(i, line.len() as int)
            };
        assert(url.subrange(0, 5) =~= line.subrange(i, i + 5));
    }
}

/// A line that holds nothing but the scheme, or no scheme at all in front of
/// another character, announces no endpoint.
pub proof fn lemma_short_line_announces_nothing(line: Seq<char>, found: Option<Seq<char>>)
    requires
        is_endpoint_of(line, found),
        line.len() <= 5,
    ensures
        found is None,
{
}

/// What happened while waiting for the endpoint.
#[derive(Debug)]
pub enum DiscoveryEvent {
    /// A line of diagnostics was read.
    Line(String),
    /// A read gave no line: it failed, or the bytes were not text.
    Unreadable,
    /// The deadline passed.
    DeadlineElapsed(Elapsed),
}

/// What to do after an event.
#[derive(Debug)]
pub enum Discovery {
    /// Keep reading.
    Continue,
    /// The endpoint was found.
    Found(String),
    /// Give up. The process is left to the caller, who can still kill it.
    Fail(Error),
}

/// The end of a discovery, as a mathematical value.
pub enum Verdict {
    /// The endpoint.
    Endpoint(Seq<char>),
    /// No endpoint in time.
    TimedOut,
}

/// The verdict that an event brings, if it brings one: a line with an
/// endpoint ends the discovery well, the deadline ends it badly, and
/// everything else is passed over.
pub open spec fn verdict(event: DiscoveryEvent) -> Option<Verdict> {
    match event {
        DiscoveryEvent::Line(line) => match first_match(ENDPOINT_PATTERN@, line@) {
            Some(url) => Some(Verdict::Endpoint(url)),
            None => None,
        },
        DiscoveryEvent::Unreadable => None,
        DiscoveryEvent::DeadlineElapsed(_) => Some(Verdict::TimedOut),
    }
}

/// The verdict of a whole discovery: that of the first event that brings one.
pub open spec fn discover(events: Seq<DiscoveryEvent>) -> Option<Verdict>
    decreases events.len(),
{
    if events.len() == 0 {
        None
    } else {
        match verdict(events[0]) {
            Some(v) => Some(v),
            None => discover(events.drop_first()),
        }
    }
}

/// Decides on a line, given the endpoint that was found in it.
pub fn after_line(found: Option<String>) -> (next: Discovery)
    ensures
        next == match found {
            Some(url) => Discovery::Found(url),
            None => Discovery::Continue,
        },
{
    match found {
        Some(url) => Discovery::Found(url),
        None => Discovery::Continue,
    }
}

/// One turn of the discovery: decides what to do after an event.
///
/// A line that announces an endpoint ends the discovery with that endpoint.
/// The deadline ends it with [`Error::Timeout`]. A line without an endpoint or
/// a read without a line changes nothing.
pub fn discovery_step(event: DiscoveryEvent) -> (next: Discovery)
    ensures
        match verdict(event) {
            Some(Verdict::Endpoint(url)) => next matches Discovery::Found(found) && found@ == url,
            Some(Verdict::TimedOut) => next matches Discovery::Fail(Error::Timeout(_)),
            None => next is Continue,
        },
        event matches DiscoveryEvent::DeadlineElapsed(e) ==> next == Discovery::Fail(
            Error::Timeout(e),
        ),
        next matches Discovery::Found(found) ==> (event matches DiscoveryEvent::Line(line)
            && is_endpoint_of(line@, Some(found@))),
{
    match event {
        DiscoveryEvent::Line(line) => after_line(find_endpoint(line.as_str())),
        DiscoveryEvent::Unreadable => Discovery::Continue,
        DiscoveryEvent::DeadlineElapsed(e) => Discovery::Fail(Error::Timeout(e)),
    }
}

/// The first event that brings a verdict decides: the first endpoint that is
/// announced before the deadline is the one that the discovery ends with.
pub proof fn lemma_first_endpoint_is_found(events: Seq<DiscoveryEvent>, i: int)
    requires
        0 <= i < events.len(),
        verdict(events[i]) is Some,
        forall|j: int| 0 <= j < i ==> verdict(#[trigger] events[j]) is None,
    ensures
        discover(events) == verdict(events[i]),
    decreases i,
{
    if i > 0 {
        let rest = events.drop_first();
        assert(verdict(events[0]) is None);
        assert(rest[i - 1] == events[i]);
        assert forall|j: int| 0 <= j < i - 1 implies verdict(#[trigger] rest[j]) is None by {
            assert(rest[j] == events[j + 1]);
        }
        lemma_first_endpoint_is_found(rest, i - 1);
    }
}

/// A discovery in which no line announces an endpoint before the deadline
/// ends with a timeout.
pub proof fn lemma_no_endpoint_times_out(events: Seq<DiscoveryEvent>, i: int)
    requires
        0 <= i < events.len(),
        events[i] is DeadlineElapsed,
        forall|j: int| 0 <= j < i ==> verdict(#[trigger] events[j]) is None,
    ensures
        discover(events) == Some(Verdict::TimedOut),
{
    lemma_first_endpoint_is_found(events, i);
}

} // verus!
