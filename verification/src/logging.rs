//! Which log level each part of the program is held to.
//!
//! The program logs at the level that the user asks for. Some crates that it
//! uses are too talkative at that level, and are held to a quieter one by
//! directives of the form `target=level`.

use crate::describe::Describe;
use vstd::prelude::*;
use vstd::string::StringExecFns;

verus! {

/// The most verbose level that is logged.
#[derive(Debug, Clone, Copy, PartialEq, Eq, Structural, Hash)]
pub enum LevelFilter {
    Off,
    Error,
    Warn,
    Info,
    Debug,
    Trace,
}

impl LevelFilter {
    /// The level one step below, or `Off` where there is none below.
    pub open spec fn quieter(self) -> LevelFilter {
        match self {
            LevelFilter::Off => LevelFilter::Off,
            LevelFilter::Error => LevelFilter::Off,
            LevelFilter::Warn => LevelFilter::Error,
            LevelFilter::Info => LevelFilter::Warn,
            LevelFilter::Debug => LevelFilter::Info,
            LevelFilter::Trace => LevelFilter::Debug,
        }
    }

    /// How much is logged at the level: nothing at 0, everything at 5.
    pub open spec fn verbosity(self) -> nat {
        match self {
            LevelFilter::Off => 0,
            LevelFilter::Error => 1,
            LevelFilter::Warn => 2,
            LevelFilter::Info => 3,
            LevelFilter::Debug => 4,
            LevelFilter::Trace => 5,
        }
    }
}

/// A level is described by its name in lower case.
impl Describe for LevelFilter {
    open spec fn description(&self) -> Seq<char> {
        match self {
            LevelFilter::Off => "off"@,
            LevelFilter::Error => "error"@,
            LevelFilter::Warn => "warn"@,
            LevelFilter::Info => "info"@,
            LevelFilter::Debug => "debug"@,
            LevelFilter::Trace => "trace"@,
        }
    }

    fn describe(&self) -> (text: String) {
        match self {
            LevelFilter::Off => String::from_str("off"),
            LevelFilter::Error => String::from_str("error"),
            LevelFilter::Warn => String::from_str("warn"),
            LevelFilter::Info => String::from_str("info"),
            LevelFilter::Debug => String::from_str("debug"),
            LevelFilter::Trace => String::from_str("trace"),
        }
    }
}

/// The level one step below `level`, or `Off` where there is none below.
pub fn one_level_quieter(level: LevelFilter) -> (quieter: LevelFilter)
    ensures
        quieter == level.quieter(),
{
    match level {
        LevelFilter::Off => LevelFilter::Off,
        LevelFilter::Error => LevelFilter::Off,
        LevelFilter::Warn => LevelFilter::Error,
        LevelFilter::Info => LevelFilter::Warn,
        LevelFilter::Debug => LevelFilter::Info,
        LevelFilter::Trace => LevelFilter::Debug,
    }
}

/// A step down takes one from the verbosity of a level, down to 0.
pub proof fn lemma_quieter_is_one_step_down(level: LevelFilter)
    ensures
        level.quieter().verbosity() == if level.verbosity() == 0 {
            0
        } else {
            level.verbosity() - 1
        },
{
}

/// A level is known by how much is logged at it.
pub proof fn lemma_verbosity_tells_levels_apart(first: LevelFilter, second: LevelFilter)
    requires
        first.verbosity() == second.verbosity(),
    ensures
        first == second,
{
}

/// The crates of which only errors are logged.
pub open spec fn warning_silenced_crates() -> Seq<Seq<char>> {
    seq!["netlink_proto"@]
}

/// The crates of which only warnings and errors are logged.
pub open spec fn silenced_crates() -> Seq<Seq<char>> {
    seq![
        "h2"@,
        "tokio_core"@,
        "tokio_io"@,
        "tokio_proto"@,
        "tokio_reactor"@,
        "tokio_threadpool"@,
        "tokio_util"@,
        "tower"@,
        "want"@,
        "ws"@,
        "mio"@,
        "hyper"@,
        "rtnetlink"@,
        "rustls"@,
        "netlink_sys"@,
        "tracing"@,
        "hickory_proto"@,
        "hickory_server"@,
        "hickory_resolver"@,
    ]
}

/// The crates that are logged one level quieter than the rest.
pub open spec fn slightly_silenced_crates() -> Seq<Seq<char>> {
    seq!["mnl"@, "nftnl"@, "udp_over_tcp"@]
}

/// The directive that holds a target to a level.
pub open spec fn directive(target: Seq<char>, level: LevelFilter) -> Seq<char> {
    target + "="@ + level.description()
}

/// The directives that hold each of the targets to a level.
pub open spec fn directives(targets: Seq<Seq<char>>, level: LevelFilter) -> Seq<Seq<char>> {
    targets.map_values(|target: Seq<char>| directive(target, level))
}

/// The directives of the default filter, where the user asks for `level`.
pub open spec fn default_directives(level: LevelFilter) -> Seq<Seq<char>> {
    directives(warning_silenced_crates(), LevelFilter::Error) + directives(
        silenced_crates(),
        LevelFilter::Warn,
    ) + directives(slightly_silenced_crates(), level.quieter())
}

/// The views of the texts in `texts`, in order.
pub open spec fn directive_views(texts: Seq<String>) -> Seq<Seq<char>> {
    texts.map_values(|text: String| text@)
}

/// Adds the directive that holds `target` to `level`.
fn push_directive(directives: &mut Vec<String>, target: &str, level: LevelFilter)
    ensures
        directive_views(final(directives)@) == directive_views(old(directives)@).push(
            directive(target@, level),
        ),
{
    let mut text = String::from_str(target);
    text.append("=");
    text.append(level.describe().as_str());
    directives.push(text);
    assert(directive_views(directives@) =~= directive_views(old(directives)@).push(
        directive(target@, level),
    ));
}

/// The directives of the default filter, where the user asks for `level`:
/// one for each crate that is held to a level of its own.
pub fn get_default_directives(level: LevelFilter) -> (texts: Vec<String>)
    ensures
        directive_views(texts@) == default_directives(level),
{
    let mut texts: Vec<String> = Vec::new();
    push_directive(&mut texts, "netlink_proto", LevelFilter::Error);
    assert(directive_views(texts@) =~= directives(
        warning_silenced_crates(),
        LevelFilter::Error,
    ));
    let ghost first = directive_views(texts@);

    push_directive(&mut texts, "h2", LevelFilter::Warn);
    push_directive(&mut texts, "tokio_core", LevelFilter::Warn);
    push_directive(&mut texts, "tokio_io", LevelFilter::Warn);
    push_directive(&mut texts, "tokio_proto", LevelFilter::Warn);
    push_directive(&mut texts, "tokio_reactor", LevelFilter::Warn);
    push_directive(&mut texts, "tokio_threadpool", LevelFilter::Warn);
    push_directive(&mut texts, "tokio_util", LevelFilter::Warn);
    push_directive(&mut texts, "tower", LevelFilter::Warn);
    push_directive(&mut texts, "want", LevelFilter::Warn);
    push_directive(&mut texts, "ws", LevelFilter::Warn);
    push_directive(&mut texts, "mio", LevelFilter::Warn);
    push_directive(&mut texts, "hyper", LevelFilter::Warn);
    push_directive(&mut texts, "rtnetlink", LevelFilter::Warn);
    push_directive(&mut texts, "rustls", LevelFilter::Warn);
    push_directive(&mut texts, "netlink_sys", LevelFilter::Warn);
    push_directive(&mut texts, "tracing", LevelFilter::Warn);
    push_directive(&mut texts, "hickory_proto", LevelFilter::Warn);
    push_directive(&mut texts, "hickory_server", LevelFilter::Warn);
    push_directive(&mut texts, "hickory_resolver", LevelFilter::Warn);
    assert(directive_views(texts@) =~= first + directives(silenced_crates(), LevelFilter::Warn));
    let ghost second = directive_views(texts@);

    // The levels set here are never overwritten, since the default filter cannot be reloaded.
    let quieter = one_level_quieter(level);
    push_directive(&mut texts, "mnl", quieter);
    push_directive(&mut texts, "nftnl", quieter);
    push_directive(&mut texts, "udp_over_tcp", quieter);
    assert(directive_views(texts@) =~= second + directives(slightly_silenced_crates(), quieter));
    texts
}

} // verus!
