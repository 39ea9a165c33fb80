//! Log levels and the filter directives that are built from them.

use vstd::prelude::*;
use vstd::string::StringExecFns;

verus! {

/// Verbosity of a log record, from the most to the least verbose.
#[derive(Clone, Copy, Debug, PartialEq, Eq, Structural)]
pub enum Level {
    Trace,
    Debug,
    Info,
    Warn,
    Error,
}

impl Level {
    /// Position of the level, counted from `Trace` (0) to `Error` (4).
    pub open spec fn rank(self) -> int {
        match self {
            Level::Trace => 0,
            Level::Debug => 1,
            Level::Info => 2,
            Level::Warn => 3,
            Level::Error => 4,
        }
    }

    /// The level's name as a filter directive spells it.
    pub open spec fn name_text(self) -> Seq<char> {
        match self {
            Level::Trace => "trace"@,
            Level::Debug => "debug"@,
            Level::Info => "info"@,
            Level::Warn => "warn"@,
            Level::Error => "error"@,
        }
    }

    /// The next less verbose level, and `Error` for `Error`.
    pub open spec fn pred(self) -> Level {
        match self {
            Level::Trace => Level::Debug,
            Level::Debug => Level::Info,
            Level::Info => Level::Warn,
            Level::Warn => Level::Error,
            Level::Error => Level::Error,
        }
    }

    /// The level's name in lower case.
    pub fn name(self) -> (s: &'static str)
        ensures
            s@ == self.name_text(),
    {
        match self {
            Level::Trace => "trace",
            Level::Debug => "debug",
            Level::Info => "info",
            Level::Warn => "warn",
            Level::Error => "error",
        }
    }
}

/// Saturating predecessor of a log level: the next less verbose level, and
/// `Error` for `Error`.
pub fn saturating_pred_level(log_level: Level) -> (pred: Level)
    ensures
        pred == log_level.pred(),
        pred.rank() == if log_level.rank() < 4 {
            log_level.rank() + 1
        } else {
            4
        },
{
    match log_level {
        Level::Trace => Level::Debug,
        Level::Debug => Level::Info,
        Level::Info => Level::Warn,
        Level::Warn => Level::Error,
        Level::Error => Level::Error,
    }
}

/// One directive: the level alone for the empty target, which sets the
/// default level, and `target=level` for any other.
pub open spec fn directive(target: Seq<char>, level: Level) -> Seq<char> {
    if target.len() == 0 {
        level.name_text()
    } else {
        target + "="@ + level.name_text()
    }
}

/// The directives of `targets`, in order, separated by commas.
pub open spec fn directives(targets: Seq<(&str, Level)>) -> Seq<char>
    decreases targets.len(),
{
    if targets.len() == 0 {
        Seq::empty()
    } else if targets.len() == 1 {
        directive(targets[0].0@, targets[0].1)
    } else {
        directives(targets.drop_last()) + ","@ + directive(targets.last().0@, targets.last().1)
    }
}

/// Writes the filter directive string for `targets`. The empty target `""`
/// sets a default level.
pub fn targets_directive_str(targets: &[(&str, Level)]) -> (out: String)
    ensures
        out@ == directives(targets@),
{
    let mut out = String::new();
    let mut i: usize = 0;
    while i < targets.len()
        invariant
            i <= targets.len(),
            out@ == directives(targets@.take(i as int)),
        decreases targets.len() - i,
    {
        let (target, level) = targets[i];
        proof {
            assert(targets@.take(i + 1).drop_last() =~= targets@.take(i as int));
        }
        if i > 0 {
            out.append(",");
        }
        if !target.is_empty() {
            out.append(target);
            out.append("=");
        }
        out.append(level.name());
        i = i + 1;
    }
    proof {
        assert(targets@.take(targets.len() as int) =~= targets@);
    }
    out
}

/// The targets that are logged by default at `log_level`: the service's
/// own, and everything else one level less verbose.
pub open spec fn default_targets(log_level: Level) -> Seq<(&'static str, Level)> {
    seq![
        ("", log_level.pred()),
        ("bip300301", log_level),
        ("cusf_enforcer_mempool", log_level),
        ("jsonrpsee_core::tracing", log_level),
        ("bip300301_enforcer", log_level),
    ]
}

/// The filter directives that apply by default at `log_level`.
pub fn default_directives(log_level: Level) -> (out: String)
    ensures
        out@ == directives(default_targets(log_level)),
{
    let targets: [(&'static str, Level); 5] = [
        ("", saturating_pred_level(log_level)),
        ("bip300301", log_level),
        ("cusf_enforcer_mempool", log_level),
        ("jsonrpsee_core::tracing", log_level),
        ("bip300301_enforcer", log_level),
    ];
    targets_directive_str(targets.as_slice())
}

/// The filter directives at `log_level`: the defaults, and after them the
/// directives that the environment gives, if it gives any.
pub fn filter_directives(log_level: Level, env_directives: Option<&str>) -> (out: String)
    ensures
        out@ == match env_directives {
            Some(env) => directives(default_targets(log_level)) + ","@ + env@,
            None => directives(default_targets(log_level)),
        },
{
    let mut out = default_directives(log_level);
    match env_directives {
        Some(env) => {
            out.append(",");
            out.append(env);
        },
        None => {},
    }
    out
}

} // verus!
