//! Command-line arguments of the driver.
//!
//! Every token has the form `--key=value`.  The keys are `target` and `out`,
//! which must be given, and `host` and `sysroot`, which may be left out.  When
//! a key is given more than once its last value counts.

use crate::text::strip_prefix;
use vstd::prelude::*;
use vstd::string::StringExecFns;

verus! {

/// Exit status of a run that ended with a usage error.
pub const USAGE_EXIT_STATUS: i32 = 1;

/// The resolved arguments of one run.
#[derive(Clone, Debug, PartialEq, Eq)]
pub struct Options {
    /// Triple to compile for.
    pub target: String,
    /// Directory that receives the objects and the archives.
    pub out_dir: String,
    /// Triple of the machine that compiles, when given.
    pub host: Option<String>,
    /// Root of the toolchain installation, when given.
    pub sysroot: Option<String>,
}

/// Mathematical content of [`Options`].
pub struct OptionsView {
    pub target: Seq<char>,
    pub out_dir: Seq<char>,
    pub host: Option<Seq<char>>,
    pub sysroot: Option<Seq<char>>,
}

impl View for Options {
    type V = OptionsView;

    open spec fn view(&self) -> OptionsView {
        OptionsView {
            target: self.target@,
            out_dir: self.out_dir@,
            host: self.host.deep_view(),
            sysroot: self.sysroot.deep_view(),
        }
    }
}

/// Why a command line was turned down.
#[derive(Clone, Debug, PartialEq, Eq)]
pub enum UsageError {
    /// A token begins with none of the four keys.
    UnknownArgument { argument: String },
    /// No token names the target.
    MissingTarget,
    /// No token names the output directory.
    MissingOut,
}

/// Mathematical content of [`UsageError`].
pub enum UsageErrorView {
    UnknownArgument { argument: Seq<char> },
    MissingTarget,
    MissingOut,
}

impl View for UsageError {
    type V = UsageErrorView;

    open spec fn view(&self) -> UsageErrorView {
        match self {
            UsageError::UnknownArgument { argument } => UsageErrorView::UnknownArgument {
                argument: argument@,
            },
            UsageError::MissingTarget => UsageErrorView::MissingTarget,
            UsageError::MissingOut => UsageErrorView::MissingOut,
        }
    }
}

/// Key of the host triple.
pub open spec fn host_key() -> Seq<char> {
    "--host="@
}

/// Key of the target triple.
pub open spec fn target_key() -> Seq<char> {
    "--target="@
}

/// Key of the output directory.
pub open spec fn out_key() -> Seq<char> {
    "--out="@
}

/// Key of the sysroot.
pub open spec fn sysroot_key() -> Seq<char> {
    "--sysroot="@
}

/// The line that tells how to call the driver.
pub open spec fn usage_line() -> Seq<char> {
    "USAGE: build-libunwind --target=<TARGET> --out=<OUT_DIR> [--host=<HOST>] [--sysroot=<SYSROOT>]"@
}

/// `token` begins with one of the four keys.
pub open spec fn recognized(token: Seq<char>) -> bool {
    ||| host_key().is_prefix_of(token)
    ||| target_key().is_prefix_of(token)
    ||| out_key().is_prefix_of(token)
    ||| sysroot_key().is_prefix_of(token)
}

/// The first token of `tokens` that is not recognized, if there is one.
pub open spec fn first_unrecognized(tokens: Seq<Seq<char>>) -> Option<Seq<char>>
    decreases tokens.len(),
{
    if tokens.len() == 0 {
        None
    } else if first_unrecognized(tokens.drop_last()) is Some {
        first_unrecognized(tokens.drop_last())
    } else if !recognized(tokens.last()) {
        Some(tokens.last())
    } else {
        None
    }
}

/// What follows `key` in the last token of `tokens` that begins with `key`.
pub open spec fn last_value(tokens: Seq<Seq<char>>, key: Seq<char>) -> Option<Seq<char>>
    decreases tokens.len(),
{
    if tokens.len() == 0 {
        None
    } else if key.is_prefix_of(tokens.last()) {
        Some(tokens.last().skip(key.len() as int))
    } else {
        last_value(tokens.drop_last(), key)
    }
}

/// What a command line resolves to.  An unrecognized token is reported before
/// a missing target, and a missing target before a missing output directory.
pub open spec fn resolved(tokens: Seq<Seq<char>>) -> Result<OptionsView, UsageErrorView> {
    if let Some(argument) = first_unrecognized(tokens) {
        Err(UsageErrorView::UnknownArgument { argument })
    } else if last_value(tokens, target_key()) is None {
        Err(UsageErrorView::MissingTarget)
    } else if last_value(tokens, out_key()) is None {
        Err(UsageErrorView::MissingOut)
    } else {
        Ok(
            OptionsView {
                target: last_value(tokens, target_key())->0,
                out_dir: last_value(tokens, out_key())->0,
                host: last_value(tokens, host_key()),
                sysroot: last_value(tokens, sysroot_key()),
            },
        )
    }
}

/// Mathematical content of the outcome of [`parse`].
pub open spec fn outcome_view(outcome: Result<Options, UsageError>) -> Result<
    OptionsView,
    UsageErrorView,
> {
    match outcome {
        Ok(options) => Ok(options@),
        Err(error) => Err(error@),
    }
}

/// An unrecognized token among the first tokens is still the first
/// unrecognized token of the whole command line.
pub proof fn lemma_first_unrecognized_stays(tokens: Seq<Seq<char>>, n: int)
    requires
        0 <= n <= tokens.len(),
        first_unrecognized(tokens.take(n)) is Some,
    ensures
        first_unrecognized(tokens) == first_unrecognized(tokens.take(n)),
    decreases tokens.len() - n,
{
    if n < tokens.len() {
        assert(tokens.take(n + 1).drop_last() == tokens.take(n));
        lemma_first_unrecognized_stays(tokens, n + 1);
    } else {
        assert(tokens.take(n) == tokens);
    }
}

/// A command line with an unrecognized token resolves to the error that names
/// its first unrecognized token.
pub proof fn lemma_unrecognized_is_reported(tokens: Seq<Seq<char>>, at: int)
    requires
        0 <= at < tokens.len(),
        !recognized(tokens[at]),
    ensures
        first_unrecognized(tokens) is Some,
        resolved(tokens) == Err::<OptionsView, UsageErrorView>(
            UsageErrorView::UnknownArgument { argument: first_unrecognized(tokens)->0 },
        ),
    decreases tokens.len(),
{
    if at < tokens.len() - 1 {
        lemma_unrecognized_is_reported(tokens.drop_last(), at);
    }
}

/// What is said of `error` before the usage message: an unknown argument is
/// named, a missing one is not.
pub open spec fn complaint_of(error: UsageErrorView) -> Option<Seq<char>> {
    match error {
        UsageErrorView::UnknownArgument { argument } => Some(
            "error: unknown argument '"@ + argument + "'"@,
        ),
        _ => None,
    }
}

/// The line that names the argument at fault, when `error` has one.
pub fn complaint(error: &UsageError) -> (line: Option<String>)
    ensures
        line.deep_view() == complaint_of(error@),
{
    match error {
        UsageError::UnknownArgument { argument } => Some(
            "error: unknown argument '".to_owned().concat(argument.as_str()).concat("'"),
        ),
        _ => None,
    }
}

/// The usage message.
pub fn usage() -> (line: String)
    ensures
        line@ == usage_line(),
{
    "USAGE: build-libunwind --target=<TARGET> --out=<OUT_DIR> [--host=<HOST>] [--sysroot=<SYSROOT>]".to_owned()
}

/// Resolves the command line `tokens` (without the program's name).
pub fn parse(tokens: &Vec<String>) -> (outcome: Result<Options, UsageError>)
    ensures
        outcome_view(outcome) == resolved(tokens.deep_view()),
{
    let ghost all = tokens.deep_view();
    let mut host: Option<String> = None;
    let mut target: Option<String> = None;
    let mut out_dir: Option<String> = None;
    let mut sysroot: Option<String> = None;
    let mut i: usize = 0;
    while i < tokens.len()
        invariant
            i <= tokens.len(),
            all == tokens.deep_view(),
            first_unrecognized(all.take(i as int)) is None,
            host.deep_view() == last_value(all.take(i as int), host_key()),
            target.deep_view() == last_value(all.take(i as int), target_key()),
            out_dir.deep_view() == last_value(all.take(i as int), out_key()),
            sysroot.deep_view() == last_value(all.take(i as int), sysroot_key()),
        decreases tokens.len() - i,
    {
        let token = tokens[i].as_str();
        proof {
            assert(all.take(i + 1).drop_last() == all.take(i as int));
        }
        if let Some(value) = strip_prefix(token, "--host=") {
            host = Some(value);
        } else if let Some(value) = strip_prefix(token, "--target=") {
            target = Some(value);
        } else if let Some(value) = strip_prefix(token, "--out=") {
            out_dir = Some(value);
        } else if let Some(value) = strip_prefix(token, "--sysroot=") {
            sysroot = Some(value);
        } else {
            proof {
                lemma_first_unrecognized_stays(all, i + 1);
            }
            return Err(UsageError::UnknownArgument { argument: tokens[i].clone() });
        }
        proof {
            lemma_keys_differ();
        }
        i += 1;
    }
    assert(all.take(tokens.len() as int) == all);
    match (target, out_dir) {
        (None, _) => Err(UsageError::MissingTarget),
        (Some(_), None) => Err(UsageError::MissingOut),
        (Some(target), Some(out_dir)) => Ok(Options { target, out_dir, host, sysroot }),
    }
}

/// No token begins with two different keys.
pub proof fn lemma_keys_differ()
    ensures
        forall|token: Seq<char>| #[trigger]
            host_key().is_prefix_of(token) ==> !target_key().is_prefix_of(token)
                && !out_key().is_prefix_of(token) && !sysroot_key().is_prefix_of(token),
        forall|token: Seq<char>| #[trigger]
            target_key().is_prefix_of(token) ==> !out_key().is_prefix_of(token)
                && !sysroot_key().is_prefix_of(token),
        forall|token: Seq<char>| #[trigger]
            out_key().is_prefix_of(token) ==> !sysroot_key().is_prefix_of(token),
{
    reveal_strlit("--host=");
    reveal_strlit("--target=");
    reveal_strlit("--out=");
    reveal_strlit("--sysroot=");
    assert forall|token: Seq<char>| #[trigger] host_key().is_prefix_of(token) implies token[2]
        == 'h' by {
        assert(token.subrange(0, 7)[2] == host_key()[2]);
    }
    assert forall|token: Seq<char>| #[trigger] target_key().is_prefix_of(token) implies token[2]
        == 't' by {
        assert(token.subrange(0, 9)[2] == target_key()[2]);
    }
    assert forall|token: Seq<char>| #[trigger] out_key().is_prefix_of(token) implies token[2]
        == 'o' by {
        assert(token.subrange(0, 6)[2] == out_key()[2]);
    }
    assert forall|token: Seq<char>| #[trigger] sysroot_key().is_prefix_of(token) implies token[2]
        == 's' by {
        assert(token.subrange(0, 10)[2] == sysroot_key()[2]);
    }
}

} // verus!
