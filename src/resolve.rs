//! Turning a step's command type into the program and arguments to run.

use vstd::prelude::*;
use crate::command::{CommandStep, CommandType};

verus! {

/// The privilege-elevation wrapper that privileged steps run through.
pub const PRIVILEGE_WRAPPER: &'static str = "pkexec";

/// How many package helpers are known.
pub const HELPER_COUNT: usize = 2;

/// The known package helpers, in order of preference.
pub open spec fn known_helper_spec(i: int) -> Seq<char> {
    if i == 0 {
        "paru"@
    } else {
        "yay"@
    }
}

/// The name of the known package helper at position `i` of the preference
/// order.
pub fn known_helper(i: usize) -> (r: &'static str)
    requires
        i < HELPER_COUNT,
    ensures
        r@ == known_helper_spec(i as int),
{
    if i == 0 {
        "paru"
    } else {
        "yay"
    }
}

/// The first position, from `i` on, of a known helper that `present` marks as
/// found.
pub open spec fn first_present_from(present: Seq<bool>, i: int) -> Option<int>
    decreases HELPER_COUNT - i,
{
    if i < 0 || i >= HELPER_COUNT || i >= present.len() {
        None
    } else if present[i] {
        Some(i)
    } else {
        first_present_from(present, i + 1)
    }
}

/// The helper that discovery settles on, where `present[i]` tells whether the
/// known helper at position `i` was found on the search path.
pub open spec fn discovered_helper(present: Seq<bool>) -> Option<Seq<char>> {
    match first_present_from(present, 0) {
        Some(i) => Some(known_helper_spec(i)),
        None => None,
    }
}

/// Picks the first known helper, in order of preference, that `present`
/// marks as found.
pub fn select_helper(present: &Vec<bool>) -> (r: Option<String>)
    ensures
        r.deep_view() == discovered_helper(present@),
{
    let mut i: usize = 0;
    while i < HELPER_COUNT && i < present.len()
        invariant
            i <= HELPER_COUNT,
            first_present_from(present@, 0) == first_present_from(present@, i as int),
        decreases HELPER_COUNT - i,
    {
        if present[i] {
            let name: String = known_helper(i).to_owned();
            return Some(name);
        }
        i = i + 1;
    }
    None
}

/// The package helper a process uses: one named by the user's configuration
/// wins over one found on the search path, which is looked for at most once.
#[derive(Clone, Debug)]
pub struct HelperCache {
    pub configured: Option<String>,
    pub detected: Option<String>,
}

impl HelperCache {
    /// The helper in use, if any.
    pub open spec fn current_spec(&self) -> Option<Seq<char>> {
        match self.configured {
            Some(c) => Some(c@),
            None => self.detected.deep_view(),
        }
    }

    /// A cache holding the configured helper, if there is one, and nothing
    /// discovered yet.
    pub fn new(configured: Option<String>) -> (r: Self)
        ensures
            r.configured.deep_view() == configured.deep_view(),
            r.detected is None,
    {
        HelperCache { configured, detected: None }
    }

    /// The helper in use, if any.
    pub fn current(&self) -> (r: Option<String>)
        ensures
            r.deep_view() == self.current_spec(),
    {
        match &self.configured {
            Some(c) => Some(c.clone()),
            None => match &self.detected {
                Some(d) => Some(d.clone()),
                None => None,
            },
        }
    }

    /// Whether the search path still has to be searched for a helper.
    pub fn needs_discovery(&self) -> (r: bool)
        ensures
            r == (self.current_spec() is None),
    {
        self.configured.is_none() && self.detected.is_none()
    }

    /// Records the outcome of searching the path, where `present[i]` tells
    /// whether the known helper at position `i` was found, and returns the
    /// helper now in use. A helper already in use is kept.
    pub fn record_discovery(&mut self, present: &Vec<bool>) -> (r: Option<String>)
        ensures
            old(self).current_spec() is Some ==> final(self).current_spec()
                == old(self).current_spec(),
            old(self).current_spec() is None ==> final(self).current_spec() == discovered_helper(
                present@,
            ),
            r.deep_view() == final(self).current_spec(),
    {
        if self.needs_discovery() {
            self.detected = select_helper(present);
        }
        self.current()
    }
}

/// Why a step could not be turned into a program invocation.
#[derive(Clone, Copy, Debug, PartialEq, Eq)]
pub enum ResolveError {
    /// The step needs a package helper and none is configured or installed.
    NoHelperAvailable,
}

impl ResolveError {
    /// A message for the user.
    pub open spec fn message_spec(self) -> Seq<char> {
        match self {
            ResolveError::NoHelperAvailable => "AUR helper not available (paru or yay required)"@,
        }
    }

    /// A message for the user.
    pub fn message(&self) -> (r: String)
        ensures
            r@ == self.message_spec(),
    {
        "AUR helper not available (paru or yay required)".to_owned()
    }
}

/// The program and arguments that a step runs as, given the package helper in
/// use.
pub open spec fn resolve_spec(cmd: CommandStep, helper: Option<Seq<char>>) -> Result<
    (Seq<char>, Seq<Seq<char>>),
    ResolveError,
> {
    match cmd.command_type {
        CommandType::Normal => Ok((cmd.command@, cmd.args.deep_view())),
        CommandType::Privileged => Ok(
            (PRIVILEGE_WRAPPER@, seq![cmd.command@] + cmd.args.deep_view()),
        ),
        CommandType::Aur => match helper {
            Some(h) => Ok((h, seq!["--sudo"@, PRIVILEGE_WRAPPER@] + cmd.args.deep_view())),
            None => Err(ResolveError::NoHelperAvailable),
        },
    }
}

/// Appends copies of the strings of `src` to `out`.
fn append_copies(out: &mut Vec<String>, src: &Vec<String>)
    ensures
        final(out).deep_view() == old(out).deep_view() + src.deep_view(),
{
    let ghost start = out@;
    let ghost start_view = out.deep_view();
    let mut i: usize = 0;
    while i < src.len()
        invariant
            i <= src@.len(),
            out@.len() == start.len() + i,
            forall|j: int| 0 <= j < start.len() ==> #[trigger] out@[j] == start[j],
            forall|j: int| 0 <= j < i ==> #[trigger] out@[start.len() + j]@ == src@[j]@,
        decreases src@.len() - i,
    {
        out.push(src[i].clone());
        i = i + 1;
    }
    assert(out.deep_view() =~= start_view + src.deep_view()) by {
        assert forall|k: int| 0 <= k < out@.len() implies #[trigger] out.deep_view()[k] == (
        start_view + src.deep_view())[k] by {
            if k >= start.len() {
                assert(out@[start.len() + (k - start.len())]@ == src@[k - start.len()]@);
            }
        }
    }
}

/// Turns a step into the program and arguments to run. Privileged steps run
/// the elevation wrapper with the program as its first argument; helper steps
/// run the helper, told to elevate through the same wrapper, and fail when no
/// helper is in use.
pub fn resolve_command(command: &CommandStep, helpers: &HelperCache) -> (r: Result<
    (String, Vec<String>),
    ResolveError,
>)
    ensures
        match r {
            Ok(p) => resolve_spec(*command, helpers.current_spec()) == Ok::<
                (Seq<char>, Seq<Seq<char>>),
                ResolveError,
            >((p.0@, p.1.deep_view())),
            Err(e) => resolve_spec(*command, helpers.current_spec()) == Err::<
                (Seq<char>, Seq<Seq<char>>),
                ResolveError,
            >(e),
        },
{
    match command.command_type {
        CommandType::Normal => {
            let mut args: Vec<String> = Vec::new();
            append_copies(&mut args, &command.args);
            assert(args.deep_view() =~= command.args.deep_view());
            Ok((command.command.clone(), args))
        },
        CommandType::Privileged => {
            let mut args: Vec<String> = Vec::new();
            args.push(command.command.clone());
            append_copies(&mut args, &command.args);
            assert(args.deep_view() =~= seq![command.command@] + command.args.deep_view());
            Ok((PRIVILEGE_WRAPPER.to_owned(), args))
        },
        CommandType::Aur => match helpers.current() {
            Some(helper) => {
                let mut args: Vec<String> = Vec::new();
                args.push("--sudo".to_owned());
                args.push(PRIVILEGE_WRAPPER.to_owned());
                append_copies(&mut args, &command.args);
                assert(args.deep_view() =~= seq!["--sudo"@, PRIVILEGE_WRAPPER@]
                    + command.args.deep_view());
                Ok((helper, args))
            },
            None => Err(ResolveError::NoHelperAvailable),
        },
    }
}

} // verus!
