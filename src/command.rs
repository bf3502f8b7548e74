//! Abstract description of one step of a command sequence.

use vstd::prelude::*;

verus! {

/// How a step's program is invoked.
#[derive(Clone, Copy, Debug, PartialEq, Eq)]
pub enum CommandType {
    /// The program runs directly.
    Normal,
    /// The program runs through the privilege-elevation wrapper.
    Privileged,
    /// The arguments go to the discovered package helper, which elevates
    /// privileges itself where it needs to.
    Aur,
}

/// One step of a sequence: how to invoke it, the program, its arguments and a
/// description for the user.
#[derive(Clone, Debug)]
pub struct CommandStep {
    pub command_type: CommandType,
    pub command: String,
    pub args: Vec<String>,
    pub friendly_name: String,
}

/// The characters of each argument of a list of string slices.
pub open spec fn str_views(args: Seq<&str>) -> Seq<Seq<char>> {
    args.map_values(|s: &str| s@)
}

/// Copies each string slice into an owned `String`, keeping the order.
pub fn owned_strings(args: &[&str]) -> (r: Vec<String>)
    ensures
        r.deep_view() == str_views(args@),
{
    let mut out: Vec<String> = Vec::new();
    let mut i: usize = 0;
    while i < args.len()
        invariant
            i <= args@.len(),
            out@.len() == i,
            forall|j: int| 0 <= j < i ==> #[trigger] out@[j]@ == args@[j]@,
        decreases args@.len() - i,
    {
        let s: String = args[i].to_owned();
        out.push(s);
        i = i + 1;
    }
    assert(out.deep_view() =~= str_views(args@));
    out
}

impl CommandStep {
    /// Whether this step carries exactly the given parts.
    pub open spec fn describes(
        &self,
        command_type: CommandType,
        command: Seq<char>,
        args: Seq<Seq<char>>,
        friendly_name: Seq<char>,
    ) -> bool {
        &&& self.command_type == command_type
        &&& self.command@ == command
        &&& self.args.deep_view() == args
        &&& self.friendly_name@ == friendly_name
    }

    /// Creates a step with an explicit command type.
    pub fn new(command_type: CommandType, command: &str, args: &[&str], friendly_name: &str) -> (r:
        Self)
        ensures
            r.describes(command_type, command@, str_views(args@), friendly_name@),
    {
        CommandStep {
            command_type,
            command: command.to_owned(),
            args: owned_strings(args),
            friendly_name: friendly_name.to_owned(),
        }
    }

    /// Creates a step whose program runs directly.
    pub fn normal(command: &str, args: &[&str], friendly_name: &str) -> (r: Self)
        ensures
            r.describes(CommandType::Normal, command@, str_views(args@), friendly_name@),
    {
        Self::new(CommandType::Normal, command, args, friendly_name)
    }

    /// Creates a step whose program runs with elevated privileges.
    pub fn privileged(command: &str, args: &[&str], friendly_name: &str) -> (r: Self)
        ensures
            r.describes(CommandType::Privileged, command@, str_views(args@), friendly_name@),
    {
        Self::new(CommandType::Privileged, command, args, friendly_name)
    }

    /// Creates a step run through the package helper. The program is chosen
    /// when the step is resolved; the field holds a fixed placeholder.
    pub fn aur(args: &[&str], friendly_name: &str) -> (r: Self)
        ensures
            r.describes(CommandType::Aur, "aur"@, str_views(args@), friendly_name@),
    {
        Self::new(CommandType::Aur, "aur", args, friendly_name)
    }
}

} // verus!
