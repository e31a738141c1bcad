use vstd::prelude::*;

verus! {

/// Why a run was refused before any process was created.
#[derive(Clone, Copy, Debug, PartialEq, Eq, Structural)]
pub enum ConfigError {
    /// The command held no executable.
    EmptyCommand,
}

/// The executable to start and the arguments handed to it verbatim.
#[derive(Debug)]
pub struct LaunchSpec {
    program: String,
    args: Vec<String>,
}

/// The words of a command, as character sequences.
pub open spec fn words(v: Seq<String>) -> Seq<Seq<char>> {
    v.map_values(|w: String| w@)
}

impl View for LaunchSpec {
    type V = Seq<Seq<char>>;

    /// The executable followed by its arguments.
    closed spec fn view(&self) -> Seq<Seq<char>> {
        seq![self.program@] + words(self.args@)
    }
}

impl LaunchSpec {
    /// Takes a command whose first word is the executable and whose other words
    /// are its arguments; an empty command is refused.
    pub fn new(command: Vec<String>) -> (r: Result<LaunchSpec, ConfigError>)
        ensures
            command@.len() == 0 <==> r == Err::<LaunchSpec, ConfigError>(ConfigError::EmptyCommand),
            r matches Ok(s) ==> s@ == words(command@),
    {
        let mut command = command;
        if command.len() == 0 {
            return Err(ConfigError::EmptyCommand);
        }
        let ghost whole = command@;
        let program = command.remove(0);
        let spec = LaunchSpec { program, args: command };
        assert(spec@ =~= words(whole));
        Ok(spec)
    }

    /// The executable.
    pub fn program(&self) -> (r: &str)
        ensures
            r@ == self@[0],
    {
        self.program.as_str()
    }

    /// The arguments, in order.
    pub fn args(&self) -> (r: &Vec<String>)
        ensures
            words(r@) == self@.drop_first(),
    {
        assert(self@.drop_first() =~= words(self.args@));
        &self.args
    }
}

} // verus!
