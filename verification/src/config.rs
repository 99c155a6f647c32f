//! The configuration of one service run and the argument lists derived from it.

use vstd::prelude::*;

verus! {

/// What a service run is started with: the name under which the service is
/// registered and the command that it manages.
#[derive(Clone, Debug, PartialEq, Eq)]
pub struct ServiceConfig {
    pub name: String,
    pub command: String,
}

/// Places `cli` in the slot from which the service entry point takes its
/// configuration, replacing whatever the slot held.
pub fn store_cli_object(slot: &mut Option<ServiceConfig>, cli: ServiceConfig)
    ensures
        *final(slot) == Some(cli),
{
    *slot = Some(cli);
}

/// The arguments registered for future starts of the service.
pub open spec fn launch_arguments_of(name: Seq<char>, command: Seq<char>) -> Seq<Seq<char>> {
    seq!["--name"@, name, "--bat"@, command]
}

/// The arguments handed to the command interpreter to run the command.
pub open spec fn interpreter_arguments_of(command: Seq<char>) -> Seq<Seq<char>> {
    seq!["/K"@, command]
}

/// The views of the strings of a list, in order.
pub open spec fn views(list: Seq<String>) -> Seq<Seq<char>> {
    list.map_values(|s: String| s@)
}

impl ServiceConfig {
    /// The launch arguments persisted at installation, so that a later start
    /// by the service control manager finds the same name and command.
    pub fn launch_arguments(&self) -> (args: Vec<String>)
        ensures
            views(args@) == launch_arguments_of(self.name@, self.command@),
            args@.len() == 4,
            args@[0]@ == "--name"@,
            args@[1]@ == self.name@,
            args@[2]@ == "--bat"@,
            args@[3]@ == self.command@,
    {
        let mut args: Vec<String> = Vec::new();
        args.push("--name".to_owned());
        args.push(self.name.clone());
        args.push("--bat".to_owned());
        args.push(self.command.clone());
        assert(views(args@) =~= launch_arguments_of(self.name@, self.command@));
        args
    }

    /// The arguments with which the platform's command interpreter runs the
    /// configured command.
    pub fn interpreter_arguments(&self) -> (args: Vec<String>)
        ensures
            views(args@) == interpreter_arguments_of(self.command@),
            args@.len() == 2,
            args@[0]@ == "/K"@,
            args@[1]@ == self.command@,
    {
        let mut args: Vec<String> = Vec::new();
        args.push("/K".to_owned());
        args.push(self.command.clone());
        assert(views(args@) =~= interpreter_arguments_of(self.command@));
        args
    }
}

} // verus!
