use vstd::prelude::*;

verus! {

/// The subcommand of the command line.
#[derive(Clone, Debug)]
pub enum Commands {
    /// Listen for a client on `listen` (default `0.0.0.0:12345`).
    Server { listen: String },
    /// Connect to the server at `host`.
    Client { host: String },
}

/// The parsed command line.
#[derive(Clone, Debug)]
pub struct Argument {
    command: Commands,
    tun_addr: String,
    verbose: bool,
    debug: bool,
}

impl Argument {
    pub closed spec fn spec_command(&self) -> Commands {
        self.command
    }

    pub closed spec fn spec_tun_addr(&self) -> Seq<char> {
        self.tun_addr@
    }

    pub closed spec fn spec_verbose(&self) -> bool {
        self.verbose
    }

    pub closed spec fn spec_debug(&self) -> bool {
        self.debug
    }

    /// The command line with these parts.
    pub fn new(command: Commands, tun_addr: String, verbose: bool, debug: bool) -> (res: Self)
        ensures
            res.spec_command() == command,
            res.spec_tun_addr() == tun_addr@,
            res.spec_verbose() == verbose,
            res.spec_debug() == debug,
    {
        Argument { command, tun_addr, verbose, debug }
    }

    /// The subcommand.
    pub fn command(&self) -> (res: &Commands)
        ensures
            *res == self.spec_command(),
    {
        &self.command
    }

    /// The address of the local tunnel device, as written.
    pub fn tun_addr(&self) -> (res: &str)
        ensures
            res@ == self.spec_tun_addr(),
    {
        self.tun_addr.as_str()
    }

    /// Whether `--verbose` was given.
    pub fn verbose(&self) -> (res: bool)
        ensures
            res == self.spec_verbose(),
    {
        self.verbose
    }

    /// Whether `--debug` was given: the tool then prints its arguments.
    pub fn debug(&self) -> (res: bool)
        ensures
            res == self.spec_debug(),
    {
        self.debug
    }
}

} // verus!
