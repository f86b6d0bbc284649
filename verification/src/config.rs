//! Which hosts the dashboard connects to: those of the command line, or
//! those of a configuration file.

use vstd::prelude::*;
use vstd::string::*;

verus! {

/// One host of the configuration.
#[derive(Debug)]
pub struct HostConfig {
    /// How to reach the daemon: `local`, or an address such as
    /// `ssh://user@host`.
    pub host: String,
    /// Address of the external log viewer for this host.
    pub dozzle: Option<String>,
}

impl Clone for HostConfig {
    fn clone(&self) -> (r: Self)
        ensures
            r == *self,
    {
        HostConfig {
            host: self.host.clone(),
            dozzle: match &self.dozzle {
                Some(d) => Some(d.clone()),
                None => None,
            },
        }
    }
}

/// The configuration of the dashboard.
#[derive(Debug)]
pub struct Config {
    /// The hosts to connect to.
    pub hosts: Vec<HostConfig>,
}

impl Default for Config {
    fn default() -> (r: Self)
        ensures
            r.hosts@.len() == 0,
    {
        Config { hosts: Vec::new() }
    }
}

/// `hosts` are the hosts named on the command line, in order, none with a
/// log viewer.
pub open spec fn from_command_line(hosts: Seq<HostConfig>, cli_hosts: Seq<String>) -> bool {
    &&& hosts.len() == cli_hosts.len()
    &&& forall|i: int|
        0 <= i < hosts.len() ==> (#[trigger] hosts[i]).host == cli_hosts[i] && hosts[i].dozzle
            is None
}

/// Whether the hosts of the command line take the place of those of the
/// file: they do when they were given by the operator, or when the file
/// names none.
pub open spec fn command_line_wins(file_hosts: nat, cli_default: bool) -> bool {
    !cli_default || file_hosts == 0
}

impl Config {
    /// Merges the configuration with the hosts of the command line.
    /// `cli_default` says that the command line named no host and
    /// `cli_hosts` is the default. Hosts that the operator named replace
    /// those of the file; the default stands in only where the file names
    /// none.
    pub fn merge_with_cli_hosts(self, cli_hosts: Vec<String>, cli_default: bool) -> (r: Config)
        ensures
            if command_line_wins(self.hosts@.len(), cli_default) {
                from_command_line(r.hosts@, cli_hosts@)
            } else {
                r == self
            },
    {
        if cli_default && self.hosts.len() > 0 {
            return self;
        }
        let mut hosts: Vec<HostConfig> = Vec::new();
        let mut i: usize = 0;
        while i < cli_hosts.len()
            invariant
                i <= cli_hosts@.len(),
                hosts@.len() == i,
                forall|k: int|
                    0 <= k < i ==> (#[trigger] hosts@[k]).host == cli_hosts@[k] && hosts@[k].dozzle
                        is None,
            decreases cli_hosts.len() - i,
        {
            hosts.push(HostConfig { host: cli_hosts[i].clone(), dozzle: None });
            i = i + 1;
        }
        Config { hosts }
    }

    /// The hosts to connect to, given what the command line named and what
    /// the file holds. Hosts on the command line win; without them the
    /// hosts of the file are taken; without either, the daemon of this
    /// machine.
    pub fn resolve(self, cli_hosts: Vec<String>) -> (r: Config)
        ensures
            if cli_hosts@.len() > 0 {
                from_command_line(r.hosts@, cli_hosts@)
            } else if self.hosts@.len() > 0 {
                r == self
            } else {
                &&& r.hosts@.len() == 1
                &&& r.hosts@[0].host@ == "local"@
                &&& r.hosts@[0].dozzle is None
            },
    {
        if cli_hosts.len() > 0 {
            Config::default().merge_with_cli_hosts(cli_hosts, false)
        } else if self.hosts.len() > 0 {
            self
        } else {
            let mut local: Vec<String> = Vec::new();
            local.push(String::from_str("local"));
            self.merge_with_cli_hosts(local, true)
        }
    }
}

} // verus!
