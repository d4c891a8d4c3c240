//! External commands: what an operator tells the daemon to do. Each command
//! is one line of the command file: the time of submission in brackets, the
//! name of the command, and its arguments, each after a `;`.

use vstd::prelude::*;
use crate::number::{decimal, write_decimal};

verus! {

/// A command for the daemon.
pub trait NagiosCmd {
    /// The command as the daemon reads it: its name, then each argument after
    /// a `;`. An argument is written as it is, also where it holds a `;`.
    spec fn cmd_string(&self) -> Seq<char>;

    /// The command as the daemon reads it.
    fn to_cmd_string(&self) -> (r: String)
        ensures
            r@ == self.cmd_string(),
    ;
}

impl<C: NagiosCmd + ?Sized> NagiosCmd for Box<C> {
    open spec fn cmd_string(&self) -> Seq<char> {
        (**self).cmd_string()
    }

    fn to_cmd_string(&self) -> (r: String) {
        (**self).to_cmd_string()
    }
}

/// `ENABLE_HOSTGROUP_HOST_CHECKS`: enables active checks of every host of a host group.
#[derive(Debug, PartialEq)]
pub struct EnableHostgroupHostChecks {
    pub hostgroup_name: String,
}

impl EnableHostgroupHostChecks {
    /// The command with the given argument.
    pub fn new(hostgroup_name: String) -> (r: Self)
        ensures
            r.hostgroup_name == hostgroup_name,
    {
        Self { hostgroup_name }
    }
}

impl Clone for EnableHostgroupHostChecks {
    fn clone(&self) -> (r: Self)
        ensures
            r == *self,
    {
        Self { hostgroup_name: self.hostgroup_name.clone() }
    }
}

impl NagiosCmd for EnableHostgroupHostChecks {
    open spec fn cmd_string(&self) -> Seq<char> {
        "ENABLE_HOSTGROUP_HOST_CHECKS;"@ + self.hostgroup_name@
    }

    fn to_cmd_string(&self) -> (r: String) {
        let mut out = "ENABLE_HOSTGROUP_HOST_CHECKS;".to_string();
        out.append(self.hostgroup_name.as_str());
        out
    }
}

/// `DISABLE_HOSTGROUP_HOST_CHECKS`: disables active checks of every host of a host group.
#[derive(Debug, PartialEq)]
pub struct DisableHostgroupHostChecks {
    pub hostgroup_name: String,
}

impl DisableHostgroupHostChecks {
    /// The command with the given argument.
    pub fn new(hostgroup_name: String) -> (r: Self)
        ensures
            r.hostgroup_name == hostgroup_name,
    {
        Self { hostgroup_name }
    }
}

impl Clone for DisableHostgroupHostChecks {
    fn clone(&self) -> (r: Self)
        ensures
            r == *self,
    {
        Self { hostgroup_name: self.hostgroup_name.clone() }
    }
}

impl NagiosCmd for DisableHostgroupHostChecks {
    open spec fn cmd_string(&self) -> Seq<char> {
        "DISABLE_HOSTGROUP_HOST_CHECKS;"@ + self.hostgroup_name@
    }

    fn to_cmd_string(&self) -> (r: String) {
        let mut out = "DISABLE_HOSTGROUP_HOST_CHECKS;".to_string();
        out.append(self.hostgroup_name.as_str());
        out
    }
}

/// `ENABLE_HOST_CHECK`: enables active checks of a host.
#[derive(Debug, PartialEq)]
pub struct EnableHostCheck {
    pub host_name: String,
}

impl EnableHostCheck {
    /// The command with the given argument.
    pub fn new(host_name: String) -> (r: Self)
        ensures
            r.host_name == host_name,
    {
        Self { host_name }
    }
}

impl Clone for EnableHostCheck {
    fn clone(&self) -> (r: Self)
        ensures
            r == *self,
    {
        Self { host_name: self.host_name.clone() }
    }
}

impl NagiosCmd for EnableHostCheck {
    open spec fn cmd_string(&self) -> Seq<char> {
        "ENABLE_HOST_CHECK;"@ + self.host_name@
    }

    fn to_cmd_string(&self) -> (r: String) {
        let mut out = "ENABLE_HOST_CHECK;".to_string();
        out.append(self.host_name.as_str());
        out
    }
}

/// `DISABLE_HOST_CHECK`: disables active checks of a host.
#[derive(Debug, PartialEq)]
pub struct DisableHostCheck {
    pub host_name: String,
}

impl DisableHostCheck {
    /// The command with the given argument.
    pub fn new(host_name: String) -> (r: Self)
        ensures
            r.host_name == host_name,
    {
        Self { host_name }
    }
}

impl Clone for DisableHostCheck {
    fn clone(&self) -> (r: Self)
        ensures
            r == *self,
    {
        Self { host_name: self.host_name.clone() }
    }
}

impl NagiosCmd for DisableHostCheck {
    open spec fn cmd_string(&self) -> Seq<char> {
        "DISABLE_HOST_CHECK;"@ + self.host_name@
    }

    fn to_cmd_string(&self) -> (r: String) {
        let mut out = "DISABLE_HOST_CHECK;".to_string();
        out.append(self.host_name.as_str());
        out
    }
}

/// `ENABLE_HOST_NOTIFICATIONS`: enables notifications for a host.
#[derive(Debug, PartialEq)]
pub struct EnableHostNotifications {
    pub host_name: String,
}

impl EnableHostNotifications {
    /// The command with the given argument.
    pub fn new(host_name: String) -> (r: Self)
        ensures
            r.host_name == host_name,
    {
        Self { host_name }
    }
}

impl Clone for EnableHostNotifications {
    fn clone(&self) -> (r: Self)
        ensures
            r == *self,
    {
        Self { host_name: self.host_name.clone() }
    }
}

impl NagiosCmd for EnableHostNotifications {
    open spec fn cmd_string(&self) -> Seq<char> {
        "ENABLE_HOST_NOTIFICATIONS;"@ + self.host_name@
    }

    fn to_cmd_string(&self) -> (r: String) {
        let mut out = "ENABLE_HOST_NOTIFICATIONS;".to_string();
        out.append(self.host_name.as_str());
        out
    }
}

/// `DISABLE_HOST_NOTIFICATIONS`: disables notifications for a host.
#[derive(Debug, PartialEq)]
pub struct DisableHostNotifications {
    pub host_name: String,
}

impl DisableHostNotifications {
    /// The command with the given argument.
    pub fn new(host_name: String) -> (r: Self)
        ensures
            r.host_name == host_name,
    {
        Self { host_name }
    }
}

impl Clone for DisableHostNotifications {
    fn clone(&self) -> (r: Self)
        ensures
            r == *self,
    {
        Self { host_name: self.host_name.clone() }
    }
}

impl NagiosCmd for DisableHostNotifications {
    open spec fn cmd_string(&self) -> Seq<char> {
        "DISABLE_HOST_NOTIFICATIONS;"@ + self.host_name@
    }

    fn to_cmd_string(&self) -> (r: String) {
        let mut out = "DISABLE_HOST_NOTIFICATIONS;".to_string();
        out.append(self.host_name.as_str());
        out
    }
}

/// `ENABLE_SVC_CHECK`: enables active checks of a service.
#[derive(Debug, PartialEq)]
pub struct EnableSvcCheck {
    pub host_name: String,
    pub service_description: String,
}

impl EnableSvcCheck {
    /// The command with the given arguments.
    pub fn new(host_name: String, service_description: String) -> (r: Self)
        ensures
            r.host_name == host_name,
            r.service_description == service_description,
    {
        Self { host_name, service_description }
    }
}

impl Clone for EnableSvcCheck {
    fn clone(&self) -> (r: Self)
        ensures
            r == *self,
    {
        Self {
            host_name: self.host_name.clone(),
            service_description: self.service_description.clone(),
        }
    }
}

impl NagiosCmd for EnableSvcCheck {
    open spec fn cmd_string(&self) -> Seq<char> {
        "ENABLE_SVC_CHECK;"@ + self.host_name@ + ";"@ + self.service_description@
    }

    fn to_cmd_string(&self) -> (r: String) {
        let mut out = "ENABLE_SVC_CHECK;".to_string();
        out.append(self.host_name.as_str());
        out.append(";");
        out.append(self.service_description.as_str());
        out
    }
}

/// `DISABLE_SVC_CHECK`: disables active checks of a service.
#[derive(Debug, PartialEq)]
pub struct DisableSvcCheck {
    pub host_name: String,
    pub service_description: String,
}

impl DisableSvcCheck {
    /// The command with the given arguments.
    pub fn new(host_name: String, service_description: String) -> (r: Self)
        ensures
            r.host_name == host_name,
            r.service_description == service_description,
    {
        Self { host_name, service_description }
    }
}

impl Clone for DisableSvcCheck {
    fn clone(&self) -> (r: Self)
        ensures
            r == *self,
    {
        Self {
            host_name: self.host_name.clone(),
            service_description: self.service_description.clone(),
        }
    }
}

impl NagiosCmd for DisableSvcCheck {
    open spec fn cmd_string(&self) -> Seq<char> {
        "DISABLE_SVC_CHECK;"@ + self.host_name@ + ";"@ + self.service_description@
    }

    fn to_cmd_string(&self) -> (r: String) {
        let mut out = "DISABLE_SVC_CHECK;".to_string();
        out.append(self.host_name.as_str());
        out.append(";");
        out.append(self.service_description.as_str());
        out
    }
}

/// `ENABLE_SVC_NOTIFICATIONS`: enables notifications for a service.
#[derive(Debug, PartialEq)]
pub struct EnableSvcNotifications {
    pub host_name: String,
    pub service_description: String,
}

impl EnableSvcNotifications {
    /// The command with the given arguments.
    pub fn new(host_name: String, service_description: String) -> (r: Self)
        ensures
            r.host_name == host_name,
            r.service_description == service_description,
    {
        Self { host_name, service_description }
    }
}

impl Clone for EnableSvcNotifications {
    fn clone(&self) -> (r: Self)
        ensures
            r == *self,
    {
        Self {
            host_name: self.host_name.clone(),
            service_description: self.service_description.clone(),
        }
    }
}

impl NagiosCmd for EnableSvcNotifications {
    open spec fn cmd_string(&self) -> Seq<char> {
        "ENABLE_SVC_NOTIFICATIONS;"@ + self.host_name@ + ";"@ + self.service_description@
    }

    fn to_cmd_string(&self) -> (r: String) {
        let mut out = "ENABLE_SVC_NOTIFICATIONS;".to_string();
        out.append(self.host_name.as_str());
        out.append(";");
        out.append(self.service_description.as_str());
        out
    }
}

/// `DISABLE_SVC_NOTIFICATIONS`: disables notifications for a service.
#[derive(Debug, PartialEq)]
pub struct DisableSvcNotifications {
    pub host_name: String,
    pub service_description: String,
}

impl DisableSvcNotifications {
    /// The command with the given arguments.
    pub fn new(host_name: String, service_description: String) -> (r: Self)
        ensures
            r.host_name == host_name,
            r.service_description == service_description,
    {
        Self { host_name, service_description }
    }
}

impl Clone for DisableSvcNotifications {
    fn clone(&self) -> (r: Self)
        ensures
            r == *self,
    {
        Self {
            host_name: self.host_name.clone(),
            service_description: self.service_description.clone(),
        }
    }
}

impl NagiosCmd for DisableSvcNotifications {
    open spec fn cmd_string(&self) -> Seq<char> {
        "DISABLE_SVC_NOTIFICATIONS;"@ + self.host_name@ + ";"@ + self.service_description@
    }

    fn to_cmd_string(&self) -> (r: String) {
        let mut out = "DISABLE_SVC_NOTIFICATIONS;".to_string();
        out.append(self.host_name.as_str());
        out.append(";");
        out.append(self.service_description.as_str());
        out
    }
}

/// `EnableHostgroupHostChecks`, spelt with a capital in the middle.
pub type EnableHostGroupHostChecks = EnableHostgroupHostChecks;

/// `DisableHostgroupHostChecks`, spelt with a capital in the middle.
pub type DisableHostGroupHostChecks = DisableHostgroupHostChecks;

/// Any one of the commands.
#[derive(Debug, PartialEq)]
pub enum Command {
    EnableHostgroupHostChecks(EnableHostgroupHostChecks),
    DisableHostgroupHostChecks(DisableHostgroupHostChecks),
    EnableHostCheck(EnableHostCheck),
    DisableHostCheck(DisableHostCheck),
    EnableHostNotifications(EnableHostNotifications),
    DisableHostNotifications(DisableHostNotifications),
    EnableSvcCheck(EnableSvcCheck),
    DisableSvcCheck(DisableSvcCheck),
    EnableSvcNotifications(EnableSvcNotifications),
    DisableSvcNotifications(DisableSvcNotifications),
}

impl Clone for Command {
    fn clone(&self) -> (r: Self)
        ensures
            r == *self,
    {
        match self {
            Command::EnableHostgroupHostChecks(cmd) => Command::EnableHostgroupHostChecks(
                cmd.clone(),
            ),
            Command::DisableHostgroupHostChecks(cmd) => Command::DisableHostgroupHostChecks(
                cmd.clone(),
            ),
            Command::EnableHostCheck(cmd) => Command::EnableHostCheck(cmd.clone()),
            Command::DisableHostCheck(cmd) => Command::DisableHostCheck(cmd.clone()),
            Command::EnableHostNotifications(cmd) => Command::EnableHostNotifications(cmd.clone()),
            Command::DisableHostNotifications(cmd) => Command::DisableHostNotifications(
                cmd.clone(),
            ),
            Command::EnableSvcCheck(cmd) => Command::EnableSvcCheck(cmd.clone()),
            Command::DisableSvcCheck(cmd) => Command::DisableSvcCheck(cmd.clone()),
            Command::EnableSvcNotifications(cmd) => Command::EnableSvcNotifications(cmd.clone()),
            Command::DisableSvcNotifications(cmd) => Command::DisableSvcNotifications(cmd.clone()),
        }
    }
}

impl NagiosCmd for Command {
    open spec fn cmd_string(&self) -> Seq<char> {
        match self {
            Command::EnableHostgroupHostChecks(cmd) => cmd.cmd_string(),
            Command::DisableHostgroupHostChecks(cmd) => cmd.cmd_string(),
            Command::EnableHostCheck(cmd) => cmd.cmd_string(),
            Command::DisableHostCheck(cmd) => cmd.cmd_string(),
            Command::EnableHostNotifications(cmd) => cmd.cmd_string(),
            Command::DisableHostNotifications(cmd) => cmd.cmd_string(),
            Command::EnableSvcCheck(cmd) => cmd.cmd_string(),
            Command::DisableSvcCheck(cmd) => cmd.cmd_string(),
            Command::EnableSvcNotifications(cmd) => cmd.cmd_string(),
            Command::DisableSvcNotifications(cmd) => cmd.cmd_string(),
        }
    }

    fn to_cmd_string(&self) -> (r: String) {
        match self {
            Command::EnableHostgroupHostChecks(cmd) => cmd.to_cmd_string(),
            Command::DisableHostgroupHostChecks(cmd) => cmd.to_cmd_string(),
            Command::EnableHostCheck(cmd) => cmd.to_cmd_string(),
            Command::DisableHostCheck(cmd) => cmd.to_cmd_string(),
            Command::EnableHostNotifications(cmd) => cmd.to_cmd_string(),
            Command::DisableHostNotifications(cmd) => cmd.to_cmd_string(),
            Command::EnableSvcCheck(cmd) => cmd.to_cmd_string(),
            Command::DisableSvcCheck(cmd) => cmd.to_cmd_string(),
            Command::EnableSvcNotifications(cmd) => cmd.to_cmd_string(),
            Command::DisableSvcNotifications(cmd) => cmd.to_cmd_string(),
        }
    }
}

/// The line that submits `command` at `timestamp`, a time in seconds since
/// 1970-01-01 00:00:00 UTC.
pub open spec fn cmd_line(timestamp: int, command: Seq<char>) -> Seq<char> {
    "["@ + decimal(timestamp) + "] "@ + command + "\n"@
}

/// The lines that submit `commands` at `timestamp`, one after the other.
pub open spec fn cmd_lines(timestamp: int, commands: Seq<Seq<char>>) -> Seq<char>
    decreases commands.len(),
{
    if commands.len() == 0 {
        Seq::empty()
    } else {
        cmd_lines(timestamp, commands.drop_last()) + cmd_line(timestamp, commands.last())
    }
}

/// The commands of `cmds` as the daemon reads them, in order.
pub open spec fn cmd_strings<C: NagiosCmd>(cmds: Seq<C>) -> Seq<Seq<char>> {
    Seq::new(cmds.len(), |i: int| cmds[i].cmd_string())
}

/// Writes the line that submits `cmd` at `timestamp` at the end of `writer`.
pub fn write_cmd_line<C: NagiosCmd + ?Sized>(cmd: &C, timestamp: i64, writer: &mut String)
    ensures
        final(writer)@ == old(writer)@ + cmd_line(timestamp as int, cmd.cmd_string()),
{
    let ghost before = writer@;
    let ghost stamp = decimal(timestamp as int);
    let cmd_str = cmd.to_cmd_string();
    writer.append("[");
    writer.append(write_decimal(timestamp).as_str());
    writer.append("] ");
    writer.append(cmd_str.as_str());
    writer.append("\n");
    assert(writer@ =~= before + ("["@ + stamp + "] "@ + cmd_str@ + "\n"@));
}

/// Writes the lines that submit `cmds` at `timestamp`, in order, at the end
/// of `writer`.
pub fn write_cmds<C: NagiosCmd>(cmds: &Vec<C>, timestamp: i64, writer: &mut String)
    ensures
        final(writer)@ == old(writer)@ + cmd_lines(timestamp as int, cmd_strings(cmds@)),
{
    let ghost before = writer@;
    let ghost all = cmd_strings(cmds@);
    let mut i: usize = 0;
    assert(all.take(0) =~= Seq::empty());
    while i < cmds.len()
        invariant
            i <= cmds.len(),
            all == cmd_strings(cmds@),
            writer@ == before + cmd_lines(timestamp as int, all.take(i as int)),
        decreases cmds.len() - i,
    {
        let ghost done = cmd_lines(timestamp as int, all.take(i as int));
        write_cmd_line(&cmds[i], timestamp, writer);
        proof {
            assert(all.take(i + 1).drop_last() =~= all.take(i as int));
            assert(all.take(i + 1).last() == cmds[i as int].cmd_string());
            assert(writer@ =~= before + (done + cmd_line(
                timestamp as int,
                cmds[i as int].cmd_string(),
            )));
        }
        i += 1;
    }
    assert(all.take(i as int) =~= all);
}

} // verus!
