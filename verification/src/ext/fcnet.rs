//! Configurations of the "fcnet" networking tool and the shell commands that add, check and delete
//! them. Addresses are IPv4 hosts within networks and IPv4 addresses: IPv6 addresses are not
//! supported by these configurations.

use vstd::prelude::*;

use crate::executor::installation::contains;
use crate::net::{Ipv4Addr, Ipv4Inet, spec_mask};
use crate::text::{decimal, occurs_at};
use crate::process::ExitStatus;

verus! {

/// One argument of fcnet: ` --name value`, or ` name` alone for an empty value.
pub open spec fn fcnet_arg(name: Seq<char>, value: Seq<char>) -> Seq<char> {
    if value.len() == 0 {
        " "@ + name
    } else {
        " --"@ + name + " "@ + value
    }
}

/// The argument for an optional value: nothing when the value is absent.
pub open spec fn optional_fcnet_arg(name: Seq<char>, value: Option<Seq<char>>) -> Seq<char> {
    match value {
        Some(v) => fcnet_arg(name, v),
        None => Seq::empty(),
    }
}

/// The text of an optional host within a network.
pub open spec fn inet_text(value: Option<Ipv4Inet>) -> Option<Seq<char>> {
    match value {
        Some(inet) => Some(inet.spec_text()),
        None => None,
    }
}

/// The text of an optional address.
pub open spec fn addr_text(value: Option<Ipv4Addr>) -> Option<Seq<char>> {
    match value {
        Some(addr) => Some(addr.spec_text()),
        None => None,
    }
}

/// A configuration of the network that fcnet sets up for a VM.
#[derive(Debug, Clone, PartialEq, Eq, PartialOrd, Ord)]
pub struct FcnetConfiguration {
    iptables_path: Option<String>,
    iface_name: Option<String>,
    tap_name: Option<String>,
    tap_ip: Option<Ipv4Inet>,
    configuration_type: FcnetConfigurationType,
}

/// The two kinds of fcnet networks: a simple one, or one inside a network namespace.
#[derive(Debug, Clone, PartialEq, Eq, PartialOrd, Ord)]
pub enum FcnetConfigurationType {
    Simple,
    Netns(FcnetNetnsOptions),
}

/// The options of a network inside a network namespace.
#[derive(Debug, Clone, PartialEq, Eq, PartialOrd, Ord)]
pub struct FcnetNetnsOptions {
    netns_name: Option<String>,
    veth1_name: Option<String>,
    veth2_name: Option<String>,
    veth1_ip: Option<Ipv4Inet>,
    veth2_ip: Option<Ipv4Inet>,
    guest_ip: Option<Ipv4Addr>,
    forwarded_guest_ip: Option<Ipv4Addr>,
}

/// The abstract content of [FcnetNetnsOptions].
pub struct FcnetNetnsOptionsView {
    pub netns_name: Option<Seq<char>>,
    pub veth1_name: Option<Seq<char>>,
    pub veth2_name: Option<Seq<char>>,
    pub veth1_ip: Option<Ipv4Inet>,
    pub veth2_ip: Option<Ipv4Inet>,
    pub guest_ip: Option<Ipv4Addr>,
    pub forwarded_guest_ip: Option<Ipv4Addr>,
}

impl FcnetNetnsOptionsView {
    /// The arguments that describe the namespace.
    pub open spec fn arguments(self) -> Seq<char> {
        fcnet_arg("netns"@, ""@)
            + optional_fcnet_arg("netns"@, self.netns_name)
            + optional_fcnet_arg("veth1"@, self.veth1_name)
            + optional_fcnet_arg("veth2"@, self.veth2_name)
            + optional_fcnet_arg("veth1-ip"@, inet_text(self.veth1_ip))
            + optional_fcnet_arg("veth2-ip"@, inet_text(self.veth2_ip))
            + optional_fcnet_arg("guest-ip"@, addr_text(self.guest_ip))
            + optional_fcnet_arg(
                "forwarded-guest-ip"@,
                addr_text(self.forwarded_guest_ip),
            )
    }
}

impl View for FcnetNetnsOptions {
    type V = FcnetNetnsOptionsView;

    closed spec fn view(&self) -> FcnetNetnsOptionsView {
        FcnetNetnsOptionsView {
            netns_name: self.netns_name.deep_view(),
            veth1_name: self.veth1_name.deep_view(),
            veth2_name: self.veth2_name.deep_view(),
            veth1_ip: self.veth1_ip,
            veth2_ip: self.veth2_ip,
            guest_ip: self.guest_ip,
            forwarded_guest_ip: self.forwarded_guest_ip,
        }
    }
}

/// The abstract content of [FcnetConfiguration]: `netns` holds the namespace options of a
/// namespaced network and nothing for a simple one.
pub struct FcnetConfigurationView {
    pub iptables_path: Option<Seq<char>>,
    pub iface_name: Option<Seq<char>>,
    pub tap_name: Option<Seq<char>>,
    pub tap_ip: Option<Ipv4Inet>,
    pub netns: Option<FcnetNetnsOptionsView>,
}

impl FcnetConfigurationView {
    /// The arguments after the operation.
    pub open spec fn arguments(self) -> Seq<char> {
        optional_fcnet_arg(
            "iptables-path"@,
            self.iptables_path,
        ) + optional_fcnet_arg("iface"@, self.iface_name)
            + optional_fcnet_arg("tap"@, self.tap_name)
            + optional_fcnet_arg("tap-ip"@, inet_text(self.tap_ip))
            + match self.netns {
            None => fcnet_arg("simple"@, ""@),
            Some(options) => options.arguments(),
        }
    }

    /// The text of the tap's address, by default 172.16.0.1.
    pub open spec fn tap_ip_text(self) -> Seq<char> {
        match self.tap_ip {
            Some(inet) => inet.spec_address().spec_text(),
            None => "172.16.0.1"@,
        }
    }
}

impl View for FcnetConfiguration {
    type V = FcnetConfigurationView;

    closed spec fn view(&self) -> FcnetConfigurationView {
        FcnetConfigurationView {
            iptables_path: self.iptables_path.deep_view(),
            iface_name: self.iface_name.deep_view(),
            tap_name: self.tap_name.deep_view(),
            tap_ip: self.tap_ip,
            netns: match self.configuration_type {
                FcnetConfigurationType::Simple => None,
                FcnetConfigurationType::Netns(options) => Some(options@),
            },
        }
    }
}

/// What a finished fcnet process produced: its exit status and its two output streams.
#[derive(Debug, Clone, PartialEq, Eq)]
pub struct ProcessOutput {
    pub status: ExitStatus,
    pub stdout: Vec<u8>,
    pub stderr: Vec<u8>,
}

/// A failed fcnet invocation.
#[derive(Debug)]
pub enum FcnetError {
    /// The shell that runs fcnet could not be spawned.
    ShellSpawnFailed(std::io::Error),
    /// Waiting for the fcnet process failed.
    ProcessWaitFailed(std::io::Error),
    /// fcnet ran and exited unsuccessfully with this output.
    FcnetReturnedError(ProcessOutput),
}

/// Append ` --name value` (or ` name` for an empty value) to `out`.
fn push_fcnet_arg(out: &mut String, name: &str, value: &str)
    ensures
        final(out)@ == old(out)@ + fcnet_arg(name@, value@),
{
    if value.unicode_len() == 0 {
        out.append(" ");
        out.append(name);
    } else {
        out.append(" --");
        out.append(name);
        out.append(" ");
        out.append(value);
    }
    assert(out@ =~= old(out)@ + fcnet_arg(name@, value@));
}

/// Append the argument for an optional value to `out`.
fn push_optional_fcnet_arg(out: &mut String, name: &str, value: &Option<String>)
    ensures
        final(out)@ == old(out)@ + optional_fcnet_arg(name@, value.deep_view()),
{
    match value {
        Some(v) => push_fcnet_arg(out, name, v.as_str()),
        None => {
            assert(out@ =~= old(out)@ + optional_fcnet_arg(name@, value.deep_view()));
        },
    }
}

/// The text of an optional host within a network.
fn optional_inet_text(value: &Option<Ipv4Inet>) -> (r: Option<String>)
    ensures
        r.deep_view() == inet_text(*value),
{
    match value {
        Some(inet) => Some(inet.to_string()),
        None => None,
    }
}

/// The text of an optional address.
fn optional_addr_text(value: &Option<Ipv4Addr>) -> (r: Option<String>)
    ensures
        r.deep_view() == addr_text(*value),
{
    match value {
        Some(addr) => Some(addr.to_string()),
        None => None,
    }
}

impl FcnetNetnsOptions {
    /// Options with nothing set.
    pub fn new() -> (r: Self)
        ensures
            r@.netns_name is None && r@.veth1_name is None && r@.veth2_name is None,
            r@.veth1_ip is None && r@.veth2_ip is None,
            r@.guest_ip is None && r@.forwarded_guest_ip is None,
    {
        FcnetNetnsOptions {
            netns_name: None,
            veth1_name: None,
            veth2_name: None,
            veth1_ip: None,
            veth2_ip: None,
            guest_ip: None,
            forwarded_guest_ip: None,
        }
    }

    /// Set the name of the namespace.
    pub fn netns_name(self, netns_name: &str) -> (r: Self)
        ensures
            r@ == (FcnetNetnsOptionsView { netns_name: Some(netns_name@), ..self@ }),
    {
        FcnetNetnsOptions { netns_name: Some(netns_name.to_owned()), ..self }
    }

    /// Set the name of the first veth device.
    pub fn veth1_name(self, veth1_name: &str) -> (r: Self)
        ensures
            r@ == (FcnetNetnsOptionsView { veth1_name: Some(veth1_name@), ..self@ }),
    {
        FcnetNetnsOptions { veth1_name: Some(veth1_name.to_owned()), ..self }
    }

    /// Set the name of the second veth device.
    pub fn veth2_name(self, veth2_name: &str) -> (r: Self)
        ensures
            r@ == (FcnetNetnsOptionsView { veth2_name: Some(veth2_name@), ..self@ }),
    {
        FcnetNetnsOptions { veth2_name: Some(veth2_name.to_owned()), ..self }
    }

    /// Set the address of the first veth device.
    pub fn veth1_ip(self, veth1_ip: Ipv4Inet) -> (r: Self)
        ensures
            r@ == (FcnetNetnsOptionsView { veth1_ip: Some(veth1_ip), ..self@ }),
    {
        FcnetNetnsOptions { veth1_ip: Some(veth1_ip), ..self }
    }

    /// Set the address of the second veth device.
    pub fn veth2_ip(self, veth2_ip: Ipv4Inet) -> (r: Self)
        ensures
            r@ == (FcnetNetnsOptionsView { veth2_ip: Some(veth2_ip), ..self@ }),
    {
        FcnetNetnsOptions { veth2_ip: Some(veth2_ip), ..self }
    }

    /// Set the address of the guest.
    pub fn guest_ip(self, guest_ip: Ipv4Addr) -> (r: Self)
        ensures
            r@ == (FcnetNetnsOptionsView { guest_ip: Some(guest_ip), ..self@ }),
    {
        FcnetNetnsOptions { guest_ip: Some(guest_ip), ..self }
    }

    /// Set the address that the guest is forwarded to.
    pub fn forwarded_guest_ip(self, forwarded_guest_ip: Ipv4Addr) -> (r: Self)
        ensures
            r@ == (FcnetNetnsOptionsView { forwarded_guest_ip: Some(forwarded_guest_ip), ..self@ }),
    {
        FcnetNetnsOptions { forwarded_guest_ip: Some(forwarded_guest_ip), ..self }
    }

    /// Append the arguments that describe the namespace to `out`.
    fn push_arguments(&self, out: &mut String)
        ensures
            final(out)@ == old(out)@ + self@.arguments(),
    {
        push_fcnet_arg(out, "netns", "");
        push_optional_fcnet_arg(out, "netns", &self.netns_name);
        push_optional_fcnet_arg(out, "veth1", &self.veth1_name);
        push_optional_fcnet_arg(out, "veth2", &self.veth2_name);
        push_optional_fcnet_arg(out, "veth1-ip", &optional_inet_text(&self.veth1_ip));
        push_optional_fcnet_arg(out, "veth2-ip", &optional_inet_text(&self.veth2_ip));
        push_optional_fcnet_arg(out, "guest-ip", &optional_addr_text(&self.guest_ip));
        push_optional_fcnet_arg(out, "forwarded-guest-ip", &optional_addr_text(&self.forwarded_guest_ip));
        assert(out@ =~= old(out)@ + self@.arguments());
    }
}

impl FcnetConfiguration {
    /// A simple network with nothing else set.
    pub fn simple() -> (r: Self)
        ensures
            r@.iptables_path is None && r@.iface_name is None && r@.tap_name is None && r@.tap_ip is None,
            r@.netns is None,
    {
        FcnetConfiguration {
            iptables_path: None,
            iface_name: None,
            tap_name: None,
            tap_ip: None,
            configuration_type: FcnetConfigurationType::Simple,
        }
    }

    /// A network inside a namespace with the given options, and nothing else set.
    pub fn netns(netns_options: FcnetNetnsOptions) -> (r: Self)
        ensures
            r@.iptables_path is None && r@.iface_name is None && r@.tap_name is None && r@.tap_ip is None,
            r@.netns == Some(netns_options@),
    {
        FcnetConfiguration {
            iptables_path: None,
            iface_name: None,
            tap_name: None,
            tap_ip: None,
            configuration_type: FcnetConfigurationType::Netns(netns_options),
        }
    }

    /// Set the path of the iptables binary.
    pub fn iptables_path(self, iptables_path: &str) -> (r: Self)
        ensures
            r@ == (FcnetConfigurationView { iptables_path: Some(iptables_path@), ..self@ }),
    {
        FcnetConfiguration { iptables_path: Some(iptables_path.to_owned()), ..self }
    }

    /// Set the name of the host interface.
    pub fn iface_name(self, iface_name: &str) -> (r: Self)
        ensures
            r@ == (FcnetConfigurationView { iface_name: Some(iface_name@), ..self@ }),
    {
        FcnetConfiguration { iface_name: Some(iface_name.to_owned()), ..self }
    }

    /// Set the name of the tap device.
    pub fn tap_name(self, tap_name: &str) -> (r: Self)
        ensures
            r@ == (FcnetConfigurationView { tap_name: Some(tap_name@), ..self@ }),
    {
        FcnetConfiguration { tap_name: Some(tap_name.to_owned()), ..self }
    }

    /// Set the address of the tap device.
    pub fn tap_ip(self, tap_ip: Ipv4Inet) -> (r: Self)
        ensures
            r@ == (FcnetConfigurationView { tap_ip: Some(tap_ip), ..self@ }),
    {
        FcnetConfiguration { tap_ip: Some(tap_ip), ..self }
    }

    /// The command that routes the guest's traffic through the tap device.
    pub fn get_guest_routing_command(&self) -> (r: String)
        ensures
            r@ == "ip route add default via "@
                + self@.tap_ip_text(),
    {
        let mut r = String::new();
        r.append("ip route add default via ");
        r.append(self.get_tap_ip_str().as_str());
        r
    }

    /// The kernel boot argument that configures the guest's interface:
    /// `ip=<guest address>::<tap address>:<guest mask>::<interface>:off`.
    pub fn get_guest_ip_boot_arg(&self, guest_ip: &Ipv4Inet, guest_iface_name: &str) -> (r: String)
        ensures
            r@ == "ip="@ + guest_ip.spec_address().spec_text() + "::"@ + self@.tap_ip_text()
                + ":"@ + spec_mask(guest_ip.spec_network_length()).spec_text() + "::"@
                + guest_iface_name@ + ":off"@,
    {
        let mut r = String::new();
        r.append("ip=");
        guest_ip.address().push_text(&mut r);
        r.append("::");
        r.append(self.get_tap_ip_str().as_str());
        r.append(":");
        guest_ip.mask().push_text(&mut r);
        r.append("::");
        r.append(guest_iface_name);
        r.append(":off");
        r
    }

    /// The text of the tap's address, by default 172.16.0.1.
    fn get_tap_ip_str(&self) -> (r: String)
        ensures
            r@ == self@.tap_ip_text(),
    {
        match &self.tap_ip {
            Some(tap_ip) => tap_ip.address().to_string(),
            None => "172.16.0.1".to_owned(),
        }
    }

    /// The arguments of fcnet for the given operation (such as `--add`): the operation followed
    /// by the arguments that describe this configuration.
    pub fn arguments(&self, operation: &str) -> (r: String)
        ensures
            r@ == operation@ + self@.arguments(),
    {
        let mut r = operation.to_owned();
        push_optional_fcnet_arg(&mut r, "iptables-path", &self.iptables_path);
        push_optional_fcnet_arg(&mut r, "iface", &self.iface_name);
        push_optional_fcnet_arg(&mut r, "tap", &self.tap_name);
        push_optional_fcnet_arg(&mut r, "tap-ip", &optional_inet_text(&self.tap_ip));
        match &self.configuration_type {
            FcnetConfigurationType::Simple => {
                push_fcnet_arg(&mut r, "simple", "");
            },
            FcnetConfigurationType::Netns(options) => {
                options.push_arguments(&mut r);
            },
        }
        assert(r@ =~= operation@ + self@.arguments());
        r
    }

    /// The shell command that runs fcnet at `fcnet_path` with the given operation: the path, a
    /// space, and the arguments.
    pub fn exec(&self, operation: &str, fcnet_path: &str) -> (r: String)
        ensures
            r@ == fcnet_path@ + " "@ + operation@ + self@.arguments(),
    {
        let mut r = fcnet_path.to_owned();
        r.append(" ");
        r.append(self.arguments(operation).as_str());
        assert(r@ =~= fcnet_path@ + " "@ + operation@ + self@.arguments());
        r
    }

    /// The command that adds this network.
    pub fn add(&self, fcnet_path: &str) -> (r: String)
        ensures
            r@ == fcnet_path@ + " "@ + "--add"@ + self@.arguments(),
    {
        self.exec("--add", fcnet_path)
    }

    /// The command that checks this network.
    pub fn check(&self, fcnet_path: &str) -> (r: String)
        ensures
            r@ == fcnet_path@ + " "@ + "--check"@ + self@.arguments(),
    {
        self.exec("--check", fcnet_path)
    }

    /// The command that deletes this network.
    pub fn delete(&self, fcnet_path: &str) -> (r: String)
        ensures
            r@ == fcnet_path@ + " "@ + "--del"@ + self@.arguments(),
    {
        self.exec("--del", fcnet_path)
    }
}

/// The outcome of an fcnet invocation from what the finished process produced: success exactly
/// when the process exited successfully, and otherwise the output itself as the error.
pub fn fcnet_outcome(output: ProcessOutput) -> (r: Result<(), FcnetError>)
    ensures
        output.status.spec_success() ==> r is Ok,
        !output.status.spec_success() ==> (r matches Err(FcnetError::FcnetReturnedError(o)) && o == output),
{
    if !output.status.success() {
        return Err(FcnetError::FcnetReturnedError(output));
    }
    Ok(())
}


/// A text placed between two others occurs in the joined text.
proof fn lemma_contains_middle(pre: Seq<char>, t: Seq<char>, post: Seq<char>)
    ensures
        contains(pre + t + post, t),
{
    assert((pre + t + post).subrange(pre.len() as int, (pre.len() + t.len()) as int) =~= t);
    assert(occurs_at(pre + t + post, pre.len() as int, t));
}

/// The argument of a present option, placed between two other texts, occurs in the joined text as
/// ` --name value`.
proof fn lemma_option_rendered(head: Seq<char>, name: Seq<char>, value: Seq<char>, tail: Seq<char>)
    requires
        value.len() > 0,
    ensures
        contains(head + optional_fcnet_arg(name, Some(value)) + tail, " --"@ + name + " "@ + value),
{
    assert(optional_fcnet_arg(name, Some(value)) == " --"@ + name + " "@ + value);
    lemma_contains_middle(head, " --"@ + name + " "@ + value, tail);
}

/// The inet text of a network wider than a single host is its address, `/` and its length.
proof fn lemma_inet_text_has_length(n: Ipv4Inet)
    ensures
        n.spec_text().len() > 0,
        n.spec_network_length() < 32 ==> n.spec_text() == n.spec_address().spec_text() + "/"@ + decimal(n.spec_network_length() as nat),
{
    reveal_strlit("/");
    assert(n.spec_network_length() < 32 ==> n.spec_text() =~= n.spec_address().spec_text() + "/"@ + decimal(n.spec_network_length() as nat));
}

proof fn lemma_veth1_rendered(options: FcnetNetnsOptionsView, n: Ipv4Inet)
    requires
        options.veth1_ip == Some(n),
    ensures
        contains(options.arguments(), " --veth1-ip "@ + n.spec_text()),
{
    reveal_strlit(" --");
    reveal_strlit(" ");
    reveal_strlit("veth1-ip");
    reveal_strlit(" --veth1-ip ");
    assert(" --veth1-ip "@ =~= " --"@ + "veth1-ip"@ + " "@);
    lemma_inet_text_has_length(n);
    let head = fcnet_arg("netns"@, ""@) + optional_fcnet_arg("netns"@, options.netns_name)
        + optional_fcnet_arg("veth1"@, options.veth1_name) + optional_fcnet_arg("veth2"@, options.veth2_name);
    let tail = optional_fcnet_arg("veth2-ip"@, inet_text(options.veth2_ip))
        + optional_fcnet_arg("guest-ip"@, addr_text(options.guest_ip))
        + optional_fcnet_arg("forwarded-guest-ip"@, addr_text(options.forwarded_guest_ip));
    assert(options.arguments() =~= head + optional_fcnet_arg("veth1-ip"@, Some(n.spec_text())) + tail);
    lemma_option_rendered(head, "veth1-ip"@, n.spec_text(), tail);
}

proof fn lemma_veth2_rendered(options: FcnetNetnsOptionsView, n: Ipv4Inet)
    requires
        options.veth2_ip == Some(n),
    ensures
        contains(options.arguments(), " --veth2-ip "@ + n.spec_text()),
{
    reveal_strlit(" --");
    reveal_strlit(" ");
    reveal_strlit("veth2-ip");
    reveal_strlit(" --veth2-ip ");
    assert(" --veth2-ip "@ =~= " --"@ + "veth2-ip"@ + " "@);
    lemma_inet_text_has_length(n);
    let head = fcnet_arg("netns"@, ""@) + optional_fcnet_arg("netns"@, options.netns_name)
        + optional_fcnet_arg("veth1"@, options.veth1_name) + optional_fcnet_arg("veth2"@, options.veth2_name)
        + optional_fcnet_arg("veth1-ip"@, inet_text(options.veth1_ip));
    let tail = optional_fcnet_arg("guest-ip"@, addr_text(options.guest_ip))
        + optional_fcnet_arg("forwarded-guest-ip"@, addr_text(options.forwarded_guest_ip));
    assert(options.arguments() =~= head + optional_fcnet_arg("veth2-ip"@, Some(n.spec_text())) + tail);
    lemma_option_rendered(head, "veth2-ip"@, n.spec_text(), tail);
}

/// The dotted-decimal text of an address is not empty.
proof fn lemma_address_text_nonempty(a: Ipv4Addr)
    ensures
        a.spec_text().len() > 0,
{
    assert(a.spec_text().len() >= seq!['.'].len());
}

proof fn lemma_guest_ip_rendered(options: FcnetNetnsOptionsView, a: Ipv4Addr)
    requires
        options.guest_ip == Some(a),
    ensures
        contains(options.arguments(), " --guest-ip "@ + a.spec_text()),
{
    reveal_strlit(" --");
    reveal_strlit(" ");
    reveal_strlit("guest-ip");
    reveal_strlit(" --guest-ip ");
    assert(" --guest-ip "@ =~= " --"@ + "guest-ip"@ + " "@);
    let head = fcnet_arg("netns"@, ""@) + optional_fcnet_arg("netns"@, options.netns_name)
        + optional_fcnet_arg("veth1"@, options.veth1_name) + optional_fcnet_arg("veth2"@, options.veth2_name)
        + optional_fcnet_arg("veth1-ip"@, inet_text(options.veth1_ip))
        + optional_fcnet_arg("veth2-ip"@, inet_text(options.veth2_ip));
    let tail = optional_fcnet_arg("forwarded-guest-ip"@, addr_text(options.forwarded_guest_ip));
    lemma_address_text_nonempty(a);
    assert(addr_text(options.guest_ip) == Some(a.spec_text()));
    assert(options.arguments() == head + optional_fcnet_arg("guest-ip"@, Some(a.spec_text())) + tail);
    lemma_option_rendered(head, "guest-ip"@, a.spec_text(), tail);
}

proof fn lemma_forwarded_guest_ip_rendered(options: FcnetNetnsOptionsView, a: Ipv4Addr)
    requires
        options.forwarded_guest_ip == Some(a),
    ensures
        contains(options.arguments(), " --forwarded-guest-ip "@ + a.spec_text()),
{
    reveal_strlit(" --");
    reveal_strlit(" ");
    reveal_strlit("forwarded-guest-ip");
    reveal_strlit(" --forwarded-guest-ip ");
    assert(" --forwarded-guest-ip "@ =~= " --"@ + "forwarded-guest-ip"@ + " "@);
    let head = fcnet_arg("netns"@, ""@) + optional_fcnet_arg("netns"@, options.netns_name)
        + optional_fcnet_arg("veth1"@, options.veth1_name) + optional_fcnet_arg("veth2"@, options.veth2_name)
        + optional_fcnet_arg("veth1-ip"@, inet_text(options.veth1_ip))
        + optional_fcnet_arg("veth2-ip"@, inet_text(options.veth2_ip))
        + optional_fcnet_arg("guest-ip"@, addr_text(options.guest_ip));
    lemma_address_text_nonempty(a);
    assert(addr_text(options.forwarded_guest_ip) == Some(a.spec_text()));
    assert(options.arguments() == head + optional_fcnet_arg("forwarded-guest-ip"@, Some(a.spec_text())) + Seq::<char>::empty());
    lemma_option_rendered(head, "forwarded-guest-ip"@, a.spec_text(), Seq::<char>::empty());
}

proof fn lemma_tap_ip_rendered(config: FcnetConfigurationView, n: Ipv4Inet)
    requires
        config.tap_ip == Some(n),
    ensures
        contains(config.arguments(), " --tap-ip "@ + n.spec_text()),
{
    reveal_strlit(" --");
    reveal_strlit(" ");
    reveal_strlit("tap-ip");
    reveal_strlit(" --tap-ip ");
    assert(" --tap-ip "@ =~= " --"@ + "tap-ip"@ + " "@);
    lemma_inet_text_has_length(n);
    let head = optional_fcnet_arg("iptables-path"@, config.iptables_path) + optional_fcnet_arg("iface"@, config.iface_name)
        + optional_fcnet_arg("tap"@, config.tap_name);
    let tail = match config.netns {
        None => fcnet_arg("simple"@, ""@),
        Some(o) => o.arguments(),
    };
    assert(config.arguments() =~= head + optional_fcnet_arg("tap-ip"@, Some(n.spec_text())) + tail);
    lemma_option_rendered(head, "tap-ip"@, n.spec_text(), tail);
}

/// Every host within a network that fcnet is given (the tap address, and the addresses of both
/// ends of the namespace's veth pair) is handed over whole, as its inet text: the address, and
/// for a network wider than a single host a `/` and the network length. The guest's address is
/// handed over as its dotted-decimal text.
pub proof fn lemma_inet_options_are_rendered_whole(config: FcnetConfigurationView, options: FcnetNetnsOptionsView)
    ensures
        config.tap_ip matches Some(n) ==> contains(config.arguments(), " --tap-ip "@ + n.spec_text()),
        options.veth1_ip matches Some(n) ==> contains(options.arguments(), " --veth1-ip "@ + n.spec_text()),
        options.veth2_ip matches Some(n) ==> contains(options.arguments(), " --veth2-ip "@ + n.spec_text()),
        options.guest_ip matches Some(a) ==> contains(options.arguments(), " --guest-ip "@ + a.spec_text()),
        options.forwarded_guest_ip matches Some(a) ==> contains(options.arguments(), " --forwarded-guest-ip "@ + a.spec_text()),
        options.veth1_ip matches Some(n) ==> (n.spec_network_length() < 32 ==> contains(
            options.arguments(),
            " --veth1-ip "@ + n.spec_address().spec_text() + "/"@ + decimal(n.spec_network_length() as nat),
        )),
        config.tap_ip matches Some(n) ==> (n.spec_network_length() < 32 ==> contains(
            config.arguments(),
            " --tap-ip "@ + n.spec_address().spec_text() + "/"@ + decimal(n.spec_network_length() as nat),
        )),
{
    if let Some(n) = config.tap_ip {
        lemma_tap_ip_rendered(config, n);
        lemma_inet_text_has_length(n);
        assert(" --tap-ip "@ + n.spec_text() =~= " --tap-ip "@ + (n.spec_address().spec_text() + "/"@ + decimal(n.spec_network_length() as nat))
            ==> " --tap-ip "@ + n.spec_text() =~= " --tap-ip "@ + n.spec_address().spec_text() + "/"@ + decimal(n.spec_network_length() as nat));
    }
    if let Some(n) = options.veth1_ip {
        lemma_veth1_rendered(options, n);
        lemma_inet_text_has_length(n);
        assert(" --veth1-ip "@ + n.spec_text() =~= " --veth1-ip "@ + (n.spec_address().spec_text() + "/"@ + decimal(n.spec_network_length() as nat))
            ==> " --veth1-ip "@ + n.spec_text() =~= " --veth1-ip "@ + n.spec_address().spec_text() + "/"@ + decimal(n.spec_network_length() as nat));
    }
    if let Some(n) = options.veth2_ip {
        lemma_veth2_rendered(options, n);
    }
    if let Some(a) = options.guest_ip {
        lemma_guest_ip_rendered(options, a);
    }
    if let Some(a) = options.forwarded_guest_ip {
        lemma_forwarded_guest_ip_rendered(options, a);
    }
}

} // verus!
