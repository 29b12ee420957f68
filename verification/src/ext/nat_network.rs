//! A NAT network for a VM: the shell commands that create and delete its tap device and forwarding
//! rules, the network interface that the VM uses, and the guest's kernel boot argument.

use vstd::prelude::*;

use crate::net::Ipv4Inet;
use crate::process::ExitStatus;
use crate::process_spawner::SpawnPlan;
use crate::shell_spawner::ShellSpawner;
use crate::vm::models::NetworkInterface;

verus! {

/// A NAT network: a tap device with the host's address, forwarded through a host interface, and
/// the guest's address.
pub struct NatNetwork<S: ShellSpawner> {
    pub tap_name: String,
    pub host_ip: Ipv4Inet,
    pub host_iface: String,
    pub guest_ip: Ipv4Inet,
    pub shell_spawner: S,
}

/// A failed command of a NAT network.
#[derive(Debug)]
pub enum NatNetworkError {
    /// Spawning or waiting for the shell failed.
    IoError(std::io::Error),
    /// The command exited with this unsuccessful status.
    NonzeroStatus(ExitStatus),
}

/// The commands that create the network, in order.
pub open spec fn create_commands(tap_name: Seq<char>, host_ip: Seq<char>, host_iface: Seq<char>) -> Seq<Seq<char>> {
    seq![
        "ip tuntap add "@ + tap_name + " mode tap"@,
        "ip addr add "@ + host_ip + " dev "@ + tap_name,
        "ip link set "@ + tap_name + " up"@,
        "echo 1 > /proc/sys/net/ipv4/ip_forward"@,
        "iptables -t nat -A POSTROUTING -o "@ + host_iface + " -j MASQUERADE"@,
        "iptables -A FORWARD -m conntrack --ctstate RELATED,ESTABLISHED -j ACCEPT"@,
        "iptables -A FORWARD -i "@ + tap_name + " -o "@ + host_iface + " -j ACCEPT"@,
    ]
}

/// The commands that delete the network, in order.
pub open spec fn delete_commands(tap_name: Seq<char>, host_iface: Seq<char>) -> Seq<Seq<char>> {
    seq![
        "ip link del "@ + tap_name,
        "iptables -t nat -D POSTROUTING -o "@ + host_iface + " -j MASQUERADE"@,
        "iptables -D FORWARD -m conntrack --ctstate RELATED,ESTABLISHED -j ACCEPT"@,
        "iptables -D FORWARD -i "@ + tap_name + " -o "@ + host_iface + " -j ACCEPT"@,
    ]
}

/// The concatenation of three texts.
fn concat3(a: &str, b: &str, c: &str) -> (r: String)
    ensures
        r@ == a@ + b@ + c@,
{
    let mut r = a.to_owned();
    r.append(b);
    r.append(c);
    r
}

/// The concatenation of five texts.
fn concat5(a: &str, b: &str, c: &str, d: &str, e: &str) -> (r: String)
    ensures
        r@ == a@ + b@ + c@ + d@ + e@,
{
    let mut r = concat3(a, b, c);
    r.append(d);
    r.append(e);
    r
}

impl<S: ShellSpawner> NatNetwork<S> {
    /// The commands that create the network, in order.
    pub fn create_command_list(&self) -> (r: Vec<String>)
        ensures
            r.deep_view() == create_commands(self.tap_name@, self.host_ip.spec_text(), self.host_iface@),
    {
        let tap = self.tap_name.as_str();
        let iface = self.host_iface.as_str();
        let host_ip = self.host_ip.to_string();
        let mut r: Vec<String> = Vec::new();
        r.push(concat3("ip tuntap add ", tap, " mode tap"));
        r.push(concat5("ip addr add ", host_ip.as_str(), " dev ", tap, ""));
        r.push(concat3("ip link set ", tap, " up"));
        r.push("echo 1 > /proc/sys/net/ipv4/ip_forward".to_owned());
        r.push(concat3("iptables -t nat -A POSTROUTING -o ", iface, " -j MASQUERADE"));
        r.push("iptables -A FORWARD -m conntrack --ctstate RELATED,ESTABLISHED -j ACCEPT".to_owned());
        r.push(concat5("iptables -A FORWARD -i ", tap, " -o ", iface, " -j ACCEPT"));
        proof {
            reveal_strlit("");
        }
        assert(r.deep_view() =~= create_commands(self.tap_name@, self.host_ip.spec_text(), self.host_iface@));
        r
    }

    /// The commands that delete the network, in order.
    pub fn delete_command_list(&self) -> (r: Vec<String>)
        ensures
            r.deep_view() == delete_commands(self.tap_name@, self.host_iface@),
    {
        let tap = self.tap_name.as_str();
        let iface = self.host_iface.as_str();
        let mut r: Vec<String> = Vec::new();
        let mut first = "ip link del ".to_owned();
        first.append(tap);
        r.push(first);
        r.push(concat3("iptables -t nat -D POSTROUTING -o ", iface, " -j MASQUERADE"));
        r.push("iptables -D FORWARD -m conntrack --ctstate RELATED,ESTABLISHED -j ACCEPT".to_owned());
        r.push(concat5("iptables -D FORWARD -i ", tap, " -o ", iface, " -j ACCEPT"));
        assert(r.deep_view() =~= delete_commands(self.tap_name@, self.host_iface@));
        r
    }

    /// The shells that run the given commands, one per command in order; the commands run one
    /// after the other and stop at the first failure.
    fn spawn_all(&self, commands: Vec<String>) -> (r: Vec<SpawnPlan>)
        ensures
            r.len() == commands.len(),
            forall|i: int| 0 <= i < r.len() ==> #[trigger] r@[i]@ == self.shell_spawner.spec_spawn(commands.deep_view()[i], false),
    {
        let mut r: Vec<SpawnPlan> = Vec::new();
        let mut i: usize = 0;
        while i < commands.len()
            invariant
                i <= commands.len(),
                r.len() == i,
                forall|j: int| 0 <= j < i ==> #[trigger] r@[j]@ == self.shell_spawner.spec_spawn(commands.deep_view()[j], false),
            decreases commands.len() - i,
        {
            let command = commands[i].clone();
            assert(command@ == commands.deep_view()[i as int]);
            r.push(self.shell_spawner.spawn(command, false));
            i += 1;
        }
        r
    }

    /// The shells that create the network, one per command of [create_commands], run in order until
    /// one fails.
    pub fn create(&self) -> (r: Vec<SpawnPlan>)
        ensures
            r.len() == 7,
            forall|i: int| 0 <= i < 7 ==> #[trigger] r@[i]@ == self.shell_spawner.spec_spawn(
                create_commands(self.tap_name@, self.host_ip.spec_text(), self.host_iface@)[i],
                false,
            ),
    {
        let commands = self.create_command_list();
        assert(commands.deep_view().len() == 7);
        assert(commands.len() == commands.deep_view().len());
        self.spawn_all(commands)
    }

    /// The shells that delete the network, one per command of [delete_commands], run in order until
    /// one fails.
    pub fn delete(&self) -> (r: Vec<SpawnPlan>)
        ensures
            r.len() == 4,
            forall|i: int| 0 <= i < 4 ==> #[trigger] r@[i]@ == self.shell_spawner.spec_spawn(
                delete_commands(self.tap_name@, self.host_iface@)[i],
                false,
            ),
    {
        let commands = self.delete_command_list();
        assert(commands.deep_view().len() == 4);
        assert(commands.len() == commands.deep_view().len());
        self.spawn_all(commands)
    }

    /// The network interface of the VM: the host interface as its identifier and the tap device
    /// as its host device.
    pub fn get_vm_network_interface(&self) -> (r: NetworkInterface)
        ensures
            r.iface_id@ == self.host_iface@,
            r.host_dev_name@ == self.tap_name@,
            r.guest_mac is None,
            r.rx_rate_limiter is None,
            r.tx_rate_limiter is None,
    {
        NetworkInterface {
            iface_id: self.host_iface.clone(),
            host_dev_name: self.tap_name.clone(),
            guest_mac: None,
            rx_rate_limiter: None,
            tx_rate_limiter: None,
        }
    }

    /// Append the guest's kernel boot argument to `boot_args`:
    /// ` ip=<guest address>::<host address>:255.255.255.0::eth0:off`.
    pub fn append_ip_boot_arg(&self, boot_args: &mut String)
        ensures
            final(boot_args)@ == old(boot_args)@ + " ip="@ + self.guest_ip.spec_address().spec_text() + "::"@
                + self.host_ip.spec_address().spec_text() + ":255.255.255.0::eth0:off"@,
    {
        boot_args.append(" ip=");
        self.guest_ip.address().push_text(boot_args);
        boot_args.append("::");
        self.host_ip.address().push_text(boot_args);
        boot_args.append(":255.255.255.0::eth0:off");
    }

    /// The outcome of one command from the exit status of its shell.
    pub fn exec_outcome(status: ExitStatus) -> (r: Result<(), NatNetworkError>)
        ensures
            status.spec_success() ==> r is Ok,
            !status.spec_success() ==> (r matches Err(NatNetworkError::NonzeroStatus(s)) && s == status),
    {
        if !status.success() {
            return Err(NatNetworkError::NonzeroStatus(status));
        }
        Ok(())
    }
}


/// Deleting a NAT network undoes its creation: the tap device that creation adds and brings up
/// with the host's address is the one that deletion removes, and every iptables rule that creation
/// appends (`-A`) is removed (`-D`) by deletion, in the same order. The masquerading rule is on
/// the host interface, through which the guest's traffic leaves, and forwarding goes from the tap
/// device to the host interface.
pub proof fn lemma_delete_undoes_create(tap_name: Seq<char>, host_ip: Seq<char>, host_iface: Seq<char>)
    ensures
        create_commands(tap_name, host_ip, host_iface).len() == 7,
        delete_commands(tap_name, host_iface).len() == 4,
        create_commands(tap_name, host_ip, host_iface)[0] == "ip tuntap add "@ + tap_name + " mode tap"@,
        create_commands(tap_name, host_ip, host_iface)[1] == "ip addr add "@ + host_ip + " dev "@ + tap_name,
        create_commands(tap_name, host_ip, host_iface)[2] == "ip link set "@ + tap_name + " up"@,
        create_commands(tap_name, host_ip, host_iface)[3] == "echo 1 > /proc/sys/net/ipv4/ip_forward"@,
        delete_commands(tap_name, host_iface)[0] == "ip link del "@ + tap_name,
        create_commands(tap_name, host_ip, host_iface)[4] == "iptables -t nat -A POSTROUTING -o "@ + host_iface + " -j MASQUERADE"@,
        create_commands(tap_name, host_ip, host_iface)[6] == "iptables -A FORWARD -i "@ + tap_name + " -o "@ + host_iface + " -j ACCEPT"@,
        ({
            let rule = " POSTROUTING -o "@ + host_iface + " -j MASQUERADE"@;
            &&& create_commands(tap_name, host_ip, host_iface)[4] == "iptables -t nat "@ + "-A"@ + rule
            &&& delete_commands(tap_name, host_iface)[1] == "iptables -t nat "@ + "-D"@ + rule
        }),
        ({
            let rule = " FORWARD -m conntrack --ctstate RELATED,ESTABLISHED -j ACCEPT"@;
            &&& create_commands(tap_name, host_ip, host_iface)[5] == "iptables "@ + "-A"@ + rule
            &&& delete_commands(tap_name, host_iface)[2] == "iptables "@ + "-D"@ + rule
        }),
        ({
            let rule = " FORWARD -i "@ + tap_name + " -o "@ + host_iface + " -j ACCEPT"@;
            &&& create_commands(tap_name, host_ip, host_iface)[6] == "iptables "@ + "-A"@ + rule
            &&& delete_commands(tap_name, host_iface)[3] == "iptables "@ + "-D"@ + rule
        }),
{
    reveal_strlit("iptables -t nat -A POSTROUTING -o ");
    reveal_strlit("iptables -t nat -D POSTROUTING -o ");
    reveal_strlit(" -j MASQUERADE");
    reveal_strlit("iptables -t nat ");
    reveal_strlit(" POSTROUTING -o ");
    reveal_strlit("-A");
    reveal_strlit("-D");
    reveal_strlit("iptables ");
    reveal_strlit("iptables -A FORWARD -m conntrack --ctstate RELATED,ESTABLISHED -j ACCEPT");
    reveal_strlit("iptables -D FORWARD -m conntrack --ctstate RELATED,ESTABLISHED -j ACCEPT");
    reveal_strlit(" FORWARD -m conntrack --ctstate RELATED,ESTABLISHED -j ACCEPT");
    reveal_strlit("iptables -A FORWARD -i ");
    reveal_strlit("iptables -D FORWARD -i ");
    reveal_strlit(" FORWARD -i ");
    let c = create_commands(tap_name, host_ip, host_iface);
    let d = delete_commands(tap_name, host_iface);
    let rule = " POSTROUTING -o "@ + host_iface + " -j MASQUERADE"@;
    assert(c[4] =~= "iptables -t nat "@ + "-A"@ + rule);
    assert(d[1] =~= "iptables -t nat "@ + "-D"@ + rule);
    let rule = " FORWARD -m conntrack --ctstate RELATED,ESTABLISHED -j ACCEPT"@;
    assert(c[5] =~= "iptables "@ + "-A"@ + rule);
    assert(d[2] =~= "iptables "@ + "-D"@ + rule);
    let rule = " FORWARD -i "@ + tap_name + " -o "@ + host_iface + " -j ACCEPT"@;
    assert(c[6] =~= "iptables "@ + "-A"@ + rule);
    assert(d[3] =~= "iptables "@ + "-D"@ + rule);
}

} // verus!
