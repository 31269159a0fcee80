//! Disk preparation, planned rather than performed: the manager turns a
//! device and a partition scheme into the exact sequence of privileged
//! commands to run, and the embedding program runs them.  In dry-run
//! mode the plans are empty.
use vstd::prelude::*;

use crate::command::{push_arg, PlannedCommand};

verus! {

/// Plans the partitioning, formatting and mounting of an installation
/// disk.
#[derive(Debug, Clone, Copy, PartialEq, Eq, Structural)]
pub struct DiskManager {
    pub dry_run: bool,
}

fn planned(program: &str, args: Vec<String>) -> (r: PlannedCommand)
    ensures
        r.program@ == program@,
        r.args == args,
{
    PlannedCommand { program: program.to_owned(), args }
}

fn args1(a: String) -> (r: Vec<String>)
    ensures
        r.deep_view() == seq![a@],
{
    let mut v: Vec<String> = Vec::new();
    proof {
        assert(v.deep_view() =~= Seq::<Seq<char>>::empty());
    }
    push_arg(&mut v, a);
    proof {
        assert(v.deep_view() =~= seq![a@]);
    }
    v
}

fn args2(a: String, b: String) -> (r: Vec<String>)
    ensures
        r.deep_view() == seq![a@, b@],
{
    let mut v = args1(a);
    let ghost ga = v.deep_view();
    push_arg(&mut v, b);
    proof {
        assert(v.deep_view() =~= seq![ga[0], b@]);
    }
    v
}

fn args7(a: String, b: String, c: String, d: String, e: String, f: String, g: String) -> (r: Vec<
    String,
>)
    ensures
        r.deep_view() == seq![a@, b@, c@, d@, e@, f@, g@],
{
    let ghost views = seq![a@, b@, c@, d@, e@, f@, g@];
    let mut v = args2(a, b);
    push_arg(&mut v, c);
    push_arg(&mut v, d);
    push_arg(&mut v, e);
    push_arg(&mut v, f);
    push_arg(&mut v, g);
    proof {
        assert(v.deep_view() =~= views);
    }
    v
}

impl DiskManager {
    /// A manager that really runs.
    pub fn new() -> (r: DiskManager)
        ensures
            !r.dry_run,
    {
        DiskManager { dry_run: false }
    }

    /// The same manager with the dry-run switch set as given.
    pub fn with_dry_run(self, dry_run: bool) -> (r: DiskManager)
        ensures
            r.dry_run == dry_run,
    {
        DiskManager { dry_run }
    }

    /// The command sequence that lays a GPT scheme onto the device —
    /// wipe, new table, firmware partition, swap of the given size, root
    /// on the rest — and formats the three partitions.  A dry run plans
    /// nothing.
    pub fn partition_uefi_plan(&self, device: &str, swap_size: &str) -> (cmds: Vec<PlannedCommand>)
        ensures
            self.dry_run ==> cmds@.len() == 0,
            !self.dry_run ==> cmds@.len() == 8 && cmds@[0].program@ == "sgdisk"@
                && cmds@[0].args.deep_view() == seq!["--zap-all"@, device@] && cmds@[1].program@
                == "sgdisk"@ && cmds@[1].args.deep_view() == seq!["-o"@, device@]
                && cmds@[2].program@ == "sgdisk"@ && cmds@[2].args.deep_view() == seq![
                "-n"@,
                "1:0:+512M"@,
                "-t"@,
                "1:ef00"@,
                "-c"@,
                "1:EFI"@,
                device@,
            ] && cmds@[3].program@ == "sgdisk"@ && cmds@[3].args.deep_view() == seq![
                "-n"@,
                "2:0:+"@ + swap_size@,
                "-t"@,
                "2:8200"@,
                "-c"@,
                "2:swap"@,
                device@,
            ] && cmds@[4].program@ == "sgdisk"@ && cmds@[4].args.deep_view() == seq![
                "-n"@,
                "3:0:0"@,
                "-t"@,
                "3:8300"@,
                "-c"@,
                "3:root"@,
                device@,
            ] && cmds@[5].program@ == "mkfs.fat"@ && cmds@[5].args.deep_view() == seq![
                "-F32"@,
                device@ + "1"@,
            ] && cmds@[6].program@ == "mkswap"@ && cmds@[6].args.deep_view() == seq![
                device@ + "2"@,
            ] && cmds@[7].program@ == "mkfs.ext4"@ && cmds@[7].args.deep_view() == seq![
                "-F"@,
                device@ + "3"@,
            ],
    {
        let mut cmds: Vec<PlannedCommand> = Vec::new();
        if self.dry_run {
            return cmds;
        }
        cmds.push(planned("sgdisk", args2(String::from_str("--zap-all"), device.to_owned())));
        cmds.push(planned("sgdisk", args2(String::from_str("-o"), device.to_owned())));
        cmds.push(
            planned(
                "sgdisk",
                args7(
                    String::from_str("-n"),
                    String::from_str("1:0:+512M"),
                    String::from_str("-t"),
                    String::from_str("1:ef00"),
                    String::from_str("-c"),
                    String::from_str("1:EFI"),
                    device.to_owned(),
                ),
            ),
        );
        cmds.push(
            planned(
                "sgdisk",
                args7(
                    String::from_str("-n"),
                    String::from_str("2:0:+").concat(swap_size),
                    String::from_str("-t"),
                    String::from_str("2:8200"),
                    String::from_str("-c"),
                    String::from_str("2:swap"),
                    device.to_owned(),
                ),
            ),
        );
        cmds.push(
            planned(
                "sgdisk",
                args7(
                    String::from_str("-n"),
                    String::from_str("3:0:0"),
                    String::from_str("-t"),
                    String::from_str("3:8300"),
                    String::from_str("-c"),
                    String::from_str("3:root"),
                    device.to_owned(),
                ),
            ),
        );
        cmds.push(planned("mkfs.fat", args2(String::from_str("-F32"), device.to_owned().concat("1"))));
        cmds.push(planned("mkswap", args1(device.to_owned().concat("2"))));
        cmds.push(planned("mkfs.ext4", args2(String::from_str("-F"), device.to_owned().concat("3"))));
        cmds
    }

    /// The command sequence that lays an MBR scheme onto the device —
    /// one scripted table rewrite piped into the partitioner — and
    /// formats swap and root.  A dry run plans nothing.
    pub fn partition_bios_plan(&self, device: &str, swap_size: &str) -> (cmds: Vec<PlannedCommand>)
        ensures
            self.dry_run ==> cmds@.len() == 0,
            !self.dry_run ==> cmds@.len() == 3 && cmds@[0].program@ == "sh"@
                && cmds@[0].args.deep_view() == seq![
                "-c"@,
                "echo '"@ + ("o\nn\np\n1\n\n+"@ + swap_size@ + "\nt\n82\nn\np\n2\n\n\nw\n"@)
                    + "' | fdisk "@ + device@,
            ] && cmds@[1].program@ == "mkswap"@ && cmds@[1].args.deep_view() == seq![
                device@ + "1"@,
            ] && cmds@[2].program@ == "mkfs.ext4"@ && cmds@[2].args.deep_view() == seq![
                "-F"@,
                device@ + "2"@,
            ],
    {
        let mut cmds: Vec<PlannedCommand> = Vec::new();
        if self.dry_run {
            return cmds;
        }
        let script = String::from_str("o\nn\np\n1\n\n+").concat(swap_size).concat(
            "\nt\n82\nn\np\n2\n\n\nw\n",
        );
        let shell = String::from_str("echo '").concat(script.as_str()).concat("' | fdisk ").concat(
            device,
        );
        proof {
            assert(shell@ == "echo '"@ + ("o\nn\np\n1\n\n+"@ + swap_size@
                + "\nt\n82\nn\np\n2\n\n\nw\n"@) + "' | fdisk "@ + device@);
        }
        cmds.push(planned("sh", args2(String::from_str("-c"), shell)));
        cmds.push(planned("mkswap", args1(device.to_owned().concat("1"))));
        cmds.push(planned("mkfs.ext4", args2(String::from_str("-F"), device.to_owned().concat("2"))));
        cmds
    }

    /// The command sequence that mounts the prepared partitions under
    /// the target and enables swap; the firmware partition is mounted
    /// only under the GPT scheme.  The embedding program creates the
    /// mount points first.
    pub fn mount_plan(&self, device: &str, target: &str, uefi: bool) -> (cmds: Vec<PlannedCommand>)
        ensures
            uefi ==> cmds@.len() == 3 && cmds@[0].program@ == "mount"@
                && cmds@[0].args.deep_view() == seq![device@ + "3"@, target@] && cmds@[1].program@
                == "mount"@ && cmds@[1].args.deep_view() == seq![
                device@ + "1"@,
                target@ + "/boot/efi"@,
            ] && cmds@[2].program@ == "swapon"@ && cmds@[2].args.deep_view() == seq![
                device@ + "2"@,
            ],
            !uefi ==> cmds@.len() == 2 && cmds@[0].program@ == "mount"@
                && cmds@[0].args.deep_view() == seq![device@ + "2"@, target@] && cmds@[1].program@
                == "swapon"@ && cmds@[1].args.deep_view() == seq![device@ + "1"@],
    {
        let mut cmds: Vec<PlannedCommand> = Vec::new();
        if uefi {
            cmds.push(planned("mount", args2(device.to_owned().concat("3"), target.to_owned())));
            cmds.push(
                planned(
                    "mount",
                    args2(device.to_owned().concat("1"), target.to_owned().concat("/boot/efi")),
                ),
            );
            cmds.push(planned("swapon", args1(device.to_owned().concat("2"))));
        } else {
            cmds.push(planned("mount", args2(device.to_owned().concat("2"), target.to_owned())));
            cmds.push(planned("swapon", args1(device.to_owned().concat("1"))));
        }
        cmds
    }

    /// The command sequence that disables swap and unmounts everything
    /// under the target.
    pub fn unmount_plan(&self, target: &str) -> (cmds: Vec<PlannedCommand>)
        ensures
            cmds@.len() == 2,
            cmds@[0].program@ == "swapoff"@,
            cmds@[0].args.deep_view() == seq!["-a"@],
            cmds@[1].program@ == "umount"@,
            cmds@[1].args.deep_view() == seq!["-R"@, target@],
    {
        let mut cmds: Vec<PlannedCommand> = Vec::new();
        cmds.push(planned("swapoff", args1(String::from_str("-a"))));
        cmds.push(planned("umount", args2(String::from_str("-R"), target.to_owned())));
        cmds
    }
}

} // verus!
