//! Base-system installation and configuration, planned rather than
//! performed: argument lists for the installer tools and the exact
//! chroot command sequences for system configuration and bootloaders.
//! The embedding program runs them.
use vstd::prelude::*;

use crate::command::push_arg;

verus! {

/// Plans package installation and system configuration.
#[derive(Debug, Clone)]
pub struct PackageManager {
    pub pacman_conf: Option<String>,
}

impl PackageManager {
    /// A manager with the stock package-manager configuration.
    pub fn new() -> (r: PackageManager)
        ensures
            r.pacman_conf is None,
    {
        PackageManager { pacman_conf: None }
    }

    /// The argument list of the base-system installer: the target mount
    /// point, then every requested package in order.
    pub fn pacstrap_args(&self, target: &str, packages: &Vec<String>) -> (args: Vec<String>)
        ensures
            args.deep_view() == seq![target@] + packages.deep_view(),
    {
        let mut args: Vec<String> = Vec::new();
        proof {
            assert(args.deep_view() =~= Seq::<Seq<char>>::empty());
        }
        push_arg(&mut args, target.to_owned());
        let n = packages.len();
        let mut i: usize = 0;
        while i < n
            invariant
                i <= n,
                n == packages@.len(),
                args.deep_view() == seq![target@] + packages.deep_view().subrange(0, i as int),
            decreases n - i,
        {
            let ghost pre = args.deep_view();
            push_arg(&mut args, packages[i].clone());
            proof {
                assert(packages.deep_view()[i as int] == packages@[i as int]@);
                assert(packages.deep_view().subrange(0, i + 1) =~= packages.deep_view().subrange(
                    0,
                    i as int,
                ).push(packages.deep_view()[i as int]));
                assert(seq![target@] + packages.deep_view().subrange(0, i + 1) =~= pre.push(
                    packages@[i as int]@,
                ));
            }
            i = i + 1;
        }
        proof {
            assert(packages.deep_view().subrange(0, n as int) =~= packages.deep_view());
        }
        args
    }

    /// The argument list that generates the file-system table for the
    /// target.
    pub fn genfstab_args(&self, target: &str) -> (args: Vec<String>)
        ensures
            args.deep_view() == seq!["-U"@, target@],
    {
        let mut args: Vec<String> = Vec::new();
        proof {
            assert(args.deep_view() =~= Seq::<Seq<char>>::empty());
        }
        push_arg(&mut args, String::from_str("-U"));
        push_arg(&mut args, target.to_owned());
        proof {
            assert(args.deep_view() =~= seq!["-U"@, target@]);
        }
        args
    }

    /// The argument list that runs one shell command inside the target
    /// system.
    pub fn arch_chroot_args(&self, target: &str, command: &str) -> (args: Vec<String>)
        ensures
            args.deep_view() == seq![target@, "bash"@, "-c"@, command@],
    {
        let mut args: Vec<String> = Vec::new();
        proof {
            assert(args.deep_view() =~= Seq::<Seq<char>>::empty());
        }
        push_arg(&mut args, target.to_owned());
        push_arg(&mut args, String::from_str("bash"));
        push_arg(&mut args, String::from_str("-c"));
        push_arg(&mut args, command.to_owned());
        proof {
            assert(args.deep_view() =~= seq![target@, "bash"@, "-c"@, command@]);
        }
        args
    }

    /// The chroot command sequence that configures the installed system:
    /// timezone, hardware clock, locale, hostname and hosts file, the
    /// root password when one is given, and the network service.
    pub fn configure_system_commands(
        &self,
        hostname: &str,
        timezone: &str,
        locale: &str,
        root_password: Option<&str>,
    ) -> (cmds: Vec<String>)
        ensures
            cmds.deep_view() == seq![
                "ln -sf /usr/share/zoneinfo/"@ + timezone@ + " /etc/localtime"@,
                "hwclock --systohc"@,
                "echo '"@ + locale@ + " UTF-8' >> /etc/locale.gen"@,
                "locale-gen"@,
                "echo 'LANG="@ + locale@ + "' > /etc/locale.conf"@,
                "echo '"@ + hostname@ + "' > /etc/hostname"@,
                "echo '"@ + hosts_text(hostname@) + "' > /etc/hosts"@,
            ] + (match root_password {
                Some(pw) => seq!["echo 'root:"@ + pw@ + "' | chpasswd"@],
                None => Seq::empty(),
            }) + seq!["systemctl enable NetworkManager"@],
    {
        let mut cmds: Vec<String> = Vec::new();
        proof {
            assert(cmds.deep_view() =~= Seq::<Seq<char>>::empty());
        }
        push_arg(
            &mut cmds,
            String::from_str("ln -sf /usr/share/zoneinfo/").concat(timezone).concat(
                " /etc/localtime",
            ),
        );
        push_arg(&mut cmds, String::from_str("hwclock --systohc"));
        push_arg(
            &mut cmds,
            String::from_str("echo '").concat(locale).concat(" UTF-8' >> /etc/locale.gen"),
        );
        push_arg(&mut cmds, String::from_str("locale-gen"));
        push_arg(
            &mut cmds,
            String::from_str("echo 'LANG=").concat(locale).concat("' > /etc/locale.conf"),
        );
        push_arg(
            &mut cmds,
            String::from_str("echo '").concat(hostname).concat("' > /etc/hostname"),
        );
        let hosts = String::from_str("127.0.0.1\tlocalhost\n::1\t\tlocalhost\n127.0.1.1\t").concat(
            hostname,
        ).concat(".localdomain\t").concat(hostname);
        push_arg(
            &mut cmds,
            String::from_str("echo '").concat(hosts.as_str()).concat("' > /etc/hosts"),
        );
        match root_password {
            Some(pw) => {
                push_arg(
                    &mut cmds,
                    String::from_str("echo 'root:").concat(pw).concat("' | chpasswd"),
                );
            },
            None => {},
        }
        push_arg(&mut cmds, String::from_str("systemctl enable NetworkManager"));
        proof {
            assert(cmds.deep_view() =~= seq![
                "ln -sf /usr/share/zoneinfo/"@ + timezone@ + " /etc/localtime"@,
                "hwclock --systohc"@,
                "echo '"@ + locale@ + " UTF-8' >> /etc/locale.gen"@,
                "locale-gen"@,
                "echo 'LANG="@ + locale@ + "' > /etc/locale.conf"@,
                "echo '"@ + hostname@ + "' > /etc/hostname"@,
                "echo '"@ + hosts_text(hostname@) + "' > /etc/hosts"@,
            ] + (match root_password {
                Some(pw) => seq!["echo 'root:"@ + pw@ + "' | chpasswd"@],
                None => Seq::<Seq<char>>::empty(),
            }) + seq!["systemctl enable NetworkManager"@]);
        }
        cmds
    }

    /// The summary reported after configuration, one line per step.
    pub fn configure_summary(
        &self,
        hostname: &str,
        timezone: &str,
        locale: &str,
        password_set: bool,
    ) -> (s: String)
        ensures
            s@ == "Set timezone to "@ + timezone@ + "\nGenerated /etc/adjtime\nConfigured locale: "@
                + locale@ + "\nSet hostname: "@ + hostname@ + (if password_set {
                "\nSet root password"@
            } else {
                Seq::empty()
            }) + "\nEnabled NetworkManager"@,
    {
        let mut s = String::from_str("Set timezone to ").concat(timezone).concat(
            "\nGenerated /etc/adjtime\nConfigured locale: ",
        ).concat(locale).concat("\nSet hostname: ").concat(hostname);
        if password_set {
            s = s.concat("\nSet root password");
        }
        let r = s.concat("\nEnabled NetworkManager");
        proof {
            assert(r@ =~= "Set timezone to "@ + timezone@
                + "\nGenerated /etc/adjtime\nConfigured locale: "@ + locale@ + "\nSet hostname: "@
                + hostname@ + (if password_set {
                "\nSet root password"@
            } else {
                Seq::<char>::empty()
            }) + "\nEnabled NetworkManager"@);
        }
        r
    }

    /// The chroot command sequence that installs the legacy bootloader
    /// onto the given device and writes its configuration.
    pub fn grub_commands(&self, device: &str) -> (cmds: Vec<String>)
        ensures
            cmds.deep_view() == seq![
                "pacman -S --noconfirm grub"@,
                "grub-install --target=i386-pc "@ + device@,
                "grub-mkconfig -o /boot/grub/grub.cfg"@,
            ],
    {
        let mut cmds: Vec<String> = Vec::new();
        proof {
            assert(cmds.deep_view() =~= Seq::<Seq<char>>::empty());
        }
        push_arg(&mut cmds, String::from_str("pacman -S --noconfirm grub"));
        push_arg(&mut cmds, String::from_str("grub-install --target=i386-pc ").concat(device));
        push_arg(&mut cmds, String::from_str("grub-mkconfig -o /boot/grub/grub.cfg"));
        proof {
            assert(cmds.deep_view() =~= seq![
                "pacman -S --noconfirm grub"@,
                "grub-install --target=i386-pc "@ + device@,
                "grub-mkconfig -o /boot/grub/grub.cfg"@,
            ]);
        }
        cmds
    }

    /// The chroot command sequence that installs the firmware boot
    /// manager and writes its loader and entry files; the root file
    /// system is named by the given identifier.
    pub fn systemd_boot_commands(&self, root_uuid: &str) -> (cmds: Vec<String>)
        ensures
            cmds.deep_view() == seq![
                "bootctl --path=/boot/efi install"@,
                "echo 'default arch\ntimeout 5\nconsole-mode max\neditor no' > /boot/efi/loader/loader.conf"@,
                "mkdir -p /boot/efi/loader/entries && echo 'title Arch Linux\nlinux /vmlinuz-linux\ninitrd /initramfs-linux.img\noptions root=UUID="@
                    + root_uuid@ + " rw' > /boot/efi/loader/entries/arch.conf"@,
            ],
    {
        let mut cmds: Vec<String> = Vec::new();
        proof {
            assert(cmds.deep_view() =~= Seq::<Seq<char>>::empty());
        }
        push_arg(&mut cmds, String::from_str("bootctl --path=/boot/efi install"));
        push_arg(
            &mut cmds,
            String::from_str(
                "echo 'default arch\ntimeout 5\nconsole-mode max\neditor no' > /boot/efi/loader/loader.conf",
            ),
        );
        push_arg(
            &mut cmds,
            String::from_str(
                "mkdir -p /boot/efi/loader/entries && echo 'title Arch Linux\nlinux /vmlinuz-linux\ninitrd /initramfs-linux.img\noptions root=UUID=",
            ).concat(root_uuid).concat(" rw' > /boot/efi/loader/entries/arch.conf"),
        );
        proof {
            assert(cmds.deep_view() =~= seq![
                "bootctl --path=/boot/efi install"@,
                "echo 'default arch\ntimeout 5\nconsole-mode max\neditor no' > /boot/efi/loader/loader.conf"@,
                "mkdir -p /boot/efi/loader/entries && echo 'title Arch Linux\nlinux /vmlinuz-linux\ninitrd /initramfs-linux.img\noptions root=UUID="@
                    + root_uuid@ + " rw' > /boot/efi/loader/entries/arch.conf"@,
            ]);
        }
        cmds
    }

    /// The argument list that reads the root partition's identifier.
    pub fn root_uuid_args(&self) -> (args: Vec<String>)
        ensures
            args.deep_view() == seq![
                "-s"@,
                "UUID"@,
                "-o"@,
                "value"@,
                "/dev/disk/by-label/root"@,
            ],
    {
        let mut args: Vec<String> = Vec::new();
        proof {
            assert(args.deep_view() =~= Seq::<Seq<char>>::empty());
        }
        push_arg(&mut args, String::from_str("-s"));
        push_arg(&mut args, String::from_str("UUID"));
        push_arg(&mut args, String::from_str("-o"));
        push_arg(&mut args, String::from_str("value"));
        push_arg(&mut args, String::from_str("/dev/disk/by-label/root"));
        proof {
            assert(args.deep_view() =~= seq![
                "-s"@,
                "UUID"@,
                "-o"@,
                "value"@,
                "/dev/disk/by-label/root"@,
            ]);
        }
        args
    }
}

/// The hosts file written for a freshly configured system.
pub open spec fn hosts_text(hostname: Seq<char>) -> Seq<char> {
    "127.0.0.1\tlocalhost\n::1\t\tlocalhost\n127.0.1.1\t"@ + hostname + ".localdomain\t"@ + hostname
}

} // verus!
