//! The installation provider: declares the partition, base-install,
//! configure and bootloader tools, decodes their arguments, and words
//! their outcomes.  The planned commands come from the disk and package
//! managers; the embedding program runs them.
use vstd::prelude::*;

use crate::disk::DiskManager;
use crate::json::{jv_of_pairs, lookup, JsonV, JsonValue};
use crate::package::PackageManager;
use crate::registry::{Resource, Tool, ToolArgs};
use crate::strutil::{dec_nat, push_u64};
use crate::MCPError;

verus! {

/// Installs an operating system onto prepared disks.
#[derive(Debug)]
pub struct ArchInstallPlugin {
    pub disk_manager: DiskManager,
    pub package_manager: PackageManager,
}

/// Builds the schema fragment of one string-typed parameter.
fn sprop(ty: &str, desc: &str) -> (v: JsonValue)
    ensures
        v@ is Obj,
{
    let mut ps: Vec<(String, JsonValue)> = Vec::new();
    ps.push((String::from_str("type"), JsonValue::Str(ty.to_owned())));
    ps.push((String::from_str("description"), JsonValue::Str(desc.to_owned())));
    JsonValue::Obj(ps)
}

/// Builds an object schema from its properties and required names.
fn schema(props: Vec<(String, JsonValue)>, required: Vec<String>) -> (v: JsonValue)
    ensures
        v@ is Obj,
{
    let mut rs: Vec<JsonValue> = Vec::new();
    let mut req = required;
    while req.len() > 0
        decreases req.len(),
    {
        let r = req.remove(0);
        rs.push(JsonValue::Str(r));
    }
    let mut ps: Vec<(String, JsonValue)> = Vec::new();
    ps.push((String::from_str("type"), JsonValue::Str(String::from_str("object"))));
    ps.push((String::from_str("properties"), JsonValue::Obj(props)));
    ps.push((String::from_str("required"), JsonValue::Arr(rs)));
    JsonValue::Obj(ps)
}

/// The text items of a document array, in order; anything that is not
/// text is skipped.
pub open spec fn str_items(xs: Seq<JsonV>) -> Seq<Seq<char>>
    decreases xs.len(),
{
    if xs.len() == 0 {
        Seq::empty()
    } else {
        (match xs[0] {
            JsonV::Str(s) => seq![s],
            _ => Seq::empty(),
        }) + str_items(xs.drop_first())
    }
}

proof fn lemma_str_items_push(xs: Seq<JsonV>, x: JsonV)
    ensures
        str_items(xs.push(x)) =~= str_items(xs) + (match x {
            JsonV::Str(s) => seq![s],
            _ => Seq::<Seq<char>>::empty(),
        }),
    decreases xs.len(),
{
    let fx: Seq<Seq<char>> = match x {
        JsonV::Str(s) => seq![s],
        _ => Seq::empty(),
    };
    if xs.len() == 0 {
        assert(xs.push(x).drop_first() =~= Seq::<JsonV>::empty());
        assert(xs.push(x)[0] == x);
        assert(str_items(xs.push(x)) == fx + str_items(xs.push(x).drop_first()));
        assert(str_items(xs.push(x).drop_first()) == Seq::<Seq<char>>::empty());
        assert(str_items(xs) == Seq::<Seq<char>>::empty());
        assert(str_items(xs.push(x)) =~= str_items(xs) + fx);
    } else {
        assert(xs.push(x).drop_first() =~= xs.drop_first().push(x));
        assert(xs.push(x)[0] == xs[0]);
        lemma_str_items_push(xs.drop_first(), x);
        let head: Seq<Seq<char>> = match xs[0] {
            JsonV::Str(s) => seq![s],
            _ => Seq::empty(),
        };
        assert(str_items(xs.push(x)) == head + str_items(xs.push(x).drop_first()));
        assert(str_items(xs.push(x).drop_first()) == str_items(xs.drop_first().push(x)));
        assert(str_items(xs.drop_first().push(x)) == str_items(xs.drop_first()) + fx);
        assert(str_items(xs) == head + str_items(xs.drop_first()));
        assert((head + str_items(xs.drop_first())) + fx =~= head + (str_items(xs.drop_first())
            + fx));
        assert(str_items(xs.push(x)) =~= str_items(xs) + fx);
    }
}

impl ArchInstallPlugin {
    /// A provider over the stock disk and package managers.
    pub fn new() -> (r: ArchInstallPlugin)
        ensures
            !r.disk_manager.dry_run,
            r.package_manager.pacman_conf is None,
    {
        ArchInstallPlugin {
            disk_manager: DiskManager::new(),
            package_manager: PackageManager::new(),
        }
    }

    /// This provider's name.
    pub fn name(&self) -> (r: &str)
        ensures
            r@ == "arch_install"@,
    {
        "arch_install"
    }

    /// The four installation tools, under their fixed names.
    pub fn tools(&self) -> (r: Vec<Tool>)
        ensures
            crate::registry::tool_names(r@) == seq![
                "arch_install_partition"@,
                "arch_install_base"@,
                "arch_install_configure"@,
                "arch_install_bootloader"@,
            ],
            r@.len() == 4,
            r@[0]@.description == "Partition a disk for Arch Linux installation"@,
            r@[1]@.description == "Install Arch Linux base system"@,
            r@[2]@.description == "Configure Arch Linux system"@,
            r@[3]@.description == "Install and configure bootloader"@,
            forall|i: int| 0 <= i < 4 ==> (#[trigger] r@[i]@.input_schema) is Obj,
    {
        let mut ts: Vec<Tool> = Vec::new();
        let mut p1: Vec<(String, JsonValue)> = Vec::new();
        p1.push((String::from_str("device"), sprop("string", "Device path (e.g., /dev/sda)")));
        p1.push((String::from_str("scheme"), sprop("string", "Partition scheme")));
        p1.push((
            String::from_str("swap_size"),
            sprop("string", "Swap partition size (e.g., 4G)"),
        ));
        let mut r1: Vec<String> = Vec::new();
        r1.push(String::from_str("device"));
        r1.push(String::from_str("scheme"));
        ts.push(
            Tool {
                name: String::from_str("arch_install_partition"),
                description: String::from_str("Partition a disk for Arch Linux installation"),
                input_schema: schema(p1, r1),
            },
        );
        let mut p2: Vec<(String, JsonValue)> = Vec::new();
        p2.push((String::from_str("target"), sprop("string", "Mount point for installation")));
        p2.push((String::from_str("packages"), sprop("array", "Additional packages to install")));
        ts.push(
            Tool {
                name: String::from_str("arch_install_base"),
                description: String::from_str("Install Arch Linux base system"),
                input_schema: schema(p2, Vec::new()),
            },
        );
        let mut p3: Vec<(String, JsonValue)> = Vec::new();
        p3.push((String::from_str("hostname"), sprop("string", "System hostname")));
        p3.push((String::from_str("timezone"), sprop("string", "Timezone (e.g., Europe/London)")));
        p3.push((String::from_str("locale"), sprop("string", "System locale")));
        p3.push((
            String::from_str("root_password"),
            sprop("string", "Root password (will be hashed)"),
        ));
        let mut r3: Vec<String> = Vec::new();
        r3.push(String::from_str("hostname"));
        r3.push(String::from_str("timezone"));
        ts.push(
            Tool {
                name: String::from_str("arch_install_configure"),
                description: String::from_str("Configure Arch Linux system"),
                input_schema: schema(p3, r3),
            },
        );
        let mut p4: Vec<(String, JsonValue)> = Vec::new();
        p4.push((String::from_str("type"), sprop("string", "Bootloader type")));
        p4.push((
            String::from_str("device"),
            sprop("string", "Device for bootloader (required for GRUB on BIOS)"),
        ));
        let mut r4: Vec<String> = Vec::new();
        r4.push(String::from_str("type"));
        ts.push(
            Tool {
                name: String::from_str("arch_install_bootloader"),
                description: String::from_str("Install and configure bootloader"),
                input_schema: schema(p4, r4),
            },
        );
        proof {
            assert(crate::registry::tool_names(ts@) =~= seq![
                "arch_install_partition"@,
                "arch_install_base"@,
                "arch_install_configure"@,
                "arch_install_bootloader"@,
            ]);
        }
        ts
    }

    /// The two installation resources, under their fixed URIs.
    pub fn resources(&self) -> (r: Vec<Resource>)
        ensures
            r@.len() == 2,
            r@[0].uri@ == "arch://installation/status"@,
            r@[0].name@ == "Installation Status"@,
            r@[0]@.description == Some("Current Arch Linux installation status"@),
            r@[0]@.mime_type == Some("application/json"@),
            r@[1].uri@ == "arch://installation/log"@,
            r@[1].name@ == "Installation Log"@,
            r@[1]@.description == Some("Arch Linux installation log"@),
            r@[1]@.mime_type == Some("text/plain"@),
    {
        let mut rs: Vec<Resource> = Vec::new();
        rs.push(
            Resource {
                uri: String::from_str("arch://installation/status"),
                name: String::from_str("Installation Status"),
                description: Some(String::from_str("Current Arch Linux installation status")),
                mime_type: Some(String::from_str("application/json")),
            },
        );
        rs.push(
            Resource {
                uri: String::from_str("arch://installation/log"),
                name: String::from_str("Installation Log"),
                description: Some(String::from_str("Arch Linux installation log")),
                mime_type: Some(String::from_str("text/plain")),
            },
        );
        rs
    }

    /// Decodes a partition request: the device and scheme are required
    /// strings, the swap size defaults when absent or of another type.
    pub fn partition_request(&self, args: &ToolArgs) -> (r: Result<(String, String, String), MCPError>)
        ensures
            ({
                let ps = jv_of_pairs(args.args@);
                match r {
                    Ok(t) => (lookup(ps, "device"@) matches Some(JsonV::Str(d)) && t.0@ == d) && (
                    lookup(ps, "scheme"@) matches Some(JsonV::Str(s)) && t.1@ == s) && (match lookup(
                        ps,
                        "swap_size"@,
                    ) {
                        Some(JsonV::Str(w)) => t.2@ == w,
                        _ => t.2@ == "4G"@,
                    }),
                    Err(e) => e matches MCPError::Other(m) && (!(lookup(ps, "device"@) matches Some(
                        JsonV::Str(_),
                    )) ==> m@ == "Missing device parameter"@) && ((lookup(ps, "device"@) matches
                    Some(JsonV::Str(_))) ==> !(lookup(ps, "scheme"@) matches Some(JsonV::Str(_)))
                        && m@ == "Missing scheme parameter"@),
                }
            }),
    {
        let device: String = match args.get("device") {
            Some(JsonValue::Str(d)) => d.clone(),
            _ => {
                return Err(MCPError::Other(String::from_str("Missing device parameter")));
            },
        };
        let scheme: String = match args.get("scheme") {
            Some(JsonValue::Str(s)) => s.clone(),
            _ => {
                return Err(MCPError::Other(String::from_str("Missing scheme parameter")));
            },
        };
        let swap: String = match args.get("swap_size") {
            Some(JsonValue::Str(w)) => w.clone(),
            _ => String::from_str("4G"),
        };
        Ok((device, scheme, swap))
    }

    /// Decodes a base-install request: the target defaults, and the
    /// package list is the fixed base set followed by every text item of
    /// the requested extras.
    pub fn install_base_request(&self, args: &ToolArgs) -> (r: (String, Vec<String>))
        ensures
            ({
                let ps = jv_of_pairs(args.args@);
                (match lookup(ps, "target"@) {
                    Some(JsonV::Str(t)) => r.0@ == t,
                    _ => r.0@ == "/mnt"@,
                }) && r.1.deep_view() == seq![
                    "base"@,
                    "base-devel"@,
                    "linux"@,
                    "linux-firmware"@,
                    "networkmanager"@,
                    "vim"@,
                ] + (match lookup(ps, "packages"@) {
                    Some(JsonV::Arr(xs)) => str_items(xs),
                    _ => Seq::<Seq<char>>::empty(),
                })
            }),
    {
        let target: String = match args.get("target") {
            Some(JsonValue::Str(t)) => t.clone(),
            _ => String::from_str("/mnt"),
        };
        let mut packages: Vec<String> = Vec::new();
        proof {
            assert(packages.deep_view() =~= Seq::<Seq<char>>::empty());
        }
        crate::command::push_arg(&mut packages, String::from_str("base"));
        crate::command::push_arg(&mut packages, String::from_str("base-devel"));
        crate::command::push_arg(&mut packages, String::from_str("linux"));
        crate::command::push_arg(&mut packages, String::from_str("linux-firmware"));
        crate::command::push_arg(&mut packages, String::from_str("networkmanager"));
        crate::command::push_arg(&mut packages, String::from_str("vim"));
        let ghost base = seq![
            "base"@,
            "base-devel"@,
            "linux"@,
            "linux-firmware"@,
            "networkmanager"@,
            "vim"@,
        ];
        proof {
            assert(packages.deep_view() =~= base);
        }
        match args.get("packages") {
            Some(JsonValue::Arr(xs)) => {
                let ghost gxs = crate::json::jv_of_seq(xs@);
                proof {
                    crate::json::lemma_jv_of_seq(xs@);
                }
                let n = xs.len();
                let mut i: usize = 0;
                while i < n
                    invariant
                        i <= n,
                        n == xs@.len(),
                        gxs == crate::json::jv_of_seq(xs@),
                        gxs.len() == n,
                        forall|j: int| 0 <= j < n ==> #[trigger] gxs[j] == crate::json::jv_of(
                            xs@[j],
                        ),
                        packages.deep_view() == base + str_items(gxs.subrange(0, i as int)),
                    decreases n - i,
                {
                    let ghost pre = packages.deep_view();
                    match &xs[i] {
                        JsonValue::Str(s) => {
                            crate::command::push_arg(&mut packages, s.clone());
                        },
                        _ => {},
                    }
                    proof {
                        assert(gxs.subrange(0, i + 1) =~= gxs.subrange(0, i as int).push(
                            gxs[i as int],
                        ));
                        lemma_str_items_push(gxs.subrange(0, i as int), gxs[i as int]);
                        match xs@[i as int] {
                            JsonValue::Str(s) => {
                                assert(gxs[i as int] == JsonV::Str(s@));
                                assert(packages.deep_view() =~= base + str_items(
                                    gxs.subrange(0, i + 1),
                                ));
                            },
                            _ => {
                                assert(!(gxs[i as int] is Str));
                                assert(packages.deep_view() =~= base + str_items(
                                    gxs.subrange(0, i + 1),
                                ));
                            },
                        }
                    }
                    i = i + 1;
                }
                proof {
                    assert(gxs.subrange(0, n as int) =~= gxs);
                }
            },
            _ => {},
        }
        (target, packages)
    }

    /// Decodes a configure request: hostname and timezone are required
    /// strings, the locale defaults, the root password is optional.
    pub fn configure_request(&self, args: &ToolArgs) -> (r: Result<
        (String, String, String, Option<String>),
        MCPError,
    >)
        ensures
            ({
                let ps = jv_of_pairs(args.args@);
                match r {
                    Ok(t) => (lookup(ps, "hostname"@) matches Some(JsonV::Str(h)) && t.0@ == h) && (
                    lookup(ps, "timezone"@) matches Some(JsonV::Str(z)) && t.1@ == z) && (match
                    lookup(ps, "locale"@) {
                        Some(JsonV::Str(l)) => t.2@ == l,
                        _ => t.2@ == "en_US.UTF-8"@,
                    }) && (match lookup(ps, "root_password"@) {
                        Some(JsonV::Str(p)) => t.3 matches Some(pw) && pw@ == p,
                        _ => t.3 is None,
                    }),
                    Err(e) => e matches MCPError::Other(m) && (!(lookup(ps, "hostname"@) matches
                    Some(JsonV::Str(_))) ==> m@ == "Missing hostname parameter"@) && ((lookup(
                        ps,
                        "hostname"@,
                    ) matches Some(JsonV::Str(_))) ==> !(lookup(ps, "timezone"@) matches Some(
                        JsonV::Str(_),
                    )) && m@ == "Missing timezone parameter"@),
                }
            }),
    {
        let hostname: String = match args.get("hostname") {
            Some(JsonValue::Str(h)) => h.clone(),
            _ => {
                return Err(MCPError::Other(String::from_str("Missing hostname parameter")));
            },
        };
        let timezone: String = match args.get("timezone") {
            Some(JsonValue::Str(z)) => z.clone(),
            _ => {
                return Err(MCPError::Other(String::from_str("Missing timezone parameter")));
            },
        };
        let locale: String = match args.get("locale") {
            Some(JsonValue::Str(l)) => l.clone(),
            _ => String::from_str("en_US.UTF-8"),
        };
        let password: Option<String> = match args.get("root_password") {
            Some(JsonValue::Str(p)) => Some(p.clone()),
            _ => None,
        };
        Ok((hostname, timezone, locale, password))
    }

    /// Decodes a bootloader request: the type is a required string, the
    /// device optional.
    pub fn bootloader_request(&self, args: &ToolArgs) -> (r: Result<
        (String, Option<String>),
        MCPError,
    >)
        ensures
            ({
                let ps = jv_of_pairs(args.args@);
                match r {
                    Ok(t) => (lookup(ps, "type"@) matches Some(JsonV::Str(b)) && t.0@ == b) && (
                    match lookup(ps, "device"@) {
                        Some(JsonV::Str(d)) => t.1 matches Some(dv) && dv@ == d,
                        _ => t.1 is None,
                    }),
                    Err(e) => e matches MCPError::Other(m) && m@ == "Missing type parameter"@ && !(
                    lookup(ps, "type"@) matches Some(JsonV::Str(_))),
                }
            }),
    {
        let btype: String = match args.get("type") {
            Some(JsonValue::Str(b)) => b.clone(),
            _ => {
                return Err(MCPError::Other(String::from_str("Missing type parameter")));
            },
        };
        let device: Option<String> = match args.get("device") {
            Some(JsonValue::Str(d)) => Some(d.clone()),
            _ => None,
        };
        Ok((btype, device))
    }

    /// The installation-status document built from the three probes.
    pub fn status_json(&self, mounted: bool, base_installed: bool, configured: bool) -> (v:
        JsonValue)
        ensures
            v@ == JsonV::Obj(
                seq![
                    ("mounted"@, JsonV::Bool(mounted)),
                    ("base_installed"@, JsonV::Bool(base_installed)),
                    ("configured"@, JsonV::Bool(configured)),
                ],
            ),
    {
        let mut ps: Vec<(String, JsonValue)> = Vec::new();
        ps.push((String::from_str("mounted"), JsonValue::Bool(mounted)));
        ps.push((String::from_str("base_installed"), JsonValue::Bool(base_installed)));
        ps.push((String::from_str("configured"), JsonValue::Bool(configured)));
        proof {
            crate::json::lemma_jv_of_pairs(ps@);
            assert(jv_of_pairs(ps@) =~= seq![
                ("mounted"@, JsonV::Bool(mounted)),
                ("base_installed"@, JsonV::Bool(base_installed)),
                ("configured"@, JsonV::Bool(configured)),
            ]);
        }
        JsonValue::Obj(ps)
    }

    /// The wording of a successful partitioning.
    pub fn partition_success_text(&self, device: &str, scheme: &str, swap: &str) -> (s: String)
        ensures
            s@ == "Successfully partitioned "@ + device@ + " with "@ + scheme@ + " scheme and "@
                + swap@ + " swap"@,
    {
        String::from_str("Successfully partitioned ").concat(device).concat(" with ").concat(
            scheme,
        ).concat(" scheme and ").concat(swap).concat(" swap")
    }

    /// The wording of a rejected partition scheme.
    pub fn invalid_scheme_text(&self, scheme: &str) -> (s: String)
        ensures
            s@ == "Invalid partition scheme: "@ + scheme@,
    {
        String::from_str("Invalid partition scheme: ").concat(scheme)
    }

    /// The wording of a missing device.
    pub fn device_not_found_text(&self, device: &str) -> (s: String)
        ensures
            s@ == "Device "@ + device@ + " not found"@,
    {
        String::from_str("Device ").concat(device).concat(" not found")
    }

    /// The wording of a completed base installation.
    pub fn install_success_text(&self, package_count: u64) -> (s: String)
        ensures
            s@ == "Successfully installed Arch Linux base system with "@ + dec_nat(
                package_count as nat,
            ) + " packages"@,
    {
        let mut s = String::from_str("Successfully installed Arch Linux base system with ");
        push_u64(&mut s, package_count);
        let r = s.concat(" packages");
        proof {
            assert(r@ =~= "Successfully installed Arch Linux base system with "@ + dec_nat(
                package_count as nat,
            ) + " packages"@);
        }
        r
    }

    /// The wording of a completed bootloader installation.
    pub fn bootloader_success_text(&self, btype: &str) -> (s: String)
        ensures
            s@ == "Successfully installed "@ + btype@ + " bootloader"@,
    {
        String::from_str("Successfully installed ").concat(btype).concat(" bootloader")
    }

    /// The wording of a rejected bootloader type.
    pub fn invalid_bootloader_text(&self, btype: &str) -> (s: String)
        ensures
            s@ == "Invalid bootloader type: "@ + btype@,
    {
        String::from_str("Invalid bootloader type: ").concat(btype)
    }
}

} // verus!
