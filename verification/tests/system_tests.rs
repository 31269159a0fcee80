use mcp_arch_linux::arch_install::ArchInstallPlugin;
use mcp_arch_linux::command::{CommandExecutor, SandboxedExecutor};
use mcp_arch_linux::disk::DiskManager;
use mcp_arch_linux::hyprland_plugin::HyprlandPlugin;
use mcp_arch_linux::json::JsonValue;
use mcp_arch_linux::package::PackageManager;
use mcp_arch_linux::registry::{MCPContent, ToolArgs};
use mcp_arch_linux::screen_capture::ScreenCapturePlugin;
use mcp_arch_linux::security::{RollbackManager, SecurityManager, ServiceState};
use mcp_arch_linux::MCPError;

fn args_of(pairs: Vec<(&str, JsonValue)>) -> ToolArgs {
    let mut v: Vec<(String, JsonValue)> = Vec::new();
    for (k, val) in pairs {
        v.push((k.to_string(), val));
    }
    ToolArgs { args: v }
}

#[test]
fn command_result_renders_by_outcome() {
    let ex = CommandExecutor::new();
    let ok = ex.build_result(true, Some(0), "out".to_string(), "".to_string());
    assert_eq!(ok.to_string(), "out");
    assert!(!ok.truncated);
    let bad = ex.build_result(false, Some(1), "".to_string(), "boom".to_string());
    assert_eq!(bad.to_string(), "Error: boom");
}

#[test]
fn oversized_output_is_truncated_and_flagged() {
    let ex = CommandExecutor { timeout_secs: 300, max_output_size: 8 };
    let r = ex.build_result(true, Some(0), "abcdefgh".to_string(), "x".to_string());
    assert!(r.truncated);
    assert_eq!(r.stdout, "abcd");
    assert_eq!(r.stderr, "x");
}

#[test]
fn sandbox_admits_only_allowed_commands() {
    let sb = SandboxedExecutor::new(vec!["ls".to_string(), "cat".to_string()]);
    assert!(sb.check_command("ls", &vec!["/tmp".to_string()]).is_ok());
    match sb.check_command("rm", &vec![]) {
        Err(MCPError::PermissionDenied(m)) => assert_eq!(m, "Command 'rm' is not allowed"),
        other => panic!("expected refusal, got {:?}", other),
    }
    match sb.check_command("cat", &vec!["../etc/passwd".to_string()]) {
        Err(MCPError::PermissionDenied(m)) => {
            assert_eq!(m, "Path traversal in arguments not allowed")
        },
        other => panic!("expected refusal, got {:?}", other),
    }
    match sb.check_command("cat", &vec!["~root".to_string()]) {
        Err(MCPError::PermissionDenied(_)) => {},
        other => panic!("expected refusal, got {:?}", other),
    }
}

#[test]
fn uefi_partition_plan_lists_the_exact_commands() {
    let dm = DiskManager::new();
    let plan = dm.partition_uefi_plan("/dev/sda", "4G");
    assert_eq!(plan.len(), 8);
    assert_eq!(plan[0].program, "sgdisk");
    assert_eq!(plan[0].args, vec!["--zap-all".to_string(), "/dev/sda".to_string()]);
    assert_eq!(plan[3].args[1], "2:0:+4G");
    assert_eq!(plan[5].program, "mkfs.fat");
    assert_eq!(plan[5].args, vec!["-F32".to_string(), "/dev/sda1".to_string()]);
    assert_eq!(plan[7].args, vec!["-F".to_string(), "/dev/sda3".to_string()]);
}

#[test]
fn dry_run_plans_nothing() {
    let dm = DiskManager::new().with_dry_run(true);
    assert!(dm.partition_uefi_plan("/dev/sda", "4G").is_empty());
    assert!(dm.partition_bios_plan("/dev/sda", "4G").is_empty());
}

#[test]
fn bios_partition_plan_scripts_the_partitioner() {
    let dm = DiskManager::new();
    let plan = dm.partition_bios_plan("/dev/sdb", "2G");
    assert_eq!(plan.len(), 3);
    assert_eq!(plan[0].program, "sh");
    assert_eq!(
        plan[0].args[1],
        "echo 'o\nn\np\n1\n\n+2G\nt\n82\nn\np\n2\n\n\nw\n' | fdisk /dev/sdb"
    );
}

#[test]
fn configure_commands_follow_the_request() {
    let pm = PackageManager::new();
    let cmds = pm.configure_system_commands("arch", "Europe/London", "en_US.UTF-8", Some("pw"));
    assert_eq!(cmds[0], "ln -sf /usr/share/zoneinfo/Europe/London /etc/localtime");
    assert_eq!(cmds[2], "echo 'en_US.UTF-8 UTF-8' >> /etc/locale.gen");
    assert_eq!(cmds[5], "echo 'arch' > /etc/hostname");
    assert_eq!(
        cmds[6],
        "echo '127.0.0.1\tlocalhost\n::1\t\tlocalhost\n127.0.1.1\tarch.localdomain\tarch' > /etc/hosts"
    );
    assert_eq!(cmds[7], "echo 'root:pw' | chpasswd");
    assert_eq!(cmds[8], "systemctl enable NetworkManager");
    let without = pm.configure_system_commands("arch", "UTC", "C", None);
    assert_eq!(without.len(), 8);
    assert_eq!(without[7], "systemctl enable NetworkManager");
}

#[test]
fn pacstrap_arguments_start_with_the_target() {
    let pm = PackageManager::new();
    let args = pm.pacstrap_args("/mnt", &vec!["base".to_string(), "vim".to_string()]);
    assert_eq!(args, vec!["/mnt".to_string(), "base".to_string(), "vim".to_string()]);
    assert_eq!(pm.genfstab_args("/mnt"), vec!["-U".to_string(), "/mnt".to_string()]);
    assert_eq!(
        pm.arch_chroot_args("/mnt", "locale-gen"),
        vec!["/mnt".to_string(), "bash".to_string(), "-c".to_string(), "locale-gen".to_string()]
    );
}

#[test]
fn install_request_merges_base_and_extra_packages() {
    let plugin = ArchInstallPlugin::new();
    let args = args_of(vec![(
        "packages",
        JsonValue::Arr(vec![
            JsonValue::Str("git".to_string()),
            JsonValue::Int(3),
            JsonValue::Str("htop".to_string()),
        ]),
    )]);
    let (target, packages) = plugin.install_base_request(&args);
    assert_eq!(target, "/mnt");
    assert_eq!(
        packages,
        vec![
            "base".to_string(),
            "base-devel".to_string(),
            "linux".to_string(),
            "linux-firmware".to_string(),
            "networkmanager".to_string(),
            "vim".to_string(),
            "git".to_string(),
            "htop".to_string(),
        ]
    );
}

#[test]
fn partition_request_requires_device_and_scheme() {
    let plugin = ArchInstallPlugin::new();
    match plugin.partition_request(&args_of(vec![])) {
        Err(MCPError::Other(m)) => assert_eq!(m, "Missing device parameter"),
        other => panic!("expected the missing-device error, got {:?}", other),
    }
    let ok = plugin
        .partition_request(&args_of(vec![
            ("device", JsonValue::Str("/dev/sda".to_string())),
            ("scheme", JsonValue::Str("uefi".to_string())),
        ]))
        .expect("decodes");
    assert_eq!(ok.2, "4G");
    assert_eq!(
        plugin.partition_success_text("/dev/sda", "uefi", "4G"),
        "Successfully partitioned /dev/sda with uefi scheme and 4G swap"
    );
    assert_eq!(plugin.install_success_text(8), "Successfully installed Arch Linux base system with 8 packages");
}

#[test]
fn dispatch_request_builds_the_command_text() {
    let plugin = HyprlandPlugin::new();
    let cmd = plugin
        .dispatch_request(&args_of(vec![
            ("command", JsonValue::Str("workspace".to_string())),
            ("args", JsonValue::Str("2".to_string())),
        ]))
        .expect("decodes");
    assert_eq!(cmd, "dispatch workspace 2");
    let bare = plugin
        .dispatch_request(&args_of(vec![("command", JsonValue::Str("killactive".to_string()))]))
        .expect("decodes");
    assert_eq!(bare, "dispatch killactive");
    match plugin.dispatch_request(&args_of(vec![])) {
        Err(MCPError::Other(m)) => assert_eq!(m, "Missing command parameter"),
        other => panic!("expected the missing-command error, got {:?}", other),
    }
    let info = plugin.window_info_command(&args_of(vec![(
        "window_id",
        JsonValue::Str("0xabc".to_string()),
    )]));
    assert_eq!(info, "j/clients | jq '.[] | select(.address == \"0xabc\")'");
    assert_eq!(plugin.window_info_command(&args_of(vec![])), "j/activewindow");
}

#[test]
fn capture_result_encodes_the_image() {
    let plugin = ScreenCapturePlugin::new();
    let image: Vec<u8> = vec![1, 2, 3];
    let result = plugin.capture_result(&image, "png", "/tmp/x.png", 99);
    match &result.content[0] {
        MCPContent::Image { data, mime_type } => {
            // the standard encoding of the bytes 1, 2, 3
            assert_eq!(data, "AQID");
            assert_eq!(mime_type, "image/png");
        },
        other => panic!("expected an image, got {:?}", other),
    }
    assert_eq!(
        plugin.screenshot_filename(99, "png"),
        "/tmp/mcp-captures/screenshot_99.png"
    );
    assert_eq!(plugin.grim_geometry(1, -2, 800, 600), "1,-2 800x600");
    assert_eq!(plugin.pid_file(), "/tmp/mcp-captures/recording.pid");
}

#[test]
fn session_manager_records_under_its_session() {
    let mut sec = SecurityManager::new(true, "/tmp/audit.log").expect("builds");
    assert_eq!(sec.session_id.len(), 36);
    assert!(sec.check_permission("anything").is_ok());
    let session = sec.session_id.clone();
    let params = JsonValue::Obj(vec![("device".to_string(), JsonValue::Str("/dev/sda".to_string()))]);
    sec.record_operation("demo", params, 1234, Ok("Success".to_string()));
    assert_eq!(sec.audit_logger.len(), 1);
    assert_eq!(sec.audit_logger.ledger[0].name, "demo");
    assert_eq!(sec.audit_logger.ledger[0].session_id, session);
    assert_eq!(sec.audit_logger.ledger[0].timestamp, 1234);
    match &sec.audit_logger.ledger[0].parameters {
        JsonValue::Obj(ps) => {
            assert_eq!(ps.len(), 1);
            assert_eq!(ps[0].0, "device");
        },
        other => panic!("expected the parameters snapshot, got {:?}", other),
    }
}

#[test]
fn rollback_paths_and_service_plans_are_exact() {
    let rm = RollbackManager::new();
    assert_eq!(rm.snapshot_path("abc"), "/var/lib/mcp-arch-linux/snapshots/abc.json");
    let plan = rm.restore_service_plan(&ServiceState {
        name: "NetworkManager".to_string(),
        enabled: true,
        active: false,
    });
    assert_eq!(plan[0].args, vec!["enable".to_string(), "NetworkManager".to_string()]);
    assert_eq!(plan[1].args, vec!["stop".to_string(), "NetworkManager".to_string()]);
}

#[test]
fn system_catalogs_declare_the_fixed_names() {
    let tools = mcp_arch_linux::tools::get_system_tools();
    let names: Vec<String> = tools.into_iter().map(|t| t.name).collect();
    assert_eq!(
        names,
        vec!["system_exec".to_string(), "system_snapshot".to_string(), "system_rollback".to_string()]
    );
    let resources = mcp_arch_linux::resources::get_system_resources();
    let uris: Vec<String> = resources.into_iter().map(|r| r.uri).collect();
    assert_eq!(
        uris,
        vec![
            "system://info".to_string(),
            "system://logs".to_string(),
            "system://services".to_string(),
            "system://snapshots".to_string(),
        ]
    );
}
