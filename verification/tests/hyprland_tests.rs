use mcp_arch_linux::hyprland::{socket_paths, HyprlandEvent, HyprlandIPC};
use mcp_arch_linux::MCPError;

#[test]
fn control_channel_reconnects_exactly_once_between_commands() {
    let mut ipc = HyprlandIPC::new();
    // the transport opens the control socket before the first command
    ipc.note_control_connected();
    assert!(ipc.control_connected);
    let reconnects_before = ipc.reconnects;
    // the client sends "j/workspaces" and reads the reply; the remote
    // end then drops the connection
    let _query = ipc.workspaces_query();
    ipc.command_exchanged();
    assert!(!ipc.control_connected);
    // exactly one reconnect makes the subsequent command possible
    ipc.note_control_connected();
    assert_eq!(ipc.reconnects, reconnects_before + 1);
    assert!(ipc.control_connected);
    ipc.command_exchanged();
    assert_eq!(ipc.commands_exchanged, 2);
}

#[test]
fn socket_paths_are_derived_from_the_environment() {
    let (control, event) =
        socket_paths(Some("/run/user/1000".to_string()), Some("sig".to_string()))
            .expect("both components present");
    assert_eq!(control, "/run/user/1000/hypr/sig/.socket.sock");
    assert_eq!(event, "/run/user/1000/hypr/sig/.socket2.sock");
}

#[test]
fn missing_environment_fails_fast() {
    match socket_paths(None, Some("sig".to_string())) {
        Err(MCPError::Configuration(m)) => assert_eq!(m, "XDG_RUNTIME_DIR not set"),
        other => panic!("expected a configuration error, got {:?}", other),
    }
    match socket_paths(Some("/run".to_string()), None) {
        Err(MCPError::Configuration(m)) => assert_eq!(m, "HYPRLAND_INSTANCE_SIGNATURE not set"),
        other => panic!("expected a configuration error, got {:?}", other),
    }
}

#[test]
fn command_texts_are_exact() {
    let ipc = HyprlandIPC::new();
    assert_eq!(ipc.dispatch("workspace", "2"), "dispatch workspace 2");
    assert_eq!(ipc.dispatch("killactive", ""), "dispatch killactive");
    assert_eq!(ipc.set_keyword("general:gaps_in", "5"), "keyword general:gaps_in 5");
    assert_eq!(ipc.reload_config(), "reload");
    assert_eq!(ipc.kill_active(), "dispatch killactive");
    assert_eq!(ipc.workspace(3), "dispatch workspace 3");
    assert_eq!(ipc.move_to_workspace(-1), "dispatch movetoworkspace -1");
    assert_eq!(ipc.toggle_floating(), "dispatch togglefloating");
    assert_eq!(ipc.toggle_fullscreen(), "dispatch fullscreen 0");
    assert_eq!(ipc.focus_window("l"), "dispatch movefocus l");
    assert_eq!(ipc.resize_active(10, -20), "dispatch resizeactive 10 -20");
    assert_eq!(ipc.move_active(0, 5), "dispatch moveactive 0 5");
    assert_eq!(ipc.windows_query(), "j/clients");
    assert_eq!(ipc.workspaces_query(), "j/workspaces");
    assert_eq!(ipc.monitors_query(), "j/monitors");
    assert_eq!(ipc.active_window_query(), "j/activewindow");
}

#[test]
fn event_stream_lines_parse_by_kind() {
    match HyprlandEvent::parse("workspace>>3") {
        Some(HyprlandEvent::Workspace(w)) => assert_eq!(w, "3"),
        other => panic!("unexpected {:?}", other),
    }
    match HyprlandEvent::parse("activewindow>>kitty,shell") {
        Some(HyprlandEvent::ActiveWindow(class, title)) => {
            assert_eq!(class, "kitty");
            assert_eq!(title, "shell");
        },
        other => panic!("unexpected {:?}", other),
    }
    assert!(matches!(HyprlandEvent::parse("fullscreen>>1"), Some(HyprlandEvent::Fullscreen(true))));
    assert!(matches!(
        HyprlandEvent::parse("fullscreen>>0"),
        Some(HyprlandEvent::Fullscreen(false))
    ));
    match HyprlandEvent::parse("createworkspace>>5") {
        Some(HyprlandEvent::CreateWorkspace(id)) => assert_eq!(id, 5),
        other => panic!("unexpected {:?}", other),
    }
    match HyprlandEvent::parse("moveworkspace>>2,DP-1") {
        Some(HyprlandEvent::MoveWorkspace(id, mon)) => {
            assert_eq!(id, 2);
            assert_eq!(mon, "DP-1");
        },
        other => panic!("unexpected {:?}", other),
    }
    match HyprlandEvent::parse("openwindow>>addr,2,kitty,shell") {
        Some(HyprlandEvent::OpenWindow(a, w, c, t)) => {
            assert_eq!(a, "addr");
            assert_eq!(w, "2");
            assert_eq!(c, "kitty");
            assert_eq!(t, "shell");
        },
        other => panic!("unexpected {:?}", other),
    }
    match HyprlandEvent::parse("minimize>>addr,1") {
        Some(HyprlandEvent::Minimize(a, on)) => {
            assert_eq!(a, "addr");
            assert!(on);
        },
        other => panic!("unexpected {:?}", other),
    }
}

#[test]
fn unknown_event_kinds_become_the_catch_all() {
    match HyprlandEvent::parse("somethingnew>>payload,with,commas") {
        Some(HyprlandEvent::Other(kind, data)) => {
            assert_eq!(kind, "somethingnew");
            assert_eq!(data, "payload,with,commas");
        },
        other => panic!("unexpected {:?}", other),
    }
}

#[test]
fn malformed_event_lines_are_dropped() {
    // no separator
    assert!(HyprlandEvent::parse("workspace 3").is_none());
    // wrong field count for the kind
    assert!(HyprlandEvent::parse("activewindow>>noseparator").is_none());
    assert!(HyprlandEvent::parse("openwindow>>only,three,fields").is_none());
    // a numeric payload that is not a number
    assert!(HyprlandEvent::parse("createworkspace>>abc").is_none());
    // a numeric payload out of range
    assert!(HyprlandEvent::parse("createworkspace>>2147483648").is_none());
    assert!(HyprlandEvent::parse("destroyworkspace>>-2147483649").is_none());
}

#[test]
fn numeric_payload_boundaries_parse() {
    match HyprlandEvent::parse("createworkspace>>2147483647") {
        Some(HyprlandEvent::CreateWorkspace(id)) => assert_eq!(id, i32::MAX),
        other => panic!("unexpected {:?}", other),
    }
    match HyprlandEvent::parse("destroyworkspace>>-2147483648") {
        Some(HyprlandEvent::DestroyWorkspace(id)) => assert_eq!(id, i32::MIN),
        other => panic!("unexpected {:?}", other),
    }
}
