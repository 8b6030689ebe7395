use std::path::PathBuf;
use yumetouch::icon::{cache_directory, icon_path, is_cached};
use yumetouch::launch_agent::{
    agents_directory, load_command, plist_content, plist_path, unload_command,
};
use yumetouch::path::join;
use yumetouch::probe::{probe_command, signal_of};
use yumetouch::request::Command;

fn strings(items: &[&str]) -> Vec<String> {
    items.iter().map(|s| s.to_string()).collect()
}

#[test]
fn join_puts_a_separator_between() {
    assert_eq!(join("/home/ada", "notes"), "/home/ada/notes");
    assert_eq!(join("a", "b/c"), "a/b/c");
}

#[test]
fn join_adds_no_second_separator() {
    assert_eq!(join("/home/ada/", "notes"), "/home/ada/notes");
    assert_eq!(join("/", "etc"), "/etc");
}

#[test]
fn join_to_nothing_is_the_component() {
    assert_eq!(join("", "notes"), "notes");
}

#[test]
fn join_of_an_absolute_component_replaces() {
    assert_eq!(join("/home/ada", "/etc/hosts"), "/etc/hosts");
    assert_eq!(join("", "/"), "/");
}

#[test]
fn join_of_nothing_ends_in_a_separator() {
    assert_eq!(join("/home/ada", ""), "/home/ada/");
    assert_eq!(join("", ""), "");
}

#[test]
fn join_handles_text_beyond_ascii() {
    assert_eq!(join("/home/zoë", "ünïcode"), "/home/zoë/ünïcode");
}

#[test]
fn join_agrees_with_the_standard_library() {
    let bases = ["", "/", "/tmp", "/tmp/", "rel", "rel/", "/home/zoë", "a//"];
    let components = ["", "x", "x/y", "/abs", ".config", "ü", "/"];
    for base in bases {
        for component in components {
            let expected = PathBuf::from(base).join(component);
            assert_eq!(Some(join(base, component).as_str()), expected.to_str());
        }
    }
}

#[test]
fn icon_is_cached_below_library_caches() {
    assert_eq!(cache_directory("/Users/ada"), "/Users/ada/Library/Caches/yumetouch");
    assert_eq!(icon_path("/Users/ada"), "/Users/ada/Library/Caches/yumetouch/icon.png");
    let expected = PathBuf::from("/Users/ada").join("Library/Caches/yumetouch").join("icon.png");
    assert_eq!(Some(icon_path("/Users/ada").as_str()), expected.to_str());
}

#[test]
fn cached_icon_is_kept_only_at_the_same_length() {
    assert!(is_cached(Some(4096), 4096));
    assert!(!is_cached(Some(4095), 4096));
    assert!(!is_cached(Some(0), 4096));
    assert!(!is_cached(None, 4096));
    assert!(is_cached(Some(0), 0));
    assert!(!is_cached(None, 0));
}

#[test]
fn agent_is_described_below_launch_agents() {
    assert_eq!(agents_directory("/Users/ada"), "/Users/ada/Library/LaunchAgents");
    assert_eq!(
        plist_path("/Users/ada"),
        "/Users/ada/Library/LaunchAgents/net.sadmelon.yumetouch.plist"
    );
    let expected =
        PathBuf::from("/Users/ada").join("Library/LaunchAgents/net.sadmelon.yumetouch.plist");
    assert_eq!(Some(plist_path("/Users/ada").as_str()), expected.to_str());
}

#[test]
fn agent_description_names_the_executable() {
    let expected = format!(
        r#"<?xml version="1.0" encoding="UTF-8"?>
        <!DOCTYPE plist PUBLIC "-//Apple//DTD PLIST 1.0//EN" "http://www.apple.com/DTDs/PropertyList-1.0.dtd">
        <plist version="1.0">
        <dict>
            <key>Label</key>
            <string>net.sadmelon.yumetouch</string>
            <key>ProgramArguments</key>
            <array>
                <string>{}</string>
            </array>
            <key>RunAtLoad</key>
            <true/>
            <key>KeepAlive</key>
            <true/>
            <key>StandardOutPath</key>
            <string>/tmp/yumetouch.log</string>
            <key>StandardErrorPath</key>
            <string>/tmp/yumetouch.err</string>
        </dict>
        </plist>"#,
        "/usr/local/bin/yumetouch"
    );
    assert_eq!(plist_content("/usr/local/bin/yumetouch"), expected);
}

#[test]
fn agent_is_loaded_and_unloaded_for_good() {
    assert_eq!(
        load_command("/p/agent.plist"),
        Command {
            program: "launchctl".to_string(),
            args: strings(&["load", "-w", "/p/agent.plist"]),
        }
    );
    assert_eq!(
        unload_command("/p/agent.plist"),
        Command {
            program: "launchctl".to_string(),
            args: strings(&["unload", "-w", "/p/agent.plist"]),
        }
    );
}

#[test]
fn probe_searches_full_command_lines() {
    assert_eq!(
        probe_command(),
        Command { program: "pgrep".to_string(), args: strings(&["-f", "ssh-keygen.*-Y sign"]) }
    );
}

#[test]
fn probe_that_fails_to_run_counts_as_no_signal() {
    assert!(signal_of(Some(true)));
    assert!(!signal_of(Some(false)));
    assert!(!signal_of(None));
}
