use log_analyzer::analyzer::{Analyzer, ConfigError, PatternTable, PortPattern};
use log_analyzer::extract::{plugin_of_line, port_after_marker, version_of_line};
use log_analyzer::name_map::NameMap;
use log_analyzer::platform::{determine_platform, Platform};
use log_analyzer::text::str_eq;

fn lines(v: &[&str]) -> Vec<String> {
    v.iter().map(|s| s.to_string()).collect()
}

fn empty_table() -> PatternTable {
    PatternTable { plugins: Vec::new(), mods: Vec::new() }
}

fn pattern(name: &str, triggers: &[&str]) -> PortPattern {
    PortPattern { name: name.to_string(), triggers: lines(triggers) }
}

#[test]
fn paper_banner_wins_over_other_banners() {
    let l = lines(&[
        "This server is running CraftBukkit version git-Spigot-1",
        "Booting up Velocity",
        "This server is running Paper version git-Paper-123",
    ]);
    assert_eq!(determine_platform(&l), Platform::Paper);
}

#[test]
fn spigot_tag_on_craftbukkit_banner() {
    let l = lines(&["This server is running CraftBukkit version 3000-Spigot-abc (MC: 1.20)"]);
    assert_eq!(determine_platform(&l), Platform::Spigot);
}

#[test]
fn first_craftbukkit_banner_decides() {
    let l = lines(&[
        "This server is running CraftBukkit version 1",
        "This server is running CraftBukkit version 2-Spigot",
    ]);
    assert_eq!(determine_platform(&l), Platform::CraftBukkit);
}

#[test]
fn paper_word_on_craftbukkit_banner() {
    let l = lines(&["This server is running CraftBukkit version git-Paper-5"]);
    assert_eq!(determine_platform(&l), Platform::Paper);
}

#[test]
fn banner_order_without_craftbukkit() {
    let l = lines(&["with Fabric Loader 0.14", "Forge mod loading, version 47"]);
    assert_eq!(determine_platform(&l), Platform::Forge);
    let l = lines(&["Booting up Velocity", "Enabled Waterfall version 1"]);
    assert_eq!(determine_platform(&l), Platform::Waterfall);
    let l = lines(&["This server is running Pufferfish version 1", "This server is running Purpur version 2"]);
    assert_eq!(determine_platform(&l), Platform::Purpur);
    let l = lines(&["Enabled BungeeCord version 1.20"]);
    assert_eq!(determine_platform(&l), Platform::BungeeCord);
}

#[test]
fn no_banner_is_vanilla() {
    assert_eq!(determine_platform(&lines(&["hello", "world"])), Platform::Vanilla);
    assert_eq!(determine_platform(&[]), Platform::Vanilla);
}

#[test]
fn proxy_lists_no_plugins() {
    let a = Analyzer::new(&lines(&["Booting up Velocity", "Loading myplugin v1.0"]));
    assert!(a.plugins(100).is_empty());
}

#[test]
fn plugins_past_limit_are_ignored() {
    let a = Analyzer::new(&lines(&[
        "This server is running Paper version git-Paper-1",
        "Loading alpha v1.0",
        "Loading beta v2.0",
    ]));
    let p = a.plugins(2);
    assert_eq!(p.get("alpha").map(|s| s.as_str()), Some("1.0"));
    assert!(p.get("beta").is_none());
    let p = a.plugins(3);
    assert_eq!(p.get("beta").map(|s| s.as_str()), Some("2.0"));
}

#[test]
fn later_plugin_line_replaces_version() {
    let a = Analyzer::new(&lines(&[
        "This server is running Paper version git-Paper-1",
        "Loading alpha v1.0",
        "Loading alpha v1.1",
    ]));
    let p = a.plugins(10);
    assert_eq!(p.get("alpha").map(|s| s.as_str()), Some("1.1"));
    assert_eq!(p.entries().len(), 1);
}

#[test]
fn last_server_port_wins() {
    let a = Analyzer::new(&lines(&[
        "Starting Minecraft server on *:25565",
        "Starting Minecraft server on *:25570",
        "Query running on 0.0.0.0:25566",
        "RCON running on 0.0.0.0:25575",
    ]));
    let v = a.vanilla_ports();
    assert_eq!(v.server, Some(25570));
    assert_eq!(v.query, Some(25566));
    assert_eq!(v.rcon, Some(25575));
}

#[test]
fn version_from_first_line() {
    let a = Analyzer::new(&lines(&[
        "Starting minecraft server version 1.20.1",
        "Starting minecraft server version 1.19",
    ]));
    assert_eq!(a.version().as_deref(), Some("1.20.1"));
    let a = Analyzer::new(&lines(&["Booting up Velocity", "Starting minecraft server version 1.20.1"]));
    assert_eq!(a.version(), None);
}

#[test]
fn unrecognized_log_gives_empty_report() {
    let a = Analyzer::new(&lines(&["nothing here", "still nothing"]));
    let d = a.build(100, 100, Ok(empty_table())).unwrap();
    assert_eq!(d.platform, Platform::Vanilla);
    assert_eq!(d.version, None);
    assert!(d.plugins.is_empty());
    assert_eq!(d.ports.vanilla.server, None);
    assert_eq!(d.ports.vanilla.query, None);
    assert_eq!(d.ports.vanilla.rcon, None);
    assert!(d.ports.plugins.is_empty());
    assert!(d.ports.mods.is_empty());
    assert!(!d.is_modded && !d.is_proxy && !d.is_bukkit_based);
}

#[test]
fn flags_follow_platform() {
    let cases = [
        ("Booting up Velocity", true, false, false),
        ("with Fabric Loader 0.14", false, true, false),
        ("This server is running Purpur version 1", false, false, true),
        ("plain", false, false, false),
    ];
    for (line, proxy, modded, bukkit) in cases {
        let a = Analyzer::new(&lines(&[line]));
        assert_eq!(a.is_proxy(), proxy);
        assert_eq!(a.is_modded(), modded);
        assert_eq!(a.is_bukkit_based(), bukkit);
    }
}

#[test]
fn missing_table_fails_build() {
    let a = Analyzer::new(&lines(&["Starting Minecraft server on *:25565"]));
    let r = a.build(10, 10, Err(ConfigError::Missing("configuration/ports.toml".to_string())));
    assert!(matches!(r, Err(ConfigError::Missing(_))));
    let a = Analyzer::new(&lines(&["x"]));
    let r = a.build(10, 10, Err(ConfigError::Malformed("bad".to_string())));
    assert!(matches!(r, Err(ConfigError::Malformed(_))));
}

#[test]
fn paper_example_report() {
    let a = Analyzer::new(&lines(&[
        "This server is running Paper version git-Paper-123",
        "Starting Minecraft server on *:25565",
        "[INFO] Loading myplugin v1.2.3",
    ]));
    let table = PatternTable {
        plugins: vec![pattern("dynmap", &["Web server started on"])],
        mods: Vec::new(),
    };
    let d = a.build(100, 100, Ok(table)).unwrap();
    assert_eq!(d.platform, Platform::Paper);
    assert_eq!(d.ports.vanilla.server, Some(25565));
    assert!(d.is_bukkit_based);
    assert_eq!(d.plugins.get("myplugin").map(|s| s.as_str()), Some("1.2.3"));
    assert!(d.ports.plugins.is_empty());
}

#[test]
fn plugin_ports_from_table() {
    let a = Analyzer::new(&lines(&[
        "This server is running CraftBukkit version 1-Spigot",
        "[dynmap] Web server started on address 0.0.0.0:8123",
        "[votifier] Votifier enabled on socket /0.0.0.0:8192",
        "[dynmap] HTTP listening on 0.0.0.0:8124",
    ]));
    let table = PatternTable {
        plugins: vec![
            pattern("dynmap", &["Web server started on", "HTTP listening on"]),
            pattern("votifier", &["Votifier enabled on"]),
        ],
        mods: vec![pattern("bluemap", &["Web server started on"])],
    };
    let ports = a.plugin_ports(&table, 10);
    assert_eq!(ports.get("dynmap").copied(), Some(8124));
    assert_eq!(ports.get("votifier").copied(), Some(8192));
    assert!(a.mod_ports(&table, 10).is_empty());
    let ports = a.plugin_ports(&table, 2);
    assert_eq!(ports.get("dynmap").copied(), Some(8123));
    assert!(ports.get("votifier").is_none());
}

#[test]
fn mod_ports_from_table() {
    let a = Analyzer::new(&lines(&["Forge mod loading, version 47", "BlueMap web server on 0.0.0.0:8100"]));
    let table = PatternTable {
        plugins: vec![pattern("x", &["web server on"])],
        mods: vec![pattern("bluemap", &["web server on"])],
    };
    assert_eq!(a.mod_ports(&table, 10).get("bluemap").copied(), Some(8100));
    assert!(a.plugin_ports(&table, 10).is_empty());
}

#[test]
fn port_parsing_edges() {
    assert_eq!(port_after_marker("on *:65535", "on"), Some(65535));
    assert_eq!(port_after_marker("on *:65536", "on"), None);
    assert_eq!(port_after_marker("on *:123456", "on"), None);
    assert_eq!(port_after_marker("on *:", "on"), None);
    assert_eq!(port_after_marker("on 25565", "on"), None);
    assert_eq!(port_after_marker("off *:25565", "on"), None);
    assert_eq!(port_after_marker("on *:25565 ", "on"), None);
}

#[test]
fn line_extractors() {
    let p = plugin_of_line("[12:00 INFO]: [Essentials] Loading Essentials v2.19.0").unwrap();
    assert_eq!(p.name, "Essentials");
    assert_eq!(p.version, "2.19.0");
    assert!(plugin_of_line("Loading  v1").is_none());
    assert!(plugin_of_line("Loading x v").is_none());
    assert!(plugin_of_line("nothing").is_none());
    assert_eq!(version_of_line("Starting minecraft server version 1.20.4").as_deref(), Some("1.20.4"));
    assert_eq!(version_of_line("Starting minecraft server version "), None);
}

#[test]
fn name_map_insert_and_get() {
    let mut m: NameMap<u16> = NameMap::new();
    assert!(m.is_empty());
    m.insert("a".to_string(), 1);
    m.insert("b".to_string(), 2);
    m.insert("a".to_string(), 3);
    assert_eq!(m.get("a").copied(), Some(3));
    assert_eq!(m.get("b").copied(), Some(2));
    assert_eq!(m.entries().len(), 2);
    assert!(str_eq("abc", "abc"));
    assert!(!str_eq("abc", "abd"));
}
