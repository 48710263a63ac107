//! The analysis of a whole startup log: platform, version, plugins and ports.

use vstd::prelude::*;
use crate::extract::{
    plugin_of, plugin_of_line, port_after, port_after_marker, version_of, version_of_line, Plugin,
};
use crate::name_map::NameMap;
use crate::platform::{detect, determine_platform, views, Platform};

verus! {

pub const SERVER_PORT_MARKER: &'static str = "Starting Minecraft server on";

pub const QUERY_PORT_MARKER: &'static str = "Query running on";

pub const RCON_PORT_MARKER: &'static str = "RCON running on";

/// The ports that the game itself reports.
#[derive(Debug, Clone, Copy, PartialEq, Eq, Structural)]
pub struct VanillaPorts {
    pub server: Option<u16>,
    pub query: Option<u16>,
    pub rcon: Option<u16>,
}

/// All ports found in a log.
pub struct Ports {
    pub vanilla: VanillaPorts,
    pub plugins: NameMap<u16>,
    pub mods: NameMap<u16>,
}

/// A logical port name and the substrings, any one of which marks a line
/// that announces that port.
pub struct PortPattern {
    pub name: String,
    pub triggers: Vec<String>,
}

/// The port patterns for plugins and for mods.
pub struct PatternTable {
    pub plugins: Vec<PortPattern>,
    pub mods: Vec<PortPattern>,
}

/// Why the pattern table could not be had.
#[derive(Debug)]
pub enum ConfigError {
    /// Nothing was found where the table was looked for.
    Missing(String),
    /// The table was found but does not have the expected shape.
    Malformed(String),
}

/// A log and the platform that produced it.
pub struct Analyzer {
    pub lines: Vec<String>,
    pub platform: Platform,
}

/// The result of an analysis.
pub struct DynamicAnalyzerDetails {
    pub lines: Vec<String>,
    pub plugins: NameMap<String>,
    pub platform: Platform,
    pub version: Option<String>,
    pub is_modded: bool,
    pub is_proxy: bool,
    pub is_bukkit_based: bool,
    pub ports: Ports,
}

/// The first `limit` lines, or all of them when there are fewer.
pub open spec fn window(lines: Seq<Seq<char>>, limit: nat) -> Seq<Seq<char>> {
    if limit < lines.len() {
        lines.take(limit as int)
    } else {
        lines
    }
}

/// The plugins that `lines` announce, in order; a later line replaces the
/// version of an earlier one with the same name.
pub open spec fn plugin_map(lines: Seq<Seq<char>>) -> Map<Seq<char>, Seq<char>>
    decreases lines.len(),
{
    if lines.len() == 0 {
        Map::empty()
    } else {
        let m = plugin_map(lines.drop_last());
        match plugin_of(lines.last()) {
            Some((name, version)) => m.insert(name, version),
            None => m,
        }
    }
}

/// The plugins of a log: scanned in the first `limit` lines on Bukkit-based
/// platforms, none elsewhere.
pub open spec fn plugins_of(p: Platform, lines: Seq<Seq<char>>, limit: nat) -> Map<Seq<char>, Seq<char>> {
    if p.is_bukkit_based() {
        plugin_map(window(lines, limit))
    } else {
        Map::empty()
    }
}

/// The version that the first line announcing one gives.
pub open spec fn first_version(lines: Seq<Seq<char>>) -> Option<Seq<char>>
    decreases lines.len(),
{
    if lines.len() == 0 {
        None
    } else if let Some(v) = version_of(lines[0]) {
        Some(v)
    } else {
        first_version(lines.drop_first())
    }
}

/// The version of a log; proxies report none.
pub open spec fn version_spec(p: Platform, lines: Seq<Seq<char>>) -> Option<Seq<char>> {
    if p.is_proxy() {
        None
    } else {
        first_version(lines)
    }
}

/// The port that the last line announcing one after `marker` gives.
pub open spec fn last_port(lines: Seq<Seq<char>>, marker: Seq<char>) -> Option<u16>
    decreases lines.len(),
{
    if lines.len() == 0 {
        None
    } else if let Some(p) = port_after(lines.last(), marker) {
        Some(p)
    } else {
        last_port(lines.drop_last(), marker)
    }
}

pub open spec fn vanilla_spec(lines: Seq<Seq<char>>) -> VanillaPorts {
    VanillaPorts {
        server: last_port(lines, SERVER_PORT_MARKER@),
        query: last_port(lines, QUERY_PORT_MARKER@),
        rcon: last_port(lines, RCON_PORT_MARKER@),
    }
}

/// `m` after trying each trigger of one pattern on `line`, in order.
pub open spec fn scan_triggers(
    m: Map<Seq<char>, u16>,
    name: Seq<char>,
    line: Seq<char>,
    triggers: Seq<Seq<char>>,
) -> Map<Seq<char>, u16>
    decreases triggers.len(),
{
    if triggers.len() == 0 {
        m
    } else {
        let before = scan_triggers(m, name, line, triggers.drop_last());
        match port_after(line, triggers.last()) {
            Some(port) => before.insert(name, port),
            None => before,
        }
    }
}

/// `m` after trying every pattern on `line`, in order.
pub open spec fn scan_patterns(m: Map<Seq<char>, u16>, line: Seq<char>, patterns: Seq<PortPattern>) -> Map<
    Seq<char>,
    u16,
>
    decreases patterns.len(),
{
    if patterns.len() == 0 {
        m
    } else {
        scan_triggers(
            scan_patterns(m, line, patterns.drop_last()),
            patterns.last().name@,
            line,
            views(patterns.last().triggers@),
        )
    }
}

/// The ports that `patterns` find in `lines`, line by line.
pub open spec fn scan_lines(lines: Seq<Seq<char>>, patterns: Seq<PortPattern>) -> Map<Seq<char>, u16>
    decreases lines.len(),
{
    if lines.len() == 0 {
        Map::empty()
    } else {
        scan_patterns(scan_lines(lines.drop_last(), patterns), lines.last(), patterns)
    }
}

/// The ports that `patterns` find in the first `limit` lines when `on` holds.
pub open spec fn table_ports(on: bool, lines: Seq<Seq<char>>, patterns: Seq<PortPattern>, limit: nat) -> Map<
    Seq<char>,
    u16,
> {
    if on {
        scan_lines(window(lines, limit), patterns)
    } else {
        Map::empty()
    }
}

proof fn lemma_window_step(lines: Seq<Seq<char>>, limit: nat, i: int)
    requires
        0 <= i < window(lines, limit).len(),
    ensures
        window(lines, limit).len() <= lines.len(),
        lines.take(i + 1).drop_last() == lines.take(i),
        lines.take(i + 1).last() == lines[i],
{
    assert(lines.take(i + 1).drop_last() =~= lines.take(i));
}

proof fn lemma_window_all(lines: Seq<Seq<char>>, limit: nat)
    ensures
        window(lines, limit) == lines.take(window(lines, limit).len() as int),
{
    assert(lines.take(lines.len() as int) =~= lines);
}

/// How many leading lines a scan limited to `limit` looks at.
fn window_len(n: usize, limit: usize) -> (r: usize)
    ensures
        r as nat == (if (limit as nat) < (n as nat) { limit as nat } else { n as nat }),
{
    if limit < n {
        limit
    } else {
        n
    }
}

/// The ports that `patterns` find in the first `limit` lines.
fn ports_by_table(lines: &Vec<String>, patterns: &Vec<PortPattern>, limit: usize) -> (r: NameMap<u16>)
    ensures
        r.wf(),
        r@ == scan_lines(window(views(lines@), limit as nat), patterns@),
{
    let ghost all = views(lines@);
    let end = window_len(lines.len(), limit);
    proof {
        lemma_window_all(all, limit as nat);
    }
    let mut ports: NameMap<u16> = NameMap::new();
    let mut i: usize = 0;
    while i < end
        invariant
            all == views(lines@),
            end == window(all, limit as nat).len(),
            window(all, limit as nat) == all.take(end as int),
            end <= lines@.len(),
            i <= end,
            ports.wf(),
            ports@ == scan_lines(all.take(i as int), patterns@),
        decreases end - i,
    {
        proof {
            lemma_window_step(all, limit as nat, i as int);
        }
        let line = lines[i].as_str();
        let mut j: usize = 0;
        while j < patterns.len()
            invariant
                all == views(lines@),
                line@ == all[i as int],
                j <= patterns@.len(),
                ports.wf(),
                ports@ == scan_patterns(scan_lines(all.take(i as int), patterns@), all[i as int], patterns@.take(j as int)),
            decreases patterns@.len() - j,
        {
            let pattern = &patterns[j];
            assert(patterns@.take(j + 1).drop_last() =~= patterns@.take(j as int));
            let ghost start = ports@;
            let mut t: usize = 0;
            while t < pattern.triggers.len()
                invariant
                    line@ == all[i as int],
                    t <= pattern.triggers@.len(),
                    ports.wf(),
                    ports@ == scan_triggers(start, pattern.name@, line@, views(pattern.triggers@).take(t as int)),
                decreases pattern.triggers@.len() - t,
            {
                assert(views(pattern.triggers@).take(t + 1).drop_last() =~= views(pattern.triggers@).take(t as int));
                match port_after_marker(line, pattern.triggers[t].as_str()) {
                    Some(port) => {
                        ports.insert(pattern.name.clone(), port);
                    },
                    None => {},
                }
                t = t + 1;
            }
            assert(views(pattern.triggers@).take(t as int) =~= views(pattern.triggers@));
            j = j + 1;
        }
        assert(patterns@.take(j as int) =~= patterns@);
        i = i + 1;
    }
    ports
}

/// The view of an optional string.
pub open spec fn opt_view(o: Option<String>) -> Option<Seq<char>> {
    match o {
        Some(s) => Some(s@),
        None => None,
    }
}

/// `d` is the report on `lines` from `platform`, with the given scan limits
/// and pattern table.
pub open spec fn describes(
    d: DynamicAnalyzerDetails,
    lines: Seq<String>,
    platform: Platform,
    plugins_limit: nat,
    ports_limit: nat,
    table: PatternTable,
) -> bool {
    &&& d.lines@ == lines
    &&& d.platform == platform
    &&& d.plugins.wf()
    &&& d.plugins@ == plugins_of(platform, views(lines), plugins_limit)
    &&& opt_view(d.version) == version_spec(platform, views(lines))
    &&& d.flags_agree()
    &&& d.ports.vanilla == vanilla_spec(views(lines))
    &&& d.ports.plugins.wf()
    &&& d.ports.plugins@ == table_ports(platform.is_bukkit_based(), views(lines), table.plugins@, ports_limit)
    &&& d.ports.mods.wf()
    &&& d.ports.mods@ == table_ports(platform.is_modded(), views(lines), table.mods@, ports_limit)
}

impl DynamicAnalyzerDetails {
    /// The three flags are those of the platform.
    pub open spec fn flags_agree(&self) -> bool {
        &&& self.is_modded == self.platform.is_modded()
        &&& self.is_proxy == self.platform.is_proxy()
        &&& self.is_bukkit_based == self.platform.is_bukkit_based()
    }
}

/// A copy of `lines`.
fn copy_lines(lines: &[String]) -> (r: Vec<String>)
    ensures
        r@ == lines@,
{
    let mut out: Vec<String> = Vec::new();
    let mut i: usize = 0;
    while i < lines.len()
        invariant
            i <= lines@.len(),
            out@ == lines@.take(i as int),
        decreases lines@.len() - i,
    {
        out.push(lines[i].clone());
        assert(out@ =~= lines@.take(i + 1));
        i = i + 1;
    }
    assert(lines@.take(i as int) =~= lines@);
    out
}

impl Analyzer {
    /// Takes a copy of the lines and determines their platform.
    pub fn new(lines: &[String]) -> (r: Self)
        ensures
            r.lines@ == lines@,
            r.platform == detect(views(lines@)),
    {
        let platform = determine_platform(lines);
        Analyzer { lines: copy_lines(lines), platform }
    }

    pub fn is_proxy(&self) -> (r: bool)
        ensures
            r == self.platform.is_proxy(),
    {
        self.platform.is_proxy()
    }

    pub fn is_modded(&self) -> (r: bool)
        ensures
            r == self.platform.is_modded(),
    {
        self.platform.is_modded()
    }

    pub fn is_bukkit_based(&self) -> (r: bool)
        ensures
            r == self.platform.is_bukkit_based(),
    {
        self.platform.is_bukkit_based()
    }

    /// The plugins announced in the first `line_limit` lines.
    pub fn plugins(&self, line_limit: usize) -> (r: NameMap<String>)
        ensures
            r.wf(),
            r@ == plugins_of(self.platform, views(self.lines@), line_limit as nat),
    {
        let mut plugins: NameMap<String> = NameMap::new();
        if !self.is_bukkit_based() {
            return plugins;
        }
        let ghost all = views(self.lines@);
        let end = window_len(self.lines.len(), line_limit);
        proof {
            lemma_window_all(all, line_limit as nat);
        }
        let mut i: usize = 0;
        while i < end
            invariant
                all == views(self.lines@),
                end == window(all, line_limit as nat).len(),
                window(all, line_limit as nat) == all.take(end as int),
                end <= self.lines@.len(),
                i <= end,
                plugins.wf(),
                plugins@ == plugin_map(all.take(i as int)),
            decreases end - i,
        {
            proof {
                lemma_window_step(all, line_limit as nat, i as int);
            }
            match plugin_of_line(self.lines[i].as_str()) {
                Some(plugin) => {
                    plugins.insert(plugin.name, plugin.version);
                },
                None => {},
            }
            i = i + 1;
        }
        plugins
    }

    /// The version that the first line announcing one gives; none on proxies.
    pub fn version(&self) -> (r: Option<String>)
        ensures
            match r {
                Some(v) => version_spec(self.platform, views(self.lines@)) == Some(v@),
                None => version_spec(self.platform, views(self.lines@)) is None,
            },
    {
        if self.is_proxy() {
            return None;
        }
        let ghost all = views(self.lines@);
        assert(all.subrange(0, all.len() as int) =~= all);
        let mut i: usize = 0;
        while i < self.lines.len()
            invariant
                all == views(self.lines@),
                !self.platform.is_proxy(),
                i <= self.lines@.len(),
                first_version(all) == first_version(all.subrange(i as int, all.len() as int)),
            decreases self.lines@.len() - i,
        {
            assert(all.subrange(i as int, all.len() as int).drop_first() =~= all.subrange(i + 1, all.len() as int));
            assert(all.subrange(i as int, all.len() as int)[0] == self.lines@[i as int]@);
            match version_of_line(self.lines[i].as_str()) {
                Some(v) => {
                    return Some(v);
                },
                None => {},
            }
            i = i + 1;
        }
        None
    }

    /// The server, query and RCON ports; for each, the last line that
    /// announces it decides.
    pub fn vanilla_ports(&self) -> (r: VanillaPorts)
        ensures
            r == vanilla_spec(views(self.lines@)),
    {
        let ghost all = views(self.lines@);
        let mut ports = VanillaPorts { server: None, query: None, rcon: None };
        let mut i: usize = 0;
        while i < self.lines.len()
            invariant
                all == views(self.lines@),
                i <= self.lines@.len(),
                ports == vanilla_spec(all.take(i as int)),
            decreases self.lines@.len() - i,
        {
            assert(all.take(i + 1).drop_last() =~= all.take(i as int));
            let line = self.lines[i].as_str();
            match port_after_marker(line, SERVER_PORT_MARKER) {
                Some(port) => ports.server = Some(port),
                None => {},
            }
            match port_after_marker(line, QUERY_PORT_MARKER) {
                Some(port) => ports.query = Some(port),
                None => {},
            }
            match port_after_marker(line, RCON_PORT_MARKER) {
                Some(port) => ports.rcon = Some(port),
                None => {},
            }
            i = i + 1;
        }
        assert(all.take(i as int) =~= all);
        ports
    }

    /// The plugin ports that the table finds in the first
    /// `ports_lines_limit` lines; none unless the platform is Bukkit-based.
    pub fn plugin_ports(&self, table: &PatternTable, ports_lines_limit: usize) -> (r: NameMap<u16>)
        ensures
            r.wf(),
            r@ == table_ports(
                self.platform.is_bukkit_based(),
                views(self.lines@),
                table.plugins@,
                ports_lines_limit as nat,
            ),
    {
        if !self.is_bukkit_based() {
            return NameMap::new();
        }
        ports_by_table(&self.lines, &table.plugins, ports_lines_limit)
    }

    /// The mod ports that the table finds in the first `ports_lines_limit`
    /// lines; none unless the platform is modded.
    pub fn mod_ports(&self, table: &PatternTable, ports_lines_limit: usize) -> (r: NameMap<u16>)
        ensures
            r.wf(),
            r@ == table_ports(
                self.platform.is_modded(),
                views(self.lines@),
                table.mods@,
                ports_lines_limit as nat,
            ),
    {
        if !self.is_modded() {
            return NameMap::new();
        }
        ports_by_table(&self.lines, &table.mods, ports_lines_limit)
    }

    /// The report on this log with the given pattern table; when the table
    /// could not be had, that error and no report.
    pub fn build(self, plugins_limit: usize, ports_limit: usize, table: Result<PatternTable, ConfigError>) -> (r: Result<DynamicAnalyzerDetails, ConfigError>)
        ensures
            match table {
                Ok(t) => r matches Ok(d) && describes(
                    d,
                    self.lines@,
                    self.platform,
                    plugins_limit as nat,
                    ports_limit as nat,
                    t,
                ),
                Err(e) => r matches Err(f) && f == e,
            },
    {
        let table = match table {
            Ok(t) => t,
            Err(e) => return Err(e),
        };
        let plugins = self.plugins(plugins_limit);
        let version = self.version();
        let vanilla = self.vanilla_ports();
        let plugin_ports = self.plugin_ports(&table, ports_limit);
        let mod_ports = self.mod_ports(&table, ports_limit);
        let is_modded = self.is_modded();
        let is_proxy = self.is_proxy();
        let is_bukkit_based = self.is_bukkit_based();
        Ok(
            DynamicAnalyzerDetails {
                lines: self.lines,
                plugins,
                platform: self.platform,
                version,
                is_modded,
                is_proxy,
                is_bukkit_based,
                ports: Ports { vanilla, plugins: plugin_ports, mods: mod_ports },
            },
        )
    }
}

} // verus!
