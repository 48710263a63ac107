//! Properties of the analysis that hold for every log.

use vstd::prelude::*;
use crate::analyzer::{
    describes, first_version, last_port, plugins_of, window, DynamicAnalyzerDetails, PatternTable,
    QUERY_PORT_MARKER, RCON_PORT_MARKER, SERVER_PORT_MARKER,
};
use crate::extract::{port_after, version_of};
use crate::platform::{
    any_contains, detect, first_containing, views, Platform, BUNGEECORD_BANNER, CRAFTBUKKIT_BANNER,
    FABRIC_BANNER, FORGE_BANNER, PAPER_BANNER, PUFFERFISH_BANNER, PURPUR_BANNER, SPIGOT_TAG,
    VELOCITY_BANNER, WATERFALL_BANNER,
};
use crate::text::contains;

verus! {

/// A Paper banner anywhere makes the platform Paper, whatever other banners
/// the log holds.
pub proof fn lemma_paper_banner_wins(lines: Seq<Seq<char>>)
    requires
        any_contains(lines, PAPER_BANNER@),
    ensures
        detect(lines) == Platform::Paper,
{
}

proof fn lemma_first_containing_at(lines: Seq<Seq<char>>, m: Seq<char>, i: int)
    requires
        0 <= i < lines.len(),
        contains(lines[i], m),
        forall|j: int| 0 <= j < i ==> !contains(#[trigger] lines[j], m),
    ensures
        first_containing(lines, m) == Some(lines[i]),
    decreases i,
{
    if i > 0 {
        assert(!contains(lines[0], m));
        let rest = lines.drop_first();
        assert forall|j: int| 0 <= j < i - 1 implies !contains(#[trigger] rest[j], m) by {
            assert(rest[j] == lines[j + 1]);
        }
        lemma_first_containing_at(rest, m, i - 1);
    }
}

proof fn lemma_first_containing_none(lines: Seq<Seq<char>>, m: Seq<char>)
    requires
        !any_contains(lines, m),
    ensures
        first_containing(lines, m) is None,
    decreases lines.len(),
{
    if lines.len() > 0 {
        assert(!contains(lines[0], m));
        let rest = lines.drop_first();
        assert forall|j: int| 0 <= j < rest.len() implies !contains(#[trigger] rest[j], m) by {
            assert(rest[j] == lines[j + 1]);
        }
        lemma_first_containing_none(rest, m);
    }
}

/// Without a Paper banner, a log whose first CraftBukkit banner line carries
/// the Spigot tag is a Spigot log.
pub proof fn lemma_spigot_tag_gives_spigot(lines: Seq<Seq<char>>, i: int)
    requires
        !any_contains(lines, PAPER_BANNER@),
        0 <= i < lines.len(),
        contains(lines[i], CRAFTBUKKIT_BANNER@),
        contains(lines[i], SPIGOT_TAG@),
        forall|j: int| 0 <= j < i ==> !contains(#[trigger] lines[j], CRAFTBUKKIT_BANNER@),
    ensures
        detect(lines) == Platform::Spigot,
{
    lemma_first_containing_at(lines, CRAFTBUKKIT_BANNER@, i);
}

/// No line holds any platform banner.
pub open spec fn no_banner(lines: Seq<Seq<char>>) -> bool {
    &&& !any_contains(lines, PAPER_BANNER@)
    &&& !any_contains(lines, CRAFTBUKKIT_BANNER@)
    &&& !any_contains(lines, PURPUR_BANNER@)
    &&& !any_contains(lines, PUFFERFISH_BANNER@)
    &&& !any_contains(lines, BUNGEECORD_BANNER@)
    &&& !any_contains(lines, WATERFALL_BANNER@)
    &&& !any_contains(lines, VELOCITY_BANNER@)
    &&& !any_contains(lines, FORGE_BANNER@)
    &&& !any_contains(lines, FABRIC_BANNER@)
}

/// A log without any platform banner is a Vanilla log.
pub proof fn lemma_no_banner_gives_vanilla(lines: Seq<Seq<char>>)
    requires
        no_banner(lines),
    ensures
        detect(lines) == Platform::Vanilla,
{
    lemma_first_containing_none(lines, CRAFTBUKKIT_BANNER@);
}

/// A proxy platform lists no plugins, whatever the log and the limit.
pub proof fn lemma_proxy_has_no_plugins(p: Platform, lines: Seq<Seq<char>>, limit: nat)
    requires
        p.is_proxy(),
    ensures
        plugins_of(p, lines, limit) == Map::<Seq<char>, Seq<char>>::empty(),
{
}

/// Lines past the plugin scan limit do not change the plugins found.
pub proof fn lemma_plugins_ignore_lines_past_limit(
    p: Platform,
    lines: Seq<Seq<char>>,
    later: Seq<Seq<char>>,
    limit: nat,
)
    requires
        limit <= lines.len(),
    ensures
        plugins_of(p, lines + later, limit) == plugins_of(p, lines, limit),
{
    let all = lines + later;
    if limit < lines.len() {
        assert(all.take(limit as int) =~= lines.take(limit as int));
    } else if limit < all.len() {
        assert(all.take(limit as int) =~= lines);
    } else {
        assert(all =~= lines);
    }
    assert(window(all, limit) == window(lines, limit));
}

/// Among the lines that announce a port after `marker`, the last one gives
/// the port.
pub proof fn lemma_last_port_wins(
    earlier: Seq<Seq<char>>,
    line: Seq<char>,
    later: Seq<Seq<char>>,
    marker: Seq<char>,
)
    requires
        port_after(line, marker) is Some,
        forall|k: int| 0 <= k < later.len() ==> port_after(#[trigger] later[k], marker) is None,
    ensures
        last_port(earlier.push(line) + later, marker) == port_after(line, marker),
    decreases later.len(),
{
    let all = earlier.push(line) + later;
    if later.len() == 0 {
        assert(all =~= earlier.push(line));
    } else {
        assert(all.drop_last() =~= earlier.push(line) + later.drop_last());
        assert(all.last() == later[later.len() - 1]);
        assert forall|k: int| 0 <= k < later.drop_last().len() implies port_after(
            #[trigger] later.drop_last()[k],
            marker,
        ) is None by {
            assert(later.drop_last()[k] == later[k]);
        }
        lemma_last_port_wins(earlier, line, later.drop_last(), marker);
    }
}

/// No line holds a banner, a version or a port that the analysis reads.
pub open spec fn unrecognized(lines: Seq<Seq<char>>) -> bool {
    &&& no_banner(lines)
    &&& forall|k: int| 0 <= k < lines.len() ==> version_of(#[trigger] lines[k]) is None
    &&& forall|k: int| 0 <= k < lines.len() ==> port_after(#[trigger] lines[k], SERVER_PORT_MARKER@) is None
    &&& forall|k: int| 0 <= k < lines.len() ==> port_after(#[trigger] lines[k], QUERY_PORT_MARKER@) is None
    &&& forall|k: int| 0 <= k < lines.len() ==> port_after(#[trigger] lines[k], RCON_PORT_MARKER@) is None
}

proof fn lemma_no_version(lines: Seq<Seq<char>>)
    requires
        forall|k: int| 0 <= k < lines.len() ==> version_of(#[trigger] lines[k]) is None,
    ensures
        first_version(lines) is None,
    decreases lines.len(),
{
    if lines.len() > 0 {
        assert(version_of(lines[0]) is None);
        let rest = lines.drop_first();
        assert forall|k: int| 0 <= k < rest.len() implies version_of(#[trigger] rest[k]) is None by {
            assert(rest[k] == lines[k + 1]);
        }
        lemma_no_version(rest);
    }
}

proof fn lemma_no_port(lines: Seq<Seq<char>>, marker: Seq<char>)
    requires
        forall|k: int| 0 <= k < lines.len() ==> port_after(#[trigger] lines[k], marker) is None,
    ensures
        last_port(lines, marker) is None,
    decreases lines.len(),
{
    if lines.len() > 0 {
        assert(port_after(lines[lines.len() - 1], marker) is None);
        let rest = lines.drop_last();
        assert forall|k: int| 0 <= k < rest.len() implies port_after(#[trigger] rest[k], marker) is None by {
            assert(rest[k] == lines[k]);
        }
        lemma_no_port(rest, marker);
    }
}

/// The report on a log with nothing that the analysis recognizes is empty:
/// Vanilla, no version, no plugins, no ports, and all three flags false.
pub proof fn lemma_unrecognized_log_gives_empty_report(
    d: DynamicAnalyzerDetails,
    lines: Seq<String>,
    plugins_limit: nat,
    ports_limit: nat,
    table: PatternTable,
)
    requires
        unrecognized(views(lines)),
        describes(d, lines, detect(views(lines)), plugins_limit, ports_limit, table),
    ensures
        d.platform == Platform::Vanilla,
        d.version is None,
        d.plugins@ == Map::<Seq<char>, Seq<char>>::empty(),
        d.ports.vanilla.server is None,
        d.ports.vanilla.query is None,
        d.ports.vanilla.rcon is None,
        d.ports.plugins@ == Map::<Seq<char>, u16>::empty(),
        d.ports.mods@ == Map::<Seq<char>, u16>::empty(),
        !d.is_modded,
        !d.is_proxy,
        !d.is_bukkit_based,
{
    let all = views(lines);
    lemma_no_banner_gives_vanilla(all);
    lemma_no_version(all);
    lemma_no_port(all, SERVER_PORT_MARKER@);
    lemma_no_port(all, QUERY_PORT_MARKER@);
    lemma_no_port(all, RCON_PORT_MARKER@);
}

/// Each platform is at most one of proxy, modded and Bukkit-based, and a
/// report's flags are always those of its platform.
pub proof fn lemma_flags_exclusive(p: Platform)
    ensures
        !(p.is_proxy() && p.is_modded()),
        !(p.is_proxy() && p.is_bukkit_based()),
        !(p.is_modded() && p.is_bukkit_based()),
{
}

/// The flags of a report are those of its platform.
pub proof fn lemma_report_flags(
    d: DynamicAnalyzerDetails,
    lines: Seq<String>,
    platform: Platform,
    plugins_limit: nat,
    ports_limit: nat,
    table: PatternTable,
)
    requires
        describes(d, lines, platform, plugins_limit, ports_limit, table),
    ensures
        d.is_proxy == platform.is_proxy(),
        d.is_modded == platform.is_modded(),
        d.is_bukkit_based == platform.is_bukkit_based(),
        !(d.is_proxy && d.is_modded),
        !(d.is_proxy && d.is_bukkit_based),
        !(d.is_modded && d.is_bukkit_based),
{
    lemma_flags_exclusive(platform);
}

} // verus!
