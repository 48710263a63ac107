//! The server platforms and their detection from startup banners.

use vstd::prelude::*;
use crate::text::{contains, contains_str};

verus! {

/// The server software that produced a log.
#[derive(Debug, Clone, Copy, PartialEq, Eq, Structural)]
pub enum Platform {
    Vanilla,
    CraftBukkit,
    Spigot,
    Paper,
    Pufferfish,
    Purpur,
    Fabric,
    Forge,
    BungeeCord,
    Waterfall,
    Velocity,
}

impl Platform {
    /// Proxies route players to backend servers.
    pub open spec fn spec_is_proxy(&self) -> bool {
        *self == Platform::BungeeCord || *self == Platform::Waterfall || *self == Platform::Velocity
    }

    /// Modded platforms load mods instead of plugins.
    pub open spec fn spec_is_modded(&self) -> bool {
        *self == Platform::Forge || *self == Platform::Fabric
    }

    /// Platforms built on the CraftBukkit plugin interface.
    pub open spec fn spec_is_bukkit_based(&self) -> bool {
        *self == Platform::CraftBukkit || *self == Platform::Spigot || *self == Platform::Paper
            || *self == Platform::Pufferfish || *self == Platform::Purpur
    }

    #[verifier::when_used_as_spec(spec_is_proxy)]
    pub fn is_proxy(&self) -> (r: bool)
        ensures
            r == self.spec_is_proxy(),
    {
        matches!(self, Platform::BungeeCord | Platform::Waterfall | Platform::Velocity)
    }

    #[verifier::when_used_as_spec(spec_is_modded)]
    pub fn is_modded(&self) -> (r: bool)
        ensures
            r == self.spec_is_modded(),
    {
        matches!(self, Platform::Forge | Platform::Fabric)
    }

    #[verifier::when_used_as_spec(spec_is_bukkit_based)]
    pub fn is_bukkit_based(&self) -> (r: bool)
        ensures
            r == self.spec_is_bukkit_based(),
    {
        matches!(
            self,
            Platform::CraftBukkit | Platform::Spigot | Platform::Paper | Platform::Pufferfish
                | Platform::Purpur
        )
    }
}

pub const CRAFTBUKKIT_BANNER: &'static str = "This server is running CraftBukkit version";

pub const PAPER_BANNER: &'static str = "This server is running Paper version";

pub const PUFFERFISH_BANNER: &'static str = "This server is running Pufferfish version";

pub const PURPUR_BANNER: &'static str = "This server is running Purpur version";

pub const FABRIC_BANNER: &'static str = "with Fabric Loader";

pub const FORGE_BANNER: &'static str = "Forge mod loading, version";

pub const BUNGEECORD_BANNER: &'static str = "Enabled BungeeCord version";

pub const WATERFALL_BANNER: &'static str = "Enabled Waterfall version";

pub const VELOCITY_BANNER: &'static str = "Booting up Velocity";

/// What a CraftBukkit banner line also says of its platform.
pub const SPIGOT_TAG: &'static str = "-Spigot";

pub const PAPER_TAG: &'static str = "Paper";

/// The lines of a log as character sequences.
pub open spec fn views(lines: Seq<String>) -> Seq<Seq<char>> {
    lines.map_values(|s: String| s@)
}

/// Some line contains `m`.
pub open spec fn any_contains(lines: Seq<Seq<char>>, m: Seq<char>) -> bool {
    exists|i: int| 0 <= i < lines.len() && contains(#[trigger] lines[i], m)
}

/// The first line that contains `m`.
pub open spec fn first_containing(lines: Seq<Seq<char>>, m: Seq<char>) -> Option<Seq<char>>
    decreases lines.len(),
{
    if lines.len() == 0 {
        None
    } else if contains(lines[0], m) {
        Some(lines[0])
    } else {
        first_containing(lines.drop_first(), m)
    }
}

/// The platform that a CraftBukkit banner line announces.
pub open spec fn bukkit_flavor(line: Seq<char>) -> Platform {
    if contains(line, SPIGOT_TAG@) {
        Platform::Spigot
    } else if contains(line, PAPER_TAG@) {
        Platform::Paper
    } else {
        Platform::CraftBukkit
    }
}

/// The platform of a log. A Paper banner anywhere decides first; then the
/// first CraftBukkit banner line; then the other banners in a fixed order;
/// Vanilla when none is there.
pub open spec fn detect(lines: Seq<Seq<char>>) -> Platform {
    if any_contains(lines, PAPER_BANNER@) {
        Platform::Paper
    } else if let Some(line) = first_containing(lines, CRAFTBUKKIT_BANNER@) {
        bukkit_flavor(line)
    } else if any_contains(lines, PURPUR_BANNER@) {
        Platform::Purpur
    } else if any_contains(lines, PUFFERFISH_BANNER@) {
        Platform::Pufferfish
    } else if any_contains(lines, BUNGEECORD_BANNER@) {
        Platform::BungeeCord
    } else if any_contains(lines, WATERFALL_BANNER@) {
        Platform::Waterfall
    } else if any_contains(lines, VELOCITY_BANNER@) {
        Platform::Velocity
    } else if any_contains(lines, FORGE_BANNER@) {
        Platform::Forge
    } else if any_contains(lines, FABRIC_BANNER@) {
        Platform::Fabric
    } else {
        Platform::Vanilla
    }
}

/// Whether some line contains `m`.
pub fn any_line_contains(lines: &[String], m: &str) -> (r: bool)
    ensures
        r == any_contains(views(lines@), m@),
{
    let mut i: usize = 0;
    while i < lines.len()
        invariant
            i <= lines@.len(),
            forall|k: int| 0 <= k < i ==> !contains(#[trigger] views(lines@)[k], m@),
        decreases lines@.len() - i,
    {
        if contains_str(lines[i].as_str(), m) {
            assert(contains(views(lines@)[i as int], m@));
            return true;
        }
        i = i + 1;
    }
    false
}

/// The index of the first line that contains `m`.
fn first_line_containing(lines: &[String], m: &str) -> (r: Option<usize>)
    ensures
        match r {
            Some(i) => i < lines@.len() && first_containing(views(lines@), m@) == Some(
                lines@[i as int]@,
            ),
            None => first_containing(views(lines@), m@) is None,
        },
{
    let ghost all = views(lines@);
    assert(all.subrange(0, all.len() as int) =~= all);
    let mut i: usize = 0;
    while i < lines.len()
        invariant
            i <= lines@.len(),
            all == views(lines@),
            first_containing(all, m@) == first_containing(all.subrange(i as int, all.len() as int), m@),
        decreases lines@.len() - i,
    {
        let ghost rest = all.subrange(i as int, all.len() as int);
        assert(rest.drop_first() =~= all.subrange(i + 1, all.len() as int));
        if contains_str(lines[i].as_str(), m) {
            return Some(i);
        }
        i = i + 1;
    }
    None
}

/// Determines the platform that produced `lines`.
pub fn determine_platform(lines: &[String]) -> (r: Platform)
    ensures
        r == detect(views(lines@)),
{
    if any_line_contains(lines, PAPER_BANNER) {
        return Platform::Paper;
    }
    match first_line_containing(lines, CRAFTBUKKIT_BANNER) {
        Some(i) => {
            let line = lines[i].as_str();
            if contains_str(line, SPIGOT_TAG) {
                Platform::Spigot
            } else if contains_str(line, PAPER_TAG) {
                Platform::Paper
            } else {
                Platform::CraftBukkit
            }
        },
        None => {
            if any_line_contains(lines, PURPUR_BANNER) {
                Platform::Purpur
            } else if any_line_contains(lines, PUFFERFISH_BANNER) {
                Platform::Pufferfish
            } else if any_line_contains(lines, BUNGEECORD_BANNER) {
                Platform::BungeeCord
            } else if any_line_contains(lines, WATERFALL_BANNER) {
                Platform::Waterfall
            } else if any_line_contains(lines, VELOCITY_BANNER) {
                Platform::Velocity
            } else if any_line_contains(lines, FORGE_BANNER) {
                Platform::Forge
            } else if any_line_contains(lines, FABRIC_BANNER) {
                Platform::Fabric
            } else {
                Platform::Vanilla
            }
        },
    }
}

} // verus!
