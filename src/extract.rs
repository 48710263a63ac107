//! What a single log line announces: a loaded plugin, the server version,
//! or a port after a marker.

use vstd::prelude::*;
use crate::text::{after, chars_of, find, find_chars, lemma_find, occurs_at, port_at_end, port_of, string_of};

verus! {

/// The text before a plugin's name in a plugin-loading line.
pub const PLUGIN_MARKER: &'static str = "Loading ";

/// What separates a plugin's name from its version.
pub const PLUGIN_VERSION_SEP: &'static str = " v";

/// The text before the server version.
pub const VERSION_MARKER: &'static str = "Starting minecraft server version ";

/// A plugin and the version it announced.
pub struct Plugin {
    pub name: String,
    pub version: String,
}

/// The port that ends what follows the first occurrence of `marker` in `line`.
pub open spec fn port_after(line: Seq<char>, marker: Seq<char>) -> Option<u16> {
    match after(line, marker) {
        Some(rest) => port_of(rest),
        None => None,
    }
}

/// The plugin that `line` announces: after the first "Loading ", a nonempty
/// name up to the first " v", then a nonempty version to the end.
pub open spec fn plugin_of(line: Seq<char>) -> Option<(Seq<char>, Seq<char>)> {
    match after(line, PLUGIN_MARKER@) {
        Some(rest) => match find(rest, PLUGIN_VERSION_SEP@) {
            Some(q) => if q >= 1 && q + PLUGIN_VERSION_SEP@.len() < rest.len() {
                Some(
                    (
                        rest.subrange(0, q),
                        rest.subrange(q + PLUGIN_VERSION_SEP@.len(), rest.len() as int),
                    ),
                )
            } else {
                None
            },
            None => None,
        },
        None => None,
    }
}

/// The server version that `line` announces: the nonempty rest of the line
/// after the version marker.
pub open spec fn version_of(line: Seq<char>) -> Option<Seq<char>> {
    match after(line, VERSION_MARKER@) {
        Some(rest) => if rest.len() > 0 {
            Some(rest)
        } else {
            None
        },
        None => None,
    }
}

/// Index just past the first occurrence of `n` in `h`.
fn index_after(h: &Vec<char>, n: &Vec<char>) -> (r: Option<usize>)
    ensures
        match r {
            Some(k) => k <= h@.len() && after(h@, n@) == Some(h@.subrange(k as int, h@.len() as int)),
            None => after(h@, n@) is None,
        },
{
    let hl = h.len();
    match find_chars(h, n) {
        Some(i) => {
            proof {
                lemma_find(h@, n@);
                assert(occurs_at(h@, n@, i as int));
            }
            Some(i + n.len())
        },
        None => None,
    }
}

/// The port announced after `marker` in `line`.
pub fn port_after_marker(line: &str, marker: &str) -> (r: Option<u16>)
    ensures
        r == port_after(line@, marker@),
{
    let h = chars_of(line);
    let m = chars_of(marker);
    match index_after(&h, &m) {
        Some(k) => port_at_end(&h, k),
        None => None,
    }
}

/// The plugin announced by `line`.
pub fn plugin_of_line(line: &str) -> (r: Option<Plugin>)
    ensures
        match r {
            Some(p) => plugin_of(line@) == Some((p.name@, p.version@)),
            None => plugin_of(line@) is None,
        },
{
    let h = chars_of(line);
    let marker = chars_of(PLUGIN_MARKER);
    let k = match index_after(&h, &marker) {
        Some(k) => k,
        None => return None,
    };
    let rest = string_of(&h, k, h.len());
    let rest = chars_of(rest.as_str());
    let sep = chars_of(PLUGIN_VERSION_SEP);
    match find_chars(&rest, &sep) {
        Some(q) => {
            proof {
                lemma_find(rest@, sep@);
            }
            if q >= 1 && q + sep.len() < rest.len() {
                Some(
                    Plugin {
                        name: string_of(&rest, 0, q),
                        version: string_of(&rest, q + sep.len(), rest.len()),
                    },
                )
            } else {
                None
            }
        },
        None => None,
    }
}

/// The server version announced by `line`.
pub fn version_of_line(line: &str) -> (r: Option<String>)
    ensures
        match r {
            Some(v) => version_of(line@) == Some(v@),
            None => version_of(line@) is None,
        },
{
    let h = chars_of(line);
    let marker = chars_of(VERSION_MARKER);
    match index_after(&h, &marker) {
        Some(k) => if k < h.len() {
            Some(string_of(&h, k, h.len()))
        } else {
            None
        },
        None => None,
    }
}

} // verus!
