use vstd::prelude::*;

use crate::config::Config;

verus! {

/// What a menu row stands for.
#[derive(Clone, Copy, Debug, PartialEq, Eq, Structural)]
pub enum Selection {
    /// The boot entry at this index.
    Entry(usize),
    /// The reboot-to-firmware-settings row.
    Firmware,
    /// The shutdown row.
    Shutdown,
}

/// How many rows the menu shows: every boot entry, then the optional
/// firmware and shutdown rows.
pub fn total_items(cfg: &Config) -> (r: usize)
    requires
        cfg.entry@.len() + 2 <= usize::MAX,
    ensures
        r == cfg.entry@.len() + (if cfg.firmware {
            1int
        } else {
            0int
        }) + (if cfg.shutdown {
            1int
        } else {
            0int
        }),
{
    let mut n = cfg.entry.len();
    if cfg.firmware {
        n = n + 1;
    }
    if cfg.shutdown {
        n = n + 1;
    }
    n
}

/// What the row at `idx` stands for: the boot entries come first, then the
/// firmware row when configured, then the shutdown row.
pub fn index_to_selection(cfg: &Config, idx: usize) -> (r: Selection)
    ensures
        idx < cfg.entry@.len() ==> r == Selection::Entry(idx),
        idx >= cfg.entry@.len() && cfg.firmware && idx == cfg.entry@.len() ==> r
            == Selection::Firmware,
        idx >= cfg.entry@.len() && !(cfg.firmware && idx == cfg.entry@.len()) ==> r
            == Selection::Shutdown,
{
    if idx < cfg.entry.len() {
        return Selection::Entry(idx);
    }
    let extra = idx - cfg.entry.len();
    if cfg.firmware && extra == 0 {
        return Selection::Firmware;
    }
    Selection::Shutdown
}

} // verus!
