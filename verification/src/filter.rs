//! The record filter: an immutable specification value holding the default
//! verbosity level and the static list of noisy modules that are fully
//! suppressed. A record is emitted when its level passes the default and its
//! originating module is not suppressed.

use vstd::prelude::*;
use crate::level::{Level, rank};

verus! {

/// The mathematical view of a [`LogSpec`]: the default level and the
/// suppressed module names as character sequences.
#[verifier::ext_equal]
pub ghost struct SpecModel {
    pub default_level: Level,
    pub suppressed: Seq<Seq<char>>,
}

/// An immutable filter specification: a default level plus the module
/// suppression list. Rebuilt whole on every level refresh, never mutated in
/// place.
pub struct LogSpec {
    default_level: Level,
    suppressed: Vec<String>,
}

impl View for LogSpec {
    type V = SpecModel;

    closed spec fn view(&self) -> SpecModel {
        SpecModel {
            default_level: self.default_level,
            suppressed: self.suppressed@.map_values(|s: String| s@),
        }
    }
}

/// The static list of noisy modules that every built specification
/// suppresses, whatever the default level.
pub open spec fn spec_suppressed_modules() -> Seq<Seq<char>> {
    seq!["wry"@, "tokio_tungstenite"@, "tungstenite"@, "tauri"@]
}

/// A module path matches a suppression entry when it is the entry itself or
/// lies below it (the entry followed by a path separator).
pub open spec fn spec_matches_entry(module: Seq<char>, entry: Seq<char>) -> bool {
    module == entry
    || (module.len() > entry.len()
        && module.take(entry.len() as int) == entry
        && module[entry.len() as int] == ':')
}

/// A module is suppressed when it matches some entry of the list.
pub open spec fn spec_suppressed(sm: SpecModel, module: Seq<char>) -> bool {
    exists|k: int| 0 <= k < sm.suppressed.len() && spec_matches_entry(module, sm.suppressed[k])
}

/// The filter decision: a record from `module` at `level` is emitted exactly
/// when its rank passes the default level and the module is not suppressed.
pub open spec fn spec_enabled(sm: SpecModel, module: Seq<char>, level: Level) -> bool {
    rank(level) <= rank(sm.default_level) && !spec_suppressed(sm, module)
}

/// The specification a fresh build yields: the given default level and the
/// static suppression list, nothing else.
pub open spec fn spec_build(default_level: Level) -> SpecModel {
    SpecModel { default_level, suppressed: spec_suppressed_modules() }
}

/// Whether the first `n` characters of `module` are exactly `entry`.
fn prefix_eq(module: &str, entry: &str) -> (r: bool)
    requires
        entry@.len() <= module@.len(),
    ensures
        r == (module@.take(entry@.len() as int) == entry@),
{
    let elen = entry.unicode_len();
    let mut i: usize = 0;
    while i < elen
        invariant
            elen == entry@.len(),
            elen <= module@.len(),
            0 <= i <= elen,
            forall|j: int| 0 <= j < i ==> module@[j] == entry@[j],
        decreases elen - i,
    {
        if module.get_char(i) != entry.get_char(i) {
            proof {
                assert(module@.take(elen as int)[i as int] != entry@[i as int]);
            }
            return false;
        }
        i += 1;
    }
    proof {
        assert(module@.take(elen as int) =~= entry@);
    }
    true
}

/// Whether `module` is `entry` or lies below it.
fn matches_entry(module: &str, entry: &str) -> (r: bool)
    ensures
        r == spec_matches_entry(module@, entry@),
{
    let mlen = module.unicode_len();
    let elen = entry.unicode_len();
    if mlen < elen {
        proof {
            if module@ == entry@ {
                assert(module@.len() == entry@.len());
            }
        }
        false
    } else if mlen == elen {
        let r = prefix_eq(module, entry);
        proof {
            assert(module@.take(elen as int) =~= module@);
        }
        r
    } else {
        prefix_eq(module, entry) && module.get_char(elen) == ':'
    }
}

impl LogSpec {
    /// The default level this specification was built with.
    pub fn default_level(&self) -> (r: Level)
        ensures
            r == self@.default_level,
    {
        self.default_level
    }

    /// The filter decision for one record, taken against this whole
    /// specification: level threshold and module suppression together.
    pub fn enabled(&self, module: &str, level: Level) -> (r: bool)
        ensures
            r == spec_enabled(self@, module@, level),
    {
        if level.rank_u8() > self.default_level.rank_u8() {
            proof {
                assert(!spec_enabled(self@, module@, level));
            }
            return false;
        }
        let mut k: usize = 0;
        while k < self.suppressed.len()
            invariant
                0 <= k <= self.suppressed.len(),
                self@.suppressed.len() == self.suppressed@.len(),
                forall|j: int| 0 <= j < self.suppressed@.len()
                    ==> self@.suppressed[j] == self.suppressed@[j]@,
                forall|j: int| 0 <= j < k ==> !spec_matches_entry(module@, self@.suppressed[j]),
            decreases self.suppressed.len() - k,
        {
            if matches_entry(module, self.suppressed[k].as_str()) {
                proof {
                    assert(self@.suppressed[k as int] == self.suppressed@[k as int]@);
                    assert(spec_matches_entry(module@, self@.suppressed[k as int]));
                    assert(spec_suppressed(self@, module@));
                }
                return false;
            }
            k += 1;
        }
        proof {
            assert(!spec_suppressed(self@, module@));
        }
        true
    }

    /// Build a fresh specification from the resolved default level,
    /// reapplying the same static suppression rules every time.
    pub fn build(default_level: Level) -> (r: LogSpec)
        ensures
            r@ == spec_build(default_level),
    {
        let mut suppressed: Vec<String> = Vec::new();
        suppressed.push("wry".to_owned());
        suppressed.push("tokio_tungstenite".to_owned());
        suppressed.push("tungstenite".to_owned());
        suppressed.push("tauri".to_owned());
        let r = LogSpec { default_level, suppressed };
        proof {
            assert(r@.suppressed =~~= spec_suppressed_modules());
            assert(r@ =~~= spec_build(default_level));
        }
        r
    }
}

} // verus!
