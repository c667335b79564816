//! Aggregator: merges the global config with loaded local configs into one
//! order-preserving result whose reminders carry their provenance (the path
//! of the file each came from).
//!
//! Which local configs take part is the path resolver's decision
//! (`find_all_in_scope` for the scoped view, every registered path for the
//! full view); loading them is the caller's. This module only combines
//! already-loaded values, so the same verified function serves both views.

use vstd::prelude::*;

use crate::config::ConfigFile;
use crate::model::{Priority, Reminder};
use crate::paths::AbsPath;

verus! {

/// An ephemeral pairing of a reminder with the absolute path of the config
/// file it was loaded from. Constructed during aggregation, never persisted.
pub struct LocalReminder {
    pub reminder: Reminder,
    pub path: AbsPath,
}

impl View for LocalReminder {
    type V = (Reminder, Seq<Seq<char>>);

    open spec fn view(&self) -> (Reminder, Seq<Seq<char>>) {
        (self.reminder, self.path@)
    }
}

/// An ephemeral aggregation result: the global priority list plus the
/// flattened, provenance-tagged reminders. Built fresh per query.
pub struct ConfigSum {
    pub priorities: Vec<Priority>,
    pub reminders: Vec<LocalReminder>,
}

impl ConfigSum {
    pub fn new() -> (r: Self)
        ensures
            r.priorities@.len() == 0,
            r.reminders@.len() == 0,
    {
        ConfigSum { priorities: Vec::new(), reminders: Vec::new() }
    }
}

/// A local config as loaded from disk, together with the canonicalized path
/// it was loaded from.
pub struct LoadedConfig {
    pub path: AbsPath,
    pub config: ConfigFile,
}

/// Every reminder of `rs` tagged with the provenance path `p`, in order.
pub open spec fn tagged(rs: Seq<Reminder>, p: Seq<Seq<char>>) -> Seq<(Reminder, Seq<Seq<char>>)> {
    Seq::new(rs.len(), |i: int| (rs[i], p))
}

/// The views of a built reminder list.
pub open spec fn local_reminder_views(s: Seq<LocalReminder>) -> Seq<(Reminder, Seq<Seq<char>>)> {
    Seq::new(s.len(), |i: int| s[i]@)
}

/// The reminders of each loaded config, tagged with its path, concatenated
/// in load order.
pub open spec fn flatten_tagged(ls: Seq<LoadedConfig>) -> Seq<(Reminder, Seq<Seq<char>>)>
    decreases ls.len(),
{
    if ls.len() == 0 {
        Seq::empty()
    } else {
        flatten_tagged(ls.drop_last()) + tagged(ls.last().config.reminders@, ls.last().path@)
    }
}

proof fn lemma_flatten_tagged_push(ls: Seq<LoadedConfig>, x: LoadedConfig)
    ensures
        flatten_tagged(ls.push(x)) == flatten_tagged(ls) + tagged(x.config.reminders@, x.path@),
{
    assert(ls.push(x).drop_last() =~= ls);
    assert(ls.push(x).last() == x);
}

/// Merges the global config with the given loaded local configs: priorities
/// come solely from the global config; reminders are the locals' in load
/// order (file order kept within each), then the global config's own,
/// tagged with `global_path`.
pub fn aggregate_configs(
    global: &ConfigFile,
    global_path: &AbsPath,
    locals: &Vec<LoadedConfig>,
) -> (r: ConfigSum)
    ensures
        r.priorities@ == global.priorities@,
        local_reminder_views(r.reminders@) == flatten_tagged(locals@) + tagged(
            global.reminders@,
            global_path@,
        ),
{
    let mut priorities: Vec<Priority> = Vec::new();
    let mut k: usize = 0;
    while k < global.priorities.len()
        invariant
            0 <= k <= global.priorities.len(),
            priorities@ =~= global.priorities@.take(k as int),
        decreases global.priorities.len() - k,
    {
        priorities.push(global.priorities[k].duplicate());
        k += 1;
    }
    proof {
        assert(priorities@ =~= global.priorities@);
    }

    let mut reminders: Vec<LocalReminder> = Vec::new();
    let mut i: usize = 0;
    proof {
        assert(local_reminder_views(reminders@) =~= flatten_tagged(locals@.take(0)));
    }
    while i < locals.len()
        invariant
            0 <= i <= locals.len(),
            local_reminder_views(reminders@) == flatten_tagged(locals@.take(i as int)),
        decreases locals.len() - i,
    {
        let ghost done = flatten_tagged(locals@.take(i as int));
        let lc = &locals[i];
        let mut j: usize = 0;
        while j < lc.config.reminders.len()
            invariant
                0 <= j <= lc.config.reminders.len(),
                0 <= i < locals.len(),
                *lc == locals@[i as int],
                local_reminder_views(reminders@) =~= done + tagged(
                    lc.config.reminders@,
                    lc.path@,
                ).take(j as int),
            decreases lc.config.reminders.len() - j,
        {
            let ghost pre = reminders@;
            reminders.push(
                LocalReminder { reminder: lc.config.reminders[j].duplicate(), path: lc.path.duplicate() },
            );
            proof {
                let e = (lc.config.reminders@[j as int], lc.path@);
                assert(local_reminder_views(reminders@) =~= local_reminder_views(pre).push(e));
                assert(tagged(lc.config.reminders@, lc.path@).take(j as int + 1) =~= tagged(
                    lc.config.reminders@,
                    lc.path@,
                ).take(j as int).push(e));
                assert(done + tagged(lc.config.reminders@, lc.path@).take(j as int).push(e) =~= (
                done + tagged(lc.config.reminders@, lc.path@).take(j as int)).push(e));
            }
            j += 1;
        }
        proof {
            lemma_flatten_tagged_push(locals@.take(i as int), locals@[i as int]);
            assert(locals@.take(i as int).push(locals@[i as int]) =~= locals@.take(i as int + 1));
            assert(tagged(lc.config.reminders@, lc.path@).take(
                lc.config.reminders@.len() as int,
            ) =~= tagged(lc.config.reminders@, lc.path@));
        }
        i += 1;
    }
    proof {
        assert(locals@.take(locals@.len() as int) =~= locals@);
    }

    let ghost all_locals = flatten_tagged(locals@);
    let mut g: usize = 0;
    while g < global.reminders.len()
        invariant
            0 <= g <= global.reminders.len(),
            local_reminder_views(reminders@) =~= all_locals + tagged(
                global.reminders@,
                global_path@,
            ).take(g as int),
        decreases global.reminders.len() - g,
    {
        let ghost pre = reminders@;
        reminders.push(
            LocalReminder { reminder: global.reminders[g].duplicate(), path: global_path.duplicate() },
        );
        proof {
            let e = (global.reminders@[g as int], global_path@);
            assert(local_reminder_views(reminders@) =~= local_reminder_views(pre).push(e));
            assert(tagged(global.reminders@, global_path@).take(g as int + 1) =~= tagged(
                global.reminders@,
                global_path@,
            ).take(g as int).push(e));
            assert(all_locals + tagged(global.reminders@, global_path@).take(g as int).push(e)
                =~= (all_locals + tagged(global.reminders@, global_path@).take(g as int)).push(e));
        }
        g += 1;
    }
    proof {
        assert(tagged(global.reminders@, global_path@).take(global.reminders@.len() as int)
            =~= tagged(global.reminders@, global_path@));
    }
    ConfigSum { priorities, reminders }
}

} // verus!
