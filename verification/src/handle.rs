//! The hot-reload handle: the state of one loaded dynamic module and its
//! reload cycle. The handle owns the authoritative artifact path and the
//! path of the currently mapped aliased copy; polling a drained event batch
//! decides whether to reload and, if so, steps the state to a fresh unique
//! alias while surrendering the stale one for deletion.
//!
//! The filesystem work of a cycle (copying the artifact to the alias path,
//! mapping the module, deleting stale aliases) is operating-system I/O and
//! is carried out by the embedding program, which follows the `ReloadPlan`
//! this module hands back; every decision and every path is computed and
//! proved here.

use crate::paths::alias_of;
use crate::paths::alias_path;
use crate::paths::has_dot;
use crate::paths::lemma_alias_differs_from_original;
use crate::watch::triggers_reload;
use crate::watch::reload_triggered;
use crate::watch::WatchEvent;
use vstd::prelude::*;

verus! {

/// The filesystem actions one reload cycle asks of the embedding program,
/// in order: release the mapped module, delete `stale_alias`, copy
/// `source` to `fresh_alias`, and map the module from `fresh_alias`.
pub struct ReloadPlan {
    pub stale_alias: String,
    pub source: String,
    pub fresh_alias: String,
}

/// The state of one hot-reloaded module.
pub struct HotReloadLib {
    /// The authoritative artifact path, as constructed from the watched
    /// folder and the module name; aliases are derived from it. Immutable.
    pub original_lib_path_string: String,
    /// The canonical form of the artifact path; drained watch events
    /// report canonical paths, so the reload decision compares against
    /// this one. Immutable.
    pub original_lib_path: String,
    /// The path of the currently mapped aliased copy; steps on every
    /// reload. Always distinct from the artifact path, so the artifact is
    /// never mapped directly and never locked.
    pub loaded_path: String,
    /// The timestamp stamped into `loaded_path`. Reloading under a
    /// distinct timestamp provably yields a distinct alias; two reloads
    /// within the same wall-clock second share one, the reference design's
    /// known boundary case.
    pub loaded_stamp: u64,
}

impl HotReloadLib {
    /// The handle's invariant: the artifact path has an extension to
    /// insert an alias timestamp before, and the loaded path is an alias
    /// of it for some timestamp.
    pub open spec fn wf(self) -> bool {
        &&& has_dot(self.original_lib_path_string@)
        &&& self.loaded_path@ == alias_of(self.original_lib_path_string@, self.loaded_stamp)
    }

    /// A well-formed handle never has the artifact itself mapped: the
    /// loaded path is always distinct from the artifact path.
    pub proof fn lemma_alias_distinct(self)
        requires
            self.wf(),
        ensures
            self.loaded_path@ != self.original_lib_path_string@,
    {
        lemma_alias_differs_from_original(self.original_lib_path_string@, self.loaded_stamp);
    }

    /// Constructs the handle state for one module: the initial alias is
    /// the artifact path stamped with `timestamp`. The embedding program
    /// then copies the artifact to `loaded_path` and maps it from there.
    pub fn new(
        original_lib_path_string: String,
        original_lib_path: String,
        timestamp: u64,
    ) -> (r: HotReloadLib)
        requires
            has_dot(original_lib_path_string@),
        ensures
            r.wf(),
            r.original_lib_path_string@ == original_lib_path_string@,
            r.original_lib_path@ == original_lib_path@,
            r.loaded_path@ == alias_of(original_lib_path_string@, timestamp),
            r.loaded_stamp == timestamp,
    {
        let loaded_path = alias_path(original_lib_path_string.as_str(), timestamp);
        HotReloadLib {
            original_lib_path_string,
            original_lib_path,
            loaded_path,
            loaded_stamp: timestamp,
        }
    }

    /// Polls one drained event batch. A reload happens if and only if some
    /// event reports a creation on the canonical artifact path; it steps
    /// the loaded path to a fresh alias stamped with `timestamp` and hands
    /// back the cycle's plan, with the previous alias surrendered for
    /// deletion, so exactly one alias remains current. On a batch with no
    /// qualifying event the handle is left untouched.
    pub fn update(&mut self, events: &Vec<WatchEvent>, timestamp: u64) -> (r: Option<ReloadPlan>)
        requires
            old(self).wf(),
        ensures
            final(self).wf(),
            (r is Some) == triggers_reload(events@, old(self).original_lib_path@),
            final(self).original_lib_path_string@ == old(self).original_lib_path_string@,
            final(self).original_lib_path@ == old(self).original_lib_path@,
            r is Some ==> final(self).loaded_path@ == alias_of(
                old(self).original_lib_path_string@,
                timestamp,
            ),
            r is Some ==> r->Some_0.stale_alias@ == old(self).loaded_path@,
            r is Some ==> r->Some_0.source@ == old(self).original_lib_path_string@,
            r is Some ==> r->Some_0.fresh_alias@ == final(self).loaded_path@,
            r is Some ==> final(self).loaded_stamp == timestamp,
            r is Some && timestamp != old(self).loaded_stamp ==> r->Some_0.fresh_alias@
                != r->Some_0.stale_alias@,
            r is None ==> *final(self) == *old(self),
    {
        let should_reload = reload_triggered(events, &self.original_lib_path);
        if should_reload {
            let fresh = alias_path(self.original_lib_path_string.as_str(), timestamp);
            let stale = self.loaded_path.clone();
            self.loaded_path = fresh.clone();
            self.loaded_stamp = timestamp;
            proof {
                if timestamp != old(self).loaded_stamp {
                    crate::paths::lemma_alias_injective(
                        self.original_lib_path_string@,
                        old(self).loaded_stamp,
                        timestamp,
                    );
                }
            }
            Some(
                ReloadPlan {
                    stale_alias: stale,
                    source: self.original_lib_path_string.clone(),
                    fresh_alias: fresh,
                },
            )
        } else {
            None
        }
    }

    /// Tears the handle down, surrendering the current alias path for
    /// deletion. The artifact path is not the surrendered one, so the
    /// authoritative artifact stays untouched.
    pub fn dispose(self) -> (r: String)
        requires
            self.wf(),
        ensures
            r@ == self.loaded_path@,
            r@ != self.original_lib_path_string@,
    {
        proof {
            self.lemma_alias_distinct();
        }
        self.loaded_path
    }
}

/// The hot-reload set: the pair of handles the driver refreshes each tick,
/// the update module's before the view module's.
pub struct HotReloadLibs {
    pub update: HotReloadLib,
    pub view: HotReloadLib,
}

impl HotReloadLibs {
    pub open spec fn wf(self) -> bool {
        self.update.wf() && self.view.wf()
    }

    pub fn new(update: HotReloadLib, view: HotReloadLib) -> (r: HotReloadLibs)
        requires
            update.wf(),
            view.wf(),
        ensures
            r.wf(),
            r.update == update,
            r.view == view,
    {
        HotReloadLibs { update, view }
    }

    /// Polls both members in fixed order (update before view); each one
    /// reloads independently of the other, exactly as its own `update`
    /// states.
    pub fn update_libs(
        &mut self,
        update_events: &Vec<WatchEvent>,
        view_events: &Vec<WatchEvent>,
        timestamp: u64,
    ) -> (r: (Option<ReloadPlan>, Option<ReloadPlan>))
        requires
            old(self).wf(),
        ensures
            final(self).wf(),
            (r.0 is Some) == triggers_reload(update_events@, old(self).update.original_lib_path@),
            (r.1 is Some) == triggers_reload(view_events@, old(self).view.original_lib_path@),
            r.0 is Some ==> r.0->Some_0.stale_alias@ == old(self).update.loaded_path@
                && r.0->Some_0.fresh_alias@ == final(self).update.loaded_path@,
            r.1 is Some ==> r.1->Some_0.stale_alias@ == old(self).view.loaded_path@
                && r.1->Some_0.fresh_alias@ == final(self).view.loaded_path@,
            r.0 is None ==> final(self).update == old(self).update,
            r.1 is None ==> final(self).view == old(self).view,
    {
        let u = self.update.update(update_events, timestamp);
        let v = self.view.update(view_events, timestamp);
        (u, v)
    }
}

} // verus!
