//! The tab merger: which Explorer windows are known, which are being
//! merged, and the decisions taken while a new window is folded into a tab
//! of an existing one. Each outside step (finding the target window, hiding
//! the new window, reading keys and the mouse, resolving the folder, listing
//! and creating tabs, navigating) is performed by the caller, which reports
//! its result as an event; the engine answers with the next action.

use vstd::prelude::*;
use std::collections::HashSet;
use vstd::std_specs::hash::spec_hash_keys_iter;
use vstd::std_specs::iter::IteratorSpec;
use crate::path_resolver::{
    dir_query,
    are_paths_equivalent, home_path, is_home_path, is_navigable_folder, navigable_given,
    normalized_path,
};
use crate::text::{lower_text, trim};

verus! {

broadcast use vstd::std_specs::hash::group_hash_axioms;

/// A set of window handles.
pub struct HwndSet {
    items: HashSet<isize>,
}

impl HwndSet {
    /// The handles in the set.
    pub closed spec fn view(&self) -> Set<isize> {
        self.items@
    }

    /// The set is finite, so that its size is its number of handles.
    pub closed spec fn wf(&self) -> bool {
        self.items@.finite()
    }

    /// The empty set.
    pub fn new() -> (r: HwndSet)
        ensures
            r.wf(),
            r.view() == Set::<isize>::empty(),
    {
        HwndSet { items: HashSet::new() }
    }

    /// Whether `h` is in the set.
    pub fn contains(&self, h: isize) -> (r: bool)
        ensures
            r == self.view().contains(h),
    {
        self.items.contains(&h)
    }

    /// The number of handles in the set.
    pub fn len(&self) -> (r: usize)
        requires
            self.wf(),
        ensures
            r == self.view().len(),
    {
        self.items.len()
    }

    /// Adds `h`.
    pub fn insert(&mut self, h: isize)
        requires
            old(self).wf(),
        ensures
            final(self).wf(),
            final(self).view() == old(self).view().insert(h),
    {
        self.items.insert(h);
    }

    /// Removes `h`.
    pub fn remove(&mut self, h: isize)
        requires
            old(self).wf(),
        ensures
            final(self).wf(),
            final(self).view() == old(self).view().remove(h),
    {
        self.items.remove(&h);
    }

    /// Removes every handle listed in `dead`; returns how many were removed.
    pub fn retain_not_in(&mut self, dead: &Vec<isize>) -> (r: usize)
        requires
            old(self).wf(),
        ensures
            final(self).wf(),
            final(self).view() == old(self).view().filter(|h: isize| !dead@.contains(h)),
            final(self).view().len() + r == old(self).view().len(),
    {
        let ghost start = self.view();
        let n0 = self.items.len();
        let mut removed: usize = 0;
        let mut i: usize = 0;
        proof {
            assert(start.filter(|h: isize| !dead@.subrange(0, 0).contains(h)) =~= start);
        }
        while i < dead.len()
            invariant
                i <= dead.len(),
                self.wf(),
                start.finite(),
                n0 == start.len(),
                self.view() == start.filter(|h: isize| !dead@.subrange(0, i as int).contains(h)),
                self.view().len() + removed == start.len(),
            decreases dead.len() - i,
        {
            let h = dead[i];
            let ghost before = self.view();
            let was = self.items.remove(&h);
            proof {
                let p0 = dead@.subrange(0, i as int);
                let p1 = dead@.subrange(0, i + 1);
                assert(p1 =~= p0.push(h));
                assert forall|x: isize| p1.contains(x) <==> (p0.contains(x) || x == h) by {
                    if p1.contains(x) {
                        let k = choose|k: int| 0 <= k < p1.len() && p1[k] == x;
                        if k < i {
                            assert(p0[k] == x);
                        }
                    }
                    if p0.contains(x) {
                        let k = choose|k: int| 0 <= k < p0.len() && p0[k] == x;
                        assert(p1[k] == x);
                    }
                    if x == h {
                        assert(p1[i as int] == h);
                    }
                }
                assert(start.filter(|x: isize| !p1.contains(x)) =~= before.remove(h));
            }
            if was {
                removed = removed + 1;
            }
            i = i + 1;
        }
        proof {
            assert(dead@.subrange(0, dead.len() as int) =~= dead@);
        }
        removed
    }

    /// The handles, in the order the set hands them out.
    pub fn to_vec(&self) -> (r: Vec<isize>)
        ensures
            r@.to_set() == self.view(),
    {
        let mut v: Vec<isize> = Vec::new();
        let ghost keys = spec_hash_keys_iter(&self.items).remaining().unref();
        for h in it: self.items.iter()
            invariant
                it.seq().unref() == keys,
                v@.len() == it.index(),
                forall|k: int| 0 <= k < v@.len() ==> v@[k] == keys[k],
        {
            v.push(*h);
        }
        proof {
            assert(v@ =~= keys);
        }
        v
    }
}

/// More known windows than this make the engine drop those that no longer
/// exist before it looks at a new one.
pub const KNOWN_WINDOWS_CLEANUP_THRESHOLD: usize = 20;

/// The watcher drops windows that no longer exist every this many ticks.
pub const CLEANUP_EVERY_TICKS: u32 = 50;

/// The engine's state: the Explorer windows it knows (left alone from now
/// on) and the windows it is merging right now.
pub struct TabifyEngine {
    known_explorer_hwnds: HwndSet,
    processing_hwnds: HwndSet,
}

/// The stages of merging one new window.
#[derive(PartialEq, Eq, Structural, Clone, Copy, Debug)]
pub enum MergeStage {
    /// Looking for an existing Explorer window to merge into.
    FindTarget,
    /// Hiding the new window.
    Hide,
    /// Reading the Shift key (held down: keep the window).
    CheckShift,
    /// Asking whether a drag and drop is under way or just ended.
    CheckDrag,
    /// Finding out which folder the new window shows.
    ResolvePath,
    /// Listing the folders open in the target window's tabs.
    ListTabs,
    /// A tab of the target already shows the folder: asking whether the new
    /// window was dragged out of it.
    CheckDragOut,
    /// Adding a tab to the target window.
    CreateTab,
    /// Navigating the new tab through COM.
    NavigateCom,
    /// Navigating the new tab through its address bar.
    NavigateAddressBar,
    /// Done.
    Finished,
}

/// The result of an outside step, reported back to the engine.
pub enum MergeEvent {
    /// The existing Explorer window found to merge into, if any.
    TargetSearched(Option<isize>),
    /// Whether hiding the new window succeeded.
    WindowHidden(bool),
    /// Whether the Shift key is held down.
    ShiftKeyChecked(bool),
    /// Whether a drag and drop is under way or ended within the bypass time.
    DragChecked(bool),
    /// The folder the new window shows, if it could be found.
    FolderPathResolved(Option<String>),
    /// The folders shown in the target window's tabs.
    TargetTabsListed(Vec<String>),
    /// Whether a drag and drop is under way or ended within the bypass time.
    DragOutChecked(bool),
    /// Whether a new tab was added to the target, and whether merged tabs
    /// take the view mode of the target.
    TabCreated { created: bool, unify_view_mode: bool },
    /// Whether COM navigation of the new tab succeeded.
    ComNavigated(bool),
    /// Whether address-bar navigation of the target succeeded.
    AddressBarNavigated(bool),
}

/// What the caller is to do next.
#[derive(PartialEq, Eq, Structural, Clone, Copy, Debug)]
pub enum MergeAction {
    /// Look for an existing Explorer window other than the new one.
    FindTarget,
    /// Hide the new window.
    HideWindow,
    /// Read the Shift key.
    CheckShiftKey,
    /// Ask whether a drag and drop is under way or just ended.
    CheckDrag,
    /// Find out which folder the new window shows.
    ResolveFolderPath,
    /// List the folders open in the target window's tabs.
    ListTargetTabs,
    /// Ask again whether a drag and drop is under way or just ended.
    CheckDragOut,
    /// Add a tab to the target window.
    CreateTab,
    /// Activate the last tab of the target; read the target's view mode when
    /// asked to; find the new tab and navigate it to the folder through COM.
    OpenNewTab { query_view_mode: bool },
    /// Navigate the target to the folder through its address bar.
    NavigateAddressBar,
    /// Finished: the new window stays as it is and is now known.
    KeepAsBase,
    /// Finished: show the new window again where it was; it is now known.
    RestoreAndKeep,
    /// Finished: give the new tab the view mode read before, if any, and
    /// close the new window.
    CompleteMerge,
    /// The event was not the one awaited: nothing changed.
    Ignored,
}

/// One window being merged.
pub struct MergeSession {
    /// The new window.
    pub hwnd: isize,
    /// The window it is merged into, once found.
    pub target: isize,
    /// The folder it shows, once found.
    pub folder_path: Option<String>,
    /// Where the merge stands.
    pub stage: MergeStage,
}

/// How `process_window` answered a new window.
pub enum BeginOutcome {
    /// The window is not an Explorer window: ignored.
    NotExplorer,
    /// The window is being merged already: ignored.
    AlreadyProcessing,
    /// The window is known: left alone.
    AlreadyKnown,
    /// The merge starts; its first action is `MergeAction::FindTarget`.
    Started(MergeSession),
}

/// Whether one of the listed tab folders is equivalent to `folder`.
pub open spec fn tab_shows_folder(tabs: Seq<String>, folder: Seq<char>) -> bool {
    exists|k: int| 0 <= k < tabs.len() && normalized_path(#[trigger] tabs[k]@) == normalized_path(folder)
}

/// The next stage and action for an event, given the stage and the folder
/// found so far. Every outcome that does not merge the window ends in
/// `KeepAsBase` before the window was hidden and in `RestoreAndKeep` after.
pub open spec fn merge_transition(stage: MergeStage, folder: Seq<char>, ev: MergeEvent) -> (MergeStage, MergeAction) {
    match (stage, ev) {
        (MergeStage::FindTarget, MergeEvent::TargetSearched(t)) => if t is Some {
            (MergeStage::Hide, MergeAction::HideWindow)
        } else {
            (MergeStage::Finished, MergeAction::KeepAsBase)
        },
        (MergeStage::Hide, MergeEvent::WindowHidden(ok)) => if ok {
            (MergeStage::CheckShift, MergeAction::CheckShiftKey)
        } else {
            (MergeStage::Finished, MergeAction::KeepAsBase)
        },
        (MergeStage::CheckShift, MergeEvent::ShiftKeyChecked(down)) => if down {
            (MergeStage::Finished, MergeAction::RestoreAndKeep)
        } else {
            (MergeStage::CheckDrag, MergeAction::CheckDrag)
        },
        (MergeStage::CheckDrag, MergeEvent::DragChecked(dragging)) => if dragging {
            (MergeStage::Finished, MergeAction::RestoreAndKeep)
        } else {
            (MergeStage::ResolvePath, MergeAction::ResolveFolderPath)
        },
        (MergeStage::ResolvePath, MergeEvent::FolderPathResolved(p)) => if p is Some {
            (MergeStage::ListTabs, MergeAction::ListTargetTabs)
        } else {
            (MergeStage::Finished, MergeAction::RestoreAndKeep)
        },
        (MergeStage::ListTabs, MergeEvent::TargetTabsListed(tabs)) => if tab_shows_folder(tabs@, folder) {
            (MergeStage::CheckDragOut, MergeAction::CheckDragOut)
        } else {
            (MergeStage::CreateTab, MergeAction::CreateTab)
        },
        (MergeStage::CheckDragOut, MergeEvent::DragOutChecked(dragging)) => if dragging {
            (MergeStage::Finished, MergeAction::RestoreAndKeep)
        } else {
            (MergeStage::CreateTab, MergeAction::CreateTab)
        },
        (MergeStage::CreateTab, MergeEvent::TabCreated { created, unify_view_mode }) => if created {
            (MergeStage::NavigateCom, MergeAction::OpenNewTab { query_view_mode: unify_view_mode })
        } else {
            (MergeStage::Finished, MergeAction::RestoreAndKeep)
        },
        (MergeStage::NavigateCom, MergeEvent::ComNavigated(ok)) => if ok {
            (MergeStage::Finished, MergeAction::CompleteMerge)
        } else {
            (MergeStage::NavigateAddressBar, MergeAction::NavigateAddressBar)
        },
        (MergeStage::NavigateAddressBar, MergeEvent::AddressBarNavigated(ok)) => if ok {
            (MergeStage::Finished, MergeAction::CompleteMerge)
        } else {
            (MergeStage::Finished, MergeAction::RestoreAndKeep)
        },
        _ => (stage, MergeAction::Ignored),
    }
}

/// Whether `process_window` starts merging a window: it is an Explorer
/// window that is neither being merged nor known.
pub open spec fn begins_merge(known: Set<isize>, processing: Set<isize>, hwnd: isize, is_explorer: bool) -> bool {
    is_explorer && !processing.contains(hwnd) && !known.contains(hwnd)
}

/// Whether an action ends the merge.
pub open spec fn is_final_action(a: MergeAction) -> bool {
    a == MergeAction::KeepAsBase || a == MergeAction::RestoreAndKeep || a == MergeAction::CompleteMerge
}

/// The text of an optional folder, empty when there is none.
pub open spec fn folder_text(o: Option<String>) -> Seq<char> {
    match o {
        Some(s) => s@,
        None => Seq::empty(),
    }
}

/// The view of an optional string.
pub open spec fn opt_view(o: Option<String>) -> Option<Seq<char>> {
    match o {
        Some(s) => Some(s@),
        None => None,
    }
}

impl TabifyEngine {
    /// The windows the engine knows.
    pub closed spec fn known(&self) -> Set<isize> {
        self.known_explorer_hwnds.view()
    }

    /// The windows being merged.
    pub closed spec fn processing(&self) -> Set<isize> {
        self.processing_hwnds.view()
    }

    /// The engine's sets are well formed.
    pub closed spec fn wf(&self) -> bool {
        self.known_explorer_hwnds.wf() && self.processing_hwnds.wf()
    }

    /// An engine that knows no window and merges none.
    pub fn new() -> (r: TabifyEngine)
        ensures
            r.wf(),
            r.known() == Set::<isize>::empty(),
            r.processing() == Set::<isize>::empty(),
    {
        TabifyEngine { known_explorer_hwnds: HwndSet::new(), processing_hwnds: HwndSet::new() }
    }

    /// Records a window as known.
    pub fn register_known_hwnd(&mut self, hwnd_val: isize)
        requires
            old(self).wf(),
        ensures
            final(self).wf(),
            final(self).known() == old(self).known().insert(hwnd_val),
            final(self).processing() == old(self).processing(),
    {
        self.known_explorer_hwnds.insert(hwnd_val);
    }

    /// Records as known the Explorer windows that were open at start-up.
    pub fn register_existing_windows(&mut self, hwnds: &Vec<isize>)
        requires
            old(self).wf(),
        ensures
            final(self).wf(),
            final(self).known() == old(self).known() + hwnds@.to_set(),
            final(self).processing() == old(self).processing(),
    {
        let ghost start = self.known();
        let mut i: usize = 0;
        while i < hwnds.len()
            invariant
                i <= hwnds.len(),
                self.wf(),
                self.known() == start + hwnds@.subrange(0, i as int).to_set(),
                self.processing() == old(self).processing(),
            decreases hwnds.len() - i,
        {
            self.register_known_hwnd(hwnds[i]);
            proof {
                let s0 = hwnds@.subrange(0, i as int);
                let s1 = hwnds@.subrange(0, i + 1);
                assert(s1 =~= s0 + seq![hwnds@[i as int]]);
                Seq::lemma_to_set_insert_commutes(s0, hwnds@[i as int]);
                assert(start + s1.to_set() =~= (start + s0.to_set()).insert(hwnds@[i as int]));
            }
            i = i + 1;
        }
        proof {
            assert(hwnds@.subrange(0, hwnds.len() as int) =~= hwnds@);
        }
    }

    /// The known windows.
    pub fn known_hwnds(&self) -> (r: Vec<isize>)
        ensures
            r@.to_set() == self.known(),
    {
        self.known_explorer_hwnds.to_vec()
    }

    /// Whether so many windows are known that those that no longer exist
    /// are to be dropped before a new window is looked at.
    pub fn needs_cleanup(&self) -> (r: bool)
        requires
            self.wf(),
        ensures
            r == (self.known().len() > KNOWN_WINDOWS_CLEANUP_THRESHOLD),
    {
        self.known_explorer_hwnds.len() > KNOWN_WINDOWS_CLEANUP_THRESHOLD
    }

    /// Drops the known windows that no longer exist; returns how many were
    /// dropped.
    pub fn cleanup_dead_hwnds(&mut self, dead: &Vec<isize>) -> (r: usize)
        requires
            old(self).wf(),
        ensures
            final(self).wf(),
            final(self).known() == old(self).known().filter(|h: isize| !dead@.contains(h)),
            final(self).known().len() + r == old(self).known().len(),
            final(self).processing() == old(self).processing(),
    {
        self.known_explorer_hwnds.retain_not_in(dead)
    }

    /// Whether a window that the watcher found is to be merged: it is
    /// neither known nor being merged.
    pub fn should_process_discovered(&self, hwnd_val: isize) -> (r: bool)
        ensures
            r == (!self.known().contains(hwnd_val) && !self.processing().contains(hwnd_val)),
    {
        !self.known_explorer_hwnds.contains(hwnd_val) && !self.processing_hwnds.contains(hwnd_val)
    }

    /// Starts merging a newly reported window, given whether it is an
    /// Explorer window. A window that is not Explorer, is being merged
    /// already, or is known is left alone; otherwise it is marked as being
    /// merged and the merge starts by looking for a target window.
    pub fn process_window(&mut self, hwnd_val: isize, is_explorer: bool) -> (r: BeginOutcome)
        requires
            old(self).wf(),
        ensures
            final(self).wf(),
            final(self).known() == old(self).known(),
            (r is Started) == begins_merge(old(self).known(), old(self).processing(), hwnd_val, is_explorer),
            !is_explorer ==> r is NotExplorer && final(self).processing() == old(self).processing(),
            is_explorer && old(self).processing().contains(hwnd_val) ==> r is AlreadyProcessing
                && final(self).processing() == old(self).processing(),
            is_explorer && !old(self).processing().contains(hwnd_val) && old(self).known().contains(
                hwnd_val,
            ) ==> r is AlreadyKnown && final(self).processing() == old(self).processing(),
            is_explorer && !old(self).processing().contains(hwnd_val) && !old(self).known().contains(
                hwnd_val,
            ) ==> (r matches BeginOutcome::Started(s) && s.hwnd == hwnd_val && s.stage
                == MergeStage::FindTarget && s.folder_path is None && final(self).processing()
                == old(self).processing().insert(hwnd_val)),
    {
        if !is_explorer {
            return BeginOutcome::NotExplorer;
        }
        if self.processing_hwnds.contains(hwnd_val) {
            return BeginOutcome::AlreadyProcessing;
        }
        if self.known_explorer_hwnds.contains(hwnd_val) {
            return BeginOutcome::AlreadyKnown;
        }
        self.processing_hwnds.insert(hwnd_val);
        BeginOutcome::Started(
            MergeSession {
                hwnd: hwnd_val,
                target: 0,
                folder_path: None,
                stage: MergeStage::FindTarget,
            },
        )
    }

    /// Stops marking a window as being merged, whatever became of its merge
    /// (used when a merge is cut short).
    pub fn abandon_merge(&mut self, hwnd_val: isize)
        requires
            old(self).wf(),
        ensures
            final(self).wf(),
            final(self).known() == old(self).known(),
            final(self).processing() == old(self).processing().remove(hwnd_val),
    {
        self.processing_hwnds.remove(hwnd_val);
    }

    /// Takes the result of the last outside step of a merge and returns the
    /// next action (see `merge_transition`). When the merge ends the window
    /// stops being merged; unless it was merged into the target, it becomes
    /// known. Events that the stage does not await change nothing.
    pub fn process_window_step(&mut self, session: &mut MergeSession, event: MergeEvent) -> (r:
        MergeAction)
        requires
            old(self).wf(),
        ensures
            final(self).wf(),
            (final(session).stage, r) == merge_transition(
                old(session).stage,
                folder_text(old(session).folder_path),
                event,
            ),
            final(session).hwnd == old(session).hwnd,
            final(session).target == (match (old(session).stage, event) {
                (MergeStage::FindTarget, MergeEvent::TargetSearched(Some(t))) => t,
                _ => old(session).target,
            }),
            opt_view(final(session).folder_path) == (match (old(session).stage, event) {
                (MergeStage::ResolvePath, MergeEvent::FolderPathResolved(Some(p))) => Some(p@),
                _ => opt_view(old(session).folder_path),
            }),
            r == MergeAction::KeepAsBase || r == MergeAction::RestoreAndKeep ==> final(self).known()
                == old(self).known().insert(old(session).hwnd) && final(self).processing() == old(
                self,
            ).processing().remove(old(session).hwnd),
            r == MergeAction::CompleteMerge ==> final(self).known() == old(self).known()
                && final(self).processing() == old(self).processing().remove(old(session).hwnd),
            !is_final_action(r) ==> final(self).known() == old(self).known() && final(self).processing()
                == old(self).processing(),
    {
        let (next, action) = match event {
            MergeEvent::TargetSearched(t) => {
                if session.stage == MergeStage::FindTarget {
                    match t {
                        Some(target) => {
                            session.target = target;
                            (MergeStage::Hide, MergeAction::HideWindow)
                        },
                        None => (MergeStage::Finished, MergeAction::KeepAsBase),
                    }
                } else {
                    (session.stage, MergeAction::Ignored)
                }
            },
            MergeEvent::WindowHidden(ok) => {
                if session.stage == MergeStage::Hide {
                    if ok {
                        (MergeStage::CheckShift, MergeAction::CheckShiftKey)
                    } else {
                        (MergeStage::Finished, MergeAction::KeepAsBase)
                    }
                } else {
                    (session.stage, MergeAction::Ignored)
                }
            },
            MergeEvent::ShiftKeyChecked(down) => {
                if session.stage == MergeStage::CheckShift {
                    if down {
                        (MergeStage::Finished, MergeAction::RestoreAndKeep)
                    } else {
                        (MergeStage::CheckDrag, MergeAction::CheckDrag)
                    }
                } else {
                    (session.stage, MergeAction::Ignored)
                }
            },
            MergeEvent::DragChecked(dragging) => {
                if session.stage == MergeStage::CheckDrag {
                    if dragging {
                        (MergeStage::Finished, MergeAction::RestoreAndKeep)
                    } else {
                        (MergeStage::ResolvePath, MergeAction::ResolveFolderPath)
                    }
                } else {
                    (session.stage, MergeAction::Ignored)
                }
            },
            MergeEvent::FolderPathResolved(p) => {
                if session.stage == MergeStage::ResolvePath {
                    match p {
                        Some(path) => {
                            session.folder_path = Some(path);
                            (MergeStage::ListTabs, MergeAction::ListTargetTabs)
                        },
                        None => (MergeStage::Finished, MergeAction::RestoreAndKeep),
                    }
                } else {
                    (session.stage, MergeAction::Ignored)
                }
            },
            MergeEvent::TargetTabsListed(tabs) => {
                if session.stage == MergeStage::ListTabs {
                    let found = match &session.folder_path {
                        Some(f) => any_tab_shows(&tabs, f.as_str()),
                        None => {
                            let empty = String::new();
                            any_tab_shows(&tabs, empty.as_str())
                        },
                    };
                    assert(found == tab_shows_folder(tabs@, folder_text(session.folder_path)));
                    if found {
                        (MergeStage::CheckDragOut, MergeAction::CheckDragOut)
                    } else {
                        (MergeStage::CreateTab, MergeAction::CreateTab)
                    }
                } else {
                    (session.stage, MergeAction::Ignored)
                }
            },
            MergeEvent::DragOutChecked(dragging) => {
                if session.stage == MergeStage::CheckDragOut {
                    if dragging {
                        (MergeStage::Finished, MergeAction::RestoreAndKeep)
                    } else {
                        (MergeStage::CreateTab, MergeAction::CreateTab)
                    }
                } else {
                    (session.stage, MergeAction::Ignored)
                }
            },
            MergeEvent::TabCreated { created, unify_view_mode } => {
                if session.stage == MergeStage::CreateTab {
                    if created {
                        (
                            MergeStage::NavigateCom,
                            MergeAction::OpenNewTab { query_view_mode: unify_view_mode },
                        )
                    } else {
                        (MergeStage::Finished, MergeAction::RestoreAndKeep)
                    }
                } else {
                    (session.stage, MergeAction::Ignored)
                }
            },
            MergeEvent::ComNavigated(ok) => {
                if session.stage == MergeStage::NavigateCom {
                    if ok {
                        (MergeStage::Finished, MergeAction::CompleteMerge)
                    } else {
                        (MergeStage::NavigateAddressBar, MergeAction::NavigateAddressBar)
                    }
                } else {
                    (session.stage, MergeAction::Ignored)
                }
            },
            MergeEvent::AddressBarNavigated(ok) => {
                if session.stage == MergeStage::NavigateAddressBar {
                    if ok {
                        (MergeStage::Finished, MergeAction::CompleteMerge)
                    } else {
                        (MergeStage::Finished, MergeAction::RestoreAndKeep)
                    }
                } else {
                    (session.stage, MergeAction::Ignored)
                }
            },
        };
        session.stage = next;
        match action {
            MergeAction::KeepAsBase | MergeAction::RestoreAndKeep => {
                self.processing_hwnds.remove(session.hwnd);
                self.known_explorer_hwnds.insert(session.hwnd);
            },
            MergeAction::CompleteMerge => {
                self.processing_hwnds.remove(session.hwnd);
            },
            _ => {},
        }
        action
    }
}

/// Whether one of `tabs` is equivalent to `folder`.
pub fn any_tab_shows(tabs: &Vec<String>, folder: &str) -> (r: bool)
    ensures
        r == tab_shows_folder(tabs@, folder@),
{
    let mut i: usize = 0;
    while i < tabs.len()
        invariant
            i <= tabs.len(),
            forall|k: int| 0 <= k < i ==> normalized_path(#[trigger] tabs@[k]@) != normalized_path(folder@),
        decreases tabs.len() - i,
    {
        if are_paths_equivalent(tabs[i].as_str(), folder) {
            return true;
        }
        i = i + 1;
    }
    false
}

/// How often the folder of a new window is asked for when its command line
/// named a folder.
pub const WINDOW_PATH_POLL_ATTEMPTS_WITH_CMDLINE: usize = 150;

/// How often the folder of a new window is asked for when its command line
/// named none.
pub const WINDOW_PATH_POLL_ATTEMPTS_WITHOUT_CMDLINE: usize = 500;

/// Finding out which folder a new window shows: the folder named on its
/// command line, if any, and repeated reads of the window's current folder,
/// which may show the home view before the real folder.
pub struct FolderPathPoller {
    /// The folder named on the window's command line.
    pub cmdline_path: Option<String>,
    /// Reads of the window's folder still allowed.
    pub attempts_left: usize,
    /// The last home-view folder read.
    pub last_home_path: Option<String>,
}

/// What one read of the window's folder decided.
pub enum PollOutcome {
    /// The folder is found.
    Found(String),
    /// Read again (after a short pause).
    Continue,
    /// No more reads: the command-line folder if there is one, else the
    /// last home-view folder read, else nothing.
    Exhausted(Option<String>),
}

/// What the poller ends with when it gives up.
pub open spec fn poll_fallback(cmdline: Option<String>, last_home: Option<String>) -> Option<Seq<char>> {
    if cmdline is Some {
        opt_view(cmdline)
    } else {
        opt_view(last_home)
    }
}

/// The effect of one read of the window's folder (`path`), given whether the
/// folder read is navigable. A non-empty navigable folder that is not the
/// home view is the answer, and the poller is left as it was. Otherwise the
/// read is used up, a navigable home-view folder is remembered, and when no
/// read is left the poller gives up. A poller with no reads left gives up
/// at once.
pub open spec fn poll_post(
    pre: FolderPathPoller,
    post: FolderPathPoller,
    path: Option<String>,
    navigable: bool,
    r: PollOutcome,
) -> bool {
    let accepted = path matches Some(p) && p@.len() > 0 && navigable;
    if pre.attempts_left == 0 {
        &&& opt_view(post.cmdline_path) == opt_view(pre.cmdline_path)
        &&& post.attempts_left == 0
        &&& opt_view(post.last_home_path) == opt_view(pre.last_home_path)
        &&& r matches PollOutcome::Exhausted(f) && opt_view(f) == poll_fallback(pre.cmdline_path, pre.last_home_path)
    } else if accepted && !home_path(path->0@) {
        &&& opt_view(post.cmdline_path) == opt_view(pre.cmdline_path)
        &&& post.attempts_left == pre.attempts_left
        &&& opt_view(post.last_home_path) == opt_view(pre.last_home_path)
        &&& r matches PollOutcome::Found(v) && v@ == path->0@
    } else {
        &&& opt_view(post.cmdline_path) == opt_view(pre.cmdline_path)
        &&& post.attempts_left == pre.attempts_left - 1
        &&& opt_view(post.last_home_path) == (if accepted {
            opt_view(path)
        } else {
            opt_view(pre.last_home_path)
        })
        &&& if post.attempts_left == 0 {
            r matches PollOutcome::Exhausted(f) && opt_view(f) == poll_fallback(post.cmdline_path, post.last_home_path)
        } else {
            r is Continue
        }
    }
}

fn clone_opt(o: &Option<String>) -> (r: Option<String>)
    ensures
        opt_view(r) == opt_view(*o),
{
    match o {
        Some(s) => Some(s.clone()),
        None => None,
    }
}

impl FolderPathPoller {
    /// A poller for a window whose command line named `cmdline_path`: it
    /// allows 150 reads when a folder was named and 500 otherwise.
    pub fn new(cmdline_path: Option<String>) -> (r: FolderPathPoller)
        ensures
            opt_view(r.cmdline_path) == opt_view(cmdline_path),
            r.attempts_left == (if cmdline_path is Some {
                WINDOW_PATH_POLL_ATTEMPTS_WITH_CMDLINE
            } else {
                WINDOW_PATH_POLL_ATTEMPTS_WITHOUT_CMDLINE
            }),
            r.last_home_path is None,
    {
        let attempts = if cmdline_path.is_some() {
            WINDOW_PATH_POLL_ATTEMPTS_WITH_CMDLINE
        } else {
            WINDOW_PATH_POLL_ATTEMPTS_WITHOUT_CMDLINE
        };
        FolderPathPoller { cmdline_path, attempts_left: attempts, last_home_path: None }
    }

    fn give_up(&self) -> (r: PollOutcome)
        ensures
            r matches PollOutcome::Exhausted(f) && opt_view(f) == poll_fallback(
                self.cmdline_path,
                self.last_home_path,
            ),
    {
        if self.cmdline_path.is_some() {
            PollOutcome::Exhausted(clone_opt(&self.cmdline_path))
        } else {
            PollOutcome::Exhausted(clone_opt(&self.last_home_path))
        }
    }

    /// Takes one read of the window's folder, given whether the folder read
    /// is navigable.
    pub fn observe_with(&mut self, window_path: Option<String>, navigable: bool) -> (r: PollOutcome)
        ensures
            poll_post(*old(self), *final(self), window_path, navigable, r),
    {
        if self.attempts_left == 0 {
            return self.give_up();
        }
        let ghost path_view = opt_view(window_path);
        match window_path {
            Some(p) => {
                if p.unicode_len() > 0 && navigable {
                    if !is_home_path(p.as_str()) {
                        return PollOutcome::Found(p);
                    }
                    self.last_home_path = Some(p);
                }
            },
            None => {},
        }
        self.attempts_left = self.attempts_left - 1;
        if self.attempts_left == 0 {
            self.give_up()
        } else {
            PollOutcome::Continue
        }
    }

    /// Takes one read of the window's folder (`resolve_target_folder_path`
    /// performs one per pause). Whether the folder is navigable may depend on
    /// the file system; the read is taken as `observe_with` would take it for
    /// an answer that is navigable whenever the folder is navigable without
    /// an existing directory, and only when it is navigable with one.
    pub fn observe(&mut self, window_path: Option<String>) -> (r: PollOutcome)
        ensures
            exists|nav: bool|
                {
                    &&& (window_path matches Some(p) ==> (navigable_given(
                        trim(p@),
                        lower_text(trim(p@)),
                        false,
                    ) ==> nav) && (nav ==> navigable_given(trim(p@), lower_text(trim(p@)), true)))
                    &&& (window_path matches Some(p) ==> (dir_query(p@) is None ==> nav == navigable_given(
                        trim(p@),
                        lower_text(trim(p@)),
                        false,
                    )))
                    &&& poll_post(*old(self), *final(self), window_path, nav, r)
                },
    {
        let nav = match &window_path {
            Some(p) => p.unicode_len() > 0 && is_navigable_folder(p.as_str()),
            None => false,
        };
        proof {
            if window_path is Some {
                let p = window_path->0;
                if p@.len() == 0 {
                    assert(trim(p@) == p@);
                }
            }
        }
        self.observe_with(window_path, nav)
    }
}

/// Which of the tabs listed after a new tab was requested is the new one,
/// given the browser identities of the tabs before and after.
pub fn pick_new_tab(before: &Vec<usize>, after: &Vec<usize>) -> (r: Option<usize>)
    ensures
        r matches Some(k) ==> k < after@.len(),
        r matches Some(k) ==> (!before@.contains(after@[k as int]) ==> forall|j: int|
            0 <= j < k ==> before@.contains(#[trigger] after@[j])),
        (exists|k: int| 0 <= k < after@.len() && !before@.contains(#[trigger] after@[k])) ==> (r matches Some(
            k,
        ) && !before@.contains(after@[k as int])),
        !(exists|k: int| 0 <= k < after@.len() && !before@.contains(#[trigger] after@[k])) ==> (r
            is Some <==> after@.len() > before@.len()) && (r matches Some(k) ==> k == after@.len()
            - 1),
{
    let mut i: usize = 0;
    while i < after.len()
        invariant
            i <= after.len(),
            forall|j: int| 0 <= j < i ==> before@.contains(#[trigger] after@[j]),
        decreases after.len() - i,
    {
        let mut seen = false;
        let mut j: usize = 0;
        while j < before.len()
            invariant
                j <= before.len(),
                i < after.len(),
                seen == exists|m: int| 0 <= m < j && before@[m] == after@[i as int],
            decreases before.len() - j,
        {
            if before[j] == after[i] {
                seen = true;
            }
            j = j + 1;
        }
        if !seen {
            proof {
                assert forall|m: int| 0 <= m < before@.len() implies before@[m] != after@[i as int] by {}
            }
            return Some(i);
        }
        proof {
            let m = choose|m: int| 0 <= m < j && before@[m] == after@[i as int];
            assert(before@.contains(after@[i as int]));
        }
        i = i + 1;
    }
    if after.len() > before.len() {
        Some(after.len() - 1)
    } else {
        None
    }
}

/// The watcher's next tick count (wrapping at `u32::MAX`) and whether dead
/// windows are to be dropped on it.
pub fn next_watcher_tick(tick: u32) -> (r: (u32, bool))
    ensures
        r.0 == (if tick == u32::MAX {
            0
        } else {
            tick + 1
        }),
        r.1 == (r.0 % CLEANUP_EVERY_TICKS == 0),
{
    let next = if tick == u32::MAX {
        0
    } else {
        tick + 1
    };
    (next, next % CLEANUP_EVERY_TICKS == 0)
}

/// Adds a window found by the watcher to the list of this round: a browser
/// with a window handle whose top-level window is a visible Explorer window
/// not listed yet.
pub fn add_discovered_window(list: &mut Vec<isize>, browser_hwnd: isize, root: isize, visible: bool)
    ensures
        final(list)@ == (if browser_hwnd != 0 && visible && !old(list)@.contains(root) {
            old(list)@.push(root)
        } else {
            old(list)@
        }),
        old(list)@.no_duplicates() ==> final(list)@.no_duplicates(),
{
    if browser_hwnd == 0 || !visible {
        return;
    }
    let mut i: usize = 0;
    while i < list.len()
        invariant
            i <= list.len(),
            list@ == old(list)@,
            forall|j: int| 0 <= j < i ==> list@[j] != root,
        decreases list.len() - i,
    {
        if list[i] == root {
            proof {
                assert(list@.contains(root));
            }
            return;
        }
        i = i + 1;
    }
    let ghost before = list@;
    list.push(root);
    proof {
        assert forall|a: int, b: int| 0 <= a < list@.len() && 0 <= b < list@.len() && a != b && before.no_duplicates()
            implies list@[a] != list@[b] by {
            if a < before.len() && b < before.len() {
                assert(before[a] == list@[a] && before[b] == list@[b]);
            } else if a < before.len() {
                assert(before[a] == list@[a]);
            } else {
                assert(before[b] == list@[b]);
            }
        }
    }
}

/// One tick of the background watcher: the Explorer windows found on the
/// tick, each listed once in the order found, and how many of them have
/// been looked at.
pub struct WatcherRound {
    windows: Vec<isize>,
    next: usize,
}

impl WatcherRound {
    /// The windows found on this tick.
    pub closed spec fn windows(&self) -> Seq<isize> {
        self.windows@
    }

    /// How many of them have been looked at.
    pub closed spec fn position(&self) -> int {
        self.next as int
    }

    /// Each window is listed once, and the position lies within the list.
    pub closed spec fn wf(&self) -> bool {
        self.next <= self.windows@.len() && self.windows@.no_duplicates()
    }

    /// A round with no window found yet.
    pub fn new() -> (r: WatcherRound)
        ensures
            r.wf(),
            r.windows() == Seq::<isize>::empty(),
            r.position() == 0,
    {
        WatcherRound { windows: Vec::new(), next: 0 }
    }

    /// Records a shell browser found on this tick (see `add_discovered_window`).
    pub fn add_browser(&mut self, browser_hwnd: isize, root: isize, visible: bool)
        requires
            old(self).wf(),
            old(self).position() == 0,
        ensures
            final(self).wf(),
            final(self).position() == 0,
            final(self).windows() == (if browser_hwnd != 0 && visible && !old(self).windows().contains(root) {
                old(self).windows().push(root)
            } else {
                old(self).windows()
            }),
    {
        add_discovered_window(&mut self.windows, browser_hwnd, root, visible);
    }

    /// The next window of the round to merge: the first window after those
    /// looked at that the engine neither knows nor is merging now. The
    /// windows passed over are all known or being merged. `None` when no
    /// such window is left.
    pub fn next_to_process(&mut self, engine: &TabifyEngine) -> (r: Option<isize>)
        requires
            old(self).wf(),
        ensures
            final(self).wf(),
            final(self).windows() == old(self).windows(),
            r matches Some(h) ==> {
                let k = final(self).position() - 1;
                &&& old(self).position() <= k < old(self).windows().len()
                &&& old(self).windows()[k] == h
                &&& !engine.known().contains(h) && !engine.processing().contains(h)
            },
            r is None ==> final(self).position() == old(self).windows().len(),
            forall|j: int|
                old(self).position() <= j < final(self).position() - (if r is Some {
                    1int
                } else {
                    0int
                }) ==> engine.known().contains(#[trigger] old(self).windows()[j]) || engine.processing().contains(
                    old(self).windows()[j],
                ),
    {
        while self.next < self.windows.len()
            invariant
                self.wf(),
                self.windows@ == old(self).windows@,
                old(self).next <= self.next,
                forall|j: int|
                    old(self).next <= j < self.next ==> engine.known().contains(#[trigger] self.windows@[j])
                        || engine.processing().contains(self.windows@[j]),
            decreases self.windows.len() - self.next,
        {
            let h = self.windows[self.next];
            self.next = self.next + 1;
            if engine.should_process_discovered(h) {
                return Some(h);
            }
        }
        None
    }
}

/// Within one tick of the watcher, a window is handed out for merging at
/// most once: the windows of a round are listed once each, and every window
/// handed out lies after the one handed out before it.
pub proof fn lemma_watcher_round_hands_out_once(windows: Seq<isize>, k: int, j: int)
    requires
        windows.no_duplicates(),
        0 <= k < j < windows.len(),
    ensures
        windows[k] != windows[j],
{
}

/// The order of the merge stages.
pub open spec fn stage_rank(s: MergeStage) -> nat {
    match s {
        MergeStage::FindTarget => 0,
        MergeStage::Hide => 1,
        MergeStage::CheckShift => 2,
        MergeStage::CheckDrag => 3,
        MergeStage::ResolvePath => 4,
        MergeStage::ListTabs => 5,
        MergeStage::CheckDragOut => 6,
        MergeStage::CreateTab => 7,
        MergeStage::NavigateCom => 8,
        MergeStage::NavigateAddressBar => 9,
        MergeStage::Finished => 10,
    }
}

/// Every answered event moves the merge forward, so a merge ends after at
/// most ten answered events; an ignored event changes nothing.
pub proof fn lemma_merge_moves_forward(stage: MergeStage, folder: Seq<char>, ev: MergeEvent)
    ensures
        merge_transition(stage, folder, ev).1 != MergeAction::Ignored ==> stage_rank(
            merge_transition(stage, folder, ev).0,
        ) > stage_rank(stage),
        merge_transition(stage, folder, ev).1 == MergeAction::Ignored ==> merge_transition(
            stage,
            folder,
            ev,
        ).0 == stage,
{
}

/// The merge ends exactly when it reaches the finished stage, and a finished
/// merge ignores every event.
pub proof fn lemma_final_actions_finish(stage: MergeStage, folder: Seq<char>, ev: MergeEvent)
    ensures
        merge_transition(stage, folder, ev).1 != MergeAction::Ignored ==> (is_final_action(
            merge_transition(stage, folder, ev).1,
        ) <==> merge_transition(stage, folder, ev).0 == MergeStage::Finished),
        stage == MergeStage::Finished ==> merge_transition(stage, folder, ev).1
            == MergeAction::Ignored,
{
}

/// A window is closed into a tab only after a new tab was created in the
/// target and navigated to the folder, through COM or the address bar.
pub proof fn lemma_merge_needs_navigated_tab(stage: MergeStage, folder: Seq<char>, ev: MergeEvent)
    ensures
        merge_transition(stage, folder, ev).1 == MergeAction::CompleteMerge ==> (stage
            == MergeStage::NavigateCom && ev matches MergeEvent::ComNavigated(true)) || (stage
            == MergeStage::NavigateAddressBar && ev matches MergeEvent::AddressBarNavigated(true)),
        merge_transition(stage, folder, ev).0 == MergeStage::NavigateCom
            && stage != MergeStage::NavigateCom ==> stage == MergeStage::CreateTab
            && ev matches MergeEvent::TabCreated { created: true, .. },
{
}

/// A window that is not merged is left as it was when it had not been hidden
/// yet (no target, or hiding failed), and shown again when it had.
pub proof fn lemma_unmerged_window_restored(stage: MergeStage, folder: Seq<char>, ev: MergeEvent)
    ensures
        merge_transition(stage, folder, ev).1 == MergeAction::KeepAsBase ==> stage
            == MergeStage::FindTarget || stage == MergeStage::Hide,
        merge_transition(stage, folder, ev).1 == MergeAction::RestoreAndKeep ==> stage_rank(stage)
            >= 2,
        stage_rank(stage) >= 2 && is_final_action(merge_transition(stage, folder, ev).1) ==> merge_transition(
            stage,
            folder,
            ev,
        ).1 != MergeAction::KeepAsBase,
{
}

/// A drag and drop under way or just ended keeps the new window apart; so does
/// the Shift key.
pub proof fn lemma_bypasses_keep_window(folder: Seq<char>)
    ensures
        merge_transition(MergeStage::CheckShift, folder, MergeEvent::ShiftKeyChecked(true)).1
            == MergeAction::RestoreAndKeep,
        merge_transition(MergeStage::CheckDrag, folder, MergeEvent::DragChecked(true)).1
            == MergeAction::RestoreAndKeep,
        merge_transition(MergeStage::CheckDragOut, folder, MergeEvent::DragOutChecked(true)).1
            == MergeAction::RestoreAndKeep,
{
}

/// A window is merged at most once at a time, and a window that a merge
/// left open (kept as a base or shown again) is never merged afterwards:
/// `process_window` does not start a merge for a window being merged, nor
/// for one that a finished merge made known, whatever else is known or
/// being merged.
pub proof fn lemma_window_merged_once(known: Set<isize>, processing: Set<isize>, hwnd: isize, is_explorer: bool)
    ensures
        !begins_merge(known, processing.insert(hwnd), hwnd, is_explorer),
        !begins_merge(known.insert(hwnd), processing.remove(hwnd), hwnd, is_explorer),
{
}


/// A merge is given up (the new window shown again and kept) only for a
/// reason that was reported: the Shift key held, a drag under way or just
/// ended (before resolving the folder, or once a tab of the target shows the
/// folder), no folder found, no tab created, or the address bar failing.
/// A report that nothing stands in the way moves the merge on: no Shift key
/// leads to the drag check, no drag to resolving the folder, and no drag
/// once a tab already shows the folder to creating the tab, whatever the
/// folder.
pub proof fn lemma_merge_given_up_only_for_a_reason(stage: MergeStage, folder: Seq<char>, ev: MergeEvent)
    ensures
        merge_transition(stage, folder, ev).1 == MergeAction::RestoreAndKeep ==> {
            ||| stage == MergeStage::CheckShift && ev == MergeEvent::ShiftKeyChecked(true)
            ||| stage == MergeStage::CheckDrag && ev == MergeEvent::DragChecked(true)
            ||| stage == MergeStage::CheckDragOut && ev == MergeEvent::DragOutChecked(true)
            ||| stage == MergeStage::ResolvePath && ev == MergeEvent::FolderPathResolved(None)
            ||| stage == MergeStage::CreateTab && ev matches MergeEvent::TabCreated { created: false, .. }
            ||| stage == MergeStage::NavigateAddressBar && ev == MergeEvent::AddressBarNavigated(false)
        },
        stage == MergeStage::CheckShift && ev == MergeEvent::ShiftKeyChecked(false) ==> merge_transition(
            stage,
            folder,
            ev,
        ) == (MergeStage::CheckDrag, MergeAction::CheckDrag),
        stage == MergeStage::CheckDrag && ev == MergeEvent::DragChecked(false) ==> merge_transition(
            stage,
            folder,
            ev,
        ) == (MergeStage::ResolvePath, MergeAction::ResolveFolderPath),
        stage == MergeStage::CheckDragOut && ev == MergeEvent::DragOutChecked(false) ==> merge_transition(
            stage,
            folder,
            ev,
        ) == (MergeStage::CreateTab, MergeAction::CreateTab),
{
}

} // verus!
