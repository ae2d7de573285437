//! Global-hotkey bindings: the store of action-to-hotkey bindings and the
//! update rule that decides which shortcut to unregister when a binding
//! changes.  Registration with the operating system stays with the caller.

use vstd::prelude::*;

verus! {

/// The recording actions a hotkey can trigger.
#[derive(Clone, Copy, Debug, PartialEq, Eq, Hash, Structural)]
pub enum HotkeyAction {
    StartRecording,
    StopRecording,
    RestartRecording,
    ToggleRecording,
}

/// One keyboard shortcut: a key code name plus modifier flags.
#[derive(Clone, Debug)]
pub struct Hotkey {
    /// The key code's name, e.g. "KeyP".
    pub code: String,
    pub meta: bool,
    pub ctrl: bool,
    pub alt: bool,
    pub shift: bool,
}

/// Whether two hotkeys denote the same shortcut: same key code characters
/// and the same modifiers.
pub open spec fn hotkey_matches(a: Hotkey, b: Hotkey) -> bool {
    a.code@ == b.code@ && a.meta == b.meta && a.ctrl == b.ctrl && a.alt == b.alt && a.shift
        == b.shift
}

impl Hotkey {
    /// Compare two hotkeys as shortcuts.
    pub fn matches_hotkey(&self, other: &Hotkey) -> (r: bool)
        ensures
            r == hotkey_matches(*self, *other),
    {
        crate::strings::str_eq(self.code.as_str(), other.code.as_str()) && self.meta == other.meta
            && self.ctrl == other.ctrl && self.alt == other.alt && self.shift == other.shift
    }
}

/// The actions whose bound shortcut matches `h`, in binding order.
pub open spec fn matching_actions_spec(s: Seq<(HotkeyAction, Hotkey)>, h: Hotkey) -> Seq<
    HotkeyAction,
> {
    s.filter(|p: (HotkeyAction, Hotkey)| hotkey_matches(p.1, h)).map_values(
        |p: (HotkeyAction, Hotkey)| p.0,
    )
}

/// What a triggered hotkey action runs: starting is requested through an
/// event so the recording window can take over; the other actions call the
/// recording commands directly.
#[derive(Clone, Copy, Debug, PartialEq, Eq, Structural)]
pub enum HotkeyCommand {
    EmitStartRequest,
    StopRecording,
    RestartRecording,
    ToggleRecording,
}

/// The command a hotkey action dispatches to.
pub fn dispatch_hotkey(action: HotkeyAction) -> (r: HotkeyCommand)
    ensures
        action == HotkeyAction::StartRecording ==> r == HotkeyCommand::EmitStartRequest,
        action == HotkeyAction::StopRecording ==> r == HotkeyCommand::StopRecording,
        action == HotkeyAction::RestartRecording ==> r == HotkeyCommand::RestartRecording,
        action == HotkeyAction::ToggleRecording ==> r == HotkeyCommand::ToggleRecording,
{
    match action {
        HotkeyAction::StartRecording => HotkeyCommand::EmitStartRequest,
        HotkeyAction::StopRecording => HotkeyCommand::StopRecording,
        HotkeyAction::RestartRecording => HotkeyCommand::RestartRecording,
        HotkeyAction::ToggleRecording => HotkeyCommand::ToggleRecording,
    }
}

/// The persisted hotkey bindings: one hotkey per action.
#[derive(Clone, Debug)]
pub struct HotkeysStore {
    pub hotkeys: Vec<(HotkeyAction, Hotkey)>,
}

impl HotkeysStore {
    /// Each action is bound at most once.
    pub open spec fn wf(&self) -> bool {
        forall|i: int, j: int|
            0 <= i < j < self.hotkeys@.len() ==> (#[trigger] self.hotkeys@[i]).0 != (
            #[trigger] self.hotkeys@[j]).0
    }

    /// An empty store.
    pub fn new() -> (r: Self)
        ensures
            r.wf(),
            r.hotkeys@.len() == 0,
    {
        HotkeysStore { hotkeys: Vec::new() }
    }

    /// The index of the binding for `action`, if one exists.
    fn find_action(&self, action: HotkeyAction) -> (r: Option<usize>)
        ensures
            match r {
                Some(i) => i < self.hotkeys@.len() && self.hotkeys@[i as int].0 == action,
                None => forall|i: int|
                    0 <= i < self.hotkeys@.len() ==> (#[trigger] self.hotkeys@[i]).0 != action,
            },
    {
        let mut i: usize = 0;
        while i < self.hotkeys.len()
            invariant
                0 <= i <= self.hotkeys@.len(),
                forall|j: int| 0 <= j < i ==> (#[trigger] self.hotkeys@[j]).0 != action,
            decreases self.hotkeys@.len() - i,
        {
            if self.hotkeys[i].0 == action {
                return Some(i);
            }
            i = i + 1;
        }
        None
    }

    /// Whether any action is currently bound to a shortcut matching `h`.
    pub fn any_binding_matches(&self, h: &Hotkey) -> (r: bool)
        ensures
            r == exists|i: int|
                0 <= i < self.hotkeys@.len() && hotkey_matches((#[trigger] self.hotkeys@[i]).1, *h),
    {
        let mut i: usize = 0;
        while i < self.hotkeys.len()
            invariant
                0 <= i <= self.hotkeys@.len(),
                forall|j: int| 0 <= j < i ==> !hotkey_matches((#[trigger] self.hotkeys@[j]).1, *h),
            decreases self.hotkeys@.len() - i,
        {
            if self.hotkeys[i].1.matches_hotkey(h) {
                return true;
            }
            i = i + 1;
        }
        false
    }

    /// The hotkey bound to `action`, if any.
    pub fn binding(&self, action: HotkeyAction) -> (r: Option<&Hotkey>)
        ensures
            match r {
                Some(h) => exists|i: int|
                    0 <= i < self.hotkeys@.len() && #[trigger] self.hotkeys@[i] == (action, *h),
                None => forall|i: int|
                    0 <= i < self.hotkeys@.len() ==> (#[trigger] self.hotkeys@[i]).0 != action,
            },
    {
        match self.find_action(action) {
            Some(i) => Some(&self.hotkeys[i].1),
            None => None,
        }
    }

    /// The actions whose bound shortcut matches `h`, in binding order: a
    /// received hotkey event triggers each of them.
    pub fn matching_actions(&self, h: &Hotkey) -> (r: Vec<HotkeyAction>)
        ensures
            r@ =~= matching_actions_spec(self.hotkeys@, *h),
    {
        let mut out: Vec<HotkeyAction> = Vec::new();
        let mut i: usize = 0;
        while i < self.hotkeys.len()
            invariant
                0 <= i <= self.hotkeys@.len(),
                out@ =~= matching_actions_spec(self.hotkeys@.take(i as int), *h),
            decreases self.hotkeys@.len() - i,
        {
            let p = &self.hotkeys[i];
            proof {
                reveal(Seq::filter);
                assert(self.hotkeys@.take(i as int + 1).drop_last() =~= self.hotkeys@.take(
                    i as int,
                ));
                assert(self.hotkeys@.take(i as int + 1).last() == self.hotkeys@[i as int]);
            }
            if p.1.matches_hotkey(h) {
                out.push(p.0);
            }
            proof {
                assert(out@ =~= matching_actions_spec(self.hotkeys@.take(i as int + 1), *h));
            }
            i = i + 1;
        }
        proof {
            assert(self.hotkeys@.take(self.hotkeys@.len() as int) =~= self.hotkeys@);
        }
        out
    }

    /// Bind `action` to `hotkey` (or unbind it for `None`) and decide which
    /// shortcut must be unregistered with the operating system: the previous
    /// binding, exactly when no other action still uses a matching shortcut.
    /// The caller registers `hotkey` afterwards.
    pub fn set_binding(&mut self, action: HotkeyAction, hotkey: Option<Hotkey>) -> (unregister:
        Option<Hotkey>)
        requires
            old(self).wf(),
        ensures
            final(self).wf(),
            // The store now binds `action` to exactly the given hotkey.
            ({
                let new = final(self).hotkeys@;
                match hotkey {
                    Some(h) => exists|i: int|
                        0 <= i < new.len() && #[trigger] new[i] == (action, h),
                    None => forall|i: int| 0 <= i < new.len() ==> (#[trigger] new[i]).0 != action,
                }
            }),
            // Every other binding is untouched, in both directions.
            ({
                let new = final(self).hotkeys@;
                let before = old(self).hotkeys@;
                &&& forall|i: int|
                    0 <= i < new.len() && (#[trigger] new[i]).0 != action ==> before.contains(
                        new[i],
                    )
                &&& forall|i: int|
                    0 <= i < before.len() && (#[trigger] before[i]).0 != action ==> new.contains(
                        before[i],
                    )
            }),
            // The previous binding is unregistered exactly when no action
            // still uses a matching shortcut.
            ({
                let new = final(self).hotkeys@;
                let before = old(self).hotkeys@;
                match unregister {
                    Some(p) => (exists|i: int|
                        0 <= i < before.len() && #[trigger] before[i] == (action, p)) && !(exists|
                        i: int,
                    |
                        0 <= i < new.len() && hotkey_matches((#[trigger] new[i]).1, p)),
                    None => (forall|i: int|
                        0 <= i < before.len() ==> (#[trigger] before[i]).0 != action) || (exists|
                        i: int,
                        j: int,
                    |
                        0 <= i < before.len() && 0 <= j < new.len() && (#[trigger] before[i]).0
                            == action && hotkey_matches((#[trigger] new[j]).1, before[i].1)),
                }
            }),
    {
        let ghost prior = self.hotkeys@;
        let prev: Option<Hotkey> = match self.find_action(action) {
            Some(i) => {
                let pair = self.hotkeys.remove(i);
                proof {
                    assert forall|j: int| 0 <= j < self.hotkeys@.len() implies ((#[trigger] self
                        .hotkeys@[j]) == if j < i {
                        prior[j]
                    } else {
                        prior[j + 1]
                    }) by {
                        assert(self.hotkeys@ == prior.remove(i as int));
                    }
                    assert forall|j: int|
                        0 <= j < self.hotkeys@.len() implies (#[trigger] self.hotkeys@[j]).0
                        != action by {
                        if j < i {
                            assert(prior[j].0 != prior[i as int].0);
                        } else {
                            assert(prior[j + 1].0 != prior[i as int].0);
                        }
                    }
                    assert forall|j: int|
                        0 <= j < self.hotkeys@.len() implies prior.contains(
                        #[trigger] self.hotkeys@[j],
                    ) by {
                        if j < i {
                            assert(prior[j] == self.hotkeys@[j]);
                        } else {
                            assert(prior[j + 1] == self.hotkeys@[j]);
                        }
                    }
                    assert forall|j: int|
                        0 <= j < prior.len() && (#[trigger] prior[j]).0 != action implies self
                        .hotkeys@.contains(prior[j]) by {
                        if j < i {
                            assert(self.hotkeys@[j] == prior[j]);
                        } else {
                            assert(j != i);
                            assert(self.hotkeys@[j - 1] == prior[j]);
                        }
                    }
                }
                Some(pair.1)
            },
            None => None,
        };
        let ghost trimmed = self.hotkeys@;
        match hotkey {
            Some(h) => {
                self.hotkeys.push((action, h));
                proof {
                    assert(self.hotkeys@[self.hotkeys@.len() - 1] == (action, h));
                    assert forall|j: int|
                        0 <= j < trimmed.len() && (#[trigger] trimmed[j]).0 != action implies self
                        .hotkeys@.contains(trimmed[j]) by {
                        assert(self.hotkeys@[j] == trimmed[j]);
                    }
                }
            },
            None => {},
        }
        match prev {
            Some(p) => {
                if self.any_binding_matches(&p) {
                    None
                } else {
                    Some(p)
                }
            },
            None => None,
        }
    }
}

} // verus!
