//! Named UI actions, their key bindings, and the key-to-action decision.

use vstd::prelude::*;

use crate::key::UiKey;

verus! {

/// An action the operator can trigger from the keyboard.
#[derive(Debug, Clone, Copy, Eq, PartialEq, Structural)]
pub enum UiAction {
    /// Leave the program.
    Quit,
}

/// What the UI loop should do after an input was handled.
#[derive(Debug, PartialEq, Eq, Structural)]
pub enum AppReturn {
    /// Stop the UI loop and shut the process down.
    Exit,
    /// Keep running.
    Continue,
}

/// Every action there is, in the order `UiAction::iterator` hands them out.
pub open spec fn all_actions() -> Seq<UiAction> {
    seq![UiAction::Quit]
}

/// The key bindings of an action.
pub open spec fn action_keys(a: UiAction) -> Seq<UiKey> {
    match a {
        UiAction::Quit => seq![UiKey::Ctrl('c'), UiKey::Char('q')],
    }
}

impl UiAction {
    /// All actions, in a fixed order.
    pub fn iterator() -> (r: Vec<UiAction>)
        ensures
            r@ == all_actions(),
    {
        let mut v: Vec<UiAction> = Vec::new();
        v.push(UiAction::Quit);
        proof {
            assert(v@ =~= all_actions());
        }
        v
    }

    /// The keys bound to this action.
    pub fn keys(&self) -> (r: Vec<UiKey>)
        ensures
            r@ == action_keys(*self),
    {
        match self {
            UiAction::Quit => {
                let mut v: Vec<UiKey> = Vec::new();
                v.push(UiKey::Ctrl('c'));
                v.push(UiKey::Char('q'));
                proof {
                    assert(v@ =~= action_keys(UiAction::Quit));
                }
                v
            },
        }
    }

    /// A short printable name for the action.
    pub fn label(&self) -> (r: String)
        ensures
            r@ == "Action[Quit]"@,
    {
        match self {
            UiAction::Quit => "Action[Quit]".to_string(),
        }
    }
}

/// Two actions quarrel when some key is bound to both.
pub open spec fn share_a_key(a: UiAction, b: UiAction) -> bool {
    exists|k: UiKey| action_keys(a).contains(k) && action_keys(b).contains(k)
}

/// A set of enabled actions is sound when no key is claimed by two entries.
pub open spec fn no_conflicts(s: Seq<UiAction>) -> bool {
    forall|i: int, j: int| 0 <= i < j < s.len() ==> !share_a_key(s[i], s[j])
}

/// The actions enabled in this UI, each key claimed by at most one of them.
pub struct UiActions(Vec<UiAction>);

impl View for UiActions {
    type V = Seq<UiAction>;

    closed spec fn view(&self) -> Seq<UiAction> {
        self.0@
    }
}

/// The first action of the fixed catalog that is enabled in `s` and has `key`
/// among its bindings, if any.
pub open spec fn bound_action(s: Seq<UiAction>, key: UiKey) -> Option<UiAction> {
    if s.contains(UiAction::Quit) && action_keys(UiAction::Quit).contains(key) {
        Some(UiAction::Quit)
    } else {
        None
    }
}

/// Whether `keys` holds `key`.
fn keys_contain(keys: &Vec<UiKey>, key: UiKey) -> (r: bool)
    ensures
        r == keys@.contains(key),
{
    let mut i: usize = 0;
    while i < keys.len()
        invariant
            0 <= i <= keys@.len(),
            forall|m: int| 0 <= m < i ==> keys@[m] != key,
        decreases keys@.len() - i,
    {
        if keys[i] == key {
            return true;
        }
        i = i + 1;
    }
    false
}

/// Whether `actions` holds `a`.
fn actions_contain(actions: &Vec<UiAction>, a: UiAction) -> (r: bool)
    ensures
        r == actions@.contains(a),
{
    let mut i: usize = 0;
    while i < actions.len()
        invariant
            0 <= i <= actions@.len(),
            forall|m: int| 0 <= m < i ==> actions@[m] != a,
        decreases actions@.len() - i,
    {
        if actions[i] == a {
            return true;
        }
        i = i + 1;
    }
    false
}

/// Whether the bindings of `a` and `b` have a key in common.
fn share_key(a: UiAction, b: UiAction) -> (r: bool)
    ensures
        r == share_a_key(a, b),
{
    let ka = a.keys();
    let kb = b.keys();
    let mut i: usize = 0;
    while i < ka.len()
        invariant
            0 <= i <= ka@.len(),
            ka@ == action_keys(a),
            kb@ == action_keys(b),
            forall|m: int| 0 <= m < i ==> !action_keys(b).contains(ka@[m]),
        decreases ka@.len() - i,
    {
        if keys_contain(&kb, ka[i]) {
            return true;
        }
        i = i + 1;
    }
    false
}

impl UiActions {
    /// Builds the enabled-action set. A key bound to two enabled actions
    /// would make the dispatch ambiguous, so such sets are refused upfront;
    /// callers test with [`UiActions::has_conflict`] first.
    pub fn new(actions: Vec<UiAction>) -> (r: UiActions)
        requires
            no_conflicts(actions@),
        ensures
            r@ == actions@,
    {
        UiActions(actions)
    }

    /// Whether some key is claimed by two entries of `actions`.
    pub fn has_conflict(actions: &Vec<UiAction>) -> (r: bool)
        ensures
            r == !no_conflicts(actions@),
    {
        let mut i: usize = 0;
        while i < actions.len()
            invariant
                0 <= i <= actions@.len(),
                forall|m: int, n: int|
                    0 <= m < n < actions@.len() && m < i ==> !share_a_key(
                        actions@[m],
                        actions@[n],
                    ),
            decreases actions@.len() - i,
        {
            let mut j: usize = i + 1;
            while j < actions.len()
                invariant
                    0 <= i < j <= actions@.len(),
                    forall|m: int, n: int|
                        0 <= m < n < actions@.len() && m < i ==> !share_a_key(
                            actions@[m],
                            actions@[n],
                        ),
                    forall|n: int| i < n < j ==> !share_a_key(actions@[i as int], actions@[n]),
                decreases actions@.len() - j,
            {
                if share_key(actions[i], actions[j]) {
                    return true;
                }
                j = j + 1;
            }
            i = i + 1;
        }
        false
    }

    /// The first catalog action that is enabled here and has `key` among its
    /// bindings.
    pub fn find(&self, key: UiKey) -> (r: Option<UiAction>)
        ensures
            r == bound_action(self@, key),
    {
        let catalog = UiAction::iterator();
        let mut i: usize = 0;
        while i < catalog.len()
            invariant
                0 <= i <= catalog@.len(),
                catalog@ == all_actions(),
                forall|m: int|
                    0 <= m < i ==> !(self@.contains(catalog@[m]) && action_keys(
                        catalog@[m],
                    ).contains(key)),
            decreases catalog@.len() - i,
        {
            let a = catalog[i];
            if actions_contain(&self.0, a) && keys_contain(&a.keys(), key) {
                return Some(a);
            }
            i = i + 1;
        }
        proof {
            assert(all_actions()[0] == UiAction::Quit);
        }
        None
    }

    /// The enabled actions.
    pub fn actions(&self) -> (r: &Vec<UiAction>)
        ensures
            r@ == self@,
    {
        &self.0
    }
}

/// Maps a key press to what the UI loop should do: `Exit` exactly when the
/// key is bound to the quit action among the enabled ones.
pub fn do_action(actions: &UiActions, key: UiKey) -> (r: AppReturn)
    ensures
        r == (if bound_action(actions@, key) is Some {
            AppReturn::Exit
        } else {
            AppReturn::Continue
        }),
{
    match actions.find(key) {
        Some(action) => match action {
            UiAction::Quit => AppReturn::Exit,
        },
        None => AppReturn::Continue,
    }
}

} // verus!
