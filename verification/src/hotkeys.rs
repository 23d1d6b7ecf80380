//! The table of global hotkey bindings.
//!
//! Each binding pairs a modifier set and a trigger key with the action the
//! dispatch loop runs when the combination fires. The table is built once at
//! startup and is immutable afterwards; no two bindings may share the same
//! (modifiers, key) pair, and registering a duplicate pair is an error. The
//! OS-level hook that delivers the key events lives outside the library.

use vstd::prelude::*;

use crate::input::{
    KeyCode, VK_A, VK_CONTROL, VK_D, VK_DOWN, VK_E, VK_END, VK_F23, VK_F5, VK_HOME, VK_Q, VK_R,
    VK_S, VK_SHIFT, VK_T, VK_TAB, VK_UP, VK_W, VK_X,
};

verus! {

/// Modifier flag: an Alt key is held.
pub const MOD_ALT: u32 = 1;

/// Modifier flag: a Control key is held.
pub const MOD_CONTROL: u32 = 2;

/// Modifier flag: a Shift key is held.
pub const MOD_SHIFT: u32 = 4;

/// Modifier flag: a Windows (logo) key is held.
pub const MOD_WIN: u32 = 8;

/// The action a binding runs when its combination fires.
#[derive(PartialEq, Eq, Debug)]
pub enum HotkeyAction {
    /// Inject the key combination into the focused application.
    SendCombo(Vec<KeyCode>),
    /// Inject a wheel scroll of the given number of notches.
    Scroll(i32),
    /// Flip the overlay visibility flag and wake the UI thread.
    ToggleOverlay,
}

/// One registered binding: a modifier set (as a bitmask of the `MOD_`
/// flags), a trigger key, and the bound action.
pub struct Binding {
    pub modifiers: u32,
    pub key: KeyCode,
    pub action: HotkeyAction,
}

/// The table's failure on a binding whose (modifiers, key) pair is already
/// taken.
#[derive(Clone, Copy, PartialEq, Eq, Structural, Debug)]
pub enum RegistrationError {
    /// The exact (modifiers, key) pair is already registered.
    DuplicateBinding,
}

/// The process-wide mapping from key combination to action.
pub struct HotkeyTable {
    bindings: Vec<Binding>,
}

/// Whether the sequence of (modifiers, key) pairs holds the given pair.
pub open spec fn pair_registered(pairs: Seq<(u32, KeyCode)>, modifiers: u32, key: KeyCode) -> bool {
    exists|i: int| 0 <= i < pairs.len() && pairs[i] == (modifiers, key)
}

impl HotkeyTable {
    /// The registered bindings, in registration order.
    pub closed spec fn bindings_seq(self) -> Seq<Binding> {
        self.bindings@
    }

    /// The registered (modifiers, key) pairs, in registration order.
    pub open spec fn pairs(self) -> Seq<(u32, KeyCode)> {
        self.bindings_seq().map_values(|b: Binding| (b.modifiers, b.key))
    }

    /// Whether the combination is registered.
    pub open spec fn registered(self, modifiers: u32, key: KeyCode) -> bool {
        pair_registered(self.pairs(), modifiers, key)
    }

    /// No two bindings share a (modifiers, key) pair.
    pub open spec fn wf(self) -> bool {
        forall|i: int, j: int|
            0 <= i < j < self.pairs().len() ==> self.pairs()[i] != self.pairs()[j]
    }

    /// An empty table.
    pub fn new() -> (table: HotkeyTable)
        ensures
            table.pairs() =~= Seq::<(u32, KeyCode)>::empty(),
            table.wf(),
    {
        HotkeyTable { bindings: Vec::new() }
    }

    /// How many bindings are registered.
    pub fn len(&self) -> (n: usize)
        ensures
            n == self.pairs().len(),
    {
        self.bindings.len()
    }

    /// Register a binding for the combination of `modifiers` and `key`.
    ///
    /// Succeeds exactly when the (modifiers, key) pair is not yet taken, and
    /// then appends the binding; a duplicate pair is reported as a conflict
    /// and leaves the table unchanged.
    pub fn register(&mut self, modifiers: u32, key: KeyCode, action: HotkeyAction) -> (r: Result<
        (),
        RegistrationError,
    >)
        requires
            old(self).wf(),
        ensures
            final(self).wf(),
            r is Ok <==> !old(self).registered(modifiers, key),
            r is Ok ==> final(self).pairs() =~= old(self).pairs().push((modifiers, key)),
            r is Ok ==> final(self).bindings_seq().len() == old(self).bindings_seq().len() + 1
                && final(self).bindings_seq().last().modifiers == modifiers
                && final(self).bindings_seq().last().key == key
                && final(self).bindings_seq().last().action == action
                && final(self).bindings_seq().drop_last() =~= old(self).bindings_seq(),
            r is Err ==> *final(self) == *old(self) && r == Err::<(), RegistrationError>(
                RegistrationError::DuplicateBinding,
            ),
    {
        let mut i: usize = 0;
        let n = self.bindings.len();
        while i < n
            invariant
                i <= n,
                *self == *old(self),
                old(self).wf(),
                n == old(self).pairs().len(),
                forall|j: int| 0 <= j < i ==> old(self).pairs()[j] != (modifiers, key),
            decreases n - i,
        {
            if self.bindings[i].modifiers == modifiers && self.bindings[i].key == key {
                assert(old(self).pairs()[i as int] == (modifiers, key));
                return Err(RegistrationError::DuplicateBinding);
            }
            i = i + 1;
        }
        self.bindings.push(Binding { modifiers, key, action });
        proof {
            let oldp = old(self).pairs();
            let newp = self.pairs();
            assert(newp =~= oldp.push((modifiers, key)));
            assert forall|a: int, c: int| 0 <= a < c < newp.len() implies newp[a] != newp[c] by {
                if c == newp.len() - 1 {
                    assert(oldp[a] != (modifiers, key));
                }
            }
            assert(self.bindings_seq().drop_last() =~= old(self).bindings_seq());
        }
        Ok(())
    }

    /// Find the binding registered for the combination, if any.
    ///
    /// Returns the index of the binding whose pair matches; in a
    /// well-formed table that binding is unique.
    pub fn find(&self, modifiers: u32, key: KeyCode) -> (r: Option<usize>)
        ensures
            r is Some <==> self.registered(modifiers, key),
            r matches Some(i) ==> 0 <= i < self.pairs().len() && self.pairs()[i as int] == (
                modifiers,
                key,
            ),
    {
        let mut i: usize = 0;
        let n = self.bindings.len();
        while i < n
            invariant
                i <= n,
                n == self.pairs().len(),
                forall|j: int| 0 <= j < i ==> self.pairs()[j] != (modifiers, key),
            decreases n - i,
        {
            if self.bindings[i].modifiers == modifiers && self.bindings[i].key == key {
                assert(self.pairs()[i as int] == (modifiers, key));
                return Some(i);
            }
            i = i + 1;
        }
        None
    }

    /// The modifier set of the binding at the given index.
    pub fn modifiers_at(&self, i: usize) -> (modifiers: u32)
        requires
            i < self.bindings_seq().len(),
        ensures
            modifiers == self.bindings_seq()[i as int].modifiers,
    {
        self.bindings[i].modifiers
    }

    /// The trigger key of the binding at the given index.
    pub fn key_at(&self, i: usize) -> (key: KeyCode)
        requires
            i < self.bindings_seq().len(),
        ensures
            key == self.bindings_seq()[i as int].key,
    {
        self.bindings[i].key
    }

    /// The action of the binding at the given index.
    pub fn action_at(&self, i: usize) -> (action: &HotkeyAction)
        requires
            i < self.bindings_seq().len(),
        ensures
            *action == self.bindings_seq()[i as int].action,
    {
        &self.bindings[i].action
    }
}

/// Whether the action injects exactly the given key combination.
pub open spec fn is_send_combo(action: HotkeyAction, keys: Seq<KeyCode>) -> bool {
    action matches HotkeyAction::SendCombo(v) && v@ == keys
}

/// A one-key combination.
fn combo1(a: KeyCode) -> (v: Vec<KeyCode>)
    ensures
        v@ =~= seq![a],
{
    let mut v: Vec<KeyCode> = Vec::new();
    v.push(a);
    v
}

/// A two-key combination.
fn combo2(a: KeyCode, b: KeyCode) -> (v: Vec<KeyCode>)
    ensures
        v@ =~= seq![a, b],
{
    let mut v: Vec<KeyCode> = Vec::new();
    v.push(a);
    v.push(b);
    v
}

/// A three-key combination.
fn combo3(a: KeyCode, b: KeyCode, c: KeyCode) -> (v: Vec<KeyCode>)
    ensures
        v@ =~= seq![a, b, c],
{
    let mut v: Vec<KeyCode> = Vec::new();
    v.push(a);
    v.push(b);
    v.push(c);
    v
}

/// A four-key combination.
fn combo4(a: KeyCode, b: KeyCode, c: KeyCode, d: KeyCode) -> (v: Vec<KeyCode>)
    ensures
        v@ =~= seq![a, b, c, d],
{
    let mut v: Vec<KeyCode> = Vec::new();
    v.push(a);
    v.push(b);
    v.push(c);
    v.push(d);
    v
}

/// The (modifiers, key) pairs of the compiled-in bindings, in registration
/// order: nine unmodified navigation triggers, then the visibility toggle
/// on Win+Shift+F23.
pub open spec fn default_pairs() -> Seq<(u32, KeyCode)> {
    seq![
        (0u32, VK_Q),
        (0u32, VK_E),
        (0u32, VK_X),
        (0u32, VK_T),
        (0u32, VK_W),
        (0u32, VK_S),
        (0u32, VK_A),
        (0u32, VK_D),
        (0u32, VK_R),
        ((MOD_WIN + MOD_SHIFT) as u32, VK_F23),
    ]
}

/// Build the compiled-in binding table: browser-style navigation
/// combinations on bare letter keys, and the overlay toggle on
/// Win+Shift+F23. All ten (modifiers, key) pairs are distinct, so every
/// registration succeeds.
pub fn default_bindings() -> (table: HotkeyTable)
    ensures
        table.wf(),
        table.pairs() =~= default_pairs(),
        is_send_combo(table.bindings_seq()[0].action, seq![VK_CONTROL, VK_HOME]),
        is_send_combo(table.bindings_seq()[1].action, seq![VK_CONTROL, VK_END]),
        is_send_combo(table.bindings_seq()[2].action, seq![VK_CONTROL, VK_W]),
        is_send_combo(table.bindings_seq()[3].action, seq![VK_CONTROL, VK_T]),
        is_send_combo(table.bindings_seq()[4].action, seq![VK_UP]),
        is_send_combo(table.bindings_seq()[5].action, seq![VK_DOWN]),
        is_send_combo(table.bindings_seq()[6].action, seq![VK_CONTROL, VK_SHIFT, VK_TAB, VK_A]),
        is_send_combo(table.bindings_seq()[7].action, seq![VK_CONTROL, VK_TAB, VK_D]),
        is_send_combo(table.bindings_seq()[8].action, seq![VK_F5]),
        table.bindings_seq()[9].action is ToggleOverlay,
{
    let mut table = HotkeyTable::new();
    // Scroll to the top of the page.
    let _ = table.register(0, VK_Q, HotkeyAction::SendCombo(combo2(VK_CONTROL, VK_HOME)));
    assert(table.pairs() =~= default_pairs().subrange(0, 1));
    // Scroll to the bottom of the page.
    let _ = table.register(0, VK_E, HotkeyAction::SendCombo(combo2(VK_CONTROL, VK_END)));
    assert(table.pairs() =~= default_pairs().subrange(0, 2));
    // Close the current tab.
    let _ = table.register(0, VK_X, HotkeyAction::SendCombo(combo2(VK_CONTROL, VK_W)));
    assert(table.pairs() =~= default_pairs().subrange(0, 3));
    // Open a new tab.
    let _ = table.register(0, VK_T, HotkeyAction::SendCombo(combo2(VK_CONTROL, VK_T)));
    assert(table.pairs() =~= default_pairs().subrange(0, 4));
    // Scroll up.
    let _ = table.register(0, VK_W, HotkeyAction::SendCombo(combo1(VK_UP)));
    assert(table.pairs() =~= default_pairs().subrange(0, 5));
    // Scroll down.
    let _ = table.register(0, VK_S, HotkeyAction::SendCombo(combo1(VK_DOWN)));
    assert(table.pairs() =~= default_pairs().subrange(0, 6));
    // Switch to the tab on the left.
    let _ = table.register(
        0,
        VK_A,
        HotkeyAction::SendCombo(combo4(VK_CONTROL, VK_SHIFT, VK_TAB, VK_A)),
    );
    assert(table.pairs() =~= default_pairs().subrange(0, 7));
    // Switch to the tab on the right.
    let _ = table.register(0, VK_D, HotkeyAction::SendCombo(combo3(VK_CONTROL, VK_TAB, VK_D)));
    assert(table.pairs() =~= default_pairs().subrange(0, 8));
    // Refresh the page.
    let _ = table.register(0, VK_R, HotkeyAction::SendCombo(combo1(VK_F5)));
    assert(table.pairs() =~= default_pairs().subrange(0, 9));
    // Toggle the overlay.
    let _ = table.register(MOD_WIN + MOD_SHIFT, VK_F23, HotkeyAction::ToggleOverlay);
    assert(table.pairs() =~= default_pairs());
    table
}

/// A pair just registered is found registered, so by the registration
/// contract a second registration of the identical pair must report a
/// conflict; and a pair that differs from every registered pair is not
/// registered, so registering it must succeed.
pub proof fn lemma_duplicate_conflicts_distinct_succeeds(
    pairs: Seq<(u32, KeyCode)>,
    modifiers: u32,
    key: KeyCode,
)
    ensures
        pair_registered(pairs.push((modifiers, key)), modifiers, key),
        (forall|i: int| 0 <= i < pairs.len() ==> pairs[i] != (modifiers, key))
            ==> !pair_registered(pairs, modifiers, key),
{
    assert(pairs.push((modifiers, key))[pairs.len() as int] == (modifiers, key));
}

} // verus!
