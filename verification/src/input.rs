//! Synthetic-input sequencing.
//!
//! A key combination is injected as key-down events in the given order
//! followed by key-up events in reverse order, so that modifiers are held
//! while the trigger key goes down and up. The functions here compute the
//! event sequence and the wheel amount; submitting them to the OS input
//! queue is the caller's (unverified) job.

use vstd::prelude::*;

verus! {

/// A virtual-key code as the OS input queue understands it.
pub type KeyCode = u16;

/// One synthetic keyboard event: a key together with its direction.
#[derive(Clone, Copy, PartialEq, Eq, Structural, Debug)]
pub struct KeyEvent {
    pub key: KeyCode,
    /// True for a key-down (press) event, false for a key-up (release).
    pub down: bool,
}

/// The scroll amount of one wheel notch, as the OS input queue counts it.
pub const WHEEL_DELTA: i32 = 120;

/// Virtual-key code of the Tab key.
pub const VK_TAB: KeyCode = 0x09;

/// Virtual-key code of the Shift key.
pub const VK_SHIFT: KeyCode = 0x10;

/// Virtual-key code of the Control key.
pub const VK_CONTROL: KeyCode = 0x11;

/// Virtual-key code of the End key.
pub const VK_END: KeyCode = 0x23;

/// Virtual-key code of the Home key.
pub const VK_HOME: KeyCode = 0x24;

/// Virtual-key code of the Up arrow key.
pub const VK_UP: KeyCode = 0x26;

/// Virtual-key code of the Down arrow key.
pub const VK_DOWN: KeyCode = 0x28;

/// Virtual-key code of the letter A.
pub const VK_A: KeyCode = 0x41;

/// Virtual-key code of the letter D.
pub const VK_D: KeyCode = 0x44;

/// Virtual-key code of the letter E.
pub const VK_E: KeyCode = 0x45;

/// Virtual-key code of the letter Q.
pub const VK_Q: KeyCode = 0x51;

/// Virtual-key code of the letter R.
pub const VK_R: KeyCode = 0x52;

/// Virtual-key code of the letter S.
pub const VK_S: KeyCode = 0x53;

/// Virtual-key code of the letter T.
pub const VK_T: KeyCode = 0x54;

/// Virtual-key code of the letter W.
pub const VK_W: KeyCode = 0x57;

/// Virtual-key code of the letter X.
pub const VK_X: KeyCode = 0x58;

/// Virtual-key code of the F5 key.
pub const VK_F5: KeyCode = 0x74;

/// Virtual-key code of the F23 key.
pub const VK_F23: KeyCode = 0x86;

/// The event sequence that injects the combination `keys`: a down event for
/// each key in order, then an up event for each key in reverse order.
pub open spec fn combo_sequence(keys: Seq<KeyCode>) -> Seq<KeyEvent> {
    Seq::new(keys.len(), |i: int| KeyEvent { key: keys[i], down: true })
        + Seq::new(keys.len(), |i: int| KeyEvent { key: keys[keys.len() - 1 - i], down: false })
}

/// Build the ordered key-down / key-up sequence for a combination.
///
/// Down events come first, in the order given; up events follow, in reverse
/// order, so the first key is held for the whole combination.
pub fn key_event_sequence(keys: &Vec<KeyCode>) -> (events: Vec<KeyEvent>)
    ensures
        events@ == combo_sequence(keys@),
        events@.len() == 2 * keys@.len(),
{
    let n = keys.len();
    let mut events: Vec<KeyEvent> = Vec::new();
    let mut i: usize = 0;
    while i < n
        invariant
            i <= n,
            n == keys@.len(),
            events@ =~= combo_sequence(keys@).subrange(0, i as int),
        decreases n - i,
    {
        events.push(KeyEvent { key: keys[i], down: true });
        i = i + 1;
    }
    let mut j: usize = 0;
    while j < n
        invariant
            j <= n,
            n == keys@.len(),
            events@ =~= combo_sequence(keys@).subrange(0, n + j),
        decreases n - j,
    {
        events.push(KeyEvent { key: keys[n - 1 - j], down: false });
        j = j + 1;
    }
    proof {
        assert(events@ =~= combo_sequence(keys@));
    }
    events
}

/// The wheel amount submitted for a scroll of `delta` notches.
pub open spec fn wheel_amount_spec(delta: int) -> int {
    delta * WHEEL_DELTA
}

/// Scale a scroll delta to the OS wheel unit (one notch).
pub fn wheel_amount(delta: i32) -> (amount: i32)
    requires
        i32::MIN <= delta * WHEEL_DELTA <= i32::MAX,
    ensures
        amount == wheel_amount_spec(delta as int),
{
    delta * WHEEL_DELTA
}

} // verus!
