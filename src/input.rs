//! The 16-key keypad state handed to the machine once per frame, and the
//! most recent key release, which the machine is told of once.
use vstd::prelude::*;

verus! {

/// Number of keys on the keypad.
pub const KEY_COUNT: usize = 16;

/// Pressed state of each key, plus the last release not yet delivered.
#[derive(Clone, Copy, Debug, PartialEq, Eq)]
pub struct InputLatch {
    keys: [bool; 16],
    released: Option<u8>,
}

/// The latch as a pair: pressed state indexed by key, and the pending release.
pub type LatchModel = (Seq<bool>, Option<u8>);

impl View for InputLatch {
    type V = LatchModel;

    closed spec fn view(&self) -> LatchModel {
        (self.keys@, self.released)
    }
}

/// The latch after key `k` goes down.
pub open spec fn pressed_model(m: LatchModel, k: u8) -> LatchModel {
    (m.0.update(k as int, true), m.1)
}

/// The latch after key `k` goes up: the key reads as up and its release is
/// pending, superseding any earlier one not yet delivered.
pub open spec fn released_model(m: LatchModel, k: u8) -> LatchModel {
    (m.0.update(k as int, false), Some(k))
}

/// The latch after its pending release was handed out.
pub open spec fn taken_model(m: LatchModel) -> LatchModel {
    (m.0, None)
}

impl InputLatch {
    /// All keys up, nothing released.
    pub fn new() -> (l: InputLatch)
        ensures
            l@ == (Seq::new(16, |k: int| false), None::<u8>),
    {
        let l = InputLatch { keys: [false; 16], released: None };
        assert(l@.0 =~= Seq::new(16, |k: int| false));
        l
    }

    /// Replaces the pressed state of every key with a snapshot from the host.
    /// A pending release is kept.
    pub fn set_all(&mut self, keys: [bool; 16])
        ensures
            final(self)@ == (keys@, old(self)@.1),
    {
        self.keys = keys;
    }

    /// Marks key `k` pressed. Returns false, changing nothing, when `k` is
    /// not a key.
    pub fn press(&mut self, k: u8) -> (ok: bool)
        ensures
            ok == (k < 16),
            final(self)@ == if ok { pressed_model(old(self)@, k) } else { old(self)@ },
    {
        if k >= 16 {
            return false;
        }
        self.keys[k as usize] = true;
        true
    }

    /// Marks key `k` released and records the release for delivery to the
    /// machine. Returns false, changing nothing, when `k` is not a key.
    pub fn release(&mut self, k: u8) -> (ok: bool)
        ensures
            ok == (k < 16),
            final(self)@ == if ok { released_model(old(self)@, k) } else { old(self)@ },
    {
        if k >= 16 {
            return false;
        }
        self.keys[k as usize] = false;
        self.released = Some(k);
        true
    }

    /// The pressed state of every key, for the machine.
    pub fn snapshot(&self) -> (keys: [bool; 16])
        ensures
            keys@ == self@.0,
    {
        self.keys
    }

    /// Hands out the pending release, if any, and clears it, so that each
    /// release is delivered once.
    pub fn take_release(&mut self) -> (r: Option<u8>)
        ensures
            r == old(self)@.1,
            final(self)@ == taken_model(old(self)@),
    {
        let r = self.released;
        self.released = None;
        r
    }
}

/// After key `k` is released the key reads as up, and the release is
/// delivered exactly once: the first take hands out `k`, the next nothing.
pub proof fn lemma_release_delivered_once(m: LatchModel, k: u8)
    requires
        m.0.len() == KEY_COUNT,
        k < 16,
    ensures
        !released_model(m, k).0[k as int],
        released_model(m, k).1 == Some(k),
        taken_model(released_model(m, k)).1 == None::<u8>,
        taken_model(released_model(m, k)).0 == released_model(m, k).0,
{
}

} // verus!
