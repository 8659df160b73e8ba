use vstd::prelude::*;

verus! {

/// Number of keys on the hexadecimal keypad.
pub const NUMBER_OF_KEYS: usize = 16;

/// The 16-key input device: one boolean slot per key.
///
/// The host sets a slot on key-down and clears it on key-up. The
/// processor reads a slot through `key_state`, which also clears it:
/// a read-and-clear, single-trigger contract, so two consecutive
/// processor reads never both observe a press.
pub struct Keyboard {
    key_states: Vec<bool>,
}

impl View for Keyboard {
    type V = Seq<bool>;

    closed spec fn view(&self) -> Seq<bool> {
        self.key_states@
    }
}

impl Keyboard {
    /// There is exactly one slot per key.
    pub open spec fn wf(self) -> bool {
        self@.len() == NUMBER_OF_KEYS
    }

    /// A fresh keyboard with every key released.
    pub fn new() -> (r: Self)
        ensures
            r.wf(),
            r@ == Seq::new(NUMBER_OF_KEYS as nat, |i: int| false),
    {
        let mut key_states: Vec<bool> = Vec::new();
        let mut i: usize = 0;
        while i < NUMBER_OF_KEYS
            invariant
                i <= NUMBER_OF_KEYS,
                key_states@.len() == i,
                forall|k: int| 0 <= k < i ==> !key_states@[k],
            decreases NUMBER_OF_KEYS - i,
        {
            key_states.push(false);
            i += 1;
        }
        proof {
            assert(key_states@ =~= Seq::new(NUMBER_OF_KEYS as nat, |i: int| false));
        }
        Keyboard { key_states }
    }

    /// Read a key's state and clear it, so that a press is observed at
    /// most once per host key-down event.
    pub fn key_state(&mut self, key: u8) -> (r: bool)
        requires
            old(self).wf(),
            key < NUMBER_OF_KEYS,
        ensures
            final(self).wf(),
            r == old(self)@[key as int],
            final(self)@ == old(self)@.update(key as int, false),
    {
        let state = self.key_states[key as usize];
        self.key_states[key as usize] = false;
        state
    }

    /// Set a key as pressed.
    pub fn key_pressed(&mut self, key: u8)
        requires
            old(self).wf(),
            key < NUMBER_OF_KEYS,
        ensures
            final(self).wf(),
            final(self)@ == old(self)@.update(key as int, true),
    {
        self.key_states[key as usize] = true;
    }

    /// Set a key as released.
    pub fn key_released(&mut self, key: u8)
        requires
            old(self).wf(),
            key < NUMBER_OF_KEYS,
        ensures
            final(self).wf(),
            final(self)@ == old(self)@.update(key as int, false),
    {
        self.key_states[key as usize] = false;
    }

    /// Release every key.
    pub fn reset(&mut self)
        requires
            old(self).wf(),
        ensures
            final(self).wf(),
            final(self)@ == Seq::new(NUMBER_OF_KEYS as nat, |i: int| false),
    {
        let mut i: usize = 0;
        while i < NUMBER_OF_KEYS
            invariant
                i <= NUMBER_OF_KEYS,
                self@.len() == NUMBER_OF_KEYS,
                forall|k: int| 0 <= k < i ==> !self@[k],
            decreases NUMBER_OF_KEYS - i,
        {
            self.key_states[i] = false;
            i += 1;
        }
        proof {
            assert(self@ =~= Seq::new(NUMBER_OF_KEYS as nat, |i: int| false));
        }
    }
}

/// The read-and-clear law: once a key's state has been read, a second
/// read of the same slot observes "not pressed" unless the host pressed
/// the key again in between.
pub proof fn lemma_read_and_clear(keys: Seq<bool>, key: int)
    requires
        0 <= key < keys.len(),
    ensures
        !keys.update(key, false)[key],
{
}

} // verus!
