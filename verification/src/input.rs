use vstd::prelude::*;

verus! {

/// The keys the game reads.
#[derive(Clone, Copy, PartialEq, Eq, Structural, Debug)]
pub enum Key {
    ArrowLeft,
    ArrowRight,
    ArrowUp,
    ArrowDown,
    KeyA,
    KeyD,
    KeyW,
    KeyS,
    Space,
    Escape,
    Other,
}

/// Whether `key` walks the hero on the field: the arrow keys and W, A, S,
/// D.
pub open spec fn spec_is_movement_key(key: Key) -> bool {
    match key {
        Key::ArrowLeft | Key::ArrowRight | Key::ArrowUp | Key::ArrowDown | Key::KeyA | Key::KeyD
        | Key::KeyW | Key::KeyS => true,
        _ => false,
    }
}

/// Whether `key` walks the hero on the field.
pub fn is_movement_key(key: Key) -> (r: bool)
    ensures
        r == spec_is_movement_key(key),
{
    match key {
        Key::ArrowLeft | Key::ArrowRight | Key::ArrowUp | Key::ArrowDown | Key::KeyA | Key::KeyD
        | Key::KeyW | Key::KeyS => true,
        _ => false,
    }
}

/// The keyboard in one frame: the keys held down, and those pressed in this
/// frame.
#[derive(Clone, Debug)]
pub struct KeyInput {
    pub pressed: Vec<Key>,
    pub just_pressed: Vec<Key>,
}

impl KeyInput {
    /// Whether `key` is held down.
    pub open spec fn is_pressed(&self, key: Key) -> bool {
        self.pressed@.contains(key)
    }

    /// Whether `key` went down in this frame.
    pub open spec fn is_just_pressed(&self, key: Key) -> bool {
        self.just_pressed@.contains(key)
    }

    /// Whether `key` is held down.
    pub fn pressed(&self, key: Key) -> (r: bool)
        ensures
            r == self.is_pressed(key),
    {
        contains_key(&self.pressed, key)
    }

    /// Whether `key` went down in this frame.
    pub fn just_pressed(&self, key: Key) -> (r: bool)
        ensures
            r == self.is_just_pressed(key),
    {
        contains_key(&self.just_pressed, key)
    }

    /// Forgets that `key` went down in this frame, so that no later reader
    /// in the same frame acts on it again; every other key stays as it
    /// was.
    pub fn clear_just_pressed(&mut self, key: Key)
        ensures
            final(self).pressed@ == old(self).pressed@,
            !final(self).is_just_pressed(key),
            forall|k: Key| k != key ==> (final(self).is_just_pressed(k) == old(self).is_just_pressed(k)),
    {
        let mut kept: Vec<Key> = Vec::new();
        let n = self.just_pressed.len();
        let mut i: usize = 0;
        while i < n
            invariant
                n == self.just_pressed.len(),
                i <= n,
                !kept@.contains(key),
                forall|k: Key|
                    k != key ==> (kept@.contains(k) == self.just_pressed@.subrange(0, i as int).contains(k)),
            decreases n - i,
        {
            let k = self.just_pressed[i];
            let ghost before = kept@;
            let ghost seen = self.just_pressed@.subrange(0, i as int);
            if k != key {
                kept.push(k);
            }
            proof {
                assert(self.just_pressed@.subrange(0, i + 1) == seen.push(k));
                assert forall|x: Key| x != key implies (kept@.contains(x) == seen.push(k).contains(x)) by {
                    if kept@.contains(x) {
                        let j = choose|j: int| 0 <= j < kept@.len() && kept@[j] == x;
                        if j < before.len() {
                            assert(before[j] == x);
                            assert(before.contains(x));
                            assert(seen.contains(x));
                            let m = choose|m: int| 0 <= m < seen.len() && seen[m] == x;
                            assert(seen.push(k)[m] == x);
                        } else {
                            assert(seen.push(k)[seen.len() as int] == x);
                        }
                    }
                    if seen.push(k).contains(x) {
                        let j = choose|j: int| 0 <= j < seen.push(k).len() && seen.push(k)[j] == x;
                        if j < seen.len() {
                            assert(seen[j] == x);
                            assert(before.contains(x));
                            let m = choose|m: int| 0 <= m < before.len() && before[m] == x;
                            assert(kept@[m] == x);
                        } else {
                            assert(kept@[kept@.len() - 1] == x);
                        }
                    }
                }
                assert(!kept@.contains(key)) by {
                    if kept@.contains(key) {
                        let j = choose|j: int| 0 <= j < kept@.len() && kept@[j] == key;
                        if j < before.len() {
                            assert(before[j] == key);
                        }
                    }
                }
            }
            i += 1;
        }
        proof {
            assert(self.just_pressed@.subrange(0, n as int) == self.just_pressed@);
        }
        self.just_pressed = kept;
    }
}

fn contains_key(keys: &Vec<Key>, key: Key) -> (r: bool)
    ensures
        r == keys@.contains(key),
{
    let n = keys.len();
    let mut i: usize = 0;
    while i < n
        invariant
            n == keys.len(),
            i <= n,
            forall|j: int| 0 <= j < i ==> keys@[j] != key,
        decreases n - i,
    {
        if keys[i] == key {
            return true;
        }
        i += 1;
    }
    false
}

/// Whether the hero is walking: some movement key is held down.
pub open spec fn spec_player_moving(input: &KeyInput) -> bool {
    exists|k: Key| spec_is_movement_key(k) && #[trigger] input.is_pressed(k)
}

/// Whether the hero is walking: some movement key is held down.
pub fn player_moving(input: &KeyInput) -> (r: bool)
    ensures
        r == spec_player_moving(input),
{
    let n = input.pressed.len();
    let mut i: usize = 0;
    while i < n
        invariant
            n == input.pressed.len(),
            i <= n,
            forall|j: int| 0 <= j < i ==> !spec_is_movement_key(#[trigger] input.pressed@[j]),
        decreases n - i,
    {
        if is_movement_key(input.pressed[i]) {
            proof {
                assert(input.is_pressed(input.pressed@[i as int]));
            }
            return true;
        }
        i += 1;
    }
    proof {
        assert forall|k: Key| spec_is_movement_key(k) implies !#[trigger] input.is_pressed(k) by {
            if input.pressed@.contains(k) {
                let j = choose|j: int| 0 <= j < n && input.pressed@[j] == k;
                assert(!spec_is_movement_key(input.pressed@[j]));
            }
        }
    }
    false
}

} // verus!
