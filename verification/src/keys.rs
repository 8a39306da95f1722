//! Keys, their bindings to camera commands, and the set of keys held down.

use crate::command::CameraCmd;
use vstd::prelude::*;

verus! {

/// Identity of a physical key. The keys the control surface shows have names
/// of their own; any other key is told apart by the host's code for it.
#[derive(Clone, Copy, Debug, PartialEq, Eq, Structural)]
pub enum Key {
    W,
    A,
    S,
    D,
    Escape,
    Other(u32),
}

/// Direction of a key transition.
#[derive(Clone, Copy, Debug, PartialEq, Eq, Structural)]
pub enum Transition {
    Press,
    Release,
}

/// The command a key starts when it goes down and the one that stops it
/// when the key comes up again.
#[derive(Clone, Copy, Debug, PartialEq, Eq, Structural)]
pub struct KeyBinding {
    pub key: Key,
    pub press: CameraCmd,
    pub release: CameraCmd,
}

/// The binding a table gives `key`: its first entry for that key, if any.
pub open spec fn binding_of(table: Seq<KeyBinding>, key: Key) -> Option<KeyBinding>
    decreases table.len(),
{
    if table.len() == 0 {
        None
    } else if table[0].key == key {
        Some(table[0])
    } else {
        binding_of(table.drop_first(), key)
    }
}

/// The built-in table: `W` tilts up, `S` tilts down, each until released.
pub open spec fn standard_table() -> Seq<KeyBinding> {
    seq![
        KeyBinding { key: Key::W, press: CameraCmd::PtzUp, release: CameraCmd::PtzUpStop },
        KeyBinding { key: Key::S, press: CameraCmd::PtzDown, release: CameraCmd::PtzDownStop },
    ]
}

/// What the built-in table binds: `W` and `S`, and no other key.
pub proof fn lemma_standard_table()
    ensures
        binding_of(standard_table(), Key::W) == Some(
            KeyBinding { key: Key::W, press: CameraCmd::PtzUp, release: CameraCmd::PtzUpStop },
        ),
        binding_of(standard_table(), Key::S) == Some(
            KeyBinding { key: Key::S, press: CameraCmd::PtzDown, release: CameraCmd::PtzDownStop },
        ),
        forall|key: Key|
            key != Key::W && key != Key::S ==> #[trigger] binding_of(standard_table(), key)
                is None,
{
    let t = standard_table();
    assert(t.drop_first().len() == 1);
    assert(t.drop_first()[0] == t[1]);
    assert(t.drop_first().drop_first().len() == 0);
    assert forall|key: Key| true implies #[trigger] binding_of(t, key) == (if key == Key::W {
        Some(t[0])
    } else if key == Key::S {
        Some(t[1])
    } else {
        None
    }) by {
        reveal_with_fuel(binding_of, 3);
    }
}

/// An immutable table of key bindings.
#[derive(Debug)]
pub struct KeyBindings {
    entries: Vec<KeyBinding>,
}

impl View for KeyBindings {
    type V = Seq<KeyBinding>;

    closed spec fn view(&self) -> Seq<KeyBinding> {
        self.entries@
    }
}

impl KeyBindings {
    /// A table with the given entries; where two entries name one key, the
    /// earlier one counts.
    pub fn from_entries(entries: Vec<KeyBinding>) -> (table: KeyBindings)
        ensures
            table@ == entries@,
    {
        KeyBindings { entries }
    }

    /// The built-in table.
    pub fn standard() -> (table: KeyBindings)
        ensures
            table@ == standard_table(),
    {
        let mut entries: Vec<KeyBinding> = Vec::new();
        entries.push(
            KeyBinding { key: Key::W, press: CameraCmd::PtzUp, release: CameraCmd::PtzUpStop },
        );
        entries.push(
            KeyBinding { key: Key::S, press: CameraCmd::PtzDown, release: CameraCmd::PtzDownStop },
        );
        assert(entries@ =~= standard_table());
        KeyBindings { entries }
    }

    /// The binding of `key`, or `None` for an unbound key.
    pub fn lookup(&self, key: Key) -> (r: Option<KeyBinding>)
        ensures
            r == binding_of(self@, key),
    {
        let mut i: usize = 0;
        assert(self.entries@.skip(0) =~= self.entries@);
        while i < self.entries.len()
            invariant
                i <= self.entries.len(),
                binding_of(self.entries@, key) == binding_of(self.entries@.skip(i as int), key),
            decreases self.entries.len() - i,
        {
            let b = self.entries[i];
            if b.key == key {
                return Some(b);
            }
            proof {
                assert(self.entries@.skip(i as int).drop_first() =~= self.entries@.skip(i + 1));
            }
            i += 1;
        }
        None
    }

    /// An independent copy with the same entries.
    pub fn duplicate(&self) -> (table: KeyBindings)
        ensures
            table@ == self@,
    {
        let mut entries: Vec<KeyBinding> = Vec::new();
        let mut i: usize = 0;
        while i < self.entries.len()
            invariant
                i <= self.entries.len(),
                entries@ == self.entries@.take(i as int),
            decreases self.entries.len() - i,
        {
            entries.push(self.entries[i]);
            proof {
                assert(entries@ =~= self.entries@.take(i + 1));
            }
            i += 1;
        }
        assert(entries@ =~= self.entries@);
        KeyBindings { entries }
    }
}

/// The keys currently held down.
#[derive(Debug)]
pub struct KeySet {
    keys: Vec<Key>,
}

impl View for KeySet {
    type V = Set<Key>;

    closed spec fn view(&self) -> Set<Key> {
        self.keys@.to_set()
    }
}

impl KeySet {
    /// No key is stored twice.
    pub closed spec fn wf(&self) -> bool {
        self.keys@.no_duplicates()
    }

    pub fn new() -> (s: KeySet)
        ensures
            s.wf(),
            s@ == Set::<Key>::empty(),
    {
        let s = KeySet { keys: Vec::new() };
        assert(s@ =~= Set::<Key>::empty());
        s
    }

    fn position(&self, key: Key) -> (r: Option<usize>)
        ensures
            match r {
                Some(i) => i < self.keys@.len() && self.keys@[i as int] == key,
                None => !self.keys@.contains(key),
            },
    {
        let mut i: usize = 0;
        while i < self.keys.len()
            invariant
                i <= self.keys.len(),
                forall|j: int| 0 <= j < i ==> self.keys@[j] != key,
            decreases self.keys.len() - i,
        {
            if self.keys[i] == key {
                return Some(i);
            }
            i += 1;
        }
        None
    }

    pub fn contains(&self, key: Key) -> (held: bool)
        ensures
            held == self@.contains(key),
    {
        let r = self.position(key);
        proof {
            if let Some(i) = r {
                assert(self.keys@[i as int] == key);
            }
        }
        r.is_some()
    }

    /// Adds `key`; says whether it was absent before.
    pub fn insert(&mut self, key: Key) -> (added: bool)
        requires
            old(self).wf(),
        ensures
            final(self).wf(),
            final(self)@ == old(self)@.insert(key),
            added == !old(self)@.contains(key),
    {
        if self.contains(key) {
            assert(self@ =~= self@.insert(key));
            false
        } else {
            self.keys.push(key);
            proof {
                old(self).keys@.lemma_push_to_set_commute(key);
            }
            true
        }
    }

    /// Takes `key` out; says whether it was present before.
    pub fn remove(&mut self, key: Key) -> (removed: bool)
        requires
            old(self).wf(),
        ensures
            final(self).wf(),
            final(self)@ == old(self)@.remove(key),
            removed == old(self)@.contains(key),
    {
        match self.position(key) {
            None => {
                assert(self@ =~= self@.remove(key));
                false
            },
            Some(i) => {
                let ghost before = self.keys@;
                self.keys.remove(i);
                proof {
                    let after = self.keys@;
                    before.remove_ensures(i as int);
                    assert forall|k: Key| after.contains(k) <==> (before.contains(k) && k
                        != key) by {
                        if after.contains(k) {
                            let j = choose|j: int| 0 <= j < after.len() && after[j] == k;
                            let src = if j < i { j } else { j + 1 };
                            assert(before[src] == k);
                        }
                        if before.contains(k) && k != key {
                            let j = choose|j: int| 0 <= j < before.len() && before[j] == k;
                            let dst = if j < i { j } else { j - 1 };
                            assert(after[dst] == k);
                        }
                    }
                    assert(after.to_set() =~= before.to_set().remove(key));
                    assert(before[i as int] == key);
                }
                true
            },
        }
    }
}

} // verus!
