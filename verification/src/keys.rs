//! Keys, modifiers and the event flags that report them.

use crate::table::Ident;
use vstd::prelude::*;

verus! {

/// The flags that an input event carries.
#[derive(Clone, Copy, Debug, PartialEq, Eq, Structural)]
pub struct EventFlags {
    pub bits: u64,
}

/// A key of the keyboard. A modifier key has a flag of its own that tells the
/// left one from the right one; any other key has none.
#[derive(Clone, Copy, Debug, PartialEq, Eq, Structural)]
pub struct KeyCode {
    pub code: u16,
    pub side_mask: u64,
}

pub const SHIFT_LEFT: u8 = 0x01;

pub const SHIFT_RIGHT: u8 = 0x02;

pub const CONTROL_LEFT: u8 = 0x04;

pub const CONTROL_RIGHT: u8 = 0x08;

pub const ALT_LEFT: u8 = 0x10;

pub const ALT_RIGHT: u8 = 0x20;

pub const META_LEFT: u8 = 0x40;

pub const META_RIGHT: u8 = 0x80;

/// A set of modifiers, each on a side of the keyboard.
#[derive(Clone, Copy, Debug, PartialEq, Eq, Structural)]
pub struct Modifiers {
    pub bits: u8,
}

#[derive(Clone, Copy, Debug, PartialEq, Eq, Structural)]
pub struct Hotkey {
    pub modifiers: Modifiers,
    pub key_code: KeyCode,
}

impl Ident for KeyCode {
    fn same(self, other: Self) -> (r: bool) {
        self == other
    }
}

impl Ident for Hotkey {
    fn same(self, other: Self) -> (r: bool) {
        self == other
    }
}

impl KeyCode {
    pub open spec fn modifier(self) -> bool {
        self.side_mask != 0
    }

    /// Whether `flags` reports this modifier key as held.
    pub open spec fn held_in(self, flags: EventFlags) -> bool {
        flags.bits & self.side_mask != 0
    }

    pub fn is_modifier(self) -> (r: bool)
        ensures
            r == self.modifier(),
    {
        self.side_mask != 0
    }

    /// Whether `flags` reports this modifier key as held.
    pub fn is_held_in(self, flags: EventFlags) -> (r: bool)
        ensures
            r == self.held_in(flags),
    {
        flags.bits & self.side_mask != 0
    }
}

impl Modifiers {
    pub open spec fn has(self, modifier: u8) -> bool {
        self.bits & modifier == modifier
    }

    pub fn contains(self, modifier: u8) -> (r: bool)
        ensures
            r == self.has(modifier),
    {
        self.bits & modifier == modifier
    }

    /// Whether `self`, being held, has what `target` asks of one family of
    /// modifiers: either side where it names both, else the side it names.
    pub open spec fn satisfies_family(self, target: Modifiers, left: u8, right: u8) -> bool {
        if target.has(left) && target.has(right) {
            self.has(left) || self.has(right)
        } else {
            (target.has(left) ==> self.has(left)) && (target.has(right) ==> self.has(right))
        }
    }

    /// Whether `self`, being held, has every modifier that `target` asks for.
    pub open spec fn satisfies(self, target: Modifiers) -> bool {
        self.satisfies_family(target, SHIFT_LEFT, SHIFT_RIGHT) && self.satisfies_family(
            target,
            CONTROL_LEFT,
            CONTROL_RIGHT,
        ) && self.satisfies_family(target, ALT_LEFT, ALT_RIGHT) && self.satisfies_family(
            target,
            META_LEFT,
            META_RIGHT,
        )
    }

    fn check_family(self, target: Modifiers, left: u8, right: u8) -> (r: bool)
        ensures
            r == self.satisfies_family(target, left, right),
    {
        let target_has_left = target.contains(left);
        let target_has_right = target.contains(right);
        if target_has_left && target_has_right {
            self.contains(left) || self.contains(right)
        } else if target_has_left {
            self.contains(left)
        } else if target_has_right {
            self.contains(right)
        } else {
            true
        }
    }

    /// Whether every modifier in `target` is held. Extra modifiers are
    /// allowed.
    pub fn cover(self, target: Modifiers) -> (r: bool)
        ensures
            r == self.satisfies(target),
    {
        self.check_family(target, SHIFT_LEFT, SHIFT_RIGHT) && self.check_family(
            target,
            CONTROL_LEFT,
            CONTROL_RIGHT,
        ) && self.check_family(target, ALT_LEFT, ALT_RIGHT) && self.check_family(
            target,
            META_LEFT,
            META_RIGHT,
        )
    }
}

/// The keys that are held down.
#[derive(Debug)]
pub struct KeySet {
    keys: Vec<KeyCode>,
}

impl View for KeySet {
    type V = Set<KeyCode>;

    closed spec fn view(&self) -> Set<KeyCode> {
        Set::new(|key: KeyCode| self.keys@.contains(key))
    }
}

impl KeySet {
    /// No key is held twice.
    #[verifier::type_invariant]
    spec fn distinct(self) -> bool {
        self.keys@.no_duplicates()
    }

    pub fn new() -> (r: KeySet)
        ensures
            r@ == Set::<KeyCode>::empty(),
    {
        let r = KeySet { keys: Vec::new() };
        assert(r@ =~= Set::<KeyCode>::empty());
        r
    }

    pub fn contains(&self, key: KeyCode) -> (r: bool)
        ensures
            r == self@.contains(key),
    {
        let mut i: usize = 0;
        while i < self.keys.len()
            invariant
                i <= self.keys@.len(),
                forall|j: int| 0 <= j < i ==> self.keys@[j] != key,
            decreases self.keys@.len() - i,
        {
            if self.keys[i] == key {
                return true;
            }
            i = i + 1;
        }
        false
    }

    pub fn is_empty(&self) -> (r: bool)
        ensures
            r == (self@ == Set::<KeyCode>::empty()),
    {
        proof {
            if self.keys@.len() == 0 {
                assert(self@ =~= Set::<KeyCode>::empty());
            } else {
                assert(self@.contains(self.keys@[0]));
            }
        }
        self.keys.len() == 0
    }

    pub fn insert(&mut self, key: KeyCode)
        ensures
            final(self)@ == old(self)@.insert(key),
    {
        proof {
            use_type_invariant(&*self);
        }
        if !self.contains(key) {
            let ghost before = self.keys@;
            let mut keys: Vec<KeyCode> = Vec::new();
            std::mem::swap(&mut keys, &mut self.keys);
            keys.push(key);
            assert(!before.contains(key));
            self.keys = keys;
            proof {
                let after = self.keys@;
                assert(after[before.len() as int] == key);
                assert forall|k: KeyCode| before.contains(k) implies after.contains(k) by {
                    let i = choose|i: int| 0 <= i < before.len() && before[i] == k;
                    assert(after[i] == k);
                }
            }
        }
        assert(self@ =~= old(self)@.insert(key));
    }

    pub fn remove(&mut self, key: KeyCode)
        ensures
            final(self)@ == old(self)@.remove(key),
    {
        proof {
            use_type_invariant(&*self);
        }
        let mut kept: Vec<KeyCode> = Vec::new();
        let mut i: usize = 0;
        while i < self.keys.len()
            invariant
                *self == *old(self),
                self.keys@.no_duplicates(),
                kept@.no_duplicates(),
                forall|j: int, k: int|
                    0 <= j < kept@.len() && i <= k < self.keys@.len() ==> kept@[j]
                        != self.keys@[k],
                i <= self.keys@.len(),
                forall|j: int| 0 <= j < kept@.len() ==> kept@[j] != key && self.keys@.contains(
                    kept@[j],
                ),
                forall|j: int|
                    0 <= j < i && self.keys@[j] != key ==> kept@.contains(self.keys@[j]),
            decreases self.keys@.len() - i,
        {
            let ghost before = kept@;
            if self.keys[i] != key {
                kept.push(self.keys[i]);
            }
            proof {
                lemma_pushed(before, kept@, self.keys@[i as int]);
            }
            i = i + 1;
        }
        self.keys = kept;
        assert(self@ =~= old(self)@.remove(key));
    }

    pub fn clear(&mut self)
        ensures
            final(self)@ == Set::<KeyCode>::empty(),
    {
        self.keys = Vec::new();
        assert(self@ =~= Set::<KeyCode>::empty());
    }

    /// Drops the modifier keys that `flags` does not report as held; other
    /// keys stay.
    pub fn reconcile(&mut self, flags: EventFlags)
        ensures
            final(self)@ == reconciled(old(self)@, flags),
    {
        proof {
            use_type_invariant(&*self);
        }
        let mut kept: Vec<KeyCode> = Vec::new();
        let mut i: usize = 0;
        while i < self.keys.len()
            invariant
                *self == *old(self),
                self.keys@.no_duplicates(),
                kept@.no_duplicates(),
                forall|j: int, k: int|
                    0 <= j < kept@.len() && i <= k < self.keys@.len() ==> kept@[j]
                        != self.keys@[k],
                i <= self.keys@.len(),
                forall|j: int|
                    0 <= j < kept@.len() ==> survives(#[trigger] kept@[j], flags)
                        && self.keys@.contains(kept@[j]),
                forall|j: int|
                    0 <= j < i && survives(#[trigger] self.keys@[j], flags) ==> kept@.contains(
                        self.keys@[j],
                    ),
            decreases self.keys@.len() - i,
        {
            let key = self.keys[i];
            let ghost before = kept@;
            if !key.is_modifier() || key.is_held_in(flags) {
                kept.push(key);
            }
            proof {
                lemma_pushed(before, kept@, key);
            }
            i = i + 1;
        }
        self.keys = kept;
        assert(self@ =~= reconciled(old(self)@, flags));
    }

    /// Another set of the same keys.
    pub fn copy(&self) -> (r: KeySet)
        ensures
            r@ == self@,
    {
        let r = KeySet { keys: self.to_vec() };
        assert(r@ =~= self@);
        r
    }

    /// The keys, each once and in no particular order.
    pub fn to_vec(&self) -> (r: Vec<KeyCode>)
        ensures
            r@.no_duplicates(),
            forall|key: KeyCode| r@.contains(key) <==> self@.contains(key),
    {
        let mut keys: Vec<KeyCode> = Vec::new();
        let mut i: usize = 0;
        while i < self.keys.len()
            invariant
                i <= self.keys@.len(),
                keys@ == self.keys@.take(i as int),
            decreases self.keys@.len() - i,
        {
            keys.push(self.keys[i]);
            i = i + 1;
            assert(keys@ =~= self.keys@.take(i as int));
        }
        assert(keys@ =~= self.keys@);
        proof {
            use_type_invariant(self);
        }
        keys
    }
}

/// A held key outlives a reconciliation unless it is a modifier that the flags
/// do not report.
pub open spec fn survives(key: KeyCode, flags: EventFlags) -> bool {
    key.modifier() ==> key.held_in(flags)
}

/// The keys that outlive a reconciliation.
pub open spec fn reconciled(keys: Set<KeyCode>, flags: EventFlags) -> Set<KeyCode> {
    keys.filter(|key: KeyCode| survives(key, flags))
}

proof fn lemma_pushed(before: Seq<KeyCode>, after: Seq<KeyCode>, key: KeyCode)
    requires
        after == before || after == before.push(key),
    ensures
        forall|k: KeyCode| before.contains(k) ==> after.contains(k),
        after == before.push(key) ==> after.contains(key),
{
    if after == before.push(key) {
        assert(after[before.len() as int] == key);
        assert forall|k: KeyCode| before.contains(k) implies after.contains(k) by {
            let i = choose|i: int| 0 <= i < before.len() && before[i] == k;
            assert(after[i] == k);
        }
    }
}

/// Holding more modifiers never breaks what fewer satisfied.
pub proof fn law_extra_modifiers_are_allowed(held: Modifiers, more: Modifiers, target: Modifiers)
    requires
        held.satisfies(target),
        forall|modifier: u8| held.has(modifier) ==> #[trigger] more.has(modifier),
    ensures
        more.satisfies(target),
{
    assert(held.has(SHIFT_LEFT) ==> more.has(SHIFT_LEFT));
    assert(held.has(SHIFT_RIGHT) ==> more.has(SHIFT_RIGHT));
    assert(held.has(CONTROL_LEFT) ==> more.has(CONTROL_LEFT));
    assert(held.has(CONTROL_RIGHT) ==> more.has(CONTROL_RIGHT));
    assert(held.has(ALT_LEFT) ==> more.has(ALT_LEFT));
    assert(held.has(ALT_RIGHT) ==> more.has(ALT_RIGHT));
    assert(held.has(META_LEFT) ==> more.has(META_LEFT));
    assert(held.has(META_RIGHT) ==> more.has(META_RIGHT));
}

/// A key that is no modifier is never dropped by a reconciliation, and a
/// second one with the same flags drops nothing more.
pub proof fn law_reconciliation_settles(keys: Set<KeyCode>, flags: EventFlags)
    ensures
        forall|key: KeyCode|
            !key.modifier() ==> (#[trigger] reconciled(keys, flags).contains(key) <==> keys.contains(
                key,
            )),
        reconciled(reconciled(keys, flags), flags) == reconciled(keys, flags),
{
    assert(reconciled(reconciled(keys, flags), flags) =~= reconciled(keys, flags));
}

} // verus!
