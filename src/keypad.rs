use vstd::prelude::*;

verus! {

/// Number of keys on the keypad.
pub const KEY_COUNT: usize = 16;

/// Whether `key` names a key of the keypad that is held.
pub open spec fn key_held(keys: Seq<bool>, key: int) -> bool {
    0 <= key < keys.len() && keys[key]
}

/// `k` is the lowest-indexed held key.
pub open spec fn is_lowest_held(keys: Seq<bool>, k: int) -> bool {
    &&& key_held(keys, k)
    &&& forall|j: int| 0 <= j < k ==> !#[trigger] keys[j]
}

/// The lowest-indexed held key, if any key is held.
pub open spec fn lowest_held(keys: Seq<bool>) -> Option<int> {
    if exists|k: int| is_lowest_held(keys, k) {
        Some(choose|k: int| is_lowest_held(keys, k))
    } else {
        None
    }
}

/// There is at most one lowest held key.
pub proof fn lemma_lowest_held_unique(keys: Seq<bool>, a: int, b: int)
    requires
        is_lowest_held(keys, a),
        is_lowest_held(keys, b),
    ensures
        a == b,
{
    if a < b {
        assert(!keys[a]);
    } else if b < a {
        assert(!keys[b]);
    }
}

/// If no key is held, there is no lowest held key; and conversely.
pub proof fn lemma_lowest_held_none(keys: Seq<bool>)
    ensures
        lowest_held(keys) is None <==> forall|j: int| 0 <= j < keys.len() ==> !#[trigger] keys[j],
{
    if exists|j: int| 0 <= j < keys.len() && keys[j] {
        let j = choose|j: int| 0 <= j < keys.len() && keys[j];
        lemma_some_held_has_lowest(keys, j);
    }
}

proof fn lemma_some_held_has_lowest(keys: Seq<bool>, j: int)
    requires
        0 <= j < keys.len(),
        keys[j],
    ensures
        exists|k: int| is_lowest_held(keys, k),
    decreases j,
{
    if forall|i: int| 0 <= i < j ==> !#[trigger] keys[i] {
        assert(is_lowest_held(keys, j));
    } else {
        let i = choose|i: int| 0 <= i < j && keys[i];
        lemma_some_held_has_lowest(keys, i);
    }
}

/// The state of the sixteen keys, `true` where a key is held.
pub struct Keypad {
    pub keys: [bool; 16],
}

impl View for Keypad {
    type V = Seq<bool>;

    open spec fn view(&self) -> Seq<bool> {
        self.keys@
    }
}

impl Keypad {
    /// A keypad with no key held.
    pub fn new() -> (r: Keypad)
        ensures
            r@ == Seq::new(16, |k: int| false),
    {
        let r = Keypad { keys: [false; 16] };
        assert(r@ =~= Seq::new(16, |k: int| false));
        r
    }

    /// Whether key `key` is held; a value past the last key is never held.
    pub fn is_key_down(&self, key: u8) -> (r: bool)
        ensures
            r == key_held(self@, key as int),
    {
        if (key as usize) < KEY_COUNT {
            self.keys[key as usize]
        } else {
            false
        }
    }

    /// The lowest-indexed held key, or `None` when no key is held.
    pub fn any_key_down(&self) -> (r: Option<u8>)
        ensures
            match r {
                Some(k) => lowest_held(self@) == Some(k as int),
                None => lowest_held(self@) is None,
            },
    {
        let mut k: usize = 0;
        while k < KEY_COUNT
            invariant
                k <= KEY_COUNT,
                self@.len() == KEY_COUNT,
                forall|j: int| 0 <= j < k ==> !#[trigger] self@[j],
            decreases KEY_COUNT - k,
        {
            if self.keys[k] {
                proof {
                    assert(is_lowest_held(self@, k as int));
                    let c = choose|c: int| is_lowest_held(self@, c);
                    lemma_lowest_held_unique(self@, c, k as int);
                }
                return Some(k as u8);
            }
            k = k + 1;
        }
        proof {
            lemma_lowest_held_none(self@);
        }
        None
    }
}

} // verus!
