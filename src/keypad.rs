use vstd::prelude::*;
use vstd::string::StrSliceExecFns;

verus! {

// Keypad                   Keyboard
// +-+-+-+-+                +-+-+-+-+
// |1|2|3|C|                |1|2|3|4|
// +-+-+-+-+                +-+-+-+-+
// |4|5|6|D|                |Q|W|E|R|
// +-+-+-+-+       =>       +-+-+-+-+
// |7|8|9|E|                |A|S|D|F|
// +-+-+-+-+                +-+-+-+-+
// |A|0|B|F|                |Z|X|C|V|
// +-+-+-+-+                +-+-+-+-+

/// Number of keys of the input device.
pub const KEY_COUNT: usize = 16;

/// What `str::to_lowercase` makes of a string.
pub uninterp spec fn lower_of(s: Seq<char>) -> Seq<char>;

/// Relies on `str::to_lowercase`: the lowercase form of a string, which depends on
/// its characters alone.
#[verifier::external_body]
fn lowercase(s: &str) -> (r: String)
    ensures
        r@ == lower_of(s@),
{
    s.to_lowercase()
}

/// The key index of a lowercase keyboard label character.
pub open spec fn char_key_index(c: char) -> Option<usize> {
    match c {
        '1' => Some(0usize),
        '2' => Some(1usize),
        '3' => Some(2usize),
        '4' => Some(3usize),
        'q' => Some(4usize),
        'w' => Some(5usize),
        'e' => Some(6usize),
        'r' => Some(7usize),
        'a' => Some(8usize),
        's' => Some(9usize),
        'd' => Some(10usize),
        'f' => Some(11usize),
        'z' => Some(12usize),
        'x' => Some(13usize),
        'c' => Some(14usize),
        'v' => Some(15usize),
        _ => None,
    }
}

/// The key index of an already lowercased keyboard label: a one-character label
/// from the table above, or none.
pub open spec fn key_index(s: Seq<char>) -> Option<usize> {
    if s.len() == 1 {
        char_key_index(s[0])
    } else {
        None
    }
}

/// The key flags after the key labelled `key` is set to `pressed`; an unknown label
/// changes nothing.
pub open spec fn set_key(keys: Seq<bool>, key: Seq<char>, pressed: bool) -> Seq<bool> {
    match key_index(lower_of(key)) {
        Some(k) => keys.update(k as int, pressed),
        None => keys,
    }
}

/// The lowest index of a pressed key scanning from `k` on, if any.
pub open spec fn first_pressed_from(keys: Seq<bool>, k: int) -> Option<usize>
    decreases keys.len() - k,
{
    if k < 0 || k >= keys.len() {
        None
    } else if keys[k] {
        Some(k as usize)
    } else {
        first_pressed_from(keys, k + 1)
    }
}

/// The lowest index of a pressed key, if any.
pub open spec fn first_pressed(keys: Seq<bool>) -> Option<usize> {
    first_pressed_from(keys, 0)
}

/// Looks up an already lowercased keyboard label in the key table.
pub fn idx_of_lowered(key: &str) -> (r: Option<usize>)
    ensures
        r == key_index(key@),
{
    if key.unicode_len() != 1 {
        return None;
    }
    let c = key.get_char(0);
    match c {
        '1' => Some(0),
        '2' => Some(1),
        '3' => Some(2),
        '4' => Some(3),
        'q' => Some(4),
        'w' => Some(5),
        'e' => Some(6),
        'r' => Some(7),
        'a' => Some(8),
        's' => Some(9),
        'd' => Some(10),
        'f' => Some(11),
        'z' => Some(12),
        'x' => Some(13),
        'c' => Some(14),
        'v' => Some(15),
        _ => None,
    }
}

/// State of the 16-key input device.
pub struct Keypad {
    keys: Vec<bool>,
}

impl View for Keypad {
    type V = Seq<bool>;

    closed spec fn view(&self) -> Seq<bool> {
        self.keys@
    }
}

impl Keypad {
    /// There is one flag per key.
    pub open spec fn wf(&self) -> bool {
        self@.len() == KEY_COUNT
    }

    /// A keypad with no key pressed.
    pub fn new() -> (r: Self)
        ensures
            r.wf(),
            forall|k: int| 0 <= k < KEY_COUNT ==> !#[trigger] r@[k],
    {
        Keypad { keys: vec![false; KEY_COUNT] }
    }

    /// The key index of a keyboard label, case-insensitively.
    pub fn key_to_idx(&self, key: &str) -> (r: Option<usize>)
        ensures
            r == key_index(lower_of(key@)),
    {
        let lowered = lowercase(key);
        idx_of_lowered(lowered.as_str())
    }

    /// Marks the key labelled `key` as pressed; an unknown label changes nothing.
    pub fn key_down(&mut self, key: &str)
        requires
            old(self).wf(),
        ensures
            final(self).wf(),
            final(self)@ == set_key(old(self)@, key@, true),
    {
        match self.key_to_idx(key) {
            Some(idx) => self.keys.set(idx, true),
            None => (),
        }
    }

    /// Marks the key labelled `key` as released; an unknown label changes nothing.
    pub fn key_up(&mut self, key: &str)
        requires
            old(self).wf(),
        ensures
            final(self).wf(),
            final(self)@ == set_key(old(self)@, key@, false),
    {
        match self.key_to_idx(key) {
            Some(idx) => self.keys.set(idx, false),
            None => (),
        }
    }

    /// Whether the key labelled `key` is pressed; false for an unknown label.
    pub fn is_key_pressed(&self, key: &str) -> (r: bool)
        requires
            self.wf(),
        ensures
            r == match key_index(lower_of(key@)) {
                Some(k) => self@[k as int],
                None => false,
            },
    {
        let is_pressed = match self.key_to_idx(key) {
            Some(idx) => self.is_key_idx_pressed(idx),
            None => false,
        };
        is_pressed
    }

    /// Whether the key with index `idx` is pressed.
    pub fn is_key_idx_pressed(&self, idx: usize) -> (r: bool)
        requires
            self.wf(),
            idx < KEY_COUNT,
        ensures
            r == self@[idx as int],
    {
        self.keys[idx] == true
    }

    /// The lowest index of a pressed key, or none when no key is pressed.
    pub fn get_first_pressed_key_idx(&self) -> (r: Option<usize>)
        requires
            self.wf(),
        ensures
            r == first_pressed(self@),
            match r {
                Some(k) => k < KEY_COUNT && self@[k as int] && forall|j: int|
                    0 <= j < k ==> !#[trigger] self@[j],
                None => forall|j: int| 0 <= j < KEY_COUNT ==> !#[trigger] self@[j],
            },
    {
        let mut k: usize = 0;
        while k < KEY_COUNT
            invariant
                self.wf(),
                k <= KEY_COUNT,
                forall|j: int| 0 <= j < k ==> !#[trigger] self@[j],
                first_pressed(self@) == first_pressed_from(self@, k as int),
            decreases KEY_COUNT - k,
        {
            if self.keys[k] {
                return Some(k);
            }
            k = k + 1;
        }
        None
    }
}

} // verus!
