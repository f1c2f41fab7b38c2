//! Key presses, the mode-scoped keybinding table, and the multi-key
//! sequence buffer with its per-tick reset.

use vstd::prelude::*;

use crate::action::{Action, ActionV};
use crate::text::push_char;
use crate::mode::Mode;

verus! {

/// The key proper, separated from its modifiers.
#[derive(Debug, Copy, Clone, PartialEq, Eq, Structural)]
pub enum KeyCode {
    Char(char),
    Enter,
    Backspace,
    Esc,
    Tab,
    BackTab,
    Up,
    Down,
    Left,
    Right,
    Delete,
    Other(u32),
}

/// One raw key event: a key with its modifier state.
#[derive(Debug, Copy, Clone, PartialEq, Eq, Structural)]
pub struct KeyPress {
    pub code: KeyCode,
    pub ctrl: bool,
    pub alt: bool,
    pub shift: bool,
}

impl KeyPress {
    /// A plain character key with no modifiers held.
    pub fn char(c: char) -> (r: KeyPress)
        ensures
            r == (KeyPress { code: KeyCode::Char(c), ctrl: false, alt: false, shift: false }),
    {
        KeyPress { code: KeyCode::Char(c), ctrl: false, alt: false, shift: false }
    }

    /// A non-character key with no modifiers held.
    pub fn plain(code: KeyCode) -> (r: KeyPress)
        ensures
            r == (KeyPress { code, ctrl: false, alt: false, shift: false }),
    {
        KeyPress { code, ctrl: false, alt: false, shift: false }
    }
}

/// One entry of the keybinding table: under tab `mode`, the exact key
/// sequence `keys` triggers `action`.
#[derive(Debug)]
pub struct KeyBinding {
    pub mode: Mode,
    pub keys: Vec<KeyPress>,
    pub action: Action,
}

/// Mathematical value of a [`KeyBinding`].
pub ghost struct KeyBindingV {
    pub mode: Mode,
    pub keys: Seq<KeyPress>,
    pub action: ActionV,
}

impl View for KeyBinding {
    type V = KeyBindingV;

    open spec fn view(&self) -> KeyBindingV {
        KeyBindingV { mode: self.mode, keys: self.keys@, action: self.action@ }
    }
}

/// No two entries bind the same key sequence under the same tab.
pub open spec fn table_wf(t: Seq<KeyBindingV>) -> bool {
    forall|i: int, j: int|
        0 <= i < j < t.len() ==> !((#[trigger] t[i]).mode == (#[trigger] t[j]).mode && t[i].keys
            == t[j].keys)
}

/// True when some entry binds `keys` under `mode`.
pub open spec fn has_binding(t: Seq<KeyBindingV>, mode: Mode, keys: Seq<KeyPress>) -> bool {
    exists|i: int| 0 <= i < t.len() && (#[trigger] t[i]).mode == mode && t[i].keys == keys
}

/// True when some entry binds `keys` under `mode` to exactly `a`.
pub open spec fn binds(t: Seq<KeyBindingV>, mode: Mode, keys: Seq<KeyPress>, a: ActionV) -> bool {
    exists|i: int|
        0 <= i < t.len() && (#[trigger] t[i]).mode == mode && t[i].keys == keys && t[i].action == a
}

/// The pending-key buffer after one raw key event: untouched when the key
/// alone is bound (the single-key probe already fired), extended by the
/// key otherwise.  Only a tick clears the buffer.
pub open spec fn step_buffer(
    t: Seq<KeyBindingV>,
    mode: Mode,
    buf: Seq<KeyPress>,
    key: KeyPress,
) -> Seq<KeyPress> {
    if has_binding(t, mode, seq![key]) {
        buf
    } else {
        buf.push(key)
    }
}

/// What one raw key event emits: the action bound to the single key if
/// there is one, else the action bound to the whole extended buffer if
/// there is one, else nothing.
pub open spec fn step_emits(
    t: Seq<KeyBindingV>,
    mode: Mode,
    buf: Seq<KeyPress>,
    key: KeyPress,
    r: Option<ActionV>,
) -> bool {
    if has_binding(t, mode, seq![key]) {
        match r {
            Some(a) => binds(t, mode, seq![key], a),
            None => false,
        }
    } else if has_binding(t, mode, buf.push(key)) {
        match r {
            Some(a) => binds(t, mode, buf.push(key), a),
            None => false,
        }
    } else {
        r is None
    }
}

/// Exact equality of two key sequences.
fn keys_eq(a: &Vec<KeyPress>, b: &Vec<KeyPress>) -> (r: bool)
    ensures
        r == (a@ == b@),
{
    if a.len() != b.len() {
        proof {
            assert(a@.len() != b@.len());
        }
        return false;
    }
    let mut i: usize = 0;
    while i < a.len()
        invariant
            i <= a@.len(),
            a@.len() == b@.len(),
            forall|j: int| 0 <= j < i ==> a@[j] == b@[j],
        decreases a@.len() - i,
    {
        if a[i] != b[i] {
            return false;
        }
        i = i + 1;
    }
    proof {
        assert(a@ =~= b@);
    }
    true
}

/// The mode-scoped keybinding table, loaded once before the loop starts
/// and read-only afterwards.
#[derive(Debug)]
pub struct KeyTable {
    pub bindings: Vec<KeyBinding>,
}

impl View for KeyTable {
    type V = Seq<KeyBindingV>;

    open spec fn view(&self) -> Seq<KeyBindingV> {
        Seq::new(self.bindings@.len(), |i: int| self.bindings@[i]@)
    }
}

impl KeyTable {
    /// An empty table.
    pub fn new() -> (r: KeyTable)
        ensures
            r@.len() == 0,
            table_wf(r@),
    {
        KeyTable { bindings: Vec::new() }
    }

    /// The action bound to `keys` under `mode`, if any.
    pub fn find(&self, mode: Mode, keys: &Vec<KeyPress>) -> (r: Option<Action>)
        ensures
            match r {
                Some(a) => binds(self@, mode, keys@, a@),
                None => !has_binding(self@, mode, keys@),
            },
    {
        let mut i: usize = 0;
        while i < self.bindings.len()
            invariant
                i <= self.bindings@.len(),
                forall|j: int|
                    0 <= j < i ==> !((#[trigger] self@[j]).mode == mode && self@[j].keys == keys@),
            decreases self.bindings@.len() - i,
        {
            if self.bindings[i].mode == mode && keys_eq(&self.bindings[i].keys, keys) {
                let a = self.bindings[i].action.clone();
                proof {
                    assert(self@[i as int].mode == mode && self@[i as int].keys == keys@
                        && self@[i as int].action == a@);
                }
                return Some(a);
            }
            i = i + 1;
        }
        None
    }

    /// The action bound to the single-key sequence `[key]` under `mode`.
    pub fn find_single(&self, mode: Mode, key: KeyPress) -> (r: Option<Action>)
        ensures
            match r {
                Some(a) => binds(self@, mode, seq![key], a@),
                None => !has_binding(self@, mode, seq![key]),
            },
    {
        let mut keys: Vec<KeyPress> = Vec::new();
        keys.push(key);
        proof {
            assert(keys@ =~= seq![key]);
        }
        self.find(mode, &keys)
    }

    /// Adds a binding.  Returns false and leaves the table as it was when
    /// the sequence is already bound under that tab, so the table stays
    /// free of duplicates.
    pub fn add(&mut self, mode: Mode, keys: Vec<KeyPress>, action: Action) -> (r: bool)
        requires
            table_wf(old(self)@),
        ensures
            table_wf(final(self)@),
            r == !has_binding(old(self)@, mode, keys@),
            r ==> final(self)@.len() == old(self)@.len() + 1 && final(self)@.last() == (KeyBindingV {
                mode,
                keys: keys@,
                action: action@,
            }) && forall|i: int| 0 <= i < old(self)@.len() ==> final(self)@[i] == old(self)@[i],
            !r ==> final(self)@ == old(self)@,
    {
        match self.find(mode, &keys) {
            Some(_) => false,
            None => {
                let ghost oldv = self@;
                self.bindings.push(KeyBinding { mode, keys, action });
                proof {
                    assert(forall|i: int| 0 <= i < oldv.len() ==> #[trigger] self@[i] == oldv[i]);
                    assert(self@.last().mode == mode && self@.last().keys == keys@
                        && self@.last().action == action@);
                    assert forall|i: int, j: int| 0 <= i < j < self@.len() implies !((
                    #[trigger] self@[i]).mode == (#[trigger] self@[j]).mode && self@[i].keys
                        == self@[j].keys) by {
                        if j == self@.len() - 1 {
                            assert(!(oldv[i].mode == mode && oldv[i].keys == keys@));
                        }
                    }
                }
                true
            },
        }
    }
}


impl Clone for KeyBinding {
    /// A clone carries the same mathematical value.
    fn clone(&self) -> (r: Self)
        ensures
            r@ == self@,
    {
        let keys = self.keys.clone();
        proof {
            assert(keys@ =~= self.keys@);
        }
        KeyBinding { mode: self.mode, keys, action: self.action.clone() }
    }
}

impl Clone for KeyTable {
    /// A clone carries the same mathematical value.
    fn clone(&self) -> (r: Self)
        ensures
            r@ == self@,
    {
        let bindings = self.bindings.clone();
        proof {
            assert forall|i: int| 0 <= i < bindings@.len() implies (#[trigger] bindings@[i])@
                == self.bindings@[i]@ by {
                assert(cloned::<KeyBinding>(self.bindings@[i], bindings@[i]));
            }
            let r = KeyTable { bindings };
            assert(r@ =~= self@);
        }
        KeyTable { bindings }
    }
}

/// The pending multi-key buffer, cleared only when a tick is processed.
#[derive(Debug)]
pub struct KeyBuffer {
    pub pending: Vec<KeyPress>,
}

impl View for KeyBuffer {
    type V = Seq<KeyPress>;

    open spec fn view(&self) -> Seq<KeyPress> {
        self.pending@
    }
}

impl KeyBuffer {
    /// An empty buffer.
    pub fn new() -> (r: KeyBuffer)
        ensures
            r@.len() == 0,
    {
        KeyBuffer { pending: Vec::new() }
    }

    /// Remembers one key for multi-key sequence matching.
    pub fn record(&mut self, key: KeyPress)
        ensures
            final(self)@ == old(self)@.push(key),
    {
        self.pending.push(key);
    }

    /// Matches the whole pending sequence against the table.
    pub fn try_match(&self, table: &KeyTable, mode: Mode) -> (r: Option<Action>)
        ensures
            match r {
                Some(a) => binds(table@, mode, self@, a@),
                None => !has_binding(table@, mode, self@),
            },
    {
        table.find(mode, &self.pending)
    }

    /// Forgets the pending sequence; the loop calls this on every tick.
    pub fn clear(&mut self)
        ensures
            final(self)@.len() == 0,
    {
        self.pending.clear();
    }

    /// One raw key event, as the loop sees it: probe the single key first
    /// and emit its action without touching the buffer; otherwise buffer
    /// the key and probe the whole pending sequence.
    pub fn on_key(&mut self, table: &KeyTable, mode: Mode, key: KeyPress) -> (r: Option<Action>)
        ensures
            final(self)@ == step_buffer(table@, mode, old(self)@, key),
            step_emits(table@, mode, old(self)@, key, match r {
                Some(a) => Some(a@),
                None => None,
            }),
    {
        match table.find_single(mode, key) {
            Some(a) => Some(a),
            None => {
                self.record(key);
                self.try_match(table, mode)
            },
        }
    }
}

/// Sequence resolution: when the keys of a two-key sequence are not
/// themselves bound as single keys, pressing them in order within one
/// tick emits nothing on the first press and the sequence's action on
/// the second.
pub proof fn lemma_two_key_sequence(
    t: Seq<KeyBindingV>,
    mode: Mode,
    k1: KeyPress,
    k2: KeyPress,
    r1: Option<ActionV>,
    r2: Option<ActionV>,
)
    requires
        has_binding(t, mode, seq![k1, k2]),
        !has_binding(t, mode, seq![k1]),
        !has_binding(t, mode, seq![k2]),
        step_emits(t, mode, Seq::<KeyPress>::empty(), k1, r1),
        step_emits(t, mode, step_buffer(t, mode, Seq::<KeyPress>::empty(), k1), k2, r2),
    ensures
        r1 is None,
        match r2 {
            Some(a) => binds(t, mode, seq![k1, k2], a),
            None => false,
        },
{
    let buf1 = step_buffer(t, mode, Seq::<KeyPress>::empty(), k1);
    assert(buf1 =~= seq![k1]);
    assert(!has_binding(t, mode, seq![k1])) by {
        assert(Seq::<KeyPress>::empty().push(k1) =~= seq![k1]);
    }
    assert(buf1.push(k2) =~= seq![k1, k2]);
}

/// In a duplicate-free table, a key sequence is bound to at most one
/// action.
pub proof fn lemma_binding_unique(
    t: Seq<KeyBindingV>,
    mode: Mode,
    keys: Seq<KeyPress>,
    a: ActionV,
    b: ActionV,
)
    requires
        table_wf(t),
        binds(t, mode, keys, a),
        binds(t, mode, keys, b),
    ensures
        a == b,
{
    let i = choose|i: int| 0 <= i < t.len() && (#[trigger] t[i]).mode == mode && t[i].keys == keys
        && t[i].action == a;
    let j = choose|j: int| 0 <= j < t.len() && (#[trigger] t[j]).mode == mode && t[j].keys == keys
        && t[j].action == b;
    if i != j {
        assert(false);
    }
}

/// Per-tick reset: what a key event emits, and the buffer it leaves
/// behind, are functions of the table, the tab, the pending sequence and
/// the key alone — so after a tick clears the buffer, the same presses
/// resolve exactly as they did from the fresh buffer at the start.
pub proof fn lemma_tick_reset(
    t: Seq<KeyBindingV>,
    mode: Mode,
    buf: Seq<KeyPress>,
    key: KeyPress,
    r1: Option<ActionV>,
    r2: Option<ActionV>,
)
    requires
        table_wf(t),
        step_emits(t, mode, buf, key, r1),
        step_emits(t, mode, buf, key, r2),
    ensures
        r1 == r2,
{
    if has_binding(t, mode, seq![key]) {
        lemma_binding_unique(t, mode, seq![key], r1->Some_0, r2->Some_0);
    } else if has_binding(t, mode, buf.push(key)) {
        lemma_binding_unique(t, mode, buf.push(key), r1->Some_0, r2->Some_0);
    }
}

/// Display label of one key, as shown in the keybinding legend: held
/// modifiers as prefixes, then the key itself.
pub open spec fn key_label_spec(k: KeyPress) -> Seq<char> {
    let base = match k.code {
        KeyCode::Char(c) => seq![c],
        KeyCode::Enter => "enter"@,
        KeyCode::Backspace => "backspace"@,
        KeyCode::Esc => "esc"@,
        KeyCode::Tab => "tab"@,
        KeyCode::BackTab => "backtab"@,
        KeyCode::Up => "up"@,
        KeyCode::Down => "down"@,
        KeyCode::Left => "left"@,
        KeyCode::Right => "right"@,
        KeyCode::Delete => "del"@,
        KeyCode::Other(_) => "key"@,
    };
    let with_shift = if k.shift {
        "shift-"@ + base
    } else {
        base
    };
    let with_alt = if k.alt {
        "alt-"@ + with_shift
    } else {
        with_shift
    };
    if k.ctrl {
        "ctrl-"@ + with_alt
    } else {
        with_alt
    }
}

/// Display label of one key.
pub fn key_label(k: KeyPress) -> (r: String)
    ensures
        r@ == key_label_spec(k),
{
    let mut out = String::new();
    if k.ctrl {
        out.append("ctrl-");
    }
    if k.alt {
        out.append("alt-");
    }
    if k.shift {
        out.append("shift-");
    }
    match k.code {
        KeyCode::Char(c) => {
            push_char(&mut out, c);
            proof {
                assert(out@ =~= key_label_spec(k));
            }
        },
        KeyCode::Enter => out.append("enter"),
        KeyCode::Backspace => out.append("backspace"),
        KeyCode::Esc => out.append("esc"),
        KeyCode::Tab => out.append("tab"),
        KeyCode::BackTab => out.append("backtab"),
        KeyCode::Up => out.append("up"),
        KeyCode::Down => out.append("down"),
        KeyCode::Left => out.append("left"),
        KeyCode::Right => out.append("right"),
        KeyCode::Delete => out.append("del"),
        KeyCode::Other(_) => out.append("key"),
    }
    proof {
        assert(out@ =~= key_label_spec(k));
    }
    out
}

/// Display label of a key sequence: the key labels joined by commas.
pub open spec fn keys_label_spec(keys: Seq<KeyPress>) -> Seq<char>
    decreases keys.len(),
{
    if keys.len() == 0 {
        Seq::<char>::empty()
    } else if keys.len() == 1 {
        key_label_spec(keys[0])
    } else {
        keys_label_spec(keys.drop_last()) + ","@ + key_label_spec(keys.last())
    }
}

/// Display label of a key sequence.
pub fn keys_label(keys: &Vec<KeyPress>) -> (r: String)
    ensures
        r@ == keys_label_spec(keys@),
{
    let mut out = String::new();
    let mut i: usize = 0;
    while i < keys.len()
        invariant
            i <= keys@.len(),
            out@ == keys_label_spec(keys@.subrange(0, i as int)),
        decreases keys@.len() - i,
    {
        if i > 0 {
            out.append(",");
        }
        let lab = key_label(keys[i]);
        out.append(lab.as_str());
        proof {
            let sub = keys@.subrange(0, i + 1);
            assert(sub.drop_last() =~= keys@.subrange(0, i as int));
            assert(sub.last() == keys@[i as int]);
            if i == 0 {
                assert(out@ =~= keys_label_spec(sub));
            }
        }
        i = i + 1;
    }
    proof {
        assert(keys@.subrange(0, keys@.len() as int) =~= keys@);
    }
    out
}

/// The legend text built from the first `n` table entries: for each
/// entry scoped to `mode`, its key sequence and the name of its action,
/// separated by " : ", with ", " between entries.
pub open spec fn legend_upto(t: Seq<KeyBindingV>, mode: Mode, n: int) -> Seq<char>
    decreases n,
{
    if n <= 0 {
        Seq::<char>::empty()
    } else {
        let prefix = legend_upto(t, mode, n - 1);
        if t[n - 1].mode == mode {
            let entry = keys_label_spec(t[n - 1].keys) + " : "@ + t[n - 1].action.label_spec();
            if prefix.len() == 0 {
                entry
            } else {
                prefix + ", "@ + entry
            }
        } else {
            prefix
        }
    }
}

/// The whole legend for one tab.
pub open spec fn legend_spec(t: Seq<KeyBindingV>, mode: Mode) -> Seq<char> {
    legend_upto(t, mode, t.len() as int)
}

impl KeyTable {
    /// The legend text for one tab: every binding scoped to it, each as
    /// "keys : action", joined by ", ".
    pub fn legend(&self, mode: Mode) -> (r: String)
        ensures
            r@ == legend_spec(self@, mode),
    {
        let mut out = String::new();
        let mut first: bool = true;
        let mut i: usize = 0;
        while i < self.bindings.len()
            invariant
                i <= self.bindings@.len(),
                out@ == legend_upto(self@, mode, i as int),
                first == (out@.len() == 0),
            decreases self.bindings@.len() - i,
        {
            if self.bindings[i].mode == mode {
                if !first {
                    out.append(", ");
                }
                let keys_text = keys_label(&self.bindings[i].keys);
                out.append(keys_text.as_str());
                out.append(" : ");
                let act_text = self.bindings[i].action.label();
                out.append(act_text.as_str());
                first = false;
                proof {
                    reveal_strlit(" : ");
                    assert(self@[i as int].keys == self.bindings@[i as int].keys@);
                    assert(out@ =~= legend_upto(self@, mode, i + 1));
                    assert(out@.len() >= " : "@.len());
                }
            }
            i = i + 1;
        }
        out
    }
}
} // verus!
