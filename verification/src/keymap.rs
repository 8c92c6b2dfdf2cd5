use vstd::prelude::*;

verus! {

/// The key presses the dashboard reacts to, as plain values.
#[derive(Debug, Clone, Copy, PartialEq, Eq, Structural)]
pub enum KeyCode {
    Char(char),
    Backspace,
    Enter,
    Left,
    Right,
    Up,
    Down,
    Tab,
    Esc,
    Other,
}

/// The modifier held with a key; only plain and control matter here.
#[derive(Debug, Clone, Copy, PartialEq, Eq, Structural)]
pub enum KeyModifier {
    Plain,
    Control,
    Other,
}

/// The uppercase form of a character, as Rust's case mapping renders it.
/// A pure function of the character.
pub uninterp spec fn upper_chars_of(c: char) -> Seq<char>;

/// Relies on `char::to_uppercase` of std: the Unicode uppercase mapping,
/// which depends on the character alone; an ASCII letter maps to its single
/// uppercase form.
#[verifier::external_body]
fn char_upper(c: char) -> (r: String)
    ensures
        r@ == upper_chars_of(c),
        ('a' <= c && c <= 'z') ==> r@.len() == 1 && (r@[0] as u32) == (c as u32) - 32,
{
    c.to_uppercase().to_string()
}

/// The text naming a key: its uppercase character, "SPC" for space,
/// "BackSpace" for backspace, nothing for the rest.
pub open spec fn key_code_text(code: KeyCode) -> Seq<char> {
    match code {
        KeyCode::Char(c) => if c == ' ' {
            "SPC"@
        } else {
            upper_chars_of(c)
        },
        KeyCode::Backspace => "BackSpace"@,
        _ => Seq::empty(),
    }
}

/// The full label of a key stroke: the key's text, with "+Ctrl" behind it
/// when control is held.
pub open spec fn key_label_text(code: KeyCode, modifier: KeyModifier) -> Seq<char> {
    if modifier is Control {
        key_code_text(code) + "+Ctrl"@
    } else {
        key_code_text(code)
    }
}

/// Strict lexicographic order on character sequences, by code point, with a
/// proper prefix ordered before its extensions.
pub open spec fn lex_less(a: Seq<char>, b: Seq<char>) -> bool
    decreases a.len(),
{
    if b.len() == 0 {
        false
    } else if a.len() == 0 {
        true
    } else if a[0] != b[0] {
        (a[0] as u32) < (b[0] as u32)
    } else {
        lex_less(a.drop_first(), b.drop_first())
    }
}

/// A key stroke under a total order, fit to key a sorted map of key
/// bindings.
#[derive(Debug, Clone, Copy, PartialEq, Eq, Structural)]
pub struct KeyEventWrapper {
    pub code: KeyCode,
    pub modifier: KeyModifier,
}

impl KeyEventWrapper {
    pub fn new(code: KeyCode, modifier: KeyModifier) -> (s: Self)
        ensures
            s.code == code,
            s.modifier == modifier,
    {
        KeyEventWrapper { code, modifier }
    }

    pub fn code(&self) -> (r: KeyCode)
        ensures
            r == self.code,
    {
        self.code
    }

    pub fn modifier(&self) -> (r: KeyModifier)
        ensures
            r == self.modifier,
    {
        self.modifier
    }

    /// The stroke's display label.
    pub fn label(&self) -> (r: String)
        ensures
            r@ == key_label_text(self.code, self.modifier),
    {
        let code_text: String = match self.code {
            KeyCode::Char(c) => {
                if c == ' ' {
                    "SPC".to_owned()
                } else {
                    char_upper(c)
                }
            },
            KeyCode::Backspace => "BackSpace".to_owned(),
            _ => String::new(),
        };
        proof {
            assert(code_text@ == key_code_text(self.code));
        }
        match self.modifier {
            KeyModifier::Control => code_text.concat("+Ctrl"),
            _ => code_text,
        }
    }
}

/// Lexicographic comparison of two character sequences held in vectors.
fn compare_char_seqs(a: &Vec<char>, b: &Vec<char>) -> (r: core::cmp::Ordering)
    ensures
        r is Less <==> lex_less(a@, b@),
        r is Greater <==> lex_less(b@, a@),
        r is Equal <==> a@ == b@,
{
    let mut i: usize = 0;
    let a_len = a.len();
    let b_len = b.len();
    proof {
        assert(a@.skip(0) =~= a@);
        assert(b@.skip(0) =~= b@);
    }
    while i < a_len && i < b_len
        invariant
            i <= a@.len(),
            i <= b@.len(),
            a_len == a@.len(),
            b_len == b@.len(),
            forall|j: int| 0 <= j < i ==> a@[j] == b@[j],
            lex_less(a@, b@) == lex_less(a@.skip(i as int), b@.skip(i as int)),
            lex_less(b@, a@) == lex_less(b@.skip(i as int), a@.skip(i as int)),
        decreases a@.len() - i,
    {
        let ca = a[i];
        let cb = b[i];
        if ca != cb {
            proof {
                assert(a@.skip(i as int)[0] == ca);
                assert(b@.skip(i as int)[0] == cb);
                vstd::utf8::char_u32_cast(ca, ca as u32);
                vstd::utf8::char_u32_cast(cb, cb as u32);
            }
            if (ca as u32) < (cb as u32) {
                return core::cmp::Ordering::Less;
            } else {
                proof {
                    assert((cb as u32) < (ca as u32));
                }
                return core::cmp::Ordering::Greater;
            }
        }
        proof {
            assert(a@.skip(i as int).drop_first() =~= a@.skip(i + 1));
            assert(b@.skip(i as int).drop_first() =~= b@.skip(i + 1));
        }
        i = i + 1;
    }
    if a_len == b_len {
        proof {
            assert(a@ =~= b@);
        }
        core::cmp::Ordering::Equal
    } else if a_len < b_len {
        proof {
            assert(lex_less(a@.skip(i as int), b@.skip(i as int)));
            assert(a@ != b@);
        }
        core::cmp::Ordering::Less
    } else {
        proof {
            assert(lex_less(b@.skip(i as int), a@.skip(i as int)));
            assert(a@ != b@);
        }
        core::cmp::Ordering::Greater
    }
}

/// The characters of a string, in order.
pub fn str_to_chars(s: &str) -> (r: Vec<char>)
    ensures
        r@ == s@,
{
    let len = s.unicode_len();
    let mut r: Vec<char> = Vec::new();
    let mut i: usize = 0;
    while i < len
        invariant
            i <= s@.len(),
            len == s@.len(),
            r@ == s@.take(i as int),
        decreases len - i,
    {
        let c = s.get_char(i);
        r.push(c);
        proof {
            assert(r@ =~= s@.take(i + 1));
        }
        i = i + 1;
    }
    proof {
        assert(s@.take(len as int) =~= s@);
    }
    r
}

impl View for KeyEventWrapper {
    type V = KeyEventWrapper;

    open spec fn view(&self) -> KeyEventWrapper {
        *self
    }
}

impl DeepView for KeyEventWrapper {
    type V = KeyEventWrapper;

    open spec fn deep_view(&self) -> KeyEventWrapper {
        *self
    }
}

/// Orders two key strokes by their labels: the order the sorted key-binding
/// listing shows.
pub fn compare_keys(a: &KeyEventWrapper, b: &KeyEventWrapper) -> (r: core::cmp::Ordering)
    ensures
        r is Less <==> lex_less(
            key_label_text(a.code, a.modifier),
            key_label_text(b.code, b.modifier),
        ),
        r is Greater <==> lex_less(
            key_label_text(b.code, b.modifier),
            key_label_text(a.code, a.modifier),
        ),
        r is Equal <==> key_label_text(a.code, a.modifier) == key_label_text(b.code, b.modifier),
{
    let la = a.label();
    let lb = b.label();
    let va = str_to_chars(la.as_str());
    let vb = str_to_chars(lb.as_str());
    compare_char_seqs(&va, &vb)
}

/// The label of one key-binding entry.
pub open spec fn entry_label(e: (KeyEventWrapper, Seq<char>)) -> Seq<char> {
    key_label_text(e.0.code, e.0.modifier)
}

/// A binding listing after one insertion: entries stay ordered by label,
/// and a binding whose label is already present replaces it.
pub open spec fn inserted(
    entries: Seq<(KeyEventWrapper, Seq<char>)>,
    k: KeyEventWrapper,
    d: Seq<char>,
) -> Seq<(KeyEventWrapper, Seq<char>)>
    decreases entries.len(),
{
    let kl = key_label_text(k.code, k.modifier);
    if entries.len() == 0 {
        seq![(k, d)]
    } else if entry_label(entries[0]) == kl {
        seq![(k, d)] + entries.drop_first()
    } else if lex_less(kl, entry_label(entries[0])) {
        seq![(k, d)] + entries
    } else {
        seq![entries[0]] + inserted(entries.drop_first(), k, d)
    }
}

proof fn lemma_lex_less_asym(a: Seq<char>, b: Seq<char>)
    requires
        lex_less(a, b),
    ensures
        a != b,
        !lex_less(b, a),
    decreases a.len(),
{
    if a.len() > 0 && b.len() > 0 && a[0] == b[0] {
        lemma_lex_less_asym(a.drop_first(), b.drop_first());
        assert(a != b) by {
            if a == b {
                assert(a.drop_first() =~= b.drop_first());
            }
        }
    }
}

proof fn lemma_inserted_skip(
    entries: Seq<(KeyEventWrapper, Seq<char>)>,
    k: KeyEventWrapper,
    d: Seq<char>,
    p: int,
)
    requires
        0 <= p <= entries.len(),
        forall|j: int|
            0 <= j < p ==> lex_less(
                entry_label(#[trigger] entries[j]),
                key_label_text(k.code, k.modifier),
            ),
    ensures
        inserted(entries, k, d) == entries.take(p) + inserted(entries.skip(p), k, d),
    decreases p,
{
    if p == 0 {
        assert(entries.skip(0) =~= entries);
        assert(entries.take(0) + inserted(entries, k, d) =~= inserted(entries, k, d));
    } else {
        let kl = key_label_text(k.code, k.modifier);
        lemma_lex_less_asym(entry_label(entries[0]), kl);
        assert(inserted(entries, k, d) == seq![entries[0]] + inserted(entries.drop_first(), k, d));
        assert(entries.drop_first() =~= entries.skip(1));
        lemma_inserted_skip(entries.skip(1), k, d, p - 1);
        assert(entries.skip(1).take(p - 1) =~= entries.take(p).drop_first());
        assert(entries.skip(1).skip(p - 1) =~= entries.skip(p));
        assert(seq![entries[0]] + (entries.take(p).drop_first() + inserted(entries.skip(p), k, d))
            =~= entries.take(p) + inserted(entries.skip(p), k, d));
    }
}

/// Relies on `String`'s `FromIterator` of std: collecting characters gives
/// the string of exactly those characters, in order.
#[verifier::external_body]
pub fn chars_to_string(v: &Vec<char>) -> (r: String)
    ensures
        r@ == v@,
{
    v.iter().collect()
}

/// The key bindings a screen offers, ordered by label for the help footer.
pub struct KeyMaps {
    entries: Vec<(KeyEventWrapper, String)>,
}

impl View for KeyMaps {
    type V = Seq<(KeyEventWrapper, Seq<char>)>;

    closed spec fn view(&self) -> Seq<(KeyEventWrapper, Seq<char>)> {
        self.entries.deep_view()
    }
}

impl KeyMaps {
    pub fn new() -> (r: Self)
        ensures
            r@ == Seq::<(KeyEventWrapper, Seq<char>)>::empty(),
    {
        let r = KeyMaps { entries: Vec::new() };
        proof {
            assert(r@ =~= Seq::<(KeyEventWrapper, Seq<char>)>::empty());
        }
        r
    }

    pub fn len(&self) -> (r: usize)
        ensures
            r == self@.len(),
    {
        self.entries.len()
    }

    pub fn entry(&self, i: usize) -> (r: &(KeyEventWrapper, String))
        requires
            i < self@.len(),
        ensures
            r.deep_view() == self@[i as int],
    {
        &self.entries[i]
    }

    /// Files a binding under its label, replacing a binding with the same
    /// label.
    pub fn insert(&mut self, key: KeyEventWrapper, desc: String)
        ensures
            final(self)@ == inserted(old(self)@, key, desc@),
    {
        let ghost orig = self.entries.deep_view();
        let ghost kl = key_label_text(key.code, key.modifier);
        let mut p: usize = 0;
        let mut stop = false;
        while !stop && p < self.entries.len()
            invariant
                p <= orig.len(),
                self.entries.deep_view() == orig,
                kl == key_label_text(key.code, key.modifier),
                forall|j: int| 0 <= j < p ==> lex_less(entry_label(#[trigger] orig[j]), kl),
                stop ==> p < orig.len() && !lex_less(entry_label(orig[p as int]), kl),
            decreases orig.len() - p + (if !stop {
                1int
            } else {
                0int
            }),
        {
            let pair = &self.entries[p];
            proof {
                assert(orig[p as int].0 == pair.0);
            }
            let ord = compare_keys(&key, &pair.0);
            if let core::cmp::Ordering::Greater = ord {
                p = p + 1;
            } else {
                stop = true;
            }
        }
        proof {
            lemma_inserted_skip(orig, key, desc@, p as int);
        }
        if p < self.entries.len() {
            let pair = &self.entries[p];
            proof {
                assert(orig[p as int].0 == pair.0);
            }
            let ord = compare_keys(&key, &pair.0);
            proof {
                assert(orig.skip(p as int)[0] == orig[p as int]);
            }
            match ord {
                core::cmp::Ordering::Equal => {
                    self.entries.set(p, (key, desc));
                    proof {
                        assert(orig.skip(p as int).drop_first() =~= orig.skip(p + 1));
                        assert(self.entries.deep_view() =~= orig.take(p as int) + (seq![
                            (key, desc@),
                        ] + orig.skip(p + 1)));
                    }
                },
                core::cmp::Ordering::Less => {
                    self.entries.insert(p, (key, desc));
                    proof {
                        assert(self.entries.deep_view() =~= orig.take(p as int) + (seq![
                            (key, desc@),
                        ] + orig.skip(p as int)));
                    }
                },
                core::cmp::Ordering::Greater => {
                    // the scan stopped here because this entry's label is
                    // not below the new one
                    proof {
                        assert(false);
                    }
                },
            }
        } else {
            proof {
                assert(orig.skip(p as int) =~= Seq::<(KeyEventWrapper, Seq<char>)>::empty());
            }
            self.entries.push((key, desc));
            proof {
                assert(self.entries.deep_view() =~= orig.take(p as int) + seq![(key, desc@)]);
            }
        }
    }
}

} // verus!
