use vstd::prelude::*;

use crate::text::push_char;

verus! {

/// One timing unit of morse code: a short press or a long one.
#[derive(Debug, Clone, Copy, PartialEq, Eq, Structural)]
pub enum MorseSymbol {
    Dit,
    Dah,
}

/// True for the lowercase latin letters `a` to `z`.
pub open spec fn is_letter(c: char) -> bool {
    'a' <= c && c <= 'z'
}

/// The canonical international morse sequence of a lowercase letter.
pub open spec fn morse_code(c: char) -> Option<Seq<MorseSymbol>> {
    let t = MorseSymbol::Dit;
    let a = MorseSymbol::Dah;
    match c {
        'a' => Some(seq![t, a]),
        'b' => Some(seq![a, t, t, t]),
        'c' => Some(seq![a, t, a, t]),
        'd' => Some(seq![a, t, t]),
        'e' => Some(seq![t]),
        'f' => Some(seq![t, t, a, t]),
        'g' => Some(seq![a, a, t]),
        'h' => Some(seq![t, t, t, t]),
        'i' => Some(seq![t, t]),
        'j' => Some(seq![t, a, a, a]),
        'k' => Some(seq![a, t, a]),
        'l' => Some(seq![t, a, t, t]),
        'm' => Some(seq![a, a]),
        'n' => Some(seq![a, t]),
        'o' => Some(seq![a, a, a]),
        'p' => Some(seq![t, a, a, t]),
        'q' => Some(seq![a, a, t, a]),
        'r' => Some(seq![t, a, t]),
        's' => Some(seq![t, t, t]),
        't' => Some(seq![a]),
        'u' => Some(seq![t, t, a]),
        'v' => Some(seq![t, t, t, a]),
        'w' => Some(seq![t, a, a]),
        'x' => Some(seq![a, t, t, a]),
        'y' => Some(seq![a, t, a, a]),
        'z' => Some(seq![a, a, t, t]),
        _ => None,
    }
}

/// The letter whose canonical sequence is exactly `s`, if there is one.
pub open spec fn letter_of(s: Seq<MorseSymbol>) -> Option<char> {
    if exists|c: char| morse_code(c) == Some(s) {
        Some(choose|c: char| morse_code(c) == Some(s))
    } else {
        None
    }
}

spec fn bit(x: MorseSymbol) -> int {
    match x {
        MorseSymbol::Dit => 0,
        MorseSymbol::Dah => 1,
    }
}

/// Position of a sequence of up to four symbols in the binary morse tree:
/// the root is 1, a dit goes to the left child and a dah to the right one.
spec fn tree_key(s: Seq<MorseSymbol>) -> int {
    if s.len() == 0 {
        1
    } else if s.len() == 1 {
        2 + bit(s[0])
    } else if s.len() == 2 {
        4 + 2 * bit(s[0]) + bit(s[1])
    } else if s.len() == 3 {
        8 + 4 * bit(s[0]) + 2 * bit(s[1]) + bit(s[2])
    } else if s.len() == 4 {
        16 + 8 * bit(s[0]) + 4 * bit(s[1]) + 2 * bit(s[2]) + bit(s[3])
    } else {
        0
    }
}

/// The tree position of each letter's sequence.
spec fn letter_key(c: char) -> int {
    match c {
        'a' => 5,
        'b' => 24,
        'c' => 26,
        'd' => 12,
        'e' => 2,
        'f' => 18,
        'g' => 14,
        'h' => 16,
        'i' => 4,
        'j' => 23,
        'k' => 13,
        'l' => 20,
        'm' => 7,
        'n' => 6,
        'o' => 15,
        'p' => 22,
        'q' => 29,
        'r' => 10,
        's' => 8,
        't' => 3,
        'u' => 9,
        'v' => 17,
        'w' => 11,
        'x' => 25,
        'y' => 27,
        'z' => 28,
        _ => 0,
    }
}

proof fn lemma_tree_key_injective(s1: Seq<MorseSymbol>, s2: Seq<MorseSymbol>)
    requires
        1 <= s1.len() <= 4,
        1 <= s2.len() <= 4,
        tree_key(s1) == tree_key(s2),
    ensures
        s1 == s2,
{
    assert forall|x: MorseSymbol, y: MorseSymbol| bit(x) == bit(y) implies x == y by {}
    assert forall|x: MorseSymbol| 0 <= #[trigger] bit(x) <= 1 by {}
    assert(s1.len() == s2.len());
    assert(s1 =~= s2);
}

proof fn lemma_letter_key(c: char)
    requires
        morse_code(c).is_some(),
    ensures
        is_letter(c),
        1 <= morse_code(c).unwrap().len() <= 4,
        tree_key(morse_code(c).unwrap()) == letter_key(c),
{
}

/// No two letters share a morse sequence.
pub proof fn lemma_code_injective(c1: char, c2: char)
    requires
        morse_code(c1).is_some(),
        morse_code(c1) == morse_code(c2),
    ensures
        c1 == c2,
{
    lemma_letter_key(c1);
    lemma_letter_key(c2);
}

/// The letter that a canonical sequence decodes to is the one it encodes.
pub proof fn lemma_letter_of_code(c: char)
    requires
        morse_code(c).is_some(),
    ensures
        letter_of(morse_code(c).unwrap()) == Some(c),
{
    let s = morse_code(c).unwrap();
    let d = choose|d: char| morse_code(d) == Some(s);
    lemma_code_injective(c, d);
}

/// Every letter has a sequence, and that sequence decodes back to the letter.
pub proof fn lemma_round_trip(c: char)
    requires
        is_letter(c),
    ensures
        morse_code(c).is_some(),
        letter_of(morse_code(c).unwrap()) == Some(c),
{
    lemma_letter_of_code(c);
}

/// Decodes one letter from its dit/dah sequence by exact comparison with the
/// canonical table; any other sequence gives `None`.
pub fn decode_symbols(symbols: &Vec<MorseSymbol>) -> (r: Option<char>)
    ensures
        r == letter_of(symbols@),
        forall|c: char| r == Some(c) <==> morse_code(c) == Some(symbols@),
{
    let n = symbols.len();
    if n == 0 || n > 4 {
        proof {
            assert forall|c: char| morse_code(c) != Some(symbols@) by {
                if morse_code(c).is_some() {
                    lemma_letter_key(c);
                }
            }
        }
        return None;
    }
    let mut k: u8 = 1;
    let mut i: usize = 0;
    while i < n
        invariant
            n == symbols@.len(),
            1 <= n <= 4,
            i <= n,
            k as int == tree_key(symbols@.take(i as int)),
        decreases n - i,
    {
        let b: u8 = match symbols[i] {
            MorseSymbol::Dit => 0,
            MorseSymbol::Dah => 1,
        };
        assert(symbols@.take(i + 1).drop_last() =~= symbols@.take(i as int));
        k = 2 * k + b;
        i = i + 1;
    }
    assert(symbols@.take(n as int) =~= symbols@);
    let r = match k {
        2 => Some('e'),
        3 => Some('t'),
        4 => Some('i'),
        5 => Some('a'),
        6 => Some('n'),
        7 => Some('m'),
        8 => Some('s'),
        9 => Some('u'),
        10 => Some('r'),
        11 => Some('w'),
        12 => Some('d'),
        13 => Some('k'),
        14 => Some('g'),
        15 => Some('o'),
        16 => Some('h'),
        17 => Some('v'),
        18 => Some('f'),
        20 => Some('l'),
        22 => Some('p'),
        23 => Some('j'),
        24 => Some('b'),
        25 => Some('x'),
        26 => Some('c'),
        27 => Some('y'),
        28 => Some('z'),
        29 => Some('q'),
        _ => None,
    };
    proof {
        assert forall|c: char| r == Some(c) <==> morse_code(c) == Some(symbols@) by {
            if r == Some(c) {
                lemma_letter_key(c);
                lemma_tree_key_injective(morse_code(c).unwrap(), symbols@);
            }
            if morse_code(c) == Some(symbols@) {
                lemma_letter_key(c);
            }
        }
        if let Some(c) = r {
            lemma_letter_of_code(c);
        }
    }
    r
}

/// The morse sequence of one letter: one to four symbols.
pub struct EndodedChar(Vec<MorseSymbol>);

impl View for EndodedChar {
    type V = Seq<MorseSymbol>;

    closed spec fn view(&self) -> Seq<MorseSymbol> {
        self.0@
    }
}

/// The glyph shown for a symbol.
pub open spec fn glyph(x: MorseSymbol) -> char {
    match x {
        MorseSymbol::Dit => '•',
        MorseSymbol::Dah => '—',
    }
}

/// Each symbol's glyph followed by a space.
pub open spec fn glyphs_text(s: Seq<MorseSymbol>) -> Seq<char>
    decreases s.len(),
{
    if s.len() == 0 {
        Seq::empty()
    } else {
        glyphs_text(s.drop_last()).push(glyph(s.last())).push(' ')
    }
}

/// The fixed-width text of a sequence: its glyphs, padded with two spaces for
/// each of the five slots it leaves free.
pub open spec fn encoded_text(s: Seq<MorseSymbol>) -> Seq<char> {
    glyphs_text(s) + Seq::new((2 * (5 - s.len())) as nat, |i: int| ' ')
}

impl EndodedChar {
    #[verifier::type_invariant]
    spec fn inv(self) -> bool {
        1 <= self.0@.len() <= 4
    }

    /// The symbols of the letter, in order.
    pub fn symbols(&self) -> (r: &Vec<MorseSymbol>)
        ensures
            r@ == self@,
            1 <= r@.len() <= 4,
    {
        proof {
            use_type_invariant(self);
        }
        &self.0
    }

    /// The text shown for the letter in the code table.
    pub fn to_string(&self) -> (r: String)
        ensures
            r@ == encoded_text(self@),
    {
        proof {
            use_type_invariant(self);
        }
        let mut out = String::new();
        let n = self.0.len();
        let mut i: usize = 0;
        while i < n
            invariant
                n == self@.len(),
                i <= n,
                out@ == glyphs_text(self@.take(i as int)),
            decreases n - i,
        {
            let g = match self.0[i] {
                MorseSymbol::Dit => '•',
                MorseSymbol::Dah => '—',
            };
            assert(self@.take(i + 1).drop_last() =~= self@.take(i as int));
            push_char(&mut out, g);
            push_char(&mut out, ' ');
            i = i + 1;
        }
        assert(self@.take(n as int) =~= self@);
        let ghost head = out@;
        let mut j: usize = n;
        while j < 5
            invariant
                n <= j <= 5,
                head == glyphs_text(self@),
                out@ == head + Seq::new((2 * (j - n)) as nat, |k: int| ' '),
            decreases 5 - j,
        {
            push_char(&mut out, ' ');
            push_char(&mut out, ' ');
            assert(out@ =~= head + Seq::new((2 * (j + 1 - n)) as nat, |k: int| ' '));
            j = j + 1;
        }
        out
    }
}

/// The canonical dit/dah sequence of a lowercase latin letter; `None` for any
/// other character.
pub fn encode_character(character: char) -> (r: Option<EndodedChar>)
    ensures
        r.is_some() == is_letter(character),
        r.is_some() ==> morse_code(character) == Some(r.unwrap()@),
        morse_code(character).is_some() == is_letter(character),
{
    let t = MorseSymbol::Dit;
    let a = MorseSymbol::Dah;
    let v = match character {
        'a' => vec![t, a],
        'b' => vec![a, t, t, t],
        'c' => vec![a, t, a, t],
        'd' => vec![a, t, t],
        'e' => vec![t],
        'f' => vec![t, t, a, t],
        'g' => vec![a, a, t],
        'h' => vec![t, t, t, t],
        'i' => vec![t, t],
        'j' => vec![t, a, a, a],
        'k' => vec![a, t, a],
        'l' => vec![t, a, t, t],
        'm' => vec![a, a],
        'n' => vec![a, t],
        'o' => vec![a, a, a],
        'p' => vec![t, a, a, t],
        'q' => vec![a, a, t, a],
        'r' => vec![t, a, t],
        's' => vec![t, t, t],
        't' => vec![a],
        'u' => vec![t, t, a],
        'v' => vec![t, t, t, a],
        'w' => vec![t, a, a],
        'x' => vec![a, t, t, a],
        'y' => vec![a, t, a, a],
        'z' => vec![a, a, t, t],
        _ => {
            return None;
        },
    };
    assert(morse_code(character) == Some(v@));
    Some(EndodedChar(v))
}

} // verus!
