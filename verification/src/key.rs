//! Turning parameters into string keys.
//!
//! Every parameter of a cached call contributes one textual fragment. The
//! fragments of a call, in order and after the segments of the namespace, are
//! joined with a comma into the key under which the call's result is stored.
//!
//! A scalar renders as it prints. A sequence renders tagged and delimited, so
//! that a sequence of one element is not taken for the element, and an array
//! carries its length, so that arrays of different lengths are not taken for
//! one another. A tuple renders as its elements, comma-joined: order counts.

use vstd::prelude::*;
use vstd::string::*;

verus! {

/// The character for the decimal digit `d`; `'0'` for anything above nine.
pub open spec fn digit_char(d: nat) -> char {
    if d == 1 {
        '1'
    } else if d == 2 {
        '2'
    } else if d == 3 {
        '3'
    } else if d == 4 {
        '4'
    } else if d == 5 {
        '5'
    } else if d == 6 {
        '6'
    } else if d == 7 {
        '7'
    } else if d == 8 {
        '8'
    } else if d == 9 {
        '9'
    } else {
        '0'
    }
}

/// Whether `c` is one of the ten decimal digits.
pub open spec fn is_digit(c: char) -> bool {
    exists|d: nat| d < 10 && c == #[trigger] digit_char(d)
}

/// The decimal rendering of `n`: most significant digit first, no sign, no
/// leading zero except for zero itself.
pub open spec fn decimal(n: nat) -> Seq<char>
    decreases n,
{
    if n < 10 {
        seq![digit_char(n)]
    } else {
        decimal(n / 10).push(digit_char(n % 10))
    }
}

/// The one-character text of a decimal digit.
fn digit_text(d: usize) -> (text: &'static str)
    requires
        d < 10,
    ensures
        text@ == seq![digit_char(d as nat)],
{
    proof {
        reveal_strlit("0");
        reveal_strlit("1");
        reveal_strlit("2");
        reveal_strlit("3");
        reveal_strlit("4");
        reveal_strlit("5");
        reveal_strlit("6");
        reveal_strlit("7");
        reveal_strlit("8");
        reveal_strlit("9");
    }
    let text = if d == 0 {
        "0"
    } else if d == 1 {
        "1"
    } else if d == 2 {
        "2"
    } else if d == 3 {
        "3"
    } else if d == 4 {
        "4"
    } else if d == 5 {
        "5"
    } else if d == 6 {
        "6"
    } else if d == 7 {
        "7"
    } else if d == 8 {
        "8"
    } else {
        "9"
    };
    assert(text@ =~= seq![digit_char(d as nat)]);
    text
}

/// What is left to render in front of the digits already written: nothing
/// once the remaining quotient is zero.
spec fn leading(rest: nat) -> Seq<char> {
    if rest == 0 {
        Seq::empty()
    } else {
        decimal(rest)
    }
}

/// Renders `n` in decimal.
pub fn render_u32(n: u32) -> (text: String)
    ensures
        text@ == decimal(n as nat),
{
    render_usize(n as usize)
}

/// Renders `n` in decimal.
pub fn render_usize(n: usize) -> (text: String)
    ensures
        text@ == decimal(n as nat),
{
    let mut rest: usize = n / 10;
    let mut text = String::from_str(digit_text(n % 10));
    assert(leading(rest as nat) + text@ =~= decimal(n as nat));
    while rest > 0
        invariant
            leading(rest as nat) + text@ == decimal(n as nat),
        decreases rest,
    {
        let digit: usize = rest % 10;
        let ghost before = rest;
        let ghost written = text@;
        rest = rest / 10;
        text = String::from_str(digit_text(digit)).concat(text.as_str());
        assert(leading(rest as nat) + text@ =~= leading(before as nat) + written);
    }
    assert(leading(0) + text@ =~= text@);
    text
}

/// The fragments of `parts`, in order, with `sep` between neighbours.
pub open spec fn join(parts: Seq<Seq<char>>, sep: Seq<char>) -> Seq<char>
    decreases parts.len(),
{
    if parts.len() == 0 {
        Seq::empty()
    } else if parts.len() == 1 {
        parts[0]
    } else {
        join(parts.drop_last(), sep) + sep + parts.last()
    }
}

/// The views of a list of strings.
pub open spec fn texts(parts: Seq<String>) -> Seq<Seq<char>> {
    Seq::new(parts.len(), |i: int| parts[i]@)
}

/// Joins `parts` with `sep` between neighbours.
pub fn join_strings(parts: &Vec<String>, sep: &str) -> (joined: String)
    ensures
        joined@ == join(texts(parts@), sep@),
{
    let mut joined = String::new();
    let mut i: usize = 0;
    while i < parts.len()
        invariant
            i <= parts.len(),
            joined@ == join(texts(parts@).take(i as int), sep@),
        decreases parts.len() - i,
    {
        let ghost done = texts(parts@).take(i as int);
        let ghost next = texts(parts@).take(i + 1);
        assert(next.drop_last() =~= done);
        assert(next.last() == parts@[i as int]@);
        if i > 0 {
            joined.append(sep);
        } else {
            assert(join(next, sep@) =~= parts@[i as int]@);
            assert(joined@ + parts@[i as int]@ =~= parts@[i as int]@);
        }
        joined.append(parts[i].as_str());
        i = i + 1;
    }
    assert(texts(parts@).take(parts.len() as int) =~= texts(parts@));
    joined
}

/// A parameter that can stand in a cache key.
pub trait AsKey {
    /// The fragment that this value contributes to a key. An impl states
    /// it; where none does, nothing is known of it.
    open spec fn key_fragment(&self) -> Seq<char> {
        arbitrary()
    }

    /// Renders the fragment.
    fn as_key(&self) -> (fragment: String)
        ensures
            fragment@ == self.key_fragment(),
    ;
}

impl AsKey for () {
    open spec fn key_fragment(&self) -> Seq<char> {
        seq!['(', ')']
    }

    fn as_key(&self) -> (fragment: String) {
        proof {
            reveal_strlit("()");
        }
        let fragment = String::from_str("()");
        assert(fragment@ =~= seq!['(', ')']);
        fragment
    }
}

impl AsKey for String {
    open spec fn key_fragment(&self) -> Seq<char> {
        self@
    }

    fn as_key(&self) -> (fragment: String) {
        self.clone()
    }
}

impl AsKey for &str {
    open spec fn key_fragment(&self) -> Seq<char> {
        self@
    }

    fn as_key(&self) -> (fragment: String) {
        String::from_str(self)
    }
}

impl AsKey for u32 {
    open spec fn key_fragment(&self) -> Seq<char> {
        decimal(*self as nat)
    }

    fn as_key(&self) -> (fragment: String) {
        render_u32(*self)
    }
}

/// The fragments of a run of values, in order.
pub open spec fn fragments<T: AsKey>(items: Seq<T>) -> Seq<Seq<char>> {
    Seq::new(items.len(), |i: int| items[i].key_fragment())
}

/// Renders the fragment of every item of a slice.
fn render_all<T: AsKey>(items: &[T]) -> (rendered: Vec<String>)
    ensures
        texts(rendered@) == fragments(items@),
{
    let mut rendered: Vec<String> = Vec::new();
    let mut i: usize = 0;
    while i < items.len()
        invariant
            i <= items.len(),
            rendered.len() == i,
            forall|j: int| 0 <= j < i ==> (#[trigger] rendered@[j])@ == items@[j].key_fragment(),
        decreases items.len() - i,
    {
        rendered.push(items[i].as_key());
        i = i + 1;
    }
    assert(texts(rendered@) =~= fragments(items@));
    rendered
}

impl<T: AsKey> AsKey for Vec<T> {
    open spec fn key_fragment(&self) -> Seq<char> {
        seq!['v', '['] + join(fragments(self@), seq![',']) + seq![']']
    }

    fn as_key(&self) -> (fragment: String) {
        proof {
            reveal_strlit("v[");
            reveal_strlit(",");
            reveal_strlit("]");
        }
        let rendered = render_all(self.as_slice());
        let inner = join_strings(&rendered, ",");
        let mut fragment = String::from_str("v[");
        fragment.append(inner.as_str());
        fragment.append("]");
        assert("v["@ =~= seq!['v', '[']);
        assert(","@ =~= seq![',']);
        assert("]"@ =~= seq![']']);
        fragment
    }
}

impl<T: AsKey, const N: usize> AsKey for [T; N] {
    open spec fn key_fragment(&self) -> Seq<char> {
        seq!['a'] + decimal(N as nat) + seq!['['] + join(fragments(self@), seq![',']) + seq![']']
    }

    fn as_key(&self) -> (fragment: String) {
        proof {
            reveal_strlit("a");
            reveal_strlit("[");
            reveal_strlit(",");
            reveal_strlit("]");
        }
        let rendered = render_all(self.as_slice());
        let inner = join_strings(&rendered, ",");
        let mut fragment = String::from_str("a");
        fragment.append(render_usize(N).as_str());
        fragment.append("[");
        fragment.append(inner.as_str());
        fragment.append("]");
        assert("a"@ =~= seq!['a']);
        assert("["@ =~= seq!['[']);
        assert(","@ =~= seq![',']);
        assert("]"@ =~= seq![']']);
        fragment
    }
}

impl<T: AsKey> AsKey for &[T] {
    open spec fn key_fragment(&self) -> Seq<char> {
        seq!['a', '['] + join(fragments(self@), seq![',']) + seq![']']
    }

    fn as_key(&self) -> (fragment: String) {
        proof {
            reveal_strlit("a[");
            reveal_strlit(",");
            reveal_strlit("]");
        }
        let rendered = render_all(self);
        let inner = join_strings(&rendered, ",");
        let mut fragment = String::from_str("a[");
        fragment.append(inner.as_str());
        fragment.append("]");
        assert("a["@ =~= seq!['a', '[']);
        assert(","@ =~= seq![',']);
        assert("]"@ =~= seq![']']);
        fragment
    }
}

impl<A: AsKey, B: AsKey> AsKey for (A, B) {
    open spec fn key_fragment(&self) -> Seq<char> {
        join(seq![self.0.key_fragment(), self.1.key_fragment()], seq![','])
    }

    fn as_key(&self) -> (fragment: String) {
        let mut rendered: Vec<String> = Vec::new();
        rendered.push(self.0.as_key());
        rendered.push(self.1.as_key());
        proof {
            reveal_strlit(",");
            assert(","@ =~= seq![',']);
            assert(texts(rendered@) =~= seq![self.0.key_fragment(), self.1.key_fragment()]);
        }
        join_strings(&rendered, ",")
    }
}

impl<A: AsKey, B: AsKey, C: AsKey> AsKey for (A, B, C) {
    open spec fn key_fragment(&self) -> Seq<char> {
        join(seq![self.0.key_fragment(), self.1.key_fragment(), self.2.key_fragment()], seq![','])
    }

    fn as_key(&self) -> (fragment: String) {
        let mut rendered: Vec<String> = Vec::new();
        rendered.push(self.0.as_key());
        rendered.push(self.1.as_key());
        rendered.push(self.2.as_key());
        proof {
            reveal_strlit(",");
            assert(","@ =~= seq![',']);
            assert(texts(rendered@) =~= seq![
                self.0.key_fragment(),
                self.1.key_fragment(),
                self.2.key_fragment(),
            ]);
        }
        join_strings(&rendered, ",")
    }
}

impl<A: AsKey, B: AsKey, C: AsKey, D: AsKey> AsKey for (A, B, C, D) {
    open spec fn key_fragment(&self) -> Seq<char> {
        join(
            seq![
                self.0.key_fragment(),
                self.1.key_fragment(),
                self.2.key_fragment(),
                self.3.key_fragment(),
            ],
            seq![','],
        )
    }

    fn as_key(&self) -> (fragment: String) {
        let mut rendered: Vec<String> = Vec::new();
        rendered.push(self.0.as_key());
        rendered.push(self.1.as_key());
        rendered.push(self.2.as_key());
        rendered.push(self.3.as_key());
        proof {
            reveal_strlit(",");
            assert(","@ =~= seq![',']);
            assert(texts(rendered@) =~= seq![
                self.0.key_fragment(),
                self.1.key_fragment(),
                self.2.key_fragment(),
                self.3.key_fragment(),
            ]);
        }
        join_strings(&rendered, ",")
    }
}

impl<A: AsKey, B: AsKey, C: AsKey, D: AsKey, E: AsKey> AsKey for (A, B, C, D, E) {
    open spec fn key_fragment(&self) -> Seq<char> {
        join(
            seq![
                self.0.key_fragment(),
                self.1.key_fragment(),
                self.2.key_fragment(),
                self.3.key_fragment(),
                self.4.key_fragment(),
            ],
            seq![','],
        )
    }

    fn as_key(&self) -> (fragment: String) {
        let mut rendered: Vec<String> = Vec::new();
        rendered.push(self.0.as_key());
        rendered.push(self.1.as_key());
        rendered.push(self.2.as_key());
        rendered.push(self.3.as_key());
        rendered.push(self.4.as_key());
        proof {
            reveal_strlit(",");
            assert(","@ =~= seq![',']);
            assert(texts(rendered@) =~= seq![
                self.0.key_fragment(),
                self.1.key_fragment(),
                self.2.key_fragment(),
                self.3.key_fragment(),
                self.4.key_fragment(),
            ]);
        }
        join_strings(&rendered, ",")
    }
}

impl<A: AsKey, B: AsKey, C: AsKey, D: AsKey, E: AsKey, F: AsKey> AsKey for (A, B, C, D, E, F) {
    open spec fn key_fragment(&self) -> Seq<char> {
        join(
            seq![
                self.0.key_fragment(),
                self.1.key_fragment(),
                self.2.key_fragment(),
                self.3.key_fragment(),
                self.4.key_fragment(),
                self.5.key_fragment(),
            ],
            seq![','],
        )
    }

    fn as_key(&self) -> (fragment: String) {
        let mut rendered: Vec<String> = Vec::new();
        rendered.push(self.0.as_key());
        rendered.push(self.1.as_key());
        rendered.push(self.2.as_key());
        rendered.push(self.3.as_key());
        rendered.push(self.4.as_key());
        rendered.push(self.5.as_key());
        proof {
            reveal_strlit(",");
            assert(","@ =~= seq![',']);
            assert(texts(rendered@) =~= seq![
                self.0.key_fragment(),
                self.1.key_fragment(),
                self.2.key_fragment(),
                self.3.key_fragment(),
                self.4.key_fragment(),
                self.5.key_fragment(),
            ]);
        }
        join_strings(&rendered, ",")
    }
}

impl<
    A: AsKey, B: AsKey, C: AsKey, D: AsKey, E: AsKey, F: AsKey, G: AsKey,
> AsKey for (A, B, C, D, E, F, G) {
    open spec fn key_fragment(&self) -> Seq<char> {
        join(
            seq![
                self.0.key_fragment(),
                self.1.key_fragment(),
                self.2.key_fragment(),
                self.3.key_fragment(),
                self.4.key_fragment(),
                self.5.key_fragment(),
                self.6.key_fragment(),
            ],
            seq![','],
        )
    }

    fn as_key(&self) -> (fragment: String) {
        let mut rendered: Vec<String> = Vec::new();
        rendered.push(self.0.as_key());
        rendered.push(self.1.as_key());
        rendered.push(self.2.as_key());
        rendered.push(self.3.as_key());
        rendered.push(self.4.as_key());
        rendered.push(self.5.as_key());
        rendered.push(self.6.as_key());
        proof {
            reveal_strlit(",");
            assert(","@ =~= seq![',']);
            assert(texts(rendered@) =~= seq![
                self.0.key_fragment(),
                self.1.key_fragment(),
                self.2.key_fragment(),
                self.3.key_fragment(),
                self.4.key_fragment(),
                self.5.key_fragment(),
                self.6.key_fragment(),
            ]);
        }
        join_strings(&rendered, ",")
    }
}

impl<
    A: AsKey, B: AsKey, C: AsKey, D: AsKey, E: AsKey, F: AsKey, G: AsKey, H: AsKey,
> AsKey for (A, B, C, D, E, F, G, H) {
    open spec fn key_fragment(&self) -> Seq<char> {
        join(
            seq![
                self.0.key_fragment(),
                self.1.key_fragment(),
                self.2.key_fragment(),
                self.3.key_fragment(),
                self.4.key_fragment(),
                self.5.key_fragment(),
                self.6.key_fragment(),
                self.7.key_fragment(),
            ],
            seq![','],
        )
    }

    fn as_key(&self) -> (fragment: String) {
        let mut rendered: Vec<String> = Vec::new();
        rendered.push(self.0.as_key());
        rendered.push(self.1.as_key());
        rendered.push(self.2.as_key());
        rendered.push(self.3.as_key());
        rendered.push(self.4.as_key());
        rendered.push(self.5.as_key());
        rendered.push(self.6.as_key());
        rendered.push(self.7.as_key());
        proof {
            reveal_strlit(",");
            assert(","@ =~= seq![',']);
            assert(texts(rendered@) =~= seq![
                self.0.key_fragment(),
                self.1.key_fragment(),
                self.2.key_fragment(),
                self.3.key_fragment(),
                self.4.key_fragment(),
                self.5.key_fragment(),
                self.6.key_fragment(),
                self.7.key_fragment(),
            ]);
        }
        join_strings(&rendered, ",")
    }
}

impl<
    A: AsKey, B: AsKey, C: AsKey, D: AsKey, E: AsKey, F: AsKey, G: AsKey, H: AsKey, I: AsKey,
> AsKey for (A, B, C, D, E, F, G, H, I) {
    open spec fn key_fragment(&self) -> Seq<char> {
        join(
            seq![
                self.0.key_fragment(),
                self.1.key_fragment(),
                self.2.key_fragment(),
                self.3.key_fragment(),
                self.4.key_fragment(),
                self.5.key_fragment(),
                self.6.key_fragment(),
                self.7.key_fragment(),
                self.8.key_fragment(),
            ],
            seq![','],
        )
    }

    fn as_key(&self) -> (fragment: String) {
        let mut rendered: Vec<String> = Vec::new();
        rendered.push(self.0.as_key());
        rendered.push(self.1.as_key());
        rendered.push(self.2.as_key());
        rendered.push(self.3.as_key());
        rendered.push(self.4.as_key());
        rendered.push(self.5.as_key());
        rendered.push(self.6.as_key());
        rendered.push(self.7.as_key());
        rendered.push(self.8.as_key());
        proof {
            reveal_strlit(",");
            assert(","@ =~= seq![',']);
            assert(texts(rendered@) =~= seq![
                self.0.key_fragment(),
                self.1.key_fragment(),
                self.2.key_fragment(),
                self.3.key_fragment(),
                self.4.key_fragment(),
                self.5.key_fragment(),
                self.6.key_fragment(),
                self.7.key_fragment(),
                self.8.key_fragment(),
            ]);
        }
        join_strings(&rendered, ",")
    }
}

impl<
    A: AsKey, B: AsKey, C: AsKey, D: AsKey, E: AsKey, F: AsKey, G: AsKey, H: AsKey, I: AsKey,
    J: AsKey,
> AsKey for (A, B, C, D, E, F, G, H, I, J) {
    open spec fn key_fragment(&self) -> Seq<char> {
        join(
            seq![
                self.0.key_fragment(),
                self.1.key_fragment(),
                self.2.key_fragment(),
                self.3.key_fragment(),
                self.4.key_fragment(),
                self.5.key_fragment(),
                self.6.key_fragment(),
                self.7.key_fragment(),
                self.8.key_fragment(),
                self.9.key_fragment(),
            ],
            seq![','],
        )
    }

    fn as_key(&self) -> (fragment: String) {
        let mut rendered: Vec<String> = Vec::new();
        rendered.push(self.0.as_key());
        rendered.push(self.1.as_key());
        rendered.push(self.2.as_key());
        rendered.push(self.3.as_key());
        rendered.push(self.4.as_key());
        rendered.push(self.5.as_key());
        rendered.push(self.6.as_key());
        rendered.push(self.7.as_key());
        rendered.push(self.8.as_key());
        rendered.push(self.9.as_key());
        proof {
            reveal_strlit(",");
            assert(","@ =~= seq![',']);
            assert(texts(rendered@) =~= seq![
                self.0.key_fragment(),
                self.1.key_fragment(),
                self.2.key_fragment(),
                self.3.key_fragment(),
                self.4.key_fragment(),
                self.5.key_fragment(),
                self.6.key_fragment(),
                self.7.key_fragment(),
                self.8.key_fragment(),
                self.9.key_fragment(),
            ]);
        }
        join_strings(&rendered, ",")
    }
}

impl<
    A: AsKey, B: AsKey, C: AsKey, D: AsKey, E: AsKey, F: AsKey, G: AsKey, H: AsKey, I: AsKey,
    J: AsKey, K: AsKey,
> AsKey for (A, B, C, D, E, F, G, H, I, J, K) {
    open spec fn key_fragment(&self) -> Seq<char> {
        join(
            seq![
                self.0.key_fragment(),
                self.1.key_fragment(),
                self.2.key_fragment(),
                self.3.key_fragment(),
                self.4.key_fragment(),
                self.5.key_fragment(),
                self.6.key_fragment(),
                self.7.key_fragment(),
                self.8.key_fragment(),
                self.9.key_fragment(),
                self.10.key_fragment(),
            ],
            seq![','],
        )
    }

    fn as_key(&self) -> (fragment: String) {
        let mut rendered: Vec<String> = Vec::new();
        rendered.push(self.0.as_key());
        rendered.push(self.1.as_key());
        rendered.push(self.2.as_key());
        rendered.push(self.3.as_key());
        rendered.push(self.4.as_key());
        rendered.push(self.5.as_key());
        rendered.push(self.6.as_key());
        rendered.push(self.7.as_key());
        rendered.push(self.8.as_key());
        rendered.push(self.9.as_key());
        rendered.push(self.10.as_key());
        proof {
            reveal_strlit(",");
            assert(","@ =~= seq![',']);
            assert(texts(rendered@) =~= seq![
                self.0.key_fragment(),
                self.1.key_fragment(),
                self.2.key_fragment(),
                self.3.key_fragment(),
                self.4.key_fragment(),
                self.5.key_fragment(),
                self.6.key_fragment(),
                self.7.key_fragment(),
                self.8.key_fragment(),
                self.9.key_fragment(),
                self.10.key_fragment(),
            ]);
        }
        join_strings(&rendered, ",")
    }
}

impl<
    A: AsKey, B: AsKey, C: AsKey, D: AsKey, E: AsKey, F: AsKey, G: AsKey, H: AsKey, I: AsKey,
    J: AsKey, K: AsKey, L: AsKey,
> AsKey for (A, B, C, D, E, F, G, H, I, J, K, L) {
    open spec fn key_fragment(&self) -> Seq<char> {
        join(
            seq![
                self.0.key_fragment(),
                self.1.key_fragment(),
                self.2.key_fragment(),
                self.3.key_fragment(),
                self.4.key_fragment(),
                self.5.key_fragment(),
                self.6.key_fragment(),
                self.7.key_fragment(),
                self.8.key_fragment(),
                self.9.key_fragment(),
                self.10.key_fragment(),
                self.11.key_fragment(),
            ],
            seq![','],
        )
    }

    fn as_key(&self) -> (fragment: String) {
        let mut rendered: Vec<String> = Vec::new();
        rendered.push(self.0.as_key());
        rendered.push(self.1.as_key());
        rendered.push(self.2.as_key());
        rendered.push(self.3.as_key());
        rendered.push(self.4.as_key());
        rendered.push(self.5.as_key());
        rendered.push(self.6.as_key());
        rendered.push(self.7.as_key());
        rendered.push(self.8.as_key());
        rendered.push(self.9.as_key());
        rendered.push(self.10.as_key());
        rendered.push(self.11.as_key());
        proof {
            reveal_strlit(",");
            assert(","@ =~= seq![',']);
            assert(texts(rendered@) =~= seq![
                self.0.key_fragment(),
                self.1.key_fragment(),
                self.2.key_fragment(),
                self.3.key_fragment(),
                self.4.key_fragment(),
                self.5.key_fragment(),
                self.6.key_fragment(),
                self.7.key_fragment(),
                self.8.key_fragment(),
                self.9.key_fragment(),
                self.10.key_fragment(),
                self.11.key_fragment(),
            ]);
        }
        join_strings(&rendered, ",")
    }
}

/// Every rendering has at least one character, and all of them are digits.
pub proof fn lemma_decimal_digits(n: nat)
    ensures
        decimal(n).len() >= 1,
        forall|i: int| 0 <= i < decimal(n).len() ==> is_digit(#[trigger] decimal(n)[i]),
    decreases n,
{
    if n < 10 {
        assert(is_digit(digit_char(n)));
    } else {
        lemma_decimal_digits(n / 10);
        assert(is_digit(digit_char(n % 10)));
    }
}

/// Different numbers render differently.
pub proof fn lemma_decimal_injective(a: nat, b: nat)
    requires
        decimal(a) == decimal(b),
    ensures
        a == b,
    decreases a,
{
    lemma_decimal_digits(a / 10);
    lemma_decimal_digits(b / 10);
    if a < 10 && b < 10 {
        assert(decimal(a)[0] == digit_char(a));
        assert(decimal(b)[0] == digit_char(b));
    } else if a < 10 {
        assert(decimal(a).len() == 1);
        assert(decimal(b).len() == decimal(b / 10).len() + 1);
    } else if b < 10 {
        assert(decimal(b).len() == 1);
        assert(decimal(a).len() == decimal(a / 10).len() + 1);
    } else {
        assert(decimal(a).drop_last() =~= decimal(a / 10));
        assert(decimal(b).drop_last() =~= decimal(b / 10));
        assert(decimal(a).last() == digit_char(a % 10));
        assert(decimal(b).last() == digit_char(b % 10));
        lemma_decimal_injective(a / 10, b / 10);
    }
}

/// A vector never has the fragment of a number, not even a vector of that
/// one number.
pub proof fn lemma_vec_is_not_a_number<T: AsKey>(vec: Vec<T>, n: u32)
    ensures
        vec.key_fragment() != n.key_fragment(),
{
    lemma_decimal_digits(n as nat);
    assert(vec.key_fragment()[0] == 'v');
    assert(is_digit(n.key_fragment()[0]));
}

/// Sequence-length disambiguation, between kinds: an array never has the
/// fragment of a vector, whatever the two hold.
pub proof fn lemma_array_is_not_vec<T: AsKey, const N: usize>(array: [T; N], vec: Vec<T>)
    ensures
        array.key_fragment() != vec.key_fragment(),
{
    assert(array.key_fragment()[0] == 'a');
    assert(vec.key_fragment()[0] == 'v');
}

/// Sequence-length disambiguation, between kinds: an array never has the
/// fragment of a slice, whatever the two hold.
pub proof fn lemma_array_is_not_slice<T: AsKey, const N: usize>(array: [T; N], slice: &[T])
    ensures
        array.key_fragment() != slice.key_fragment(),
{
    lemma_decimal_digits(N as nat);
    let digit = decimal(N as nat)[0];
    assert(is_digit(digit));
    assert(array.key_fragment()[1] == digit);
    assert(slice.key_fragment()[1] == '[');
}

/// Sequence-length disambiguation, between lengths: arrays of different
/// lengths have different fragments, whatever they hold.
pub proof fn lemma_array_lengths_differ<T: AsKey, const N: usize, const M: usize>(
    first: [T; N],
    second: [T; M],
)
    requires
        N != M,
    ensures
        first.key_fragment() != second.key_fragment(),
{
    let first_length = decimal(N as nat);
    let second_length = decimal(M as nat);
    lemma_decimal_digits(N as nat);
    lemma_decimal_digits(M as nat);
    let left = first.key_fragment();
    let right = second.key_fragment();
    if left == right {
        if first_length.len() < second_length.len() {
            let at = first_length.len() as int;
            assert(left[1 + at] == '[');
            assert(right[1 + at] == second_length[at]);
            assert(is_digit(second_length[at]));
        } else if second_length.len() < first_length.len() {
            let at = second_length.len() as int;
            assert(right[1 + at] == '[');
            assert(left[1 + at] == first_length[at]);
            assert(is_digit(first_length[at]));
        } else {
            let end = 1 + first_length.len() as int;
            assert(left.subrange(1, end) =~= first_length);
            assert(right.subrange(1, end) =~= second_length);
            lemma_decimal_injective(N as nat, M as nat);
        }
    }
}

/// Joining two runs of fragments is joining each and putting the delimiter
/// between the two.
pub proof fn lemma_join_split(front: Seq<Seq<char>>, back: Seq<Seq<char>>, sep: Seq<char>)
    requires
        front.len() > 0,
        back.len() > 0,
    ensures
        join(front + back, sep) == join(front, sep) + sep + join(back, sep),
    decreases back.len(),
{
    let all = front + back;
    assert(all.last() == back.last());
    if back.len() == 1 {
        assert(all.drop_last() =~= front);
    } else {
        assert(all.drop_last() =~= front + back.drop_last());
        lemma_join_split(front, back.drop_last(), sep);
        assert(join(all, sep) =~= join(front, sep) + sep + join(back, sep));
    }
}

/// Whether the delimiter `sep` does not occur in `fragment`.
pub open spec fn free_of(fragment: Seq<char>, sep: char) -> bool {
    forall|i: int| 0 <= i < fragment.len() ==> #[trigger] fragment[i] != sep
}

/// The fragment of a number holds digits only, so none of `,`, `[` and `]`.
pub proof fn lemma_number_is_free_of_delimiters(n: u32)
    ensures
        free_of(n.key_fragment(), ','),
        free_of(n.key_fragment(), '['),
        free_of(n.key_fragment(), ']'),
{
    lemma_decimal_digits(n as nat);
    assert forall|i: int| 0 <= i < n.key_fragment().len() implies {
        &&& #[trigger] n.key_fragment()[i] != ','
        &&& n.key_fragment()[i] != '['
        &&& n.key_fragment()[i] != ']'
    } by {
        assert(is_digit(decimal(n as nat)[i]));
    }
}

/// Two different fragments that are free of the delimiter do not join to the
/// same text in both orders.
pub proof fn lemma_order_matters(first: Seq<char>, second: Seq<char>, sep: char)
    requires
        first != second,
        free_of(first, sep),
        free_of(second, sep),
    ensures
        join(seq![first, second], seq![sep]) != join(seq![second, first], seq![sep]),
{
    let one = seq![first, second];
    let other = seq![second, first];
    assert(one.drop_last() =~= seq![first]);
    assert(other.drop_last() =~= seq![second]);
    let left = first + seq![sep] + second;
    let right = second + seq![sep] + first;
    assert(join(seq![first], seq![sep]) == first);
    assert(join(seq![second], seq![sep]) == second);
    assert(join(one, seq![sep]) == left);
    assert(join(other, seq![sep]) == right);
    if left == right {
        if first.len() < second.len() {
            assert(left[first.len() as int] == sep);
            assert(right[first.len() as int] == second[first.len() as int]);
        } else if second.len() < first.len() {
            assert(right[second.len() as int] == sep);
            assert(left[second.len() as int] == first[second.len() as int]);
        } else {
            assert(left.subrange(0, first.len() as int) =~= first);
            assert(right.subrange(0, first.len() as int) =~= second);
        }
    }
}

/// Joining is one-to-one on fragments that are free of the delimiter: two
/// runs of such fragments, neither of them empty, that join to the same text
/// are the same run.
pub proof fn lemma_join_injective(one: Seq<Seq<char>>, other: Seq<Seq<char>>, sep: char)
    requires
        one.len() > 0,
        other.len() > 0,
        forall|i: int| 0 <= i < one.len() ==> free_of(#[trigger] one[i], sep),
        forall|i: int| 0 <= i < other.len() ==> free_of(#[trigger] other[i], sep),
        join(one, seq![sep]) == join(other, seq![sep]),
    ensures
        one == other,
    decreases one.len(),
{
    let text = join(one, seq![sep]);
    let last = one.last();
    let other_last = other.last();
    assert(free_of(last, sep));
    assert(free_of(other_last, sep));
    if one.len() == 1 && other.len() == 1 {
        assert(one =~= other);
    } else if one.len() == 1 {
        let front = join(other.drop_last(), seq![sep]);
        assert(text == front + seq![sep] + other_last);
        assert(text[front.len() as int] == sep);
        assert(text == one[0]);
    } else if other.len() == 1 {
        let front = join(one.drop_last(), seq![sep]);
        assert(text == front + seq![sep] + last);
        assert(text[front.len() as int] == sep);
        assert(text == other[0]);
    } else {
        let front = join(one.drop_last(), seq![sep]);
        let other_front = join(other.drop_last(), seq![sep]);
        assert(text == front + seq![sep] + last);
        assert(text == other_front + seq![sep] + other_last);
        if last.len() < other_last.len() {
            let at = front.len() as int;
            assert(text[at] == sep);
            assert(text[at] == other_last[at - other_front.len() - 1]);
        } else if other_last.len() < last.len() {
            let at = other_front.len() as int;
            assert(text[at] == sep);
            assert(text[at] == last[at - front.len() - 1]);
        } else {
            assert(front.len() == other_front.len());
            assert(text.subrange(0, front.len() as int) =~= front);
            assert(text.subrange(0, front.len() as int) =~= other_front);
            assert(text.subrange(front.len() as int + 1, text.len() as int) =~= last);
            assert(text.subrange(front.len() as int + 1, text.len() as int) =~= other_last);
            assert forall|i: int| 0 <= i < one.drop_last().len() implies free_of(
                #[trigger] one.drop_last()[i],
                sep,
            ) by {
                assert(one.drop_last()[i] == one[i]);
            }
            assert forall|i: int| 0 <= i < other.drop_last().len() implies free_of(
                #[trigger] other.drop_last()[i],
                sep,
            ) by {
                assert(other.drop_last()[i] == other[i]);
            }
            lemma_join_injective(one.drop_last(), other.drop_last(), sep);
            assert(one =~= one.drop_last().push(last));
            assert(other =~= other.drop_last().push(other_last));
        }
    }
}

} // verus!
