use vstd::prelude::*;

verus! {

// ── Canonical JSON text ────────────────────────────────────────────────
//
// A small subset of JSON whose texts serde_json writes back unchanged: no
// whitespace; strings of printable ASCII other than `"` and `\`; integers of
// at most fifteen digits without leading zeros (and no `-0`); `true`,
// `false`, `null`; arrays; and objects whose keys are in strictly increasing
// order; nested at most 64 deep.

/// A character that stands for itself in a JSON string that serde_json
/// writes: printable ASCII other than `"` and `\`.
pub open spec fn plain_char(c: char) -> bool {
    ' ' <= c && c <= '~' && c != '"' && c != '\\'
}

/// Whether every character of `s` is a [`plain_char`].
pub open spec fn plain_text(s: Seq<char>) -> bool {
    forall|i: int| 0 <= i < s.len() ==> plain_char(#[trigger] s[i])
}

/// Whether `c` is a decimal digit.
pub open spec fn is_digit(c: char) -> bool {
    '0' <= c && c <= '9'
}

/// Whether `a` comes strictly before `b` in the order of their characters.
pub open spec fn text_less(a: Seq<char>, b: Seq<char>) -> bool
    decreases a.len(),
{
    if a.len() == 0 {
        b.len() > 0
    } else if b.len() == 0 {
        false
    } else if a[0] != b[0] {
        (a[0] as u32) < (b[0] as u32)
    } else {
        text_less(a.drop_first(), b.drop_first())
    }
}

/// Where the body of a string starting at `pos` ends: the position after its
/// closing `"`, where all characters before it are plain.
pub open spec fn string_end(t: Seq<char>, pos: int) -> Option<int>
    decreases t.len() - pos,
{
    if pos < 0 || pos >= t.len() {
        None
    } else if t[pos] == '"' {
        Some(pos + 1)
    } else if plain_char(t[pos]) {
        string_end(t, pos + 1)
    } else {
        None
    }
}

/// The end of the run of digits that starts at `pos`.
pub open spec fn digits_end(t: Seq<char>, pos: int) -> int
    decreases t.len() - pos,
{
    if 0 <= pos < t.len() && is_digit(t[pos]) {
        digits_end(t, pos + 1)
    } else {
        pos
    }
}

/// Where an integer starting at `pos` ends.
pub open spec fn number_end(t: Seq<char>, pos: int) -> Option<int> {
    let start = if 0 <= pos < t.len() && t[pos] == '-' {
        pos + 1
    } else {
        pos
    };
    if start < 0 || start >= t.len() || !is_digit(t[start]) {
        None
    } else if t[start] == '0' {
        if start > pos {
            None
        } else {
            Some(start + 1)
        }
    } else {
        let e = digits_end(t, start);
        if e - start <= 15 {
            Some(e)
        } else {
            None
        }
    }
}

/// Whether `lit` stands in `t` at `pos`.
pub open spec fn literal_at(t: Seq<char>, pos: int, lit: Seq<char>) -> bool {
    0 <= pos && pos + lit.len() <= t.len() && t.subrange(pos, pos + lit.len()) == lit
}

/// Where a canonical value starting at `pos` ends, with arrays and objects
/// nested at most `depth` deep; `fuel` bounds the recursion.
pub open spec fn value_end(t: Seq<char>, pos: int, depth: nat, fuel: nat) -> Option<int>
    decreases fuel,
{
    if fuel == 0 || pos < 0 || pos >= t.len() {
        None
    } else if t[pos] == '"' {
        string_end(t, pos + 1)
    } else if t[pos] == '[' {
        if depth == 0 {
            None
        } else if pos + 1 < t.len() && t[pos + 1] == ']' {
            Some(pos + 2)
        } else {
            items_end(t, pos + 1, (depth - 1) as nat, (fuel - 1) as nat)
        }
    } else if t[pos] == '{' {
        if depth == 0 {
            None
        } else if pos + 1 < t.len() && t[pos + 1] == '}' {
            Some(pos + 2)
        } else {
            members_end(t, pos + 1, (depth - 1) as nat, None, (fuel - 1) as nat)
        }
    } else if literal_at(t, pos, seq!['t', 'r', 'u', 'e']) {
        Some(pos + 4)
    } else if literal_at(t, pos, seq!['f', 'a', 'l', 's', 'e']) {
        Some(pos + 5)
    } else if literal_at(t, pos, seq!['n', 'u', 'l', 'l']) {
        Some(pos + 4)
    } else {
        number_end(t, pos)
    }
}

/// Where the elements of an array, starting at `pos`, end with the closing `]`.
pub open spec fn items_end(t: Seq<char>, pos: int, depth: nat, fuel: nat) -> Option<int>
    decreases fuel,
{
    if fuel == 0 {
        None
    } else {
        match value_end(t, pos, depth, (fuel - 1) as nat) {
            Some(e) => if 0 <= e < t.len() && t[e] == ',' {
                items_end(t, e + 1, depth, (fuel - 1) as nat)
            } else if 0 <= e < t.len() && t[e] == ']' {
                Some(e + 1)
            } else {
                None
            },
            None => None,
        }
    }
}

/// Where the members of an object, starting at `pos`, end with the closing
/// `}`; each key must come after `prev`, the key before it.
pub open spec fn members_end(
    t: Seq<char>,
    pos: int,
    depth: nat,
    prev: Option<Seq<char>>,
    fuel: nat,
) -> Option<int>
    decreases fuel,
{
    if fuel == 0 || pos < 0 || pos >= t.len() || t[pos] != '"' {
        None
    } else {
        match string_end(t, pos + 1) {
            Some(k) => {
                let key = t.subrange(pos + 1, k - 1);
                if (prev is Some && !text_less(prev->0, key)) || k >= t.len() || t[k] != ':' {
                    None
                } else {
                    match value_end(t, k + 1, depth, (fuel - 1) as nat) {
                        Some(e) => if 0 <= e < t.len() && t[e] == ',' {
                            members_end(t, e + 1, depth, Some(key), (fuel - 1) as nat)
                        } else if 0 <= e < t.len() && t[e] == '}' {
                            Some(e + 1)
                        } else {
                            None
                        },
                        None => None,
                    }
                }
            },
            None => None,
        }
    }
}

/// Whether `v` is canonical JSON text: text that serde_json, having parsed
/// it into a value, writes back in compact form unchanged.
pub open spec fn canonical_json(v: Seq<char>) -> bool {
    value_end(v, 0, 64, 2 * v.len() + 2) == Some(v.len() as int)
}

/// The text of a JSON object with the single member `key` whose value is
/// written `v`: `{"key":v}`.
pub open spec fn member_object(key: Seq<char>, v: Seq<char>) -> Seq<char> {
    seq!['{', '"'] + key + seq!['"', ':'] + v + seq!['}']
}

/// The JSON text of the string `s`: `"s"`.
pub open spec fn json_string(s: Seq<char>) -> Seq<char> {
    seq!['"'] + s + seq!['"']
}

/// The JSON text of the array of the two strings `a` and `b`: `["a","b"]`.
pub open spec fn json_string_pair(a: Seq<char>, b: Seq<char>) -> Seq<char> {
    seq!['['] + json_string(a) + seq![','] + json_string(b) + seq![']']
}

proof fn lemma_string_end(t: Seq<char>, p: int, n: int)
    requires
        0 <= p,
        0 <= n,
        p + n < t.len(),
        forall|i: int| p <= i < p + n ==> plain_char(#[trigger] t[i]),
        t[p + n] == '"',
    ensures
        string_end(t, p) == Some(p + n + 1),
    decreases n,
{
    if n > 0 {
        lemma_string_end(t, p + 1, n - 1);
    }
}

/// An array of two plain strings is canonical text, whatever the strings.
pub proof fn lemma_string_pair_canonical(a: Seq<char>, b: Seq<char>)
    requires
        plain_text(a),
        plain_text(b),
    ensures
        canonical_json(json_string_pair(a, b)),
{
    let t = json_string_pair(a, b);
    let la = a.len() as int;
    let lb = b.len() as int;
    assert(t.len() == la + lb + 7);
    assert(t[0] == '[');
    assert(t[1] == '"');
    assert forall|i: int| 2 <= i < 2 + la implies plain_char(#[trigger] t[i]) by {
        assert(t[i] == a[i - 2]);
    }
    assert(t[2 + la] == '"');
    assert(t[3 + la] == ',');
    assert(t[4 + la] == '"');
    assert forall|i: int| 5 + la <= i < 5 + la + lb implies plain_char(#[trigger] t[i]) by {
        assert(t[i] == b[i - 5 - la]);
    }
    assert(t[5 + la + lb] == '"');
    assert(t[6 + la + lb] == ']');
    lemma_string_end(t, 2, la);
    lemma_string_end(t, 5 + la, lb);
    let fuel = (2 * t.len() + 2) as nat;
    assert(value_end(t, 4 + la, 63, (fuel - 3) as nat) == Some(6 + la + lb));
    assert(items_end(t, 4 + la, 63, (fuel - 2) as nat) == Some(7 + la + lb));
    assert(value_end(t, 1, 63, (fuel - 2) as nat) == Some(3 + la));
    assert(items_end(t, 1, 63, (fuel - 1) as nat) == Some(7 + la + lb));
    assert(t[1] != ']');
    assert(value_end(t, 0, 64, fuel) == Some(t.len() as int));
}

} // verus!
