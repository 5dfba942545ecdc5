//! Text helpers shared by the spellings and identifiers that the scanner
//! and the wrapper names build.
use vstd::prelude::*;

verus! {

/// Joins `parts` with `sep` between each two neighbours.
pub open spec fn join(parts: Seq<Seq<char>>, sep: Seq<char>) -> Seq<char>
    decreases parts.len(),
{
    if parts.len() == 0 {
        Seq::empty()
    } else if parts.len() == 1 {
        parts[0]
    } else {
        join(parts.drop_last(), sep) + sep + parts.last()
    }
}

/// The views of a vector of strings.
pub open spec fn views(strings: Seq<String>) -> Seq<Seq<char>> {
    strings.map_values(|s: String| s@)
}

/// Joins the strings of `parts` with `sep`.
pub fn join_strings(parts: &Vec<String>, sep: &str) -> (res: String)
    ensures
        res@ == join(views(parts@), sep@),
{
    let mut res = String::new();
    let ghost all = views(parts@);
    let mut i: usize = 0;
    while i < parts.len()
        invariant
            i <= parts.len(),
            all == views(parts@),
            all.len() == parts.len(),
            res@ == join(all.take(i as int), sep@),
        decreases parts.len() - i,
    {
        proof {
            assert(all.take(i + 1).drop_last() =~= all.take(i as int));
            assert(all.take(i + 1).last() == parts@[i as int]@);
        }
        if i != 0 {
            res.append(sep);
        } else {
            assert(all.take(1) =~= seq![all[0]]);
        }
        res.append(parts[i].as_str());
        i = i + 1;
    }
    proof {
        assert(all.take(parts.len() as int) =~= all);
    }
    res
}

/// Whether two pieces of text are the same.
pub fn text_eq(a: &str, b: &str) -> (r: bool)
    ensures
        r == (a@ == b@),
{
    a.to_owned() == b.to_owned()
}

/// The decimal digit `d` as a character.
pub open spec fn digit(d: nat) -> char {
    (48 + d) as char
}

/// The decimal spelling of `n`, most significant digit first, with no
/// leading zero.
pub open spec fn decimal(n: nat) -> Seq<char>
    decreases n,
{
    if n < 10 {
        seq![digit(n)]
    } else {
        decimal(n / 10) + seq![digit(n % 10)]
    }
}

fn digit_text(d: usize) -> (r: &'static str)
    requires
        d < 10,
    ensures
        r@ == seq![digit(d as nat)],
{
    proof {
        reveal_strlit("0");
        reveal_strlit("1");
        reveal_strlit("2");
        reveal_strlit("3");
        reveal_strlit("4");
        reveal_strlit("5");
        reveal_strlit("6");
        reveal_strlit("7");
        reveal_strlit("8");
        reveal_strlit("9");
    }
    match d {
        0 => "0",
        1 => "1",
        2 => "2",
        3 => "3",
        4 => "4",
        5 => "5",
        6 => "6",
        7 => "7",
        8 => "8",
        _ => "9",
    }
}

/// Spells `n` in decimal.
pub fn decimal_string(n: usize) -> (res: String)
    ensures
        res@ == decimal(n as nat),
    decreases n,
{
    if n < 10 {
        digit_text(n).to_owned()
    } else {
        let mut res = decimal_string(n / 10);
        res.append(digit_text(n % 10));
        res
    }
}

/// Whether `pattern` appears in `text` as a contiguous run.
pub open spec fn occurs_in(pattern: Seq<char>, text: Seq<char>) -> bool {
    exists|i: int|
        0 <= i && i + pattern.len() <= text.len() && #[trigger] text.subrange(i, i + pattern.len())
            == pattern
}

/// A text written around `pattern` holds it.
pub proof fn lemma_occurs_in_middle(before: Seq<char>, pattern: Seq<char>, after: Seq<char>)
    ensures
        occurs_in(pattern, before + pattern + after),
{
    let text = before + pattern + after;
    let i = before.len() as int;
    assert(text.subrange(i, i + pattern.len()) =~= pattern);
}

/// What a text holds, a longer text that starts with it holds too.
pub proof fn lemma_occurs_in_prefix(pattern: Seq<char>, text: Seq<char>, more: Seq<char>)
    requires
        occurs_in(pattern, text),
    ensures
        occurs_in(pattern, text + more),
{
    let i = choose|i: int|
        0 <= i && i + pattern.len() <= text.len() && #[trigger] text.subrange(i, i + pattern.len())
            == pattern;
    assert((text + more).subrange(i, i + pattern.len()) =~= text.subrange(i, i + pattern.len()));
}

/// What a text holds, a longer text that ends with it holds too.
pub proof fn lemma_occurs_in_suffix(pattern: Seq<char>, before: Seq<char>, text: Seq<char>)
    requires
        occurs_in(pattern, text),
    ensures
        occurs_in(pattern, before + text),
{
    let i = choose|i: int|
        0 <= i && i + pattern.len() <= text.len() && #[trigger] text.subrange(i, i + pattern.len())
            == pattern;
    let j = i + before.len();
    assert((before + text).subrange(j, j + pattern.len()) =~= text.subrange(i, i + pattern.len()));
}

} // verus!
