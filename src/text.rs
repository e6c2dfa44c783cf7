//! Text building blocks: decimal numbers, joining, durations.
use vstd::prelude::*;

verus! {

/// The character of a decimal digit.
pub open spec fn digit_char(d: nat) -> char {
    if d == 0 { '0' }
    else if d == 1 { '1' }
    else if d == 2 { '2' }
    else if d == 3 { '3' }
    else if d == 4 { '4' }
    else if d == 5 { '5' }
    else if d == 6 { '6' }
    else if d == 7 { '7' }
    else if d == 8 { '8' }
    else { '9' }
}

/// The decimal notation of `n`, without leading zeros ("0" for zero).
pub open spec fn decimal(n: nat) -> Seq<char>
    decreases n,
{
    if n < 10 {
        seq![digit_char(n)]
    } else {
        decimal(n / 10).push(digit_char(n % 10))
    }
}

/// The parts joined, with `sep` between each two neighbours.
pub open spec fn join(parts: Seq<Seq<char>>, sep: Seq<char>) -> Seq<char>
    decreases parts.len(),
{
    if parts.len() == 0 {
        Seq::empty()
    } else if parts.len() == 1 {
        parts[0]
    } else {
        join(parts.drop_last(), sep) + sep + parts.last()
    }
}

/// The views of a sequence of strings.
pub open spec fn views(v: Seq<String>) -> Seq<Seq<char>> {
    v.map_values(|s: String| s@)
}

fn digit_str(d: u64) -> (r: &'static str)
    requires
        d < 10,
    ensures
        r@ == seq![digit_char(d as nat)],
{
    proof {
        reveal_strlit("0");
        reveal_strlit("1");
        reveal_strlit("2");
        reveal_strlit("3");
        reveal_strlit("4");
        reveal_strlit("5");
        reveal_strlit("6");
        reveal_strlit("7");
        reveal_strlit("8");
        reveal_strlit("9");
    }
    if d == 0 { "0" }
    else if d == 1 { "1" }
    else if d == 2 { "2" }
    else if d == 3 { "3" }
    else if d == 4 { "4" }
    else if d == 5 { "5" }
    else if d == 6 { "6" }
    else if d == 7 { "7" }
    else if d == 8 { "8" }
    else { "9" }
}

/// Appends the decimal notation of `n` to `out`.
pub fn push_decimal(out: &mut String, n: u64)
    ensures
        final(out)@ == old(out)@ + decimal(n as nat),
    decreases n,
{
    if n >= 10 {
        push_decimal(out, n / 10);
    }
    out.append(digit_str(n % 10));
    assert(decimal(n as nat) == if n < 10 {
        seq![digit_char(n as nat)]
    } else {
        decimal((n / 10) as nat).push(digit_char((n % 10) as nat))
    });
}

/// The decimal notation of `n`.
pub fn to_decimal(n: u64) -> (r: String)
    ensures
        r@ == decimal(n as nat),
{
    let mut out = String::new();
    push_decimal(&mut out, n);
    out
}

proof fn lemma_join_push(parts: Seq<Seq<char>>, p: Seq<char>, sep: Seq<char>)
    ensures
        join(parts.push(p), sep) == if parts.len() == 0 { p } else { join(parts, sep) + sep + p },
{
    assert(parts.push(p).drop_last() =~= parts);
}

/// The strings of `parts` joined, with `sep` between each two neighbours.
pub fn join_all(parts: &Vec<String>, sep: &str) -> (r: String)
    ensures
        r@ == join(views(parts@), sep@),
{
    let mut out = String::new();
    let mut i: usize = 0;
    while i < parts.len()
        invariant
            i <= parts.len(),
            out@ == join(views(parts@.subrange(0, i as int)), sep@),
        decreases parts.len() - i,
    {
        let ghost before = views(parts@.subrange(0, i as int));
        if i > 0 {
            out.append(sep);
        }
        out.append(parts[i].as_str());
        proof {
            lemma_join_push(before, parts@[i as int]@, sep@);
            assert(views(parts@.subrange(0, i + 1)) =~= before.push(parts@[i as int]@));
        }
        i = i + 1;
    }
    assert(parts@.subrange(0, parts@.len() as int) =~= parts@);
    out
}

/// Whether two texts are equal, character by character.
pub fn same_text(a: &str, b: &str) -> (r: bool)
    ensures
        r == (a@ == b@),
{
    let x = String::from_str(a);
    let y = String::from_str(b);
    x == y
}

/// How a member is mentioned in a message: `<@` and the id and `>`.
pub open spec fn mention_of(id: u64) -> Seq<char> {
    "<@"@ + decimal(id as nat) + ">"@
}

/// The mention of member `id`, as `mention_of` describes.
pub fn mention(id: u64) -> (r: String)
    ensures
        r@ == mention_of(id),
{
    let mut out = String::new();
    out.append("<@");
    push_decimal(&mut out, id);
    out.append(">");
    out
}

pub const MILLIS_PER_DAY: u64 = 86_400_000;
pub const MILLIS_PER_HOUR: u64 = 3_600_000;
pub const MILLIS_PER_MINUTE: u64 = 60_000;
pub const MILLIS_PER_SECOND: u64 = 1_000;

/// One component of a duration: the amount followed by its unit, or nothing
/// when the amount is zero.
pub open spec fn component(amount: nat, unit: Seq<char>) -> Seq<Seq<char>> {
    if amount > 0 { seq![decimal(amount) + unit] } else { Seq::empty() }
}

/// The non-zero components of a duration, largest unit first.
pub open spec fn duration_components(ms: nat) -> Seq<Seq<char>> {
    component(ms / 86_400_000, "d"@)
        + component(ms % 86_400_000 / 3_600_000, "h"@)
        + component(ms % 3_600_000 / 60_000, "m"@)
        + component(ms % 60_000 / 1_000, "s"@)
}

/// A duration in milliseconds as days, hours, minutes and seconds
/// ("1d 1h 1m 1s"); zero components are left out, so less than a second
/// renders as the empty string.
pub open spec fn humanized(ms: nat) -> Seq<char> {
    join(duration_components(ms), " "@)
}

fn push_component(parts: &mut Vec<String>, amount: u64, unit: &str)
    ensures
        views(final(parts)@) == views(old(parts)@) + component(amount as nat, unit@),
{
    if amount > 0 {
        let mut part = to_decimal(amount);
        part.append(unit);
        parts.push(part);
        assert(views(parts@) =~= views(old(parts)@) + component(amount as nat, unit@));
    } else {
        assert(views(parts@) =~= views(old(parts)@) + component(amount as nat, unit@));
    }
}

/// Renders a duration given in milliseconds, as `humanized` describes.
pub fn humanize(milliseconds: u64) -> (r: String)
    ensures
        r@ == humanized(milliseconds as nat),
{
    let mut parts: Vec<String> = Vec::new();
    push_component(&mut parts, milliseconds / MILLIS_PER_DAY, "d");
    push_component(&mut parts, milliseconds % MILLIS_PER_DAY / MILLIS_PER_HOUR, "h");
    push_component(&mut parts, milliseconds % MILLIS_PER_HOUR / MILLIS_PER_MINUTE, "m");
    push_component(&mut parts, milliseconds % MILLIS_PER_MINUTE / MILLIS_PER_SECOND, "s");
    proof {
        assert(views(Seq::<String>::empty()) =~= Seq::<Seq<char>>::empty());
        assert(duration_components(milliseconds as nat) =~= views(parts@));
    }
    join_all(&parts, " ")
}

} // verus!
