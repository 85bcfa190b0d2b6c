//! Building the texts that players read.
use vstd::prelude::*;

verus! {

/// The character of the decimal digit `n`.
pub open spec fn digit(n: nat) -> char {
    ('0' as nat + n) as char
}

/// The decimal numeral of `n`.
pub open spec fn decimal(n: nat) -> Seq<char>
    decreases n,
{
    if n < 10 {
        seq![digit(n)]
    } else {
        decimal(n / 10).push(digit(n % 10))
    }
}

/// The decimal numeral of `n`, with a minus sign below zero.
pub open spec fn signed_decimal(n: int) -> Seq<char> {
    if n < 0 {
        "-"@ + decimal((-n) as nat)
    } else {
        decimal(n as nat)
    }
}

fn digit_text(d: u64) -> (r: &'static str)
    requires
        d < 10,
    ensures
        r@ == seq![digit(d as nat)],
{
    proof {
        reveal_strlit("0");
        reveal_strlit("1");
        reveal_strlit("2");
        reveal_strlit("3");
        reveal_strlit("4");
        reveal_strlit("5");
        reveal_strlit("6");
        reveal_strlit("7");
        reveal_strlit("8");
        reveal_strlit("9");
    }
    let r = match d {
        0 => "0",
        1 => "1",
        2 => "2",
        3 => "3",
        4 => "4",
        5 => "5",
        6 => "6",
        7 => "7",
        8 => "8",
        _ => "9",
    };
    assert(r@ =~= seq![digit(d as nat)]);
    r
}

/// The decimal numeral of an unsigned number.
pub fn decimal_u64(n: u64) -> (r: String)
    ensures
        r@ == decimal(n as nat),
    decreases n,
{
    if n < 10 {
        digit_text(n).to_owned()
    } else {
        let mut s = decimal_u64(n / 10);
        s.append(digit_text(n % 10));
        assert(s@ =~= decimal(n as nat));
        s
    }
}

/// The decimal numeral of a signed number.
pub fn decimal_i64(n: i64) -> (r: String)
    ensures
        r@ == signed_decimal(n as int),
{
    if n < 0 {
        let magnitude: u64 = (-(n as i128)) as u64;
        let mut s = "-".to_owned();
        s.append(decimal_u64(magnitude).as_str());
        s
    } else {
        decimal_u64(n as u64)
    }
}

/// Whether two texts hold the same characters.
pub fn same_text(a: &str, b: &str) -> (r: bool)
    ensures
        r == (a@ == b@),
{
    a.to_owned() == b.to_owned()
}

/// The contents of a list of strings.
pub open spec fn contents(v: Seq<String>) -> Seq<Seq<char>> {
    v.map_values(|s: String| s@)
}

/// `parts` in order, with `sep` between neighbours.
pub open spec fn joined(parts: Seq<Seq<char>>, sep: Seq<char>) -> Seq<char>
    decreases parts.len(),
{
    if parts.len() == 0 {
        Seq::empty()
    } else if parts.len() == 1 {
        parts[0]
    } else {
        joined(parts.drop_last(), sep) + sep + parts.last()
    }
}

/// Joins texts with a separator.
pub fn join_texts(parts: &Vec<String>, sep: &str) -> (r: String)
    ensures
        r@ == joined(contents(parts@), sep@),
{
    let ghost all = contents(parts@);
    if parts.len() == 0 {
        return String::new();
    }
    let mut r = parts[0].clone();
    let mut i: usize = 1;
    assert(all.take(1) =~= seq![parts@[0]@]);
    while i < parts.len()
        invariant
            1 <= i <= parts.len(),
            all == contents(parts@),
            r@ == joined(all.take(i as int), sep@),
        decreases parts.len() - i,
    {
        r.append(sep);
        r.append(parts[i].as_str());
        assert(all.take(i as int + 1).drop_last() =~= all.take(i as int));
        assert(all.take(i as int + 1).last() == parts@[i as int]@);
        i = i + 1;
    }
    assert(all.take(parts@.len() as int) =~= all);
    r
}

/// The tag that mentions the user with this id.
pub open spec fn tag(user: int) -> Seq<char> {
    "<@"@ + signed_decimal(user) + ">"@
}

/// The tag that mentions a user.
pub fn tag_i64(user: i64) -> (r: String)
    ensures
        r@ == tag(user as int),
{
    let mut s = "<@".to_owned();
    s.append(decimal_i64(user).as_str());
    s.append(">");
    s
}

/// The tag that mentions a user.
pub fn tag_u64(user: u64) -> (r: String)
    ensures
        r@ == tag(user as int),
{
    let mut s = "<@".to_owned();
    s.append(decimal_u64(user).as_str());
    s.append(">");
    s
}

/// A text before another.
pub fn text2(a: &str, b: &str) -> (r: String)
    ensures
        r@ == a@ + b@,
{
    let mut s = a.to_owned();
    s.append(b);
    s
}

/// Three texts in a row.
pub fn text3(a: &str, b: &str, c: &str) -> (r: String)
    ensures
        r@ == a@ + b@ + c@,
{
    let mut s = a.to_owned();
    s.append(b);
    s.append(c);
    s
}

/// Four texts in a row.
pub fn text4(a: &str, b: &str, c: &str, d: &str) -> (r: String)
    ensures
        r@ == a@ + b@ + c@ + d@,
{
    let mut s = a.to_owned();
    s.append(b);
    s.append(c);
    s.append(d);
    s
}

/// Five texts in a row.
pub fn text5(a: &str, b: &str, c: &str, d: &str, e: &str) -> (r: String)
    ensures
        r@ == a@ + b@ + c@ + d@ + e@,
{
    let mut s = a.to_owned();
    s.append(b);
    s.append(c);
    s.append(d);
    s.append(e);
    s
}

/// `part` stands somewhere in `text`.
pub open spec fn contains_text(text: Seq<char>, part: Seq<char>) -> bool {
    exists|i: int|
        0 <= i && i + part.len() <= text.len() && #[trigger] text.subrange(i, i + part.len())
            == part
}

/// What stands in a text still stands in it when more is put before and behind it.
pub proof fn parts_stay(before: Seq<char>, text: Seq<char>, behind: Seq<char>, part: Seq<char>)
    requires
        contains_text(text, part),
    ensures
        contains_text(before + text + behind, part),
        contains_text(before + text, part),
        contains_text(text + behind, part),
{
    let i = choose|i: int|
        0 <= i && i + part.len() <= text.len() && #[trigger] text.subrange(i, i + part.len())
            == part;
    let n = part.len() as int;
    let j = before.len() + i;
    assert((before + text + behind).subrange(j, j + n) =~= text.subrange(i, i + n));
    assert((before + text).subrange(j, j + n) =~= text.subrange(i, i + n));
    assert((text + behind).subrange(i, i + n) =~= text.subrange(i, i + n));
}

/// A text stands in itself.
pub proof fn texts_contain_themselves(text: Seq<char>)
    ensures
        contains_text(text, text),
{
    assert(text.subrange(0int, 0int + text.len()) =~= text);
}

/// A text stands where it is put between two others.
pub proof fn middles_stand(before: Seq<char>, part: Seq<char>, behind: Seq<char>)
    ensures
        contains_text(before + part + behind, part),
        contains_text(before + part, part),
        contains_text(part + behind, part),
{
    texts_contain_themselves(part);
    parts_stay(before, part, behind, part);
}

/// Every part stands in the text that is joined from them.
pub proof fn joined_texts_hold_their_parts(parts: Seq<Seq<char>>, sep: Seq<char>, i: int)
    requires
        0 <= i < parts.len(),
    ensures
        contains_text(joined(parts, sep), parts[i]),
    decreases parts.len(),
{
    if parts.len() == 1 {
        texts_contain_themselves(parts[0]);
    } else {
        let head = joined(parts.drop_last(), sep) + sep;
        if i == parts.len() - 1 {
            middles_stand(head, parts.last(), Seq::empty());
        } else {
            joined_texts_hold_their_parts(parts.drop_last(), sep, i);
            parts_stay(Seq::empty(), joined(parts.drop_last(), sep), sep + parts.last(), parts[i]);
            assert(joined(parts, sep) =~= joined(parts.drop_last(), sep) + (sep + parts.last()));
        }
    }
}

} // verus!
