use vstd::prelude::*;
use vstd::string::StringExecFns;
use vstd::string::StrSliceExecFns;

verus! {

/// The character of a decimal digit.
pub open spec fn digit_char(d: nat) -> char {
    if d == 0 { '0' }
    else if d == 1 { '1' }
    else if d == 2 { '2' }
    else if d == 3 { '3' }
    else if d == 4 { '4' }
    else if d == 5 { '5' }
    else if d == 6 { '6' }
    else if d == 7 { '7' }
    else if d == 8 { '8' }
    else { '9' }
}

/// The decimal digits of a natural number, most significant first, without leading zeros.
pub open spec fn nat_digits(n: nat) -> Seq<char>
    decreases n,
{
    if n < 10 {
        seq![digit_char(n)]
    } else {
        nat_digits(n / 10).push(digit_char(n % 10))
    }
}

/// The decimal text of an integer, with a leading `-` when it is negative.
pub open spec fn decimal(i: int) -> Seq<char> {
    if i < 0 {
        seq!['-'] + nat_digits((-i) as nat)
    } else {
        nat_digits(i as nat)
    }
}

/// Whether `s` holds the placeholder `%s` starting at position `i`.
pub open spec fn placeholder_at(s: Seq<char>, i: int) -> bool {
    0 <= i && i + 1 < s.len() && s[i] == '%' && s[i + 1] == 's'
}

/// Whether `s` holds the placeholder `%s` anywhere.
pub open spec fn has_placeholder(s: Seq<char>) -> bool {
    exists|i: int| placeholder_at(s, i)
}

/// `s` with every occurrence of `%s`, scanned left to right, replaced by `rep`.
pub open spec fn substitute(s: Seq<char>, rep: Seq<char>) -> Seq<char>
    decreases s.len(),
{
    if s.len() == 0 {
        seq![]
    } else if placeholder_at(s, 0) {
        rep + substitute(s.subrange(2, s.len() as int), rep)
    } else {
        seq![s[0]] + substitute(s.subrange(1, s.len() as int), rep)
    }
}

/// A lowercase hexadecimal digit.
pub open spec fn hex_char(d: nat) -> char {
    if d < 10 {
        digit_char(d)
    } else if d == 10 {
        'a'
    } else if d == 11 {
        'b'
    } else if d == 12 {
        'c'
    } else if d == 13 {
        'd'
    } else if d == 14 {
        'e'
    } else {
        'f'
    }
}

/// How one character is written inside a JSON string: `"` and `\` get a backslash,
/// backspace, tab, line feed, form feed and carriage return their short escapes,
/// other characters below U+0020 a `\u00xx` escape, and every other character
/// stands as it is.
pub open spec fn json_char(c: char) -> Seq<char> {
    if c == '"' {
        seq!['\\', '"']
    } else if c == '\\' {
        seq!['\\', '\\']
    } else if c == '\u{8}' {
        seq!['\\', 'b']
    } else if c == '\t' {
        seq!['\\', 't']
    } else if c == '\n' {
        seq!['\\', 'n']
    } else if c == '\u{c}' {
        seq!['\\', 'f']
    } else if c == '\r' {
        seq!['\\', 'r']
    } else if (c as nat) < 0x20 {
        seq!['\\', 'u', '0', '0', hex_char((c as nat) / 16), hex_char((c as nat) % 16)]
    } else {
        seq![c]
    }
}

/// The characters of `s`, each written as inside a JSON string.
pub open spec fn json_escaped(s: Seq<char>) -> Seq<char>
    decreases s.len(),
{
    if s.len() == 0 {
        seq![]
    } else {
        json_char(s[0]) + json_escaped(s.drop_first())
    }
}

/// A string written as a JSON string literal.
pub open spec fn json_quoted(s: Seq<char>) -> Seq<char> {
    seq!['"'] + json_escaped(s) + seq!['"']
}

/// Relies on serde_json::to_string on a `str`: it writes the string between quotes,
/// each character escaped as `json_char` states (serde_json's `ESCAPE` table and
/// `write_char_escape`), into a `Vec<u8>`, which cannot fail, so the `Err` arm is
/// never taken.
#[verifier::external_body]
pub(crate) fn json_string(s: &str) -> (r: String)
    ensures
        r@ == json_quoted(s@),
{
    match serde_json::to_string(s) {
        Ok(t) => t,
        Err(_) => String::new(),
    }
}

fn digit_str(d: u64) -> (r: &'static str)
    requires
        d < 10,
    ensures
        r@ == seq![digit_char(d as nat)],
{
    if d == 0 {
        proof { reveal_strlit("0"); }
        "0"
    } else if d == 1 {
        proof { reveal_strlit("1"); }
        "1"
    } else if d == 2 {
        proof { reveal_strlit("2"); }
        "2"
    } else if d == 3 {
        proof { reveal_strlit("3"); }
        "3"
    } else if d == 4 {
        proof { reveal_strlit("4"); }
        "4"
    } else if d == 5 {
        proof { reveal_strlit("5"); }
        "5"
    } else if d == 6 {
        proof { reveal_strlit("6"); }
        "6"
    } else if d == 7 {
        proof { reveal_strlit("7"); }
        "7"
    } else if d == 8 {
        proof { reveal_strlit("8"); }
        "8"
    } else {
        proof { reveal_strlit("9"); }
        "9"
    }
}

fn push_digits(n: u64, out: &mut String)
    ensures
        final(out)@ == old(out)@ + nat_digits(n as nat),
    decreases n,
{
    if n >= 10 {
        push_digits(n / 10, out);
    }
    out.append(digit_str(n % 10));
    assert(nat_digits(n as nat) == if n < 10 {
        seq![digit_char(n as nat)]
    } else {
        nat_digits((n / 10) as nat).push(digit_char((n % 10) as nat))
    });
    assert(final(out)@ =~= old(out)@ + nat_digits(n as nat));
}

/// The decimal text of `n`.
pub fn decimal_string(n: i64) -> (r: String)
    ensures
        r@ == decimal(n as int),
{
    let mut out = String::new();
    if n < 0 {
        proof { reveal_strlit("-"); }
        out.append("-");
        let m: u64 = (0i128 - (n as i128)) as u64;
        push_digits(m, &mut out);
    } else {
        push_digits(n as u64, &mut out);
    }
    out
}

/// `template` with every `%s` replaced by `rep`.
pub fn substitute_placeholder(template: &str, rep: &str) -> (r: String)
    ensures
        r@ == substitute(template@, rep@),
{
    let n = template.unicode_len();
    let mut out = String::new();
    let mut i: usize = 0;
    assert(template@.subrange(0, n as int) =~= template@);
    assert(out@ + substitute(template@, rep@) =~= substitute(template@, rep@));
    while i < n
        invariant
            n == template@.len(),
            i <= n,
            out@ + substitute(template@.subrange(i as int, n as int), rep@)
                == substitute(template@, rep@),
        decreases n - i,
    {
        let rest = Ghost(template@.subrange(i as int, n as int));
        if i + 1 < n && template.get_char(i) == '%' && template.get_char(i + 1) == 's' {
            assert(placeholder_at(rest@, 0));
            assert(rest@.subrange(2, rest@.len() as int)
                =~= template@.subrange(i + 2, n as int));
            out.append(rep);
            i = i + 2;
        } else {
            assert(!placeholder_at(rest@, 0));
            assert(rest@.subrange(1, rest@.len() as int)
                =~= template@.subrange(i + 1, n as int));
            let c = template.substring_char(i, i + 1);
            assert(c@ =~= seq![rest@[0]]);
            out.append(c);
            i = i + 1;
        }
    }
    assert(template@.subrange(n as int, n as int) =~= Seq::<char>::empty());
    assert(out@ =~= out@ + substitute(Seq::<char>::empty(), rep@));
    out
}

/// A template without `%s` is left as it is, whatever the replacement.
pub proof fn lemma_substitute_without_placeholder(s: Seq<char>, rep: Seq<char>)
    requires
        !has_placeholder(s),
    ensures
        substitute(s, rep) == s,
    decreases s.len(),
{
    if s.len() > 0 {
        let t = s.subrange(1, s.len() as int);
        assert(!placeholder_at(s, 0));
        assert forall|i: int| !placeholder_at(t, i) by {
            if placeholder_at(t, i) {
                assert(placeholder_at(s, i + 1));
            }
        }
        lemma_substitute_without_placeholder(t, rep);
        assert(s =~= seq![s[0]] + t);
    }
}

proof fn lemma_hex_char_injective(a: nat, b: nat)
    requires
        a < 16,
        b < 16,
        hex_char(a) == hex_char(b),
    ensures
        a == b,
{
}

/// The first escaped character of a JSON string body determines the character and
/// what follows it.
proof fn lemma_json_char_prefix(x: char, y: char, p: Seq<char>, q: Seq<char>)
    requires
        json_char(x) + p == json_char(y) + q,
    ensures
        x == y,
        p == q,
{
    let zx = json_char(x);
    let zy = json_char(y);
    let z = zx + p;
    assert(z[0] == zx[0]);
    assert(z[0] == zy[0]);
    if zx.len() >= 2 && zy.len() >= 2 {
        assert(z[1] == zx[1]);
        assert(z[1] == zy[1]);
    }
    if zx.len() == 6 && zy.len() == 6 {
        assert(z[4] == zx[4]);
        assert(z[4] == zy[4]);
        assert(z[5] == zx[5]);
        assert(z[5] == zy[5]);
        lemma_hex_char_injective((x as nat) / 16, (y as nat) / 16);
        lemma_hex_char_injective((x as nat) % 16, (y as nat) % 16);
        assert((x as nat) == (y as nat));
    }
    assert(x == y);
    assert(p =~= z.subrange(zx.len() as int, z.len() as int));
    assert(q =~= z.subrange(zy.len() as int, z.len() as int));
}

proof fn lemma_json_escaped_injective(a: Seq<char>, b: Seq<char>)
    requires
        json_escaped(a) == json_escaped(b),
    ensures
        a == b,
    decreases a.len(),
{
    if a.len() == 0 {
        if b.len() != 0 {
            assert(json_escaped(b).len() >= json_char(b[0]).len());
        }
    } else if b.len() == 0 {
        assert(json_escaped(a).len() >= json_char(a[0]).len());
    } else {
        lemma_json_char_prefix(a[0], b[0], json_escaped(a.drop_first()), json_escaped(b.drop_first()));
        lemma_json_escaped_injective(a.drop_first(), b.drop_first());
        assert(a =~= seq![a[0]] + a.drop_first());
        assert(b =~= seq![b[0]] + b.drop_first());
    }
}

proof fn lemma_digit_char_injective(a: nat, b: nat)
    requires
        a < 10,
        b < 10,
        digit_char(a) == digit_char(b),
    ensures
        a == b,
{
}

proof fn lemma_nat_digits_facts(n: nat)
    ensures
        nat_digits(n).len() >= 1,
        forall|i: int|
            0 <= i < nat_digits(n).len() ==> nat_digits(n)[i] != ',' && nat_digits(n)[i] != '-',
    decreases n,
{
    if n >= 10 {
        lemma_nat_digits_facts(n / 10);
    }
}

proof fn lemma_nat_digits_injective(a: nat, b: nat)
    requires
        nat_digits(a) == nat_digits(b),
    ensures
        a == b,
    decreases a,
{
    lemma_nat_digits_facts(a / 10);
    lemma_nat_digits_facts(b / 10);
    if a < 10 && b < 10 {
        assert(nat_digits(a)[0] == digit_char(a));
        lemma_digit_char_injective(a, b);
    } else if a < 10 {
        assert(nat_digits(b).len() >= 2);
    } else if b < 10 {
        assert(nat_digits(a).len() >= 2);
    } else {
        let sa = nat_digits(a);
        let sb = nat_digits(b);
        assert(sa.last() == digit_char(a % 10));
        assert(sb.last() == digit_char(b % 10));
        lemma_digit_char_injective(a % 10, b % 10);
        assert(sa.drop_last() =~= nat_digits(a / 10));
        assert(sb.drop_last() =~= nat_digits(b / 10));
        lemma_nat_digits_injective(a / 10, b / 10);
    }
}

pub(crate) proof fn lemma_decimal_facts(i: int)
    ensures
        decimal(i).len() >= 1,
        forall|k: int| 0 <= k < decimal(i).len() ==> decimal(i)[k] != ',',
{
    if i < 0 {
        lemma_nat_digits_facts((-i) as nat);
    } else {
        lemma_nat_digits_facts(i as nat);
    }
}

pub(crate) proof fn lemma_decimal_injective(a: int, b: int)
    requires
        decimal(a) == decimal(b),
    ensures
        a == b,
{
    if a < 0 {
        lemma_nat_digits_facts((-a) as nat);
    } else {
        lemma_nat_digits_facts(a as nat);
    }
    if b < 0 {
        lemma_nat_digits_facts((-b) as nat);
    } else {
        lemma_nat_digits_facts(b as nat);
    }
    if a < 0 && b < 0 {
        assert(nat_digits((-a) as nat) =~= decimal(a).drop_first());
        assert(nat_digits((-b) as nat) =~= decimal(b).drop_first());
        lemma_nat_digits_injective((-a) as nat, (-b) as nat);
    } else if a < 0 {
        assert(decimal(a)[0] == '-');
    } else if b < 0 {
        assert(decimal(b)[0] == '-');
    } else {
        lemma_nat_digits_injective(a as nat, b as nat);
    }
}

/// Inside an escaped JSON string body, every `"` follows a backslash.
pub(crate) proof fn lemma_json_escaped_quotes(s: Seq<char>)
    ensures
        forall|i: int|
            0 <= i < json_escaped(s).len() && #[trigger] json_escaped(s)[i] == '"' ==> i >= 1
                && json_escaped(s)[i - 1] == '\\',
    decreases s.len(),
{
    if s.len() > 0 {
        let z = json_char(s[0]);
        let r = json_escaped(s.drop_first());
        lemma_json_escaped_quotes(s.drop_first());
        assert(json_escaped(s) == z + r);
        assert forall|i: int|
            0 <= i < (z + r).len() && #[trigger] (z + r)[i] == '"' implies i >= 1 && (z + r)[i - 1]
                == '\\' by {
            if i < z.len() {
                assert(z[i] == '"');
            } else {
                assert(r[i - z.len()] == '"');
            }
        }
    }
}

/// Two strings that serde_json writes as the same JSON string literal are the same
/// string: the message of an envelope body reads back as it was written.
pub proof fn lemma_json_quoted_injective(a: Seq<char>, b: Seq<char>)
    requires
        json_quoted(a) == json_quoted(b),
    ensures
        a == b,
{
    let qa = json_quoted(a);
    assert(json_escaped(a) =~= qa.subrange(1, qa.len() - 1));
    assert(json_escaped(b) =~= qa.subrange(1, qa.len() - 1));
    lemma_json_escaped_injective(a, b);
}

} // verus!
