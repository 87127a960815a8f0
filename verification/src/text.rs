//! Building strings: hexadecimal and decimal encodings, and joins.

use vstd::prelude::*;

verus! {

/// `String::push` appends one character.
pub assume_specification[ String::push ](s: &mut String, ch: char)
    ensures
        final(s)@ == old(s)@.push(ch),
;

/// The lowercase hexadecimal digit for a value below sixteen.
pub open spec fn hex_digit(nibble: int) -> char {
    if nibble < 10 {
        (nibble + 48) as char
    } else {
        (nibble + 87) as char
    }
}

/// Lowercase hexadecimal encoding: two digits per byte, high nibble first.
pub open spec fn hex_lower(bytes: Seq<u8>) -> Seq<char> {
    Seq::new(
        2 * bytes.len(),
        |i: int|
            if i % 2 == 0 {
                hex_digit((bytes[i / 2] / 16) as int)
            } else {
                hex_digit((bytes[i / 2] % 16) as int)
            },
    )
}

fn hex_digit_char(nibble: u8) -> (c: char)
    requires
        nibble < 16,
    ensures
        c == hex_digit(nibble as int),
{
    if nibble < 10 {
        (nibble + 48) as char
    } else {
        (nibble + 87) as char
    }
}

/// Appends the lowercase hexadecimal encoding of `bytes` to `out`.
pub fn push_hex_lower(out: &mut String, bytes: &[u8])
    ensures
        final(out)@ == old(out)@ + hex_lower(bytes@),
{
    let ghost start = out@;
    let n = bytes.len();
    let mut i: usize = 0;
    while i < n
        invariant
            n == bytes@.len(),
            i <= n,
            out@ == start + hex_lower(bytes@.subrange(0, i as int)),
        decreases n - i,
    {
        let b = bytes[i];
        push_char_hex(out, b / 16);
        push_char_hex(out, b % 16);
        proof {
            let prefix = bytes@.subrange(0, i as int);
            let next = bytes@.subrange(0, i + 1);
            assert(hex_lower(next) =~= hex_lower(prefix).push(hex_digit((b / 16) as int)).push(
                hex_digit((b % 16) as int),
            ));
        }
        i = i + 1;
    }
    assert(bytes@.subrange(0, n as int) =~= bytes@);
}

fn push_char_hex(out: &mut String, nibble: u8)
    requires
        nibble < 16,
    ensures
        final(out)@ == old(out)@.push(hex_digit(nibble as int)),
{
    out.push(hex_digit_char(nibble));
}

/// The decimal digit for a value below ten.
pub open spec fn decimal_digit(d: int) -> char {
    (d + 48) as char
}

/// The decimal numeral of `n`, without leading zeros.
pub open spec fn decimal(n: nat) -> Seq<char>
    decreases n,
{
    if n < 10 {
        seq![decimal_digit(n as int)]
    } else {
        decimal(n / 10).push(decimal_digit((n % 10) as int))
    }
}

/// Appends the decimal numeral of `n` to `out`.
pub fn push_decimal(out: &mut String, n: usize)
    ensures
        final(out)@ == old(out)@ + decimal(n as nat),
    decreases n,
{
    if n >= 10 {
        push_decimal(out, n / 10);
    }
    let d = (n % 10) as u8;
    out.push((d + 48) as char);
    proof {
        if n >= 10 {
            assert(decimal(n as nat) == decimal((n / 10) as nat).push(decimal_digit((n % 10) as int)));
        }
    }
}

/// The parts joined with `sep` between each two.
pub open spec fn join(parts: Seq<Seq<char>>, sep: Seq<char>) -> Seq<char>
    decreases parts.len(),
{
    if parts.len() == 0 {
        Seq::empty()
    } else if parts.len() == 1 {
        parts[0]
    } else {
        join(parts.drop_last(), sep) + sep + parts.last()
    }
}

/// The views of a slice of string slices.
pub open spec fn str_views(parts: Seq<&str>) -> Seq<Seq<char>> {
    parts.map_values(|s: &str| s@)
}

/// Joins the parts with `sep` between each two.
pub fn join_strs(parts: &[&str], sep: &str) -> (joined: String)
    ensures
        joined@ == join(str_views(parts@), sep@),
{
    let mut joined = String::new();
    let n = parts.len();
    let ghost views = str_views(parts@);
    let mut i: usize = 0;
    while i < n
        invariant
            n == parts@.len(),
            views == str_views(parts@),
            i <= n,
            joined@ == join(views.take(i as int), sep@),
        decreases n - i,
    {
        assert(views.take(i + 1).drop_last() =~= views.take(i as int));
        if i != 0 {
            joined.append(sep);
        }
        joined.append(parts[i]);
        i = i + 1;
    }
    assert(views.take(n as int) =~= views);
    joined
}

proof fn hex_digit_injective(x: int, y: int)
    requires
        0 <= x < 16,
        0 <= y < 16,
        hex_digit(x) == hex_digit(y),
    ensures
        x == y,
{
    assert(hex_digit(x) as int == if x < 10 { x + 48 } else { x + 87 });
    assert(hex_digit(y) as int == if y < 10 { y + 48 } else { y + 87 });
}

/// Hexadecimal encoding loses nothing: byte strings with the same encoding are equal.
pub proof fn hex_lower_injective(a: Seq<u8>, b: Seq<u8>)
    requires
        hex_lower(a) == hex_lower(b),
    ensures
        a == b,
{
    assert(hex_lower(a).len() == 2 * a.len());
    assert(a.len() == b.len());
    assert forall|k: int| 0 <= k < a.len() implies a[k] == b[k] by {
        assert((2 * k) % 2 == 0 && (2 * k) / 2 == k);
        assert((2 * k + 1) % 2 == 1 && (2 * k + 1) / 2 == k);
        assert(hex_lower(a)[2 * k] == hex_digit((a[k] / 16) as int));
        assert(hex_lower(b)[2 * k] == hex_digit((b[k] / 16) as int));
        assert(hex_lower(a)[2 * k + 1] == hex_digit((a[k] % 16) as int));
        assert(hex_lower(b)[2 * k + 1] == hex_digit((b[k] % 16) as int));
        hex_digit_injective((a[k] / 16) as int, (b[k] / 16) as int);
        hex_digit_injective((a[k] % 16) as int, (b[k] % 16) as int);
    }
    assert(a =~= b);
}

/// The number a string of decimal digits denotes.
pub open spec fn numeral_value(s: Seq<char>) -> int
    decreases s.len(),
{
    if s.len() == 0 {
        0
    } else {
        numeral_value(s.drop_last()) * 10 + (s.last() as int - 48)
    }
}

/// The decimal numeral of `n` is a non-empty string of digits `0`-`9` that
/// denotes `n`, with no leading zero unless it is `0` itself.
pub proof fn decimal_denotes(n: nat)
    ensures
        decimal(n).len() >= 1,
        forall|i: int| 0 <= i < decimal(n).len() ==> '0' <= #[trigger] decimal(n)[i] <= '9',
        numeral_value(decimal(n)) == n,
        decimal(n)[0] == '0' ==> n == 0,
    decreases n,
{
    assert(decimal_digit((n % 10) as int) as int == (n % 10) + 48);
    if n >= 10 {
        decimal_denotes(n / 10);
        let s = decimal(n);
        assert(s.drop_last() =~= decimal(n / 10));
        assert(s[0] == decimal(n / 10)[0]);
        assert(s.last() == decimal_digit((n % 10) as int));
        assert(numeral_value(s) == numeral_value(decimal(n / 10)) * 10 + (n % 10));
    } else {
        assert(decimal_digit(n as int) as int == n + 48);
        assert(decimal(n).drop_last() =~= Seq::<char>::empty());
        assert(numeral_value(decimal(n)) == numeral_value(Seq::<char>::empty()) * 10 + n);
    }
}

/// The hexadecimal encoding spells each byte as two lowercase digits, high
/// nibble first: `0`-`9` for values below ten, `a`-`f` above.
pub proof fn hex_lower_spells_bytes(bytes: Seq<u8>)
    ensures
        hex_lower(bytes).len() == 2 * bytes.len(),
        forall|k: int|
            0 <= k < bytes.len() ==> {
                let hi = bytes[k] as int / 16;
                let lo = bytes[k] as int % 16;
                &&& #[trigger] hex_lower(bytes)[2 * k] as int == if hi < 10 {
                    '0' as int + hi
                } else {
                    'a' as int + (hi - 10)
                }
                &&& hex_lower(bytes)[2 * k + 1] as int == if lo < 10 {
                    '0' as int + lo
                } else {
                    'a' as int + (lo - 10)
                }
            },
{
    assert forall|k: int| 0 <= k < bytes.len() implies {
        let hi = bytes[k] as int / 16;
        let lo = bytes[k] as int % 16;
        &&& #[trigger] hex_lower(bytes)[2 * k] as int == if hi < 10 {
            '0' as int + hi
        } else {
            'a' as int + (hi - 10)
        }
        &&& hex_lower(bytes)[2 * k + 1] as int == if lo < 10 {
            '0' as int + lo
        } else {
            'a' as int + (lo - 10)
        }
    } by {
        assert((2 * k) % 2 == 0 && (2 * k) / 2 == k);
        assert((2 * k + 1) % 2 == 1 && (2 * k + 1) / 2 == k);
        assert(hex_lower(bytes)[2 * k] == hex_digit((bytes[k] / 16) as int));
        assert(hex_lower(bytes)[2 * k + 1] == hex_digit((bytes[k] % 16) as int));
        let hi = bytes[k] as int / 16;
        let lo = bytes[k] as int % 16;
        assert(hex_digit(hi) as int == if hi < 10 { hi + 48 } else { hi + 87 });
        assert(hex_digit(lo) as int == if lo < 10 { lo + 48 } else { lo + 87 });
    }
}

/// Joining puts `sep` between each two parts and nowhere else: no parts give
/// the empty text, one part gives itself, and one more part adds `sep` and
/// that part at the end.
pub proof fn join_separates_parts(parts: Seq<Seq<char>>, last: Seq<char>, sep: Seq<char>)
    ensures
        join(Seq::empty(), sep) == Seq::<char>::empty(),
        join(seq![last], sep) == last,
        parts.len() > 0 ==> join(parts.push(last), sep) == join(parts, sep) + sep + last,
{
    assert(parts.push(last).drop_last() =~= parts);
}

/// The views of string slices keep their order and count.
pub proof fn str_views_keep_parts(parts: Seq<&str>)
    ensures
        str_views(parts).len() == parts.len(),
        forall|i: int| 0 <= i < parts.len() ==> #[trigger] str_views(parts)[i] == parts[i]@,
{
}

} // verus!
