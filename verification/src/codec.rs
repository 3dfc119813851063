//! Address codec: renders a local IP address as the decimal-octet,
//! comma-terminated form that the PORT command carries, and as the
//! dotted host form that a data-channel listener binds to.

use vstd::prelude::*;

verus! {

/// The character for a single decimal digit.
pub open spec fn digit_char(d: nat) -> char {
    if d == 0 {
        '0'
    } else if d == 1 {
        '1'
    } else if d == 2 {
        '2'
    } else if d == 3 {
        '3'
    } else if d == 4 {
        '4'
    } else if d == 5 {
        '5'
    } else if d == 6 {
        '6'
    } else if d == 7 {
        '7'
    } else if d == 8 {
        '8'
    } else {
        '9'
    }
}

/// The usual decimal rendering of `n`, without leading zeros
/// (`0` renders as "0").
pub open spec fn decimal_digits(n: nat) -> Seq<char>
    decreases n,
{
    if n < 10 {
        seq![digit_char(n)]
    } else {
        decimal_digits(n / 10).push(digit_char(n % 10))
    }
}

/// The PORT-payload encoding of an octet sequence: each octet rendered
/// in decimal, each followed by a comma, concatenated in order
/// (`[192, 168, 1, 5]` becomes "192,168,1,5,").
pub open spec fn encode_octets(s: Seq<u8>) -> Seq<char>
    decreases s.len(),
{
    if s.len() == 0 {
        Seq::empty()
    } else {
        encode_octets(s.drop_last()) + decimal_digits(s.last() as nat) + seq![',']
    }
}

/// The dotted host form of an octet sequence: decimal groups joined by
/// '.', with no trailing separator (`[127, 0, 0, 1]` becomes "127.0.0.1").
pub open spec fn dotted_octets(s: Seq<u8>) -> Seq<char>
    decreases s.len(),
{
    if s.len() == 0 {
        Seq::empty()
    } else if s.len() == 1 {
        decimal_digits(s.last() as nat)
    } else {
        dotted_octets(s.drop_last()) + seq!['.'] + decimal_digits(s.last() as nat)
    }
}

/// How many times `c` occurs in `t`.
pub open spec fn count_char(t: Seq<char>, c: char) -> nat
    decreases t.len(),
{
    if t.len() == 0 {
        0
    } else {
        count_char(t.drop_last(), c) + (if t.last() == c {
            1nat
        } else {
            0nat
        })
    }
}

/// A one-character string for a decimal digit.
fn digit_str(d: u8) -> (r: &'static str)
    requires
        d < 10,
    ensures
        r@ == seq![digit_char(d as nat)],
{
    proof {
        reveal_strlit("0");
        reveal_strlit("1");
        reveal_strlit("2");
        reveal_strlit("3");
        reveal_strlit("4");
        reveal_strlit("5");
        reveal_strlit("6");
        reveal_strlit("7");
        reveal_strlit("8");
        reveal_strlit("9");
    }
    let r = match d {
        0 => "0",
        1 => "1",
        2 => "2",
        3 => "3",
        4 => "4",
        5 => "5",
        6 => "6",
        7 => "7",
        8 => "8",
        _ => "9",
    };
    proof {
        assert(r@ =~= seq![digit_char(d as nat)]);
    }
    r
}

/// The decimal rendering of `n` as a string.
pub fn decimal_string(n: u16) -> (r: String)
    ensures
        r@ == decimal_digits(n as nat),
    decreases n,
{
    if n < 10 {
        let r = String::from_str(digit_str(n as u8));
        proof {
            assert(r@ =~= decimal_digits(n as nat));
        }
        r
    } else {
        let mut r = decimal_string(n / 10);
        r.append(digit_str((n % 10) as u8));
        proof {
            assert(r@ =~= decimal_digits(n as nat));
        }
        r
    }
}

/// The comma-terminated decimal-octet encoding of a local address,
/// as the PORT command's payload expects it.
pub fn convert_local_address(octets: &Vec<u8>) -> (r: String)
    ensures
        r@ == encode_octets(octets@),
{
    let mut r = String::new();
    let mut i: usize = 0;
    proof {
        assert(r@ =~= encode_octets(octets@.subrange(0, 0)));
    }
    while i < octets.len()
        invariant
            i <= octets@.len(),
            r@ == encode_octets(octets@.subrange(0, i as int)),
        decreases octets@.len() - i,
    {
        let d = decimal_string(octets[i] as u16);
        r.append(d.as_str());
        r.append(",");
        proof {
            reveal_strlit(",");
            let pre = octets@.subrange(0, i as int);
            let cur = octets@.subrange(0, i + 1);
            assert(cur.drop_last() =~= pre);
            assert(cur.last() == octets@[i as int]);
            assert(","@ =~= seq![',']);
            assert(r@ =~= encode_octets(cur));
        }
        i = i + 1;
    }
    proof {
        assert(octets@.subrange(0, octets@.len() as int) =~= octets@);
    }
    r
}

/// The dotted host form of a local address.
pub fn dotted_local_address(octets: &Vec<u8>) -> (r: String)
    ensures
        r@ == dotted_octets(octets@),
{
    let mut r = String::new();
    let mut i: usize = 0;
    proof {
        assert(r@ =~= dotted_octets(octets@.subrange(0, 0)));
    }
    while i < octets.len()
        invariant
            i <= octets@.len(),
            r@ == dotted_octets(octets@.subrange(0, i as int)),
        decreases octets@.len() - i,
    {
        if i > 0 {
            r.append(".");
        }
        let d = decimal_string(octets[i] as u16);
        r.append(d.as_str());
        proof {
            reveal_strlit(".");
            let pre = octets@.subrange(0, i as int);
            let cur = octets@.subrange(0, i + 1);
            assert(cur.drop_last() =~= pre);
            assert(cur.last() == octets@[i as int]);
            assert("."@ =~= seq!['.']);
            assert(r@ =~= dotted_octets(cur));
        }
        i = i + 1;
    }
    proof {
        assert(octets@.subrange(0, octets@.len() as int) =~= octets@);
    }
    r
}

/// The address a data-channel listener binds to: the dotted host form
/// of the local address, a colon, and the decimal port number.
pub fn data_bind_address(octets: &Vec<u8>, port: u16) -> (r: String)
    ensures
        r@ == dotted_octets(octets@) + seq![':'] + decimal_digits(port as nat),
{
    let mut r = dotted_local_address(octets);
    r.append(":");
    let p = decimal_string(port);
    r.append(p.as_str());
    proof {
        reveal_strlit(":");
        assert(":"@ =~= seq![':']);
        assert(r@ =~= dotted_octets(octets@) + seq![':'] + decimal_digits(port as nat));
    }
    r
}

/// A decimal rendering holds only digit characters, never a comma or
/// any other separator.
pub proof fn lemma_decimal_no_comma(n: nat, c: char)
    requires
        c == ',' || c == '.' || c == ':',
    ensures
        count_char(decimal_digits(n), c) == 0,
        decimal_digits(n).len() >= 1,
    decreases n,
{
    assert(count_char(Seq::<char>::empty(), c) == 0);
    if n < 10 {
        assert(decimal_digits(n).drop_last() =~= Seq::<char>::empty());
        assert(decimal_digits(n).last() == digit_char(n));
    } else {
        lemma_decimal_no_comma(n / 10, c);
        assert(decimal_digits(n).drop_last() =~= decimal_digits(n / 10));
    }
}

/// Counting a character distributes over concatenation.
pub proof fn lemma_count_char_add(a: Seq<char>, b: Seq<char>, c: char)
    ensures
        count_char(a + b, c) == count_char(a, c) + count_char(b, c),
    decreases b.len(),
{
    if b.len() == 0 {
        assert(a + b =~= a);
    } else {
        lemma_count_char_add(a, b.drop_last(), c);
        assert((a + b).drop_last() =~= a + b.drop_last());
        assert((a + b).last() == b.last());
    }
}

/// The PORT-payload encoding of an octet sequence is length-correct:
/// it holds exactly one comma per octet, each octet's decimal group is
/// non-empty and comma-free, and a non-empty encoding ends with a
/// comma. So a 4-byte address encodes to exactly 4 comma-terminated
/// decimal groups.
pub proof fn lemma_encode_octets_groups(s: Seq<u8>)
    ensures
        count_char(encode_octets(s), ',') == s.len(),
        s.len() > 0 ==> encode_octets(s).last() == ',',
        s.len() > 0 ==> encode_octets(s).len() >= 2 * s.len(),
    decreases s.len(),
{
    if s.len() == 0 {
    } else {
        lemma_encode_octets_groups(s.drop_last());
        lemma_decimal_no_comma(s.last() as nat, ',');
        let head = encode_octets(s.drop_last());
        let grp = decimal_digits(s.last() as nat);
        lemma_count_char_add(head, grp, ',');
        lemma_count_char_add(head + grp, seq![','], ',');
        assert(count_char(seq![','], ',') == 1) by {
            assert(seq![','].drop_last() =~= Seq::<char>::empty());
            assert(count_char(Seq::<char>::empty(), ',') == 0);
            assert(seq![','].last() == ',');
        }
        assert(encode_octets(s) =~= (head + grp) + seq![',']);
        assert(encode_octets(s).last() == ',');
    }
}

} // verus!
