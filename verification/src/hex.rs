use vstd::prelude::*;

verus! {

/// The lowercase hexadecimal digit character for a nibble value.
pub open spec fn hex_char(n: int) -> char
    recommends
        0 <= n < 16,
{
    if n == 0 {
        '0'
    } else if n == 1 {
        '1'
    } else if n == 2 {
        '2'
    } else if n == 3 {
        '3'
    } else if n == 4 {
        '4'
    } else if n == 5 {
        '5'
    } else if n == 6 {
        '6'
    } else if n == 7 {
        '7'
    } else if n == 8 {
        '8'
    } else if n == 9 {
        '9'
    } else if n == 10 {
        'a'
    } else if n == 11 {
        'b'
    } else if n == 12 {
        'c'
    } else if n == 13 {
        'd'
    } else if n == 14 {
        'e'
    } else if n == 15 {
        'f'
    } else {
        '0'
    }
}

/// The lowercase hexadecimal rendering of a byte sequence: two digits per byte,
/// high nibble first.
pub open spec fn hex_of_bytes(s: Seq<u8>) -> Seq<char>
    decreases s.len(),
{
    if s.len() == 0 {
        Seq::empty()
    } else {
        hex_of_bytes(s.drop_last()) + seq![
            hex_char(s.last() as int / 16),
            hex_char(s.last() as int % 16),
        ]
    }
}

/// The unsigned integer denoted by a byte sequence read in big-endian order.
pub open spec fn be_val(s: Seq<u8>) -> nat
    decreases s.len(),
{
    if s.len() == 0 {
        0
    } else {
        be_val(s.drop_last()) * 256 + s.last() as nat
    }
}

/// The low `n` base-16 digits of `v`, most significant first, zero-padded on
/// the left when `v` has fewer than `n` digits.
pub open spec fn hex_digits(v: nat, n: nat) -> Seq<char>
    decreases n,
{
    if n == 0 {
        Seq::empty()
    } else {
        hex_digits(v / 16, (n - 1) as nat) + seq![hex_char((v % 16) as int)]
    }
}

/// Maps the six uppercase hexadecimal letters to their lowercase forms and
/// leaves every other character unchanged.
pub open spec fn lower_hex_char(c: char) -> char {
    if c == 'A' {
        'a'
    } else if c == 'B' {
        'b'
    } else if c == 'C' {
        'c'
    } else if c == 'D' {
        'd'
    } else if c == 'E' {
        'e'
    } else if c == 'F' {
        'f'
    } else {
        c
    }
}

pub proof fn lemma_hex_of_bytes_len(s: Seq<u8>)
    ensures
        hex_of_bytes(s).len() == 2 * s.len(),
    decreases s.len(),
{
    if s.len() > 0 {
        lemma_hex_of_bytes_len(s.drop_last());
    }
}

pub proof fn lemma_hex_of_bytes_index(s: Seq<u8>, i: int)
    requires
        0 <= i < s.len(),
    ensures
        hex_of_bytes(s)[2 * i] == hex_char(s[i] as int / 16),
        hex_of_bytes(s)[2 * i + 1] == hex_char(s[i] as int % 16),
    decreases s.len(),
{
    lemma_hex_of_bytes_len(s);
    lemma_hex_of_bytes_len(s.drop_last());
    if i == s.len() - 1 {
    } else {
        lemma_hex_of_bytes_index(s.drop_last(), i);
    }
}

/// The hexadecimal rendering of a byte sequence is exactly the base-16 digit
/// string of its big-endian value, in twice as many digits as there are bytes.
pub proof fn lemma_hex_of_bytes_is_digits(s: Seq<u8>)
    ensures
        hex_of_bytes(s) == hex_digits(be_val(s), 2 * s.len()),
    decreases s.len(),
{
    if s.len() == 0 {
        assert(hex_of_bytes(s) =~= hex_digits(be_val(s), 2 * s.len()));
    } else {
        let t = s.drop_last();
        let a = be_val(t) as int;
        let b = s.last() as int;
        let v = be_val(s) as int;
        lemma_hex_of_bytes_is_digits(t);
        vstd::arithmetic::div_mod::lemma_fundamental_div_mod(b, 16);
        assert(v == (a * 16 + b / 16) * 16 + b % 16) by (nonlinear_arith)
            requires
                v == a * 256 + b,
                b == 16 * (b / 16) + b % 16,
        ;
        vstd::arithmetic::div_mod::lemma_fundamental_div_mod_converse(
            v,
            16,
            a * 16 + b / 16,
            b % 16,
        );
        vstd::arithmetic::div_mod::lemma_fundamental_div_mod_converse(
            a * 16 + b / 16,
            16,
            a,
            b / 16,
        );
        assert(v / 16 == a * 16 + b / 16 && v % 16 == b % 16);
        assert((v / 16) / 16 == a && (v / 16) % 16 == b / 16);
        let n = 2 * s.len();
        assert(hex_digits(v as nat, n) == hex_digits((v / 16) as nat, (n - 1) as nat)
            + seq![hex_char(v % 16)]);
        assert(hex_digits((v / 16) as nat, (n - 1) as nat) == hex_digits(a as nat, (n - 2) as nat)
            + seq![hex_char((v / 16) % 16)]);
        assert(hex_digits(be_val(s), 2 * s.len()) =~= hex_digits(a as nat, 2 * t.len())
            + seq![hex_char(b / 16), hex_char(b % 16)]);
        assert(hex_of_bytes(s) =~= hex_digits(be_val(s), 2 * s.len()));
    }
}

/// Prepending zero bytes does not change the big-endian value.
pub proof fn lemma_be_val_zero_prefix(zeros: Seq<u8>, s: Seq<u8>)
    requires
        forall|i: int| 0 <= i < zeros.len() ==> zeros[i] == 0,
    ensures
        be_val(zeros + s) == be_val(s),
    decreases zeros.len() + s.len(),
{
    if s.len() == 0 {
        if zeros.len() == 0 {
            assert(zeros + s =~= Seq::<u8>::empty());
        } else {
            assert((zeros + s).drop_last() =~= zeros.drop_last() + s);
            assert((zeros + s).last() == zeros.last());
            lemma_be_val_zero_prefix(zeros.drop_last(), s);
        }
    } else {
        assert((zeros + s).drop_last() =~= zeros + s.drop_last());
        assert((zeros + s).last() == s.last());
        lemma_be_val_zero_prefix(zeros, s.drop_last());
    }
}

/// The lowercase hexadecimal digit character for a nibble value.
pub fn hex_char_of(nib: u8) -> (c: char)
    requires
        nib < 16,
    ensures
        c == hex_char(nib as int),
{
    match nib {
        0 => '0',
        1 => '1',
        2 => '2',
        3 => '3',
        4 => '4',
        5 => '5',
        6 => '6',
        7 => '7',
        8 => '8',
        9 => '9',
        10 => 'a',
        11 => 'b',
        12 => 'c',
        13 => 'd',
        14 => 'e',
        _ => 'f',
    }
}

/// The one-character string holding the lowercase hexadecimal digit for a
/// nibble value.
pub fn hex_str_of(nib: u8) -> (s: &'static str)
    requires
        nib < 16,
    ensures
        s@ == seq![hex_char(nib as int)],
{
    proof {
        reveal_strlit("0");
        reveal_strlit("1");
        reveal_strlit("2");
        reveal_strlit("3");
        reveal_strlit("4");
        reveal_strlit("5");
        reveal_strlit("6");
        reveal_strlit("7");
        reveal_strlit("8");
        reveal_strlit("9");
        reveal_strlit("a");
        reveal_strlit("b");
        reveal_strlit("c");
        reveal_strlit("d");
        reveal_strlit("e");
        reveal_strlit("f");
    }
    let s = match nib {
        0 => "0",
        1 => "1",
        2 => "2",
        3 => "3",
        4 => "4",
        5 => "5",
        6 => "6",
        7 => "7",
        8 => "8",
        9 => "9",
        10 => "a",
        11 => "b",
        12 => "c",
        13 => "d",
        14 => "e",
        _ => "f",
    };
    proof {
        assert(s@ =~= seq![hex_char(nib as int)]);
    }
    s
}

/// Lowercases the six uppercase hexadecimal letters, leaving every other
/// character unchanged.
pub fn to_lower_hex_char(c: char) -> (r: char)
    ensures
        r == lower_hex_char(c),
{
    match c {
        'A' => 'a',
        'B' => 'b',
        'C' => 'c',
        'D' => 'd',
        'E' => 'e',
        'F' => 'f',
        _ => c,
    }
}

} // verus!
