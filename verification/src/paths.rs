//! Rendering of templated endpoint paths: identifiers are written in their
//! canonical hyphenated lower-case hexadecimal form, substituted into the
//! declared position of the path template.

use vstd::prelude::*;

verus! {

/// The lower-case hexadecimal digit for a value below 16.
pub open spec fn spec_hex_char(n: u128) -> char {
    if n == 0 {
        '0'
    } else if n == 1 {
        '1'
    } else if n == 2 {
        '2'
    } else if n == 3 {
        '3'
    } else if n == 4 {
        '4'
    } else if n == 5 {
        '5'
    } else if n == 6 {
        '6'
    } else if n == 7 {
        '7'
    } else if n == 8 {
        '8'
    } else if n == 9 {
        '9'
    } else if n == 10 {
        'a'
    } else if n == 11 {
        'b'
    } else if n == 12 {
        'c'
    } else if n == 13 {
        'd'
    } else if n == 14 {
        'e'
    } else {
        'f'
    }
}

/// The 4-bit group of `id` at position `i`, counting from the most
/// significant; the hyphenated rendering writes group 0 first.
pub open spec fn spec_nibble(id: u128, i: int) -> u128
    recommends
        0 <= i < 32,
{
    (id >> (((31 - i) * 4) as u128)) & 0xf
}

/// The positions at which the hyphenated form carries a dash.
pub open spec fn spec_is_dash_pos(i: int) -> bool {
    i == 8 || i == 13 || i == 18 || i == 23
}

/// Which hexadecimal digit of the identifier stands at position `i` of the
/// hyphenated form (positions past a dash are shifted by the dash count).
pub open spec fn spec_digit_index(i: int) -> int {
    if i < 8 {
        i
    } else if i < 13 {
        i - 1
    } else if i < 18 {
        i - 2
    } else if i < 23 {
        i - 3
    } else {
        i - 4
    }
}

/// The 36-character hyphenated lower-case rendering of a 128-bit identifier.
pub open spec fn spec_uuid_str(id: u128) -> Seq<char> {
    Seq::new(
        36,
        |i: int|
            if spec_is_dash_pos(i) {
                '-'
            } else {
                spec_hex_char(spec_nibble(id, spec_digit_index(i)))
            },
    )
}

/// One lower-case hexadecimal digit, as a string slice.
fn hex_digit_str(n: u128) -> (r: &'static str)
    requires
        n < 16,
    ensures
        r@ =~= seq![spec_hex_char(n)],
{
    proof {
        reveal_strlit("0");
        reveal_strlit("1");
        reveal_strlit("2");
        reveal_strlit("3");
        reveal_strlit("4");
        reveal_strlit("5");
        reveal_strlit("6");
        reveal_strlit("7");
        reveal_strlit("8");
        reveal_strlit("9");
        reveal_strlit("a");
        reveal_strlit("b");
        reveal_strlit("c");
        reveal_strlit("d");
        reveal_strlit("e");
        reveal_strlit("f");
    }
    match n {
        0 => "0",
        1 => "1",
        2 => "2",
        3 => "3",
        4 => "4",
        5 => "5",
        6 => "6",
        7 => "7",
        8 => "8",
        9 => "9",
        10 => "a",
        11 => "b",
        12 => "c",
        13 => "d",
        14 => "e",
        _ => "f",
    }
}

/// Render a 128-bit identifier in its canonical hyphenated lower-case form,
/// the external string form an identifier takes inside a path.
pub fn uuid_hyphenated_lower(id: u128) -> (s: String)
    ensures
        s@ == spec_uuid_str(id),
{
    let mut s = String::new();
    let mut i: usize = 0;
    while i < 36
        invariant
            i <= 36,
            s@ =~= spec_uuid_str(id).subrange(0, i as int),
        decreases 36 - i,
    {
        if i == 8 || i == 13 || i == 18 || i == 23 {
            proof {
                reveal_strlit("-");
            }
            s.append("-");
        } else {
            let di: u128 = if i < 8 {
                i as u128
            } else if i < 13 {
                (i - 1) as u128
            } else if i < 18 {
                (i - 2) as u128
            } else if i < 23 {
                (i - 3) as u128
            } else {
                (i - 4) as u128
            };
            let sh: u128 = (31 - di) * 4;
            let nib: u128 = (id >> sh) & 0xf;
            proof {
                assert((id >> sh) & 0xf < 16) by (bit_vector);
                assert(di == spec_digit_index(i as int));
                assert(nib == spec_nibble(id, di as int));
            }
            let d = hex_digit_str(nib);
            s.append(d);
        }
        i = i + 1;
        proof {
            assert(s@ =~= spec_uuid_str(id).subrange(0, i as int));
        }
    }
    proof {
        assert(s@ =~= spec_uuid_str(id));
    }
    s
}

/// No position of the hyphenated form holds a path separator: every
/// character is a dash or a lower-case hexadecimal digit.
pub proof fn lemma_uuid_str_no_slash(id: u128)
    ensures
        forall|j: int| 0 <= j < 36 ==> #[trigger] spec_uuid_str(id)[j] != '/',
{
}

/// Distinct digit values render as distinct characters.
proof fn lemma_hex_char_injective(x: u128, y: u128)
    requires
        x < 16,
        y < 16,
        spec_hex_char(x) == spec_hex_char(y),
    ensures
        x == y,
{
}

/// Every 4-bit group is below 16.
proof fn lemma_nibble_bound(x: u128, i: int)
    ensures
        spec_nibble(x, i) < 16,
{
    let sh: u128 = ((31 - i) * 4) as u128;
    assert((x >> sh) & 0xf < 16) by (bit_vector);
}

/// The hyphenated rendering is lossless: the external form determines the
/// identifier, so no two identifiers share a rendered path parameter.
pub proof fn lemma_uuid_str_injective(a: u128, b: u128)
    requires
        spec_uuid_str(a) == spec_uuid_str(b),
    ensures
        a == b,
{
    assert forall|i: int| 0 <= i < 32 implies #[trigger] spec_nibble(a, i) == spec_nibble(
        b,
        i,
    ) by {
        let pos: int = if i < 8 {
            i
        } else if i < 12 {
            i + 1
        } else if i < 16 {
            i + 2
        } else if i < 20 {
            i + 3
        } else {
            i + 4
        };
        assert(spec_uuid_str(a)[pos] == spec_uuid_str(b)[pos]);
        assert(!spec_is_dash_pos(pos));
        assert(spec_digit_index(pos) == i);
        assert(spec_uuid_str(a)[pos] == spec_hex_char(spec_nibble(a, i)));
        assert(spec_uuid_str(b)[pos] == spec_hex_char(spec_nibble(b, i)));
        lemma_nibble_bound(a, i);
        lemma_nibble_bound(b, i);
        lemma_hex_char_injective(spec_nibble(a, i), spec_nibble(b, i));
    }
    assert(spec_nibble(a, 0) == spec_nibble(b, 0));
    assert(spec_nibble(a, 1) == spec_nibble(b, 1));
    assert(spec_nibble(a, 2) == spec_nibble(b, 2));
    assert(spec_nibble(a, 3) == spec_nibble(b, 3));
    assert(spec_nibble(a, 4) == spec_nibble(b, 4));
    assert(spec_nibble(a, 5) == spec_nibble(b, 5));
    assert(spec_nibble(a, 6) == spec_nibble(b, 6));
    assert(spec_nibble(a, 7) == spec_nibble(b, 7));
    assert(spec_nibble(a, 8) == spec_nibble(b, 8));
    assert(spec_nibble(a, 9) == spec_nibble(b, 9));
    assert(spec_nibble(a, 10) == spec_nibble(b, 10));
    assert(spec_nibble(a, 11) == spec_nibble(b, 11));
    assert(spec_nibble(a, 12) == spec_nibble(b, 12));
    assert(spec_nibble(a, 13) == spec_nibble(b, 13));
    assert(spec_nibble(a, 14) == spec_nibble(b, 14));
    assert(spec_nibble(a, 15) == spec_nibble(b, 15));
    assert(spec_nibble(a, 16) == spec_nibble(b, 16));
    assert(spec_nibble(a, 17) == spec_nibble(b, 17));
    assert(spec_nibble(a, 18) == spec_nibble(b, 18));
    assert(spec_nibble(a, 19) == spec_nibble(b, 19));
    assert(spec_nibble(a, 20) == spec_nibble(b, 20));
    assert(spec_nibble(a, 21) == spec_nibble(b, 21));
    assert(spec_nibble(a, 22) == spec_nibble(b, 22));
    assert(spec_nibble(a, 23) == spec_nibble(b, 23));
    assert(spec_nibble(a, 24) == spec_nibble(b, 24));
    assert(spec_nibble(a, 25) == spec_nibble(b, 25));
    assert(spec_nibble(a, 26) == spec_nibble(b, 26));
    assert(spec_nibble(a, 27) == spec_nibble(b, 27));
    assert(spec_nibble(a, 28) == spec_nibble(b, 28));
    assert(spec_nibble(a, 29) == spec_nibble(b, 29));
    assert(spec_nibble(a, 30) == spec_nibble(b, 30));
    assert(spec_nibble(a, 31) == spec_nibble(b, 31));
    assert(a == b) by (bit_vector)
        requires
            (a >> 124u128) & 0xf == (b >> 124u128) & 0xf,
            (a >> 120u128) & 0xf == (b >> 120u128) & 0xf,
            (a >> 116u128) & 0xf == (b >> 116u128) & 0xf,
            (a >> 112u128) & 0xf == (b >> 112u128) & 0xf,
            (a >> 108u128) & 0xf == (b >> 108u128) & 0xf,
            (a >> 104u128) & 0xf == (b >> 104u128) & 0xf,
            (a >> 100u128) & 0xf == (b >> 100u128) & 0xf,
            (a >> 96u128) & 0xf == (b >> 96u128) & 0xf,
            (a >> 92u128) & 0xf == (b >> 92u128) & 0xf,
            (a >> 88u128) & 0xf == (b >> 88u128) & 0xf,
            (a >> 84u128) & 0xf == (b >> 84u128) & 0xf,
            (a >> 80u128) & 0xf == (b >> 80u128) & 0xf,
            (a >> 76u128) & 0xf == (b >> 76u128) & 0xf,
            (a >> 72u128) & 0xf == (b >> 72u128) & 0xf,
            (a >> 68u128) & 0xf == (b >> 68u128) & 0xf,
            (a >> 64u128) & 0xf == (b >> 64u128) & 0xf,
            (a >> 60u128) & 0xf == (b >> 60u128) & 0xf,
            (a >> 56u128) & 0xf == (b >> 56u128) & 0xf,
            (a >> 52u128) & 0xf == (b >> 52u128) & 0xf,
            (a >> 48u128) & 0xf == (b >> 48u128) & 0xf,
            (a >> 44u128) & 0xf == (b >> 44u128) & 0xf,
            (a >> 40u128) & 0xf == (b >> 40u128) & 0xf,
            (a >> 36u128) & 0xf == (b >> 36u128) & 0xf,
            (a >> 32u128) & 0xf == (b >> 32u128) & 0xf,
            (a >> 28u128) & 0xf == (b >> 28u128) & 0xf,
            (a >> 24u128) & 0xf == (b >> 24u128) & 0xf,
            (a >> 20u128) & 0xf == (b >> 20u128) & 0xf,
            (a >> 16u128) & 0xf == (b >> 16u128) & 0xf,
            (a >> 12u128) & 0xf == (b >> 12u128) & 0xf,
            (a >> 8u128) & 0xf == (b >> 8u128) & 0xf,
            (a >> 4u128) & 0xf == (b >> 4u128) & 0xf,
            (a >> 0u128) & 0xf == (b >> 0u128) & 0xf,
    ;
}

} // verus!
