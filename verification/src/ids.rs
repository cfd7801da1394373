//! Entity identifiers and their canonical textual form.

use vstd::prelude::*;

verus! {

/// The opaque identifier of a persisted resource: a 128-bit value,
/// generated server-side at creation and never supplied by a client.
#[derive(Clone, Copy, PartialEq, Eq, Structural, Debug)]
pub struct EntityId {
    pub value: u128,
}

/// The nibble of `id` at position `i`, counting from the most
/// significant end; position 0 holds bits 124 to 127.
pub open spec fn nibble_of(id: u128, i: int) -> u128 {
    (id >> (((31 - i) * 4) as u128)) & 0xf
}

/// The lower-case hexadecimal digit for a value below 16.
pub open spec fn hex_char(n: u128) -> char {
    if n == 0 {
        '0'
    } else if n == 1 {
        '1'
    } else if n == 2 {
        '2'
    } else if n == 3 {
        '3'
    } else if n == 4 {
        '4'
    } else if n == 5 {
        '5'
    } else if n == 6 {
        '6'
    } else if n == 7 {
        '7'
    } else if n == 8 {
        '8'
    } else if n == 9 {
        '9'
    } else if n == 10 {
        'a'
    } else if n == 11 {
        'b'
    } else if n == 12 {
        'c'
    } else if n == 13 {
        'd'
    } else if n == 14 {
        'e'
    } else {
        'f'
    }
}

/// The 32 hexadecimal digits of `id`, most significant first.
pub open spec fn hex_chars(id: u128) -> Seq<char> {
    Seq::new(32, |i: int| hex_char(nibble_of(id, i)))
}

/// The canonical textual form of an identifier: the 32 digits in five
/// hyphen-separated groups of 8, 4, 4, 4 and 12.
pub open spec fn id_chars(id: u128) -> Seq<char> {
    hex_chars(id).take(8) + seq!['-'] + hex_chars(id).subrange(8, 12) + seq!['-'] + hex_chars(
        id,
    ).subrange(12, 16) + seq!['-'] + hex_chars(id).subrange(16, 20) + seq!['-'] + hex_chars(
        id,
    ).subrange(20, 32)
}

/// The one-character string for a hexadecimal digit value.
fn hex_digit_str(n: u128) -> (r: &'static str)
    requires
        n < 16,
    ensures
        r@ == seq![hex_char(n)],
{
    if n == 0 {
        proof {
            reveal_strlit("0");
            assert("0"@ =~= seq![hex_char(n)]);
        }
        "0"
    } else if n == 1 {
        proof {
            reveal_strlit("1");
            assert("1"@ =~= seq![hex_char(n)]);
        }
        "1"
    } else if n == 2 {
        proof {
            reveal_strlit("2");
            assert("2"@ =~= seq![hex_char(n)]);
        }
        "2"
    } else if n == 3 {
        proof {
            reveal_strlit("3");
            assert("3"@ =~= seq![hex_char(n)]);
        }
        "3"
    } else if n == 4 {
        proof {
            reveal_strlit("4");
            assert("4"@ =~= seq![hex_char(n)]);
        }
        "4"
    } else if n == 5 {
        proof {
            reveal_strlit("5");
            assert("5"@ =~= seq![hex_char(n)]);
        }
        "5"
    } else if n == 6 {
        proof {
            reveal_strlit("6");
            assert("6"@ =~= seq![hex_char(n)]);
        }
        "6"
    } else if n == 7 {
        proof {
            reveal_strlit("7");
            assert("7"@ =~= seq![hex_char(n)]);
        }
        "7"
    } else if n == 8 {
        proof {
            reveal_strlit("8");
            assert("8"@ =~= seq![hex_char(n)]);
        }
        "8"
    } else if n == 9 {
        proof {
            reveal_strlit("9");
            assert("9"@ =~= seq![hex_char(n)]);
        }
        "9"
    } else if n == 10 {
        proof {
            reveal_strlit("a");
            assert("a"@ =~= seq![hex_char(n)]);
        }
        "a"
    } else if n == 11 {
        proof {
            reveal_strlit("b");
            assert("b"@ =~= seq![hex_char(n)]);
        }
        "b"
    } else if n == 12 {
        proof {
            reveal_strlit("c");
            assert("c"@ =~= seq![hex_char(n)]);
        }
        "c"
    } else if n == 13 {
        proof {
            reveal_strlit("d");
            assert("d"@ =~= seq![hex_char(n)]);
        }
        "d"
    } else if n == 14 {
        proof {
            reveal_strlit("e");
            assert("e"@ =~= seq![hex_char(n)]);
        }
        "e"
    } else {
        proof {
            reveal_strlit("f");
            assert("f"@ =~= seq![hex_char(n)]);
        }
        "f"
    }
}

/// Appends the digits of `id` at positions `from..to` to `out`.
fn push_hex_range(out: &mut String, id: u128, from: usize, to: usize)
    requires
        from <= to <= 32,
    ensures
        final(out)@ == old(out)@ + hex_chars(id).subrange(from as int, to as int),
{
    let mut i: usize = from;
    proof {
        assert(out@ =~= old(out)@ + hex_chars(id).subrange(from as int, from as int));
    }
    while i < to
        invariant
            from <= i <= to <= 32,
            out@ == old(out)@ + hex_chars(id).subrange(from as int, i as int),
        decreases to - i,
    {
        let shift: usize = (31 - i) * 4;
        let nib: u128 = (id >> (shift as u128)) & 0xf;
        proof {
            assert(forall|x: u128, s: u128| (x >> s) & 0xf < 16) by (bit_vector);
            assert(nib == nibble_of(id, i as int));
        }
        out.append(hex_digit_str(nib));
        proof {
            assert(out@ =~= old(out)@ + hex_chars(id).subrange(from as int, i + 1 as int));
        }
        i = i + 1;
    }
}

impl EntityId {
    /// Renders the identifier in its canonical hyphenated form, as it
    /// appears in URLs and in the not-found report.
    pub fn to_text(&self) -> (r: String)
        ensures
            r@ == id_chars(self.value),
    {
        let mut out = String::new();
        push_hex_range(&mut out, self.value, 0, 8);
        out.append("-");
        push_hex_range(&mut out, self.value, 8, 12);
        out.append("-");
        push_hex_range(&mut out, self.value, 12, 16);
        out.append("-");
        push_hex_range(&mut out, self.value, 16, 20);
        out.append("-");
        push_hex_range(&mut out, self.value, 20, 32);
        proof {
            reveal_strlit("-");
            assert("-"@ =~= seq!['-']);
            assert(out@ =~= id_chars(self.value));
        }
        out
    }
}

} // verus!
