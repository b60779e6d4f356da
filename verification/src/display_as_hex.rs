//! Rendering byte sequences as hex dumps, and comparing them with
//! readable diagnostics.

use vstd::prelude::*;

verus! {

use vstd::string::StringExecFns;

/// The lower-case hex digit for a value below sixteen.
pub open spec fn hex_digit(n: u8) -> char {
    if n == 0 {
        '0'
    } else if n == 1 {
        '1'
    } else if n == 2 {
        '2'
    } else if n == 3 {
        '3'
    } else if n == 4 {
        '4'
    } else if n == 5 {
        '5'
    } else if n == 6 {
        '6'
    } else if n == 7 {
        '7'
    } else if n == 8 {
        '8'
    } else if n == 9 {
        '9'
    } else if n == 10 {
        'a'
    } else if n == 11 {
        'b'
    } else if n == 12 {
        'c'
    } else if n == 13 {
        'd'
    } else if n == 14 {
        'e'
    } else {
        'f'
    }
}

/// One byte rendered as `0x` followed by two hex digits.
pub open spec fn hex_byte(b: u8) -> Seq<char> {
    seq!['0', 'x', hex_digit(b / 16), hex_digit(b % 16)]
}

/// The bytes rendered one by one, separated by a comma and a space.
pub open spec fn hex_body(s: Seq<u8>) -> Seq<char>
    decreases s.len(),
{
    if s.len() == 0 {
        Seq::empty()
    } else if s.len() == 1 {
        hex_byte(s[0])
    } else {
        hex_byte(s[0]) + seq![',', ' '] + hex_body(s.drop_first())
    }
}

/// The full rendering of a byte sequence: the separated bytes between
/// square brackets.
pub open spec fn hex_render(s: Seq<u8>) -> Seq<char> {
    seq!['['] + hex_body(s) + seq![']']
}

/// Appending a byte to the rendered sequence appends its rendering, with
/// a separator whenever the sequence was not empty.
proof fn lemma_hex_body_snoc(s: Seq<u8>, b: u8)
    ensures
        hex_body(s.push(b)) == if s.len() == 0 {
            hex_byte(b)
        } else {
            hex_body(s) + seq![',', ' '] + hex_byte(b)
        },
    decreases s.len(),
{
    if s.len() == 0 {
        assert(s.push(b).len() == 1);
        assert(s.push(b)[0] == b);
    } else {
        assert(s.push(b).drop_first() =~= s.drop_first().push(b));
        lemma_hex_body_snoc(s.drop_first(), b);
        if s.len() == 1 {
            assert(hex_body(s.push(b)) =~= hex_body(s) + seq![',', ' '] + hex_byte(b));
        } else {
            assert(hex_body(s.push(b)) =~= hex_body(s) + seq![',', ' '] + hex_byte(b));
        }
    }
}

/// The lower-case hex digit for a value below sixteen, as a one-character
/// string slice.
fn hex_digit_str(n: u8) -> (r: &'static str)
    requires
        n < 16,
    ensures
        r@ == seq![hex_digit(n)],
{
    if n == 0 {
        proof {
            reveal_strlit("0");
        }
        "0"
    } else if n == 1 {
        proof {
            reveal_strlit("1");
        }
        "1"
    } else if n == 2 {
        proof {
            reveal_strlit("2");
        }
        "2"
    } else if n == 3 {
        proof {
            reveal_strlit("3");
        }
        "3"
    } else if n == 4 {
        proof {
            reveal_strlit("4");
        }
        "4"
    } else if n == 5 {
        proof {
            reveal_strlit("5");
        }
        "5"
    } else if n == 6 {
        proof {
            reveal_strlit("6");
        }
        "6"
    } else if n == 7 {
        proof {
            reveal_strlit("7");
        }
        "7"
    } else if n == 8 {
        proof {
            reveal_strlit("8");
        }
        "8"
    } else if n == 9 {
        proof {
            reveal_strlit("9");
        }
        "9"
    } else if n == 10 {
        proof {
            reveal_strlit("a");
        }
        "a"
    } else if n == 11 {
        proof {
            reveal_strlit("b");
        }
        "b"
    } else if n == 12 {
        proof {
            reveal_strlit("c");
        }
        "c"
    } else if n == 13 {
        proof {
            reveal_strlit("d");
        }
        "d"
    } else if n == 14 {
        proof {
            reveal_strlit("e");
        }
        "e"
    } else {
        proof {
            reveal_strlit("f");
        }
        "f"
    }
}

/// A simple wrapper around a slice of bytes whose rendering shows the
/// slice in the form of hex bytes.
#[must_use]
pub struct DisplayAsHex<'a> {
    data: &'a [u8],
}

impl<'a> View for DisplayAsHex<'a> {
    type V = Seq<u8>;

    closed spec fn view(&self) -> Seq<u8> {
        self.data@
    }
}

impl<'a> DisplayAsHex<'a> {
    #[inline(always)]
    pub fn new(data: &'a [u8]) -> (r: Self)
        ensures
            r@ == data@,
    {
        DisplayAsHex { data }
    }

    #[inline(always)]
    #[must_use]
    pub fn as_slice(&self) -> (r: &[u8])
        ensures
            r@ == self@,
    {
        self.data
    }

    /// The wrapped bytes rendered as a hex dump, such as `[0x01, 0xff]`.
    pub fn to_hex_string(&self) -> (r: String)
        ensures
            r@ == hex_render(self@),
    {
        let data = self.data;
        let mut r = String::new();
        r.append("[");
        proof {
            reveal_strlit("[");
            assert(r@ =~= seq!['['] + hex_body(data@.take(0)));
        }
        let mut i: usize = 0;
        while i < data.len()
            invariant
                i <= data@.len(),
                r@ == seq!['['] + hex_body(data@.take(i as int)),
            decreases data@.len() - i,
        {
            if i > 0 {
                r.append(", ");
            }
            let b = data[i];
            r.append("0x");
            r.append(hex_digit_str(b / 16));
            r.append(hex_digit_str(b % 16));
            proof {
                reveal_strlit(", ");
                reveal_strlit("0x");
                assert(data@.take(i + 1) =~= data@.take(i as int).push(b));
                lemma_hex_body_snoc(data@.take(i as int), b);
                assert(r@ =~= seq!['['] + hex_body(data@.take(i + 1)));
            }
            i = i + 1;
        }
        r.append("]");
        proof {
            reveal_strlit("]");
            assert(data@.take(data@.len() as int) =~= data@);
            assert(r@ =~= hex_render(data@));
        }
        r
    }
}

/// Whether two byte slices hold the same sequence.
pub fn bytes_equal(left: &[u8], right: &[u8]) -> (r: bool)
    ensures
        r == (left@ == right@),
{
    if left.len() != right.len() {
        return false;
    }
    let mut i: usize = 0;
    while i < left.len()
        invariant
            left@.len() == right@.len(),
            i <= left@.len(),
            forall|j: int| 0 <= j < i ==> left@[j] == right@[j],
        decreases left@.len() - i,
    {
        if left[i] != right[i] {
            return false;
        }
        i = i + 1;
    }
    proof {
        assert(left@ =~= right@);
    }
    true
}

/// The diagnostic produced when two byte sequences were expected to be
/// equal and are not.
pub open spec fn eq_failure_message(l: Seq<u8>, r: Seq<u8>) -> Seq<char> {
    "assertion `left == right` failed\n  left: "@ + hex_render(l) + "\n right: "@ + hex_render(r)
}

/// The diagnostic produced when two byte sequences were expected to
/// differ and do not.
pub open spec fn neq_failure_message(l: Seq<u8>) -> Seq<char> {
    "assertion `left != right` failed\n  value: "@ + hex_render(l)
}

/// Compares two byte slices by equality. When they differ, the error
/// holds both operands rendered as hex arrays.
pub fn check_eq_hex(left: &[u8], right: &[u8]) -> (r: Result<(), String>)
    ensures
        r is Ok <==> left@ == right@,
        r matches Err(m) ==> m@ == eq_failure_message(left@, right@),
{
    if bytes_equal(left, right) {
        Ok(())
    } else {
        let mut m = String::new();
        m.append("assertion `left == right` failed\n  left: ");
        let left_hex = DisplayAsHex::new(left).to_hex_string();
        m.append(left_hex.as_str());
        m.append("\n right: ");
        let right_hex = DisplayAsHex::new(right).to_hex_string();
        m.append(right_hex.as_str());
        proof {
            assert(m@ =~= eq_failure_message(left@, right@));
        }
        Err(m)
    }
}

/// Compares two byte slices by inequality. When they are equal, the
/// error holds the single operand rendered as a hex array.
pub fn check_neq_hex(left: &[u8], right: &[u8]) -> (r: Result<(), String>)
    ensures
        r is Ok <==> left@ != right@,
        r matches Err(m) ==> m@ == neq_failure_message(left@),
{
    if !bytes_equal(left, right) {
        Ok(())
    } else {
        let mut m = String::new();
        m.append("assertion `left != right` failed\n  value: ");
        let left_hex = DisplayAsHex::new(left).to_hex_string();
        m.append(left_hex.as_str());
        proof {
            assert(m@ =~= neq_failure_message(left@));
        }
        Err(m)
    }
}

} // verus!
