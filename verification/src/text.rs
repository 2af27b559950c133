//! Text as the runtime and the user read it: C strings and decimal numbers.

use vstd::prelude::*;
use vstd::utf8::*;

verus! {

/// The digit `d` as a character.
pub open spec fn digit(d: nat) -> char
    recommends
        d < 10,
{
    (48 + d) as char
}

/// `n` in decimal, without leading zeros.
pub open spec fn decimal(n: nat) -> Seq<char>
    decreases n,
{
    if n < 10 {
        seq![digit(n)]
    } else {
        decimal(n / 10).push(digit(n % 10))
    }
}

/// The digit `d` as text.
fn digit_text(d: usize) -> (text: &'static str)
    requires
        d < 10,
    ensures
        text@ == seq![digit(d as nat)],
{
    proof {
        reveal_strlit("0");
        reveal_strlit("1");
        reveal_strlit("2");
        reveal_strlit("3");
        reveal_strlit("4");
        reveal_strlit("5");
        reveal_strlit("6");
        reveal_strlit("7");
        reveal_strlit("8");
        reveal_strlit("9");
    }
    let text = match d {
        0 => "0",
        1 => "1",
        2 => "2",
        3 => "3",
        4 => "4",
        5 => "5",
        6 => "6",
        7 => "7",
        8 => "8",
        _ => "9",
    };
    assert(text@ =~= seq![digit(d as nat)]);
    text
}

/// Appends `n` in decimal to `text`.
pub fn push_decimal(text: &mut String, n: usize)
    ensures
        final(text)@ == old(text)@ + decimal(n as nat),
    decreases n,
{
    if n >= 10 {
        push_decimal(text, n / 10);
    }
    text.append(digit_text(n % 10));
    assert(text@ =~= old(text)@ + decimal(n as nat));
}

/// A name that can be handed over as a C string: no character of it is NUL.
pub open spec fn nul_free(name: Seq<char>) -> bool {
    !name.contains('\0')
}

/// Whether each of `names` can be handed over as a C string.
pub open spec fn all_nul_free(names: Seq<Seq<char>>) -> bool {
    forall|i: int| 0 <= i < names.len() ==> nul_free(#[trigger] names[i])
}

/// `name` as a C string: its UTF-8 bytes, closed by a zero byte.
pub open spec fn c_string(name: Seq<char>) -> Seq<u8> {
    encode_utf8(name).push(0)
}

/// Each of `names` as a C string.
pub open spec fn c_strings(names: Seq<Seq<char>>) -> Seq<Seq<u8>> {
    names.map_values(|name: Seq<char>| c_string(name))
}

/// `name` as a C string.
pub fn to_c_string(name: &str) -> (bytes: Vec<u8>)
    requires
        nul_free(name@),
    ensures
        bytes@ == c_string(name@),
{
    let text = name.as_bytes();
    let mut bytes: Vec<u8> = Vec::new();
    let mut i: usize = 0;
    while i < text.len()
        invariant
            i <= text.len(),
            bytes@ == text@.take(i as int),
        decreases text.len() - i,
    {
        bytes.push(text[i]);
        i += 1;
    }
    bytes.push(0);
    bytes
}

/// No byte of the UTF-8 form of a character other than NUL is zero.
proof fn lemma_scalar_has_no_zero_byte(scalar: u32)
    requires
        is_scalar(scalar),
        scalar != 0,
    ensures
        forall|i: int|
            0 <= i < encode_scalar(scalar).len() ==> #[trigger] encode_scalar(scalar)[i] != 0,
{
    assert(scalar <= 0x7F && scalar != 0 ==> (scalar & 0x7F) as u8 != 0) by (bit_vector);
    assert(0xC0 | ((scalar >> 6) & 0x1F) as u8 != 0) by (bit_vector);
    assert(0xE0 | ((scalar >> 12) & 0x0F) as u8 != 0) by (bit_vector);
    assert(0xF0 | ((scalar >> 18) & 0x7) as u8 != 0) by (bit_vector);
    assert(0x80 | (scalar & 0x3F) as u8 != 0) by (bit_vector);
    assert(0x80 | ((scalar >> 6) & 0x3F) as u8 != 0) by (bit_vector);
    assert(0x80 | ((scalar >> 12) & 0x3F) as u8 != 0) by (bit_vector);
}

/// The UTF-8 bytes of a name without NUL hold no zero.
proof fn lemma_name_has_no_zero_byte(name: Seq<char>)
    requires
        nul_free(name),
    ensures
        forall|i: int| 0 <= i < encode_utf8(name).len() ==> #[trigger] encode_utf8(name)[i] != 0,
    decreases name.len(),
{
    if name.len() > 0 {
        let rest = name.drop_first();
        assert(name[0] != '\0');
        assert(nul_free(rest)) by {
            assert forall|i: int| 0 <= i < rest.len() implies rest[i] != '\0' by {
                assert(rest[i] == name[i + 1]);
            }
        }
        let first = name[0];
        let head = encode_scalar(first as u32);
        char_is_scalar(first);
        if first as u32 == 0 {
            char_u32_cast(first, 0);
        }
        lemma_scalar_has_no_zero_byte(first as u32);
        lemma_name_has_no_zero_byte(rest);
        assert forall|i: int| 0 <= i < encode_utf8(name).len() implies #[trigger] encode_utf8(
            name,
        )[i] != 0 by {
            if i < head.len() {
                assert(encode_utf8(name)[i] == head[i]);
            } else {
                assert(encode_utf8(name)[i] == encode_utf8(rest)[i - head.len()]);
            }
        }
    }
}

/// What a reader of C strings gets back: the zero byte that closes the string is its
/// only one, and the bytes before it are the name.
pub proof fn law_c_string_reads_back(name: Seq<char>)
    requires
        nul_free(name),
    ensures
        c_string(name).last() == 0,
        forall|i: int| 0 <= i < c_string(name).len() - 1 ==> #[trigger] c_string(name)[i] != 0,
        decode_utf8(c_string(name).drop_last()) == name,
{
    lemma_name_has_no_zero_byte(name);
    assert(c_string(name).drop_last() =~= encode_utf8(name));
    encode_utf8_decode_utf8(name);
}

/// Two names are handed over as the same C string only if they are the same name.
pub proof fn law_c_string_is_injective(left: Seq<char>, right: Seq<char>)
    requires
        c_string(left) == c_string(right),
    ensures
        left == right,
{
    assert(c_string(left).drop_last() =~= encode_utf8(left));
    assert(c_string(right).drop_last() =~= encode_utf8(right));
    encode_utf8_decode_utf8(left);
    encode_utf8_decode_utf8(right);
}

/// A number in decimal is made of digits, does not start with a zero unless it is zero
/// itself, and is read back, digit by digit, as the number.
pub proof fn law_decimal_reads_back(n: nat)
    ensures
        decimal(n).len() > 0,
        forall|i: int| 0 <= i < decimal(n).len() ==> '0' <= #[trigger] decimal(n)[i] <= '9',
        decimal(n).len() > 1 ==> decimal(n)[0] != '0',
        n == 0 ==> decimal(n) == seq!['0'],
        decimal(n).fold_left(0int, |sum: int, c: char| 10 * sum + (c as int - '0' as int)) == n,
    decreases n,
{
    let read = |sum: int, c: char| 10 * sum + (c as int - '0' as int);
    if n < 10 {
        assert(decimal(n).drop_last() =~= Seq::empty());
        assert(Seq::<char>::empty().fold_left(0int, read) == 0);
        assert(decimal(n).fold_left(0int, read) == n);
    } else {
        let rest = decimal(n / 10);
        law_decimal_reads_back(n / 10);
        assert(decimal(n).drop_last() =~= rest);
        assert(decimal(n).last() == digit(n % 10));
        assert(decimal(n).fold_left(0int, read) == 10 * rest.fold_left(0int, read) + n % 10);
        assert forall|i: int| 0 <= i < decimal(n).len() implies '0' <= #[trigger] decimal(n)[i]
            <= '9' by {
            if i < rest.len() {
                assert(decimal(n)[i] == rest[i]);
            }
        }
        assert(decimal(n)[0] == rest[0]);
        if rest.len() == 1 {
            assert(rest[0] == rest.last());
            assert(rest.drop_last() =~= Seq::empty());
            assert(Seq::<char>::empty().fold_left(0int, read) == 0);
            assert(rest.fold_left(0int, read) == rest[0] as int - '0' as int);
        }
    }
}

/// The C string of a name is its UTF-8 form and one zero byte behind it; and it is a name
/// without NUL, and only that, which passes as one that can be handed over.
pub proof fn law_c_string_is_utf8_and_zero(name: Seq<char>)
    ensures
        c_string(name).len() == encode_utf8(name).len() + 1,
        c_string(name).last() == 0,
        forall|i: int|
            0 <= i < encode_utf8(name).len() ==> #[trigger] c_string(name)[i] == encode_utf8(
                name,
            )[i],
        nul_free(name) <==> (forall|i: int| 0 <= i < name.len() ==> #[trigger] name[i] != '\0'),
{
    if !nul_free(name) {
        let i = choose|i: int| 0 <= i < name.len() && name[i] == '\0';
        assert(name[i] == '\0');
    }
}

/// A name without NUL can be made a C string: its UTF-8 bytes and one zero.
pub proof fn law_to_c_string(name: &str, bytes: Vec<u8>)
    requires
        forall|i: int| 0 <= i < name@.len() ==> #[trigger] name@[i] != '\0',
        call_ensures(to_c_string, (name,), bytes),
    ensures
        call_requires(to_c_string, (name,)),
        bytes@ == encode_utf8(name@).push(0),
{
    law_c_string_is_utf8_and_zero(name@);
    assert(c_string(name@) =~= encode_utf8(name@).push(0));
}

/// Writing a number behind a text keeps the text, and what is behind it are digits that are
/// read back as the number.
pub proof fn law_push_decimal(text: &mut String, n: usize)
    requires
        call_ensures(push_decimal, (text, n), ()),
    ensures
        final(text)@.len() > old(text)@.len(),
        final(text)@.take(old(text)@.len() as int) == old(text)@,
        forall|i: int|
            old(text)@.len() <= i < final(text)@.len() ==> '0' <= #[trigger] final(text)@[i]
                <= '9',
        final(text)@.skip(old(text)@.len() as int).fold_left(
            0int,
            |sum: int, c: char| 10 * sum + (c as int - '0' as int),
        ) == n,
        final(text)@.len() > old(text)@.len() + 1 ==> final(text)@[old(text)@.len() as int]
            != '0',
{
    let before = old(text)@;
    let number = decimal(n as nat);
    law_decimal_reads_back(n as nat);
    assert(final(text)@ == before + number);
    assert(final(text)@.take(before.len() as int) =~= before);
    assert(final(text)@.skip(before.len() as int) =~= number);
    assert forall|i: int| before.len() <= i < final(text)@.len() implies '0'
        <= #[trigger] final(text)@[i] <= '9' by {
        assert(final(text)@[i] == number[i - before.len()]);
    }
}

} // verus!
