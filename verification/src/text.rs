use vstd::prelude::*;
use vstd::utf8::*;

verus! {

broadcast use vstd::utf8::char_is_scalar;

/// The UTF-8 encoding of `a` followed by `c` is the encoding of `a` followed by the encoding of `c`.
pub proof fn lemma_encode_utf8_push(a: Seq<char>, c: char)
    ensures
        encode_utf8(a.push(c)) == encode_utf8(a) + encode_scalar(c as u32),
    decreases a.len(),
{
    if a.len() == 0 {
        let p = a.push(c);
        assert(p.drop_first() =~= Seq::<char>::empty());
        assert(p[0] == c);
        assert(encode_utf8(p.drop_first()) =~= Seq::<u8>::empty());
        assert(encode_utf8(p) =~= encode_scalar(c as u32) + Seq::<u8>::empty());
        assert(encode_utf8(a) =~= Seq::<u8>::empty());
    } else {
        assert(a.push(c).drop_first() =~= a.drop_first().push(c));
        lemma_encode_utf8_push(a.drop_first(), c);
        assert(encode_utf8(a.push(c)) =~= encode_utf8(a) + encode_scalar(c as u32));
    }
}

/// The number of bytes in the UTF-8 encoding of `c` (what `char::len_utf8` returns).
pub fn char_utf8_len(c: char) -> (n: usize)
    ensures
        n == encode_scalar(c as u32).len(),
        1 <= n <= 4,
{
    let u = c as u32;
    proof {
        assert(is_scalar(u));
    }
    if u <= 0x7F {
        1
    } else if u <= 0x7FF {
        2
    } else if u <= 0xFFFF {
        3
    } else {
        4
    }
}

/// The UTF-8 encoding of `c` in the first `char_utf8_len(c)` bytes of the result
/// (what `char::encode_utf8` writes); the other bytes are zero.
pub fn char_utf8_bytes(c: char) -> (r: [u8; 4])
    ensures
        r@.take(encode_scalar(c as u32).len() as int) == encode_scalar(c as u32),
        forall|i: int| encode_scalar(c as u32).len() <= i < 4 ==> r@[i] == 0,
{
    let u = c as u32;
    proof {
        assert(is_scalar(u));
    }
    let mut r = [0u8; 4];
    if u <= 0x7F {
        r[0] = (u & 0x7F) as u8;
    } else if u <= 0x7FF {
        r[0] = 0xC0 | ((u >> 6) & 0x1F) as u8;
        r[1] = 0x80 | (u & 0x3F) as u8;
    } else if u <= 0xFFFF {
        r[0] = 0xE0 | ((u >> 12) & 0x0F) as u8;
        r[1] = 0x80 | ((u >> 6) & 0x3F) as u8;
        r[2] = 0x80 | (u & 0x3F) as u8;
    } else {
        r[0] = 0xF0 | ((u >> 18) & 0x7) as u8;
        r[1] = 0x80 | ((u >> 12) & 0x3F) as u8;
        r[2] = 0x80 | ((u >> 6) & 0x3F) as u8;
        r[3] = 0x80 | (u & 0x3F) as u8;
    }
    assert(r@.take(encode_scalar(u).len() as int) =~= encode_scalar(u));
    r
}


#[verifier::external_type_specification]
#[verifier::external_body]
pub struct ExUtf8Error(core::str::Utf8Error);

/// `core::str::from_utf8`: it succeeds exactly when the bytes are valid UTF-8, and the string it
/// returns is made of exactly those bytes.
#[verifier::external_body]
pub(crate) fn str_from_utf8(v: &[u8]) -> (r: Result<&str, core::str::Utf8Error>)
    ensures
        r is Ok <==> valid_utf8(v@),
        r matches Ok(s) ==> encode_utf8(s@) == v@,
{
    core::str::from_utf8(v)
}


/// The characters of `s`, in order.
pub fn chars_of(s: &str) -> (v: Vec<char>)
    ensures
        v@ == s@,
{
    let mut v: Vec<char> = Vec::new();
    let mut chars = s.chars();
    loop
        invariant_except_break
            vstd::std_specs::iter::IteratorSpec::remaining(&chars) == s@.skip(v@.len() as int),
        invariant
            v@ == s@.take(v@.len() as int),
            v@.len() <= s@.len(),
        ensures
            v@ == s@,
        decreases s@.len() - v@.len(),
    {
        match chars.next() {
            None => {
                assert(s@.skip(v@.len() as int).len() == 0);
                assert(v@ =~= s@);
                break;
            },
            Some(c) => {
                assert(s@.skip(v@.len() as int)[0] == s@[v@.len() as int]);
                v.push(c);
                assert(v@ =~= s@.take(v@.len() as int));
            },
        }
    }
    v
}

/// `needle` occurs in `hay` as a run of consecutive characters.
pub open spec fn occurs_in(needle: Seq<char>, hay: Seq<char>) -> bool {
    exists|i: int| 0 <= i && i + needle.len() <= hay.len() && #[trigger] hay.subrange(i, i + needle.len()) == needle
}

/// Whether `needle` occurs in `hay` (what `str::contains` answers for a text pattern).
pub fn contains_chars(hay: &Vec<char>, needle: &Vec<char>) -> (b: bool)
    ensures
        b == occurs_in(needle@, hay@),
{
    if needle.len() > hay.len() {
        return false;
    }
    let last = hay.len() - needle.len();
    let mut i: usize = 0;
    loop
        invariant
            i <= last,
            needle@.len() <= hay@.len(),
            last == hay@.len() - needle@.len(),
            forall|k: int| 0 <= k < i ==> #[trigger] hay@.subrange(k, k + needle@.len()) != needle@,
        ensures
            forall|k: int| 0 <= k <= last ==> #[trigger] hay@.subrange(k, k + needle@.len()) != needle@,
        decreases last - i,
    {
        let mut j: usize = 0;
        let mut same = true;
        while j < needle.len()
            invariant
                i <= last,
                needle@.len() <= hay@.len(),
                last == hay@.len() - needle@.len(),
                j <= needle@.len(),
                same == (forall|k: int| 0 <= k < j ==> hay@[i + k] == needle@[k]),
            decreases needle@.len() - j,
        {
            assert(i + j < hay.len());
            if hay[i + j] != needle[j] {
                same = false;
            }
            j = j + 1;
        }
        if same {
            assert(hay@.subrange(i as int, i + needle@.len()) =~= needle@);
            return true;
        }
        proof {
            let k = choose|k: int| 0 <= k < needle@.len() && hay@[i + k] != needle@[k];
            assert(hay@.subrange(i as int, i + needle@.len())[k] != needle@[k]);
        }
        if i == last {
            break;
        }
        i = i + 1;
    }
    proof {
        assert forall|k: int|
            0 <= k && k + needle@.len() <= hay@.len() implies #[trigger] hay@.subrange(
            k,
            k + needle@.len(),
        ) != needle@ by {
            assert(k <= last);
        }
    }
    false
}


/// Whether `s` consists of exactly the characters `expected`.
pub fn text_is(s: &str, expected: &Vec<char>) -> (b: bool)
    ensures
        b == (s@ == expected@),
{
    let chars = chars_of(s);
    if chars.len() != expected.len() {
        return false;
    }
    let mut i: usize = 0;
    while i < chars.len()
        invariant
            chars@ == s@,
            chars@.len() == expected@.len(),
            i <= chars@.len(),
            forall|k: int| 0 <= k < i ==> chars@[k] == expected@[k],
        decreases chars@.len() - i,
    {
        if chars[i] != expected[i] {
            return false;
        }
        i = i + 1;
    }
    assert(chars@ =~= expected@);
    true
}

} // verus!
