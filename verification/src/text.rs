use vstd::prelude::*;

verus! {

/// Whether two string slices hold the same characters.
pub fn str_eq(a: &str, b: &str) -> (r: bool)
    ensures
        r == (a@ == b@),
{
    let owned_a = a.to_owned();
    let owned_b = b.to_owned();
    owned_a == owned_b
}

/// The characters of a string slice, as a vector.
pub fn str_to_chars(s: &str) -> (r: Vec<char>)
    ensures
        r@ == s@,
{
    let n = s.unicode_len();
    let mut chars: Vec<char> = Vec::new();
    let mut i: usize = 0;
    while i < n
        invariant
            i <= n,
            n == s@.len(),
            chars@ == s@.subrange(0, i as int),
        decreases n - i,
    {
        chars.push(s.get_char(i));
        i += 1;
        proof {
            assert(chars@ =~= s@.subrange(0, i as int));
        }
    }
    proof {
        assert(chars@ =~= s@);
    }
    chars
}

/// Relies on Iterator::collect (String::from_iter): the collected string
/// holds exactly the given characters, in order.
#[verifier::external_body]
pub fn chars_to_string(chars: &Vec<char>) -> (r: String)
    ensures
        r@ == chars@,
{
    chars.iter().collect()
}

/// What String::from_utf8_lossy returns for the given bytes.
pub uninterp spec fn utf8_lossy_of(bytes: Seq<u8>) -> Seq<char>;

/// Relies on String::from_utf8_lossy: the decoding depends on the bytes
/// alone, and bytes that are ASCII decode to themselves.
#[verifier::external_body]
pub fn bytes_to_text_lossy(bytes: &Vec<u8>) -> (r: String)
    ensures
        r@ == utf8_lossy_of(bytes@),
        (forall|i: int| 0 <= i < bytes@.len() ==> bytes@[i] < 128) ==> {
            &&& r@.len() == bytes@.len()
            &&& forall|i: int| 0 <= i < bytes@.len() ==> r@[i] == bytes@[i] as char
        },
{
    String::from_utf8_lossy(bytes.as_slice()).into_owned()
}

/// Pushes every character of `tail` onto `acc`.
pub fn push_chars(acc: &mut Vec<char>, tail: &Vec<char>)
    ensures
        final(acc)@ == old(acc)@ + tail@,
{
    let mut i: usize = 0;
    while i < tail.len()
        invariant
            i <= tail@.len(),
            acc@ == old(acc)@ + tail@.subrange(0, i as int),
        decreases tail@.len() - i,
    {
        acc.push(tail[i]);
        i += 1;
        proof {
            assert(old(acc)@ + tail@.subrange(0, i - 1 as int) + seq![tail@[i - 1]] =~= old(
                acc,
            )@ + tail@.subrange(0, i as int));
        }
    }
    proof {
        assert(tail@.subrange(0, tail@.len() as int) =~= tail@);
    }
}

/// Pushes every character of the string `tail` onto `acc`.
pub fn push_str_chars(acc: &mut Vec<char>, tail: &str)
    ensures
        final(acc)@ == old(acc)@ + tail@,
{
    let tail_chars = str_to_chars(tail);
    push_chars(acc, &tail_chars);
}

} // verus!
