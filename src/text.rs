use vstd::prelude::*;
use crate::error::BindingError;

verus! {

/// The characters that `std::str::from_utf8` decodes from a byte string,
/// or `None` where the bytes are not well-formed UTF-8.
pub uninterp spec fn utf8_decode(b: Seq<u8>) -> Option<Seq<char>>;

/// Every byte is below 0x80.
pub open spec fn all_ascii(b: Seq<u8>) -> bool {
    forall|i: int| 0 <= i < b.len() ==> b[i] < 128
}

/// ASCII bytes read one for one as characters.
pub open spec fn ascii_chars(b: Seq<u8>) -> Seq<char> {
    b.map_values(|x: u8| x as char)
}

/// Relies on `std::str::from_utf8`: it decodes exactly the well-formed
/// UTF-8 byte strings, and ASCII is such a string, each byte one character.
#[verifier::external_body]
fn decode_utf8(b: &[u8]) -> (r: Option<String>)
    ensures
        r is Some == utf8_decode(b@) is Some,
        r is Some ==> utf8_decode(b@) == Some(r->0@),
        all_ascii(b@) ==> r is Some && r->0@ == ascii_chars(b@),
{
    std::str::from_utf8(b).ok().map(String::from)
}

/// `n` is the index of the first NUL byte of `b`.
pub open spec fn terminated_at(b: Seq<u8>, n: int) -> bool {
    0 <= n < b.len() && b[n] == 0 && forall|j: int| 0 <= j < n ==> b[j] != 0
}

/// `b` holds no NUL byte at all.
pub open spec fn unterminated(b: Seq<u8>) -> bool {
    forall|i: int| 0 <= i < b.len() ==> b[i] != 0
}

/// The text of a NUL-terminated buffer whose terminator stands at `n`.
pub open spec fn text_before(b: Seq<u8>, n: int) -> Result<Seq<char>, BindingError> {
    match utf8_decode(b.take(n)) {
        Some(t) => Ok(t),
        None => Err(BindingError::InvalidEncoding),
    }
}

/// The text of a NUL-terminated buffer: the characters before its first
/// NUL, or `InvalidEncoding` when it has no NUL or those bytes are not
/// well-formed UTF-8.
pub open spec fn c_text(b: Seq<u8>) -> Result<Seq<char>, BindingError> {
    if exists|n: int| terminated_at(b, n) {
        text_before(b, choose|n: int| terminated_at(b, n))
    } else {
        Err(BindingError::InvalidEncoding)
    }
}

/// `r` is the owned result of rendering `b`.
pub open spec fn renders_as(b: Seq<u8>, r: Result<String, BindingError>) -> bool {
    match c_text(b) {
        Ok(t) => r is Ok && r->Ok_0@ == t,
        Err(e) => r == Err::<String, BindingError>(e),
    }
}

/// A buffer has at most one first terminator.
pub proof fn lemma_terminator_unique(b: Seq<u8>, n: int, m: int)
    requires
        terminated_at(b, n),
        terminated_at(b, m),
    ensures
        n == m,
{
    if n < m {
        assert(b[n] != 0);
    } else if m < n {
        assert(b[m] != 0);
    }
}

/// Reads the text of a NUL-terminated byte buffer as native code hands it
/// over: the bytes before the first NUL, which must be well-formed UTF-8.
pub fn render_c_text(b: &[u8]) -> (r: Result<String, BindingError>)
    ensures
        renders_as(b@, r),
        forall|n: int|
            terminated_at(b@, n) && all_ascii(b@.take(n)) ==> r is Ok && r->Ok_0@ == ascii_chars(
                b@.take(n),
            ),
{
    let mut i: usize = 0;
    let mut prefix: Vec<u8> = Vec::new();
    while i < b.len()
        invariant
            0 <= i <= b@.len(),
            prefix@ == b@.take(i as int),
            forall|j: int| 0 <= j < i ==> b@[j] != 0,
        decreases b@.len() - i,
    {
        if b[i] == 0 {
            assert(terminated_at(b@, i as int));
            let decoded = decode_utf8(prefix.as_slice());
            let ghost n = choose|n: int| terminated_at(b@, n);
            proof {
                lemma_terminator_unique(b@, n, i as int);
            }
            assert forall|m: int| terminated_at(b@, m) implies m == i as int by {
                lemma_terminator_unique(b@, m, i as int);
            }
            return match decoded {
                Some(s) => Ok(s),
                None => Err(BindingError::InvalidEncoding),
            };
        }
        prefix.push(b[i]);
        assert(prefix@ =~= b@.take(i as int + 1));
        i = i + 1;
    }
    assert(!exists|n: int| terminated_at(b@, n));
    Err(BindingError::InvalidEncoding)
}

/// Rendering depends on the bytes alone: two renderings of one unchanged
/// buffer agree, on the text or on the error.
pub proof fn lemma_render_repeatable(
    b: Seq<u8>,
    first: Result<String, BindingError>,
    second: Result<String, BindingError>,
)
    requires
        renders_as(b, first),
        renders_as(b, second),
    ensures
        first is Ok <==> second is Ok,
        first is Ok ==> first->Ok_0@ == second->Ok_0@,
        first is Err ==> first == second,
{
}

} // verus!
