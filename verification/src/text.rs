//! Lines as bytes of UTF-8: whitespace, left trimming, and finding a pattern.

use vstd::prelude::*;
use vstd::string::*;
use vstd::utf8::*;

verus! {

/// What is left of `line` from `pos` on.
pub open spec fn tail(line: Seq<u8>, pos: int) -> Seq<u8> {
    line.subrange(pos, line.len() as int)
}

/// The scalar values that count as whitespace: those with the Unicode
/// property White_Space.
pub open spec fn is_whitespace(c: u32) -> bool {
    ||| 0x09 <= c <= 0x0D
    ||| c == 0x20
    ||| c == 0x85
    ||| c == 0xA0
    ||| c == 0x1680
    ||| 0x2000 <= c <= 0x200A
    ||| c == 0x2028
    ||| c == 0x2029
    ||| c == 0x202F
    ||| c == 0x205F
    ||| c == 0x3000
}

/// True when a whitespace character starts at `pos`.
pub open spec fn whitespace_at(line: Seq<u8>, pos: int) -> bool {
    &&& 0 <= pos < line.len()
    &&& valid_first_scalar(tail(line, pos))
    &&& is_whitespace(decode_first_scalar(tail(line, pos)))
}

/// Where the run of whitespace characters that starts at `pos` ends.
pub open spec fn whitespace_end(line: Seq<u8>, pos: int) -> int
    decreases line.len() - pos,
{
    if whitespace_at(line, pos) {
        whitespace_end(line, pos + length_of_first_scalar(tail(line, pos)))
    } else {
        pos
    }
}

/// The line without its leading whitespace.
pub open spec fn trim_start(line: Seq<u8>) -> Seq<u8> {
    tail(line, whitespace_end(line, 0))
}

/// True when `pat` stands in `line` at `pos`.
pub open spec fn occurs_at(line: Seq<u8>, pat: Seq<u8>, pos: int) -> bool {
    &&& 0 <= pos
    &&& pos + pat.len() <= line.len()
    &&& line.subrange(pos, pos + pat.len()) =~= pat
}

/// True when `pat` stands somewhere in `line`.
pub open spec fn occurs_in(line: Seq<u8>, pat: Seq<u8>) -> bool {
    exists|pos: int| occurs_at(line, pat, pos)
}

/// True when every position from `pos` to `pos + width` that lies inside the
/// line is the start of a character.
pub open spec fn window_ok(line: Seq<u8>, pos: int, width: int) -> bool {
    forall|i: int| pos <= i <= pos + width && i < line.len() ==> is_char_boundary(line, i)
}

/// What `str::to_lowercase` makes of a string.
pub uninterp spec fn lowercase_of(s: Seq<char>) -> Seq<char>;

/// `str::to_lowercase` gives the lower case of a string, which depends on the
/// string alone.
#[verifier::external_body]
pub(crate) fn lowercase(s: &str) -> (lower: String)
    ensures
        lower@ == lowercase_of(s@),
{
    s.to_lowercase()
}

/// Tells whether a character is well encoded at `pos`, and in how many bytes.
pub fn scalar_len_at(line: &[u8], pos: usize) -> (n: Option<usize>)
    requires
        pos < line@.len(),
    ensures
        match n {
            Some(k) => {
                &&& valid_first_scalar(tail(line@, pos as int))
                &&& k == length_of_first_scalar(tail(line@, pos as int))
                &&& 1 <= k <= 4
                &&& pos + k <= line@.len()
            },
            None => !valid_first_scalar(tail(line@, pos as int)),
        },
{
    let ghost rest = tail(line@, pos as int);
    let len: usize = line.len();
    assert(rest.len() == len - pos);
    assert(rest[0] == line@[pos as int]);
    let b0: u8 = line[pos];
    if b0 <= 0x7f {
        let c: u32 = (b0 & 0x7f) as u32;
        if 0xD800 <= c && c <= 0xDFFF {
            None
        } else {
            Some(1)
        }
    } else if 0xc0 <= b0 && b0 <= 0xdf {
        if len - pos < 2 {
            return None;
        }
        assert(rest[1] == line@[pos + 1]);
        let b1: u8 = line[pos + 1];
        if !(0x80 <= b1 && b1 <= 0xbf) {
            return None;
        }
        let c: u32 = (((b0 & 0x1f) as u32) << 6) | ((b1 & 0x3f) as u32);
        if c < 0x80 || (0xD800 <= c && c <= 0xDFFF) {
            None
        } else {
            Some(2)
        }
    } else if 0xe0 <= b0 && b0 <= 0xef {
        if len - pos < 3 {
            return None;
        }
        assert(rest[1] == line@[pos + 1]);
        assert(rest[2] == line@[pos + 2]);
        let b1: u8 = line[pos + 1];
        let b2: u8 = line[pos + 2];
        if !(0x80 <= b1 && b1 <= 0xbf) || !(0x80 <= b2 && b2 <= 0xbf) {
            return None;
        }
        let c: u32 = (((b0 & 0x0f) as u32) << 12) | (((b1 & 0x3f) as u32) << 6) | ((b2
            & 0x3f) as u32);
        if c < 0x800 || (0xD800 <= c && c <= 0xDFFF) {
            None
        } else {
            Some(3)
        }
    } else if 0xf0 <= b0 && b0 <= 0xf7 {
        if len - pos < 4 {
            return None;
        }
        assert(rest[1] == line@[pos + 1]);
        assert(rest[2] == line@[pos + 2]);
        assert(rest[3] == line@[pos + 3]);
        let b1: u8 = line[pos + 1];
        let b2: u8 = line[pos + 2];
        let b3: u8 = line[pos + 3];
        if !(0x80 <= b1 && b1 <= 0xbf) || !(0x80 <= b2 && b2 <= 0xbf) || !(0x80 <= b3 && b3
            <= 0xbf) {
            return None;
        }
        let c: u32 = (((b0 & 0x07) as u32) << 18) | (((b1 & 0x3f) as u32) << 12) | (((b2
            & 0x3f) as u32) << 6) | ((b3 & 0x3f) as u32);
        if c < 0x10000 || c > 0x10ffff || (0xD800 <= c && c <= 0xDFFF) {
            None
        } else {
            Some(4)
        }
    } else {
        None
    }
}

/// Tells whether the bytes are well-formed UTF-8.
pub fn is_utf8(bytes: &[u8]) -> (ok: bool)
    ensures
        ok == valid_utf8(bytes@),
{
    let len: usize = bytes.len();
    let mut pos: usize = 0;
    proof {
        assert(tail(bytes@, 0) =~= bytes@);
    }
    while pos < len
        invariant
            pos <= len == bytes@.len(),
            valid_utf8(bytes@) == valid_utf8(tail(bytes@, pos as int)),
        decreases len - pos,
    {
        let ghost rest = tail(bytes@, pos as int);
        assert(rest.len() > 0);
        match scalar_len_at(bytes, pos) {
            None => {
                return false;
            },
            Some(k) => {
                proof {
                    assert(pop_first_scalar(rest) =~= tail(bytes@, pos + k));
                }
                pos = pos + k;
            },
        }
    }
    proof {
        assert(tail(bytes@, pos as int).len() == 0);
    }
    true
}

/// Tells whether the bytes, which are well-formed UTF-8, are the text `s`.
pub fn text_is(bytes: &[u8], s: &str) -> (r: bool)
    requires
        valid_utf8(bytes@),
    ensures
        r == (decode_utf8(bytes@) == s@),
{
    let r = bytes_eq(bytes, s.as_bytes());
    proof {
        encode_utf8_decode_utf8(s@);
        decode_utf8_encode_utf8(bytes@);
    }
    r
}

/// Strings with the same bytes are the same string.
pub proof fn lemma_same_bytes_same_text(a: Seq<char>, b: Seq<char>)
    requires
        encode_utf8(a) == encode_utf8(b),
    ensures
        a == b,
{
    encode_utf8_decode_utf8(a);
    encode_utf8_decode_utf8(b);
}

/// Tells whether two byte strings are equal.
pub fn bytes_eq(a: &[u8], b: &[u8]) -> (r: bool)
    ensures
        r == (a@ == b@),
{
    if a.len() != b.len() {
        return false;
    }
    let r = matches_at(a, b, 0);
    proof {
        assert(a@.subrange(0, a@.len() as int) =~= a@);
    }
    r
}

/// Tells whether two strings are equal.
pub fn str_eq(a: &str, b: &str) -> (r: bool)
    ensures
        r == (a@ == b@),
{
    let r = bytes_eq(a.as_bytes(), b.as_bytes());
    proof {
        if r {
            lemma_same_bytes_same_text(a@, b@);
        }
    }
    r
}

/// What is left of valid UTF-8 from the start of a character on is valid UTF-8.
pub proof fn lemma_tail_valid(line: Seq<u8>, pos: int)
    requires
        valid_utf8(line),
        0 <= pos <= line.len(),
        pos < line.len() ==> is_char_boundary(line, pos),
    ensures
        valid_utf8(tail(line, pos)),
        pos < line.len() ==> valid_first_scalar(tail(line, pos)),
{
    if pos < line.len() {
        valid_utf8_split(line, pos);
    } else {
        assert(tail(line, pos).len() == 0);
    }
}

/// Tells whether a scalar value is whitespace.
pub fn scalar_is_whitespace(c: u32) -> (r: bool)
    ensures
        r == is_whitespace(c),
{
    (0x09 <= c && c <= 0x0D) || c == 0x20 || c == 0x85 || c == 0xA0 || c == 0x1680 || (0x2000 <= c
        && c <= 0x200A) || c == 0x2028 || c == 0x2029 || c == 0x202F || c == 0x205F || c == 0x3000
}

/// Decodes the character that starts at `pos`: its scalar value and the number
/// of bytes that encode it.
pub fn scalar_at(line: &[u8], pos: usize) -> (r: (u32, usize))
    requires
        pos < line@.len(),
        valid_first_scalar(tail(line@, pos as int)),
    ensures
        r.0 == decode_first_scalar(tail(line@, pos as int)),
        r.1 == length_of_first_scalar(tail(line@, pos as int)),
        1 <= r.1 <= 4,
        pos + r.1 <= line@.len(),
{
    let ghost rest = tail(line@, pos as int);
    assert(rest.len() == line@.len() - pos);
    assert(rest[0] == line@[pos as int]);
    let b0: u8 = line[pos];
    if b0 <= 0x7f {
        ((b0 & 0x7f) as u32, 1)
    } else if 0xc0 <= b0 && b0 <= 0xdf {
        assert(rest[1] == line@[pos + 1]);
        let b1: u8 = line[pos + 1];
        ((((b0 & 0x1f) as u32) << 6) | ((b1 & 0x3f) as u32), 2)
    } else if 0xe0 <= b0 && b0 <= 0xef {
        assert(rest[1] == line@[pos + 1]);
        assert(rest[2] == line@[pos + 2]);
        let b1: u8 = line[pos + 1];
        let b2: u8 = line[pos + 2];
        ((((b0 & 0x0f) as u32) << 12) | (((b1 & 0x3f) as u32) << 6) | ((b2 & 0x3f) as u32), 3)
    } else {
        assert(rest[1] == line@[pos + 1]);
        assert(rest[2] == line@[pos + 2]);
        assert(rest[3] == line@[pos + 3]);
        let b1: u8 = line[pos + 1];
        let b2: u8 = line[pos + 2];
        let b3: u8 = line[pos + 3];
        ((((b0 & 0x07) as u32) << 18) | (((b1 & 0x3f) as u32) << 12) | (((b2 & 0x3f) as u32) << 6)
            | ((b3 & 0x3f) as u32), 4)
    }
}

/// Cuts the leading whitespace off a line.
pub fn trim_line<'a>(line: &'a [u8]) -> (r: &'a [u8])
    requires
        valid_utf8(line@),
    ensures
        r@ == trim_start(line@),
        valid_utf8(r@),
{
    let len: usize = line.len();
    let mut pos: usize = 0;
    proof {
        assert(tail(line@, 0) =~= line@);
    }
    while pos < len
        invariant
            pos <= len == line@.len(),
            valid_utf8(tail(line@, pos as int)),
            whitespace_end(line@, 0) == whitespace_end(line@, pos as int),
        ensures
            pos <= len == line@.len(),
            valid_utf8(tail(line@, pos as int)),
            whitespace_end(line@, 0) == pos,
        decreases len - pos,
    {
        let ghost rest = tail(line@, pos as int);
        assert(rest.len() > 0);
        assert(valid_first_scalar(rest) && valid_utf8(pop_first_scalar(rest)));
        let (c, n) = scalar_at(line, pos);
        if !scalar_is_whitespace(c) {
            break ;
        }
        proof {
            assert(pop_first_scalar(rest) =~= tail(line@, pos + n));
        }
        pos = pos + n;
    }
    &line[pos..len]
}

/// Tells whether `pat` stands in `line` at `pos`.
pub fn matches_at(line: &[u8], pat: &[u8], pos: usize) -> (r: bool)
    ensures
        r == occurs_at(line@, pat@, pos as int),
{
    let len: usize = line.len();
    let n: usize = pat.len();
    if n > len || pos > len - n {
        return false;
    }
    let mut i: usize = 0;
    while i < n
        invariant
            i <= n == pat@.len(),
            pos + n <= len == line@.len(),
            forall|j: int| 0 <= j < i ==> line@[pos + j] == pat@[j],
        decreases n - i,
    {
        if line[pos + i] != pat[i] {
            proof {
                assert(line@.subrange(pos as int, pos + n)[i as int] == line@[pos + i]);
            }
            return false;
        }
        i += 1;
    }
    true
}

/// Tells whether `pat` stands somewhere in `line`.
pub fn contains(line: &[u8], pat: &[u8]) -> (r: bool)
    ensures
        r == occurs_in(line@, pat@),
{
    let len: usize = line.len();
    let n: usize = pat.len();
    if n > len {
        return false;
    }
    let last: usize = len - n;
    let mut pos: usize = 0;
    while pos <= last
        invariant
            last == len - n,
            len == line@.len(),
            n == pat@.len(),
            pos <= last + 1,
            forall|p: int| 0 <= p < pos ==> !occurs_at(line@, pat@, p),
        decreases last + 1 - pos,
    {
        if matches_at(line, pat, pos) {
            return true;
        }
        pos += 1;
    }
    false
}

/// Tells whether every position from `pos` to `pos + width` inside the line
/// is the start of a character.
pub fn window_on_boundaries(line: &[u8], pos: usize, width: usize) -> (r: bool)
    requires
        valid_utf8(line@),
        pos <= line@.len(),
    ensures
        r == window_ok(line@, pos as int, width as int),
{
    let len: usize = line.len();
    let end: usize = if width >= len - pos {
        len
    } else {
        pos + width + 1
    };
    let mut i: usize = pos;
    while i < end
        invariant
            pos <= i <= end <= len == line@.len(),
            end == len || end == pos + width + 1,
            end == len ==> pos + width + 1 >= len,
            valid_utf8(line@),
            forall|j: int| pos <= j < i ==> is_char_boundary(line@, j),
        decreases end - i,
    {
        let b: u8 = line[i];
        proof {
            is_char_boundary_iff_not_is_continuation_byte(line@, i as int);
        }
        if 0x80 <= b && b <= 0xbf {
            return false;
        }
        i += 1;
    }
    true
}

} // verus!
