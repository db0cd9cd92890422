//! Worker supervisor's result handling: classifying one finished engine run
//! into rendered bytes or a classified failure, stripping the engine's
//! fixed diagnostic banner from standard-error text.

use vstd::prelude::*;
use crate::error::Error;

verus! {

/// The byte of the engine's banner `"<stdin>: "` at each position.  The
/// banner is the fixed marker the engine prints before its diagnostic; the
/// exact text is environment-dependent and pinned here on purpose.
pub open spec fn banner_byte(k: int) -> u8 {
    if k == 0 {
        60u8  // '<'
    } else if k == 1 {
        115u8  // 's'
    } else if k == 2 {
        116u8  // 't'
    } else if k == 3 {
        100u8  // 'd'
    } else if k == 4 {
        105u8  // 'i'
    } else if k == 5 {
        110u8  // 'n'
    } else if k == 6 {
        62u8  // '>'
    } else if k == 7 {
        58u8  // ':'
    } else {
        32u8  // ' '
    }
}

/// The engine's banner as a byte sequence.
pub open spec fn banner() -> Seq<u8> {
    Seq::new(9, |k: int| banner_byte(k))
}

/// Whether the banner occurs in `s` starting at position `i`.
pub open spec fn banner_at(s: Seq<u8>, i: int) -> bool {
    0 <= i && i + 9 <= s.len() && s.subrange(i, i + 9) == banner()
}

/// `s` with the banner removed at its first occurrence at or after `i`.
pub open spec fn stripped_from(s: Seq<u8>, i: int) -> Seq<u8>
    decreases s.len() - i,
    when 0 <= i <= s.len()
{
    if i + 9 > s.len() {
        s
    } else if banner_at(s, i) {
        s.subrange(0, i) + s.subrange(i + 9, s.len() as int)
    } else {
        stripped_from(s, i + 1)
    }
}

/// The diagnostics with the first occurrence of the banner removed, or
/// unchanged when the banner does not occur.
pub open spec fn spec_strip_banner(s: Seq<u8>) -> Seq<u8> {
    stripped_from(s, 0)
}

/// Whether the banner occurs in `s` at position `i`, by comparing the nine
/// bytes directly.
fn is_banner_at(s: &Vec<u8>, i: usize) -> (r: bool)
    requires
        i + 9 <= s.len(),
    ensures
        r == banner_at(s@, i as int),
{
    let r = s[i] == 60 && s[i + 1] == 115 && s[i + 2] == 116 && s[i + 3] == 100 && s[i + 4]
        == 105 && s[i + 5] == 110 && s[i + 6] == 62 && s[i + 7] == 58 && s[i + 8] == 32;
    proof {
        let ii = i as int;
        if r {
            assert(s@.subrange(ii, ii + 9) =~= banner());
        } else if banner_at(s@, ii) {
            assert forall|k: int| 0 <= k < 9 implies s@[ii + k] == banner_byte(k) by {
                assert(s@.subrange(ii, ii + 9)[k] == banner()[k]);
            }
            assert(s@[ii + 0] == banner_byte(0));
            assert(s@[ii + 1] == banner_byte(1));
            assert(s@[ii + 2] == banner_byte(2));
            assert(s@[ii + 3] == banner_byte(3));
            assert(s@[ii + 4] == banner_byte(4));
            assert(s@[ii + 5] == banner_byte(5));
            assert(s@[ii + 6] == banner_byte(6));
            assert(s@[ii + 7] == banner_byte(7));
            assert(s@[ii + 8] == banner_byte(8));
        }
    }
    r
}

/// Where the banner first occurs in `s`, if anywhere.
fn find_banner(s: &Vec<u8>) -> (r: Option<usize>)
    ensures
        (match r {
            Some(i) => banner_at(s@, i as int) && (forall|j: int| 0 <= j < i ==> !banner_at(s@, j)),
            None => forall|j: int| !banner_at(s@, j),
        }),
{
    let n = s.len();
    if n < 9 {
        return None;
    }
    let last = n - 9;
    let mut i: usize = 0;
    while i <= last
        invariant
            n == s@.len(),
            n >= 9,
            last == n - 9,
            i <= last + 1,
            forall|j: int| 0 <= j < i ==> !banner_at(s@, j),
        decreases last + 1 - i,
    {
        if is_banner_at(s, i) {
            return Some(i);
        }
        i = i + 1;
    }
    None
}

/// Skipping positions where the banner does not occur leaves the stripped
/// result unchanged.
proof fn lemma_skip_no_match(s: Seq<u8>, i: int)
    requires
        0 <= i <= s.len(),
        forall|j: int| 0 <= j < i ==> !banner_at(s, j),
    ensures
        stripped_from(s, 0) == stripped_from(s, i),
    decreases i,
{
    if i > 0 {
        lemma_skip_no_match(s, i - 1);
        assert(stripped_from(s, i - 1) == stripped_from(s, i));
    }
}

/// Where the banner occurs nowhere at or after `i`, stripping changes
/// nothing.
proof fn lemma_no_match_strips_nothing(s: Seq<u8>, i: int)
    requires
        0 <= i <= s.len(),
        forall|j: int| i <= j ==> !banner_at(s, j),
    ensures
        stripped_from(s, i) == s,
    decreases s.len() - i,
{
    if i + 9 <= s.len() {
        lemma_no_match_strips_nothing(s, i + 1);
    }
}

/// Removes the first occurrence of the engine banner from the diagnostics,
/// leaving them unchanged when the banner does not occur.
pub fn strip_banner(s: &Vec<u8>) -> (r: Vec<u8>)
    ensures
        r@ == spec_strip_banner(s@),
{
    match find_banner(s) {
        None => {
            proof {
                lemma_no_match_strips_nothing(s@, 0);
            }
            let mut out: Vec<u8> = Vec::new();
            let mut j: usize = 0;
            while j < s.len()
                invariant
                    j <= s@.len(),
                    out@ == s@.subrange(0, j as int),
                decreases s@.len() - j,
            {
                out.push(s[j]);
                j = j + 1;
                proof {
                    assert(out@ =~= s@.subrange(0, j as int));
                }
            }
            proof {
                assert(s@.subrange(0, s@.len() as int) =~= s@);
            }
            out
        },
        Some(i) => {
            let n = s.len();
            let mut out: Vec<u8> = Vec::new();
            let mut j: usize = 0;
            while j < i
                invariant
                    j <= i,
                    n == s@.len(),
                    i + 9 <= s@.len(),
                    out@ == s@.subrange(0, j as int),
                decreases i - j,
            {
                out.push(s[j]);
                j = j + 1;
                proof {
                    assert(out@ =~= s@.subrange(0, j as int));
                }
            }
            let mut k: usize = i + 9;
            while k < s.len()
                invariant
                    n == s@.len(),
                    i + 9 <= k <= s@.len(),
                    out@ == s@.subrange(0, i as int) + s@.subrange(i as int + 9, k as int),
                decreases s@.len() - k,
            {
                out.push(s[k]);
                k = k + 1;
                proof {
                    assert(out@ =~= s@.subrange(0, i as int) + s@.subrange(i as int + 9, k as int));
                }
            }
            proof {
                lemma_skip_no_match(s@, i as int);
            }
            out
        },
    }
}

/// Bytes that are all ASCII.
pub open spec fn ascii_bytes(s: Seq<u8>) -> bool {
    forall|i: int| 0 <= i < s.len() ==> s[i] < 128
}

/// What std's `String::from_utf8_lossy` returns for given bytes: a pure
/// function of the bytes alone.
pub uninterp spec fn lossy_of(bytes: Seq<u8>) -> Seq<char>;

/// Relies on std's `String::from_utf8_lossy`: the decoding depends on the
/// bytes alone, and bytes that are valid UTF-8 — in particular, pure
/// ASCII — decode to exactly their own characters.
#[verifier::external_body]
fn lossy_string(bytes: &Vec<u8>) -> (r: String)
    ensures
        r@ == lossy_of(bytes@),
        ascii_bytes(bytes@) ==> r@ == Seq::new(bytes@.len(), |i: int| bytes@[i] as char),
{
    String::from_utf8_lossy(bytes).into_owned()
}

/// Turns one finished engine run into the render result: on a zero exit
/// status, exactly the accumulated standard-output bytes; on a non-zero
/// exit, the engine failure carrying the standard-error text with the
/// banner stripped.
pub fn classify(success: bool, stdout: Vec<u8>, stderr: &Vec<u8>) -> (r: Result<Vec<u8>, Error>)
    ensures
        success ==> (r matches Ok(o) && o@ == stdout@),
        !success ==> (r matches Err(Error::Dot(m)) && m@ == lossy_of(spec_strip_banner(stderr@))
            && (ascii_bytes(spec_strip_banner(stderr@)) ==> m@ == Seq::new(
            spec_strip_banner(stderr@).len(),
            |i: int| spec_strip_banner(stderr@)[i] as char,
        ))),
{
    if success {
        Ok(stdout)
    } else {
        let stripped = strip_banner(stderr);
        Err(Error::Dot(lossy_string(&stripped)))
    }
}

} // verus!
