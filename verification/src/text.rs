//! Text rules shared by every validator: Unicode trimming, counting in
//! characters rather than bytes, ASCII case folding and decimal rendering.

use vstd::prelude::*;

use crate::error::Error;

verus! {

/// The Unicode `White_Space` property, which is what `str::trim` strips.
pub open spec fn is_white_space(c: char) -> bool {
    let u = c as u32;
    ||| 0x09 <= u <= 0x0d
    ||| u == 0x20
    ||| u == 0x85
    ||| u == 0xa0
    ||| u == 0x1680
    ||| 0x2000 <= u <= 0x200a
    ||| u == 0x2028
    ||| u == 0x2029
    ||| u == 0x202f
    ||| u == 0x205f
    ||| u == 0x3000
}

/// `s` with leading white space removed.
pub open spec fn trim_start_spec(s: Seq<char>) -> Seq<char>
    decreases s.len(),
{
    if s.len() > 0 && is_white_space(s[0]) {
        trim_start_spec(s.drop_first())
    } else {
        s
    }
}

/// `s` with trailing white space removed.
pub open spec fn trim_end_spec(s: Seq<char>) -> Seq<char>
    decreases s.len(),
{
    if s.len() > 0 && is_white_space(s.last()) {
        trim_end_spec(s.drop_last())
    } else {
        s
    }
}

/// `s` with white space removed from both ends.
pub open spec fn trim_spec(s: Seq<char>) -> Seq<char> {
    trim_end_spec(trim_start_spec(s))
}

/// True when `c` is a white-space character.
pub fn is_white_space_char(c: char) -> (b: bool)
    ensures
        b == is_white_space(c),
{
    let u = c as u32;
    (0x09 <= u && u <= 0x0d) || u == 0x20 || u == 0x85 || u == 0xa0 || u == 0x1680 || (0x2000
        <= u && u <= 0x200a) || u == 0x2028 || u == 0x2029 || u == 0x202f || u == 0x205f || u
        == 0x3000
}

/// The characters of `s`, in order.
pub fn chars_of(s: &str) -> (v: Vec<char>)
    ensures
        v@ == s@,
{
    let mut v: Vec<char> = Vec::new();
    for c in it: s.chars()
        invariant
            it.seq() == s@,
            v@ == it.seq().subrange(0, it.index() as int),
    {
        v.push(c);
        assert(v@ =~= it.seq().subrange(0, it.index() + 1));
    }
    assert(v@ =~= s@);
    v
}

proof fn lemma_trim_start(s: Seq<char>, k: int)
    requires
        0 <= k <= s.len(),
        forall|t: int| 0 <= t < k ==> is_white_space(#[trigger] s[t]),
        k == s.len() || !is_white_space(s[k]),
    ensures
        trim_start_spec(s) == s.subrange(k, s.len() as int),
    decreases k,
{
    if k == 0 {
        assert(s.subrange(0, s.len() as int) =~= s);
    } else {
        let d = s.drop_first();
        assert forall|t: int| 0 <= t < k - 1 implies is_white_space(#[trigger] d[t]) by {
            assert(d[t] == s[t + 1]);
        }
        if k - 1 < d.len() {
            assert(d[k - 1] == s[k]);
        }
        lemma_trim_start(d, k - 1);
        assert(d.subrange(k - 1, d.len() as int) =~= s.subrange(k, s.len() as int));
    }
}

proof fn lemma_trim_end(s: Seq<char>, j: int)
    requires
        0 <= j <= s.len(),
        forall|t: int| j <= t < s.len() ==> is_white_space(#[trigger] s[t]),
        j == 0 || !is_white_space(s[j - 1]),
    ensures
        trim_end_spec(s) == s.subrange(0, j),
    decreases s.len() - j,
{
    if j == s.len() {
        assert(s.subrange(0, j) =~= s);
    } else {
        let d = s.drop_last();
        assert(is_white_space(s.last()));
        assert forall|t: int| j <= t < d.len() implies is_white_space(#[trigger] d[t]) by {
            assert(d[t] == s[t]);
        }
        if j > 0 {
            assert(d[j - 1] == s[j - 1]);
        }
        lemma_trim_end(d, j);
        assert(d.subrange(0, j) =~= s.subrange(0, j));
    }
}

/// Bounds of the trimmed part of `v`: the result is `trim_spec(v@)` as a
/// subrange.
pub fn trim_bounds(v: &Vec<char>) -> (r: (usize, usize))
    ensures
        r.0 <= r.1 <= v@.len(),
        v@.subrange(r.0 as int, r.1 as int) == trim_spec(v@),
{
    let n = v.len();
    let mut i: usize = 0;
    while i < n && is_white_space_char(v[i])
        invariant
            n == v@.len(),
            i <= n,
            forall|t: int| 0 <= t < i ==> is_white_space(#[trigger] v@[t]),
        decreases n - i,
    {
        i = i + 1;
    }
    let mut j: usize = n;
    while j > i && is_white_space_char(v[j - 1])
        invariant
            n == v@.len(),
            i <= j <= n,
            forall|t: int| j <= t < n ==> is_white_space(#[trigger] v@[t]),
        decreases j - i,
    {
        j = j - 1;
    }
    proof {
        lemma_trim_start(v@, i as int);
        let m = v@.subrange(i as int, n as int);
        assert forall|t: int| (j - i) <= t < m.len() implies is_white_space(#[trigger] m[t]) by {
            assert(m[t] == v@[t + i]);
        }
        if j > i {
            assert(m[j - i - 1] == v@[j - 1]);
        } else {
            // every character is white space or the range is empty
        }
        lemma_trim_end(m, (j - i) as int);
        assert(m.subrange(0, (j - i) as int) =~= v@.subrange(i as int, j as int));
    }
    (i, j)
}

/// `s` trimmed of white space at both ends, as an owned string.
pub fn trim_to_string(s: &str) -> (r: String)
    ensures
        r@ == trim_spec(s@),
{
    let v = chars_of(s);
    let (i, j) = trim_bounds(&v);
    let part = s.substring_char(i, j);
    String::from_str(part)
}

/// The character for decimal digit `d`.
pub open spec fn digit_char(d: nat) -> char {
    (48 + d) as char
}

/// The decimal rendering of `n`, most significant digit first.
pub open spec fn decimal_spec(n: nat) -> Seq<char>
    decreases n,
{
    if n < 10 {
        seq![digit_char(n)]
    } else {
        decimal_spec(n / 10).push(digit_char(n % 10))
    }
}

/// The decimal rendering of a signed `n`, with a leading `-` when negative.
pub open spec fn signed_decimal_spec(n: int) -> Seq<char> {
    if n < 0 {
        seq!['-'] + decimal_spec((-n) as nat)
    } else {
        decimal_spec(n as nat)
    }
}

fn digit_str(d: u64) -> (r: &'static str)
    requires
        d < 10,
    ensures
        r@ == seq![digit_char(d as nat)],
{
    match d {
        0 => {
            proof {
                reveal_strlit("0");
            }
            "0"
        },
        1 => {
            proof {
                reveal_strlit("1");
            }
            "1"
        },
        2 => {
            proof {
                reveal_strlit("2");
            }
            "2"
        },
        3 => {
            proof {
                reveal_strlit("3");
            }
            "3"
        },
        4 => {
            proof {
                reveal_strlit("4");
            }
            "4"
        },
        5 => {
            proof {
                reveal_strlit("5");
            }
            "5"
        },
        6 => {
            proof {
                reveal_strlit("6");
            }
            "6"
        },
        7 => {
            proof {
                reveal_strlit("7");
            }
            "7"
        },
        8 => {
            proof {
                reveal_strlit("8");
            }
            "8"
        },
        _ => {
            proof {
                reveal_strlit("9");
            }
            "9"
        },
    }
}

/// Appends the decimal rendering of `n` to `out`.
pub fn append_decimal(out: &mut String, n: u64)
    ensures
        final(out)@ == old(out)@ + decimal_spec(n as nat),
    decreases n,
{
    if n >= 10 {
        append_decimal(out, n / 10);
    }
    out.append(digit_str(n % 10));
    proof {
        if n >= 10 {
            assert(decimal_spec(n as nat) == decimal_spec((n / 10) as nat).push(
                digit_char((n % 10) as nat),
            ));
        }
    }
    assert(out@ =~= old(out)@ + decimal_spec(n as nat));
}

/// Appends the decimal rendering of a signed `n` to `out`.
pub fn append_signed_decimal(out: &mut String, n: i64)
    ensures
        final(out)@ == old(out)@ + signed_decimal_spec(n as int),
{
    if n < 0 {
        proof {
            reveal_strlit("-");
        }
        out.append("-");
        let magnitude: u64 = if n == i64::MIN {
            9223372036854775808u64
        } else {
            (-n) as u64
        };
        append_decimal(out, magnitude);
        assert(out@ =~= old(out)@ + signed_decimal_spec(n as int));
    } else {
        append_decimal(out, n as u64);
    }
}

/// `field`, then " must be at most ", the limit, and " characters".
pub open spec fn at_most_message(field: Seq<char>, max: nat) -> Seq<char> {
    field + " must be at most "@ + decimal_spec(max) + " characters"@
}

/// `what`, then " may not exceed ", the limit, and " characters".
pub open spec fn may_not_exceed_message(what: Seq<char>, max: nat) -> Seq<char> {
    what + " may not exceed "@ + decimal_spec(max) + " characters"@
}

/// `what`, then " is required".
pub open spec fn is_required_message(what: Seq<char>) -> Seq<char> {
    what + " is required"@
}

/// The sentence for a value longer than `max`: "<field> must be at most
/// <max> characters".
pub fn at_most_sentence(field: &str, max: usize) -> (r: String)
    ensures
        r@ == at_most_message(field@, max as nat),
{
    let mut r = String::from_str(field);
    r.append(" must be at most ");
    append_decimal(&mut r, max as u64);
    r.append(" characters");
    r
}

/// The sentence for a value longer than `max`: "<what> may not exceed <max>
/// characters".
pub fn may_not_exceed_sentence(what: &str, max: usize) -> (r: String)
    ensures
        r@ == may_not_exceed_message(what@, max as nat),
{
    let mut r = String::from_str(what);
    r.append(" may not exceed ");
    append_decimal(&mut r, max as u64);
    r.append(" characters");
    r
}

/// The sentence for a missing value: "<what> is required".
pub fn is_required_sentence(what: &str) -> (r: String)
    ensures
        r@ == is_required_message(what@),
{
    let mut r = String::from_str(what);
    r.append(" is required");
    r
}

/// `value` trimmed, refused when the trimmed text is longer than `max_chars`
/// characters. The sentence reads "<field> must be at most <max> characters".
pub fn trimmed_within(value: &str, max_chars: usize, field: &str) -> (r: Result<String, Error>)
    ensures
        r is Ok <==> trim_spec(value@).len() <= max_chars,
        r matches Ok(s) ==> s@ == trim_spec(value@),
        r matches Err(e) ==> e matches Error::InvalidInput(m) && m@ == at_most_message(
            field@,
            max_chars as nat,
        ),
{
    let trimmed = trim_to_string(value);
    if trimmed.as_str().unicode_len() > max_chars {
        return Err(Error::InvalidInput(at_most_sentence(field, max_chars)));
    }
    Ok(trimmed)
}

/// `value` trimmed, refused when the trimmed text is longer than `max`
/// characters. The sentence reads "<what> may not exceed <max> characters".
pub fn trimmed_not_exceeding(value: &str, max: usize, what: &str) -> (r: Result<String, Error>)
    ensures
        r is Ok <==> trim_spec(value@).len() <= max,
        r matches Ok(s) ==> s@ == trim_spec(value@),
        r matches Err(e) ==> e matches Error::InvalidInput(m) && m@ == may_not_exceed_message(
            what@,
            max as nat,
        ),
{
    let trimmed = trim_to_string(value);
    if trimmed.as_str().unicode_len() > max {
        return Err(Error::InvalidInput(may_not_exceed_sentence(what, max)));
    }
    Ok(trimmed)
}

/// Like [`trimmed_not_exceeding`], and refusing a value that trims to
/// nothing with "<what> is required".
pub fn required_not_exceeding(value: &str, max: usize, what: &str) -> (r: Result<String, Error>)
    ensures
        r is Ok <==> 0 < trim_spec(value@).len() <= max,
        r matches Ok(s) ==> s@ == trim_spec(value@),
        r matches Err(e) ==> e matches Error::InvalidInput(m) && (if trim_spec(value@).len()
            > max {
            m@ == may_not_exceed_message(what@, max as nat)
        } else {
            m@ == is_required_message(what@)
        }),
{
    let value = trimmed_not_exceeding(value, max, what)?;
    if value.as_str().unicode_len() == 0 {
        return Err(Error::InvalidInput(is_required_sentence(what)));
    }
    Ok(value)
}

/// ASCII upper-case letters mapped to lower case; every other character kept.
pub open spec fn ascii_lower(c: char) -> char {
    if 65 <= (c as u32) <= 90 {
        ((c as u32) + 32) as char
    } else {
        c
    }
}

/// Every character of `s` passed through [`ascii_lower`].
pub open spec fn ascii_lower_seq(s: Seq<char>) -> Seq<char> {
    s.map_values(|c: char| ascii_lower(c))
}

/// `str::to_ascii_lowercase`: by its documentation, a copy of `s` in which
/// the ASCII letters A to Z become a to z and every other character,
/// non-ASCII letters included, is unchanged.
#[verifier::external_body]
pub(crate) fn ascii_lowercase(s: &str) -> (r: String)
    ensures
        r@ == ascii_lower_seq(s@),
{
    s.to_ascii_lowercase()
}

/// True when the two texts hold the same characters.
pub fn same_text(a: &str, b: &str) -> (r: bool)
    ensures
        r == (a@ == b@),
{
    let va = chars_of(a);
    let vb = chars_of(b);
    if va.len() != vb.len() {
        return false;
    }
    let mut i: usize = 0;
    while i < va.len()
        invariant
            va@ == a@,
            vb@ == b@,
            va@.len() == vb@.len(),
            i <= va@.len(),
            forall|t: int| 0 <= t < i ==> va@[t] == vb@[t],
        decreases va@.len() - i,
    {
        if va[i] != vb[i] {
            return false;
        }
        i = i + 1;
    }
    assert(a@ =~= b@);
    true
}

/// The word an enum reads from stored or submitted text: trimmed, then ASCII
/// lower-cased.
pub open spec fn enum_word(value: Seq<char>) -> Seq<char> {
    ascii_lower_seq(trim_spec(value))
}

/// [`enum_word`] of `value`.
pub fn enum_word_of(value: &str) -> (r: String)
    ensures
        r@ == enum_word(value@),
{
    let t = trim_to_string(value);
    ascii_lowercase(t.as_str())
}

/// A word made of lower-case ASCII letters, digits and underscores, as every
/// stored enum word is.
pub open spec fn is_plain_word(s: Seq<char>) -> bool {
    forall|i: int|
        0 <= i < s.len() ==> {
            let u = (#[trigger] s[i]) as u32;
            (97 <= u <= 122) || (48 <= u <= 57) || u == 95
        }
}

/// A plain word is its own enum word: trimming and folding leave it alone.
pub proof fn lemma_plain_word_reads_as_itself(s: Seq<char>)
    requires
        is_plain_word(s),
    ensures
        enum_word(s) == s,
{
    if s.len() > 0 {
        assert(!is_white_space(s[0]));
        assert(!is_white_space(s[s.len() - 1]));
    }
    assert(trim_start_spec(s) == s);
    assert(trim_end_spec(s) == s);
    assert(ascii_lower_seq(s) =~= s);
}

/// What leading trimming leaves starts with no white space.
proof fn lemma_trim_start_clean(s: Seq<char>)
    ensures
        trim_start_spec(s).len() > 0 ==> !is_white_space(trim_start_spec(s)[0]),
    decreases s.len(),
{
    if s.len() > 0 && is_white_space(s[0]) {
        lemma_trim_start_clean(s.drop_first());
    }
}

/// What trailing trimming leaves is a prefix of `s` ending in no white space.
proof fn lemma_trim_end_clean(s: Seq<char>)
    ensures
        trim_end_spec(s).len() <= s.len(),
        trim_end_spec(s) == s.subrange(0, trim_end_spec(s).len() as int),
        trim_end_spec(s).len() > 0 ==> !is_white_space(trim_end_spec(s).last()),
    decreases s.len(),
{
    if s.len() > 0 && is_white_space(s.last()) {
        lemma_trim_end_clean(s.drop_last());
        assert(s.drop_last().subrange(0, trim_end_spec(s).len() as int) =~= s.subrange(
            0,
            trim_end_spec(s).len() as int,
        ));
    } else {
        assert(s.subrange(0, s.len() as int) =~= s);
    }
}

/// Trimming what was trimmed changes nothing, so a stored value passes its
/// own validation unchanged.
pub proof fn trimming_is_idempotent(s: Seq<char>)
    ensures
        trim_spec(trim_spec(s)) == trim_spec(s),
{
    let a = trim_start_spec(s);
    let t = trim_end_spec(a);
    lemma_trim_start_clean(s);
    lemma_trim_end_clean(a);
    if t.len() > 0 {
        assert(t[0] == a[0]);
        assert(trim_start_spec(t) == t);
        assert(trim_end_spec(t) == t);
    } else {
        assert(trim_start_spec(t) == t);
        assert(trim_end_spec(t) == t);
    }
}

/// The sentence refusing `value` when, trimmed, it is longer than `max`:
/// "<what> may not exceed <max> characters".
pub open spec fn too_long_refusal(value: Seq<char>, max: nat, what: Seq<char>) -> Option<
    Seq<char>,
> {
    if trim_spec(value).len() > max {
        Some(may_not_exceed_message(what, max))
    } else {
        None
    }
}

/// Like [`too_long_refusal`], and "<what> is required" for a value that
/// trims to nothing.
pub open spec fn required_refusal(value: Seq<char>, max: nat, what: Seq<char>) -> Option<
    Seq<char>,
> {
    if trim_spec(value).len() > max {
        Some(may_not_exceed_message(what, max))
    } else if trim_spec(value).len() == 0 {
        Some(is_required_message(what))
    } else {
        None
    }
}

/// The sentence refusing `value` when, trimmed, it is longer than `max`:
/// "<field> must be at most <max> characters".
pub open spec fn at_most_refusal(value: Seq<char>, max: nat, field: Seq<char>) -> Option<
    Seq<char>,
> {
    if trim_spec(value).len() > max {
        Some(at_most_message(field, max))
    } else {
        None
    }
}

/// A check applied to a field that may be absent; an absent one passes.
pub open spec fn when_present(
    value: Option<String>,
    check: spec_fn(Seq<char>) -> Option<Seq<char>>,
) -> Option<Seq<char>> {
    match value {
        Some(v) => check(v@),
        None => None,
    }
}

/// What leading trimming leaves is a suffix of `s`.
proof fn lemma_trim_start_suffix(s: Seq<char>)
    ensures
        trim_start_spec(s).len() <= s.len(),
        trim_start_spec(s) == s.subrange(
            s.len() - trim_start_spec(s).len(),
            s.len() as int,
        ),
    decreases s.len(),
{
    if s.len() > 0 && is_white_space(s[0]) {
        let d = s.drop_first();
        lemma_trim_start_suffix(d);
        let n = trim_start_spec(d).len();
        assert(d.subrange(d.len() - n, d.len() as int) =~= s.subrange(
            s.len() - n,
            s.len() as int,
        ));
    } else {
        assert(s.subrange(0, s.len() as int) =~= s);
    }
}

/// Every character of `trim_spec(s)` is a character of `s`, at an offset:
/// trimming only removes characters from the ends.
pub proof fn lemma_trim_is_infix(s: Seq<char>)
    ensures
        ({
            let off = s.len() - trim_start_spec(s).len();
            &&& 0 <= off
            &&& off + trim_spec(s).len() <= s.len()
            &&& forall|i: int|
                0 <= i < trim_spec(s).len() ==> #[trigger] trim_spec(s)[i] == s[off + i]
        }),
{
    let a = trim_start_spec(s);
    lemma_trim_start_suffix(s);
    lemma_trim_end_clean(a);
    let off = s.len() - a.len();
    assert forall|i: int| 0 <= i < trim_spec(s).len() implies #[trigger] trim_spec(s)[i] == s[off
        + i] by {
        assert(trim_spec(s)[i] == a[i]);
    }
}

} // verus!
