//! Small text helpers: string comparison, slugs, truncation and decimal rendering.
use vstd::prelude::*;
use vstd::string::StringSliceAdditionalSpecFns;

verus! {

/// Relies on `String::push`: appends one character at the end of the string.
#[verifier::external_body]
pub(crate) fn push_char(s: &mut String, c: char)
    ensures
        final(s)@ == old(s)@.push(c),
{
    s.push(c)
}

/// Whether two strings hold the same characters.
pub fn str_eq(a: &str, b: &str) -> (r: bool)
    ensures
        r == (a@ == b@),
{
    let n = a.unicode_len();
    if n != b.unicode_len() {
        return false;
    }
    let mut i: usize = 0;
    while i < n
        invariant
            n == a@.len(),
            n == b@.len(),
            i <= n,
            a@.subrange(0, i as int) == b@.subrange(0, i as int),
        decreases n - i,
    {
        if a.get_char(i) != b.get_char(i) {
            return false;
        }
        assert(a@.subrange(0, i + 1) == a@.subrange(0, i as int).push(a@[i as int]));
        assert(b@.subrange(0, i + 1) == b@.subrange(0, i as int).push(b@[i as int]));
        i = i + 1;
    }
    assert(a@ == a@.subrange(0, n as int));
    assert(b@ == b@.subrange(0, n as int));
    true
}

/// Whether `v` holds a string equal to `s`.
pub open spec fn contains_name(v: Seq<String>, s: Seq<char>) -> bool {
    exists|k: int| 0 <= k < v.len() && #[trigger] v[k]@ == s
}

/// Whether the list `v` holds a string equal to `s`.
pub fn list_contains(v: &Vec<String>, s: &str) -> (r: bool)
    ensures
        r == contains_name(v@, s@),
{
    let mut k: usize = 0;
    while k < v.len()
        invariant
            k <= v@.len(),
            forall|j: int| 0 <= j < k ==> #[trigger] v@[j]@ != s@,
        decreases v@.len() - k,
    {
        if str_eq(v[k].as_str(), s) {
            return true;
        }
        k = k + 1;
    }
    false
}

/// The decimal digit character for `d < 10`.
pub open spec fn digit_char(d: int) -> char {
    if d == 0 {
        '0'
    } else if d == 1 {
        '1'
    } else if d == 2 {
        '2'
    } else if d == 3 {
        '3'
    } else if d == 4 {
        '4'
    } else if d == 5 {
        '5'
    } else if d == 6 {
        '6'
    } else if d == 7 {
        '7'
    } else if d == 8 {
        '8'
    } else {
        '9'
    }
}

/// Decimal notation of `n`, without leading zeros.
pub open spec fn decimal(n: nat) -> Seq<char>
    decreases n,
{
    if n < 10 {
        seq![digit_char(n as int)]
    } else {
        decimal(n / 10).push(digit_char((n % 10) as int))
    }
}

fn digit_to_char(d: u64) -> (c: char)
    requires
        d < 10,
    ensures
        c == digit_char(d as int),
{
    if d == 0 {
        '0'
    } else if d == 1 {
        '1'
    } else if d == 2 {
        '2'
    } else if d == 3 {
        '3'
    } else if d == 4 {
        '4'
    } else if d == 5 {
        '5'
    } else if d == 6 {
        '6'
    } else if d == 7 {
        '7'
    } else if d == 8 {
        '8'
    } else {
        '9'
    }
}

/// Appends the decimal notation of `n` to `s`.
pub fn push_decimal(s: &mut String, n: u64)
    ensures
        final(s)@ == old(s)@ + decimal(n as nat),
    decreases n,
{
    if n >= 10 {
        push_decimal(s, n / 10);
    }
    push_char(s, digit_to_char(n % 10));
    proof {
        if n < 10 {
            assert(decimal(n as nat) == seq![digit_char(n as int)]);
        }
    }
    assert(s@ =~= old(s)@ + decimal(n as nat));
}

/// What `str::to_lowercase` makes of a string.
pub uninterp spec fn lower_of(s: Seq<char>) -> Seq<char>;

/// Relies on `str::to_lowercase`: the Unicode lowercase mapping of the whole string, which
/// depends on its characters alone.
#[verifier::external_body]
fn lowercase(s: &str) -> (r: String)
    ensures
        r@ == lower_of(s@),
{
    s.to_lowercase()
}

/// Characters a slug keeps: ASCII lowercase letters and digits.
pub open spec fn is_slug_char(c: char) -> bool {
    ('a' <= c && c <= 'z') || ('0' <= c && c <= '9')
}

/// The slug of `s`: its maximal runs of slug characters, joined by single hyphens.
pub open spec fn slug(s: Seq<char>) -> Seq<char>
    decreases s.len(),
{
    if s.len() == 0 {
        seq![]
    } else {
        let t = s.drop_last();
        let c = s.last();
        if !is_slug_char(c) {
            slug(t)
        } else if t.len() > 0 && is_slug_char(t.last()) {
            slug(t).push(c)
        } else if slug(t).len() == 0 {
            seq![c]
        } else {
            slug(t).push('-').push(c)
        }
    }
}

/// The slug of an already lowercased string.
pub fn slugify_lowercased(lowered: &str) -> (r: String)
    ensures
        r@ == slug(lowered@),
{
    let s = lowered;
    let n = s.unicode_len();
    let mut out = String::new();
    let mut prev_kept = false;
    let mut i: usize = 0;
    while i < n
        invariant
            n == s@.len(),
            i <= n,
            out@ == slug(s@.take(i as int)),
            prev_kept == (i > 0 && is_slug_char(s@[i - 1])),
        decreases n - i,
    {
        let c = s.get_char(i);
        let ghost t = s@.take(i as int);
        assert(s@.take(i + 1).drop_last() =~= t);
        assert(s@.take(i + 1).last() == c);
        let kept = ('a' <= c && c <= 'z') || ('0' <= c && c <= '9');
        if kept {
            if !prev_kept && out.unicode_len() > 0 {
                push_char(&mut out, '-');
            }
            push_char(&mut out, c);
        }
        proof {
            if i > 0 {
                assert(t.last() == s@[i - 1]);
            }
        }
        prev_kept = kept;
        i = i + 1;
    }
    assert(s@.take(n as int) =~= s@);
    out
}

/// A URL slug of `input`: lowercased, with every run of other characters turned into a single
/// hyphen between words and none at either end.
pub fn slugify(input: &str) -> (r: String)
    ensures
        r@ == slug(lower_of(input@)),
{
    let lowered = lowercase(input);
    slugify_lowercased(lowered.as_str())
}

/// Byte length kept before the ellipsis when text longer than `max` bytes is cut.
pub open spec fn kept_bytes(max: int) -> int {
    if max >= 3 {
        max - 3
    } else {
        0
    }
}

/// Whether truncating UTF-8 text `b` to `max` bytes cuts at a character boundary, as it must.
pub open spec fn cut_on_boundary(b: Seq<u8>, max: int) -> bool {
    b.len() <= max || vstd::utf8::is_char_boundary(b, kept_bytes(max))
}

/// UTF-8 text `b` cut to `max` bytes: unchanged when it fits, else its first `max - 3` bytes
/// (none when `max < 3`) followed by three dots.
pub open spec fn truncated(b: Seq<u8>, max: int) -> Seq<char> {
    if b.len() <= max {
        vstd::utf8::decode_utf8(b)
    } else {
        vstd::utf8::decode_utf8(b.take(kept_bytes(max))) + seq!['.', '.', '.']
    }
}

/// Truncates `text` to `max_length` bytes, marking a cut with an ellipsis. The cut must fall
/// on a character boundary.
pub fn truncate_text(text: &str, max_length: usize) -> (r: String)
    requires
        cut_on_boundary(text.spec_bytes(), max_length as int),
    ensures
        r@ == truncated(text.spec_bytes(), max_length as int),
{
    proof {
        vstd::utf8::encode_utf8_decode_utf8(text@);
    }
    if text.as_bytes().len() <= max_length {
        text.to_owned()
    } else {
        let keep = if max_length >= 3 { max_length - 3 } else { 0 };
        let (head, _) = text.split_at(keep);
        proof {
            vstd::utf8::encode_utf8_decode_utf8(head@);
            assert(head.spec_bytes() =~= text.spec_bytes().take(keep as int));
        }
        let mut r = String::from_str(head);
        r.append("...");
        proof {
            reveal_strlit("...");
        }
        assert(r@ =~= truncated(text.spec_bytes(), max_length as int));
        r
    }
}

/// Relies on `SystemTime::now`: milliseconds from the Unix epoch to now, or `None` when the
/// system clock reads earlier than the epoch.
#[verifier::external_body]
fn millis_since_epoch() -> (r: Option<u128>)
{
    std::time::SystemTime::now().duration_since(std::time::UNIX_EPOCH).ok().map(|d| d.as_millis())
}

/// A millisecond count as `u64`: 0 when there is none, and `u64::MAX` past the range of `u64`.
pub fn timestamp_from_millis(ms: Option<u128>) -> (r: u64)
    ensures
        r == match ms {
            Some(m) => if m <= u64::MAX as u128 {
                m as u64
            } else {
                u64::MAX
            },
            None => 0,
        },
{
    match ms {
        Some(m) => {
            if m <= u64::MAX as u128 {
                m as u64
            } else {
                u64::MAX
            }
        },
        None => 0,
    }
}

/// Milliseconds since the Unix epoch: 0 when the clock reads before the epoch, and
/// `u64::MAX` past the range of `u64`.
pub fn current_timestamp_ms() -> u64 {
    timestamp_from_millis(millis_since_epoch())
}

} // verus!
