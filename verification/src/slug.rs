//! URL slugs for spaces and channels, made from their names.

use vstd::prelude::*;
use vstd::string::StrSliceExecFns;
use crate::ids::first_group;
use crate::text::{push_char, push_hex_fixed};

verus! {

/// What `str::to_lowercase` makes of a text (Unicode lowercase mapping).
pub uninterp spec fn lowercase(s: Seq<char>) -> Seq<char>;

/// Whether `char::is_alphanumeric` holds of a character (Unicode letters and
/// numbers).
pub uninterp spec fn alphanumeric(c: char) -> bool;

/// Whether a character is ASCII.
pub open spec fn is_ascii_char(c: char) -> bool {
    (c as u32) < 128
}

/// Whether every character of a text is ASCII.
pub open spec fn all_ascii(s: Seq<char>) -> bool {
    forall|i: int| 0 <= i < s.len() ==> is_ascii_char(#[trigger] s[i])
}

/// The ASCII letters and digits.
pub open spec fn ascii_alnum(c: char) -> bool {
    ('a' <= c && c <= 'z') || ('A' <= c && c <= 'Z') || ('0' <= c && c <= '9')
}

/// An ASCII capital made small; any other character unchanged.
pub open spec fn ascii_lower_char(c: char) -> char {
    if 'A' <= c && c <= 'Z' {
        ((c as u32) + 32) as char
    } else {
        c
    }
}

/// A text with its ASCII capitals made small.
pub open spec fn ascii_lower(s: Seq<char>) -> Seq<char> {
    s.map_values(|c: char| ascii_lower_char(c))
}

/// `str::to_lowercase`. Claimed besides the name: on ASCII text it maps
/// `A`..`Z` to `a`..`z` and keeps every other character, as Unicode's
/// lowercase mapping does.
#[verifier::external_body]
pub(crate) fn to_lowercase(s: &str) -> (r: String)
    ensures
        r@ == lowercase(s@),
        all_ascii(s@) ==> r@ == ascii_lower(s@),
{
    s.to_lowercase()
}

/// `char::is_alphanumeric`. Claimed besides the name: an ASCII character is
/// alphanumeric exactly when it is a letter or a digit (no other ASCII
/// character is Alphabetic or Numeric in Unicode).
#[verifier::external_body]
pub(crate) fn is_alphanumeric(c: char) -> (b: bool)
    ensures
        b == alphanumeric(c),
        is_ascii_char(c) ==> (b <==> ascii_alnum(c)),
{
    c.is_alphanumeric()
}

/// A character of a slug: itself when alphanumeric, a hyphen otherwise.
pub open spec fn slug_char(c: char) -> char {
    if alphanumeric(c) { c } else { '-' }
}

pub open spec fn dashed(s: Seq<char>) -> Seq<char> {
    s.map_values(|c: char| slug_char(c))
}

pub open spec fn ascii_dashed(s: Seq<char>) -> Seq<char> {
    s.map_values(|c: char| if ascii_alnum(c) { c } else { '-' })
}

/// The text without its leading hyphens.
pub open spec fn trim_start_dashes(s: Seq<char>) -> Seq<char>
    decreases s.len(),
{
    if s.len() > 0 && s[0] == '-' {
        trim_start_dashes(s.drop_first())
    } else {
        s
    }
}

/// The text without its trailing hyphens.
pub open spec fn trim_end_dashes(s: Seq<char>) -> Seq<char>
    decreases s.len(),
{
    if s.len() > 0 && s.last() == '-' {
        trim_end_dashes(s.drop_last())
    } else {
        s
    }
}

/// The slug of an already lowercased name: every character that is not
/// alphanumeric becomes a hyphen, then hyphens at both ends are removed.
pub open spec fn slug_of(lowered: Seq<char>) -> Seq<char> {
    trim_end_dashes(trim_start_dashes(dashed(lowered)))
}

/// The slug of an ASCII name, lowercased: every character that is not an
/// ASCII letter or digit becomes a hyphen, then hyphens at both ends are
/// removed.
pub open spec fn ascii_slug_of(lowered: Seq<char>) -> Seq<char> {
    trim_end_dashes(trim_start_dashes(ascii_dashed(lowered)))
}

/// Lowercasing ASCII text keeps it ASCII.
pub proof fn lemma_ascii_lower_ascii(s: Seq<char>)
    requires
        all_ascii(s),
    ensures
        all_ascii(ascii_lower(s)),
{
    assert forall|i: int| 0 <= i < ascii_lower(s).len() implies is_ascii_char(#[trigger] ascii_lower(s)[i]) by {
        assert(is_ascii_char(s[i]));
        let c = s[i];
        if 'A' <= c && c <= 'Z' {
            assert((c as u32) + 32 < 128);
        }
    }
}

/// Makes the slug of an already lowercased name.
pub fn slugify(lowered: &str) -> (r: String)
    ensures
        r@ == slug_of(lowered@),
        all_ascii(lowered@) ==> r@ == ascii_slug_of(lowered@),
{
    let n = lowered.unicode_len();
    let mut v: Vec<char> = Vec::new();
    let mut k: usize = 0;
    while k < n
        invariant
            n == lowered@.len(),
            k <= n,
            v@ == dashed(lowered@.subrange(0, k as int)),
            all_ascii(lowered@) ==> v@ == ascii_dashed(lowered@.subrange(0, k as int)),
        decreases n - k,
    {
        let c = lowered.get_char(k);
        let d = if is_alphanumeric(c) { c } else { '-' };
        v.push(d);
        assert(dashed(lowered@.subrange(0, (k + 1) as int)) =~= dashed(lowered@.subrange(0, k as int)).push(d));
        assert(ascii_dashed(lowered@.subrange(0, (k + 1) as int)) =~= ascii_dashed(lowered@.subrange(0, k as int)).push(
            if ascii_alnum(c) { c } else { '-' },
        ));
        proof {
            if all_ascii(lowered@) {
                assert(is_ascii_char(lowered@[k as int]));
            }
        }
        k += 1;
    }
    assert(lowered@.subrange(0, n as int) =~= lowered@);
    assert(all_ascii(lowered@) ==> dashed(lowered@) == ascii_dashed(lowered@));
    assert(ascii_slug_of(lowered@) == trim_end_dashes(trim_start_dashes(ascii_dashed(lowered@))));
    let ghost full = v@;
    assert(full.subrange(0, n as int) =~= full);
    let mut i: usize = 0;
    while i < n && v[i] == '-'
        invariant
            v@ == full,
            full.len() == n,
            i <= n,
            trim_start_dashes(full) == trim_start_dashes(full.subrange(i as int, n as int)),
        decreases n - i,
    {
        assert(full.subrange(i as int, n as int).drop_first() =~= full.subrange(i + 1, n as int));
        i += 1;
    }
    assert(trim_start_dashes(full) == full.subrange(i as int, n as int));
    let mut j: usize = n;
    while j > i && v[j - 1] == '-'
        invariant
            v@ == full,
            full.len() == n,
            i <= j <= n,
            trim_end_dashes(full.subrange(i as int, n as int)) == trim_end_dashes(full.subrange(i as int, j as int)),
        decreases j,
    {
        assert(full.subrange(i as int, j as int).drop_last() =~= full.subrange(i as int, j - 1));
        j -= 1;
    }
    assert(trim_end_dashes(full.subrange(i as int, j as int)) == full.subrange(i as int, j as int));
    let mut r = String::new();
    let mut m: usize = i;
    while m < j
        invariant
            v@ == full,
            full.len() == n,
            i <= m <= j <= n,
            r@ == full.subrange(i as int, m as int),
        decreases j - m,
    {
        push_char(&mut r, v[m]);
        assert(full.subrange(i as int, (m + 1) as int) =~= full.subrange(i as int, m as int).push(full[m as int]));
        m += 1;
    }
    r
}

/// Trimming leading hyphens leaves a text that does not start with one.
proof fn lemma_trim_start_no_dash(s: Seq<char>)
    ensures
        trim_start_dashes(s).len() > 0 ==> trim_start_dashes(s)[0] != '-',
        forall|c: char| trim_start_dashes(s).contains(c) ==> s.contains(c),
    decreases s.len(),
{
    if s.len() > 0 && s[0] == '-' {
        lemma_trim_start_no_dash(s.drop_first());
        assert forall|c: char| trim_start_dashes(s).contains(c) implies s.contains(c) by {
            if trim_start_dashes(s).contains(c) {
                assert(trim_start_dashes(s.drop_first()).contains(c));
                assert(s.drop_first().contains(c));
                let k = choose|k: int| 0 <= k < s.drop_first().len() && s.drop_first()[k] == c;
                assert(s[k + 1] == c);
            }
        }
    }
}

/// Trimming trailing hyphens keeps the first character unless the text was
/// all hyphens, and ends on a character that is not one.
proof fn lemma_trim_end(s: Seq<char>)
    ensures
        trim_end_dashes(s).len() > 0 ==> trim_end_dashes(s).last() != '-',
        trim_end_dashes(s).len() > 0 ==> trim_end_dashes(s)[0] == s[0],
        forall|c: char| trim_end_dashes(s).contains(c) ==> s.contains(c),
    decreases s.len(),
{
    if s.len() > 0 && s.last() == '-' {
        lemma_trim_end(s.drop_last());
        assert forall|c: char| trim_end_dashes(s).contains(c) implies s.contains(c) by {
            if trim_end_dashes(s).contains(c) {
                assert(trim_end_dashes(s.drop_last()).contains(c));
                assert(s.drop_last().contains(c));
                let k = choose|k: int| 0 <= k < s.drop_last().len() && s.drop_last()[k] == c;
                assert(s[k] == c);
            }
        }
    }
}

/// A slug neither starts nor ends with a hyphen, and holds only hyphens
/// and alphanumeric characters.
pub proof fn lemma_slug_shape(lowered: Seq<char>)
    ensures
        slug_of(lowered).len() > 0 ==> slug_of(lowered)[0] != '-' && slug_of(lowered).last() != '-',
        forall|i: int| 0 <= i < slug_of(lowered).len() ==> slug_of(lowered)[i] == '-' || alphanumeric(#[trigger] slug_of(lowered)[i]),
{
    let d = dashed(lowered);
    let t = trim_start_dashes(d);
    lemma_trim_start_no_dash(d);
    lemma_trim_end(t);
    assert forall|i: int| 0 <= i < slug_of(lowered).len() implies slug_of(lowered)[i] == '-' || alphanumeric(#[trigger] slug_of(lowered)[i]) by {
        let c = slug_of(lowered)[i];
        assert(slug_of(lowered).contains(c));
        assert(d.contains(c));
        let k = choose|k: int| 0 <= k < d.len() && d[k] == c;
        assert(d[k] == slug_char(lowered[k]));
    }
}

/// The slug for a name; when nothing of the name survives, the fallback
/// prefix, a hyphen and the first eight hex digits of a random UUID.
pub fn generate_slug(name: &str, fallback_prefix: &str) -> (r: String)
    ensures
        slug_of(lowercase(name@)).len() > 0 ==> r@ == slug_of(lowercase(name@)),
        slug_of(lowercase(name@)).len() == 0 ==> exists|u: u128| r@ == fallback_prefix@ + seq!['-'] + #[trigger] first_group(u),
        all_ascii(name@) ==> slug_of(lowercase(name@)) == ascii_slug_of(ascii_lower(name@)),
{
    let lowered = to_lowercase(name);
    let slug = slugify(lowered.as_str());
    proof {
        if all_ascii(name@) {
            lemma_ascii_lower_ascii(name@);
        }
    }
    if slug.as_str().unicode_len() == 0 {
        let u = crate::ids::new_v4();
        let mut r = fallback_prefix.to_owned();
        push_char(&mut r, '-');
        push_hex_fixed(&mut r, u / 0x1_0000_0000_0000_0000_0000_0000, 8);
        assert(r@ =~= fallback_prefix@ + seq!['-'] + first_group(u));
        r
    } else {
        slug
    }
}

/// The slug of a new space.
pub fn space_slug(name: &str) -> (r: String)
    ensures
        slug_of(lowercase(name@)).len() > 0 ==> r@ == slug_of(lowercase(name@)),
        slug_of(lowercase(name@)).len() == 0 ==> exists|u: u128| r@ == "space"@ + seq!['-'] + #[trigger] first_group(u),
        all_ascii(name@) ==> slug_of(lowercase(name@)) == ascii_slug_of(ascii_lower(name@)),
{
    generate_slug(name, "space")
}

/// The slug of a new channel.
pub fn channel_slug(name: &str) -> (r: String)
    ensures
        slug_of(lowercase(name@)).len() > 0 ==> r@ == slug_of(lowercase(name@)),
        slug_of(lowercase(name@)).len() == 0 ==> exists|u: u128| r@ == "channel"@ + seq!['-'] + #[trigger] first_group(u),
        all_ascii(name@) ==> slug_of(lowercase(name@)) == ascii_slug_of(ascii_lower(name@)),
{
    generate_slug(name, "channel")
}

} // verus!
