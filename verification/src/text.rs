use unicode_width::{UnicodeWidthChar, UnicodeWidthStr};
use vstd::prelude::*;

verus! {

/// Whether two strings hold the same characters.
pub fn str_eq(a: &str, b: &str) -> (eq: bool)
    ensures
        eq == (a@ == b@),
{
    let n = a.unicode_len();
    if n != b.unicode_len() {
        return false;
    }
    let mut i: usize = 0;
    while i < n
        invariant
            n == a@.len(),
            n == b@.len(),
            i <= n,
            forall|j: int| 0 <= j < i ==> a@[j] == b@[j],
        decreases n - i,
    {
        if a.get_char(i) != b.get_char(i) {
            return false;
        }
        i = i + 1;
    }
    assert(a@ =~= b@);
    true
}

/// The display width that the `unicode-width` crate's tables give a
/// character from U+00A0 up.
pub uninterp spec fn char_display_width(c: char) -> Option<usize>;

/// The display width that the `unicode-width` crate computes for a string
/// holding a character above U+00A0 or a carriage return; ligatures such as
/// emoji sequences make it differ from the sum of the character widths.
pub uninterp spec fn str_display_width(s: Seq<char>) -> usize;

/// The display width of a character, or `None` for a control character:
/// printable ASCII takes one column, the C0 and C1 controls none, and
/// every other character what the crate's tables say.
pub open spec fn char_columns(c: char) -> Option<usize> {
    let u = c as u32;
    if 0x20 <= u < 0x7f {
        Some(1usize)
    } else if u < 0x20 || (0x7f <= u < 0xa0) {
        None
    } else {
        char_display_width(c)
    }
}

/// Whether every character of `s` is at most U+00A0 and none is a carriage
/// return: such a string is as wide as it is long.
pub open spec fn plain_text(s: Seq<char>) -> bool {
    forall|i: int| 0 <= i < s.len() ==> (s[i] as u32) <= 0xa0 && s[i] != '\r'
}

/// The display width of a string: its length for plain text, else what the
/// crate computes.
pub open spec fn text_columns(s: Seq<char>) -> usize {
    if plain_text(s) { s.len() as usize } else { str_display_width(s) }
}

/// Whether `c` has the Unicode `White_Space` property (the property
/// `char::is_whitespace` reports): the tab, line feed, vertical tab, form
/// feed and carriage return, the space, the next-line control, the no-break
/// space, the Ogham space mark, the en quad through the hair space, the line
/// and paragraph separators, the narrow no-break space, the medium
/// mathematical space and the ideographic space.
pub open spec fn is_white_space(c: char) -> bool {
    let u = c as u32;
    ||| 0x09 <= u <= 0x0d
    ||| u == 0x20
    ||| u == 0x85
    ||| u == 0xa0
    ||| u == 0x1680
    ||| 0x2000 <= u <= 0x200a
    ||| u == 0x2028
    ||| u == 0x2029
    ||| u == 0x202f
    ||| u == 0x205f
    ||| u == 0x3000
}

/// `UnicodeWidthChar::width` from `unicode-width`: its source gives printable
/// ASCII width 1 and the C0 and C1 control characters no width; the width of
/// every other character comes from the crate's Unicode tables, which are
/// not restated here.
#[verifier::external_body]
pub(crate) fn char_width(c: char) -> (w: Option<usize>)
    ensures
        w == char_columns(c),
        (c as u32) >= 0xa0 ==> w == char_display_width(c),
{
    UnicodeWidthChar::width(c)
}

/// `UnicodeWidthStr::width` from `unicode-width`: in its source every
/// character up to U+00A0 adds one column, except a carriage return right
/// before a line feed, so a string of such characters without `'\r'` is as
/// wide as it is long. Other strings follow the crate's tables and ligature
/// rules, which are not restated here.
#[verifier::external_body]
pub(crate) fn str_width(s: &str) -> (w: usize)
    ensures
        w == text_columns(s@),
        !plain_text(s@) ==> w == str_display_width(s@),
{
    UnicodeWidthStr::width(s)
}

/// Whether `c` is white space in the sense of Unicode's `White_Space`
/// property.
pub fn is_whitespace(c: char) -> (b: bool)
    ensures
        b == is_white_space(c),
{
    match c {
        '\u{09}'..='\u{0d}' | ' ' | '\u{85}' | '\u{a0}' | '\u{1680}' | '\u{2000}'..='\u{200a}' | '\u{2028}'
        | '\u{2029}' | '\u{202f}' | '\u{205f}' | '\u{3000}' => true,
        _ => false,
    }
}

/// The width a character adds when text is fitted: control characters add none.
pub open spec fn fit_width(c: char) -> nat {
    match char_columns(c) {
        Some(w) => w as nat,
        None => 0,
    }
}

/// Sum of `fit_width` over `s`.
pub open spec fn width_sum(s: Seq<char>) -> nat
    decreases s.len(),
{
    if s.len() == 0 {
        0
    } else {
        fit_width(s[0]) + width_sum(s.drop_first())
    }
}

/// How many leading characters of `s` fit in `limit` columns, taking
/// characters while the running width stays within the limit.
pub open spec fn fit_count(s: Seq<char>, limit: int) -> nat
    decreases s.len(),
{
    if s.len() == 0 || fit_width(s[0]) > limit {
        0
    } else {
        1 + fit_count(s.drop_first(), limit - fit_width(s[0]))
    }
}

/// `s` without its trailing white space.
pub open spec fn trim_end(s: Seq<char>) -> Seq<char>
    decreases s.len(),
{
    if s.len() > 0 && is_white_space(s.last()) {
        trim_end(s.drop_last())
    } else {
        s
    }
}

/// The characters of `text` fitted into `max_width` columns: the whole text
/// if it fits; on three columns or fewer the characters that fit; otherwise
/// the characters that leave room for an ASCII ellipsis, without trailing
/// white space, followed by `...`.
pub open spec fn spec_fit_text(text: Seq<char>, max_width: int) -> Seq<char> {
    if text_columns(text) <= max_width {
        text
    } else if max_width <= 3 {
        text.take(fit_count(text, max_width) as int)
    } else {
        trim_end(text.take(fit_count(text, max_width - 3) as int)) + "..."@
    }
}

/// `fit_count` of a suffix, unrolled by one character.
proof fn lemma_fit_count_unroll(s: Seq<char>, i: int, limit: int)
    requires
        0 <= i < s.len(),
    ensures
        fit_count(s.skip(i), limit) == (if fit_width(s[i]) > limit {
            0
        } else {
            1 + fit_count(s.skip(i + 1), limit - fit_width(s[i]))
        }),
{
    assert(s.skip(i).drop_first() =~= s.skip(i + 1));
    assert(s.skip(i)[0] == s[i]);
}

/// Width sum of a prefix, extended by one character.
proof fn lemma_width_sum_push(s: Seq<char>, c: char)
    ensures
        width_sum(s.push(c)) == width_sum(s) + fit_width(c),
    decreases s.len(),
{
    if s.len() == 0 {
        assert(s.push(c).drop_first() =~= Seq::<char>::empty());
        assert(width_sum(Seq::<char>::empty()) == 0);
        assert(s.push(c)[0] == c);
    } else {
        assert(s.push(c).drop_first() =~= s.drop_first().push(c));
        assert(s.push(c)[0] == s[0]);
        lemma_width_sum_push(s.drop_first(), c);
    }
}

/// Count the leading characters of `text` that fit in `limit` columns.
fn count_fitting(text: &str, limit: usize) -> (k: usize)
    ensures
        k == fit_count(text@, limit as int),
        k <= text@.len(),
        width_sum(text@.take(k as int)) <= limit,
{
    let n = text.unicode_len();
    let mut i: usize = 0;
    let mut width: usize = 0;
    proof {
        assert(text@.skip(0) =~= text@);
        assert(text@.take(0) =~= Seq::<char>::empty());
    }
    while i < n
        invariant
            n == text@.len(),
            i <= n,
            width <= limit,
            width == width_sum(text@.take(i as int)),
            fit_count(text@, limit as int) == i + fit_count(text@.skip(i as int), limit - width),
        decreases n - i,
    {
        let c = text.get_char(i);
        let w: usize = match char_width(c) {
            Some(w) => w,
            None => 0,
        };
        proof {
            lemma_fit_count_unroll(text@, i as int, limit - width);
        }
        if w > limit - width {
            proof {
                assert(fit_count(text@.skip(i as int), limit - width) == 0);
            }
            return i;
        }
        proof {
            assert(text@.take(i + 1) =~= text@.take(i as int).push(c));
            lemma_width_sum_push(text@.take(i as int), c);
        }
        width = width + w;
        i = i + 1;
    }
    proof {
        assert(text@.skip(n as int) =~= Seq::<char>::empty());
        assert(text@.take(n as int) =~= text@);
    }
    i
}

/// Fit `text` into `max_width` terminal columns, ending a shortened text with
/// an ASCII ellipsis when there is room for one.
pub fn fit_text(text: &str, max_width: usize) -> (r: String)
    ensures
        r@ == spec_fit_text(text@, max_width as int),
{
    if str_width(text) <= max_width {
        return String::from_str(text);
    }
    if max_width <= 3 {
        let k = count_fitting(text, max_width);
        return String::from_str(text.substring_char(0, k));
    }
    let k = count_fitting(text, max_width - 3);
    let mut end = k;
    proof {
        assert(text@.take(k as int) =~= text@.subrange(0, k as int));
    }
    while end > 0 && is_whitespace(text.get_char(end - 1))
        invariant
            end <= k,
            k <= text@.len(),
            trim_end(text@.take(k as int)) == trim_end(text@.take(end as int)),
        decreases end,
    {
        proof {
            assert(text@.take(end as int).drop_last() =~= text@.take(end - 1));
            assert(text@.take(end as int).last() == text@[end - 1]);
        }
        end = end - 1;
    }
    proof {
        if end > 0 {
            assert(text@.take(end as int).last() == text@[end - 1]);
        }
        assert(trim_end(text@.take(end as int)) == text@.take(end as int));
        assert(text@.take(end as int) =~= text@.subrange(0, end as int));
    }
    String::from_str(text.substring_char(0, end)).concat("...")
}

proof fn lemma_fit_count_fits(s: Seq<char>, limit: int)
    requires
        limit >= 0,
    ensures
        fit_count(s, limit) <= s.len(),
        width_sum(s.take(fit_count(s, limit) as int)) <= limit,
    decreases s.len(),
{
    if s.len() == 0 || fit_width(s[0]) > limit {
        assert(s.take(0) =~= Seq::<char>::empty());
    } else {
        let rest = s.drop_first();
        lemma_fit_count_fits(rest, limit - fit_width(s[0]));
        let k = fit_count(s, limit) as int;
        assert(s.take(k).drop_first() =~= rest.take(k - 1));
        assert(s.take(k)[0] == s[0]);
    }
}

proof fn lemma_width_sum_prefix(s: Seq<char>, k: int)
    requires
        0 <= k <= s.len(),
    ensures
        width_sum(s.take(k)) <= width_sum(s),
    decreases s.len(),
{
    if k > 0 {
        lemma_width_sum_prefix(s.drop_first(), k - 1);
        assert(s.take(k).drop_first() =~= s.drop_first().take(k - 1));
        assert(s.take(k)[0] == s[0]);
    }
}

proof fn lemma_trim_end_prefix(s: Seq<char>)
    ensures
        trim_end(s).len() <= s.len(),
        trim_end(s) =~= s.take(trim_end(s).len() as int),
        trim_end(s).len() > 0 ==> !is_white_space(trim_end(s).last()),
    decreases s.len(),
{
    if s.len() > 0 && is_white_space(s.last()) {
        lemma_trim_end_prefix(s.drop_last());
        let t = trim_end(s.drop_last());
        assert(s.drop_last().take(t.len() as int) =~= s.take(t.len() as int));
    }
}

/// What fitting text guarantees: a text that fits is kept as it is; a text
/// that does not is cut to a prefix whose characters fit in the columns
/// (leaving three for the ellipsis when there are more than three), and
/// the prefix before an ellipsis never ends in white space.
pub proof fn lemma_fit_text_shape(text: Seq<char>, max_width: nat)
    ensures
        text_columns(text) <= max_width ==> spec_fit_text(text, max_width as int) == text,
        text_columns(text) > max_width && max_width <= 3 ==> {
            let r = spec_fit_text(text, max_width as int);
            &&& r.len() <= text.len()
            &&& r == text.take(r.len() as int)
            &&& width_sum(r) <= max_width
        },
        text_columns(text) > max_width && max_width > 3 ==> {
            let r = spec_fit_text(text, max_width as int);
            let p = r.take(r.len() - 3);
            &&& r.len() >= 3
            &&& r == p + "..."@
            &&& p.len() <= text.len()
            &&& p == text.take(p.len() as int)
            &&& width_sum(p) <= max_width - 3
            &&& p.len() > 0 ==> !is_white_space(p.last())
        },
{
    reveal_strlit("...");
    if text_columns(text) > max_width {
        if max_width <= 3 {
            lemma_fit_count_fits(text, max_width as int);
        } else {
            let limit = max_width - 3;
            lemma_fit_count_fits(text, limit);
            let k = fit_count(text, limit) as int;
            let kept = text.take(k);
            lemma_trim_end_prefix(kept);
            let p = trim_end(kept);
            lemma_width_sum_prefix(kept, p.len() as int);
            let r = spec_fit_text(text, max_width as int);
            assert(r == p + "..."@);
            assert(r.take(r.len() - 3) =~= p);
            assert(p =~= text.take(p.len() as int));
        }
    }
}

/// Every character is printable ASCII (U+0020 to U+007E), one column wide.
pub open spec fn printable_ascii(s: Seq<char>) -> bool {
    forall|i: int| 0 <= i < s.len() ==> 0x20 <= (#[trigger] s[i] as u32) < 0x7f
}

proof fn lemma_printable_width(s: Seq<char>)
    requires
        printable_ascii(s),
    ensures
        width_sum(s) == s.len(),
        plain_text(s),
    decreases s.len(),
{
    if s.len() > 0 {
        let rest = s.drop_first();
        assert forall|i: int| 0 <= i < rest.len() implies 0x20 <= (#[trigger] rest[i] as u32) < 0x7f by {
            assert(rest[i] == s[i + 1]);
        }
        lemma_printable_width(rest);
    }
    assert forall|i: int| 0 <= i < s.len() implies (s[i] as u32) <= 0xa0 && s[i] != '\r' by {
        assert(0x20 <= (s[i] as u32) < 0x7f);
    }
}

proof fn lemma_printable_prefix(s: Seq<char>, k: int)
    requires
        printable_ascii(s),
        0 <= k <= s.len(),
    ensures
        printable_ascii(s.take(k)),
{
    assert forall|i: int| 0 <= i < s.take(k).len() implies 0x20 <= (#[trigger] s.take(k)[i] as u32) < 0x7f by {
        assert(s.take(k)[i] == s[i]);
    }
}

/// Fitting is idempotent where width adds up character by character, as it
/// does for printable ASCII: a fitted text fits, so fitting it again changes
/// nothing.
pub proof fn lemma_fit_text_idempotent(text: Seq<char>, max_width: nat)
    requires
        printable_ascii(text),
        text.len() <= usize::MAX,
    ensures
        text_columns(spec_fit_text(text, max_width as int)) <= max_width,
        spec_fit_text(spec_fit_text(text, max_width as int), max_width as int) == spec_fit_text(
            text,
            max_width as int,
        ),
{
    reveal_strlit("...");
    lemma_fit_text_shape(text, max_width);
    lemma_printable_width(text);
    let r = spec_fit_text(text, max_width as int);
    if text_columns(text) > max_width {
        if max_width <= 3 {
            lemma_printable_prefix(text, r.len() as int);
            lemma_printable_width(r);
        } else {
            let p = r.take(r.len() - 3);
            lemma_printable_prefix(text, p.len() as int);
            lemma_printable_width(p);
            assert forall|i: int| 0 <= i < r.len() implies 0x20 <= (#[trigger] r[i] as u32) < 0x7f by {
                if i < p.len() {
                    assert(r[i] == p[i]);
                } else {
                    assert(r[i] == "..."@[i - p.len()]);
                }
            }
            lemma_printable_width(r);
        }
    }
}

} // verus!
