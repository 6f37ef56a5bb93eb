//! Plain-text helpers: characters of a string, the first line of a text,
//! blank detection, decimal rendering and grapheme-aware truncation.

use unicode_segmentation::UnicodeSegmentation;
use vstd::prelude::*;

verus! {

// ---------------------------------------------------------------------------
// Models
// ---------------------------------------------------------------------------

/// The views of a sequence of strings.
pub open spec fn strings_view(s: Seq<String>) -> Seq<Seq<char>> {
    s.map_values(|w: String| w@)
}

/// The views of optional strings.
pub open spec fn opt_string_view(o: Option<String>) -> Option<Seq<char>> {
    match o {
        Some(s) => Some(s@),
        None => None,
    }
}

/// All pieces of `pieces`, one after the other.
pub open spec fn concat_all(pieces: Seq<Seq<char>>) -> Seq<char>
    decreases pieces.len(),
{
    if pieces.len() == 0 {
        Seq::empty()
    } else {
        concat_all(pieces.drop_last()) + pieces.last()
    }
}

/// `k` is the position of the first line feed of `s`.
pub open spec fn is_first_newline(s: Seq<char>, k: int) -> bool {
    &&& 0 <= k < s.len()
    &&& s[k] == '\n'
    &&& forall|j: int| 0 <= j < k ==> s[j] != '\n'
}

/// What a command snippet starts from: the text itself when it is one line;
/// otherwise its first line followed by `" ..."`.
pub open spec fn first_line_marked(s: Seq<char>) -> Seq<char> {
    if s.contains('\n') {
        s.take(choose|k: int| is_first_newline(s, k)) + " ..."@
    } else {
        s
    }
}

/// Whether `c` has Unicode's `White_Space` property (what `char::is_whitespace`
/// decides): U+0009 to U+000D, U+0020, U+0085, U+00A0, U+1680, U+2000 to
/// U+200A, U+2028, U+2029, U+202F, U+205F and U+3000.
pub open spec fn is_white_space(c: char) -> bool {
    let u = c as u32;
    ||| 0x9 <= u <= 0xd
    ||| u == 0x20
    ||| u == 0x85
    ||| u == 0xa0
    ||| u == 0x1680
    ||| 0x2000 <= u <= 0x200a
    ||| u == 0x2028
    ||| u == 0x2029
    ||| u == 0x202f
    ||| u == 0x205f
    ||| u == 0x3000
}

/// A text made only of white space (the empty text among them): what
/// `str::trim` reduces to the empty string.
pub open spec fn is_blank_text(s: Seq<char>) -> bool {
    forall|i: int| 0 <= i < s.len() ==> is_white_space(#[trigger] s[i])
}

/// The ASCII digit for `d < 10`.
pub open spec fn digit_char(d: nat) -> char {
    ((d + 48) as u8) as char
}

/// The decimal notation of `n`, without leading zeros.
pub open spec fn decimal(n: nat) -> Seq<char>
    decreases n,
{
    if n < 10 {
        seq![digit_char(n)]
    } else {
        decimal(n / 10).push(digit_char(n % 10))
    }
}

/// The number a string of ASCII digits denotes.
pub open spec fn decimal_value(digits: Seq<char>) -> nat
    decreases digits.len(),
{
    if digits.len() == 0 {
        0
    } else {
        decimal_value(digits.drop_last()) * 10 + ((digits.last() as u32 - 48) as nat)
    }
}

proof fn lemma_digit_char_code(d: nat)
    requires
        d < 10,
    ensures
        digit_char(d) as u32 == d + 48,
        d > 0 ==> digit_char(d) != '0',
{
    let b: u8 = (d + 48) as u8;
    assert(b == d + 48);
    assert((b as char) as u32 == b);
}

/// Law: the decimal notation of `n` denotes `n`, and has no leading zero.
pub proof fn lemma_decimal_denotes(n: nat)
    ensures
        decimal_value(decimal(n)) == n,
        decimal(n).len() >= 1,
        n >= 10 ==> decimal(n).len() >= 2,
        decimal(n).len() > 1 ==> decimal(n)[0] != '0',
    decreases n,
{
    if n >= 10 {
        let q = n / 10;
        let r = n % 10;
        lemma_decimal_denotes(q);
        lemma_digit_char_code(r);
        let d = decimal(n);
        assert(d == decimal(q).push(digit_char(r)));
        assert(d.drop_last() =~= decimal(q));
        assert(d.last() == digit_char(r));
        assert(decimal_value(d) == decimal_value(decimal(q)) * 10 + r);
        assert(q * 10 + r == n) by (nonlinear_arith)
            requires
                q == n / 10,
                r == n % 10,
        ;
        assert(d[0] == decimal(q)[0]);
        if decimal(q).len() == 1 {
            assert(q < 10);
            assert(q > 0);
            lemma_digit_char_code(q);
            assert(q > 0);
            assert(decimal(q)[0] == digit_char(q));
        }
    } else {
        lemma_digit_char_code(n);
        let d = decimal(n);
        assert(d.drop_last() =~= Seq::<char>::empty());
        assert(d.last() == digit_char(n));
        assert(decimal_value(d) == decimal_value(Seq::<char>::empty()) * 10 + n);
    }
}

/// The extended grapheme clusters of a text, in order, as the
/// `unicode-segmentation` crate splits it (UAX #29).
pub uninterp spec fn grapheme_clusters(text: Seq<char>) -> Seq<Seq<char>>;

/// `text` cut to at most `max` grapheme clusters, given its clusters: unchanged
/// when it has no more than `max` of them; otherwise its first `max - 3`
/// clusters followed by `"..."` (or, for `max < 3`, its first `max` clusters).
pub open spec fn truncated_by_clusters(text: Seq<char>, clusters: Seq<Seq<char>>, max: nat) -> Seq<char> {
    if clusters.len() > max {
        if max >= 3 {
            concat_all(clusters.take(max - 3)) + "..."@
        } else {
            concat_all(clusters.take(max as int))
        }
    } else {
        text
    }
}

/// `text` cut to at most `max` grapheme clusters.
pub open spec fn truncated_text(text: Seq<char>, max: nat) -> Seq<char> {
    truncated_by_clusters(text, grapheme_clusters(text), max)
}

// ---------------------------------------------------------------------------
// Lemmas
// ---------------------------------------------------------------------------

/// Concatenating a prefix of the pieces gives a prefix of the concatenation.
pub proof fn lemma_concat_all_take(pieces: Seq<Seq<char>>, k: int)
    requires
        0 <= k <= pieces.len(),
    ensures
        concat_all(pieces) == concat_all(pieces.take(k)) + concat_all(pieces.skip(k)),
    decreases pieces.len(),
{
    if k == pieces.len() {
        assert(pieces.take(k) =~= pieces);
        assert(pieces.skip(k) =~= Seq::<Seq<char>>::empty());
        assert(concat_all(pieces.take(k)) + Seq::<char>::empty() =~= concat_all(pieces.take(k)));
    } else {
        let init = pieces.drop_last();
        lemma_concat_all_take(init, k);
        assert(init.take(k) =~= pieces.take(k));
        assert(pieces.skip(k).drop_last() =~= init.skip(k));
        assert(pieces.skip(k).last() == pieces.last());
        assert(concat_all(pieces.skip(k)) == concat_all(init.skip(k)) + pieces.last());
        assert(concat_all(pieces.take(k)) + concat_all(pieces.skip(k)) =~= concat_all(
            pieces.take(k),
        ) + concat_all(init.skip(k)) + pieces.last());
    }
}

/// Pieces that are not empty are no more numerous than the characters
/// they make up.
pub proof fn lemma_concat_all_len(pieces: Seq<Seq<char>>)
    requires
        forall|i: int| 0 <= i < pieces.len() ==> #[trigger] pieces[i].len() > 0,
    ensures
        concat_all(pieces).len() >= pieces.len(),
    decreases pieces.len(),
{
    if pieces.len() > 0 {
        let init = pieces.drop_last();
        assert forall|i: int| 0 <= i < init.len() implies #[trigger] init[i].len() > 0 by {
            assert(init[i] == pieces[i]);
        }
        lemma_concat_all_len(init);
        assert(pieces.last() == pieces[pieces.len() - 1]);
    }
}

/// The first line feed of a text is unique.
pub proof fn lemma_first_newline_unique(s: Seq<char>, k: int, l: int)
    requires
        is_first_newline(s, k),
        is_first_newline(s, l),
    ensures
        k == l,
{
    if k < l {
        assert(s[k] != '\n');
    } else if l < k {
        assert(s[l] != '\n');
    }
}

/// A text that holds a line feed has a first one.
pub proof fn lemma_first_newline_exists(s: Seq<char>)
    requires
        s.contains('\n'),
    ensures
        exists|k: int| is_first_newline(s, k),
    decreases s.len(),
{
    let init = s.drop_last();
    if init.contains('\n') {
        lemma_first_newline_exists(init);
        let k = choose|k: int| is_first_newline(init, k);
        assert(s[k] == init[k]);
        assert forall|j: int| 0 <= j < k implies s[j] != '\n' by {
            assert(s[j] == init[j]);
        }
        assert(is_first_newline(s, k));
    } else {
        let k = s.len() - 1;
        assert forall|j: int| 0 <= j < k implies s[j] != '\n' by {
            assert(init[j] == s[j]);
        }
        let w = choose|w: int| 0 <= w < s.len() && s[w] == '\n';
        if w < k {
            assert(init[w] == '\n');
        }
        assert(s[k] == '\n');
        assert(is_first_newline(s, k));
    }
}

/// A text with no line feed keeps none in any prefix.
pub proof fn lemma_prefix_keeps_no_newline(s: Seq<char>, p: Seq<char>, q: Seq<char>)
    requires
        s == p + q,
        !s.contains('\n'),
    ensures
        !p.contains('\n'),
{
    if p.contains('\n') {
        let i = choose|i: int| 0 <= i < p.len() && p[i] == '\n';
        assert(s[i] == '\n');
    }
}

// ---------------------------------------------------------------------------
// Trusted wrappers
// ---------------------------------------------------------------------------

/// `String::push`: appends one character to a string.
#[verifier::external_body]
pub(crate) fn push_char(s: &mut String, c: char)
    ensures
        final(s)@ == old(s)@.push(c),
{
    s.push(c);
}

/// `UnicodeSegmentation::graphemes(text, true)`, each cluster copied into a
/// `String`. The clusters are named by `grapheme_clusters`; the crate yields
/// them as consecutive non-empty slices of `text` from its start to its end,
/// so they are non-empty and concatenate back to `text`.
#[verifier::external_body]
fn graphemes(text: &str) -> (clusters: Vec<String>)
    ensures
        strings_view(clusters@) == grapheme_clusters(text@),
        concat_all(strings_view(clusters@)) == text@,
        forall|i: int| 0 <= i < clusters@.len() ==> #[trigger] clusters@[i]@.len() > 0,
{
    text.graphemes(true).map(|g| g.to_string()).collect()
}

// ---------------------------------------------------------------------------
// Executable helpers
// ---------------------------------------------------------------------------

/// Whether `c` is white space, as `char::is_whitespace` decides.
pub fn is_whitespace_char(c: char) -> (b: bool)
    ensures
        b == is_white_space(c),
{
    let u = c as u32;
    (0x9 <= u && u <= 0xd) || u == 0x20 || u == 0x85 || u == 0xa0 || u == 0x1680 || (0x2000 <= u
        && u <= 0x200a) || u == 0x2028 || u == 0x2029 || u == 0x202f || u == 0x205f || u == 0x3000
}

/// The characters of `s`, in order.
pub fn chars_of(s: &str) -> (v: Vec<char>)
    ensures
        v@ == s@,
{
    let mut v: Vec<char> = Vec::new();
    for c in it: s.chars()
        invariant
            it.seq() == s@,
            v@ == s@.take(it.index() as int),
    {
        v.push(c);
    }
    v
}

/// Whether two texts are equal.
pub fn str_equal(a: &str, b: &str) -> (eq: bool)
    ensures
        eq == (a@ == b@),
{
    let va = chars_of(a);
    let vb = chars_of(b);
    if va.len() != vb.len() {
        return false;
    }
    let mut i: usize = 0;
    while i < va.len()
        invariant
            va@ == a@,
            vb@ == b@,
            va.len() == vb.len(),
            i <= va.len(),
            forall|j: int| 0 <= j < i ==> va@[j] == vb@[j],
        decreases va.len() - i,
    {
        if va[i] != vb[i] {
            return false;
        }
        i = i + 1;
    }
    assert(va@ =~= vb@);
    true
}

/// A string holding the characters `v[from..to]`.
pub fn string_from_chars(v: &Vec<char>, from: usize, to: usize) -> (s: String)
    requires
        from <= to <= v.len(),
    ensures
        s@ == v@.subrange(from as int, to as int),
{
    let mut s = String::new();
    let mut i = from;
    while i < to
        invariant
            from <= i <= to <= v.len(),
            s@ == v@.subrange(from as int, i as int),
        decreases to - i,
    {
        push_char(&mut s, v[i]);
        assert(v@.subrange(from as int, i + 1) =~= v@.subrange(from as int, i as int).push(v@[i as int]));
        i = i + 1;
    }
    s
}

/// Whether `s` holds nothing but white space, i.e. `s.trim().is_empty()`.
pub fn is_blank(s: &str) -> (blank: bool)
    ensures
        blank == is_blank_text(s@),
{
    let v = chars_of(s);
    let mut i: usize = 0;
    while i < v.len()
        invariant
            v@ == s@,
            i <= v.len(),
            forall|j: int| 0 <= j < i ==> is_white_space(#[trigger] v@[j]),
        decreases v.len() - i,
    {
        if !is_whitespace_char(v[i]) {
            return false;
        }
        i = i + 1;
    }
    true
}

/// Appends the decimal notation of `n` to `s`.
fn push_decimal(s: &mut String, n: usize)
    ensures
        final(s)@ == old(s)@ + decimal(n as nat),
    decreases n,
{
    if n >= 10 {
        push_decimal(s, n / 10);
    }
    let d: u8 = (n % 10) as u8;
    push_char(s, (d + 48u8) as char);
    proof {
        if n >= 10 {
            assert(old(s)@ + decimal(n as nat) =~= old(s)@ + decimal((n / 10) as nat) + seq![
                digit_char((n % 10) as nat),
            ]);
        } else {
            assert(old(s)@ + decimal(n as nat) =~= old(s)@.push(digit_char(n as nat)));
        }
    }
}

/// The decimal notation of `n`, as `n.to_string()` writes it.
pub fn decimal_string(n: usize) -> (s: String)
    ensures
        s@ == decimal(n as nat),
{
    let mut s = String::new();
    push_decimal(&mut s, n);
    assert(s@ =~= decimal(n as nat));
    s
}

/// The text up to its first line feed followed by `" ..."`, or the whole
/// text when it is a single line (the `split_once('\n')` step of a snippet).
pub fn first_line_marked_string(s: &str) -> (r: String)
    ensures
        r@ == first_line_marked(s@),
{
    let v = chars_of(s);
    let mut i: usize = 0;
    while i < v.len()
        invariant
            v@ == s@,
            i <= v.len(),
            forall|j: int| 0 <= j < i ==> v@[j] != '\n',
        decreases v.len() - i,
    {
        if v[i] == '\n' {
            let first = string_from_chars(&v, 0, i);
            let r = first.concat(" ...");
            proof {
                assert(is_first_newline(s@, i as int));
                assert(s@.contains('\n'));
                let k = choose|k: int| is_first_newline(s@, k);
                lemma_first_newline_unique(s@, k, i as int);
                assert(v@.subrange(0, i as int) =~= s@.take(i as int));
            }
            return r;
        }
        i = i + 1;
    }
    let r = s.to_string();
    assert(!s@.contains('\n'));
    r
}

/// `text` cut to at most `max_graphemes` clusters, given its clusters.
pub fn truncate_by_clusters(text: &str, clusters: &Vec<String>, max_graphemes: usize) -> (r: String)
    ensures
        r@ == truncated_by_clusters(text@, strings_view(clusters@), max_graphemes as nat),
{
    let ghost cl = strings_view(clusters@);
    if clusters.len() > max_graphemes {
        let keep: usize = if max_graphemes >= 3 {
            max_graphemes - 3
        } else {
            max_graphemes
        };
        let mut r = String::new();
        let mut i: usize = 0;
        while i < keep
            invariant
                keep <= max_graphemes < clusters.len(),
                i <= keep,
                cl == strings_view(clusters@),
                r@ == concat_all(cl.take(i as int)),
            decreases keep - i,
        {
            r.append(clusters[i].as_str());
            assert(cl.take(i + 1).drop_last() =~= cl.take(i as int));
            i = i + 1;
        }
        if max_graphemes >= 3 {
            r.append("...");
        }
        r
    } else {
        text.to_string()
    }
}

/// `text` cut to at most `max_graphemes` grapheme clusters: unchanged when it
/// has no more than that; otherwise its first `max_graphemes - 3` clusters
/// followed by `"..."` (its first `max_graphemes` clusters when that is below 3).
/// A text of at most `max_graphemes` characters is left as it is, and a
/// single line stays a single line.
pub fn truncate_text(text: &str, max_graphemes: usize) -> (r: String)
    ensures
        r@ == truncated_text(text@, max_graphemes as nat),
        text@.len() <= max_graphemes ==> r@ == text@,
        !text@.contains('\n') ==> !r@.contains('\n'),
{
    let clusters = graphemes(text);
    let r = truncate_by_clusters(text, &clusters, max_graphemes);
    proof {
        let cl = strings_view(clusters@);
        lemma_concat_all_len(cl);
        if cl.len() > max_graphemes && !text@.contains('\n') {
            let k: int = if max_graphemes >= 3 {
                max_graphemes - 3
            } else {
                max_graphemes as int
            };
            lemma_concat_all_take(cl, k);
            lemma_prefix_keeps_no_newline(text@, concat_all(cl.take(k)), concat_all(cl.skip(k)));
            reveal_strlit("...");
            let p = concat_all(cl.take(k));
            if max_graphemes >= 3 {
                assert forall|i: int| 0 <= i < r@.len() implies r@[i] != '\n' by {
                    if i < p.len() {
                        assert(r@[i] == p[i]);
                    } else {
                        assert(r@[i] == "..."@[i - p.len()]);
                    }
                }
            }
        }
    }
    r
}

} // verus!
