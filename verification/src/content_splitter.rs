//! Splitting post content to fit each platform's character limit, with
//! thread numbering on platforms that support multi-part posts.
use vstd::prelude::*;

use crate::text::{
    byte_len, char_is_ws, char_utf8_width, decimal, leading_ws, lemma_byte_len_take_le,
    lemma_byte_len_take_step, lemma_leading_ws_bounds, lemma_leading_ws_step, lemma_leading_ws_stop,
    trim_start, utf8_width, all_ws, lemma_byte_len_concat, lemma_decimal_ascii, lemma_decimal_len_le_3, byte_len_of, chars_of, is_lit, push_all, push_decimal, string_from_chars,
};

verus! {

/// Character limit (in bytes of UTF-8) that a platform accepts per post.
pub open spec fn platform_limit_spec(p: Seq<char>) -> nat {
    if p == "x"@ {
        4000
    } else if p == "linkedin"@ || p == "linkedin_page"@ {
        3000
    } else if p == "bluesky"@ {
        300
    } else if p == "threads"@ {
        500
    } else if p == "mastodon"@ {
        500
    } else if p == "instagram"@ || p == "instagram_standalone"@ {
        2200
    } else if p == "reddit"@ {
        10000
    } else if p == "facebook"@ {
        63206
    } else if p == "youtube"@ {
        5000
    } else if p == "tiktok"@ {
        2200
    } else if p == "pinterest"@ {
        500
    } else if p == "discord"@ {
        2000
    } else if p == "slack"@ {
        40000
    } else if p == "telegram_bot"@ || p == "telegram_user"@ {
        4096
    } else if p == "whatsapp"@ {
        65536
    } else if p == "vk"@ {
        21000
    } else if p == "github"@ {
        65536
    } else if p == "medium"@ || p == "devto"@ || p == "hashnode"@ || p == "wordpress"@ {
        100000
    } else if p == "farcaster"@ {
        1024
    } else if p == "lemmy"@ {
        10000
    } else if p == "skool"@ {
        100000
    } else if p == "kick"@ || p == "whop"@ {
        10000
    } else {
        10000
    }
}

/// Platforms on which a long post becomes a numbered thread.
pub open spec fn supports_threads_spec(p: Seq<char>) -> bool {
    p == "x"@ || p == "bluesky"@ || p == "mastodon"@ || p == "threads"@
}

/// Bytes reserved for the `(N/M)\n` prefix on thread platforms.
pub open spec fn thread_overhead(p: Seq<char>) -> nat {
    if supports_threads_spec(p) {
        10
    } else {
        0
    }
}

/// The byte budget for each chunk before numbering.
pub open spec fn effective_limit(p: Seq<char>) -> nat {
    (platform_limit_spec(p) - thread_overhead(p)) as nat
}

/// `k` characters of `s` make exactly `n` bytes.
pub open spec fn is_cut(s: Seq<char>, n: nat, k: int) -> bool {
    0 <= k <= s.len() && byte_len(s.take(k)) == n
}

/// Byte offset `n` falls on a character boundary of `s`.
pub open spec fn has_cut(s: Seq<char>, n: nat) -> bool {
    exists|k: int| is_cut(s, n, k)
}

/// The number of characters that make up the first `n` bytes of `s`.
pub open spec fn cut(s: Seq<char>, n: nat) -> int {
    choose|k: int| is_cut(s, n, k)
}

/// Start of the last occurrence of the two-character pattern `a b` in `z`.
pub open spec fn rfind_pair(z: Seq<char>, a: char, b: char) -> Option<int>
    decreases z.len(),
{
    if z.len() < 2 {
        None
    } else if z[z.len() - 2] == a && z[z.len() - 1] == b {
        Some(z.len() - 2)
    } else {
        rfind_pair(z.drop_last(), a, b)
    }
}

/// Position of the last occurrence of `a` in `z`.
pub open spec fn rfind_char(z: Seq<char>, a: char) -> Option<int>
    decreases z.len(),
{
    if z.len() == 0 {
        None
    } else if z.last() == a {
        Some(z.len() - 1)
    } else {
        rfind_char(z.drop_last(), a)
    }
}

/// Where to end a chunk inside the search zone `z`: after the last paragraph
/// break, else after the last sentence end (`. `, then `! `, then `? `), else
/// after the last `, `, else after the last space, else at the end of `z`.
pub open spec fn break_point(z: Seq<char>) -> int {
    if let Some(p) = rfind_pair(z, '\n', '\n') {
        p + 2
    } else if let Some(p) = rfind_pair(z, '.', ' ') {
        p + 2
    } else if let Some(p) = rfind_pair(z, '!', ' ') {
        p + 2
    } else if let Some(p) = rfind_pair(z, '?', ' ') {
        p + 2
    } else if let Some(p) = rfind_pair(z, ',', ' ') {
        p + 2
    } else if let Some(p) = rfind_char(z, ' ') {
        p + 1
    } else {
        z.len() as int
    }
}

/// The number of leading characters of `s` that fit in `max` bytes: the
/// search zone of a cut ends on the last character boundary within the
/// limit.
pub open spec fn fit_count(s: Seq<char>, max: nat) -> nat
    decreases s.len(),
{
    if s.len() == 0 || utf8_width(s[0]) > max {
        0
    } else {
        1 + fit_count(s.drop_first(), (max - utf8_width(s[0])) as nat)
    }
}

/// The characters that fit take at most `max` bytes; with room for any one
/// character, at least one fits.
pub proof fn lemma_fit_count(s: Seq<char>, max: nat)
    ensures
        fit_count(s, max) <= s.len(),
        byte_len(s.take(fit_count(s, max) as int)) <= max,
        s.len() > 0 && utf8_width(s[0]) <= max ==> fit_count(s, max) >= 1,
    decreases s.len(),
{
    if s.len() == 0 || utf8_width(s[0]) > max {
        assert(s.take(0) =~= Seq::<char>::empty());
    } else {
        let w = utf8_width(s[0]);
        lemma_fit_count(s.drop_first(), (max - w) as nat);
        let k = fit_count(s, max) as int;
        assert(s.take(k).drop_first() =~= s.drop_first().take(k - 1));
        assert(s.take(k)[0] == s[0]);
    }
}

/// Every character of `s` takes at most `max` bytes, so a cut always makes
/// progress.
pub open spec fn every_char_fits(s: Seq<char>, max: nat) -> bool {
    forall|i: int| 0 <= i < s.len() ==> utf8_width(#[trigger] s[i]) <= max
}

/// A limit of four bytes has room for any character.
pub proof fn lemma_wide_limit_fits(s: Seq<char>, max: nat)
    requires
        max >= 4,
    ensures
        every_char_fits(s, max),
{
}

proof fn lemma_every_char_fits_skip(s: Seq<char>, max: nat, j: int)
    requires
        every_char_fits(s, max),
        0 <= j <= s.len(),
    ensures
        every_char_fits(s.skip(j), max),
{
    assert forall|i: int| 0 <= i < s.skip(j).len() implies utf8_width(#[trigger] s.skip(j)[i]) <= max by {
        assert(s.skip(j)[i] == s[i + j]);
    }
}

/// The chunks that the splitting loop cuts from `s`, each at most `max` bytes.
pub open spec fn chunks(s: Seq<char>, max: nat) -> Seq<Seq<char>>
    decreases s.len(),
{
    if s.len() == 0 {
        seq![]
    } else if byte_len(s) <= max {
        seq![s]
    } else {
        let b = break_point(s.take(fit_count(s, max) as int));
        if 1 <= b <= s.len() {
            proof {
                lemma_leading_ws_bounds(s.skip(b));
            }
            seq![s.take(b)] + chunks(trim_start(s.skip(b)), max)
        } else {
            seq![]
        }
    }
}

/// Result of the smart split: the whole text when it fits, else its chunks.
pub open spec fn smart_split_spec(s: Seq<char>, max: nat) -> Seq<Seq<char>> {
    if byte_len(s) <= max {
        seq![s]
    } else {
        chunks(s, max)
    }
}

/// The `(N/M)\n` prefix followed by the chunk.
pub open spec fn numbered(i: nat, total: nat, chunk: Seq<char>) -> Seq<char> {
    seq!['('] + decimal(i + 1) + seq!['/'] + decimal(total) + seq![')', '\n'] + chunk
}

/// The contents of the segments that `split_content` produces.
pub open spec fn split_plan(content: Seq<char>, p: Seq<char>) -> Seq<Seq<char>> {
    if byte_len(content) <= platform_limit_spec(p) {
        seq![content]
    } else {
        let ch = smart_split_spec(content, effective_limit(p));
        if supports_threads_spec(p) && ch.len() > 1 {
            Seq::new(ch.len(), |i: int| numbered(i as nat, ch.len(), ch[i]))
        } else {
            ch
        }
    }
}

/// A split segment of content.
pub struct SplitSegment {
    pub content: String,
    pub sequence: usize,
    pub total: usize,
}

} // verus!

verus! {

/// Longer prefixes have strictly more bytes.
pub proof fn lemma_prefix_bytes_strict(s: Seq<char>, i: int, j: int)
    requires
        0 <= i < j <= s.len(),
    ensures
        byte_len(s.take(i)) < byte_len(s.take(j)),
    decreases j - i,
{
    lemma_byte_len_take_step(s, j - 1);
    if i < j - 1 {
        lemma_prefix_bytes_strict(s, i, j - 1);
    }
}

/// A byte offset on a character boundary names exactly one character count.
pub proof fn lemma_cut_unique(s: Seq<char>, n: nat, k: int)
    requires
        is_cut(s, n, k),
    ensures
        cut(s, n) == k,
{
    let c = cut(s, n);
    assert(is_cut(s, n, c));
    if c < k {
        lemma_prefix_bytes_strict(s, c, k);
    } else if k < c {
        lemma_prefix_bytes_strict(s, k, c);
    }
}

pub proof fn lemma_rfind_pair_bounds(z: Seq<char>, a: char, b: char)
    ensures
        rfind_pair(z, a, b) matches Some(p) ==> 0 <= p && p + 2 <= z.len() && z[p] == a && z[p
            + 1] == b,
    decreases z.len(),
{
    if z.len() >= 2 && !(z[z.len() - 2] == a && z[z.len() - 1] == b) {
        lemma_rfind_pair_bounds(z.drop_last(), a, b);
    }
}

pub proof fn lemma_rfind_char_bounds(z: Seq<char>, a: char)
    ensures
        rfind_char(z, a) matches Some(p) ==> 0 <= p < z.len() && z[p] == a,
    decreases z.len(),
{
    if z.len() > 0 && z.last() != a {
        lemma_rfind_char_bounds(z.drop_last(), a);
    }
}

/// The two characters `a b` stand at position `i` of `z`.
pub open spec fn pair_at(z: Seq<char>, i: int, a: char, b: char) -> bool {
    0 <= i && i + 1 < z.len() && z[i] == a && z[i + 1] == b
}

/// `a b` stands at `i`, and nowhere later in `z`.
pub open spec fn last_pair_at(z: Seq<char>, i: int, a: char, b: char) -> bool {
    pair_at(z, i, a, b) && forall|j: int| i < j ==> !#[trigger] pair_at(z, j, a, b)
}

/// `z` holds the pair `a b` somewhere.
pub open spec fn has_pair(z: Seq<char>, a: char, b: char) -> bool {
    exists|i: int| #[trigger] pair_at(z, i, a, b)
}

proof fn lemma_rfind_pair_last(z: Seq<char>, a: char, b: char)
    ensures
        rfind_pair(z, a, b) is None <==> !has_pair(z, a, b),
        rfind_pair(z, a, b) matches Some(p) ==> last_pair_at(z, p, a, b),
    decreases z.len(),
{
    if z.len() < 2 {
        assert forall|i: int| !#[trigger] pair_at(z, i, a, b) by {}
    } else if z[z.len() - 2] == a && z[z.len() - 1] == b {
        assert(pair_at(z, z.len() - 2, a, b));
    } else {
        let y = z.drop_last();
        lemma_rfind_pair_last(y, a, b);
        assert forall|i: int| #[trigger] pair_at(z, i, a, b) <==> pair_at(y, i, a, b) by {
            if 0 <= i && i + 1 < y.len() {
                assert(y[i] == z[i] && y[i + 1] == z[i + 1]);
            }
        }
        if has_pair(z, a, b) {
            let i = choose|i: int| pair_at(z, i, a, b);
            assert(pair_at(y, i, a, b));
        }
        if has_pair(y, a, b) {
            let i = choose|i: int| pair_at(y, i, a, b);
            assert(pair_at(z, i, a, b));
        }
    }
}

proof fn lemma_rfind_char_last(z: Seq<char>, a: char)
    ensures
        rfind_char(z, a) is None <==> (forall|i: int| 0 <= i < z.len() ==> z[i] != a),
        rfind_char(z, a) matches Some(p) ==> 0 <= p < z.len() && z[p] == a && forall|j: int|
            p < j < z.len() ==> z[j] != a,
    decreases z.len(),
{
    if z.len() > 0 && z.last() != a {
        let y = z.drop_last();
        lemma_rfind_char_last(y, a);
        assert forall|i: int| 0 <= i < y.len() implies y[i] == z[i] by {}
    }
}

/// Law: the cut falls after the best boundary of the search zone `z`,
/// by priority: the last paragraph break; else the last sentence end
/// (`. `, then `! `, then `? `); else the last `, `; else the last space;
/// else the end of the zone.
pub proof fn lemma_break_point_priority(z: Seq<char>)
    ensures
        has_pair(z, '\n', '\n') ==> last_pair_at(z, break_point(z) - 2, '\n', '\n'),
        !has_pair(z, '\n', '\n') && has_pair(z, '.', ' ') ==> last_pair_at(z, break_point(z) - 2, '.', ' '),
        !has_pair(z, '\n', '\n') && !has_pair(z, '.', ' ') && has_pair(z, '!', ' ')
            ==> last_pair_at(z, break_point(z) - 2, '!', ' '),
        !has_pair(z, '\n', '\n') && !has_pair(z, '.', ' ') && !has_pair(z, '!', ' ') && has_pair(z, '?', ' ')
            ==> last_pair_at(z, break_point(z) - 2, '?', ' '),
        !has_pair(z, '\n', '\n') && !has_pair(z, '.', ' ') && !has_pair(z, '!', ' ') && !has_pair(z, '?', ' ')
            && has_pair(z, ',', ' ') ==> last_pair_at(z, break_point(z) - 2, ',', ' '),
        !has_pair(z, '\n', '\n') && !has_pair(z, '.', ' ') && !has_pair(z, '!', ' ') && !has_pair(z, '?', ' ')
            && !has_pair(z, ',', ' ') && (exists|i: int| 0 <= i < z.len() && z[i] == ' ') ==> {
            let b = break_point(z);
            &&& 1 <= b <= z.len()
            &&& z[b - 1] == ' '
            &&& forall|j: int| b - 1 < j < z.len() ==> z[j] != ' '
        },
        !has_pair(z, '\n', '\n') && !has_pair(z, '.', ' ') && !has_pair(z, '!', ' ') && !has_pair(z, '?', ' ')
            && !has_pair(z, ',', ' ') && (forall|i: int| 0 <= i < z.len() ==> z[i] != ' ')
            ==> break_point(z) == z.len(),
{
    lemma_rfind_pair_last(z, '\n', '\n');
    lemma_rfind_pair_last(z, '.', ' ');
    lemma_rfind_pair_last(z, '!', ' ');
    lemma_rfind_pair_last(z, '?', ' ');
    lemma_rfind_pair_last(z, ',', ' ');
    lemma_rfind_char_last(z, ' ');
    if (exists|i: int| 0 <= i < z.len() && z[i] == ' ') {
        let i = choose|i: int| 0 <= i < z.len() && z[i] == ' ';
        assert(z[i] == ' ');
    }
}

/// A chunk always takes at least one character and stays inside the zone.
pub proof fn lemma_break_point_bounds(z: Seq<char>)
    requires
        z.len() >= 1,
    ensures
        1 <= break_point(z) <= z.len(),
{
    lemma_rfind_pair_bounds(z, '\n', '\n');
    lemma_rfind_pair_bounds(z, '.', ' ');
    lemma_rfind_pair_bounds(z, '!', ' ');
    lemma_rfind_pair_bounds(z, '?', ' ');
    lemma_rfind_pair_bounds(z, ',', ' ');
    lemma_rfind_char_bounds(z, ' ');
}

/// Last occurrence of `a b` in `v[lo..hi]`, relative to `lo`.
fn rfind_pair_in(v: &Vec<char>, lo: usize, hi: usize, a: char, b: char) -> (r: Option<usize>)
    requires
        lo <= hi <= v@.len(),
    ensures
        match r {
            Some(p) => rfind_pair(v@.subrange(lo as int, hi as int), a, b) == Some(p as int),
            None => rfind_pair(v@.subrange(lo as int, hi as int), a, b) is None,
        },
{
    let mut i = hi;
    while i - lo >= 2
        invariant
            lo <= i <= hi <= v@.len(),
            rfind_pair(v@.subrange(lo as int, hi as int), a, b) == rfind_pair(
                v@.subrange(lo as int, i as int),
                a,
                b,
            ),
        decreases i,
    {
        let ghost z = v@.subrange(lo as int, i as int);
        if v[i - 2] == a && v[i - 1] == b {
            assert(z[z.len() - 2] == v@[i - 2]);
            assert(z[z.len() - 1] == v@[i - 1]);
            return Some(i - 2 - lo);
        }
        assert(z[z.len() - 2] == v@[i - 2]);
        assert(z[z.len() - 1] == v@[i - 1]);
        assert(z.drop_last() =~= v@.subrange(lo as int, i - 1));
        i = i - 1;
    }
    None
}

/// Last occurrence of `a` in `v[lo..hi]`, relative to `lo`.
fn rfind_char_in(v: &Vec<char>, lo: usize, hi: usize, a: char) -> (r: Option<usize>)
    requires
        lo <= hi <= v@.len(),
    ensures
        match r {
            Some(p) => rfind_char(v@.subrange(lo as int, hi as int), a) == Some(p as int),
            None => rfind_char(v@.subrange(lo as int, hi as int), a) is None,
        },
{
    let mut i = hi;
    while i > lo
        invariant
            lo <= i <= hi <= v@.len(),
            rfind_char(v@.subrange(lo as int, hi as int), a) == rfind_char(
                v@.subrange(lo as int, i as int),
                a,
            ),
        decreases i,
    {
        let ghost z = v@.subrange(lo as int, i as int);
        assert(z.last() == v@[i - 1]);
        if v[i - 1] == a {
            return Some(i - 1 - lo);
        }
        assert(z.drop_last() =~= v@.subrange(lo as int, i - 1));
        i = i - 1;
    }
    None
}

/// Executable [`break_point`] on the zone `v[lo..hi]`.
fn find_break_point(v: &Vec<char>, lo: usize, hi: usize) -> (r: usize)
    requires
        lo <= hi <= v@.len(),
    ensures
        r == break_point(v@.subrange(lo as int, hi as int)),
{
    proof {
        let z = v@.subrange(lo as int, hi as int);
        lemma_rfind_pair_bounds(z, '\n', '\n');
        lemma_rfind_pair_bounds(z, '.', ' ');
        lemma_rfind_pair_bounds(z, '!', ' ');
        lemma_rfind_pair_bounds(z, '?', ' ');
        lemma_rfind_pair_bounds(z, ',', ' ');
        lemma_rfind_char_bounds(z, ' ');
    }
    if let Some(p) = rfind_pair_in(v, lo, hi, '\n', '\n') {
        return p + 2;
    }
    if let Some(p) = rfind_pair_in(v, lo, hi, '.', ' ') {
        return p + 2;
    }
    if let Some(p) = rfind_pair_in(v, lo, hi, '!', ' ') {
        return p + 2;
    }
    if let Some(p) = rfind_pair_in(v, lo, hi, '?', ' ') {
        return p + 2;
    }
    if let Some(p) = rfind_pair_in(v, lo, hi, ',', ' ') {
        return p + 2;
    }
    if let Some(p) = rfind_char_in(v, lo, hi, ' ') {
        return p + 1;
    }
    hi - lo
}

} // verus!

verus! {

proof fn lemma_byte_len_skip_step(s: Seq<char>, a: int)
    requires
        0 <= a < s.len(),
    ensures
        byte_len(s.skip(a)) == utf8_width(s[a]) + byte_len(s.skip(a + 1)),
{
    assert(s.skip(a).drop_first() =~= s.skip(a + 1));
}

/// The chunk loop on a suffix `v[start..]` that does not fit in `max` bytes:
/// the first chunk ends at `b`, and the rest starts after the whitespace.
proof fn lemma_chunks_step(s: Seq<char>, max: nat, k: int, b: int, next: int)
    requires
        s.len() > 0,
        byte_len(s) > max,
        k == fit_count(s, max),
        b == break_point(s.take(k)),
        1 <= b <= s.len(),
        next == b + leading_ws(s.skip(b)),
    ensures
        chunks(s, max) == seq![s.take(b)] + chunks(s.skip(next), max),
        next <= s.len(),
{
    lemma_leading_ws_bounds(s.skip(b));
    assert(trim_start(s.skip(b)) =~= s.skip(next));
}

/// Splits `v` into chunks of at most `max_len` bytes, preferring paragraph,
/// sentence, comma and word boundaries.
fn smart_split(v: &Vec<char>, total_bytes: usize, max_len: usize) -> (r: Vec<Vec<char>>)
    requires
        every_char_fits(v@, max_len as nat),
        total_bytes == byte_len(v@),
    ensures
        r@.len() == smart_split_spec(v@, max_len as nat).len(),
        forall|i: int|
            0 <= i < r@.len() ==> (#[trigger] r@[i])@ == smart_split_spec(v@, max_len as nat)[i],
{
    if total_bytes <= max_len {
        let mut one: Vec<Vec<char>> = Vec::new();
        one.push(v.clone());
        return one;
    }
    let ghost max = max_len as nat;
    let n = v.len();
    let mut result: Vec<Vec<char>> = Vec::new();
    let mut start: usize = 0;
    let mut rem_bytes: usize = total_bytes;
    let ghost target = chunks(v@, max);
    let ghost mut done: Seq<Seq<char>> = seq![];
    assert(v@.skip(0) =~= v@);
    while start < n
        invariant
            start <= n == v@.len(),
            max == max_len as nat,
            every_char_fits(v@, max),
            rem_bytes == byte_len(v@.skip(start as int)),
            done + chunks(v@.skip(start as int), max) == target,
            result@.len() == done.len(),
            forall|i: int| 0 <= i < result@.len() ==> (#[trigger] result@[i])@ == done[i],
        decreases n - start,
    {
        let ghost rem = v@.skip(start as int);
        let ghost old_done = done;
        if rem_bytes <= max_len {
            let mut piece: Vec<char> = Vec::new();
            let mut i = start;
            while i < n
                invariant
                    start <= i <= n == v@.len(),
                    piece@ == v@.subrange(start as int, i as int),
                decreases n - i,
            {
                piece.push(v[i]);
                i = i + 1;
                assert(piece@ =~= v@.subrange(start as int, i as int));
            }
            assert(piece@ =~= rem);
            result.push(piece);
            proof {
                done = done.push(rem);
                assert(chunks(rem, max) == seq![rem]);
                assert(v@.skip(n as int).len() == 0);
                assert(chunks(v@.skip(n as int), max) == Seq::<Seq<char>>::empty());
                assert(done + chunks(v@.skip(n as int), max) =~= old_done + chunks(rem, max));
                lemma_byte_len_skip_zero(v@, n as int);
            }
            start = n;
            rem_bytes = 0;
        } else {
            // The characters that fit in `max_len` bytes make the search zone.
            let mut j: usize = 0;
            let mut acc: usize = 0;
            proof {
                assert(rem.take(0) =~= Seq::<char>::empty());
                assert(rem.skip(0) =~= rem);
            }
            while start + j < n && char_utf8_width(v[start + j]) <= max_len - acc
                invariant
                    start + j <= n == v@.len(),
                    rem == v@.skip(start as int),
                    acc <= max_len,
                    max == max_len as nat,
                    acc == byte_len(rem.take(j as int)),
                    fit_count(rem, max) == j + fit_count(rem.skip(j as int), (max - acc) as nat),
                decreases n - start - j,
            {
                let w = char_utf8_width(v[start + j]);
                proof {
                    lemma_byte_len_take_step(rem, j as int);
                    assert(rem.skip(j as int)[0] == v@[start + j]);
                    assert(rem.skip(j as int).drop_first() =~= rem.skip(j + 1));
                }
                acc = acc + w;
                j = j + 1;
            }
            proof {
                if start + j < n {
                    assert(rem.skip(j as int)[0] == v@[start + j]);
                } else {
                    assert(rem.skip(j as int).len() == 0);
                }
                assert(rem.len() > 0) by {
                    if rem.len() == 0 {
                        assert(byte_len(rem) == 0);
                    }
                }
                assert(rem[0] == v@[start as int]);
                lemma_fit_count(rem, max);
                assert(rem.take(j as int) =~= v@.subrange(start as int, start + j));
                lemma_break_point_bounds(rem.take(j as int));
            }
            let b = find_break_point(v, start, start + j);
            let mut piece: Vec<char> = Vec::new();
            let mut i = start;
            while i < start + b
                invariant
                    start <= i <= start + b <= n == v@.len(),
                    piece@ == v@.subrange(start as int, i as int),
                    rem_bytes == byte_len(v@.skip(i as int)),
                decreases start + b - i,
            {
                proof {
                    lemma_byte_len_skip_step(v@, i as int);
                }
                let w = char_utf8_width(v[i]);
                rem_bytes = rem_bytes - w;
                piece.push(v[i]);
                i = i + 1;
                assert(piece@ =~= v@.subrange(start as int, i as int));
            }
            assert(piece@ =~= rem.take(b as int));
            result.push(piece);
            let mid = start + b;
            let mut k = mid;
            while k < n && char_is_ws(v[k])
                invariant
                    mid <= k <= n == v@.len(),
                    k + leading_ws(v@.skip(k as int)) == mid + leading_ws(v@.skip(mid as int)),
                    rem_bytes == byte_len(v@.skip(k as int)),
                decreases n - k,
            {
                proof {
                    lemma_leading_ws_step(v@, k as int);
                    lemma_byte_len_skip_step(v@, k as int);
                }
                let w = char_utf8_width(v[k]);
                rem_bytes = rem_bytes - w;
                k = k + 1;
            }
            proof {
                lemma_leading_ws_stop(v@, k as int);
                assert(rem.skip(b as int) =~= v@.skip(mid as int));
                lemma_chunks_step(rem, max, j as int, b as int, (k - start) as int);
                assert(rem.skip(k - start) =~= v@.skip(k as int));
                done = done.push(rem.take(b as int));
                assert(done + chunks(v@.skip(k as int), max) =~= old_done + chunks(rem, max));
            }
            start = k;
        }
    }
    proof {
        assert(v@.skip(n as int).len() == 0);
        assert(chunks(v@.skip(n as int), max) == Seq::<Seq<char>>::empty());
        assert(done =~= target);
    }
    result
}

proof fn lemma_byte_len_skip_zero(s: Seq<char>, n: int)
    requires
        n == s.len(),
    ensures
        byte_len(s.skip(n)) == 0,
{
    assert(s.skip(n).len() == 0);
}

} // verus!

verus! {

/// Character limit per platform.
pub fn platform_limit(provider: &str) -> (r: usize)
    ensures
        r == platform_limit_spec(provider@),
{
    let p = chars_of(provider);
    if is_lit(&p, "x") {
        4000
    } else if is_lit(&p, "linkedin") || is_lit(&p, "linkedin_page") {
        3000
    } else if is_lit(&p, "bluesky") {
        300
    } else if is_lit(&p, "threads") {
        500
    } else if is_lit(&p, "mastodon") {
        500
    } else if is_lit(&p, "instagram") || is_lit(&p, "instagram_standalone") {
        2200
    } else if is_lit(&p, "reddit") {
        10000
    } else if is_lit(&p, "facebook") {
        63206
    } else if is_lit(&p, "youtube") {
        5000
    } else if is_lit(&p, "tiktok") {
        2200
    } else if is_lit(&p, "pinterest") {
        500
    } else if is_lit(&p, "discord") {
        2000
    } else if is_lit(&p, "slack") {
        40000
    } else if is_lit(&p, "telegram_bot") || is_lit(&p, "telegram_user") {
        4096
    } else if is_lit(&p, "whatsapp") {
        65536
    } else if is_lit(&p, "vk") {
        21000
    } else if is_lit(&p, "github") {
        65536
    } else if is_lit(&p, "medium") || is_lit(&p, "devto") || is_lit(&p, "hashnode") || is_lit(
        &p,
        "wordpress",
    ) {
        100000
    } else if is_lit(&p, "farcaster") {
        1024
    } else if is_lit(&p, "lemmy") {
        10000
    } else if is_lit(&p, "skool") {
        100000
    } else if is_lit(&p, "kick") || is_lit(&p, "whop") {
        10000
    } else {
        10000
    }
}

/// Whether this platform supports threads (multi-part posts).
pub fn supports_threads(provider: &str) -> (r: bool)
    ensures
        r == supports_threads_spec(provider@),
{
    let p = chars_of(provider);
    is_lit(&p, "x") || is_lit(&p, "bluesky") || is_lit(&p, "mastodon") || is_lit(&p, "threads")
}

proof fn lemma_limits_exceed_overhead(p: Seq<char>)
    ensures
        platform_limit_spec(p) >= 300,
        effective_limit(p) + thread_overhead(p) == platform_limit_spec(p),
        effective_limit(p) >= 4,
{
}

/// Split content for a platform, respecting its character limit. Content that
/// fits is returned as one segment; longer content is cut at the best
/// boundary, and on thread platforms each part of a multi-part split starts
/// with `(N/M)\n`.
pub fn split_content(content: &str, provider: &str, _max_media_per_post: usize) -> (r: Vec<
    SplitSegment,
>)
    ensures
        r@.len() == split_plan(content@, provider@).len(),
        forall|i: int|
            0 <= i < r@.len() ==> {
                &&& (#[trigger] r@[i]).content@ == split_plan(content@, provider@)[i]
                &&& r@[i].sequence == i + 1
                &&& r@[i].total == r@.len()
            },
{
    let total_bytes = crate::text::str_byte_len(content);
    let v = chars_of(content);
    let limit = platform_limit(provider);
    if total_bytes <= limit {
        let mut one: Vec<SplitSegment> = Vec::new();
        one.push(SplitSegment { content: content.to_owned(), sequence: 1, total: 1 });
        return one;
    }
    proof {
        lemma_limits_exceed_overhead(provider@);
    }
    let threads = supports_threads(provider);
    let effective = if threads {
        limit - 10
    } else {
        limit
    };
    proof {
        lemma_wide_limit_fits(v@, effective as nat);
    }
    let parts = smart_split(&v, total_bytes, effective);
    let total = parts.len();
    let ghost plan = split_plan(content@, provider@);
    let mut out: Vec<SplitSegment> = Vec::new();
    for i in 0..total
        invariant
            total == parts@.len(),
            plan == split_plan(content@, provider@),
            plan.len() == total,
            threads == supports_threads_spec(provider@),
            byte_len(content@) > platform_limit_spec(provider@),
            effective == effective_limit(provider@),
            forall|k: int|
                0 <= k < total ==> (#[trigger] parts@[k])@ == smart_split_spec(
                    content@,
                    effective as nat,
                )[k],
            out@.len() == i,
            forall|k: int|
                0 <= k < i ==> {
                    &&& (#[trigger] out@[k]).content@ == plan[k]
                    &&& out@[k].sequence == k + 1
                    &&& out@[k].total == total
                },
    {
        let mut text: Vec<char> = Vec::new();
        if threads && total > 1 {
            text.push('(');
            push_decimal(&mut text, i + 1);
            text.push('/');
            push_decimal(&mut text, total);
            text.push(')');
            text.push('\n');
        }
        push_all(&mut text, &parts[i]);
        proof {
            if threads && total > 1 {
                assert(text@ =~= numbered(i as nat, total as nat, parts@[i as int]@));
            } else {
                assert(text@ =~= parts@[i as int]@);
            }
        }
        let seg = SplitSegment { content: string_from_chars(&text), sequence: i + 1, total };
        out.push(seg);
    }
    out
}

/// Check if content needs splitting for a platform.
pub fn needs_splitting(content: &str, provider: &str) -> (r: bool)
    ensures
        r == (byte_len(content@) > platform_limit_spec(provider@)),
{
    crate::text::str_byte_len(content) > platform_limit(provider)
}

/// For each platform: its name, how many segments the content becomes, and
/// the platform's limit.
pub fn preview_split(content: &str, providers: &[&str]) -> (r: Vec<(String, usize, usize)>)
    ensures
        r@.len() == providers@.len(),
        forall|i: int|
            0 <= i < r@.len() ==> {
                &&& (#[trigger] r@[i]).0@ == providers@[i]@
                &&& r@[i].1 == split_plan(content@, providers@[i]@).len()
                &&& r@[i].2 == platform_limit_spec(providers@[i]@)
            },
{
    let mut out: Vec<(String, usize, usize)> = Vec::new();
    let n = providers.len();
    for i in 0..n
        invariant
            n == providers@.len(),
            out@.len() == i,
            forall|k: int|
                0 <= k < i ==> {
                    &&& (#[trigger] out@[k]).0@ == providers@[k]@
                    &&& out@[k].1 == split_plan(content@, providers@[k]@).len()
                    &&& out@[k].2 == platform_limit_spec(providers@[k]@)
                },
    {
        let p = providers[i];
        let segments = split_content(content, p, 4);
        out.push((p.to_owned(), segments.len(), platform_limit(p)));
    }
    out
}

} // verus!

verus! {

proof fn lemma_prefix_bytes_mono(s: Seq<char>, i: int, j: int)
    requires
        0 <= i <= j <= s.len(),
    ensures
        byte_len(s.take(i)) <= byte_len(s.take(j)),
{
    if i < j {
        lemma_prefix_bytes_strict(s, i, j);
    }
}

/// Law: every chunk is non-empty and holds at most `max` bytes.
pub proof fn lemma_chunks_fit(s: Seq<char>, max: nat)
    requires
        every_char_fits(s, max),
    ensures
        forall|i: int|
            0 <= i < chunks(s, max).len() ==> (#[trigger] chunks(s, max)[i]).len() >= 1
                && byte_len(chunks(s, max)[i]) <= max,
    decreases s.len(),
{
    if s.len() == 0 || byte_len(s) <= max {
    } else {
        let k = fit_count(s, max) as int;
        lemma_fit_count(s, max);
        assert(s.take(k).len() == k);
        lemma_break_point_bounds(s.take(k));
        let b = break_point(s.take(k));
        lemma_leading_ws_bounds(s.skip(b));
        let rest = trim_start(s.skip(b));
        lemma_every_char_fits_skip(s, max, b);
        lemma_every_char_fits_skip(s.skip(b), max, leading_ws(s.skip(b)) as int);
        lemma_chunks_fit(rest, max);
        lemma_prefix_bytes_mono(s, b, k);
        assert(s.take(k).len() == k);
        let c = chunks(s, max);
        assert(c == seq![s.take(b)] + chunks(rest, max));
        assert forall|i: int| 0 <= i < c.len() implies (#[trigger] c[i]).len() >= 1 && byte_len(
            c[i],
        ) <= max by {
            if i > 0 {
                assert(c[i] == chunks(rest, max)[i - 1]);
            }
        }
    }
}

/// `parts` are consecutive pieces of `s`: each is the next prefix of what
/// remains, and only whitespace is dropped between and after them.
pub open spec fn covers(parts: Seq<Seq<char>>, s: Seq<char>) -> bool
    decreases parts.len(),
{
    if parts.len() == 0 {
        all_ws(s)
    } else {
        &&& parts[0].len() <= s.len()
        &&& s.take(parts[0].len() as int) == parts[0]
        &&& covers(parts.drop_first(), trim_start(s.skip(parts[0].len() as int)))
    }
}

/// Law: splitting loses nothing but whitespace at the cuts, and keeps order.
pub proof fn lemma_chunks_cover(s: Seq<char>, max: nat)
    requires
        every_char_fits(s, max),
    ensures
        covers(chunks(s, max), s),
    decreases s.len(),
{
    let c = chunks(s, max);
    if s.len() == 0 {
    } else if byte_len(s) <= max {
        assert(c.drop_first() =~= Seq::<Seq<char>>::empty());
        assert(s.take(s.len() as int) =~= s);
        assert(s.skip(s.len() as int).len() == 0);
        lemma_leading_ws_bounds(s.skip(s.len() as int));
        assert(trim_start(s.skip(s.len() as int)).len() == 0);
        assert(covers(c.drop_first(), trim_start(s.skip(s.len() as int))));
    } else {
        let k = fit_count(s, max) as int;
        lemma_fit_count(s, max);
        assert(s.take(k).len() == k);
        lemma_break_point_bounds(s.take(k));
        let b = break_point(s.take(k));
        lemma_leading_ws_bounds(s.skip(b));
        let rest = trim_start(s.skip(b));
        lemma_every_char_fits_skip(s, max, b);
        lemma_every_char_fits_skip(s.skip(b), max, leading_ws(s.skip(b)) as int);
        lemma_chunks_cover(rest, max);
        assert(c.drop_first() =~= chunks(rest, max));
        assert(c[0] == s.take(b));
        assert(c[0].len() == b);
        assert(covers(c.drop_first(), trim_start(s.skip(c[0].len() as int))));
    }
}

pub proof fn lemma_ascii_byte_len(s: Seq<char>)
    requires
        forall|i: int| 0 <= i < s.len() ==> (#[trigger] s[i]) as u32 <= 0x7F,
    ensures
        byte_len(s) == s.len(),
    decreases s.len(),
{
    if s.len() > 0 {
        assert forall|i: int| 0 <= i < s.drop_first().len() implies (
        #[trigger] s.drop_first()[i]) as u32 <= 0x7F by {
            assert(s.drop_first()[i] == s[i + 1]);
        }
        lemma_ascii_byte_len(s.drop_first());
    }
}

proof fn lemma_decimal_bytes(n: nat)
    requires
        n < 1000,
    ensures
        byte_len(decimal(n)) == decimal(n).len(),
        decimal(n).len() <= 3,
{
    lemma_decimal_ascii(n);
    lemma_decimal_len_le_3(n);
    lemma_ascii_byte_len(decimal(n));
}

proof fn lemma_numbered_bytes(i: nat, total: nat, chunk: Seq<char>)
    requires
        i < total <= 999,
    ensures
        byte_len(numbered(i, total, chunk)) <= 10 + byte_len(chunk),
{
    lemma_decimal_bytes(i + 1);
    lemma_decimal_bytes(total);
    let a = seq!['('];
    let d1 = decimal(i + 1);
    let sl = seq!['/'];
    let d2 = decimal(total);
    let cl = seq![')', '\n'];
    lemma_ascii_byte_len(a);
    lemma_ascii_byte_len(sl);
    lemma_ascii_byte_len(cl);
    lemma_byte_len_concat(a, d1);
    lemma_byte_len_concat(a + d1, sl);
    lemma_byte_len_concat(a + d1 + sl, d2);
    lemma_byte_len_concat(a + d1 + sl + d2, cl);
    lemma_byte_len_concat(a + d1 + sl + d2 + cl, chunk);
}

/// Law: each segment of a split fits the platform's limit, as long as the
/// thread has fewer than a thousand parts (the reserved `(N/M)\n` room holds
/// numbers of up to three digits).
pub proof fn lemma_segments_fit_limit(content: Seq<char>, p: Seq<char>)
    requires
        split_plan(content, p).len() <= 999,
    ensures
        forall|i: int|
            0 <= i < split_plan(content, p).len() ==> byte_len(#[trigger] split_plan(content, p)[i])
                <= platform_limit_spec(p),
{
    lemma_limits_exceed_overhead(p);
    let plan = split_plan(content, p);
    if byte_len(content) > platform_limit_spec(p) {
        let e = effective_limit(p);
        lemma_wide_limit_fits(content, e);
        lemma_chunks_fit(content, e);
        let ch = smart_split_spec(content, e);
        assert forall|i: int| 0 <= i < plan.len() implies byte_len(#[trigger] plan[i])
            <= platform_limit_spec(p) by {
            if supports_threads_spec(p) && ch.len() > 1 {
                lemma_numbered_bytes(i as nat, ch.len(), ch[i]);
            }
        }
    }
}

/// Law: the segments of a split, with their numbering removed, are
/// consecutive pieces of the content; only whitespace between them is lost.
/// Content within the limit stays a single, unchanged segment.
pub proof fn lemma_split_covers_content(content: Seq<char>, p: Seq<char>)
    ensures
        byte_len(content) > platform_limit_spec(p) ==> {
            &&& covers(smart_split_spec(content, effective_limit(p)), content)
            &&& split_plan(content, p).len() == smart_split_spec(content, effective_limit(p)).len()
        },
        byte_len(content) <= platform_limit_spec(p) ==> split_plan(content, p) == seq![content],
{
    lemma_limits_exceed_overhead(p);
    if byte_len(content) > platform_limit_spec(p) {
        lemma_wide_limit_fits(content, effective_limit(p));
        lemma_chunks_cover(content, effective_limit(p));
    }
}

} // verus!

verus! {

/// The number of characters that make up the first `n` bytes of `v`.
pub fn char_index_at_byte(v: &Vec<char>, n: usize) -> (k: usize)
    requires
        has_cut(v@, n as nat),
    ensures
        k == cut(v@, n as nat),
        is_cut(v@, n as nat, k as int),
{
    let ghost k0 = cut(v@, n as nat);
    proof {
        assert(is_cut(v@, n as nat, k0));
        crate::text::lemma_byte_len_take_le(v@, k0);
    }
    let mut j: usize = 0;
    let mut acc: usize = 0;
    let vl = v.len();
    while acc < n
        invariant
            vl == v@.len(),
            j <= k0 <= v@.len(),
            is_cut(v@, n as nat, k0),
            acc == byte_len(v@.take(j as int)),
            acc <= n,
        decreases k0 - j,
    {
        proof {
            if j == k0 {
                assert(false);
            }
            lemma_byte_len_take_step(v@, j as int);
            if j + 1 < k0 {
                lemma_prefix_bytes_strict(v@, j + 1, k0);
            }
        }
        acc = acc + char_utf8_width(v[j]);
        j = j + 1;
    }
    proof {
        if j < k0 {
            lemma_prefix_bytes_strict(v@, j as int, k0);
        }
        lemma_cut_unique(v@, n as nat, j as int);
    }
    j
}

} // verus!

verus! {

/// Law: a split always has at least one segment.
pub proof fn lemma_split_nonempty(content: Seq<char>, p: Seq<char>)
    ensures
        split_plan(content, p).len() >= 1,
{
    lemma_limits_exceed_overhead(p);
    if byte_len(content) > platform_limit_spec(p) {
        let e = effective_limit(p);
        let s = content;
        assert(s.len() > 0) by {
            if s.len() == 0 {
                assert(byte_len(s) == 0);
            }
        }
        let k = fit_count(s, e) as int;
        lemma_fit_count(s, e);
        lemma_break_point_bounds(s.take(k));
        let b = break_point(s.take(k));
        lemma_leading_ws_bounds(s.skip(b));
        assert(chunks(s, e) == seq![s.take(b)] + chunks(trim_start(s.skip(b)), e));
    }
}

/// Law: content needs splitting exactly when its split is not the content
/// itself as a single segment.
pub proof fn lemma_needs_splitting_exact(content: Seq<char>, p: Seq<char>)
    ensures
        (byte_len(content) > platform_limit_spec(p)) == !(split_plan(content, p).len() == 1
            && split_plan(content, p)[0] == content),
{
    lemma_limits_exceed_overhead(p);
    if byte_len(content) > platform_limit_spec(p) {
        let e = effective_limit(p);
        lemma_split_nonempty(content, p);
        lemma_wide_limit_fits(content, e);
        lemma_chunks_fit(content, e);
        let ch = smart_split_spec(content, e);
        if ch.len() == 1 {
            assert(split_plan(content, p) == ch);
            assert(byte_len(ch[0]) <= e);
        }
    }
}

} // verus!
