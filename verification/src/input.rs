//! Turning a line typed by the player into a guess: trimming, lowercasing
//! and the check that what is left names a move.

use crate::moves::{is_move_name, Move};
use crate::text::{lemma_no_more_chars_than_bytes, same_text};
use vstd::prelude::*;
use vstd::string::StrSliceExecFns;

verus! {

/// Whether `c` has Unicode's `White_Space` property, as `char::is_whitespace`
/// reports it. The answer does not depend on a locale.
pub uninterp spec fn white_space(c: char) -> bool;

/// The lowercase equivalent of `s`, as `str::to_lowercase` computes it from
/// Unicode's case tables. The result does not depend on a locale.
pub uninterp spec fn lowercase_of(s: Seq<char>) -> Seq<char>;

/// Calls `char::is_whitespace`. Nothing is claimed of which characters count
/// as whitespace, only that the answer depends on the character alone.
#[verifier::external_body]
fn is_whitespace(c: char) -> (space: bool)
    ensures
        space == white_space(c),
{
    c.is_whitespace()
}

/// Calls `str::to_lowercase`. Nothing is claimed of the mapping, only that
/// the result depends on the characters of `s` alone.
#[verifier::external_body]
fn to_lowercase(s: &str) -> (lower: String)
    ensures
        lower@ == lowercase_of(s@),
{
    s.to_lowercase()
}

/// `s` without its leading whitespace.
pub open spec fn trim_start(s: Seq<char>) -> Seq<char>
    decreases s.len(),
{
    if s.len() > 0 && white_space(s.first()) {
        trim_start(s.drop_first())
    } else {
        s
    }
}

/// `s` without its trailing whitespace.
pub open spec fn trim_end(s: Seq<char>) -> Seq<char>
    decreases s.len(),
{
    if s.len() > 0 && white_space(s.last()) {
        trim_end(s.drop_last())
    } else {
        s
    }
}

/// `s` without its leading and trailing whitespace.
pub open spec fn trimmed(s: Seq<char>) -> Seq<char> {
    trim_end(trim_start(s))
}

/// What `normalize` makes of a raw line: trimmed, then lowercased.
pub open spec fn normalized(raw: Seq<char>) -> Seq<char> {
    lowercase_of(trimmed(raw))
}

/// If the first `i` characters of `s` are whitespace and the next one, if
/// there is one, is not, then `trim_start` drops exactly those `i`.
proof fn lemma_trim_start_is_suffix(s: Seq<char>, i: int)
    requires
        0 <= i <= s.len(),
        forall|k: int| 0 <= k < i ==> white_space(#[trigger] s[k]),
        i < s.len() ==> !white_space(s[i]),
    ensures
        trim_start(s) == s.subrange(i, s.len() as int),
    decreases i,
{
    if i == 0 {
        assert(s.subrange(0, s.len() as int) == s);
    } else {
        let rest = s.drop_first();
        assert(white_space(s[0]));
        assert forall|k: int| 0 <= k < i - 1 implies white_space(#[trigger] rest[k]) by {
            assert(rest[k] == s[k + 1]);
        }
        lemma_trim_start_is_suffix(rest, i - 1);
        assert(rest.subrange(i - 1, rest.len() as int) == s.subrange(i, s.len() as int));
    }
}

/// If the characters of `s` from `j` on are whitespace and the one before
/// `j`, if there is one, is not, then `trim_end` keeps exactly the first `j`.
proof fn lemma_trim_end_is_prefix(s: Seq<char>, j: int)
    requires
        0 <= j <= s.len(),
        forall|k: int| j <= k < s.len() ==> white_space(#[trigger] s[k]),
        0 < j ==> !white_space(s[j - 1]),
    ensures
        trim_end(s) == s.subrange(0, j),
    decreases s.len() - j,
{
    if j == s.len() {
        assert(s.subrange(0, j) == s);
    } else {
        let rest = s.drop_last();
        assert(white_space(s[s.len() - 1]));
        assert forall|k: int| j <= k < rest.len() implies white_space(#[trigger] rest[k]) by {
            assert(rest[k] == s[k]);
        }
        lemma_trim_end_is_prefix(rest, j);
        assert(rest.subrange(0, j) == s.subrange(0, j));
    }
}

/// Where the trimmed part of `s` lies: between the first and the last
/// character that is not whitespace.
pub proof fn lemma_trimmed_is_subrange(s: Seq<char>, i: int, j: int)
    requires
        0 <= i < j <= s.len(),
        forall|k: int| 0 <= k < i ==> white_space(#[trigger] s[k]),
        forall|k: int| j <= k < s.len() ==> white_space(#[trigger] s[k]),
        !white_space(s[i]),
        !white_space(s[j - 1]),
    ensures
        trimmed(s) == s.subrange(i, j),
{
    lemma_trim_start_is_suffix(s, i);
    let tail = s.subrange(i, s.len() as int);
    assert(tail[j - i - 1] == s[j - 1]);
    assert forall|k: int| j - i <= k < tail.len() implies white_space(#[trigger] tail[k]) by {
        assert(tail[k] == s[k + i]);
    }
    lemma_trim_end_is_prefix(tail, j - i);
    assert(tail.subrange(0, j - i) == s.subrange(i, j));
}

/// A string of whitespace alone trims to the empty string.
pub proof fn lemma_trimmed_of_blank(s: Seq<char>)
    requires
        forall|k: int| 0 <= k < s.len() ==> white_space(#[trigger] s[k]),
    ensures
        trimmed(s) == Seq::<char>::empty(),
{
    lemma_trim_start_is_suffix(s, s.len() as int);
    assert(s.subrange(s.len() as int, s.len() as int) == Seq::<char>::empty());
}

/// Trimming twice is trimming once.
pub proof fn lemma_trimmed_idempotent(s: Seq<char>)
    ensures
        trimmed(trimmed(s)) == trimmed(s),
{
    lemma_trimmed_has_no_outer_whitespace(s);
    let t = trimmed(s);
    if t.len() > 0 {
        lemma_trimmed_is_subrange(t, 0, t.len() as int);
        assert(t.subrange(0, t.len() as int) == t);
    }
}

/// What is left after trimming neither starts nor ends with whitespace.
pub proof fn lemma_trimmed_has_no_outer_whitespace(s: Seq<char>)
    ensures
        trimmed(s).len() > 0 ==> !white_space(trimmed(s).first()) && !white_space(
            trimmed(s).last(),
        ),
{
    lemma_trim_start_stops(s);
    lemma_trim_end_keeps_start(trim_start(s));
    lemma_trim_end_stops(trim_start(s));
}

proof fn lemma_trim_start_stops(s: Seq<char>)
    ensures
        trim_start(s).len() > 0 ==> !white_space(trim_start(s).first()),
    decreases s.len(),
{
    if s.len() > 0 && white_space(s.first()) {
        lemma_trim_start_stops(s.drop_first());
    }
}

proof fn lemma_trim_end_stops(s: Seq<char>)
    ensures
        trim_end(s).len() > 0 ==> !white_space(trim_end(s).last()),
    decreases s.len(),
{
    if s.len() > 0 && white_space(s.last()) {
        lemma_trim_end_stops(s.drop_last());
    }
}

proof fn lemma_trim_end_keeps_start(s: Seq<char>)
    ensures
        trim_end(s).len() > 0 ==> trim_end(s).first() == s.first(),
    decreases s.len(),
{
    if s.len() > 0 && white_space(s.last()) {
        lemma_trim_end_keeps_start(s.drop_last());
    }
}

/// Removes leading and trailing whitespace.
pub fn trim(s: &str) -> (inner: &str)
    ensures
        inner@ == trimmed(s@),
{
    broadcast use vstd::string::group_string_axioms;

    let byte_count = s.as_bytes().len();
    proof {
        lemma_no_more_chars_than_bytes(s@);
        assert(s@.len() <= byte_count);
    }
    let mut i: usize = 0;
    let mut start: usize = 0;
    let mut end: usize = 0;
    for c in it: s.chars()
        invariant
            it.seq() == s@,
            s@.len() <= usize::MAX,
            i == it.index(),
            start <= end <= i,
            end == 0 ==> forall|k: int| 0 <= k < i ==> white_space(#[trigger] s@[k]),
            end > 0 ==> {
                &&& start < end
                &&& forall|k: int| 0 <= k < start ==> white_space(#[trigger] s@[k])
                &&& !white_space(s@[start as int])
                &&& !white_space(s@[end - 1])
                &&& forall|k: int| end <= k < i ==> white_space(#[trigger] s@[k])
            },
    {
        if !is_whitespace(c) {
            if end == 0 {
                start = i;
            }
            end = i + 1;
        }
        i += 1;
    }
    proof {
        if end == 0 {
            lemma_trimmed_of_blank(s@);
        } else {
            lemma_trimmed_is_subrange(s@, start as int, end as int);
        }
    }
    s.substring_char(start, end)
}

/// Trims a raw line, the newline at its end included, and lowercases what
/// is left.
pub fn normalize(raw: &str) -> (guess: String)
    ensures
        guess@ == normalized(raw@),
{
    to_lowercase(trim(raw))
}

/// `normalize` gives on its own result that same result again, wherever
/// lowercasing leaves that result as it is and with no whitespace at its
/// ends. That lowercasing does so on every string is a property of Unicode's
/// case tables, which is not stated here.
pub proof fn lemma_normalized_idempotent_where_settled(raw: Seq<char>)
    ensures
        ({
            let once = normalized(raw);
            trimmed(once) == once && lowercase_of(once) == once
        }) ==> normalized(normalized(raw)) == normalized(raw),
{
}

/// Whether `c` is a lowercase ASCII letter.
pub open spec fn is_lowercase_letter(c: char) -> bool {
    'a' <= c && c <= 'z'
}

/// Whether every character of `s` is a lowercase ASCII letter. The empty
/// sequence has no character that is not.
pub open spec fn all_lowercase_letters(s: Seq<char>) -> bool {
    forall|i: int| 0 <= i < s.len() ==> is_lowercase_letter(#[trigger] s[i])
}

/// Whether every character of `s` is a lowercase ASCII letter.
pub fn is_alphabetic(s: &str) -> (ok: bool)
    ensures
        ok == all_lowercase_letters(s@),
{
    broadcast use vstd::string::group_string_axioms;

    let mut ok = true;
    for c in it: s.chars()
        invariant
            it.seq() == s@,
            ok == forall|i: int| 0 <= i < it.index() ==> is_lowercase_letter(#[trigger] s@[i]),
    {
        ok = ok && 'a' <= c && c <= 'z';
    }
    ok
}

/// Whether `s` is the name of one of the moves.
pub fn names_a_move(s: &str) -> (found: bool)
    ensures
        found == is_move_name(s@),
{
    let moves = Move::all();
    let mut found = false;
    let mut i: usize = 0;
    while i < 3
        invariant
            i <= 3,
            moves@ == Move::all_moves(),
            found == exists|k: int| 0 <= k < i && s@ == (#[trigger] moves@[k]).name(),
        decreases 3 - i,
    {
        if same_text(moves[i].as_str(), s) {
            found = true;
        }
        i += 1;
    }
    proof {
        if is_move_name(s@) {
            if s@ == "rock"@ {
                assert(s@ == moves@[0].name());
            } else if s@ == "paper"@ {
                assert(s@ == moves@[1].name());
            } else {
                assert(s@ == moves@[2].name());
            }
        }
    }
    found
}

/// Every move name is made of lowercase ASCII letters.
pub proof fn lemma_move_names_are_lowercase(s: Seq<char>)
    requires
        is_move_name(s),
    ensures
        all_lowercase_letters(s),
{
    reveal_strlit("rock");
    reveal_strlit("paper");
    reveal_strlit("scissors");
}

/// Whether `s` is a guess the game accepts: made of lowercase ASCII letters
/// and equal to the name of a move. The first condition follows from the
/// second, so the answer is that of the second alone.
pub fn validate(s: &str) -> (valid: bool)
    ensures
        valid == is_move_name(s@),
{
    proof {
        if is_move_name(s@) {
            lemma_move_names_are_lowercase(s@);
        }
    }
    let letters = is_alphabetic(s);
    let named = names_a_move(s);
    letters && named
}

} // verus!
