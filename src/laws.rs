//! Properties of the comment filter, stated over its model and proved.

use vstd::prelude::*;
use crate::comments::{filter_from, strip_comments, Mode, NEWLINE, SLASH};

verus! {

/// True when no byte of `s` is a `/`.
pub open spec fn no_slash(s: Seq<u8>) -> bool {
    forall|i: int| 0 <= i < s.len() ==> s[i] != SLASH
}

/// True when `s` holds no `//`, that is, no comment opener.
pub open spec fn no_opener(s: Seq<u8>) -> bool {
    forall|i: int| 0 <= i < s.len() - 1 ==> !(#[trigger] s[i] == SLASH && s[i + 1] == SLASH)
}

/// The number of newline bytes in `s`.
pub open spec fn count_newlines(s: Seq<u8>) -> nat
    decreases s.len(),
{
    if s.len() == 0 {
        0
    } else {
        (if s[0] == NEWLINE { 1nat } else { 0nat }) + count_newlines(s.drop_first())
    }
}

proof fn lemma_no_opener_cons(c: u8, x: Seq<u8>)
    requires
        c != SLASH || x.len() == 0 || x[0] != SLASH,
    ensures
        no_opener(seq![c] + x) == no_opener(x),
{
    let s = seq![c] + x;
    assert(s.drop_first() =~= x);
    if no_opener(x) {
        assert forall|i: int| 0 <= i < s.len() - 1 implies !(#[trigger] s[i] == SLASH && s[i + 1] == SLASH) by {
            if i > 0 {
                assert(s[i] == x[i - 1] && s[i + 1] == x[i]);
            }
        }
    }
    if no_opener(s) {
        assert forall|i: int| 0 <= i < x.len() - 1 implies !(#[trigger] x[i] == SLASH && x[i + 1] == SLASH) by {
            assert(s[i + 1] == x[i] && s[i + 2] == x[i + 1]);
        }
    }
}

/// Without a `//`, the filter changes nothing; started on a held `/`, it
/// hands that `/` out in front.
proof fn lemma_filter_opener_free(m: Mode, s: Seq<u8>)
    requires
        no_opener(s),
        m is Normal || (m is Pending && (s.len() == 0 || s[0] != SLASH)),
    ensures
        filter_from(m, s) == (if m is Pending { seq![SLASH] + s } else { s }),
    decreases s.len(),
{
    if s.len() == 0 {
        assert(seq![SLASH] + s =~= seq![SLASH]);
    } else {
        let c = s[0];
        let rest = s.drop_first();
        assert(s =~= seq![c] + rest);
        lemma_no_opener_cons(c, rest);
        if rest.len() > 0 {
            assert(rest[0] == s[1]);
        }
        if m is Normal {
            if c == SLASH {
                lemma_filter_opener_free(Mode::Pending, rest);
            } else {
                lemma_filter_opener_free(Mode::Normal, rest);
            }
        } else {
            lemma_filter_opener_free(Mode::Normal, rest);
            assert(seq![SLASH, c] + rest =~= seq![SLASH] + s);
        }
    }
}

/// What the filter hands out never holds a `//`.
proof fn lemma_filter_output_opener_free(m: Mode, s: Seq<u8>)
    ensures
        no_opener(filter_from(m, s)),
    decreases s.len(),
{
    if s.len() > 0 {
        let c = s[0];
        let rest = s.drop_first();
        match m {
            Mode::Normal => {
                if c == SLASH {
                    lemma_filter_output_opener_free(Mode::Pending, rest);
                } else {
                    lemma_filter_output_opener_free(Mode::Normal, rest);
                    lemma_no_opener_cons(c, filter_from(Mode::Normal, rest));
                }
            },
            Mode::Pending => {
                if c == SLASH {
                    lemma_filter_output_opener_free(Mode::InComment, rest);
                } else {
                    let x = filter_from(Mode::Normal, rest);
                    lemma_filter_output_opener_free(Mode::Normal, rest);
                    lemma_no_opener_cons(c, x);
                    lemma_no_opener_cons(SLASH, seq![c] + x);
                    assert(seq![SLASH, c] + x =~= seq![SLASH] + (seq![c] + x));
                }
            },
            Mode::InComment => {
                lemma_filter_output_opener_free(Mode::Normal, rest);
                lemma_filter_output_opener_free(Mode::InComment, rest);
                lemma_no_opener_cons(NEWLINE, filter_from(Mode::Normal, rest));
            },
        }
    } else {
        if m is Pending {
            assert(no_opener(seq![SLASH]));
        }
    }
}

/// An input with no `/` passes through the filter unchanged.
pub proof fn lemma_identity_without_slash(s: Seq<u8>)
    requires
        no_slash(s),
    ensures
        strip_comments(s) == s,
{
    lemma_filter_opener_free(Mode::Normal, s);
}

/// Filtering twice gives what filtering once gives.
pub proof fn lemma_idempotent(s: Seq<u8>)
    ensures
        strip_comments(strip_comments(s)) == strip_comments(s),
{
    lemma_filter_output_opener_free(Mode::Normal, s);
    lemma_filter_opener_free(Mode::Normal, strip_comments(s));
}

proof fn lemma_filter_len(m: Mode, s: Seq<u8>)
    ensures
        filter_from(m, s).len() <= s.len() + (if m is Pending { 1int } else { 0int }),
    decreases s.len(),
{
    if s.len() > 0 {
        let rest = s.drop_first();
        lemma_filter_len(Mode::Normal, rest);
        lemma_filter_len(Mode::Pending, rest);
        lemma_filter_len(Mode::InComment, rest);
    }
}

/// The filter never makes its input longer.
pub proof fn lemma_output_not_longer(s: Seq<u8>)
    ensures
        strip_comments(s).len() <= s.len(),
{
    lemma_filter_len(Mode::Normal, s);
}

proof fn lemma_count_cons(c: u8, x: Seq<u8>)
    ensures
        count_newlines(seq![c] + x) == (if c == NEWLINE { 1nat } else { 0nat }) + count_newlines(x),
{
    assert((seq![c] + x).drop_first() =~= x);
}

proof fn lemma_filter_newlines(m: Mode, s: Seq<u8>)
    ensures
        count_newlines(filter_from(m, s)) == count_newlines(s),
    decreases s.len(),
{
    if s.len() == 0 {
        if m is Pending {
            lemma_count_cons(SLASH, Seq::empty());
        }
    } else {
        let c = s[0];
        let rest = s.drop_first();
        let x = filter_from(Mode::Normal, rest);
        lemma_filter_newlines(Mode::Normal, rest);
        lemma_filter_newlines(Mode::Pending, rest);
        lemma_filter_newlines(Mode::InComment, rest);
        lemma_count_cons(c, x);
        lemma_count_cons(SLASH, seq![c] + x);
        assert(seq![SLASH, c] + x =~= seq![SLASH] + (seq![c] + x));
    }
}

/// The filter keeps every newline: input and output hold as many.
pub proof fn lemma_newlines_kept(s: Seq<u8>)
    ensures
        count_newlines(strip_comments(s)) == count_newlines(s),
{
    lemma_filter_newlines(Mode::Normal, s);
}

} // verus!
