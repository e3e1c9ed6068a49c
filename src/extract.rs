//! Finding the links in the text of a message.

use vstd::prelude::*;

verus! {

/// Whether `c` carries the Unicode `White_Space` property.
pub uninterp spec fn white_space(c: char) -> bool;

/// Whether `s` parses as an absolute URL.
pub uninterp spec fn parses_as_url(s: Seq<char>) -> bool;

/// Relies on `char::is_whitespace`: true exactly for the characters with the
/// Unicode `White_Space` property.
#[verifier::external_body]
fn is_white_space(c: char) -> (r: bool)
    ensures
        r == white_space(c),
{
    c.is_whitespace()
}

/// Relies on `url::Url::parse`: whether the text is accepted as an absolute URL.
#[verifier::external_body]
fn is_absolute_url(s: &str) -> (r: bool)
    ensures
        r == parses_as_url(s@),
{
    url::Url::parse(s).is_ok()
}

/// The token `cur` as a sequence of zero or one tokens: empty when `cur` is.
pub open spec fn finish_token(cur: Seq<char>) -> Seq<Seq<char>> {
    if cur.len() == 0 {
        seq![]
    } else {
        seq![cur]
    }
}

/// The whitespace-separated tokens of `cur + s`, where `cur` holds no white space.
pub open spec fn split_tokens(s: Seq<char>, cur: Seq<char>) -> Seq<Seq<char>>
    decreases s.len(),
{
    if s.len() == 0 {
        finish_token(cur)
    } else if white_space(s[0]) {
        finish_token(cur) + split_tokens(s.drop_first(), seq![])
    } else {
        split_tokens(s.drop_first(), cur.push(s[0]))
    }
}

/// The maximal runs of non-white-space characters of `s`, in order.
pub open spec fn tokens(s: Seq<char>) -> Seq<Seq<char>> {
    split_tokens(s, seq![])
}

/// The tokens among `ts` that parse as absolute URLs, in order.
pub open spec fn url_tokens(ts: Seq<Seq<char>>) -> Seq<Seq<char>> {
    ts.filter(|t: Seq<char>| parses_as_url(t))
}

/// The links of a message: its tokens that parse as absolute URLs, in order,
/// repeated ones included.
pub open spec fn urls_in(s: Seq<char>) -> Seq<Seq<char>> {
    url_tokens(tokens(s))
}

/// The views of a list of strings.
pub open spec fn string_views(v: Seq<String>) -> Seq<Seq<char>> {
    v.map_values(|u: String| u@)
}

proof fn lemma_url_tokens_of_finished(cur: Seq<char>)
    ensures
        url_tokens(finish_token(cur)) == (if cur.len() > 0 && parses_as_url(cur) {
            seq![cur]
        } else {
            Seq::<Seq<char>>::empty()
        }),
{
    reveal_with_fuel(Seq::filter, 2);
    if cur.len() > 0 {
        assert(finish_token(cur).drop_last() =~= Seq::<Seq<char>>::empty());
    }
}

/// Appends the token `content[start..end]` to `out` when it parses as a URL.
fn keep_if_url(content: &str, start: usize, end: usize, out: &mut Vec<String>)
    requires
        start < end <= content@.len(),
    ensures
        string_views(final(out)@) == string_views(old(out)@) + url_tokens(
            finish_token(content@.subrange(start as int, end as int)),
        ),
{
    let tok = content.substring_char(start, end);
    proof {
        lemma_url_tokens_of_finished(content@.subrange(start as int, end as int));
    }
    if is_absolute_url(tok) {
        let ghost before = out@;
        out.push(tok.to_owned());
        assert(string_views(out@) =~= string_views(before).push(tok@));
    } else {
        assert(string_views(out@) =~= string_views(out@) + Seq::<Seq<char>>::empty());
    }
}

/// The whitespace-separated tokens of `content` that parse as absolute URLs,
/// in the order in which they stand, repeated ones included.
pub fn extract_urls_from_message(content: &str) -> (r: Vec<String>)
    ensures
        string_views(r@) == urls_in(content@),
{
    broadcast use Seq::filter_distributes_over_add;

    let n = content.unicode_len();
    let mut out: Vec<String> = Vec::new();
    let mut start: usize = 0;
    let mut i: usize = 0;
    assert(content@.subrange(0, n as int) =~= content@);
    assert(string_views(out@) =~= Seq::<Seq<char>>::empty());
    assert(content@.subrange(0, 0) =~= Seq::<char>::empty());
    assert(string_views(out@) + urls_in(content@) =~= urls_in(content@));
    while i < n
        invariant
            n == content@.len(),
            start <= i <= n,
            string_views(out@) + url_tokens(
                split_tokens(
                    content@.subrange(i as int, n as int),
                    content@.subrange(start as int, i as int),
                ),
            ) == urls_in(content@),
        decreases n - i,
    {
        let c = content.get_char(i);
        let ghost rest = content@.subrange(i as int, n as int);
        let ghost cur = content@.subrange(start as int, i as int);
        assert(rest.drop_first() =~= content@.subrange(i + 1, n as int));
        assert(rest[0] == c);
        if is_white_space(c) {
            let ghost prev = out@;
            if start < i {
                keep_if_url(content, start, i, &mut out);
            } else {
                assert(cur =~= Seq::<char>::empty());
                proof {
                    lemma_url_tokens_of_finished(cur);
                }
                assert(string_views(out@) =~= string_views(out@) + url_tokens(finish_token(cur)));
            }
            assert(content@.subrange(i + 1, i + 1) =~= Seq::<char>::empty());
            assert(split_tokens(rest, cur) == finish_token(cur) + split_tokens(
                content@.subrange(i + 1, n as int),
                seq![],
            ));
            assert(string_views(prev) + url_tokens(split_tokens(rest, cur)) == string_views(out@)
                + url_tokens(split_tokens(content@.subrange(i + 1, n as int), seq![]))) by {
                assert(url_tokens(split_tokens(rest, cur)) == url_tokens(finish_token(cur))
                    + url_tokens(split_tokens(content@.subrange(i + 1, n as int), seq![])));
                assert(string_views(out@) == string_views(prev) + url_tokens(finish_token(cur)));
                assert(string_views(prev) + (url_tokens(finish_token(cur)) + url_tokens(
                    split_tokens(content@.subrange(i + 1, n as int), seq![]),
                )) =~= string_views(prev) + url_tokens(finish_token(cur)) + url_tokens(
                    split_tokens(content@.subrange(i + 1, n as int), seq![]),
                ));
            }
            start = i + 1;
        } else {
            assert(cur.push(c) =~= content@.subrange(start as int, i + 1));
        }
        i = i + 1;
    }
    let ghost cur = content@.subrange(start as int, n as int);
    assert(content@.subrange(n as int, n as int) =~= Seq::<char>::empty());
    if start < n {
        keep_if_url(content, start, n, &mut out);
    } else {
        assert(cur =~= Seq::<char>::empty());
        proof {
            lemma_url_tokens_of_finished(cur);
        }
    }
    assert(string_views(out@) =~= urls_in(content@));
    out
}

/// Every link found in a message parses as an absolute URL on its own and is
/// one of the message's tokens; every token that parses is found; and the links
/// are exactly those tokens, in their order, repeated ones included.
pub proof fn lemma_links_reparse(s: Seq<char>)
    ensures
        forall|i: int|
            0 <= i < urls_in(s).len() ==> parses_as_url(#[trigger] urls_in(s)[i]) && tokens(
                s,
            ).contains(urls_in(s)[i]),
        forall|i: int|
            0 <= i < tokens(s).len() && parses_as_url(#[trigger] tokens(s)[i]) ==> urls_in(
                s,
            ).contains(tokens(s)[i]),
        urls_in(s) == tokens(s).filter(|t: Seq<char>| parses_as_url(t)),
{
    broadcast use vstd::seq_lib::group_filter_ensures;

    let p = |t: Seq<char>| parses_as_url(t);
    assert forall|i: int| 0 <= i < urls_in(s).len() implies parses_as_url(
        #[trigger] urls_in(s)[i],
    ) && tokens(s).contains(urls_in(s)[i]) by {
        assert(p(tokens(s).filter(p)[i]));
        assert(tokens(s).filter(p).contains(tokens(s).filter(p)[i]));
        tokens(s).lemma_filter_contains_rev(p, tokens(s).filter(p)[i]);
    }
    assert forall|i: int| 0 <= i < tokens(s).len() && parses_as_url(
        #[trigger] tokens(s)[i],
    ) implies urls_in(s).contains(tokens(s)[i]) by {
        assert(p(tokens(s)[i]));
    }
}

} // verus!
