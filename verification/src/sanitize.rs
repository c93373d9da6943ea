//! Text post-processing applied to the raw reply before it is shown:
//! un-escaping, quote stripping, and removal of leading line breaks.

use vstd::prelude::*;
use vstd::string::*;

verus! {

/// The sequence with every leading `'\n'` removed.
pub open spec fn drop_leading_newlines(s: Seq<char>) -> Seq<char>
    decreases s.len(),
{
    if s.len() > 0 && s[0] == '\n' {
        drop_leading_newlines(s.skip(1))
    } else {
        s
    }
}

/// The number of `'\n'` characters at the front of the sequence.
pub open spec fn newline_prefix_len(s: Seq<char>) -> int
    decreases s.len(),
{
    if s.len() > 0 && s[0] == '\n' {
        1 + newline_prefix_len(s.skip(1))
    } else {
        0
    }
}

/// Stripping leading line breaks removes exactly the maximal run of
/// leading `'\n'` characters and leaves the remaining suffix unchanged;
/// the result never begins with a line break.
pub proof fn lemma_drop_leading_newlines_form(s: Seq<char>)
    ensures
        0 <= newline_prefix_len(s) <= s.len(),
        forall|j: int| 0 <= j < newline_prefix_len(s) ==> s[j] == '\n',
        drop_leading_newlines(s) == s.skip(newline_prefix_len(s)),
        drop_leading_newlines(s).len() > 0 ==> drop_leading_newlines(s)[0] != '\n',
    decreases s.len(),
{
    if s.len() > 0 && s[0] == '\n' {
        lemma_drop_leading_newlines_form(s.skip(1));
        let n1 = newline_prefix_len(s.skip(1));
        assert(s.skip(1).skip(n1) =~= s.skip(1 + n1));
        assert forall|j: int| 0 <= j < newline_prefix_len(s) implies s[j] == '\n' by {
            if j > 0 {
                assert(s.skip(1)[j - 1] == s[j]);
            }
        }
    } else {
        assert(s.skip(0) =~= s);
    }
}

/// Removes every leading `'\n'` from the text.
pub fn remove_leading_newlines(text: String) -> (r: String)
    ensures
        r@ == drop_leading_newlines(text@),
{
    let s = text.as_str();
    let len = s.unicode_len();
    let mut i: usize = 0;
    while i < len && s.get_char(i) == '\n'
        invariant
            0 <= i <= len,
            len == s@.len(),
            s@ == text@,
            forall|j: int| 0 <= j < i ==> s@[j] == '\n',
        decreases len - i,
    {
        i = i + 1;
    }
    proof {
        lemma_drop_prefix_run(text@, i as int);
    }
    String::from_str(s.substring_char(i, len))
}

/// After a maximal run of `i` leading newlines, dropping the leading
/// newlines is the same as skipping the first `i` characters.
proof fn lemma_drop_prefix_run(s: Seq<char>, i: int)
    requires
        0 <= i <= s.len(),
        forall|j: int| 0 <= j < i ==> s[j] == '\n',
        i == s.len() || s[i] != '\n',
    ensures
        drop_leading_newlines(s) == s.skip(i),
    decreases i,
{
    if i == 0 {
        assert(s.skip(0) =~= s);
    } else {
        assert(s[0] == '\n');
        assert forall|j: int| 0 <= j < i - 1 implies s.skip(1)[j] == '\n' by {
            assert(s.skip(1)[j] == s[j + 1]);
        }
        lemma_drop_prefix_run(s.skip(1), i - 1);
        assert(s.skip(1).skip(i - 1) =~= s.skip(i));
    }
}

/// Relies on String::push: appends the given character to the end of
/// the string.
#[verifier::external_body]
pub(crate) fn push_char(s: &mut String, c: char)
    ensures
        final(s)@ == old(s)@.push(c),
{
    s.push(c)
}

/// The sequence with every two-character `\n` escape replaced by a
/// real line break, scanning left to right.
pub open spec fn unescape_newlines_seq(s: Seq<char>) -> Seq<char>
    decreases s.len(),
{
    if s.len() >= 2 && s[0] == '\\' && s[1] == 'n' {
        seq!['\n'] + unescape_newlines_seq(s.skip(2))
    } else if s.len() > 0 {
        seq![s[0]] + unescape_newlines_seq(s.skip(1))
    } else {
        Seq::<char>::empty()
    }
}

/// The sequence with every two-character `\"` escape replaced by a
/// plain quotation mark, scanning left to right.
pub open spec fn unescape_quotes_seq(s: Seq<char>) -> Seq<char>
    decreases s.len(),
{
    if s.len() >= 2 && s[0] == '\\' && s[1] == '"' {
        seq!['"'] + unescape_quotes_seq(s.skip(2))
    } else if s.len() > 0 {
        seq![s[0]] + unescape_quotes_seq(s.skip(1))
    } else {
        Seq::<char>::empty()
    }
}

/// The sequence with a backslash inserted before every quotation mark.
pub open spec fn escape_quotes_seq(s: Seq<char>) -> Seq<char>
    decreases s.len(),
{
    if s.len() == 0 {
        Seq::<char>::empty()
    } else if s[0] == '"' {
        seq!['\\', '"'] + escape_quotes_seq(s.skip(1))
    } else {
        seq![s[0]] + escape_quotes_seq(s.skip(1))
    }
}

/// Replaces every `\n` escape in the text by a real line break.
pub fn unescape_newlines(text: &str) -> (r: String)
    ensures
        r@ == unescape_newlines_seq(text@),
{
    let len = text.unicode_len();
    let mut out = String::new();
    let mut i: usize = 0;
    proof {
        assert(text@.skip(0) =~= text@);
        assert(out@ + unescape_newlines_seq(text@) =~= unescape_newlines_seq(text@));
    }
    while i < len
        invariant
            0 <= i <= len,
            len == text@.len(),
            unescape_newlines_seq(text@) == out@ + unescape_newlines_seq(text@.skip(i as int)),
        decreases len - i,
    {
        let c = text.get_char(i);
        if c == '\\' && i + 1 < len && text.get_char(i + 1) == 'n' {
            push_char(&mut out, '\n');
            proof {
                assert(text@.skip(i as int).skip(2) =~= text@.skip(i as int + 2));
                assert(out@ + unescape_newlines_seq(text@.skip(i as int + 2))
                    =~= unescape_newlines_seq(text@));
            }
            i = i + 2;
        } else {
            push_char(&mut out, c);
            proof {
                assert(text@.skip(i as int).skip(1) =~= text@.skip(i as int + 1));
                assert(out@ + unescape_newlines_seq(text@.skip(i as int + 1))
                    =~= unescape_newlines_seq(text@));
            }
            i = i + 1;
        }
    }
    proof {
        assert(text@.skip(len as int) =~= Seq::<char>::empty());
        assert(out@ =~= unescape_newlines_seq(text@));
    }
    out
}

/// Replaces every `\"` escape in the text by a plain quotation mark.
pub fn unescape_quotes(text: &str) -> (r: String)
    ensures
        r@ == unescape_quotes_seq(text@),
{
    let len = text.unicode_len();
    let mut out = String::new();
    let mut i: usize = 0;
    proof {
        assert(text@.skip(0) =~= text@);
        assert(out@ + unescape_quotes_seq(text@) =~= unescape_quotes_seq(text@));
    }
    while i < len
        invariant
            0 <= i <= len,
            len == text@.len(),
            unescape_quotes_seq(text@) == out@ + unescape_quotes_seq(text@.skip(i as int)),
        decreases len - i,
    {
        let c = text.get_char(i);
        if c == '\\' && i + 1 < len && text.get_char(i + 1) == '"' {
            push_char(&mut out, '"');
            proof {
                assert(text@.skip(i as int).skip(2) =~= text@.skip(i as int + 2));
                assert(out@ + unescape_quotes_seq(text@.skip(i as int + 2))
                    =~= unescape_quotes_seq(text@));
            }
            i = i + 2;
        } else {
            push_char(&mut out, c);
            proof {
                assert(text@.skip(i as int).skip(1) =~= text@.skip(i as int + 1));
                assert(out@ + unescape_quotes_seq(text@.skip(i as int + 1))
                    =~= unescape_quotes_seq(text@));
            }
            i = i + 1;
        }
    }
    proof {
        assert(text@.skip(len as int) =~= Seq::<char>::empty());
        assert(out@ =~= unescape_quotes_seq(text@));
    }
    out
}

/// Inserts a backslash before every quotation mark in the text.
pub fn escape_quotes(text: &str) -> (r: String)
    ensures
        r@ == escape_quotes_seq(text@),
{
    let len = text.unicode_len();
    let mut out = String::new();
    let mut i: usize = 0;
    proof {
        assert(text@.skip(0) =~= text@);
        assert(out@ + escape_quotes_seq(text@) =~= escape_quotes_seq(text@));
    }
    while i < len
        invariant
            0 <= i <= len,
            len == text@.len(),
            escape_quotes_seq(text@) == out@ + escape_quotes_seq(text@.skip(i as int)),
        decreases len - i,
    {
        let c = text.get_char(i);
        if c == '"' {
            push_char(&mut out, '\\');
            push_char(&mut out, '"');
        } else {
            push_char(&mut out, c);
        }
        proof {
            assert(text@.skip(i as int).skip(1) =~= text@.skip(i as int + 1));
            assert(out@ + escape_quotes_seq(text@.skip(i as int + 1))
                =~= escape_quotes_seq(text@));
        }
        i = i + 1;
    }
    proof {
        assert(text@.skip(len as int) =~= Seq::<char>::empty());
        assert(out@ =~= escape_quotes_seq(text@));
    }
    out
}

/// An escaped sequence never begins with a plain quotation mark.
proof fn lemma_escape_head_not_quote(s: Seq<char>)
    requires
        s.len() > 0,
    ensures
        escape_quotes_seq(s).len() > 0,
        escape_quotes_seq(s)[0] != '"',
{
}

/// Escaping quotation marks and un-escaping them are inverse: for any
/// sequence, un-escaping the escaped sequence gives the original back.
pub proof fn lemma_escape_unescape_quotes(s: Seq<char>)
    ensures
        unescape_quotes_seq(escape_quotes_seq(s)) == s,
    decreases s.len(),
{
    if s.len() == 0 {
        assert(unescape_quotes_seq(escape_quotes_seq(s)) =~= s);
    } else if s[0] == '"' {
        lemma_escape_unescape_quotes(s.skip(1));
        let e = escape_quotes_seq(s.skip(1));
        let full = seq!['\\', '"'] + e;
        assert(full.skip(2) =~= e);
        assert(unescape_quotes_seq(full) == seq!['"'] + unescape_quotes_seq(e));
        assert(seq!['"'] + s.skip(1) =~= s);
    } else {
        lemma_escape_unescape_quotes(s.skip(1));
        let e = escape_quotes_seq(s.skip(1));
        let full = seq![s[0]] + e;
        assert(full.skip(1) =~= e);
        if s.skip(1).len() > 0 {
            lemma_escape_head_not_quote(s.skip(1));
            assert(full[1] == e[0]);
        }
        assert(!(full.len() >= 2 && full[0] == '\\' && full[1] == '"'));
        assert(unescape_quotes_seq(full) == seq![s[0]] + unescape_quotes_seq(e));
        assert(seq![s[0]] + s.skip(1) =~= s);
    }
}

/// The sequence with one leading and one trailing `'"'` removed, when
/// both are present; otherwise the sequence unchanged.
pub open spec fn strip_outer_quotes(s: Seq<char>) -> Seq<char> {
    if s.len() >= 2 && s[0] == '"' && s[s.len() - 1] == '"' {
        s.subrange(1, s.len() - 1)
    } else {
        s
    }
}

/// Removes the outer quotation marks from a text that carries them; a
/// text not wrapped in quotation marks is returned unchanged.
pub fn remove_outer_quotation_marks(text: String) -> (r: String)
    ensures
        r@ == strip_outer_quotes(text@),
{
    let s = text.as_str();
    let len = s.unicode_len();
    if len >= 2 && s.get_char(0) == '"' && s.get_char(len - 1) == '"' {
        String::from_str(s.substring_char(1, len - 1))
    } else {
        text
    }
}

/// The full sanitization applied to a raw reply text: un-escape line
/// breaks, strip outer quotation marks, un-escape quotation marks, and
/// drop leading line breaks.
pub open spec fn sanitize_response_seq(s: Seq<char>) -> Seq<char> {
    drop_leading_newlines(unescape_quotes_seq(strip_outer_quotes(unescape_newlines_seq(s))))
}

/// Sanitizes a raw reply text for display.
pub fn sanitize_response(response: String) -> (r: String)
    ensures
        r@ == sanitize_response_seq(response@),
{
    let text = unescape_newlines(response.as_str());
    let text = remove_outer_quotation_marks(text);
    let text = unescape_quotes(text.as_str());
    remove_leading_newlines(text)
}

} // verus!
