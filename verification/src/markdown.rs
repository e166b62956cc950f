//! Escaping for Telegram MarkdownV2 message text.

use vstd::prelude::*;
use crate::util::push_char;

verus! {

/// The characters MarkdownV2 requires to be escaped with a backslash.
pub open spec fn spec_is_md_special(c: char) -> bool {
    c == '_' || c == '*' || c == '[' || c == ']' || c == '(' || c == ')' || c == '~' || c == '`'
        || c == '>' || c == '#' || c == '+' || c == '-' || c == '=' || c == '|' || c == '{' || c
        == '}' || c == '.' || c == '!' || c == '\\'
}

/// The input with a backslash placed before every special character.
pub open spec fn spec_escape_md(s: Seq<char>) -> Seq<char>
    decreases s.len(),
{
    if s.len() == 0 {
        Seq::<char>::empty()
    } else {
        (if spec_is_md_special(s[0]) {
            seq!['\\', s[0]]
        } else {
            seq![s[0]]
        }) + spec_escape_md(s.drop_first())
    }
}

/// Escape text for Telegram MarkdownV2: a backslash before each of
/// `_ * [ ] ( ) ~ \u{60} > # + - = | { } . !` and backslash itself.
pub fn escape_md_v2(s: &str) -> (r: String)
    ensures
        r@ == spec_escape_md(s@),
{
    let n = s.unicode_len();
    let mut out = String::new();
    let mut i: usize = 0;
    proof {
        assert(s@.skip(0) =~= s@);
        assert(out@ + spec_escape_md(s@) =~= spec_escape_md(s@));
    }
    while i < n
        invariant
            n == s@.len(),
            i <= n,
            spec_escape_md(s@) == out@ + spec_escape_md(s@.skip(i as int)),
        decreases n - i,
    {
        let ghost pre = out@;
        let c = s.get_char(i);
        let special = c == '_' || c == '*' || c == '[' || c == ']' || c == '(' || c == ')' || c
            == '~' || c == '`' || c == '>' || c == '#' || c == '+' || c == '-' || c == '=' || c
            == '|' || c == '{' || c == '}' || c == '.' || c == '!' || c == '\\';
        proof {
            assert(special == spec_is_md_special(c));
            assert(s@.skip(i as int)[0] == c);
            assert(s@.skip(i as int).drop_first() =~= s@.skip(i + 1));
        }
        if special {
            push_char(&mut out, '\\');
        }
        push_char(&mut out, c);
        proof {
            if special {
                assert(out@ =~= pre + seq!['\\', c]);
            } else {
                assert(out@ =~= pre + seq![c]);
            }
            assert(out@ + spec_escape_md(s@.skip(i + 1)) =~= pre + spec_escape_md(
                s@.skip(i as int),
            ));
        }
        i = i + 1;
    }
    proof {
        assert(s@.skip(n as int) =~= Seq::<char>::empty());
        assert(spec_escape_md(Seq::<char>::empty()) =~= Seq::<char>::empty());
        assert(out@ =~= out@ + spec_escape_md(s@.skip(n as int)));
    }
    out
}

} // verus!
