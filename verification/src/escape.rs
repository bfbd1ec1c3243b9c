//! A character-level filter making arbitrary payload text safe to embed
//! inside a double-quoted flowchart label.

use vstd::prelude::*;
use vstd::string::StrSliceExecFns;
use vstd::string::StringExecFns;

verus! {

/// What one character of payload text becomes in a label: `"` and `\`
/// gain an escaping backslash, a newline becomes the two-character
/// left-justified line-break marker `\l`, and every other character
/// passes through unchanged.
pub open spec fn escape_char(c: char) -> Seq<char> {
    if c == '"' {
        seq!['\\', '"']
    } else if c == '\\' {
        seq!['\\', '\\']
    } else if c == '\n' {
        seq!['\\', 'l']
    } else {
        seq![c]
    }
}

/// What a whole payload text becomes: each character replaced by its
/// escaped form, in order.
pub open spec fn escape_text(s: Seq<char>) -> Seq<char>
    decreases s.len(),
{
    if s.len() == 0 {
        Seq::empty()
    } else {
        escape_char(s[0]) + escape_text(s.drop_first())
    }
}

/// Text that is safe inside a double-quoted label, read left to right:
/// a backslash always begins one of the pairs `\"`, `\\`, `\l`, and a
/// double quote never stands on its own.
pub open spec fn safe_label(t: Seq<char>) -> bool
    decreases t.len(),
{
    if t.len() == 0 {
        true
    } else if t[0] == '\\' {
        t.len() >= 2 && (t[1] == '"' || t[1] == '\\' || t[1] == 'l') && safe_label(
            t.subrange(2, t.len() as int),
        )
    } else {
        t[0] != '"' && safe_label(t.drop_first())
    }
}

/// Escaping appends one escaped character at a time.
pub proof fn lemma_escape_text_snoc(s: Seq<char>, c: char)
    ensures
        escape_text(s.push(c)) == escape_text(s) + escape_char(c),
    decreases s.len(),
{
    let t = s.push(c);
    assert(t.len() == s.len() + 1);
    if s.len() == 0 {
        assert(t[0] == c);
        assert(t.drop_first() =~= Seq::<char>::empty());
        assert(escape_text(t.drop_first()) == Seq::<char>::empty());
        assert(escape_text(t) == escape_char(c) + escape_text(t.drop_first()));
        assert(escape_char(c) + Seq::<char>::empty() =~= Seq::<char>::empty() + escape_char(c));
    } else {
        assert(t[0] == s[0]);
        assert(t.drop_first() =~= s.drop_first().push(c));
        lemma_escape_text_snoc(s.drop_first(), c);
        assert(escape_text(t) == escape_char(s[0]) + (escape_text(s.drop_first()) + escape_char(
            c,
        )));
        assert(escape_char(s[0]) + (escape_text(s.drop_first()) + escape_char(c)) =~= (escape_char(
            s[0],
        ) + escape_text(s.drop_first())) + escape_char(c));
    }
}

/// Escaping is the identity on text free of `"`, `\` and newline.
pub proof fn lemma_escape_identity(s: Seq<char>)
    requires
        forall|i: int| 0 <= i < s.len() ==> s[i] != '"' && s[i] != '\\' && s[i] != '\n',
    ensures
        escape_text(s) == s,
    decreases s.len(),
{
    if s.len() > 0 {
        lemma_escape_identity(s.drop_first());
        assert(escape_char(s[0]) + s.drop_first() =~= s);
    }
}

/// Escaped text is safe to embed inside a double-quoted label: it holds
/// no unescaped `"` or `\`.
pub proof fn lemma_escape_safe(s: Seq<char>)
    ensures
        safe_label(escape_text(s)),
    decreases s.len(),
{
    if s.len() > 0 {
        lemma_escape_safe(s.drop_first());
        let t = escape_text(s);
        let rest = escape_text(s.drop_first());
        let c = s[0];
        if c == '"' || c == '\\' || c == '\n' {
            assert(t.len() >= 2);
            assert(t.subrange(2, t.len() as int) =~= rest);
        } else {
            assert(t.drop_first() =~= rest);
        }
    }
}

/// Escaping replaces each character independently: the escaped text is
/// the concatenation, in order, of the escaped form of each character.
pub proof fn lemma_escape_pointwise(s: Seq<char>)
    ensures
        escape_text(s) == s.map_values(|c: char| escape_char(c)).flatten(),
    decreases s.len(),
{
    let mapped = s.map_values(|c: char| escape_char(c));
    if s.len() == 0 {
        assert(mapped =~= Seq::<Seq<char>>::empty());
        assert(mapped.flatten() =~= Seq::<char>::empty());
    } else {
        lemma_escape_pointwise(s.drop_first());
        assert(mapped.drop_first() =~= s.drop_first().map_values(|c: char| escape_char(c)));
        assert(mapped.flatten() == mapped.first() + mapped.drop_first().flatten());
        assert(escape_text(s) =~= mapped.flatten());
    }
}

/// Escapes a payload text for embedding inside a double-quoted label.
pub fn escape(s: &str) -> (r: String)
    ensures
        r@ == escape_text(s@),
{
    let n = s.unicode_len();
    let mut out = String::new();
    let mut i: usize = 0;
    while i < n
        invariant
            n == s@.len(),
            i <= n,
            out@ == escape_text(s@.subrange(0, i as int)),
        decreases n - i,
    {
        let c = s.get_char(i);
        if c == '"' {
            out.append("\\\"");
            proof {
                reveal_strlit("\\\"");
                assert(("\\\"")@ =~= escape_char(c));
            }
        } else if c == '\\' {
            out.append("\\\\");
            proof {
                reveal_strlit("\\\\");
                assert(("\\\\")@ =~= escape_char(c));
            }
        } else if c == '\n' {
            out.append("\\l");
            proof {
                reveal_strlit("\\l");
                assert(("\\l")@ =~= escape_char(c));
            }
        } else {
            let piece = s.substring_char(i, i + 1);
            out.append(piece);
            proof {
                assert(piece@ =~= escape_char(c));
            }
        }
        proof {
            lemma_escape_text_snoc(s@.subrange(0, i as int), c);
            assert(s@.subrange(0, i + 1 as int) =~= s@.subrange(0, i as int).push(c));
        }
        i = i + 1;
    }
    proof {
        assert(s@.subrange(0, n as int) =~= s@);
    }
    out
}

} // verus!
