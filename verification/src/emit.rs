//! Verified text assembly for the code emitters: indentation and indented
//! lines of up to seven pieces, each with its emitted characters pinned
//! exactly.

use vstd::prelude::*;

verus! {

use vstd::string::StringExecFns;

/// `n` levels of four-space indentation.
pub open spec fn tabs_spec(n: nat) -> Seq<char>
    decreases n,
{
    if n == 0 {
        Seq::empty()
    } else {
        tabs_spec((n - 1) as nat) + "    "@
    }
}

/// Appends `num` levels of indentation.
pub fn tabs_to(w: &mut String, num: u32)
    ensures
        final(w)@ == old(w)@ + tabs_spec(num as nat),
{
    let mut i: u32 = 0;
    proof {
        assert(old(w)@ + tabs_spec(0) =~= old(w)@);
    }
    while i < num
        invariant
            0 <= i <= num,
            w@ == old(w)@ + tabs_spec(i as nat),
        decreases num - i,
    {
        w.append("    ");
        i = i + 1;
    }
}

/// An indented line of one piece.
pub open spec fn line1_spec(t: nat, a: Seq<char>) -> Seq<char> {
    tabs_spec(t) + a + "\n"@
}

/// An indented line of two pieces.
pub open spec fn line2_spec(t: nat, a: Seq<char>, b: Seq<char>) -> Seq<char> {
    tabs_spec(t) + a + b + "\n"@
}

/// An indented line of three pieces.
pub open spec fn line3_spec(t: nat, a: Seq<char>, b: Seq<char>, c: Seq<char>) -> Seq<char> {
    tabs_spec(t) + a + b + c + "\n"@
}

/// An indented line of four pieces.
pub open spec fn line4_spec(t: nat, a: Seq<char>, b: Seq<char>, c: Seq<char>, d: Seq<char>) -> Seq<
    char,
> {
    tabs_spec(t) + a + b + c + d + "\n"@
}

/// An indented line of five pieces.
pub open spec fn line5_spec(
    t: nat,
    a: Seq<char>,
    b: Seq<char>,
    c: Seq<char>,
    d: Seq<char>,
    e: Seq<char>,
) -> Seq<char> {
    tabs_spec(t) + a + b + c + d + e + "\n"@
}

/// An indented line of six pieces.
pub open spec fn line6_spec(
    t: nat,
    a: Seq<char>,
    b: Seq<char>,
    c: Seq<char>,
    d: Seq<char>,
    e: Seq<char>,
    f: Seq<char>,
) -> Seq<char> {
    tabs_spec(t) + a + b + c + d + e + f + "\n"@
}

/// An indented line of seven pieces.
pub open spec fn line7_spec(
    t: nat,
    a: Seq<char>,
    b: Seq<char>,
    c: Seq<char>,
    d: Seq<char>,
    e: Seq<char>,
    f: Seq<char>,
    g: Seq<char>,
) -> Seq<char> {
    tabs_spec(t) + a + b + c + d + e + f + g + "\n"@
}

/// An indented run of three pieces, without a line break.
pub open spec fn cat3_spec(t: nat, a: Seq<char>, b: Seq<char>, c: Seq<char>) -> Seq<char> {
    tabs_spec(t) + a + b + c
}

/// Appends an indented line of one piece.
pub fn line1(w: &mut String, t: u32, a: &str)
    ensures
        final(w)@ == old(w)@ + line1_spec(t as nat, a@),
{
    tabs_to(w, t);
    w.append(a);
    w.append("\n");
    proof {
        assert(w@ =~= old(w)@ + line1_spec(t as nat, a@));
    }
}

/// Appends an indented line of two pieces.
pub fn line2(w: &mut String, t: u32, a: &str, b: &str)
    ensures
        final(w)@ == old(w)@ + line2_spec(t as nat, a@, b@),
{
    tabs_to(w, t);
    w.append(a);
    w.append(b);
    w.append("\n");
    proof {
        assert(w@ =~= old(w)@ + line2_spec(t as nat, a@, b@));
    }
}

/// Appends an indented line of three pieces.
pub fn line3(w: &mut String, t: u32, a: &str, b: &str, c: &str)
    ensures
        final(w)@ == old(w)@ + line3_spec(t as nat, a@, b@, c@),
{
    tabs_to(w, t);
    w.append(a);
    w.append(b);
    w.append(c);
    w.append("\n");
    proof {
        assert(w@ =~= old(w)@ + line3_spec(t as nat, a@, b@, c@));
    }
}

/// Appends an indented line of four pieces.
pub fn line4(w: &mut String, t: u32, a: &str, b: &str, c: &str, d: &str)
    ensures
        final(w)@ == old(w)@ + line4_spec(t as nat, a@, b@, c@, d@),
{
    tabs_to(w, t);
    w.append(a);
    w.append(b);
    w.append(c);
    w.append(d);
    w.append("\n");
    proof {
        assert(w@ =~= old(w)@ + line4_spec(t as nat, a@, b@, c@, d@));
    }
}

/// Appends an indented line of five pieces.
pub fn line5(w: &mut String, t: u32, a: &str, b: &str, c: &str, d: &str, e: &str)
    ensures
        final(w)@ == old(w)@ + line5_spec(t as nat, a@, b@, c@, d@, e@),
{
    tabs_to(w, t);
    w.append(a);
    w.append(b);
    w.append(c);
    w.append(d);
    w.append(e);
    w.append("\n");
    proof {
        assert(w@ =~= old(w)@ + line5_spec(t as nat, a@, b@, c@, d@, e@));
    }
}

/// Appends an indented line of six pieces.
pub fn line6(w: &mut String, t: u32, a: &str, b: &str, c: &str, d: &str, e: &str, f: &str)
    ensures
        final(w)@ == old(w)@ + line6_spec(t as nat, a@, b@, c@, d@, e@, f@),
{
    tabs_to(w, t);
    w.append(a);
    w.append(b);
    w.append(c);
    w.append(d);
    w.append(e);
    w.append(f);
    w.append("\n");
    proof {
        assert(w@ =~= old(w)@ + line6_spec(t as nat, a@, b@, c@, d@, e@, f@));
    }
}

/// Appends an indented line of seven pieces.
pub fn line7(w: &mut String, t: u32, a: &str, b: &str, c: &str, d: &str, e: &str, f: &str, g: &str)
    ensures
        final(w)@ == old(w)@ + line7_spec(t as nat, a@, b@, c@, d@, e@, f@, g@),
{
    tabs_to(w, t);
    w.append(a);
    w.append(b);
    w.append(c);
    w.append(d);
    w.append(e);
    w.append(f);
    w.append(g);
    w.append("\n");
    proof {
        assert(w@ =~= old(w)@ + line7_spec(t as nat, a@, b@, c@, d@, e@, f@, g@));
    }
}

/// Appends an indented run of three pieces, without a line break.
pub fn cat3(w: &mut String, t: u32, a: &str, b: &str, c: &str)
    ensures
        final(w)@ == old(w)@ + cat3_spec(t as nat, a@, b@, c@),
{
    tabs_to(w, t);
    w.append(a);
    w.append(b);
    w.append(c);
    proof {
        assert(w@ =~= old(w)@ + cat3_spec(t as nat, a@, b@, c@));
    }
}

/// The index of the first line break at or after `i`, or the length when
/// there is none.
pub open spec fn nl_from(s: Seq<char>, i: int) -> int
    decreases s.len() - i,
{
    if i < 0 || i >= s.len() {
        s.len() as int
    } else if s[i] == '\n' {
        i
    } else {
        nl_from(s, i + 1)
    }
}

/// A text block as an indented documentation comment: every line of the
/// block — split at line breaks — behind its own comment prefix.
pub open spec fn doc_block_spec(t: nat, text: Seq<char>) -> Seq<char>
    decreases text.len(),
{
    let k = nl_from(text, 0);
    if 0 <= k < text.len() {
        line2_spec(t, "/// "@, text.subrange(0, k)) + doc_block_spec(
            t,
            text.skip(k + 1),
        )
    } else {
        line2_spec(t, "/// "@, text)
    }
}

/// Finds the first line break at or after `from`; returns the index or the
/// length.
fn find_nl(s: &str, from: usize) -> (r: usize)
    requires
        from <= s@.len(),
    ensures
        r == nl_from(s@, from as int),
        from <= r <= s@.len(),
{
    let n = s.unicode_len();
    let mut i: usize = from;
    while i < n
        invariant
            from <= i <= n,
            n == s@.len(),
            nl_from(s@, from as int) == nl_from(s@, i as int),
        decreases n - i,
    {
        let c = s.get_char(i);
        if c == '\n' {
            return i;
        }
        i = i + 1;
    }
    i
}

/// Appends a text block as an indented documentation comment, one comment
/// line per line of the block.
#[verifier::loop_isolation(false)]
pub fn doc_block(w: &mut String, t: u32, text: &str)
    ensures
        final(w)@ == old(w)@ + doc_block_spec(t as nat, text@),
    decreases text@.len(),
{
    let n = text.unicode_len();
    let k = find_nl(text, 0);
    if k == n {
        line2(w, t, "/// ", text);
    } else {
        let head = text.substring_char(0, k);
        line2(w, t, "/// ", head);
        let rest = text.substring_char(k + 1, n);
        proof {
            assert(rest@ =~= text@.skip(k + 1));
        }
        let ghost mid = old(w)@;
        doc_block(w, t, rest);
        proof {
            seq_assoc(mid, line2_spec(t as nat, "/// "@, text@.subrange(0, k as int)), doc_block_spec(t as nat, rest@));
        }
    }
}

/// The empty text is a left identity of concatenation.
pub proof fn seq_empty_left(s: Seq<char>)
    ensures
        Seq::<char>::empty() + s == s,
{
    assert(Seq::<char>::empty() + s =~= s);
}

/// The empty text is a right identity of concatenation.
pub proof fn seq_empty_right(s: Seq<char>)
    ensures
        s + Seq::<char>::empty() == s,
{
    assert(s + Seq::<char>::empty() =~= s);
}

/// Concatenation of text is associative.
pub proof fn seq_assoc(a: Seq<char>, b: Seq<char>, c: Seq<char>)
    ensures
        (a + b) + c == a + (b + c),
{
    assert((a + b) + c =~= a + (b + c));
}

} // verus!
