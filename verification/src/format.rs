//! The indentation-aware pretty-printer.
//!
//! Every output line starts with one indent unit (four spaces) per currently
//! open group. A multi-line value representation is rendered as a block: the
//! first line stays attached to its prefix, and every following line is
//! re-indented to the current depth. Rendering never appends a trailing
//! newline of its own — the sink terminates lines — so a block never
//! produces a blank line beyond what its input already contained.

use vstd::prelude::*;

verus! {

/// The indentation in effect at nesting depth `depth`: one four-space
/// indent unit per open group.
pub open spec fn indent_seq(depth: nat) -> Seq<char> {
    Seq::new(4 * depth, |i: int| ' ')
}

/// A block representation re-indented to `depth`: every character is kept,
/// and every newline has the indentation inserted right after it, so that
/// each line after the first starts with the indentation. The first line is
/// untouched, and no trailing newline is added.
pub open spec fn reindent(s: Seq<char>, depth: nat) -> Seq<char>
    decreases s.len(),
{
    if s.len() == 0 {
        Seq::empty()
    } else if s[0] == '\n' {
        seq!['\n'] + indent_seq(depth) + reindent(s.drop_first(), depth)
    } else {
        seq![s[0]] + reindent(s.drop_first(), depth)
    }
}

/// The line that opens a group: `label {`, indented to the depth in effect
/// before the group is opened.
pub open spec fn group_open_line(label: Seq<char>, depth: nat) -> Seq<char> {
    indent_seq(depth) + label + " {"@
}

/// The line that closes a group: `}`, indented to the depth in effect after
/// the group is closed, so that the braces align one level shallower than
/// the content they bracket.
pub open spec fn group_close_line(depth: nat) -> Seq<char> {
    indent_seq(depth) + "}"@
}

/// A free-form message line: the `[location] ` prefix followed by the
/// message, re-indented as a block.
pub open spec fn message_line(location: Seq<char>, text: Seq<char>, depth: nat) -> Seq<char> {
    indent_seq(depth) + "["@ + location + "] "@ + reindent(text, depth)
}

/// A value-dump line: the `[location] name = ` prefix followed by the
/// value's representation, re-indented as a block.
pub open spec fn value_line(
    location: Seq<char>,
    name: Seq<char>,
    repr: Seq<char>,
    depth: nat,
) -> Seq<char> {
    indent_seq(depth) + "["@ + location + "] "@ + name + " = "@ + reindent(repr, depth)
}

/// The indentation string for nesting depth `depth`.
pub fn indent_string(depth: usize) -> (r: String)
    ensures
        r@ == indent_seq(depth as nat),
{
    let mut r = String::new();
    let mut k: usize = 0;
    proof {
        assert(r@ =~= indent_seq(0));
    }
    while k < depth
        invariant
            k <= depth,
            r@ == indent_seq(k as nat),
        decreases depth - k,
    {
        r.append("    ");
        proof {
            reveal_strlit("    ");
            assert(r@ =~= indent_seq((k + 1) as nat));
        }
        k += 1;
    }
    r
}

/// Append the single character `s[i]` to `out`.
fn push_char_at(out: &mut String, s: &str, i: usize)
    requires
        i < s@.len(),
    ensures
        final(out)@ == old(out)@.push(s@[i as int]),
{
    let n = s.unicode_len();
    proof {
        assert(i + 1 <= n);
    }
    let piece = s.substring_char(i, i + 1);
    out.append(piece);
    proof {
        assert(out@ =~= old(out)@.push(s@[i as int]));
    }
}

/// Re-indenting a single character: a newline gains the indentation right
/// after it; any other character is kept alone.
proof fn lemma_reindent_single(c: char, depth: nat)
    ensures
        c == '\n' ==> reindent(seq![c], depth) == seq!['\n'] + indent_seq(depth),
        c != '\n' ==> reindent(seq![c], depth) == seq![c],
{
    let s = seq![c];
    assert(s.drop_first() =~= Seq::<char>::empty());
    assert(reindent(Seq::<char>::empty(), depth) =~= Seq::<char>::empty());
    if c == '\n' {
        assert(reindent(s, depth) =~= seq!['\n'] + indent_seq(depth));
    } else {
        assert(reindent(s, depth) =~= seq![c]);
    }
}

/// Re-indentation processes each character independently, so it distributes
/// over concatenation.
proof fn lemma_reindent_concat(a: Seq<char>, b: Seq<char>, depth: nat)
    ensures
        reindent(a + b, depth) == reindent(a, depth) + reindent(b, depth),
    decreases a.len(),
{
    if a.len() == 0 {
        assert(a + b =~= b);
        assert(reindent(a, depth) =~= Seq::<char>::empty());
        assert(reindent(a, depth) + reindent(b, depth) =~= reindent(b, depth));
    } else {
        assert((a + b).len() > 0);
        assert((a + b)[0] == a[0]);
        assert((a + b).drop_first() =~= a.drop_first() + b);
        lemma_reindent_concat(a.drop_first(), b, depth);
        if a[0] == '\n' {
            assert(reindent(a + b, depth) =~= reindent(a, depth) + reindent(b, depth));
        } else {
            assert(reindent(a + b, depth) =~= reindent(a, depth) + reindent(b, depth));
        }
    }
}

/// A sequence of lines joined by single newlines, with no terminator after
/// the last line.
pub open spec fn unlines(ls: Seq<Seq<char>>) -> Seq<char>
    decreases ls.len(),
{
    if ls.len() == 0 {
        Seq::empty()
    } else if ls.len() == 1 {
        ls[0]
    } else {
        ls[0] + seq!['\n'] + unlines(ls.drop_first())
    }
}

/// The lines of a block after re-indentation to `depth`: the first line is
/// kept, every following line gains exactly the depth's indentation.
pub open spec fn indent_lines(ls: Seq<Seq<char>>, depth: nat) -> Seq<Seq<char>> {
    Seq::new(ls.len(), |i: int| if i == 0 { ls[0] } else { indent_seq(depth) + ls[i] })
}

/// Law: re-indenting a single-line value changes nothing — no indentation
/// is introduced beyond whatever prefix the line is attached to.
pub proof fn lemma_reindent_single_line(s: Seq<char>, depth: nat)
    requires
        !s.contains('\n'),
    ensures
        reindent(s, depth) == s,
    decreases s.len(),
{
    if s.len() == 0 {
        assert(reindent(s, depth) =~= s);
    } else {
        assert(s[0] != '\n') by {
            if s[0] == '\n' {
                assert(s.contains('\n'));
            }
        }
        assert(!s.drop_first().contains('\n')) by {
            if s.drop_first().contains('\n') {
                let j = choose|j: int|
                    0 <= j < s.drop_first().len() && s.drop_first()[j] == '\n';
                assert(s[j + 1] == '\n');
                assert(s.contains('\n'));
            }
        }
        lemma_reindent_single_line(s.drop_first(), depth);
        assert(reindent(s, depth) =~= s);
    }
}

/// Prefixing the first line of a joined block prefixes the whole block.
proof fn lemma_unlines_prefix_first(ms: Seq<Seq<char>>, pre: Seq<char>)
    requires
        ms.len() > 0,
    ensures
        unlines(ms.update(0, pre + ms[0])) == pre + unlines(ms),
{
    let upd = ms.update(0, pre + ms[0]);
    if ms.len() == 1 {
        assert(unlines(upd) =~= pre + unlines(ms));
    } else {
        assert(upd.drop_first() =~= ms.drop_first());
        assert(unlines(upd) =~= pre + unlines(ms));
    }
}

/// Law: rendering an N-line value keeps exactly N lines; line 1 stays as it
/// was (attached to whatever prefix precedes the block), and each of lines
/// 2..N is indented by exactly the current depth's indentation.
pub proof fn lemma_reindent_lines(ls: Seq<Seq<char>>, depth: nat)
    requires
        ls.len() > 0,
        forall|i: int| 0 <= i < ls.len() ==> !(#[trigger] ls[i]).contains('\n'),
    ensures
        indent_lines(ls, depth).len() == ls.len(),
        reindent(unlines(ls), depth) == unlines(indent_lines(ls, depth)),
    decreases ls.len(),
{
    if ls.len() == 1 {
        lemma_reindent_single_line(ls[0], depth);
        assert(indent_lines(ls, depth) =~= ls);
    } else {
        let tail = ls.drop_first();
        assert(forall|i: int| 0 <= i < tail.len() ==> !(#[trigger] tail[i]).contains('\n')) by {
            assert(forall|i: int| 0 <= i < tail.len() ==> #[trigger] tail[i] == ls[i + 1]);
        }
        lemma_reindent_lines(tail, depth);
        // Split the joined block in front of its first newline and distribute.
        assert(unlines(ls) == ls[0] + seq!['\n'] + unlines(tail));
        lemma_reindent_concat(ls[0] + seq!['\n'], unlines(tail), depth);
        lemma_reindent_concat(ls[0], seq!['\n'], depth);
        lemma_reindent_single_line(ls[0], depth);
        lemma_reindent_single('\n', depth);
        // The tail of the target block is the re-indented tail with its own
        // first line also prefixed by the indentation.
        let itail = indent_lines(tail, depth);
        lemma_unlines_prefix_first(itail, indent_seq(depth));
        assert(indent_lines(ls, depth).drop_first() =~= itail.update(0, indent_seq(depth) + itail[0]));
        assert(reindent(unlines(ls), depth) =~= unlines(indent_lines(ls, depth)));
    }
}

/// Render a (possibly multi-line) representation as a block at depth
/// `depth`: the first line is left untouched and every following line is
/// re-indented. The number of lines is preserved and no trailing newline is
/// added.
pub fn render_block(s: &str, depth: usize) -> (r: String)
    ensures
        r@ == reindent(s@, depth as nat),
{
    let n = s.unicode_len();
    let indent = indent_string(depth);
    let mut r = String::new();
    let mut i: usize = 0;
    proof {
        assert(s@.subrange(0, 0) =~= Seq::<char>::empty());
        assert(r@ =~= reindent(s@.subrange(0, 0), depth as nat));
    }
    while i < n
        invariant
            n == s@.len(),
            i <= n,
            indent@ == indent_seq(depth as nat),
            r@ == reindent(s@.subrange(0, i as int), depth as nat),
        decreases n - i,
    {
        let c = s.get_char(i);
        if c == '\n' {
            r.append("\n");
            r.append(indent.as_str());
            proof {
                reveal_strlit("\n");
                assert("\n"@ =~= seq!['\n']);
            }
        } else {
            push_char_at(&mut r, s, i);
        }
        proof {
            let prefix = s@.subrange(0, i as int);
            lemma_reindent_single(s@[i as int], depth as nat);
            lemma_reindent_concat(prefix, seq![s@[i as int]], depth as nat);
            assert(s@.subrange(0, i as int + 1) =~= prefix + seq![s@[i as int]]);
            assert(r@ =~= reindent(s@.subrange(0, i + 1), depth as nat));
        }
        i += 1;
    }
    proof {
        assert(s@.subrange(0, n as int) =~= s@);
    }
    r
}

/// The line that opens a group with label `label` at depth `depth`.
pub fn group_open_text(label: &str, depth: usize) -> (r: String)
    ensures
        r@ == group_open_line(label@, depth as nat),
{
    let mut r = indent_string(depth);
    r.append(label);
    r.append(" {");
    r
}

/// The line that closes a group, at the depth left after closing it.
pub fn group_close_text(depth: usize) -> (r: String)
    ensures
        r@ == group_close_line(depth as nat),
{
    let mut r = indent_string(depth);
    r.append("}");
    r
}

/// A free-form message line for the call site tagged `location`.
pub fn message_text(location: &str, text: &str, depth: usize) -> (r: String)
    ensures
        r@ == message_line(location@, text@, depth as nat),
{
    let mut r = indent_string(depth);
    r.append("[");
    r.append(location);
    r.append("] ");
    let block = render_block(text, depth);
    r.append(block.as_str());
    r
}

/// A value-dump line for the call site tagged `location`: the expression
/// text `name`, then ` = `, then the value's representation as a block.
pub fn value_text(location: &str, name: &str, repr: &str, depth: usize) -> (r: String)
    ensures
        r@ == value_line(location@, name@, repr@, depth as nat),
{
    let mut r = indent_string(depth);
    r.append("[");
    r.append(location);
    r.append("] ");
    r.append(name);
    r.append(" = ");
    let block = render_block(repr, depth);
    r.append(block.as_str());
    r
}

} // verus!
