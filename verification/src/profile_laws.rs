//! Laws of profile editing: what a profile says after the init line is
//! written or removed, and how writing and removing compose.

use vstd::prelude::*;

use crate::shell::{
    config_path_of, drop_init_lines, first_init_line, init_command_spec, is_init_line,
    profile_status_spec, profile_with_init, profile_without_init, shell_omp_name_spec,
    tagged_init_line, Shell, OMP_MARKER,
};
use crate::text::{
    join_nl, lemma_nl_pos_bounds, lemma_nl_pos_prefix, lines_spec, nl_pos, occurs_at,
    seq_contains, seq_ends_with, strip_cr,
};

verus! {

/// `s` holds no newline.
pub open spec fn no_nl(s: Seq<char>) -> bool {
    forall|i: int| 0 <= i < s.len() ==> s[i] != '\n'
}

/// Every line of `ls` ends otherwise than with `'\r'`.
pub open spec fn no_trailing_cr(ls: Seq<Seq<char>>) -> bool {
    forall|i: int| 0 <= i < ls.len() ==> strip_cr(#[trigger] ls[i]) == ls[i]
}

pub open spec fn strip_all(ls: Seq<Seq<char>>) -> Seq<Seq<char>> {
    ls.map_values(|l: Seq<char>| strip_cr(l))
}

pub open spec fn all_no_nl(ls: Seq<Seq<char>>) -> bool {
    forall|i: int| 0 <= i < ls.len() ==> no_nl(#[trigger] ls[i])
}

proof fn lemma_no_nl_concat(a: Seq<char>, b: Seq<char>)
    requires
        no_nl(a),
        no_nl(b),
    ensures
        no_nl(a + b),
{
    assert forall|i: int| 0 <= i < (a + b).len() implies (a + b)[i] != '\n' by {
        if i < a.len() {
            assert((a + b)[i] == a[i]);
        } else {
            assert((a + b)[i] == b[i - a.len()]);
        }
    }
}

/// The lines of any string hold no newline.
proof fn lemma_lines_no_nl(s: Seq<char>)
    ensures
        all_no_nl(lines_spec(s)),
    decreases s.len(),
{
    if s.len() > 0 {
        lemma_nl_pos_bounds(s);
        let p = nl_pos(s);
        if p < s.len() {
            lemma_lines_no_nl(s.skip(p + 1));
            let first = strip_cr(s.take(p));
            assert(no_nl(first));
            let ls = lines_spec(s);
            assert(ls == seq![first] + lines_spec(s.skip(p + 1)));
            assert forall|i: int| 0 <= i < ls.len() implies no_nl(#[trigger] ls[i]) by {
                if i > 0 {
                    assert(ls[i] == lines_spec(s.skip(p + 1))[i - 1]);
                }
            }
        } else {
            assert(no_nl(s));
            assert(lines_spec(s) == seq![s]);
        }
    }
}

/// `join_nl` seen from the front.
proof fn lemma_join_front(ls: Seq<Seq<char>>)
    requires
        ls.len() >= 2,
    ensures
        join_nl(ls) == ls[0] + seq!['\n'] + join_nl(ls.drop_first()),
    decreases ls.len(),
{
    if ls.len() == 2 {
        assert(ls.drop_last() =~= seq![ls[0]]);
        assert(ls.drop_first() =~= seq![ls[1]]);
        assert(join_nl(ls.drop_last()) == ls[0]);
        assert(join_nl(ls.drop_first()) == ls[1]);
    } else {
        lemma_join_front(ls.drop_last());
        assert(ls.drop_last().drop_first() =~= ls.drop_first().drop_last());
        assert(ls.drop_first().last() == ls.last());
        assert(ls.drop_last()[0] == ls[0]);
        assert(join_nl(ls.drop_first()) == join_nl(ls.drop_first().drop_last()) + seq!['\n']
            + ls.drop_first().last());
        assert(join_nl(ls) =~= ls[0] + seq!['\n'] + join_nl(ls.drop_first()));
    }
}

/// Splitting `a\n rest` gives `a`'s line, then the lines of `rest`.
proof fn lemma_lines_cons(a: Seq<char>, rest: Seq<char>)
    requires
        no_nl(a),
    ensures
        lines_spec(a + seq!['\n'] + rest) == seq![strip_cr(a)] + lines_spec(rest),
{
    let w = a + seq!['\n'] + rest;
    assert(w =~= a + (seq!['\n'] + rest));
    lemma_nl_pos_prefix(a, seq!['\n'] + rest);
    assert(nl_pos(seq!['\n'] + rest) == 0);
    assert(w.take(a.len() as int) =~= a);
    assert(w.skip(a.len() as int + 1) =~= rest);
}

/// Joining lines with newlines, ending with one more newline, and splitting
/// again gives the lines back, each without one trailing `'\r'`.
pub proof fn lemma_lines_of_join(ls: Seq<Seq<char>>)
    requires
        ls.len() >= 1,
        all_no_nl(ls),
    ensures
        lines_spec(join_nl(ls) + seq!['\n']) == strip_all(ls),
    decreases ls.len(),
{
    if ls.len() == 1 {
        assert(join_nl(ls) == ls[0]);
        lemma_lines_cons(ls[0], Seq::empty());
        assert(ls[0] + seq!['\n'] + Seq::<char>::empty() =~= ls[0] + seq!['\n']);
        assert(lines_spec(Seq::<char>::empty()) == Seq::<Seq<char>>::empty());
        assert(strip_all(ls) =~= seq![strip_cr(ls[0])]);
    } else {
        lemma_join_front(ls);
        let tail = ls.drop_first();
        assert forall|i: int| 0 <= i < tail.len() implies no_nl(#[trigger] tail[i]) by {
            assert(tail[i] == ls[i + 1]);
        }
        lemma_lines_of_join(tail);
        assert(ls[0] == ls[0]);
        assert(no_nl(ls[0]));
        assert(join_nl(ls) + seq!['\n'] =~= ls[0] + seq!['\n'] + (join_nl(tail) + seq!['\n']));
        lemma_lines_cons(ls[0], join_nl(tail) + seq!['\n']);
        assert(strip_all(ls) =~= seq![strip_cr(ls[0])] + strip_all(tail));
    }
}

/// Removing one trailing `'\r'` keeps every occurrence of a pattern that
/// does not end with `'\r'`.
proof fn lemma_contains_strip_cr(l: Seq<char>, p: Seq<char>)
    requires
        p.len() > 0,
        p.last() != '\r',
    ensures
        seq_contains(strip_cr(l), p) == seq_contains(l, p),
{
    if l.len() > 0 && l.last() == '\r' {
        let d = l.drop_last();
        if seq_contains(l, p) {
            let i = choose|i: int| occurs_at(l, p, i);
            if i + p.len() == l.len() {
                assert(l.subrange(i, i + p.len())[p.len() - 1] == l.last());
                assert(false);
            }
            assert(d.subrange(i, i + p.len()) =~= l.subrange(i, i + p.len()));
            assert(occurs_at(d, p, i));
        }
        if seq_contains(d, p) {
            let i = choose|i: int| occurs_at(d, p, i);
            assert(d.subrange(i, i + p.len()) =~= l.subrange(i, i + p.len()));
            assert(occurs_at(l, p, i));
        }
    }
}

proof fn lemma_init_line_strip_cr(l: Seq<char>)
    ensures
        is_init_line(strip_cr(l)) == is_init_line(l),
{
    reveal_strlit("oh-my-posh");
    reveal_strlit("init");
    lemma_contains_strip_cr(l, "oh-my-posh"@);
    lemma_contains_strip_cr(l, "init"@);
}

proof fn lemma_drop_strip(ls: Seq<Seq<char>>)
    ensures
        drop_init_lines(strip_all(ls)) == strip_all(drop_init_lines(ls)),
    decreases ls.len(),
{
    if ls.len() > 0 {
        lemma_drop_strip(ls.drop_last());
        assert(strip_all(ls).drop_last() =~= strip_all(ls.drop_last()));
        assert(strip_all(ls).last() == strip_cr(ls.last()));
        lemma_init_line_strip_cr(ls.last());
        if !is_init_line(ls.last()) {
            assert(strip_all(drop_init_lines(ls.drop_last()).push(ls.last())) =~= strip_all(
                drop_init_lines(ls.drop_last()),
            ).push(strip_cr(ls.last())));
        }
    } else {
        assert(strip_all(ls) =~= ls);
    }
}

pub open spec fn none_init(ls: Seq<Seq<char>>) -> bool {
    forall|i: int| 0 <= i < ls.len() ==> !is_init_line(#[trigger] ls[i])
}

proof fn lemma_drop_none_init(ls: Seq<Seq<char>>)
    ensures
        none_init(drop_init_lines(ls)),
        all_no_nl(ls) ==> all_no_nl(drop_init_lines(ls)),
        none_init(ls) ==> drop_init_lines(ls) == ls,
    decreases ls.len(),
{
    if ls.len() > 0 {
        lemma_drop_none_init(ls.drop_last());
        let r = drop_init_lines(ls.drop_last());
        if all_no_nl(ls) {
            assert forall|i: int| 0 <= i < ls.drop_last().len() implies no_nl(
                #[trigger] ls.drop_last()[i],
            ) by {
                assert(ls.drop_last()[i] == ls[i]);
            }
        }
        if none_init(ls) {
            assert forall|i: int| 0 <= i < ls.drop_last().len() implies !is_init_line(
                #[trigger] ls.drop_last()[i],
            ) by {
                assert(ls.drop_last()[i] == ls[i]);
            }
            assert(!is_init_line(ls[ls.len() - 1]));
            assert(r.push(ls.last()) =~= ls);
        }
        if !is_init_line(ls.last()) {
            assert forall|i: int| 0 <= i < r.push(ls.last()).len() implies !is_init_line(
                #[trigger] r.push(ls.last())[i],
            ) by {
                if i < r.len() {
                    assert(r.push(ls.last())[i] == r[i]);
                }
            }
            if all_no_nl(ls) {
                assert(no_nl(ls[ls.len() - 1]));
                assert forall|i: int| 0 <= i < r.push(ls.last()).len() implies no_nl(
                    #[trigger] r.push(ls.last())[i],
                ) by {
                    if i < r.len() {
                        assert(r.push(ls.last())[i] == r[i]);
                    }
                }
            }
        }
    }
}

proof fn lemma_first_init_none(ls: Seq<Seq<char>>)
    requires
        none_init(ls),
    ensures
        first_init_line(ls) is None,
    decreases ls.len(),
{
    if ls.len() > 0 {
        assert(!is_init_line(ls[0]));
        assert forall|i: int| 0 <= i < ls.drop_first().len() implies !is_init_line(
            #[trigger] ls.drop_first()[i],
        ) by {
            assert(ls.drop_first()[i] == ls[i + 1]);
        }
        lemma_first_init_none(ls.drop_first());
    }
}

proof fn lemma_first_init_last(ls: Seq<Seq<char>>, x: Seq<char>)
    requires
        none_init(ls),
        is_init_line(x),
    ensures
        first_init_line(ls.push(x)) == Some(x),
    decreases ls.len(),
{
    if ls.len() == 0 {
        assert(ls.push(x)[0] == x);
    } else {
        assert(!is_init_line(ls[0]));
        assert(ls.push(x)[0] == ls[0]);
        assert(ls.push(x).drop_first() =~= ls.drop_first().push(x));
        assert forall|i: int| 0 <= i < ls.drop_first().len() implies !is_init_line(
            #[trigger] ls.drop_first()[i],
        ) by {
            assert(ls.drop_first()[i] == ls[i + 1]);
        }
        lemma_first_init_last(ls.drop_first(), x);
    }
}

proof fn lemma_occurs_extend(a: Seq<char>, b: Seq<char>, p: Seq<char>, i: int)
    requires
        occurs_at(a, p, i),
    ensures
        occurs_at(a + b, p, i),
{
    assert((a + b).subrange(i, i + p.len()) =~= a.subrange(i, i + p.len()));
}

/// The init command starts with a literal that names `oh-my-posh init`.
proof fn lemma_init_command_shape(shell: Shell, t: Option<Seq<char>>)
    requires
        t matches Some(p) ==> no_nl(p),
    ensures
        no_nl(init_command_spec(shell, t)),
        seq_contains(init_command_spec(shell, t), "oh-my-posh"@),
        seq_contains(init_command_spec(shell, t), "init"@),
{
    reveal_strlit("oh-my-posh");
    reveal_strlit("init");
    reveal_strlit(" --config '");
    reveal_strlit("'");
    reveal_strlit("oh-my-posh init pwsh");
    reveal_strlit(" | Invoke-Expression");
    reveal_strlit("eval \"$(oh-my-posh init bash");
    reveal_strlit("eval \"$(oh-my-posh init zsh");
    reveal_strlit(")\"");
    reveal_strlit("oh-my-posh init fish");
    reveal_strlit(" | source");
    reveal_strlit("oh-my-posh init nu");
    reveal_strlit("load(io.popen('oh-my-posh init cmd");
    reveal_strlit("'):read(\"*a\"))()");
    reveal_strlit("eval (oh-my-posh init elvish");
    reveal_strlit(")");
    let f = crate::shell::config_flag_spec(t);
    assert(no_nl(f)) by {
        match t {
            Some(p) => {
                assert(no_nl(" --config '"@));
                assert(no_nl("'"@));
                lemma_no_nl_concat(" --config '"@, p);
                lemma_no_nl_concat(" --config '"@ + p, "'"@);
            },
            None => {},
        }
    }
    let (head, off, tail): (Seq<char>, int, Seq<char>) = match shell {
        Shell::Pwsh | Shell::WindowsPowerShell => (
            "oh-my-posh init pwsh"@,
            0,
            " | Invoke-Expression"@,
        ),
        Shell::Bash => ("eval \"$(oh-my-posh init bash"@, 8, ")\""@),
        Shell::Zsh => ("eval \"$(oh-my-posh init zsh"@, 8, ")\""@),
        Shell::Fish => ("oh-my-posh init fish"@, 0, " | source"@),
        Shell::Nushell => ("oh-my-posh init nu"@, 0, Seq::empty()),
        Shell::Cmd => ("load(io.popen('oh-my-posh init cmd"@, 15, "'):read(\"*a\"))()"@),
        Shell::Elvish => ("eval (oh-my-posh init elvish"@, 6, ")"@),
    };
    assert(init_command_spec(shell, t) =~= head + f + tail);
    assert(no_nl(head));
    assert(no_nl(tail));
    lemma_no_nl_concat(head, f);
    lemma_no_nl_concat(head + f, tail);
    assert(head.subrange(off, off + 10) =~= "oh-my-posh"@);
    assert(occurs_at(head, "oh-my-posh"@, off));
    assert(head.subrange(off + 11, off + 15) =~= "init"@);
    assert(occurs_at(head, "init"@, off + 11));
    lemma_occurs_extend(head, f, "oh-my-posh"@, off);
    lemma_occurs_extend(head + f, tail, "oh-my-posh"@, off);
    lemma_occurs_extend(head, f, "init"@, off + 11);
    lemma_occurs_extend(head + f, tail, "init"@, off + 11);
}

/// The tagged line holds no newline, loads Oh My Posh and ends with `]`.
proof fn lemma_tagged_shape(shell: Shell, t: Option<Seq<char>>)
    requires
        t matches Some(p) ==> no_nl(p),
    ensures
        no_nl(tagged_init_line(shell, t)),
        is_init_line(tagged_init_line(shell, t)),
        strip_cr(tagged_init_line(shell, t)) == tagged_init_line(shell, t),
{
    reveal_strlit("  ");
    reveal_strlit("# [omp-manager]");
    let c = init_command_spec(shell, t);
    lemma_init_command_shape(shell, t);
    let tg = tagged_init_line(shell, t);
    assert(no_nl("  "@));
    assert(no_nl(OMP_MARKER@));
    lemma_no_nl_concat(c, "  "@);
    lemma_no_nl_concat(c + "  "@, OMP_MARKER@);
    let i = choose|i: int| occurs_at(c, "oh-my-posh"@, i);
    let j = choose|j: int| occurs_at(c, "init"@, j);
    lemma_occurs_extend(c, "  "@, "oh-my-posh"@, i);
    lemma_occurs_extend(c + "  "@, OMP_MARKER@, "oh-my-posh"@, i);
    lemma_occurs_extend(c, "  "@, "init"@, j);
    lemma_occurs_extend(c + "  "@, OMP_MARKER@, "init"@, j);
    assert(tg.last() == ']');
}


// ── Where `--config` can occur ───────────────────────────────────────────────

/// `s` has no two dashes in a row.
pub open spec fn no_double_dash(s: Seq<char>) -> bool
    decreases s.len(),
{
    s.len() < 2 || (!(s[0] == '-' && s[1] == '-') && no_double_dash(s.drop_first()))
}

proof fn lemma_no_double_dash_at(s: Seq<char>, i: int)
    requires
        no_double_dash(s),
        0 <= i,
        i + 1 < s.len(),
    ensures
        !(s[i] == '-' && s[i + 1] == '-'),
    decreases i,
{
    if i > 0 {
        lemma_no_double_dash_at(s.drop_first(), i - 1);
    }
}

/// A text without two dashes in a row does not hold `--config`.
pub(crate) proof fn lemma_no_config_flag(s: Seq<char>)
    requires
        no_double_dash(s),
    ensures
        !seq_contains(s, "--config"@),
{
    reveal_strlit("--config");
    if seq_contains(s, "--config"@) {
        let i = choose|i: int| occurs_at(s, "--config"@, i);
        assert(s.subrange(i, i + 8)[0] == s[i]);
        assert(s.subrange(i, i + 8)[1] == s[i + 1]);
        lemma_no_double_dash_at(s, i);
    }
}

proof fn lemma_no_double_dash_concat(a: Seq<char>, b: Seq<char>)
    requires
        no_double_dash(a),
        no_double_dash(b),
        !(a.len() > 0 && b.len() > 0 && a.last() == '-' && b[0] == '-'),
    ensures
        no_double_dash(a + b),
    decreases a.len(),
{
    if a.len() > 0 {
        assert((a + b).drop_first() =~= a.drop_first() + b);
        if a.len() > 1 {
            assert(a.drop_first().last() == a.last());
        }
        lemma_no_double_dash_concat(a.drop_first(), b);
        if a.len() == 1 && b.len() > 0 {
            assert((a + b)[1] == b[0]);
        } else if a.len() > 1 {
            assert((a + b)[1] == a[1]);
        }
    }
}

/// The text before the `--config` flag of shell `shell`'s init command, and
/// the text after it.
pub open spec fn init_head(shell: Shell) -> Seq<char> {
    match shell {
        Shell::Pwsh | Shell::WindowsPowerShell => "oh-my-posh init pwsh"@,
        Shell::Bash => "eval \"$(oh-my-posh init bash"@,
        Shell::Zsh => "eval \"$(oh-my-posh init zsh"@,
        Shell::Fish => "oh-my-posh init fish"@,
        Shell::Nushell => "oh-my-posh init nu"@,
        Shell::Cmd => "load(io.popen('oh-my-posh init cmd"@,
        Shell::Elvish => "eval (oh-my-posh init elvish"@,
    }
}

pub open spec fn init_tail(shell: Shell) -> Seq<char> {
    match shell {
        Shell::Pwsh | Shell::WindowsPowerShell => " | Invoke-Expression"@,
        Shell::Bash | Shell::Zsh => ")\""@,
        Shell::Fish => " | source"@,
        Shell::Nushell => Seq::empty(),
        Shell::Cmd => "'):read(\"*a\"))()"@,
        Shell::Elvish => ")"@,
    }
}

/// The literals of one shell's init command: no double dash, and a head
/// that does not end with a dash.
pub open spec fn parts_ok(h: Seq<char>, t: Seq<char>) -> bool {
    &&& no_double_dash(h)
    &&& no_double_dash(t)
    &&& h.len() > 0
    &&& h.last() != '-'
}

proof fn lemma_parts_pwsh()
    ensures
        parts_ok(init_head(Shell::Pwsh), init_tail(Shell::Pwsh)),
{
    reveal_strlit("oh-my-posh init pwsh");
    reveal_strlit(" | Invoke-Expression");
    reveal_with_fuel(no_double_dash, 24);
}

proof fn lemma_parts_bash()
    ensures
        parts_ok(init_head(Shell::Bash), init_tail(Shell::Bash)),
{
    reveal_strlit("eval \"$(oh-my-posh init bash");
    reveal_strlit(")\"");
    reveal_with_fuel(no_double_dash, 30);
}

proof fn lemma_parts_zsh()
    ensures
        parts_ok(init_head(Shell::Zsh), init_tail(Shell::Zsh)),
{
    reveal_strlit("eval \"$(oh-my-posh init zsh");
    reveal_strlit(")\"");
    reveal_with_fuel(no_double_dash, 30);
}

proof fn lemma_parts_fish()
    ensures
        parts_ok(init_head(Shell::Fish), init_tail(Shell::Fish)),
{
    reveal_strlit("oh-my-posh init fish");
    reveal_strlit(" | source");
    reveal_with_fuel(no_double_dash, 24);
}

proof fn lemma_parts_nu()
    ensures
        parts_ok(init_head(Shell::Nushell), init_tail(Shell::Nushell)),
{
    reveal_strlit("oh-my-posh init nu");
    reveal_with_fuel(no_double_dash, 24);
}

proof fn lemma_parts_cmd()
    ensures
        parts_ok(init_head(Shell::Cmd), init_tail(Shell::Cmd)),
{
    reveal_strlit("load(io.popen('oh-my-posh init cmd");
    reveal_strlit("'):read(\"*a\"))()");
    reveal_with_fuel(no_double_dash, 36);
}

proof fn lemma_parts_elvish()
    ensures
        parts_ok(init_head(Shell::Elvish), init_tail(Shell::Elvish)),
{
    reveal_strlit("eval (oh-my-posh init elvish");
    reveal_strlit(")");
    reveal_with_fuel(no_double_dash, 30);
}

proof fn lemma_marker_parts()
    ensures
        no_double_dash("  "@ + OMP_MARKER@),
        no_double_dash(" "@),
        ("  "@ + OMP_MARKER@)[0] == ' ',
{
    reveal_strlit(" ");
    reveal_strlit("  ");
    reveal_strlit("# [omp-manager]");
    reveal_with_fuel(no_double_dash, 20);
    assert(no_double_dash(OMP_MARKER@));
    assert(no_double_dash("  "@));
    lemma_no_double_dash_concat("  "@, OMP_MARKER@);
}

proof fn lemma_init_parts(shell: Shell)
    ensures
        no_double_dash(init_head(shell) + " "@),
        no_double_dash(init_tail(shell) + "  "@ + OMP_MARKER@),
        init_head(shell).len() > 0,
        init_head(shell).last() != '-',
{
    match shell {
        Shell::Pwsh | Shell::WindowsPowerShell => lemma_parts_pwsh(),
        Shell::Bash => lemma_parts_bash(),
        Shell::Zsh => lemma_parts_zsh(),
        Shell::Fish => lemma_parts_fish(),
        Shell::Nushell => lemma_parts_nu(),
        Shell::Cmd => lemma_parts_cmd(),
        Shell::Elvish => lemma_parts_elvish(),
    }
    lemma_marker_parts();
    let h = init_head(shell);
    let t = init_tail(shell);
    lemma_no_double_dash_concat(h, " "@);
    lemma_no_double_dash_concat(t, "  "@ + OMP_MARKER@);
    assert(t + "  "@ + OMP_MARKER@ =~= t + ("  "@ + OMP_MARKER@));
}

/// The written line with a theme: the head, ` --config '<path>'`, and the
/// rest; no `--config` comes before the flag.
pub(crate) proof fn lemma_tagged_with_theme(shell: Shell, p: Seq<char>)
    ensures
        tagged_init_line(shell, Some(p)) == init_head(shell) + " --config '"@ + p + "'"@ + (
        init_tail(shell) + "  "@ + OMP_MARKER@),
        !seq_contains(init_head(shell) + " "@, "--config"@),
{
    lemma_init_parts(shell);
    lemma_no_config_flag(init_head(shell) + " "@);
    let h = init_head(shell);
    let t = init_tail(shell);
    let f = " --config '"@ + p + "'"@;
    assert(init_command_spec(shell, Some(p)) =~= h + f + t);
    assert(tagged_init_line(shell, Some(p)) =~= h + " --config '"@ + p + "'"@ + (t + "  "@
        + OMP_MARKER@));
}

/// The written line without a theme holds no `--config`.
pub(crate) proof fn lemma_tagged_without_theme(shell: Shell)
    ensures
        !seq_contains(tagged_init_line(shell, None), "--config"@),
{
    lemma_init_parts(shell);
    let h = init_head(shell);
    let t = init_tail(shell);
    reveal_strlit(" ");
    assert(no_double_dash(h)) by {
        assert((h + " "@).drop_last() =~= h);
        lemma_no_double_dash_prefix(h + " "@, h.len() as int);
    }
    lemma_no_double_dash_concat(h, t + "  "@ + OMP_MARKER@);
    assert(init_command_spec(shell, None) =~= h + t);
    assert(tagged_init_line(shell, None) =~= h + (t + "  "@ + OMP_MARKER@));
    lemma_no_config_flag(h + (t + "  "@ + OMP_MARKER@));
}

proof fn lemma_no_double_dash_prefix(s: Seq<char>, k: int)
    requires
        no_double_dash(s),
        0 <= k <= s.len(),
    ensures
        no_double_dash(s.take(k)),
    decreases k,
{
    if k >= 2 {
        assert(s.take(k).drop_first() =~= s.drop_first().take(k - 1));
        lemma_no_double_dash_prefix(s.drop_first(), k - 1);
        assert(s.take(k)[0] == s[0] && s.take(k)[1] == s[1]);
    }
}

/// The text in front of the `--config` flag ends with `oh-my-posh init`,
/// a space and the shell's name for Oh My Posh.
proof fn lemma_head_names_shell(shell: Shell)
    ensures
        seq_ends_with(init_head(shell), "oh-my-posh init "@ + shell_omp_name_spec(shell)),
{
    reveal_strlit("oh-my-posh init ");
    reveal_strlit("pwsh");
    reveal_strlit("bash");
    reveal_strlit("zsh");
    reveal_strlit("fish");
    reveal_strlit("nu");
    reveal_strlit("cmd");
    reveal_strlit("elvish");
    reveal_strlit("oh-my-posh init pwsh");
    reveal_strlit("eval \"$(oh-my-posh init bash");
    reveal_strlit("eval \"$(oh-my-posh init zsh");
    reveal_strlit("oh-my-posh init fish");
    reveal_strlit("oh-my-posh init nu");
    reveal_strlit("load(io.popen('oh-my-posh init cmd");
    reveal_strlit("eval (oh-my-posh init elvish");
    let h = init_head(shell);
    let x = "oh-my-posh init "@ + shell_omp_name_spec(shell);
    assert(h.subrange(h.len() - x.len(), h.len() as int) =~= x);
}

/// The init line of every shell runs `oh-my-posh init <name>` with the
/// shell's name for Oh My Posh; with a theme it passes
/// ` --config '<path>'`, and without one it holds no `--config` at all.
/// Windows PowerShell gets the same line as PowerShell 7+.
pub proof fn law_init_command_shape(shell: Shell, theme_path: Option<Seq<char>>)
    ensures
        seq_contains(
            init_command_spec(shell, theme_path),
            "oh-my-posh init "@ + shell_omp_name_spec(shell),
        ),
        theme_path matches Some(p) ==> seq_contains(
            init_command_spec(shell, theme_path),
            " --config '"@ + p + "'"@,
        ),
        theme_path is None ==> !seq_contains(init_command_spec(shell, theme_path), "--config"@),
        init_command_spec(Shell::WindowsPowerShell, theme_path) == init_command_spec(
            Shell::Pwsh,
            theme_path,
        ),
{
    let h = init_head(shell);
    let t = init_tail(shell);
    let f = crate::shell::config_flag_spec(theme_path);
    let c = init_command_spec(shell, theme_path);
    assert(c =~= h + f + t);
    let x = "oh-my-posh init "@ + shell_omp_name_spec(shell);
    lemma_head_names_shell(shell);
    assert(occurs_at(h, x, h.len() - x.len()));
    lemma_occurs_extend(h, f, x, h.len() - x.len());
    lemma_occurs_extend(h + f, t, x, h.len() - x.len());
    match theme_path {
        Some(_) => {
            assert((h + f + t).subrange(h.len() as int, (h.len() + f.len()) as int) =~= f);
            assert(occurs_at(c, f, h.len() as int));
        },
        None => {
            lemma_tagged_without_theme(shell);
            if seq_contains(c, "--config"@) {
                let i = choose|i: int| occurs_at(c, "--config"@, i);
                lemma_occurs_extend(c, "  "@, "--config"@, i);
                lemma_occurs_extend(c + "  "@, OMP_MARKER@, "--config"@, i);
                assert(occurs_at(tagged_init_line(shell, None), "--config"@, i));
            }
        },
    }
}

/// After the init line is written, the profile loads Oh My Posh, and the
/// line it finds first is the tagged line that was written (so the theme
/// path it reports is the one read from that line).
pub proof fn law_written_profile_is_configured(
    content: Seq<char>,
    shell: Shell,
    theme_path: Option<Seq<char>>,
)
    requires
        theme_path matches Some(p) ==> no_nl(p),
    ensures
        first_init_line(lines_spec(profile_with_init(content, shell, theme_path))) == Some(
            tagged_init_line(shell, theme_path),
        ),
        profile_status_spec(profile_with_init(content, shell, theme_path)) == (
            true,
            config_path_of(tagged_init_line(shell, theme_path)),
        ),
{
    let tg = tagged_init_line(shell, theme_path);
    lemma_tagged_shape(shell, theme_path);
    lemma_lines_no_nl(content);
    let d = drop_init_lines(lines_spec(content));
    lemma_drop_none_init(lines_spec(content));
    let l = d.push(tg);
    assert forall|i: int| 0 <= i < l.len() implies no_nl(#[trigger] l[i]) by {
        if i < d.len() {
            assert(l[i] == d[i]);
        }
    }
    lemma_lines_of_join(l);
    assert(strip_all(l) =~= strip_all(d).push(strip_cr(tg)));
    lemma_drop_strip(d);
    lemma_drop_none_init(strip_all(d));
    lemma_drop_none_init(d);
    assert(drop_init_lines(strip_all(d)) == strip_all(d));
    lemma_first_init_last(strip_all(d), tg);
}

/// After the init line is removed, the profile no longer loads Oh My Posh.
pub proof fn law_removed_profile_is_unconfigured(content: Seq<char>)
    ensures
        profile_status_spec(profile_without_init(content)) == (false, Option::<Seq<char>>::None),
{
    lemma_lines_no_nl(content);
    let d = drop_init_lines(lines_spec(content));
    lemma_drop_none_init(lines_spec(content));
    if d.len() == 0 {
        assert(join_nl(d) == Seq::<char>::empty());
        assert(profile_without_init(content) =~= Seq::<char>::empty() + seq!['\n'] + Seq::<
            char,
        >::empty());
        crate::profile_laws::lemma_lines_cons(Seq::empty(), Seq::empty());
        reveal_strlit("oh-my-posh");
        let e: Seq<char> = Seq::empty();
        assert(!seq_contains(e, "oh-my-posh"@));
        assert(lines_spec(Seq::<char>::empty()) == Seq::<Seq<char>>::empty());
        assert(lines_spec(profile_without_init(content)) =~= seq![e]);
        assert(!is_init_line(e));
        assert(first_init_line(seq![e]) is None) by {
            assert(seq![e][0] == e);
            assert(seq![e].drop_first() =~= Seq::<Seq<char>>::empty());
            assert(first_init_line(Seq::<Seq<char>>::empty()) is None);
            assert(!is_init_line(seq![e][0]));
        }
    } else {
        lemma_lines_of_join(d);
        lemma_drop_strip(d);
        lemma_drop_none_init(strip_all(d));
        lemma_drop_none_init(d);
        assert(strip_all(d) == drop_init_lines(strip_all(d)));
        lemma_first_init_none(strip_all(d));
        assert(lines_spec(profile_without_init(content)) == strip_all(d));
    }
}

/// The profile lines kept when Oh My Posh lines are dropped.
pub open spec fn kept_profile_lines(content: Seq<char>) -> Seq<Seq<char>> {
    drop_init_lines(lines_spec(content))
}

/// The lines of a rewritten profile: the kept lines, then the tagged line.
proof fn lemma_lines_after_write(content: Seq<char>, shell: Shell, t: Option<Seq<char>>)
    requires
        t matches Some(p) ==> no_nl(p),
        no_trailing_cr(kept_profile_lines(content)),
    ensures
        lines_spec(profile_with_init(content, shell, t)) == kept_profile_lines(content).push(
            tagged_init_line(shell, t),
        ),
        kept_profile_lines(profile_with_init(content, shell, t)) == kept_profile_lines(content),
{
    let tg = tagged_init_line(shell, t);
    lemma_tagged_shape(shell, t);
    lemma_lines_no_nl(content);
    let d = kept_profile_lines(content);
    lemma_drop_none_init(lines_spec(content));
    let l = d.push(tg);
    assert forall|i: int| 0 <= i < l.len() implies no_nl(#[trigger] l[i]) by {
        if i < d.len() {
            assert(l[i] == d[i]);
        }
    }
    lemma_lines_of_join(l);
    assert(strip_all(l) =~= l) by {
        assert forall|i: int| 0 <= i < l.len() implies strip_all(l)[i] == l[i] by {
            if i < d.len() {
                assert(l[i] == d[i]);
            }
        }
    }
    assert(l.drop_last() =~= d);
    lemma_drop_none_init(d);
}

/// Lines of a profile after the Oh My Posh lines were removed.
proof fn lemma_lines_after_remove(content: Seq<char>)
    requires
        no_trailing_cr(kept_profile_lines(content)),
    ensures
        kept_profile_lines(content).len() > 0 ==> lines_spec(profile_without_init(content))
            == kept_profile_lines(content),
        kept_profile_lines(content).len() == 0 ==> profile_without_init(content) == seq!['\n'],
        kept_profile_lines(profile_without_init(content)) == (if kept_profile_lines(
            content,
        ).len() > 0 {
            kept_profile_lines(content)
        } else {
            seq![Seq::<char>::empty()]
        }),
{
    lemma_lines_no_nl(content);
    let d = kept_profile_lines(content);
    lemma_drop_none_init(lines_spec(content));
    if d.len() > 0 {
        lemma_lines_of_join(d);
        assert(strip_all(d) =~= d);
        lemma_drop_none_init(d);
    } else {
        assert(profile_without_init(content) =~= seq!['\n']);
        let e: Seq<char> = Seq::empty();
        lemma_lines_cons(e, e);
        assert(e + seq!['\n'] + e =~= seq!['\n']);
        assert(lines_spec(e) == Seq::<Seq<char>>::empty());
        assert(lines_spec(seq!['\n']) =~= seq![e]);
        reveal_strlit("oh-my-posh");
        assert(!seq_contains(e, "oh-my-posh"@));
        assert(none_init(seq![e]));
        lemma_drop_none_init(seq![e]);
    }
}

/// Removing the init line right after writing one gives the same profile as
/// removing it from the profile as it was.  (Kept lines that end in `'\r'` and theme
/// paths with a newline are left out: the first lose their `'\r'` on the
/// round trip, the second split the written line.)
pub proof fn law_remove_after_write(content: Seq<char>, shell: Shell, theme_path: Option<Seq<char>>)
    requires
        theme_path matches Some(p) ==> no_nl(p),
        no_trailing_cr(kept_profile_lines(content)),
    ensures
        profile_without_init(profile_with_init(content, shell, theme_path))
            == profile_without_init(content),
{
    lemma_lines_after_write(content, shell, theme_path);
}

/// Writing the init line twice is the same as writing only the second one.
pub proof fn law_write_twice(
    content: Seq<char>,
    shell1: Shell,
    theme1: Option<Seq<char>>,
    shell2: Shell,
    theme2: Option<Seq<char>>,
)
    requires
        theme1 matches Some(p) ==> no_nl(p),
        no_trailing_cr(kept_profile_lines(content)),
    ensures
        profile_with_init(profile_with_init(content, shell1, theme1), shell2, theme2)
            == profile_with_init(content, shell2, theme2),
{
    lemma_lines_after_write(content, shell1, theme1);
}

/// Removing the init line is idempotent.
pub proof fn law_remove_idempotent(content: Seq<char>)
    requires
        no_trailing_cr(kept_profile_lines(content)),
    ensures
        profile_without_init(profile_without_init(content)) == profile_without_init(content),
{
    lemma_lines_after_remove(content);
    let d = kept_profile_lines(content);
    if d.len() == 0 {
        let e: Seq<char> = Seq::empty();
        assert(join_nl(seq![e]) == e);
        assert(profile_without_init(seq!['\n']) =~= seq!['\n']);
    }
}

} // verus!
