use vstd::prelude::*;

verus! {

use vstd::string::StrSliceExecFns;
use vstd::string::StringExecFns;

/// The view of a sequence of tokens joined with one ASCII space between
/// consecutive tokens, as the shell's run string is formed. No quoting or
/// escaping is performed.
pub open spec fn space_joined(tokens: Seq<Seq<char>>) -> Seq<char>
    decreases tokens.len(),
{
    if tokens.len() == 0 {
        Seq::<char>::empty()
    } else if tokens.len() == 1 {
        tokens[0]
    } else {
        space_joined(tokens.drop_last()) + seq![' '] + tokens.last()
    }
}

/// The argument vector handed to program execution: the raw tokens when no
/// shell wrapping is asked for, and otherwise exactly three elements: the
/// shell invoker, its run-string flag, and the space-joined tokens.
pub open spec fn assembled(tokens: Seq<Seq<char>>, shell: bool) -> Seq<Seq<char>> {
    if shell {
        seq!["sh"@, "-c"@, space_joined(tokens)]
    } else {
        tokens
    }
}

/// Whether a token is free of embedded null characters, so that the
/// operating system can take it as a null-terminated string.
pub open spec fn nul_free(token: Seq<char>) -> bool {
    forall|i: int| 0 <= i < token.len() ==> token[i] != '\0'
}

pub open spec fn all_nul_free(tokens: Seq<Seq<char>>) -> bool {
    forall|i: int| 0 <= i < tokens.len() ==> nul_free(#[trigger] tokens[i])
}

/// Law: with shell wrapping off, assembly returns the token vector exactly,
/// with no element added or changed.
pub proof fn lemma_assembled_plain(tokens: Seq<Seq<char>>)
    ensures
        assembled(tokens, false) == tokens,
{
}

/// Law: with shell wrapping on, the assembled vector has exactly three
/// elements: the shell invoker, the shell's run-string flag, and the single
/// string formed by joining the raw tokens with one space between
/// consecutive tokens.
pub proof fn lemma_assembled_shell(tokens: Seq<Seq<char>>)
    ensures
        assembled(tokens, true).len() == 3,
        assembled(tokens, true)[0] == "sh"@,
        assembled(tokens, true)[1] == "-c"@,
        assembled(tokens, true)[2] == space_joined(tokens),
{
}

/// Law: joining tokens that are free of embedded null characters yields a
/// run string that is free of them too, since only the tokens' characters
/// and spaces appear in it.
pub proof fn lemma_space_joined_nul_free(tokens: Seq<Seq<char>>)
    requires
        all_nul_free(tokens),
    ensures
        nul_free(space_joined(tokens)),
    decreases tokens.len(),
{
    if tokens.len() == 0 {
    } else if tokens.len() == 1 {
        assert(nul_free(tokens[0]));
    } else {
        assert(all_nul_free(tokens.drop_last()));
        lemma_space_joined_nul_free(tokens.drop_last());
        let a = space_joined(tokens.drop_last());
        let b = tokens.last();
        assert(nul_free(b));
        assert forall|i: int| 0 <= i < space_joined(tokens).len() implies space_joined(tokens)[i]
            != '\0' by {
            if i < a.len() {
                assert(space_joined(tokens)[i] == a[i]);
            } else if i == a.len() {
                assert(space_joined(tokens)[i] == ' ');
            } else {
                assert(space_joined(tokens)[i] == b[i - a.len() - 1]);
            }
        }
    }
}

/// Law: assembly preserves the absence of embedded null characters, so an
/// assembled vector can be handed to the operating system whenever the raw
/// tokens could be.
pub proof fn lemma_assembled_nul_free(tokens: Seq<Seq<char>>, shell: bool)
    requires
        all_nul_free(tokens),
    ensures
        all_nul_free(assembled(tokens, shell)),
{
    if shell {
        reveal_strlit("sh");
        reveal_strlit("-c");
        lemma_space_joined_nul_free(tokens);
        assert(nul_free("sh"@));
        assert(nul_free("-c"@));
        assert forall|i: int| 0 <= i < 3 implies nul_free(
            #[trigger] assembled(tokens, true)[i],
        ) by {
        }
    }
}

proof fn lemma_space_joined_step(tokens: Seq<Seq<char>>, i: int)
    requires
        0 <= i < tokens.len(),
    ensures
        i == 0 ==> space_joined(tokens.take(1)) == tokens[0],
        i > 0 ==> space_joined(tokens.take(i + 1)) == space_joined(tokens.take(i)) + seq![
            ' ',
        ] + tokens[i],
{
    let t = tokens.take(i + 1);
    if i == 0 {
        assert(space_joined(t) == t[0]);
    } else {
        assert(t.drop_last() =~= tokens.take(i));
        assert(t.last() == tokens[i]);
    }
}

/// Assembles the argument vector actually passed to program execution from
/// the raw command tokens and the shell flag.
pub fn assemble_command(cmd: &Vec<String>, shell: bool) -> (r: Vec<String>)
    ensures
        r.deep_view() == assembled(cmd.deep_view(), shell),
{
    if shell {
        let mut joined = String::new();
        let mut i: usize = 0;
        while i < cmd.len()
            invariant
                i <= cmd.len(),
                joined@ == space_joined(cmd.deep_view().take(i as int)),
            decreases cmd.len() - i,
        {
            let ghost before = joined@;
            proof {
                lemma_space_joined_step(cmd.deep_view(), i as int);
                reveal_strlit(" ");
                assert(" "@ =~= seq![' ']);
                assert(cmd.deep_view()[i as int] == cmd@[i as int]@);
            }
            if i > 0 {
                joined.append(" ");
            }
            joined.append(cmd[i].as_str());
            proof {
                if i == 0 {
                    assert(before =~= Seq::<char>::empty());
                    assert(joined@ =~= cmd@[0]@);
                } else {
                    assert(joined@ == space_joined(cmd.deep_view().take(i as int)) + seq![' ']
                        + cmd.deep_view()[i as int]);
                }
            }
            i = i + 1;
        }
        proof {
            assert(cmd.deep_view().take(cmd@.len() as int) =~= cmd.deep_view());
        }
        let mut out: Vec<String> = Vec::new();
        out.push(String::from_str("sh"));
        out.push(String::from_str("-c"));
        out.push(joined);
        proof {
            assert(out.deep_view() =~= assembled(cmd.deep_view(), true));
        }
        out
    } else {
        let mut out: Vec<String> = Vec::new();
        let mut i: usize = 0;
        while i < cmd.len()
            invariant
                i <= cmd.len(),
                out@.len() == i,
                out.deep_view() == cmd.deep_view().take(i as int),
            decreases cmd.len() - i,
        {
            let ghost before = out@;
            let ghost before_dv = out.deep_view();
            out.push(cmd[i].clone());
            proof {
                assert(out@ == before.push(cmd@[i as int]));
                assert forall|k: int| 0 <= k < out@.len() implies out.deep_view()[k]
                    == cmd.deep_view().take(i as int + 1)[k] by {
                    assert(out.deep_view()[k] == out@[k].deep_view());
                    if k < i as int {
                        assert(out@[k] == before[k]);
                        assert(before_dv[k] == before[k].deep_view());
                        assert(before_dv[k] == cmd.deep_view().take(i as int)[k]);
                        assert(cmd.deep_view().take(i as int)[k] == cmd.deep_view()[k]);
                        assert(cmd.deep_view().take(i as int + 1)[k] == cmd.deep_view()[k]);
                    } else {
                        assert(out@[k] == cmd@[i as int]);
                        assert(cmd.deep_view().take(i as int + 1)[k] == cmd.deep_view()[k]);
                        assert(cmd.deep_view()[i as int] == cmd@[i as int].deep_view());
                    }
                }
                assert(out.deep_view() =~= cmd.deep_view().take(i as int + 1));
            }
            i = i + 1;
        }
        proof {
            assert(cmd.deep_view().take(cmd@.len() as int) =~= cmd.deep_view());
        }
        out
    }
}

/// Reports whether any token holds an embedded null byte: such a command
/// cannot be handed to the operating system and must be refused before any
/// process is created.
pub fn has_nul_token(cmd: &Vec<String>) -> (r: bool)
    ensures
        r == !all_nul_free(cmd.deep_view()),
{
    let mut i: usize = 0;
    while i < cmd.len()
        invariant
            i <= cmd.len(),
            forall|k: int| 0 <= k < i ==> nul_free(#[trigger] cmd.deep_view()[k]),
        decreases cmd.len() - i,
    {
        let token = &cmd[i];
        let n = token.as_str().unicode_len();
        let mut j: usize = 0;
        while j < n
            invariant
                i < cmd.len(),
                n == token@.len(),
                token@ == cmd.deep_view()[i as int],
                j <= n,
                forall|k: int| 0 <= k < j ==> token@[k] != '\0',
            decreases n - j,
        {
            if token.as_str().get_char(j) == '\0' {
                proof {
                    assert(!nul_free(cmd.deep_view()[i as int]));
                }
                return true;
            }
            j = j + 1;
        }
        i = i + 1;
    }
    false
}

} // verus!
