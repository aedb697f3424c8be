use vstd::prelude::*;

verus! {

/// Why a spawn request was not carried out.
#[derive(Clone, PartialEq, Eq, Debug)]
pub enum SpawnError {
    /// The command line contains no tokens.
    EmptyCommand,
    /// The OS failed to create the process; carries the OS error message.
    Spawn(String),
}

/// An OS process creation request: an executable path and its arguments,
/// obtained by splitting a command line on ASCII whitespace. No quoting,
/// escaping or shell expansion is ever applied.
pub struct SpawnCommand {
    pub program: String,
    pub args: Vec<String>,
}

/// The ASCII whitespace characters, the only separators of a command line.
pub open spec fn is_command_space(c: char) -> bool {
    c == ' ' || c == '\t' || c == '\n' || c == '\u{c}' || c == '\r'
}

/// The length of the leading run of non-separator characters.
pub open spec fn leading_token_len(s: Seq<char>) -> int
    decreases s.len(),
{
    if s.len() == 0 || is_command_space(s[0]) {
        0
    } else {
        1 + leading_token_len(s.drop_first())
    }
}

/// The leading token never runs past the end of the command line.
pub proof fn lemma_leading_token_len_bounds(s: Seq<char>)
    ensures
        0 <= leading_token_len(s) <= s.len(),
    decreases s.len(),
{
    if s.len() == 0 || is_command_space(s[0]) {
    } else {
        lemma_leading_token_len_bounds(s.drop_first());
    }
}

/// The tokens of a command line: its maximal runs of non-separator
/// characters, in order.
pub open spec fn split_tokens(s: Seq<char>) -> Seq<Seq<char>>
    decreases s.len(),
    via split_tokens_decreases
{
    if s.len() == 0 {
        seq![]
    } else if is_command_space(s[0]) {
        split_tokens(s.drop_first())
    } else {
        seq![s.take(leading_token_len(s))] + split_tokens(s.skip(leading_token_len(s)))
    }
}

#[via_fn]
proof fn split_tokens_decreases(s: Seq<char>) {
    lemma_leading_token_len_bounds(s);
    if s.len() > 0 && !is_command_space(s[0]) {
        lemma_leading_token_len_bounds(s.drop_first());
    }
}

/// The leading token is exactly the prefix up to the first separator.
proof fn lemma_leading_token_len_at(s: Seq<char>, k: int)
    requires
        0 <= k <= s.len(),
        forall|j: int| 0 <= j < k ==> !is_command_space(s[j]),
        k == s.len() || is_command_space(s[k]),
    ensures
        leading_token_len(s) == k,
    decreases k,
{
    if k == 0 {
    } else {
        assert(!is_command_space(s[0]));
        lemma_leading_token_len_at(s.drop_first(), k - 1);
    }
}

/// Law: a command line made of separators alone (or empty) has no tokens.
pub proof fn lemma_all_space_no_tokens(s: Seq<char>)
    requires
        forall|j: int| 0 <= j < s.len() ==> is_command_space(s[j]),
    ensures
        split_tokens(s).len() == 0,
    decreases s.len(),
{
    if s.len() == 0 {
    } else {
        assert(is_command_space(s[0]));
        lemma_all_space_no_tokens(s.drop_first());
    }
}

proof fn lemma_leading_token_non_space(s: Seq<char>)
    ensures
        forall|j: int| 0 <= j < leading_token_len(s) ==> !is_command_space(s[j]),
    decreases s.len(),
{
    if s.len() == 0 || is_command_space(s[0]) {
    } else {
        lemma_leading_token_non_space(s.drop_first());
        lemma_leading_token_len_bounds(s);
        assert(leading_token_len(s) == 1 + leading_token_len(s.drop_first()));
        assert forall|j: int| 0 <= j < leading_token_len(s) implies !is_command_space(s[j]) by {
            if j > 0 {
                assert(0 <= j - 1 < leading_token_len(s.drop_first()));
                assert(s.drop_first()[j - 1] == s[j]);
                assert(!is_command_space(s.drop_first()[j - 1]));
            }
        }
    }
}

/// Law: every token of a command line is nonempty and free of separators.
pub proof fn lemma_tokens_are_separator_free(s: Seq<char>, i: int)
    requires
        0 <= i < split_tokens(s).len(),
    ensures
        split_tokens(s)[i].len() > 0,
        forall|j: int| 0 <= j < split_tokens(s)[i].len() ==> !is_command_space(split_tokens(s)[i][j]),
    decreases s.len(),
{
    if s.len() == 0 {
    } else if is_command_space(s[0]) {
        lemma_tokens_are_separator_free(s.drop_first(), i);
    } else {
        let k = leading_token_len(s);
        lemma_leading_token_len_bounds(s);
        lemma_leading_token_len_bounds(s.drop_first());
        if i == 0 {
            lemma_leading_token_non_space(s);
            assert(split_tokens(s)[0] == s.take(k));
            assert forall|j: int| 0 <= j < s.take(k).len() implies !is_command_space(
                s.take(k)[j],
            ) by {
                assert(s.take(k)[j] == s[j]);
            }
        } else {
            lemma_tokens_are_separator_free(s.skip(k), i - 1);
            assert(split_tokens(s)[i] == split_tokens(s.skip(k))[i - 1]);
        }
    }
}

/// Whether `c` separates command-line tokens.
fn is_space_char(c: char) -> (r: bool)
    ensures
        r == is_command_space(c),
{
    c == ' ' || c == '\t' || c == '\n' || c == '\u{c}' || c == '\r'
}

/// Splits a command line into its tokens, in order.
pub fn split_command_line(s: &str) -> (tokens: Vec<String>)
    ensures
        tokens@.map_values(|t: String| t@) == split_tokens(s@),
{
    let n = s.unicode_len();
    let mut tokens: Vec<String> = Vec::new();
    let mut i: usize = 0;
    proof {
        assert(tokens@.map_values(|t: String| t@) =~= Seq::<Seq<char>>::empty());
        assert(s@.skip(0) =~= s@);
        assert(Seq::<Seq<char>>::empty() + split_tokens(s@) =~= split_tokens(s@));
    }
    while i < n
        invariant
            n == s@.len(),
            i <= n,
            split_tokens(s@) == tokens@.map_values(|t: String| t@) + split_tokens(
                s@.skip(i as int),
            ),
        decreases n - i,
    {
        let c = s.get_char(i);
        if is_space_char(c) {
            i = i + 1;
            proof {
                assert(s@.skip(i - 1).drop_first() =~= s@.skip(i as int));
            }
        } else {
            let start: usize = i;
            i = i + 1;
            while i < n
                invariant
                    n == s@.len(),
                    start < i <= n,
                    forall|j: int| start <= j < i ==> !is_command_space(s@[j]),
                ensures
                    start < i <= n,
                    forall|j: int| start <= j < i ==> !is_command_space(s@[j]),
                    i == n || is_command_space(s@[i as int]),
                decreases n - i,
            {
                let c2 = s.get_char(i);
                if is_space_char(c2) {
                    break;
                }
                i = i + 1;
            }
            let ghost prev = tokens@.map_values(|t: String| t@);
            let tok = s.substring_char(start, i).to_owned();
            tokens.push(tok);
            proof {
                let st = start as int;
                let ii = i as int;
                let rest = s@.skip(st);
                assert forall|j: int| 0 <= j < ii - st implies !is_command_space(rest[j]) by {
                    assert(!is_command_space(s@[st + j]));
                }
                if ii < n {
                    assert(is_command_space(rest[ii - st]));
                }
                lemma_leading_token_len_at(rest, ii - st);
                assert(rest.take(ii - st) =~= s@.subrange(st, ii));
                assert(rest.skip(ii - st) =~= s@.skip(ii));
                assert(split_tokens(rest) == seq![s@.subrange(st, ii)] + split_tokens(s@.skip(ii)));
                assert(tokens@.map_values(|t: String| t@) =~= prev + seq![tok@]);
                assert(prev + seq![tok@] + split_tokens(s@.skip(ii)) =~= prev + (seq![
                    s@.subrange(st, ii),
                ] + split_tokens(s@.skip(ii))));
            }
        }
    }
    proof {
        assert(s@.skip(n as int) =~= Seq::<char>::empty());
        assert(tokens@.map_values(|t: String| t@) + split_tokens(s@.skip(n as int))
            =~= tokens@.map_values(|t: String| t@));
    }
    tokens
}

/// All the tokens a spawn command carries: the program first, then its
/// arguments in order.
pub open spec fn command_tokens(c: SpawnCommand) -> Seq<Seq<char>> {
    seq![c.program@] + c.args@.map_values(|a: String| a@)
}

/// Splits `process` on ASCII whitespace; the first token names the
/// executable, the rest are its arguments. Fails with `EmptyCommand`
/// exactly when the command line has no tokens.
pub fn parse_command(process: &str) -> (r: Result<SpawnCommand, SpawnError>)
    ensures
        r matches Ok(c) ==> command_tokens(c) == split_tokens(process@),
        r is Err <==> split_tokens(process@).len() == 0,
        r matches Err(e) ==> e == SpawnError::EmptyCommand,
{
    let mut tokens = split_command_line(process);
    let ghost m = tokens@.map_values(|t: String| t@);
    if tokens.len() == 0 {
        proof {
            assert(m =~= Seq::<Seq<char>>::empty());
        }
        return Err(SpawnError::EmptyCommand);
    }
    let program = tokens.remove(0);
    let cmd = SpawnCommand { program, args: tokens };
    proof {
        assert(command_tokens(cmd) =~~= m);
    }
    Ok(cmd)
}

/// Folds the OS outcome of process creation into the spawn result:
/// success stays success, an OS failure is surfaced with its message.
/// Success is returned as soon as the process exists; nothing waits for
/// or observes the child's own run.
pub fn complete_spawn(outcome: Result<(), String>) -> (r: Result<(), SpawnError>)
    ensures
        r is Ok <==> outcome is Ok,
        outcome matches Err(m) ==> (r matches Err(e) && e == SpawnError::Spawn(m)),
{
    match outcome {
        Ok(u) => Ok(u),
        Err(m) => Err(SpawnError::Spawn(m)),
    }
}

} // verus!
