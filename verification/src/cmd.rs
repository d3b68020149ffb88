//! Assembly of the launch command line of a service: an ordered token list
//! built from an optional executor prefix, the service's own program and
//! arguments, and tokens that appear only when a liveness-socket path is
//! handed to the child.

use vstd::prelude::*;

verus! {

/// The token lists from which a service's launch command line is assembled.
///
/// The always-present parts are the program itself, the arguments before the
/// liveness tokens and the arguments after them.  The liveness tokens — the
/// ones around the liveness-socket path itself — are included only when such
/// a path is passed to the launch.
pub struct CommandTemplate {
    /// The program to run when no executor prefix stands before it.
    pub program: String,
    /// Arguments that always follow the program.
    pub pre_args: Vec<String>,
    /// Arguments placed right before the liveness-socket path, when one is
    /// given.
    pub liveness_pre_args: Vec<String>,
    /// Arguments placed right after the liveness-socket path, when one is
    /// given.
    pub liveness_post_args: Vec<String>,
    /// Arguments that always close the command line.
    pub post_args: Vec<String>,
}

/// The token sequence of an optional token list: its tokens when one is
/// given, and nothing otherwise.
pub open spec fn optional_tokens(tokens: Option<Seq<Seq<char>>>) -> Seq<Seq<char>> {
    match tokens {
        Some(p) => p,
        None => Seq::empty(),
    }
}

/// The token sequences of an optional borrowed token list.
pub open spec fn borrowed_tokens_view(tokens: Option<&Vec<String>>) -> Option<Seq<Seq<char>>> {
    match tokens {
        Some(p) => Some(p.deep_view()),
        None => None,
    }
}

impl CommandTemplate {
    /// The full command line that `build_argv` assembles for this template,
    /// the given executor prefix and the given liveness-socket path.
    pub open spec fn argv_spec(
        &self,
        executor_prefix: Option<Seq<Seq<char>>>,
        liveness_path: Option<Seq<char>>,
    ) -> Seq<Seq<char>> {
        optional_tokens(executor_prefix) + seq![self.program@] + self.pre_args.deep_view() + (
        match liveness_path {
            Some(path) => self.liveness_pre_args.deep_view() + seq![path]
                + self.liveness_post_args.deep_view(),
            None => Seq::empty(),
        }) + self.post_args.deep_view()
    }

    /// Assembles the command line to launch the service with: the executor
    /// prefix first when one is given, then the program, then the
    /// always-present leading arguments, then — only when a liveness-socket
    /// path is given — the liveness tokens around that path, and finally the
    /// always-present trailing arguments.  The first token is the one the
    /// launch executes: the prefix's first token when the prefix is nonempty,
    /// and the program otherwise.
    pub fn build_argv(
        &self,
        executor_prefix: Option<&Vec<String>>,
        liveness_path: Option<&String>,
    ) -> (r: Vec<String>)
        ensures
            r.deep_view() == self.argv_spec(
                borrowed_tokens_view(executor_prefix),
                match liveness_path {
                    Some(p) => Some(p@),
                    None => None,
                },
            ),
            r.deep_view().len() >= 1,
            match executor_prefix {
                Some(p) => p.len() > 0 ==> r.deep_view()[0] == p.deep_view()[0],
                None => r.deep_view()[0] == self.program@,
            },
            (match executor_prefix {
                Some(p) => p.len() == 0,
                None => true,
            }) ==> r.deep_view()[0] == self.program@,
    {
        let mut r: Vec<String> = Vec::new();
        if let Some(prefix) = executor_prefix {
            append_tokens(&mut r, prefix);
        }
        push_token(&mut r, &self.program);
        append_tokens(&mut r, &self.pre_args);
        if let Some(path) = liveness_path {
            append_tokens(&mut r, &self.liveness_pre_args);
            push_token(&mut r, path);
            append_tokens(&mut r, &self.liveness_post_args);
        }
        append_tokens(&mut r, &self.post_args);
        proof {
            let ghost lp = match liveness_path {
                Some(p) => Some(p@),
                None => None,
            };
            assert(r.deep_view() =~~= self.argv_spec(borrowed_tokens_view(executor_prefix), lp));
        }
        r
    }
}

/// Appends a copy of the one token `token` to `out`.
fn push_token(out: &mut Vec<String>, token: &String)
    ensures
        final(out).deep_view() == old(out).deep_view() + seq![token@],
{
    out.push(token.clone());
    proof {
        assert(out.deep_view() =~~= old(out).deep_view() + seq![token@]);
    }
}

/// Appends a copy of every token of `tokens` to `out`, in order.
fn append_tokens(out: &mut Vec<String>, tokens: &Vec<String>)
    ensures
        final(out).deep_view() == old(out).deep_view() + tokens.deep_view(),
{
    let mut i: usize = 0;
    while i < tokens.len()
        invariant
            i <= tokens.len(),
            out.len() == old(out).len() + i,
            forall|j: int|
                0 <= j < old(out).len() ==> out.deep_view()[j] == old(out).deep_view()[j],
            forall|j: int|
                0 <= j < i ==> out.deep_view()[old(out).len() + j] == tokens.deep_view()[j],
        decreases tokens.len() - i,
    {
        out.push(tokens[i].clone());
        i = i + 1;
    }
    proof {
        assert(out.deep_view() =~~= old(out).deep_view() + tokens.deep_view());
    }
}

} // verus!
