use vstd::prelude::*;

verus! {

/// What the interpreter made of one command's input, as plain text.
pub enum Outcome {
    /// The input was evaluated. `pretty` is the pretty-printed last statement,
    /// if the input held one; `output` is the rendered final value.
    Evaluated { pretty: Option<String>, output: String },
    /// The input could not be interpreted; `message` describes why.
    Failed { message: String },
}

/// The fence that opens a monospace block.
pub open spec fn fence_open() -> Seq<char> {
    seq!['`', '`', '`', '\n']
}

/// The fence that closes a monospace block.
pub open spec fn fence_close() -> Seq<char> {
    seq!['`', '`', '`']
}

/// A body wrapped in a monospace block.
pub open spec fn monospace(body: Seq<char>) -> Seq<char> {
    fence_open() + body + fence_close()
}

/// The blank line that separates two sections of a reply.
pub open spec fn gap() -> Seq<char> {
    seq!['\n', '\n']
}

/// The echo of the raw input: `>>> ` followed by the input.
pub open spec fn echo(input: Seq<char>) -> Seq<char> {
    seq!['>', '>', '>', ' '] + input
}

/// The error line: `Error: ` followed by the message.
pub open spec fn error_line(message: Seq<char>) -> Seq<char> {
    seq!['E', 'r', 'r', 'o', 'r', ':', ' '] + message
}

/// The pretty-print section: the statement's text, or nothing.
pub open spec fn pretty_text(pretty: Option<Seq<char>>) -> Seq<char> {
    match pretty {
        Some(p) => p,
        None => Seq::empty(),
    }
}

/// Echo, blank line, pretty-print section, blank line, last section.
pub open spec fn sections(input: Seq<char>, pretty: Seq<char>, last: Seq<char>) -> Seq<char> {
    echo(input) + gap() + pretty + gap() + last
}

/// The body of the reply to an evaluated input.
pub open spec fn success_text(input: Seq<char>, pretty: Option<Seq<char>>, output: Seq<char>) -> Seq<char> {
    sections(input, pretty_text(pretty), output)
}

/// The body of the reply to an input that failed: its pretty-print section is empty.
pub open spec fn failure_text(input: Seq<char>, message: Seq<char>) -> Seq<char> {
    sections(input, Seq::empty(), error_line(message))
}

/// The view of an optional string.
pub open spec fn opt_view(s: Option<String>) -> Option<Seq<char>> {
    match s {
        Some(t) => Some(t@),
        None => None,
    }
}

/// The full reply text for `input` and what the interpreter made of it.
pub open spec fn reply_of(input: Seq<char>, outcome: Outcome) -> Seq<char> {
    match outcome {
        Outcome::Evaluated { pretty, output } => monospace(success_text(input, opt_view(pretty), output@)),
        Outcome::Failed { message } => monospace(failure_text(input, message@)),
    }
}

/// Wraps `body` in a monospace block.
pub fn wrap_monospace(body: &str) -> (r: String)
    ensures
        r@ == monospace(body@),
{
    let mut r = String::new();
    r.append("```\n");
    r.append(body);
    r.append("```");
    proof {
        reveal_strlit("```\n");
        reveal_strlit("```");
    }
    assert(r@ =~= monospace(body@));
    r
}

/// Lays out the three sections of a reply: the echoed input, the pretty-print
/// section and the last section, separated by blank lines.
pub fn layout_sections(input: &str, pretty: &str, last: &str) -> (r: String)
    ensures
        r@ == sections(input@, pretty@, last@),
{
    let mut r = String::new();
    r.append(">>> ");
    r.append(input);
    r.append("\n\n");
    r.append(pretty);
    r.append("\n\n");
    r.append(last);
    proof {
        reveal_strlit(">>> ");
        reveal_strlit("\n\n");
    }
    assert(r@ =~= sections(input@, pretty@, last@));
    r
}

/// The body of the reply to an evaluated input; an input without a statement
/// has an empty pretty-print section.
pub fn success_body(input: &str, pretty: &Option<String>, output: &str) -> (r: String)
    ensures
        r@ == success_text(input@, opt_view(*pretty), output@),
{
    match pretty {
        Some(p) => layout_sections(input, p.as_str(), output),
        None => {
            proof {
                reveal_strlit("");
            }
            let r = layout_sections(input, "", output);
            assert(""@ =~= Seq::<char>::empty());
            r
        },
    }
}

/// The body of the reply to an input that failed to interpret.
pub fn failure_body(input: &str, message: &str) -> (r: String)
    ensures
        r@ == failure_text(input@, message@),
{
    let mut line = String::new();
    line.append("Error: ");
    line.append(message);
    proof {
        reveal_strlit("Error: ");
        reveal_strlit("");
    }
    assert(line@ =~= error_line(message@));
    let r = layout_sections(input, "", line.as_str());
    assert(""@ =~= Seq::<char>::empty());
    r
}

/// The reply sent for one command: the input's echo, the pretty-printed
/// statement and the result (or the error), inside a monospace block.
pub fn reply_text(input: &str, outcome: &Outcome) -> (r: String)
    ensures
        r@ == reply_of(input@, *outcome),
        match *outcome {
            Outcome::Evaluated { pretty, output } => r@ == fence_open() + echo(input@) + gap()
                + pretty_text(opt_view(pretty)) + gap() + output@ + fence_close(),
            Outcome::Failed { message } => r@ == fence_open() + echo(input@) + gap() + gap()
                + error_line(message@) + fence_close(),
        },
{
    match outcome {
        Outcome::Evaluated { pretty, output } => {
            let body = success_body(input, pretty, output.as_str());
            let r = wrap_monospace(body.as_str());
            assert(r@ =~= fence_open() + echo(input@) + gap() + pretty_text(opt_view(*pretty))
                + gap() + output@ + fence_close());
            r
        },
        Outcome::Failed { message } => {
            let body = failure_body(input, message.as_str());
            let r = wrap_monospace(body.as_str());
            assert(r@ =~= fence_open() + echo(input@) + gap() + gap() + error_line(message@)
                + fence_close());
            r
        },
    }
}

/// Two outcomes that carry the same text.
pub open spec fn same_text(a: Outcome, b: Outcome) -> bool {
    match (a, b) {
        (Outcome::Evaluated { pretty: p1, output: o1 }, Outcome::Evaluated { pretty: p2, output: o2 }) =>
            opt_view(p1) == opt_view(p2) && o1@ == o2@,
        (Outcome::Failed { message: m1 }, Outcome::Failed { message: m2 }) => m1@ == m2@,
        _ => false,
    }
}

/// The reply depends on the input and the interpreter's outcome alone: when an
/// input is sent again and the interpreter answers with the same text, the two
/// replies are identical, character for character.
pub proof fn lemma_repeated_input_same_reply(input: Seq<char>, first: Outcome, second: Outcome)
    requires
        same_text(first, second),
    ensures
        reply_of(input, first) == reply_of(input, second),
{
}

} // verus!
