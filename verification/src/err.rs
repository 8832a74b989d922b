//! Rendering of a failure and the chain of its causes as nested markup.

use vstd::prelude::*;
use vstd::string::StringExecFns;

verus! {

/// `anyhow::Error`, of which only the chain of messages is read.
#[verifier::external_type_specification]
#[verifier::external_body]
pub struct ExAnyhowError(anyhow::Error);

/// The messages of an `anyhow::Error` and of each of its sources, outermost
/// first, as `anyhow::Error::chain` visits them.
pub uninterp spec fn chain_messages(err: anyhow::Error) -> Seq<Seq<char>>;

/// Calls `anyhow::Error::chain` and formats every visited error with its
/// `Display` impl. The chain begins with the error itself, so the list is
/// never empty.
#[verifier::external_body]
fn collect_chain(err: &anyhow::Error) -> (messages: Vec<String>)
    ensures
        messages@.len() >= 1,
        texts(messages@) == chain_messages(*err),
{
    err.chain().map(|cause| cause.to_string()).collect()
}

/// Markup that opens the nested block of the next cause.
pub open spec fn opening() -> Seq<char> {
    "<ul>\n<li><b>Caused by:</b>\n"@
}

/// Markup that closes the nested block of a cause.
pub open spec fn closing() -> Seq<char> {
    "</li>\n</ul>\n"@
}

/// The text of each string of `messages`.
pub open spec fn texts(messages: Seq<String>) -> Seq<Seq<char>> {
    messages.map_values(|m: String| m@)
}

/// The report for a chain of messages, outermost failure first: the first
/// message on a line of its own, then, if there are further causes, one
/// nested block that holds the report of the rest.
pub open spec fn rendered(chain: Seq<Seq<char>>) -> Seq<char>
    decreases chain.len(),
{
    if chain.len() == 0 {
        Seq::empty()
    } else if chain.len() == 1 {
        chain[0].push('\n')
    } else {
        chain[0].push('\n') + opening() + rendered(chain.skip(1)) + closing()
    }
}

/// The report of the first `n` messages of `chain`, up to but without the
/// closing markup.
pub open spec fn opened(chain: Seq<Seq<char>>, n: nat) -> Seq<char>
    decreases n,
{
    if n == 0 {
        Seq::empty()
    } else if n == 1 {
        chain[0].push('\n')
    } else {
        opened(chain, (n - 1) as nat) + opening() + chain[n - 1].push('\n')
    }
}

/// The closing markup of `n` nested blocks.
pub open spec fn closed(n: nat) -> Seq<char>
    decreases n,
{
    if n == 0 {
        Seq::empty()
    } else {
        closed((n - 1) as nat) + closing()
    }
}

proof fn lemma_opened_skip(chain: Seq<Seq<char>>, n: nat)
    requires
        2 <= n <= chain.len(),
    ensures
        opened(chain, n) == chain[0].push('\n') + opening() + opened(
            chain.skip(1),
            (n - 1) as nat,
        ),
    decreases n,
{
    let rest = chain.skip(1);
    let first = chain[0].push('\n');
    if n == 2 {
        assert(opened(chain, 1) == first);
        assert(opened(rest, 1) == rest[0].push('\n'));
        assert(rest[0] == chain[1]);
    } else {
        lemma_opened_skip(chain, (n - 1) as nat);
        let line = chain[n - 1].push('\n');
        assert(rest[n - 2] == chain[n - 1]);
        assert(opened(rest, (n - 1) as nat) == opened(rest, (n - 2) as nat) + opening() + line);
        assert(first + opening() + opened(rest, (n - 2) as nat) + opening() + line == first
            + opening() + (opened(rest, (n - 2) as nat) + opening() + line));
    }
}

/// The nested report is the opening part of every level followed by the
/// closing markup of every nested block.
pub proof fn lemma_rendered_unrolled(chain: Seq<Seq<char>>)
    requires
        chain.len() >= 1,
    ensures
        rendered(chain) == opened(chain, chain.len()) + closed((chain.len() - 1) as nat),
    decreases chain.len(),
{
    if chain.len() == 1 {
        assert(closed(0) == Seq::<char>::empty());
        assert(opened(chain, 1) + Seq::<char>::empty() == opened(chain, 1));
    } else {
        let rest = chain.skip(1);
        let first = chain[0].push('\n');
        let n = chain.len();
        lemma_rendered_unrolled(rest);
        lemma_opened_skip(chain, n);
        assert(closed((n - 1) as nat) == closed((n - 2) as nat) + closing());
        assert(first + opening() + (opened(rest, (n - 1) as nat) + closed((n - 2) as nat))
            + closing() == first + opening() + opened(rest, (n - 1) as nat) + (closed(
            (n - 2) as nat,
        ) + closing()));
    }
}

/// A failure together with the chain of its underlying causes.
///
/// The value is a position in a list of messages: the message at the
/// position is the failure's own, the ones after it are its causes.
#[derive(Clone, Copy)]
pub struct ErrorSource<'a> {
    chain: &'a Vec<String>,
    at: usize,
}

impl<'a> ErrorSource<'a> {
    #[verifier::type_invariant]
    spec fn inv(self) -> bool {
        self.at < self.chain@.len()
    }

    /// The messages of this failure and of its causes, outermost first.
    pub closed spec fn view(&self) -> Seq<Seq<char>> {
        texts(self.chain@.skip(self.at as int))
    }

    /// The failure whose message is the first of `chain` and whose causes
    /// are the rest; `None` for an empty list.
    pub fn new(chain: &'a Vec<String>) -> (err: Option<ErrorSource<'a>>)
        ensures
            chain@.len() == 0 ==> err is None,
            chain@.len() > 0 ==> err is Some && err->0@ == texts(chain@),
    {
        if chain.len() == 0 {
            None
        } else {
            assert(chain@.skip(0) == chain@);
            Some(ErrorSource { chain, at: 0 })
        }
    }

    /// This failure's own message.
    pub fn message(&self) -> (text: &'a String)
        ensures
            self@.len() >= 1,
            text@ == self@[0],
    {
        proof {
            use_type_invariant(self);
        }
        &self.chain[self.at]
    }

    /// The direct cause of this failure, if it has one.
    pub fn source(&self) -> (cause: Option<ErrorSource<'a>>)
        ensures
            self@.len() >= 1,
            self@.len() == 1 ==> cause is None,
            self@.len() > 1 ==> cause is Some && cause->0@ == self@.skip(1),
    {
        proof {
            use_type_invariant(self);
        }
        if self.chain.len() - self.at > 1 {
            assert(texts(self.chain@.skip(self.at as int + 1)) == texts(
                self.chain@.skip(self.at as int),
            ).skip(1));
            Some(ErrorSource { chain: self.chain, at: self.at + 1 })
        } else {
            None
        }
    }
}

/// The chain of messages that begins with `context`, what was being done,
/// and goes on with `causes`, why that failed.
pub fn with_context(context: &str, causes: Vec<String>) -> (chain: Vec<String>)
    ensures
        texts(chain@) == seq![context@] + texts(causes@),
{
    let mut chain: Vec<String> = Vec::new();
    chain.push(context.to_owned());
    let mut causes = causes;
    let ghost before = causes@;
    chain.append(&mut causes);
    assert(texts(chain@) == seq![context@] + texts(before));
    chain
}

/// Appends the report of `err` to `msg`.
///
/// The causes are walked in a loop, so the depth of the chain is bounded
/// only by the length of the list behind `err`.
pub fn build_err_msg_impl(msg: &mut String, err: ErrorSource<'_>)
    ensures
        final(msg)@ == old(msg)@ + rendered(err@),
{
    let ghost before = msg@;
    let ghost chain = err@;
    proof {
        use_type_invariant(err);
        assert(chain.len() == err.chain@.len() - err.at);
        assert(err.chain@.len() == err.chain.len());
    }
    let mut cur = err;
    let mut depth: usize = 0;
    let first = cur.message();
    msg.append(first.as_str());
    msg.push('\n');
    assert(msg@ == before + opened(chain, 1));
    loop
        invariant
            1 <= chain.len() <= usize::MAX,
            depth < chain.len(),
            cur@ == chain.skip(depth as int),
            msg@ == before + opened(chain, (depth + 1) as nat),
        ensures
            depth + 1 == chain.len(),
            msg@ == before + opened(chain, chain.len()),
        decreases chain.len() - depth,
    {
        match cur.source() {
            Some(next) => {
                msg.append("<ul>\n<li><b>Caused by:</b>\n");
                let line = next.message();
                msg.append(line.as_str());
                msg.push('\n');
                proof {
                    assert(next@[0] == chain[depth + 1]);
                    assert(next@ == chain.skip(depth as int + 1));
                    assert(before + opened(chain, (depth + 1) as nat) + opening() + chain[depth
                        + 1].push('\n') == before + (opened(chain, (depth + 1) as nat)
                        + opening() + chain[depth + 1].push('\n')));
                }
                cur = next;
                depth += 1;
            },
            None => {
                break ;
            },
        }
    }
    let mut done: usize = 0;
    while done < depth
        invariant
            done <= depth,
            depth + 1 == chain.len(),
            msg@ == before + opened(chain, chain.len()) + closed(done as nat),
        decreases depth - done,
    {
        msg.append("</li>\n</ul>\n");
        proof {
            assert(before + opened(chain, chain.len()) + closed(done as nat) + closing()
                == before + opened(chain, chain.len()) + (closed(done as nat) + closing()));
        }
        done += 1;
    }
    proof {
        lemma_rendered_unrolled(chain);
        assert(before + opened(chain, chain.len()) + closed(depth as nat) == before + (opened(
            chain,
            chain.len(),
        ) + closed(depth as nat)));
    }
}

/// The report of `err`: its message, then one nested "Caused by" block per
/// underlying cause.
pub fn build_err_msg(err: ErrorSource<'_>) -> (msg: String)
    ensures
        msg@ == rendered(err@),
{
    let mut msg = String::new();
    build_err_msg_impl(&mut msg, err);
    assert(Seq::<char>::empty() + rendered(err@) == rendered(err@));
    msg
}

/// The messages of an `anyhow::Error` and of its sources, outermost first.
pub fn chain_of(err: &anyhow::Error) -> (messages: Vec<String>)
    ensures
        messages@.len() >= 1,
        texts(messages@) == chain_messages(*err),
{
    collect_chain(err)
}

/// The report of an `anyhow::Error` and of its chain of sources.
pub fn render_failure(err: &anyhow::Error) -> (msg: String)
    ensures
        msg@ == rendered(chain_messages(*err)),
{
    let messages = chain_of(err);
    match ErrorSource::new(&messages) {
        Some(source) => build_err_msg(source),
        None => String::new(),
    }
}

} // verus!
