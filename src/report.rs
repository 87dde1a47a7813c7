//! Reports: a rendering of a whole causal chain, either pretty (one block per
//! layer, then the backtrace) or compact (one line).
use vstd::prelude::*;

use crate::context::{AbstractContext, CommonIter, Entry, Render};
use crate::error::{AnyError, ContextDepth};
use crate::kind::Kind;

verus! {

/// The entries rendered and joined with `", "`.
pub open spec fn entries_text<E: Render>(entries: Seq<E>) -> Seq<char>
    decreases entries.len(),
{
    if entries.len() == 0 {
        Seq::empty()
    } else if entries.len() == 1 {
        entries[0].spec_render()
    } else {
        entries_text(entries.drop_last()) + ", "@ + entries.last().spec_render()
    }
}

/// Appends the entries that `it` yields, rendered and joined with `", "`.
fn render_entries<'a, E: Render>(out: &mut String, it: CommonIter<'a, E>)
    ensures
        final(out)@ == old(out)@ + entries_text(it@),
{
    let ghost start = old(out)@;
    let ghost all = it@;
    let mut rest = it;
    let mut first = true;
    let ghost mut k: int = 0;
    assert(all.subrange(0, 0) =~= Seq::<E>::empty());
    assert(all.subrange(0, all.len() as int) =~= all);
    assert(out@ =~= start + entries_text(all.subrange(0, 0)));
    loop
        invariant
            0 <= k <= all.len(),
            rest@ == all.subrange(k, all.len() as int),
            first == (k == 0),
            start == old(out)@,
            all == it@,
            out@ == start + entries_text(all.subrange(0, k)),
        decreases rest@.len(),
    {
        let ghost before = rest@;
        assert(before == all.subrange(k, all.len() as int));
        assert(out@ == start + entries_text(all.subrange(0, k)));
        match rest.next() {
            Some(e) => {
                proof {
                    assert(before.len() > 0);
                    assert(before[0] == all[k]);
                    assert(*e == all[k]);
                    let s = all.subrange(0, k + 1);
                    assert(s.drop_last() =~= all.subrange(0, k));
                    assert(s.last() == all[k]);
                    assert(rest@ =~= all.subrange(k + 1, all.len() as int));
                }
                if !first {
                    out.append(", ");
                }
                let text = e.render();
                out.append(text.as_str());
                proof {
                    let s = all.subrange(0, k + 1);
                    assert(out@ =~= start + entries_text(s));
                    k = k + 1;
                }
                first = false;
            },
            None => {
                assert(before.len() == 0);
                assert(k == all.len());
                assert(all.subrange(0, k) =~= all);
                return ;
            },
        }
    }
}

/// Walking one step down the chain: from the error at `i - 1` to its cause.
proof fn lemma_chain_step<C: AbstractContext, K: Kind>(
    chain: Seq<AnyError<C, K>>,
    i: int,
    cur: AnyError<C, K>,
    next: AnyError<C, K>,
)
    requires
        1 <= i <= chain.len(),
        cur.spec_chain() == chain.subrange(i - 1, chain.len() as int),
        cur.spec_source() == Some(next),
    ensures
        i < chain.len(),
        chain[i] == next,
        next.spec_chain() == chain.subrange(i, chain.len() as int),
{
    cur.lemma_chain_unfold();
    next.lemma_chain_unfold();
    let cc = cur.spec_chain();
    let nc = next.spec_chain();
    assert(cur.spec_source()->0 == next);
    assert(cc == seq![cur] + nc);
    assert(cc.len() == nc.len() + 1);
    assert(cc[1] == nc[0]);
    assert(cc[1] == chain[i]);
    assert forall|j: int| 0 <= j < nc.len() implies nc[j] == chain.subrange(
        i,
        chain.len() as int,
    )[j] by {
        assert(cc[j + 1] == nc[j]);
        assert(cc[j + 1] == chain[i + j]);
    }
    assert(nc =~= chain.subrange(i, chain.len() as int));
}

/// At the end of the chain: an error without a cause is the last one.
proof fn lemma_chain_end<C: AbstractContext, K: Kind>(
    chain: Seq<AnyError<C, K>>,
    i: int,
    cur: AnyError<C, K>,
)
    requires
        1 <= i <= chain.len(),
        cur.spec_chain() == chain.subrange(i - 1, chain.len() as int),
        cur.spec_source() is None,
    ensures
        i == chain.len(),
        chain.subrange(0, i) == chain,
{
    cur.lemma_chain_unfold();
    assert(chain.subrange(0, i) =~= chain);
}

/// A report over an error, with four rendering switches.
pub struct ReportInner<C, K> {
    error: AnyError<C, K>,
    pretty: bool,
    kind: bool,
    backtrace: bool,
    context: bool,
}

impl<C: AbstractContext, K: Kind> ReportInner<C, K> where C::Entry: Render {
    pub closed spec fn spec_error(&self) -> AnyError<C, K> {
        self.error
    }

    pub closed spec fn spec_pretty(&self) -> bool {
        self.pretty
    }

    pub closed spec fn spec_kind(&self) -> bool {
        self.kind
    }

    pub closed spec fn spec_backtrace(&self) -> bool {
        self.backtrace
    }

    pub closed spec fn spec_context(&self) -> bool {
        self.context
    }

    /// The layers the report shows, outermost first.
    pub open spec fn spec_chain(&self) -> Seq<AnyError<C, K>> {
        self.spec_error().spec_chain()
    }

    /// Holds when `msgs` are messages of the layers of the chain: the stored
    /// message of each layer that does not wrap a foreign failure.
    pub open spec fn messages_of(&self, msgs: Seq<Seq<char>>) -> bool {
        &&& msgs.len() == self.spec_chain().len()
        &&& forall|i: int|
            0 <= i < msgs.len() && !(#[trigger] self.spec_chain()[i]).is_opaque() ==> msgs[i]
                == self.spec_chain()[i].spec_message()
    }

    /// A layer's message, after its kind in parentheses when kinds are shown.
    pub open spec fn message_text(&self, e: AnyError<C, K>, msg: Seq<char>) -> Seq<char> {
        if self.spec_kind() {
            "("@ + e.spec_kind().spec_name() + ") "@ + msg
        } else {
            msg
        }
    }

    /// The context line of a pretty block: this layer's own entries, if shown
    /// and present.
    pub open spec fn pretty_context_text(&self, e: AnyError<C, K>) -> Seq<char> {
        let entries = e.spec_context(ContextDepth::Shallowest);
        if self.spec_context() && entries.len() > 0 {
            "    ["@ + entries_text(entries) + "]\n"@
        } else {
            Seq::empty()
        }
    }

    /// The block of one layer in a pretty report.
    pub open spec fn pretty_block(&self, title: Seq<char>, e: AnyError<C, K>, msg: Seq<char>) -> Seq<
        char,
    > {
        title + "\n"@ + "    "@ + self.message_text(e, msg) + "\n"@ + self.pretty_context_text(e)
    }

    /// The blocks of the first `chain.len()` layers.
    pub open spec fn pretty_blocks(&self, chain: Seq<AnyError<C, K>>, msgs: Seq<Seq<char>>) -> Seq<
        char,
    >
        decreases chain.len(),
    {
        if chain.len() == 0 {
            Seq::empty()
        } else {
            let title = if chain.len() == 1 {
                "Error:"@
            } else {
                "Caused by:"@
            };
            self.pretty_blocks(chain.drop_last(), msgs.drop_last()) + self.pretty_block(
                title,
                chain.last(),
                msgs[chain.len() - 1],
            )
        }
    }

    /// The backtrace section of a pretty report, given the backtrace's text.
    pub open spec fn backtrace_text(&self, bt: Seq<char>) -> Seq<char> {
        if self.spec_backtrace() {
            "\n"@ + "Stack backtrace:"@ + "\n"@ + bt + "\n"@
        } else {
            Seq::empty()
        }
    }

    /// The whole pretty report.
    pub open spec fn pretty_text(&self, msgs: Seq<Seq<char>>, bt: Seq<char>) -> Seq<char> {
        self.pretty_blocks(self.spec_chain(), msgs) + self.backtrace_text(bt)
    }

    /// The messages of the first `chain.len()` layers, joined with `": "`.
    pub open spec fn compact_messages(&self, chain: Seq<AnyError<C, K>>, msgs: Seq<Seq<char>>) -> Seq<
        char,
    >
        decreases chain.len(),
    {
        if chain.len() == 0 {
            Seq::empty()
        } else if chain.len() == 1 {
            self.message_text(chain[0], msgs[0])
        } else {
            self.compact_messages(chain.drop_last(), msgs.drop_last()) + ": "@ + self.message_text(
                chain.last(),
                msgs[chain.len() - 1],
            )
        }
    }

    /// The bracketed list of the whole chain's entries, if shown and present.
    pub open spec fn compact_context_text(&self, e: AnyError<C, K>) -> Seq<char> {
        let entries = e.spec_context(ContextDepth::All);
        if self.spec_context() && entries.len() > 0 {
            " "@ + "["@ + entries_text(entries) + "]"@
        } else {
            Seq::empty()
        }
    }

    /// The whole compact report.
    pub open spec fn compact_text(&self, msgs: Seq<Seq<char>>) -> Seq<char> {
        self.compact_messages(self.spec_chain(), msgs) + self.compact_context_text(self.spec_error())
    }

    /// The report text, given the layers' messages and the backtrace's text.
    pub open spec fn report_text(&self, msgs: Seq<Seq<char>>, bt: Seq<char>) -> Seq<char> {
        if self.spec_pretty() {
            self.pretty_text(msgs, bt)
        } else {
            self.compact_text(msgs)
        }
    }

    /// Holds when `text` is this report's text, for some messages of the layers
    /// and (when shown) the text of the backtrace.
    pub open spec fn rendered(&self, text: Seq<char>) -> bool {
        if self.spec_pretty() {
            exists|msgs: Seq<Seq<char>>, bt: Seq<char>|
                self.messages_of(msgs) && (self.spec_backtrace() ==> self.backtrace_of(bt)) && text
                    == self.pretty_text(msgs, bt)
        } else {
            exists|msgs: Seq<Seq<char>>| self.messages_of(msgs) && text == self.compact_text(msgs)
        }
    }

    /// Holds when `bt` is the text of the backtrace of the deepest layer.
    pub open spec fn backtrace_of(&self, bt: Seq<char>) -> bool {
        exists|s: String|
            s@ == bt && vstd::string::to_string_from_display_ensures::<std::backtrace::Backtrace>(
                &self.spec_error().spec_backtrace(),
                s,
            )
    }

    /// A report over `error` with every switch on.
    pub fn from_error(error: AnyError<C, K>) -> (r: Self)
        ensures
            r.spec_error() == error,
            r.spec_pretty() && r.spec_kind() && r.spec_backtrace() && r.spec_context(),
    {
        ReportInner { error, pretty: true, kind: true, backtrace: true, context: true }
    }

    /// Hands back the error.
    pub fn into_error(self) -> (r: AnyError<C, K>)
        ensures
            r == self.spec_error(),
    {
        self.error
    }

    /// Chooses the pretty (`true`) or the compact layout.
    pub fn pretty(self, pretty: bool) -> (r: Self)
        ensures
            r.spec_error() == self.spec_error(),
            r.spec_pretty() == pretty,
            r.spec_kind() == self.spec_kind(),
            r.spec_backtrace() == self.spec_backtrace(),
            r.spec_context() == self.spec_context(),
    {
        ReportInner { pretty, ..self }
    }

    /// Shows or hides the kinds.
    pub fn kind(self, kind: bool) -> (r: Self)
        ensures
            r.spec_error() == self.spec_error(),
            r.spec_pretty() == self.spec_pretty(),
            r.spec_kind() == kind,
            r.spec_backtrace() == self.spec_backtrace(),
            r.spec_context() == self.spec_context(),
    {
        ReportInner { kind, ..self }
    }

    /// Shows or hides the backtrace.
    pub fn backtrace(self, backtrace: bool) -> (r: Self)
        ensures
            r.spec_error() == self.spec_error(),
            r.spec_pretty() == self.spec_pretty(),
            r.spec_kind() == self.spec_kind(),
            r.spec_backtrace() == backtrace,
            r.spec_context() == self.spec_context(),
    {
        ReportInner { backtrace, ..self }
    }

    /// Shows or hides the context.
    pub fn context(self, context: bool) -> (r: Self)
        ensures
            r.spec_error() == self.spec_error(),
            r.spec_pretty() == self.spec_pretty(),
            r.spec_kind() == self.spec_kind(),
            r.spec_backtrace() == self.spec_backtrace(),
            r.spec_context() == context,
    {
        ReportInner { context, ..self }
    }

    /// Appends the report: pretty or compact, as switched.
    pub fn render(&self, out: &mut String)
        ensures
            self.spec_pretty() ==> exists|msgs: Seq<Seq<char>>, bt: Seq<char>|
                self.messages_of(msgs) && (self.spec_backtrace() ==> self.backtrace_of(bt))
                    && final(out)@ == old(out)@ + self.pretty_text(msgs, bt),
            !self.spec_pretty() ==> exists|msgs: Seq<Seq<char>>|
                self.messages_of(msgs) && final(out)@ == old(out)@ + self.compact_text(msgs),
    {
        if self.pretty {
            self.render_pretty_report(out);
        } else {
            self.render_compact_report(out);
        }
    }

    /// Returns the report text.
    pub fn to_string(&self) -> (r: String)
        ensures
            self.rendered(r@),
    {
        let mut out = String::new();
        self.render(&mut out);
        assert(out@ =~= Seq::<char>::empty() + out@);
        out
    }

    fn render_pretty_report(&self, out: &mut String)
        ensures
            exists|msgs: Seq<Seq<char>>, bt: Seq<char>|
                self.messages_of(msgs) && (self.spec_backtrace() ==> self.backtrace_of(bt))
                    && final(out)@ == old(out)@ + self.pretty_text(msgs, bt),
    {
        let ghost chain = self.spec_chain();
        let ghost start = out@;
        let mut cur: &AnyError<C, K> = &self.error;
        let m0 = self.render_single_pretty_error(out, "Error:", cur);
        let ghost mut msgs: Seq<Seq<char>> = seq![m0@];
        let ghost mut i: int = 1;
        proof {
            self.error.lemma_chain_unfold();
            let first = chain.subrange(0, 1);
            assert(first.drop_last() =~= Seq::<AnyError<C, K>>::empty());
            assert(msgs.drop_last() =~= Seq::<Seq<char>>::empty());
            assert(self.pretty_blocks(Seq::empty(), Seq::empty()) == Seq::<char>::empty());
            assert(first.last() == self.error);
            assert(out@ =~= start + self.pretty_blocks(first, msgs));
            assert(chain.subrange(0, chain.len() as int) =~= chain);
        }
        loop
            invariant
                1 <= i <= chain.len(),
                start == old(out)@,
                chain == self.spec_chain(),
                cur.spec_chain() == chain.subrange(i - 1, chain.len() as int),
                msgs.len() == i,
                forall|j: int|
                    0 <= j < i && !(#[trigger] chain[j]).is_opaque() ==> msgs[j]
                        == chain[j].spec_message(),
                out@ == start + self.pretty_blocks(chain.subrange(0, i), msgs),
            ensures
                i == chain.len(),
            decreases chain.len() - i,
        {
            let ghost before = out@;
            match cur.source() {
                Some(next) => {
                    proof {
                        lemma_chain_step(chain, i, *cur, *next);
                    }
                    let m = self.render_single_pretty_error(out, "Caused by:", next);
                    proof {
                        let old_msgs = msgs;
                        msgs = msgs.push(m@);
                        let prefix = chain.subrange(0, i + 1);
                        assert(prefix.drop_last() =~= chain.subrange(0, i));
                        assert(msgs.drop_last() =~= old_msgs);
                        assert(prefix.last() == *next);
                        assert(msgs[i] == m@);
                        assert(out@ =~= start + self.pretty_blocks(prefix, msgs));
                        i = i + 1;
                    }
                    cur = next;
                },
                None => {
                    proof {
                        lemma_chain_end(chain, i, *cur);
                    }
                    break ;
                },
            }
        }
        let bt = self.render_backtrace(out);
        proof {
            assert(chain.subrange(0, i) =~= chain);
            assert(out@ =~= start + self.pretty_text(msgs, bt@));
            assert(self.messages_of(msgs));
        }
    }

    fn render_single_pretty_error(&self, out: &mut String, title: &str, error: &AnyError<C, K>) -> (m:
        Ghost<Seq<char>>)
        ensures
            !error.is_opaque() ==> m@ == error.spec_message(),
            final(out)@ == old(out)@ + self.pretty_block(title@, *error, m@),
    {
        out.append(title);
        out.append("\n");
        let m = self.render_pretty_single_error_message(out, error);
        self.render_pretty_one_line_context(out, error);
        proof {
            assert(out@ =~= old(out)@ + self.pretty_block(title@, *error, m@));
        }
        m
    }

    fn render_pretty_single_error_message(&self, out: &mut String, error: &AnyError<C, K>) -> (m:
        Ghost<Seq<char>>)
        ensures
            !error.is_opaque() ==> m@ == error.spec_message(),
            final(out)@ == old(out)@ + "    "@ + self.message_text(*error, m@) + "\n"@,
    {
        out.append("    ");
        let m = self.render_compact_single_error_message(out, error);
        out.append("\n");
        proof {
            assert(out@ =~= old(out)@ + "    "@ + self.message_text(*error, m@) + "\n"@);
        }
        m
    }

    fn render_pretty_one_line_context(&self, out: &mut String, error: &AnyError<C, K>)
        ensures
            final(out)@ == old(out)@ + self.pretty_context_text(*error),
    {
        if !self.context {
            assert(out@ =~= old(out)@ + self.pretty_context_text(*error));
            return ;
        }
        let it = error.context(ContextDepth::Shallowest);
        if it.is_empty() {
            assert(out@ =~= old(out)@ + self.pretty_context_text(*error));
            return ;
        }
        out.append("    [");
        render_entries(out, it);
        out.append("]\n");
        proof {
            assert(out@ =~= old(out)@ + self.pretty_context_text(*error));
        }
    }

    fn render_backtrace(&self, out: &mut String) -> (bt: Ghost<Seq<char>>)
        ensures
            self.spec_backtrace() ==> self.backtrace_of(bt@),
            final(out)@ == old(out)@ + self.backtrace_text(bt@),
    {
        if !self.backtrace {
            assert(out@ =~= old(out)@ + self.backtrace_text(Seq::empty()));
            return Ghost(Seq::empty());
        }
        out.append("\n");
        out.append("Stack backtrace:");
        out.append("\n");
        let text = self.error.backtrace().to_string();
        out.append(text.as_str());
        out.append("\n");
        proof {
            assert(out@ =~= old(out)@ + self.backtrace_text(text@));
        }
        Ghost(text@)
    }

    fn render_compact_report(&self, out: &mut String)
        ensures
            exists|msgs: Seq<Seq<char>>|
                self.messages_of(msgs) && final(out)@ == old(out)@ + self.compact_text(msgs),
    {
        let msgs = self.render_one_line_message(out);
        self.render_compact_one_line_context(out, &self.error);
        proof {
            assert(out@ =~= old(out)@ + self.compact_text(msgs@));
        }
    }

    fn render_one_line_message(&self, out: &mut String) -> (msgs: Ghost<Seq<Seq<char>>>)
        ensures
            self.messages_of(msgs@),
            final(out)@ == old(out)@ + self.compact_messages(self.spec_chain(), msgs@),
    {
        let ghost chain = self.spec_chain();
        let ghost start = out@;
        let mut cur: &AnyError<C, K> = &self.error;
        let m0 = self.render_compact_single_error_message(out, cur);
        let ghost mut msgs: Seq<Seq<char>> = seq![m0@];
        let ghost mut i: int = 1;
        proof {
            self.error.lemma_chain_unfold();
            let first = chain.subrange(0, 1);
            assert(first[0] == self.error);
            assert(out@ =~= start + self.compact_messages(first, msgs));
        }
        loop
            invariant
                1 <= i <= chain.len(),
                start == old(out)@,
                chain == self.spec_chain(),
                cur.spec_chain() == chain.subrange(i - 1, chain.len() as int),
                msgs.len() == i,
                forall|j: int|
                    0 <= j < i && !(#[trigger] chain[j]).is_opaque() ==> msgs[j]
                        == chain[j].spec_message(),
                out@ == start + self.compact_messages(chain.subrange(0, i), msgs),
            ensures
                i == chain.len(),
            decreases chain.len() - i,
        {
            match cur.source() {
                Some(next) => {
                    proof {
                        lemma_chain_step(chain, i, *cur, *next);
                    }
                    out.append(": ");
                    let m = self.render_compact_single_error_message(out, next);
                    proof {
                        let old_msgs = msgs;
                        msgs = msgs.push(m@);
                        let prefix = chain.subrange(0, i + 1);
                        assert(prefix.drop_last() =~= chain.subrange(0, i));
                        assert(msgs.drop_last() =~= old_msgs);
                        assert(prefix.last() == *next);
                        assert(msgs[i] == m@);
                        assert(out@ =~= start + self.compact_messages(prefix, msgs));
                        i = i + 1;
                    }
                    cur = next;
                },
                None => {
                    proof {
                        lemma_chain_end(chain, i, *cur);
                    }
                    break ;
                },
            }
        }
        proof {
            assert(chain.subrange(0, i) =~= chain);
        }
        Ghost(msgs)
    }

    fn render_compact_one_line_context(&self, out: &mut String, error: &AnyError<C, K>)
        ensures
            final(out)@ == old(out)@ + self.compact_context_text(*error),
    {
        if !self.context {
            assert(out@ =~= old(out)@ + self.compact_context_text(*error));
            return ;
        }
        let it = error.context(ContextDepth::All);
        if it.is_empty() {
            assert(out@ =~= old(out)@ + self.compact_context_text(*error));
            return ;
        }
        out.append(" ");
        out.append("[");
        render_entries(out, it);
        out.append("]");
        proof {
            assert(out@ =~= old(out)@ + self.compact_context_text(*error));
        }
    }

    fn render_compact_single_error_message(&self, out: &mut String, error: &AnyError<C, K>) -> (m:
        Ghost<Seq<char>>)
        ensures
            !error.is_opaque() ==> m@ == error.spec_message(),
            final(out)@ == old(out)@ + self.message_text(*error, m@),
    {
        let msg = error.message();
        if self.kind {
            out.append("(");
            let name = error.kind().name();
            out.append(name.as_str());
            out.append(") ");
        }
        out.append(msg.as_str());
        proof {
            assert(out@ =~= old(out)@ + self.message_text(*error, msg@));
        }
        Ghost(msg@)
    }
}

impl<C: AbstractContext, K: Kind> From<AnyError<C, K>> for ReportInner<C, K> where C::Entry: Render {
    fn from(error: AnyError<C, K>) -> (r: Self)
        ensures
            r.spec_error() == error,
            r.spec_pretty() && r.spec_kind() && r.spec_backtrace() && r.spec_context(),
    {
        ReportInner::from_error(error)
    }
}

impl<C: AbstractContext, K: Kind> vstd::std_specs::convert::FromSpecImpl<AnyError<C, K>> for ReportInner<C, K> where C::Entry: Render {
    open spec fn obeys_from_spec() -> bool {
        false
    }

    closed spec fn from_spec(v: AnyError<C, K>) -> Self {
        arbitrary()
    }
}

enum ReportVariant<C, K> {
    Success,
    Failure(ReportInner<C, K>),
}

/// A report over the outcome of a computation: nothing to print on success,
/// a rendering of the error on failure.
pub struct Report<C, K>(ReportVariant<C, K>);

impl<C: AbstractContext, K: Kind> Report<C, K> where C::Entry: Render {
    /// The report over the error, if the outcome was a failure.
    pub closed spec fn spec_failure(&self) -> Option<ReportInner<C, K>> {
        match self.0 {
            ReportVariant::Success => None,
            ReportVariant::Failure(inner) => Some(inner),
        }
    }

    /// A failure report over `error`, with every switch on.
    pub fn wrap(error: AnyError<C, K>) -> (r: Self)
        ensures
            r.spec_failure() is Some,
            r.spec_failure()->0.spec_error() == error,
            r.spec_failure()->0.spec_pretty() && r.spec_failure()->0.spec_kind(),
            r.spec_failure()->0.spec_backtrace() && r.spec_failure()->0.spec_context(),
    {
        Report(ReportVariant::Failure(ReportInner::from_error(error)))
    }

    /// Runs `func`: a success report if it succeeds, else a failure report
    /// over its error with every switch on.
    pub fn capture<F: FnOnce() -> Result<(), AnyError<C, K>>>(func: F) -> (r: Self)
        requires
            func.requires(()),
        ensures
            exists|res: Result<(), AnyError<C, K>>|
                func.ensures((), res) && match res {
                    Ok(_) => r.spec_failure() is None,
                    Err(e) => r.spec_failure() is Some && r.spec_failure()->0.spec_error() == e
                        && r.spec_failure()->0.spec_pretty() && r.spec_failure()->0.spec_kind()
                        && r.spec_failure()->0.spec_backtrace()
                        && r.spec_failure()->0.spec_context(),
                },
    {
        let res = func();
        match res {
            Ok(_) => Report(ReportVariant::Success),
            Err(e) => Report::wrap(e),
        }
    }

    /// Chooses the pretty (`true`) or the compact layout of a failure report.
    pub fn pretty(self, pretty: bool) -> (r: Self)
        ensures
            r.spec_failure() is Some == self.spec_failure() is Some,
            r.spec_failure() is Some ==> r.spec_failure()->0.spec_error()
                == self.spec_failure()->0.spec_error(),
            r.spec_failure() is Some ==> r.spec_failure()->0.spec_pretty() == pretty,
            r.spec_failure() is Some ==> r.spec_failure()->0.spec_kind() == self.spec_failure()->0.spec_kind(),
            r.spec_failure() is Some ==> r.spec_failure()->0.spec_backtrace() == self.spec_failure()->0.spec_backtrace(),
            r.spec_failure() is Some ==> r.spec_failure()->0.spec_context() == self.spec_failure()->0.spec_context(),
    {
        match self.0 {
            ReportVariant::Failure(inner) => Report(ReportVariant::Failure(inner.pretty(pretty))),
            v => Report(v),
        }
    }

    /// Shows or hides the kinds in a failure report.
    pub fn kind(self, kind: bool) -> (r: Self)
        ensures
            r.spec_failure() is Some == self.spec_failure() is Some,
            r.spec_failure() is Some ==> r.spec_failure()->0.spec_error()
                == self.spec_failure()->0.spec_error(),
            r.spec_failure() is Some ==> r.spec_failure()->0.spec_pretty() == self.spec_failure()->0.spec_pretty(),
            r.spec_failure() is Some ==> r.spec_failure()->0.spec_kind() == kind,
            r.spec_failure() is Some ==> r.spec_failure()->0.spec_backtrace() == self.spec_failure()->0.spec_backtrace(),
            r.spec_failure() is Some ==> r.spec_failure()->0.spec_context() == self.spec_failure()->0.spec_context(),
    {
        match self.0 {
            ReportVariant::Failure(inner) => Report(ReportVariant::Failure(inner.kind(kind))),
            v => Report(v),
        }
    }

    /// Shows or hides the backtrace in a failure report.
    pub fn backtrace(self, backtrace: bool) -> (r: Self)
        ensures
            r.spec_failure() is Some == self.spec_failure() is Some,
            r.spec_failure() is Some ==> r.spec_failure()->0.spec_error()
                == self.spec_failure()->0.spec_error(),
            r.spec_failure() is Some ==> r.spec_failure()->0.spec_pretty() == self.spec_failure()->0.spec_pretty(),
            r.spec_failure() is Some ==> r.spec_failure()->0.spec_kind() == self.spec_failure()->0.spec_kind(),
            r.spec_failure() is Some ==> r.spec_failure()->0.spec_backtrace() == backtrace,
            r.spec_failure() is Some ==> r.spec_failure()->0.spec_context() == self.spec_failure()->0.spec_context(),
    {
        match self.0 {
            ReportVariant::Failure(inner) => Report(
                ReportVariant::Failure(inner.backtrace(backtrace)),
            ),
            v => Report(v),
        }
    }

    /// Shows or hides the context in a failure report.
    pub fn context(self, context: bool) -> (r: Self)
        ensures
            r.spec_failure() is Some == self.spec_failure() is Some,
            r.spec_failure() is Some ==> r.spec_failure()->0.spec_error()
                == self.spec_failure()->0.spec_error(),
            r.spec_failure() is Some ==> r.spec_failure()->0.spec_pretty() == self.spec_failure()->0.spec_pretty(),
            r.spec_failure() is Some ==> r.spec_failure()->0.spec_kind() == self.spec_failure()->0.spec_kind(),
            r.spec_failure() is Some ==> r.spec_failure()->0.spec_backtrace() == self.spec_failure()->0.spec_backtrace(),
            r.spec_failure() is Some ==> r.spec_failure()->0.spec_context() == context,
    {
        match self.0 {
            ReportVariant::Failure(inner) => Report(ReportVariant::Failure(inner.context(context))),
            v => Report(v),
        }
    }

    /// Returns true for a success report.
    pub fn is_success(&self) -> (r: bool)
        ensures
            r == self.spec_failure() is None,
    {
        match &self.0 {
            ReportVariant::Success => true,
            ReportVariant::Failure(_) => false,
        }
    }

    /// Appends the report: nothing on success, the error's report on failure.
    pub fn render(&self, out: &mut String)
        ensures
            self.spec_failure() is None ==> final(out)@ == old(out)@,
            self.spec_failure() is Some ==> exists|t: Seq<char>|
                self.spec_failure()->0.rendered(t) && final(out)@ == old(out)@ + t,
    {
        match &self.0 {
            ReportVariant::Failure(inner) => {
                let text = inner.to_string();
                out.append(text.as_str());
            },
            ReportVariant::Success => {},
        }
    }

    /// Returns the report text: empty on success.
    pub fn to_string(&self) -> (r: String)
        ensures
            self.spec_failure() is None ==> r@ == Seq::<char>::empty(),
            self.spec_failure() is Some ==> self.spec_failure()->0.rendered(r@),
    {
        match &self.0 {
            ReportVariant::Failure(inner) => inner.to_string(),
            ReportVariant::Success => String::new(),
        }
    }
}

impl<C: AbstractContext, K: Kind> From<AnyError<C, K>> for Report<C, K> where C::Entry: Render {
    fn from(error: AnyError<C, K>) -> (r: Self)
        ensures
            r.spec_failure() is Some,
            r.spec_failure()->0.spec_error() == error,
    {
        Report::wrap(error)
    }
}

impl<C: AbstractContext, K: Kind> vstd::std_specs::convert::FromSpecImpl<AnyError<C, K>> for Report<C, K> where C::Entry: Render {
    open spec fn obeys_from_spec() -> bool {
        false
    }

    closed spec fn from_spec(v: AnyError<C, K>) -> Self {
        arbitrary()
    }
}

} // verus!
