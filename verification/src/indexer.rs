//! The message-indexer capability interface and its deterministic test
//! double.
//!
//! The indexing pipeline depends on two operations: report the chain's
//! finalized block number, and fetch every cross-chain message whose origin
//! falls within an inclusive block range, ordered by origin. The interface
//! carries those contracts; the mock implements them deterministically, is
//! configurable to return fixed values or injected failures, and records the
//! arguments of every call so tests can assert exact call sequences.

use vstd::prelude::*;

use crate::errors::ChainError;

verus! {

broadcast use vstd::seq_lib::group_filter_ensures;

/// One cross-chain message body, with the plain fields the pipeline reads.
#[derive(Clone, Debug, PartialEq, Eq)]
pub struct AbacusMessage {
    /// The message format version.
    pub version: u8,
    /// The message's nonce on its origin chain.
    pub nonce: u32,
    /// The origin domain identifier.
    pub origin: u32,
    /// The sender's address bytes on the origin chain.
    pub sender: Vec<u8>,
    /// The destination domain identifier.
    pub destination: u32,
    /// The recipient's address bytes on the destination chain.
    pub recipient: Vec<u8>,
    /// The opaque message body.
    pub body: Vec<u8>,
}

/// The mathematical value of one message.
pub ghost struct AbacusMessageV {
    /// The message format version.
    pub version: u8,
    /// The message's nonce on its origin chain.
    pub nonce: u32,
    /// The origin domain identifier.
    pub origin: u32,
    /// The sender's address bytes.
    pub sender: Seq<u8>,
    /// The destination domain identifier.
    pub destination: u32,
    /// The recipient's address bytes.
    pub recipient: Seq<u8>,
    /// The opaque message body.
    pub body: Seq<u8>,
}

impl View for AbacusMessage {
    type V = AbacusMessageV;

    open spec fn view(&self) -> AbacusMessageV {
        AbacusMessageV {
            version: self.version,
            nonce: self.nonce,
            origin: self.origin,
            sender: self.sender@,
            destination: self.destination,
            recipient: self.recipient@,
            body: self.body@,
        }
    }
}

/// The metadata of the log entry that emitted a message.
#[derive(Clone, Copy, Debug, PartialEq, Eq, Structural)]
pub struct LogMeta {
    /// The block in which the log was emitted.
    pub block_number: u64,
    /// The index of the emitting transaction within that block.
    pub transaction_index: u64,
    /// The index of the log within that transaction.
    pub log_index: u64,
}

/// Origin order: by block, then by log index within the block.
pub open spec fn origin_le(a: LogMeta, b: LogMeta) -> bool {
    ||| a.block_number < b.block_number
    ||| (a.block_number == b.block_number && a.log_index <= b.log_index)
}

/// The sequence is ordered by increasing origin position.
pub open spec fn sorted_by_origin(s: Seq<(AbacusMessageV, LogMeta)>) -> bool {
    forall|i: int, j: int| 0 <= i < j < s.len() ==> origin_le(#[trigger] s[i].1, #[trigger] s[j].1)
}

/// The log was emitted within the inclusive block range.
pub open spec fn in_block_range(meta: LogMeta, from: u32, to: u32) -> bool {
    from <= meta.block_number <= to
}

/// The mathematical values of a vector of message-and-log pairs.
pub open spec fn pair_views(s: Seq<(AbacusMessage, LogMeta)>) -> Seq<(AbacusMessageV, LogMeta)> {
    s.map_values(|p: (AbacusMessage, LogMeta)| (p.0@, p.1))
}

/// The pairs of the sequence whose origin falls within the range, in order.
pub open spec fn range_filter(s: Seq<(AbacusMessageV, LogMeta)>, from: u32, to: u32) -> Seq<
    (AbacusMessageV, LogMeta),
> {
    s.filter(|q: (AbacusMessageV, LogMeta)| in_block_range(q.1, from, to))
}

/// Reports the chain's current finalized block number, as seen by the
/// indexer's backing chain. A read-only, idempotent query.
pub trait Indexer {
    /// The current finalized block number, or a normalized failure.
    fn get_finalized_block_number(&mut self) -> (r: Result<u32, ChainError>);
}

/// Fetches cross-chain messages by inclusive origin-block range.
pub trait MailboxIndexer {
    /// Every message whose origin block lies in `[from, to]`, with the
    /// metadata of the emitting log, ordered by increasing origin position.
    /// An empty range is an empty sequence, never an error.
    fn fetch_sorted_messages(&mut self, from: u32, to: u32) -> (r: Result<
        Vec<(AbacusMessage, LogMeta)>,
        ChainError,
    >)
        ensures
            r matches Ok(v) ==> sorted_by_origin(pair_views(v@)),
            r matches Ok(v) ==> forall|i: int|
                0 <= i < pair_views(v@).len() ==> #[trigger] in_block_range(
                    pair_views(v@)[i].1,
                    from,
                    to,
                ),
            from > to ==> (r matches Ok(v) && v@.len() == 0),
    ;
}

/// Filtering by block range keeps only pairs within the range.
proof fn lemma_range_filter_push(
    s: Seq<(AbacusMessageV, LogMeta)>,
    x: (AbacusMessageV, LogMeta),
    from: u32,
    to: u32,
)
    ensures
        range_filter(s.push(x), from, to) == if in_block_range(x.1, from, to) {
            range_filter(s, from, to).push(x)
        } else {
            range_filter(s, from, to)
        },
{
    reveal(Seq::filter);
    assert(s.push(x).drop_last() =~= s);
    assert(s.push(x).last() == x);
}

/// Every pair the range filter keeps appears in the unfiltered sequence.
proof fn lemma_range_filter_subset(s: Seq<(AbacusMessageV, LogMeta)>, from: u32, to: u32)
    ensures
        forall|i: int|
            0 <= i < range_filter(s, from, to).len() ==> exists|j: int|
                0 <= j < s.len() && s[j] == #[trigger] range_filter(s, from, to)[i],
    decreases s.len(),
{
    reveal(Seq::filter);
    if s.len() > 0 {
        let t = s.drop_last();
        lemma_range_filter_subset(t, from, to);
        assert forall|i: int| 0 <= i < range_filter(s, from, to).len() implies exists|j: int|
            0 <= j < s.len() && s[j] == #[trigger] range_filter(s, from, to)[i] by {
            if i < range_filter(t, from, to).len() {
                assert(range_filter(s, from, to)[i] == range_filter(t, from, to)[i]);
                let j = choose|j: int|
                    0 <= j < t.len() && t[j] == range_filter(t, from, to)[i];
                assert(s[j] == range_filter(s, from, to)[i]);
            } else {
                assert(range_filter(s, from, to)[i] == s.last());
                assert(s[s.len() - 1] == range_filter(s, from, to)[i]);
            }
        }
    }
}

/// Every pair the range filter keeps lies within the range.
proof fn lemma_range_filter_in_range(s: Seq<(AbacusMessageV, LogMeta)>, from: u32, to: u32)
    ensures
        forall|i: int|
            0 <= i < range_filter(s, from, to).len() ==> in_block_range(
                (#[trigger] range_filter(s, from, to)[i]).1,
                from,
                to,
            ),
    decreases s.len(),
{
    reveal(Seq::filter);
    if s.len() > 0 {
        let t = s.drop_last();
        lemma_range_filter_in_range(t, from, to);
        assert forall|i: int| 0 <= i < range_filter(s, from, to).len() implies in_block_range(
            (#[trigger] range_filter(s, from, to)[i]).1,
            from,
            to,
        ) by {
            if i < range_filter(t, from, to).len() {
                assert(range_filter(s, from, to)[i] == range_filter(t, from, to)[i]);
            } else {
                assert(range_filter(s, from, to)[i] == s.last());
            }
        }
    }
}

/// Filtering by block range preserves origin order.
proof fn lemma_range_filter_sorted(s: Seq<(AbacusMessageV, LogMeta)>, from: u32, to: u32)
    requires
        sorted_by_origin(s),
    ensures
        sorted_by_origin(range_filter(s, from, to)),
    decreases s.len(),
{
    reveal(Seq::filter);
    if s.len() > 0 {
        let t = s.drop_last();
        assert(sorted_by_origin(t)) by {
            assert(forall|i: int| 0 <= i < t.len() ==> t[i] == s[i]);
        }
        lemma_range_filter_sorted(t, from, to);
        lemma_range_filter_subset(t, from, to);
        let out = range_filter(s, from, to);
        let kept = range_filter(t, from, to);
        if in_block_range(s.last().1, from, to) {
            assert(out == kept.push(s.last()));
            assert forall|i: int, j: int| 0 <= i < j < out.len() implies origin_le(
                #[trigger] out[i].1,
                #[trigger] out[j].1,
            ) by {
                if j < kept.len() {
                    assert(out[i] == kept[i] && out[j] == kept[j]);
                } else {
                    assert(out[j] == s.last());
                    if i < kept.len() {
                        let w = choose|w: int| 0 <= w < t.len() && t[w] == kept[i];
                        assert(s[w] == t[w]);
                        assert(origin_le(s[w].1, s[s.len() - 1].1));
                    }
                }
            }
        } else {
            assert(out == kept);
        }
    }
}

/// How one more recorded call changes a saturating call counter.
pub open spec fn bumped(count: u64) -> u64 {
    if count == u64::MAX {
        count
    } else {
        (count + 1) as u64
    }
}

/// A deterministic, call-recording test double for the indexer interface.
///
/// Each operation is independently configurable to return a fixed value or
/// an injected failure, and records the arguments it was called with, so
/// indexing-pipeline tests can assert exact call sequences and drive both
/// success and failure paths without a live chain.
pub struct MockAbacusIndexer {
    finalized_height: u32,
    height_error: Option<ChainError>,
    messages: Vec<(AbacusMessage, LogMeta)>,
    fetch_error: Option<ChainError>,
    height_queries: u64,
    fetch_queries: Vec<(u32, u32)>,
}

impl MockAbacusIndexer {
    /// The configured messages are kept in origin order, so every range
    /// query answers in origin order.
    #[verifier::type_invariant]
    spec fn wf(self) -> bool {
        sorted_by_origin(pair_views(self.messages@))
    }

    /// The configured finalized block number.
    pub closed spec fn spec_finalized_height(self) -> u32 {
        self.finalized_height
    }

    /// The failure the height query is configured to inject, if any.
    pub closed spec fn spec_height_error(self) -> Option<ChainError> {
        self.height_error
    }

    /// The configured messages with their log metadata, in origin order.
    pub closed spec fn spec_messages(self) -> Seq<(AbacusMessage, LogMeta)> {
        self.messages@
    }

    /// The failure the fetch operation is configured to inject, if any.
    pub closed spec fn spec_fetch_error(self) -> Option<ChainError> {
        self.fetch_error
    }

    /// How many times the height query was called.
    pub closed spec fn spec_height_queries(self) -> u64 {
        self.height_queries
    }

    /// The ranges the fetch operation was called with, in call order.
    pub closed spec fn spec_fetch_queries(self) -> Seq<(u32, u32)> {
        self.fetch_queries@
    }

    /// A fresh mock: height 0, no messages, no injected failures, nothing
    /// recorded.
    pub fn new() -> (r: Self)
        ensures
            r.spec_finalized_height() == 0,
            r.spec_height_error() is None,
            r.spec_messages() == Seq::<(AbacusMessage, LogMeta)>::empty(),
            r.spec_fetch_error() is None,
            r.spec_height_queries() == 0,
            r.spec_fetch_queries() == Seq::<(u32, u32)>::empty(),
    {
        let r = MockAbacusIndexer {
            finalized_height: 0,
            height_error: None,
            messages: Vec::new(),
            fetch_error: None,
            height_queries: 0,
            fetch_queries: Vec::new(),
        };
        proof {
            assert(r.spec_messages() =~= Seq::<(AbacusMessage, LogMeta)>::empty());
            assert(r.spec_fetch_queries() =~= Seq::<(u32, u32)>::empty());
        }
        r
    }

    /// Configures the height query to return the given value.
    pub fn set_finalized_block_number(&mut self, height: u32)
        ensures
            final(self).spec_finalized_height() == height,
            final(self).spec_height_error() is None,
            final(self).spec_messages() == old(self).spec_messages(),
            final(self).spec_fetch_error() == old(self).spec_fetch_error(),
            final(self).spec_height_queries() == old(self).spec_height_queries(),
            final(self).spec_fetch_queries() == old(self).spec_fetch_queries(),
    {
        proof {
            use_type_invariant(&*self);
        }
        self.finalized_height = height;
        self.height_error = None;
    }

    /// Configures the height query to fail with the given error.
    pub fn fail_finalized_block_number(&mut self, error: ChainError)
        ensures
            final(self).spec_height_error() == Some(error),
            final(self).spec_finalized_height() == old(self).spec_finalized_height(),
            final(self).spec_messages() == old(self).spec_messages(),
            final(self).spec_fetch_error() == old(self).spec_fetch_error(),
            final(self).spec_height_queries() == old(self).spec_height_queries(),
            final(self).spec_fetch_queries() == old(self).spec_fetch_queries(),
    {
        proof {
            use_type_invariant(&*self);
        }
        self.height_error = Some(error);
    }

    /// Configures the messages every range query answers from. The pairs
    /// must come in origin order, as a real indexer's log scan yields them.
    pub fn set_sorted_messages(&mut self, messages: Vec<(AbacusMessage, LogMeta)>)
        requires
            sorted_by_origin(pair_views(messages@)),
        ensures
            final(self).spec_messages() == messages@,
            final(self).spec_fetch_error() is None,
            final(self).spec_finalized_height() == old(self).spec_finalized_height(),
            final(self).spec_height_error() == old(self).spec_height_error(),
            final(self).spec_height_queries() == old(self).spec_height_queries(),
            final(self).spec_fetch_queries() == old(self).spec_fetch_queries(),
    {
        proof {
            use_type_invariant(&*self);
        }
        self.messages = messages;
        self.fetch_error = None;
    }

    /// Configures the fetch operation to fail with the given error on every
    /// non-empty range.
    pub fn fail_fetch_sorted_messages(&mut self, error: ChainError)
        ensures
            final(self).spec_fetch_error() == Some(error),
            final(self).spec_finalized_height() == old(self).spec_finalized_height(),
            final(self).spec_height_error() == old(self).spec_height_error(),
            final(self).spec_messages() == old(self).spec_messages(),
            final(self).spec_height_queries() == old(self).spec_height_queries(),
            final(self).spec_fetch_queries() == old(self).spec_fetch_queries(),
    {
        proof {
            use_type_invariant(&*self);
        }
        self.fetch_error = Some(error);
    }

    /// How many times the height query was called so far.
    pub fn finalized_block_number_calls(&self) -> (r: u64)
        ensures
            r == self.spec_height_queries(),
    {
        self.height_queries
    }

    /// The ranges the fetch operation was called with, in call order.
    pub fn fetch_sorted_messages_calls(&self) -> (r: &Vec<(u32, u32)>)
        ensures
            r@ == self.spec_fetch_queries(),
    {
        &self.fetch_queries
    }

    /// The configured answer of the height query: the injected failure if
    /// one is set, else the configured value.
    pub open spec fn height_response(m: MockAbacusIndexer) -> Result<u32, ChainError> {
        match m.spec_height_error() {
            Some(e) => Err(e),
            None => Ok(m.spec_finalized_height()),
        }
    }

    /// The configured answer of a range query: an empty range is empty
    /// without consulting anything else; otherwise the injected failure if
    /// one is set, else the configured pairs within the range, in order.
    pub open spec fn fetch_response(m: MockAbacusIndexer, from: u32, to: u32) -> Result<
        Seq<(AbacusMessageV, LogMeta)>,
        ChainError,
    > {
        if from > to {
            Ok(Seq::empty())
        } else {
            match m.spec_fetch_error() {
                Some(e) => Err(e),
                None => Ok(range_filter(pair_views(m.spec_messages()), from, to)),
            }
        }
    }

    /// The recorded height query: answers exactly as configured, leaves the
    /// whole configuration unchanged, and records the call.
    pub fn _get_finalized_block_number(&mut self) -> (r: Result<u32, ChainError>)
        ensures
            r == Self::height_response(*old(self)),
            same_configuration(*old(self), *final(self)),
            final(self).spec_height_queries() == bumped(old(self).spec_height_queries()),
            final(self).spec_fetch_queries() == old(self).spec_fetch_queries(),
    {
        proof {
            use_type_invariant(&*self);
        }
        if self.height_queries < u64::MAX {
            self.height_queries = self.height_queries + 1;
        }
        match &self.height_error {
            Some(e) => Err(e.duplicate()),
            None => Ok(self.finalized_height),
        }
    }

    /// The recorded range query: answers exactly as configured, leaves the
    /// whole configuration unchanged, and records the range it was asked
    /// for.
    pub fn _fetch_sorted_messages(&mut self, from: u32, to: u32) -> (r: Result<
        Vec<(AbacusMessage, LogMeta)>,
        ChainError,
    >)
        ensures
            match Self::fetch_response(*old(self), from, to) {
                Ok(s) => r matches Ok(v) && pair_views(v@) == s,
                Err(e) => r == Err::<Vec<(AbacusMessage, LogMeta)>, ChainError>(e),
            },
            same_configuration(*old(self), *final(self)),
            final(self).spec_height_queries() == old(self).spec_height_queries(),
            final(self).spec_fetch_queries() == old(self).spec_fetch_queries().push((from, to)),
    {
        proof {
            use_type_invariant(&*self);
        }
        let mut recorded: Vec<(u32, u32)> = Vec::new();
        core::mem::swap(&mut recorded, &mut self.fetch_queries);
        recorded.push((from, to));
        core::mem::swap(&mut recorded, &mut self.fetch_queries);
        if from > to {
            let empty: Vec<(AbacusMessage, LogMeta)> = Vec::new();
            proof {
                assert(pair_views(empty@) =~= Seq::<(AbacusMessageV, LogMeta)>::empty());
            }
            return Ok(empty);
        }
        match &self.fetch_error {
            Some(e) => {
                return Err(e.duplicate());
            },
            None => {},
        }
        let n = self.messages.len();
        let mut out: Vec<(AbacusMessage, LogMeta)> = Vec::new();
        let mut i: usize = 0;
        proof {
            assert(pair_views(self.messages@.take(0)) =~= Seq::<(AbacusMessageV, LogMeta)>::empty());
            reveal(Seq::filter);
        }
        while i < n
            invariant
                n == self.messages@.len(),
                i <= n,
                pair_views(out@) == range_filter(pair_views(self.messages@.take(i as int)), from, to),
            decreases n - i,
        {
            let ghost done = pair_views(self.messages@.take(i as int));
            let p = &self.messages[i];
            let meta = p.1;
            proof {
                assert(pair_views(self.messages@.take(i as int + 1)) =~= done.push(
                    (self.messages@[i as int].0@, self.messages@[i as int].1),
                ));
                lemma_range_filter_push(
                    done,
                    (self.messages@[i as int].0@, self.messages@[i as int].1),
                    from,
                    to,
                );
            }
            if from as u64 <= meta.block_number && meta.block_number <= to as u64 {
                let msg = copy_message(&p.0);
                out.push((msg, meta));
                proof {
                    assert(pair_views(out@) =~= range_filter(done, from, to).push(
                        (self.messages@[i as int].0@, self.messages@[i as int].1),
                    ));
                }
            }
            i += 1;
        }
        proof {
            assert(self.messages@.take(n as int) =~= self.messages@);
        }
        Ok(out)
    }
}

/// The two mocks agree on everything a query's answer can depend on.
pub open spec fn same_configuration(a: MockAbacusIndexer, b: MockAbacusIndexer) -> bool {
    &&& a.spec_finalized_height() == b.spec_finalized_height()
    &&& a.spec_height_error() == b.spec_height_error()
    &&& a.spec_messages() == b.spec_messages()
    &&& a.spec_fetch_error() == b.spec_fetch_error()
}

/// Idempotence of the height query: with no intervening reconfiguration —
/// and a query never reconfigures anything — the configured answer is the
/// same both times.
pub proof fn lemma_finalized_height_idempotent(first: MockAbacusIndexer, second: MockAbacusIndexer)
    requires
        same_configuration(first, second),
    ensures
        MockAbacusIndexer::height_response(first) == MockAbacusIndexer::height_response(second),
{
}

/// Idempotence of the range query: with the same configuration, the same
/// range is answered the same way.
pub proof fn lemma_fetch_idempotent(
    first: MockAbacusIndexer,
    second: MockAbacusIndexer,
    from: u32,
    to: u32,
)
    requires
        same_configuration(first, second),
    ensures
        MockAbacusIndexer::fetch_response(first, from, to) == MockAbacusIndexer::fetch_response(
            second,
            from,
            to,
        ),
{
}

/// An exact copy of one message, field by field.
fn copy_message(m: &AbacusMessage) -> (r: AbacusMessage)
    ensures
        r@ == m@,
{
    AbacusMessage {
        version: m.version,
        nonce: m.nonce,
        origin: m.origin,
        sender: copy_bytes(&m.sender),
        destination: m.destination,
        recipient: copy_bytes(&m.recipient),
        body: copy_bytes(&m.body),
    }
}

/// An exact copy of a byte vector.
fn copy_bytes(v: &Vec<u8>) -> (r: Vec<u8>)
    ensures
        r@ == v@,
{
    let mut r: Vec<u8> = Vec::new();
    let n = v.len();
    let mut i: usize = 0;
    while i < n
        invariant
            n == v@.len(),
            i <= n,
            r@ == v@.take(i as int),
        decreases n - i,
    {
        r.push(v[i]);
        assert(r@ =~= v@.take(i as int + 1));
        i += 1;
    }
    proof {
        assert(v@.take(n as int) =~= v@);
    }
    r
}

impl Indexer for MockAbacusIndexer {
    /// Forwards to the recorded height query.
    fn get_finalized_block_number(&mut self) -> (r: Result<u32, ChainError>) {
        self._get_finalized_block_number()
    }
}

impl MailboxIndexer for MockAbacusIndexer {
    /// Forwards to the recorded range query; the mock's configured answer
    /// meets the interface contract because its configured messages are kept
    /// in origin order.
    fn fetch_sorted_messages(&mut self, from: u32, to: u32) -> (r: Result<
        Vec<(AbacusMessage, LogMeta)>,
        ChainError,
    >) {
        proof {
            use_type_invariant(&*self);
        }
        let ghost pre = *self;
        let r = self._fetch_sorted_messages(from, to);
        proof {
            if r is Ok {
                let v = r->Ok_0;
                assert(pair_views(v@).len() == v@.len());
                if from > to {
                    assert(pair_views(v@) =~= Seq::<(AbacusMessageV, LogMeta)>::empty());
                } else if pre.spec_fetch_error() is None {
                    lemma_range_filter_sorted(pair_views(pre.spec_messages()), from, to);
                    lemma_range_filter_in_range(pair_views(pre.spec_messages()), from, to);
                }
            }
        }
        r
    }
}

} // verus!
