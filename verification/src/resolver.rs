//! Block/batch reference resolution: symbolic references become query
//! descriptors (SQL fragments for the persistence collaborator) and, against
//! a chain snapshot, concrete sequence numbers.

use vstd::prelude::*;
use vstd::string::StringExecFns;

use crate::types::H256;

verus! {

/// A block reference: an exact sequence number or a symbolic tag resolved
/// against current persisted state at the moment of use.
#[derive(Debug, Clone, Copy, PartialEq, Eq, Structural)]
pub enum BlockNumber {
    /// Highest known miniblock (alias of `Latest`).
    Committed,
    /// Highest miniblock whose containing batch has a confirmed
    /// base-layer execute transaction.
    Finalized,
    /// Highest known miniblock.
    Latest,
    /// Sequence number zero.
    Earliest,
    /// One past the highest known miniblock.
    Pending,
    /// An exact sequence number. Held as 64 bits, which real chain heights
    /// stay far below.
    Number(u64),
}

/// A block reference that may also be a content hash.
#[derive(Debug, Clone, PartialEq, Eq)]
pub enum BlockId {
    Hash(H256),
    Number(BlockNumber),
}

/// Relies on String::push appending one character.
#[verifier::external_body]
fn push_char(s: &mut String, c: char)
    ensures
        final (s)@ == old(s)@.push(c),
{
    s.push(c);
}

/// The ASCII character of one decimal digit.
pub open spec fn dec_char(d: int) -> char {
    ((d + 48) as u8) as char
}

/// The decimal representation of a number, most significant digit first.
pub open spec fn spec_dec_str(n: nat) -> Seq<char>
    decreases n,
{
    if n < 10 {
        seq![dec_char(n as int)]
    } else {
        spec_dec_str(n / 10).push(dec_char((n % 10) as int))
    }
}

/// Renders a number in decimal.
pub fn u64_to_dec_string(n: u64) -> (s: String)
    ensures
        s@ == spec_dec_str(n as nat),
    decreases n,
{
    let digit = ((n % 10) as u8 + 48) as char;
    proof {
        assert(digit == dec_char((n as nat % 10) as int));
    }
    if n < 10 {
        let mut s = String::new();
        push_char(&mut s, digit);
        proof {
            assert(s@ =~= seq![dec_char(n as int)]);
        }
        s
    } else {
        let mut s = u64_to_dec_string(n / 10);
        push_char(&mut s, digit);
        proof {
            assert(s@ =~= spec_dec_str(n as nat));
        }
        s
    }
}

/// The SQL expression a block reference resolves to: a constant for exact
/// numbers, a sub-select evaluated at the moment of use for symbolic tags.
pub open spec fn spec_block_number_sql(block_number: BlockNumber) -> Seq<char> {
    match block_number {
        BlockNumber::Number(n) => spec_dec_str(n as nat),
        BlockNumber::Earliest => "0"@,
        BlockNumber::Pending => "(SELECT (MAX(number) + 1) as number FROM miniblocks)"@,
        BlockNumber::Latest | BlockNumber::Committed => (
        "(SELECT MAX(number) as number FROM miniblocks)"@),
        BlockNumber::Finalized => (
        "
                (SELECT COALESCE(
                    (
                        SELECT MAX(number) FROM miniblocks
                        WHERE l1_batch_number = (
                            SELECT MAX(number) FROM l1_batches
                            JOIN eth_txs ON
                                l1_batches.eth_execute_tx_id = eth_txs.id
                            WHERE
                                eth_txs.confirmed_eth_tx_history_id IS NOT NULL
                        )
                    ),
                    0
                ) as number)
            "@),
    }
}

/// Returns the block_number SQL statement for a block reference.
pub fn web3_block_number_to_sql(block_number: BlockNumber) -> (r: String)
    ensures
        r@ == spec_block_number_sql(block_number),
{
    match block_number {
        BlockNumber::Number(n) => u64_to_dec_string(n),
        BlockNumber::Earliest => String::from_str("0"),
        BlockNumber::Pending => String::from_str(
            "(SELECT (MAX(number) + 1) as number FROM miniblocks)",
        ),
        BlockNumber::Latest | BlockNumber::Committed => String::from_str(
            "(SELECT MAX(number) as number FROM miniblocks)",
        ),
        BlockNumber::Finalized => String::from_str(
            "
                (SELECT COALESCE(
                    (
                        SELECT MAX(number) FROM miniblocks
                        WHERE l1_batch_number = (
                            SELECT MAX(number) FROM l1_batches
                            JOIN eth_txs ON
                                l1_batches.eth_execute_tx_id = eth_txs.id
                            WHERE
                                eth_txs.confirmed_eth_tx_history_id IS NOT NULL
                        )
                    ),
                    0
                ) as number)
            ",
        ),
    }
}

/// The WHERE fragment for a block lookup: hash- and exact-number references
/// compare against the positional parameter, symbolic tags inline their
/// sub-expression.
pub open spec fn spec_block_where_sql(block_id: BlockId, arg_index: u8) -> Seq<char> {
    match block_id {
        BlockId::Hash(_) => "miniblocks.hash = $"@ + spec_dec_str(arg_index as nat),
        BlockId::Number(BlockNumber::Number(_)) => "miniblocks.number = $"@ + spec_dec_str(
            arg_index as nat,
        ),
        BlockId::Number(n) => "miniblocks.number = "@ + spec_block_number_sql(n),
    }
}

/// Returns the WHERE clause fragment for a block lookup.
pub fn web3_block_where_sql(block_id: &BlockId, arg_index: u8) -> (r: String)
    ensures
        r@ == spec_block_where_sql(*block_id, arg_index),
{
    match block_id {
        BlockId::Hash(_) => {
            let idx = u64_to_dec_string(arg_index as u64);
            String::from_str("miniblocks.hash = $").concat(idx.as_str())
        },
        BlockId::Number(BlockNumber::Number(_)) => {
            let idx = u64_to_dec_string(arg_index as u64);
            String::from_str("miniblocks.number = $").concat(idx.as_str())
        },
        BlockId::Number(n) => {
            let sql = web3_block_number_to_sql(*n);
            String::from_str("miniblocks.number = ").concat(sql.as_str())
        },
    }
}

/// One miniblock as the snapshot records it: its number and, once its batch
/// has sealed, the batch it is explicitly assigned to.
#[derive(Debug, Clone, Copy, PartialEq, Eq)]
pub struct MiniblockRecord {
    pub number: u32,
    pub l1_batch: Option<u32>,
}

/// One L1 batch as the snapshot records it: its number and whether its
/// execute transaction has a base-layer confirmation on record.
#[derive(Debug, Clone, Copy, PartialEq, Eq, Structural)]
pub struct BatchRecord {
    pub number: u32,
    pub execute_confirmed: bool,
}

/// A consistent read-only snapshot of the persisted chain state that
/// symbolic references are evaluated against.
#[derive(Debug, Clone, PartialEq, Eq)]
pub struct ChainSnapshot {
    pub miniblocks: Vec<MiniblockRecord>,
    pub batches: Vec<BatchRecord>,
    pub pending_batch: u32,
}

/// The highest batch number among batches with a confirmed execute
/// transaction, if any.
pub open spec fn max_confirmed_batch(batches: Seq<BatchRecord>) -> Option<u32>
    decreases batches.len(),
{
    if batches.len() == 0 {
        None
    } else {
        let rest = max_confirmed_batch(batches.drop_last());
        let last = batches.last();
        if last.execute_confirmed {
            match rest {
                None => Some(last.number),
                Some(m) => if last.number > m {
                    Some(last.number)
                } else {
                    Some(m)
                },
            }
        } else {
            rest
        }
    }
}

/// The highest miniblock number explicitly assigned to batch `b`, or 0 when
/// no miniblock of that batch exists.
pub open spec fn max_miniblock_in_batch(mbs: Seq<MiniblockRecord>, b: u32) -> int
    decreases mbs.len(),
{
    if mbs.len() == 0 {
        0
    } else {
        let rest = max_miniblock_in_batch(mbs.drop_last(), b);
        let last = mbs.last();
        if last.l1_batch == Some(b) && last.number > rest {
            last.number as int
        } else {
            rest
        }
    }
}

impl ChainSnapshot {
    /// A reachable snapshot: a chain that grew from genesis, so miniblock
    /// numbers are exactly 0, 1, ... in order.
    pub open spec fn wf(&self) -> bool {
        &&& self.miniblocks@.len() >= 1
        &&& self.miniblocks@.len() <= u32::MAX + 1
        &&& forall|i: int|
            0 <= i < self.miniblocks@.len() ==> (#[trigger] self.miniblocks@[i]).number == i
    }

    /// The highest known miniblock number.
    pub open spec fn spec_latest(&self) -> int {
        self.miniblocks@.len() - 1
    }

    /// The highest miniblock whose containing batch has a confirmed execute
    /// transaction; 0 when no batch does.
    pub open spec fn spec_finalized(&self) -> int {
        match max_confirmed_batch(self.batches@) {
            None => 0,
            Some(b) => max_miniblock_in_batch(self.miniblocks@, b),
        }
    }

    /// The concrete sequence number a reference denotes against this
    /// snapshot.
    pub open spec fn spec_resolve(&self, block_number: BlockNumber) -> int {
        match block_number {
            BlockNumber::Number(n) => n as int,
            BlockNumber::Earliest => 0,
            BlockNumber::Pending => self.spec_latest() + 1,
            BlockNumber::Latest | BlockNumber::Committed => self.spec_latest(),
            BlockNumber::Finalized => self.spec_finalized(),
        }
    }

    /// Resolves a block reference against this snapshot. Pure: the snapshot
    /// is only read, and symbolic tags are evaluated fresh on every call.
    pub fn resolve(&self, block_number: BlockNumber) -> (r: u64)
        requires
            self.wf(),
        ensures
            r as int == self.spec_resolve(block_number),
    {
        match block_number {
            BlockNumber::Number(n) => n,
            BlockNumber::Earliest => 0,
            BlockNumber::Pending => {
                let last = self.miniblocks[self.miniblocks.len() - 1].number;
                last as u64 + 1
            },
            BlockNumber::Latest | BlockNumber::Committed => {
                self.miniblocks[self.miniblocks.len() - 1].number as u64
            },
            BlockNumber::Finalized => {
                let mut best: Option<u32> = None;
                let mut i: usize = 0;
                while i < self.batches.len()
                    invariant
                        i <= self.batches@.len(),
                        best == max_confirmed_batch(self.batches@.take(i as int)),
                    decreases self.batches@.len() - i,
                {
                    let b = self.batches[i];
                    proof {
                        assert(self.batches@.take(i + 1 as int).drop_last() =~= self.batches@.take(
                            i as int,
                        ));
                        assert(self.batches@.take(i + 1 as int).last() == b);
                    }
                    if b.execute_confirmed {
                        best = match best {
                            None => Some(b.number),
                            Some(m) => if b.number > m {
                                Some(b.number)
                            } else {
                                Some(m)
                            },
                        };
                    }
                    i = i + 1;
                }
                proof {
                    assert(self.batches@.take(self.batches@.len() as int) =~= self.batches@);
                }
                let target = match best {
                    None => {
                        return 0;
                    },
                    Some(t) => t,
                };
                let mut best_mb: u64 = 0;
                let mut i: usize = 0;
                while i < self.miniblocks.len()
                    invariant
                        i <= self.miniblocks@.len(),
                        best_mb as int == max_miniblock_in_batch(
                            self.miniblocks@.take(i as int),
                            target,
                        ),
                    decreases self.miniblocks@.len() - i,
                {
                    let m = self.miniblocks[i];
                    proof {
                        assert(self.miniblocks@.take(i + 1 as int).drop_last()
                            =~= self.miniblocks@.take(i as int));
                        assert(self.miniblocks@.take(i + 1 as int).last() == m);
                    }
                    let in_batch = match m.l1_batch {
                        Some(bb) => bb == target,
                        None => false,
                    };
                    if in_batch && (m.number as u64) > best_mb {
                        best_mb = m.number as u64;
                    }
                    i = i + 1;
                }
                proof {
                    assert(self.miniblocks@.take(self.miniblocks@.len() as int)
                        =~= self.miniblocks@);
                }
                best_mb
            },
        }
    }
}

/// The maximum assigned miniblock number never exceeds a bound that all
/// recorded numbers obey.
proof fn lemma_max_miniblock_bounded(mbs: Seq<MiniblockRecord>, b: u32, m: int)
    requires
        m >= 0,
        forall|i: int| 0 <= i < mbs.len() ==> (#[trigger] mbs[i]).number <= m,
    ensures
        max_miniblock_in_batch(mbs, b) <= m,
    decreases mbs.len(),
{
    if mbs.len() > 0 {
        assert forall|i: int| 0 <= i < mbs.drop_last().len() implies (#[trigger] mbs.drop_last()[i]).number
            <= m by {
            assert(mbs.drop_last()[i] == mbs[i]);
        }
        lemma_max_miniblock_bounded(mbs.drop_last(), b, m);
        assert(mbs.last().number <= m);
    }
}

/// With no confirmed execute transaction on record, no batch is selected.
proof fn lemma_no_confirmation_no_batch(batches: Seq<BatchRecord>)
    requires
        forall|i: int| 0 <= i < batches.len() ==> !(#[trigger] batches[i]).execute_confirmed,
    ensures
        max_confirmed_batch(batches) is None,
    decreases batches.len(),
{
    if batches.len() > 0 {
        assert forall|i: int| 0 <= i < batches.drop_last().len() implies !(
        #[trigger] batches.drop_last()[i]).execute_confirmed by {
            assert(batches.drop_last()[i] == batches[i]);
        }
        lemma_no_confirmation_no_batch(batches.drop_last());
        assert(!batches.last().execute_confirmed);
    }
}

/// On every reachable snapshot, the finalized miniblock number never
/// exceeds the latest one.
pub proof fn lemma_finalized_le_latest(s: ChainSnapshot)
    requires
        s.wf(),
    ensures
        0 <= s.spec_finalized() <= s.spec_resolve(BlockNumber::Latest),
{
    match max_confirmed_batch(s.batches@) {
        None => {},
        Some(b) => {
            lemma_max_miniblock_bounded(s.miniblocks@, b, s.miniblocks@.len() - 1);
            lemma_max_miniblock_nonneg(s.miniblocks@, b);
        },
    }
}

/// The maximum assigned miniblock number is never negative.
proof fn lemma_max_miniblock_nonneg(mbs: Seq<MiniblockRecord>, b: u32)
    ensures
        max_miniblock_in_batch(mbs, b) >= 0,
    decreases mbs.len(),
{
    if mbs.len() > 0 {
        lemma_max_miniblock_nonneg(mbs.drop_last(), b);
    }
}

/// When no batch has a confirmed execute transaction, the finalized
/// reference resolves to 0.
pub proof fn lemma_finalized_zero_without_confirmation(s: ChainSnapshot)
    requires
        forall|i: int| 0 <= i < s.batches@.len() ==> !(#[trigger] s.batches@[i]).execute_confirmed,
    ensures
        s.spec_finalized() == 0,
{
    lemma_no_confirmation_no_batch(s.batches@);
}

/// The pending reference always resolves to one past the latest reference,
/// whatever the chain height.
pub proof fn lemma_pending_follows_latest(s: ChainSnapshot)
    ensures
        s.spec_resolve(BlockNumber::Pending) == s.spec_resolve(BlockNumber::Latest) + 1,
{
}

/// The earliest reference always resolves to 0, regardless of chain height.
pub proof fn lemma_earliest_is_zero(s: ChainSnapshot)
    ensures
        s.spec_resolve(BlockNumber::Earliest) == 0,
{
}

/// sqlx's prepared Postgres query value, opaque to the verifier.
#[verifier::external_body]
pub struct RawPgQuery<'q> {
    inner: sqlx::query::Query<'q, sqlx::Postgres, sqlx::postgres::PgArguments>,
}

/// Relies on sqlx::query to prepare one SQL statement for Postgres. A fresh
/// query has no bound parameters.
#[verifier::external_body]
fn raw_pg_query(sql: &str) -> (r: RawPgQuery<'_>) {
    RawPgQuery { inner: sqlx::query(sql) }
}

/// Relies on sqlx's Query::bind to append one byte-array parameter to the
/// query's argument list.
#[verifier::external_body]
fn raw_bind_bytes<'q>(query: RawPgQuery<'q>, value: Vec<u8>) -> RawPgQuery<'q> {
    RawPgQuery { inner: query.inner.bind(value) }
}

/// Relies on sqlx's Query::bind to append one 64-bit integer parameter to
/// the query's argument list.
#[verifier::external_body]
fn raw_bind_i64<'q>(query: RawPgQuery<'q>, value: i64) -> RawPgQuery<'q> {
    RawPgQuery { inner: query.inner.bind(value) }
}

/// The one positional parameter a reference introduces into the WHERE
/// fragment, if any.
#[derive(Debug, Clone, PartialEq, Eq)]
pub enum BindValue {
    Bytes(Vec<u8>),
    Number(i64),
}

/// A prepared Postgres query on its way to the persistence collaborator,
/// together with the list of positional parameters bound onto it so far, in
/// binding order.
pub struct PgQuery<'q> {
    pub raw: RawPgQuery<'q>,
    pub bound_args: Ghost<Seq<BindValue>>,
}

/// Prepares one SQL statement for Postgres; no parameter is bound yet.
pub fn pg_query(sql: &str) -> (r: PgQuery<'_>)
    ensures
        r.bound_args@ == Seq::<BindValue>::empty(),
{
    PgQuery { raw: raw_pg_query(sql), bound_args: Ghost(Seq::empty()) }
}

/// Binds one byte-array parameter onto the query.
fn bind_bytes<'q>(query: PgQuery<'q>, value: Vec<u8>) -> (r: PgQuery<'q>)
    ensures
        r.bound_args@ == query.bound_args@.push(BindValue::Bytes(value)),
{
    let ghost new_args = query.bound_args@.push(BindValue::Bytes(value));
    let raw = raw_bind_bytes(query.raw, value);
    PgQuery { raw, bound_args: Ghost(new_args) }
}

/// Binds one 64-bit integer parameter onto the query.
fn bind_i64<'q>(query: PgQuery<'q>, value: i64) -> (r: PgQuery<'q>)
    ensures
        r.bound_args@ == query.bound_args@.push(BindValue::Number(value)),
{
    let ghost new_args = query.bound_args@.push(BindValue::Number(value));
    let raw = raw_bind_i64(query.raw, value);
    PgQuery { raw, bound_args: Ghost(new_args) }
}

/// The reference kinds whose WHERE fragment takes a positional parameter.
pub open spec fn spec_binds_param(block_id: BlockId) -> bool {
    block_id matches BlockId::Hash(_) || block_id matches BlockId::Number(
        BlockNumber::Number(_),
    )
}

/// Supplies the positional parameter for a block lookup: hash references
/// bind the hash bytes, exact-number references bind the number; symbolic
/// tags are inlined as sub-expressions and bind nothing. An exact number
/// must fit the base's signed 64-bit parameter type.
pub fn bound_param(block_id: &BlockId) -> (r: Option<BindValue>)
    requires
        block_id matches BlockId::Number(BlockNumber::Number(n)) ==> n <= i64::MAX as u64,
    ensures
        block_id matches BlockId::Hash(h) ==> (r matches Some(BindValue::Bytes(b)) && b@
            == h.bytes@),
        block_id matches BlockId::Number(BlockNumber::Number(n)) ==> r == Some(
            BindValue::Number(n as i64),
        ),
        !spec_binds_param(*block_id) ==> r is None,
{
    match block_id {
        BlockId::Hash(h) => {
            let bytes = crate::hexutil::copy_range(&h.bytes, 0, h.bytes.len());
            proof {
                assert(h.bytes@.subrange(0, h.bytes@.len() as int) =~= h.bytes@);
            }
            Some(BindValue::Bytes(bytes))
        },
        BlockId::Number(BlockNumber::Number(n)) => Some(BindValue::Number(*n as i64)),
        _ => None,
    }
}

/// Binds the positional parameter a hash- or exact-number reference needs
/// onto the prepared query; symbolic tags leave the query untouched, since
/// their sub-select was inlined into the WHERE fragment. Exactly one
/// parameter is appended for a hash or exact-number reference (the hash
/// bytes, or the number as a signed 64-bit integer), none for any other.
pub fn bind_block_where_sql_params<'q>(block_id: &BlockId, query: PgQuery<'q>) -> (r: PgQuery<'q>)
    requires
        block_id matches BlockId::Number(BlockNumber::Number(n)) ==> n <= i64::MAX as u64,
    ensures
        block_id matches BlockId::Hash(h) ==> (r.bound_args@.len() == query.bound_args@.len() + 1
            && r.bound_args@.drop_last() == query.bound_args@ && (r.bound_args@.last() matches
        BindValue::Bytes(b) && b@ == h.bytes@)),
        block_id matches BlockId::Number(BlockNumber::Number(n)) ==> r.bound_args@
            == query.bound_args@.push(BindValue::Number(n as i64)),
        !spec_binds_param(*block_id) ==> r.bound_args@ == query.bound_args@,
{
    match bound_param(block_id) {
        Some(BindValue::Bytes(b)) => {
            let r = bind_bytes(query, b);
            proof {
                assert(r.bound_args@.drop_last() =~= query.bound_args@);
            }
            r
        },
        Some(BindValue::Number(n)) => bind_i64(query, n),
        None => query,
    }
}

/// A positional-parameter marker occurs somewhere in the fragment.
pub open spec fn has_placeholder(s: Seq<char>) -> bool
    decreases s.len(),
{
    if s.len() == 0 {
        false
    } else {
        s[0] == '$' || has_placeholder(s.skip(1))
    }
}

/// A marker occurs exactly when some position holds one.
proof fn lemma_has_placeholder_index(s: Seq<char>)
    ensures
        has_placeholder(s) <==> (exists|i: int| 0 <= i < s.len() && s[i] == '$'),
    decreases s.len(),
{
    if s.len() > 0 {
        lemma_has_placeholder_index(s.skip(1));
        assert(forall|j: int| 0 <= j < s.skip(1).len() ==> s.skip(1)[j] == s[j + 1]);
        if s[0] == '$' {
            assert(s[0] == '$' && 0 < s.len());
        } else if has_placeholder(s.skip(1)) {
            let j = choose|j: int| 0 <= j < s.skip(1).len() && s.skip(1)[j] == '$';
            assert(s[j + 1] == '$');
        } else {
            assert forall|i: int| 0 <= i < s.len() implies s[i] != '$' by {
                if i > 0 {
                    assert(s.skip(1)[i - 1] == s[i]);
                }
            }
        }
    }
}

/// The WHERE fragment and the bind step never under- or over-bind each
/// other: a reference binds its one positional parameter exactly when its
/// fragment carries the `$` placeholder (hash and exact-number references),
/// and none exactly when the fragment inlines the sub-expression instead.
pub proof fn lemma_bind_matches_placeholder(block_id: BlockId, arg_index: u8)
    ensures
        spec_binds_param(block_id) <==> has_placeholder(
            spec_block_where_sql(block_id, arg_index),
        ),
{
    let fragment = spec_block_where_sql(block_id, arg_index);
    lemma_has_placeholder_index(fragment);
    match block_id {
        BlockId::Hash(_) => {
            reveal_strlit("miniblocks.hash = $");
            assert(fragment[18] == '$');
        },
        BlockId::Number(BlockNumber::Number(_)) => {
            reveal_strlit("miniblocks.number = $");
            assert(fragment[20] == '$');
        },
        BlockId::Number(n) => {
            let prefix = "miniblocks.number = "@;
            let sub = spec_block_number_sql(n);
            reveal_strlit("miniblocks.number = ");
            assert(forall|i: int| 0 <= i < prefix.len() ==> prefix[i] != '$');
            match n {
                BlockNumber::Earliest => {
                    reveal_strlit("0");
                },
                BlockNumber::Pending => {
                    reveal_strlit("(SELECT (MAX(number) + 1) as number FROM miniblocks)");
                },
                BlockNumber::Latest | BlockNumber::Committed => {
                    reveal_strlit("(SELECT MAX(number) as number FROM miniblocks)");
                },
                BlockNumber::Finalized => {
                    reveal_strlit(
                        "
                (SELECT COALESCE(
                    (
                        SELECT MAX(number) FROM miniblocks
                        WHERE l1_batch_number = (
                            SELECT MAX(number) FROM l1_batches
                            JOIN eth_txs ON
                                l1_batches.eth_execute_tx_id = eth_txs.id
                            WHERE
                                eth_txs.confirmed_eth_tx_history_id IS NOT NULL
                        )
                    ),
                    0
                ) as number)
            ",
                    );
                },
                BlockNumber::Number(_) => {},
            }
            assert(forall|j: int| 0 <= j < sub.len() ==> sub[j] != '$');
            assert forall|i: int| 0 <= i < fragment.len() implies fragment[i] != '$' by {
                if i < prefix.len() {
                    assert(fragment[i] == prefix[i]);
                } else {
                    assert(fragment[i] == sub[i - prefix.len()]);
                }
            }
        },
    }
}

} // verus!
