use vstd::prelude::*;
use crate::fetch::{fetch_outcome, fetch_result, FetchError, HttpOutcome, PriceQuote};
use crate::key::{derive_key, key_of, BlockNumber};
use crate::pallet::{prices_after, AccountId, Call, Origin};
use crate::store::{scale_record, IndexingData, LocalStore};

verus! {

/// One signed call, ready for the node's outbound queue.
#[derive(Clone, Copy, Debug, PartialEq, Eq, Structural)]
pub struct Submission {
    pub signer: AccountId,
    pub call: Call,
}

/// Why nothing could be signed.
#[derive(Clone, Copy, Debug, PartialEq, Eq, Structural)]
pub enum SigningError {
    /// No local signing identity is configured.
    NoIdentities,
}

/// Why the node's outbound queue refused a signed submission; the node gives no reason.
#[derive(Clone, Copy, Debug, PartialEq, Eq, Structural)]
pub enum QueueError {
    Rejected,
}

/// What the node's queue did with one identity's submission.
#[derive(Clone, Copy, Debug, PartialEq, Eq)]
pub struct SubmissionOutcome {
    pub identity: AccountId,
    pub result: Result<(), QueueError>,
}

/// One `submit_data` call carrying `payload` per identity, in the order of the identities.
pub open spec fn submissions_for(identities: Seq<AccountId>, payload: u32) -> Seq<Submission> {
    identities.map_values(|a: AccountId| Submission { signer: a, call: Call::SubmitData { payload } })
}

/// What the signer does with a payload.
pub open spec fn signed_for(identities: Seq<AccountId>, payload: u32) -> Result<Seq<Submission>, SigningError> {
    if identities.len() == 0 {
        Err(SigningError::NoIdentities)
    } else {
        Ok(submissions_for(identities, payload))
    }
}

/// Builds one signed `submit_data` call per local identity; fails where there is none.
pub fn send_signed_tx(identities: &Vec<AccountId>, payload: u32) -> (r: Result<Vec<Submission>, SigningError>)
    ensures
        match r {
            Ok(v) => signed_for(identities@, payload) == Ok::<Seq<Submission>, SigningError>(v@),
            Err(e) => signed_for(identities@, payload) == Err::<Seq<Submission>, SigningError>(e),
        },
{
    if identities.len() == 0 {
        return Err(SigningError::NoIdentities);
    }
    let mut out: Vec<Submission> = Vec::new();
    let mut i: usize = 0;
    while i < identities.len()
        invariant
            i <= identities@.len(),
            out@ == submissions_for(identities@.take(i as int), payload),
        decreases identities@.len() - i,
    {
        out.push(Submission { signer: identities[i], call: Call::SubmitData { payload } });
        i = i + 1;
        assert(out@ =~= submissions_for(identities@.take(i as int), payload));
    }
    assert(identities@.take(i as int) =~= identities@);
    Ok(out)
}

/// Pairs each submission's identity with what the queue did with it.
pub fn record_outcomes(submissions: &Vec<Submission>, results: &Vec<Result<(), QueueError>>) -> (r: Vec<SubmissionOutcome>)
    requires
        submissions@.len() == results@.len(),
    ensures
        r@.len() == submissions@.len(),
        forall|i: int| 0 <= i < r@.len() ==> #[trigger] r@[i] == (SubmissionOutcome {
            identity: submissions@[i].signer,
            result: results@[i],
        }),
{
    let mut out: Vec<SubmissionOutcome> = Vec::new();
    let mut i: usize = 0;
    while i < submissions.len()
        invariant
            submissions@.len() == results@.len(),
            i <= submissions@.len(),
            out@.len() == i,
            forall|j: int| 0 <= j < i ==> #[trigger] out@[j] == (SubmissionOutcome {
                identity: submissions@[j].signer,
                result: results@[j],
            }),
        decreases submissions@.len() - i,
    {
        out.push(SubmissionOutcome { identity: submissions[i].signer, result: results[i] });
        i = i + 1;
    }
    out
}

/// What became of the submission step of one block.
#[derive(Clone, Debug)]
pub enum Submitting {
    /// The fetch failed, so nothing was signed.
    Skipped(FetchError),
    /// The price was fetched, but no identity could sign it.
    NoIdentities(PriceQuote),
    /// One submission per identity, for the node to dispatch.
    Dispatch(Vec<Submission>),
}

/// The submission step of one block, in plain values.
pub open spec fn planned(fetched: Result<PriceQuote, FetchError>, identities: Seq<AccountId>) -> Result<Seq<Submission>, Option<FetchError>> {
    match fetched {
        Err(e) => Err(Some(e)),
        Ok(q) => match signed_for(identities, q.price_usd) {
            Ok(subs) => Ok(subs),
            Err(_) => Err(None),
        },
    }
}

/// The submissions that a submission step dispatches.
pub open spec fn dispatched(s: Submitting) -> Seq<Submission> {
    match s {
        Submitting::Dispatch(v) => v@,
        _ => Seq::empty(),
    }
}

/// The tag of a record for a block whose price was fetched: `price`.
pub open spec fn price_tag() -> Seq<u8> {
    seq![0x70, 0x72, 0x69, 0x63, 0x65]
}

/// The tag of a record for a block whose fetch failed: `skipped`.
pub open spec fn skipped_tag() -> Seq<u8> {
    seq![0x73, 0x6b, 0x69, 0x70, 0x70, 0x65, 0x64]
}

/// The encoded record that the worker leaves for a block: the price with tag `price`,
/// or zero with tag `skipped`.
pub open spec fn record_for(fetched: Result<PriceQuote, FetchError>) -> Seq<u8> {
    match fetched {
        Ok(q) => scale_record(price_tag(), q.price_usd as u64),
        Err(_) => scale_record(skipped_tag(), 0),
    }
}

fn record_of(fetched: &Result<PriceQuote, FetchError>) -> (r: IndexingData)
    ensures
        r.0@ == (if fetched is Ok { price_tag() } else { skipped_tag() }),
        scale_record(r.0@, r.1) == record_for(*fetched),
{
    match fetched {
        Ok(q) => {
            let tag: Vec<u8> = vec![0x70, 0x72, 0x69, 0x63, 0x65];
            assert(tag@ =~= price_tag());
            IndexingData(tag, q.price_usd as u64)
        },
        Err(_) => {
            let tag: Vec<u8> = vec![0x73, 0x6b, 0x69, 0x70, 0x70, 0x65, 0x64];
            assert(tag@ =~= skipped_tag());
            IndexingData(tag, 0)
        },
    }
}

/// What the fetch and submission steps decided for one block.
pub struct BlockPlan {
    pub block_number: BlockNumber,
    /// The result of the fetch.
    pub fetched: Result<PriceQuote, FetchError>,
    /// The submissions to dispatch, or why there are none.
    pub submitting: Submitting,
}

/// What the indexing step of one block did.
pub struct IndexReport {
    /// The store key of the block.
    pub key: Vec<u8>,
    /// The encoded record written under that key.
    pub written: Vec<u8>,
    /// What an earlier run had left under that key, read for diagnostics only.
    pub previous: Option<Vec<u8>>,
}

/// The fetch and submission steps of block `block_number`: classifies what the transport
/// reported and, where a price came back, signs it once per identity. The node dispatches
/// the submissions before it runs the indexing step.
pub fn plan_block(block_number: BlockNumber, outcome: &HttpOutcome, identities: &Vec<AccountId>) -> (r: BlockPlan)
    ensures
        r.block_number == block_number,
        r.fetched == fetch_outcome(*outcome),
        match planned(r.fetched, identities@) {
            Ok(subs) => r.submitting is Dispatch && dispatched(r.submitting) == subs,
            Err(Some(e)) => r.submitting == Submitting::Skipped(e),
            Err(None) => r.submitting == Submitting::NoIdentities(r.fetched->Ok_0),
        },
{
    let fetched = fetch_result(outcome);
    let submitting = match fetched {
        Ok(q) => match send_signed_tx(identities, q.price_usd) {
            Ok(v) => Submitting::Dispatch(v),
            Err(_) => Submitting::NoIdentities(q),
        },
        Err(e) => Submitting::Skipped(e),
    };
    BlockPlan { block_number, fetched, submitting }
}

/// The indexing step of block `block_number`: reads what an earlier run left under the
/// block's key, then writes this run's record there, whatever came of the fetch and of the
/// submissions.
pub fn index_block(store: &mut LocalStore, block_number: BlockNumber, fetched: &Result<PriceQuote, FetchError>) -> (r: IndexReport)
    ensures
        r.key@ == key_of(block_number),
        r.written@ == record_for(*fetched),
        match r.previous {
            Some(v) => old(store).value_at(key_of(block_number)) == Some(v@),
            None => old(store).value_at(key_of(block_number)).is_none(),
        },
        final(store).value_at(key_of(block_number)) == Some(record_for(*fetched)),
        forall|k: Seq<u8>| k != key_of(block_number)
            ==> #[trigger] final(store).value_at(k) == old(store).value_at(k),
{
    let key = derive_key(block_number);
    let previous = store.get(&key);
    let record = record_of(fetched);
    let written = record.encode();
    store.put(key.clone(), written.clone());
    IndexReport { key, written, previous }
}

/// The price cell after the given submissions are applied in order.
pub open spec fn prices_after_all(prior: Option<u32>, subs: Seq<Submission>) -> Option<u32>
    decreases subs.len(),
{
    if subs.len() == 0 {
        prior
    } else {
        prices_after(prices_after_all(prior, subs.drop_last()), Origin::Signed(subs.last().signer), subs.last().call)
    }
}

proof fn lemma_all_carry_price(prior: Option<u32>, ids: Seq<AccountId>, p: u32)
    requires
        ids.len() > 0,
    ensures
        prices_after_all(prior, submissions_for(ids, p)) == Some(p),
    decreases ids.len(),
{
    let subs = submissions_for(ids, p);
    assert(subs.drop_last() =~= submissions_for(ids.drop_last(), p));
    if ids.len() > 1 {
        lemma_all_carry_price(prior, ids.drop_last(), p);
    }
}

/// A fetched price `p` goes out once per identity, each submission signed by that identity
/// and carrying `p`; each one alone, and all of them applied in order, set the price cell
/// to exactly `p`, whatever it held before.
pub proof fn lemma_fetched_price_lands(outcome: HttpOutcome, identities: Seq<AccountId>, prior: Option<u32>)
    requires
        fetch_outcome(outcome) is Ok,
        identities.len() > 0,
    ensures
        ({
            let p = fetch_outcome(outcome)->Ok_0.price_usd;
            &&& planned(fetch_outcome(outcome), identities) is Ok
            &&& planned(fetch_outcome(outcome), identities)->Ok_0.len() == identities.len()
            &&& forall|i: int| 0 <= i < identities.len() ==> {
                let s = #[trigger] planned(fetch_outcome(outcome), identities)->Ok_0[i];
                &&& s.signer == identities[i]
                &&& s.call == Call::SubmitData { payload: p }
                &&& prices_after(prior, Origin::Signed(s.signer), s.call) == Some(p)
            }
            &&& prices_after_all(prior, planned(fetch_outcome(outcome), identities)->Ok_0) == Some(p)
        }),
{
    let p = fetch_outcome(outcome)->Ok_0.price_usd;
    lemma_all_carry_price(prior, identities, p);
}

/// A failed fetch dispatches nothing, so the price cell keeps what it held.
pub proof fn lemma_failed_fetch_dispatches_nothing(outcome: HttpOutcome, identities: Seq<AccountId>, prior: Option<u32>)
    requires
        fetch_outcome(outcome) is Err,
    ensures
        planned(fetch_outcome(outcome), identities) == Err::<Seq<Submission>, Option<FetchError>>(
            Some(fetch_outcome(outcome)->Err_0),
        ),
        dispatched(Submitting::Skipped(fetch_outcome(outcome)->Err_0)).len() == 0,
        prices_after_all(prior, dispatched(Submitting::Skipped(fetch_outcome(outcome)->Err_0))) == prior,
{
}

/// With no identity configured, the signer dispatches nothing, whatever was fetched.
pub proof fn lemma_no_identities_dispatch_nothing(
    fetched: Result<PriceQuote, FetchError>,
    identities: Seq<AccountId>,
    payload: u32,
)
    requires
        identities.len() == 0,
    ensures
        signed_for(identities, payload) == Err::<Seq<Submission>, SigningError>(SigningError::NoIdentities),
        planned(fetched, identities) is Err,
{
}

/// Runs at two distinct heights leave two records: the later run keeps the earlier one.
pub proof fn lemma_two_heights_two_records(
    after_first: LocalStore,
    after_second: LocalStore,
    h1: BlockNumber,
    h2: BlockNumber,
    r1: Seq<u8>,
    r2: Seq<u8>,
)
    requires
        h1 != h2,
        after_first.value_at(key_of(h1)) == Some(r1),
        after_second.value_at(key_of(h2)) == Some(r2),
        forall|k: Seq<u8>| k != key_of(h2) ==> #[trigger] after_second.value_at(k) == after_first.value_at(k),
    ensures
        key_of(h1) != key_of(h2),
        after_second.value_at(key_of(h1)) == Some(r1),
        after_second.value_at(key_of(h2)) == Some(r2),
{
    crate::key::lemma_derive_key_injective(h1, h2);
}

} // verus!
