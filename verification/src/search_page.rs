use vstd::prelude::*;
use core::hash::Hash;
use crate::asset::Stock;

verus! {

#[verifier::external_type_specification]
#[verifier::external_body]
#[verifier::reject_recursive_types(Id)]
pub struct ExSimIndex<Id: Eq + Clone + Hash>(simsearch::Index<Id>);

/// What the fuzzy-search index holds: the inserted entries, in insertion
/// order, each an id with the content it was indexed under.
pub uninterp spec fn index_entries(e: &simsearch::Index<u64>) -> Seq<(u64, Seq<char>)>;

/// The ids the index's ranking returns for a query: a function of the
/// inserted entries and the query text alone.
pub uninterp spec fn index_hits(entries: Seq<(u64, Seq<char>)>, query: Seq<char>) -> Seq<u64>;

/// Whether `id` is the id of one of the inserted entries.
pub open spec fn is_inserted_id(entries: Seq<(u64, Seq<char>)>, id: u64) -> bool {
    exists|j: int| 0 <= j < entries.len() && (#[trigger] entries[j]).0 == id
}

/// Relies on simsearch's `Index::new`: a fresh index holds no entries.
#[verifier::external_body]
fn index_new() -> (r: simsearch::Index<u64>)
    ensures
        index_entries(&r) == Seq::<(u64, Seq<char>)>::empty(),
{
    simsearch::Index::new()
}

/// Relies on simsearch's `Index::insert`: inserting an id the index does not
/// hold appends one entry with that id and the tokenized content.
#[verifier::external_body]
fn index_insert(e: &mut simsearch::Index<u64>, id: u64, content: &str)
    requires
        !is_inserted_id(index_entries(&*old(e)), id),
    ensures
        index_entries(&*final(e)) == index_entries(&*old(e)).push((id, content@)),
{
    e.insert(id, content);
}

/// Relies on simsearch's `Index::search`: hits are ranked and tie-broken
/// deterministically, a function of the inserted entries and the query
/// alone, and every hit carries an id that was inserted.
#[verifier::external_body]
fn index_search(e: &simsearch::Index<u64>, pattern: &str) -> (r: Vec<u64>)
    ensures
        r@ == index_hits(index_entries(e), pattern@),
        forall|i: int| 0 <= i < r@.len() ==> is_inserted_id(index_entries(e), #[trigger] r@[i]),
{
    e.search(pattern).into_iter().map(|h| h.id).collect()
}

/// The search boundary: the externally owned fuzzy index over the listed
/// securities, each indexed under its position and its description text.
pub struct SearchEngine {
    pub engine: simsearch::Index<u64>,
    pub securities: Vec<Stock>,
}

impl SearchEngine {
    /// The index mirrors the securities: entry `i` is position `i` with the
    /// description of the `i`-th security.
    pub open spec fn wf(&self) -> bool {
        &&& index_entries(&self.engine).len() == self.securities@.len()
        &&& forall|i: int|
            0 <= i < self.securities@.len() ==> #[trigger] index_entries(&self.engine)[i] == (
            i as u64,
            self.securities@[i].description@,
        )
    }

    /// Builds the index once from the fetched security list.
    pub fn new(stocks: &Vec<Stock>) -> (r: SearchEngine)
        ensures
            r.wf(),
            r.securities@.len() == stocks@.len(),
            forall|i: int| 0 <= i < stocks@.len() ==> #[trigger] r.securities@[i]@ == stocks@[i]@,
    {
        let mut engine = index_new();
        let mut securities: Vec<Stock> = Vec::new();
        let mut i: usize = 0;
        while i < stocks.len()
            invariant
                i <= stocks@.len(),
                securities@.len() == i,
                index_entries(&engine).len() == i,
                forall|j: int| 0 <= j < i ==> #[trigger] securities@[j]@ == stocks@[j]@,
                forall|j: int|
                    0 <= j < i ==> #[trigger] index_entries(&engine)[j] == (
                    j as u64,
                    stocks@[j].description@,
                ),
            decreases stocks@.len() - i,
        {
            proof {
                assert forall|j: int|
                    0 <= j < index_entries(&engine).len() implies (#[trigger] index_entries(
                    &engine,
                )[j]).0 != i as u64 by {
                    assert(index_entries(&engine)[j] == (j as u64, stocks@[j].description@));
                }
            }
            let s = &stocks[i];
            index_insert(&mut engine, i as u64, s.description.as_str());
            securities.push(s.clone());
            i = i + 1;
        }
        let r = SearchEngine { engine, securities };
        assert forall|i: int| 0 <= i < r.securities@.len() implies #[trigger] index_entries(
            &r.engine,
        )[i] == (i as u64, r.securities@[i].description@) by {
            assert(r.securities@[i]@ == stocks@[i]@);
        }
        r
    }
}

/// Ranks the indexed securities against a free-text query: the engine's
/// hits, in the engine's order, resolved back to the securities they stand
/// for.  Ranking internals belong to the outside index; which securities
/// come back, and in which positions, is pinned to its hits.
pub fn search(engine: &SearchEngine, query: &str) -> (r: Vec<Stock>)
    requires
        engine.wf(),
    ensures
        r@.len() == index_hits(index_entries(&engine.engine), query@).len(),
        forall|i: int|
            0 <= i < r@.len() ==> {
                let id = index_hits(index_entries(&engine.engine), query@)[i];
                0 <= id < engine.securities@.len() && #[trigger] r@[i]@ == engine.securities@[id as int]@
            },
{
    let ids = index_search(&engine.engine, query);
    let mut out: Vec<Stock> = Vec::new();
    let mut k: usize = 0;
    while k < ids.len()
        invariant
            engine.wf(),
            k <= ids@.len(),
            out@.len() == k,
            ids@ == index_hits(index_entries(&engine.engine), query@),
            forall|i: int| 0 <= i < ids@.len() ==> is_inserted_id(
                index_entries(&engine.engine),
                #[trigger] ids@[i],
            ),
            forall|i: int|
                0 <= i < k ==> ids@[i] < engine.securities@.len() && #[trigger] out@[i]@
                    == engine.securities@[ids@[i] as int]@,
        decreases ids@.len() - k,
    {
        let total = engine.securities.len();
        let id = ids[k];
        proof {
            assert(is_inserted_id(index_entries(&engine.engine), ids@[k as int]));
            let j = choose|j: int|
                0 <= j < index_entries(&engine.engine).len() && (#[trigger] index_entries(
                    &engine.engine,
                )[j]).0 == id;
            assert(0 <= j < total);
            assert(index_entries(&engine.engine)[j] == (
                j as u64,
                engine.securities@[j].description@,
            ));
            assert(id == j as u64);
            assert(id < engine.securities@.len());
        }
        let s = engine.securities[id as usize].clone();
        out.push(s);
        k = k + 1;
    }
    out
}

} // verus!
