//! The index: a full-text mirror of the registry's items, and the merging
//! of what it finds.
//!
//! The index holds one document for each item that was handed to it, under
//! the item's identifier. It has no tie to the registry: the service hands
//! it every change after the registry took it. The index can be out of
//! reach; then it fails every call and keeps what it holds.
//!
//! What the index finds for a keyword is a matter of the search service and
//! no part of this model. The model says how the hits of several keywords
//! become one result.

use crate::database::fixtures::{
    after_delete, fixtures_views, holds, names_at, place, IdTypeView,
};
use crate::error_handling::{shown, QrError, QrErrorView, Result};
use crate::text::{split, split_on, texts};
use crate::{Fixtures, FixturesView};
use vstd::prelude::*;

verus! {

/// One hit of a search: what was found and how well it matched. The
/// ranking is a 64-bit floating-point number, held by its bits.
#[derive(Debug, Clone, PartialEq, Eq)]
pub struct SearchResult<T> {
    pub data: T,
    pub ranking: Option<u64>,
}

/// A hit, what was found by its view.
pub struct SearchResultView<V> {
    pub data: V,
    pub ranking: Option<u64>,
}

impl<T: View> View for SearchResult<T> {
    type V = SearchResultView<T::V>;

    open spec fn view(&self) -> SearchResultView<T::V> {
        SearchResultView { data: self.data@, ranking: self.ranking }
    }
}

/// A hit on an item.
pub type Hit = SearchResultView<FixturesView>;

/// The views of a list of hits.
pub open spec fn hit_views(hits: Seq<SearchResult<Fixtures>>) -> Seq<Hit> {
    Seq::new(hits.len(), |i: int| hits[i]@)
}

/// Whether the `i`-th hit is the first on its item.
pub open spec fn first_seen(hits: Seq<Hit>, i: int) -> bool {
    &&& 0 <= i < hits.len()
    &&& forall|j: int| 0 <= j < i ==> (#[trigger] hits[j]).data.id != hits[i].data.id
}

/// Whether `hit` is, among `hits`, the first hit on its item.
pub open spec fn is_first_hit(hits: Seq<Hit>, hit: Hit) -> bool {
    exists|i: int| first_seen(hits, i) && hits[i] == hit
}

/// Whether the hits come by rising identifier, each item once.
pub open spec fn ascending(out: Seq<Hit>) -> bool {
    forall|a: int, b: int|
        0 <= a < b < out.len() ==> (#[trigger] out[a]).data.id < (#[trigger] out[b]).data.id
}

/// Whether `out` holds a hit on the item of the identifier `id`.
pub open spec fn shows(out: Seq<Hit>, id: u128) -> bool {
    exists|k: int| 0 <= k < out.len() && (#[trigger] out[k]).data.id == id
}

/// Whether `out` is the result of `hits`: for each item that `hits` hold a
/// hit on, the first of its hits, and nothing else, by rising identifier.
/// With the hits of several keywords one after the other, the hit of the
/// earliest keyword stands for an item.
pub open spec fn is_merge(hits: Seq<Hit>, out: Seq<Hit>) -> bool {
    &&& ascending(out)
    &&& forall|k: int| 0 <= k < out.len() ==> is_first_hit(hits, #[trigger] out[k])
    &&& forall|i: int| 0 <= i < hits.len() ==> shows(out, (#[trigger] hits[i]).data.id)
}

/// A hit that is left out because its item is shown already leaves the
/// result as it is.
proof fn merge_skips(hits: Seq<Hit>, out: Seq<Hit>, hit: Hit, p: int)
    requires
        is_merge(hits, out),
        0 <= p < out.len(),
        out[p].data.id == hit.data.id,
    ensures
        is_merge(hits.push(hit), out),
{
    let more = hits.push(hit);
    assert forall|k: int| 0 <= k < out.len() implies is_first_hit(more, #[trigger] out[k]) by {
        let i = choose|i: int| first_seen(hits, i) && hits[i] == out[k];
        assert forall|j: int| 0 <= j < i implies (#[trigger] more[j]).data.id
            != more[i].data.id by {
            assert(hits[j].data.id != hits[i].data.id);
        }
        assert(first_seen(more, i) && more[i] == out[k]);
    }
    assert forall|i: int| 0 <= i < more.len() implies shows(out, (#[trigger] more[i]).data.id) by {
        if i < hits.len() {
            assert(shows(out, hits[i].data.id));
        } else {
            assert(out[p].data.id == more[i].data.id);
        }
    }
}

/// A hit on an item that is not shown yet enters the result at the place
/// of its identifier.
proof fn merge_inserts(hits: Seq<Hit>, out: Seq<Hit>, hit: Hit, p: int)
    requires
        is_merge(hits, out),
        0 <= p <= out.len(),
        forall|k: int| 0 <= k < p ==> (#[trigger] out[k]).data.id < hit.data.id,
        p < out.len() ==> out[p].data.id > hit.data.id,
    ensures
        is_merge(hits.push(hit), out.insert(p, hit)),
{
    let more = hits.push(hit);
    let next = out.insert(p, hit);
    assert forall|k: int| p <= k < out.len() implies (#[trigger] out[k]).data.id
        > hit.data.id by {
        if p < k {
            assert(out[p].data.id < out[k].data.id);
        }
    }
    assert forall|a: int, b: int| 0 <= a < b < next.len() implies (#[trigger] next[a]).data.id < (
    #[trigger] next[b]).data.id by {
        let a0 = if a < p { a } else { a - 1 };
        let b0 = if b < p { b } else { b - 1 };
        if a != p && b != p {
            assert(out[a0].data.id < out[b0].data.id);
        } else if a == p {
            assert(out[b0].data.id > hit.data.id);
        } else {
            assert(out[a0].data.id < hit.data.id);
        }
    }
    assert(!shows(out, hit.data.id)) by {
        assert forall|k: int| 0 <= k < out.len() implies (#[trigger] out[k]).data.id
            != hit.data.id by {
            if k < p {
                assert(out[k].data.id < hit.data.id);
            } else {
                assert(out[k].data.id > hit.data.id);
            }
        }
    }
    assert forall|k: int| 0 <= k < next.len() implies is_first_hit(more, #[trigger] next[k]) by {
        if k == p {
            let i = hits.len() as int;
            assert forall|j: int| 0 <= j < i implies (#[trigger] more[j]).data.id
                != more[i].data.id by {
                assert(shows(out, hits[j].data.id));
            }
            assert(first_seen(more, i) && more[i] == next[k]);
        } else {
            let k0 = if k < p { k } else { k - 1 };
            assert(next[k] == out[k0]);
            assert(is_first_hit(hits, out[k0]));
            let i = choose|i: int| first_seen(hits, i) && hits[i] == out[k0];
            assert forall|j: int| 0 <= j < i implies (#[trigger] more[j]).data.id
                != more[i].data.id by {
                assert(hits[j].data.id != hits[i].data.id);
            }
            assert(first_seen(more, i) && more[i] == next[k]);
        }
    }
    assert forall|i: int| 0 <= i < more.len() implies shows(next, (#[trigger] more[i]).data.id) by {
        if i < hits.len() {
            assert(shows(out, hits[i].data.id));
            let k = choose|k: int| 0 <= k < out.len() && (#[trigger] out[k]).data.id
                == hits[i].data.id;
            let k1 = if k < p { k } else { k + 1 };
            assert(next[k1] == out[k]);
        } else {
            assert(next[p].data.id == more[i].data.id);
        }
    }
}

/// A copy of a hit.
fn copy_hit(hit: &SearchResult<Fixtures>) -> (copy: SearchResult<Fixtures>)
    ensures
        copy@ == hit@,
{
    SearchResult { data: hit.data.clone(), ranking: hit.ranking }
}

/// Merges the hits of all keywords, given one keyword's hits after the
/// other's, into one result: each item once, with the first of its hits,
/// by rising identifier. No hits give an empty result.
pub fn merge_results(hits: &Vec<SearchResult<Fixtures>>) -> (out: Vec<SearchResult<Fixtures>>)
    ensures
        is_merge(hit_views(hits@), hit_views(out@)),
{
    let mut out: Vec<SearchResult<Fixtures>> = Vec::new();
    let mut i: usize = 0;
    let ghost all = hit_views(hits@);
    proof {
        assert(is_merge(all.take(0), hit_views(out@)));
    }
    while i < hits.len()
        invariant
            i <= hits.len(),
            all == hit_views(hits@),
            is_merge(all.take(i as int), hit_views(out@)),
        decreases hits.len() - i,
    {
        let id = hits[i].data.id;
        let mut p: usize = 0;
        while p < out.len() && out[p].data.id < id
            invariant
                p <= out.len(),
                forall|k: int| 0 <= k < p ==> (#[trigger] hit_views(out@)[k]).data.id < id,
            decreases out.len() - p,
        {
            p += 1;
        }
        proof {
            assert(all.take(i + 1) =~= all.take(i as int).push(all[i as int]));
            assert(all[i as int].data.id == id);
        }
        if p < out.len() && out[p].data.id == id {
            proof {
                merge_skips(all.take(i as int), hit_views(out@), all[i as int], p as int);
            }
        } else {
            let hit = copy_hit(&hits[i]);
            proof {
                merge_inserts(all.take(i as int), hit_views(out@), all[i as int], p as int);
                assert(hit_views(out@.insert(p as int, hit)) =~= hit_views(out@).insert(
                    p as int,
                    all[i as int],
                ));
            }
            out.insert(p, hit);
        }
        i += 1;
    }
    proof {
        assert(all.take(hits.len() as int) =~= all);
    }
    out
}

/// The keywords of a query: the texts between its commas.
pub fn split_keywords(keywords_str: &str) -> (keywords: Vec<String>)
    ensures
        texts(keywords@) == split_on(keywords_str@, ','),
{
    split(keywords_str, ',')
}

/// What the index keeps: no two documents share an identifier.
pub open spec fn index_wf(documents: Seq<FixturesView>) -> bool {
    forall|i: int, j: int|
        0 <= i < j < documents.len() ==> (#[trigger] documents[i]).id != (
        #[trigger] documents[j]).id
}

/// The documents after `item` was handed in: it replaces the document of
/// its identifier, or is one document more.
pub open spec fn upserted(documents: Seq<FixturesView>, item: FixturesView) -> Seq<FixturesView> {
    if holds(documents, IdTypeView::FixturesId(item.id)) {
        documents.update(place(documents, IdTypeView::FixturesId(item.id)), item)
    } else {
        documents.push(item)
    }
}

/// The documents after the items of `items` were handed in, one after the
/// other.
pub open spec fn upserted_all(documents: Seq<FixturesView>, items: Seq<FixturesView>) -> Seq<
    FixturesView,
>
    decreases items.len(),
{
    if items.len() == 0 {
        documents
    } else {
        upserted(upserted_all(documents, items.drop_last()), items.last())
    }
}

/// The documents after those of the identifiers `keys` were dropped, one
/// after the other.
pub open spec fn removed_all(documents: Seq<FixturesView>, keys: Seq<u128>) -> Seq<FixturesView>
    decreases keys.len(),
{
    if keys.len() == 0 {
        documents
    } else {
        after_delete(removed_all(documents, keys.drop_last()), keys.last())
    }
}

/// What the index holds.
pub struct SearchFixturesView {
    pub online: bool,
    pub documents: Seq<FixturesView>,
}

impl SearchFixturesView {
    /// What handing in items answers.
    pub open spec fn add_or_replace_result(self) -> std::result::Result<(), QrErrorView> {
        if self.online {
            Ok(())
        } else {
            Err(QrErrorView::SearchEngineAddOrReplace("fixtures"@))
        }
    }

    /// The index after the items of `items` were handed in.
    pub open spec fn after_add_or_replace(self, items: Seq<FixturesView>) -> SearchFixturesView {
        if self.online {
            SearchFixturesView { documents: upserted_all(self.documents, items), ..self }
        } else {
            self
        }
    }

    /// What dropping documents answers.
    pub open spec fn delete_result(self) -> std::result::Result<(), QrErrorView> {
        if self.online {
            Ok(())
        } else {
            Err(QrErrorView::SearchEngineDelete("fixtures"@))
        }
    }

    /// The index after the documents of the identifiers `keys` were
    /// dropped.
    pub open spec fn after_delete(self, keys: Seq<u128>) -> SearchFixturesView {
        if self.online {
            SearchFixturesView { documents: removed_all(self.documents, keys), ..self }
        } else {
            self
        }
    }
}

/// In an index, one document at most has a given identifier.
pub proof fn document_is_unique(documents: Seq<FixturesView>, id: u128, i: int)
    requires
        index_wf(documents),
        names_at(documents, IdTypeView::FixturesId(id), i),
    ensures
        holds(documents, IdTypeView::FixturesId(id)),
        place(documents, IdTypeView::FixturesId(id)) == i,
{
    let j = place(documents, IdTypeView::FixturesId(id));
    assert(names_at(documents, IdTypeView::FixturesId(id), j));
    if i < j {
        assert(documents[i].id != documents[j].id);
    }
    if j < i {
        assert(documents[j].id != documents[i].id);
    }
}

/// Handing in an item keeps the documents apart by identifier.
pub proof fn upserted_is_wf(documents: Seq<FixturesView>, item: FixturesView)
    requires
        index_wf(documents),
    ensures
        index_wf(upserted(documents, item)),
{
    let key = IdTypeView::FixturesId(item.id);
    let next = upserted(documents, item);
    if holds(documents, key) {
        let p = place(documents, key);
        assert(names_at(documents, key, p));
        assert forall|i: int, j: int| 0 <= i < j < next.len() implies (#[trigger] next[i]).id != (
        #[trigger] next[j]).id by {
            assert(documents[i].id != documents[j].id);
        }
    } else {
        assert forall|i: int, j: int| 0 <= i < j < next.len() implies (#[trigger] next[i]).id != (
        #[trigger] next[j]).id by {
            if j == documents.len() {
                assert(!names_at(documents, key, i));
            } else {
                assert(documents[i].id != documents[j].id);
            }
        }
    }
}

/// Dropping a document keeps the documents apart by identifier.
pub proof fn removed_is_wf(documents: Seq<FixturesView>, id: u128)
    requires
        index_wf(documents),
    ensures
        index_wf(after_delete(documents, id)),
{
    let key = IdTypeView::FixturesId(id);
    let next = after_delete(documents, id);
    if holds(documents, key) {
        let p = place(documents, key);
        assert(names_at(documents, key, p));
        assert forall|i: int, j: int| 0 <= i < j < next.len() implies (#[trigger] next[i]).id != (
        #[trigger] next[j]).id by {
            let i0 = if i < p { i } else { i + 1 };
            let j0 = if j < p { j } else { j + 1 };
            assert(documents[i0].id != documents[j0].id);
        }
    }
}

/// The index of the items.
#[derive(Debug)]
pub struct SearchFixtures {
    online: bool,
    documents: Vec<Fixtures>,
}

impl View for SearchFixtures {
    type V = SearchFixturesView;

    closed spec fn view(&self) -> SearchFixturesView {
        SearchFixturesView { online: self.online, documents: fixtures_views(self.documents@) }
    }
}

impl SearchFixtures {
    /// Whether the index keeps what it has to keep.
    pub open spec fn wf(&self) -> bool {
        index_wf(self@.documents)
    }

    /// An index within reach and without documents.
    pub fn new() -> (index: SearchFixtures)
        ensures
            index.wf(),
            index@ == (SearchFixturesView { online: true, documents: Seq::empty() }),
    {
        let index = SearchFixtures { online: true, documents: Vec::new() };
        assert(index@.documents =~= Seq::<FixturesView>::empty());
        index
    }

    /// Whether the index can be reached.
    pub fn is_online(&self) -> (online: bool)
        ensures
            online == self@.online,
    {
        self.online
    }

    /// Puts the index within or out of reach.
    pub fn set_online(&mut self, online: bool)
        ensures
            final(self)@ == (SearchFixturesView { online, ..old(self)@ }),
    {
        self.online = online;
    }

    /// The number of documents.
    pub fn len(&self) -> (n: usize)
        ensures
            n == self@.documents.len(),
    {
        self.documents.len()
    }

    /// All documents, in the order in which their items were first handed
    /// in.
    pub fn documents(&self) -> (list: Vec<Fixtures>)
        ensures
            fixtures_views(list@) == self@.documents,
    {
        let mut list: Vec<Fixtures> = Vec::new();
        let mut i: usize = 0;
        while i < self.documents.len()
            invariant
                i <= self.documents.len(),
                list@.len() == i,
                forall|j: int| 0 <= j < i ==> (#[trigger] list@[j])@ == self@.documents[j],
            decreases self.documents.len() - i,
        {
            list.push(self.documents[i].clone());
            i += 1;
        }
        assert(fixtures_views(list@) =~= self@.documents);
        list
    }

    /// The place of the document of the identifier `id`.
    fn position(&self, id: u128) -> (found: Option<usize>)
        ensures
            match found {
                Some(i) => names_at(self@.documents, IdTypeView::FixturesId(id), i as int),
                None => !holds(self@.documents, IdTypeView::FixturesId(id)),
            },
    {
        let mut i: usize = 0;
        while i < self.documents.len()
            invariant
                i <= self.documents.len(),
                forall|j: int|
                    0 <= j < i ==> !names_at(self@.documents, IdTypeView::FixturesId(id), j),
            decreases self.documents.len() - i,
        {
            if self.documents[i].id == id {
                return Some(i);
            }
            i += 1;
        }
        None
    }

    /// Hands `item` in.
    fn upsert(&mut self, item: Fixtures)
        requires
            old(self).wf(),
        ensures
            final(self).wf(),
            final(self)@ == (SearchFixturesView {
                documents: upserted(old(self)@.documents, item@),
                ..old(self)@
            }),
    {
        proof {
            upserted_is_wf(self@.documents, item@);
        }
        match self.position(item.id) {
            Some(i) => {
                proof {
                    document_is_unique(self@.documents, item.id, i as int);
                    assert(fixtures_views(self.documents@.update(i as int, item))
                        =~= self@.documents.update(i as int, item@));
                }
                self.documents.set(i, item);
            },
            None => {
                proof {
                    assert(fixtures_views(self.documents@.push(item)) =~= self@.documents.push(
                        item@,
                    ));
                }
                self.documents.push(item);
            },
        }
    }

    /// Drops the document of the identifier `id`.
    fn remove(&mut self, id: u128)
        requires
            old(self).wf(),
        ensures
            final(self).wf(),
            final(self)@ == (SearchFixturesView {
                documents: after_delete(old(self)@.documents, id),
                ..old(self)@
            }),
    {
        proof {
            removed_is_wf(self@.documents, id);
        }
        match self.position(id) {
            Some(i) => {
                proof {
                    document_is_unique(self@.documents, id, i as int);
                    assert(fixtures_views(self.documents@.remove(i as int))
                        =~= self@.documents.remove(i as int));
                }
                self.documents.remove(i);
            },
            None => {},
        }
    }

    /// Hands the items of `lst` in, one after the other: each replaces the
    /// document of its identifier, or is one document more.
    pub fn add_or_replace(&mut self, lst: &[Fixtures]) -> (res: Result<()>)
        requires
            old(self).wf(),
        ensures
            final(self).wf(),
            final(self)@ == old(self)@.after_add_or_replace(fixtures_views(lst@)),
            shown(res) == old(self)@.add_or_replace_result(),
    {
        if !self.online {
            return Err(QrError::SearchEngineAddOrReplace("fixtures".to_owned()));
        }
        let ghost items = fixtures_views(lst@);
        let mut i: usize = 0;
        proof {
            assert(items.take(0) =~= Seq::<FixturesView>::empty());
        }
        while i < lst.len()
            invariant
                i <= lst.len(),
                items == fixtures_views(lst@),
                self.wf(),
                self@.online == old(self)@.online,
                self@.documents == upserted_all(old(self)@.documents, items.take(i as int)),
            decreases lst.len() - i,
        {
            proof {
                assert(items.take(i + 1).drop_last() =~= items.take(i as int));
                assert(items.take(i + 1).last() == lst@[i as int]@);
            }
            self.upsert(lst[i].clone());
            i += 1;
        }
        proof {
            assert(items.take(lst.len() as int) =~= items);
        }
        Ok(())
    }

    /// Drops the documents of the identifiers `keys`. Dropping what is not
    /// there succeeds and changes nothing.
    pub fn delete(&mut self, keys: &[u128]) -> (res: Result<()>)
        requires
            old(self).wf(),
        ensures
            final(self).wf(),
            final(self)@ == old(self)@.after_delete(keys@),
            shown(res) == old(self)@.delete_result(),
    {
        if !self.online {
            return Err(QrError::SearchEngineDelete("fixtures".to_owned()));
        }
        let mut i: usize = 0;
        proof {
            assert(keys@.take(0) =~= Seq::<u128>::empty());
        }
        while i < keys.len()
            invariant
                i <= keys.len(),
                self.wf(),
                self@.online == old(self)@.online,
                self@.documents == removed_all(old(self)@.documents, keys@.take(i as int)),
            decreases keys.len() - i,
        {
            proof {
                assert(keys@.take(i + 1).drop_last() =~= keys@.take(i as int));
                assert(keys@.take(i + 1).last() == keys@[i as int]);
            }
            self.remove(keys[i]);
            i += 1;
        }
        proof {
            assert(keys@.take(keys.len() as int) =~= keys@);
        }
        Ok(())
    }
}

} // verus!
