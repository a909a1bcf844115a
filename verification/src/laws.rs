//! What holds of the service whatever it is asked.

use crate::certification::{
    holds as holds_token, issue_decision, place as place_of_token, Operation, PasstokenView, Role,
};
use crate::database::fixtures;
use crate::database::fixtures::IdTypeView as ItemKey;
use crate::database::lending::{
    after_lend, after_return, answers_at, ended, has_id, is_lending, ledger_wf, lend_result,
    open_at, open_lending_is_unique, return_result, IdTypeView as LendingKey,
};
use crate::database::DatabaseView;
use crate::error_handling::QrErrorView;
use crate::handler::{AppView, WriteOutcomeView};
use crate::identifier::hyphenated;
use crate::search_engine::{
    ascending, document_is_unique, first_seen, index_wf, is_first_hit, is_merge, shows, upserted,
    Hit,
};
use crate::text::read_usize;
use crate::{FixturesView, LendingView};
use vstd::prelude::*;

verus! {

/// An item that was entered is found under its identifier and under its QR
/// code, as it was entered.
pub proof fn created_item_is_found(db: DatabaseView, item: FixturesView)
    requires
        db.wf(),
        db.insert_fixtures_result(item) is Ok,
    ensures
        db.after_insert_fixtures(item).wf(),
        db.after_insert_fixtures(item).get_one_fixtures_result(ItemKey::FixturesId(item.id)) == Ok::<
            FixturesView,
            QrErrorView,
        >(item),
        db.after_insert_fixtures(item).get_one_fixtures_result(ItemKey::QrId(item.qr_id)) == Ok::<
            FixturesView,
            QrErrorView,
        >(item),
{
    let rows = db.fixtures;
    let next = rows.push(item);
    let last = rows.len() as int;
    assert(db.after_insert_fixtures(item).fixtures == next);
    assert forall|i: int, j: int| 0 <= i < j < next.len() implies (#[trigger] next[i]).id != (
    #[trigger] next[j]).id && next[i].qr_id != next[j].qr_id by {
        if j == last {
            assert(!fixtures::names_at(rows, ItemKey::FixturesId(item.id), i));
            assert(!fixtures::names_at(rows, ItemKey::QrId(item.qr_id), i));
        }
    }
    assert(fixtures::names_at(next, ItemKey::FixturesId(item.id), last));
    assert(fixtures::names_at(next, ItemKey::QrId(item.qr_id), last));
    fixtures::item_is_unique(next, ItemKey::FixturesId(item.id), last);
    fixtures::item_is_unique(next, ItemKey::QrId(item.qr_id), last);
}

/// Lending keeps the ledger a ledger.
pub proof fn lending_keeps_ledger(rows: Seq<LendingView>, info: LendingView)
    requires
        ledger_wf(rows),
    ensures
        ledger_wf(after_lend(rows, info)),
{
    if lend_result(rows, info) is Ok {
        let next = after_lend(rows, info);
        let last = rows.len() as int;
        assert forall|i: int, j: int| 0 <= i < j < next.len() implies (#[trigger] next[i]).id != (
        #[trigger] next[j]).id by {
            if j == last {
                assert(rows[i].id != info.id);
            }
        }
        assert forall|i: int, j: int|
            0 <= i < j < next.len() && (#[trigger] next[i]).is_open() && (
            #[trigger] next[j]).is_open() implies next[i].fixtures_id != next[j].fixtures_id
            && next[i].fixtures_qr_id != next[j].fixtures_qr_id by {
            if j == last {
                assert(!answers_at(rows, LendingKey::FixturesId(info.fixtures_id), i));
                assert(!answers_at(rows, LendingKey::QrId(info.fixtures_qr_id), i));
            }
        }
    }
}

/// A return keeps the ledger a ledger.
pub proof fn return_keeps_ledger(rows: Seq<LendingView>, key: LendingKey, at: i64)
    requires
        ledger_wf(rows),
    ensures
        ledger_wf(after_return(rows, key, at)),
{
    if is_lending(rows, key) {
        let next = after_return(rows, key, at);
        assert(answers_at(rows, key, open_at(rows, key)));
        assert forall|i: int, j: int| 0 <= i < j < next.len() implies (#[trigger] next[i]).id != (
        #[trigger] next[j]).id by {
            assert(rows[i].id != rows[j].id);
        }
        assert forall|i: int, j: int|
            0 <= i < j < next.len() && (#[trigger] next[i]).is_open() && (
            #[trigger] next[j]).is_open() implies next[i].fixtures_id != next[j].fixtures_id
            && next[i].fixtures_qr_id != next[j].fixtures_qr_id by {
            assert(rows[i].is_open() && rows[j].is_open());
        }
    }
}

/// An item that was lent cannot be lent again before it is back: the
/// second lending is a conflict and changes nothing, and the ledger holds
/// one open lending of the item and no more.
pub proof fn lent_item_is_not_lent_again(rows: Seq<LendingView>, first: LendingView, second: LendingView)
    requires
        ledger_wf(rows),
        lend_result(rows, first) is Ok,
        second.fixtures_id == first.fixtures_id,
    ensures
        lend_result(after_lend(rows, first), second) == Err::<(), QrErrorView>(
            QrErrorView::AlreadyLent,
        ),
        after_lend(after_lend(rows, first), second) == after_lend(rows, first),
        forall|i: int|
            answers_at(
                after_lend(rows, first),
                LendingKey::FixturesId(first.fixtures_id),
                i,
            ) <==> i == rows.len(),
{
    let next = after_lend(rows, first);
    let key = LendingKey::FixturesId(first.fixtures_id);
    let last = rows.len() as int;
    lending_keeps_ledger(rows, first);
    assert(answers_at(next, key, last));
    assert forall|i: int| answers_at(next, key, i) implies i == last by {
        open_lending_is_unique(next, key, i);
        open_lending_is_unique(next, key, last);
    }
}

/// Under the QR code that an item was lent under, nothing else can be
/// lent before the item is back.
pub proof fn lent_qr_is_not_lent_again(rows: Seq<LendingView>, first: LendingView, second: LendingView)
    requires
        ledger_wf(rows),
        lend_result(rows, first) is Ok,
        second.fixtures_qr_id == first.fixtures_qr_id,
    ensures
        lend_result(after_lend(rows, first), second) == Err::<(), QrErrorView>(
            QrErrorView::AlreadyLent,
        ),
        after_lend(after_lend(rows, first), second) == after_lend(rows, first),
{
    let next = after_lend(rows, first);
    assert(answers_at(next, LendingKey::QrId(first.fixtures_qr_id), rows.len() as int));
}

/// An item that is back can be lent again: after a lending and its return,
/// a new lending of the item under the same QR code succeeds.
pub proof fn returned_item_is_lent_again(
    rows: Seq<LendingView>,
    first: LendingView,
    at: i64,
    second: LendingView,
)
    requires
        ledger_wf(rows),
        lend_result(rows, first) is Ok,
        second.fixtures_id == first.fixtures_id,
        second.fixtures_qr_id == first.fixtures_qr_id,
        second.id != first.id,
        !has_id(rows, second.id),
    ensures
        return_result(after_lend(rows, first), LendingKey::FixturesId(first.fixtures_id)) is Ok,
        lend_result(
            after_return(after_lend(rows, first), LendingKey::FixturesId(first.fixtures_id), at),
            second,
        ) is Ok,
{
    let lent = after_lend(rows, first);
    let key = LendingKey::FixturesId(first.fixtures_id);
    let last = rows.len() as int;
    lending_keeps_ledger(rows, first);
    assert(answers_at(lent, key, last));
    open_lending_is_unique(lent, key, last);
    let back = after_return(lent, key, at);
    assert(back == lent.update(last, ended(lent[last], at)));
    assert forall|i: int| !answers_at(back, LendingKey::FixturesId(second.fixtures_id), i) by {
        if 0 <= i < last {
            assert(!answers_at(rows, LendingKey::FixturesId(first.fixtures_id), i));
        }
    }
    assert forall|i: int| !answers_at(back, LendingKey::QrId(second.fixtures_qr_id), i) by {
        if 0 <= i < last {
            assert(!answers_at(rows, LendingKey::QrId(first.fixtures_qr_id), i));
        }
    }
    assert forall|i: int| 0 <= i < back.len() implies (#[trigger] back[i]).id != second.id by {
        if i < last {
            assert(rows[i].id != second.id);
        }
    }
}

/// A return without an open lending finds nothing and changes nothing.
pub proof fn return_without_lending_is_not_found(db: DatabaseView, key: LendingKey, at: i64)
    requires
        db.wf(),
        db.online,
        db.return_key(key) matches Ok(k) ==> !is_lending(db.lending, k),
    ensures
        db.returned_lending_result(key) matches Err(QrErrorView::DatabaseNotFound(_)),
        db.after_returned_lending(key, at) == db,
{
    match key {
        LendingKey::QrId(qr) => {
            let found = fixtures::find_result(db.fixtures, ItemKey::QrId(qr));
            assert(found is Err ==> found matches Err(QrErrorView::DatabaseNotFound(_)));
        },
        _ => {},
    }
}

/// The time of a return, once set, stays: a lending that is closed is
/// left as it is by every lending and by every return.
pub proof fn closed_lending_stays(
    rows: Seq<LendingView>,
    i: int,
    info: LendingView,
    key: LendingKey,
    at: i64,
)
    requires
        0 <= i < rows.len(),
        !rows[i].is_open(),
    ensures
        after_lend(rows, info)[i] == rows[i],
        after_return(rows, key, at)[i] == rows[i],
{
    if is_lending(rows, key) {
        assert(answers_at(rows, key, open_at(rows, key)));
    }
}

/// A change of the items leaves the ledger as it is. So when the QR code
/// of a lent item goes to another item, the item stays lent under its
/// identifier and under the QR code that it was lent under, while a QR
/// code and an item without an open lending of their own count as
/// available.
pub proof fn reassigned_qr_keeps_status(
    db: DatabaseView,
    release: FixturesView,
    take: FixturesView,
    lent_item: u128,
    old_qr: Seq<char>,
    new_qr: Seq<char>,
    new_item: u128,
)
    requires
        db.wf(),
        db.online,
        is_lending(db.lending, LendingKey::FixturesId(lent_item)),
        is_lending(db.lending, LendingKey::QrId(old_qr)),
        !is_lending(db.lending, LendingKey::QrId(new_qr)),
        !is_lending(db.lending, LendingKey::FixturesId(new_item)),
    ensures
        ({
            let after = db.after_update_fixtures(release).after_update_fixtures(take);
            &&& after.lending == db.lending
            &&& after.is_lending_result(LendingKey::QrId(old_qr)) == Ok::<bool, QrErrorView>(true)
            &&& after.is_lending_result(LendingKey::FixturesId(lent_item)) == Ok::<
                bool,
                QrErrorView,
            >(true)
            &&& after.is_lending_result(LendingKey::QrId(new_qr)) == Ok::<bool, QrErrorView>(false)
            &&& after.is_lending_result(LendingKey::FixturesId(new_item)) == Ok::<
                bool,
                QrErrorView,
            >(false)
        }),
{
}

/// A QR code stands, at a return, for the item that carries it now. Where
/// that item has no open lending, the return finds nothing and changes
/// nothing, whatever was lent under the QR code before.
pub proof fn return_by_qr_is_of_the_current_item(
    db: DatabaseView,
    qr: Seq<char>,
    carrier: FixturesView,
    at: i64,
)
    requires
        db.wf(),
        db.online,
        fixtures::find_result(db.fixtures, ItemKey::QrId(qr)) == Ok::<FixturesView, QrErrorView>(
            carrier,
        ),
        !is_lending(db.lending, LendingKey::FixturesId(carrier.id)),
    ensures
        db.returned_lending_result(LendingKey::QrId(qr)) == Err::<(), QrErrorView>(
            QrErrorView::DatabaseNotFound(hyphenated(carrier.id)),
        ),
        db.after_returned_lending(LendingKey::QrId(qr), at) == db,
{
}

/// A result holds one hit for each item.
pub proof fn merge_shows_each_item_once(hits: Seq<Hit>, out: Seq<Hit>, a: int, b: int)
    requires
        is_merge(hits, out),
        0 <= a < out.len(),
        0 <= b < out.len(),
        out[a].data.id == out[b].data.id,
    ensures
        a == b,
{
    if a < b {
        assert(out[a].data.id < out[b].data.id);
    }
    if b < a {
        assert(out[b].data.id < out[a].data.id);
    }
}

/// A result shows an item exactly where the hits hold a hit on it.
pub proof fn merge_shows_what_was_hit(hits: Seq<Hit>, out: Seq<Hit>, id: u128)
    requires
        is_merge(hits, out),
    ensures
        shows(out, id) <==> shows(hits, id),
{
    if shows(out, id) {
        let k = choose|k: int| 0 <= k < out.len() && (#[trigger] out[k]).data.id == id;
        assert(is_first_hit(hits, out[k]));
        let i = choose|i: int| first_seen(hits, i) && hits[i] == out[k];
        assert(hits[i].data.id == id);
    }
    if shows(hits, id) {
        let i = choose|i: int| 0 <= i < hits.len() && (#[trigger] hits[i]).data.id == id;
        assert(shows(out, hits[i].data.id));
    }
}

/// The hit that a result holds on an item is the first hit on it.
proof fn merge_holds_first_hit(hits: Seq<Hit>, out: Seq<Hit>, k: int, i: int)
    requires
        is_merge(hits, out),
        0 <= k < out.len(),
        first_seen(hits, i),
        hits[i].data.id == out[k].data.id,
    ensures
        out[k] == hits[i],
{
    assert(is_first_hit(hits, out[k]));
    let j = choose|j: int| first_seen(hits, j) && hits[j] == out[k];
    if j < i {
        assert(hits[j].data.id != hits[i].data.id);
    }
    if i < j {
        assert(hits[i].data.id != hits[j].data.id);
    }
}

/// Two lists that rise by identifier and show the same items are equally
/// long and show the same item at each place.
proof fn ascending_lists_agree(a: Seq<Hit>, b: Seq<Hit>)
    requires
        ascending(a),
        ascending(b),
        forall|id: u128| shows(a, id) <==> shows(b, id),
    ensures
        a.len() == b.len(),
        forall|k: int| 0 <= k < a.len() ==> (#[trigger] a[k]).data.id == b[k].data.id,
    decreases a.len(),
{
    if a.len() == 0 {
        if b.len() > 0 {
            assert(shows(b, b[0].data.id));
            assert(shows(a, b[0].data.id));
        }
    } else {
        let la = a.len() - 1;
        assert(shows(a, a[la].data.id));
        assert(shows(b, a[la].data.id));
        let kb = choose|k: int| 0 <= k < b.len() && (#[trigger] b[k]).data.id == a[la].data.id;
        let lb = b.len() - 1;
        assert(shows(b, b[lb].data.id));
        assert(shows(a, b[lb].data.id));
        let ka = choose|k: int| 0 <= k < a.len() && (#[trigger] a[k]).data.id == b[lb].data.id;
        if ka < la {
            assert(a[ka].data.id < a[la].data.id);
        }
        if kb < lb {
            assert(b[kb].data.id < b[lb].data.id);
        }
        assert(a[la].data.id == b[lb].data.id);
        let a0 = a.drop_last();
        let b0 = b.drop_last();
        assert forall|id: u128| shows(a0, id) <==> shows(b0, id) by {
            if shows(a0, id) {
                let k = choose|k: int| 0 <= k < a0.len() && (#[trigger] a0[k]).data.id == id;
                assert(a[k].data.id < a[la].data.id);
                assert(shows(a, a[k].data.id));
                assert(shows(b, id));
                let m = choose|m: int| 0 <= m < b.len() && (#[trigger] b[m]).data.id == id;
                assert(m != lb);
                assert(b0[m].data.id == id);
            }
            if shows(b0, id) {
                let k = choose|k: int| 0 <= k < b0.len() && (#[trigger] b0[k]).data.id == id;
                assert(b[k].data.id < b[lb].data.id);
                assert(shows(b, b[k].data.id));
                assert(shows(a, id));
                let m = choose|m: int| 0 <= m < a.len() && (#[trigger] a[m]).data.id == id;
                assert(m != la);
                assert(a0[m].data.id == id);
            }
        }
        assert(ascending(a0)) by {
            assert forall|x: int, y: int| 0 <= x < y < a0.len() implies (#[trigger] a0[x]).data.id
                < (#[trigger] a0[y]).data.id by {
                assert(a[x].data.id < a[y].data.id);
            }
        }
        assert(ascending(b0)) by {
            assert forall|x: int, y: int| 0 <= x < y < b0.len() implies (#[trigger] b0[x]).data.id
                < (#[trigger] b0[y]).data.id by {
                assert(b[x].data.id < b[y].data.id);
            }
        }
        ascending_lists_agree(a0, b0);
        assert forall|k: int| 0 <= k < a.len() implies (#[trigger] a[k]).data.id
            == b[k].data.id by {
            if k < la {
                assert(a0[k].data.id == b0[k].data.id);
            }
        }
    }
}

/// Hits have one result: what is the result of given hits is settled by
/// them.
pub proof fn merge_is_settled(hits: Seq<Hit>, a: Seq<Hit>, b: Seq<Hit>)
    requires
        is_merge(hits, a),
        is_merge(hits, b),
    ensures
        a == b,
{
    assert forall|id: u128| shows(a, id) <==> shows(b, id) by {
        merge_shows_what_was_hit(hits, a, id);
        merge_shows_what_was_hit(hits, b, id);
    }
    ascending_lists_agree(a, b);
    assert forall|k: int| 0 <= k < a.len() implies a[k] == b[k] by {
        assert(is_first_hit(hits, a[k]));
        let i = choose|i: int| first_seen(hits, i) && hits[i] == a[k];
        merge_holds_first_hit(hits, b, k, i);
    }
    assert(a =~= b);
}

/// The search for two lists of keywords is the union of the two searches,
/// each item once: the result of the hits of both is the result of the
/// two results, one after the other, and shows an item exactly where one
/// of the two results shows it.
pub proof fn search_is_union(
    first: Seq<Hit>,
    second: Seq<Hit>,
    first_result: Seq<Hit>,
    second_result: Seq<Hit>,
    result: Seq<Hit>,
)
    requires
        is_merge(first, first_result),
        is_merge(second, second_result),
        is_merge(first + second, result),
    ensures
        is_merge(first_result + second_result, result),
        forall|id: u128|
            shows(result, id) <==> shows(first_result, id) || shows(second_result, id),
{
    let hits = first + second;
    let both = first_result + second_result;
    assert forall|id: u128| shows(hits, id) <==> shows(first, id) || shows(second, id) by {
        if shows(hits, id) {
            let i = choose|i: int| 0 <= i < hits.len() && (#[trigger] hits[i]).data.id == id;
            if i < first.len() {
                assert(first[i].data.id == id);
            } else {
                assert(second[i - first.len()].data.id == id);
            }
        }
        if shows(first, id) {
            let i = choose|i: int| 0 <= i < first.len() && (#[trigger] first[i]).data.id == id;
            assert(hits[i].data.id == id);
        }
        if shows(second, id) {
            let i = choose|i: int| 0 <= i < second.len() && (#[trigger] second[i]).data.id == id;
            assert(hits[i + first.len()].data.id == id);
        }
    }
    assert forall|id: u128|
        shows(result, id) <==> shows(first_result, id) || shows(second_result, id) by {
        merge_shows_what_was_hit(hits, result, id);
        merge_shows_what_was_hit(first, first_result, id);
        merge_shows_what_was_hit(second, second_result, id);
    }
    assert forall|id: u128| shows(both, id) <==> shows(first_result, id) || shows(
        second_result,
        id,
    ) by {
        if shows(both, id) {
            let i = choose|i: int| 0 <= i < both.len() && (#[trigger] both[i]).data.id == id;
            if i < first_result.len() {
                assert(first_result[i].data.id == id);
            } else {
                assert(second_result[i - first_result.len()].data.id == id);
            }
        }
        if shows(first_result, id) {
            let i = choose|i: int|
                0 <= i < first_result.len() && (#[trigger] first_result[i]).data.id == id;
            assert(both[i].data.id == id);
        }
        if shows(second_result, id) {
            let i = choose|i: int|
                0 <= i < second_result.len() && (#[trigger] second_result[i]).data.id == id;
            assert(both[i + first_result.len()].data.id == id);
        }
    }
    assert forall|k: int| 0 <= k < result.len() implies is_first_hit(
        both,
        #[trigger] result[k],
    ) by {
        assert(is_first_hit(hits, result[k]));
        let i = choose|i: int| first_seen(hits, i) && hits[i] == result[k];
        let id = result[k].data.id;
        if i < first.len() {
            assert forall|j: int| 0 <= j < i implies (#[trigger] first[j]).data.id
                != first[i].data.id by {
                assert(hits[j].data.id != hits[i].data.id);
            }
            assert(first_seen(first, i));
            assert(shows(first_result, first[i].data.id));
            let m = choose|m: int|
                0 <= m < first_result.len() && (#[trigger] first_result[m]).data.id == id;
            merge_holds_first_hit(first, first_result, m, i);
            assert forall|j: int| 0 <= j < m implies (#[trigger] both[j]).data.id
                != both[m].data.id by {
                assert(first_result[j].data.id < first_result[m].data.id);
            }
            assert(first_seen(both, m) && both[m] == result[k]);
        } else {
            let i2 = i - first.len();
            assert forall|j: int| 0 <= j < i2 implies (#[trigger] second[j]).data.id
                != second[i2].data.id by {
                assert(hits[j + first.len()].data.id != hits[i].data.id);
            }
            assert(first_seen(second, i2));
            assert(shows(second_result, second[i2].data.id));
            let m = choose|m: int|
                0 <= m < second_result.len() && (#[trigger] second_result[m]).data.id == id;
            merge_holds_first_hit(second, second_result, m, i2);
            assert(!shows(first, id)) by {
                assert forall|j: int| 0 <= j < first.len() implies (#[trigger] first[j]).data.id
                    != id by {
                    assert(hits[j].data.id != hits[i].data.id);
                }
            }
            merge_shows_what_was_hit(first, first_result, id);
            let m2 = m + first_result.len();
            assert forall|j: int| 0 <= j < m2 implies (#[trigger] both[j]).data.id
                != both[m2].data.id by {
                if j < first_result.len() {
                    assert(first_result[j].data.id != id);
                } else {
                    assert(second_result[j - first_result.len()].data.id
                        < second_result[m].data.id);
                }
            }
            assert(first_seen(both, m2) && both[m2] == result[k]);
        }
    }
    assert forall|i: int| 0 <= i < both.len() implies shows(
        result,
        (#[trigger] both[i]).data.id,
    ) by {
        assert(shows(both, both[i].data.id));
    }
}

/// No hits give an empty result.
pub proof fn no_hits_give_no_result(out: Seq<Hit>)
    requires
        is_merge(Seq::<Hit>::empty(), out),
    ensures
        out.len() == 0,
{
    if out.len() > 0 {
        assert(is_first_hit(Seq::<Hit>::empty(), out[0]));
    }
}

/// Handing an item in twice is handing it in once.
pub proof fn upsert_is_idempotent(documents: Seq<FixturesView>, item: FixturesView)
    requires
        index_wf(documents),
    ensures
        upserted(upserted(documents, item), item) == upserted(documents, item),
{
    let key = ItemKey::FixturesId(item.id);
    let once = upserted(documents, item);
    crate::search_engine::upserted_is_wf(documents, item);
    if fixtures::holds(documents, key) {
        let p = fixtures::place(documents, key);
        assert(fixtures::names_at(documents, key, p));
        assert(fixtures::names_at(once, key, p));
        document_is_unique(once, item.id, p);
        assert(once.update(p, item) =~= once);
    } else {
        let p = documents.len() as int;
        assert(fixtures::names_at(once, key, p));
        document_is_unique(once, item.id, p);
        assert(once.update(p, item) =~= once);
    }
}

/// Dropping a document twice is dropping it once.
pub proof fn delete_is_idempotent(documents: Seq<FixturesView>, id: u128)
    requires
        index_wf(documents),
    ensures
        fixtures::after_delete(fixtures::after_delete(documents, id), id) == fixtures::after_delete(
            documents,
            id,
        ),
{
    let key = ItemKey::FixturesId(id);
    let once = fixtures::after_delete(documents, id);
    if fixtures::holds(documents, key) {
        let p = fixtures::place(documents, key);
        assert(fixtures::names_at(documents, key, p));
        assert forall|i: int| !fixtures::names_at(once, key, i) by {
            if 0 <= i < once.len() {
                let i0 = if i < p { i } else { i + 1 };
                assert(once[i] == documents[i0]);
                if i0 < p {
                    assert(documents[i0].id != documents[p].id);
                } else {
                    assert(documents[p].id != documents[i0].id);
                }
            }
        }
    }
}

/// A change of an item that the index fails to take stands in the
/// registry: the outcome says that the index is behind, the registry holds
/// the item, and the index holds what it held.
pub proof fn index_failure_leaves_the_change(
    app: AppView,
    bearer: Seq<char>,
    item: FixturesView,
    now: i64,
)
    requires
        app.wf(),
        app.guard(bearer, Operation::Change, now) is Ok,
        app.conn.insert_fixtures_result(item) is Ok,
        !app.context.online,
    ensures
        app.insert_fixtures_result(bearer, item, now) == Ok::<WriteOutcomeView, QrErrorView>(
            WriteOutcomeView::IndexOutOfSync(QrErrorView::SearchEngineAddOrReplace("fixtures"@)),
        ),
        app.after_insert_fixtures(bearer, item, now).context == app.context,
        app.after_insert_fixtures(bearer, item, now).conn.get_one_fixtures_result(
            ItemKey::FixturesId(item.id),
        ) == Ok::<FixturesView, QrErrorView>(item),
{
    created_item_is_found(app.conn, item);
}

/// A change of an item that the registry fails to take has not happened:
/// the request fails with the registry's error, and neither the registry
/// nor the index has changed.
pub proof fn registry_failure_changes_nothing(
    app: AppView,
    bearer: Seq<char>,
    item: FixturesView,
    now: i64,
)
    requires
        app.guard(bearer, Operation::Change, now) is Ok,
        app.conn.insert_fixtures_result(item) is Err,
    ensures
        app.insert_fixtures_result(bearer, item, now) == Err::<WriteOutcomeView, QrErrorView>(
            app.conn.insert_fixtures_result(item)->Err_0,
        ),
        app.after_insert_fixtures(bearer, item, now) == app,
{
}

/// Who may not change things changes nothing: a request that the guard
/// turns away is unauthorized and leaves the service as it was.
pub proof fn unauthorized_changes_nothing(
    app: AppView,
    bearer: Seq<char>,
    item: FixturesView,
    info: LendingView,
    now: i64,
)
    requires
        app.guard(bearer, Operation::Change, now) is Err,
    ensures
        app.insert_fixtures_result(bearer, item, now) == Err::<WriteOutcomeView, QrErrorView>(
            QrErrorView::Authorized,
        ),
        app.after_insert_fixtures(bearer, item, now) == app,
        app.update_fixtures_result(bearer, item, now) == Err::<WriteOutcomeView, QrErrorView>(
            QrErrorView::Authorized,
        ),
        app.after_update_fixtures(bearer, item, now) == app,
        app.insert_lending_result(bearer, info, now) == Err::<(), QrErrorView>(
            QrErrorView::Authorized,
        ),
        app.after_insert_lending(bearer, info, now) == app,
{
}

/// Who presents a wrong secret gets no credential: with the settings of
/// the role in order and a key that is not the secret, the issue is
/// unauthorized and leaves the service as it was.
pub proof fn wrong_secret_gets_no_credential(
    app: AppView,
    role: Role,
    key: Seq<char>,
    token: Seq<char>,
    now: i64,
)
    requires
        app.settings.of(role).pass_key matches Some(secret) && secret@ != key,
        app.settings.of(role).limit_days matches Some(days) && read_usize(days@) is Some,
    ensures
        app.issue_result(role.text(), key, token, now) == Err::<Seq<char>, QrErrorView>(
            QrErrorView::Authorized,
        ),
        app.after_issue(role.text(), key, token, now) == app,
{
    role.name_reads_back();
    assert(issue_decision(role, key, app.settings.of(role)) == Err::<usize, QrErrorView>(
        QrErrorView::Authorized,
    ));
}

/// A credential that has expired is rejected for good: from its expiry on
/// the check of its token is unauthorized, though the registry still holds
/// it.
pub proof fn expired_credential_is_rejected(db: DatabaseView, token: Seq<char>, now: i64) -> (row:
    PasstokenView)
    requires
        db.wf(),
        db.online,
        holds_token(db.passtoken, token),
        db.passtoken[place_of_token(db.passtoken, token)].expires_at() <= now,
    ensures
        row == db.passtoken[place_of_token(db.passtoken, token)],
        row.token == token,
        db.role_at(token, now) == Err::<Role, QrErrorView>(QrErrorView::Authorized),
        forall|later: i64| now <= later ==> db.role_at(token, later) == Err::<Role, QrErrorView>(
            QrErrorView::Authorized,
        ),
{
    let p = place_of_token(db.passtoken, token);
    assert(crate::certification::token_at(db.passtoken, token, p));
    db.passtoken[p]
}

/// A credential that has not expired gives its role.
pub proof fn valid_credential_gives_its_role(db: DatabaseView, token: Seq<char>, now: i64)
    requires
        db.wf(),
        db.online,
        holds_token(db.passtoken, token),
        db.passtoken[place_of_token(db.passtoken, token)].expires_at() > now,
    ensures
        db.role_at(token, now) == Ok::<Role, QrErrorView>(
            db.passtoken[place_of_token(db.passtoken, token)].role,
        ),
{
}

} // verus!
