use qr_backend::search_engine::{merge_results, split_keywords, SearchFixtures, SearchResult};
use qr_backend::error_handling::{ErrorKind, QrError};
use qr_backend::{Fixtures, QrColor, Stroge};

fn item(id: u128, name: &str) -> Fixtures {
    Fixtures {
        id,
        created_at: 0,
        qr_id: format!("qr-{id}"),
        qr_color: QrColor::Blue,
        name: name.to_string(),
        description: None,
        model_number: None,
        storage: Stroge::Room206,
        usage: None,
        usage_season: None,
        note: String::new(),
        parent_id: String::new(),
    }
}

fn hit(id: u128, name: &str, ranking: f64) -> SearchResult<Fixtures> {
    SearchResult { data: item(id, name), ranking: Some(ranking.to_bits()) }
}

fn ids(hits: &[SearchResult<Fixtures>]) -> Vec<u128> {
    hits.iter().map(|h| h.data.id).collect()
}

#[test]
fn no_hits_give_an_empty_result() {
    assert_eq!(merge_results(&vec![]), vec![]);
}

#[test]
fn result_rises_by_identifier_and_keeps_the_first_hit() {
    let hits = vec![
        hit(5, "a", 0.9),
        hit(2, "a", 0.8),
        hit(9, "a", 0.7),
        hit(2, "b", 0.99),
        hit(1, "b", 0.5),
        hit(9, "b", 0.1),
        hit(5, "c", 1.0),
    ];
    let out = merge_results(&hits);
    assert_eq!(ids(&out), vec![1, 2, 5, 9]);
    assert_eq!(out[0], hit(1, "b", 0.5));
    assert_eq!(out[1], hit(2, "a", 0.8));
    assert_eq!(out[2], hit(5, "a", 0.9));
    assert_eq!(out[3], hit(9, "a", 0.7));
    assert_eq!(f64::from_bits(out[1].ranking.unwrap()), 0.8);

    let big = vec![hit(u128::MAX, "z", 0.1), hit(0, "z", 0.2), hit(u128::MAX, "y", 0.3)];
    assert_eq!(ids(&merge_results(&big)), vec![0, u128::MAX]);
    let single = vec![SearchResult { data: item(3, "n"), ranking: None }];
    assert_eq!(merge_results(&single), single);
}

#[test]
fn search_for_two_keywords_is_the_union_of_the_searches() {
    let a = vec![hit(4, "a", 0.9), hit(1, "a", 0.8), hit(7, "a", 0.2)];
    let b = vec![hit(7, "b", 0.95), hit(3, "b", 0.9), hit(1, "b", 0.1)];
    let mut both = a.clone();
    both.extend(b.clone());

    let result = merge_results(&both);
    let mut parts = merge_results(&a);
    parts.extend(merge_results(&b));
    assert_eq!(result, merge_results(&parts));
    assert_eq!(ids(&result), vec![1, 3, 4, 7]);
    assert_eq!(result[0], hit(1, "a", 0.8));
    assert_eq!(result[3], hit(7, "a", 0.2));

    // the earlier keyword wins
    let mut other = b.clone();
    other.extend(a.clone());
    let swapped = merge_results(&other);
    assert_eq!(ids(&swapped), vec![1, 3, 4, 7]);
    assert_eq!(swapped[0], hit(1, "b", 0.1));
    assert_eq!(swapped[3], hit(7, "b", 0.95));
}

#[test]
fn keywords_stand_between_commas() {
    assert_eq!(split_keywords("a,b"), vec!["a".to_string(), "b".to_string()]);
    assert_eq!(split_keywords("机"), vec!["机".to_string()]);
    assert_eq!(split_keywords(""), vec![String::new()]);
    assert_eq!(split_keywords("a,,b,"), vec!["a", "", "b", ""]);
    assert_eq!(split_keywords(" a , b "), vec![" a ", " b "]);
    assert_eq!(
        split_keywords("長机,椅子,a b"),
        "長机,椅子,a b".split(',').map(|s| s.to_string()).collect::<Vec<String>>()
    );
}

#[test]
fn index_replaces_or_adds_by_identifier() {
    let mut index = SearchFixtures::new();
    assert!(index.is_online());
    assert_eq!(index.add_or_replace(&[item(1, "a"), item(2, "b")]), Ok(()));
    assert_eq!(index.len(), 2);
    assert_eq!(index.add_or_replace(&[item(1, "c"), item(3, "d"), item(3, "e")]), Ok(()));
    assert_eq!(index.documents(), vec![item(1, "c"), item(2, "b"), item(3, "e")]);

    // handing in once more changes nothing
    assert_eq!(index.add_or_replace(&[item(1, "c"), item(3, "e")]), Ok(()));
    assert_eq!(index.documents(), vec![item(1, "c"), item(2, "b"), item(3, "e")]);
    assert_eq!(index.add_or_replace(&[]), Ok(()));
    assert_eq!(index.len(), 3);
}

#[test]
fn index_drops_by_identifier() {
    let mut index = SearchFixtures::new();
    index.add_or_replace(&[item(1, "a"), item(2, "b"), item(3, "c")]).unwrap();
    assert_eq!(index.delete(&[2, 9]), Ok(()));
    assert_eq!(index.documents(), vec![item(1, "a"), item(3, "c")]);
    assert_eq!(index.delete(&[2, 2]), Ok(()));
    assert_eq!(index.documents(), vec![item(1, "a"), item(3, "c")]);
    assert_eq!(index.delete(&[3, 1, 3]), Ok(()));
    assert_eq!(index.len(), 0);
    assert_eq!(index.delete(&[]), Ok(()));
}

#[test]
fn index_out_of_reach_fails_and_keeps_what_it_holds() {
    let mut index = SearchFixtures::new();
    index.add_or_replace(&[item(1, "a")]).unwrap();
    index.set_online(false);
    assert!(!index.is_online());
    let add = index.add_or_replace(&[item(2, "b")]);
    assert_eq!(add, Err(QrError::SearchEngineAddOrReplace("fixtures".to_string())));
    assert_eq!(add.unwrap_err().kind(), Some(ErrorKind::IndexError));
    let delete = index.delete(&[1]);
    assert_eq!(delete, Err(QrError::SearchEngineDelete("fixtures".to_string())));
    assert_eq!(index.documents(), vec![item(1, "a")]);
    index.set_online(true);
    assert_eq!(index.delete(&[1]), Ok(()));
    assert_eq!(index.len(), 0);
}
