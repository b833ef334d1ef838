use spotify_player::search::{
    fuzzy_filtered_items, fuzzy_search_items, rank_by_score, search_filtered_items,
};

fn texts() -> Vec<String> {
    vec![
        "Shape of You • Ed Sheeran".to_string(),
        "Perfect • Ed Sheeran".to_string(),
        "Bad Guy • Billie Eilish".to_string(),
        "ÉTÉ • Angèle".to_string(),
    ]
}

#[test]
fn every_word_of_the_query_must_appear() {
    assert_eq!(search_filtered_items(Some("ed"), &texts()), vec![0, 1]);
    assert_eq!(search_filtered_items(Some("SHEERAN   you"), &texts()), vec![0]);
    assert_eq!(search_filtered_items(Some("été"), &texts()), vec![3]);
    assert_eq!(search_filtered_items(Some("nothing"), &texts()), Vec::<usize>::new());
}

#[test]
fn empty_or_absent_query_keeps_everything() {
    assert_eq!(search_filtered_items(None, &texts()), vec![0, 1, 2, 3]);
    assert_eq!(search_filtered_items(Some(""), &texts()), vec![0, 1, 2, 3]);
    assert_eq!(search_filtered_items(Some("   "), &texts()), vec![0, 1, 2, 3]);
}

#[test]
fn fuzzy_search_ranks_better_matches_first() {
    let texts = vec![
        "Another Brick in the Wall".to_string(),
        "Bohemian Rhapsody".to_string(),
        "Brick".to_string(),
    ];
    let r = fuzzy_search_items(&texts, "brick");
    assert_eq!(r.len(), 2);
    assert!(r.contains(&0) && r.contains(&2));
    assert!(!r.contains(&1));
    assert_eq!(fuzzy_search_items(&texts, "zzz"), Vec::<usize>::new());
    assert_eq!(fuzzy_search_items(&texts, ""), vec![0, 1, 2]);
    assert_eq!(fuzzy_filtered_items(None, &texts), vec![0, 1, 2]);
    let r = fuzzy_filtered_items(Some("BOHEMIAN"), &texts);
    assert_eq!(r, vec![1]);
    assert_eq!(
        rank_by_score(&vec![Some(3), None, Some(7), Some(3), Some(7)]),
        vec![2, 4, 0, 3]
    );
}
