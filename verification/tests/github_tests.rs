use gitout::github::{replay, Cursors, Edge, Listing, ListingError, Page, Repositories};

fn edge(cursor: &str, name: &str) -> Edge {
    Edge {
        cursor: cursor.to_string(),
        name: name.to_string(),
    }
}

fn page(owned: Vec<Edge>, starred: Vec<Edge>, watched: Vec<Edge>, gists: Vec<Edge>) -> Page {
    Page {
        owned,
        starred,
        watched,
        gists,
    }
}

fn empty_page() -> Page {
    page(vec![], vec![], vec![], vec![])
}

fn names(list: &[&str]) -> Vec<String> {
    list.iter().map(|s| s.to_string()).collect()
}

#[test]
fn a_new_listing_starts_every_collection_at_its_beginning() {
    let listing = Listing::new();
    assert_eq!(
        listing.cursors,
        Cursors {
            owned: None,
            starred: None,
            watched: None,
            gists: None
        }
    );
    assert_eq!(
        listing.finish(),
        Repositories {
            owned: vec![],
            starred: vec![],
            watched: vec![],
            gists: vec![]
        }
    );
}

#[test]
fn a_page_moves_each_collection_on_its_own() {
    let mut listing = Listing::new();
    let more = listing.absorb(&page(
        vec![edge("o1", "me/a"), edge("o2", "me/b")],
        vec![edge("s1", "you/c")],
        vec![],
        vec![edge("g1", "abc123")],
    ));
    assert!(more);
    assert_eq!(
        listing.cursors,
        Cursors {
            owned: Some("o2".to_string()),
            starred: Some("s1".to_string()),
            watched: None,
            gists: Some("g1".to_string()),
        }
    );
    let more = listing.absorb(&page(vec![], vec![edge("s2", "you/d")], vec![], vec![]));
    assert!(more);
    assert_eq!(listing.cursors.owned, Some("o2".to_string()));
    assert_eq!(listing.cursors.starred, Some("s2".to_string()));
    assert_eq!(
        listing.finish(),
        Repositories {
            owned: names(&["me/a", "me/b"]),
            starred: names(&["you/c", "you/d"]),
            watched: vec![],
            gists: names(&["abc123"]),
        }
    );
}

#[test]
fn an_empty_page_ends_the_listing_and_changes_nothing() {
    let mut listing = Listing::new();
    assert!(listing.absorb(&page(vec![edge("o1", "me/a")], vec![], vec![], vec![])));
    assert!(!listing.absorb(&empty_page()));
    assert_eq!(listing.cursors.owned, Some("o1".to_string()));
    assert_eq!(listing.finish().owned, names(&["me/a"]));
}

#[test]
fn pagination_stops_at_the_first_empty_page() {
    let responses = vec![
        Ok(page(vec![edge("c1", "me/a1"), edge("c2", "me/a2")], vec![], vec![], vec![])),
        Ok(page(vec![edge("c3", "me/a3")], vec![], vec![], vec![])),
        Ok(page(vec![edge("c4", "me/a4"), edge("c5", "me/a5")], vec![], vec![], vec![])),
        Ok(empty_page()),
        Ok(page(vec![edge("c6", "me/never")], vec![], vec![], vec![])),
    ];
    let (found, requests) = replay(&responses).unwrap();
    assert_eq!(requests, 4);
    assert_eq!(
        found,
        Repositories {
            owned: names(&["me/a1", "me/a2", "me/a3", "me/a4", "me/a5"]),
            starred: vec![],
            watched: vec![],
            gists: vec![],
        }
    );
}

#[test]
fn an_exhausted_collection_does_not_stop_the_others() {
    let responses = vec![
        Ok(page(
            vec![edge("o1", "me/a")],
            vec![edge("s1", "you/x")],
            vec![edge("w1", "they/p")],
            vec![edge("g1", "gist1")],
        )),
        Ok(page(vec![], vec![edge("s2", "you/y")], vec![], vec![])),
        Ok(page(vec![], vec![], vec![], vec![edge("g2", "gist2")])),
        Ok(empty_page()),
    ];
    let (found, requests) = replay(&responses).unwrap();
    assert_eq!(requests, 4);
    assert_eq!(found.owned, names(&["me/a"]));
    assert_eq!(found.starred, names(&["you/x", "you/y"]));
    assert_eq!(found.watched, names(&["they/p"]));
    assert_eq!(found.gists, names(&["gist1", "gist2"]));
}

#[test]
fn an_empty_account_takes_one_request() {
    let (found, requests) = replay(&vec![Ok(empty_page())]).unwrap();
    assert_eq!(requests, 1);
    assert!(found.owned.is_empty() && found.starred.is_empty());
    assert!(found.watched.is_empty() && found.gists.is_empty());
}

#[test]
fn a_failed_request_aborts_the_listing() {
    let responses = vec![
        Ok(page(vec![edge("o1", "me/a")], vec![], vec![], vec![])),
        Err(ListingError::Transport),
        Ok(empty_page()),
    ];
    assert_eq!(replay(&responses), Err(ListingError::Transport));
}

#[test]
fn an_unreadable_answer_aborts_the_listing() {
    let responses = vec![Err(ListingError::Malformed), Ok(empty_page())];
    assert_eq!(replay(&responses), Err(ListingError::Malformed));
}

#[test]
fn a_failure_after_the_end_is_never_seen() {
    let responses = vec![Ok(empty_page()), Err(ListingError::Transport)];
    assert!(replay(&responses).is_ok());
}

#[test]
fn answers_that_run_out_leave_the_listing_incomplete() {
    let responses = vec![Ok(page(vec![edge("o1", "me/a")], vec![], vec![], vec![]))];
    assert_eq!(replay(&responses), Err(ListingError::Incomplete));
    assert_eq!(replay(&vec![]), Err(ListingError::Incomplete));
}
