use app_catalog::dto::ApplicationDto;
use app_catalog::errors::StoreError;
use app_catalog::model::Application;
use app_catalog::pagination::{
    effective_limit, link_header, next_page_key, respond_page, PageOutcome,
};

fn application(id: &str) -> Application {
    Application {
        id: String::from(id),
        created_at: String::from("2024-01-01T00:00:00Z"),
        updated_at: String::from("2024-01-02T00:00:00Z"),
        name: format!("name of {}", id),
        description: None,
        platforms: None,
    }
}

fn page(ids: &[&str]) -> Vec<Application> {
    ids.iter().map(|id| application(id)).collect()
}

#[test]
fn limit_above_the_maximum_is_clamped() {
    assert_eq!(effective_limit(Some(500), 100), 100);
    assert_eq!(effective_limit(Some(101), 100), 100);
    assert_eq!(effective_limit(Some(i64::MAX), 1), 1);
}

#[test]
fn absent_limit_is_the_maximum() {
    assert_eq!(effective_limit(None, 100), 100);
    assert_eq!(effective_limit(None, 1), 1);
}

#[test]
fn limit_within_bounds_is_kept() {
    assert_eq!(effective_limit(Some(1), 100), 1);
    assert_eq!(effective_limit(Some(37), 100), 37);
    assert_eq!(effective_limit(Some(100), 100), 100);
}

#[test]
fn limit_of_zero_is_the_maximum() {
    assert_eq!(effective_limit(Some(0), 100), 100);
}

#[test]
fn negative_limit_is_the_maximum() {
    assert_eq!(effective_limit(Some(-1), 100), 100);
    assert_eq!(effective_limit(Some(i64::MIN), 25), 25);
}

#[test]
fn effective_limit_is_always_between_one_and_the_maximum() {
    for max in [1i64, 2, 10, 100] {
        for requested in -3i64..=(max + 3) {
            let limit = effective_limit(Some(requested), max);
            assert!(0 < limit && limit <= max);
            if 0 < requested && requested <= max {
                assert_eq!(limit, requested);
            } else {
                assert_eq!(limit, max);
            }
        }
    }
}

#[test]
fn short_page_has_no_successor() {
    assert_eq!(next_page_key(&page(&["a"]), 2), None);
    assert_eq!(next_page_key(&page(&["a", "b", "c"]), 4), None);
    assert_eq!(next_page_key(&page(&[]), 1), None);
}

#[test]
fn full_page_is_followed_after_its_last_key() {
    assert_eq!(next_page_key(&page(&["a", "b"]), 2), Some(String::from("b")));
    assert_eq!(next_page_key(&page(&["k1", "k2", "k3"]), 3), Some(String::from("k3")));
    assert_eq!(next_page_key(&page(&["x", "y", "z"]), 2), Some(String::from("z")));
}

#[test]
fn page_served_without_a_positive_size_is_never_the_last() {
    assert_eq!(next_page_key(&page(&["a", "b"]), 0), Some(String::from("b")));
    assert_eq!(next_page_key(&page(&["a"]), -5), Some(String::from("a")));
    assert_eq!(next_page_key(&page(&[]), 0), Some(String::new()));
}

#[test]
fn header_of_a_last_page_holds_first_alone() {
    assert_eq!(
        link_header("https://catalog.example.org", 2, None),
        "<https://catalog.example.org/api/v1/applications/?limit=2>; rel=first"
    );
}

#[test]
fn header_of_a_full_page_holds_first_and_next() {
    assert_eq!(
        link_header("https://catalog.example.org", 25, Some("app-0025")),
        "<https://catalog.example.org/api/v1/applications/?limit=25>; rel=first, \
         <https://catalog.example.org/api/v1/applications/?page=app-0025&limit=25>; rel=next"
    );
}

#[test]
fn header_takes_context_and_key_as_they_are() {
    assert_eq!(
        link_header("", 1, Some("")),
        "</api/v1/applications/?limit=1>; rel=first, \
         </api/v1/applications/?page=&limit=1>; rel=next"
    );
    assert_eq!(
        link_header("http://h:8080/base", 100, Some("a b&c")),
        "<http://h:8080/base/api/v1/applications/?limit=100>; rel=first, \
         <http://h:8080/base/api/v1/applications/?page=a b&c&limit=100>; rel=next"
    );
}

#[test]
fn store_failure_is_a_server_error() {
    let outcome =
        respond_page(Err(StoreError { cause: String::from("connection refused") }), 2, "http://h");
    assert_eq!(
        outcome,
        PageOutcome::ServerError { cause: StoreError { cause: String::from("connection refused") } }
    );
}

#[test]
fn empty_page_is_not_found() {
    assert_eq!(respond_page(Ok(vec![]), 2, "http://h"), PageOutcome::NotFound);
    assert_eq!(respond_page(Ok(vec![]), 0, "http://h"), PageOutcome::NotFound);
}

#[test]
fn full_page_is_projected_and_linked_to_the_next() {
    let outcome = respond_page(Ok(page(&["a", "b"])), 2, "http://h");
    assert_eq!(
        outcome,
        PageOutcome::Page {
            dtos: vec![
                ApplicationDto::from(application("a")),
                ApplicationDto::from(application("b")),
            ],
            link: String::from(
                "<http://h/api/v1/applications/?limit=2>; rel=first, \
                 <http://h/api/v1/applications/?page=b&limit=2>; rel=next"
            ),
        }
    );
}

#[test]
fn short_page_is_projected_and_linked_to_the_first_alone() {
    let outcome = respond_page(Ok(page(&["c"])), 2, "http://h");
    assert_eq!(
        outcome,
        PageOutcome::Page {
            dtos: vec![ApplicationDto::from(application("c"))],
            link: String::from("<http://h/api/v1/applications/?limit=2>; rel=first"),
        }
    );
}

#[test]
fn page_keeps_the_order_that_the_store_gave() {
    let outcome = respond_page(Ok(page(&["m", "c", "x"])), 5, "http://h");
    match outcome {
        PageOutcome::Page { dtos, .. } => {
            let ids: Vec<String> = dtos.into_iter().map(|d| d.id).collect();
            assert_eq!(ids, vec!["m", "c", "x"]);
        }
        other => panic!("a page was expected, not {:?}", other),
    }
}

#[test]
fn next_relation_is_there_exactly_on_full_pages() {
    for size in 1usize..=5 {
        for limit in 1i64..=6 {
            let ids: Vec<String> = (0..size).map(|i| format!("id-{}", i)).collect();
            let refs: Vec<&str> = ids.iter().map(|s| s.as_str()).collect();
            let first = format!("<ctx/api/v1/applications/?limit={}>; rel=first", limit);
            let expected = if (size as i64) < limit {
                first
            } else {
                format!(
                    "{}, <ctx/api/v1/applications/?page=id-{}&limit={}>; rel=next",
                    first,
                    size - 1,
                    limit
                )
            };
            match respond_page(Ok(page(&refs)), limit, "ctx") {
                PageOutcome::Page { link, dtos } => {
                    assert_eq!(link, expected);
                    assert_eq!(dtos.len(), size);
                }
                other => panic!("a page was expected, not {:?}", other),
            }
        }
    }
}
