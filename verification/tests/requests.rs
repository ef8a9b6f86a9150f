use post_service::models::{Post, PostData};
use post_service::response::{Body, Response, Status};
use post_service::service::{create_post, finish_create, get_data, CreateStep, Insertion, Lookup};
use serde_json::Value;

fn json(text: &str) -> Value {
    serde_json::from_str(text).unwrap()
}

fn copy(post: &Post) -> Post {
    Post { id: post.id, details: post.details.clone(), name: post.name.clone() }
}

/// Stands in for the table: rows in the order of their insertion, and no
/// constraint on them.
fn find(rows: &Vec<Post>, name: &str, id: i32) -> Lookup {
    for row in rows {
        if row.name == name && row.id == id {
            return Lookup::Found(copy(row));
        }
    }
    Lookup::Missing
}

fn post(rows: &mut Vec<Post>, name: &str, id: i32, details: &str) -> Response {
    let payload = PostData { details: json(details), id };
    let existing = find(rows, name, id);
    match create_post(name.to_string(), payload, existing) {
        CreateStep::Insert(row) => {
            rows.push(copy(&row));
            finish_create(row, Insertion::Stored).response
        },
        CreateStep::Reply(outcome) => outcome.response,
    }
}

fn get(rows: &Vec<Post>, name: &str, id: i32) -> Response {
    get_data(name, id, find(rows, name, id)).response
}

fn sent(id: i32, name: &str, details: &str) -> Response {
    Response {
        status: Status::Success,
        body: Body::Json(Post { id, details: json(details), name: name.to_string() }),
    }
}

fn keys_unique(rows: &Vec<Post>) -> bool {
    for i in 0..rows.len() {
        for j in (i + 1)..rows.len() {
            if rows[i].name == rows[j].name && rows[i].id == rows[j].id {
                return false;
            }
        }
    }
    true
}

#[test]
fn alpha_walkthrough() {
    let mut rows: Vec<Post> = Vec::new();

    let created = post(&mut rows, "alpha", 1, r#"{"x":1}"#);
    assert_eq!(created.status.code(), 200);
    assert_eq!(created, sent(1, "alpha", r#"{"x":1}"#));

    let again = post(&mut rows, "alpha", 1, r#"{"x":1}"#);
    assert_eq!(again.status.code(), 409);

    let fetched = get(&rows, "alpha", 1);
    assert_eq!(fetched.status.code(), 200);
    assert_eq!(fetched, sent(1, "alpha", r#"{"x":1}"#));

    let other = get(&rows, "alpha", 2);
    assert_eq!(other.status.code(), 404);
}

#[test]
fn created_post_is_fetched_as_it_came() {
    let mut rows: Vec<Post> = vec![Post { id: 1, details: json("0"), name: "beta".to_string() }];
    let created = post(&mut rows, "gamma", 1, r#"{"k":["v",1]}"#);
    assert_eq!(created, sent(1, "gamma", r#"{"k":["v",1]}"#));
    assert_eq!(get(&rows, "gamma", 1), sent(1, "gamma", r#"{"k":["v",1]}"#));
    assert_eq!(get(&rows, "beta", 1), sent(1, "beta", "0"));
}

#[test]
fn taken_key_leaves_the_row_alone() {
    let mut rows: Vec<Post> = Vec::new();
    post(&mut rows, "alpha", 1, r#"{"x":1}"#);
    let again = post(&mut rows, "alpha", 1, r#"{"x":"other"}"#);
    assert_eq!(
        again,
        Response {
            status: Status::Conflict,
            body: Body::Text(
                "Conflict: Post with key 'alpha' already exists with the same ID 1".to_string()
            ),
        }
    );
    assert_eq!(rows.len(), 1);
    assert_eq!(rows[0], Post { id: 1, details: json(r#"{"x":1}"#), name: "alpha".to_string() });
    assert_eq!(get(&rows, "alpha", 1), sent(1, "alpha", r#"{"x":1}"#));
}

#[test]
fn absent_key_is_not_found() {
    let mut rows: Vec<Post> = Vec::new();
    assert_eq!(get(&rows, "alpha", 1).status, Status::NotFound);
    post(&mut rows, "alpha", 1, "null");
    assert_eq!(
        get(&rows, "alpha", 2),
        Response {
            status: Status::NotFound,
            body: Body::Text("Post with name 'alpha' and ID 2 not found".to_string()),
        }
    );
    assert_eq!(get(&rows, "alph", 1).status, Status::NotFound);
}

#[test]
fn key_is_name_and_id_together() {
    let mut rows: Vec<Post> = Vec::new();
    assert_eq!(post(&mut rows, "alpha", 1, "1").status, Status::Success);
    assert_eq!(post(&mut rows, "alpha", 2, "2").status, Status::Success);
    assert_eq!(post(&mut rows, "beta", 1, "3").status, Status::Success);
    assert_eq!(post(&mut rows, "beta", 1, "4").status, Status::Conflict);
    assert_eq!(rows.len(), 3);
    assert_eq!(get(&rows, "alpha", 2), sent(2, "alpha", "2"));
    assert_eq!(get(&rows, "beta", 1), sent(1, "beta", "3"));
}

#[test]
fn one_of_two_creates_with_one_key_wins() {
    let mut rows: Vec<Post> = Vec::new();
    let one = post(&mut rows, "alpha", 1, r#""first""#);
    let two = post(&mut rows, "alpha", 1, r#""second""#);
    assert_eq!(one.status, Status::Success);
    assert_eq!(two.status, Status::Conflict);
    assert_eq!(get(&rows, "alpha", 1), sent(1, "alpha", r#""first""#));

    let mut rows: Vec<Post> = Vec::new();
    let two = post(&mut rows, "alpha", 1, r#""second""#);
    let one = post(&mut rows, "alpha", 1, r#""first""#);
    assert_eq!(two.status, Status::Success);
    assert_eq!(one.status, Status::Conflict);
    assert_eq!(get(&rows, "alpha", 1), sent(1, "alpha", r#""second""#));
}

#[test]
fn keys_stay_unique_over_many_requests() {
    let mut rows: Vec<Post> = Vec::new();
    let names = ["a", "b", "a", "c", "b", "a"];
    let ids = [1, 1, 2, 1, 1, 1];
    let mut successes = 0;
    for round in 0..3 {
        for k in 0..names.len() {
            let response = post(&mut rows, names[k], ids[k], "{}");
            if round == 0 && response.status == Status::Success {
                successes += 1;
            }
            assert!(keys_unique(&rows));
        }
    }
    assert_eq!(successes, 4);
    assert_eq!(rows.len(), 4);
}

#[test]
fn failed_insert_stores_nothing() {
    let rows: Vec<Post> = Vec::new();
    let payload = PostData { details: json("{}"), id: 1 };
    let step = create_post("alpha".to_string(), payload, find(&rows, "alpha", 1));
    let outcome = match step {
        CreateStep::Insert(row) => finish_create(row, Insertion::Failed("boom".to_string())),
        CreateStep::Reply(_) => panic!("a free key asks for an insert"),
    };
    assert_eq!(outcome.response.status.code(), 500);
    assert_eq!(outcome.response.body, Body::Empty);
    assert_eq!(outcome.log, Some("Error inserting post: boom".to_string()));
    assert_eq!(get(&rows, "alpha", 1).status, Status::NotFound);
}

#[test]
fn taken_key_is_refused_after_other_requests() {
    let mut rows: Vec<Post> = Vec::new();
    assert_eq!(post(&mut rows, "alpha", 1, r#"{"x":1}"#).status, Status::Success);
    assert_eq!(post(&mut rows, "beta", 1, "1").status, Status::Success);
    assert_eq!(post(&mut rows, "alpha", 2, "2").status, Status::Success);
    assert_eq!(get(&rows, "gamma", 1).status, Status::NotFound);
    assert_eq!(post(&mut rows, "beta", 1, "3").status, Status::Conflict);
    let late = post(&mut rows, "alpha", 1, r#"{"x":"late"}"#);
    assert_eq!(late.status.code(), 409);
    assert_eq!(rows.len(), 3);
    assert_eq!(rows[0], Post { id: 1, details: json(r#"{"x":1}"#), name: "alpha".to_string() });
    assert_eq!(get(&rows, "alpha", 1), sent(1, "alpha", r#"{"x":1}"#));
}

#[test]
fn failed_query_stores_nothing_and_says_so_in_the_log() {
    let mut rows: Vec<Post> = Vec::new();
    post(&mut rows, "alpha", 1, "1");
    let payload = PostData { details: json("2"), id: 2 };
    let step = create_post("alpha".to_string(), payload, Lookup::Failed("timeout".to_string()));
    match step {
        CreateStep::Reply(outcome) => {
            assert_eq!(outcome.response.status.code(), 500);
            assert_eq!(outcome.response.body, Body::Empty);
            assert_eq!(outcome.log, Some("Error querying post: timeout".to_string()));
        },
        CreateStep::Insert(_) => panic!("a failed query asks for no insert"),
    }
    assert_eq!(rows.len(), 1);
}

#[test]
fn failed_fetch_says_nothing_of_the_key() {
    let mut rows: Vec<Post> = Vec::new();
    post(&mut rows, "alpha", 1, r#"{"x":1}"#);
    let held = get_data("alpha", 1, Lookup::Failed("connection lost".to_string()));
    let absent = get_data("alpha", 2, Lookup::Failed("connection lost".to_string()));
    assert_eq!(held.response.status.code(), 500);
    assert_eq!(held.response.body, Body::Empty);
    assert_eq!(held, absent);
    assert_eq!(held.log, Some("Error querying post: connection lost".to_string()));
    assert_eq!(get(&rows, "alpha", 1), sent(1, "alpha", r#"{"x":1}"#));
}

#[test]
fn create_leaves_the_fetch_of_other_keys() {
    let mut rows: Vec<Post> = Vec::new();
    post(&mut rows, "alpha", 1, r#"{"x":1}"#);
    let held_before = get(&rows, "alpha", 1);
    let absent_before = get(&rows, "beta", 1);
    post(&mut rows, "alpha", 2, "2");
    assert_eq!(get(&rows, "alpha", 1), held_before);
    assert_eq!(get(&rows, "beta", 1), absent_before);
}
