//! A model of the table of posts, and of whole requests served against it.
//!
//! The table is a sequence of rows with no constraint of its own: an insert
//! appends whatever it is given. That no two rows share a key is the
//! service's doing, by the existence check that comes before every insert,
//! and is proved here of every request, whatever the table does.
//!
//! The check and the insert of one create request are served as one step:
//! the service holds its only connection for both.

use vstd::prelude::*;
use crate::models::{PostDataView, PostView};
use crate::response::Status;
use crate::service::{
    conflict_reply, create_step, failure, failure_reply, get_outcome, insert_outcome,
    not_found_reply, post_reply, quiet, CreateStepView, InsertionView, LookupView, OutcomeView,
};
use crate::text::query_failure_text;

verus! {

/// How the table fares while one request is served.
pub enum Health {
    /// Every call goes through.
    Sound,
    /// The query for a key fails, for the cause given.
    LookupFails(Seq<char>),
    /// The query goes through and the insert, where one is asked for, fails
    /// for the cause given.
    InsertFails(Seq<char>),
}

/// The table after one request, and how the request ended.
pub struct Served {
    pub rows: Seq<PostView>,
    pub outcome: OutcomeView,
}

/// Whether some row of the table has the key `(name, id)`.
pub open spec fn holds(rows: Seq<PostView>, name: Seq<char>, id: int) -> bool {
    exists|i: int| 0 <= i < rows.len() && (#[trigger] rows[i]).has_key(name, id)
}

/// A row of the table with the key `(name, id)`, where `holds` says there is one.
pub open spec fn row_at(rows: Seq<PostView>, name: Seq<char>, id: int) -> PostView {
    rows[choose|i: int| 0 <= i < rows.len() && (#[trigger] rows[i]).has_key(name, id)]
}

/// No two rows of the table share both name and id.
pub open spec fn keys_unique(rows: Seq<PostView>) -> bool {
    forall|i: int, j: int|
        #![trigger rows[i], rows[j]]
        0 <= i < j < rows.len() ==> !rows[i].has_key(rows[j].name, rows[j].id)
}

/// What the table says when asked for the key `(name, id)`.
pub open spec fn lookup(
    rows: Seq<PostView>,
    name: Seq<char>,
    id: int,
    health: Health,
) -> LookupView {
    match health {
        Health::LookupFails(cause) => LookupView::Failed(cause),
        _ => if holds(rows, name, id) {
            LookupView::Found(row_at(rows, name, id))
        } else {
            LookupView::Missing
        },
    }
}

/// How an insert goes.
pub open spec fn insertion(health: Health) -> InsertionView {
    match health {
        Health::InsertFails(cause) => InsertionView::Failed(cause),
        _ => InsertionView::Stored,
    }
}

/// One create request for `name` with the body `payload`, from the existence
/// check to the answer.
pub open spec fn serve_create(
    rows: Seq<PostView>,
    name: Seq<char>,
    payload: PostDataView,
    health: Health,
) -> Served {
    match create_step(name, payload, lookup(rows, name, payload.id, health)) {
        CreateStepView::Reply(outcome) => Served { rows, outcome },
        CreateStepView::Insert(post) => Served {
            rows: match insertion(health) {
                InsertionView::Stored => rows.push(post),
                InsertionView::Failed(_) => rows,
            },
            outcome: insert_outcome(post, insertion(health)),
        },
    }
}

/// One fetch of the key `(name, id)`, from the query to the answer. It asks
/// the table for nothing but the row, so the table stays as it is.
pub open spec fn serve_get(
    rows: Seq<PostView>,
    name: Seq<char>,
    id: int,
    health: Health,
) -> OutcomeView {
    get_outcome(name, id, lookup(rows, name, id, health))
}

/// In a table with unique keys, a key names at most one row: the lookup of a
/// row's key finds that row.
pub proof fn unique_key_names_one_row(rows: Seq<PostView>, i: int)
    requires
        keys_unique(rows),
        0 <= i < rows.len(),
    ensures
        holds(rows, rows[i].name, rows[i].id),
        row_at(rows, rows[i].name, rows[i].id) == rows[i],
{
    let name = rows[i].name;
    let id = rows[i].id;
    assert(rows[i].has_key(name, id));
    let j = choose|j: int| 0 <= j < rows.len() && (#[trigger] rows[j]).has_key(name, id);
    if j < i {
        assert(!rows[j].has_key(rows[i].name, rows[i].id));
    } else if i < j {
        assert(!rows[i].has_key(rows[j].name, rows[j].id));
    }
}

/// A create request with a key that no row has is answered with 200 and the
/// post, made of the name and the body as they came; a fetch of that key,
/// served next, is answered with 200 and the same post. The table is sound.
pub proof fn created_post_is_fetched(rows: Seq<PostView>, name: Seq<char>, payload: PostDataView)
    requires
        !holds(rows, name, payload.id),
    ensures
        serve_create(rows, name, payload, Health::Sound).outcome == quiet(
            post_reply(payload.named(name)),
        ),
        serve_create(rows, name, payload, Health::Sound).rows == rows.push(payload.named(name)),
        serve_get(
            serve_create(rows, name, payload, Health::Sound).rows,
            name,
            payload.id,
            Health::Sound,
        ) == quiet(post_reply(payload.named(name))),
{
    let post = payload.named(name);
    let after = rows.push(post);
    assert(after[rows.len() as int].has_key(name, payload.id));
    let j = choose|j: int| 0 <= j < after.len() && (#[trigger] after[j]).has_key(name, payload.id);
    if j < rows.len() {
        assert(rows[j].has_key(name, payload.id));
    }
}

/// A create request with a key that some row has is answered with 409 and the
/// text that names the key, and leaves the table as it was, whatever the body
/// holds. The query goes through.
pub proof fn taken_key_is_refused(
    rows: Seq<PostView>,
    name: Seq<char>,
    payload: PostDataView,
    health: Health,
)
    requires
        holds(rows, name, payload.id),
        !(health is LookupFails),
    ensures
        serve_create(rows, name, payload, health).outcome == quiet(
            conflict_reply(name, payload.id),
        ),
        serve_create(rows, name, payload, health).outcome.response.status == Status::Conflict,
        serve_create(rows, name, payload, health).rows == rows,
{
}

/// A fetch of a key that no row has is answered with 404 and the text that
/// names the key, and logs nothing. The query goes through.
pub proof fn absent_key_is_not_found(
    rows: Seq<PostView>,
    name: Seq<char>,
    id: int,
    health: Health,
)
    requires
        !holds(rows, name, id),
        !(health is LookupFails),
    ensures
        serve_get(rows, name, id, health) == quiet(not_found_reply(name, id)),
        serve_get(rows, name, id, health).response.status == Status::NotFound,
{
}

/// A fetch whose query fails is answered with 500 and no body, and the cause
/// goes to the log: whatever the table holds, the answer neither sends a post
/// nor says that the key is missing.
pub proof fn failed_fetch_is_server_error(
    rows: Seq<PostView>,
    name: Seq<char>,
    id: int,
    cause: Seq<char>,
)
    ensures
        serve_get(rows, name, id, Health::LookupFails(cause)) == failure(
            query_failure_text(cause),
        ),
        serve_get(rows, name, id, Health::LookupFails(cause)).response
            == failure_reply(),
        serve_get(rows, name, id, Health::LookupFails(cause)).response.status
            == Status::InternalServerError,
{
}

/// A fetch of the key of a row, in a table with unique keys, is answered with
/// 200 and that row. The table is sound.
pub proof fn stored_post_is_fetched(rows: Seq<PostView>, i: int)
    requires
        keys_unique(rows),
        0 <= i < rows.len(),
    ensures
        serve_get(rows, rows[i].name, rows[i].id, Health::Sound) == quiet(post_reply(rows[i])),
{
    unique_key_names_one_row(rows, i);
}

/// A create request with one key leaves the fetch of every other key as it
/// was, in a table with unique keys, whatever the table does meanwhile.
pub proof fn create_leaves_other_keys(
    rows: Seq<PostView>,
    name: Seq<char>,
    payload: PostDataView,
    health: Health,
    other_name: Seq<char>,
    other_id: int,
    later: Health,
)
    requires
        keys_unique(rows),
        !(other_name == name && other_id == payload.id),
    ensures
        serve_get(serve_create(rows, name, payload, health).rows, other_name, other_id, later)
            == serve_get(rows, other_name, other_id, later),
{
    let after = serve_create(rows, name, payload, health).rows;
    if after != rows && !(later is LookupFails) {
        let post = payload.named(name);
        assert(after == rows.push(post));
        create_keeps_keys_unique(rows, name, payload, health);
        if holds(rows, other_name, other_id) {
            let i = choose|i: int|
                0 <= i < rows.len() && (#[trigger] rows[i]).has_key(other_name, other_id);
            unique_key_names_one_row(rows, i);
            assert(after[i] == rows[i]);
            unique_key_names_one_row(after, i);
        } else if holds(after, other_name, other_id) {
            let j = choose|j: int|
                0 <= j < after.len() && (#[trigger] after[j]).has_key(other_name, other_id);
            if j < rows.len() {
                assert(rows[j].has_key(other_name, other_id));
            }
        }
    }
}

/// Of two create requests with one key that no row has, served one after the
/// other, the first is answered with 200 and its post, the second with 409;
/// the table then holds the first one's post and nothing of the second. The
/// table is sound. As the two bodies are any two, this holds in either order.
pub proof fn one_of_two_creates_wins(
    rows: Seq<PostView>,
    name: Seq<char>,
    first: PostDataView,
    second: PostDataView,
)
    requires
        first.id == second.id,
        !holds(rows, name, first.id),
    ensures
        ({
            let one = serve_create(rows, name, first, Health::Sound);
            let two = serve_create(one.rows, name, second, Health::Sound);
            &&& one.outcome == quiet(post_reply(first.named(name)))
            &&& two.outcome == quiet(conflict_reply(name, second.id))
            &&& one.outcome.response.status == Status::Success
            &&& two.outcome.response.status == Status::Conflict
            &&& two.rows == rows.push(first.named(name))
        }),
{
    let post = first.named(name);
    let after = rows.push(post);
    assert(after[rows.len() as int].has_key(name, second.id));
}

/// What the status of the answer to a create request tells: 200 that the key
/// was free and the post is now the last row, 409 that the key was taken, 500
/// that the query or the insert failed. Only with 200 has the table changed.
pub proof fn create_status_tells_what_happened(
    rows: Seq<PostView>,
    name: Seq<char>,
    payload: PostDataView,
    health: Health,
)
    ensures
        ({
            let served = serve_create(rows, name, payload, health);
            let status = served.outcome.response.status;
            let taken = holds(rows, name, payload.id);
            &&& status == Status::Success <==> health is Sound && !taken
            &&& status == Status::Conflict <==> !(health is LookupFails) && taken
            &&& status == Status::InternalServerError <==> health is LookupFails
                || (health is InsertFails && !taken)
            &&& status == Status::Success ==> served.rows == rows.push(payload.named(name))
            &&& status != Status::Success ==> served.rows == rows
            &&& served.outcome.log is Some <==> status == Status::InternalServerError
        }),
{
}

/// What the status of the answer to a fetch tells: 200 that a row has the
/// key, 404 that none has, 500 that the query failed. Only with 500 is there
/// a line to log.
pub proof fn get_status_tells_what_happened(
    rows: Seq<PostView>,
    name: Seq<char>,
    id: int,
    health: Health,
)
    ensures
        ({
            let outcome = serve_get(rows, name, id, health);
            let status = outcome.response.status;
            let asked = !(health is LookupFails);
            &&& status == Status::Success <==> asked && holds(rows, name, id)
            &&& status == Status::NotFound <==> asked && !holds(rows, name, id)
            &&& status == Status::InternalServerError <==> health is LookupFails
            &&& outcome.log is Some <==> status == Status::InternalServerError
        }),
{
}

/// A create request keeps the keys of the table unique, whatever it asks for
/// and whatever the table does.
pub proof fn create_keeps_keys_unique(
    rows: Seq<PostView>,
    name: Seq<char>,
    payload: PostDataView,
    health: Health,
)
    requires
        keys_unique(rows),
    ensures
        keys_unique(serve_create(rows, name, payload, health).rows),
{
    let after = serve_create(rows, name, payload, health).rows;
    if after != rows {
        let post = payload.named(name);
        assert(after == rows.push(post));
        assert(!holds(rows, name, payload.id));
        assert forall|i: int, j: int|
            #![trigger after[i], after[j]]
            0 <= i < j < after.len() implies !after[i].has_key(after[j].name, after[j].id) by {
            if j < rows.len() {
                assert(!rows[i].has_key(rows[j].name, rows[j].id));
            } else {
                assert(after[j] == post);
                if after[i].has_key(name, payload.id) {
                    assert(rows[i].has_key(name, payload.id));
                }
            }
        }
    }
}

/// A create request changes no row and removes none: the table after it is the
/// table before it, with at most the asked-for post behind it.
pub proof fn create_keeps_rows(
    rows: Seq<PostView>,
    name: Seq<char>,
    payload: PostDataView,
    health: Health,
)
    ensures
        serve_create(rows, name, payload, health).rows == rows || serve_create(
            rows,
            name,
            payload,
            health,
        ).rows == rows.push(payload.named(name)),
{
}

/// A request that asks the table.
pub enum Request {
    /// `POST /api/v1/{name}` with the body `payload`.
    Create { name: Seq<char>, payload: PostDataView },
    /// `GET /api/v1/{name}/{id}`.
    Get { name: Seq<char>, id: int },
}

/// One request, with how the table fares while it is served.
pub struct Turn {
    pub request: Request,
    pub health: Health,
}

/// One request of either kind, from its query to its answer. A fetch hands
/// the table on as it got it.
pub open spec fn serve(rows: Seq<PostView>, turn: Turn) -> Served {
    match turn.request {
        Request::Create { name, payload } => serve_create(rows, name, payload, turn.health),
        Request::Get { name, id } => Served {
            rows,
            outcome: serve_get(rows, name, id, turn.health),
        },
    }
}

/// The table after all of `turns` were served, one after the other, from `rows` on.
pub open spec fn rows_after(rows: Seq<PostView>, turns: Seq<Turn>) -> Seq<PostView>
    decreases turns.len(),
{
    if turns.len() == 0 {
        rows
    } else {
        serve(rows_after(rows, turns.drop_last()), turns.last()).rows
    }
}

/// A fetch leaves the table as it is, whatever it asks for, whatever it is
/// answered and whatever the table does.
pub proof fn fetch_keeps_the_table(rows: Seq<PostView>, name: Seq<char>, id: int, health: Health)
    ensures
        ({
            let turn = Turn { request: Request::Get { name, id }, health };
            serve(rows, turn).rows == rows
        }),
{
}

/// No request changes a row or removes one, and none makes two rows share a key.
pub proof fn request_keeps_rows_and_keys(rows: Seq<PostView>, turn: Turn)
    ensures
        rows.is_prefix_of(serve(rows, turn).rows),
        keys_unique(rows) ==> keys_unique(serve(rows, turn).rows),
{
    match turn.request {
        Request::Create { name, payload } => {
            create_keeps_rows(rows, name, payload, turn.health);
            if keys_unique(rows) {
                create_keeps_keys_unique(rows, name, payload, turn.health);
            }
        },
        Request::Get { name, id } => {},
    }
}

/// No run of requests changes a row or removes one: the table it started from
/// is the front of the table it leaves.
pub proof fn rows_are_kept_for_good(rows: Seq<PostView>, turns: Seq<Turn>)
    ensures
        rows.is_prefix_of(rows_after(rows, turns)),
    decreases turns.len(),
{
    if turns.len() > 0 {
        rows_are_kept_for_good(rows, turns.drop_last());
        request_keeps_rows_and_keys(rows_after(rows, turns.drop_last()), turns.last());
    }
}

/// No run of requests makes two rows share a key, in whatever order they are
/// served and whatever the table does.
pub proof fn keys_are_unique_for_good(rows: Seq<PostView>, turns: Seq<Turn>)
    requires
        keys_unique(rows),
    ensures
        keys_unique(rows_after(rows, turns)),
    decreases turns.len(),
{
    if turns.len() > 0 {
        keys_are_unique_for_good(rows, turns.drop_last());
        request_keeps_rows_and_keys(rows_after(rows, turns.drop_last()), turns.last());
    }
}

/// From an empty table on, the keys are unique after every run of requests.
pub proof fn keys_are_unique_from_the_start(turns: Seq<Turn>)
    ensures
        keys_unique(rows_after(Seq::empty(), turns)),
{
    keys_are_unique_for_good(Seq::empty(), turns);
}

/// Once a key is taken, every later create request with it is answered with
/// 409 and stores nothing, whatever was served in between, as long as its own
/// query goes through.
pub proof fn taken_key_is_refused_for_good(
    rows: Seq<PostView>,
    between: Seq<Turn>,
    name: Seq<char>,
    payload: PostDataView,
    health: Health,
)
    requires
        holds(rows, name, payload.id),
        !(health is LookupFails),
    ensures
        serve_create(rows_after(rows, between), name, payload, health).outcome == quiet(
            conflict_reply(name, payload.id),
        ),
        serve_create(rows_after(rows, between), name, payload, health).rows == rows_after(
            rows,
            between,
        ),
{
    let later = rows_after(rows, between);
    rows_are_kept_for_good(rows, between);
    let i = choose|i: int| 0 <= i < rows.len() && (#[trigger] rows[i]).has_key(name, payload.id);
    assert(later[i] == rows[i]);
    assert(later[i].has_key(name, payload.id));
    taken_key_is_refused(later, name, payload, health);
}

/// Once a post is created in a table with unique keys, every later fetch of
/// its key is answered with 200 and that post as it came, whatever was served
/// in between. The table is sound for the create and for the fetch.
pub proof fn created_post_is_fetched_for_good(
    rows: Seq<PostView>,
    name: Seq<char>,
    payload: PostDataView,
    between: Seq<Turn>,
)
    requires
        keys_unique(rows),
        !holds(rows, name, payload.id),
    ensures
        serve_get(
            rows_after(serve_create(rows, name, payload, Health::Sound).rows, between),
            name,
            payload.id,
            Health::Sound,
        ) == quiet(post_reply(payload.named(name))),
{
    let created = serve_create(rows, name, payload, Health::Sound).rows;
    let later = rows_after(created, between);
    created_post_is_fetched(rows, name, payload);
    create_keeps_keys_unique(rows, name, payload, Health::Sound);
    keys_are_unique_for_good(created, between);
    rows_are_kept_for_good(created, between);
    assert(later[rows.len() as int] == created[rows.len() as int]);
    stored_post_is_fetched(later, rows.len() as int);
}

} // verus!
