use forum_core::comments::{
    changed_comment, create_comment, create_comment_with, created_comment, delete_comment,
    deleted_comment, get_comments, listed_comments, new_comment, new_comment_with,
    update_comment,
};
use forum_core::error::{ServiceError, StoreError};
use forum_core::ident::has_random_marks;
use forum_core::memory::MemoryStore;
use forum_core::model::{Comment, NewComment};

const POST: u128 = 0x11111111_2222_4333_8444_555555555555;
const OTHER_POST: u128 = 0x99999999_2222_4333_8444_555555555555;

fn body(user_id: i32, content: &str, parent_id: Option<u128>) -> NewComment {
    NewComment {
        user_id,
        content: content.to_string(),
        parent_id,
    }
}

#[test]
fn a_created_comment_is_listed_as_it_was_given() {
    let mut store = MemoryStore::new();
    let root = create_comment(&mut store, POST, &body(4, "hello", None)).unwrap();
    let reply = create_comment(&mut store, POST, &body(5, "hello yourself", Some(root))).unwrap();
    let listed = get_comments(&store, POST).unwrap();
    assert_eq!(listed.len(), 2);
    assert_eq!(listed[0].id, root);
    assert_eq!(listed[0].post_id, POST);
    assert_eq!(listed[0].user_id, 4);
    assert_eq!(listed[0].content, "hello");
    assert_eq!(listed[0].parent_id, None);
    assert_eq!(listed[1].id, reply);
    assert_eq!(listed[1].user_id, 5);
    assert_eq!(listed[1].content, "hello yourself");
    assert_eq!(listed[1].parent_id, Some(root));
    assert_eq!(get_comments(&store, OTHER_POST), Ok(vec![]));
}

#[test]
fn the_core_issues_random_uuids_and_the_present_instant() {
    let first = new_comment(POST, &body(4, "a", None));
    let second = new_comment(POST, &body(4, "a", None));
    assert!(has_random_marks(first.id));
    assert!(has_random_marks(second.id));
    assert_ne!(first.id, second.id);
    assert_eq!((first.id >> 76) & 0xf, 4);
    assert_eq!((first.id >> 62) & 0x3, 2);
    assert!(first.timestamp > 1_600_000_000_000_000);
    assert!(first.timestamp < 4_000_000_000_000_000);
    assert!(!has_random_marks(0));
    assert!(!has_random_marks(POST & !(0xf << 76)));
    assert!(has_random_marks(POST));
}

#[test]
fn a_comment_is_built_from_its_parts() {
    assert_eq!(
        new_comment_with(POST, &body(4, "text", Some(9)), 77, 1_234),
        Comment {
            id: 77,
            post_id: POST,
            user_id: 4,
            content: "text".to_string(),
            timestamp: 1_234,
            parent_id: Some(9),
        }
    );
}

#[test]
fn an_update_replaces_the_content_and_nothing_else() {
    let mut store = MemoryStore::new();
    create_comment_with(&mut store, POST, &body(4, "old", None), 1, 100).unwrap();
    create_comment_with(&mut store, POST, &body(5, "other", Some(1)), 2, 200).unwrap();
    assert_eq!(update_comment(&mut store, 1, "new"), Ok(1));
    assert_eq!(
        get_comments(&store, POST).unwrap(),
        vec![
            Comment {
                id: 1,
                post_id: POST,
                user_id: 4,
                content: "new".to_string(),
                timestamp: 100,
                parent_id: None,
            },
            Comment {
                id: 2,
                post_id: POST,
                user_id: 5,
                content: "other".to_string(),
                timestamp: 200,
                parent_id: Some(1),
            },
        ]
    );
}

#[test]
fn a_delete_orphans_the_children() {
    let mut store = MemoryStore::new();
    create_comment_with(&mut store, POST, &body(4, "parent", None), 1, 100).unwrap();
    create_comment_with(&mut store, POST, &body(5, "child", Some(1)), 2, 200).unwrap();
    create_comment_with(&mut store, POST, &body(6, "grandchild", Some(2)), 3, 300).unwrap();
    assert_eq!(delete_comment(&mut store, 1), Ok(()));
    let listed = get_comments(&store, POST).unwrap();
    assert_eq!(listed.len(), 2);
    assert!(listed.iter().all(|c| c.id != 1));
    assert_eq!(listed[0].id, 2);
    assert_eq!(listed[0].parent_id, Some(1));
    assert_eq!(listed[0].content, "child");
    assert_eq!(listed[1].id, 3);
    assert_eq!(listed[1].parent_id, Some(2));
}

#[test]
fn a_repeated_request_under_the_same_id_adds_nothing() {
    let mut store = MemoryStore::new();
    assert_eq!(create_comment_with(&mut store, POST, &body(4, "once", None), 1, 100), Ok(1));
    assert_eq!(
        create_comment_with(&mut store, POST, &body(4, "once", None), 1, 150),
        Err(ServiceError::PersistenceError)
    );
    assert_eq!(
        create_comment_with(&mut store, OTHER_POST, &body(4, "once", None), 1, 150),
        Err(ServiceError::PersistenceError)
    );
    let listed = get_comments(&store, POST).unwrap();
    assert_eq!(listed.len(), 1);
    assert_eq!(listed[0].timestamp, 100);
    assert_eq!(get_comments(&store, OTHER_POST), Ok(vec![]));
}

#[test]
fn nothing_a_comment_refers_to_is_looked_up() {
    let mut store = MemoryStore::new();
    let id = create_comment(&mut store, POST, &body(-3, "", Some(12345))).unwrap();
    let listed = get_comments(&store, POST).unwrap();
    assert_eq!(listed.len(), 1);
    assert_eq!(listed[0].id, id);
    assert_eq!(listed[0].user_id, -3);
    assert_eq!(listed[0].content, "");
    assert_eq!(listed[0].parent_id, Some(12345));
}

#[test]
fn a_comment_that_is_missing_is_not_found() {
    let mut store = MemoryStore::new();
    create_comment_with(&mut store, POST, &body(4, "only", None), 1, 100).unwrap();
    assert_eq!(update_comment(&mut store, 2, "new"), Err(ServiceError::NotFound));
    assert_eq!(delete_comment(&mut store, 2), Err(ServiceError::NotFound));
    assert_eq!(delete_comment(&mut store, 1), Ok(()));
    assert_eq!(delete_comment(&mut store, 1), Err(ServiceError::NotFound));
    assert_eq!(update_comment(&mut store, 1, "new"), Err(ServiceError::NotFound));
    assert_eq!(get_comments(&store, POST), Ok(vec![]));
}

#[test]
fn a_store_that_cannot_be_reached_fails_every_comment_operation() {
    let mut store = MemoryStore::new();
    create_comment_with(&mut store, POST, &body(4, "kept", None), 1, 100).unwrap();
    store.set_online(false);
    assert_eq!(
        create_comment(&mut store, POST, &body(4, "lost", None)),
        Err(ServiceError::PersistenceError)
    );
    assert_eq!(get_comments(&store, POST), Err(ServiceError::PersistenceError));
    assert_eq!(update_comment(&mut store, 1, "new"), Err(ServiceError::PersistenceError));
    assert_eq!(delete_comment(&mut store, 1), Err(ServiceError::PersistenceError));
    store.set_online(true);
    let listed = get_comments(&store, POST).unwrap();
    assert_eq!(listed.len(), 1);
    assert_eq!(listed[0].content, "kept");
}

#[test]
fn the_answers_of_the_gateway_decide_the_answers_of_the_comment_core() {
    assert_eq!(created_comment(8, Ok(1)), Ok(8));
    assert_eq!(created_comment(8, Ok(0)), Err(ServiceError::PersistenceError));
    assert_eq!(created_comment(8, Err(StoreError::IoError)), Err(ServiceError::PersistenceError));
    assert_eq!(
        created_comment(8, Err(StoreError::UniqueViolation)),
        Err(ServiceError::PersistenceError)
    );
    assert_eq!(changed_comment(8, Ok(1)), Ok(8));
    assert_eq!(changed_comment(8, Ok(0)), Err(ServiceError::NotFound));
    assert_eq!(changed_comment(8, Err(StoreError::IoError)), Err(ServiceError::PersistenceError));
    assert_eq!(deleted_comment(Ok(1)), Ok(()));
    assert_eq!(deleted_comment(Ok(0)), Err(ServiceError::NotFound));
    assert_eq!(deleted_comment(Err(StoreError::IoError)), Err(ServiceError::PersistenceError));
    assert_eq!(listed_comments(Ok(vec![])), Ok(vec![]));
    assert_eq!(listed_comments(Err(StoreError::IoError)), Err(ServiceError::PersistenceError));
}
