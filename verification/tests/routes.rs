use chat_server::routing::{Endpoint, Method};
use chat_server::{admin, api, chats, contacts, files, messages, users};

fn paths(v: &[Endpoint]) -> Vec<&'static str> {
    v.iter().map(|e| e.path).collect()
}

#[test]
fn admin_lists_users() {
    let r = admin::routes();
    assert_eq!(r.len(), 1);
    assert_eq!(r[0].method, Method::Get);
    assert_eq!(r[0].path, "/list_users");
    assert_eq!(r[0].rank, None);
}

#[test]
fn api_routes_concatenate_modules() {
    let all = api::api_routes();
    let mut expected = api::user::routes();
    expected.extend(api::messages::routes());
    expected.extend(api::chats::routes());
    assert_eq!(all, expected);
    assert_eq!(all.len(), 7 + 3 + 9);
    assert_eq!(all[0].path, "/create_user");
    assert_eq!(all[7].path, "/send_message");
    assert_eq!(all[10].path, "/create_dm");
}

#[test]
fn join_link_routes_rank_the_visitor_last() {
    let r = chats::user_routes();
    assert_eq!(r.len(), 2);
    assert_eq!(r[0].rank, None);
    assert_eq!(r[1].rank, Some(2));
    assert_eq!(r[1].method, Method::Get);
}

#[test]
fn module_route_tables() {
    assert_eq!(
        paths(&users::routes()),
        vec![
            "/create_user",
            "/who_am_i",
            "/delete_account",
            "/update_user",
            "/get_username/<user_id>",
            "/get_user/<user_id>",
            "/update_user_pfp/<pfp_id>"
        ]
    );
    assert_eq!(chats::routes().len(), 11);
    assert_eq!(chats::routes()[10].path, "/mark_chat_read");
    assert_eq!(contacts::routes().len(), 6);
    assert_eq!(contacts::routes()[0].path, "/get_contacts");
    assert_eq!(files::routes().len(), 3);
    assert_eq!(messages::routes().len(), 7);
    assert_eq!(messages::routes()[1].method, Method::Delete);
}
