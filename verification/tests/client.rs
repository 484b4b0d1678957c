use mattermost_driver::address::Address;
use mattermost_driver::channel::{Channel, ChannelId};
use mattermost_driver::client::{
    request_to, Client, Error, ErrorBody, PaginationParameters, UnauthenticatedClient, UnixTimeMs,
};
use mattermost_driver::file::FileId;
use mattermost_driver::json::{read, JsonError};
use mattermost_driver::post::{CreatePost, Post, PostCollection, PostId};
use mattermost_driver::team::{Team, TeamId};
use mattermost_driver::user::{UserId, UserParam};
use mattermost_driver::wire::{Header, Method, Response};

fn header(name: &str, value: &[u8]) -> Header {
    Header { name: name.to_string(), value: value.to_vec() }
}

fn response(status: u16, headers: Vec<Header>, body: &[u8]) -> Response {
    Response { status, headers, body: body.to_vec() }
}

fn fresh() -> UnauthenticatedClient {
    UnauthenticatedClient::new(Address::parse("https://chat.example.com").unwrap()).unwrap()
}

fn logged_in(token: &str) -> Client {
    fresh()
        .authenticate("alice".to_string(), "secret".to_string(), None)
        .unwrap()
        .complete(&response(200, vec![header("token", token.as_bytes())], b"{}"))
        .unwrap()
}

const TEAM: &str = "{\"id\":\"t1\",\"create_at\":1,\"update_at\":2,\"delete_at\":0,\
\"display_name\":\"Team One\",\"name\":\"one\",\"description\":\"d\",\"email\":\"e@x.org\",\
\"type\":\"O\",\"allowed_domains\":\"\",\"invite_id\":\"inv\",\"allow_open_invite\":true}";

fn post_json(id: &str) -> String {
    format!(
        "{{\"id\":\"{}\",\"create_at\":10,\"update_at\":11,\"delete_at\":0,\"edit_at\":0,\
\"user_id\":\"u1\",\"channel_id\":\"C1\",\"root_id\":\"\",\"parent_id\":\"\",\
\"original_id\":\"\",\"message\":\"hello\",\"type\":\"\",\"hashtags\":\"\",\
\"pending_post_id\":\"\",\"props\":{{\"weight\":1.5}}}}",
        id
    )
}

#[test]
fn it_works() {
    assert_eq!(2 + 2, 4);
}

#[test]
fn plain_http_is_refused() {
    let url = Address::parse("http://chat.example.com").unwrap();
    assert_eq!(UnauthenticatedClient::new(url), Err(Error::InvalidUrl));
}

#[test]
fn other_schemes_are_refused() {
    for text in ["ftp://chat.example.com/", "ws://chat.example.com/", "file:///tmp/x", "mailto:a@b.c"] {
        let url = Address::parse(text).unwrap();
        assert_eq!(UnauthenticatedClient::new(url), Err(Error::InvalidUrl));
    }
}

#[test]
fn https_in_capitals_is_accepted() {
    let url = Address::parse("HTTPS://Chat.Example.com").unwrap();
    assert!(UnauthenticatedClient::new(url).is_ok());
}

#[test]
fn the_api_base_replaces_the_path_of_the_url() {
    let url = Address::parse("https://chat.example.com/some/where?x=1").unwrap();
    let pending = UnauthenticatedClient::new(url)
        .unwrap()
        .authenticate("a".to_string(), "b".to_string(), None)
        .unwrap();
    assert_eq!(pending.request().url.as_str(), "https://chat.example.com/api/v4/users/login");
}

#[test]
fn login_posts_to_the_login_path() {
    let pending = fresh()
        .authenticate("alice".to_string(), "secret".to_string(), None)
        .unwrap();
    let request = pending.request();
    assert_eq!(request.method, Method::Post);
    assert_eq!(request.url.as_str(), "https://chat.example.com/api/v4/users/login");
    assert_eq!(request.url.scheme(), "https");
    assert_eq!(request.authorization, None);
    assert_eq!(
        request.body.as_deref(),
        Some("{\"login_id\":\"alice\",\"password\":\"secret\",\"token\":null}")
    );
}

#[test]
fn login_sends_the_second_factor() {
    let pending = fresh()
        .authenticate("alice".to_string(), "se\"cret".to_string(), Some("123456".to_string()))
        .unwrap();
    assert_eq!(
        pending.request().body.as_deref(),
        Some("{\"login_id\":\"alice\",\"password\":\"se\\\"cret\",\"token\":\"123456\"}")
    );
}

#[test]
fn login_without_token_header_fails() {
    let pending = fresh().authenticate("a".to_string(), "b".to_string(), None).unwrap();
    let ended = pending.complete(&response(200, vec![], b"{}"));
    assert_eq!(ended.err(), Some(Error::Fixme));
}

#[test]
fn login_without_token_header_fails_whatever_the_status_and_body() {
    let refusal = b"{\"id\":\"api.user.login.invalid\",\"message\":\"no\",\"request_id\":\"r\",\
\"status_code\":401,\"is_oath\":false}";
    for status in [200u16, 201, 301, 401, 404, 500] {
        for body in [&b""[..], &b"{}"[..], &refusal[..], &b"\xff\xfe"[..]] {
            let pending = fresh().authenticate("a".to_string(), "b".to_string(), None).unwrap();
            let headers = vec![header("content-type", b"application/json"), header("tokens", b"x")];
            let ended = pending.complete(&response(status, headers, body));
            assert_eq!(ended.err(), Some(Error::Fixme));
        }
    }
}

#[test]
fn login_with_a_token_that_is_no_text_fails() {
    for value in [&b"caf\xc3\xa9"[..], &b"\xff"[..], &b"a\x7fb"[..], &b"a\x00b"[..], &b"a\nb"[..]] {
        let pending = fresh().authenticate("a".to_string(), "b".to_string(), None).unwrap();
        let ended = pending.complete(&response(200, vec![header("token", value)], b"{}"));
        assert_eq!(ended.err(), Some(Error::InvalidStr));
    }
}

#[test]
fn requests_carry_the_token_of_the_login() {
    for body in [&b""[..], &b"not json"[..], &b"\xff\xfe"[..], &b"{\"id\":\"u1\"}"[..]] {
        for status in [200u16, 401, 500] {
            let client = fresh()
                .authenticate("a".to_string(), "b".to_string(), None)
                .unwrap()
                .complete(&response(status, vec![header("token", b"abc 123\t~")], body))
                .unwrap();
            let pending = client.get_user_teams(UserParam::Me).unwrap();
            assert_eq!(pending.request().authorization.as_deref(), Some("Bearer abc 123\t~"));
            let post = CreatePost {
                channel_id: ChannelId("C1".to_string()),
                message: "hello".to_string(),
                root_id: None,
                file_ids: None,
            };
            let pending = client.create_post(post).unwrap();
            assert_eq!(pending.request().authorization.as_deref(), Some("Bearer abc 123\t~"));
        }
    }
}

#[test]
fn the_token_header_is_found_whatever_its_case() {
    let pending = fresh().authenticate("a".to_string(), "b".to_string(), None).unwrap();
    let headers = vec![header("Content-Type", b"text/plain"), header("ToKeN", b"t0")];
    let client = pending.complete(&response(200, headers, b"")).unwrap();
    let request = client.get::<Vec<Team>>("x").unwrap();
    assert_eq!(request.request().authorization.as_deref(), Some("Bearer t0"));
}

#[test]
fn the_first_token_header_counts() {
    let pending = fresh().authenticate("a".to_string(), "b".to_string(), None).unwrap();
    let headers = vec![header("token", b"first"), header("token", b"second")];
    let client = pending.complete(&response(200, headers, b"")).unwrap();
    let request = client.get::<Vec<Team>>("x").unwrap();
    assert_eq!(request.request().authorization.as_deref(), Some("Bearer first"));
}

#[test]
fn an_empty_token_header_is_no_token() {
    for status in [200u16, 401] {
        let pending = fresh().authenticate("a".to_string(), "b".to_string(), None).unwrap();
        let ended = pending.complete(&response(status, vec![header("token", b"")], b"{}"));
        assert_eq!(ended.err(), Some(Error::Fixme));
    }
    let pending = fresh().authenticate("a".to_string(), "b".to_string(), None).unwrap();
    let headers = vec![header("Token", b""), header("token", b"later")];
    assert_eq!(pending.complete(&response(200, headers, b"")).err(), Some(Error::Fixme));
}

#[test]
fn a_token_is_never_empty() {
    for value in [&b"x"[..], &b" "[..], &b"\t"[..], &b"abc123"[..]] {
        let pending = fresh().authenticate("a".to_string(), "b".to_string(), None).unwrap();
        let client = pending.complete(&response(200, vec![header("token", value)], b"")).unwrap();
        assert!(!client.session_token().as_str().is_empty());
        assert_eq!(client.session_token().as_str().as_bytes(), value);
    }
}

#[test]
fn a_client_shows_neither_server_nor_token() {
    assert_eq!(logged_in("secret-token").fmt(), "MattermostClient");
    assert_eq!(logged_in("other").fmt(), logged_in("secret-token").fmt());
}

#[test]
fn teams_of_the_caller() {
    let pending = logged_in("tok").get_user_teams(UserParam::Me).unwrap();
    let request = pending.request();
    assert_eq!(request.method, Method::Get);
    assert_eq!(request.url.as_str(), "https://chat.example.com/api/v4/users/me/teams");
    assert_eq!(request.body, None);
}

#[test]
fn teams_of_a_named_user() {
    let user = UserParam::Id(UserId("u42".to_string()));
    let pending = logged_in("tok").get_user_teams(user).unwrap();
    assert_eq!(pending.request().url.as_str(), "https://chat.example.com/api/v4/users/u42/teams");
}

#[test]
fn channels_of_a_team() {
    let team = TeamId("t7".to_string());
    let pending = logged_in("tok").get_team_channels_for_user(&team, UserParam::Me).unwrap();
    assert_eq!(
        pending.request().url.as_str(),
        "https://chat.example.com/api/v4/users/me/teams/t7/channels"
    );
    assert_eq!(pending.request().method, Method::Get);
}

#[test]
fn posts_of_a_channel_with_the_default_page() {
    let pending = logged_in("tok")
        .get_channel_posts(ChannelId("C1".to_string()), PaginationParameters::default())
        .unwrap();
    assert_eq!(
        pending.request().url.as_str(),
        "https://chat.example.com/api/v4/channels/C1/posts?page=0&per_page=60"
    );
}

#[test]
fn posts_of_a_channel_with_every_parameter() {
    let params = PaginationParameters {
        page: 3,
        per_page: 200,
        since: Some(UnixTimeMs(1546300800000)),
        before: Some(PostId("p&9".to_string())),
        after: Some(PostId("a b#c".to_string())),
    };
    let pending = logged_in("tok").get_channel_posts(ChannelId("C1".to_string()), params).unwrap();
    assert_eq!(
        pending.request().url.as_str(),
        "https://chat.example.com/api/v4/channels/C1/posts?page=3&per_page=200\
&since=1546300800000&before=p%269&after=a%20b%23c"
    );
}

#[test]
fn default_pagination() {
    let params = PaginationParameters::default();
    assert_eq!(
        params,
        PaginationParameters { page: 0, per_page: 60, since: None, before: None, after: None }
    );
}

#[test]
fn query_of_the_parameters() {
    let mut path = String::from("x");
    PaginationParameters::default().push_query(&mut path);
    assert_eq!(path, "x?page=0&per_page=60");
    let mut path = String::new();
    PaginationParameters {
        page: 12,
        per_page: 7,
        since: None,
        before: None,
        after: Some(PostId("é".to_string())),
    }
    .push_query(&mut path);
    assert_eq!(path, "?page=12&per_page=7&after=%C3%A9");
}

#[test]
fn create_post_round_trip() {
    let post = CreatePost {
        channel_id: ChannelId("C1".to_string()),
        message: "hello".to_string(),
        root_id: None,
        file_ids: None,
    };
    let pending = logged_in("tok").create_post(post).unwrap();
    let request = pending.request();
    assert_eq!(request.method, Method::Post);
    assert_eq!(request.url.as_str(), "https://chat.example.com/api/v4/posts");
    let body = request.body.clone().unwrap();
    let sent: serde_json::Value = serde_json::from_str(&body).unwrap();
    assert_eq!(sent["channel_id"], "C1");
    assert_eq!(sent["message"], "hello");
    assert!(sent["root_id"].is_null());
    assert!(sent["file_ids"].is_null());
    assert_eq!(sent.as_object().unwrap().len(), 4);
    assert_eq!(
        body,
        "{\"channel_id\":\"C1\",\"message\":\"hello\",\"root_id\":null,\"file_ids\":null}"
    );
    let back: CreatePost = read(body.as_bytes()).unwrap();
    assert_eq!(
        back,
        CreatePost {
            channel_id: ChannelId("C1".to_string()),
            message: "hello".to_string(),
            root_id: None,
            file_ids: None,
        }
    );
}

#[test]
fn create_post_round_trip_with_root_and_files() {
    let make = || CreatePost {
        channel_id: ChannelId("C\u{e9}1".to_string()),
        message: "line\n\"two\" \\ \u{1F600}".to_string(),
        root_id: Some(PostId("p0".to_string())),
        file_ids: Some(vec![FileId("f1".to_string()), FileId("f2".to_string())]),
    };
    let pending = logged_in("tok").create_post(make()).unwrap();
    let body = pending.request().body.clone().unwrap();
    let back: CreatePost = read(body.as_bytes()).unwrap();
    assert_eq!(back, make());
}

#[test]
fn a_post_that_was_made_is_read_from_the_reply() {
    let post = CreatePost {
        channel_id: ChannelId("C1".to_string()),
        message: "hello".to_string(),
        root_id: None,
        file_ids: None,
    };
    let pending = logged_in("tok").create_post(post).unwrap();
    let made = pending.complete(&response(201, vec![], post_json("p1").as_bytes())).unwrap();
    assert_eq!(made.id, PostId("p1".to_string()));
    assert_eq!(made.message, "hello");
    assert_eq!(made.create_at, 10);
    assert_eq!(made.channel_id, ChannelId("C1".to_string()));
}

#[test]
fn teams_are_read_from_the_reply() {
    let pending = logged_in("tok").get_user_teams(UserParam::Me).unwrap();
    let body = format!("[{}]", TEAM);
    let teams = pending.complete(&response(200, vec![], body.as_bytes())).unwrap();
    assert_eq!(
        teams,
        vec![Team {
            id: TeamId("t1".to_string()),
            create_at: 1,
            update_at: 2,
            delete_at: 0,
            display_name: "Team One".to_string(),
            name: "one".to_string(),
            description: "d".to_string(),
            email: "e@x.org".to_string(),
            type_: "O".to_string(),
            allowed_domains: "".to_string(),
            invite_id: "inv".to_string(),
            allow_open_invite: true,
        }]
    );
}

#[test]
fn no_teams_are_read_from_an_empty_array() {
    let pending = logged_in("tok").get_user_teams(UserParam::Me).unwrap();
    assert_eq!(pending.complete(&response(200, vec![], b" [ ] ")), Ok(vec![]));
}

#[test]
fn a_reply_of_the_wrong_shape_is_a_decode_fault() {
    let refusal = b"{\"id\":\"x\",\"message\":\"no\",\"request_id\":\"r\",\"status_code\":403,\
\"is_oath\":false}";
    let pending = logged_in("tok").get_user_teams(UserParam::Me).unwrap();
    assert_eq!(
        pending.complete(&response(403, vec![], refusal)),
        Err(Error::Json(JsonError::Shape))
    );
    let pending = logged_in("tok").get_user_teams(UserParam::Me).unwrap();
    assert_eq!(
        pending.complete(&response(200, vec![], TEAM.as_bytes())),
        Err(Error::Json(JsonError::Shape))
    );
    let pending = logged_in("tok").get_user_teams(UserParam::Me).unwrap();
    let one_bad = format!("[{},{{\"id\":\"t2\"}}]", TEAM);
    assert_eq!(
        pending.complete(&response(200, vec![], one_bad.as_bytes())),
        Err(Error::Json(JsonError::Shape))
    );
}

#[test]
fn a_reply_that_is_no_json_is_a_decode_fault() {
    for body in [&b""[..], &b"[{"[..], &b"<html>"[..], &b"[] []"[..]] {
        let pending = logged_in("tok").get_user_teams(UserParam::Me).unwrap();
        let ended = pending.complete(&response(200, vec![], body));
        assert!(matches!(ended, Err(Error::Json(JsonError::Syntax(_)))));
    }
}

#[test]
fn a_reply_that_is_no_utf8_is_a_decode_fault() {
    for body in [&b"\xff"[..], &b"[\"\xc3\"]"[..], &b"[]\x80"[..], &b"\xed\xa0\x80"[..]] {
        let pending = logged_in("tok").get_user_teams(UserParam::Me).unwrap();
        let ended = pending.complete(&response(200, vec![], body));
        assert_eq!(ended, Err(Error::Json(JsonError::Utf8)));
    }
}

#[test]
fn channels_are_read_from_the_reply() {
    let body = "[{\"id\":\"C1\",\"create_at\":1,\"update_at\":2,\"delete_at\":3,\"team_id\":\"t1\",\
\"type\":\"O\",\"display_name\":\"Geeks\",\"name\":\"geeks\",\"header\":\"h\",\"purpose\":\"p\",\
\"last_post_at\":4,\"total_msg_count\":5,\"extra_update_at\":6,\"creator_id\":\"u1\"}]";
    let team = TeamId("t1".to_string());
    let pending = logged_in("tok").get_team_channels_for_user(&team, UserParam::Me).unwrap();
    let channels = pending.complete(&response(200, vec![], body.as_bytes())).unwrap();
    assert_eq!(
        channels,
        vec![Channel {
            id: ChannelId("C1".to_string()),
            create_at: 1,
            update_at: 2,
            delete_at: 3,
            team_id: TeamId("t1".to_string()),
            type_: "O".to_string(),
            display_name: "Geeks".to_string(),
            name: "geeks".to_string(),
            header: "h".to_string(),
            purpose: "p".to_string(),
            last_post_at: 4,
            total_msg_count: 5,
            creator_id: "u1".to_string(),
        }]
    );
}

#[test]
fn posts_keep_the_order_that_was_sent() {
    let body = format!(
        "{{\"order\":[\"p3\",\"p1\",\"p2\"],\"posts\":{{\"p1\":{},\"p2\":{},\"p3\":{}}}}}",
        post_json("p1"),
        post_json("p2"),
        post_json("p3")
    );
    let pending = logged_in("tok")
        .get_channel_posts(ChannelId("C1".to_string()), PaginationParameters::default())
        .unwrap();
    let collection: PostCollection =
        pending.complete(&response(200, vec![], body.as_bytes())).unwrap();
    let order: Vec<&str> = collection.order().iter().map(|id| id.0.as_str()).collect();
    assert_eq!(order, vec!["p3", "p1", "p2"]);
    let flat = collection.ordered();
    let ids: Vec<&str> = flat.iter().map(|(id, _)| id.0.as_str()).collect();
    assert_eq!(ids, vec!["p3", "p1", "p2"]);
    let own: Vec<&str> = flat.iter().map(|(_, post)| post.id.0.as_str()).collect();
    assert_eq!(own, vec!["p3", "p1", "p2"]);
    assert_eq!(collection.posts().len(), 3);
}

#[test]
fn posts_without_an_entry_are_left_out_of_the_order() {
    let body = format!(
        "{{\"order\":[\"p9\",\"p2\",\"p1\",\"p2\"],\"posts\":{{\"p1\":{},\"p2\":{}}}}}",
        post_json("p1"),
        post_json("p2")
    );
    let collection: PostCollection = read(body.as_bytes()).unwrap();
    let ids: Vec<&str> = collection.ordered().iter().map(|(id, _)| id.0.as_str()).collect();
    assert_eq!(ids, vec!["p2", "p1", "p2"]);
    assert!(collection.post(&PostId("p9".to_string())).is_none());
    assert_eq!(
        collection.post(&PostId("p1".to_string())).map(|post| post.id.0.as_str()),
        Some("p1")
    );
}

#[test]
fn a_collection_needs_both_parts() {
    let no_order = format!("{{\"posts\":{{\"p1\":{}}}}}", post_json("p1"));
    assert_eq!(read::<PostCollection>(no_order.as_bytes()), Err(JsonError::Shape));
    assert_eq!(read::<PostCollection>(b"{\"order\":[]}"), Err(JsonError::Shape));
    assert_eq!(read::<PostCollection>(b"{\"order\":[1],\"posts\":{}}"), Err(JsonError::Shape));
    assert_eq!(read::<PostCollection>(b"{\"order\":[],\"posts\":[]}"), Err(JsonError::Shape));
    assert_eq!(
        read::<PostCollection>(b"{\"order\":[],\"posts\":{\"p1\":{}}}"),
        Err(JsonError::Shape)
    );
    let empty: PostCollection = read(b"{\"order\":[],\"posts\":{}}").unwrap();
    assert!(empty.order().is_empty() && empty.posts().is_empty() && empty.ordered().is_empty());
}

#[test]
fn clones_do_not_interfere() {
    let first = logged_in("tok");
    let second = first.clone();
    assert!(first == second);
    let teams = first.get_user_teams(UserParam::Me).unwrap();
    let posts = second
        .get_channel_posts(ChannelId("C1".to_string()), PaginationParameters::default())
        .unwrap();
    assert_eq!(teams.request().authorization, posts.request().authorization);
    let posts_body = format!("{{\"order\":[\"p1\"],\"posts\":{{\"p1\":{}}}}}", post_json("p1"));
    let teams_body = format!("[{}]", TEAM);
    // The replies come back in the other order.
    let got_posts = posts.complete(&response(200, vec![], posts_body.as_bytes())).unwrap();
    let got_teams = teams.complete(&response(200, vec![], teams_body.as_bytes())).unwrap();
    assert_eq!(got_posts.order(), &vec![PostId("p1".to_string())]);
    assert_eq!(got_teams.len(), 1);
    assert_eq!(got_teams[0].id, TeamId("t1".to_string()));
}

#[test]
fn a_path_that_does_not_resolve_is_a_url_fault() {
    let started = logged_in("tok").get::<Vec<Team>>("//[::1");
    assert!(matches!(started, Err(Error::Url(_))));
    let started = logged_in("tok").get::<Vec<Team>>("https://exa mple.com/");
    assert!(matches!(started, Err(Error::Url(_))));
}

#[test]
fn the_refusal_of_the_server_can_be_read() {
    let body = b"{\"id\":\"api.context.session_expired\",\"message\":\"expired\",\
\"request_id\":\"r1\",\"status_code\":401,\"is_oath\":false,\"detailed_error\":\"\"}";
    assert_eq!(
        read::<ErrorBody>(body),
        Ok(ErrorBody {
            id: "api.context.session_expired".to_string(),
            message: "expired".to_string(),
            request_id: "r1".to_string(),
            status_code: 401,
            is_oath: false,
        })
    );
}

#[test]
fn errors_wrap_what_went_wrong() {
    assert_eq!(Error::from(JsonError::Shape), Error::Json(JsonError::Shape));
    let fault = url::Url::parse("no url").unwrap_err();
    assert_eq!(Error::from(fault), Error::Url(fault));
    assert_eq!(Address::parse("no url").unwrap_err(), fault);
}

#[test]
fn a_post_reply_may_not_lack_a_field() {
    let whole = post_json("p1");
    assert!(read::<Post>(whole.as_bytes()).is_ok());
    let lacking = whole.replace("\"edit_at\":0,", "");
    assert_eq!(read::<Post>(lacking.as_bytes()), Err(JsonError::Shape));
    let wrong = whole.replace("\"edit_at\":0,", "\"edit_at\":\"0\",");
    assert_eq!(read::<Post>(wrong.as_bytes()), Err(JsonError::Shape));
    let real = whole.replace("\"edit_at\":0,", "\"edit_at\":0.0,");
    assert_eq!(read::<Post>(real.as_bytes()), Err(JsonError::Shape));
}

#[test]
fn the_session_token_is_kept() {
    let client = logged_in("abc123");
    assert_eq!(client.session_token().as_str(), "abc123");
    assert_eq!(client.clone().session_token().as_str(), "abc123");
    assert_eq!(client.http().base_url().as_str(), "https://chat.example.com/api/v4/");
}

#[test]
fn requests_of_the_transport() {
    let client = logged_in("abc123");
    let http = client.http();
    let token = client.session_token();
    let request = http.get("users/me", token).unwrap();
    assert_eq!(request.method, Method::Get);
    assert_eq!(request.url.as_str(), "https://chat.example.com/api/v4/users/me");
    assert_eq!(request.authorization.as_deref(), Some("Bearer abc123"));
    assert_eq!(request.body, None);
    let request = http.post("posts", token, "{}".to_string()).unwrap();
    assert_eq!(request.method, Method::Post);
    assert_eq!(request.url.as_str(), "https://chat.example.com/api/v4/posts");
    assert_eq!(request.authorization.as_deref(), Some("Bearer abc123"));
    assert_eq!(request.body.as_deref(), Some("{}"));
    let request = http.post_unauthenticated("users/login", "x".to_string()).unwrap();
    assert_eq!(request.method, Method::Post);
    assert_eq!(request.url.as_str(), "https://chat.example.com/api/v4/users/login");
    assert_eq!(request.authorization, None);
    assert_eq!(request.body.as_deref(), Some("x"));
    assert!(matches!(http.get("//[", token), Err(Error::Url(_))));
    assert!(matches!(http.post("//[", token, String::new()), Err(Error::Url(_))));
    assert!(matches!(http.post_unauthenticated("//[", String::new()), Err(Error::Url(_))));
}

#[test]
fn a_request_is_put_together_from_its_url() {
    let url = Address::parse("https://chat.example.com/x").unwrap();
    let request = request_to(Ok(url), Method::Get, Some("a".to_string()), None).unwrap();
    assert_eq!(request.url.as_str(), "https://chat.example.com/x");
    assert_eq!(request.authorization.as_deref(), Some("a"));
    let fault = url::Url::parse("::").unwrap_err();
    assert_eq!(
        request_to(Err(fault), Method::Post, None, Some("b".to_string())),
        Err(Error::Url(fault))
    );
}

#[test]
fn of_two_posts_under_one_identifier_the_later_is_read() {
    let body = format!(
        "{{\"order\":[\"p1\"],\"posts\":{{\"p1\":{},\"p1\":{}}}}}",
        post_json("first"),
        post_json("second")
    );
    let collection: PostCollection = read(body.as_bytes()).unwrap();
    assert_eq!(collection.posts().len(), 1);
    assert_eq!(
        collection.post(&PostId("p1".to_string())).map(|post| post.id.0.as_str()),
        Some("second")
    );
}

#[test]
fn the_base_of_a_client_is_an_https_url() {
    let client = logged_in("tok");
    assert_eq!(client.http().base_url().scheme(), "https");
    let request = client.get::<Vec<Team>>("http://other.example/x").unwrap();
    assert_eq!(request.request().url.as_str(), "http://other.example/x");
}
