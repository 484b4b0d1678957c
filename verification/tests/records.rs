use mattermost_driver::channel::{Channel, ChannelId};
use mattermost_driver::client::ErrorBody;
use mattermost_driver::json::{read, to_text, JsonError};
use mattermost_driver::post::{Post, PostId};
use mattermost_driver::team::{Team, TeamId};
use mattermost_driver::user::{NotifyOption, User, UserId, UserNotifyProps, UserParam};

fn parsed(text: &str) -> serde_json::Value {
    serde_json::from_str(text).unwrap()
}

fn a_team() -> Team {
    Team {
        id: TeamId("t1".to_string()),
        create_at: 1,
        update_at: -2,
        delete_at: 0,
        display_name: "Team \"One\"".to_string(),
        name: "one".to_string(),
        description: "d\u{e9}".to_string(),
        email: "e@x.org".to_string(),
        type_: "O".to_string(),
        allowed_domains: "".to_string(),
        invite_id: "inv".to_string(),
        allow_open_invite: true,
    }
}

fn a_channel() -> Channel {
    Channel {
        id: ChannelId("C1".to_string()),
        create_at: 1,
        update_at: 2,
        delete_at: 3,
        team_id: TeamId("t1".to_string()),
        type_: "P".to_string(),
        display_name: "Geeks".to_string(),
        name: "geeks".to_string(),
        header: "h".to_string(),
        purpose: "p".to_string(),
        last_post_at: i64::MAX,
        total_msg_count: i64::MIN,
        creator_id: "u1".to_string(),
    }
}

fn a_post() -> Post {
    Post {
        id: PostId("p1".to_string()),
        create_at: 10,
        update_at: 11,
        delete_at: 12,
        edit_at: 13,
        user_id: UserId("u1".to_string()),
        channel_id: ChannelId("C1".to_string()),
        root_id: PostId("r".to_string()),
        parent_id: PostId("pa".to_string()),
        original_id: PostId("o".to_string()),
        message: "hello\nworld".to_string(),
        type_: "system".to_string(),
        hashtags: "#a #b".to_string(),
        pending_post_id: PostId("pp".to_string()),
    }
}

fn a_user(failed_attempts: Option<i64>, mfa_active: Option<bool>) -> User {
    User {
        id: UserId("u1".to_string()),
        create_at: 1,
        update_at: 2,
        delete_at: 0,
        username: "alice".to_string(),
        first_name: "Alice".to_string(),
        last_name: "A".to_string(),
        nickname: "al".to_string(),
        email: "a@x.org".to_string(),
        email_verified: false,
        auth_service: "ldap".to_string(),
        roles: "system_user".to_string(),
        locale: "en".to_string(),
        notify_props: UserNotifyProps {
            email: false,
            push: NotifyOption::Never,
            desktop: NotifyOption::Mention,
            desktop_sound: true,
            mention_keys: "".to_string(),
            channel: false,
            first_name: true,
        },
        last_password_update: 3,
        last_picture_update: 4,
        failed_attempts,
        mfa_active,
    }
}

#[test]
fn a_team_is_written_and_read_back() {
    let text = to_text(&a_team()).unwrap();
    assert_eq!(
        parsed(&text),
        parsed(
            "{\"id\":\"t1\",\"create_at\":1,\"update_at\":-2,\"delete_at\":0,\
\"display_name\":\"Team \\\"One\\\"\",\"name\":\"one\",\"description\":\"d\u{e9}\",\
\"email\":\"e@x.org\",\"type\":\"O\",\"allowed_domains\":\"\",\"invite_id\":\"inv\",\
\"allow_open_invite\":true}"
        )
    );
    assert_eq!(read::<Team>(text.as_bytes()), Ok(a_team()));
}

#[test]
fn a_channel_is_written_and_read_back() {
    let text = to_text(&a_channel()).unwrap();
    let value = parsed(&text);
    assert_eq!(value["type"], "P");
    assert_eq!(value["last_post_at"], i64::MAX);
    assert_eq!(value["total_msg_count"], i64::MIN);
    assert_eq!(value["team_id"], "t1");
    assert_eq!(value.as_object().unwrap().len(), 13);
    assert_eq!(read::<Channel>(text.as_bytes()), Ok(a_channel()));
}

#[test]
fn a_post_is_written_and_read_back() {
    let text = to_text(&a_post()).unwrap();
    let value = parsed(&text);
    assert_eq!(value["message"], "hello\nworld");
    assert_eq!(value["type"], "system");
    assert_eq!(value["pending_post_id"], "pp");
    assert_eq!(value.as_object().unwrap().len(), 14);
    assert_eq!(read::<Post>(text.as_bytes()), Ok(a_post()));
}

#[test]
fn a_user_is_written_and_read_back() {
    for (failed_attempts, mfa_active) in
        [(None, None), (Some(0), Some(true)), (Some(-4), None), (None, Some(false))]
    {
        let user = a_user(failed_attempts, mfa_active);
        let text = to_text(&user).unwrap();
        let value = parsed(&text);
        assert_eq!(value["notify_props"]["desktop_sound"], "true");
        assert_eq!(value["notify_props"]["email"], "false");
        assert_eq!(value["notify_props"]["push"], "none");
        assert_eq!(value["email_verified"], false);
        assert_eq!(value["failed_attempts"].as_i64(), failed_attempts);
        assert_eq!(value["mfa_active"].as_bool(), mfa_active);
        assert_eq!(value.as_object().unwrap().len(), 18);
        assert_eq!(read::<User>(text.as_bytes()), Ok(a_user(failed_attempts, mfa_active)));
    }
}

#[test]
fn a_refusal_is_written_and_read_back() {
    let make = || ErrorBody {
        id: "api.x".to_string(),
        message: "no".to_string(),
        request_id: "r".to_string(),
        status_code: 403,
        is_oath: true,
    };
    let text = to_text(&make()).unwrap();
    assert_eq!(
        parsed(&text),
        parsed("{\"id\":\"api.x\",\"message\":\"no\",\"request_id\":\"r\",\"status_code\":403,\"is_oath\":true}")
    );
    assert_eq!(read::<ErrorBody>(text.as_bytes()), Ok(make()));
    assert_eq!(read::<ErrorBody>(b"{\"id\":\"api.x\"}"), Err(JsonError::Shape));
}

#[test]
fn the_user_of_a_request_is_written_and_read_back() {
    assert_eq!(to_text(&UserParam::Me).unwrap(), "\"Me\"");
    assert_eq!(read::<UserParam>(b"\"Me\""), Ok(UserParam::Me));
    let named = || UserParam::Id(UserId("u1".to_string()));
    assert_eq!(to_text(&named()).unwrap(), "{\"Id\":\"u1\"}");
    assert_eq!(read::<UserParam>(b"{\"Id\":\"u1\"}"), Ok(named()));
    assert_eq!(read::<UserParam>(b"\"me\""), Err(JsonError::Shape));
    assert_eq!(read::<UserParam>(b"{\"Id\":1}"), Err(JsonError::Shape));
    assert_eq!(read::<UserParam>(b"{\"id\":\"u1\"}"), Err(JsonError::Shape));
    assert_eq!(read::<UserParam>(b"{\"Id\":\"u1\",\"x\":1}"), Err(JsonError::Shape));
    assert_eq!(read::<UserParam>(b"{}"), Err(JsonError::Shape));
    assert_eq!(read::<UserParam>(b"null"), Err(JsonError::Shape));
}

#[test]
fn ids_are_written_as_texts() {
    assert_eq!(to_text(&TeamId("t".to_string())).unwrap(), "\"t\"");
    assert_eq!(to_text(&ChannelId("c".to_string())).unwrap(), "\"c\"");
    assert_eq!(to_text(&UserId("u".to_string())).unwrap(), "\"u\"");
    assert_eq!(to_text(&PostId("p".to_string())).unwrap(), "\"p\"");
    assert_eq!(read::<ChannelId>(b"\"c\""), Ok(ChannelId("c".to_string())));
    assert_eq!(read::<UserId>(b"\"u\""), Ok(UserId("u".to_string())));
    assert_eq!(read::<PostId>(b"7"), Err(JsonError::Shape));
    assert_eq!(ChannelId("c1".to_string()).as_str(), "c1");
    assert_eq!(to_text(&5i64).unwrap(), "5");
    assert_eq!(to_text(&true).unwrap(), "true");
}
