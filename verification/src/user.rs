//! Users.

use vstd::prelude::*;
use vstd::string::StringExecFns;
use crate::json::{
    entry_is_at, no_entries, object, put, read_required, required_field, Decode, Encode,
    Json, JsonView,
};
use crate::text::same_text;
use crate::user::string_boolean::{decoded_flag, encoded_flag, flag_round_trip};

pub mod string_boolean;

verus! {

/// The text by which the server knows a user.
#[derive(Debug, PartialEq, Eq)]
pub struct UserId(pub String);

impl DeepView for UserId {
    type V = Seq<char>;

    open spec fn deep_view(&self) -> Seq<char> {
        self.0@
    }
}

/// A user is named by a JSON string.
impl Decode for UserId {
    open spec fn decoded(value: JsonView) -> Option<Seq<char>> {
        value.text()
    }

    fn decode(value: &Json) -> (record: Option<UserId>) {
        match value.text() {
            Some(text) => Some(UserId(text.clone())),
            None => None,
        }
    }
}

/// The user that a request is about.
#[derive(Debug, PartialEq, Eq)]
pub enum UserParam {
    /// The user who is logged in.
    Me,
    /// The user with this identifier.
    Id(UserId),
}

impl UserParam {
    /// How the user is written in a path: `me`, or the identifier.
    pub open spec fn text(self) -> Seq<char> {
        match self {
            UserParam::Me => "me"@,
            UserParam::Id(id) => id.0@,
        }
    }

    pub fn as_str(&self) -> (text: &str)
        ensures
            text@ == self.text(),
    {
        match self {
            UserParam::Me => "me",
            UserParam::Id(UserId(id)) => id.as_str(),
        }
    }
}

/// The mathematical value of a [`UserParam`].
pub enum UserParamView {
    Me,
    Id(Seq<char>),
}

impl DeepView for UserParam {
    type V = UserParamView;

    open spec fn deep_view(&self) -> UserParamView {
        match self {
            UserParam::Me => UserParamView::Me,
            UserParam::Id(id) => UserParamView::Id(id.0@),
        }
    }
}

/// The user who is logged in is written as the text `Me`, another one as an object that
/// holds the identifier under `Id`.
impl Encode for UserParam {
    open spec fn encoded(record: UserParamView) -> JsonView {
        match record {
            UserParamView::Me => JsonView::String("Me"@),
            UserParamView::Id(id) => JsonView::Object(seq![("Id"@, JsonView::String(id))]),
        }
    }

    fn encode(&self) -> (value: Json) {
        match self {
            UserParam::Me => Json::String(String::from_str("Me")),
            UserParam::Id(id) => {
                let mut entries = no_entries();
                put(&mut entries, "Id", id.encode());
                let value = object(entries);
                assert(value@->Object_0 =~= Self::encoded(self.deep_view())->Object_0);
                value
            },
        }
    }
}

/// The user who is logged in is read from the text `Me`, another one from an object with
/// one entry, which holds the identifier under `Id`.
impl Decode for UserParam {
    open spec fn decoded(value: JsonView) -> Option<UserParamView> {
        match value {
            JsonView::String(text) => if text == "Me"@ {
                Some(UserParamView::Me)
            } else {
                None
            },
            JsonView::Object(entries) => if entries.len() == 1 && entries[0].0 == "Id"@ {
                match entries[0].1 {
                    JsonView::String(id) => Some(UserParamView::Id(id)),
                    _ => None,
                }
            } else {
                None
            },
            _ => None,
        }
    }

    fn decode(value: &Json) -> (record: Option<UserParam>) {
        match value {
            Json::String(text) => {
                if same_text(text.as_str(), "Me") {
                    Some(UserParam::Me)
                } else {
                    None
                }
            },
            Json::Object(_) => {
                let entries = match value.entries() {
                    Some(entries) => entries,
                    None => {
                        return None;
                    },
                };
                if entries.len() != 1 {
                    return None;
                }
                let entry = &entries[0];
                assert(value@->Object_0[0] == (entry.0@, entry.1@));
                if !same_text(entry.0.as_str(), "Id") {
                    return None;
                }
                match &entry.1 {
                    Json::String(id) => Some(UserParam::Id(UserId(id.clone()))),
                    _ => None,
                }
            },
            _ => None,
        }
    }
}

/// What is written for the user of a request is read as that user.
pub proof fn user_param_round_trip(user: UserParamView)
    ensures
        UserParam::decoded(UserParam::encoded(user)) == Some(user),
{
}

/// When a user wants to be notified.
#[derive(Debug, Clone, Copy, PartialEq, Eq, Structural)]
pub enum NotifyOption {
    All,
    Mention,
    Never,
}

impl DeepView for NotifyOption {
    type V = NotifyOption;

    open spec fn deep_view(&self) -> NotifyOption {
        *self
    }
}

/// The option is written in lower case: `all`, `mention` or `none`.
impl Decode for NotifyOption {
    open spec fn decoded(value: JsonView) -> Option<NotifyOption> {
        match value {
            JsonView::String(text) => if text == "all"@ {
                Some(NotifyOption::All)
            } else if text == "mention"@ {
                Some(NotifyOption::Mention)
            } else if text == "none"@ {
                Some(NotifyOption::Never)
            } else {
                None
            },
            _ => None,
        }
    }

    fn decode(value: &Json) -> (record: Option<NotifyOption>) {
        match value {
            Json::String(text) => {
                if same_text(text.as_str(), "all") {
                    Some(NotifyOption::All)
                } else if same_text(text.as_str(), "mention") {
                    Some(NotifyOption::Mention)
                } else if same_text(text.as_str(), "none") {
                    Some(NotifyOption::Never)
                } else {
                    None
                }
            },
            _ => None,
        }
    }
}

impl Encode for NotifyOption {
    open spec fn encoded(record: NotifyOption) -> JsonView {
        JsonView::String(
            match record {
                NotifyOption::All => "all"@,
                NotifyOption::Mention => "mention"@,
                NotifyOption::Never => "none"@,
            },
        )
    }

    fn encode(&self) -> (value: Json) {
        match self {
            NotifyOption::All => Json::String(String::from_str("all")),
            NotifyOption::Mention => Json::String(String::from_str("mention")),
            NotifyOption::Never => Json::String(String::from_str("none")),
        }
    }
}

/// How a user wants to be notified.
#[derive(Debug, PartialEq, Eq)]
pub struct UserNotifyProps {
    pub email: bool,
    pub push: NotifyOption,
    pub desktop: NotifyOption,
    pub desktop_sound: bool,
    pub mention_keys: String,
    pub channel: bool,
    pub first_name: bool,
}

/// The mathematical value of a [`UserNotifyProps`].
pub struct UserNotifyPropsView {
    pub email: bool,
    pub push: NotifyOption,
    pub desktop: NotifyOption,
    pub desktop_sound: bool,
    pub mention_keys: Seq<char>,
    pub channel: bool,
    pub first_name: bool,
}

impl DeepView for UserNotifyProps {
    type V = UserNotifyPropsView;

    open spec fn deep_view(&self) -> UserNotifyPropsView {
        UserNotifyPropsView {
            email: self.email,
            push: self.push,
            desktop: self.desktop,
            desktop_sound: self.desktop_sound,
            mention_keys: self.mention_keys@,
            channel: self.channel,
            first_name: self.first_name,
        }
    }
}

/// The truth value that `value` keeps under `name` as the text `true` or `false`.
pub open spec fn flag_field(value: JsonView, name: Seq<char>) -> Option<bool> {
    match value.field(name) {
        Some(flag) => decoded_flag(flag),
        None => None,
    }
}

fn read_flag(value: &Json, name: &str) -> (flag: Option<bool>)
    ensures
        flag == flag_field(value@, name@),
{
    match value.field(name) {
        Some(flag) => match string_boolean::deserialize(flag) {
            Ok(b) => Some(b),
            Err(_) => None,
        },
        None => None,
    }
}

/// The properties are an object that holds each of them under its name. The truth values
/// among them are written as the texts `true` and `false`.
impl Decode for UserNotifyProps {
    open spec fn decoded(value: JsonView) -> Option<UserNotifyPropsView> {
        let email = flag_field(value, "email"@);
        let push = required_field::<NotifyOption>(value, "push"@);
        let desktop = required_field::<NotifyOption>(value, "desktop"@);
        let desktop_sound = flag_field(value, "desktop_sound"@);
        let mention_keys = value.text_field("mention_keys"@);
        let channel = flag_field(value, "channel"@);
        let first_name = flag_field(value, "first_name"@);
        if email is Some && push is Some && desktop is Some && desktop_sound is Some
            && mention_keys is Some && channel is Some && first_name is Some {
            Some(
                UserNotifyPropsView {
                    email: email.unwrap(),
                    push: push.unwrap(),
                    desktop: desktop.unwrap(),
                    desktop_sound: desktop_sound.unwrap(),
                    mention_keys: mention_keys.unwrap(),
                    channel: channel.unwrap(),
                    first_name: first_name.unwrap(),
                },
            )
        } else {
            None
        }
    }

    fn decode(value: &Json) -> (record: Option<UserNotifyProps>) {
        Some(
            UserNotifyProps {
                email: read_flag(value, "email")?,
                push: read_required::<NotifyOption>(value, "push")?,
                desktop: read_required::<NotifyOption>(value, "desktop")?,
                desktop_sound: read_flag(value, "desktop_sound")?,
                mention_keys: value.text_field("mention_keys")?,
                channel: read_flag(value, "channel")?,
                first_name: read_flag(value, "first_name")?,
            },
        )
    }
}

impl Encode for UserNotifyProps {
    open spec fn encoded(record: UserNotifyPropsView) -> JsonView {
        JsonView::Object(
            seq![
                ("email"@, encoded_flag(record.email)),
                ("push"@, NotifyOption::encoded(record.push)),
                ("desktop"@, NotifyOption::encoded(record.desktop)),
                ("desktop_sound"@, encoded_flag(record.desktop_sound)),
                ("mention_keys"@, JsonView::String(record.mention_keys)),
                ("channel"@, encoded_flag(record.channel)),
                ("first_name"@, encoded_flag(record.first_name)),
            ],
        )
    }

    fn encode(&self) -> (value: Json) {
        let mut entries = no_entries();
        put(&mut entries, "email", string_boolean::serialize(&self.email));
        put(&mut entries, "push", self.push.encode());
        put(&mut entries, "desktop", self.desktop.encode());
        put(&mut entries, "desktop_sound", string_boolean::serialize(&self.desktop_sound));
        put(&mut entries, "mention_keys", Json::String(self.mention_keys.clone()));
        put(&mut entries, "channel", string_boolean::serialize(&self.channel));
        put(&mut entries, "first_name", string_boolean::serialize(&self.first_name));
        let value = object(entries);
        assert(value@->Object_0 =~= Self::encoded(self.deep_view())->Object_0);
        value
    }
}

/// What is written for an option is read as that option.
pub proof fn notify_option_round_trip(option: NotifyOption)
    ensures
        NotifyOption::decoded(NotifyOption::encoded(option)) == Some(option),
{
    reveal_strlit("all");
    reveal_strlit("mention");
    reveal_strlit("none");
    assert("all"@.len() == 3 && "mention"@.len() == 7 && "none"@.len() == 4);
}

/// What is written for the properties is read as those properties.
pub proof fn notify_props_round_trip(props: UserNotifyPropsView)
    ensures
        UserNotifyProps::decoded(UserNotifyProps::encoded(props)) == Some(props),
{
    reveal_strlit("email");
    reveal_strlit("push");
    reveal_strlit("desktop");
    reveal_strlit("desktop_sound");
    reveal_strlit("mention_keys");
    reveal_strlit("channel");
    reveal_strlit("first_name");
    notify_option_round_trip(props.push);
    notify_option_round_trip(props.desktop);
    flag_round_trip(props.email);
    flag_round_trip(props.desktop_sound);
    flag_round_trip(props.channel);
    flag_round_trip(props.first_name);
    let entries = UserNotifyProps::encoded(props)->Object_0;
    assert("email"@.len() == 5 && "push"@.len() == 4 && "desktop"@.len() == 7
        && "desktop_sound"@.len() == 13 && "mention_keys"@.len() == 12 && "channel"@.len() == 7
        && "first_name"@.len() == 10);
    assert("desktop"@[0] == 'd' && "channel"@[0] == 'c');
    entry_is_at(entries, 0);
    entry_is_at(entries, 1);
    entry_is_at(entries, 2);
    entry_is_at(entries, 3);
    entry_is_at(entries, 4);
    entry_is_at(entries, 5);
    entry_is_at(entries, 6);
}

/// A user, as the server describes them.
#[derive(Debug, PartialEq, Eq)]
pub struct User {
    pub id: UserId,
    pub create_at: i64,
    pub update_at: i64,
    pub delete_at: i64,
    pub username: String,
    pub first_name: String,
    pub last_name: String,
    pub nickname: String,
    pub email: String,
    pub email_verified: bool,
    pub auth_service: String,
    pub roles: String,
    pub locale: String,
    pub notify_props: UserNotifyProps,
    pub last_password_update: i64,
    pub last_picture_update: i64,
    pub failed_attempts: Option<i64>,
    pub mfa_active: Option<bool>,
}

/// The mathematical value of a [`User`].
pub struct UserView {
    pub id: Seq<char>,
    pub create_at: i64,
    pub update_at: i64,
    pub delete_at: i64,
    pub username: Seq<char>,
    pub first_name: Seq<char>,
    pub last_name: Seq<char>,
    pub nickname: Seq<char>,
    pub email: Seq<char>,
    pub email_verified: bool,
    pub auth_service: Seq<char>,
    pub roles: Seq<char>,
    pub locale: Seq<char>,
    pub notify_props: UserNotifyPropsView,
    pub last_password_update: i64,
    pub last_picture_update: i64,
    pub failed_attempts: Option<i64>,
    pub mfa_active: Option<bool>,
}

impl DeepView for User {
    type V = UserView;

    open spec fn deep_view(&self) -> UserView {
        UserView {
            id: self.id.deep_view(),
            create_at: self.create_at,
            update_at: self.update_at,
            delete_at: self.delete_at,
            username: self.username@,
            first_name: self.first_name@,
            last_name: self.last_name@,
            nickname: self.nickname@,
            email: self.email@,
            email_verified: self.email_verified,
            auth_service: self.auth_service@,
            roles: self.roles@,
            locale: self.locale@,
            notify_props: self.notify_props.deep_view(),
            last_password_update: self.last_password_update,
            last_picture_update: self.last_picture_update,
            failed_attempts: self.failed_attempts,
            mfa_active: self.mfa_active,
        }
    }
}

/// A user is an object that holds each of its fields under the field's name. The last
/// two may be missing or `null`. Other entries are passed over.
impl Decode for User {
    open spec fn decoded(value: JsonView) -> Option<UserView> {
        let id = value.text_field("id"@);
        let create_at = value.integer_field("create_at"@);
        let update_at = value.integer_field("update_at"@);
        let delete_at = value.integer_field("delete_at"@);
        let username = value.text_field("username"@);
        let first_name = value.text_field("first_name"@);
        let last_name = value.text_field("last_name"@);
        let nickname = value.text_field("nickname"@);
        let email = value.text_field("email"@);
        let email_verified = value.bool_field("email_verified"@);
        let auth_service = value.text_field("auth_service"@);
        let roles = value.text_field("roles"@);
        let locale = value.text_field("locale"@);
        let notify_props = required_field::<UserNotifyProps>(value, "notify_props"@);
        let last_password_update = value.integer_field("last_password_update"@);
        let last_picture_update = value.integer_field("last_picture_update"@);
        let failed_attempts = value.optional_integer_field("failed_attempts"@);
        let mfa_active = value.optional_bool_field("mfa_active"@);
        if id is Some && create_at is Some && update_at is Some && delete_at is Some
            && username is Some && first_name is Some && last_name is Some && nickname is Some
            && email is Some && email_verified is Some && auth_service is Some && roles is Some
            && locale is Some && notify_props is Some && last_password_update is Some
            && last_picture_update is Some && failed_attempts is Some && mfa_active is Some {
            Some(
                UserView {
                    id: id.unwrap(),
                    create_at: create_at.unwrap(),
                    update_at: update_at.unwrap(),
                    delete_at: delete_at.unwrap(),
                    username: username.unwrap(),
                    first_name: first_name.unwrap(),
                    last_name: last_name.unwrap(),
                    nickname: nickname.unwrap(),
                    email: email.unwrap(),
                    email_verified: email_verified.unwrap(),
                    auth_service: auth_service.unwrap(),
                    roles: roles.unwrap(),
                    locale: locale.unwrap(),
                    notify_props: notify_props.unwrap(),
                    last_password_update: last_password_update.unwrap(),
                    last_picture_update: last_picture_update.unwrap(),
                    failed_attempts: failed_attempts.unwrap(),
                    mfa_active: mfa_active.unwrap(),
                },
            )
        } else {
            None
        }
    }

    fn decode(value: &Json) -> (record: Option<User>) {
        Some(
            User {
                id: UserId(value.text_field("id")?),
                create_at: value.integer_field("create_at")?,
                update_at: value.integer_field("update_at")?,
                delete_at: value.integer_field("delete_at")?,
                username: value.text_field("username")?,
                first_name: value.text_field("first_name")?,
                last_name: value.text_field("last_name")?,
                nickname: value.text_field("nickname")?,
                email: value.text_field("email")?,
                email_verified: value.bool_field("email_verified")?,
                auth_service: value.text_field("auth_service")?,
                roles: value.text_field("roles")?,
                locale: value.text_field("locale")?,
                notify_props: read_required::<UserNotifyProps>(value, "notify_props")?,
                last_password_update: value.integer_field("last_password_update")?,
                last_picture_update: value.integer_field("last_picture_update")?,
                failed_attempts: value.optional_integer_field("failed_attempts")?,
                mfa_active: value.optional_bool_field("mfa_active")?,
            },
        )
    }
}

impl Encode for UserId {
    open spec fn encoded(record: Seq<char>) -> JsonView {
        JsonView::String(record)
    }

    fn encode(&self) -> (value: Json) {
        Json::String(self.0.clone())
    }
}

/// A user is written as an object with each of its fields under the field's name; one
/// of the last two that is missing is written as `null`.
impl Encode for User {
    open spec fn encoded(record: UserView) -> JsonView {
        JsonView::Object(
            seq![
                ("id"@, JsonView::String(record.id)),
                ("create_at"@, JsonView::Int(record.create_at)),
                ("update_at"@, JsonView::Int(record.update_at)),
                ("delete_at"@, JsonView::Int(record.delete_at)),
                ("username"@, JsonView::String(record.username)),
                ("first_name"@, JsonView::String(record.first_name)),
                ("last_name"@, JsonView::String(record.last_name)),
                ("nickname"@, JsonView::String(record.nickname)),
                ("email"@, JsonView::String(record.email)),
                ("email_verified"@, JsonView::Bool(record.email_verified)),
                ("auth_service"@, JsonView::String(record.auth_service)),
                ("roles"@, JsonView::String(record.roles)),
                ("locale"@, JsonView::String(record.locale)),
                ("notify_props"@, UserNotifyProps::encoded(record.notify_props)),
                ("last_password_update"@, JsonView::Int(record.last_password_update)),
                ("last_picture_update"@, JsonView::Int(record.last_picture_update)),
                ("failed_attempts"@, Option::<i64>::encoded(record.failed_attempts)),
                ("mfa_active"@, Option::<bool>::encoded(record.mfa_active)),
            ],
        )
    }

    fn encode(&self) -> (value: Json) {
        let mut entries = no_entries();
        put(&mut entries, "id", self.id.encode());
        put(&mut entries, "create_at", Json::Int(self.create_at));
        put(&mut entries, "update_at", Json::Int(self.update_at));
        put(&mut entries, "delete_at", Json::Int(self.delete_at));
        put(&mut entries, "username", Json::String(self.username.clone()));
        put(&mut entries, "first_name", Json::String(self.first_name.clone()));
        put(&mut entries, "last_name", Json::String(self.last_name.clone()));
        put(&mut entries, "nickname", Json::String(self.nickname.clone()));
        put(&mut entries, "email", Json::String(self.email.clone()));
        put(&mut entries, "email_verified", Json::Bool(self.email_verified));
        put(&mut entries, "auth_service", Json::String(self.auth_service.clone()));
        put(&mut entries, "roles", Json::String(self.roles.clone()));
        put(&mut entries, "locale", Json::String(self.locale.clone()));
        put(&mut entries, "notify_props", self.notify_props.encode());
        put(&mut entries, "last_password_update", Json::Int(self.last_password_update));
        put(&mut entries, "last_picture_update", Json::Int(self.last_picture_update));
        put(&mut entries, "failed_attempts", self.failed_attempts.encode());
        put(&mut entries, "mfa_active", self.mfa_active.encode());
        let value = object(entries);
        assert(value@->Object_0 =~= Self::encoded(self.deep_view())->Object_0);
        value
    }
}

/// What is written for a user is read as that user.
pub proof fn user_round_trip(record: UserView)
    ensures
        User::decoded(User::encoded(record)) == Some(record),
{
    reveal_strlit("id");
    reveal_strlit("create_at");
    reveal_strlit("update_at");
    reveal_strlit("delete_at");
    reveal_strlit("username");
    reveal_strlit("first_name");
    reveal_strlit("last_name");
    reveal_strlit("nickname");
    reveal_strlit("email");
    reveal_strlit("email_verified");
    reveal_strlit("auth_service");
    reveal_strlit("roles");
    reveal_strlit("locale");
    reveal_strlit("notify_props");
    reveal_strlit("last_password_update");
    reveal_strlit("last_picture_update");
    reveal_strlit("failed_attempts");
    reveal_strlit("mfa_active");
    notify_props_round_trip(record.notify_props);
    let entries = User::encoded(record)->Object_0;
    assert("id"@.len() == 2
        && "create_at"@.len() == 9
        && "update_at"@.len() == 9
        && "delete_at"@.len() == 9
        && "username"@.len() == 8
        && "first_name"@.len() == 10
        && "last_name"@.len() == 9
        && "nickname"@.len() == 8
        && "email"@.len() == 5
        && "email_verified"@.len() == 14
        && "auth_service"@.len() == 12
        && "roles"@.len() == 5
        && "locale"@.len() == 6
        && "notify_props"@.len() == 12
        && "last_password_update"@.len() == 20
        && "last_picture_update"@.len() == 19
        && "failed_attempts"@.len() == 15
        && "mfa_active"@.len() == 10);
    assert("create_at"@[0] == 'c'
        && "delete_at"@[0] == 'd'
        && "last_name"@[0] == 'l'
        && "update_at"@[0] == 'u'
        && "nickname"@[0] == 'n'
        && "username"@[0] == 'u'
        && "first_name"@[0] == 'f'
        && "mfa_active"@[0] == 'm'
        && "email"@[0] == 'e'
        && "roles"@[0] == 'r'
        && "auth_service"@[0] == 'a'
        && "notify_props"@[0] == 'n');
    entry_is_at(entries, 0);
    entry_is_at(entries, 1);
    entry_is_at(entries, 2);
    entry_is_at(entries, 3);
    entry_is_at(entries, 4);
    entry_is_at(entries, 5);
    entry_is_at(entries, 6);
    entry_is_at(entries, 7);
    entry_is_at(entries, 8);
    entry_is_at(entries, 9);
    entry_is_at(entries, 10);
    entry_is_at(entries, 11);
    entry_is_at(entries, 12);
    entry_is_at(entries, 13);
    entry_is_at(entries, 14);
    entry_is_at(entries, 15);
    entry_is_at(entries, 16);
    entry_is_at(entries, 17);
}

} // verus!
