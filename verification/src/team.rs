//! Teams.

use vstd::prelude::*;
use crate::json::{
    entry_is_at, no_entries, object, put, Decode, Encode, Json, JsonView,
};

verus! {

/// The text by which the server knows a team.
#[derive(Debug, PartialEq, Eq)]
pub struct TeamId(pub String);

impl DeepView for TeamId {
    type V = Seq<char>;

    open spec fn deep_view(&self) -> Seq<char> {
        self.0@
    }
}

impl TeamId {
    pub fn as_str(&self) -> (text: &str)
        ensures
            text@ == self.deep_view(),
    {
        self.0.as_str()
    }
}

/// A team is named by a JSON string.
impl Decode for TeamId {
    open spec fn decoded(value: JsonView) -> Option<Seq<char>> {
        value.text()
    }

    fn decode(value: &Json) -> (record: Option<TeamId>) {
        match value.text() {
            Some(text) => Some(TeamId(text.clone())),
            None => None,
        }
    }
}

/// A team, as the server describes it.
#[derive(Debug, PartialEq, Eq)]
pub struct Team {
    pub id: TeamId,
    pub create_at: i64,
    pub update_at: i64,
    pub delete_at: i64,
    pub display_name: String,
    pub name: String,
    pub description: String,
    pub email: String,
    pub type_: String,
    pub allowed_domains: String,
    pub invite_id: String,
    pub allow_open_invite: bool,
}

/// The mathematical value of a [`Team`].
pub struct TeamView {
    pub id: Seq<char>,
    pub create_at: i64,
    pub update_at: i64,
    pub delete_at: i64,
    pub display_name: Seq<char>,
    pub name: Seq<char>,
    pub description: Seq<char>,
    pub email: Seq<char>,
    pub type_: Seq<char>,
    pub allowed_domains: Seq<char>,
    pub invite_id: Seq<char>,
    pub allow_open_invite: bool,
}

impl DeepView for Team {
    type V = TeamView;

    open spec fn deep_view(&self) -> TeamView {
        TeamView {
            id: self.id.deep_view(),
            create_at: self.create_at,
            update_at: self.update_at,
            delete_at: self.delete_at,
            display_name: self.display_name@,
            name: self.name@,
            description: self.description@,
            email: self.email@,
            type_: self.type_@,
            allowed_domains: self.allowed_domains@,
            invite_id: self.invite_id@,
            allow_open_invite: self.allow_open_invite,
        }
    }
}

/// A team is an object that holds each of its fields under the field's name, the kind
/// of team under `type`. Other entries are passed over.
impl Decode for Team {
    open spec fn decoded(value: JsonView) -> Option<TeamView> {
        let id = value.text_field("id"@);
        let create_at = value.integer_field("create_at"@);
        let update_at = value.integer_field("update_at"@);
        let delete_at = value.integer_field("delete_at"@);
        let display_name = value.text_field("display_name"@);
        let name = value.text_field("name"@);
        let description = value.text_field("description"@);
        let email = value.text_field("email"@);
        let type_ = value.text_field("type"@);
        let allowed_domains = value.text_field("allowed_domains"@);
        let invite_id = value.text_field("invite_id"@);
        let allow_open_invite = value.bool_field("allow_open_invite"@);
        if id is Some && create_at is Some && update_at is Some && delete_at is Some
            && display_name is Some && name is Some && description is Some && email is Some
            && type_ is Some && allowed_domains is Some && invite_id is Some
            && allow_open_invite is Some {
            Some(
                TeamView {
                    id: id.unwrap(),
                    create_at: create_at.unwrap(),
                    update_at: update_at.unwrap(),
                    delete_at: delete_at.unwrap(),
                    display_name: display_name.unwrap(),
                    name: name.unwrap(),
                    description: description.unwrap(),
                    email: email.unwrap(),
                    type_: type_.unwrap(),
                    allowed_domains: allowed_domains.unwrap(),
                    invite_id: invite_id.unwrap(),
                    allow_open_invite: allow_open_invite.unwrap(),
                },
            )
        } else {
            None
        }
    }

    fn decode(value: &Json) -> (record: Option<Team>) {
        Some(
            Team {
                id: TeamId(value.text_field("id")?),
                create_at: value.integer_field("create_at")?,
                update_at: value.integer_field("update_at")?,
                delete_at: value.integer_field("delete_at")?,
                display_name: value.text_field("display_name")?,
                name: value.text_field("name")?,
                description: value.text_field("description")?,
                email: value.text_field("email")?,
                type_: value.text_field("type")?,
                allowed_domains: value.text_field("allowed_domains")?,
                invite_id: value.text_field("invite_id")?,
                allow_open_invite: value.bool_field("allow_open_invite")?,
            },
        )
    }
}

impl Encode for TeamId {
    open spec fn encoded(record: Seq<char>) -> JsonView {
        JsonView::String(record)
    }

    fn encode(&self) -> (value: Json) {
        Json::String(self.0.clone())
    }
}

/// A team is written as an object with each of its fields under the field's name, the
/// kind of team under `type`.
impl Encode for Team {
    open spec fn encoded(record: TeamView) -> JsonView {
        JsonView::Object(
            seq![
                ("id"@, JsonView::String(record.id)),
                ("create_at"@, JsonView::Int(record.create_at)),
                ("update_at"@, JsonView::Int(record.update_at)),
                ("delete_at"@, JsonView::Int(record.delete_at)),
                ("display_name"@, JsonView::String(record.display_name)),
                ("name"@, JsonView::String(record.name)),
                ("description"@, JsonView::String(record.description)),
                ("email"@, JsonView::String(record.email)),
                ("type"@, JsonView::String(record.type_)),
                ("allowed_domains"@, JsonView::String(record.allowed_domains)),
                ("invite_id"@, JsonView::String(record.invite_id)),
                ("allow_open_invite"@, JsonView::Bool(record.allow_open_invite)),
            ],
        )
    }

    fn encode(&self) -> (value: Json) {
        let mut entries = no_entries();
        put(&mut entries, "id", self.id.encode());
        put(&mut entries, "create_at", Json::Int(self.create_at));
        put(&mut entries, "update_at", Json::Int(self.update_at));
        put(&mut entries, "delete_at", Json::Int(self.delete_at));
        put(&mut entries, "display_name", Json::String(self.display_name.clone()));
        put(&mut entries, "name", Json::String(self.name.clone()));
        put(&mut entries, "description", Json::String(self.description.clone()));
        put(&mut entries, "email", Json::String(self.email.clone()));
        put(&mut entries, "type", Json::String(self.type_.clone()));
        put(&mut entries, "allowed_domains", Json::String(self.allowed_domains.clone()));
        put(&mut entries, "invite_id", Json::String(self.invite_id.clone()));
        put(&mut entries, "allow_open_invite", Json::Bool(self.allow_open_invite));
        let value = object(entries);
        assert(value@->Object_0 =~= Self::encoded(self.deep_view())->Object_0);
        value
    }
}

/// What is written for a team is read as that team.
pub proof fn team_round_trip(team: TeamView)
    ensures
        Team::decoded(Team::encoded(team)) == Some(team),
{
    reveal_strlit("id");
    reveal_strlit("create_at");
    reveal_strlit("update_at");
    reveal_strlit("delete_at");
    reveal_strlit("display_name");
    reveal_strlit("name");
    reveal_strlit("description");
    reveal_strlit("email");
    reveal_strlit("type");
    reveal_strlit("allowed_domains");
    reveal_strlit("invite_id");
    reveal_strlit("allow_open_invite");
    let entries = Team::encoded(team)->Object_0;
    assert("id"@.len() == 2 && "create_at"@.len() == 9 && "update_at"@.len() == 9
        && "delete_at"@.len() == 9 && "display_name"@.len() == 12 && "name"@.len() == 4
        && "description"@.len() == 11 && "email"@.len() == 5 && "type"@.len() == 4
        && "allowed_domains"@.len() == 15 && "invite_id"@.len() == 9
        && "allow_open_invite"@.len() == 17);
    assert("create_at"@[0] == 'c' && "update_at"@[0] == 'u' && "delete_at"@[0] == 'd'
        && "invite_id"@[0] == 'i' && "name"@[0] == 'n' && "type"@[0] == 't');
    entry_is_at(entries, 0);
    entry_is_at(entries, 1);
    entry_is_at(entries, 2);
    entry_is_at(entries, 3);
    entry_is_at(entries, 4);
    entry_is_at(entries, 5);
    entry_is_at(entries, 6);
    entry_is_at(entries, 7);
    entry_is_at(entries, 8);
    entry_is_at(entries, 9);
    entry_is_at(entries, 10);
    entry_is_at(entries, 11);
}

} // verus!
