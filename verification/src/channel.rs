//! Channels.

use vstd::prelude::*;
use crate::json::{
    entry_is_at, no_entries, object, put, Decode, Encode, Json, JsonView,
};
use crate::team::TeamId;

verus! {

/// The text by which the server knows a channel.
#[derive(Debug, PartialEq, Eq)]
pub struct ChannelId(pub String);

impl DeepView for ChannelId {
    type V = Seq<char>;

    open spec fn deep_view(&self) -> Seq<char> {
        self.0@
    }
}

impl ChannelId {
    pub fn as_str(&self) -> (text: &str)
        ensures
            text@ == self.deep_view(),
    {
        self.0.as_str()
    }
}

/// A channel is named by a JSON string.
impl Decode for ChannelId {
    open spec fn decoded(value: JsonView) -> Option<Seq<char>> {
        value.text()
    }

    fn decode(value: &Json) -> (record: Option<ChannelId>) {
        match value.text() {
            Some(text) => Some(ChannelId(text.clone())),
            None => None,
        }
    }
}

impl Encode for ChannelId {
    open spec fn encoded(record: Seq<char>) -> JsonView {
        JsonView::String(record)
    }

    fn encode(&self) -> (value: Json) {
        Json::String(self.0.clone())
    }
}

/// A channel, as the server describes it.
#[derive(Debug, PartialEq, Eq)]
pub struct Channel {
    pub id: ChannelId,
    pub create_at: i64,
    pub update_at: i64,
    pub delete_at: i64,
    pub team_id: TeamId,
    pub type_: String,
    pub display_name: String,
    pub name: String,
    pub header: String,
    pub purpose: String,
    pub last_post_at: i64,
    pub total_msg_count: i64,
    pub creator_id: String,
}

/// The mathematical value of a [`Channel`].
pub struct ChannelView {
    pub id: Seq<char>,
    pub create_at: i64,
    pub update_at: i64,
    pub delete_at: i64,
    pub team_id: Seq<char>,
    pub type_: Seq<char>,
    pub display_name: Seq<char>,
    pub name: Seq<char>,
    pub header: Seq<char>,
    pub purpose: Seq<char>,
    pub last_post_at: i64,
    pub total_msg_count: i64,
    pub creator_id: Seq<char>,
}

impl DeepView for Channel {
    type V = ChannelView;

    open spec fn deep_view(&self) -> ChannelView {
        ChannelView {
            id: self.id.deep_view(),
            create_at: self.create_at,
            update_at: self.update_at,
            delete_at: self.delete_at,
            team_id: self.team_id.deep_view(),
            type_: self.type_@,
            display_name: self.display_name@,
            name: self.name@,
            header: self.header@,
            purpose: self.purpose@,
            last_post_at: self.last_post_at,
            total_msg_count: self.total_msg_count,
            creator_id: self.creator_id@,
        }
    }
}

/// A channel is an object that holds each of its fields under the field's name, the kind
/// of channel under `type`. Other entries are passed over.
impl Decode for Channel {
    open spec fn decoded(value: JsonView) -> Option<ChannelView> {
        let id = value.text_field("id"@);
        let create_at = value.integer_field("create_at"@);
        let update_at = value.integer_field("update_at"@);
        let delete_at = value.integer_field("delete_at"@);
        let team_id = value.text_field("team_id"@);
        let type_ = value.text_field("type"@);
        let display_name = value.text_field("display_name"@);
        let name = value.text_field("name"@);
        let header = value.text_field("header"@);
        let purpose = value.text_field("purpose"@);
        let last_post_at = value.integer_field("last_post_at"@);
        let total_msg_count = value.integer_field("total_msg_count"@);
        let creator_id = value.text_field("creator_id"@);
        if id is Some && create_at is Some && update_at is Some && delete_at is Some
            && team_id is Some && type_ is Some && display_name is Some && name is Some
            && header is Some && purpose is Some && last_post_at is Some
            && total_msg_count is Some && creator_id is Some {
            Some(
                ChannelView {
                    id: id.unwrap(),
                    create_at: create_at.unwrap(),
                    update_at: update_at.unwrap(),
                    delete_at: delete_at.unwrap(),
                    team_id: team_id.unwrap(),
                    type_: type_.unwrap(),
                    display_name: display_name.unwrap(),
                    name: name.unwrap(),
                    header: header.unwrap(),
                    purpose: purpose.unwrap(),
                    last_post_at: last_post_at.unwrap(),
                    total_msg_count: total_msg_count.unwrap(),
                    creator_id: creator_id.unwrap(),
                },
            )
        } else {
            None
        }
    }

    fn decode(value: &Json) -> (record: Option<Channel>) {
        Some(
            Channel {
                id: ChannelId(value.text_field("id")?),
                create_at: value.integer_field("create_at")?,
                update_at: value.integer_field("update_at")?,
                delete_at: value.integer_field("delete_at")?,
                team_id: TeamId(value.text_field("team_id")?),
                type_: value.text_field("type")?,
                display_name: value.text_field("display_name")?,
                name: value.text_field("name")?,
                header: value.text_field("header")?,
                purpose: value.text_field("purpose")?,
                last_post_at: value.integer_field("last_post_at")?,
                total_msg_count: value.integer_field("total_msg_count")?,
                creator_id: value.text_field("creator_id")?,
            },
        )
    }
}

/// A channel is written as an object with each of its fields under the field's name, the
/// kind of channel under `type`.
impl Encode for Channel {
    open spec fn encoded(record: ChannelView) -> JsonView {
        JsonView::Object(
            seq![
                ("id"@, JsonView::String(record.id)),
                ("create_at"@, JsonView::Int(record.create_at)),
                ("update_at"@, JsonView::Int(record.update_at)),
                ("delete_at"@, JsonView::Int(record.delete_at)),
                ("team_id"@, JsonView::String(record.team_id)),
                ("type"@, JsonView::String(record.type_)),
                ("display_name"@, JsonView::String(record.display_name)),
                ("name"@, JsonView::String(record.name)),
                ("header"@, JsonView::String(record.header)),
                ("purpose"@, JsonView::String(record.purpose)),
                ("last_post_at"@, JsonView::Int(record.last_post_at)),
                ("total_msg_count"@, JsonView::Int(record.total_msg_count)),
                ("creator_id"@, JsonView::String(record.creator_id)),
            ],
        )
    }

    fn encode(&self) -> (value: Json) {
        let mut entries = no_entries();
        put(&mut entries, "id", self.id.encode());
        put(&mut entries, "create_at", Json::Int(self.create_at));
        put(&mut entries, "update_at", Json::Int(self.update_at));
        put(&mut entries, "delete_at", Json::Int(self.delete_at));
        put(&mut entries, "team_id", self.team_id.encode());
        put(&mut entries, "type", Json::String(self.type_.clone()));
        put(&mut entries, "display_name", Json::String(self.display_name.clone()));
        put(&mut entries, "name", Json::String(self.name.clone()));
        put(&mut entries, "header", Json::String(self.header.clone()));
        put(&mut entries, "purpose", Json::String(self.purpose.clone()));
        put(&mut entries, "last_post_at", Json::Int(self.last_post_at));
        put(&mut entries, "total_msg_count", Json::Int(self.total_msg_count));
        put(&mut entries, "creator_id", Json::String(self.creator_id.clone()));
        let value = object(entries);
        assert(value@->Object_0 =~= Self::encoded(self.deep_view())->Object_0);
        value
    }
}

/// What is written for a channel is read as that channel.
pub proof fn channel_round_trip(record: ChannelView)
    ensures
        Channel::decoded(Channel::encoded(record)) == Some(record),
{
    reveal_strlit("id");
    reveal_strlit("create_at");
    reveal_strlit("update_at");
    reveal_strlit("delete_at");
    reveal_strlit("team_id");
    reveal_strlit("type");
    reveal_strlit("display_name");
    reveal_strlit("name");
    reveal_strlit("header");
    reveal_strlit("purpose");
    reveal_strlit("last_post_at");
    reveal_strlit("total_msg_count");
    reveal_strlit("creator_id");
    let entries = Channel::encoded(record)->Object_0;
    assert("id"@.len() == 2
        && "create_at"@.len() == 9
        && "update_at"@.len() == 9
        && "delete_at"@.len() == 9
        && "team_id"@.len() == 7
        && "type"@.len() == 4
        && "display_name"@.len() == 12
        && "name"@.len() == 4
        && "header"@.len() == 6
        && "purpose"@.len() == 7
        && "last_post_at"@.len() == 12
        && "total_msg_count"@.len() == 15
        && "creator_id"@.len() == 10);
    assert("create_at"@[0] == 'c'
        && "delete_at"@[0] == 'd'
        && "update_at"@[0] == 'u'
        && "purpose"@[0] == 'p'
        && "team_id"@[0] == 't'
        && "name"@[0] == 'n'
        && "type"@[0] == 't'
        && "display_name"@[0] == 'd'
        && "last_post_at"@[0] == 'l');
    entry_is_at(entries, 0);
    entry_is_at(entries, 1);
    entry_is_at(entries, 2);
    entry_is_at(entries, 3);
    entry_is_at(entries, 4);
    entry_is_at(entries, 5);
    entry_is_at(entries, 6);
    entry_is_at(entries, 7);
    entry_is_at(entries, 8);
    entry_is_at(entries, 9);
    entry_is_at(entries, 10);
    entry_is_at(entries, 11);
    entry_is_at(entries, 12);
}

} // verus!
