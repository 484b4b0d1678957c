//! Posts.

use vstd::prelude::*;
use crate::channel::ChannelId;
use crate::file::FileId;
use crate::json::{
    entries_view, entry_is_at, no_entries, object, optional_field, put, read_optional,
    read_required, required_field, Decode, Encode, Json, JsonView,
};
use crate::text::same_text;
use crate::user::UserId;

verus! {

/// The text by which the server knows a post.
#[derive(Debug, PartialEq, Eq, Hash)]
pub struct PostId(pub String);

impl DeepView for PostId {
    type V = Seq<char>;

    open spec fn deep_view(&self) -> Seq<char> {
        self.0@
    }
}

/// A post is named by a JSON string.
impl Decode for PostId {
    open spec fn decoded(value: JsonView) -> Option<Seq<char>> {
        value.text()
    }

    fn decode(value: &Json) -> (record: Option<PostId>) {
        match value.text() {
            Some(text) => Some(PostId(text.clone())),
            None => None,
        }
    }
}

impl Encode for PostId {
    open spec fn encoded(record: Seq<char>) -> JsonView {
        JsonView::String(record)
    }

    fn encode(&self) -> (value: Json) {
        Json::String(self.0.clone())
    }
}

/// A post to be made.
#[derive(Debug, PartialEq, Eq)]
pub struct CreatePost {
    pub channel_id: ChannelId,
    pub message: String,
    pub root_id: Option<PostId>,
    pub file_ids: Option<Vec<FileId>>,
}

/// The mathematical value of a [`CreatePost`].
pub struct CreatePostView {
    pub channel_id: Seq<char>,
    pub message: Seq<char>,
    pub root_id: Option<Seq<char>>,
    pub file_ids: Option<Seq<Seq<char>>>,
}

impl DeepView for CreatePost {
    type V = CreatePostView;

    open spec fn deep_view(&self) -> CreatePostView {
        CreatePostView {
            channel_id: self.channel_id.deep_view(),
            message: self.message@,
            root_id: self.root_id.deep_view(),
            file_ids: self.file_ids.deep_view(),
        }
    }
}

/// A post to be made is written as an object with its four fields, each under its name;
/// a field that is missing is written as `null`.
impl Encode for CreatePost {
    open spec fn encoded(record: CreatePostView) -> JsonView {
        JsonView::Object(
            seq![
                ("channel_id"@, JsonView::String(record.channel_id)),
                ("message"@, JsonView::String(record.message)),
                ("root_id"@, Option::<PostId>::encoded(record.root_id)),
                ("file_ids"@, Option::<Vec<FileId>>::encoded(record.file_ids)),
            ],
        )
    }

    fn encode(&self) -> (value: Json) {
        let mut entries = no_entries();
        put(&mut entries, "channel_id", self.channel_id.encode());
        put(&mut entries, "message", Json::String(self.message.clone()));
        put(&mut entries, "root_id", self.root_id.encode());
        put(&mut entries, "file_ids", self.file_ids.encode());
        let value = object(entries);
        assert(value@->Object_0 =~= Self::encoded(self.deep_view())->Object_0);
        value
    }
}

/// A post to be made is read from an object that holds the channel and the message; the
/// post it answers and the files may be missing or `null`. Other entries are passed over.
impl Decode for CreatePost {
    open spec fn decoded(value: JsonView) -> Option<CreatePostView> {
        let channel_id = value.text_field("channel_id"@);
        let message = value.text_field("message"@);
        let root_id = optional_field::<PostId>(value, "root_id"@);
        let file_ids = optional_field::<Vec<FileId>>(value, "file_ids"@);
        if channel_id is Some && message is Some && root_id is Some && file_ids is Some {
            Some(
                CreatePostView {
                    channel_id: channel_id.unwrap(),
                    message: message.unwrap(),
                    root_id: root_id.unwrap(),
                    file_ids: file_ids.unwrap(),
                },
            )
        } else {
            None
        }
    }

    fn decode(value: &Json) -> (record: Option<CreatePost>) {
        Some(
            CreatePost {
                channel_id: ChannelId(value.text_field("channel_id")?),
                message: value.text_field("message")?,
                root_id: read_optional::<PostId>(value, "root_id")?,
                file_ids: read_optional::<Vec<FileId>>(value, "file_ids")?,
            },
        )
    }
}

/// What is written for a post to be made is read as that post.
pub proof fn create_post_round_trip(post: CreatePostView)
    ensures
        CreatePost::decoded(CreatePost::encoded(post)) == Some(post),
{
    reveal_strlit("channel_id");
    reveal_strlit("message");
    reveal_strlit("root_id");
    reveal_strlit("file_ids");
    let entries = CreatePost::encoded(post)->Object_0;
    assert("channel_id"@[0] == 'c' && "message"@[0] == 'm' && "root_id"@[0] == 'r'
        && "file_ids"@[0] == 'f');
    entry_is_at(entries, 0);
    entry_is_at(entries, 1);
    entry_is_at(entries, 2);
    entry_is_at(entries, 3);
    match post.file_ids {
        Some(ids) => {
            let items = Seq::new(ids.len(), |i: int| FileId::encoded(ids[i]));
            assert(Vec::<FileId>::decoded(JsonView::Array(items)).unwrap() =~= ids);
        },
        None => {},
    }
}

/// A post, as the server describes it.
#[derive(Debug, PartialEq, Eq)]
pub struct Post {
    pub id: PostId,
    pub create_at: i64,
    pub update_at: i64,
    pub delete_at: i64,
    pub edit_at: i64,
    pub user_id: UserId,
    pub channel_id: ChannelId,
    pub root_id: PostId,
    pub parent_id: PostId,
    pub original_id: PostId,
    pub message: String,
    pub type_: String,
    pub hashtags: String,
    pub pending_post_id: PostId,
}

/// The mathematical value of a [`Post`].
pub struct PostView {
    pub id: Seq<char>,
    pub create_at: i64,
    pub update_at: i64,
    pub delete_at: i64,
    pub edit_at: i64,
    pub user_id: Seq<char>,
    pub channel_id: Seq<char>,
    pub root_id: Seq<char>,
    pub parent_id: Seq<char>,
    pub original_id: Seq<char>,
    pub message: Seq<char>,
    pub type_: Seq<char>,
    pub hashtags: Seq<char>,
    pub pending_post_id: Seq<char>,
}

impl DeepView for Post {
    type V = PostView;

    open spec fn deep_view(&self) -> PostView {
        PostView {
            id: self.id.deep_view(),
            create_at: self.create_at,
            update_at: self.update_at,
            delete_at: self.delete_at,
            edit_at: self.edit_at,
            user_id: self.user_id.deep_view(),
            channel_id: self.channel_id.deep_view(),
            root_id: self.root_id.deep_view(),
            parent_id: self.parent_id.deep_view(),
            original_id: self.original_id.deep_view(),
            message: self.message@,
            type_: self.type_@,
            hashtags: self.hashtags@,
            pending_post_id: self.pending_post_id.deep_view(),
        }
    }
}

/// A post is an object that holds each of its fields under the field's name, the kind of
/// post under `type`. Other entries are passed over.
impl Decode for Post {
    open spec fn decoded(value: JsonView) -> Option<PostView> {
        let id = value.text_field("id"@);
        let create_at = value.integer_field("create_at"@);
        let update_at = value.integer_field("update_at"@);
        let delete_at = value.integer_field("delete_at"@);
        let edit_at = value.integer_field("edit_at"@);
        let user_id = value.text_field("user_id"@);
        let channel_id = value.text_field("channel_id"@);
        let root_id = value.text_field("root_id"@);
        let parent_id = value.text_field("parent_id"@);
        let original_id = value.text_field("original_id"@);
        let message = value.text_field("message"@);
        let type_ = value.text_field("type"@);
        let hashtags = value.text_field("hashtags"@);
        let pending_post_id = value.text_field("pending_post_id"@);
        if id is Some && create_at is Some && update_at is Some && delete_at is Some
            && edit_at is Some && user_id is Some && channel_id is Some && root_id is Some
            && parent_id is Some && original_id is Some && message is Some && type_ is Some
            && hashtags is Some && pending_post_id is Some {
            Some(
                PostView {
                    id: id.unwrap(),
                    create_at: create_at.unwrap(),
                    update_at: update_at.unwrap(),
                    delete_at: delete_at.unwrap(),
                    edit_at: edit_at.unwrap(),
                    user_id: user_id.unwrap(),
                    channel_id: channel_id.unwrap(),
                    root_id: root_id.unwrap(),
                    parent_id: parent_id.unwrap(),
                    original_id: original_id.unwrap(),
                    message: message.unwrap(),
                    type_: type_.unwrap(),
                    hashtags: hashtags.unwrap(),
                    pending_post_id: pending_post_id.unwrap(),
                },
            )
        } else {
            None
        }
    }

    fn decode(value: &Json) -> (record: Option<Post>) {
        Some(
            Post {
                id: PostId(value.text_field("id")?),
                create_at: value.integer_field("create_at")?,
                update_at: value.integer_field("update_at")?,
                delete_at: value.integer_field("delete_at")?,
                edit_at: value.integer_field("edit_at")?,
                user_id: UserId(value.text_field("user_id")?),
                channel_id: ChannelId(value.text_field("channel_id")?),
                root_id: PostId(value.text_field("root_id")?),
                parent_id: PostId(value.text_field("parent_id")?),
                original_id: PostId(value.text_field("original_id")?),
                message: value.text_field("message")?,
                type_: value.text_field("type")?,
                hashtags: value.text_field("hashtags")?,
                pending_post_id: PostId(value.text_field("pending_post_id")?),
            },
        )
    }
}

/// A post is written as an object with each of its fields under the field's name, the kind
/// of post under `type`.
impl Encode for Post {
    open spec fn encoded(record: PostView) -> JsonView {
        JsonView::Object(
            seq![
                ("id"@, JsonView::String(record.id)),
                ("create_at"@, JsonView::Int(record.create_at)),
                ("update_at"@, JsonView::Int(record.update_at)),
                ("delete_at"@, JsonView::Int(record.delete_at)),
                ("edit_at"@, JsonView::Int(record.edit_at)),
                ("user_id"@, JsonView::String(record.user_id)),
                ("channel_id"@, JsonView::String(record.channel_id)),
                ("root_id"@, JsonView::String(record.root_id)),
                ("parent_id"@, JsonView::String(record.parent_id)),
                ("original_id"@, JsonView::String(record.original_id)),
                ("message"@, JsonView::String(record.message)),
                ("type"@, JsonView::String(record.type_)),
                ("hashtags"@, JsonView::String(record.hashtags)),
                ("pending_post_id"@, JsonView::String(record.pending_post_id)),
            ],
        )
    }

    fn encode(&self) -> (value: Json) {
        let mut entries = no_entries();
        put(&mut entries, "id", self.id.encode());
        put(&mut entries, "create_at", Json::Int(self.create_at));
        put(&mut entries, "update_at", Json::Int(self.update_at));
        put(&mut entries, "delete_at", Json::Int(self.delete_at));
        put(&mut entries, "edit_at", Json::Int(self.edit_at));
        put(&mut entries, "user_id", self.user_id.encode());
        put(&mut entries, "channel_id", self.channel_id.encode());
        put(&mut entries, "root_id", self.root_id.encode());
        put(&mut entries, "parent_id", self.parent_id.encode());
        put(&mut entries, "original_id", self.original_id.encode());
        put(&mut entries, "message", Json::String(self.message.clone()));
        put(&mut entries, "type", Json::String(self.type_.clone()));
        put(&mut entries, "hashtags", Json::String(self.hashtags.clone()));
        put(&mut entries, "pending_post_id", self.pending_post_id.encode());
        let value = object(entries);
        assert(value@->Object_0 =~= Self::encoded(self.deep_view())->Object_0);
        value
    }
}

/// What is written for a post is read as that post.
pub proof fn post_round_trip(record: PostView)
    ensures
        Post::decoded(Post::encoded(record)) == Some(record),
{
    reveal_strlit("id");
    reveal_strlit("create_at");
    reveal_strlit("update_at");
    reveal_strlit("delete_at");
    reveal_strlit("edit_at");
    reveal_strlit("user_id");
    reveal_strlit("channel_id");
    reveal_strlit("root_id");
    reveal_strlit("parent_id");
    reveal_strlit("original_id");
    reveal_strlit("message");
    reveal_strlit("type");
    reveal_strlit("hashtags");
    reveal_strlit("pending_post_id");
    let entries = Post::encoded(record)->Object_0;
    assert("id"@.len() == 2
        && "create_at"@.len() == 9
        && "update_at"@.len() == 9
        && "delete_at"@.len() == 9
        && "edit_at"@.len() == 7
        && "user_id"@.len() == 7
        && "channel_id"@.len() == 10
        && "root_id"@.len() == 7
        && "parent_id"@.len() == 9
        && "original_id"@.len() == 11
        && "message"@.len() == 7
        && "type"@.len() == 4
        && "hashtags"@.len() == 8
        && "pending_post_id"@.len() == 15);
    assert("create_at"@[0] == 'c'
        && "delete_at"@[0] == 'd'
        && "parent_id"@[0] == 'p'
        && "update_at"@[0] == 'u'
        && "edit_at"@[0] == 'e'
        && "message"@[0] == 'm'
        && "root_id"@[0] == 'r'
        && "user_id"@[0] == 'u');
    entry_is_at(entries, 0);
    entry_is_at(entries, 1);
    entry_is_at(entries, 2);
    entry_is_at(entries, 3);
    entry_is_at(entries, 4);
    entry_is_at(entries, 5);
    entry_is_at(entries, 6);
    entry_is_at(entries, 7);
    entry_is_at(entries, 8);
    entry_is_at(entries, 9);
    entry_is_at(entries, 10);
    entry_is_at(entries, 11);
    entry_is_at(entries, 12);
    entry_is_at(entries, 13);
}

/// The posts of a channel: which there are, and in which order they stand.
///
/// The server sends the posts under their identifiers and, apart from them, the
/// identifiers in order. The order of the posts is that of the identifiers, never that in
/// which the posts were sent. No identifier has two posts.
#[derive(Debug, PartialEq, Eq)]
pub struct PostCollection {
    order: Vec<PostId>,
    posts: Vec<(PostId, Post)>,
}

/// The mathematical value of a [`PostCollection`].
pub struct PostCollectionView {
    pub order: Seq<Seq<char>>,
    pub posts: Seq<(Seq<char>, PostView)>,
}

impl DeepView for PostCollection {
    type V = PostCollectionView;

    closed spec fn deep_view(&self) -> PostCollectionView {
        PostCollectionView { order: self.order.deep_view(), posts: self.posts.deep_view() }
    }
}

/// Whether no two of `entries` have the same key.
pub open spec fn distinct_keys<T>(entries: Seq<(Seq<char>, T)>) -> bool {
    forall|i: int, j: int|
        0 <= i < j < entries.len() ==> (#[trigger] entries[i]).0 != (#[trigger] entries[j]).0
}

/// The first of `posts` that stands under `id`.
pub open spec fn first_post(posts: Seq<(Seq<char>, PostView)>, id: Seq<char>) -> Option<PostView>
    decreases posts.len(),
{
    if posts.len() == 0 {
        None
    } else if posts[0].0 == id {
        Some(posts[0].1)
    } else {
        first_post(posts.drop_first(), id)
    }
}

/// The posts with their identifiers in the order that `order` gives. An identifier under
/// which there is no post is left out.
pub open spec fn in_order(order: Seq<Seq<char>>, posts: Seq<(Seq<char>, PostView)>) -> Seq<
    (Seq<char>, PostView),
>
    decreases order.len(),
{
    if order.len() == 0 {
        Seq::empty()
    } else {
        let before = in_order(order.drop_last(), posts);
        match first_post(posts, order.last()) {
            Some(post) => before.push((order.last(), post)),
            None => before,
        }
    }
}

impl PostCollectionView {
    /// No identifier has two posts.
    pub open spec fn wf(self) -> bool {
        distinct_keys(self.posts)
    }

    /// The post that stands under `id`.
    pub open spec fn post(self, id: Seq<char>) -> Option<PostView> {
        first_post(self.posts, id)
    }

    /// The posts with their identifiers, in order.
    pub open spec fn ordered(self) -> Seq<(Seq<char>, PostView)> {
        in_order(self.order, self.posts)
    }
}

/// The posts that stand in the entries of an object, each under its key: there are some
/// where no key stands twice and every value is a post.
pub open spec fn decoded_posts(entries: Seq<(Seq<char>, JsonView)>) -> Option<
    Seq<(Seq<char>, PostView)>,
> {
    if distinct_keys(entries) && forall|i: int|
        0 <= i < entries.len() ==> Post::decoded(#[trigger] entries[i].1) is Some {
        Some(Seq::new(entries.len(), |i: int| (entries[i].0, Post::decoded(entries[i].1).unwrap())))
    } else {
        None
    }
}

/// The posts that `value` keeps under `name` in an object.
pub open spec fn posts_field(value: JsonView, name: Seq<char>) -> Option<
    Seq<(Seq<char>, PostView)>,
> {
    match value.field(name) {
        Some(JsonView::Object(entries)) => decoded_posts(entries),
        _ => None,
    }
}

/// Whether one of the first `end` of `entries` has the key `key`.
fn has_key(entries: &Vec<(String, Json)>, end: usize, key: &str) -> (found: bool)
    requires
        end <= entries@.len(),
    ensures
        found == exists|k: int| 0 <= k < end && (#[trigger] entries@[k]).0@ == key@,
{
    let mut k: usize = 0;
    while k < end
        invariant
            k <= end <= entries@.len(),
            forall|m: int| 0 <= m < k ==> (#[trigger] entries@[m]).0@ != key@,
        decreases end - k,
    {
        if same_text(entries[k].0.as_str(), key) {
            return true;
        }
        k += 1;
    }
    false
}

fn read_posts(value: &Json, name: &str) -> (posts: Option<Vec<(PostId, Post)>>)
    ensures
        posts.deep_view() == posts_field(value@, name@),
        posts matches Some(read) ==> distinct_keys(read.deep_view()),
{
    let kept = match value.field(name) {
        Some(kept) => kept,
        None => { return None; },
    };
    let entries = match kept.entries() {
        Some(entries) => entries,
        None => { return None; },
    };
    let ghost all = entries_view(entries@);
    assert(posts_field(value@, name@) == decoded_posts(all));
    let mut posts: Vec<(PostId, Post)> = Vec::new();
    let mut i: usize = 0;
    while i < entries.len()
        invariant
            i <= entries@.len(),
            all == entries_view(entries@),
            posts_field(value@, name@) == decoded_posts(all),
            posts@.len() == i,
            forall|a: int, b: int|
                0 <= a < b < i ==> (#[trigger] all[a]).0 != (#[trigger] all[b]).0,
            forall|k: int|
                0 <= k < i ==> (#[trigger] posts@[k]).deep_view() == (
                    all[k].0,
                    Post::decoded(all[k].1).unwrap(),
                ) && Post::decoded(all[k].1) is Some,
        decreases entries@.len() - i,
    {
        let entry = &entries[i];
        assert(all[i as int] == (entry.0@, entry.1@));
        if has_key(entries, i, entry.0.as_str()) {
            proof {
                let k = choose|k: int| 0 <= k < i && (#[trigger] entries@[k]).0@ == entry.0@;
                assert(all[k].0 == all[i as int].0);
            }
            return None;
        }
        match Post::decode(&entry.1) {
            Some(post) => {
                posts.push((PostId(entry.0.clone()), post));
            },
            None => {
                assert(Post::decoded(all[i as int].1) is None);
                return None;
            },
        }
        proof {
            assert forall|a: int, b: int| 0 <= a < b < i + 1 implies (#[trigger] all[a]).0 != (
            #[trigger] all[b]).0 by {
                if b == i {
                    assert(entries@[a].0@ != entry.0@);
                }
            }
        }
        i += 1;
    }
    proof {
        assert(distinct_keys(all));
        assert forall|k: int| 0 <= k < all.len() implies Post::decoded(
            #[trigger] all[k].1,
        ) is Some by {
            assert(posts@[k].deep_view().0 == all[k].0);
        }
        let expected = decoded_posts(all).unwrap();
        assert forall|k: int| 0 <= k < all.len() implies posts.deep_view()[k] == expected[k] by {
            assert(posts@[k].deep_view().0 == all[k].0);
        }
        assert(posts.deep_view() =~= expected);
        assert forall|a: int, b: int| 0 <= a < b < expected.len() implies (
        #[trigger] expected[a]).0 != (#[trigger] expected[b]).0 by {
            assert(all[a].0 != all[b].0);
        }
    }
    Some(posts)
}

/// A collection of posts is an object that holds the identifiers in order, as an array
/// under `order`, and the posts, as an object under `posts` in which each post stands under
/// its identifier.
impl Decode for PostCollection {
    open spec fn decoded(value: JsonView) -> Option<PostCollectionView> {
        let order = required_field::<Vec<PostId>>(value, "order"@);
        let posts = posts_field(value, "posts"@);
        if order is Some && posts is Some {
            Some(PostCollectionView { order: order.unwrap(), posts: posts.unwrap() })
        } else {
            None
        }
    }

    fn decode(value: &Json) -> (record: Option<PostCollection>) {
        Some(
            PostCollection {
                order: read_required::<Vec<PostId>>(value, "order")?,
                posts: read_posts(value, "posts")?,
            },
        )
    }
}

impl PostCollection {
    /// No identifier has two posts.
    #[verifier::type_invariant]
    closed spec fn keys_are_distinct(self) -> bool {
        distinct_keys(self.posts.deep_view())
    }

    /// The identifiers, in order.
    pub fn order(&self) -> (order: &Vec<PostId>)
        ensures
            order.deep_view() == self.deep_view().order,
    {
        &self.order
    }

    /// The posts, each with the identifier under which the server sent it; no identifier
    /// stands twice.
    pub fn posts(&self) -> (posts: &Vec<(PostId, Post)>)
        ensures
            posts.deep_view() == self.deep_view().posts,
            self.deep_view().wf(),
    {
        proof {
            use_type_invariant(self);
        }
        &self.posts
    }

    /// The post that stands under `id`.
    pub fn post(&self, id: &PostId) -> (found: Option<&Post>)
        ensures
            found.deep_view() == self.deep_view().post(id.deep_view()),
    {
        let ghost all = self.posts.deep_view();
        assert(all.skip(0) =~= all);
        let mut i: usize = 0;
        while i < self.posts.len()
            invariant
                i <= self.posts@.len(),
                all == self.posts.deep_view(),
                first_post(all, id.deep_view()) == first_post(all.skip(i as int), id.deep_view()),
            decreases self.posts@.len() - i,
        {
            let entry = &self.posts[i];
            proof {
                let rest = all.skip(i as int);
                assert(rest[0] == all[i as int]);
                assert(all[i as int] == self.posts@[i as int].deep_view());
                assert(rest.drop_first() =~= all.skip(i + 1));
            }
            if same_text(entry.0.0.as_str(), id.0.as_str()) {
                return Some(&entry.1);
            }
            i += 1;
        }
        None
    }

    /// The posts with their identifiers, in order. An identifier under which there is no
    /// post is left out.
    pub fn ordered(&self) -> (list: Vec<(&PostId, &Post)>)
        ensures
            list.deep_view() == self.deep_view().ordered(),
    {
        let ghost order = self.order.deep_view();
        let ghost posts = self.posts.deep_view();
        let mut list: Vec<(&PostId, &Post)> = Vec::new();
        let mut i: usize = 0;
        assert(order.take(0) =~= Seq::empty());
        assert(list.deep_view() =~= Seq::empty());
        while i < self.order.len()
            invariant
                i <= self.order@.len(),
                order == self.order.deep_view(),
                posts == self.posts.deep_view(),
                list.deep_view() == in_order(order.take(i as int), posts),
            decreases self.order@.len() - i,
        {
            let id = &self.order[i];
            let ghost before = list.deep_view();
            proof {
                let upto = order.take(i + 1);
                assert(upto.drop_last() =~= order.take(i as int));
                assert(upto.last() == id.deep_view());
            }
            match self.post(id) {
                Some(post) => {
                    list.push((id, post));
                    assert(list.deep_view() =~= before.push((id.deep_view(), post.deep_view())));
                },
                None => {},
            }
            i += 1;
        }
        assert(order.take(i as int) =~= order);
        list
    }
}

/// Where each identifier of the order has a post, the posts in order carry the
/// identifiers of the order, one by one, each with the post that stands under it.
pub proof fn ordered_follows_order(collection: PostCollectionView)
    requires
        forall|i: int|
            0 <= i < collection.order.len() ==> collection.post(
                #[trigger] collection.order[i],
            ) is Some,
    ensures
        collection.ordered().len() == collection.order.len(),
        forall|i: int|
            0 <= i < collection.order.len() ==> (#[trigger] collection.ordered()[i]) == (
                collection.order[i],
                collection.post(collection.order[i]).unwrap(),
            ),
    decreases collection.order.len(),
{
    if collection.order.len() > 0 {
        let shorter = PostCollectionView {
            order: collection.order.drop_last(),
            posts: collection.posts,
        };
        assert forall|i: int| 0 <= i < shorter.order.len() implies shorter.post(
            #[trigger] shorter.order[i],
        ) is Some by {
            assert(shorter.order[i] == collection.order[i]);
        }
        ordered_follows_order(shorter);
        assert(collection.post(collection.order.last()) is Some) by {
            assert(collection.order.last() == collection.order[collection.order.len() - 1]);
        }
        assert forall|i: int| 0 <= i < collection.order.len() implies (
        #[trigger] collection.ordered()[i]) == (
            collection.order[i],
            collection.post(collection.order[i]).unwrap(),
        ) by {
            if i < shorter.order.len() {
                assert(collection.ordered()[i] == shorter.ordered()[i]);
                assert(shorter.order[i] == collection.order[i]);
            }
        }
    }
}

/// The order of a collection that is read is the order that was written: where the
/// array under `order` holds the texts `ids`, the collection's order is `ids`.
pub proof fn decoding_keeps_order(value: JsonView, ids: Seq<Seq<char>>)
    requires
        value.field("order"@) == Some(
            JsonView::Array(Seq::new(ids.len(), |i: int| JsonView::String(ids[i]))),
        ),
        PostCollection::decoded(value) is Some,
    ensures
        PostCollection::decoded(value).unwrap().order == ids,
{
    assert(PostCollection::decoded(value).unwrap().order =~= ids);
}

/// In a collection that was read, no identifier has two posts.
pub proof fn decoded_collection_is_wf(value: JsonView)
    requires
        PostCollection::decoded(value) is Some,
    ensures
        PostCollection::decoded(value).unwrap().wf(),
{
    let entries = value.field("posts"@).unwrap()->Object_0;
    let posts = decoded_posts(entries).unwrap();
    assert forall|i: int, j: int| 0 <= i < j < posts.len() implies (#[trigger] posts[i]).0 != (
    #[trigger] posts[j]).0 by {
        assert(entries[i].0 != entries[j].0);
    }
}

} // verus!
