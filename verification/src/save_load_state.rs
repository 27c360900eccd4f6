//! The form in which the bot's state is saved between runs, and where it
//! is saved.

use vstd::prelude::*;

use crate::text::owned;
use crate::user_data::{ChatID, UserInfo};

verus! {

/// One saved user: the chat it is filed under and its record.
pub struct UserSerializationInfo {
    pub chat_id: ChatID,
    pub info: UserInfo,
}

impl UserSerializationInfo {
    pub fn new(chat_id: ChatID, info: UserInfo) -> (r: Self)
        ensures
            r.chat_id == chat_id,
            r.info == info,
    {
        UserSerializationInfo { chat_id, info }
    }
}

/// Everything saved: the newest processed update and all users.
pub struct UserCollectionSerializationData {
    pub last_id: i64,
    pub users: Vec<UserSerializationInfo>,
}

impl UserCollectionSerializationData {
    pub fn new(last_id: i64, user_infos: Vec<UserSerializationInfo>) -> (r: Self)
        ensures
            r.last_id == last_id,
            r.users@ == user_infos@,
    {
        UserCollectionSerializationData { last_id, users: user_infos }
    }
}

/// The users that loading `s` yields: each entry filed under its chat,
/// a later entry replacing an earlier one for the same chat.
pub open spec fn entries_map(s: Seq<UserSerializationInfo>) -> Map<ChatID, UserInfo>
    decreases s.len(),
{
    if s.len() == 0 {
        Map::empty()
    } else {
        entries_map(s.drop_last()).insert(s.last().chat_id, s.last().info)
    }
}

/// No chat occurs twice among the entries.
pub open spec fn distinct_chats(s: Seq<UserSerializationInfo>) -> bool {
    forall|i: int, j: int|
        0 <= i < s.len() && 0 <= j < s.len() && i != j ==> #[trigger] s[i].chat_id
            != #[trigger] s[j].chat_id
}

/// With distinct chats, loading files every entry under its chat and
/// nothing else.
pub proof fn lemma_entries_map(s: Seq<UserSerializationInfo>)
    requires
        distinct_chats(s),
    ensures
        forall|i: int|
            0 <= i < s.len() ==> #[trigger] entries_map(s).contains_key(s[i].chat_id)
                && entries_map(s)[s[i].chat_id] == s[i].info,
        forall|k: ChatID|
            #[trigger] entries_map(s).contains_key(k) ==> exists|i: int|
                0 <= i < s.len() && s[i].chat_id == k,
    decreases s.len(),
{
    if s.len() > 0 {
        let t = s.drop_last();
        assert(distinct_chats(t)) by {
            assert forall|i: int, j: int|
                0 <= i < t.len() && 0 <= j < t.len() && i != j implies #[trigger] t[i].chat_id
                != #[trigger] t[j].chat_id by {
                assert(t[i] == s[i] && t[j] == s[j]);
            }
        }
        lemma_entries_map(t);
        assert forall|i: int| 0 <= i < s.len() implies #[trigger] entries_map(s).contains_key(
            s[i].chat_id,
        ) && entries_map(s)[s[i].chat_id] == s[i].info by {
            if i < s.len() - 1 {
                assert(t[i] == s[i]);
                assert(s[i].chat_id != s[s.len() - 1].chat_id);
            }
        }
        assert forall|k: ChatID| #[trigger] entries_map(s).contains_key(k) implies exists|i: int|
            0 <= i < s.len() && s[i].chat_id == k by {
            if k != s.last().chat_id {
                let i = choose|i: int| 0 <= i < t.len() && t[i].chat_id == k;
                assert(s[i] == t[i]);
            } else {
                assert(s[s.len() - 1].chat_id == k);
            }
        }
    }
}

/// Keeps the bot's state in a file.
pub struct FileDataSaver {
    pub path: String,
}

impl FileDataSaver {
    pub fn new(path: &str) -> (r: Self)
        ensures
            r.path@ == path@,
    {
        FileDataSaver { path: owned(path) }
    }
}

} // verus!
