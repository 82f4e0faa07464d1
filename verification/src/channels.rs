//! Guild channel and role planning.
//!
//! The bot confines itself to one text channel, kept under one category and
//! writable for one role. The runtime fetches what the guild currently has;
//! the decisions over the fetched lists - which role and category to reuse,
//! whether the channel already exists, which channel gates messages - are
//! made here.
use vstd::prelude::*;

use crate::text::str_eq;

verus! {

/// What kind a fetched guild channel is.
#[derive(PartialEq, Eq, Structural, Clone, Copy, Debug)]
pub enum ChannelKind {
    Text,
    Category,
    Other,
}

/// One fetched guild channel, reduced to what planning reads.
#[derive(Debug)]
pub struct ChannelInfo {
    pub id: u64,
    pub kind: ChannelKind,
    pub name: String,
    pub parent: Option<u64>,
}

/// One fetched guild role, reduced to what planning reads.
#[derive(Debug)]
pub struct RoleInfo {
    pub id: u64,
    pub name: String,
}

/// The name of the text channel the bot answers in.
pub fn allowed_channel_name() -> (r: &'static str)
    ensures
        r@ == "kumar-channel"@,
{
    "kumar-channel"
}

/// The name of the category that channel is kept under.
pub fn category_name() -> (r: &'static str)
    ensures
        r@ == "Bot Channels"@,
{
    "Bot Channels"
}

/// The name of the sole role allowed to use the bot.
pub fn allowed_role_name() -> (r: &'static str)
    ensures
        r@ == "Kumar"@,
{
    "Kumar"
}

/// The first channel carrying this name, of any kind: the message gate and
/// the existing-channel fallback go by plain name equality.
pub fn find_channel_by_name(channels: &Vec<ChannelInfo>, name: &str) -> (r: Option<u64>)
    ensures
        match r {
            Some(id) => exists|k: int|
                {
                    &&& 0 <= k < channels@.len()
                    &&& (#[trigger] channels@[k]).name@ == name@
                    &&& channels@[k].id == id
                    &&& forall|j: int| 0 <= j < k ==> channels@[j].name@ != name@
                },
            None => forall|k: int|
                0 <= k < channels@.len() ==> (#[trigger] channels@[k]).name@ != name@,
        },
{
    let n = channels.len();
    let mut k: usize = 0;
    while k < n
        invariant
            n == channels@.len(),
            0 <= k <= n,
            forall|j: int| 0 <= j < k ==> (#[trigger] channels@[j]).name@ != name@,
        decreases n - k,
    {
        if str_eq(channels[k].name.as_str(), name) {
            return Some(channels[k].id);
        }
        k = k + 1;
    }
    None
}

/// The first role carrying this name; `None` means the role must be
/// created.
pub fn find_role_by_name(roles: &Vec<RoleInfo>, name: &str) -> (r: Option<u64>)
    ensures
        match r {
            Some(id) => exists|k: int|
                {
                    &&& 0 <= k < roles@.len()
                    &&& (#[trigger] roles@[k]).name@ == name@
                    &&& roles@[k].id == id
                    &&& forall|j: int| 0 <= j < k ==> roles@[j].name@ != name@
                },
            None => forall|k: int| 0 <= k < roles@.len() ==> (#[trigger] roles@[k]).name@ != name@,
        },
{
    let n = roles.len();
    let mut k: usize = 0;
    while k < n
        invariant
            n == roles@.len(),
            0 <= k <= n,
            forall|j: int| 0 <= j < k ==> (#[trigger] roles@[j]).name@ != name@,
        decreases n - k,
    {
        if str_eq(roles[k].name.as_str(), name) {
            return Some(roles[k].id);
        }
        k = k + 1;
    }
    None
}

/// Whether a fetched channel is the category of this name.
pub open spec fn spec_is_category(c: ChannelInfo, name: Seq<char>) -> bool {
    c.kind == ChannelKind::Category && c.name@ == name
}

/// The first category carrying this name; `None` means the category must be
/// created.
pub fn find_category(channels: &Vec<ChannelInfo>, name: &str) -> (r: Option<u64>)
    ensures
        match r {
            Some(id) => exists|k: int|
                {
                    &&& 0 <= k < channels@.len()
                    &&& spec_is_category(#[trigger] channels@[k], name@)
                    &&& channels@[k].id == id
                    &&& forall|j: int| 0 <= j < k ==> !spec_is_category(channels@[j], name@)
                },
            None => forall|k: int|
                0 <= k < channels@.len() ==> !spec_is_category(#[trigger] channels@[k], name@),
        },
{
    let n = channels.len();
    let mut k: usize = 0;
    while k < n
        invariant
            n == channels@.len(),
            0 <= k <= n,
            forall|j: int| 0 <= j < k ==> !spec_is_category(#[trigger] channels@[j], name@),
        decreases n - k,
    {
        let is_cat = match channels[k].kind {
            ChannelKind::Category => true,
            _ => false,
        };
        if is_cat && str_eq(channels[k].name.as_str(), name) {
            return Some(channels[k].id);
        }
        k = k + 1;
    }
    None
}

/// Whether a fetched channel is the text channel of this name under this
/// category.
pub open spec fn spec_is_bot_channel(c: ChannelInfo, name: Seq<char>, category: u64) -> bool {
    c.kind == ChannelKind::Text && c.name@ == name && c.parent == Some(category)
}

/// Whether the text channel of this name already exists under this
/// category; when it does not, it must be created there.
pub fn text_channel_exists(channels: &Vec<ChannelInfo>, name: &str, category: u64) -> (r: bool)
    ensures
        r == exists|k: int|
            0 <= k < channels@.len() && spec_is_bot_channel(#[trigger] channels@[k], name@, category),
{
    let n = channels.len();
    let mut k: usize = 0;
    while k < n
        invariant
            n == channels@.len(),
            0 <= k <= n,
            forall|j: int|
                0 <= j < k ==> !spec_is_bot_channel(#[trigger] channels@[j], name@, category),
        decreases n - k,
    {
        let is_text = match channels[k].kind {
            ChannelKind::Text => true,
            _ => false,
        };
        let parent_matches = match channels[k].parent {
            Some(p) => p == category,
            None => false,
        };
        if is_text && parent_matches && str_eq(channels[k].name.as_str(), name) {
            return true;
        }
        k = k + 1;
    }
    false
}

} // verus!
