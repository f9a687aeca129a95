//! The account directory: which tracker users are known, and which
//! messaging account belongs to each.

use vstd::prelude::*;
pub use crate::app_config::{AppConfig, UserAccountMapping, UserAccountMappingView};

verus! {

/// The tracker user names of a directory, in its order.
pub open spec fn known_user_names(directory: Seq<UserAccountMappingView>) -> Seq<Seq<char>> {
    directory.map_values(|entry: UserAccountMappingView| entry.backlog_user_name)
}

/// The tracker user names of the account directory, in its order.
pub fn get_backlog_users(app_config: &AppConfig) -> (names: Vec<String>)
    ensures
        names.deep_view() == known_user_names(app_config@.user_account_mapping),
{
    let mut names: Vec<String> = Vec::new();
    let mut i: usize = 0;
    while i < app_config.user_account_mapping.len()
        invariant
            i <= app_config.user_account_mapping.len(),
            names.len() == i,
            forall|k: int|
                0 <= k < i ==> names[k]@ == app_config.user_account_mapping[k].backlog_user_name@,
        decreases app_config.user_account_mapping.len() - i,
    {
        names.push(app_config.user_account_mapping[i].backlog_user_name.clone());
        i += 1;
    }
    assert(names.deep_view() =~= known_user_names(app_config@.user_account_mapping));
    names
}

/// The messaging user id that the directory gives for a tracker user name:
/// that of the first entry with exactly this name, if there is one.
pub open spec fn lookup(directory: Seq<UserAccountMappingView>, backlog_user_name: Seq<char>) -> Option<
    Seq<char>,
>
    decreases directory.len(),
{
    if directory.len() == 0 {
        None
    } else if directory.first().backlog_user_name == backlog_user_name {
        Some(directory.first().slack_user_id)
    } else {
        lookup(directory.drop_first(), backlog_user_name)
    }
}

/// Looks a tracker user name up in the account directory.
pub fn map_to_slack_user_id(app_config: &AppConfig, backlog_user_name: &String) -> (slack_user_id:
    Option<String>)
    ensures
        slack_user_id.deep_view() == lookup(app_config@.user_account_mapping, backlog_user_name@),
{
    let ghost directory = app_config@.user_account_mapping;
    let mut i: usize = 0;
    assert(directory.skip(0) =~= directory);
    while i < app_config.user_account_mapping.len()
        invariant
            i <= app_config.user_account_mapping.len(),
            directory == app_config@.user_account_mapping,
            lookup(directory, backlog_user_name@) == lookup(
                directory.skip(i as int),
                backlog_user_name@,
            ),
        decreases app_config.user_account_mapping.len() - i,
    {
        let mapping = &app_config.user_account_mapping[i];
        assert(directory.skip(i as int).first() == mapping@);
        assert(directory.skip(i as int).drop_first() =~= directory.skip(i + 1));
        if mapping.backlog_user_name == *backlog_user_name {
            return Some(mapping.slack_user_id.clone());
        }
        i += 1;
    }
    None
}

/// Tells whether no tracker user name stands twice in the account directory.
pub fn has_unique_user_names(app_config: &AppConfig) -> (unique: bool)
    ensures
        unique == known_user_names(app_config@.user_account_mapping).no_duplicates(),
{
    let ghost names = known_user_names(app_config@.user_account_mapping);
    let count = app_config.user_account_mapping.len();
    let mut i: usize = 0;
    while i < count
        invariant
            i <= count,
            count == app_config.user_account_mapping.len(),
            names == known_user_names(app_config@.user_account_mapping),
            forall|a: int, b: int| 0 <= a < i && a < b < count ==> names[a] != names[b],
        decreases count - i,
    {
        let mut j: usize = i + 1;
        while j < count
            invariant
                i < j <= count,
                count == app_config.user_account_mapping.len(),
                names == known_user_names(app_config@.user_account_mapping),
                forall|b: int| i < b < j ==> names[i as int] != names[b],
            decreases count - j,
        {
            if app_config.user_account_mapping[i].backlog_user_name
                == app_config.user_account_mapping[j].backlog_user_name {
                assert(names[i as int] == names[j as int]);
                return false;
            }
            j += 1;
        }
        i += 1;
    }
    true
}

/// Whether the entry at `i` is the first of the directory with this name.
pub open spec fn is_first_entry_of(
    directory: Seq<UserAccountMappingView>,
    backlog_user_name: Seq<char>,
    i: int,
) -> bool {
    &&& 0 <= i < directory.len()
    &&& directory[i].backlog_user_name == backlog_user_name
    &&& forall|j: int| 0 <= j < i ==> #[trigger] directory[j].backlog_user_name != backlog_user_name
}

/// The lookup gives the messaging user id of the first entry that has the
/// name, and nothing exactly when no entry has it.
pub proof fn lookup_gives_first_entry(
    directory: Seq<UserAccountMappingView>,
    backlog_user_name: Seq<char>,
)
    ensures
        match lookup(directory, backlog_user_name) {
            Some(slack_user_id) => exists|i: int| #[trigger]
                is_first_entry_of(directory, backlog_user_name, i) && directory[i].slack_user_id
                    == slack_user_id,
            None => forall|i: int|
                0 <= i < directory.len() ==> #[trigger] directory[i].backlog_user_name
                    != backlog_user_name,
        },
    decreases directory.len(),
{
    if directory.len() == 0 {
    } else if directory.first().backlog_user_name == backlog_user_name {
        assert(is_first_entry_of(directory, backlog_user_name, 0));
    } else {
        let rest = directory.drop_first();
        lookup_gives_first_entry(rest, backlog_user_name);
        match lookup(rest, backlog_user_name) {
            Some(slack_user_id) => {
                let at = choose|i: int| #[trigger]
                    is_first_entry_of(rest, backlog_user_name, i) && rest[i].slack_user_id
                        == slack_user_id;
                assert forall|j: int| 0 <= j < at + 1 implies #[trigger] directory[j].backlog_user_name
                    != backlog_user_name by {
                    if j > 0 {
                        assert(rest[j - 1].backlog_user_name != backlog_user_name);
                    }
                }
                assert(is_first_entry_of(directory, backlog_user_name, at + 1));
            },
            None => {
                assert forall|i: int| 0 <= i < directory.len() implies #[trigger] directory[i].backlog_user_name
                    != backlog_user_name by {
                    if i > 0 {
                        assert(rest[i - 1].backlog_user_name != backlog_user_name);
                    }
                }
            },
        }
    }
}

/// In a directory where no user name stands twice, looking up the name of
/// any entry gives that entry's messaging user id.
pub proof fn lookup_finds_each_entry(directory: Seq<UserAccountMappingView>, i: int)
    requires
        known_user_names(directory).no_duplicates(),
        0 <= i < directory.len(),
    ensures
        lookup(directory, directory[i].backlog_user_name) == Some(directory[i].slack_user_id),
{
    let backlog_user_name = directory[i].backlog_user_name;
    let names = known_user_names(directory);
    lookup_gives_first_entry(directory, backlog_user_name);
    assert(names[i] == backlog_user_name);
    if let Some(slack_user_id) = lookup(directory, backlog_user_name) {
        let at = choose|k: int| #[trigger]
            is_first_entry_of(directory, backlog_user_name, k) && directory[k].slack_user_id
                == slack_user_id;
        assert(names[at] == backlog_user_name);
    }
}

/// A name is looked up in vain exactly if no entry of the directory has it.
pub proof fn lookup_misses_exactly_unknown_names(
    directory: Seq<UserAccountMappingView>,
    backlog_user_name: Seq<char>,
)
    ensures
        lookup(directory, backlog_user_name) is None <==> !known_user_names(directory).contains(
            backlog_user_name,
        ),
{
    let names = known_user_names(directory);
    lookup_gives_first_entry(directory, backlog_user_name);
    match lookup(directory, backlog_user_name) {
        Some(slack_user_id) => {
            let at = choose|k: int| #[trigger]
                is_first_entry_of(directory, backlog_user_name, k) && directory[k].slack_user_id
                    == slack_user_id;
            assert(names[at] == backlog_user_name);
        },
        None => {
            assert forall|i: int| 0 <= i < names.len() implies names[i] != backlog_user_name by {
                assert(directory[i].backlog_user_name != backlog_user_name);
            }
        },
    }
}

} // verus!
