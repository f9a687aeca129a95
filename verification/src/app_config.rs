//! The process configuration: the bot token, the tracker space, and the
//! account directory that maps tracker user names to messaging user ids.

use vstd::prelude::*;

verus! {

/// One entry of the account directory.
#[derive(Debug, Clone, PartialEq, Eq)]
pub struct UserAccountMapping {
    pub backlog_user_name: String,
    pub slack_user_id: String,
}

/// What a [`UserAccountMapping`] holds, as text.
pub struct UserAccountMappingView {
    pub backlog_user_name: Seq<char>,
    pub slack_user_id: Seq<char>,
}

impl View for UserAccountMapping {
    type V = UserAccountMappingView;

    open spec fn view(&self) -> UserAccountMappingView {
        UserAccountMappingView {
            backlog_user_name: self.backlog_user_name@,
            slack_user_id: self.slack_user_id@,
        }
    }
}

impl DeepView for UserAccountMapping {
    type V = UserAccountMappingView;

    open spec fn deep_view(&self) -> UserAccountMappingView {
        self@
    }
}

/// The configuration of one process, loaded once and read everywhere.
#[derive(Debug, Clone, PartialEq, Eq)]
pub struct AppConfig {
    pub slack_bot_oauth_token: String,
    pub user_account_mapping: Vec<UserAccountMapping>,
    pub backlog_space_id: String,
}

/// What an [`AppConfig`] holds, as text.
pub struct AppConfigView {
    pub slack_bot_oauth_token: Seq<char>,
    pub user_account_mapping: Seq<UserAccountMappingView>,
    pub backlog_space_id: Seq<char>,
}

impl View for AppConfig {
    type V = AppConfigView;

    open spec fn view(&self) -> AppConfigView {
        AppConfigView {
            slack_bot_oauth_token: self.slack_bot_oauth_token@,
            user_account_mapping: self.user_account_mapping.deep_view(),
            backlog_space_id: self.backlog_space_id@,
        }
    }
}

/// The name of the settings file of a profile; the profile is `dev` where
/// none is chosen.
pub open spec fn settings_file_of(profile: Option<Seq<char>>) -> Seq<char> {
    "config/config."@ + (match profile {
        Some(chosen) => chosen,
        None => "dev"@,
    }) + ".json"@
}

/// Names the settings file for the profile that the environment chose, if
/// it chose one.
pub fn config_file_name(app_env: Option<String>) -> (file_name: String)
    ensures
        file_name@ == settings_file_of(app_env.deep_view()),
{
    let mut file_name = String::from_str("config/config.");
    match app_env {
        Some(chosen) => file_name.append(chosen.as_str()),
        None => file_name.append("dev"),
    }
    file_name.append(".json");
    file_name
}

} // verus!
