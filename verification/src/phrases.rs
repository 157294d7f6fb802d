use vstd::prelude::*;

verus! {

/// A fixed piece of English text the popup shows.
#[derive(Clone, Copy, Debug, PartialEq, Eq, Structural)]
pub enum Phrase {
    BadgeRefreshing,
    BadgeRefreshingTooltip,
    BadgeCursorReauthNeeded,
    BadgeCursorReauthNeededTooltip,
    BadgeLoginRequired,
    BadgeLoginRequiredTooltip,
    BadgeError,
    BadgeErrorTooltip,
    BadgeLive,
    BadgeLiveTooltip,
    BadgeStale,
    BadgeStaleTooltip,
    BadgeLoading,
    BadgeLoadingTooltip,
    BadgeActive,
    BadgeActiveTooltip,
    CursorAccountReauthDetail,
    AccountReauthSummary,
    CopilotWindowChat,
    CopilotWindowCompletions,
    CopilotWindowPremium,
    CopilotWindowCredits,
    ZaiCodingPlanUnavailableTitle,
    ZaiCodingPlanUnavailableDetail,
    UpdatedJustNow,
}

/// The English text of each phrase.
pub open spec fn phrase_text(p: Phrase) -> Seq<char> {
    match p {
        Phrase::BadgeRefreshing => "Refreshing"@,
        Phrase::BadgeRefreshingTooltip => "Usage is being refreshed"@,
        Phrase::BadgeCursorReauthNeeded => "Re-auth needed"@,
        Phrase::BadgeCursorReauthNeededTooltip => "Cursor needs a fresh sign-in. Re-authenticate in Cursor, then rescan"@,
        Phrase::BadgeLoginRequired => "Login required"@,
        Phrase::BadgeLoginRequiredTooltip => "Sign in again to keep tracking this account"@,
        Phrase::BadgeError => "Error"@,
        Phrase::BadgeErrorTooltip => "The last refresh failed"@,
        Phrase::BadgeLive => "Live"@,
        Phrase::BadgeLiveTooltip => "Usage was refreshed recently"@,
        Phrase::BadgeStale => "Stale"@,
        Phrase::BadgeStaleTooltip => "Usage has not been refreshed recently"@,
        Phrase::BadgeLoading => "Loading"@,
        Phrase::BadgeLoadingTooltip => "Waiting for the first usage report"@,
        Phrase::BadgeActive => "Active"@,
        Phrase::BadgeActiveTooltip => "This account is the one signed in on this system"@,
        Phrase::CursorAccountReauthDetail => "Cursor needs a fresh sign-in. Re-authenticate in Cursor, then rescan from Settings."@,
        Phrase::AccountReauthSummary => "This account's sign-in has expired. Re-authenticate it in Settings."@,
        Phrase::CopilotWindowChat => "Chat"@,
        Phrase::CopilotWindowCompletions => "Completions"@,
        Phrase::CopilotWindowPremium => "Premium requests"@,
        Phrase::CopilotWindowCredits => "Credits"@,
        Phrase::ZaiCodingPlanUnavailableTitle => "Coding Plan unavailable"@,
        Phrase::ZaiCodingPlanUnavailableDetail => "Coding Plan quotas were not reported by Z.AI."@,
        Phrase::UpdatedJustNow => "Updated just now"@,
    }
}

/// The English text of `p`.
pub fn phrase(p: Phrase) -> (r: String)
    ensures
        r@ == phrase_text(p),
{
    match p {
        Phrase::BadgeRefreshing => String::from_str("Refreshing"),
        Phrase::BadgeRefreshingTooltip => String::from_str("Usage is being refreshed"),
        Phrase::BadgeCursorReauthNeeded => String::from_str("Re-auth needed"),
        Phrase::BadgeCursorReauthNeededTooltip => String::from_str("Cursor needs a fresh sign-in. Re-authenticate in Cursor, then rescan"),
        Phrase::BadgeLoginRequired => String::from_str("Login required"),
        Phrase::BadgeLoginRequiredTooltip => String::from_str("Sign in again to keep tracking this account"),
        Phrase::BadgeError => String::from_str("Error"),
        Phrase::BadgeErrorTooltip => String::from_str("The last refresh failed"),
        Phrase::BadgeLive => String::from_str("Live"),
        Phrase::BadgeLiveTooltip => String::from_str("Usage was refreshed recently"),
        Phrase::BadgeStale => String::from_str("Stale"),
        Phrase::BadgeStaleTooltip => String::from_str("Usage has not been refreshed recently"),
        Phrase::BadgeLoading => String::from_str("Loading"),
        Phrase::BadgeLoadingTooltip => String::from_str("Waiting for the first usage report"),
        Phrase::BadgeActive => String::from_str("Active"),
        Phrase::BadgeActiveTooltip => String::from_str("This account is the one signed in on this system"),
        Phrase::CursorAccountReauthDetail => String::from_str("Cursor needs a fresh sign-in. Re-authenticate in Cursor, then rescan from Settings."),
        Phrase::AccountReauthSummary => String::from_str("This account's sign-in has expired. Re-authenticate it in Settings."),
        Phrase::CopilotWindowChat => String::from_str("Chat"),
        Phrase::CopilotWindowCompletions => String::from_str("Completions"),
        Phrase::CopilotWindowPremium => String::from_str("Premium requests"),
        Phrase::CopilotWindowCredits => String::from_str("Credits"),
        Phrase::ZaiCodingPlanUnavailableTitle => String::from_str("Coding Plan unavailable"),
        Phrase::ZaiCodingPlanUnavailableDetail => String::from_str("Coding Plan quotas were not reported by Z.AI."),
        Phrase::UpdatedJustNow => String::from_str("Updated just now"),
    }
}

} // verus!
