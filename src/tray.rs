use vstd::prelude::*;
use vstd::string::StringExecFns;

use crate::text::{decimal, push_decimal};

verus! {

/// The four icons the tray can show, one per badge bucket.
#[derive(Clone, Copy, Debug, PartialEq, Eq, Structural)]
pub enum BadgeIcon {
    Default,
    Badge1,
    Badge2,
    Badge3Plus,
}

/// The bucket of an unread count: 0, 1, 2, and everything from 3 up.
pub open spec fn bucket(count: nat) -> BadgeIcon {
    if count == 0 {
        BadgeIcon::Default
    } else if count == 1 {
        BadgeIcon::Badge1
    } else if count == 2 {
        BadgeIcon::Badge2
    } else {
        BadgeIcon::Badge3Plus
    }
}

/// The tooltip shown for an unread count.
pub open spec fn tooltip_text(count: nat) -> Seq<char> {
    if count == 0 {
        "CrewHub"@
    } else {
        "CrewHub \u{2014} "@ + decimal(count) + " unread"@
    }
}

/// The file under the resources' `icons` directory that holds a badge icon;
/// the default icon is the application's own window icon and has none.
pub open spec fn icon_file_name(icon: BadgeIcon) -> Option<Seq<char>> {
    match icon {
        BadgeIcon::Default => None,
        BadgeIcon::Badge1 => Some("tray-badge-1.png"@),
        BadgeIcon::Badge2 => Some("tray-badge-2.png"@),
        BadgeIcon::Badge3Plus => Some("tray-badge-3plus.png"@),
    }
}

/// What a badge update does to the tray, given the count last reported:
/// nothing when the count is unchanged, else the icon of the new bucket.
pub open spec fn badge_effect(last: nat, count: nat) -> Option<BadgeIcon> {
    if last == count {
        None
    } else {
        Some(bucket(count))
    }
}

pub fn badge_icon(count: u32) -> (r: BadgeIcon)
    ensures
        r == bucket(count as nat),
{
    if count == 0 {
        BadgeIcon::Default
    } else if count == 1 {
        BadgeIcon::Badge1
    } else if count == 2 {
        BadgeIcon::Badge2
    } else {
        BadgeIcon::Badge3Plus
    }
}

impl BadgeIcon {
    /// The icon file to load for this icon, `None` for the default icon.
    pub fn file_name(&self) -> (r: Option<&'static str>)
        ensures
            r.is_some() == icon_file_name(*self).is_some(),
            r.is_some() ==> r.unwrap()@ == icon_file_name(*self).unwrap(),
    {
        match self {
            BadgeIcon::Default => None,
            BadgeIcon::Badge1 => Some("tray-badge-1.png"),
            BadgeIcon::Badge2 => Some("tray-badge-2.png"),
            BadgeIcon::Badge3Plus => Some("tray-badge-3plus.png"),
        }
    }
}

pub fn tooltip(count: u32) -> (r: String)
    ensures
        r@ == tooltip_text(count as nat),
{
    if count == 0 {
        String::from_str("CrewHub")
    } else {
        let mut s = String::from_str("CrewHub \u{2014} ");
        push_decimal(&mut s, count);
        s.append(" unread");
        s
    }
}

/// The icon and tooltip that the tray is to show after a badge change.
pub struct BadgeUpdate {
    pub icon: BadgeIcon,
    pub tooltip: String,
}

/// Holds the count last reported to the tray and decides which updates reach it.
pub struct TrayBadgeController {
    last_reported: u32,
}

impl TrayBadgeController {
    /// The count last reported.
    pub closed spec fn last_count(&self) -> nat {
        self.last_reported as nat
    }

    /// A controller for a tray that shows the default icon.
    pub fn new() -> (r: TrayBadgeController)
        ensures
            r.last_count() == 0,
    {
        TrayBadgeController { last_reported: 0 }
    }

    pub fn last_reported(&self) -> (r: u32)
        ensures
            r as nat == self.last_count(),
    {
        self.last_reported
    }

    /// Records `count` as the count last reported and returns what the tray
    /// must now show, or `None` when the count has not changed. The count is
    /// recorded before the tray is touched, so a rendering that fails later is
    /// not retried by a second report of the same count.
    pub fn set_badge(&mut self, count: u32) -> (r: Option<BadgeUpdate>)
        ensures
            final(self).last_count() == count as nat,
            r.is_none() <==> old(self).last_count() == count as nat,
            r.is_some() ==> Some(r.unwrap().icon) == badge_effect(
                old(self).last_count(),
                count as nat,
            ),
            r.is_some() ==> r.unwrap().tooltip@ == tooltip_text(count as nat),
    {
        if self.last_reported == count {
            return None;
        }
        self.last_reported = count;
        Some(BadgeUpdate { icon: badge_icon(count), tooltip: tooltip(count) })
    }
}

/// Why a badge update could not be shown on the tray.
pub enum BadgeError {
    /// The tray icon is not registered with the host.
    TrayNotFound,
    /// The application has no default window icon to restore.
    NoDefaultIcon,
    /// The resources directory could not be resolved.
    ResourceDir { reason: String },
    /// A badge icon file could not be loaded.
    IconLoad { file: String, reason: String },
    /// The tray refused the new icon or tooltip.
    Tray { reason: String },
}

impl BadgeError {
    pub open spec fn message_text(&self) -> Seq<char> {
        match self {
            BadgeError::TrayNotFound => "Tray icon not found"@,
            BadgeError::NoDefaultIcon => "No default icon"@,
            BadgeError::ResourceDir { reason } => reason@,
            BadgeError::IconLoad { file, reason } => "Failed to load badge icon '"@ + file@
                + "': "@ + reason@,
            BadgeError::Tray { reason } => reason@,
        }
    }

    /// The message handed back to the caller of a badge update.
    pub fn message(&self) -> (r: String)
        ensures
            r@ == self.message_text(),
    {
        match self {
            BadgeError::TrayNotFound => String::from_str("Tray icon not found"),
            BadgeError::NoDefaultIcon => String::from_str("No default icon"),
            BadgeError::ResourceDir { reason } => reason.clone(),
            BadgeError::IconLoad { file, reason } => {
                let mut s = String::from_str("Failed to load badge icon '");
                s.append(file.as_str());
                s.append("': ");
                s.append(reason.as_str());
                s
            },
            BadgeError::Tray { reason } => reason.clone(),
        }
    }
}

/// Reporting the same count twice in a row changes the tray once at most: the
/// second report has no effect, whatever the count before the first.
pub proof fn lemma_badge_debounce(last: nat, count: nat)
    ensures
        badge_effect(count, count) == None::<BadgeIcon>,
        badge_effect(last, count) is Some ==> badge_effect(last, count) == Some(bucket(count)),
{
}

/// The bucket of a count is exact: 0 shows the default icon and the base label,
/// 1 and 2 their own icons, and every count from 3 up one shared icon.
pub proof fn lemma_bucket_mapping(count: nat)
    ensures
        bucket(0) == BadgeIcon::Default,
        tooltip_text(0) == "CrewHub"@,
        bucket(1) == BadgeIcon::Badge1,
        bucket(2) == BadgeIcon::Badge2,
        count >= 3 ==> bucket(count) == BadgeIcon::Badge3Plus,
        count > 0 ==> tooltip_text(count) == "CrewHub \u{2014} "@ + decimal(count) + " unread"@,
        count > 0 ==> bucket(count) != BadgeIcon::Default,
{
}

} // verus!
