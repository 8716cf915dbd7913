//! Friends of a plex.tv account and the Plex Home users of a household.

use vstd::prelude::*;

use crate::error::Result;
use crate::headers::opt_view;
use crate::ids::PlexToken;
use crate::text::{drop_empty, non_empty_view};

verus! {

broadcast use vstd::string::group_string_axioms;

/// A friend (or shared user) of the account.
#[derive(Clone)]
#[non_exhaustive]
pub struct MyPlexUser {
    /// plex.tv numeric id.
    pub id: u64,
    /// Username.
    pub username: String,
    /// Display title.
    pub title: String,
    /// Email, when visible.
    pub email: Option<String>,
    /// Avatar URL.
    pub thumb: Option<String>,
    /// Also a Plex Home user.
    pub home: bool,
    /// Restricted (managed) user.
    pub restricted: bool,
    /// May sync content offline.
    pub allow_sync: bool,
    /// May use channels.
    pub allow_channels: bool,
    /// May upload camera images.
    pub allow_camera_upload: bool,
    /// Per-share access token.
    pub access_token: Option<PlexToken>,
}

/// A `<User>` element of the friends listing.
#[derive(Clone)]
pub struct FriendDto {
    /// `id`.
    pub id: u64,
    /// `username`.
    pub username: String,
    /// `title`.
    pub title: String,
    /// `email`.
    pub email: Option<String>,
    /// `thumb`.
    pub thumb: Option<String>,
    /// `home` (`1` when set).
    pub home: u8,
    /// `restricted`.
    pub restricted: u8,
    /// `allowSync`.
    pub allow_sync: u8,
    /// `allowChannels`.
    pub allow_channels: u8,
    /// `allowCameraUpload`.
    pub allow_camera_upload: u8,
    /// `accessToken`.
    pub access_token: Option<String>,
}

impl FriendDto {
    /// The user this element describes: each flag is set exactly when
    /// its attribute is `1`; empty email, avatar and token count as
    /// absent.
    pub fn into_domain(self) -> (r: Result<MyPlexUser>)
        ensures
            r matches Ok(u) && {
                &&& u.id == self.id && u.username@ == self.username@ && u.title@ == self.title@
                &&& opt_view(u.email) == non_empty_view(self.email)
                &&& opt_view(u.thumb) == non_empty_view(self.thumb)
                &&& u.home == (self.home == 1) && u.restricted == (self.restricted == 1)
                &&& u.allow_sync == (self.allow_sync == 1)
                &&& u.allow_channels == (self.allow_channels == 1)
                &&& u.allow_camera_upload == (self.allow_camera_upload == 1)
                &&& match non_empty_view(self.access_token) {
                    Some(t) => u.access_token matches Some(k) && k@ == t,
                    None => u.access_token is None,
                }
            },
    {
        let access_token = match drop_empty(self.access_token) {
            Some(t) => Some(PlexToken::new(t.as_str())?),
            None => None,
        };
        Ok(
            MyPlexUser {
                id: self.id,
                username: self.username,
                title: self.title,
                email: drop_empty(self.email),
                thumb: drop_empty(self.thumb),
                home: self.home == 1,
                restricted: self.restricted == 1,
                allow_sync: self.allow_sync == 1,
                allow_channels: self.allow_channels == 1,
                allow_camera_upload: self.allow_camera_upload == 1,
                access_token,
            },
        )
    }
}

/// A Plex Home user of the household.
#[derive(Debug, Clone, PartialEq, Eq)]
#[non_exhaustive]
pub struct MyPlexHomeUser {
    /// plex.tv numeric id.
    pub id: u64,
    /// Display title.
    pub title: String,
    /// Username (managed users have none).
    pub username: Option<String>,
    /// Email.
    pub email: Option<String>,
    /// Avatar URL.
    pub thumb: Option<String>,
    /// Restricted (parental controls).
    pub restricted: bool,
    /// PIN-protected.
    pub protected: bool,
    /// Home administrator.
    pub admin: bool,
    /// Guest account.
    pub guest: bool,
}

/// A `<User>` element of the Home users listing.
#[derive(Debug, Clone)]
pub struct HomeUserDto {
    /// `id`.
    pub id: u64,
    /// `title`.
    pub title: String,
    /// `username`.
    pub username: Option<String>,
    /// `email`.
    pub email: Option<String>,
    /// `thumb`.
    pub thumb: Option<String>,
    /// `restricted` (`1` when set).
    pub restricted: u8,
    /// `protected`.
    pub protected: u8,
    /// `admin`.
    pub admin: u8,
    /// `guest`.
    pub guest: u8,
}

impl HomeUserDto {
    /// The Home user this element describes: each flag is set exactly
    /// when its attribute is `1`; empty username, email and avatar count
    /// as absent.
    pub fn into_domain(self) -> (u: MyPlexHomeUser)
        ensures
            u.id == self.id && u.title@ == self.title@,
            opt_view(u.username) == non_empty_view(self.username),
            opt_view(u.email) == non_empty_view(self.email),
            opt_view(u.thumb) == non_empty_view(self.thumb),
            u.restricted == (self.restricted == 1) && u.protected == (self.protected == 1),
            u.admin == (self.admin == 1) && u.guest == (self.guest == 1),
    {
        MyPlexHomeUser {
            id: self.id,
            title: self.title,
            username: drop_empty(self.username),
            email: drop_empty(self.email),
            thumb: drop_empty(self.thumb),
            restricted: self.restricted == 1,
            protected: self.protected == 1,
            admin: self.admin == 1,
            guest: self.guest == 1,
        }
    }
}

} // verus!
